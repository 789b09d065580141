//! The layout of a Vulkan format, read from the format's name: `R8G8B8A8_UNORM`
//! lists its channels with their bit counts, then the numeric space, then, where
//! there is one, the packing (`B10G11R11_UFLOAT_PACK32`).

use vstd::prelude::*;
use crate::text::{chars_of, lemma_pieces_nonempty, pieces_between, split_chars};
use crate::instance::version_text::is_digit;
use crate::format_attributes::{Channel, Pack, Space, spec_channel_of, spec_pack_of, spec_space_of};
use crate::memory::resources::image_view::ImageAspect;

verus! {

/// A channel of a format and the bits it takes.
#[derive(Debug, Clone, Copy, PartialEq, Eq, Hash, Structural)]
pub struct ChannelBits {
    pub ty: Channel,
    pub bits: u8,
}

/// How many characters at the start of `s` are decimal digits.
pub open spec fn leading_digits(s: Seq<char>) -> nat
    decreases s.len(),
{
    if s.len() > 0 && is_digit(s[0]) {
        1 + leading_digits(s.drop_first())
    } else {
        0
    }
}

/// The number that the decimal digits `d` write.
pub open spec fn digits_value(d: Seq<char>) -> nat
    decreases d.len(),
{
    if d.len() == 0 {
        0
    } else {
        digits_value(d.drop_last()) * 10 + (d.last() as int - '0' as int) as nat
    }
}

pub proof fn lemma_leading_digits_bound(s: Seq<char>)
    ensures
        leading_digits(s) <= s.len(),
    decreases s.len(),
{
    if s.len() > 0 && is_digit(s[0]) {
        lemma_leading_digits_bound(s.drop_first());
    }
}

/// Channels written one after another, each as its letter followed by its bit
/// count in decimal digits; a count must fit in a byte.
pub open spec fn channel_groups(s: Seq<char>) -> Option<Seq<ChannelBits>>
    decreases s.len(),
{
    if s.len() == 0 {
        Some(Seq::<ChannelBits>::empty())
    } else {
        let n = leading_digits(s.drop_first()) as int;
        let value = digits_value(s.subrange(1, 1 + n));
        match spec_channel_of(s[0]) {
            None => None,
            Some(ty) => if n == 0 || value > 255 {
                None
            } else {
                proof {
                    lemma_leading_digits_bound(s.drop_first());
                }
                match channel_groups(s.skip(1 + n)) {
                    None => None,
                    Some(rest) => Some(seq![ChannelBits { ty, bits: value as u8 }] + rest),
                }
            },
        }
    }
}

/// The channel list that the first part of a format name gives: at least one
/// channel.
pub open spec fn spec_channel_list(s: Seq<char>) -> Option<Seq<ChannelBits>> {
    if s.len() == 0 {
        None
    } else {
        channel_groups(s)
    }
}

/// `pre` in front of every list that `r` holds.
pub open spec fn prepend(pre: Seq<ChannelBits>, r: Option<Seq<ChannelBits>>) -> Option<
    Seq<ChannelBits>,
> {
    match r {
        Some(rest) => Some(pre + rest),
        None => None,
    }
}

/// Where the digits at the start of `t` end.
proof fn lemma_leading_digits_exact(t: Seq<char>, k: int)
    requires
        0 <= k <= t.len(),
        forall|m: int| 0 <= m < k ==> is_digit(#[trigger] t[m]),
        k == t.len() || !is_digit(t[k]),
    ensures
        leading_digits(t) == k,
    decreases k,
{
    if k > 0 {
        assert forall|m: int| 0 <= m < k - 1 implies is_digit(#[trigger] t.drop_first()[m]) by {
            assert(t.drop_first()[m] == t[m + 1]);
        }
        if k < t.len() {
            assert(t.drop_first()[k - 1] == t[k]);
        }
        lemma_leading_digits_exact(t.drop_first(), k - 1);
    }
}

/// The value of a digit run, or 256 where it does not fit in a byte.
pub open spec fn capped(v: nat) -> nat {
    if v > 255 {
        256
    } else {
        v
    }
}

/// Counts the digits that start at `chars[from]` and reads their value, capped.
fn read_digits(chars: &Vec<char>, from: usize) -> (r: (usize, u16))
    requires
        from <= chars@.len(),
    ensures
        from + r.0 <= chars@.len(),
        r.0 == leading_digits(chars@.skip(from as int)),
        r.1 == capped(digits_value(chars@.subrange(from as int, from + r.0))),
{
    let mut j: usize = from;
    let mut v: u16 = 0;
    proof {
        assert(chars@.subrange(from as int, from as int) =~= Seq::<char>::empty());
    }
    while j < chars.len() && chars[j] >= '0' && chars[j] <= '9'
        invariant
            from <= j <= chars@.len(),
            forall|m: int| from <= m < j ==> is_digit(#[trigger] chars@[m]),
            v == capped(digits_value(chars@.subrange(from as int, j as int))),
        decreases chars@.len() - j,
    {
        let c = chars[j];
        let ghost before = digits_value(chars@.subrange(from as int, j as int));
        proof {
            let s = chars@.subrange(from as int, j + 1);
            assert(s.drop_last() =~= chars@.subrange(from as int, j as int));
            assert(s.last() == c);
        }
        let d: u16 = (c as u32 - '0' as u32) as u16;
        if v > 255 {
            v = 256;
        } else {
            let next = v * 10 + d;
            if next > 255 {
                v = 256;
            } else {
                v = next;
            }
        }
        j = j + 1;
    }
    proof {
        let t = chars@.skip(from as int);
        assert forall|m: int| 0 <= m < j - from implies is_digit(#[trigger] t[m]) by {
            assert(t[m] == chars@[from + m]);
        }
        if j < chars@.len() {
            assert(t[j - from] == chars@[j as int]);
        }
        lemma_leading_digits_exact(t, j - from);
    }
    (j - from, v)
}

/// Reads a channel list such as `R8G8B8A8`.
fn parse_channel_list(chars: &Vec<char>) -> (r: Option<Vec<ChannelBits>>)
    ensures
        match spec_channel_list(chars@) {
            Some(l) => r is Some && r->Some_0@ == l,
            None => r is None,
        },
{
    if chars.len() == 0 {
        return None;
    }
    let mut out: Vec<ChannelBits> = Vec::new();
    let mut i: usize = 0;
    proof {
        assert(chars@.skip(0) =~= chars@);
        match channel_groups(chars@) {
            Some(l) => {
                assert(out@ + l =~= l);
            },
            None => {},
        }
    }
    while i < chars.len()
        invariant
            0 <= i <= chars@.len(),
            chars@.len() > 0,
            channel_groups(chars@) == prepend(out@, channel_groups(chars@.skip(i as int))),
        decreases chars@.len() - i,
    {
        let ghost t = chars@.skip(i as int);
        let ty = match Channel::from_char(chars[i]) {
            Ok(c) => c,
            Err(_) => {
                proof {
                    assert(t[0] == chars@[i as int]);
                }
                return None;
            },
        };
        let (n, value) = read_digits(chars, i + 1);
        proof {
            assert(t[0] == chars@[i as int]);
            assert(t.drop_first() =~= chars@.skip(i + 1));
            assert(t.subrange(1, 1 + n) =~= chars@.subrange(i + 1, i + 1 + n));
            assert(t.skip(1 + n) =~= chars@.skip(i + 1 + n));
        }
        if n == 0 || value > 255 {
            return None;
        }
        let cb = ChannelBits { ty, bits: value as u8 };
        proof {
            match channel_groups(chars@.skip(i + 1 + n)) {
                Some(rest) => {
                    assert(out@.push(cb) + rest =~= out@ + (seq![cb] + rest));
                },
                None => {},
            }
        }
        out.push(cb);
        i = i + 1 + n;
    }
    proof {
        assert(chars@.skip(i as int) =~= Seq::<char>::empty());
        assert(out@ + Seq::<ChannelBits>::empty() =~= out@);
    }
    Some(out)
}

/// What a format name gives: its channels, its space and, where its third part
/// names one, its packing. Parts after the third are ignored.
pub open spec fn spec_parse_format(name: Seq<char>) -> Option<
    (Seq<ChannelBits>, Space, Option<Pack>),
> {
    let pieces = pieces_between(name, '_');
    match spec_channel_list(pieces[0]) {
        None => None,
        Some(channels) => if pieces.len() < 2 {
            None
        } else {
            match spec_space_of(pieces[1]) {
                None => None,
                Some(space) => Some(
                    (
                        channels,
                        space,
                        if pieces.len() < 3 {
                            None
                        } else {
                            spec_pack_of(pieces[2])
                        },
                    ),
                ),
            }
        },
    }
}

/// A format read from its name.
pub struct Format {
    /// The name the format was read from.
    pub format_def_lit: String,
    pub channel_list: Vec<ChannelBits>,
    pub space: Space,
    pub pack: Option<Pack>,
}

impl View for Format {
    type V = (Seq<char>, Seq<ChannelBits>, Space, Option<Pack>);

    open spec fn view(&self) -> (Seq<char>, Seq<ChannelBits>, Space, Option<Pack>) {
        (self.format_def_lit@, self.channel_list@, self.space, self.pack)
    }
}

/// The bits of all channels together.
pub open spec fn bit_total(l: Seq<ChannelBits>) -> nat
    decreases l.len(),
{
    if l.len() == 0 {
        0
    } else {
        bit_total(l.drop_last()) + l.last().bits as nat
    }
}

pub proof fn lemma_bit_total_prefix(l: Seq<ChannelBits>, i: int)
    requires
        0 <= i <= l.len(),
    ensures
        bit_total(l.take(i)) <= bit_total(l),
    decreases l.len() - i,
{
    if i < l.len() {
        assert(l.take(i + 1).drop_last() =~= l.take(i));
        lemma_bit_total_prefix(l, i + 1);
    } else {
        assert(l.take(i) =~= l);
    }
}

/// Which aspect of an image a format's data belongs to.
#[derive(Debug, Clone, Copy, PartialEq, Eq, Hash, Structural)]
pub enum AspectKind {
    Color,
    Depth,
    Stencil,
}

/// The aspect that the last color, depth or stencil channel decides; color
/// where there is none.
pub open spec fn aspect_of(l: Seq<ChannelBits>) -> AspectKind
    decreases l.len(),
{
    if l.len() == 0 {
        AspectKind::Color
    } else {
        match l.last().ty {
            Channel::Depth => AspectKind::Depth,
            Channel::Stencil => AspectKind::Stencil,
            Channel::Exponent => aspect_of(l.drop_last()),
            _ => AspectKind::Color,
        }
    }
}

/// The aspect flag of each kind.
pub open spec fn aspect_bits(k: AspectKind) -> u8 {
    match k {
        AspectKind::Color => 0x1,
        AspectKind::Depth => 0x2,
        AspectKind::Stencil => 0x4,
    }
}

impl Format {
    /// Reads a format from its name; `Err` where the name does not start with a
    /// channel list and a space.
    pub fn from_name(name: String) -> (r: Result<Format, ()>)
        ensures
            match spec_parse_format(name@) {
                Some((channels, space, pack)) => r is Ok && r->Ok_0@ == (
                    name@,
                    channels,
                    space,
                    pack,
                ),
                None => r is Err,
            },
    {
        let chars = chars_of(name.as_str());
        let pieces = split_chars(&chars, '_');
        proof {
            lemma_pieces_nonempty(chars@, '_');
        }
        let channel_list = match parse_channel_list(&pieces[0]) {
            Some(l) => l,
            None => return Err(()),
        };
        if pieces.len() < 2 {
            return Err(());
        }
        let space = match Space::parse_chars(&pieces[1]) {
            Ok(s) => s,
            Err(_) => return Err(()),
        };
        let pack = if pieces.len() < 3 {
            None
        } else {
            match Pack::parse_chars(&pieces[2]) {
                Ok(p) => Some(p),
                Err(_) => None,
            }
        };
        Ok(Format { format_def_lit: name, channel_list, space, pack })
    }

    /// The size of one texel in bytes: the bits of all channels, divided by eight.
    pub fn size(&self) -> (r: usize)
        requires
            bit_total(self.channel_list@) <= usize::MAX,
        ensures
            r == bit_total(self.channel_list@) / 8,
    {
        let mut total: usize = 0;
        let mut i: usize = 0;
        proof {
            assert(self.channel_list@.take(0) =~= Seq::<ChannelBits>::empty());
        }
        while i < self.channel_list.len()
            invariant
                0 <= i <= self.channel_list@.len(),
                bit_total(self.channel_list@) <= usize::MAX,
                total == bit_total(self.channel_list@.take(i as int)),
            decreases self.channel_list@.len() - i,
        {
            proof {
                assert(self.channel_list@.take(i + 1).drop_last() =~= self.channel_list@.take(
                    i as int,
                ));
                lemma_bit_total_prefix(self.channel_list@, i + 1);
            }
            total = total + self.channel_list[i].bits as usize;
            i = i + 1;
        }
        proof {
            assert(self.channel_list@.take(i as int) =~= self.channel_list@);
        }
        total / 8
    }

    /// The aspect flag of the format: that of its last color, depth or stencil
    /// channel.
    pub fn aspect_flags(&self) -> (r: ImageAspect)
        ensures
            r@ == aspect_bits(aspect_of(self.channel_list@)),
    {
        let mut kind = AspectKind::Color;
        let mut i: usize = 0;
        proof {
            assert(self.channel_list@.take(0) =~= Seq::<ChannelBits>::empty());
        }
        while i < self.channel_list.len()
            invariant
                0 <= i <= self.channel_list@.len(),
                kind == aspect_of(self.channel_list@.take(i as int)),
            decreases self.channel_list@.len() - i,
        {
            proof {
                assert(self.channel_list@.take(i + 1).drop_last() =~= self.channel_list@.take(
                    i as int,
                ));
            }
            match self.channel_list[i].ty {
                Channel::Red | Channel::Green | Channel::Blue | Channel::Alpha => {
                    kind = AspectKind::Color;
                },
                Channel::Depth => {
                    kind = AspectKind::Depth;
                },
                Channel::Stencil => {
                    kind = AspectKind::Stencil;
                },
                Channel::Exponent => {},
            }
            i = i + 1;
        }
        proof {
            assert(self.channel_list@.take(i as int) =~= self.channel_list@);
        }
        match kind {
            AspectKind::Color => ImageAspect::COLOR(),
            AspectKind::Depth => ImageAspect::DEPTH(),
            AspectKind::Stencil => ImageAspect::STENCIL(),
        }
    }
}

/// The formats that a list of names gives, in order, leaving out the names
/// that are no format.
pub open spec fn formats_of(names: Seq<Seq<char>>) -> Seq<
    (Seq<char>, Seq<ChannelBits>, Space, Option<Pack>),
>
    decreases names.len(),
{
    if names.len() == 0 {
        Seq::empty()
    } else {
        let before = formats_of(names.drop_last());
        match spec_parse_format(names.last()) {
            Some((channels, space, pack)) => before.push((names.last(), channels, space, pack)),
            None => before,
        }
    }
}

/// Reads the formats that `names` give, in order, leaving out the names that
/// are no format.
pub fn generate_formats_from_def_list(names: &Vec<String>) -> (r: Vec<Format>)
    ensures
        r@.len() == formats_of(names@.map_values(|s: String| s@)).len(),
        forall|k: int|
            0 <= k < r@.len() ==> #[trigger] r@[k]@ == formats_of(
                names@.map_values(|s: String| s@),
            )[k],
{
    let ghost all = names@.map_values(|s: String| s@);
    let mut out: Vec<Format> = Vec::new();
    let mut i: usize = 0;
    proof {
        assert(all.take(0) =~= Seq::<Seq<char>>::empty());
    }
    while i < names.len()
        invariant
            0 <= i <= names@.len(),
            all == names@.map_values(|s: String| s@),
            out@.len() == formats_of(all.take(i as int)).len(),
            forall|k: int|
                0 <= k < out@.len() ==> #[trigger] out@[k]@ == formats_of(all.take(i as int))[k],
        decreases names@.len() - i,
    {
        proof {
            assert(all.take(i + 1).drop_last() =~= all.take(i as int));
            assert(all.take(i + 1).last() == names@[i as int]@);
        }
        let name = names[i].clone();
        match Format::from_name(name) {
            Ok(f) => {
                out.push(f);
            },
            Err(_) => {},
        }
        i = i + 1;
    }
    proof {
        assert(all.take(i as int) =~= all);
    }
    out
}

/// The plain Rust types that a channel's data can be held in.
#[derive(Debug, Clone, Copy, PartialEq, Eq, Hash, Structural)]
pub enum ChannelScalar {
    U8,
    U16,
    U32,
    I8,
    I16,
    I32,
    F32,
    /// A 16-bit float.
    Half16,
}

/// The type that holds a channel of `bits` bits in `space`.
pub open spec fn spec_resolve(space: Space, bits: u8) -> Option<ChannelScalar> {
    match space {
        Space::Unorm | Space::UScaled | Space::UInt => if bits == 32 {
            Some(ChannelScalar::U32)
        } else if bits == 16 {
            Some(ChannelScalar::U16)
        } else if bits == 8 {
            Some(ChannelScalar::U8)
        } else {
            None
        },
        Space::Snorm | Space::SScaled | Space::SInt => if bits == 32 {
            Some(ChannelScalar::I32)
        } else if bits == 16 {
            Some(ChannelScalar::I16)
        } else if bits == 8 {
            Some(ChannelScalar::I8)
        } else {
            None
        },
        Space::SFloat | Space::SRGB => if bits == 32 {
            Some(ChannelScalar::F32)
        } else if bits == 16 {
            Some(ChannelScalar::Half16)
        } else {
            None
        },
    }
}

/// The type that holds a channel of `bits` bits in `space`; `None` where no
/// plain type fits.
pub fn resolve(space: Space, bits: u8) -> (r: Option<ChannelScalar>)
    ensures
        r == spec_resolve(space, bits),
        r is Some <==> scalar_available(space, bits),
        r is Some ==> scalar_bits(r->Some_0) == bits,
        r is Some ==> scalar_is_float(r->Some_0) == space_is_float(space),
        r is Some ==> scalar_is_signed(r->Some_0) == space_is_signed(space),
{
    proof {
        lemma_resolve_fits_the_channel(space, bits);
    }
    match space {
        Space::Unorm | Space::UScaled | Space::UInt => if bits == 32 {
            Some(ChannelScalar::U32)
        } else if bits == 16 {
            Some(ChannelScalar::U16)
        } else if bits == 8 {
            Some(ChannelScalar::U8)
        } else {
            None
        },
        Space::Snorm | Space::SScaled | Space::SInt => if bits == 32 {
            Some(ChannelScalar::I32)
        } else if bits == 16 {
            Some(ChannelScalar::I16)
        } else if bits == 8 {
            Some(ChannelScalar::I8)
        } else {
            None
        },
        Space::SFloat | Space::SRGB => if bits == 32 {
            Some(ChannelScalar::F32)
        } else if bits == 16 {
            Some(ChannelScalar::Half16)
        } else {
            None
        },
    }
}

/// The width in bits of a scalar type.
pub open spec fn scalar_bits(t: ChannelScalar) -> nat {
    match t {
        ChannelScalar::U8 | ChannelScalar::I8 => 8,
        ChannelScalar::U16 | ChannelScalar::I16 | ChannelScalar::Half16 => 16,
        ChannelScalar::U32 | ChannelScalar::I32 | ChannelScalar::F32 => 32,
    }
}

/// Whether a scalar type is a floating-point type.
pub open spec fn scalar_is_float(t: ChannelScalar) -> bool {
    t == ChannelScalar::F32 || t == ChannelScalar::Half16
}

/// Whether a scalar type is a signed integer type.
pub open spec fn scalar_is_signed(t: ChannelScalar) -> bool {
    t == ChannelScalar::I8 || t == ChannelScalar::I16 || t == ChannelScalar::I32
}

/// Whether the values of a space are floating-point numbers.
pub open spec fn space_is_float(s: Space) -> bool {
    s == Space::SFloat || s == Space::SRGB
}

/// Whether the values of a space are signed integers (or scaled from them).
pub open spec fn space_is_signed(s: Space) -> bool {
    s == Space::Snorm || s == Space::SScaled || s == Space::SInt
}

/// Whether some plain scalar type has `bits` bits and the kind of `space`:
/// integers come in 8, 16 and 32 bits, floats in 16 and 32.
pub open spec fn scalar_available(space: Space, bits: u8) -> bool {
    bits == 16 || bits == 32 || (bits == 8 && !space_is_float(space))
}

/// A channel is held in a scalar of exactly its width and of its space's kind:
/// a float for a float space, a signed integer for a signed space, an unsigned
/// integer otherwise. Such a type is found exactly when one of that width and
/// kind exists; so a 16-bit float channel is held in a 16-bit float, and
/// the type is the only one with that width and kind.
pub proof fn lemma_resolve_fits_the_channel(space: Space, bits: u8)
    ensures
        spec_resolve(space, bits) is Some <==> scalar_available(space, bits),
        spec_resolve(space, bits) is Some ==> ({
            let t = spec_resolve(space, bits)->Some_0;
            &&& scalar_bits(t) == bits
            &&& scalar_is_float(t) == space_is_float(space)
            &&& scalar_is_signed(t) == space_is_signed(space)
        }),
        forall|t: ChannelScalar, u: ChannelScalar|
            scalar_bits(t) == scalar_bits(u) && scalar_is_float(t) == scalar_is_float(u)
                && scalar_is_signed(t) == scalar_is_signed(u) ==> t == u,
{
}

} // verus!
