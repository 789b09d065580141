//! The parts of a Vulkan format name such as `R8G8B8A8_UNORM_PACK32`: the
//! numeric space, the packing and the channel letters.

use vstd::prelude::*;
use crate::text::chars_of;

verus! {

/// Whether two character sequences are the same.
fn chars_equal(a: &Vec<char>, b: &[char]) -> (r: bool)
    ensures
        r == (a@ == b@),
{
    if a.len() != b.len() {
        return false;
    }
    let mut i: usize = 0;
    while i < a.len()
        invariant
            a@.len() == b@.len(),
            0 <= i <= a@.len(),
            forall|j: int| 0 <= j < i ==> a@[j] == b@[j],
        decreases a@.len() - i,
    {
        if a[i] != b[i] {
            return false;
        }
        i = i + 1;
    }
    assert(a@ =~= b@);
    true
}

/// How the channels of a format are packed into words.
#[derive(Debug, Clone, Copy, PartialEq, Eq, Hash, Structural)]
pub enum Pack {
    P8,
    P16,
    P32,
    Block,
}

/// The packing a name part stands for.
pub open spec fn spec_pack_of(s: Seq<char>) -> Option<Pack> {
    if s == seq!['P', 'A', 'C', 'K', '8'] {
        Some(Pack::P8)
    } else if s == seq!['P', 'A', 'C', 'K', '1', '6'] {
        Some(Pack::P16)
    } else if s == seq!['P', 'A', 'C', 'K', '3', '2'] {
        Some(Pack::P32)
    } else if s == seq!['B', 'L', 'O', 'C', 'K'] {
        Some(Pack::Block)
    } else {
        None
    }
}

impl Pack {
    /// Reads a packing from its part of a format name (`PACK8`, `PACK16`, `PACK32`,
    /// `BLOCK`).
    pub fn parse(s: &str) -> (r: Result<Pack, ()>)
        ensures
            match spec_pack_of(s@) {
                Some(p) => r == Ok::<Pack, ()>(p),
                None => r == Err::<Pack, ()>(()),
            },
    {
        let v = chars_of(s);
        Pack::parse_chars(&v)
    }

    /// Reads the same from the characters of a name part.
    pub fn parse_chars(v: &Vec<char>) -> (r: Result<Pack, ()>)
        ensures
            match spec_pack_of(v@) {
                Some(p) => r == Ok::<Pack, ()>(p),
                None => r == Err::<Pack, ()>(()),
            },
    {
        if chars_equal(v, &['P', 'A', 'C', 'K', '8']) {
            Ok(Pack::P8)
        } else if chars_equal(v, &['P', 'A', 'C', 'K', '1', '6']) {
            Ok(Pack::P16)
        } else if chars_equal(v, &['P', 'A', 'C', 'K', '3', '2']) {
            Ok(Pack::P32)
        } else if chars_equal(v, &['B', 'L', 'O', 'C', 'K']) {
            Ok(Pack::Block)
        } else {
            Err(())
        }
    }

    /// The name the packing is shown with.
    pub fn name(&self) -> (r: &'static str)
        ensures
            r@ == (match *self {
                Pack::P8 => "Pack8"@,
                Pack::P16 => "Pack16"@,
                Pack::P32 => "Pack32"@,
                Pack::Block => "Block"@,
            }),
    {
        match self {
            Pack::P8 => "Pack8",
            Pack::P16 => "Pack16",
            Pack::P32 => "Pack32",
            Pack::Block => "Block",
        }
    }
}

/// The numeric space of a format's channels.
#[derive(Debug, Clone, Copy, PartialEq, Eq, Hash, Structural)]
pub enum Space {
    Unorm,
    Snorm,
    UScaled,
    SScaled,
    UInt,
    SInt,
    SFloat,
    SRGB,
}

/// The space a name part stands for.
pub open spec fn spec_space_of(s: Seq<char>) -> Option<Space> {
    if s == seq!['U', 'N', 'O', 'R', 'M'] {
        Some(Space::Unorm)
    } else if s == seq!['S', 'N', 'O', 'R', 'M'] {
        Some(Space::Snorm)
    } else if s == seq!['U', 'S', 'C', 'A', 'L', 'E', 'D'] {
        Some(Space::UScaled)
    } else if s == seq!['S', 'S', 'C', 'A', 'L', 'E', 'D'] {
        Some(Space::SScaled)
    } else if s == seq!['U', 'I', 'N', 'T'] {
        Some(Space::UInt)
    } else if s == seq!['S', 'I', 'N', 'T'] {
        Some(Space::SInt)
    } else if s == seq!['S', 'F', 'L', 'O', 'A', 'T'] {
        Some(Space::SFloat)
    } else if s == seq!['S', 'R', 'G', 'B'] {
        Some(Space::SRGB)
    } else {
        None
    }
}

impl Space {
    /// Reads a space from its part of a format name (`UNORM`, `SNORM`, `USCALED`,
    /// `SSCALED`, `UINT`, `SINT`, `SFLOAT`, `SRGB`).
    pub fn parse(s: &str) -> (r: Result<Space, ()>)
        ensures
            match spec_space_of(s@) {
                Some(p) => r == Ok::<Space, ()>(p),
                None => r == Err::<Space, ()>(()),
            },
    {
        let v = chars_of(s);
        Space::parse_chars(&v)
    }

    /// Reads the same from the characters of a name part.
    pub fn parse_chars(v: &Vec<char>) -> (r: Result<Space, ()>)
        ensures
            match spec_space_of(v@) {
                Some(p) => r == Ok::<Space, ()>(p),
                None => r == Err::<Space, ()>(()),
            },
    {
        if chars_equal(v, &['U', 'N', 'O', 'R', 'M']) {
            Ok(Space::Unorm)
        } else if chars_equal(v, &['S', 'N', 'O', 'R', 'M']) {
            Ok(Space::Snorm)
        } else if chars_equal(v, &['U', 'S', 'C', 'A', 'L', 'E', 'D']) {
            Ok(Space::UScaled)
        } else if chars_equal(v, &['S', 'S', 'C', 'A', 'L', 'E', 'D']) {
            Ok(Space::SScaled)
        } else if chars_equal(v, &['U', 'I', 'N', 'T']) {
            Ok(Space::UInt)
        } else if chars_equal(v, &['S', 'I', 'N', 'T']) {
            Ok(Space::SInt)
        } else if chars_equal(v, &['S', 'F', 'L', 'O', 'A', 'T']) {
            Ok(Space::SFloat)
        } else if chars_equal(v, &['S', 'R', 'G', 'B']) {
            Ok(Space::SRGB)
        } else {
            Err(())
        }
    }

    /// The name the space is shown with.
    pub fn name(&self) -> (r: &'static str)
        ensures
            r@ == (match *self {
                Space::Unorm => "Unorm"@,
                Space::Snorm => "Snorm"@,
                Space::UScaled => "UScaled"@,
                Space::SScaled => "SScaled"@,
                Space::UInt => "UInt"@,
                Space::SInt => "SInt"@,
                Space::SFloat => "SFloat"@,
                Space::SRGB => "SRGB"@,
            }),
    {
        match self {
            Space::Unorm => "Unorm",
            Space::Snorm => "Snorm",
            Space::UScaled => "UScaled",
            Space::SScaled => "SScaled",
            Space::UInt => "UInt",
            Space::SInt => "SInt",
            Space::SFloat => "SFloat",
            Space::SRGB => "SRGB",
        }
    }
}

/// A channel of a format.
#[derive(Debug, Clone, Copy, PartialEq, Eq, Hash, Structural)]
pub enum Channel {
    Alpha,
    Red,
    Green,
    Blue,
    Depth,
    Stencil,
    Exponent,
}

/// The channel a letter stands for.
pub open spec fn spec_channel_of(c: char) -> Option<Channel> {
    if c == 'A' {
        Some(Channel::Alpha)
    } else if c == 'R' {
        Some(Channel::Red)
    } else if c == 'G' {
        Some(Channel::Green)
    } else if c == 'B' {
        Some(Channel::Blue)
    } else if c == 'D' {
        Some(Channel::Depth)
    } else if c == 'S' {
        Some(Channel::Stencil)
    } else if c == 'E' {
        Some(Channel::Exponent)
    } else {
        None
    }
}

impl Channel {
    /// The channel of a letter: `A`, `R`, `G`, `B`, `D`, `S` or `E`.
    pub fn from_char(value: char) -> (r: Result<Channel, ()>)
        ensures
            match spec_channel_of(value) {
                Some(c) => r == Ok::<Channel, ()>(c),
                None => r == Err::<Channel, ()>(()),
            },
    {
        if value == 'A' {
            Ok(Channel::Alpha)
        } else if value == 'R' {
            Ok(Channel::Red)
        } else if value == 'G' {
            Ok(Channel::Green)
        } else if value == 'B' {
            Ok(Channel::Blue)
        } else if value == 'D' {
            Ok(Channel::Depth)
        } else if value == 'S' {
            Ok(Channel::Stencil)
        } else if value == 'E' {
            Ok(Channel::Exponent)
        } else {
            Err(())
        }
    }

    /// The channel named by the first letter of `s`; an empty `s` names none.
    pub fn parse(s: &str) -> (r: Result<Channel, ()>)
        ensures
            s@.len() == 0 ==> r == Err::<Channel, ()>(()),
            s@.len() > 0 ==> match spec_channel_of(s@[0]) {
                Some(c) => r == Ok::<Channel, ()>(c),
                None => r == Err::<Channel, ()>(()),
            },
    {
        let v = chars_of(s);
        let first = if v.len() > 0 { v[0] } else { '\n' };
        Channel::from_char(first)
    }

    /// The letter the channel is shown with.
    pub fn name(&self) -> (r: &'static str)
        ensures
            r@ == (match *self {
                Channel::Alpha => "A"@,
                Channel::Red => "R"@,
                Channel::Green => "G"@,
                Channel::Blue => "B"@,
                Channel::Depth => "D"@,
                Channel::Stencil => "S"@,
                Channel::Exponent => "E"@,
            }),
    {
        match self {
            Channel::Alpha => "A",
            Channel::Red => "R",
            Channel::Green => "G",
            Channel::Blue => "B",
            Channel::Depth => "D",
            Channel::Stencil => "S",
            Channel::Exponent => "E",
        }
    }
}

impl core::str::FromStr for Pack {
    type Err = ();

    fn from_str(s: &str) -> (r: Result<Self, Self::Err>)
        ensures
            match spec_pack_of(s@) {
                Some(p) => r == Ok::<Pack, ()>(p),
                None => r == Err::<Pack, ()>(()),
            },
    {
        Pack::parse(s)
    }
}

impl core::str::FromStr for Space {
    type Err = ();

    fn from_str(s: &str) -> (r: Result<Self, Self::Err>)
        ensures
            match spec_space_of(s@) {
                Some(p) => r == Ok::<Space, ()>(p),
                None => r == Err::<Space, ()>(()),
            },
    {
        Space::parse(s)
    }
}

impl core::str::FromStr for Channel {
    type Err = ();

    fn from_str(s: &str) -> (r: Result<Self, Self::Err>)
        ensures
            s@.len() == 0 ==> r == Err::<Channel, ()>(()),
            s@.len() > 0 ==> match spec_channel_of(s@[0]) {
                Some(c) => r == Ok::<Channel, ()>(c),
                None => r == Err::<Channel, ()>(()),
            },
    {
        Channel::parse(s)
    }
}

} // verus!
