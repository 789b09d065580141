//! Reading versions written as `major.minor.patch`.

use vstd::prelude::*;
use crate::text::{
    chars_of, lemma_pieces_extend, lemma_pieces_nonempty, lemma_pieces_separator, pieces_between,
    split_chars,
};
use super::create_info::{spec_make_api_version, Version};

verus! {

/// Why a number could not be read (the kinds of `core::num::ParseIntError` that
/// unsigned numbers can have).
#[derive(Debug, Clone, Copy, PartialEq, Eq, Hash, Structural)]
pub enum IntParseError {
    /// There was nothing to read.
    Empty,
    /// A character is not a decimal digit.
    InvalidDigit,
    /// The number does not fit in 32 bits.
    PosOverflow,
}

/// Why a version could not be read.
#[derive(Debug, Clone, Copy, PartialEq, Eq, Hash, Structural)]
pub enum VersionParseError {
    /// Fewer than three dot-separated parts.
    MissingPart,
    /// A part is not a number.
    Number(IntParseError),
}

pub open spec fn is_digit(c: char) -> bool {
    '0' <= c && c <= '9'
}

/// Reads decimal digits left to right: the first character that is no digit
/// is reported, and so is the first digit that makes the number too large.
pub open spec fn parse_digits(d: Seq<char>) -> Result<u32, IntParseError>
    decreases d.len(),
{
    if d.len() == 0 {
        Ok(0u32)
    } else {
        match parse_digits(d.drop_last()) {
            Err(e) => Err(e),
            Ok(v) => if !is_digit(d.last()) {
                Err(IntParseError::InvalidDigit)
            } else if v * 10 + (d.last() as int - '0' as int) > u32::MAX {
                Err(IntParseError::PosOverflow)
            } else {
                Ok((v * 10 + (d.last() as int - '0' as int)) as u32)
            },
        }
    }
}

/// Reads an unsigned number as `u32::from_str` does: an optional `+`, then digits.
pub open spec fn parse_u32_chars(p: Seq<char>) -> Result<u32, IntParseError> {
    if p.len() == 0 {
        Err(IntParseError::Empty)
    } else if (p[0] == '+' || p[0] == '-') && p.len() == 1 {
        Err(IntParseError::InvalidDigit)
    } else if p[0] == '+' {
        parse_digits(p.drop_first())
    } else {
        parse_digits(p)
    }
}

/// Reads `major.minor.patch` (parts after the third are ignored).
pub open spec fn spec_parse_version(s: Seq<char>) -> Result<(u32, u32, u32), VersionParseError> {
    let pieces = pieces_between(s, '.');
    match parse_u32_chars(pieces[0]) {
        Err(e) => Err(VersionParseError::Number(e)),
        Ok(major) => if pieces.len() < 2 {
            Err(VersionParseError::MissingPart)
        } else {
            match parse_u32_chars(pieces[1]) {
                Err(e) => Err(VersionParseError::Number(e)),
                Ok(minor) => if pieces.len() < 3 {
                    Err(VersionParseError::MissingPart)
                } else {
                    match parse_u32_chars(pieces[2]) {
                        Err(e) => Err(VersionParseError::Number(e)),
                        Ok(patch) => Ok((major, minor, patch)),
                    }
                },
            }
        },
    }
}

/// Once a prefix of the digits fails, the whole fails the same way.
proof fn lemma_parse_digits_error_sticks(d: Seq<char>, i: int)
    requires
        0 <= i <= d.len(),
        parse_digits(d.take(i)) is Err,
    ensures
        parse_digits(d) == parse_digits(d.take(i)),
    decreases d.len() - i,
{
    if i < d.len() {
        assert(d.take(i + 1).drop_last() =~= d.take(i));
        lemma_parse_digits_error_sticks(d, i + 1);
    } else {
        assert(d.take(i) =~= d);
    }
}

/// Reads the digits `d[from..]`.
fn parse_digit_run(d: &Vec<char>, from: usize) -> (r: Result<u32, IntParseError>)
    requires
        from <= d@.len(),
    ensures
        r == parse_digits(d@.skip(from as int)),
{
    let ghost rest = d@.skip(from as int);
    let mut value: u32 = 0;
    let mut i: usize = from;
    while i < d.len()
        invariant
            from <= i <= d@.len(),
            rest == d@.skip(from as int),
            parse_digits(rest.take(i - from)) == Ok::<u32, IntParseError>(value),
        decreases d@.len() - i,
    {
        let c = d[i];
        proof {
            assert(rest.take(i - from + 1).drop_last() =~= rest.take(i - from));
            assert(rest.take(i - from + 1).last() == c);
        }
        if c < '0' || c > '9' {
            proof {
                lemma_parse_digits_error_sticks(rest, i - from + 1);
            }
            return Err(IntParseError::InvalidDigit);
        }
        let digit = (c as u32) - ('0' as u32);
        let next = (value as u64) * 10 + (digit as u64);
        if next > 0xffff_ffff {
            proof {
                lemma_parse_digits_error_sticks(rest, i - from + 1);
            }
            return Err(IntParseError::PosOverflow);
        }
        value = next as u32;
        i = i + 1;
    }
    proof {
        assert(rest.take(i - from) =~= rest);
    }
    Ok(value)
}

/// Reads a number as `u32::from_str` does.
fn parse_u32(p: &Vec<char>) -> (r: Result<u32, IntParseError>)
    ensures
        r == parse_u32_chars(p@),
{
    if p.len() == 0 {
        return Err(IntParseError::Empty);
    }
    if (p[0] == '+' || p[0] == '-') && p.len() == 1 {
        return Err(IntParseError::InvalidDigit);
    }
    if p[0] == '+' {
        proof {
            assert(p@.skip(1) =~= p@.drop_first());
        }
        parse_digit_run(p, 1)
    } else {
        proof {
            assert(p@.skip(0) =~= p@);
        }
        parse_digit_run(p, 0)
    }
}

impl Version {
    /// Reads a version written as `major.minor.patch` (variant `0`).
    pub fn parse(s: &str) -> (r: Result<Version, VersionParseError>)
        ensures
            match spec_parse_version(s@) {
                Ok((major, minor, patch)) => r is Ok && r->Ok_0@ == spec_make_api_version(0, major, minor, patch),
                Err(e) => r == Err::<Version, VersionParseError>(e),
            },
    {
        let chars = chars_of(s);
        let pieces = split_chars(&chars, '.');
        proof {
            lemma_pieces_nonempty(chars@, '.');
        }
        let major = match parse_u32(&pieces[0]) {
            Ok(v) => v,
            Err(e) => return Err(VersionParseError::Number(e)),
        };
        if pieces.len() < 2 {
            return Err(VersionParseError::MissingPart);
        }
        let minor = match parse_u32(&pieces[1]) {
            Ok(v) => v,
            Err(e) => return Err(VersionParseError::Number(e)),
        };
        if pieces.len() < 3 {
            return Err(VersionParseError::MissingPart);
        }
        let patch = match parse_u32(&pieces[2]) {
            Ok(v) => v,
            Err(e) => return Err(VersionParseError::Number(e)),
        };
        Ok(Version::new(0, major, minor, patch))
    }
}

/// The character of a decimal digit.
pub open spec fn digit_char(d: nat) -> char {
    if d == 0 {
        '0'
    } else if d == 1 {
        '1'
    } else if d == 2 {
        '2'
    } else if d == 3 {
        '3'
    } else if d == 4 {
        '4'
    } else if d == 5 {
        '5'
    } else if d == 6 {
        '6'
    } else if d == 7 {
        '7'
    } else if d == 8 {
        '8'
    } else {
        '9'
    }
}

/// The decimal digits of `n`, most significant first, with no leading zero.
pub open spec fn decimal(n: nat) -> Seq<char>
    decreases n,
{
    if n < 10 {
        seq![digit_char(n)]
    } else {
        decimal(n / 10).push(digit_char(n % 10))
    }
}

/// How a version is written: `major.minor.patch` (the variant is not shown).
pub open spec fn spec_version_text(v: Version) -> Seq<char> {
    decimal(v.spec_major() as nat) + seq!['.'] + decimal(v.spec_minor() as nat) + seq!['.']
        + decimal(v.spec_patch() as nat)
}

/// The text of one decimal digit.
fn digit_text(d: u32) -> (r: &'static str)
    requires
        d < 10,
    ensures
        r@ == seq![digit_char(d as nat)],
{
    if d == 0 {
        proof {
            reveal_strlit("0");
        }
        "0"
    } else if d == 1 {
        proof {
            reveal_strlit("1");
        }
        "1"
    } else if d == 2 {
        proof {
            reveal_strlit("2");
        }
        "2"
    } else if d == 3 {
        proof {
            reveal_strlit("3");
        }
        "3"
    } else if d == 4 {
        proof {
            reveal_strlit("4");
        }
        "4"
    } else if d == 5 {
        proof {
            reveal_strlit("5");
        }
        "5"
    } else if d == 6 {
        proof {
            reveal_strlit("6");
        }
        "6"
    } else if d == 7 {
        proof {
            reveal_strlit("7");
        }
        "7"
    } else if d == 8 {
        proof {
            reveal_strlit("8");
        }
        "8"
    } else {
        proof {
            reveal_strlit("9");
        }
        "9"
    }
}

/// Appends the decimal digits of `n` to `s`.
fn append_decimal(s: &mut String, n: u32)
    ensures
        final(s)@ == old(s)@ + decimal(n as nat),
    decreases n,
{
    if n < 10 {
        s.append(digit_text(n));
    } else {
        append_decimal(s, n / 10);
        s.append(digit_text(n % 10));
        proof {
            assert(old(s)@ + decimal((n / 10) as nat) + seq![digit_char((n % 10) as nat)] =~= old(s)@
                + decimal(n as nat));
        }
    }
}

impl Version {
    /// The version written as `major.minor.patch`, as it is shown to people.
    pub fn to_text(&self) -> (r: String)
        ensures
            r@ == spec_version_text(*self),
    {
        let mut s = String::new();
        append_decimal(&mut s, self.major());
        proof {
            reveal_strlit(".");
        }
        s.append(".");
        append_decimal(&mut s, self.minor());
        s.append(".");
        append_decimal(&mut s, self.patch());
        s
    }
}

/// A digit's character is a digit, and stands for the digit.
proof fn lemma_digit_char(d: nat)
    requires
        d < 10,
    ensures
        is_digit(digit_char(d)),
        digit_char(d) as int - '0' as int == d,
{
}

/// A number is written with at least one character, each of them a digit.
proof fn lemma_decimal_digits(n: nat)
    ensures
        decimal(n).len() >= 1,
        forall|i: int| 0 <= i < decimal(n).len() ==> is_digit(#[trigger] decimal(n)[i]),
    decreases n,
{
    lemma_digit_char(n % 10);
    if n >= 10 {
        lemma_decimal_digits(n / 10);
    }
}

/// The digits of a number that fits in 32 bits read back as the number.
proof fn lemma_parse_decimal(n: nat)
    requires
        n <= u32::MAX,
    ensures
        parse_digits(decimal(n)) == Ok::<u32, IntParseError>(n as u32),
    decreases n,
{
    lemma_digit_char(n % 10);
    let d = decimal(n);
    if n < 10 {
        assert(d.drop_last() =~= Seq::<char>::empty());
        assert(parse_digits(d.drop_last()) == Ok::<u32, IntParseError>(0u32));
        assert(d.last() == digit_char(n));
    } else {
        lemma_parse_decimal(n / 10);
        assert(d.drop_last() =~= decimal(n / 10));
        assert(d.last() == digit_char(n % 10));
        assert((n / 10) * 10 + n % 10 == n) by (nonlinear_arith);
    }
}

/// A number written out reads back as itself.
proof fn lemma_parse_u32_decimal(n: nat)
    requires
        n <= u32::MAX,
    ensures
        parse_u32_chars(decimal(n)) == Ok::<u32, IntParseError>(n as u32),
{
    lemma_decimal_digits(n);
    lemma_parse_decimal(n);
    assert(is_digit(decimal(n)[0]));
}

/// Reading a version back from its text gives the version again: `Version::parse`
/// undoes `Version::to_text` for every version of variant 0, the only variant
/// that the text shows.
pub proof fn lemma_version_text_round_trip(v: Version)
    requires
        v.spec_variant() == 0,
    ensures
        spec_parse_version(spec_version_text(v)) == Ok::<(u32, u32, u32), VersionParseError>(
            (v.spec_major(), v.spec_minor(), v.spec_patch()),
        ),
        spec_make_api_version(0, v.spec_major(), v.spec_minor(), v.spec_patch()) == v@,
{
    let a = decimal(v.spec_major() as nat);
    let b = decimal(v.spec_minor() as nat);
    let c = decimal(v.spec_patch() as nat);
    lemma_decimal_digits(v.spec_major() as nat);
    lemma_decimal_digits(v.spec_minor() as nat);
    lemma_decimal_digits(v.spec_patch() as nat);
    assert forall|i: int| 0 <= i < a.len() implies a[i] != '.' by {
        assert(is_digit(a[i]));
    }
    assert forall|i: int| 0 <= i < b.len() implies b[i] != '.' by {
        assert(is_digit(b[i]));
    }
    assert forall|i: int| 0 <= i < c.len() implies c[i] != '.' by {
        assert(is_digit(c[i]));
    }
    let empty = Seq::<char>::empty();
    assert(pieces_between(empty, '.') == seq![empty]);
    lemma_pieces_extend(empty, a, '.');
    assert(empty + a =~= a);
    assert(pieces_between(a, '.') =~= seq![a]);
    lemma_pieces_separator(a, '.');
    let s2 = a.push('.');
    lemma_pieces_extend(s2, b, '.');
    assert(pieces_between(s2 + b, '.') =~= seq![a, b]);
    lemma_pieces_separator(s2 + b, '.');
    let s4 = (s2 + b).push('.');
    lemma_pieces_extend(s4, c, '.');
    assert(pieces_between(s4 + c, '.') =~= seq![a, b, c]);
    assert(spec_version_text(v) =~= s4 + c);
    lemma_parse_u32_decimal(v.spec_major() as nat);
    lemma_parse_u32_decimal(v.spec_minor() as nat);
    lemma_parse_u32_decimal(v.spec_patch() as nat);
    let w = v@;
    assert(w >> 29u32 == 0 ==> ((0u32 << 29u32) | (((w >> 22u32) & 0x7fu32) << 22u32) | (((w
        >> 12u32) & 0x3ffu32) << 12u32) | (w & 0xfffu32)) == w) by (bit_vector);
}

impl core::str::FromStr for Version {
    type Err = VersionParseError;

    fn from_str(s: &str) -> (r: Result<Self, Self::Err>)
        ensures
            match spec_parse_version(s@) {
                Ok((major, minor, patch)) => r is Ok && r->Ok_0@ == spec_make_api_version(
                    0,
                    major,
                    minor,
                    patch,
                ),
                Err(e) => r == Err::<Version, VersionParseError>(e),
            },
    {
        Version::parse(s)
    }
}

} // verus!
