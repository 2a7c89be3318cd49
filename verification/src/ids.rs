//! Identifiers and numbers as text: UUIDs through the `uuid` crate, and
//! decimal integers.
use crate::text::string_from_chars;
use vstd::arithmetic::power2::pow2;
use vstd::prelude::*;

verus! {

/// The lowercase hexadecimal digit for `n` (0 to 15).
pub open spec fn hex_char(n: int) -> char {
    if n < 10 {
        (48 + n) as char
    } else {
        (87 + n) as char
    }
}

/// The `j`-th hexadecimal digit of `v`, counted from the most significant.
pub open spec fn nibble(v: u128, j: int) -> int {
    ((v as int) / (pow2((4 * (31 - j)) as nat) as int)) % 16
}

/// Number of hyphens that precede position `i` of a hyphenated UUID.
pub open spec fn hyphens_before(i: int) -> int {
    if i < 9 {
        0
    } else if i < 14 {
        1
    } else if i < 19 {
        2
    } else if i < 24 {
        3
    } else {
        4
    }
}

/// The hyphenated lowercase form a UUID displays as: 32 hexadecimal digits
/// of the 128-bit value, most significant first, grouped 8-4-4-4-12.
pub open spec fn uuid_text(v: u128) -> Seq<char> {
    Seq::new(
        36,
        |i: int|
            if i == 8 || i == 13 || i == 18 || i == 23 {
                '-'
            } else {
                hex_char(nibble(v, i - hyphens_before(i)))
            },
    )
}

/// What `uuid::Uuid::parse_str` gives for a text: the UUID's 128-bit value,
/// or the text of the error it reports.
pub uninterp spec fn spec_parse_uuid(s: Seq<char>) -> Result<u128, Seq<char>>;

/// A parse result with its error text viewed as characters.
pub open spec fn parse_result_view(r: Result<u128, String>) -> Result<u128, Seq<char>> {
    match r {
        Ok(v) => Ok(v),
        Err(e) => Err(e@),
    }
}

/// Parses a UUID from its text with `uuid::Uuid::parse_str`, which accepts
/// the simple, hyphenated, URN and braced forms; on failure gives the
/// displayed text of the parser's error.
#[verifier::external_body]
pub(crate) fn parse_uuid_text(s: &str) -> (r: Result<u128, String>)
    ensures
        parse_result_view(r) == spec_parse_uuid(s@),
{
    match uuid::Uuid::parse_str(s) {
        Ok(u) => Ok(u.as_u128()),
        Err(e) => Err(e.to_string()),
    }
}

/// A successful parse giving `v`.
pub open spec fn parsed_uuid(v: u128) -> Result<u128, Seq<char>> {
    Ok(v)
}

/// The hyphenated lowercase text of a UUID, from `uuid::Uuid`'s `Display`;
/// `parse_str` reads that text back as the same UUID.
#[verifier::external_body]
pub(crate) fn uuid_to_string(v: u128) -> (text: String)
    ensures
        text@ == uuid_text(v),
        spec_parse_uuid(text@) == parsed_uuid(v),
{
    uuid::Uuid::from_u128(v).to_string()
}

/// The decimal digits of `n`.
pub open spec fn digits(n: nat) -> Seq<char>
    decreases n,
{
    if n < 10 {
        seq![(48 + n) as char]
    } else {
        digits(n / 10).push((48 + n % 10) as char)
    }
}

/// The decimal text of an integer, with a leading `-` when negative.
pub open spec fn int_text(n: int) -> Seq<char> {
    if n < 0 {
        seq!['-'] + digits((-n) as nat)
    } else {
        digits(n as nat)
    }
}

/// Appends the decimal digits of `n`.
fn push_digits(n: u64, out: &mut Vec<char>)
    ensures
        final(out)@ == old(out)@ + digits(n as nat),
    decreases n,
{
    if n >= 10 {
        push_digits(n / 10, out);
    }
    let d = (n % 10) as u32;
    let c = char_from_digit(d);
    out.push(c);
    proof {
        if n >= 10 {
            assert(digits(n as nat) == digits((n / 10) as nat).push((48 + n % 10) as char));
        }
    }
}

/// The character of a decimal digit.
fn char_from_digit(d: u32) -> (c: char)
    requires
        d < 10,
    ensures
        c == (48 + d) as char,
{
    match d {
        0 => '0',
        1 => '1',
        2 => '2',
        3 => '3',
        4 => '4',
        5 => '5',
        6 => '6',
        7 => '7',
        8 => '8',
        _ => '9',
    }
}

/// The decimal text of a signed integer, as `i64`'s `Display` gives it.
pub fn i64_to_string(n: i64) -> (s: String)
    ensures
        s@ == int_text(n as int),
{
    let mut out: Vec<char> = Vec::new();
    if n < 0 {
        out.push('-');
        let magnitude: u64 = if n == i64::MIN {
            9223372036854775808u64
        } else {
            (-n) as u64
        };
        push_digits(magnitude, &mut out);
    } else {
        push_digits(n as u64, &mut out);
    }
    string_from_chars(out.as_slice())
}

/// The decimal text of an unsigned integer, as `u64`'s `Display` gives it.
pub fn u64_to_string(n: u64) -> (s: String)
    ensures
        s@ == int_text(n as int),
{
    let mut out: Vec<char> = Vec::new();
    push_digits(n, &mut out);
    string_from_chars(out.as_slice())
}

} // verus!
