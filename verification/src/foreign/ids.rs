//! `uuid`: the text form of identifiers.
use vstd::prelude::*;
use vstd::arithmetic::power::pow;
use crate::foreign::text::ascii_lower;

verus! {

/// The 32 lowercase hexadecimal digits of the identifier, most significant
/// first.
pub open spec fn hex_digits(id: u128) -> Seq<char> {
    Seq::new(32, |i: int| "0123456789abcdef"@[(id as int / pow(16, (31 - i) as nat)) % 16])
}

/// The text that `uuid::Uuid`'s `Display` writes for the identifier with
/// these 128 bits: the hyphenated, lowercase form, its hexadecimal digits
/// in groups of 8, 4, 4, 4 and 12.
pub open spec fn uuid_text(id: u128) -> Seq<char> {
    let h = hex_digits(id);
    h.subrange(0, 8) + seq!['-'] + h.subrange(8, 12) + seq!['-'] + h.subrange(12, 16) + seq!['-']
        + h.subrange(16, 20) + seq!['-'] + h.subrange(20, 32)
}

/// The value of a hexadecimal digit of either case.
pub open spec fn hex_value(c: char) -> Option<int> {
    let n = c as int;
    if 48 <= n <= 57 {
        Some(n - 48)
    } else if 97 <= n <= 102 {
        Some(n - 87)
    } else if 65 <= n <= 70 {
        Some(n - 55)
    } else {
        None
    }
}

/// The number that the hexadecimal digits write, most significant first;
/// nothing when one is not a hexadecimal digit.
pub open spec fn hex_number(h: Seq<char>) -> Option<int>
    decreases h.len(),
{
    if h.len() == 0 {
        Some(0)
    } else {
        match (hex_number(h.drop_last()), hex_value(h.last())) {
            (Some(a), Some(d)) => Some(a * 16 + d),
            _ => None,
        }
    }
}

/// The number that a hyphenated UUID text writes: 32 hexadecimal digits in
/// groups of 8, 4, 4, 4 and 12, separated by hyphens.
pub open spec fn hyphenated_value(s: Seq<char>) -> Option<int> {
    if s.len() == 36 && s[8] == '-' && s[13] == '-' && s[18] == '-' && s[23] == '-' {
        hex_number(s.subrange(0, 8) + s.subrange(9, 13) + s.subrange(14, 18) + s.subrange(19, 23) + s.subrange(24, 36))
    } else {
        None
    }
}

/// What `uuid::Uuid::from_str` makes of a text: the identifier's bits, or
/// nothing when the text is not a UUID. It reads 32 hexadecimal digits, the
/// hyphenated form, the hyphenated form between braces, or `urn:uuid:` (in
/// either case) followed by the hyphenated form; digits in either case.
pub open spec fn uuid_parse(text: Seq<char>) -> Option<u128> {
    let v = if text.len() == 32 {
        hex_number(text)
    } else if text.len() == 36 {
        hyphenated_value(text)
    } else if text.len() == 38 && text[0] == '{' && text[37] == '}' {
        hyphenated_value(text.subrange(1, 37))
    } else if text.len() == 45 && text.take(9).map_values(|c: char| ascii_lower(c)) == "urn:uuid:"@ {
        hyphenated_value(text.skip(9))
    } else {
        None
    };
    match v {
        Some(n) => Some(n as u128),
        None => None,
    }
}

/// `uuid::Uuid::from_u128(id).to_string()`: the hyphenated form, 36
/// characters long, which `Uuid::from_str` reads back as the same
/// identifier.
#[verifier::external_body]
pub fn uuid_to_string(id: u128) -> (r: String)
    ensures
        r@ == uuid_text(id),
        r@.len() == 36,
        uuid_parse(r@) == Some(id),
{
    uuid::Uuid::from_u128(id).to_string()
}

/// `uuid::Uuid::from_str`: the identifier that the text names, if it is one.
#[verifier::external_body]
pub fn parse_uuid(text: &str) -> (r: Option<u128>)
    ensures
        r == uuid_parse(text@),
{
    match <uuid::Uuid as std::str::FromStr>::from_str(text) {
        Ok(id) => Some(id.as_u128()),
        Err(_) => None,
    }
}

} // verus!
