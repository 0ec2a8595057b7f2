//! `chrono`: reading dates and times from text.
use vstd::prelude::*;

verus! {

/// Whether `chrono::DateTime::parse_from_str(text, format)` succeeds.
pub uninterp spec fn datetime_parses(text: Seq<char>, format: Seq<char>) -> bool;

/// `chrono::DateTime::<FixedOffset>::parse_from_str(text, format).is_ok()`:
/// whether the text is a date and time with an offset in the given format.
/// Only its name is stated.
#[verifier::external_body]
pub fn parses_as_datetime(text: &str, format: &str) -> (r: bool)
    ensures
        r == datetime_parses(text@, format@),
{
    chrono::DateTime::parse_from_str(text, format).is_ok()
}

} // verus!
