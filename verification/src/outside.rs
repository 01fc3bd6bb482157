//! The calls that leave the verified code. Each function here has a body
//! that Verus does not read; what its contract claims is taken on trust.

use vstd::prelude::*;
use crate::text::opt_text;
use crate::timestamp::is_line;

verus! {

/// The text that the standard library's `Debug` formatting of a string
/// gives: the string in double quotes, with quotes, backslashes and
/// unprintable characters escaped.
pub uninterp spec fn debug_quoted(text: Seq<char>) -> Seq<char>;

/// Formats a string with `{:?}`, that is with `<str as core::fmt::Debug>::fmt`.
///
/// Trusted: the result depends on the characters of `text` alone. Nothing
/// else is claimed of it.
#[verifier::external_body]
pub(crate) fn quote(text: &str) -> (r: String)
    ensures
        r@ == debug_quoted(text@),
{
    format!("{:?}", text)
}

/// The canonical text of the point in time that `text` writes, as chrono
/// reads and prints it; `None` where chrono does not read `text` as a point
/// in time with an offset from UTC.
pub uninterp spec fn canonical_timestamp(text: Seq<char>) -> Option<Seq<char>>;

/// Reads a point in time with `<chrono::DateTime<chrono::FixedOffset> as
/// core::str::FromStr>::from_str`, chrono's relaxed RFC 3339 reader, and
/// prints what was read with that type's `Display`.
///
/// Trusted: whether the text is read, and the text printed, depend on the
/// characters of `text` alone; the offset is the one written in `text`, so
/// the time zone of the machine plays no part. Nothing else is claimed.
#[verifier::external_body]
pub(crate) fn normalize_timestamp(text: &str) -> (r: Option<String>)
    ensures
        opt_text(r) == canonical_timestamp(text@),
{
    match text.parse::<chrono::DateTime<chrono::FixedOffset>>() {
        Ok(t) => Some(t.to_string()),
        Err(_) => None,
    }
}

/// Reads the clock with `std::time::SystemTime::now`, turns the reading into
/// local time with chrono's `From<SystemTime> for DateTime<Local>`, and
/// prints it with the `Display` of `chrono::DateTime<chrono::Local>`.
///
/// Trusted: the text is not empty and holds no line end. chrono prints the
/// date, a blank, the time, a blank and the offset from UTC, all of them in
/// digits, signs, colons and a point. Nothing else is claimed: the text
/// depends on the clock and on the time zone of the machine.
///
/// The conversion takes a clock that stands before 1970 as it takes any
/// other. Where chrono finds no time zone on the machine it prints UTC.
#[verifier::external_body]
pub(crate) fn clock_text() -> (r: String)
    ensures
        is_line(r@),
{
    chrono::DateTime::<chrono::Local>::from(std::time::SystemTime::now()).to_string()
}

} // verus!
