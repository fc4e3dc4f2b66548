//! The current time and calendar dates.
use chrono::Datelike;
use vstd::prelude::*;

verus! {

/// An RFC 3339 time at UTC: it ends with the offset `+00:00`.
pub open spec fn ends_at_utc(s: Seq<char>) -> bool {
    s.len() >= 6 && s.subrange(s.len() - 6, s.len() as int) == "+00:00"@
}

/// A decimal digit.
pub open spec fn is_digit(c: char) -> bool {
    '0' <= c && c <= '9'
}

/// The number two decimal digits spell.
pub open spec fn two_digits(a: char, b: char) -> int {
    (a as int - '0' as int) * 10 + (b as int - '0' as int)
}

/// A date written as its year, then `-MM-DD` with a month from 01 to 12
/// and a day from 01 to 31; the year takes at least four characters.
pub open spec fn is_date_text(s: Seq<char>) -> bool {
    let n = s.len() as int;
    &&& n >= 10
    &&& s[n - 6] == '-'
    &&& s[n - 3] == '-'
    &&& is_digit(s[n - 5]) && is_digit(s[n - 4]) && is_digit(s[n - 2]) && is_digit(s[n - 1])
    &&& 1 <= two_digits(s[n - 5], s[n - 4]) <= 12
    &&& 1 <= two_digits(s[n - 2], s[n - 1]) <= 31
}

/// `chrono::Utc::now().to_rfc3339()`: the current UTC time as RFC 3339
/// text. It depends on the clock; what holds of every time is that chrono
/// writes a zero UTC offset as `+00:00`.
#[verifier::external_body]
pub(crate) fn now_timestamp() -> (r: String)
    ensures
        ends_at_utc(r@),
{
    chrono::Utc::now().to_rfc3339()
}

/// Today's local date as `YYYY-MM-DD`, from `chrono::Local::now()`. It
/// depends on the clock and the time zone; what holds of every date is its
/// shape: the year padded to four characters, then two-digit month and day.
#[verifier::external_body]
pub(crate) fn today_iso() -> (r: String)
    ensures
        is_date_text(r@),
{
    let n = chrono::Local::now();
    format!("{:04}-{:02}-{:02}", n.year(), n.month(), n.day())
}

/// Whether `chrono::NaiveDate::parse_from_str(s, "%Y-%m-%d")` accepts `s`.
pub uninterp spec fn parses_as_iso_date(s: Seq<char>) -> bool;

/// `chrono::NaiveDate::parse_from_str(s, "%Y-%m-%d").is_ok()`.
#[verifier::external_body]
pub(crate) fn is_iso_date(s: &str) -> (r: bool)
    ensures
        r == parses_as_iso_date(s@),
{
    chrono::NaiveDate::parse_from_str(s, "%Y-%m-%d").is_ok()
}

} // verus!
