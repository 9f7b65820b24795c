//! The current time, formatted by `chrono`.

use vstd::prelude::*;

verus! {

/// Timestamp suffix of every new meeting folder: `YYYY-MM-DD_HH-MM`.
pub const TIMESTAMP_FORMAT: &'static str = "%Y-%m-%d_%H-%M";

/// Time of day with seconds and milliseconds, for a folder name once every
/// numbered name is taken.
pub const SECONDS_FORMAT: &'static str = "%H-%M-%S%.3f";

/// An ASCII decimal digit.
pub open spec fn is_ascii_digit(c: char) -> bool {
    0x30 <= (c as u32) <= 0x39
}

/// Every character of `s` is an ASCII decimal digit.
pub open spec fn all_digits(s: Seq<char>) -> bool {
    forall|i: int| 0 <= i < s.len() ==> is_ascii_digit(#[trigger] s[i])
}

/// `s[i..i + 2]` is two ASCII digits.
pub open spec fn two_digits_at(s: Seq<char>, i: int) -> bool {
    0 <= i && i + 2 <= s.len() && is_ascii_digit(s[i]) && is_ascii_digit(s[i + 1])
}

/// A year as chrono's `%Y` writes it: four digits for years 0 to 9999, else a
/// sign followed by at least four digits.
pub open spec fn is_year_text(y: Seq<char>) -> bool {
    ||| y.len() == 4 && all_digits(y)
    ||| y.len() >= 5 && (y[0] == '+' || y[0] == '-') && all_digits(y.drop_first())
}

/// Text of the shape `YYYY-MM-DD_HH-MM`, each field zero-padded (the year as
/// `is_year_text` allows).
pub open spec fn is_minute_timestamp(s: Seq<char>) -> bool {
    s.len() >= 16 && {
        let y = s.len() - 12;
        &&& is_year_text(s.subrange(0, y))
        &&& s[y] == '-'
        &&& two_digits_at(s, y + 1)
        &&& s[y + 3] == '-'
        &&& two_digits_at(s, y + 4)
        &&& s[y + 6] == '_'
        &&& two_digits_at(s, y + 7)
        &&& s[y + 9] == '-'
        &&& two_digits_at(s, y + 10)
    }
}

/// Text of the shape `HH-MM-SS.mmm`.
pub open spec fn is_seconds_time(s: Seq<char>) -> bool {
    &&& s.len() == 12
    &&& two_digits_at(s, 0)
    &&& s[2] == '-'
    &&& two_digits_at(s, 3)
    &&& s[5] == '-'
    &&& two_digits_at(s, 6)
    &&& s[8] == '.'
    &&& two_digits_at(s, 9)
    &&& is_ascii_digit(s[11])
}

/// The current UTC time formatted with chrono's `DateTime::format(fmt)` and
/// written out with `to_string`; `None` where the clock cannot be read as a
/// chrono date. The clock is read as `Utc::now` reads it (`SystemTime::now`
/// since the Unix epoch), but through the paths that answer `None` instead of
/// panicking: a clock before the epoch, or a time beyond chrono's range
/// (`DateTime::from_timestamp`). The `DateTime` stays inside: only the
/// formatted text comes out.
///
/// Which time the text shows depends on the clock and is not stated, nor is
/// when the clock can be read; the text's shape is, as chrono's formatting code
/// writes each field: `%Y` as four digits for years 0 to 9999 and otherwise
/// sign and at least four digits, `%m`, `%d`, `%H`, `%M` and `%S` as two
/// zero-padded digits, and `%.3f` as `.` (no locale support is enabled) and
/// three digits. Only the two formats above are accepted, both of which chrono
/// formats without error.
#[verifier::external_body]
fn utc_now_formatted(fmt: &str) -> (res: Option<String>)
    requires
        fmt@ == TIMESTAMP_FORMAT@ || fmt@ == SECONDS_FORMAT@,
    ensures
        res matches Some(s) ==> (fmt@ == TIMESTAMP_FORMAT@ ==> is_minute_timestamp(s@)),
        res matches Some(s) ==> (fmt@ == SECONDS_FORMAT@ ==> is_seconds_time(s@)),
{
    let since_epoch =
        std::time::SystemTime::now().duration_since(std::time::UNIX_EPOCH).ok()?;
    let secs = i64::try_from(since_epoch.as_secs()).ok()?;
    let now = chrono::DateTime::from_timestamp(secs, since_epoch.subsec_nanos())?;
    Some(now.format(fmt).to_string())
}

/// The current UTC time as `YYYY-MM-DD_HH-MM`; `None` where the clock cannot
/// be read.
pub(crate) fn current_timestamp() -> (res: Option<String>)
    ensures
        res matches Some(s) ==> is_minute_timestamp(s@),
{
    utc_now_formatted(TIMESTAMP_FORMAT)
}

/// The current UTC time of day as `HH-MM-SS.mmm`; `None` where the clock
/// cannot be read.
pub(crate) fn current_time_with_seconds() -> (res: Option<String>)
    ensures
        res matches Some(s) ==> is_seconds_time(s@),
{
    utc_now_formatted(SECONDS_FORMAT)
}

} // verus!
