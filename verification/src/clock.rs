//! Local wall-clock readings, rendered by chrono. The time read depends on the
//! clock; what is stated is the shape of the text that each pattern gives.

use vstd::prelude::*;

verus! {

/// The chrono format patterns this library renders the local time with.
pub open spec fn is_clock_pattern(p: Seq<char>) -> bool {
    p == "%H:%M:%S"@ || p == "%Y-%m-%d %H:%M:%S"@ || p == "%Y-%m-%d %H:%M:%S.%3f"@ || p
        == "%Y%m%d_%H%M%S_%3f"@
}

/// A decimal digit.
pub open spec fn is_digit(c: char) -> bool {
    48 <= (c as int) <= 57
}

/// The value of a decimal digit.
pub open spec fn digit_value(c: char) -> int {
    (c as int) - 48
}

/// Every character is a decimal digit.
pub open spec fn all_digits(s: Seq<char>) -> bool {
    forall|i: int| 0 <= i < s.len() ==> is_digit(#[trigger] s[i])
}

/// Two decimal digits whose value lies between `lo` and `hi`.
pub open spec fn two_digits_in(s: Seq<char>, lo: int, hi: int) -> bool {
    &&& s.len() == 2
    &&& is_digit(s[0])
    &&& is_digit(s[1])
    &&& lo <= 10 * digit_value(s[0]) + digit_value(s[1]) <= hi
}

/// A year as chrono writes it: four digits for years 0 to 9999, else a sign
/// followed by at least four digits.
pub open spec fn year_text(s: Seq<char>) -> bool {
    ||| s.len() == 4 && all_digits(s)
    ||| s.len() >= 5 && (s[0] == '+' || s[0] == '-') && all_digits(s.drop_first())
}

/// `HH:MM:SS`: hour 00-23, minute 00-59, second 00-60 (a leap second is 60).
pub open spec fn hms_text(s: Seq<char>) -> bool {
    &&& s.len() == 8
    &&& two_digits_in(s.subrange(0, 2), 0, 23)
    &&& s[2] == ':'
    &&& two_digits_in(s.subrange(3, 5), 0, 59)
    &&& s[5] == ':'
    &&& two_digits_in(s.subrange(6, 8), 0, 60)
}

/// `<year>-MM-DD`: month 01-12, day 01-31.
pub open spec fn date_text(s: Seq<char>) -> bool {
    let n = s.len() as int;
    &&& n >= 10
    &&& year_text(s.subrange(0, n - 6))
    &&& s[n - 6] == '-'
    &&& two_digits_in(s.subrange(n - 5, n - 3), 1, 12)
    &&& s[n - 3] == '-'
    &&& two_digits_in(s.subrange(n - 2, n), 1, 31)
}

/// `<year>-MM-DD HH:MM:SS`.
pub open spec fn date_time_text(s: Seq<char>) -> bool {
    let n = s.len() as int;
    &&& n >= 19
    &&& date_text(s.subrange(0, n - 9))
    &&& s[n - 9] == ' '
    &&& hms_text(s.subrange(n - 8, n))
}

/// `<year>-MM-DD HH:MM:SS.mmm`, with three digits of milliseconds.
pub open spec fn date_time_millis_text(s: Seq<char>) -> bool {
    let n = s.len() as int;
    &&& n >= 23
    &&& date_time_text(s.subrange(0, n - 4))
    &&& s[n - 4] == '.'
    &&& all_digits(s.subrange(n - 3, n))
}

/// `<year>MMDD_HHMMSS_mmm`: the session identifier.
pub open spec fn session_id_text(s: Seq<char>) -> bool {
    let n = s.len() as int;
    &&& n >= 19
    &&& year_text(s.subrange(0, n - 15))
    &&& two_digits_in(s.subrange(n - 15, n - 13), 1, 12)
    &&& two_digits_in(s.subrange(n - 13, n - 11), 1, 31)
    &&& s[n - 11] == '_'
    &&& two_digits_in(s.subrange(n - 10, n - 8), 0, 23)
    &&& two_digits_in(s.subrange(n - 8, n - 6), 0, 59)
    &&& two_digits_in(s.subrange(n - 6, n - 4), 0, 60)
    &&& s[n - 4] == '_'
    &&& all_digits(s.subrange(n - 3, n))
}

/// A UTC offset `+HH:MM` or `-HH:MM`, rounded to the minute (so at most 24 hours).
pub open spec fn offset_text(s: Seq<char>) -> bool {
    &&& s.len() == 6
    &&& (s[0] == '+' || s[0] == '-')
    &&& two_digits_in(s.subrange(1, 3), 0, 24)
    &&& s[3] == ':'
    &&& two_digits_in(s.subrange(4, 6), 0, 59)
}

/// The fraction of a second: nothing, or a point followed by three, six or
/// nine digits.
pub open spec fn fraction_text(s: Seq<char>) -> bool {
    ||| s.len() == 0
    ||| (s.len() == 4 || s.len() == 7 || s.len() == 10) && s[0] == '.' && all_digits(s.drop_first())
}

/// An RFC 3339 time whose fraction of a second takes `k` characters:
/// `<date>THH:MM:SS<fraction><offset>`.
pub open spec fn rfc3339_text_with(s: Seq<char>, k: int) -> bool {
    let n = s.len() as int;
    &&& n >= 25 + k
    &&& date_text(s.subrange(0, n - 15 - k))
    &&& s[n - 15 - k] == 'T'
    &&& hms_text(s.subrange(n - 14 - k, n - 6 - k))
    &&& fraction_text(s.subrange(n - 6 - k, n - 6))
    &&& offset_text(s.subrange(n - 6, n))
}

/// An RFC 3339 time as `DateTime::to_rfc3339` writes it.
pub open spec fn rfc3339_text(s: Seq<char>) -> bool {
    rfc3339_text_with(s, 0) || rfc3339_text_with(s, 4) || rfc3339_text_with(s, 7) || rfc3339_text_with(s, 10)
}

/// The current local time rendered with `pattern`
/// (`chrono::Local::now` then `DateTime::format`). Which time is read depends
/// on the clock; the contract states the shape that chrono's numeric fields
/// give for each pattern: `%Y` four digits (a sign and more digits outside
/// years 0 to 9999), `%m %d %H %M %S` two zero-padded digits (`%S` is 60 in a
/// leap second), `%3f` three digits.
#[verifier::external_body]
fn local_time_text(pattern: &str) -> (r: String)
    requires
        is_clock_pattern(pattern@),
    ensures
        pattern@ == "%H:%M:%S"@ ==> hms_text(r@),
        pattern@ == "%Y-%m-%d %H:%M:%S"@ ==> date_time_text(r@),
        pattern@ == "%Y-%m-%d %H:%M:%S.%3f"@ ==> date_time_millis_text(r@),
        pattern@ == "%Y%m%d_%H%M%S_%3f"@ ==> session_id_text(r@),
{
    chrono::Local::now().format(pattern).to_string()
}

/// The current local time as `DateTime::to_rfc3339` renders it
/// (`chrono::Local::now`): date, `T`, time, the fraction of a second when it
/// is not zero (3, 6 or 9 digits), and the offset with a colon. Which time is
/// read depends on the clock.
#[verifier::external_body]
fn local_time_rfc3339() -> (r: String)
    ensures
        rfc3339_text(r@),
{
    chrono::Local::now().to_rfc3339()
}

/// The local time of day, `HH:MM:SS`.
pub fn clock_hms() -> (r: String)
    ensures
        hms_text(r@),
{
    local_time_text("%H:%M:%S")
}

/// The local date and time, `YYYY-MM-DD HH:MM:SS`.
pub fn clock_date_time() -> (r: String)
    ensures
        date_time_text(r@),
{
    local_time_text("%Y-%m-%d %H:%M:%S")
}

/// The local date and time with milliseconds, `YYYY-MM-DD HH:MM:SS.mmm`.
pub fn clock_date_time_millis() -> (r: String)
    ensures
        date_time_millis_text(r@),
{
    local_time_text("%Y-%m-%d %H:%M:%S.%3f")
}

/// The local time in RFC 3339 form.
pub fn clock_rfc3339() -> (r: String)
    ensures
        rfc3339_text(r@),
{
    local_time_rfc3339()
}

/// A session identifier from the local time, `YYYYMMDD_HHMMSS_mmm`.
pub fn session_id() -> (r: String)
    ensures
        session_id_text(r@),
{
    local_time_text("%Y%m%d_%H%M%S_%3f")
}

} // verus!
