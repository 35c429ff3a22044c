//! The boundary to the `chrono` crate.
//!
//! Everything the library takes on trust about civil dates, the clock and the
//! RFC 2822 text form is stated here. Each function below calls `chrono` and
//! its contract is believed, not proved.

use chrono::{Datelike, TimeZone, Timelike};
use vstd::prelude::*;

verus! {

/// Unix seconds of 0000-01-01 00:00:00, the first second of the years that
/// have a four-digit text form.
pub const FIRST_SECOND: i64 = -62_167_219_200;

/// Unix seconds of 9999-12-31 23:59:59, the last second of those years.
pub const LAST_SECOND: i64 = 253_402_300_799;

/// The leap-year rule of the proleptic Gregorian calendar.
pub open spec fn is_leap_year(year: int) -> bool {
    year % 4 == 0 && (year % 100 != 0 || year % 400 == 0)
}

/// The number of days of a month, for `month` in `1..=12`.
pub open spec fn days_in_month(year: int, month: int) -> int {
    if month == 2 {
        if is_leap_year(year) {
            29
        } else {
            28
        }
    } else if month == 4 || month == 6 || month == 9 || month == 11 {
        30
    } else {
        31
    }
}

/// Whether the components name a second of a day that exists, in the years
/// 0 to 9999. A leap second (`second == 60`) does not count as existing.
pub open spec fn civil_exists(
    year: int,
    month: int,
    day: int,
    hour: int,
    minute: int,
    second: int,
) -> bool {
    &&& 0 <= year <= 9999
    &&& 1 <= month <= 12
    &&& 1 <= day <= days_in_month(year, month)
    &&& 0 <= hour < 24
    &&& 0 <= minute < 60
    &&& 0 <= second < 60
}

/// Whether a point in time, seen from a fixed offset east of UTC, has an
/// RFC 2822 text: the offset is a whole number of minutes of less than a day,
/// and the local year has four digits.
pub open spec fn printable(instant: int, offset: int) -> bool {
    &&& -86_400 < offset < 86_400
    &&& offset % 60 == 0
    &&& FIRST_SECOND <= instant + offset <= LAST_SECOND
}

/// The Unix seconds of a civil date and time read as UTC, as `chrono`
/// computes them.
pub uninterp spec fn civil_seconds(
    year: int,
    month: int,
    day: int,
    hour: int,
    minute: int,
    second: int,
) -> int;

/// The civil date and time of a second counted from the Unix epoch, as
/// `chrono` reads it: year, month, day, hour, minute and second.
pub uninterp spec fn civil_reading(seconds: int) -> (int, int, int, int, int, int);

/// The RFC 2822 text that `chrono` writes for a point in time at an offset.
pub uninterp spec fn rfc2822_text(instant: int, offset: int) -> Seq<char>;

/// What `chrono` reads from a text as RFC 2822: the Unix seconds and the
/// offset in seconds east of UTC, or `None` where it rejects the text.
pub uninterp spec fn rfc2822_reading(text: Seq<char>) -> Option<(int, int)>;

/// The fields of a civil date and time.
#[derive(Clone, Copy, Debug)]
pub struct Civil {
    pub year: u32,
    pub month: u32,
    pub day: u32,
    pub hour: u32,
    pub minute: u32,
    pub second: u32,
}

impl Civil {
    /// Whether the fields name a second that exists.
    pub open spec fn is_real(self) -> bool {
        civil_exists(
            self.year as int,
            self.month as int,
            self.day as int,
            self.hour as int,
            self.minute as int,
            self.second as int,
        )
    }

    /// The fields as a tuple: year, month, day, hour, minute and second.
    pub open spec fn fields(self) -> (int, int, int, int, int, int) {
        (
            self.year as int,
            self.month as int,
            self.day as int,
            self.hour as int,
            self.minute as int,
            self.second as int,
        )
    }
}

/// Calls `chrono::TimeZone::with_ymd_and_hms` on `chrono::Utc`.
///
/// Trusted: for a year of at most four digits the call yields a single time
/// exactly when the day exists in the proleptic Gregorian calendar and hour,
/// minute and second are below 24, 60 and 60; its Unix seconds then lie
/// between those of 0000-01-01 00:00:00 and 9999-12-31 23:59:59.
#[verifier::external_body]
pub(crate) fn utc_seconds(civil: Civil) -> (r: Option<i64>)
    requires
        civil.year <= 9999,
    ensures
        r is Some <==> civil.is_real(),
        r matches Some(s) ==> FIRST_SECOND <= s <= LAST_SECOND && s == civil_seconds(
            civil.year as int,
            civil.month as int,
            civil.day as int,
            civil.hour as int,
            civil.minute as int,
            civil.second as int,
        ),
{
    let Civil { year, month, day, hour, minute, second } = civil;
    match chrono::Utc.with_ymd_and_hms(year as i32, month, day, hour, minute, second) {
        chrono::LocalResult::Single(t) => Some(t.timestamp()),
        _ => None,
    }
}

/// Reads the local date and time of a point in time through `chrono`'s
/// `Datelike` and `Timelike` getters on a `DateTime<FixedOffset>`.
///
/// Trusted: the fields depend on the local second `instant + offset` alone,
/// and they name an existing second.
#[verifier::external_body]
pub(crate) fn civil_fields(instant: i64, offset: i32) -> (c: Civil)
    requires
        printable(instant as int, offset as int),
    ensures
        c.is_real(),
        c.fields() == civil_reading(instant + offset),
{
    let t = chrono::FixedOffset::east_opt(offset).unwrap().timestamp_opt(instant, 0).unwrap();
    Civil {
        year: t.year() as u32,
        month: t.month(),
        day: t.day(),
        hour: t.hour(),
        minute: t.minute(),
        second: t.second(),
    }
}

/// Calls `chrono::DateTime::to_rfc2822`.
///
/// Trusted: the text depends on the instant and the offset alone, and
/// `chrono::DateTime::parse_from_rfc2822` reads the same instant and offset
/// back from it.
#[verifier::external_body]
pub(crate) fn write_rfc2822(instant: i64, offset: i32) -> (text: String)
    requires
        printable(instant as int, offset as int),
    ensures
        text@ == rfc2822_text(instant as int, offset as int),
        rfc2822_reading(text@) == Some((instant as int, offset as int)),
{
    chrono::FixedOffset::east_opt(offset).unwrap().timestamp_opt(instant, 0).unwrap().to_rfc2822()
}

/// Calls `chrono::DateTime::parse_from_rfc2822`.
///
/// Trusted: whether the text is accepted, and the instant and offset read
/// from it, depend on the text alone.
#[verifier::external_body]
pub(crate) fn read_rfc2822(text: &str) -> (r: Option<(i64, i32)>)
    ensures
        rfc2822_reading(text@) == match r {
            Some(p) => Some((p.0 as int, p.1 as int)),
            None => None,
        },
{
    match chrono::DateTime::parse_from_rfc2822(text) {
        Ok(t) => Some((t.timestamp(), t.offset().local_minus_utc())),
        Err(_) => None,
    }
}

/// Calls `chrono::Local::now` and hands out its Unix seconds and its offset
/// east of UTC. Nothing is promised of a clock.
#[verifier::external_body]
pub(crate) fn read_clock() -> (r: (i64, i32)) {
    let now = chrono::Local::now();
    (now.timestamp(), now.offset().local_minus_utc())
}

} // verus!
