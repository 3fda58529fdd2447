//! Days of the calendar, as the time of the clock gives them.

use crate::members::text_of;
use vstd::prelude::*;

verus! {

/// The seconds of a day.
pub const SECONDS_PER_DAY: i64 = 86400;

/// How a day is written: year, month and day with `-` or with `/` between
/// them.
#[derive(Clone, Copy, Debug, PartialEq, Eq, Structural)]
pub enum DayForm {
    Dashes,
    Slashes,
}

impl DayForm {
    /// The pattern that writes a day in this form.
    pub open spec fn pattern(self) -> Seq<char> {
        match self {
            DayForm::Dashes => "%Y-%m-%d"@,
            DayForm::Slashes => "%Y/%m/%d"@,
        }
    }
}

/// What `chrono` writes for the day of a time in UTC, which is given in
/// seconds since the beginning of 1970, under a pattern. Nothing for a time
/// beyond the years that `chrono` knows.
pub uninterp spec fn utc_day_text(seconds: int, pattern: Seq<char>) -> Option<Seq<char>>;

/// Writes the day of a time in UTC: makes the time with
/// `chrono::DateTime::from_timestamp`, which gives nothing for a time out
/// of its range, and writes it with `DateTime::format` under one of the
/// two patterns of [`DayForm`].
#[verifier::external_body]
fn utc_day(seconds: i64, pattern: &str) -> (r: Option<String>)
    requires
        pattern@ == DayForm::Dashes.pattern() || pattern@ == DayForm::Slashes.pattern(),
    ensures
        text_of(r) == utc_day_text(seconds as int, pattern@),
{
    Some(chrono::DateTime::from_timestamp(seconds, 0)?.format(pattern).to_string())
}

/// The day of a time in UTC, written in the given form.
pub fn day_text(seconds: i64, form: DayForm) -> (r: Option<String>)
    ensures
        text_of(r) == utc_day_text(seconds as int, form.pattern()),
{
    match form {
        DayForm::Dashes => utc_day(seconds, "%Y-%m-%d"),
        DayForm::Slashes => utc_day(seconds, "%Y/%m/%d"),
    }
}

/// The time a number of days before a time.
pub open spec fn seconds_before(now: int, days: int) -> int {
    now - days * SECONDS_PER_DAY
}

/// The time `days` days before `now`, where it can be counted in seconds.
pub fn days_before(now: i64, days: i64) -> (r: Option<i64>)
    ensures
        r == if i64::MIN <= seconds_before(now as int, days as int) <= i64::MAX {
            Some(seconds_before(now as int, days as int) as i64)
        } else {
            None::<i64>
        },
{
    let wide: i128 = now as i128 - days as i128 * 86400;
    if wide < i64::MIN as i128 || wide > i64::MAX as i128 {
        None
    } else {
        Some(wide as i64)
    }
}

/// The day that lies `days` days before a time in UTC, written in the
/// given form. Nothing for a day beyond the years that `chrono` knows.
pub open spec fn day_before(now: int, days: int, form: DayForm) -> Option<Seq<char>> {
    if i64::MIN <= seconds_before(now, days) <= i64::MAX {
        utc_day_text(seconds_before(now, days), form.pattern())
    } else {
        None
    }
}

/// The day that lies `days` days before a time in UTC.
pub fn day_before_text(now: i64, days: i64, form: DayForm) -> (r: Option<String>)
    ensures
        text_of(r) == day_before(now as int, days as int, form),
{
    match days_before(now, days) {
        Some(seconds) => day_text(seconds, form),
        None => None,
    }
}

} // verus!
