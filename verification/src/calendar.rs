//! Calendar days of the proleptic Gregorian calendar, counted from
//! 1970-01-01, and the validity window of a certificate measured in them.
//! The conversion from an instant to a date is done by `chrono`.

use chrono::Datelike;
use vstd::prelude::*;

verus! {

pub open spec fn is_leap_year(year: int) -> bool {
    year % 4 == 0 && (year % 100 != 0 || year % 400 == 0)
}

pub open spec fn days_in_month(year: int, month: int) -> int {
    if month == 2 {
        if is_leap_year(year) {
            29
        } else {
            28
        }
    } else if month == 4 || month == 6 || month == 9 || month == 11 {
        30
    } else {
        31
    }
}

pub open spec fn days_in_year(year: int) -> int {
    if is_leap_year(year) {
        366
    } else {
        365
    }
}

/// The days of `year` that lie before the first of `month`.
pub open spec fn days_before_month(year: int, month: int) -> int
    decreases month,
{
    if month <= 1 {
        0
    } else {
        days_before_month(year, month - 1) + days_in_month(year, month - 1)
    }
}

/// The days from 0001-01-01 up to, not including, the first of January of
/// `year`.
pub open spec fn days_before_year(year: int) -> int {
    let p = year - 1;
    365 * p + p / 4 - p / 100 + p / 400
}

/// The day number of 1970-01-01 counted from 0001-01-01.
pub open spec fn epoch_offset() -> int {
    719162
}

/// The number of the day `year`-`month`-`day`, where 1970-01-01 is day 0.
pub open spec fn day_number(year: int, month: int, day: int) -> int {
    days_before_year(year) + days_before_month(year, month) + (day - 1) - epoch_offset()
}

/// The day on which the instant `secs` seconds after the epoch falls.
pub open spec fn epoch_day(secs: int) -> int {
    secs / 86400
}

/// The first day that a certificate can carry: 0000-01-01.
pub open spec fn first_day() -> int {
    -719528
}

/// The last day that a certificate can carry: 9999-12-31.
pub open spec fn last_day() -> int {
    2932896
}

/// Whether a certificate can carry the day: its year has four digits.
pub open spec fn representable(day: int) -> bool {
    first_day() <= day <= last_day()
}

/// The longest distance between two representable days.
pub const MAX_SPAN_DAYS: i64 = 3_652_424;

/// A calendar date.
#[derive(Clone, Copy, Debug, PartialEq, Eq, Structural)]
pub struct CivilDate {
    pub year: i32,
    pub month: u8,
    pub day: u8,
}

impl CivilDate {
    /// Whether the date exists in the calendar.
    pub open spec fn is_valid(self) -> bool {
        &&& 1 <= self.month <= 12
        &&& 1 <= self.day <= days_in_month(self.year as int, self.month as int)
    }

    /// The date's day number, where 1970-01-01 is day 0.
    pub open spec fn day_number(self) -> int {
        day_number(self.year as int, self.month as int, self.day as int)
    }
}

/// See `is_leap_year`.
pub fn leap_year(year: i32) -> (r: bool)
    ensures
        r == is_leap_year(year as int),
{
    year % 4 == 0 && (year % 100 != 0 || year % 400 == 0)
}

/// See `days_in_month`.
pub fn month_length(year: i32, month: u8) -> (r: u8)
    ensures
        r == days_in_month(year as int, month as int),
{
    if month == 2 {
        if leap_year(year) {
            29
        } else {
            28
        }
    } else if month == 4 || month == 6 || month == 9 || month == 11 {
        30
    } else {
        31
    }
}

impl CivilDate {
    /// See `is_valid`.
    pub fn is_real(&self) -> (r: bool)
        ensures
            r == self.is_valid(),
    {
        1 <= self.month && self.month <= 12 && 1 <= self.day && self.day <= month_length(
            self.year,
            self.month,
        )
    }
}

/// From January first to the end of December a year has its full length.
pub proof fn lemma_days_before_month_bounds(year: int, month: int)
    requires
        1 <= month <= 12,
    ensures
        0 <= days_before_month(year, month),
        days_before_month(year, month) + days_in_month(year, month) <= days_in_year(year),
        days_before_month(year, month) + days_in_month(year, month) == days_before_month(
            year,
            month + 1,
        ),
        month < 12 ==> days_before_month(year, month + 1) < days_in_year(year),
        28 * (month - 1) <= days_before_month(year, month) <= 31 * (month - 1),
{
    reveal_with_fuel(days_before_month, 14);
}

/// A year's length is the distance between two first days of January.
pub proof fn lemma_year_length(year: int)
    ensures
        days_before_year(year + 1) - days_before_year(year) == days_in_year(year),
{
}

/// A valid date lies within its year.
pub proof fn lemma_day_within_year(date: CivilDate)
    requires
        date.is_valid(),
    ensures
        days_before_year(date.year as int) - epoch_offset() <= date.day_number(),
        date.day_number() < days_before_year(date.year as int + 1) - epoch_offset(),
{
    lemma_days_before_month_bounds(date.year as int, date.month as int);
    lemma_year_length(date.year as int);
}

/// Later years start on later days.
pub proof fn lemma_years_ordered(a: int, b: int)
    requires
        a <= b,
    ensures
        days_before_year(a) <= days_before_year(b),
        a < b ==> days_before_year(a) + 365 <= days_before_year(b),
{
}

/// A valid date has a four-digit year exactly when its day is representable.
pub proof fn lemma_representable_years(date: CivilDate)
    requires
        date.is_valid(),
    ensures
        representable(date.day_number()) <==> 0 <= date.year <= 9999,
{
    lemma_day_within_year(date);
    if date.year < 0 {
        lemma_years_ordered(date.year as int + 1, 0);
    } else {
        lemma_years_ordered(0, date.year as int);
    }
    if date.year > 9999 {
        lemma_years_ordered(10000, date.year as int);
    } else {
        lemma_years_ordered(date.year as int + 1, 10000);
    }
}

/// Two valid dates with the same day number are the same date.
pub proof fn lemma_day_number_injective(a: CivilDate, b: CivilDate)
    requires
        a.is_valid(),
        b.is_valid(),
        a.day_number() == b.day_number(),
    ensures
        a == b,
{
    lemma_day_within_year(a);
    lemma_day_within_year(b);
    if a.year < b.year {
        lemma_years_ordered(a.year as int + 1, b.year as int);
    }
    if b.year < a.year {
        lemma_years_ordered(b.year as int + 1, a.year as int);
    }
    assert(a.year == b.year);
    reveal_with_fuel(days_before_month, 14);
    assert(a.month == b.month);
}

/// The days on which a certificate starts and stops being valid.
#[derive(Clone, Copy, Debug, PartialEq, Eq, Structural)]
pub struct Validity {
    pub not_before: CivilDate,
    pub not_after: CivilDate,
}

impl Validity {
    /// Both dates exist and have four-digit years.
    pub open spec fn wf(self) -> bool {
        &&& self.not_before.is_valid()
        &&& self.not_after.is_valid()
        &&& 0 <= self.not_before.year <= 9999
        &&& 0 <= self.not_after.year <= 9999
    }

    /// The days from the first date to the second.
    pub open spec fn span_days(self) -> int {
        self.not_after.day_number() - self.not_before.day_number()
    }

    /// See `wf`.
    pub fn check(&self) -> (r: bool)
        ensures
            r == self.wf(),
    {
        self.not_before.is_real() && self.not_after.is_real() && 0 <= self.not_before.year
            && self.not_before.year <= 9999 && 0 <= self.not_after.year && self.not_after.year
            <= 9999
    }
}

/// The system clock, read by `std::time::SystemTime::now` and turned by
/// `chrono` into an instant of UTC, as whole seconds since the epoch.
/// `chrono` places a clock that stands before 1970 as it does one that
/// stands after it. Nothing is claimed of what the clock says.
#[verifier::external_body]
pub(crate) fn now_secs() -> i64 {
    chrono::DateTime::<chrono::Utc>::from(std::time::SystemTime::now()).timestamp()
}

/// The UTC date `days` days after the instant `secs` seconds past the epoch,
/// by `chrono::DateTime::from_timestamp` and `checked_add_signed`.
/// `chrono` counts days of the proleptic Gregorian calendar and takes the
/// floor of `secs / 86400` for the day of the instant, so the date it gives
/// is the valid one whose day number is that day plus `days`. It answers
/// `None` only far outside the four-digit years.
#[verifier::external_body]
pub(crate) fn date_after(secs: i64, days: i64) -> (r: Option<CivilDate>)
    ensures
        r matches Some(d) ==> d.is_valid() && d.day_number() == epoch_day(secs as int) + days,
        representable(epoch_day(secs as int)) && -MAX_SPAN_DAYS <= days <= MAX_SPAN_DAYS
            ==> r is Some,
{
    let start = chrono::DateTime::from_timestamp(secs, 0)?;
    let end = start.checked_add_signed(chrono::TimeDelta::try_days(days)?)?;
    Some(CivilDate { year: end.year(), month: end.month() as u8, day: end.day() as u8 })
}

/// The validity window of a certificate issued at `now_secs` seconds past
/// the epoch for `days` days: it starts on the day of issue and ends `days`
/// days later. There is a window exactly when both days are representable.
pub fn validity_window(now_secs: i64, days: i64) -> (r: Option<Validity>)
    ensures
        r is Some <==> representable(epoch_day(now_secs as int)) && representable(
            epoch_day(now_secs as int) + days,
        ),
        r matches Some(v) ==> {
            &&& v.wf()
            &&& v.not_before.day_number() == epoch_day(now_secs as int)
            &&& v.span_days() == days
        },
{
    let not_before = match date_after(now_secs, 0) {
        Some(d) => d,
        None => {
            return None;
        },
    };
    proof {
        lemma_representable_years(not_before);
    }
    if not_before.year < 0 || not_before.year > 9999 {
        return None;
    }
    if days < -MAX_SPAN_DAYS || days > MAX_SPAN_DAYS {
        return None;
    }
    let not_after = match date_after(now_secs, days) {
        Some(d) => d,
        None => {
            return None;
        },
    };
    proof {
        lemma_representable_years(not_after);
    }
    if not_after.year < 0 || not_after.year > 9999 {
        return None;
    }
    Some(Validity { not_before, not_after })
}

} // verus!
