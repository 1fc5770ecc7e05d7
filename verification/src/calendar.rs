//! The library's date model: a date is a day number in the proleptic
//! Gregorian calendar, with day 1 being January 1 of year 1. Conversions
//! between day numbers and civil dates are done by the calendar crate
//! behind trusted wrappers; all arithmetic on day numbers is verified.

use vstd::prelude::*;
use chrono::Datelike;

verus! {

/// The smallest day number the library formats or computes dates in.
pub const DAY_NUMBER_MIN: i64 = -1_000_000;

/// The largest day number the library formats or computes dates in.
pub const DAY_NUMBER_MAX: i64 = 4_000_000;

/// The smallest day number accepted as "today" after clamping.
pub const TODAY_MIN: i64 = -700_000;

/// The largest day number accepted as "today" after clamping.
pub const TODAY_MAX: i64 = 3_700_000;

/// Relies on chrono's `Datelike::num_days_from_ce`: the day number of the
/// civil date `(y, m, d)`, a function of its arguments alone.
pub uninterp spec fn civil_day_number(y: int, m: int, d: int) -> int;

/// Relies on chrono's `NaiveDate` formatting: the ISO-8601 calendar string
/// (`YYYY-MM-DD` for years 0 through 9999) of a day number, a function of
/// its argument alone.
pub uninterp spec fn civil_string(days: int) -> Seq<char>;

/// The Gregorian leap-year rule.
pub open spec fn is_leap_year(y: int) -> bool {
    (y % 4 == 0 && y % 100 != 0) || y % 400 == 0
}

/// How many days month `m` of year `y` has (0 for an invalid month).
pub open spec fn days_in_month(y: int, m: int) -> int {
    if m == 1 || m == 3 || m == 5 || m == 7 || m == 8 || m == 10 || m == 12 {
        31
    } else if m == 4 || m == 6 || m == 9 || m == 11 {
        30
    } else if m == 2 {
        if is_leap_year(y) {
            29
        } else {
            28
        }
    } else {
        0
    }
}

/// Whether `(y, m, d)` is a valid Gregorian calendar date.
pub open spec fn valid_ymd(y: int, m: int, d: int) -> bool {
    1 <= m <= 12 && 1 <= d <= days_in_month(y, m)
}

/// Relies on chrono's `NaiveDate::from_ymd_opt` (documented to return
/// `Some` exactly for valid calendar dates in its range, which covers
/// years 0 through 9999) and `Datelike::num_days_from_ce` (day 1 is
/// January 1 of year 1, so years 0 through 9999 give day numbers between
/// -366 and 3 652 059).
#[verifier::external_body]
fn day_number_opt(y: i32, m: u32, d: u32) -> (r: Option<i64>)
    requires
        0 <= y <= 9999,
    ensures
        r is Some <==> valid_ymd(y as int, m as int, d as int),
        r matches Some(v) ==> v == civil_day_number(y as int, m as int, d as int) && -366 <= v
            <= 3_652_059,
{
    chrono::NaiveDate::from_ymd_opt(y, m, d).map(|date| date.num_days_from_ce() as i64)
}

/// Relies on chrono's `NaiveDate::from_num_days_from_ce_opt` (documented
/// to return `Some` for every in-range day number, and its range reaches
/// far beyond four million days) and on `NaiveDate`'s `Display` (the
/// `%Y-%m-%d` calendar format).
#[verifier::external_body]
pub(crate) fn day_number_to_string(days: i64) -> (r: Option<String>)
    ensures
        DAY_NUMBER_MIN <= days <= DAY_NUMBER_MAX ==> r is Some,
        r matches Some(s) ==> s@ == civil_string(days as int),
{
    if days < i32::MIN as i64 || days > i32::MAX as i64 {
        return None;
    }
    chrono::NaiveDate::from_num_days_from_ce_opt(days as i32).map(|date| date.to_string())
}

/// Relies on chrono's `Utc::now`: the day number of the current date on
/// the system clock. Nothing can be promised of a clock reading.
#[verifier::external_body]
pub(crate) fn today_day_number_raw() -> i64 {
    chrono::Utc::now().date_naive().num_days_from_ce() as i64
}

/// `today` forced into the window where the library's relative-date
/// arithmetic stays within the formattable day-number range.
pub open spec fn clamp_today_spec(today: int) -> int {
    if today < TODAY_MIN as int {
        TODAY_MIN as int
    } else if today > TODAY_MAX as int {
        TODAY_MAX as int
    } else {
        today
    }
}

/// Clamps a day number into the window the library accepts as "today".
pub fn clamp_today(today: i64) -> (r: i64)
    ensures
        r as int == clamp_today_spec(today as int),
        TODAY_MIN <= r <= TODAY_MAX,
{
    if today < TODAY_MIN {
        TODAY_MIN
    } else if today > TODAY_MAX {
        TODAY_MAX
    } else {
        today
    }
}

/// The day number of the civil date `(y, m, d)`, for years 0 through 9999;
/// `None` outside that range or for an invalid date.
pub fn day_number_from_ymd(y: i32, m: u32, d: u32) -> (r: Option<i64>)
    ensures
        r is Some <==> (0 <= y <= 9999 && valid_ymd(y as int, m as int, d as int)),
        r matches Some(v) ==> v == civil_day_number(y as int, m as int, d as int) && -366 <= v
            <= 3_652_059,
{
    if y < 0 || y > 9999 {
        None
    } else {
        day_number_opt(y, m, d)
    }
}

} // verus!
