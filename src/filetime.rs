//! Conversion of a Windows FILETIME (100-nanosecond ticks since 1601-01-01 UTC) to a UTC
//! calendar time.
use vstd::prelude::*;

verus! {

/// A UTC calendar time, as decoded from a FILETIME.
#[derive(Debug, Clone, Copy, PartialEq, Eq, Hash, PartialOrd, Ord)]
pub struct Timestamp {
    /// The calendar year, such as 1970.
    pub year: u32,
    /// The month, 1 (January) to 12 (December).
    pub month: u8,
    /// The day of the month, starting at 1.
    pub day: u8,
    pub hour: u8,
    pub minute: u8,
    pub second: u8,
    /// Nanoseconds into the second, a multiple of 100.
    pub nanosecond: u32,
    /// Days since January 1st of `year`, starting at 0.
    pub day_of_year: u16,
    /// The day of the year modulo 7; an approximate weekday with no fixed anchor.
    pub day_of_week: u8,
}

pub const TICKS_PER_SECOND: u64 = 10_000_000;
pub const TICKS_PER_MINUTE: u64 = 600_000_000;
pub const TICKS_PER_HOUR: u64 = 36_000_000_000;
pub const TICKS_PER_DAY: u64 = 864_000_000_000;
/// The year in which FILETIME counting starts.
pub const FILETIME_EPOCH_YEAR: u64 = 1601;
/// The earliest year that a decoded time can have; earlier instants saturate to its start.
pub const BASE_YEAR: u64 = 1900;

/// Leap years: divisible by 4, and not by 25 unless also by 16 (so not by 100 unless by 400).
pub open spec fn is_leap_year(y: int) -> bool {
    y % 4 == 0 && (y % 25 != 0 || y % 16 == 0)
}

pub open spec fn year_len(y: int) -> int {
    if is_leap_year(y) {
        366
    } else {
        365
    }
}

/// The number of days from January 1st of `from` to January 1st of `to`.
pub open spec fn days_between(from: int, to: int) -> int
    decreases to - from,
{
    if to <= from {
        0
    } else {
        days_between(from, to - 1) + year_len(to - 1)
    }
}

/// The length of month `m` (1 to 12).
pub open spec fn month_len(m: int, leap: bool) -> int {
    if m == 2 {
        if leap {
            29
        } else {
            28
        }
    } else if m == 4 || m == 6 || m == 9 || m == 11 {
        30
    } else {
        31
    }
}

/// The number of days in a year before the first day of month `m`.
pub open spec fn days_before_month(m: int, leap: bool) -> int
    decreases m,
{
    if m <= 1 {
        0
    } else {
        days_before_month(m - 1, leap) + month_len(m - 1, leap)
    }
}

/// Ticks since the start of the base year, or 0 for an earlier instant.
pub open spec fn ticks_since_base(ticks: u64) -> int {
    let offset = days_between(FILETIME_EPOCH_YEAR as int, BASE_YEAR as int)
        * TICKS_PER_DAY as int;
    if ticks < offset {
        0
    } else {
        ticks - offset
    }
}

/// `t` is the UTC calendar time of FILETIME `ticks`.
pub open spec fn is_utc_of(ticks: u64, t: Timestamp) -> bool {
    let n = ticks_since_base(ticks);
    let d = n / TICKS_PER_DAY as int;
    let first = days_between(BASE_YEAR as int, t.year as int);
    let leap = is_leap_year(t.year as int);
    let before = days_before_month(t.month as int, leap);
    &&& t.year >= BASE_YEAR
    &&& first <= d < first + year_len(t.year as int)
    &&& t.day_of_year == d - first
    &&& 1 <= t.month <= 12
    &&& before <= t.day_of_year < before + month_len(t.month as int, leap)
    &&& t.day == t.day_of_year - before + 1
    &&& t.hour == (n % TICKS_PER_DAY as int) / TICKS_PER_HOUR as int
    &&& t.minute == (n % TICKS_PER_HOUR as int) / TICKS_PER_MINUTE as int
    &&& t.second == (n % TICKS_PER_MINUTE as int) / TICKS_PER_SECOND as int
    &&& t.nanosecond == (n % TICKS_PER_SECOND as int) * 100
    &&& t.day_of_week == t.day_of_year % 7
}

fn is_year_leap_year(year: u64) -> (r: bool)
    ensures
        r == is_leap_year(year as int),
{
    year % 4 == 0 && (year % 25 != 0 || year % 16 == 0)
}

fn year_length(year: u64) -> (r: u64)
    ensures
        r == year_len(year as int),
{
    if is_year_leap_year(year) {
        366
    } else {
        365
    }
}

fn month_length(m: u64, leap: bool) -> (r: u64)
    ensures
        r == month_len(m as int, leap),
{
    if m == 2 {
        if leap {
            29
        } else {
            28
        }
    } else if m == 4 || m == 6 || m == 9 || m == 11 {
        30
    } else {
        31
    }
}

proof fn lemma_days_before_month_full(leap: bool)
    ensures
        days_before_month(13, leap) == if leap {
            366int
        } else {
            365int
        },
{
    reveal_with_fuel(days_before_month, 13);
}

/// Days from the FILETIME epoch year to the base year, summed year by year.
fn epoch_offset_days() -> (r: u64)
    ensures
        r == days_between(FILETIME_EPOCH_YEAR as int, BASE_YEAR as int),
        r <= 366 * (BASE_YEAR - FILETIME_EPOCH_YEAR),
{
    let mut sum: u64 = 0;
    let mut year: u64 = FILETIME_EPOCH_YEAR;
    while year < BASE_YEAR
        invariant
            FILETIME_EPOCH_YEAR <= year <= BASE_YEAR,
            sum == days_between(FILETIME_EPOCH_YEAR as int, year as int),
            sum <= 366 * (year - FILETIME_EPOCH_YEAR),
        decreases BASE_YEAR - year,
    {
        sum = sum + year_length(year);
        year = year + 1;
    }
    sum
}

/// Converts a FILETIME tick count to a UTC calendar time. Instants before the base year
/// saturate to its first instant.
pub fn filetime_to_utc(ticks: u64) -> (r: Timestamp)
    ensures
        is_utc_of(ticks, r),
{
    let offset = epoch_offset_days() * TICKS_PER_DAY;
    let n: u64 = if ticks < offset {
        0
    } else {
        ticks - offset
    };
    let nanos = (n % TICKS_PER_SECOND) * 100;
    let second = (n % TICKS_PER_MINUTE) / TICKS_PER_SECOND;
    let minute = (n % TICKS_PER_HOUR) / TICKS_PER_MINUTE;
    let hour = (n % TICKS_PER_DAY) / TICKS_PER_HOUR;
    let days = n / TICKS_PER_DAY;
    assert(days <= 21_350_399);

    let mut first: u64 = 0;
    let mut year: u64 = BASE_YEAR;
    while first + year_length(year) <= days
        invariant
            BASE_YEAR <= year,
            first == days_between(BASE_YEAR as int, year as int),
            first <= days <= 21_350_399,
            first >= 365 * (year - BASE_YEAR),
        decreases days - first,
    {
        first = first + year_length(year);
        year = year + 1;
    }
    let day_in_year = days - first;
    let leap = is_year_leap_year(year);

    proof {
        lemma_days_before_month_full(leap);
    }
    let mut month: u64 = 1;
    let mut before: u64 = 0;
    while before + month_length(month, leap) <= day_in_year
        invariant
            1 <= month <= 12,
            before == days_before_month(month as int, leap),
            before <= day_in_year,
            day_in_year < year_len(year as int),
            days_before_month(13, leap) == year_len(year as int),
        decreases day_in_year - before,
    {
        before = before + month_length(month, leap);
        month = month + 1;
    }
    let day = day_in_year - before + 1;
    Timestamp {
        year: year as u32,
        month: month as u8,
        day: day as u8,
        hour: hour as u8,
        minute: minute as u8,
        second: second as u8,
        nanosecond: nanos as u32,
        day_of_year: day_in_year as u16,
        day_of_week: (day_in_year % 7) as u8,
    }
}

proof fn lemma_days_between_grows(b: int, y1: int, y2: int)
    requires
        b <= y1 < y2,
    ensures
        days_between(b, y1) + year_len(y1) <= days_between(b, y2),
    decreases y2 - y1,
{
    if y2 > y1 + 1 {
        lemma_days_between_grows(b, y1, y2 - 1);
    }
}

proof fn lemma_days_before_month_grows(m1: int, m2: int, leap: bool)
    requires
        1 <= m1 < m2,
    ensures
        days_before_month(m1, leap) + month_len(m1, leap) <= days_before_month(m2, leap),
    decreases m2 - m1,
{
    if m2 > m1 + 1 {
        lemma_days_before_month_grows(m1, m2 - 1, leap);
    }
}

/// A FILETIME has exactly one UTC calendar time: converting it is deterministic.
pub proof fn lemma_utc_unique(ticks: u64, t1: Timestamp, t2: Timestamp)
    requires
        is_utc_of(ticks, t1),
        is_utc_of(ticks, t2),
    ensures
        t1 == t2,
{
    if t1.year < t2.year {
        lemma_days_between_grows(BASE_YEAR as int, t1.year as int, t2.year as int);
    } else if t2.year < t1.year {
        lemma_days_between_grows(BASE_YEAR as int, t2.year as int, t1.year as int);
    }
    assert(t1.year == t2.year);
    let leap = is_leap_year(t1.year as int);
    if t1.month < t2.month {
        lemma_days_before_month_grows(t1.month as int, t2.month as int, leap);
    } else if t2.month < t1.month {
        lemma_days_before_month_grows(t2.month as int, t1.month as int, leap);
    }
}

} // verus!
