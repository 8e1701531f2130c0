//! The proleptic Gregorian calendar counted forward from 1970-01-01.
//!
//! A civil date is modelled as a triple of mathematical integers
//! `(year, month, day)`. [`day_number`] maps a valid date to the number of
//! whole days between the epoch and that date; [`compute_date`] is its
//! executable inverse.

use vstd::prelude::*;

verus! {

/// The year in which day 0 falls.
pub const EPOCH_YEAR: u64 = 1970;

/// Month lengths of a leap year, January first.
pub const LEAP_YEAR: [u64; 12] = [31, 29, 31, 30, 31, 30, 31, 31, 30, 31, 30, 31];

/// Month lengths of a common year, January first.
pub const COMMON_YEAR: [u64; 12] = [31, 28, 31, 30, 31, 30, 31, 31, 30, 31, 30, 31];

/// Whether `year` is a leap year: divisible by 4, and not by 100 unless also by 400.
pub open spec fn is_leap(year: int) -> bool {
    year % 4 == 0 && (year % 100 != 0 || year % 400 == 0)
}

/// Number of days in `year`.
pub open spec fn days_in_year(year: int) -> int {
    if is_leap(year) {
        366
    } else {
        365
    }
}

/// Number of days in month `month` (1 = January) of `year`.
pub open spec fn days_in_month(year: int, month: int) -> int {
    if month == 2 {
        if is_leap(year) {
            29
        } else {
            28
        }
    } else if month == 4 || month == 6 || month == 9 || month == 11 {
        30
    } else {
        31
    }
}

/// Days between the epoch and the first day of `year`.
pub open spec fn days_before_year(year: int) -> int
    decreases year,
{
    if year <= 1970 {
        0
    } else {
        days_before_year(year - 1) + days_in_year(year - 1)
    }
}

/// Days between the first day of `year` and the first day of its month `month`.
pub open spec fn days_before_month(year: int, month: int) -> int
    decreases month,
{
    if month <= 1 {
        0
    } else {
        days_before_month(year, month - 1) + days_in_month(year, month - 1)
    }
}

/// A date of the calendar on or after the epoch.
pub open spec fn is_valid_date(year: int, month: int, day: int) -> bool {
    &&& year >= 1970
    &&& 1 <= month <= 12
    &&& 1 <= day <= days_in_month(year, month)
}

/// Days between the epoch and the given date; 1970-01-01 is day 0.
pub open spec fn day_number(year: int, month: int, day: int) -> int {
    days_before_year(year) + days_before_month(year, month) + day - 1
}

/// The date on which day `days` falls: the valid date whose day number is `days`.
///
/// [`lemma_date_of_day`] and [`lemma_day_number_injective`] show that there is
/// exactly one such date for every `days >= 0`.
pub open spec fn date_of_day(days: int) -> (int, int, int) {
    choose|date: (int, int, int)|
        is_valid_date(date.0, date.1, date.2) && #[trigger] day_number(date.0, date.1, date.2)
            == days
}

/// A year from the epoch on starts between 365 and 366 days per elapsed year
/// after the epoch.
pub proof fn lemma_days_before_year_bounds(year: int)
    requires
        year >= 1970,
    ensures
        365 * (year - 1970) <= days_before_year(year) <= 366 * (year - 1970),
    decreases year,
{
    if year > 1970 {
        lemma_days_before_year_bounds(year - 1);
    }
}

/// A later year starts no earlier than the end of an earlier one.
pub proof fn lemma_days_before_year_increases(earlier: int, later: int)
    requires
        1970 <= earlier < later,
    ensures
        days_before_year(earlier) + days_in_year(earlier) <= days_before_year(later),
    decreases later,
{
    if earlier + 1 < later {
        lemma_days_before_year_increases(earlier, later - 1);
    }
}

/// The months of a year add up to the year.
pub proof fn lemma_months_fill_year(year: int)
    ensures
        days_before_month(year, 13) == days_in_year(year),
{
    reveal_with_fuel(days_before_month, 13);
}

/// A later month starts no earlier than the end of an earlier one.
pub proof fn lemma_days_before_month_increases(year: int, earlier: int, later: int)
    requires
        1 <= earlier < later,
    ensures
        days_before_month(year, earlier) + days_in_month(year, earlier) <= days_before_month(
            year,
            later,
        ),
    decreases later,
{
    if earlier + 1 < later {
        lemma_days_before_month_increases(year, earlier, later - 1);
    }
}

/// Every day of a valid date lies inside its year.
pub proof fn lemma_day_number_within_year(year: int, month: int, day: int)
    requires
        is_valid_date(year, month, day),
    ensures
        days_before_year(year) <= day_number(year, month, day) < days_before_year(year)
            + days_in_year(year),
{
    lemma_months_fill_year(year);
    lemma_days_before_month_increases(year, month, 13);
    if month > 1 {
        lemma_days_before_month_increases(year, 1, month);
    }
}

/// Two valid dates with the same day number are the same date.
pub proof fn lemma_day_number_injective(
    year1: int,
    month1: int,
    day1: int,
    year2: int,
    month2: int,
    day2: int,
)
    requires
        is_valid_date(year1, month1, day1),
        is_valid_date(year2, month2, day2),
        day_number(year1, month1, day1) == day_number(year2, month2, day2),
    ensures
        year1 == year2,
        month1 == month2,
        day1 == day2,
{
    lemma_day_number_within_year(year1, month1, day1);
    lemma_day_number_within_year(year2, month2, day2);
    if year1 < year2 {
        lemma_days_before_year_increases(year1, year2);
    }
    if year2 < year1 {
        lemma_days_before_year_increases(year2, year1);
    }
    if month1 < month2 {
        lemma_days_before_month_increases(year1, month1, month2);
    }
    if month2 < month1 {
        lemma_days_before_month_increases(year1, month2, month1);
    }
}

/// Some year from `from` on contains day `days`.
proof fn lemma_year_containing(days: int, from: int) -> (year: int)
    requires
        from >= 1970,
        days_before_year(from) <= days,
    ensures
        year >= from,
        days_before_year(year) <= days < days_before_year(year) + days_in_year(year),
    decreases days - days_before_year(from),
{
    if days < days_before_year(from) + days_in_year(from) {
        from
    } else {
        lemma_year_containing(days, from + 1)
    }
}

/// Some month from `from` on contains day `rest` of `year`.
proof fn lemma_month_containing(year: int, rest: int, from: int) -> (month: int)
    requires
        1 <= from <= 12,
        days_before_month(year, from) <= rest < days_in_year(year),
    ensures
        from <= month <= 12,
        days_before_month(year, month) <= rest < days_before_month(year, month) + days_in_month(
            year,
            month,
        ),
    decreases 12 - from,
{
    if rest < days_before_month(year, from) + days_in_month(year, from) {
        from
    } else {
        lemma_months_fill_year(year);
        lemma_month_containing(year, rest, from + 1)
    }
}

/// Round trip from a day count: the date of day `days` is a valid date, and
/// counting the days up to it gives `days` again.
pub proof fn lemma_date_of_day(days: int)
    requires
        days >= 0,
    ensures
        is_valid_date(date_of_day(days).0, date_of_day(days).1, date_of_day(days).2),
        day_number(date_of_day(days).0, date_of_day(days).1, date_of_day(days).2) == days,
{
    let year = lemma_year_containing(days, 1970);
    let month = lemma_month_containing(year, days - days_before_year(year), 1);
    let day = days - days_before_year(year) - days_before_month(year, month) + 1;
    let date = (year, month, day);
    assert(is_valid_date(date.0, date.1, date.2) && day_number(date.0, date.1, date.2) == days);
}

/// Round trip from a date: the date of the day number of a valid date is that
/// date.
pub proof fn lemma_date_of_day_number(year: int, month: int, day: int)
    requires
        is_valid_date(year, month, day),
    ensures
        date_of_day(day_number(year, month, day)) == (year, month, day),
{
    let days = day_number(year, month, day);
    lemma_day_number_within_year(year, month, day);
    lemma_days_before_year_bounds(year);
    lemma_date_of_day(days);
    let found = date_of_day(days);
    lemma_day_number_injective(found.0, found.1, found.2, year, month, day);
}

/// Determines if a year is a leap year.
pub fn is_leap_year(year: u64) -> (leap: bool)
    ensures
        leap == (year % 4 == 0 && (year % 100 != 0 || year % 400 == 0)),
        leap == is_leap(year as int),
{
    (year % 4 == 0 && year % 100 != 0) || year % 400 == 0
}

/// Length in days of month `month` (1 = January) of `year`, read from the
/// month table of that kind of year.
fn month_length(year: u64, month: u64) -> (days: u64)
    requires
        1 <= month <= 12,
    ensures
        days == days_in_month(year as int, month as int),
{
    let table: [u64; 12] = if is_leap_year(year) {
        LEAP_YEAR
    } else {
        COMMON_YEAR
    };
    table[(month - 1) as usize]
}

/// Computes the year, month and day from days since the epoch (1970-01-01).
///
/// The year is found by walking forward from 1970 one year at a time, the
/// month by walking through the month table of that year.
pub fn compute_date(days_since_epoch: u64) -> (date: (u64, u64, u64))
    ensures
        is_valid_date(date.0 as int, date.1 as int, date.2 as int),
        day_number(date.0 as int, date.1 as int, date.2 as int) == days_since_epoch,
        date_of_day(days_since_epoch as int) == (date.0 as int, date.1 as int, date.2 as int),
{
    let mut remaining: u64 = days_since_epoch;
    let mut year: u64 = EPOCH_YEAR;
    loop
        invariant
            year >= 1970,
            days_before_year(year as int) + remaining == days_since_epoch,
        ensures
            remaining < days_in_year(year as int),
        decreases remaining,
    {
        let days_in_year: u64 = if is_leap_year(year) {
            366
        } else {
            365
        };
        if remaining < days_in_year {
            break ;
        }
        proof {
            lemma_days_before_year_bounds(year as int);
        }
        remaining -= days_in_year;
        year += 1;
    }
    let mut month: u64 = 1;
    loop
        invariant
            year >= 1970,
            1 <= month <= 12,
            days_before_year(year as int) + days_before_month(year as int, month as int)
                + remaining == days_since_epoch,
            days_before_month(year as int, month as int) + remaining < days_in_year(year as int),
        ensures
            remaining < days_in_month(year as int, month as int),
        decreases 12 - month,
    {
        let days_in_month: u64 = month_length(year, month);
        if remaining < days_in_month {
            break ;
        }
        proof {
            lemma_months_fill_year(year as int);
        }
        remaining -= days_in_month;
        month += 1;
    }
    let day: u64 = remaining + 1;
    proof {
        lemma_date_of_day_number(year as int, month as int, day as int);
    }
    (year, month, day)
}

} // verus!
