//! The same readings under their longer names.
//!
//! These functions show a reading as those of [`crate::reading`] do. The two
//! timestamps in milliseconds and microseconds are the same values where
//! they fit in 64 bits; here a value that does not fit is cut to its low 64
//! bits.

use vstd::prelude::*;
use crate::calendar::{compute_date, date_of_day, day_number, is_valid_date};
use crate::civil::{civil_at, hour_of, minute_of, second_of, weekday_of};
use crate::reading::{
    date,
    epoch_micros,
    epoch_millis,
    gmt,
    hour,
    time,
    time_micros,
    time_millis,
};

verus! {

/// Calculates the year, month and day of a reading, and the number of
/// seconds passed in its day.
pub fn calculate_current_date(total_seconds: u64) -> (fields: (u64, u64, u64, u64))
    ensures
        is_valid_date(fields.0 as int, fields.1 as int, fields.2 as int),
        day_number(fields.0 as int, fields.1 as int, fields.2 as int) == total_seconds / 86400,
        (fields.0 as int, fields.1 as int, fields.2 as int) == date_of_day(
            total_seconds as int / 86400,
        ),
        fields.3 == total_seconds % 86400,
{
    let days_since_epoch: u64 = total_seconds / 86400;
    let (year, month, day) = compute_date(days_since_epoch);
    let remaining_seconds: u64 = total_seconds % 86400;
    (year, month, day, remaining_seconds)
}

/// Calculates the year, month and day of a reading, the number of seconds
/// passed in its day, and the milliseconds passed in its second.
pub fn calculate_current_date_with_millis(
    total_seconds: u64,
    subsec_nanos: u32,
) -> (fields: (u64, u64, u64, u64, u64))
    ensures
        is_valid_date(fields.0 as int, fields.1 as int, fields.2 as int),
        day_number(fields.0 as int, fields.1 as int, fields.2 as int) == total_seconds / 86400,
        (fields.0 as int, fields.1 as int, fields.2 as int) == date_of_day(
            total_seconds as int / 86400,
        ),
        fields.3 == total_seconds % 86400,
        fields.4 == subsec_nanos / 1_000_000,
{
    let (year, month, day, remaining_seconds) = calculate_current_date(total_seconds);
    (year, month, day, remaining_seconds, (subsec_nanos / 1_000_000) as u64)
}

/// Calculates the year, month and day of a reading, the number of seconds
/// passed in its day, and the microseconds passed in its second.
pub fn calculate_current_date_with_micros(
    total_seconds: u64,
    subsec_nanos: u32,
) -> (fields: (u64, u64, u64, u64, u64))
    ensures
        is_valid_date(fields.0 as int, fields.1 as int, fields.2 as int),
        day_number(fields.0 as int, fields.1 as int, fields.2 as int) == total_seconds / 86400,
        (fields.0 as int, fields.1 as int, fields.2 as int) == date_of_day(
            total_seconds as int / 86400,
        ),
        fields.3 == total_seconds % 86400,
        fields.4 == subsec_nanos / 1_000,
{
    let (year, month, day, remaining_seconds) = calculate_current_date(total_seconds);
    (year, month, day, remaining_seconds, (subsec_nanos / 1_000) as u64)
}

/// Gets the time of a reading, including the date and time, formatted as
/// `YYYY-MM-DD HH:MM:SS`.
pub fn current_time(total_seconds: u64, utc_offset_seconds: u64) -> (text: String)
    ensures
        text@ == civil_at(total_seconds, 0, utc_offset_seconds).local_form(),
{
    time(total_seconds, utc_offset_seconds)
}

/// Gets the day of a reading, without the time, formatted as `YYYY-MM-DD`.
pub fn current_date(total_seconds: u64) -> (text: String)
    ensures
        text@ == civil_at(total_seconds, 0, 0).date_form(),
{
    date(total_seconds)
}

/// Gets the date and time of a reading in GMT format,
/// `Www, DD Mon YYYY HH:MM:SS GMT`. No offset is applied.
pub fn current_date_gmt(total_seconds: u64) -> (text: String)
    ensures
        text@ == civil_at(total_seconds, 0, 0).gmt_form(weekday_of(total_seconds as int / 86400)),
{
    gmt(total_seconds)
}

/// Gets the year of a reading.
pub fn current_year(total_seconds: u64) -> (year: u64)
    ensures
        year == date_of_day(total_seconds as int / 86400).0,
        year >= 1970,
{
    calculate_current_date(total_seconds).0
}

/// Gets the month of a reading (1-12).
pub fn current_month(total_seconds: u64) -> (month: u64)
    ensures
        month == date_of_day(total_seconds as int / 86400).1,
        1 <= month <= 12,
{
    calculate_current_date(total_seconds).1
}

/// Gets the day of the month of a reading.
pub fn current_day(total_seconds: u64) -> (day: u64)
    ensures
        day == date_of_day(total_seconds as int / 86400).2,
        1 <= day <= 31,
{
    calculate_current_date(total_seconds).2
}

/// Gets the hour of a reading (0-23), shown `utc_offset_seconds` east of UTC.
pub fn current_hour(total_seconds: u64, utc_offset_seconds: u64) -> (hour: u64)
    ensures
        hour == hour_of(total_seconds as int % 86400, utc_offset_seconds as int),
        hour < 24,
{
    hour(total_seconds, utc_offset_seconds)
}

/// Gets the minute of a reading (0-59).
pub fn current_minute(total_seconds: u64) -> (minute: u64)
    ensures
        minute == minute_of(total_seconds as int % 86400),
        minute < 60,
{
    let remaining_seconds: u64 = calculate_current_date(total_seconds).3;
    (remaining_seconds % 3600) / 60
}

/// Gets the second of a reading (0-59).
pub fn current_second(total_seconds: u64) -> (second: u64)
    ensures
        second == second_of(total_seconds as int % 86400),
        second < 60,
{
    let remaining_seconds: u64 = calculate_current_date(total_seconds).3;
    remaining_seconds % 60
}

/// Gets the time of a reading since the epoch in milliseconds, cut to 64
/// bits. No offset is added.
pub fn current_timestamp_millis(total_seconds: u64, subsec_nanos: u32) -> (millis: u64)
    ensures
        millis == epoch_millis(total_seconds, subsec_nanos) % 0x1_0000_0000_0000_0000,
        epoch_millis(total_seconds, subsec_nanos) <= u64::MAX ==> millis == epoch_millis(
            total_seconds,
            subsec_nanos,
        ),
{
    let whole: u128 = total_seconds as u128 * 1000 + (subsec_nanos / 1_000_000) as u128;
    (whole % 0x1_0000_0000_0000_0000) as u64
}

/// Gets the time of a reading since the epoch in microseconds, cut to 64
/// bits. No offset is added.
pub fn current_timestamp_micros(total_seconds: u64, subsec_nanos: u32) -> (micros: u64)
    ensures
        micros == epoch_micros(total_seconds, subsec_nanos) % 0x1_0000_0000_0000_0000,
        epoch_micros(total_seconds, subsec_nanos) <= u64::MAX ==> micros == epoch_micros(
            total_seconds,
            subsec_nanos,
        ),
{
    let whole: u128 = total_seconds as u128 * 1_000_000 + (subsec_nanos / 1_000) as u128;
    (whole % 0x1_0000_0000_0000_0000) as u64
}

/// Gets the time of a reading with milliseconds, formatted as
/// `YYYY-MM-DD HH:MM:SS.mmm`.
pub fn current_time_with_millis(
    total_seconds: u64,
    subsec_nanos: u32,
    utc_offset_seconds: u64,
) -> (text: String)
    ensures
        text@ == civil_at(total_seconds, subsec_nanos, utc_offset_seconds).millis_form(),
{
    time_millis(total_seconds, subsec_nanos, utc_offset_seconds)
}

/// Gets the time of a reading with microseconds, formatted as
/// `YYYY-MM-DD HH:MM:SS.mmmmmm`.
pub fn current_time_with_micros(
    total_seconds: u64,
    subsec_nanos: u32,
    utc_offset_seconds: u64,
) -> (text: String)
    ensures
        text@ == civil_at(total_seconds, subsec_nanos, utc_offset_seconds).micros_form(),
{
    time_micros(total_seconds, subsec_nanos, utc_offset_seconds)
}

} // verus!
