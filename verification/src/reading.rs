//! Date and time of a clock reading.
//!
//! A reading is what a clock gave: whole seconds since the epoch
//! (`total_seconds`) and nanoseconds within the second (`subsec_nanos`).
//! Each function takes the parts of the reading that its result depends on,
//! and the UTC offset of the locale where the result depends on it: the
//! offset shifts the hour and the timestamp in seconds, and nothing else.

use vstd::prelude::*;
use crate::calendar::{compute_date, date_of_day, day_number, is_valid_date};
use crate::civil::{
    civil_at,
    convert,
    hour_of,
    hour_of_day,
    minute_of,
    second_of,
    weekday_of,
    CivilDateTime,
};

verus! {

/// The timestamp in seconds shown `utc_offset_seconds` east of UTC: the sum,
/// held at the largest 64-bit number where it would pass it.
pub open spec fn shifted_seconds(total_seconds: u64, utc_offset_seconds: u64) -> int {
    if total_seconds + utc_offset_seconds > u64::MAX {
        u64::MAX as int
    } else {
        total_seconds + utc_offset_seconds
    }
}

/// The time of a reading since the epoch in milliseconds. No offset enters.
pub open spec fn epoch_millis(total_seconds: u64, subsec_nanos: u32) -> int {
    total_seconds * 1000 + subsec_nanos as int / 1_000_000
}

/// The time of a reading since the epoch in microseconds. No offset enters.
pub open spec fn epoch_micros(total_seconds: u64, subsec_nanos: u32) -> int {
    total_seconds * 1_000_000 + subsec_nanos as int / 1_000
}

/// Calculates the year, month, day, hour, minute, second, millisecond and
/// microsecond of a reading, in this order.
pub fn calculate_time(
    total_seconds: u64,
    subsec_nanos: u32,
    utc_offset_seconds: u64,
) -> (fields: (u64, u64, u64, u64, u64, u64, u64, u64))
    ensures
        is_valid_date(fields.0 as int, fields.1 as int, fields.2 as int),
        day_number(fields.0 as int, fields.1 as int, fields.2 as int) == total_seconds / 86400,
        (fields.0 as int, fields.1 as int, fields.2 as int) == date_of_day(
            total_seconds as int / 86400,
        ),
        fields.3 == hour_of(total_seconds as int % 86400, utc_offset_seconds as int),
        fields.4 == minute_of(total_seconds as int % 86400),
        fields.5 == second_of(total_seconds as int % 86400),
        fields.6 == subsec_nanos / 1_000_000,
        fields.7 == subsec_nanos / 1_000,
        fields.3 < 24 && fields.4 < 60 && fields.5 < 60,
        subsec_nanos < 1_000_000_000 ==> fields.6 < 1000 && fields.7 < 1_000_000,
        (CivilDateTime {
            year: fields.0,
            month: fields.1,
            day: fields.2,
            hour: fields.3,
            minute: fields.4,
            second: fields.5,
            millisecond: fields.6,
            microsecond: fields.7,
        }) == civil_at(total_seconds, subsec_nanos, utc_offset_seconds),
{
    let civil = convert(total_seconds, subsec_nanos, utc_offset_seconds);
    (
        civil.year,
        civil.month,
        civil.day,
        civil.hour,
        civil.minute,
        civil.second,
        civil.millisecond,
        civil.microsecond,
    )
}

/// Gets the time of a reading, including the date and time, formatted as
/// `YYYY-MM-DD HH:MM:SS`.
pub fn time(total_seconds: u64, utc_offset_seconds: u64) -> (text: String)
    ensures
        text@ == civil_at(total_seconds, 0, utc_offset_seconds).local_form(),
{
    convert(total_seconds, 0, utc_offset_seconds).local_string()
}

/// Gets the day of a reading, without the time, formatted as `YYYY-MM-DD`.
pub fn date(total_seconds: u64) -> (text: String)
    ensures
        text@ == civil_at(total_seconds, 0, 0).date_form(),
{
    convert(total_seconds, 0, 0).date_string()
}

/// Gets the date and time of a reading in GMT format,
/// `Www, DD Mon YYYY HH:MM:SS GMT`. No offset is applied.
pub fn gmt(total_seconds: u64) -> (text: String)
    ensures
        text@ == civil_at(total_seconds, 0, 0).gmt_form(weekday_of(total_seconds as int / 86400)),
{
    let days_since_epoch: u64 = total_seconds / 86400;
    let weekday: u64 = (days_since_epoch + 4) % 7;
    convert(total_seconds, 0, 0).gmt_string(weekday)
}

/// Gets the year of a reading.
pub fn year(total_seconds: u64) -> (year: u64)
    ensures
        year == date_of_day(total_seconds as int / 86400).0,
        year >= 1970,
{
    compute_date(total_seconds / 86400).0
}

/// Gets the month of a reading (1-12).
pub fn month(total_seconds: u64) -> (month: u64)
    ensures
        month == date_of_day(total_seconds as int / 86400).1,
        1 <= month <= 12,
{
    compute_date(total_seconds / 86400).1
}

/// Gets the day of the month of a reading.
pub fn day(total_seconds: u64) -> (day: u64)
    ensures
        day == date_of_day(total_seconds as int / 86400).2,
        1 <= day <= 31,
{
    compute_date(total_seconds / 86400).2
}

/// Gets the hour of a reading (0-23), shown `utc_offset_seconds` east of UTC.
pub fn hour(total_seconds: u64, utc_offset_seconds: u64) -> (hour: u64)
    ensures
        hour == hour_of(total_seconds as int % 86400, utc_offset_seconds as int),
        hour < 24,
{
    hour_of_day(total_seconds % 86400, utc_offset_seconds)
}

/// Gets the minute of a reading (0-59).
pub fn minute(total_seconds: u64) -> (minute: u64)
    ensures
        minute == minute_of(total_seconds as int % 86400),
        minute < 60,
{
    (total_seconds % 86400 % 3600) / 60
}

/// Gets the second of a reading (0-59).
pub fn second(total_seconds: u64) -> (second: u64)
    ensures
        second == second_of(total_seconds as int % 86400),
        second < 60,
{
    total_seconds % 86400 % 60
}

/// Gets the milliseconds within the second of a reading.
pub fn millis(subsec_nanos: u32) -> (millis: u64)
    ensures
        millis == subsec_nanos / 1_000_000,
        subsec_nanos < 1_000_000_000 ==> millis < 1000,
{
    (subsec_nanos / 1_000_000) as u64
}

/// Gets the microseconds within the second of a reading.
pub fn micros(subsec_nanos: u32) -> (micros: u64)
    ensures
        micros == subsec_nanos / 1_000,
        subsec_nanos < 1_000_000_000 ==> micros < 1_000_000,
{
    (subsec_nanos / 1_000) as u64
}

/// Gets the time of a reading with milliseconds, formatted as
/// `YYYY-MM-DD HH:MM:SS.mmm`.
pub fn time_millis(
    total_seconds: u64,
    subsec_nanos: u32,
    utc_offset_seconds: u64,
) -> (text: String)
    ensures
        text@ == civil_at(total_seconds, subsec_nanos, utc_offset_seconds).millis_form(),
{
    convert(total_seconds, subsec_nanos, utc_offset_seconds).millis_string()
}

/// Gets the time of a reading with microseconds, formatted as
/// `YYYY-MM-DD HH:MM:SS.mmmmmm`.
pub fn time_micros(
    total_seconds: u64,
    subsec_nanos: u32,
    utc_offset_seconds: u64,
) -> (text: String)
    ensures
        text@ == civil_at(total_seconds, subsec_nanos, utc_offset_seconds).micros_form(),
{
    convert(total_seconds, subsec_nanos, utc_offset_seconds).micros_string()
}

/// Gets the timestamp of a reading in seconds since the epoch, with the
/// offset added; the sum saturates. Of the three timestamps this is the one
/// that the offset shifts.
pub fn timestamp(total_seconds: u64, utc_offset_seconds: u64) -> (seconds: u64)
    ensures
        seconds == shifted_seconds(total_seconds, utc_offset_seconds),
{
    total_seconds.saturating_add(utc_offset_seconds)
}

/// Gets the timestamp of a reading in milliseconds since the epoch. The
/// offset of the locale is not added: it shifts the timestamp in seconds
/// only.
pub fn timestamp_millis(total_seconds: u64, subsec_nanos: u32) -> (millis: u64)
    requires
        total_seconds * 1000 + subsec_nanos / 1_000_000 <= u64::MAX,
    ensures
        millis == total_seconds * 1000 + subsec_nanos / 1_000_000,
        millis == epoch_millis(total_seconds, subsec_nanos),
{
    total_seconds * 1000 + (subsec_nanos / 1_000_000) as u64
}

/// Gets the timestamp of a reading in milliseconds since the epoch, or
/// `None` where it does not fit in 64 bits.
pub fn checked_timestamp_millis(total_seconds: u64, subsec_nanos: u32) -> (millis: Option<u64>)
    ensures
        millis is Some <==> epoch_millis(total_seconds, subsec_nanos) <= u64::MAX,
        millis matches Some(value) ==> value == epoch_millis(total_seconds, subsec_nanos),
{
    match total_seconds.checked_mul(1000) {
        Some(scaled) => scaled.checked_add((subsec_nanos / 1_000_000) as u64),
        None => None,
    }
}

/// Gets the timestamp of a reading in microseconds since the epoch. The
/// offset of the locale is not added: it shifts the timestamp in seconds
/// only.
pub fn timestamp_micros(total_seconds: u64, subsec_nanos: u32) -> (micros: u64)
    requires
        total_seconds * 1_000_000 + subsec_nanos / 1_000 <= u64::MAX,
    ensures
        micros == total_seconds * 1_000_000 + subsec_nanos / 1_000,
        micros == epoch_micros(total_seconds, subsec_nanos),
{
    total_seconds * 1_000_000 + (subsec_nanos / 1_000) as u64
}

/// Gets the timestamp of a reading in microseconds since the epoch, or
/// `None` where it does not fit in 64 bits.
pub fn checked_timestamp_micros(total_seconds: u64, subsec_nanos: u32) -> (micros: Option<u64>)
    ensures
        micros is Some <==> epoch_micros(total_seconds, subsec_nanos) <= u64::MAX,
        micros matches Some(value) ==> value == epoch_micros(total_seconds, subsec_nanos),
{
    match total_seconds.checked_mul(1_000_000) {
        Some(scaled) => scaled.checked_add((subsec_nanos / 1_000) as u64),
        None => None,
    }
}

} // verus!
