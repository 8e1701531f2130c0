//! Wall-clock date and time in a fixed, locale-determined UTC offset,
//! computed directly from seconds elapsed since 1970-01-01T00:00:00Z.
//!
//! The library reads no clock and no environment. Its callers hand it a
//! clock reading (seconds and nanoseconds since the epoch) and, where the
//! hour is shown, the UTC offset of a locale, which [`lang`] resolves from a
//! locale identifier.

pub mod calendar;
pub mod civil;
pub mod current;
pub mod lang;
pub mod reading;
pub mod text;

pub use calendar::{compute_date, is_leap_year, COMMON_YEAR, LEAP_YEAR};
pub use civil::{convert, CivilDateTime, DAYS, MONTHS};
pub use current::{
    calculate_current_date, calculate_current_date_with_micros,
    calculate_current_date_with_millis, current_date, current_date_gmt, current_day,
    current_hour, current_minute, current_month, current_second, current_time,
    current_time_with_micros, current_time_with_millis, current_timestamp_micros,
    current_timestamp_millis, current_year,
};
pub use lang::{from_env_var, Lang};
pub use reading::{
    calculate_time, checked_timestamp_micros, checked_timestamp_millis, date, day, gmt, hour,
    micros, millis, minute, month, second, time, time_micros, time_millis, timestamp,
    timestamp_micros, timestamp_millis, year,
};
