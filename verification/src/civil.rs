//! Civil date and time of an instant, and the text forms in which it is shown.
//!
//! An instant is given as whole seconds since the epoch plus nanoseconds
//! within the second. The date is the UTC date of the instant. The hour is
//! shifted by a UTC offset and wraps at 24 without moving the date: near
//! local midnight the date and the hour may belong to different local days.

use vstd::prelude::*;
use vstd::string::*;
use crate::calendar::{
    compute_date,
    date_of_day,
    day_number,
    is_valid_date,
    lemma_date_of_day,
    lemma_day_number_within_year,
    lemma_days_before_year_bounds,
};
use crate::text::{decimal, lemma_decimal_len, push_decimal, push_zero_padded, zero_padded};

verus! {

/// Abbreviated names of the days of the week, Sunday first.
pub const DAYS: [&'static str; 7] = ["Sun", "Mon", "Tue", "Wed", "Thu", "Fri", "Sat"];

/// Abbreviated names of the months, January first.
pub const MONTHS: [&'static str; 12] = [
    "Jan",
    "Feb",
    "Mar",
    "Apr",
    "May",
    "Jun",
    "Jul",
    "Aug",
    "Sep",
    "Oct",
    "Nov",
    "Dec",
];

/// Hour of the day shown `utc_offset_seconds` east of UTC when
/// `seconds_of_day` seconds of the UTC day have passed. The offset is added
/// before the hour wraps at 24.
pub open spec fn hour_of(seconds_of_day: int, utc_offset_seconds: int) -> int {
    ((seconds_of_day + utc_offset_seconds) / 3600) % 24
}

/// Minute of the hour when `seconds_of_day` seconds of the day have passed.
pub open spec fn minute_of(seconds_of_day: int) -> int {
    (seconds_of_day % 3600) / 60
}

/// Second of the minute when `seconds_of_day` seconds of the day have passed.
pub open spec fn second_of(seconds_of_day: int) -> int {
    seconds_of_day % 60
}

/// Day of the week of day `days_since_epoch`, 0 = Sunday. Day 0 is a Thursday.
pub open spec fn weekday_of(days_since_epoch: int) -> int {
    (days_since_epoch + 4) % 7
}

/// Abbreviated name of day `weekday` of the week, 0 = Sunday.
pub open spec fn weekday_abbreviation(weekday: int) -> Seq<char> {
    if weekday == 0 {
        "Sun"@
    } else if weekday == 1 {
        "Mon"@
    } else if weekday == 2 {
        "Tue"@
    } else if weekday == 3 {
        "Wed"@
    } else if weekday == 4 {
        "Thu"@
    } else if weekday == 5 {
        "Fri"@
    } else {
        "Sat"@
    }
}

/// Abbreviated name of month `month`, 1 = January.
pub open spec fn month_abbreviation(month: int) -> Seq<char> {
    if month == 1 {
        "Jan"@
    } else if month == 2 {
        "Feb"@
    } else if month == 3 {
        "Mar"@
    } else if month == 4 {
        "Apr"@
    } else if month == 5 {
        "May"@
    } else if month == 6 {
        "Jun"@
    } else if month == 7 {
        "Jul"@
    } else if month == 8 {
        "Aug"@
    } else if month == 9 {
        "Sep"@
    } else if month == 10 {
        "Oct"@
    } else if month == 11 {
        "Nov"@
    } else {
        "Dec"@
    }
}

/// Abbreviated name of a day of the week.
fn weekday_name(weekday: u64) -> (name: &'static str)
    requires
        weekday < 7,
    ensures
        name@ == weekday_abbreviation(weekday as int),
{
    DAYS[weekday as usize]
}

/// Abbreviated name of a month.
fn month_name(month: u64) -> (name: &'static str)
    requires
        1 <= month <= 12,
    ensures
        name@ == month_abbreviation(month as int),
{
    MONTHS[(month - 1) as usize]
}

/// The date `year`-`month`-`day` as `YYYY-MM-DD`.
pub open spec fn date_text(year: int, month: int, day: int) -> Seq<char> {
    zero_padded(year as nat, 4) + "-"@ + zero_padded(month as nat, 2) + "-"@ + zero_padded(
        day as nat,
        2,
    )
}

/// The time of day `hour`:`minute`:`second` as `HH:MM:SS`.
pub open spec fn clock_text(hour: int, minute: int, second: int) -> Seq<char> {
    zero_padded(hour as nat, 2) + ":"@ + zero_padded(minute as nat, 2) + ":"@ + zero_padded(
        second as nat,
        2,
    )
}

/// Calendar fields of an instant: the output of [`convert`].
#[derive(Debug, Clone, Copy, PartialEq, Eq, Structural)]
pub struct CivilDateTime {
    /// Year, 1970 or later.
    pub year: u64,
    /// Month of the year, 1 to 12.
    pub month: u64,
    /// Day of the month, from 1.
    pub day: u64,
    /// Hour of the day, 0 to 23.
    pub hour: u64,
    /// Minute of the hour, 0 to 59.
    pub minute: u64,
    /// Second of the minute, 0 to 59.
    pub second: u64,
    /// Milliseconds within the second, 0 to 999.
    pub millisecond: u64,
    /// Microseconds within the second, 0 to 999999.
    pub microsecond: u64,
}

impl CivilDateTime {
    /// Every field lies in its natural range, the day within the month of
    /// the year.
    pub open spec fn wf(&self) -> bool {
        &&& is_valid_date(self.year as int, self.month as int, self.day as int)
        &&& self.hour < 24
        &&& self.minute < 60
        &&& self.second < 60
        &&& self.millisecond < 1000
        &&& self.microsecond < 1_000_000
    }

    /// The date as `YYYY-MM-DD`.
    pub open spec fn date_form(&self) -> Seq<char> {
        date_text(self.year as int, self.month as int, self.day as int)
    }

    /// The local form `YYYY-MM-DD HH:MM:SS`.
    pub open spec fn local_form(&self) -> Seq<char> {
        self.date_form() + " "@ + clock_text(
            self.hour as int,
            self.minute as int,
            self.second as int,
        )
    }

    /// The local form with milliseconds, `YYYY-MM-DD HH:MM:SS.mmm`.
    pub open spec fn millis_form(&self) -> Seq<char> {
        self.local_form() + "."@ + zero_padded(self.millisecond as nat, 3)
    }

    /// The local form with microseconds, `YYYY-MM-DD HH:MM:SS.mmmmmm`.
    pub open spec fn micros_form(&self) -> Seq<char> {
        self.local_form() + "."@ + zero_padded(self.microsecond as nat, 6)
    }

    /// The form `Www, DD Mon YYYY HH:MM:SS GMT` for a date that falls on day
    /// `weekday` of the week.
    pub open spec fn gmt_form(&self, weekday: int) -> Seq<char> {
        weekday_abbreviation(weekday) + ", "@ + zero_padded(self.day as nat, 2) + " "@
            + month_abbreviation(self.month as int) + " "@ + decimal(self.year as nat) + " "@
            + clock_text(self.hour as int, self.minute as int, self.second as int) + " GMT"@
    }

    /// Writes the date as `YYYY-MM-DD`.
    pub fn date_string(&self) -> (text: String)
        ensures
            text@ == self.date_form(),
    {
        let mut text = String::new();
        push_date(&mut text, self.year, self.month, self.day);
        text
    }

    /// Writes the date and time as `YYYY-MM-DD HH:MM:SS`.
    pub fn local_string(&self) -> (text: String)
        ensures
            text@ == self.local_form(),
    {
        let mut text = String::new();
        push_date(&mut text, self.year, self.month, self.day);
        text.append(" ");
        push_clock(&mut text, self.hour, self.minute, self.second);
        text
    }

    /// Writes the date and time with milliseconds, `YYYY-MM-DD HH:MM:SS.mmm`.
    pub fn millis_string(&self) -> (text: String)
        ensures
            text@ == self.millis_form(),
    {
        let mut text = self.local_string();
        text.append(".");
        push_zero_padded(&mut text, self.millisecond, 3);
        text
    }

    /// Writes the date and time with microseconds,
    /// `YYYY-MM-DD HH:MM:SS.mmmmmm`.
    pub fn micros_string(&self) -> (text: String)
        ensures
            text@ == self.micros_form(),
    {
        let mut text = self.local_string();
        text.append(".");
        push_zero_padded(&mut text, self.microsecond, 6);
        text
    }

    /// Writes the date and time as `Www, DD Mon YYYY HH:MM:SS GMT`, with the
    /// name of day `weekday` of the week (0 = Sunday).
    pub fn gmt_string(&self, weekday: u64) -> (text: String)
        requires
            weekday < 7,
            1 <= self.month <= 12,
        ensures
            text@ == self.gmt_form(weekday as int),
    {
        let mut text = String::new();
        text.append(weekday_name(weekday));
        text.append(", ");
        push_zero_padded(&mut text, self.day, 2);
        text.append(" ");
        text.append(month_name(self.month));
        text.append(" ");
        push_decimal(&mut text, self.year);
        text.append(" ");
        push_clock(&mut text, self.hour, self.minute, self.second);
        text.append(" GMT");
        text
    }
}

/// The calendar fields of the instant `total_seconds` seconds and
/// `subsec_nanos` nanoseconds after the epoch, shown `utc_offset_seconds`
/// east of UTC.
///
/// The date is that of day `total_seconds / 86400`, whatever the offset; only
/// the hour is shifted.
pub open spec fn civil_at(
    total_seconds: u64,
    subsec_nanos: u32,
    utc_offset_seconds: u64,
) -> CivilDateTime {
    let date = date_of_day(total_seconds as int / 86400);
    let seconds_of_day = total_seconds as int % 86400;
    CivilDateTime {
        year: date.0 as u64,
        month: date.1 as u64,
        day: date.2 as u64,
        hour: hour_of(seconds_of_day, utc_offset_seconds as int) as u64,
        minute: minute_of(seconds_of_day) as u64,
        second: second_of(seconds_of_day) as u64,
        millisecond: (subsec_nanos as int / 1_000_000) as u64,
        microsecond: (subsec_nanos as int / 1_000) as u64,
    }
}

/// Hour of the day shown `utc_offset_seconds` east of UTC when
/// `seconds_of_day` seconds of the UTC day have passed.
pub fn hour_of_day(seconds_of_day: u64, utc_offset_seconds: u64) -> (hour: u64)
    ensures
        hour == hour_of(seconds_of_day as int, utc_offset_seconds as int),
        hour < 24,
{
    let shifted: u128 = seconds_of_day as u128 + utc_offset_seconds as u128;
    ((shifted / 3600) % 24) as u64
}

/// Converts an instant, given as seconds and nanoseconds since the epoch, into
/// calendar fields shown `utc_offset_seconds` east of UTC.
///
/// The offset shifts the hour only. The year, month and day are those of the
/// UTC day, so an hour that wraps past midnight does not advance the date.
pub fn convert(
    total_seconds: u64,
    subsec_nanos: u32,
    utc_offset_seconds: u64,
) -> (civil: CivilDateTime)
    ensures
        civil == civil_at(total_seconds, subsec_nanos, utc_offset_seconds),
        is_valid_date(civil.year as int, civil.month as int, civil.day as int),
        day_number(civil.year as int, civil.month as int, civil.day as int) == total_seconds
            / 86400,
        (civil.year as int, civil.month as int, civil.day as int) == date_of_day(
            total_seconds as int / 86400,
        ),
        civil.hour == hour_of(total_seconds as int % 86400, utc_offset_seconds as int),
        civil.minute == minute_of(total_seconds as int % 86400),
        civil.second == second_of(total_seconds as int % 86400),
        civil.millisecond == subsec_nanos / 1_000_000,
        civil.microsecond == subsec_nanos / 1_000,
        civil.hour < 24 && civil.minute < 60 && civil.second < 60,
        subsec_nanos < 1_000_000_000 ==> civil.wf(),
{
    let days_since_epoch: u64 = total_seconds / 86400;
    let seconds_of_day: u64 = total_seconds % 86400;
    let (year, month, day) = compute_date(days_since_epoch);
    CivilDateTime {
        year,
        month,
        day,
        hour: hour_of_day(seconds_of_day, utc_offset_seconds),
        minute: (seconds_of_day % 3600) / 60,
        second: seconds_of_day % 60,
        millisecond: (subsec_nanos / 1_000_000) as u64,
        microsecond: (subsec_nanos / 1_000) as u64,
    }
}

/// The offset moves the hour and nothing else: two conversions of one
/// instant under different offsets agree on the date, the minute, the second
/// and the fractions of the second.
pub proof fn lemma_offset_moves_hour_only(
    total_seconds: u64,
    subsec_nanos: u32,
    offset1: u64,
    offset2: u64,
)
    ensures
        civil_at(total_seconds, subsec_nanos, offset1) == (CivilDateTime {
            hour: civil_at(total_seconds, subsec_nanos, offset1).hour,
            ..civil_at(total_seconds, subsec_nanos, offset2)
        }),
{
}

/// Whole days in the offset do not show: the hour wraps at 24.
pub proof fn lemma_hour_wraps(seconds_of_day: int, utc_offset_seconds: int)
    ensures
        0 <= hour_of(seconds_of_day, utc_offset_seconds) < 24,
        hour_of(seconds_of_day, utc_offset_seconds + 86400) == hour_of(
            seconds_of_day,
            utc_offset_seconds,
        ),
{
}

/// The fields of a conversion lie in their natural ranges.
pub proof fn lemma_civil_at_wf(total_seconds: u64, subsec_nanos: u32, utc_offset_seconds: u64)
    requires
        subsec_nanos < 1_000_000_000,
    ensures
        civil_at(total_seconds, subsec_nanos, utc_offset_seconds).wf(),
        day_number(
            civil_at(total_seconds, subsec_nanos, utc_offset_seconds).year as int,
            civil_at(total_seconds, subsec_nanos, utc_offset_seconds).month as int,
            civil_at(total_seconds, subsec_nanos, utc_offset_seconds).day as int,
        ) == total_seconds / 86400,
{
    let days = total_seconds as int / 86400;
    lemma_date_of_day(days);
    let date = date_of_day(days);
    lemma_day_number_within_year(date.0, date.1, date.2);
    lemma_days_before_year_bounds(date.0);
}

/// The text forms have fixed widths: for a well-formed record with a year of
/// four digits, every form has the length that its pattern shows.
pub proof fn lemma_form_lengths(civil: CivilDateTime, weekday: int)
    requires
        civil.wf(),
        civil.year < 10000,
        0 <= weekday < 7,
    ensures
        civil.date_form().len() == 10,
        civil.local_form().len() == 19,
        civil.millis_form().len() == 23,
        civil.micros_form().len() == 26,
        civil.gmt_form(weekday).len() == 29,
{
    lemma_decimal_len(civil.year as nat);
    lemma_decimal_len(civil.month as nat);
    lemma_decimal_len(civil.day as nat);
    lemma_decimal_len(civil.hour as nat);
    lemma_decimal_len(civil.minute as nat);
    lemma_decimal_len(civil.second as nat);
    lemma_decimal_len(civil.millisecond as nat);
    lemma_decimal_len(civil.microsecond as nat);
    reveal_strlit("-");
    reveal_strlit(":");
    reveal_strlit(" ");
    reveal_strlit(".");
    reveal_strlit(", ");
    reveal_strlit(" GMT");
    reveal_strlit("Sun");
    reveal_strlit("Mon");
    reveal_strlit("Tue");
    reveal_strlit("Wed");
    reveal_strlit("Thu");
    reveal_strlit("Fri");
    reveal_strlit("Sat");
    reveal_strlit("Jan");
    reveal_strlit("Feb");
    reveal_strlit("Mar");
    reveal_strlit("Apr");
    reveal_strlit("May");
    reveal_strlit("Jun");
    reveal_strlit("Jul");
    reveal_strlit("Aug");
    reveal_strlit("Sep");
    reveal_strlit("Oct");
    reveal_strlit("Nov");
    reveal_strlit("Dec");
}

/// Appends a date as `YYYY-MM-DD`.
fn push_date(text: &mut String, year: u64, month: u64, day: u64)
    ensures
        final(text)@ == old(text)@ + date_text(year as int, month as int, day as int),
{
    push_zero_padded(text, year, 4);
    text.append("-");
    push_zero_padded(text, month, 2);
    text.append("-");
    push_zero_padded(text, day, 2);
}

/// Appends a time of day as `HH:MM:SS`.
fn push_clock(text: &mut String, hour: u64, minute: u64, second: u64)
    ensures
        final(text)@ == old(text)@ + clock_text(hour as int, minute as int, second as int),
{
    push_zero_padded(text, hour, 2);
    text.append(":");
    push_zero_padded(text, minute, 2);
    text.append(":");
    push_zero_padded(text, second, 2);
}

} // verus!
