use hyperlane_time::{compute_date, is_leap_year, COMMON_YEAR, LEAP_YEAR};

fn year_length(year: u64) -> u64 {
    if is_leap_year(year) {
        366
    } else {
        365
    }
}

fn day_count(year: u64, month: u64, day: u64) -> u64 {
    let mut days: u64 = 0;
    let mut y: u64 = 1970;
    while y < year {
        days += year_length(y);
        y += 1;
    }
    let table = if is_leap_year(year) { LEAP_YEAR } else { COMMON_YEAR };
    let mut m: usize = 0;
    while (m as u64) + 1 < month {
        days += table[m];
        m += 1;
    }
    days + day - 1
}

#[test]
fn leap_years_follow_the_gregorian_rule() {
    assert!(!is_leap_year(1949));
    assert!(is_leap_year(2000));
    assert!(!is_leap_year(1900));
    assert!(is_leap_year(2024));
    assert!(!is_leap_year(1970));
    assert!(is_leap_year(1972));
    assert!(!is_leap_year(2100));
    assert!(is_leap_year(2400));
    assert!(!is_leap_year(2023));
    assert!(is_leap_year(0));
}

#[test]
fn leap_year_matches_the_formula_for_many_years() {
    for year in 1970u64..3000 {
        let expected = year % 4 == 0 && (year % 100 != 0 || year % 400 == 0);
        assert_eq!(is_leap_year(year), expected, "year {}", year);
    }
}

#[test]
fn day_zero_is_the_epoch() {
    assert_eq!(compute_date(0), (1970, 1, 1));
}

#[test]
fn day_365_starts_1971() {
    assert_eq!(compute_date(364), (1970, 12, 31));
    assert_eq!(compute_date(365), (1971, 1, 1));
}

#[test]
fn day_index_59_in_a_common_year_is_the_first_of_march() {
    assert_eq!(compute_date(58), (1970, 2, 28));
    assert_eq!(compute_date(59), (1970, 3, 1));
}

#[test]
fn day_index_59_in_a_leap_year_is_the_29th_of_february() {
    let start_of_1972 = 365 + 365;
    assert_eq!(compute_date(start_of_1972), (1972, 1, 1));
    assert_eq!(compute_date(start_of_1972 + 59), (1972, 2, 29));
    assert_eq!(compute_date(start_of_1972 + 60), (1972, 3, 1));
    assert_eq!(compute_date(start_of_1972 + 365), (1972, 12, 31));
    assert_eq!(compute_date(start_of_1972 + 366), (1973, 1, 1));
}

#[test]
fn known_dates() {
    assert_eq!(compute_date(10000), (1997, 5, 19));
    assert_eq!(compute_date(10957), (2000, 1, 1));
    assert_eq!(compute_date(11016), (2000, 2, 29));
    assert_eq!(compute_date(19789), (2024, 3, 7));
    assert_eq!(compute_date(47540), (2100, 2, 28));
    assert_eq!(compute_date(47541), (2100, 3, 1));
}

#[test]
fn date_round_trips_to_its_day_count() {
    for days in 0u64..20000 {
        let (year, month, day) = compute_date(days);
        assert!(year >= 1970);
        assert!((1..=12).contains(&month));
        assert!(day >= 1);
        assert_eq!(day_count(year, month, day), days);
    }
    for days in [36524u64, 36525, 146096, 146097, 500000, 1000000] {
        let (year, month, day) = compute_date(days);
        assert_eq!(day_count(year, month, day), days);
    }
}

#[test]
fn consecutive_days_are_consecutive_dates() {
    let mut previous = compute_date(0);
    for days in 1u64..5000 {
        let next = compute_date(days);
        let table = if is_leap_year(previous.0) { LEAP_YEAR } else { COMMON_YEAR };
        let last_of_month = table[(previous.1 - 1) as usize];
        if previous.2 < last_of_month {
            assert_eq!(next, (previous.0, previous.1, previous.2 + 1));
        } else if previous.1 < 12 {
            assert_eq!(next, (previous.0, previous.1 + 1, 1));
        } else {
            assert_eq!(next, (previous.0 + 1, 1, 1));
        }
        previous = next;
    }
}

#[test]
fn month_tables_differ_in_february_only() {
    assert_eq!(COMMON_YEAR, [31, 28, 31, 30, 31, 30, 31, 31, 30, 31, 30, 31]);
    assert_eq!(LEAP_YEAR, [31, 29, 31, 30, 31, 30, 31, 31, 30, 31, 30, 31]);
    assert_eq!(COMMON_YEAR.iter().sum::<u64>(), 365);
    assert_eq!(LEAP_YEAR.iter().sum::<u64>(), 366);
}
