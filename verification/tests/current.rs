use hyperlane_time::{
    calculate_current_date, calculate_current_date_with_micros,
    calculate_current_date_with_millis, current_date, current_date_gmt, current_day,
    current_hour, current_minute, current_month, current_second, current_time,
    current_time_with_micros, current_time_with_millis, current_timestamp_micros,
    current_timestamp_millis, current_year, date, gmt, time, time_micros, time_millis,
    timestamp_micros, timestamp_millis,
};

// 2024-03-07 09:05:03 UTC
const SAMPLE_SECONDS: u64 = 19789 * 86400 + 9 * 3600 + 5 * 60 + 3;

#[test]
fn current_date_fields() {
    assert_eq!(calculate_current_date(SAMPLE_SECONDS), (2024, 3, 7, 32703));
    assert_eq!(calculate_current_date(0), (1970, 1, 1, 0));
    assert_eq!(calculate_current_date(86399), (1970, 1, 1, 86399));
    assert_eq!(
        calculate_current_date_with_millis(SAMPLE_SECONDS, 7_000_999),
        (2024, 3, 7, 32703, 7)
    );
    assert_eq!(
        calculate_current_date_with_micros(SAMPLE_SECONDS, 7_000_999),
        (2024, 3, 7, 32703, 7000)
    );
    assert_eq!(current_year(SAMPLE_SECONDS), 2024);
    assert_eq!(current_month(SAMPLE_SECONDS), 3);
    assert_eq!(current_day(SAMPLE_SECONDS), 7);
    assert_eq!(current_hour(SAMPLE_SECONDS, 0), 9);
    assert_eq!(current_hour(SAMPLE_SECONDS, 28800), 17);
    assert_eq!(current_hour(82800, 10800), 2);
    assert_eq!(current_minute(SAMPLE_SECONDS), 5);
    assert_eq!(current_second(SAMPLE_SECONDS), 3);
}

#[test]
fn current_text() {
    assert_eq!(current_time(SAMPLE_SECONDS, 0), "2024-03-07 09:05:03");
    assert_eq!(current_time(SAMPLE_SECONDS, 19800), "2024-03-07 14:05:03");
    assert_eq!(current_date(SAMPLE_SECONDS), "2024-03-07");
    assert_eq!(current_date_gmt(SAMPLE_SECONDS), "Thu, 07 Mar 2024 09:05:03 GMT");
    assert_eq!(current_date_gmt(0), "Thu, 01 Jan 1970 00:00:00 GMT");
    assert_eq!(
        current_time_with_millis(SAMPLE_SECONDS, 7_000_999, 0),
        "2024-03-07 09:05:03.007"
    );
    assert_eq!(
        current_time_with_micros(SAMPLE_SECONDS, 7_000_999, 0),
        "2024-03-07 09:05:03.007000"
    );
}

#[test]
fn both_families_show_a_reading_alike() {
    for seconds in [0u64, 86399, 86400, SAMPLE_SECONDS, 4102444799] {
        for offset in [0u64, 3600, 19800, 32400] {
            assert_eq!(current_time(seconds, offset), time(seconds, offset));
            assert_eq!(
                current_time_with_millis(seconds, 123_456_789, offset),
                time_millis(seconds, 123_456_789, offset)
            );
            assert_eq!(
                current_time_with_micros(seconds, 123_456_789, offset),
                time_micros(seconds, 123_456_789, offset)
            );
        }
        assert_eq!(current_date(seconds), date(seconds));
        assert_eq!(current_date_gmt(seconds), gmt(seconds));
    }
}

#[test]
fn both_families_give_the_same_timestamps() {
    for (seconds, nanos) in [
        (0u64, 0u32),
        (1000, 500_000_000),
        (SAMPLE_SECONDS, 7_000_999),
        (4102444799, 999_999_999),
    ] {
        assert_eq!(current_timestamp_millis(seconds, nanos), timestamp_millis(seconds, nanos));
        assert_eq!(current_timestamp_micros(seconds, nanos), timestamp_micros(seconds, nanos));
    }
}

#[test]
fn current_timestamps_carry_no_offset() {
    assert_eq!(current_timestamp_millis(1000, 500_000_000), 1_000_500);
    assert_eq!(current_timestamp_micros(1000, 500_000_000), 1_000_500_000);
    assert_eq!(current_timestamp_millis(1, 999_000_000), 1999);
    assert_eq!(current_timestamp_micros(1, 999_000_000), 1_999_000);
    assert_eq!(current_timestamp_millis(SAMPLE_SECONDS, 7_000_999), SAMPLE_SECONDS * 1000 + 7);
    assert_eq!(
        current_timestamp_micros(SAMPLE_SECONDS, 7_000_999),
        SAMPLE_SECONDS * 1_000_000 + 7000
    );
}

#[test]
fn current_timestamps_are_cut_to_64_bits() {
    let millis = (u64::MAX as u128 * 1000 + 999) as u64;
    let micros = (u64::MAX as u128 * 1_000_000 + 999_999) as u64;
    assert_eq!(current_timestamp_millis(u64::MAX, 999_999_999), millis);
    assert_eq!(current_timestamp_micros(u64::MAX, 999_999_999), micros);
}
