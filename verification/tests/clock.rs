use hyperlane_time::{
    calculate_time, compute_date, date, day, from_env_var, gmt, hour, is_leap_year, micros,
    millis, minute, month, second, time, time_micros, time_millis, timestamp, timestamp_micros,
    timestamp_millis, year,
};
use std::time::{SystemTime, UNIX_EPOCH};

fn reading() -> (u64, u32) {
    let elapsed = SystemTime::now().duration_since(UNIX_EPOCH).unwrap();
    (elapsed.as_secs(), elapsed.subsec_nanos())
}

fn locale() -> Option<String> {
    Some(String::from("ja_JP.UTF-8"))
}

#[test]
fn test_lang() {
    let value = locale();
    println!("test_lang: {}", from_env_var(value.as_deref()).name());
}

#[test]
fn test_now_time() {
    let (secs, _) = reading();
    let offset = from_env_var(locale().as_deref()).value();
    println!("test_now_time: {}", time(secs, offset));
}

#[test]
fn test_methods() {
    let (secs, nanos) = reading();
    let offset = from_env_var(locale().as_deref()).value();

    println!("Current Time: {}", time(secs, offset));
    println!("Current Date: {}", date(secs));
    println!("GMT Date: {}", gmt(secs));
    println!("Timestamp (s): {}", timestamp(secs, offset));
    println!("Timestamp (ms): {}", timestamp_millis(secs, nanos));
    println!("Timestamp (Î¼s): {}", timestamp_micros(secs, nanos));
    println!("Current Year: {}", year(secs));
    println!("Current Month: {}", month(secs));
    println!("Current Day: {}", day(secs));
    println!("Current Hour: {}", hour(secs, offset));
    println!("Current Minute: {}", minute(secs));
    println!("Current Second: {}", second(secs));
    println!("Current Millis: {}", millis(nanos));
    println!("Current Micros: {}", micros(nanos));
    println!("Is Leap Year (1949): {}", is_leap_year(1949));
    println!("Calculate Current Time: {:?}", calculate_time(secs, nanos, offset));
    println!("Compute Date (10000 days): {:?}", compute_date(10000));
    println!("Current Time with Millis: {}", time_millis(secs, nanos, offset));
    println!("Current Time with Micros: {}", time_micros(secs, nanos, offset));
}
