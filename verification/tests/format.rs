use pomodoro::time_format::{convert_millis_to_time, u128_to_dec, u128_to_two_digit};

#[test]
fn formats_two_minutes_five_seconds() {
    assert_eq!(convert_millis_to_time(125000), "02:05");
}

#[test]
fn formats_zero() {
    assert_eq!(convert_millis_to_time(0), "00:00");
}

#[test]
fn truncates_whole_milliseconds_downward() {
    assert_eq!(convert_millis_to_time(59999), "00:59");
    assert_eq!(convert_millis_to_time(60000), "01:00");
}

#[test]
fn minutes_grow_past_two_digits() {
    assert_eq!(convert_millis_to_time(125 * 60000), "125:00");
}

#[test]
fn typical_work_interval() {
    assert_eq!(convert_millis_to_time(25 * 60000), "25:00");
}

#[test]
fn decimal_rendering() {
    assert_eq!(u128_to_dec(0), "0");
    assert_eq!(u128_to_dec(7), "7");
    assert_eq!(u128_to_dec(40), "40");
    assert_eq!(u128_to_dec(1234567890), "1234567890");
}

#[test]
fn two_digit_padding() {
    assert_eq!(u128_to_two_digit(3), "03");
    assert_eq!(u128_to_two_digit(42), "42");
    assert_eq!(u128_to_two_digit(100), "100");
}
