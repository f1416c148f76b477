use audio_hook::format_duration;
use audio_hook::utils::decimal_string;
use audio_hook::utils::two_digit_string;

#[test]
fn clock_format_minutes_seconds() {
    assert_eq!(format_duration(0), "0:00");
    assert_eq!(format_duration(5), "0:05");
    assert_eq!(format_duration(42), "0:42");
    assert_eq!(format_duration(245), "4:05");
    assert_eq!(format_duration(3599), "59:59");
}

#[test]
fn clock_format_with_hours() {
    assert_eq!(format_duration(3600), "1:00:00");
    assert_eq!(format_duration(3661), "1:01:01");
    assert_eq!(format_duration(7325), "2:02:05");
    assert_eq!(format_duration(36_000_000), "10000:00:00");
}

#[test]
fn decimal_rendering() {
    assert_eq!(decimal_string(0), "0");
    assert_eq!(decimal_string(7), "7");
    assert_eq!(decimal_string(100), "100");
    assert_eq!(decimal_string(18_446_744_073_709_551_615), "18446744073709551615");
}

#[test]
fn two_digit_padding() {
    assert_eq!(two_digit_string(0), "00");
    assert_eq!(two_digit_string(7), "07");
    assert_eq!(two_digit_string(59), "59");
}
