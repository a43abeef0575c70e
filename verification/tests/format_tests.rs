use ytgrab::format::format_duration;
use ytgrab::format::format_number_with_commas;

#[test]
fn duration_under_a_minute() {
    assert_eq!(format_duration(45), "0:45");
}

#[test]
fn duration_with_minutes() {
    assert_eq!(format_duration(125), "2:05");
}

#[test]
fn duration_with_hours() {
    assert_eq!(format_duration(3725), "1:02:05");
}

#[test]
fn duration_zero() {
    assert_eq!(format_duration(0), "0:00");
}

#[test]
fn duration_whole_hour() {
    assert_eq!(format_duration(3600), "1:00:00");
}

#[test]
fn duration_many_hours() {
    assert_eq!(format_duration(100 * 3600 + 59 * 60 + 59), "100:59:59");
}

#[test]
fn commas_large() {
    assert_eq!(format_number_with_commas(1234567), "1,234,567");
}

#[test]
fn commas_three_digits() {
    assert_eq!(format_number_with_commas(999), "999");
}

#[test]
fn commas_exactly_thousand() {
    assert_eq!(format_number_with_commas(1000), "1,000");
}

#[test]
fn commas_zero() {
    assert_eq!(format_number_with_commas(0), "0");
}

#[test]
fn commas_six_digits() {
    assert_eq!(format_number_with_commas(100000), "100,000");
}

#[test]
fn commas_largest() {
    assert_eq!(format_number_with_commas(u64::MAX), "18,446,744,073,709,551,615");
}
