use lightwatch::render::{duration_formatter, u64_string};

#[test]
fn format_zero_is_empty() {
    assert_eq!(duration_formatter(0), "");
}

#[test]
fn format_negative_lists_signed_components() {
    assert_eq!(duration_formatter(-5_000), "-5 seconds ");
    assert_eq!(duration_formatter(-90 * 60_000), "-1 hours -30 minutes ");
    assert_eq!(duration_formatter(-25 * 3_600_000), "-1 days -1 hours ");
}

#[test]
fn format_sub_second_is_empty() {
    assert_eq!(duration_formatter(999), "");
    assert_eq!(duration_formatter(-999), "");
}

#[test]
fn format_90_minutes() {
    assert_eq!(duration_formatter(90 * 60_000), "1 hours 30 minutes ");
}

#[test]
fn format_25_hours() {
    assert_eq!(duration_formatter(25 * 3_600_000), "1 days 1 hours ");
}

#[test]
fn format_59_seconds() {
    assert_eq!(duration_formatter(59_000), "59 seconds ");
}

#[test]
fn format_all_components() {
    let ms = ((2 * 24 + 3) * 3_600 + 4 * 60 + 5) * 1_000;
    assert_eq!(duration_formatter(ms), "2 days 3 hours 4 minutes 5 seconds ");
}

#[test]
fn format_omits_zero_components() {
    // exactly one day: no hours, minutes or seconds fabricated below it
    assert_eq!(duration_formatter(24 * 3_600_000), "1 days ");
    // one minute and one millisecond: the millisecond shows nowhere
    assert_eq!(duration_formatter(60_001), "1 minutes ");
}

#[test]
fn format_is_a_function_of_the_span() {
    let a = duration_formatter(90 * 60_000);
    let b = duration_formatter(90 * 60_000);
    assert_eq!(a, b);
}

#[test]
fn decimal_rendering() {
    assert_eq!(u64_string(0), "0");
    assert_eq!(u64_string(7), "7");
    assert_eq!(u64_string(105), "105");
    assert_eq!(u64_string(u64::MAX), "18446744073709551615");
}
