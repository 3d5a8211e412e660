use perf_ui_time::clock::decompose_utc;
use perf_ui_time::format::{format_fixed_decimal, format_hms};
use perf_ui_time::span::TimeSpan;
use perf_ui_time::time::{PerfUiEntryClock, PerfUiEntryRunningTime, SortKeyAlloc};

fn span(secs: u64, nanos: u32) -> TimeSpan {
    TimeSpan::new(secs, nanos)
}

#[test]
fn fixed_decimal_integer_part_zero_padded() {
    assert_eq!(format_fixed_decimal(5, 3, span(123, 456_700_000)), "00123.456");
    assert_eq!(format_fixed_decimal(3, 1, span(7, 900_000_000)), "007.9");
    assert_eq!(format_fixed_decimal(1, 0, span(0, 0)), "0");
}

#[test]
fn fixed_decimal_precision_zero_has_no_point() {
    assert_eq!(format_fixed_decimal(4, 0, span(42, 999_999_999)), "0042");
}

#[test]
fn fixed_decimal_truncates_fraction() {
    // 0.999 999 999 s at two fractional digits is truncated, not rounded up.
    assert_eq!(format_fixed_decimal(1, 2, span(0, 999_999_999)), "0.99");
}

#[test]
fn fixed_decimal_wide_value_keeps_all_digits() {
    assert_eq!(format_fixed_decimal(2, 0, span(12345, 0)), "12345");
}

#[test]
fn fixed_decimal_precision_beyond_nanoseconds_appends_zeros() {
    assert_eq!(format_fixed_decimal(5, 12, span(123, 456_700_000)), "00123.456700000000");
}

#[test]
fn hms_fields_are_two_digit_zero_padded() {
    assert_eq!(format_hms(0, 14, 5, 9, 0), "14:05:09");
    assert_eq!(format_hms(0, 0, 0, 0, 123), "00:00:00");
}

#[test]
fn hms_fraction_uses_leading_nanosecond_digits() {
    assert_eq!(format_hms(2, 14, 5, 9, 123_456_789), "14:05:09.12");
    assert_eq!(format_hms(9, 1, 2, 3, 123_456_789), "01:02:03.123456789");
}

#[test]
fn hms_hours_beyond_two_digits_keep_all_digits() {
    assert_eq!(format_hms(0, 123, 4, 5, 0), "123:04:05");
}

#[test]
fn running_time_decimal_scenario() {
    let mut keys = SortKeyAlloc::new();
    let mut entry = PerfUiEntryRunningTime::new(&mut keys);
    entry.digits = 5;
    entry.precision = 3;
    entry.format_hms = false;
    entry.display_units = true;
    let value = span(123, 456_700_000);
    assert_eq!(entry.format_value(&value), "00123.456 s");
}

#[test]
fn running_time_without_units() {
    let mut keys = SortKeyAlloc::new();
    let mut entry = PerfUiEntryRunningTime::new(&mut keys);
    entry.display_units = false;
    assert_eq!(entry.format_value(&span(1, 500_000_000)), "00001.500");
}

#[test]
fn running_time_hms_scenario() {
    let mut keys = SortKeyAlloc::new();
    let mut entry = PerfUiEntryRunningTime::new(&mut keys);
    entry.format_hms = true;
    entry.precision = 0;
    assert_eq!(entry.format_value(&span(3725, 0)), "01:02:05");
}

#[test]
fn clock_format_scenario() {
    let mut keys = SortKeyAlloc::new();
    let entry = PerfUiEntryClock::new(&mut keys);
    assert_eq!(entry.precision, 0);
    assert_eq!(entry.format_value(&(14, 5, 9, 0)), "14:05:09");
}

#[test]
fn clock_format_scenario_from_utc_timestamp() {
    // 14:05:09 UTC, a day and a bit after the epoch.
    let value = decompose_utc(86_400 + 14 * 3600 + 5 * 60 + 9, 0);
    assert_eq!(value, (14, 5, 9, 0));
    let mut keys = SortKeyAlloc::new();
    let entry = PerfUiEntryClock::new(&mut keys);
    assert_eq!(entry.format_value(&value), "14:05:09");
}

#[test]
fn decompose_utc_carries_nanoseconds() {
    assert_eq!(decompose_utc(3661, 5), (1, 1, 1, 5));
}
