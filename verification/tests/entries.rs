use chrono::Timelike;
use perf_ui_time::clock::cap_leap_nanos;
use perf_ui_time::span::TimeSpan;
use perf_ui_time::time::{PerfUiEntryClock, PerfUiEntryRunningTime, SortKeyAlloc};

#[test]
fn running_time_defaults() {
    let mut keys = SortKeyAlloc::new();
    let entry = PerfUiEntryRunningTime::new(&mut keys);
    assert_eq!(entry.label, "");
    assert!(entry.start.is_none());
    assert!(!entry.format_hms);
    assert!(entry.display_units);
    assert_eq!(entry.digits, 5);
    assert_eq!(entry.precision, 3);
    let next = PerfUiEntryRunningTime::new(&mut keys);
    assert!(next.sort_key > entry.sort_key);
}

#[test]
fn clock_defaults() {
    let mut keys = SortKeyAlloc::new();
    let entry = PerfUiEntryClock::new(&mut keys);
    assert_eq!(entry.label, "");
    assert!(!entry.prefer_utc);
    assert_eq!(entry.precision, 0);
    let next = PerfUiEntryClock::new(&mut keys);
    assert!(next.sort_key > entry.sort_key);
}

#[test]
fn leap_second_nanoseconds_are_capped() {
    assert_eq!(cap_leap_nanos((23, 59, 59, 1_500_000_000)), (23, 59, 59, 999_999_999));
    assert_eq!(cap_leap_nanos((1, 2, 3, 4)), (1, 2, 3, 4));
}

#[test]
fn update_without_baseline_returns_elapsed_unchanged() {
    let mut keys = SortKeyAlloc::new();
    let entry = PerfUiEntryRunningTime::new(&mut keys);
    let elapsed = TimeSpan::new(123, 456_789_012);
    assert_eq!(entry.update_value(elapsed), Some(elapsed));
}

#[test]
fn update_with_baseline_subtracts_exactly() {
    let mut keys = SortKeyAlloc::new();
    let mut entry = PerfUiEntryRunningTime::new(&mut keys);
    entry.start = Some(TimeSpan::new(100, 600_000_000));
    let elapsed = TimeSpan::new(123, 500_000_000);
    assert_eq!(entry.update_value(elapsed), Some(TimeSpan::new(22, 900_000_000)));
}

#[test]
fn update_with_baseline_ahead_saturates_to_zero() {
    let mut keys = SortKeyAlloc::new();
    let mut entry = PerfUiEntryRunningTime::new(&mut keys);
    entry.start = Some(TimeSpan::new(200, 0));
    let elapsed = TimeSpan::new(123, 456_789_012);
    assert_eq!(entry.update_value(elapsed), Some(TimeSpan::new(0, 0)));
}

#[test]
fn sort_keys_allocated_in_sequence_increase() {
    let mut keys = SortKeyAlloc::new();
    let first = PerfUiEntryRunningTime::new(&mut keys);
    let second = PerfUiEntryClock::new(&mut keys);
    assert_ne!(first.sort_key(), second.sort_key());
    assert!(second.sort_key() > first.sort_key());
}

#[test]
fn running_time_label_defaults_and_overrides() {
    let mut keys = SortKeyAlloc::new();
    let mut entry = PerfUiEntryRunningTime::new(&mut keys);
    assert_eq!(entry.label(), "Running Time");
    entry.label = String::from("Uptime");
    assert_eq!(entry.label(), "Uptime");
}

#[test]
fn clock_label_names_the_source() {
    let mut keys = SortKeyAlloc::new();
    let mut entry = PerfUiEntryClock::new(&mut keys);
    assert_eq!(entry.label(true), "Clock");
    assert_eq!(entry.label(false), "Clock (UTC)");
    entry.prefer_utc = true;
    assert_eq!(entry.label(true), "Clock (UTC)");
    entry.label = String::from("Time of day");
    assert_eq!(entry.label(true), "Time of day");
}

#[test]
fn clock_prefer_utc_reads_utc_whatever_the_capability() {
    let mut keys = SortKeyAlloc::new();
    let mut entry = PerfUiEntryClock::new(&mut keys);
    entry.prefer_utc = true;
    assert!(entry.uses_utc(true));
    assert!(entry.uses_utc(false));
}

#[test]
fn clock_update_returns_a_time_of_day() {
    let mut keys = SortKeyAlloc::new();
    let mut entry = PerfUiEntryClock::new(&mut keys);
    for prefer_utc in [false, true] {
        for local_available in [false, true] {
            entry.prefer_utc = prefer_utc;
            let value = entry
                .update_value(local_available)
                .expect("the clock is readable while the tests run");
            assert!(value.0 < 24);
            assert!(value.1 < 60);
            assert!(value.2 < 60);
            assert!(value.3 < 1_000_000_000);
        }
    }
}

#[test]
fn clock_update_agrees_with_chrono() {
    let mut keys = SortKeyAlloc::new();
    let mut entry = PerfUiEntryClock::new(&mut keys);
    entry.prefer_utc = true;
    let before = chrono::Utc::now();
    let value = entry.update_value(false).expect("the clock is readable while the tests run");
    let after = chrono::Utc::now();
    // The verified read lies between the two chrono reads; compare the
    // seconds-of-day, allowing the interval to straddle second boundaries.
    let low = before.num_seconds_from_midnight();
    let high = after.num_seconds_from_midnight();
    let got = value.0 * 3600 + value.1 * 60 + value.2;
    if low <= high {
        assert!(low <= got && got <= high);
    }
}
