//! Wall-clock reads. The system clock is read through trusted wrappers; the
//! decomposition of an epoch timestamp into a UTC time of day is verified
//! here.

use vstd::prelude::*;

use chrono::Timelike;

use crate::span::NANOS_PER_SEC;

verus! {

/// One above the largest nanosecond component chrono reports: values of
/// 1,000,000,000 and above stand for a leap second.
pub const MAX_CHRONO_NANOS: u32 = 2_000_000_000;

/// A well-formed time of day: hour below 24, minute and second below 60, and
/// a sub-second nanosecond part.
pub open spec fn clock_value_wf(v: (u32, u32, u32, u32)) -> bool {
    v.0 < 24 && v.1 < 60 && v.2 < 60 && v.3 < NANOS_PER_SEC
}

/// The time of day that an epoch timestamp of `secs` seconds falls on, in
/// UTC: (hour, minute, second).
pub open spec fn utc_hms_of_secs(secs: nat) -> (nat, nat, nat) {
    ((secs / 3600) % 24, (secs / 60) % 60, secs % 60)
}

#[verifier::external_type_specification]
#[verifier::external_body]
pub struct ExSystemTime(std::time::SystemTime);

/// Relies on `std::time::SystemTime::now`: a reading of the system clock.
#[verifier::external_body]
fn system_time_now() -> std::time::SystemTime {
    std::time::SystemTime::now()
}

/// Relies on `std::time::SystemTime::duration_since`, called with the Unix
/// epoch: `Ok` holds the span from the epoch to the reading, `Err` means the
/// reading lies before the epoch. The span's `subsec_nanos` is documented to
/// stay below one second.
#[verifier::external_body]
fn duration_since_epoch(t: std::time::SystemTime) -> (r: Option<(u64, u32)>)
    ensures
        r matches Some(v) ==> v.1 < NANOS_PER_SEC,
{
    match t.duration_since(std::time::UNIX_EPOCH) {
        Ok(d) => Some((d.as_secs(), d.subsec_nanos())),
        Err(_) => None,
    }
}

/// Relies on chrono to turn an epoch timestamp into the local time of day:
/// `DateTime::from_timestamp` (`None` once the timestamp leaves the range
/// chrono represents, around the year 5,879,611), `DateTime::with_timezone`
/// with `chrono::Local` (the local offset lookup, which answers every
/// timestamp `from_timestamp` accepts), and the accessors `hour` (0 to 23),
/// `minute` (0 to 59), `second` (0 to 59) and
/// `DateTime::timestamp_subsec_nanos` (below 2,000,000,000; 1,000,000,000 and
/// above stand for a leap second).
#[verifier::external_body]
fn local_hms_of_timestamp(secs: u64, nanos: u32) -> (r: Option<(u32, u32, u32, u32)>)
    requires
        nanos < MAX_CHRONO_NANOS,
    ensures
        r matches Some(v) ==> v.0 < 24 && v.1 < 60 && v.2 < 60 && v.3 < MAX_CHRONO_NANOS,
{
    let utc = match chrono::DateTime::from_timestamp(secs as i64, nanos) {
        Some(t) => t,
        None => return None,
    };
    let local = utc.with_timezone(&chrono::Local);
    Some((local.hour(), local.minute(), local.second(), local.timestamp_subsec_nanos()))
}

/// Decomposes a span since the Unix epoch into the UTC time of day it falls
/// on.
pub fn decompose_utc(secs: u64, nanos: u32) -> (r: (u32, u32, u32, u32))
    requires
        nanos < NANOS_PER_SEC,
    ensures
        r.0 == utc_hms_of_secs(secs as nat).0,
        r.1 == utc_hms_of_secs(secs as nat).1,
        r.2 == utc_hms_of_secs(secs as nat).2,
        r.3 == nanos,
        clock_value_wf(r),
{
    let h = ((secs / 3600) % 24) as u32;
    let m = ((secs / 60) % 60) as u32;
    let s = (secs % 60) as u32;
    (h, m, s, nanos)
}

/// Reads the system clock and returns the UTC time of day, or `None` when the
/// clock lies before the Unix epoch.
pub fn get_system_clock_utc() -> (r: Option<(u32, u32, u32, u32)>)
    ensures
        r matches Some(v) ==> clock_value_wf(v),
{
    let now = system_time_now();
    match duration_since_epoch(now) {
        Some((secs, nanos)) => Some(decompose_utc(secs, nanos)),
        None => None,
    }
}

/// Caps a leap-second nanosecond count just below one second, leaving the
/// other components and a sub-second count unchanged.
pub fn cap_leap_nanos(v: (u32, u32, u32, u32)) -> (r: (u32, u32, u32, u32))
    requires
        v.0 < 24,
        v.1 < 60,
        v.2 < 60,
        v.3 < MAX_CHRONO_NANOS,
    ensures
        r.0 == v.0,
        r.1 == v.1,
        r.2 == v.2,
        r.3 == if v.3 >= NANOS_PER_SEC {
            (NANOS_PER_SEC - 1) as u32
        } else {
            v.3
        },
        clock_value_wf(r),
{
    if v.3 >= NANOS_PER_SEC {
        (v.0, v.1, v.2, NANOS_PER_SEC - 1)
    } else {
        v
    }
}

/// Reads the system clock and returns the local time of day, or `None` when
/// the clock lies before the Unix epoch or beyond the latest timestamp the
/// timezone conversion represents. During a leap second the nanosecond part
/// saturates just below one second.
pub fn get_system_clock_local() -> (r: Option<(u32, u32, u32, u32)>)
    ensures
        r matches Some(v) ==> clock_value_wf(v),
{
    let now = system_time_now();
    let (secs, nanos) = match duration_since_epoch(now) {
        Some(p) => p,
        None => {
            return None;
        },
    };
    match local_hms_of_timestamp(secs, nanos) {
        Some(v) => Some(cap_leap_nanos(v)),
        None => None,
    }
}

} // verus!
