//! Perf UI entries for displaying time: the time the application has been
//! running, and the current wall-clock time of day.

use vstd::prelude::*;
use vstd::string::StringExecFns;

use crate::clock::{clock_value_wf, get_system_clock_local, get_system_clock_utc};
use crate::format::{fixed_decimal_chars, format_fixed_decimal, format_hms, hms_chars};
use crate::span::{TimeSpan, NANOS_PER_SEC};

verus! {

/// Allocates default sort keys for entries: strictly increasing integers.
/// The host application owns one allocator and passes it to each entry
/// constructor, so entries constructed in sequence are ordered as constructed.
pub struct SortKeyAlloc {
    /// The key the next allocation hands out.
    pub next_key: i32,
}

impl SortKeyAlloc {
    /// The key the next allocation hands out, and the allocator as it is
    /// afterwards.
    pub open spec fn spec_allocate(self) -> (i32, SortKeyAlloc) {
        (self.next_key, SortKeyAlloc { next_key: (self.next_key + 1) as i32 })
    }

    /// A fresh allocator, starting from key zero.
    pub fn new() -> (r: SortKeyAlloc)
        ensures
            r.next_key == 0,
    {
        SortKeyAlloc { next_key: 0 }
    }

    /// Hands out the next key.
    pub fn allocate(&mut self) -> (k: i32)
        requires
            old(self).next_key < i32::MAX,
        ensures
            (k, *final(self)) == old(self).spec_allocate(),
            k == old(self).next_key,
            final(self).next_key == old(self).next_key + 1,
    {
        let k = self.next_key;
        self.next_key = self.next_key + 1;
        k
    }
}

/// Law: of two sort keys allocated in sequence, the second is strictly
/// greater than the first, so default-ordered entries never collide.
pub proof fn lemma_sort_keys_increase(a: SortKeyAlloc)
    requires
        a.next_key < i32::MAX,
    ensures
        ({
            let (k1, a1) = a.spec_allocate();
            let (k2, a2) = a1.spec_allocate();
            k1 != k2 && k2 > k1
        }),
{
}

/// Perf UI entry displaying the time the application has been running.
#[derive(Clone, Debug)]
pub struct PerfUiEntryRunningTime {
    /// Custom label. If empty (the default), the default label is used.
    pub label: String,
    /// If set, count time relative to this baseline, a span since application
    /// startup. If unset, count time since startup.
    pub start: Option<TimeSpan>,
    /// If true, format the value as HH:MM:SS (with a fractional part as per
    /// `precision`). If false, format it as seconds.
    pub format_hms: bool,
    /// Display the unit ("s") alongside the number. Only used if
    /// `format_hms = false`.
    pub display_units: bool,
    /// Number of digits for the whole-number part. Only used if
    /// `format_hms = false`.
    pub digits: u8,
    /// Number of digits for the fractional part.
    pub precision: u8,
    /// Sort key: where the entry appears among its siblings.
    pub sort_key: i32,
}

impl PerfUiEntryRunningTime {
    /// Well-formed: the baseline, when set, is a well-formed span.
    pub open spec fn wf(&self) -> bool {
        self.start matches Some(s) ==> s.wf()
    }

    /// The string `format_value` renders a given span to.
    pub open spec fn format_chars(self, value: TimeSpan) -> Seq<char> {
        if self.format_hms {
            hms_chars(
                self.precision as nat,
                (value.secs / 3600) as nat,
                ((value.secs / 60) % 60) as nat,
                (value.secs % 60) as nat,
                value.nanos as nat,
            )
        } else {
            let base = fixed_decimal_chars(
                self.digits as nat,
                self.precision as nat,
                value.secs as nat,
                value.nanos as nat,
            );
            if self.display_units {
                base + seq![' ', 's']
            } else {
                base
            }
        }
    }

    /// An entry with the default options, drawing its sort key from `keys`.
    pub fn new(keys: &mut SortKeyAlloc) -> (r: Self)
        requires
            old(keys).next_key < i32::MAX,
        ensures
            r.wf(),
            r.label@ == Seq::<char>::empty(),
            r.start is None,
            !r.format_hms,
            r.display_units,
            r.digits == 5,
            r.precision == 3,
            r.sort_key == old(keys).next_key,
            final(keys).next_key == old(keys).next_key + 1,
    {
        PerfUiEntryRunningTime {
            label: String::new(),
            start: None,
            format_hms: false,
            display_units: true,
            digits: 5,
            precision: 3,
            sort_key: keys.allocate(),
        }
    }

    /// The label to display: the custom label if non-empty, else the default.
    pub fn label(&self) -> (r: &str)
        ensures
            self.label@.len() == 0 ==> r@ == "Running Time"@,
            self.label@.len() > 0 ==> r@ == self.label@,
    {
        if self.label.as_str().is_empty() {
            "Running Time"
        } else {
            self.label.as_str()
        }
    }

    /// The sort key, used by the host purely for ordering.
    pub fn sort_key(&self) -> (r: i32)
        ensures
            r == self.sort_key,
    {
        self.sort_key
    }

    /// Computes the value for one tick from the engine's elapsed time. With
    /// no baseline the elapsed time is returned unchanged; with one, the
    /// elapsed time less the baseline, saturating at zero when the baseline
    /// lies ahead of the elapsed time. Always returns a value.
    pub fn update_value(&self, elapsed: TimeSpan) -> (r: Option<TimeSpan>)
        requires
            self.wf(),
            elapsed.wf(),
        ensures
            r is Some,
            self.start is None ==> r == Some(elapsed),
            self.start matches Some(st) ==> (r matches Some(v) && v.wf() && (st.as_nanos()
                <= elapsed.as_nanos() ==> v.as_nanos() == elapsed.as_nanos() - st.as_nanos()) && (
            st.as_nanos() > elapsed.as_nanos() ==> v.as_nanos() == 0)),
    {
        match self.start {
            Some(start) => Some(elapsed.saturating_sub(start)),
            None => Some(elapsed),
        }
    }

    /// Renders a value: as HH:MM:SS with the whole hours first, or as
    /// zero-padded decimal seconds, with " s" appended when units are shown.
    pub fn format_value(&self, value: &TimeSpan) -> (r: String)
        requires
            value.wf(),
        ensures
            r@ == self.format_chars(*value),
    {
        if self.format_hms {
            let h = value.secs / 3600;
            let m = ((value.secs / 60) % 60) as u32;
            let s = (value.secs % 60) as u32;
            format_hms(self.precision, h, m, s, value.nanos)
        } else {
            let mut r = format_fixed_decimal(self.digits, self.precision, *value);
            if self.display_units {
                r.append(" s");
                proof {
                    reveal_strlit(" s");
                    assert(r@ =~= self.format_chars(*value));
                }
            }
            r
        }
    }
}

/// Whether the clock entry reads the UTC clock rather than the local one:
/// it does when UTC is preferred, and when no local clock capability exists.
pub open spec fn spec_uses_utc(prefer_utc: bool, local_clock_available: bool) -> bool {
    prefer_utc || !local_clock_available
}

/// Law: with UTC preferred, the UTC clock is the source, whatever local
/// capability the host reports.
pub proof fn lemma_prefer_utc_ignores_local(local_clock_available: bool)
    ensures
        spec_uses_utc(true, local_clock_available),
{
}

/// Perf UI entry displaying the wall clock (the current time of day).
#[derive(Clone, Debug)]
pub struct PerfUiEntryClock {
    /// Custom label. If empty (the default), the default label is used.
    pub label: String,
    /// If true, display the time in UTC and not the local timezone. With no
    /// local clock capability, the time is in UTC regardless of this setting.
    pub prefer_utc: bool,
    /// Number of digits for the fractional part.
    pub precision: u8,
    /// Sort key: where the entry appears among its siblings.
    pub sort_key: i32,
}

impl PerfUiEntryClock {
    /// An entry with the default options, drawing its sort key from `keys`.
    pub fn new(keys: &mut SortKeyAlloc) -> (r: Self)
        requires
            old(keys).next_key < i32::MAX,
        ensures
            r.label@ == Seq::<char>::empty(),
            !r.prefer_utc,
            r.precision == 0,
            r.sort_key == old(keys).next_key,
            final(keys).next_key == old(keys).next_key + 1,
    {
        PerfUiEntryClock {
            label: String::new(),
            prefer_utc: false,
            precision: 0,
            sort_key: keys.allocate(),
        }
    }

    /// Whether this entry reads the UTC clock, given whether the host has a
    /// local clock capability.
    pub fn uses_utc(&self, local_clock_available: bool) -> (r: bool)
        ensures
            r == spec_uses_utc(self.prefer_utc, local_clock_available),
    {
        self.prefer_utc || !local_clock_available
    }

    /// The label to display: the custom label if non-empty, else a default
    /// naming the clock read.
    pub fn label(&self, local_clock_available: bool) -> (r: &str)
        ensures
            self.label@.len() > 0 ==> r@ == self.label@,
            self.label@.len() == 0 && !spec_uses_utc(self.prefer_utc, local_clock_available)
                ==> r@ == "Clock"@,
            self.label@.len() == 0 && spec_uses_utc(self.prefer_utc, local_clock_available) ==> r@
                == "Clock (UTC)"@,
    {
        if self.label.as_str().is_empty() {
            if self.uses_utc(local_clock_available) {
                "Clock (UTC)"
            } else {
                "Clock"
            }
        } else {
            self.label.as_str()
        }
    }

    /// The sort key, used by the host purely for ordering.
    pub fn sort_key(&self) -> (r: i32)
        ensures
            r == self.sort_key,
    {
        self.sort_key
    }

    /// Reads the clock this entry is configured for and returns the time of
    /// day as (hour, minute, second, nanosecond), or `None` when the clock
    /// cannot be read this tick.
    pub fn update_value(&self, local_clock_available: bool) -> (r: Option<(u32, u32, u32, u32)>)
        ensures
            r matches Some(v) ==> clock_value_wf(v),
    {
        if self.uses_utc(local_clock_available) {
            get_system_clock_utc()
        } else {
            get_system_clock_local()
        }
    }

    /// Renders a time of day as HH:MM:SS, with a fractional-second suffix of
    /// `precision` digits.
    pub fn format_value(&self, value: &(u32, u32, u32, u32)) -> (r: String)
        requires
            value.3 < NANOS_PER_SEC,
        ensures
            r@ == hms_chars(
                self.precision as nat,
                value.0 as nat,
                value.1 as nat,
                value.2 as nat,
                value.3 as nat,
            ),
    {
        format_hms(self.precision, value.0 as u64, value.1, value.2, value.3)
    }
}

} // verus!
