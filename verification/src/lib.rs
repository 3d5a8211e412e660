//! Perf UI entries for displaying time: running time since application start
//! and the current wall-clock time, together with the fixed-width decimal and
//! HH:MM:SS formatters they render through.

pub mod clock;
pub mod digits;
pub mod format;
pub mod span;
pub mod time;
