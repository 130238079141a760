//! Weekly time-card reports: week windows, per-project aggregation of work
//! intervals, memo wrapping and the rendered report table.
pub mod text;
pub mod calendar;
pub mod timestamp;
pub mod memo;
pub mod entry;
pub mod aggregate;
pub mod report;
pub mod intake;
