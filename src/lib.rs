//! Today's occurrence of a daily schedule that drifts by a fixed interval per
//! day, and the small persisted record that holds the schedule's anchor.

pub mod calendar;
pub mod record;
pub mod recurrence;
pub mod storage;
