//! Personal reminder scheduling.
//!
//! Reminders carry a human summary, a description, and a cron-style
//! recurrence expression. A positional store holds them, and a transition
//! detector decides, tick by tick, when the next occurrence of a schedule
//! has rolled over and a notification must fire exactly once.

pub mod errors;
pub mod schedule;
pub mod reminder;
pub mod store;
