//! Scheduling: the earliest-deadline-first task table and the software
//! watchdog.

pub mod edf;
pub mod watchdog;
