//! Scripted drive scenarios.

pub mod scenario;
