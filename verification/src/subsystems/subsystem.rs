use vstd::prelude::*;

use crate::dtc::Dtc;
use crate::error::PpeError;

verus! {

/// Health status of a subsystem.
#[derive(Debug, Clone, Copy, PartialEq, Eq, Structural)]
pub enum SubsystemHealth {
    Nominal,
    Degraded,
    Fault,
}

/// The name a health status is shown under.
pub open spec fn health_label(h: SubsystemHealth) -> &'static str {
    match h {
        SubsystemHealth::Nominal => "OK",
        SubsystemHealth::Degraded => "DEGRADED",
        SubsystemHealth::Fault => "FAULT",
    }
}

impl SubsystemHealth {
    /// The name the status is shown under, e.g. `DEGRADED`.
    pub fn label(&self) -> (s: &'static str)
        ensures
            s == health_label(*self),
    {
        match self {
            SubsystemHealth::Nominal => "OK",
            SubsystemHealth::Degraded => "DEGRADED",
            SubsystemHealth::Fault => "FAULT",
        }
    }
}

/// Trait for vehicle subsystems that run on the scheduler.
pub trait Subsystem: Send {
    /// Initialize the subsystem.
    fn init(&mut self) -> Result<(), PpeError>;

    /// Execute one tick of the subsystem logic.
    fn tick(&mut self, dt: std::time::Duration) -> Result<(), PpeError>;

    /// Return currently active diagnostic trouble codes.
    fn active_dtcs(&self) -> Vec<Dtc>;

    /// Gracefully shut down the subsystem.
    fn shutdown(&mut self) -> Result<(), PpeError>;

    /// Overall health assessment.
    fn health(&self) -> SubsystemHealth;

    /// Human-readable name.
    fn name(&self) -> &str;
}

} // verus!
