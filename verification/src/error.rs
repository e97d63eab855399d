use vstd::prelude::*;

verus! {

/// Errors raised across the vehicle stack.
#[derive(Debug)]
pub enum PpeError {
    CanBus(String),
    Sensor(String),
    Actuator(String),
    InvalidTransition { from: String, to: String },
    SubsystemFault { subsystem: String, detail: String },
    WatchdogTimeout(String),
    Config(String),
    Scheduler(String),
}

} // verus!
