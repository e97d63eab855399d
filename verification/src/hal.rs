//! Hardware abstraction: the interfaces sensors and actuators offer, and the
//! battery contactor's commands.
use vstd::prelude::*;

use crate::error::PpeError;

verus! {

/// Hardware abstraction for a sensor that reads a value of type T.
pub trait Sensor<T>: Send + Sync {
    /// Read the current sensor value.
    fn read(&self) -> Result<T, PpeError>;

    /// Human-readable sensor name.
    fn name(&self) -> &str;

    /// Whether the sensor is in a healthy state.
    fn is_healthy(&self) -> bool;
}

/// Hardware abstraction for an actuator that accepts commands.
pub trait Actuator<Command>: Send + Sync {
    /// Send a command to the actuator.
    fn command(&mut self, cmd: Command) -> Result<(), PpeError>;

    /// Human-readable actuator name.
    fn name(&self) -> &str;

    /// Whether the actuator is in a healthy state.
    fn is_healthy(&self) -> bool;
}

/// Commands for the battery contactor actuator.
#[derive(Debug, Clone, Copy, PartialEq, Eq, Structural)]
pub enum ContactorCommand {
    Close,
    Open,
}

} // verus!
