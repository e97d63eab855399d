//! The vehicle's top-level state machine and the states of its subsystems.

pub mod bms_state;
pub mod enerd_state;
pub mod gear;
pub mod motor_state;
pub mod vehicle;
