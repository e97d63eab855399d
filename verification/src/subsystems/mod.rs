//! Vehicle subsystems: the battery, motor, thermal and Ener-D reactor
//! controllers' decisions, their published frames, and the interface the
//! scheduler drives them through.

pub mod bms;
pub mod enerd;
pub mod motor;
pub mod subsystem;
pub mod thermal;
