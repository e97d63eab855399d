//! Raw 11-bit identifiers of the frames exchanged on the vehicle bus; each is
//! at most 0x7FF, so `CanId::new_unchecked` accepts it.
use vstd::prelude::*;

verus! {

// BMS CAN IDs (0x100-0x10F)
pub const BMS_SOC: u16 = 0x100;
pub const BMS_VOLTAGE: u16 = 0x101;
pub const BMS_CURRENT: u16 = 0x102;
pub const BMS_TEMPERATURE: u16 = 0x103;
pub const BMS_STATUS: u16 = 0x104;

// Motor CAN IDs (0x200-0x20F)
pub const MOTOR_RPM: u16 = 0x200;
pub const MOTOR_TORQUE: u16 = 0x201;
pub const MOTOR_TEMPERATURE: u16 = 0x202;
pub const MOTOR_STATUS: u16 = 0x203;

// Thermal CAN IDs (0x300-0x30F)
pub const THERMAL_COOLANT_TEMP: u16 = 0x300;
pub const THERMAL_FAN_SPEED: u16 = 0x301;
pub const THERMAL_STATUS: u16 = 0x302;

// Vehicle state CAN IDs (0x400-0x40F)
pub const VEHICLE_STATE: u16 = 0x400;
pub const VEHICLE_SPEED: u16 = 0x401;
pub const VEHICLE_THROTTLE: u16 = 0x402;
pub const VEHICLE_GEAR: u16 = 0x403;

// Emergency / high-priority (low IDs)
pub const EMERGENCY_STOP: u16 = 0x001;
pub const HEARTBEAT: u16 = 0x002;

// Ener-D Reactor CAN IDs (0x500-0x50F)
pub const ENERD_STATUS: u16 = 0x500;
pub const ENERD_SPIN_RATE: u16 = 0x501;
pub const ENERD_POWER_OUTPUT: u16 = 0x502;
pub const ENERD_CONTAINMENT: u16 = 0x503;
pub const ENERD_PLASMA_TEMP: u16 = 0x504;
pub const ENERD_MOMENTUM_FLUX: u16 = 0x505;

// OBD-II CAN IDs
pub const OBD_REQUEST: u16 = 0x7DF;
pub const OBD_RESPONSE: u16 = 0x7E8;

} // verus!
