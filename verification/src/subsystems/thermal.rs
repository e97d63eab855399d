//! Thermal management decisions: the cooling stage for a coolant
//! temperature, the fan policy of each stage, the codes raised, health and
//! the published frames.
use vstd::prelude::*;

use crate::can::codec::{
    emergency_stop_seen, has_emergency_stop, i16_frame, is_frame, le_bytes_u16, u16_frame,
    u8_frame,
};
use crate::can::frame::CanFrame;
use crate::can::well_known::{THERMAL_COOLANT_TEMP, THERMAL_FAN_SPEED, THERMAL_STATUS};
use crate::dtc::DtcSeverity;
use crate::subsystems::subsystem::SubsystemHealth;

verus! {

/// Cooling system state.
#[derive(Debug, Clone, Copy, PartialEq, Eq, Structural)]
pub enum CoolingState {
    Off,
    LowSpeed,
    HighSpeed,
    Emergency,
    Fault,
}

pub open spec fn cooling_state_label(s: CoolingState) -> &'static str {
    match s {
        CoolingState::Off => "OFF",
        CoolingState::LowSpeed => "LOW",
        CoolingState::HighSpeed => "HIGH",
        CoolingState::Emergency => "EMERGENCY",
        CoolingState::Fault => "FAULT",
    }
}

/// The status byte a cooling state is published as.
pub open spec fn cooling_state_code(s: CoolingState) -> u8 {
    match s {
        CoolingState::Off => 0,
        CoolingState::LowSpeed => 1,
        CoolingState::HighSpeed => 2,
        CoolingState::Emergency => 3,
        CoolingState::Fault => 4,
    }
}

/// Which coolant temperature thresholds are reached, each the outcome of
/// one comparison (`>=`) against the configured threshold.
#[derive(Debug, Clone, Copy, PartialEq, Eq, Structural)]
pub struct CoolantLevels {
    /// At or above the fault threshold (95 °C).
    pub at_fault: bool,
    /// At or above the emergency threshold (80 °C).
    pub at_emergency: bool,
    /// At or above the high-speed threshold (60 °C).
    pub at_high: bool,
    /// At or above the low-speed threshold (40 °C).
    pub at_low: bool,
}

/// How the fan speed follows from a cooling stage.
#[derive(Debug, Clone, Copy, PartialEq, Eq, Structural)]
pub enum FanPolicy {
    /// Fan stopped (0%).
    Stopped,
    /// Between 0% and 50%, rising linearly from the low to the high threshold.
    LowRange,
    /// Between 50% and 100%, rising linearly from the high to the emergency threshold.
    HighRange,
    /// Fan at 100%.
    Full,
}

/// A coolant condition the thermal system reports.
#[derive(Debug, Clone, Copy, PartialEq, Eq, Structural)]
pub enum CoolantFault {
    OverTemperature,
    High,
}

pub open spec fn coolant_fault_code(f: CoolantFault) -> &'static str {
    match f {
        CoolantFault::OverTemperature => "P0217",
        CoolantFault::High => "P0218",
    }
}

pub open spec fn coolant_fault_severity(f: CoolantFault) -> DtcSeverity {
    match f {
        CoolantFault::OverTemperature => DtcSeverity::Critical,
        CoolantFault::High => DtcSeverity::Warning,
    }
}

impl CoolantFault {
    pub fn code(&self) -> (s: &'static str)
        ensures
            s == coolant_fault_code(*self),
    {
        match self {
            CoolantFault::OverTemperature => "P0217",
            CoolantFault::High => "P0218",
        }
    }

    pub fn severity(&self) -> (s: DtcSeverity)
        ensures
            s == coolant_fault_severity(*self),
    {
        match self {
            CoolantFault::OverTemperature => DtcSeverity::Critical,
            CoolantFault::High => DtcSeverity::Warning,
        }
    }
}

/// The cooling stage for the reached thresholds: the highest one reached wins.
pub open spec fn cooling_stage_of(l: CoolantLevels) -> CoolingState {
    if l.at_fault {
        CoolingState::Fault
    } else if l.at_emergency {
        CoolingState::Emergency
    } else if l.at_high {
        CoolingState::HighSpeed
    } else if l.at_low {
        CoolingState::LowSpeed
    } else {
        CoolingState::Off
    }
}

pub open spec fn fan_policy_of(s: CoolingState) -> FanPolicy {
    match s {
        CoolingState::Off => FanPolicy::Stopped,
        CoolingState::LowSpeed => FanPolicy::LowRange,
        CoolingState::HighSpeed => FanPolicy::HighRange,
        CoolingState::Emergency | CoolingState::Fault => FanPolicy::Full,
    }
}

pub open spec fn coolant_fault_of(s: CoolingState) -> Option<CoolantFault> {
    match s {
        CoolingState::Fault => Some(CoolantFault::OverTemperature),
        CoolingState::Emergency => Some(CoolantFault::High),
        _ => None,
    }
}

pub open spec fn cooling_health_of(s: CoolingState) -> SubsystemHealth {
    match s {
        CoolingState::Fault => SubsystemHealth::Fault,
        CoolingState::Emergency => SubsystemHealth::Degraded,
        _ => SubsystemHealth::Nominal,
    }
}

impl CoolingState {
    /// The name the state is shown under, e.g. `HIGH`.
    pub fn label(&self) -> (s: &'static str)
        ensures
            s == cooling_state_label(*self),
    {
        match self {
            CoolingState::Off => "OFF",
            CoolingState::LowSpeed => "LOW",
            CoolingState::HighSpeed => "HIGH",
            CoolingState::Emergency => "EMERGENCY",
            CoolingState::Fault => "FAULT",
        }
    }

    pub fn code(&self) -> (b: u8)
        ensures
            b == cooling_state_code(*self),
    {
        match self {
            CoolingState::Off => 0,
            CoolingState::LowSpeed => 1,
            CoolingState::HighSpeed => 2,
            CoolingState::Emergency => 3,
            CoolingState::Fault => 4,
        }
    }

    /// The stage for a coolant temperature.
    pub fn for_levels(l: &CoolantLevels) -> (s: CoolingState)
        ensures
            s == cooling_stage_of(*l),
    {
        if l.at_fault {
            CoolingState::Fault
        } else if l.at_emergency {
            CoolingState::Emergency
        } else if l.at_high {
            CoolingState::HighSpeed
        } else if l.at_low {
            CoolingState::LowSpeed
        } else {
            CoolingState::Off
        }
    }

    pub fn fan_policy(&self) -> (p: FanPolicy)
        ensures
            p == fan_policy_of(*self),
    {
        match self {
            CoolingState::Off => FanPolicy::Stopped,
            CoolingState::LowSpeed => FanPolicy::LowRange,
            CoolingState::HighSpeed => FanPolicy::HighRange,
            CoolingState::Emergency | CoolingState::Fault => FanPolicy::Full,
        }
    }

    /// The condition reported in this stage.
    pub fn fault(&self) -> (f: Option<CoolantFault>)
        ensures
            f == coolant_fault_of(*self),
    {
        match self {
            CoolingState::Fault => Some(CoolantFault::OverTemperature),
            CoolingState::Emergency => Some(CoolantFault::High),
            _ => None,
        }
    }

    /// An emergency stop among the received frames forces emergency cooling.
    pub fn after_frames(self, frames: &Vec<CanFrame>) -> (s: CoolingState)
        ensures
            s == (if has_emergency_stop(frames@) {
                CoolingState::Emergency
            } else {
                self
            }),
    {
        if emergency_stop_seen(frames) {
            CoolingState::Emergency
        } else {
            self
        }
    }

    pub fn health(self) -> (h: SubsystemHealth)
        ensures
            h == cooling_health_of(self),
    {
        match self {
            CoolingState::Fault => SubsystemHealth::Fault,
            CoolingState::Emergency => SubsystemHealth::Degraded,
            _ => SubsystemHealth::Nominal,
        }
    }
}

/// The frames a tick publishes: coolant temperature in tenths of a degree,
/// fan speed in hundredths of a percent, and the stage's status byte.
pub fn thermal_frames(deci_celsius: i16, fan_centi_pct: u16, state: CoolingState) -> (v: Vec<
    CanFrame,
>)
    ensures
        v@.len() == 3,
        is_frame(v@[0], THERMAL_COOLANT_TEMP, le_bytes_u16(deci_celsius as u16)),
        is_frame(v@[1], THERMAL_FAN_SPEED, le_bytes_u16(fan_centi_pct)),
        is_frame(v@[2], THERMAL_STATUS, seq![cooling_state_code(state)]),
{
    let mut v: Vec<CanFrame> = Vec::new();
    v.push(i16_frame(THERMAL_COOLANT_TEMP, deci_celsius));
    v.push(u16_frame(THERMAL_FAN_SPEED, fan_centi_pct));
    v.push(u8_frame(THERMAL_STATUS, state.code()));
    v
}

/// Cooling escalates with temperature: reaching a higher threshold never
/// selects a lower stage, and the fan runs flat out exactly in the emergency
/// and fault stages, which are also exactly the stages that report a code.
pub proof fn law_cooling_escalates(l: CoolantLevels, hotter: CoolantLevels)
    requires
        l.at_fault ==> hotter.at_fault,
        l.at_emergency ==> hotter.at_emergency,
        l.at_high ==> hotter.at_high,
        l.at_low ==> hotter.at_low,
    ensures
        cooling_state_code(cooling_stage_of(l)) <= cooling_state_code(cooling_stage_of(hotter)),
        (fan_policy_of(cooling_stage_of(l)) == FanPolicy::Full) <==> (l.at_fault
            || l.at_emergency),
        coolant_fault_of(cooling_stage_of(l)) is Some <==> (l.at_fault || l.at_emergency),
{
}


/// The fan runs in every cooling stage but off: it is stopped exactly when no
/// coolant threshold is reached; with only the low threshold reached it runs
/// in its low range, with the high but not the emergency threshold in its
/// high range, and flat out from the emergency threshold on.
pub proof fn law_fan_runs_in_every_stage_but_off(s: CoolingState, l: CoolantLevels)
    ensures
        (fan_policy_of(s) == FanPolicy::Stopped) <==> s == CoolingState::Off,
        (fan_policy_of(cooling_stage_of(l)) == FanPolicy::Stopped) <==> !(l.at_fault
            || l.at_emergency || l.at_high || l.at_low),
        l.at_low && !l.at_high && !l.at_emergency && !l.at_fault ==> fan_policy_of(
            cooling_stage_of(l),
        ) == FanPolicy::LowRange,
        l.at_high && !l.at_emergency && !l.at_fault ==> fan_policy_of(cooling_stage_of(l))
            == FanPolicy::HighRange,
        (l.at_emergency || l.at_fault) ==> fan_policy_of(cooling_stage_of(l)) == FanPolicy::Full,
{
}


/// For coolant levels as a temperature gives them (each threshold reached
/// implies the lower ones), the stage is the highest threshold reached, and
/// exactly the fault stage reports the critical over-temperature code P0217
/// and the emergency stage the high-temperature warning P0218.
pub proof fn law_stage_is_highest_threshold_reached(l: CoolantLevels)
    requires
        l.at_fault ==> l.at_emergency,
        l.at_emergency ==> l.at_high,
        l.at_high ==> l.at_low,
    ensures
        (cooling_stage_of(l) == CoolingState::Fault) <==> l.at_fault,
        (cooling_stage_of(l) == CoolingState::Emergency) <==> (l.at_emergency && !l.at_fault),
        (cooling_stage_of(l) == CoolingState::HighSpeed) <==> (l.at_high && !l.at_emergency),
        (cooling_stage_of(l) == CoolingState::LowSpeed) <==> (l.at_low && !l.at_high),
        (cooling_stage_of(l) == CoolingState::Off) <==> !l.at_low,
        l.at_fault ==> coolant_fault_of(cooling_stage_of(l)) == Some(CoolantFault::OverTemperature)
            && coolant_fault_code(CoolantFault::OverTemperature) == "P0217"
            && coolant_fault_severity(CoolantFault::OverTemperature) == DtcSeverity::Critical,
        l.at_emergency && !l.at_fault ==> coolant_fault_of(cooling_stage_of(l)) == Some(
            CoolantFault::High,
        ) && coolant_fault_code(CoolantFault::High) == "P0218" && coolant_fault_severity(
            CoolantFault::High,
        ) == DtcSeverity::Warning,
        !l.at_emergency ==> coolant_fault_of(cooling_stage_of(l)) is None,
{
}

} // verus!
