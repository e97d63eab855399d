//! Motor controller decisions: its state machine under throttle, temperature
//! and emergency stops, the codes it raises, its health and its frames.
use vstd::prelude::*;

use crate::can::codec::{
    i16_frame, i32_frame, is_frame, le_bytes_u16, le_bytes_u32, u8_frame,
};
use crate::can::frame::CanFrame;
use crate::can::well_known::{MOTOR_RPM, MOTOR_STATUS, MOTOR_TEMPERATURE, MOTOR_TORQUE};
use crate::dtc::DtcSeverity;
use crate::state::motor_state::{motor_state_code, MotorState};
use crate::subsystems::subsystem::SubsystemHealth;

verus! {

/// What the motor's decisions read of a tick's sensor values, each the
/// outcome of one comparison.
#[derive(Debug, Clone, Copy, PartialEq, Eq, Structural)]
pub struct MotorInputs {
    /// An emergency stop frame arrived since the last tick.
    pub emergency_stop: bool,
    /// Throttle above 0.01.
    pub throttle_applied: bool,
    /// Throttle below 0.01.
    pub throttle_released: bool,
    /// Speed below 10 rpm.
    pub stopped: bool,
    /// Temperature above the maximum (150 °C).
    pub over_max_temperature: bool,
    /// Temperature above the derating threshold (120 °C).
    pub over_derate_temperature: bool,
}

/// A temperature condition the motor reports.
#[derive(Debug, Clone, Copy, PartialEq, Eq, Structural)]
pub enum MotorFault {
    OverTemperature,
    Derating,
}

pub open spec fn motor_fault_code(f: MotorFault) -> &'static str {
    match f {
        MotorFault::OverTemperature => "P0A78",
        MotorFault::Derating => "P0A79",
    }
}

pub open spec fn motor_fault_severity(f: MotorFault) -> DtcSeverity {
    match f {
        MotorFault::OverTemperature => DtcSeverity::Critical,
        MotorFault::Derating => DtcSeverity::Warning,
    }
}

impl MotorFault {
    pub fn code(&self) -> (s: &'static str)
        ensures
            s == motor_fault_code(*self),
    {
        match self {
            MotorFault::OverTemperature => "P0A78",
            MotorFault::Derating => "P0A79",
        }
    }

    pub fn severity(&self) -> (s: DtcSeverity)
        ensures
            s == motor_fault_severity(*self),
    {
        match self {
            MotorFault::OverTemperature => DtcSeverity::Critical,
            MotorFault::Derating => DtcSeverity::Warning,
        }
    }
}

/// The state after the emergency stop check and the throttle transitions.
pub open spec fn motor_driven_state(s: MotorState, i: MotorInputs) -> MotorState {
    let s1 = if i.emergency_stop {
        MotorState::Fault
    } else {
        s
    };
    if s1 == MotorState::Ready && i.throttle_applied {
        MotorState::Running
    } else if s1 == MotorState::Running && i.throttle_released && i.stopped {
        MotorState::Ready
    } else {
        s1
    }
}

/// The state after a whole tick's decisions.
pub open spec fn motor_next_state(s: MotorState, i: MotorInputs) -> MotorState {
    let s2 = motor_driven_state(s, i);
    if i.over_max_temperature {
        MotorState::Fault
    } else if i.over_derate_temperature {
        if s2 == MotorState::Running {
            MotorState::Derating
        } else {
            s2
        }
    } else if s2 == MotorState::Derating {
        MotorState::Running
    } else {
        s2
    }
}

/// The condition a tick reports.
pub open spec fn motor_tick_fault(i: MotorInputs) -> Option<MotorFault> {
    if i.over_max_temperature {
        Some(MotorFault::OverTemperature)
    } else if i.over_derate_temperature {
        Some(MotorFault::Derating)
    } else {
        None
    }
}

/// One tick of the motor controller's decisions, for a motor not already in
/// its fault state (a faulted motor's tick does nothing): the new state and
/// the condition reported.
pub fn motor_step(s: MotorState, i: &MotorInputs) -> (r: (MotorState, Option<MotorFault>))
    ensures
        r.0 == motor_next_state(s, *i),
        r.1 == motor_tick_fault(*i),
{
    let mut state = s;
    if i.emergency_stop {
        state = MotorState::Fault;
    }
    if state == MotorState::Ready && i.throttle_applied {
        state = MotorState::Running;
    } else if state == MotorState::Running && i.throttle_released && i.stopped {
        state = MotorState::Ready;
    }
    let mut fault = None;
    if i.over_max_temperature {
        fault = Some(MotorFault::OverTemperature);
        state = MotorState::Fault;
    } else if i.over_derate_temperature {
        fault = Some(MotorFault::Derating);
        if state == MotorState::Running {
            state = MotorState::Derating;
        }
    } else if state == MotorState::Derating {
        state = MotorState::Running;
    }
    (state, fault)
}

pub open spec fn motor_health_of(s: MotorState) -> SubsystemHealth {
    match s {
        MotorState::Fault => SubsystemHealth::Fault,
        MotorState::Derating => SubsystemHealth::Degraded,
        _ => SubsystemHealth::Nominal,
    }
}

impl MotorState {
    /// Whether a tick does any work: a faulted motor ignores ticks.
    pub fn runs_tick(self) -> (b: bool)
        ensures
            b == (self != MotorState::Fault),
    {
        self != MotorState::Fault
    }

    pub fn health(self) -> (h: SubsystemHealth)
        ensures
            h == motor_health_of(self),
    {
        match self {
            MotorState::Fault => SubsystemHealth::Fault,
            MotorState::Derating => SubsystemHealth::Degraded,
            _ => SubsystemHealth::Nominal,
        }
    }
}

/// The frames a tick publishes: speed in rpm, torque in hundredths of a
/// newton-metre, temperature in tenths of a degree, and the state's status byte.
pub fn motor_frames(rpm: i32, centi_nm: i32, deci_celsius: i16, state: MotorState) -> (v: Vec<
    CanFrame,
>)
    ensures
        v@.len() == 4,
        is_frame(v@[0], MOTOR_RPM, le_bytes_u32(rpm as u32)),
        is_frame(v@[1], MOTOR_TORQUE, le_bytes_u32(centi_nm as u32)),
        is_frame(v@[2], MOTOR_TEMPERATURE, le_bytes_u16(deci_celsius as u16)),
        is_frame(v@[3], MOTOR_STATUS, seq![motor_state_code(state)]),
{
    let mut v: Vec<CanFrame> = Vec::new();
    v.push(i32_frame(MOTOR_RPM, rpm));
    v.push(i32_frame(MOTOR_TORQUE, centi_nm));
    v.push(i16_frame(MOTOR_TEMPERATURE, deci_celsius));
    v.push(u8_frame(MOTOR_STATUS, state.code()));
    v
}

/// Over-temperature always faults the motor, and a faulted motor stays
/// faulted whatever else the tick reads.
pub proof fn law_motor_fault_is_sticky(s: MotorState, i: MotorInputs)
    ensures
        i.over_max_temperature ==> motor_next_state(s, i) == MotorState::Fault,
        i.emergency_stop ==> motor_next_state(s, i) == MotorState::Fault,
        s == MotorState::Fault ==> motor_next_state(s, i) == MotorState::Fault,
{
}

/// The motor derates only while hot, and only out of running.
pub proof fn law_motor_derates_only_when_hot(s: MotorState, i: MotorInputs)
    ensures
        motor_next_state(s, i) == MotorState::Derating ==> i.over_derate_temperature
            && !i.over_max_temperature && (s == MotorState::Running || s == MotorState::Ready
            || s == MotorState::Derating),
{
}


/// Without an emergency stop or a hot motor, throttle starts a ready motor
/// running, and releasing it at a standstill brings a running motor back to
/// ready; without throttle a ready motor stays ready. No condition is
/// reported then.
pub proof fn law_motor_throttle_cycle(i: MotorInputs)
    requires
        !i.emergency_stop,
        !i.over_max_temperature,
        !i.over_derate_temperature,
    ensures
        (motor_next_state(MotorState::Ready, i) == MotorState::Running) == i.throttle_applied,
        !i.throttle_applied ==> motor_next_state(MotorState::Ready, i) == MotorState::Ready,
        (motor_next_state(MotorState::Running, i) == MotorState::Ready) == (i.throttle_released
            && i.stopped),
        !(i.throttle_released && i.stopped) ==> motor_next_state(MotorState::Running, i)
            == MotorState::Running,
        motor_next_state(MotorState::Derating, i) == MotorState::Running,
        motor_tick_fault(i) is None,
{
}

/// Above the maximum temperature the motor reports the critical code P0A78;
/// above the derating threshold only, the warning P0A79, and a motor that
/// keeps running derates.
pub proof fn law_motor_temperature_codes(s: MotorState, i: MotorInputs)
    ensures
        i.over_max_temperature ==> motor_tick_fault(i) == Some(MotorFault::OverTemperature)
            && motor_fault_code(MotorFault::OverTemperature) == "P0A78" && motor_fault_severity(
            MotorFault::OverTemperature,
        ) == DtcSeverity::Critical,
        !i.over_max_temperature && i.over_derate_temperature ==> motor_tick_fault(i) == Some(
            MotorFault::Derating,
        ) && motor_fault_code(MotorFault::Derating) == "P0A79" && motor_fault_severity(
            MotorFault::Derating,
        ) == DtcSeverity::Warning,
        !i.over_max_temperature && i.over_derate_temperature && !i.emergency_stop ==> (s
            == MotorState::Running && !(i.throttle_released && i.stopped) ==> motor_next_state(
            s,
            i,
        ) == MotorState::Derating),
        !i.over_max_temperature && !i.over_derate_temperature ==> motor_tick_fault(i) is None,
{
}

} // verus!
