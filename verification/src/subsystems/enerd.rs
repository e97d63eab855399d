//! The Ener-D reactor's discrete control: its state machine, SCRAM handling,
//! enable switch and the trouble codes its transitions raise. The continuous
//! quantities (spin rate, containment, plasma temperature, power) are
//! measured elsewhere and reach these decisions as `EnerDReadings`.
use vstd::prelude::*;

use crate::can::codec::{
    emergency_stop_seen, has_emergency_stop, i32_frame, is_frame, le_bytes_u16, le_bytes_u32,
    u16_frame, u8_frame,
};
use crate::can::well_known::{
    ENERD_CONTAINMENT, ENERD_MOMENTUM_FLUX, ENERD_PLASMA_TEMP, ENERD_POWER_OUTPUT, ENERD_SPIN_RATE,
    ENERD_STATUS,
};
use crate::can::frame::CanFrame;
use crate::component::ComponentId;
use crate::dtc::{Dtc, DtcSeverity};
use crate::state::enerd_state::{enerd_state_code, EnerDState};
use crate::subsystems::subsystem::SubsystemHealth;

verus! {

/// What the reactor's transitions read of its continuous state, taken after
/// the physics update of the tick, each as the outcome of one comparison.
#[derive(Debug, Clone, Copy, PartialEq, Eq, Structural)]
pub struct EnerDReadings {
    /// Vehicle speed above the minimum activation speed.
    pub above_activation_speed: bool,
    /// Vehicle speed below 3 m/s.
    pub below_stall_speed: bool,
    /// Spin rate at or above the sustain threshold.
    pub spin_at_sustain: bool,
    /// Net power at or above the parasitic load.
    pub power_covers_parasitic: bool,
    /// Time in the current state (this tick included) beyond the spin-up timeout.
    pub spinup_timed_out: bool,
    /// Spin rate above the overdrive threshold.
    pub spin_above_overdrive: bool,
    /// Spin rate at or below the overdrive threshold.
    pub spin_at_or_below_overdrive: bool,
    /// Net power above zero.
    pub power_positive: bool,
    /// Spin rate below half the sustain threshold.
    pub spin_below_half_sustain: bool,
    /// Containment below the critical level.
    pub containment_below_critical: bool,
    /// Plasma temperature above the critical level.
    pub plasma_above_critical: bool,
    /// Net power above the maximum safe output.
    pub power_above_max_safe: bool,
    /// Containment above 70% and plasma below 60 MK.
    pub recovery_window: bool,
    /// Time spent stable in the recovery window, this tick included, reaches 3 s.
    pub recovery_time_reached: bool,
    /// Containment below the meltdown level.
    pub containment_below_meltdown: bool,
    /// Plasma temperature above the meltdown level.
    pub plasma_above_meltdown: bool,
    /// Time in the current state (this tick included) beyond 15 s.
    pub critical_time_exceeded: bool,
}

/// A trouble code raised by a reactor transition.
#[derive(Debug, Clone, Copy, PartialEq, Eq, Structural)]
pub enum EnerDNotice {
    SpinUpStarted,
    Sustaining,
    Overdrive,
    Critical,
    SpinUpTimeout,
    Meltdown,
    Scram,
    Recovered,
}

pub open spec fn notice_code(n: EnerDNotice) -> &'static str {
    match n {
        EnerDNotice::SpinUpStarted => "P0ED0",
        EnerDNotice::Sustaining => "P0ED1",
        EnerDNotice::Overdrive => "P0ED2",
        EnerDNotice::Critical => "P0ED5",
        EnerDNotice::SpinUpTimeout => "P0ED6",
        EnerDNotice::Meltdown => "P0ED7",
        EnerDNotice::Scram => "P0EDA",
        EnerDNotice::Recovered => "P0EDB",
    }
}

pub open spec fn notice_description(n: EnerDNotice) -> &'static str {
    match n {
        EnerDNotice::SpinUpStarted => "Ener-D reactor entering spin-up",
        EnerDNotice::Sustaining => "Ener-D reactor sustaining",
        EnerDNotice::Overdrive => "Ener-D reactor in overdrive",
        EnerDNotice::Critical => "Ener-D reactor critical",
        EnerDNotice::SpinUpTimeout => "Ener-D spin-up timeout",
        EnerDNotice::Meltdown => "Ener-D reactor MELTDOWN",
        EnerDNotice::Scram => "Ener-D reactor SCRAM executed",
        EnerDNotice::Recovered => "Ener-D reactor recovered from critical",
    }
}

pub open spec fn notice_severity(n: EnerDNotice) -> DtcSeverity {
    match n {
        EnerDNotice::SpinUpStarted => DtcSeverity::Info,
        EnerDNotice::Sustaining => DtcSeverity::Info,
        EnerDNotice::Overdrive => DtcSeverity::Info,
        EnerDNotice::Critical => DtcSeverity::Critical,
        EnerDNotice::SpinUpTimeout => DtcSeverity::Warning,
        EnerDNotice::Meltdown => DtcSeverity::Critical,
        EnerDNotice::Scram => DtcSeverity::Warning,
        EnerDNotice::Recovered => DtcSeverity::Info,
    }
}

impl EnerDNotice {
    /// The trouble code the notice is raised as.
    pub fn to_dtc(&self) -> (d: Dtc)
        ensures
            d.code@ == notice_code(*self)@,
            d.description@ == notice_description(*self)@,
            d.severity == notice_severity(*self),
            d.source == ComponentId::EnerD,
    {
        let (code, description, severity) = match self {
            EnerDNotice::SpinUpStarted => (
                "P0ED0",
                "Ener-D reactor entering spin-up",
                DtcSeverity::Info,
            ),
            EnerDNotice::Sustaining => ("P0ED1", "Ener-D reactor sustaining", DtcSeverity::Info),
            EnerDNotice::Overdrive => ("P0ED2", "Ener-D reactor in overdrive", DtcSeverity::Info),
            EnerDNotice::Critical => ("P0ED5", "Ener-D reactor critical", DtcSeverity::Critical),
            EnerDNotice::SpinUpTimeout => (
                "P0ED6",
                "Ener-D spin-up timeout",
                DtcSeverity::Warning,
            ),
            EnerDNotice::Meltdown => ("P0ED7", "Ener-D reactor MELTDOWN", DtcSeverity::Critical),
            EnerDNotice::Scram => ("P0EDA", "Ener-D reactor SCRAM executed", DtcSeverity::Warning),
            EnerDNotice::Recovered => (
                "P0EDB",
                "Ener-D reactor recovered from critical",
                DtcSeverity::Info,
            ),
        };
        Dtc::new(code, description, severity, ComponentId::EnerD)
    }
}

/// What happens to the time spent stable in the recovery window.
#[derive(Debug, Clone, Copy, PartialEq, Eq, Structural)]
pub enum StableTimer {
    /// Left as it is.
    Keep,
    /// The tick's duration is added.
    Accumulate,
    /// Set back to zero.
    Clear,
}

/// How a tick proceeds, decided before the physics update.
#[derive(Debug, Clone, Copy, PartialEq, Eq, Structural)]
pub enum TickMode {
    /// Disabled and not in meltdown: nothing moves, frames are still published.
    Idle,
    /// In meltdown: the state time advances and the spin decays; nothing else moves.
    MeltdownDecay,
    /// Physics, transitions and warnings run.
    Active,
}

/// What a transition asks of the continuous state.
#[derive(Debug, Clone, PartialEq, Eq)]
pub struct EnerDTransition {
    /// The time in state goes back to zero.
    pub reset_state_time: bool,
    /// Spin rate to zero, containment to 100%, plasma to 0.1 MK (SCRAM).
    pub reset_core: bool,
    /// The spin rate decays by 1% (meltdown).
    pub decay_spin: bool,
    /// What happens to the time spent stable in the recovery window.
    pub stable_timer: StableTimer,
    /// The trouble codes raised, in order.
    pub notices: Vec<EnerDNotice>,
}

/// Recovery from critical completes this tick.
pub open spec fn recovers(r: EnerDReadings) -> bool {
    r.recovery_window && r.recovery_time_reached
}

/// A critical reactor melts down this tick.
pub open spec fn melts_down(r: EnerDReadings) -> bool {
    r.containment_below_meltdown || r.plasma_above_meltdown || (r.critical_time_exceeded
        && !recovers(r))
}

/// A pending SCRAM takes effect: it does in every state but meltdown.
pub open spec fn scram_applies(s: EnerDState, scram: bool) -> bool {
    scram && s != EnerDState::Meltdown
}

/// The state after a transition.
pub open spec fn enerd_next_state(s: EnerDState, enabled: bool, scram: bool, r: EnerDReadings) -> EnerDState {
    if scram_applies(s, scram) {
        EnerDState::Dormant
    } else {
        match s {
            EnerDState::Dormant => if r.above_activation_speed && enabled {
                EnerDState::SpinUp
            } else {
                EnerDState::Dormant
            },
            EnerDState::SpinUp => if r.spin_at_sustain && r.power_covers_parasitic {
                EnerDState::Sustaining
            } else if r.below_stall_speed || r.spinup_timed_out {
                EnerDState::Dormant
            } else {
                EnerDState::SpinUp
            },
            EnerDState::Sustaining => if r.spin_above_overdrive && r.power_positive {
                EnerDState::Overdrive
            } else if r.spin_below_half_sustain {
                EnerDState::Dormant
            } else {
                EnerDState::Sustaining
            },
            EnerDState::Overdrive => if r.containment_below_critical || r.plasma_above_critical
                || r.power_above_max_safe {
                EnerDState::Critical
            } else if r.spin_at_or_below_overdrive {
                EnerDState::Sustaining
            } else {
                EnerDState::Overdrive
            },
            EnerDState::Critical => if melts_down(r) {
                EnerDState::Meltdown
            } else if recovers(r) {
                EnerDState::Sustaining
            } else {
                EnerDState::Critical
            },
            EnerDState::Meltdown => EnerDState::Meltdown,
        }
    }
}

/// Whether the transition sends the time in state back to zero.
pub open spec fn enerd_resets_state_time(s: EnerDState, enabled: bool, scram: bool, r: EnerDReadings) -> bool {
    scram_applies(s, scram) || (s != EnerDState::Meltdown && enerd_next_state(s, enabled, scram, r) != s)
}

/// What the transition does to the time spent stable in the recovery window.
pub open spec fn enerd_stable_timer(s: EnerDState, scram: bool, r: EnerDReadings) -> StableTimer {
    if scram_applies(s, scram) || s != EnerDState::Critical {
        StableTimer::Keep
    } else if recovers(r) || !r.recovery_window {
        StableTimer::Clear
    } else {
        StableTimer::Accumulate
    }
}

/// Whether a SCRAM is still pending after the transition.
pub open spec fn enerd_scram_after(s: EnerDState, scram: bool, r: EnerDReadings) -> bool {
    if scram_applies(s, scram) {
        false
    } else if s == EnerDState::Critical && melts_down(r) {
        false
    } else {
        scram
    }
}

/// The trouble codes the transition raises, in order.
pub open spec fn enerd_notices(s: EnerDState, enabled: bool, scram: bool, r: EnerDReadings) -> Seq<EnerDNotice> {
    if scram_applies(s, scram) {
        seq![EnerDNotice::Scram]
    } else {
        match s {
            EnerDState::Dormant => if r.above_activation_speed && enabled {
                seq![EnerDNotice::SpinUpStarted]
            } else {
                Seq::empty()
            },
            EnerDState::SpinUp => if r.spin_at_sustain && r.power_covers_parasitic {
                seq![EnerDNotice::Sustaining]
            } else if !r.below_stall_speed && r.spinup_timed_out {
                seq![EnerDNotice::SpinUpTimeout]
            } else {
                Seq::empty()
            },
            EnerDState::Sustaining => if r.spin_above_overdrive && r.power_positive {
                seq![EnerDNotice::Overdrive]
            } else {
                Seq::empty()
            },
            EnerDState::Overdrive => if r.containment_below_critical || r.plasma_above_critical
                || r.power_above_max_safe {
                seq![EnerDNotice::Critical]
            } else {
                Seq::empty()
            },
            EnerDState::Critical => {
                let recovered: Seq<EnerDNotice> = if recovers(r) {
                    seq![EnerDNotice::Recovered]
                } else {
                    Seq::empty()
                };
                if melts_down(r) {
                    recovered.push(EnerDNotice::Meltdown)
                } else {
                    recovered
                }
            },
            EnerDState::Meltdown => Seq::empty(),
        }
    }
}

/// The reactor's discrete control state.
pub struct EnerDControl {
    state: EnerDState,
    enabled: bool,
    scram_requested: bool,
}

impl EnerDControl {
    pub closed spec fn current_state(&self) -> EnerDState {
        self.state
    }

    pub closed spec fn is_enabled(&self) -> bool {
        self.enabled
    }

    pub closed spec fn scram_pending(&self) -> bool {
        self.scram_requested
    }

    /// A dormant, disabled reactor with no SCRAM pending.
    pub fn new() -> (c: EnerDControl)
        ensures
            c.current_state() == EnerDState::Dormant,
            !c.is_enabled(),
            !c.scram_pending(),
    {
        EnerDControl { state: EnerDState::Dormant, enabled: false, scram_requested: false }
    }

    pub fn state(&self) -> (s: EnerDState)
        ensures
            s == self.current_state(),
    {
        self.state
    }

    pub fn enabled(&self) -> (b: bool)
        ensures
            b == self.is_enabled(),
    {
        self.enabled
    }

    pub fn scram_requested(&self) -> (b: bool)
        ensures
            b == self.scram_pending(),
    {
        self.scram_requested
    }

    pub fn set_enabled(&mut self, enabled: bool)
        ensures
            final(self).is_enabled() == enabled,
            final(self).current_state() == old(self).current_state(),
            final(self).scram_pending() == old(self).scram_pending(),
    {
        self.enabled = enabled;
    }

    /// Ask for a SCRAM; it takes effect at the next transition.
    pub fn request_scram(&mut self)
        ensures
            final(self).scram_pending(),
            final(self).current_state() == old(self).current_state(),
            final(self).is_enabled() == old(self).is_enabled(),
    {
        self.scram_requested = true;
    }

    /// An emergency stop among the received frames requests a SCRAM.
    pub fn observe_frames(&mut self, frames: &Vec<CanFrame>)
        ensures
            final(self).scram_pending() == (old(self).scram_pending() || has_emergency_stop(
                frames@,
            )),
            final(self).current_state() == old(self).current_state(),
            final(self).is_enabled() == old(self).is_enabled(),
    {
        if emergency_stop_seen(frames) {
            self.scram_requested = true;
        }
    }

    /// Decide how this tick proceeds. In meltdown a pending SCRAM is dropped:
    /// nothing can save a meltdown.
    pub fn begin_tick(&mut self) -> (m: TickMode)
        ensures
            m == (if old(self).current_state() == EnerDState::Meltdown {
                TickMode::MeltdownDecay
            } else if !old(self).is_enabled() {
                TickMode::Idle
            } else {
                TickMode::Active
            }),
            final(self).current_state() == old(self).current_state(),
            final(self).is_enabled() == old(self).is_enabled(),
            final(self).scram_pending() == (old(self).scram_pending() && old(self).current_state()
                != EnerDState::Meltdown),
    {
        if self.state == EnerDState::Meltdown {
            self.scram_requested = false;
            TickMode::MeltdownDecay
        } else if !self.enabled {
            TickMode::Idle
        } else {
            TickMode::Active
        }
    }

    /// Apply the state machine to this tick's readings.
    pub fn transition(&mut self, r: &EnerDReadings) -> (t: EnerDTransition)
        ensures
            final(self).current_state() == enerd_next_state(
                old(self).current_state(),
                old(self).is_enabled(),
                old(self).scram_pending(),
                *r,
            ),
            final(self).scram_pending() == enerd_scram_after(
                old(self).current_state(),
                old(self).scram_pending(),
                *r,
            ),
            final(self).is_enabled() == old(self).is_enabled(),
            t.reset_state_time == enerd_resets_state_time(
                old(self).current_state(),
                old(self).is_enabled(),
                old(self).scram_pending(),
                *r,
            ),
            t.reset_core == scram_applies(old(self).current_state(), old(self).scram_pending()),
            t.decay_spin == (old(self).current_state() == EnerDState::Meltdown),
            t.stable_timer == enerd_stable_timer(
                old(self).current_state(),
                old(self).scram_pending(),
                *r,
            ),
            t.notices@ == enerd_notices(
                old(self).current_state(),
                old(self).is_enabled(),
                old(self).scram_pending(),
                *r,
            ),
    {
        let mut notices: Vec<EnerDNotice> = Vec::new();
        if self.scram_requested && self.state != EnerDState::Meltdown {
            self.state = EnerDState::Dormant;
            self.scram_requested = false;
            notices.push(EnerDNotice::Scram);
            return EnerDTransition {
                reset_state_time: true,
                reset_core: true,
                decay_spin: false,
                stable_timer: StableTimer::Keep,
                notices,
            };
        }
        let mut reset_state_time = false;
        let mut decay_spin = false;
        let mut stable_timer = StableTimer::Keep;
        match self.state {
            EnerDState::Dormant => {
                if r.above_activation_speed && self.enabled {
                    self.state = EnerDState::SpinUp;
                    reset_state_time = true;
                    notices.push(EnerDNotice::SpinUpStarted);
                }
            },
            EnerDState::SpinUp => {
                if r.spin_at_sustain && r.power_covers_parasitic {
                    self.state = EnerDState::Sustaining;
                    reset_state_time = true;
                    notices.push(EnerDNotice::Sustaining);
                } else if r.below_stall_speed {
                    self.state = EnerDState::Dormant;
                    reset_state_time = true;
                } else if r.spinup_timed_out {
                    self.state = EnerDState::Dormant;
                    reset_state_time = true;
                    notices.push(EnerDNotice::SpinUpTimeout);
                }
            },
            EnerDState::Sustaining => {
                if r.spin_above_overdrive && r.power_positive {
                    self.state = EnerDState::Overdrive;
                    reset_state_time = true;
                    notices.push(EnerDNotice::Overdrive);
                } else if r.spin_below_half_sustain {
                    self.state = EnerDState::Dormant;
                    reset_state_time = true;
                }
            },
            EnerDState::Overdrive => {
                if r.containment_below_critical || r.plasma_above_critical
                    || r.power_above_max_safe {
                    self.state = EnerDState::Critical;
                    reset_state_time = true;
                    notices.push(EnerDNotice::Critical);
                } else if r.spin_at_or_below_overdrive {
                    self.state = EnerDState::Sustaining;
                    reset_state_time = true;
                }
            },
            EnerDState::Critical => {
                let mut time_exceeded = r.critical_time_exceeded;
                if r.recovery_window {
                    if r.recovery_time_reached {
                        self.state = EnerDState::Sustaining;
                        reset_state_time = true;
                        time_exceeded = false;
                        stable_timer = StableTimer::Clear;
                        notices.push(EnerDNotice::Recovered);
                    } else {
                        stable_timer = StableTimer::Accumulate;
                    }
                } else {
                    stable_timer = StableTimer::Clear;
                }
                if r.containment_below_meltdown || r.plasma_above_meltdown || time_exceeded {
                    self.state = EnerDState::Meltdown;
                    reset_state_time = true;
                    self.scram_requested = false;
                    notices.push(EnerDNotice::Meltdown);
                }
            },
            EnerDState::Meltdown => {
                decay_spin = true;
            },
        }
        EnerDTransition { reset_state_time, reset_core: false, decay_spin, stable_timer, notices }
    }

    /// Shutting down returns the reactor to dormant.
    pub fn shutdown(&mut self)
        ensures
            final(self).current_state() == EnerDState::Dormant,
            final(self).is_enabled() == old(self).is_enabled(),
            final(self).scram_pending() == old(self).scram_pending(),
    {
        self.state = EnerDState::Dormant;
    }

    /// Critical and meltdown are faults; a dormant reactor that raised codes
    /// this tick is degraded.
    pub fn health(&self, has_dtcs: bool) -> (h: SubsystemHealth)
        ensures
            h == (match self.current_state() {
                EnerDState::Meltdown | EnerDState::Critical => SubsystemHealth::Fault,
                EnerDState::Dormant => if has_dtcs {
                    SubsystemHealth::Degraded
                } else {
                    SubsystemHealth::Nominal
                },
                _ => SubsystemHealth::Nominal,
            }),
    {
        match self.state {
            EnerDState::Meltdown | EnerDState::Critical => SubsystemHealth::Fault,
            EnerDState::Dormant if has_dtcs => SubsystemHealth::Degraded,
            _ => SubsystemHealth::Nominal,
        }
    }
}

/// Which warning levels the reactor's continuous state has reached after a
/// tick's transition, each the outcome of one comparison.
#[derive(Debug, Clone, Copy, PartialEq, Eq, Structural)]
pub struct EnerDWarningLevels {
    /// Containment below 70%.
    pub containment_low: bool,
    /// Plasma temperature above 50 MK.
    pub plasma_elevated: bool,
    /// Spin rate above 90% of the maximum.
    pub spin_near_max: bool,
    /// Net power above 80% of the maximum safe output.
    pub power_near_limit: bool,
}

/// A warning the reactor raises after its transition.
#[derive(Debug, Clone, Copy, PartialEq, Eq, Structural)]
pub enum EnerDWarning {
    ContainmentLow,
    PlasmaElevated,
    SpinNearMax,
    PowerNearLimit,
}

pub open spec fn warning_code(w: EnerDWarning) -> &'static str {
    match w {
        EnerDWarning::ContainmentLow => "P0ED3",
        EnerDWarning::PlasmaElevated => "P0ED4",
        EnerDWarning::SpinNearMax => "P0ED8",
        EnerDWarning::PowerNearLimit => "P0ED9",
    }
}

impl EnerDWarning {
    /// The trouble code the warning is raised as.
    pub fn code(&self) -> (s: &'static str)
        ensures
            s == warning_code(*self),
    {
        match self {
            EnerDWarning::ContainmentLow => "P0ED3",
            EnerDWarning::PlasmaElevated => "P0ED4",
            EnerDWarning::SpinNearMax => "P0ED8",
            EnerDWarning::PowerNearLimit => "P0ED9",
        }
    }

    /// The trouble code raised for the warning, with the given description.
    pub fn to_dtc(&self, description: &str) -> (d: Dtc)
        ensures
            d.code@ == warning_code(*self)@,
            d.description@ == description@,
            d.severity == DtcSeverity::Warning,
            d.source == ComponentId::EnerD,
    {
        Dtc::new(self.code(), description, DtcSeverity::Warning, ComponentId::EnerD)
    }

    /// The severity the warning is raised with.
    pub fn severity(&self) -> (s: DtcSeverity)
        ensures
            s == DtcSeverity::Warning,
    {
        DtcSeverity::Warning
    }
}

/// The warnings raised, in the order they are checked.
pub open spec fn enerd_warning_list(l: EnerDWarningLevels) -> Seq<EnerDWarning> {
    let a: Seq<EnerDWarning> = if l.containment_low {
        seq![EnerDWarning::ContainmentLow]
    } else {
        Seq::empty()
    };
    let b = if l.plasma_elevated {
        a.push(EnerDWarning::PlasmaElevated)
    } else {
        a
    };
    let c = if l.spin_near_max {
        b.push(EnerDWarning::SpinNearMax)
    } else {
        b
    };
    if l.power_near_limit {
        c.push(EnerDWarning::PowerNearLimit)
    } else {
        c
    }
}

pub fn enerd_warnings(l: &EnerDWarningLevels) -> (v: Vec<EnerDWarning>)
    ensures
        v@ == enerd_warning_list(*l),
{
    let mut v: Vec<EnerDWarning> = Vec::new();
    if l.containment_low {
        v.push(EnerDWarning::ContainmentLow);
    }
    if l.plasma_elevated {
        v.push(EnerDWarning::PlasmaElevated);
    }
    if l.spin_near_max {
        v.push(EnerDWarning::SpinNearMax);
    }
    if l.power_near_limit {
        v.push(EnerDWarning::PowerNearLimit);
    }
    v
}

/// The frames a tick publishes: the state's status byte, spin rate in
/// millirad/s, net power in watts, containment in hundredths of a percent,
/// plasma temperature in hundredths of a megakelvin and momentum flux in
/// millinewtons.
pub fn enerd_frames(
    state: EnerDState,
    spin_mrad: i32,
    net_power_w: i32,
    containment_centi_pct: u16,
    plasma_centi_mk: i32,
    flux_mn: i32,
) -> (v: Vec<CanFrame>)
    ensures
        v@.len() == 6,
        is_frame(v@[0], ENERD_STATUS, seq![enerd_state_code(state)]),
        is_frame(v@[1], ENERD_SPIN_RATE, le_bytes_u32(spin_mrad as u32)),
        is_frame(v@[2], ENERD_POWER_OUTPUT, le_bytes_u32(net_power_w as u32)),
        is_frame(v@[3], ENERD_CONTAINMENT, le_bytes_u16(containment_centi_pct)),
        is_frame(v@[4], ENERD_PLASMA_TEMP, le_bytes_u32(plasma_centi_mk as u32)),
        is_frame(v@[5], ENERD_MOMENTUM_FLUX, le_bytes_u32(flux_mn as u32)),
{
    let mut v: Vec<CanFrame> = Vec::new();
    v.push(u8_frame(ENERD_STATUS, state.code()));
    v.push(i32_frame(ENERD_SPIN_RATE, spin_mrad));
    v.push(i32_frame(ENERD_POWER_OUTPUT, net_power_w));
    v.push(u16_frame(ENERD_CONTAINMENT, containment_centi_pct));
    v.push(i32_frame(ENERD_PLASMA_TEMP, plasma_centi_mk));
    v.push(i32_frame(ENERD_MOMENTUM_FLUX, flux_mn));
    v
}

/// Meltdown is terminal: no readings, enable switch or SCRAM request moves a
/// reactor out of it, and no transition raises further codes.
pub proof fn law_meltdown_is_terminal(enabled: bool, scram: bool, r: EnerDReadings)
    ensures
        enerd_next_state(EnerDState::Meltdown, enabled, scram, r) == EnerDState::Meltdown,
        enerd_notices(EnerDState::Meltdown, enabled, scram, r) == Seq::<EnerDNotice>::empty(),
        !enerd_resets_state_time(EnerDState::Meltdown, enabled, scram, r),
{
}

/// A SCRAM returns every non-terminal reactor to dormant, resets its core,
/// raises exactly the SCRAM code and is then no longer pending.
pub proof fn law_scram_returns_to_dormant(s: EnerDState, enabled: bool, r: EnerDReadings)
    requires
        s != EnerDState::Meltdown,
    ensures
        enerd_next_state(s, enabled, true, r) == EnerDState::Dormant,
        scram_applies(s, true),
        enerd_notices(s, enabled, true, r) == seq![EnerDNotice::Scram],
        !enerd_scram_after(s, true, r),
{
}

/// A disabled dormant reactor stays dormant whatever it reads.
pub proof fn law_disabled_stays_dormant(scram: bool, r: EnerDReadings)
    ensures
        enerd_next_state(EnerDState::Dormant, false, scram, r) == EnerDState::Dormant,
{
}

/// Spin-up starts only from dormant, only when enabled and above the
/// activation speed, and only without a pending SCRAM.
pub proof fn law_spin_up_needs_enable_and_speed(
    s: EnerDState,
    enabled: bool,
    scram: bool,
    r: EnerDReadings,
)
    requires
        s != EnerDState::SpinUp,
        enerd_next_state(s, enabled, scram, r) == EnerDState::SpinUp,
    ensures
        s == EnerDState::Dormant,
        enabled,
        r.above_activation_speed,
        !scram,
{
}

/// The reactor escalates one step at a time: it becomes critical only from
/// overdrive and melts down only from critical.
pub proof fn law_escalation_is_stepwise(s: EnerDState, enabled: bool, scram: bool, r: EnerDReadings)
    ensures
        enerd_next_state(s, enabled, scram, r) == EnerDState::Critical ==> (s
            == EnerDState::Overdrive || s == EnerDState::Critical),
        enerd_next_state(s, enabled, scram, r) == EnerDState::Meltdown ==> (s
            == EnerDState::Critical || s == EnerDState::Meltdown),
{
}


/// Overdrive turns critical exactly when containment is below its critical
/// level, the plasma is above its critical temperature or net power exceeds
/// the maximum safe output; that raises exactly the critical code and
/// restarts the time in state. Otherwise it falls back to sustaining once the
/// spin is no longer above the overdrive threshold, raising nothing.
pub proof fn law_overdrive_goes_critical_at_any_limit(enabled: bool, r: EnerDReadings)
    ensures
        (enerd_next_state(EnerDState::Overdrive, enabled, false, r) == EnerDState::Critical) <==> (
        r.containment_below_critical || r.plasma_above_critical || r.power_above_max_safe),
        r.containment_below_critical || r.plasma_above_critical || r.power_above_max_safe ==> {
            &&& enerd_notices(EnerDState::Overdrive, enabled, false, r) == seq![
                EnerDNotice::Critical,
            ]
            &&& enerd_resets_state_time(EnerDState::Overdrive, enabled, false, r)
        },
        !(r.containment_below_critical || r.plasma_above_critical || r.power_above_max_safe) ==> {
            &&& enerd_notices(EnerDState::Overdrive, enabled, false, r).len() == 0
            &&& (enerd_next_state(EnerDState::Overdrive, enabled, false, r)
                == EnerDState::Sustaining) == r.spin_at_or_below_overdrive
            &&& !r.spin_at_or_below_overdrive ==> enerd_next_state(
                EnerDState::Overdrive,
                enabled,
                false,
                r,
            ) == EnerDState::Overdrive
        },
{
}

/// Sustaining enters overdrive exactly when the spin is above the overdrive
/// threshold with positive net power, raising the overdrive code; failing
/// that it goes dormant exactly when the spin fell below half the sustain
/// threshold, silently.
pub proof fn law_sustaining_outcomes(enabled: bool, r: EnerDReadings)
    ensures
        (enerd_next_state(EnerDState::Sustaining, enabled, false, r) == EnerDState::Overdrive)
            <==> (r.spin_above_overdrive && r.power_positive),
        r.spin_above_overdrive && r.power_positive ==> enerd_notices(
            EnerDState::Sustaining,
            enabled,
            false,
            r,
        ) == seq![EnerDNotice::Overdrive],
        !(r.spin_above_overdrive && r.power_positive) ==> {
            &&& enerd_notices(EnerDState::Sustaining, enabled, false, r).len() == 0
            &&& (enerd_next_state(EnerDState::Sustaining, enabled, false, r)
                == EnerDState::Dormant) == r.spin_below_half_sustain
        },
{
}

/// Spin-up reaches sustaining exactly when the spin is at the sustain
/// threshold and net power covers the parasitic load, raising the sustaining
/// code. Otherwise a stall or a timeout returns it to dormant; only a
/// timeout without a stall raises the timeout code.
pub proof fn law_spin_up_outcomes(enabled: bool, r: EnerDReadings)
    ensures
        (enerd_next_state(EnerDState::SpinUp, enabled, false, r) == EnerDState::Sustaining) <==> (
        r.spin_at_sustain && r.power_covers_parasitic),
        r.spin_at_sustain && r.power_covers_parasitic ==> enerd_notices(
            EnerDState::SpinUp,
            enabled,
            false,
            r,
        ) == seq![EnerDNotice::Sustaining],
        !(r.spin_at_sustain && r.power_covers_parasitic) ==> {
            &&& (enerd_next_state(EnerDState::SpinUp, enabled, false, r) == EnerDState::Dormant)
                == (r.below_stall_speed || r.spinup_timed_out)
            &&& !r.below_stall_speed && r.spinup_timed_out ==> enerd_notices(
                EnerDState::SpinUp,
                enabled,
                false,
                r,
            ) == seq![EnerDNotice::SpinUpTimeout]
            &&& !(!r.below_stall_speed && r.spinup_timed_out) ==> enerd_notices(
                EnerDState::SpinUp,
                enabled,
                false,
                r,
            ).len() == 0
        },
{
}

/// A critical reactor melts down exactly when containment falls below its
/// meltdown level, the plasma exceeds its meltdown temperature, or it has
/// been critical too long without completing recovery; meltdown raises the
/// meltdown code last and clears any SCRAM. Otherwise it recovers to
/// sustaining exactly when it has been stable in the recovery window long
/// enough, raising the recovery code.
pub proof fn law_critical_outcomes(enabled: bool, scram: bool, r: EnerDReadings)
    requires
        !scram,
    ensures
        ({
            let recovered = r.recovery_window && r.recovery_time_reached;
            let melt = r.containment_below_meltdown || r.plasma_above_meltdown || (
            r.critical_time_exceeded && !recovered);
            &&& (enerd_next_state(EnerDState::Critical, enabled, scram, r) == EnerDState::Meltdown)
                == melt
            &&& melt ==> enerd_notices(EnerDState::Critical, enabled, scram, r).last()
                == EnerDNotice::Meltdown
            &&& melt ==> !enerd_scram_after(EnerDState::Critical, scram, r)
            &&& !melt ==> (enerd_next_state(EnerDState::Critical, enabled, scram, r)
                == EnerDState::Sustaining) == recovered
            &&& !melt && recovered ==> enerd_notices(EnerDState::Critical, enabled, scram, r)
                == seq![EnerDNotice::Recovered]
            &&& !melt && !recovered ==> enerd_notices(
                EnerDState::Critical,
                enabled,
                scram,
                r,
            ).len() == 0
        }),
{
}


/// An enabled dormant reactor without a pending SCRAM starts spinning up
/// exactly when the vehicle is above the activation speed, and raises the
/// spin-up code when it does.
pub proof fn law_dormant_spins_up_when_moving(r: EnerDReadings)
    ensures
        (enerd_next_state(EnerDState::Dormant, true, false, r) == EnerDState::SpinUp)
            == r.above_activation_speed,
        r.above_activation_speed ==> enerd_notices(EnerDState::Dormant, true, false, r) == seq![
            EnerDNotice::SpinUpStarted,
        ],
        !r.above_activation_speed ==> enerd_notices(EnerDState::Dormant, true, false, r).len()
            == 0,
{
}

} // verus!
