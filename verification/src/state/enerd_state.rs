use vstd::prelude::*;

verus! {

#[derive(Debug, Clone, Copy, PartialEq, Eq, Structural)]
pub enum EnerDState {
    Dormant,
    SpinUp,
    Sustaining,
    Overdrive,
    Critical,
    Meltdown,
}

/// The name a reactor state is shown under.
pub open spec fn enerd_state_label(s: EnerDState) -> &'static str {
    match s {
        EnerDState::Dormant => "DORMANT",
        EnerDState::SpinUp => "SPIN_UP",
        EnerDState::Sustaining => "SUSTAINING",
        EnerDState::Overdrive => "OVERDRIVE",
        EnerDState::Critical => "CRITICAL",
        EnerDState::Meltdown => "MELTDOWN",
    }
}

/// The status byte a reactor state is published as.
pub open spec fn enerd_state_code(s: EnerDState) -> u8 {
    match s {
        EnerDState::Dormant => 0,
        EnerDState::SpinUp => 1,
        EnerDState::Sustaining => 2,
        EnerDState::Overdrive => 3,
        EnerDState::Critical => 4,
        EnerDState::Meltdown => 5,
    }
}

impl EnerDState {
    /// The name the state is shown under, e.g. `SUSTAINING`.
    pub fn label(&self) -> (s: &'static str)
        ensures
            s == enerd_state_label(*self),
    {
        match self {
            EnerDState::Dormant => "DORMANT",
            EnerDState::SpinUp => "SPIN_UP",
            EnerDState::Sustaining => "SUSTAINING",
            EnerDState::Overdrive => "OVERDRIVE",
            EnerDState::Critical => "CRITICAL",
            EnerDState::Meltdown => "MELTDOWN",
        }
    }

    /// The status byte the state is published as.
    pub fn code(&self) -> (b: u8)
        ensures
            b == enerd_state_code(*self),
    {
        match self {
            EnerDState::Dormant => 0,
            EnerDState::SpinUp => 1,
            EnerDState::Sustaining => 2,
            EnerDState::Overdrive => 3,
            EnerDState::Critical => 4,
            EnerDState::Meltdown => 5,
        }
    }
}

} // verus!
