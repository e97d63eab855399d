use vstd::prelude::*;

verus! {

#[derive(Debug, Clone, Copy, PartialEq, Eq, Structural)]
pub enum BmsState {
    Standby,
    Precharging,
    Active,
    Charging,
    Balancing,
    Fault,
    SafeState,
}

/// The name a battery state is shown under.
pub open spec fn bms_state_label(s: BmsState) -> &'static str {
    match s {
        BmsState::Standby => "STANDBY",
        BmsState::Precharging => "PRECHARGING",
        BmsState::Active => "ACTIVE",
        BmsState::Charging => "CHARGING",
        BmsState::Balancing => "BALANCING",
        BmsState::Fault => "FAULT",
        BmsState::SafeState => "SAFE_STATE",
    }
}

impl BmsState {
    /// The name the state is shown under, e.g. `ACTIVE`.
    pub fn label(&self) -> (s: &'static str)
        ensures
            s == bms_state_label(*self),
    {
        match self {
            BmsState::Standby => "STANDBY",
            BmsState::Precharging => "PRECHARGING",
            BmsState::Active => "ACTIVE",
            BmsState::Charging => "CHARGING",
            BmsState::Balancing => "BALANCING",
            BmsState::Fault => "FAULT",
            BmsState::SafeState => "SAFE_STATE",
        }
    }
}

} // verus!
