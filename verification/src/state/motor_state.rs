use vstd::prelude::*;

verus! {

#[derive(Debug, Clone, Copy, PartialEq, Eq, Structural)]
pub enum MotorState {
    Disabled,
    Initializing,
    Ready,
    Running,
    Regenerating,
    Derating,
    Fault,
}

/// The name a motor state is shown under.
pub open spec fn motor_state_label(s: MotorState) -> &'static str {
    match s {
        MotorState::Disabled => "DISABLED",
        MotorState::Initializing => "INITIALIZING",
        MotorState::Ready => "READY",
        MotorState::Running => "RUNNING",
        MotorState::Regenerating => "REGENERATING",
        MotorState::Derating => "DERATING",
        MotorState::Fault => "FAULT",
    }
}

/// The status byte a motor state is published as: its position in the
/// declaration order.
pub open spec fn motor_state_code(s: MotorState) -> u8 {
    match s {
        MotorState::Disabled => 0,
        MotorState::Initializing => 1,
        MotorState::Ready => 2,
        MotorState::Running => 3,
        MotorState::Regenerating => 4,
        MotorState::Derating => 5,
        MotorState::Fault => 6,
    }
}

impl MotorState {
    /// The name the state is shown under, e.g. `RUNNING`.
    pub fn label(&self) -> (s: &'static str)
        ensures
            s == motor_state_label(*self),
    {
        match self {
            MotorState::Disabled => "DISABLED",
            MotorState::Initializing => "INITIALIZING",
            MotorState::Ready => "READY",
            MotorState::Running => "RUNNING",
            MotorState::Regenerating => "REGENERATING",
            MotorState::Derating => "DERATING",
            MotorState::Fault => "FAULT",
        }
    }

    /// The status byte the state is published as.
    pub fn code(&self) -> (b: u8)
        ensures
            b == motor_state_code(*self),
    {
        match self {
            MotorState::Disabled => 0,
            MotorState::Initializing => 1,
            MotorState::Ready => 2,
            MotorState::Running => 3,
            MotorState::Regenerating => 4,
            MotorState::Derating => 5,
            MotorState::Fault => 6,
        }
    }
}

} // verus!
