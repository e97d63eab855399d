use vstd::prelude::*;

use crate::state::gear::Gear;

verus! {

/// Top-level vehicle state.
#[derive(Debug, Clone, Copy, PartialEq, Eq, Structural)]
pub enum VehicleState {
    Off,
    Accessory,
    Ready,
    Driving,
    Charging,
    Fault,
    SafeState,
}

/// The name a vehicle state is shown under.
pub open spec fn vehicle_state_label(s: VehicleState) -> &'static str {
    match s {
        VehicleState::Off => "OFF",
        VehicleState::Accessory => "ACCESSORY",
        VehicleState::Ready => "READY",
        VehicleState::Driving => "DRIVING",
        VehicleState::Charging => "CHARGING",
        VehicleState::Fault => "FAULT",
        VehicleState::SafeState => "SAFE_STATE",
    }
}

impl VehicleState {
    /// The name the state is shown under, e.g. `DRIVING`.
    pub fn label(&self) -> (s: &'static str)
        ensures
            s == vehicle_state_label(*self),
    {
        match self {
            VehicleState::Off => "OFF",
            VehicleState::Accessory => "ACCESSORY",
            VehicleState::Ready => "READY",
            VehicleState::Driving => "DRIVING",
            VehicleState::Charging => "CHARGING",
            VehicleState::Fault => "FAULT",
            VehicleState::SafeState => "SAFE_STATE",
        }
    }
}

/// Events that drive vehicle state transitions. Pedal positions are given in
/// thousandths of full travel (500 is half way); the state machine does not
/// read them.
#[derive(Debug, Clone, PartialEq)]
pub enum VehicleEvent {
    KeyToAccessory,
    KeyToStart,
    KeyOff,
    ThrottleApplied(u16),
    ThrottleReleased,
    BrakeApplied(u16),
    BrakeReleased,
    GearShift(Gear),
    ChargerConnected,
    ChargerDisconnected,
    ChargingComplete,
    FaultDetected(String),
    FaultCleared,
    EmergencyStop,
    EmergencyReset,
    SystemsReady,
}

/// The state and gear after an event, from the state and gear before it.
pub open spec fn vehicle_step(state: VehicleState, gear: Gear, event: VehicleEvent) -> (
    VehicleState,
    Gear,
) {
    match (state, event) {
        (VehicleState::Off, VehicleEvent::KeyToAccessory) => (VehicleState::Accessory, gear),
        (VehicleState::Accessory, VehicleEvent::KeyToStart) => (VehicleState::Ready, gear),
        (VehicleState::Accessory, VehicleEvent::KeyOff) => (VehicleState::Off, gear),
        (VehicleState::Accessory, VehicleEvent::ChargerConnected) => (VehicleState::Charging, gear),
        (VehicleState::Ready, VehicleEvent::ThrottleApplied(_)) if gear == Gear::Drive || gear
            == Gear::Reverse => (VehicleState::Driving, gear),
        (VehicleState::Ready, VehicleEvent::GearShift(g)) => (VehicleState::Ready, g),
        (VehicleState::Ready, VehicleEvent::KeyOff) => (VehicleState::Off, gear),
        (VehicleState::Ready, VehicleEvent::ChargerConnected) => (VehicleState::Charging, gear),
        (VehicleState::Driving, VehicleEvent::ThrottleReleased) if gear == Gear::Park || gear
            == Gear::Neutral => (VehicleState::Ready, gear),
        (VehicleState::Driving, VehicleEvent::GearShift(Gear::Park)) => (
            VehicleState::Ready,
            Gear::Park,
        ),
        (VehicleState::Driving, VehicleEvent::GearShift(g)) => (VehicleState::Driving, g),
        (VehicleState::Charging, VehicleEvent::ChargerDisconnected) => (
            VehicleState::Accessory,
            gear,
        ),
        (VehicleState::Charging, VehicleEvent::ChargingComplete) => (VehicleState::Accessory, gear),
        (_, VehicleEvent::FaultDetected(_)) => (VehicleState::Fault, gear),
        (_, VehicleEvent::EmergencyStop) => (VehicleState::SafeState, gear),
        (VehicleState::Fault, VehicleEvent::FaultCleared) => (VehicleState::Accessory, gear),
        (VehicleState::SafeState, VehicleEvent::EmergencyReset) => (VehicleState::Off, gear),
        _ => (state, gear),
    }
}

/// Vehicle finite state machine.
pub struct VehicleFsm {
    state: VehicleState,
    gear: Gear,
}

impl VehicleFsm {
    /// The vehicle never drives with the gear in park.
    #[verifier::type_invariant]
    spec fn not_driving_in_park(self) -> bool {
        self.state == VehicleState::Driving ==> self.gear != Gear::Park
    }

    pub closed spec fn current_state(&self) -> VehicleState {
        self.state
    }

    pub closed spec fn current_gear(&self) -> Gear {
        self.gear
    }

    /// A vehicle that is off, in park.
    pub fn new() -> (fsm: VehicleFsm)
        ensures
            fsm.current_state() == VehicleState::Off,
            fsm.current_gear() == Gear::Park,
    {
        VehicleFsm { state: VehicleState::Off, gear: Gear::Park }
    }

    pub fn state(&self) -> (s: VehicleState)
        ensures
            s == self.current_state(),
            s == VehicleState::Driving ==> self.current_gear() != Gear::Park,
    {
        proof {
            use_type_invariant(self);
        }
        self.state
    }

    pub fn gear(&self) -> (g: Gear)
        ensures
            g == self.current_gear(),
            self.current_state() == VehicleState::Driving ==> g != Gear::Park,
    {
        proof {
            use_type_invariant(self);
        }
        self.gear
    }

    /// Process an event and return the new state.
    pub fn on_event(&mut self, event: &VehicleEvent) -> (s: VehicleState)
        ensures
            (final(self).current_state(), final(self).current_gear()) == vehicle_step(
                old(self).current_state(),
                old(self).current_gear(),
                *event,
            ),
            s == final(self).current_state(),
            s == VehicleState::Driving ==> final(self).current_gear() != Gear::Park,
    {
        proof {
            use_type_invariant(&*self);
        }
        let gear = self.gear;
        let (state, new_gear) = match (self.state, event) {
            (VehicleState::Off, VehicleEvent::KeyToAccessory) => (VehicleState::Accessory, gear),
            (VehicleState::Accessory, VehicleEvent::KeyToStart) => (VehicleState::Ready, gear),
            (VehicleState::Accessory, VehicleEvent::KeyOff) => (VehicleState::Off, gear),
            (VehicleState::Accessory, VehicleEvent::ChargerConnected) => (
                VehicleState::Charging,
                gear,
            ),
            (VehicleState::Ready, VehicleEvent::ThrottleApplied(_)) if gear == Gear::Drive || gear
                == Gear::Reverse => (VehicleState::Driving, gear),
            (VehicleState::Ready, VehicleEvent::GearShift(g)) => (VehicleState::Ready, *g),
            (VehicleState::Ready, VehicleEvent::KeyOff) => (VehicleState::Off, gear),
            (VehicleState::Ready, VehicleEvent::ChargerConnected) => (VehicleState::Charging, gear),
            (VehicleState::Driving, VehicleEvent::ThrottleReleased) if gear == Gear::Park || gear
                == Gear::Neutral => (VehicleState::Ready, gear),
            (VehicleState::Driving, VehicleEvent::GearShift(Gear::Park)) => (
                VehicleState::Ready,
                Gear::Park,
            ),
            (VehicleState::Driving, VehicleEvent::GearShift(g)) => (VehicleState::Driving, *g),
            (VehicleState::Charging, VehicleEvent::ChargerDisconnected) => (
                VehicleState::Accessory,
                gear,
            ),
            (VehicleState::Charging, VehicleEvent::ChargingComplete) => (
                VehicleState::Accessory,
                gear,
            ),
            (_, VehicleEvent::FaultDetected(_)) => (VehicleState::Fault, gear),
            (_, VehicleEvent::EmergencyStop) => (VehicleState::SafeState, gear),
            (VehicleState::Fault, VehicleEvent::FaultCleared) => (VehicleState::Accessory, gear),
            (VehicleState::SafeState, VehicleEvent::EmergencyReset) => (VehicleState::Off, gear),
            _ => (self.state, gear),
        };
        self.state = state;
        self.gear = new_gear;
        state
    }
}

/// An emergency stop puts the vehicle into its safe state from every state.
pub proof fn law_emergency_stop_from_any_state(state: VehicleState, gear: Gear)
    ensures
        vehicle_step(state, gear, VehicleEvent::EmergencyStop) == (VehicleState::SafeState, gear),
{
}

/// A detected fault puts the vehicle into its fault state from every state.
pub proof fn law_fault_from_any_state(state: VehicleState, gear: Gear, reason: String)
    ensures
        vehicle_step(state, gear, VehicleEvent::FaultDetected(reason)) == (VehicleState::Fault, gear),
{
}

/// Every event keeps the vehicle out of "driving in park".
pub proof fn law_never_driving_in_park(state: VehicleState, gear: Gear, event: VehicleEvent)
    requires
        state == VehicleState::Driving ==> gear != Gear::Park,
    ensures
        vehicle_step(state, gear, event).0 == VehicleState::Driving ==> vehicle_step(
            state,
            gear,
            event,
        ).1 != Gear::Park,
{
}

/// Only a gear shift changes the gear.
pub proof fn law_gear_changes_only_on_shift(state: VehicleState, gear: Gear, event: VehicleEvent)
    requires
        !(event is GearShift),
    ensures
        vehicle_step(state, gear, event).1 == gear,
{
}

/// Throttle moves a ready vehicle into driving exactly when it is in drive or
/// reverse.
pub proof fn law_throttle_drives_only_in_gear(gear: Gear, pedal: u16)
    ensures
        (vehicle_step(VehicleState::Ready, gear, VehicleEvent::ThrottleApplied(pedal)).0
            == VehicleState::Driving) <==> (gear == Gear::Drive || gear == Gear::Reverse),
{
}

/// The safe state is left only by an emergency reset (to off) or a detected
/// fault.
pub proof fn law_safe_state_is_left_only_by_reset_or_fault(gear: Gear, event: VehicleEvent)
    ensures
        vehicle_step(VehicleState::SafeState, gear, event).0 == (match event {
            VehicleEvent::EmergencyReset => VehicleState::Off,
            VehicleEvent::FaultDetected(_) => VehicleState::Fault,
            _ => VehicleState::SafeState,
        }),
{
}

/// Brake pedal events never change the state or the gear.
pub proof fn law_brake_events_change_nothing(state: VehicleState, gear: Gear, pedal: u16)
    ensures
        vehicle_step(state, gear, VehicleEvent::BrakeApplied(pedal)) == (state, gear),
        vehicle_step(state, gear, VehicleEvent::BrakeReleased) == (state, gear),
{
}


/// Turning the key off switches the vehicle off from accessory and ready (and
/// an off vehicle stays off); in every other state the key is ignored. The
/// gear is kept.
pub proof fn law_key_off_switches_off(state: VehicleState, gear: Gear)
    ensures
        vehicle_step(state, gear, VehicleEvent::KeyOff).1 == gear,
        (vehicle_step(state, gear, VehicleEvent::KeyOff).0 == VehicleState::Off) <==> (state
            == VehicleState::Off || state == VehicleState::Accessory || state
            == VehicleState::Ready),
        !(state == VehicleState::Accessory || state == VehicleState::Ready) ==> vehicle_step(
            state,
            gear,
            VehicleEvent::KeyOff,
        ).0 == state,
{
}

/// A key cycle from off — accessory, start, key off — ends off with the
/// gear it began with, passing through accessory and ready.
pub proof fn law_key_cycle_returns_off(gear: Gear)
    ensures
        ({
            let a = vehicle_step(VehicleState::Off, gear, VehicleEvent::KeyToAccessory);
            let b = vehicle_step(a.0, a.1, VehicleEvent::KeyToStart);
            let c = vehicle_step(b.0, b.1, VehicleEvent::KeyOff);
            &&& a == (VehicleState::Accessory, gear)
            &&& b == (VehicleState::Ready, gear)
            &&& c == (VehicleState::Off, gear)
        }),
{
}

/// Charging is entered only from accessory or ready when a charger is
/// connected, and a disconnected charger or a completed charge returns the
/// vehicle to accessory.
pub proof fn law_charging_flow(state: VehicleState, gear: Gear, event: VehicleEvent)
    ensures
        state != VehicleState::Charging && vehicle_step(state, gear, event).0
            == VehicleState::Charging ==> event == VehicleEvent::ChargerConnected && (state
            == VehicleState::Accessory || state == VehicleState::Ready),
        (state == VehicleState::Accessory || state == VehicleState::Ready) ==> vehicle_step(
            state,
            gear,
            VehicleEvent::ChargerConnected,
        ) == (VehicleState::Charging, gear),
        vehicle_step(VehicleState::Charging, gear, VehicleEvent::ChargerDisconnected) == (
            VehicleState::Accessory,
            gear,
        ),
        vehicle_step(VehicleState::Charging, gear, VehicleEvent::ChargingComplete) == (
            VehicleState::Accessory,
            gear,
        ),
{
}

/// A cleared fault returns a faulted vehicle to accessory; a shift into park
/// while driving stops driving.
pub proof fn law_fault_clear_and_park(gear: Gear)
    ensures
        vehicle_step(VehicleState::Fault, gear, VehicleEvent::FaultCleared) == (
            VehicleState::Accessory,
            gear,
        ),
        vehicle_step(VehicleState::Driving, gear, VehicleEvent::GearShift(Gear::Park)) == (
            VehicleState::Ready,
            Gear::Park,
        ),
{
}

} // verus!
