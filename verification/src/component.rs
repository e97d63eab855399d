use vstd::prelude::*;

verus! {

/// Identifies a component/subsystem in the vehicle.
#[derive(Debug, Clone, Copy, PartialEq, Eq, Structural, Hash)]
pub enum ComponentId {
    Bms,
    Motor,
    Thermal,
    Vehicle,
    Scheduler,
    Diagnostics,
    Physics,
    EnerD,
}

/// The name a component is shown under.
pub open spec fn component_label(c: ComponentId) -> &'static str {
    match c {
        ComponentId::Bms => "BMS",
        ComponentId::Motor => "MOTOR",
        ComponentId::Thermal => "THERMAL",
        ComponentId::Vehicle => "VEHICLE",
        ComponentId::Scheduler => "SCHEDULER",
        ComponentId::Diagnostics => "DIAGNOSTICS",
        ComponentId::Physics => "PHYSICS",
        ComponentId::EnerD => "ENER-D",
    }
}

impl ComponentId {
    /// The name the component is shown under, e.g. `BMS`.
    pub fn label(&self) -> (s: &'static str)
        ensures
            s == component_label(*self),
    {
        match self {
            ComponentId::Bms => "BMS",
            ComponentId::Motor => "MOTOR",
            ComponentId::Thermal => "THERMAL",
            ComponentId::Vehicle => "VEHICLE",
            ComponentId::Scheduler => "SCHEDULER",
            ComponentId::Diagnostics => "DIAGNOSTICS",
            ComponentId::Physics => "PHYSICS",
            ComponentId::EnerD => "ENER-D",
        }
    }
}

} // verus!
