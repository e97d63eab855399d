//! Vehicle software stack: CAN framing and filtering, vehicle and subsystem
//! state machines, diagnostics, scheduling and scripted drive scenarios.

pub mod can;
pub mod clock;
pub mod component;
pub mod diagnostics;
pub mod dtc;
pub mod error;
pub mod hal;
pub mod scheduler;
pub mod sim;
pub mod state;
pub mod subsystems;
mod time;

pub use can::filter::CanFilter;
pub use can::frame::{CanFrame, CanId};
pub use can::well_known;
pub use component::ComponentId;
pub use dtc::{Dtc, DtcSeverity};
pub use error::PpeError;
pub use state::bms_state::BmsState;
pub use state::enerd_state::EnerDState;
pub use state::gear::Gear;
pub use state::motor_state::MotorState;
pub use state::vehicle::{VehicleEvent, VehicleFsm, VehicleState};
pub use subsystems::subsystem::{Subsystem, SubsystemHealth};
pub use diagnostics::dtc_manager::{encode_dtc_code, DtcManager};
pub use clock::SimClock;
pub use scheduler::watchdog::{Watchdog, WatchdogKicker};
pub use scheduler::edf::EdfTable;
pub use sim::scenario::{Scenario, ScenarioKind, ScenarioStep};
pub use can::log::CanLog;
pub use hal::{Actuator, ContactorCommand, Sensor};
