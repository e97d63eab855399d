//! Diagnostics: trouble-code bookkeeping and the OBD-II responder's protocol.

pub mod dtc_manager;
pub mod obd;
