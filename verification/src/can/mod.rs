//! CAN identifiers, frames, acceptance filters, payload layouts and the
//! identifiers used on the vehicle bus.

pub mod codec;
pub mod filter;
pub mod frame;
pub mod id_order;
pub mod log;
pub mod well_known;
