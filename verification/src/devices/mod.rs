//! Devices of the machine.
pub mod bus;
