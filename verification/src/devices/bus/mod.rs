//! Buses of the machine.
pub mod pic;
