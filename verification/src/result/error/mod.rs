//! Errors of the kernel's subsystems.
pub mod mem;
