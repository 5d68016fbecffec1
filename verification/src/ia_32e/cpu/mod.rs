//! The 8259A and 8253 chips and the processor's model specific and control registers.



pub mod apic;
pub mod pic;
pub mod timer;
pub mod msr;
pub mod control;


pub use pic::ChainedPics;

use vstd::prelude::*;

verus! {

/// A byte written to an I/O port.
#[derive(Clone, Copy, Debug, PartialEq, Eq, Structural)]
pub struct PortWrite {
    /// The port.
    pub port: u16,
    /// The byte.
    pub value: u8,
}

/// A step of a conversation with the 8259A chips: a byte written to a port, or a short wait
/// (a write of a 32-bit zero to the unused port 0x80) that gives an older chip time.
#[derive(Clone, Copy, Debug, PartialEq, Eq, Structural)]
pub enum PicCommand {
    Write(PortWrite),
    Wait,
}

/// The step that writes `value` to `port`.
pub open spec fn write_cmd(port: u16, value: u8) -> PicCommand {
    PicCommand::Write(PortWrite { port, value })
}

} // verus!
