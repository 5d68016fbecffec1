//! Memory management errors.
use vstd::prelude::*;

verus! {

/// An error of the memory management, with a message.
#[derive(Debug)]
pub struct MemoryError {
    kind: MemErrorKind,
    msg: String,
}

/// The kinds of memory management errors.
#[derive(Debug, Clone, Copy, PartialEq, Eq, Structural)]
pub enum MemErrorKind {
    NotAligned,
    PageTableIndexNotMatch,
    FrameNotMatch,
}

impl MemoryError {
    /// The kind of the error.
    pub closed spec fn kind(&self) -> MemErrorKind {
        self.kind
    }

    /// The message of the error.
    pub closed spec fn msg(&self) -> Seq<char> {
        self.msg@
    }

    /// Create an error of `kind` with the message `msg`.
    pub fn new(kind: MemErrorKind, msg: String) -> (r: Self)
        ensures
            r.kind() == kind,
            r.msg() == msg@,
    {
        MemoryError { kind, msg }
    }

    /// The kind of the error.
    pub fn get_kind(&self) -> (r: MemErrorKind)
        ensures
            r == self.kind(),
    {
        self.kind
    }

    /// The text shown for the error: its message, whatever its kind.
    pub fn display(&self) -> (r: String)
        ensures
            r@ == self.msg(),
    {
        match self.kind {
            MemErrorKind::NotAligned => self.msg.clone(),
            MemErrorKind::PageTableIndexNotMatch => self.msg.clone(),
            MemErrorKind::FrameNotMatch => self.msg.clone(),
        }
    }
}

} // verus!
