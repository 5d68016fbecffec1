//! The kernel's error type and its kinds.
pub mod error;

pub use error::mem::{MemErrorKind, MemoryError};
use vstd::prelude::*;

verus! {

/// The kernel's result type.
pub type Result<T> = core::result::Result<T, Error>;

/// Unwrapping of results that carry the kernel's error.
pub trait ResultEx<T>: Sized {
    /// Whether the value holds a success.
    spec fn succeeds(&self) -> bool;

    /// The success value; only a success may be unwrapped.
    fn unwrap(self) -> (r: T)
        requires
            self.succeeds(),
    ;
}

/// An error of the kernel: a memory, process or device error.
#[derive(Debug)]
pub struct Error {
    repr: Repr,
}

/// The kinds of process errors.
#[derive(Debug, Copy, Clone, PartialEq, Eq, Structural)]
pub enum ProcessErrorKind {
    TryAgain,
    CrateNewProcessFailed,
}

/// The kinds of device errors.
#[derive(Debug, Copy, Clone, PartialEq, Eq, Structural)]
pub enum DevicesErrorKind {
    NotSupport,
}

impl Error {
    /// What the error holds.
    pub closed spec fn repr(&self) -> Repr {
        self.repr
    }

    /// What the error holds.
    pub fn as_repr(&self) -> (r: &Repr)
        ensures
            *r == self.repr(),
    {
        &self.repr
    }

    /// A memory error of `kind` with the message `msg`.
    pub fn new_memory(kind: MemErrorKind, msg: String) -> (r: Self)
        ensures
            r.repr() matches Repr::Memory(m) && m.kind() == kind && m.msg() == msg@,
    {
        Error { repr: Repr::Memory(MemoryError::new(kind, msg)) }
    }

    /// A process error of `kind` with the message `msg`.
    pub fn new_process(kind: ProcessErrorKind, msg: Option<String>) -> (r: Self)
        ensures
            r.repr() matches Repr::Process(p) && p.no() == process_error_no(kind) && p.msg()
                == msg,
    {
        Error { repr: Repr::Process(ProcessError::new(kind, msg)) }
    }

    /// A device error of `kind` with the message `msg`.
    pub fn new_devices(kind: DevicesErrorKind, msg: Option<String>) -> (r: Self)
        ensures
            r.repr() matches Repr::Devices(d) && d.kind() == kind && d.msg() == msg,
    {
        Error { repr: Repr::Devices(DevicesError::new(kind, msg)) }
    }
}

impl<T> ResultEx<T> for Result<T> {
    open spec fn succeeds(&self) -> bool {
        self is Ok
    }

    fn unwrap(self) -> (r: T)
        ensures
            self == Ok::<T, Error>(r),
    {
        match self {
            Ok(t) => t,
            Err(_) => vstd::pervasive::unreached(),
        }
    }
}

/// What an error holds.
#[derive(Debug)]
pub enum Repr {
    Memory(MemoryError),
    Process(ProcessError),
    Devices(DevicesError),
}

/// A device error, with an optional message.
#[derive(Debug)]
pub struct DevicesError {
    msg: Option<String>,
    kind: DevicesErrorKind,
}

impl DevicesError {
    /// The kind of the error.
    pub closed spec fn kind(&self) -> DevicesErrorKind {
        self.kind
    }

    /// The message of the error.
    pub closed spec fn msg(&self) -> Option<String> {
        self.msg
    }

    /// A device error of `kind` with the message `msg`.
    pub fn new(kind: DevicesErrorKind, msg: Option<String>) -> (r: Self)
        ensures
            r.kind() == kind,
            r.msg() == msg,
    {
        Self { msg, kind }
    }
}

/// The error number of a process error kind.
pub open spec fn process_error_no(kind: ProcessErrorKind) -> isize {
    match kind {
        ProcessErrorKind::TryAgain => 11,
        ProcessErrorKind::CrateNewProcessFailed => 12,
    }
}

/// A process error: an error number and an optional message.
#[derive(Debug)]
pub struct ProcessError {
    msg: Option<String>,
    no: isize,
}

impl ProcessError {
    /// The error number.
    pub closed spec fn no(&self) -> isize {
        self.no
    }

    /// The message of the error.
    pub closed spec fn msg(&self) -> Option<String> {
        self.msg
    }

    /// A process error of `kind`: error number 11 for `TryAgain`, 12 for
    /// `CrateNewProcessFailed`.
    pub fn new(kind: ProcessErrorKind, msg: Option<String>) -> (r: Self)
        ensures
            r.no() == process_error_no(kind),
            r.msg() == msg,
    {
        Self {
            msg,
            no: match kind {
                ProcessErrorKind::TryAgain => 11,
                ProcessErrorKind::CrateNewProcessFailed => 12,
            },
        }
    }

}

} // verus!
