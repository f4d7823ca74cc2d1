//! What can go wrong inside the runtime.
use crate::text::{decimal, push_decimal};
use vstd::prelude::*;

verus! {

/// A failure allocating on, or computing with, a device.
#[derive(Debug)]
pub enum Error {
    /// No backend of the requested kind could be initialised.
    ///
    /// Ordinary rather than exceptional: a machine without a GPU reports
    /// this and the caller falls back to the CPU, which is always available.
    BackendUnavailable {
        /// Which backend was asked for.
        kind: &'static str,
    },
    /// A device allocation failed.
    Allocation {
        /// Bytes that could not be allocated.
        bytes: usize,
    },
    /// Two tensors could not take part in an operation together.
    ShapeMismatch {
        /// What the operation required.
        expected: String,
        /// What it was given.
        actual: String,
    },
    /// The runtime refused an operation and said why.
    Runtime {
        /// The operation that failed.
        op: &'static str,
        /// What went wrong.
        reason: String,
    },
}

/// The human-readable rendering of an error.
pub open spec fn error_text(e: &Error) -> Seq<char> {
    match e {
        Error::BackendUnavailable { kind } => "no "@ + kind@ + " backend is available in this build"@,
        Error::Allocation { bytes } => "could not allocate "@ + decimal(*bytes as nat)
            + " bytes on the device"@,
        Error::ShapeMismatch { expected, actual } => "shape mismatch: expected "@ + expected@
            + ", got "@ + actual@,
        Error::Runtime { op, reason } => op@ + " failed: "@ + reason@,
    }
}

impl Error {
    /// The human-readable rendering of this error.
    pub fn to_string(&self) -> (s: String)
        ensures
            s@ == error_text(self),
    {
        match self {
            Error::BackendUnavailable { kind } => {
                let mut s = String::from_str("no ");
                s.append(kind);
                s.append(" backend is available in this build");
                s
            },
            Error::Allocation { bytes } => {
                let mut s = String::from_str("could not allocate ");
                push_decimal(&mut s, *bytes);
                s.append(" bytes on the device");
                s
            },
            Error::ShapeMismatch { expected, actual } => {
                let mut s = String::from_str("shape mismatch: expected ");
                s.append(expected.as_str());
                s.append(", got ");
                s.append(actual.as_str());
                s
            },
            Error::Runtime { op, reason } => {
                let mut s = String::from_str(op);
                s.append(" failed: ");
                s.append(reason.as_str());
                s
            },
        }
    }
}

/// A number followed by a unit, such as `12 floats`.
pub fn count_of(n: usize, unit: &str) -> (s: String)
    ensures
        s@ == decimal(n as nat) + unit@,
{
    let mut s = String::new();
    push_decimal(&mut s, n);
    s.append(unit);
    s
}

/// A number in base ten.
pub fn number(n: usize) -> (s: String)
    ensures
        s@ == decimal(n as nat),
{
    crate::text::decimal_string(n)
}

} // verus!
