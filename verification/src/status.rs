//! The status with which an addon entry call returns to the host.

use vstd::prelude::*;

verus! {

/// How an addon entry call ended, as the host ABI reports it.
#[derive(Debug, Clone, Copy, PartialEq, Eq, Structural)]
pub enum AddonStatus {
    /// The call produced its value (the host ABI calls this status `Ok`).
    Success,
    /// The call failed with an error value built on the host.
    Error,
    /// The call received the wrong number of arguments.
    ArityMismatch,
    /// The host handle was missing or unusable.
    InvalidState,
    /// An argument could not be borrowed.
    NullPointer,
    /// An argument had a type the entry does not accept.
    UnsupportedValue,
}

} // verus!
