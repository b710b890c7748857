//! Error codes that the `IsTerminal` entry reports to the host. They are part
//! of the addon's ABI and never change.

use vstd::prelude::*;

verus! {

/// The caller passed a stream name other than `stdin`, `stdout`, or `stderr`.
pub const IS_TERMINAL_INVALID_STREAM: u32 = 2101;

/// The addon could not allocate the return Bool on the host.
pub const IS_TERMINAL_BUILD_VALUE: u32 = 2102;

} // verus!
