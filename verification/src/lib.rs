//! The decision logic of the `IsTerminal` entry of the Taida terminal addon:
//! which standard stream a name denotes, which descriptor that stream has,
//! and how one call of the entry moves from its arguments to its status.

pub mod call;
pub mod err;
pub mod status;
pub mod stream;

pub use call::{ArgumentRead, CallAction, CallEvent, CallPhase, step};
pub use status::AddonStatus;
pub use stream::{StreamKind, parse_stream_kind, stream_fd};
