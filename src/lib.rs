//! Driver for a USB optical-media changer ("spindle") whose commands ride on
//! string descriptor requests.
//!
//! The library decides; the caller moves bytes. Each operation on a spindle is
//! a [`Session`]: the caller opens a transport handle, issues the session's
//! commands one at a time as control transfers, hands back what each read,
//! and closes the handle when the session has no command left.
pub mod error;
pub mod status;
pub mod protocol;
pub mod session;
pub mod device;
pub mod commands;
pub mod laws;

pub use commands::{cmd_close, cmd_open, cmd_reset};
pub use device::{devices, is_spindle, Dacal, Probe};
pub use error::{SpindleError, TransportError};
pub use protocol::{control_request, ControlRequest};
pub use session::Session;
pub use status::DacalStatus;
