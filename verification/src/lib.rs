//! Host-side core of a driver for a motion-sensing game controller reached
//! over a short-range radio link: session lifecycle decisions, feature and
//! report negotiation, fixed-layout binary report decoding, and the error
//! channel that correlates the transport's asynchronous diagnostics with
//! synchronous calls. The radio transport itself (discovery, pairing, raw
//! I/O) is an outside collaborator consumed through the command values and
//! decision functions this crate defines.

pub mod bitmask;
pub mod bluetooth;
pub mod error;
pub mod report;
pub mod result_extensions;
pub mod session;
pub mod state_enums;

pub use report::WiiMoteState;
pub use session::{Command, WiiMote};
