//! A verified model of a single-owner terminal session.
//!
//! The library governs exclusive access to an interactive console: at most one
//! session may be active in a process, the terminal mode is switched exactly
//! once on acquisition, and the original mode is restored exactly once per
//! session, whether the session ends normally or a process-wide fault hook
//! intervenes during unwinding.
//!
//! The external console-control primitives (mode switching, drawing, raw
//! input reads) are opaque to the library: every primitive call a session
//! decides to make is recorded as a [`Command`], and the raw integer results
//! of the input primitives are handed in as plain values. A thin unverified
//! shell performs the recorded commands against the real device.

pub mod color;
pub mod error;
pub mod key;
pub mod session;

pub use color::Color;
pub use error::ConsoleError;
pub use key::Key;
pub use session::Command;
pub use session::Console;
pub use session::ConsoleHost;
pub use session::HostState;
