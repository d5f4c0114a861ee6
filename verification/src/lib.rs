//! Verified core of a remote-session manager: connection and jump-tunnel
//! state machines, the non-blocking retry discipline, command execution,
//! chunked file transfer with progress reporting, recursive remote deletion
//! planning, and the interactive-shell reader/writer protocol.

pub mod command;
pub mod dial;
pub mod errors;
pub mod fsops;
pub mod keys;
pub mod session;
pub mod settings;
pub mod shell;
pub mod text;
pub mod transfer;
