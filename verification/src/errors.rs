//! The error taxonomy of the session layer.
//!
//! Transient "would block" conditions are not here: they are absorbed by the
//! retry discipline inside each component and never surface to a caller.

use vstd::prelude::*;

verus! {

/// The stage at which a jump-tunnelled connection failed, so that a caller
/// can tell a jump-side failure from a target-side one.
#[derive(Clone, Copy, Debug, PartialEq, Eq, Structural)]
pub enum TunnelStage {
    /// Opening the socket to the jump host.
    JumpConnect,
    /// Protocol handshake with the jump host.
    JumpHandshake,
    /// Authenticating against the jump host.
    JumpAuth,
    /// Opening the tunnelled byte stream addressed at the target.
    TunnelOpen,
    /// Protocol handshake with the target over the tunnel.
    TargetHandshake,
    /// Authenticating against the target.
    TargetAuth,
    /// Opening the file-access handle on the target session.
    TargetFileAccess,
}

/// A non-transient failure of the session layer.
#[derive(Clone, Debug, PartialEq, Eq)]
pub enum SshError {
    /// The host name resolved to no address at all.
    Resolution,
    /// Some address resolved, but no candidate accepted the connection;
    /// the last per-address failure is carried.
    Connect { last: String },
    /// The protocol handshake on a direct connection failed.
    Handshake,
    /// The credential was rejected on a direct connection.
    Auth,
    /// A jump-tunnelled connection failed at the given stage.
    Tunnel { stage: TunnelStage },
    /// Opening the file-access handle on a direct connection failed.
    FileAccessOpen,
    /// The remote command wrote to stderr; the bytes are carried verbatim.
    CommandFailure { stderr: Vec<u8> },
    /// A hard I/O failure in the middle of a file transfer.
    TransferIo,
    /// A file-system operation failed; the offending path is carried.
    FileSystem { path: String },
    /// The remote end closed the connection; fatal for the owning session.
    ConnectionClosed,
    /// A terminal operation was requested before the shell was opened.
    ShellNotOpen,
}

} // verus!
