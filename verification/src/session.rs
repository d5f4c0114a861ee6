//! The transport session: connection establishment, direct or through a
//! jump host, and the session object that all channel-bearing operations
//! hang off.
//!
//! Connecting is a fixed sequence of stages — dial, handshake,
//! authenticate, open the file-access handle — each performed by the caller
//! against the outside world; the machines here decide what follows from
//! each outcome. A failure leaves the machine unusable, carrying an error
//! that names the stage, so that a wrong credential is distinguishable from
//! an unreachable host, and on a jump-tunnelled connection a target-side
//! failure is distinguishable from a jump-side one. Only a machine that
//! reached readiness can mark the session connected, and every channel
//! operation requires a connected session: an instance is either fully
//! authenticated or unusable.

use vstd::prelude::*;
use crate::command::CommandRun;
use crate::errors::{SshError, TunnelStage};
use crate::shell::Shell;
use crate::transfer::{Download, Upload};

verus! {

/// How a session authenticates.
#[derive(Clone, Debug, PartialEq, Eq)]
pub enum Credential {
    /// A shared secret.
    Password(String),
    /// The path of a private-key file.
    KeyFile(String),
}

/// An intermediate host to route the whole session through.
#[derive(Clone, Debug, PartialEq, Eq)]
pub struct JumpConfig {
    pub host: String,
    pub user: String,
    pub credential: Credential,
}

/// The stages of establishing a direct session, in order.
#[derive(Clone, Copy, Debug, PartialEq, Eq, Structural)]
pub enum ConnectStage {
    /// Resolving the host and dialing the candidates.
    Dial,
    /// The protocol handshake.
    Handshake,
    /// Authenticating with the credential.
    Auth,
    /// Opening the long-lived file-access handle.
    FileAccess,
    /// Connected: the session switched to non-blocking mode and is usable.
    Ready,
    /// Establishment failed; the machine is unusable.
    Failed,
}

/// The stage that follows a completed one.
pub open spec fn next_stage(s: ConnectStage) -> ConnectStage {
    match s {
        ConnectStage::Dial => ConnectStage::Handshake,
        ConnectStage::Handshake => ConnectStage::Auth,
        ConnectStage::Auth => ConnectStage::FileAccess,
        ConnectStage::FileAccess => ConnectStage::Ready,
        ConnectStage::Ready => ConnectStage::Ready,
        ConnectStage::Failed => ConnectStage::Failed,
    }
}

/// The error a refusal at stage `s` surfaces as. The dial stage is not
/// here: a failed dial carries the dialer's own error.
pub open spec fn stage_error(s: ConnectStage) -> SshError
    recommends
        s == ConnectStage::Handshake || s == ConnectStage::Auth || s
            == ConnectStage::FileAccess,
{
    match s {
        ConnectStage::Handshake => SshError::Handshake,
        ConnectStage::Auth => SshError::Auth,
        _ => SshError::FileAccessOpen,
    }
}

/// Establishes a direct session. The caller dials, shakes hands,
/// authenticates and opens file access; this machine absorbs each outcome.
pub struct DirectConnect {
    pub stage: ConnectStage,
    pub error: Option<SshError>,
}

/// The machine after the dial outcome: on to the handshake, or failed with
/// the dialer's error.
pub open spec fn direct_after_dial(m: DirectConnect, outcome: Result<usize, SshError>)
    -> DirectConnect {
    match outcome {
        Ok(_) => DirectConnect { stage: ConnectStage::Handshake, error: None },
        Err(e) => DirectConnect { stage: ConnectStage::Failed, error: Some(e) },
    }
}

/// The machine after the current stage completed (`true`) or was refused:
/// refusal fails it with the error named after the stage.
pub open spec fn direct_after(m: DirectConnect, ok: bool) -> DirectConnect {
    if ok {
        DirectConnect { stage: next_stage(m.stage), error: None }
    } else {
        DirectConnect { stage: ConnectStage::Failed, error: Some(stage_error(m.stage)) }
    }
}

impl DirectConnect {
    pub open spec fn stage(&self) -> ConnectStage {
        self.stage
    }

    /// The stage-qualified error, once failed.
    pub open spec fn error(&self) -> Option<SshError> {
        self.error
    }

    /// Authentication has succeeded (and can never succeed twice: the
    /// machine only moves forward).
    pub open spec fn authenticated(&self) -> bool {
        self.stage() == ConnectStage::FileAccess || self.stage() == ConnectStage::Ready
    }

    /// The session is fully established and usable.
    pub open spec fn is_ready(&self) -> bool {
        self.stage() == ConnectStage::Ready
    }

    pub open spec fn wf(&self) -> bool {
        (self.stage == ConnectStage::Failed) <==> (self.error is Some)
    }

    /// Starts establishing a session: the dial comes first.
    pub fn new() -> (r: DirectConnect)
        ensures
            r.wf(),
            r.stage() == ConnectStage::Dial,
            r.error() is None,
    {
        DirectConnect { stage: ConnectStage::Dial, error: None }
    }

    /// Absorbs the dialer's outcome (`Resolution` or `Connect` on failure).
    pub fn on_dial(&mut self, outcome: Result<usize, SshError>)
        requires
            old(self).wf(),
            old(self).stage() == ConnectStage::Dial,
        ensures
            final(self).wf(),
            *final(self) == direct_after_dial(*old(self), outcome),
    {
        match outcome {
            Ok(_) => {
                self.stage = ConnectStage::Handshake;
            },
            Err(e) => {
                self.stage = ConnectStage::Failed;
                self.error = Some(e);
            },
        }
    }

    /// Absorbs the outcome of the handshake, the authentication, or the
    /// opening of the file-access handle — whichever is pending.
    pub fn on_result(&mut self, ok: bool)
        requires
            old(self).wf(),
            old(self).stage() == ConnectStage::Handshake || old(self).stage()
                == ConnectStage::Auth || old(self).stage() == ConnectStage::FileAccess,
        ensures
            final(self).wf(),
            *final(self) == direct_after(*old(self), ok),
    {
        if ok {
            self.stage = match self.stage {
                ConnectStage::Handshake => ConnectStage::Auth,
                ConnectStage::Auth => ConnectStage::FileAccess,
                _ => ConnectStage::Ready,
            };
        } else {
            self.error = Some(
                match self.stage {
                    ConnectStage::Handshake => SshError::Handshake,
                    ConnectStage::Auth => SshError::Auth,
                    _ => SshError::FileAccessOpen,
                },
            );
            self.stage = ConnectStage::Failed;
        }
    }
}

/// When every stage the outside world decides goes through, the session is
/// owed: a fresh machine fed nothing but successes is ready, and
/// authenticated exactly once on the way.
pub proof fn lemma_connect_success_owed(m: DirectConnect)
    requires
        m.stage() == ConnectStage::Dial,
    ensures
        ({
            let m1 = direct_after_dial(m, Result::<usize, SshError>::Ok(0));
            let m2 = direct_after(m1, true);
            let m3 = direct_after(m2, true);
            let m4 = direct_after(m3, true);
            &&& !m1.authenticated()
            &&& !m2.authenticated()
            &&& m3.authenticated()
            &&& m4.authenticated()
            &&& m4.is_ready()
        }),
{
}

/// A wrong credential fails establishment with `Auth` — distinguishable
/// from a resolution or connection failure — and leaves the machine
/// unauthenticated and not ready, so no channel operation is ever possible
/// on it.
pub proof fn lemma_wrong_credential_unusable(m: DirectConnect)
    requires
        m.stage() == ConnectStage::Auth,
    ensures
        ({
            let m2 = direct_after(m, false);
            &&& m2.stage() == ConnectStage::Failed
            &&& m2.error() == Some(SshError::Auth)
            &&& !m2.authenticated()
            &&& !m2.is_ready()
        }),
{
}

/// Where a jump-tunnelled establishment stands.
#[derive(Clone, Copy, Debug, PartialEq, Eq, Structural)]
pub enum JumpPhase {
    /// Performing the given stage.
    Stage(TunnelStage),
    /// Both sessions are up; the target session is usable.
    Ready,
    /// Establishment failed; the machine is unusable.
    Failed,
}

/// The phase that follows a completed tunnel stage.
pub open spec fn tunnel_next(s: TunnelStage) -> JumpPhase {
    match s {
        TunnelStage::JumpConnect => JumpPhase::Stage(TunnelStage::JumpHandshake),
        TunnelStage::JumpHandshake => JumpPhase::Stage(TunnelStage::JumpAuth),
        TunnelStage::JumpAuth => JumpPhase::Stage(TunnelStage::TunnelOpen),
        TunnelStage::TunnelOpen => JumpPhase::Stage(TunnelStage::TargetHandshake),
        TunnelStage::TargetHandshake => JumpPhase::Stage(TunnelStage::TargetAuth),
        TunnelStage::TargetAuth => JumpPhase::Stage(TunnelStage::TargetFileAccess),
        TunnelStage::TargetFileAccess => JumpPhase::Ready,
    }
}

/// Establishes a session through a jump host: an outer session to the jump
/// host, a tunnelled byte stream to the target, and a fresh handshake and
/// authentication of the target over that tunnel, exactly as over a raw
/// socket. Every failure carries the stage it struck.
pub struct TunnelConnect {
    pub phase: JumpPhase,
    pub error: Option<SshError>,
}

/// The machine after the pending stage completed (`true`) or failed: a
/// failure at stage `s` surfaces as `Tunnel { stage: s }`.
pub open spec fn tunnel_after(m: TunnelConnect, ok: bool) -> TunnelConnect {
    match m.phase {
        JumpPhase::Stage(s) => if ok {
            TunnelConnect { phase: tunnel_next(s), error: None }
        } else {
            TunnelConnect { phase: JumpPhase::Failed, error: Some(SshError::Tunnel { stage: s }) }
        },
        _ => m,
    }
}

impl TunnelConnect {
    pub open spec fn phase(&self) -> JumpPhase {
        self.phase
    }

    /// The stage-qualified error, once failed.
    pub open spec fn error(&self) -> Option<SshError> {
        self.error
    }

    /// Both sessions are up and the target session is usable.
    pub open spec fn is_ready(&self) -> bool {
        self.phase() == JumpPhase::Ready
    }

    pub open spec fn wf(&self) -> bool {
        (self.phase == JumpPhase::Failed) <==> (self.error is Some)
    }

    /// Starts a jump-tunnelled establishment: dialing the jump host comes
    /// first.
    pub fn new() -> (r: TunnelConnect)
        ensures
            r.wf(),
            r.phase() == JumpPhase::Stage(TunnelStage::JumpConnect),
            r.error() is None,
    {
        TunnelConnect { phase: JumpPhase::Stage(TunnelStage::JumpConnect), error: None }
    }

    /// Absorbs the outcome of the pending stage.
    pub fn on_result(&mut self, ok: bool)
        requires
            old(self).wf(),
            old(self).phase() matches JumpPhase::Stage(_),
        ensures
            final(self).wf(),
            *final(self) == tunnel_after(*old(self), ok),
    {
        let s = match self.phase {
            JumpPhase::Stage(s) => s,
            _ => TunnelStage::JumpConnect,
        };
        if ok {
            self.phase = match s {
                TunnelStage::JumpConnect => JumpPhase::Stage(TunnelStage::JumpHandshake),
                TunnelStage::JumpHandshake => JumpPhase::Stage(TunnelStage::JumpAuth),
                TunnelStage::JumpAuth => JumpPhase::Stage(TunnelStage::TunnelOpen),
                TunnelStage::TunnelOpen => JumpPhase::Stage(TunnelStage::TargetHandshake),
                TunnelStage::TargetHandshake => JumpPhase::Stage(TunnelStage::TargetAuth),
                TunnelStage::TargetAuth => JumpPhase::Stage(TunnelStage::TargetFileAccess),
                TunnelStage::TargetFileAccess => JumpPhase::Ready,
            };
        } else {
            self.error = Some(SshError::Tunnel { stage: s });
            self.phase = JumpPhase::Failed;
        }
    }
}

/// A valid jump credential with an invalid target credential fails with a
/// target-stage `Auth`-carrying error, distinct from the error a wrong jump
/// credential produces: the caller can always tell which side refused.
pub proof fn lemma_jump_errors_stage_qualified(m: TunnelConnect)
    requires
        m.phase() == JumpPhase::Stage(TunnelStage::JumpConnect),
    ensures
        ({
            // jump side accepts everything; the target refuses the credential
            let a1 = tunnel_after(m, true);
            let a2 = tunnel_after(a1, true);
            let a3 = tunnel_after(a2, true);
            let a4 = tunnel_after(a3, true);
            let a5 = tunnel_after(a4, true);
            let bad_target = tunnel_after(a5, false);
            // the jump host itself refuses the credential
            let b1 = tunnel_after(m, true);
            let b2 = tunnel_after(b1, true);
            let bad_jump = tunnel_after(b2, false);
            &&& bad_target.error() == Some(SshError::Tunnel { stage: TunnelStage::TargetAuth })
            &&& bad_jump.error() == Some(SshError::Tunnel { stage: TunnelStage::JumpAuth })
            &&& bad_target.error() != bad_jump.error()
            &&& !bad_target.is_ready()
            &&& !bad_jump.is_ready()
        }),
{
}

/// What an orderly teardown closes, in order: the target session first,
/// then the jump session if one is nested.
#[derive(Clone, Copy, Debug, PartialEq, Eq, Structural)]
pub enum CloseStep {
    /// Send the graceful close on the target session.
    CloseTarget,
    /// Send the graceful close on the nested jump session.
    CloseJump,
}

/// One remote-host session: created empty, populated by a successful
/// establishment, torn down by an explicit disconnect.
pub struct Ssh {
    connected: bool,
    has_jump_session: bool,
    host: String,
    user: String,
    jump: Option<JumpConfig>,
}

impl Ssh {
    /// A usable, fully authenticated session is behind this object.
    pub closed spec fn connected(&self) -> bool {
        self.connected
    }

    /// A nested jump session is retained for this session's lifetime.
    pub closed spec fn has_jump_session(&self) -> bool {
        self.has_jump_session
    }

    /// The target host of the current or last establishment.
    pub closed spec fn host(&self) -> Seq<char> {
        self.host@
    }

    /// The user the session authenticates as.
    pub closed spec fn user(&self) -> Seq<char> {
        self.user@
    }

    /// The configured jump host, if connections are to be routed.
    pub closed spec fn jump(&self) -> Option<JumpConfig> {
        self.jump
    }

    pub closed spec fn wf(&self) -> bool {
        self.has_jump_session ==> self.connected
    }

    /// A fresh, unconnected session object.
    pub fn new() -> (r: Ssh)
        ensures
            r.wf(),
            !r.connected(),
            !r.has_jump_session(),
            r.jump() is None,
    {
        Ssh {
            connected: false,
            has_jump_session: false,
            host: String::new(),
            user: String::new(),
            jump: None,
        }
    }

    /// Routes subsequent connections through `host`, authenticating there
    /// with a password.
    pub fn set_jump_server(&mut self, host: String, user: String, password: String)
        requires
            old(self).wf(),
        ensures
            final(self).wf(),
            final(self).jump() == Some(
                JumpConfig { host, user, credential: Credential::Password(password) },
            ),
            final(self).connected() == old(self).connected(),
            final(self).has_jump_session() == old(self).has_jump_session(),
            final(self).host() == old(self).host(),
            final(self).user() == old(self).user(),
    {
        self.jump = Some(JumpConfig { host, user, credential: Credential::Password(password) });
    }

    /// Routes subsequent connections through `host`, authenticating there
    /// with a private-key file.
    pub fn set_jump_server_with_key(&mut self, host: String, user: String, key_path: String)
        requires
            old(self).wf(),
        ensures
            final(self).wf(),
            final(self).jump() == Some(
                JumpConfig { host, user, credential: Credential::KeyFile(key_path) },
            ),
            final(self).connected() == old(self).connected(),
            final(self).has_jump_session() == old(self).has_jump_session(),
            final(self).host() == old(self).host(),
            final(self).user() == old(self).user(),
    {
        self.jump = Some(JumpConfig { host, user, credential: Credential::KeyFile(key_path) });
    }

    /// Adopts a direct establishment that reached readiness: only then does
    /// the session become usable.
    pub fn complete_connect(&mut self, m: &DirectConnect, host: String, user: String)
        requires
            old(self).wf(),
            !old(self).connected(),
            m.is_ready(),
        ensures
            final(self).wf(),
            final(self).connected(),
            !final(self).has_jump_session(),
            final(self).host() == host@,
            final(self).user() == user@,
            final(self).jump() == old(self).jump(),
    {
        self.connected = true;
        self.has_jump_session = false;
        self.host = host;
        self.user = user;
    }

    /// Adopts a jump-tunnelled establishment that reached readiness; the
    /// nested jump session is retained for this session's lifetime.
    pub fn complete_jump_connect(&mut self, m: &TunnelConnect, host: String, user: String)
        requires
            old(self).wf(),
            !old(self).connected(),
            old(self).jump() is Some,
            m.is_ready(),
        ensures
            final(self).wf(),
            final(self).connected(),
            final(self).has_jump_session(),
            final(self).host() == host@,
            final(self).user() == user@,
            final(self).jump() == old(self).jump(),
    {
        self.connected = true;
        self.has_jump_session = true;
        self.host = host;
        self.user = user;
    }

    /// The configured jump route, if any.
    pub fn jump_config(&self) -> (r: &Option<JumpConfig>)
        ensures
            *r == self.jump(),
    {
        &self.jump
    }

    /// Whether channel operations may be issued.
    pub fn is_connected(&self) -> (r: bool)
        ensures
            r == self.connected(),
    {
        self.connected
    }

    /// What a graceful disconnect must close, in order: the target session,
    /// then the nested jump session if one is retained.
    pub fn close_plan(&self) -> (r: Vec<CloseStep>)
        requires
            self.wf(),
            self.connected(),
        ensures
            self.has_jump_session() ==> r@ == seq![
                CloseStep::CloseTarget,
                CloseStep::CloseJump,
            ],
            !self.has_jump_session() ==> r@ == seq![CloseStep::CloseTarget],
    {
        let mut plan: Vec<CloseStep> = Vec::new();
        plan.push(CloseStep::CloseTarget);
        if self.has_jump_session {
            plan.push(CloseStep::CloseJump);
            proof {
                assert(plan@ =~= seq![CloseStep::CloseTarget, CloseStep::CloseJump]);
            }
        } else {
            proof {
                assert(plan@ =~= seq![CloseStep::CloseTarget]);
            }
        }
        plan
    }

    /// Marks the session torn down once the close plan was carried out;
    /// the nested jump session is gone with it.
    pub fn mark_disconnected(&mut self)
        requires
            old(self).wf(),
        ensures
            final(self).wf(),
            !final(self).connected(),
            !final(self).has_jump_session(),
            final(self).jump() == old(self).jump(),
    {
        self.connected = false;
        self.has_jump_session = false;
    }

    /// Opens a command run on this session: channel operations exist only
    /// on a connected session.
    pub fn begin_command(&self) -> (r: CommandRun)
        requires
            self.wf(),
            self.connected(),
        ensures
            r.phase() == crate::command::ExecPhase::OpenChannel,
            r.stderr_bytes() == Seq::<u8>::empty(),
            r.stdout_bytes() == Seq::<u8>::empty(),
    {
        CommandRun::new()
    }

    /// Opens download accounting for a remote file of `size` bytes.
    pub fn begin_download(&self, size: u64) -> (r: Download)
        requires
            self.wf(),
            self.connected(),
        ensures
            r.wf(),
            r.total() == size,
            r.received() == Seq::<u8>::empty(),
            !r.is_done(),
            !r.is_failed(),
    {
        Download::new(size)
    }

    /// Opens upload accounting for a local file of `size` bytes.
    pub fn begin_upload(&self, size: u64) -> (r: Upload)
        requires
            self.wf(),
            self.connected(),
        ensures
            r.wf(),
            r.total() == size,
            r.written() == Seq::<u8>::empty(),
            !r.is_done(),
            !r.is_failed(),
    {
        Upload::new(size)
    }

    /// Opens the interactive shell's state machine on this session.
    pub fn begin_shell(&self) -> (r: Shell)
        requires
            self.wf(),
            self.connected(),
        ensures
            r.wf(),
            r.state() == crate::shell::ShellState::Uninitialized,
            r.sent() == Seq::<Seq<u8>>::empty(),
            r.written() == Seq::<Seq<u8>>::empty(),
            r.emitted() == Seq::<Seq<u8>>::empty(),
    {
        Shell::new()
    }
}

} // verus!
