//! The command executor: one short-lived exec channel runs one command and
//! collects stderr and stdout to completion.
//!
//! Every step of the protocol may report "would block" on the non-blocking
//! session; that outcome is absorbed here — the machine stays where it is
//! and the caller retries after a fixed short delay — and never surfaces as
//! an error. A command whose stderr trims to anything non-empty fails with
//! that stderr verbatim, even if its exit status was success: that policy is
//! deliberate and callers depend on it. A clean run returns stdout trimmed.

use vstd::prelude::*;
use crate::errors::SshError;
use crate::text::{copy_bytes, is_blank, trim_bytes, trim_spec};

verus! {

/// Delay before retrying an operation that reported "would block".
pub const RETRY_WAIT_MS: u64 = 20;

/// Where a command run stands.
#[derive(Clone, Copy, Debug, PartialEq, Eq, Structural)]
pub enum ExecPhase {
    /// Opening the short-lived exec channel.
    OpenChannel,
    /// Issuing the command on the channel.
    Exec,
    /// Reading stderr to completion.
    DrainStderr,
    /// Reading stdout to completion.
    DrainStdout,
    /// Waiting for the channel to close.
    WaitClose,
    /// Finished successfully; trimmed stdout was handed out.
    Done,
    /// Finished with an error; nothing further may be driven.
    Failed,
}

/// What the caller observed while performing the pending operation.
pub enum ExecEvent {
    /// The pending operation completed.
    Completed,
    /// The operation would block right now; it is transient and absorbed.
    WouldBlock,
    /// Bytes collected into the stream currently being drained.
    Data(Vec<u8>),
    /// A hard, non-transient failure, already mapped by the caller.
    Fatal(SshError),
}

pub open spec fn exec_in_progress(p: ExecPhase) -> bool {
    p != ExecPhase::Done && p != ExecPhase::Failed
}

/// The phase reached from `p` on `ev`, where `stderr_blank` says whether
/// everything read from stderr so far trims to nothing.
pub open spec fn phase_after(p: ExecPhase, ev: ExecEvent, stderr_blank: bool) -> ExecPhase {
    match ev {
        ExecEvent::WouldBlock => p,
        ExecEvent::Data(_) => p,
        ExecEvent::Fatal(_) => ExecPhase::Failed,
        ExecEvent::Completed => match p {
            ExecPhase::OpenChannel => ExecPhase::Exec,
            ExecPhase::Exec => ExecPhase::DrainStderr,
            ExecPhase::DrainStderr => if stderr_blank {
                ExecPhase::DrainStdout
            } else {
                ExecPhase::Failed
            },
            ExecPhase::DrainStdout => ExecPhase::WaitClose,
            ExecPhase::WaitClose => ExecPhase::Done,
            ExecPhase::Done => ExecPhase::Done,
            ExecPhase::Failed => ExecPhase::Failed,
        },
    }
}

/// A transient "would block" never surfaces: it moves no run forward and
/// fails none, whatever phase it strikes in.
pub proof fn lemma_would_block_absorbed(p: ExecPhase, stderr_blank: bool)
    ensures
        phase_after(p, ExecEvent::WouldBlock, stderr_blank) == p,
{
}

/// A run whose every operation completes, with nothing but whitespace on
/// stderr, reaches `Done`: success is owed whenever the remote side
/// cooperates.
pub proof fn lemma_clean_run_completes(stderr_blank: bool)
    requires
        stderr_blank,
    ensures
        ({
            let p1 = phase_after(ExecPhase::OpenChannel, ExecEvent::Completed, stderr_blank);
            let p2 = phase_after(p1, ExecEvent::Completed, stderr_blank);
            let p3 = phase_after(p2, ExecEvent::Completed, stderr_blank);
            let p4 = phase_after(p3, ExecEvent::Completed, stderr_blank);
            let p5 = phase_after(p4, ExecEvent::Completed, stderr_blank);
            p5 == ExecPhase::Done
        }),
{
}

/// A run whose stderr holds anything beyond whitespace fails at the stderr
/// gate, whatever stdout or the exit status would have said.
pub proof fn lemma_stderr_fails_run(stderr_blank: bool)
    requires
        !stderr_blank,
    ensures
        phase_after(ExecPhase::DrainStderr, ExecEvent::Completed, stderr_blank) == ExecPhase::Failed,
{
}

/// One command run over the exec channel.
pub struct CommandRun {
    phase: ExecPhase,
    stderr: Vec<u8>,
    stdout: Vec<u8>,
}

impl CommandRun {
    pub closed spec fn phase(&self) -> ExecPhase {
        self.phase
    }

    /// Everything read from stderr so far.
    pub closed spec fn stderr_bytes(&self) -> Seq<u8> {
        self.stderr@
    }

    /// Everything read from stdout so far.
    pub closed spec fn stdout_bytes(&self) -> Seq<u8> {
        self.stdout@
    }

    /// Where the run stands, for callers that drive the protocol.
    pub fn current_phase(&self) -> (r: ExecPhase)
        ensures
            r == self.phase(),
    {
        self.phase
    }

    /// Starts a run: the exec channel is about to be opened.
    pub fn new() -> (r: CommandRun)
        ensures
            r.phase() == ExecPhase::OpenChannel,
            r.stderr_bytes() == Seq::<u8>::empty(),
            r.stdout_bytes() == Seq::<u8>::empty(),
    {
        CommandRun { phase: ExecPhase::OpenChannel, stderr: Vec::new(), stdout: Vec::new() }
    }

    /// Absorbs one observed outcome and hands back the final result when the
    /// run ends: trimmed stdout on success, the stderr text verbatim when
    /// stderr was non-blank, or the caller's hard error passed through.
    pub fn step(&mut self, ev: ExecEvent) -> (r: Option<Result<Vec<u8>, SshError>>)
        requires
            exec_in_progress(old(self).phase()),
            ev matches ExecEvent::Data(_) ==> old(self).phase() == ExecPhase::DrainStderr
                || old(self).phase() == ExecPhase::DrainStdout,
        ensures
            final(self).phase() == phase_after(
                old(self).phase(),
                ev,
                is_blank(old(self).stderr_bytes()),
            ),
            // a transient would-block is fully absorbed: nothing moves, nothing fails
            ev is WouldBlock ==> final(self).stderr_bytes() == old(self).stderr_bytes()
                && final(self).stdout_bytes() == old(self).stdout_bytes() && r is None,
            // drained bytes land on the stream being drained, in arrival order
            ev matches ExecEvent::Data(d) ==> r is None && (if old(self).phase()
                == ExecPhase::DrainStderr {
                final(self).stderr_bytes() == old(self).stderr_bytes() + d@ && final(self).stdout_bytes() == old(self).stdout_bytes()
            } else {
                final(self).stdout_bytes() == old(self).stdout_bytes() + d@ && final(self).stderr_bytes() == old(self).stderr_bytes()
            }),
            // a hard failure ends the run with the caller's error
            ev matches ExecEvent::Fatal(e) ==> r == Some(Result::<Vec<u8>, SshError>::Err(e)),
            ev is Completed ==> final(self).stderr_bytes() == old(self).stderr_bytes() && final(self).stdout_bytes() == old(self).stdout_bytes(),
            // non-blank stderr fails the command and carries the text verbatim
            ev is Completed && old(self).phase() == ExecPhase::DrainStderr && !is_blank(
                old(self).stderr_bytes(),
            ) ==> (r matches Some(Err(SshError::CommandFailure { stderr: s })) && s@ == old(self).stderr_bytes()),
            // a completed run hands out stdout trimmed
            ev is Completed && old(self).phase() == ExecPhase::WaitClose ==> (r matches Some(
                Ok(out),
            ) && out@ == trim_spec(old(self).stdout_bytes())),
            // in every other case the run goes on
            ev is Completed && old(self).phase() != ExecPhase::WaitClose && !(old(self).phase()
                == ExecPhase::DrainStderr && !is_blank(old(self).stderr_bytes()))
                ==> r is None,
    {
        match ev {
            ExecEvent::WouldBlock => None,
            ExecEvent::Data(d) => {
                let mut d = d;
                if matches!(self.phase, ExecPhase::DrainStderr) {
                    self.stderr.append(&mut d);
                } else {
                    self.stdout.append(&mut d);
                }
                None
            },
            ExecEvent::Fatal(e) => {
                self.phase = ExecPhase::Failed;
                Some(Err(e))
            },
            ExecEvent::Completed => {
                match self.phase {
                    ExecPhase::OpenChannel => {
                        self.phase = ExecPhase::Exec;
                        None
                    },
                    ExecPhase::Exec => {
                        self.phase = ExecPhase::DrainStderr;
                        None
                    },
                    ExecPhase::DrainStderr => {
                        let trimmed = trim_bytes(&self.stderr);
                        if trimmed.len() > 0 {
                            self.phase = ExecPhase::Failed;
                            Some(Err(SshError::CommandFailure { stderr: copy_bytes(&self.stderr) }))
                        } else {
                            self.phase = ExecPhase::DrainStdout;
                            None
                        }
                    },
                    ExecPhase::DrainStdout => {
                        self.phase = ExecPhase::WaitClose;
                        None
                    },
                    ExecPhase::WaitClose => {
                        self.phase = ExecPhase::Done;
                        Some(Ok(trim_bytes(&self.stdout)))
                    },
                    ExecPhase::Done => None,
                    ExecPhase::Failed => None,
                }
            },
        }
    }
}

/// The shared verdict on a finished local command, as the key-generation
/// helpers use it: anything beyond whitespace on stderr is failure carrying
/// that text, and success carries stdout trimmed.
pub fn command_verdict(stdout: &Vec<u8>, stderr: &Vec<u8>) -> (r: Result<Vec<u8>, SshError>)
    ensures
        is_blank(stderr@) ==> (r matches Ok(out) && out@ == trim_spec(stdout@)),
        !is_blank(stderr@) ==> (r matches Err(SshError::CommandFailure { stderr: s }) && s@
            == stderr@),
{
    let trimmed = trim_bytes(stderr);
    if trimmed.len() > 0 {
        Err(SshError::CommandFailure { stderr: copy_bytes(stderr) })
    } else {
        Ok(trim_bytes(stdout))
    }
}

} // verus!
