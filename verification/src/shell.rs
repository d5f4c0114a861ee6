//! The interactive shell: a pseudo-terminal channel driven by one writer
//! task and one reader task, concurrently, under mutual exclusion per
//! access.
//!
//! The writer drains a queue of input chunks into the channel; a transient
//! "would block" retries the same chunk after a short sleep, so nothing is
//! lost or reordered, and the bytes the remote process observes are the
//! queued chunks concatenated in enqueue order. The reader wakes on socket
//! readiness and emits every non-empty read in arrival order; a zero-length
//! read or a read-closed readiness event closes the shell, once, after
//! which the reader stops instead of spinning. The state machine here makes
//! those decisions; the caller owns the threads, the lock and the I/O.

use vstd::prelude::*;
use vstd::seq_lib::lemma_flatten_concat;
use crate::errors::SshError;

verus! {

/// Delay between writer polls of an empty queue or retries of a blocked
/// write.
pub const WRITE_RETRY_MS: u64 = 50;

/// The shell's lifecycle.
#[derive(Clone, Copy, Debug, PartialEq, Eq, Structural)]
pub enum ShellState {
    /// No pseudo-terminal has been allocated yet.
    Uninitialized,
    /// The pseudo-terminal channel is up; streaming has not started.
    PtyOpen,
    /// The reader and writer tasks are running.
    Streaming,
    /// The remote end closed; both tasks terminate. Terminal: no event
    /// leads out of it, so the transition in happens exactly once.
    Closed,
}

/// What the reader task must do next.
#[derive(Clone, Copy, Debug, PartialEq, Eq, Structural)]
pub enum ReaderAction {
    /// Re-arm the readiness registration and wait for the next wake-up.
    AwaitReadiness,
    /// The shell is closed: terminate instead of polling again.
    Stop,
}

/// The interactive shell's state: lifecycle, the writer's pending queue,
/// and the streams' history.
pub struct Shell {
    state: ShellState,
    queue: Vec<Vec<u8>>,
    sent: Ghost<Seq<Seq<u8>>>,
    written: Ghost<Seq<Seq<u8>>>,
    emitted: Ghost<Seq<Seq<u8>>>,
}

impl Shell {
    pub closed spec fn state(&self) -> ShellState {
        self.state
    }

    /// Every chunk ever enqueued, in enqueue order.
    pub closed spec fn sent(&self) -> Seq<Seq<u8>> {
        self.sent@
    }

    /// The chunks fully written to the channel, in the order written.
    pub closed spec fn written(&self) -> Seq<Seq<u8>> {
        self.written@
    }

    /// The chunks still pending in the writer's queue, oldest first.
    pub closed spec fn queued(&self) -> Seq<Seq<u8>> {
        self.queue@.map_values(|c: Vec<u8>| c@)
    }

    /// The output chunks emitted by the reader, in arrival order.
    pub closed spec fn emitted(&self) -> Seq<Seq<u8>> {
        self.emitted@
    }

    /// What was written is exactly what was enqueued, minus the tail still
    /// queued: no chunk is lost, duplicated or reordered.
    pub closed spec fn wf(&self) -> bool {
        self.sent@ == self.written@ + self.queued()
    }

    /// Where the shell stands, for the tasks that drive it.
    pub fn current_state(&self) -> (r: ShellState)
        ensures
            r == self.state(),
    {
        self.state
    }

    /// A shell with no pseudo-terminal yet and empty history.
    pub fn new() -> (r: Shell)
        ensures
            r.wf(),
            r.state() == ShellState::Uninitialized,
            r.sent() == Seq::<Seq<u8>>::empty(),
            r.written() == Seq::<Seq<u8>>::empty(),
            r.queued() == Seq::<Seq<u8>>::empty(),
            r.emitted() == Seq::<Seq<u8>>::empty(),
    {
        let r = Shell {
            state: ShellState::Uninitialized,
            queue: Vec::new(),
            sent: Ghost(Seq::empty()),
            written: Ghost(Seq::empty()),
            emitted: Ghost(Seq::empty()),
        };
        proof {
            assert(r.queued() =~= Seq::<Seq<u8>>::empty());
            assert(r.sent@ =~= r.written@ + r.queued());
        }
        r
    }

    /// The pseudo-terminal channel, terminal request and shell request all
    /// succeeded (performed by the caller with the session briefly back in
    /// blocking mode).
    pub fn on_pty_opened(&mut self)
        requires
            old(self).wf(),
            old(self).state() == ShellState::Uninitialized,
        ensures
            final(self).wf(),
            final(self).state() == ShellState::PtyOpen,
            final(self).sent() == old(self).sent(),
            final(self).written() == old(self).written(),
            final(self).queued() == old(self).queued(),
            final(self).emitted() == old(self).emitted(),
    {
        self.state = ShellState::PtyOpen;
    }

    /// The reader and writer tasks are up.
    pub fn on_streaming(&mut self)
        requires
            old(self).wf(),
            old(self).state() == ShellState::PtyOpen,
        ensures
            final(self).wf(),
            final(self).state() == ShellState::Streaming,
            final(self).sent() == old(self).sent(),
            final(self).written() == old(self).written(),
            final(self).queued() == old(self).queued(),
            final(self).emitted() == old(self).emitted(),
    {
        self.state = ShellState::Streaming;
    }

    /// Enqueues one input chunk for the writer. Never blocks the caller;
    /// chunks are consumed in enqueue order once streaming runs.
    pub fn send(&mut self, chunk: Vec<u8>)
        requires
            old(self).wf(),
            old(self).state() == ShellState::PtyOpen || old(self).state()
                == ShellState::Streaming,
        ensures
            final(self).wf(),
            final(self).state() == old(self).state(),
            final(self).sent() == old(self).sent().push(chunk@),
            final(self).written() == old(self).written(),
            final(self).queued() == old(self).queued().push(chunk@),
            final(self).emitted() == old(self).emitted(),
    {
        proof {
            self.sent@ = self.sent@.push(chunk@);
        }
        let ghost pre = self.queue@;
        self.queue.push(chunk);
        proof {
            assert(self.queued() =~= pre.map_values(|c: Vec<u8>| c@).push(chunk@));
            assert(self.sent@ =~= self.written@ + self.queued());
        }
    }

    /// The chunk the writer must put on the channel next: the oldest queued
    /// one, or nothing (the writer then sleeps briefly and polls again).
    pub fn writer_front(&self) -> (r: Option<&Vec<u8>>)
        requires
            self.wf(),
            self.state() == ShellState::Streaming,
        ensures
            match r {
                Some(c) => self.queued().len() > 0 && c@ == self.queued()[0],
                None => self.queued().len() == 0,
            },
    {
        if self.queue.len() > 0 {
            Some(&self.queue[0])
        } else {
            None
        }
    }

    /// The front chunk was written in full: it moves from the queue to the
    /// written history, keeping enqueue order.
    pub fn on_write_ok(&mut self)
        requires
            old(self).wf(),
            old(self).state() == ShellState::Streaming,
            old(self).queued().len() > 0,
        ensures
            final(self).wf(),
            final(self).state() == ShellState::Streaming,
            final(self).sent() == old(self).sent(),
            final(self).written() == old(self).written().push(old(self).queued()[0]),
            final(self).queued() == old(self).queued().drop_first(),
            final(self).emitted() == old(self).emitted(),
    {
        let ghost pre = self.queue@;
        let front = self.queue.remove(0);
        proof {
            self.written@ = self.written@.push(front@);
            assert(self.queued() =~= pre.map_values(|c: Vec<u8>| c@).drop_first());
            assert(self.sent@ =~= self.written@ + self.queued());
        }
    }

    /// The write would block right now: transient. The same chunk stays at
    /// the front and is retried after a short sleep — no loss, no
    /// reordering, no error surfaced.
    pub fn on_write_would_block(&mut self)
        requires
            old(self).wf(),
            old(self).state() == ShellState::Streaming,
        ensures
            *final(self) == *old(self),
    {
    }

    /// The write found the connection closed (a zero-length write or a
    /// fatal error): the shell closes and the writer task terminates.
    pub fn on_write_closed(&mut self) -> (r: SshError)
        requires
            old(self).wf(),
            old(self).state() == ShellState::Streaming,
        ensures
            final(self).wf(),
            final(self).state() == ShellState::Closed,
            final(self).sent() == old(self).sent(),
            final(self).written() == old(self).written(),
            final(self).queued() == old(self).queued(),
            final(self).emitted() == old(self).emitted(),
            r == SshError::ConnectionClosed,
    {
        self.state = ShellState::Closed;
        SshError::ConnectionClosed
    }

    /// A non-empty read arrived: it is emitted as one output event, in
    /// arrival order.
    pub fn on_read_data(&mut self, chunk: &Vec<u8>)
        requires
            old(self).wf(),
            old(self).state() == ShellState::Streaming,
            chunk@.len() > 0,
        ensures
            final(self).wf(),
            final(self).state() == ShellState::Streaming,
            final(self).sent() == old(self).sent(),
            final(self).written() == old(self).written(),
            final(self).queued() == old(self).queued(),
            final(self).emitted() == old(self).emitted().push(chunk@),
    {
        proof {
            self.emitted@ = self.emitted@.push(chunk@);
        }
    }

    /// A read would block: the drain loop for this wake-up is over — not an
    /// error — and the reader re-arms its readiness registration.
    pub fn on_read_would_block(&mut self) -> (r: ReaderAction)
        requires
            old(self).wf(),
            old(self).state() == ShellState::Streaming,
        ensures
            *final(self) == *old(self),
            r == ReaderAction::AwaitReadiness,
    {
        ReaderAction::AwaitReadiness
    }

    /// A zero-length read or a read-closed readiness event: remote closure.
    /// The shell transitions to `Closed` — exactly once, since this needs a
    /// streaming shell and nothing leads out of `Closed`.
    pub fn on_read_closed(&mut self) -> (r: SshError)
        requires
            old(self).wf(),
            old(self).state() == ShellState::Streaming,
        ensures
            final(self).wf(),
            final(self).state() == ShellState::Closed,
            final(self).sent() == old(self).sent(),
            final(self).written() == old(self).written(),
            final(self).queued() == old(self).queued(),
            final(self).emitted() == old(self).emitted(),
            r == SshError::ConnectionClosed,
    {
        self.state = ShellState::Closed;
        SshError::ConnectionClosed
    }

    /// What the reader does after a wake-up is handled: wait again while
    /// streaming, stop — never spin — once the shell is closed.
    pub fn reader_action(&self) -> (r: ReaderAction)
        requires
            self.wf(),
            self.state() == ShellState::Streaming || self.state() == ShellState::Closed,
        ensures
            r == ReaderAction::Stop <==> self.state() == ShellState::Closed,
            r == ReaderAction::AwaitReadiness <==> self.state() == ShellState::Streaming,
    {
        if matches!(self.state, ShellState::Closed) {
            ReaderAction::Stop
        } else {
            ReaderAction::AwaitReadiness
        }
    }

    /// A new terminal geometry may be requested exactly while the
    /// pseudo-terminal exists and the shell is not closed.
    pub fn resize(&self, cols: u32, rows: u32) -> (r: Result<(u32, u32), SshError>)
        ensures
            r matches Ok(g) ==> g == (cols, rows) && (self.state() == ShellState::PtyOpen
                || self.state() == ShellState::Streaming),
            r is Err ==> !(self.state() == ShellState::PtyOpen || self.state()
                == ShellState::Streaming),
            r matches Err(e) ==> e == SshError::ShellNotOpen,
    {
        match self.state {
            ShellState::PtyOpen => Ok((cols, rows)),
            ShellState::Streaming => Ok((cols, rows)),
            _ => Err(SshError::ShellNotOpen),
        }
    }
}

/// The remote process observes exactly the queued bytes, in enqueue order:
/// the chunks written so far are a prefix of the chunks sent, and the bytes
/// written so far are a prefix of the bytes sent — whatever interleaving of
/// completed writes and transient "would block" retries got the shell here.
pub proof fn lemma_writer_preserves_order(sh: Shell)
    requires
        sh.wf(),
    ensures
        sh.written() == sh.sent().take(sh.written().len() as int),
        sh.written().flatten() + sh.queued().flatten() == sh.sent().flatten(),
{
    assert(sh.written() =~= sh.sent().take(sh.written().len() as int));
    lemma_flatten_concat(sh.written(), sh.queued());
}

} // verus!
