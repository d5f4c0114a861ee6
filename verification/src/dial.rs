//! Candidate selection for establishing the stream connection.
//!
//! A host:port resolves to an ordered list of candidate addresses; they are
//! tried in order until one accepts the connection. The caller performs the
//! actual resolution and connection attempts and reports each outcome here;
//! this machine decides which candidate to try next and what the overall
//! outcome is: the first address that connected, `Resolution` when nothing
//! resolved, or `Connect` when every candidate refused.

use vstd::prelude::*;
use crate::errors::SshError;

verus! {

/// Tracks an in-order walk over the resolved candidate addresses.
pub struct Dialer {
    n_addrs: usize,
    /// Outcome of each attempt made so far, in order.
    results: Ghost<Seq<bool>>,
    tried: usize,
    connected: Option<usize>,
    last_error: String,
}

impl Dialer {
    /// How many candidate addresses resolution produced.
    pub closed spec fn addr_count(&self) -> nat {
        self.n_addrs as nat
    }

    /// Outcome of each attempt made so far, in order.
    pub closed spec fn attempts(&self) -> Seq<bool> {
        self.results@
    }

    /// The candidate that accepted the connection, if any.
    pub closed spec fn connected_to(&self) -> Option<usize> {
        self.connected
    }

    /// What the most recent refused attempt reported.
    pub closed spec fn last_detail(&self) -> Seq<char> {
        self.last_error@
    }

    pub closed spec fn wf(&self) -> bool {
        &&& self.results@.len() == self.tried
        &&& self.tried <= self.n_addrs
        &&& match self.connected {
            Some(i) => {
                &&& i < self.tried
                &&& i + 1 == self.tried
                &&& self.results@[i as int]
                &&& forall|k: int| 0 <= k < i ==> !self.results@[k]
            },
            None => forall|k: int| 0 <= k < self.results@.len() ==> !self.results@[k],
        }
    }

    /// Starts a walk over `n_addrs` resolved candidates.
    pub fn new(n_addrs: usize) -> (r: Dialer)
        ensures
            r.wf(),
            r.addr_count() == n_addrs,
            r.attempts() == Seq::<bool>::empty(),
            r.connected_to() is None,
    {
        Dialer {
            n_addrs,
            results: Ghost(Seq::empty()),
            tried: 0,
            connected: None,
            last_error: String::new(),
        }
    }

    /// The index of the next candidate to try: `None` once a candidate
    /// connected or every candidate was tried.
    pub fn next_candidate(&self) -> (r: Option<usize>)
        requires
            self.wf(),
        ensures
            match r {
                Some(i) => {
                    &&& self.connected_to() is None
                    &&& i == self.attempts().len()
                    &&& i < self.addr_count()
                },
                None => self.connected_to() is Some || self.attempts().len()
                    == self.addr_count(),
            },
    {
        if self.connected.is_none() && self.tried < self.n_addrs {
            Some(self.tried)
        } else {
            None
        }
    }

    /// Records that the current candidate refused the connection, with the
    /// error it reported; the latest detail replaces any earlier one.
    pub fn report_failure(&mut self, detail: String)
        requires
            old(self).wf(),
            old(self).connected_to() is None,
            old(self).attempts().len() < old(self).addr_count(),
        ensures
            final(self).wf(),
            final(self).addr_count() == old(self).addr_count(),
            final(self).attempts() == old(self).attempts().push(false),
            final(self).connected_to() is None,
            final(self).last_detail() == detail@,
    {
        proof {
            self.results@ = self.results@.push(false);
        }
        self.last_error = detail;
        self.tried = self.tried + 1;
    }

    /// Records that the current candidate accepted the connection.
    pub fn report_success(&mut self)
        requires
            old(self).wf(),
            old(self).connected_to() is None,
            old(self).attempts().len() < old(self).addr_count(),
        ensures
            final(self).wf(),
            final(self).addr_count() == old(self).addr_count(),
            final(self).attempts() == old(self).attempts().push(true),
            final(self).connected_to() == Some(old(self).attempts().len() as usize),
    {
        proof {
            self.results@ = self.results@.push(true);
        }
        self.connected = Some(self.tried);
        self.tried = self.tried + 1;
    }

    /// The overall outcome once the walk is finished: the first candidate
    /// that connected, `Resolution` when nothing resolved at all, `Connect`
    /// when every candidate refused.
    pub fn outcome(&self) -> (r: Result<usize, SshError>)
        requires
            self.wf(),
            self.connected_to() is Some || self.attempts().len() == self.addr_count(),
        ensures
            match r {
                Ok(i) => {
                    &&& self.connected_to() == Some(i)
                    &&& self.attempts()[i as int]
                    &&& forall|k: int| 0 <= k < i ==> !self.attempts()[k]
                },
                Err(e) => {
                    &&& self.connected_to() is None
                    &&& (e is Resolution <==> self.addr_count() == 0)
                    &&& (e matches SshError::Connect { last } ==> self.addr_count() > 0
                        && last@ == self.last_detail())
                    &&& (self.addr_count() > 0 ==> e is Connect)
                    &&& forall|k: int| 0 <= k < self.attempts().len()
                        ==> !self.attempts()[k]
                },
            },
    {
        match self.connected {
            Some(i) => Ok(i),
            None => {
                if self.n_addrs == 0 {
                    Err(SshError::Resolution)
                } else {
                    Err(SshError::Connect { last: self.last_error.clone() })
                }
            },
        }
    }
}

} // verus!
