//! The file-transfer engine's logic: fixed-size chunking of file content and
//! integer percent-complete progress reporting, plus the event machines that
//! drive a download (until a zero-length read) and an upload (until a short
//! write).
//!
//! The caller moves the bytes over the wire and hands every outcome to these
//! machines; they account for the bytes, decide completion, and emit a
//! progress value exactly when the integer percentage changes.

use vstd::prelude::*;
use vstd::arithmetic::div_mod::{lemma_div_is_ordered, lemma_div_multiples_vanish};
use vstd::arithmetic::mul::lemma_mul_inequality;
use crate::errors::SshError;

verus! {

/// The fixed transfer chunk size, in bytes.
pub const CHUNK_SIZE: usize = 16000;

/// `s` cut into chunks of `c` bytes; the last chunk carries the remainder
/// and is the only one that may be shorter (empty content gives one empty
/// chunk, matching the single empty write such a transfer performs).
pub open spec fn chunk_seq(s: Seq<u8>, c: nat) -> Seq<Seq<u8>>
    recommends
        c >= 1,
    decreases s.len(),
{
    if c == 0 || s.len() <= c {
        seq![s]
    } else {
        seq![s.take(c as int)] + chunk_seq(s.skip(c as int), c)
    }
}

/// Every chunk but the last is exactly `c` long and none is longer.
pub proof fn lemma_chunk_lengths(s: Seq<u8>, c: nat)
    requires
        c >= 1,
    ensures
        forall|i: int| 0 <= i < chunk_seq(s, c).len() ==> #[trigger] chunk_seq(
            s,
            c,
        )[i].len() <= c,
        forall|i: int| 0 <= i < chunk_seq(s, c).len() - 1 ==> #[trigger] chunk_seq(
            s,
            c,
        )[i].len() == c,
    decreases s.len(),
{
    if s.len() > c {
        lemma_chunk_lengths(s.skip(c as int), c);
        assert forall|i: int| 0 <= i < chunk_seq(s, c).len() implies #[trigger] chunk_seq(
            s,
            c,
        )[i].len() <= c by {
            if i > 0 {
                assert(chunk_seq(s, c)[i] == chunk_seq(s.skip(c as int), c)[i - 1]);
            }
        }
        assert forall|i: int| 0 <= i < chunk_seq(s, c).len() - 1 implies #[trigger] chunk_seq(
            s,
            c,
        )[i].len() == c by {
            if i > 0 {
                assert(chunk_seq(s, c)[i] == chunk_seq(s.skip(c as int), c)[i - 1]);
            }
        }
    }
}

/// Splitting into chunks loses and reorders nothing: the concatenation of
/// the chunks is the original content, whatever the chunk size, so upload
/// and download round-trip content byte for byte.
pub proof fn lemma_chunks_flatten_id(s: Seq<u8>, c: nat)
    requires
        c >= 1,
    ensures
        chunk_seq(s, c).flatten() == s,
    decreases s.len(),
{
    if s.len() <= c {
        chunk_seq(s, c).lemma_flatten_one_element();
        assert(chunk_seq(s, c).flatten() =~= s);
    } else {
        let head = s.take(c as int);
        let tail = s.skip(c as int);
        lemma_chunks_flatten_id(tail, c);
        let whole = chunk_seq(s, c);
        assert(whole == seq![head] + chunk_seq(tail, c));
        assert(whole.drop_first() =~= chunk_seq(tail, c));
        assert(whole.first() == head);
        assert(whole.flatten() == head + chunk_seq(tail, c).flatten());
        assert(head + tail =~= s);
    }
}

/// Cuts `data` into transfer chunks of `chunk` bytes each (the last one
/// shorter unless the length is an exact multiple).
pub fn split_into_chunks(data: &Vec<u8>, chunk: usize) -> (r: Vec<Vec<u8>>)
    requires
        chunk >= 1,
    ensures
        r.deep_view() == chunk_seq(data@, chunk as nat),
{
    let mut out: Vec<Vec<u8>> = Vec::new();
    let mut i: usize = 0;
    proof {
        assert(out.deep_view() =~~= Seq::<Seq<u8>>::empty());
        assert(data@.skip(0) =~= data@);
        assert(out.deep_view() + chunk_seq(data@, chunk as nat) =~~= chunk_seq(
            data@,
            chunk as nat,
        ));
    }
    while data.len() - i > chunk
        invariant
            chunk >= 1,
            i <= data.len(),
            chunk_seq(data@, chunk as nat) == out.deep_view() + chunk_seq(
                data@.skip(i as int),
                chunk as nat,
            ),
        decreases data.len() - i,
    {
        let ghost pre = out.deep_view();
        let ghost rest = data@.skip(i as int);
        let mut piece: Vec<u8> = Vec::new();
        let mut j: usize = i;
        while j < i + chunk
            invariant
                i + chunk <= data.len(),
                i <= j <= i + chunk,
                piece@ == data@.subrange(i as int, j as int),
            decreases i + chunk - j,
        {
            piece.push(data[j]);
            assert(piece@ =~= data@.subrange(i as int, j + 1 as int));
            j = j + 1;
        }
        proof {
            assert(rest.take(chunk as int) =~= data@.subrange(i as int, i + chunk));
            assert(rest.skip(chunk as int) =~= data@.skip(i + chunk));
            assert(chunk_seq(rest, chunk as nat) == seq![rest.take(chunk as int)] + chunk_seq(
                rest.skip(chunk as int),
                chunk as nat,
            ));
        }
        out.push(piece);
        proof {
            assert(out.deep_view() =~~= pre.push(data@.subrange(i as int, i + chunk)));
            assert(out.deep_view() + chunk_seq(data@.skip(i + chunk), chunk as nat) =~~= pre
                + chunk_seq(data@.skip(i as int), chunk as nat));
        }
        i = i + chunk;
    }
    let ghost pre = out.deep_view();
    let mut piece: Vec<u8> = Vec::new();
    let mut j: usize = i;
    while j < data.len()
        invariant
            i <= j <= data.len(),
            piece@ == data@.subrange(i as int, j as int),
        decreases data.len() - j,
    {
        piece.push(data[j]);
        assert(piece@ =~= data@.subrange(i as int, j + 1 as int));
        j = j + 1;
    }
    proof {
        assert(piece@ =~= data@.skip(i as int));
        assert(chunk_seq(data@.skip(i as int), chunk as nat) == seq![data@.skip(i as int)]);
    }
    out.push(piece);
    proof {
        assert(out.deep_view() =~~= pre.push(data@.skip(i as int)));
        assert(out.deep_view() =~~= chunk_seq(data@, chunk as nat));
    }
    out
}

/// Reassembles chunks in order: the receiving side of a transfer.
pub fn concat_chunks(chunks: &Vec<Vec<u8>>) -> (r: Vec<u8>)
    ensures
        r@ == chunks.deep_view().flatten(),
{
    broadcast use vstd::seq_lib::group_seq_lib_default;

    let mut out: Vec<u8> = Vec::new();
    let mut i: usize = 0;
    proof {
        assert(chunks.deep_view().take(0).flatten() =~= Seq::<u8>::empty());
    }
    while i < chunks.len()
        invariant
            i <= chunks.len(),
            out@ == chunks.deep_view().take(i as int).flatten(),
        decreases chunks.len() - i,
    {
        let ghost pre = chunks.deep_view().take(i as int);
        let part = &chunks[i];
        let mut j: usize = 0;
        while j < part.len()
            invariant
                i < chunks.len(),
                j <= part.len(),
                part == &chunks[i as int],
                out@ == chunks.deep_view().take(i as int).flatten() + part@.take(j as int),
            decreases part.len() - j,
        {
            out.push(part[j]);
            assert(part@.take(j + 1 as int) =~= part@.take(j as int).push(part@[j as int]));
            j = j + 1;
        }
        proof {
            assert(part@.take(part.len() as int) =~= part@);
            assert(chunks.deep_view().take(i + 1) =~~= pre.push(part@));
            pre.lemma_flatten_push(part@);
        }
        i = i + 1;
    }
    proof {
        assert(chunks.deep_view().take(chunks.len() as int) =~= chunks.deep_view());
    }
    out
}

/// The integer percentage that `count` of `total` bytes amounts to
/// (0 when the declared total is 0).
pub open spec fn percent_of(count: int, total: int) -> int {
    if total <= 0 {
        0
    } else {
        count * 100 / total
    }
}

pub proof fn lemma_percent_bounds(count: int, total: int)
    requires
        0 <= count <= total,
    ensures
        0 <= percent_of(count, total) <= 100,
        count == total && total > 0 ==> percent_of(count, total) == 100,
{
    if total > 0 {
        lemma_mul_inequality(count, total, 100);
        assert(count * 100 == 100 * count) by (nonlinear_arith);
        assert(total * 100 == 100 * total) by (nonlinear_arith);
        lemma_div_is_ordered(0, count * 100, total);
        lemma_div_is_ordered(count * 100, total * 100, total);
        lemma_div_multiples_vanish(100, total);
    }
}

pub proof fn lemma_percent_monotone(c1: int, c2: int, total: int)
    requires
        0 <= c1 <= c2,
    ensures
        percent_of(c1, total) <= percent_of(c2, total),
{
    if total > 0 {
        lemma_mul_inequality(c1, c2, 100);
        lemma_div_is_ordered(c1 * 100, c2 * 100, total);
    }
}

/// Emits the integer percent-complete, only when it changes.
///
/// The reported value always equals `percent_of` the bytes seen so far, and
/// a new value is handed out exactly when it differs from the last one
/// reported — so the reported stream is strictly increasing: monotone and
/// free of consecutive duplicates.
pub struct ProgressTracker {
    total: u64,
    count: u64,
    last: u8,
}

impl ProgressTracker {
    /// The declared size of the transfer.
    pub closed spec fn total(&self) -> u64 {
        self.total
    }

    /// Bytes accounted for so far.
    pub closed spec fn count(&self) -> u64 {
        self.count
    }

    /// The percent value most recently reported (0 before any report).
    pub closed spec fn last_reported(&self) -> u8 {
        self.last
    }

    pub closed spec fn wf(&self) -> bool {
        &&& self.count <= self.total
        &&& self.last == percent_of(self.count as int, self.total as int)
    }

    /// Starts tracking a transfer of `total` bytes.
    pub fn new(total: u64) -> (r: ProgressTracker)
        ensures
            r.wf(),
            r.total() == total,
            r.count() == 0,
            r.last_reported() == 0,
    {
        proof {
            if total > 0 {
                vstd::arithmetic::div_mod::lemma_div_of0(total as int);
            }
        }
        ProgressTracker { total, count: 0, last: 0 }
    }

    /// Accounts for `n` more transferred bytes; returns the new integer
    /// percentage exactly when it differs from the last reported one.
    pub fn record(&mut self, n: u64) -> (r: Option<u8>)
        requires
            old(self).wf(),
            old(self).count() + n <= old(self).total(),
        ensures
            final(self).wf(),
            final(self).total() == old(self).total(),
            final(self).count() == old(self).count() + n,
            ({
                let p = percent_of(old(self).count() + n, old(self).total() as int);
                &&& (p == old(self).last_reported() ==> r is None && final(self).last_reported()
                    == old(self).last_reported())
                &&& (p != old(self).last_reported() ==> r == Some(p as u8)
                    && final(self).last_reported() == p)
            }),
            r matches Some(p) ==> p > old(self).last_reported() && p <= 100,
    {
        proof {
            lemma_percent_bounds(self.count as int, self.total as int);
            lemma_percent_bounds(self.count + n, self.total as int);
            lemma_percent_monotone(self.count as int, self.count + n, self.total as int);
        }
        self.count = self.count + n;
        let p: u8 = if self.total == 0 {
            0
        } else {
            (((self.count as u128) * 100) / (self.total as u128)) as u8
        };
        assert(p == percent_of(self.count as int, self.total as int));
        if p != self.last {
            self.last = p;
            Some(p)
        } else {
            None
        }
    }
}

/// Drives a download: bytes arrive in chunks until a zero-length read
/// signals completion; any hard I/O error fails the transfer.
pub struct Download {
    progress: ProgressTracker,
    received: Ghost<Seq<u8>>,
    done: bool,
    failed: bool,
}

impl Download {
    /// The bytes received so far, in arrival order.
    pub closed spec fn received(&self) -> Seq<u8> {
        self.received@
    }

    /// The remote file size the receive channel was bound to.
    pub closed spec fn total(&self) -> u64 {
        self.progress.total()
    }

    /// Whether the zero-length read arrived.
    pub closed spec fn is_done(&self) -> bool {
        self.done
    }

    /// Whether a hard I/O error ended the transfer.
    pub closed spec fn is_failed(&self) -> bool {
        self.failed
    }

    /// The percent value most recently reported.
    pub closed spec fn last_reported(&self) -> u8 {
        self.progress.last_reported()
    }

    pub closed spec fn wf(&self) -> bool {
        &&& self.progress.wf()
        &&& self.received@.len() == self.progress.count()
    }

    /// Opens the accounting for a remote file of `size` bytes.
    pub fn new(size: u64) -> (r: Download)
        ensures
            r.wf(),
            r.total() == size,
            r.received() == Seq::<u8>::empty(),
            !r.is_done(),
            !r.is_failed(),
            r.last_reported() == 0,
    {
        Download {
            progress: ProgressTracker::new(size),
            received: Ghost(Seq::empty()),
            done: false,
            failed: false,
        }
    }

    /// How many bytes arrived so far, for the caller that moves them.
    pub fn bytes_received(&self) -> (r: u64)
        requires
            self.wf(),
        ensures
            r == self.received().len(),
    {
        self.progress.count
    }

    /// The declared remote size, for the caller that moves the bytes.
    pub fn size(&self) -> (r: u64)
        ensures
            r == self.total(),
    {
        self.progress.total
    }

    /// Whether the transfer ended, by completion or failure.
    pub fn is_over(&self) -> (r: bool)
        ensures
            r == (self.is_done() || self.is_failed()),
    {
        self.done || self.failed
    }

    /// Accounts for one successful read of `chunk`; returns a progress value
    /// exactly when the integer percentage changed.
    pub fn on_data(&mut self, chunk: &Vec<u8>) -> (r: Option<u8>)
        requires
            old(self).wf(),
            !old(self).is_done(),
            !old(self).is_failed(),
            old(self).received().len() + chunk@.len() <= old(self).total(),
        ensures
            final(self).wf(),
            final(self).total() == old(self).total(),
            final(self).received() == old(self).received() + chunk@,
            !final(self).is_done(),
            !final(self).is_failed(),
            ({
                let p = percent_of(
                    old(self).received().len() + chunk@.len() as int,
                    old(self).total() as int,
                );
                &&& (p == old(self).last_reported() ==> r is None)
                &&& (p != old(self).last_reported() ==> r == Some(p as u8))
            }),
            r matches Some(p) ==> p > old(self).last_reported() && p <= 100,
            final(self).last_reported() == if r is Some {
                r->0
            } else {
                old(self).last_reported()
            },
    {
        let r = self.progress.record(chunk.len() as u64);
        proof {
            self.received@ = self.received@ + chunk@;
        }
        r
    }

    /// A zero-length read: the remote side is finished; the transfer is
    /// complete with exactly the bytes received so far.
    pub fn on_eof(&mut self) -> (r: Result<(), SshError>)
        requires
            old(self).wf(),
            !old(self).is_done(),
            !old(self).is_failed(),
        ensures
            final(self).wf(),
            final(self).is_done(),
            !final(self).is_failed(),
            final(self).received() == old(self).received(),
            r is Ok,
    {
        self.done = true;
        Ok(())
    }

    /// A hard I/O error from either side: the transfer fails and commits
    /// nothing further (whatever was already flushed stays).
    pub fn on_error(&mut self) -> (r: SshError)
        requires
            old(self).wf(),
        ensures
            final(self).wf(),
            final(self).is_failed(),
            final(self).received() == old(self).received(),
            r == SshError::TransferIo,
    {
        self.failed = true;
        SshError::TransferIo
    }
}

/// Drives an upload: local chunks are written remotely; a write shorter
/// than the chunk size signals the end of the data.
pub struct Upload {
    progress: ProgressTracker,
    written: Ghost<Seq<u8>>,
    done: bool,
    failed: bool,
}

impl Upload {
    /// The bytes written so far, in order.
    pub closed spec fn written(&self) -> Seq<u8> {
        self.written@
    }

    /// The local file size the send channel was declared with.
    pub closed spec fn total(&self) -> u64 {
        self.progress.total()
    }

    pub closed spec fn is_done(&self) -> bool {
        self.done
    }

    pub closed spec fn is_failed(&self) -> bool {
        self.failed
    }

    /// The percent value most recently reported.
    pub closed spec fn last_reported(&self) -> u8 {
        self.progress.last_reported()
    }

    pub closed spec fn wf(&self) -> bool {
        &&& self.progress.wf()
        &&& self.written@.len() == self.progress.count()
    }

    /// Opens the accounting for a local file of `size` bytes.
    pub fn new(size: u64) -> (r: Upload)
        ensures
            r.wf(),
            r.total() == size,
            r.written() == Seq::<u8>::empty(),
            !r.is_done(),
            !r.is_failed(),
            r.last_reported() == 0,
    {
        Upload {
            progress: ProgressTracker::new(size),
            written: Ghost(Seq::empty()),
            done: false,
            failed: false,
        }
    }

    /// How many bytes went out so far, for the caller that moves them.
    pub fn bytes_written(&self) -> (r: u64)
        requires
            self.wf(),
        ensures
            r == self.written().len(),
    {
        self.progress.count
    }

    /// The declared local size, for the caller that moves the bytes.
    pub fn size(&self) -> (r: u64)
        ensures
            r == self.total(),
    {
        self.progress.total
    }

    /// Whether the transfer ended, by completion or failure.
    pub fn is_over(&self) -> (r: bool)
        ensures
            r == (self.is_done() || self.is_failed()),
    {
        self.done || self.failed
    }

    /// Accounts for one chunk written remotely; a chunk shorter than
    /// `CHUNK_SIZE` is the last one and completes the upload.
    pub fn on_chunk(&mut self, chunk: &Vec<u8>) -> (r: Option<u8>)
        requires
            old(self).wf(),
            !old(self).is_done(),
            !old(self).is_failed(),
            old(self).written().len() + chunk@.len() <= old(self).total(),
            chunk@.len() <= CHUNK_SIZE,
        ensures
            final(self).wf(),
            final(self).total() == old(self).total(),
            final(self).written() == old(self).written() + chunk@,
            final(self).is_done() <==> chunk@.len() < CHUNK_SIZE,
            !final(self).is_failed(),
            ({
                let p = percent_of(
                    old(self).written().len() + chunk@.len() as int,
                    old(self).total() as int,
                );
                &&& (p == old(self).last_reported() ==> r is None)
                &&& (p != old(self).last_reported() ==> r == Some(p as u8))
            }),
            r matches Some(p) ==> p > old(self).last_reported() && p <= 100,
    {
        let r = self.progress.record(chunk.len() as u64);
        proof {
            self.written@ = self.written@ + chunk@;
        }
        if chunk.len() < CHUNK_SIZE {
            self.done = true;
        }
        r
    }

    /// A hard I/O error from either side: the transfer fails.
    pub fn on_error(&mut self) -> (r: SshError)
        requires
            old(self).wf(),
        ensures
            final(self).wf(),
            final(self).is_failed(),
            final(self).written() == old(self).written(),
            r == SshError::TransferIo,
    {
        self.failed = true;
        SshError::TransferIo
    }
}

} // verus!
