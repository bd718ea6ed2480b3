//! The single-pass copy of an upstream body to the cache file and to the
//! client, as a state machine.
//!
//! The caller reads the source, writes the file and feeds the client; after
//! each of these it reports what happened to [`StoreSession::advance`] and does
//! what the returned action says. A chunk goes to the client only after it has
//! reached the file, so the client never sees bytes that the file lacks.

use crate::cache::{after_store, body_path, CacheStatsInternal};
use vstd::prelude::*;

verus! {

/// Where a store stands.
#[derive(Clone, Copy, Debug, PartialEq, Eq, Structural)]
pub enum StorePhase {
    /// Waiting for the next chunk of the source.
    Streaming,
    /// A chunk is being written to the file.
    Writing,
    /// The source ended and the body is counted.
    Complete,
    /// The store was given up; what the file holds so far stays on disk.
    Abandoned,
}

/// What the caller reports.
#[derive(Debug)]
pub enum StoreEvent {
    /// The source delivered a chunk.
    Chunk(Vec<u8>),
    /// The chunk handed out for writing has reached the file.
    Written,
    /// Writing to the file, or creating it, failed.
    WriteFailed,
    /// Reading the source failed.
    SourceFailed,
    /// The source ended.
    SourceEnded,
}

/// The view of a [`StoreEvent`].
pub enum StoreEventView {
    Chunk(Seq<u8>),
    Written,
    WriteFailed,
    SourceFailed,
    SourceEnded,
}

impl View for StoreEvent {
    type V = StoreEventView;

    open spec fn view(&self) -> StoreEventView {
        match *self {
            StoreEvent::Chunk(bytes) => StoreEventView::Chunk(bytes@),
            StoreEvent::Written => StoreEventView::Written,
            StoreEvent::WriteFailed => StoreEventView::WriteFailed,
            StoreEvent::SourceFailed => StoreEventView::SourceFailed,
            StoreEvent::SourceEnded => StoreEventView::SourceEnded,
        }
    }
}

/// What the caller is to do next.
#[derive(Debug)]
pub enum StoreAction {
    /// Write the pending chunk to the file, then report `Written` or `WriteFailed`.
    Write,
    /// Send these bytes to the client, whether or not it still listens, then
    /// read on.
    Forward(Vec<u8>),
    /// Close the file and end the client's body; the body has been counted.
    Finish,
    /// End the client's body with an error and leave the file as it is;
    /// nothing has been counted.
    Abort,
    /// Nothing: the store was over before this event.
    Nothing,
}

/// The view of a [`StoreAction`].
pub enum StoreActionView {
    Write,
    Forward(Seq<u8>),
    Finish,
    Abort,
    Nothing,
}

impl View for StoreAction {
    type V = StoreActionView;

    open spec fn view(&self) -> StoreActionView {
        match *self {
            StoreAction::Write => StoreActionView::Write,
            StoreAction::Forward(bytes) => StoreActionView::Forward(bytes@),
            StoreAction::Finish => StoreActionView::Finish,
            StoreAction::Abort => StoreActionView::Abort,
            StoreAction::Nothing => StoreActionView::Nothing,
        }
    }
}

/// The state of a store: its phase, the chunk being written, the number of
/// bytes counted, and all the bytes that have reached the file and the client.
pub struct StoreView {
    pub phase: StorePhase,
    pub pending: Seq<u8>,
    pub total_bytes: u64,
    pub written: Seq<u8>,
    pub forwarded: Seq<u8>,
}

/// A store that has moved nothing yet.
pub open spec fn fresh_store() -> StoreView {
    StoreView {
        phase: StorePhase::Streaming,
        pending: Seq::empty(),
        total_bytes: 0,
        written: Seq::empty(),
        forwarded: Seq::empty(),
    }
}

/// The state in which a store is given up.
pub open spec fn abandoned(s: StoreView) -> StoreView {
    StoreView { phase: StorePhase::Abandoned, pending: Seq::empty(), ..s }
}

/// Whether a store is over.
pub open spec fn is_over(s: StoreView) -> bool {
    s.phase == StorePhase::Complete || s.phase == StorePhase::Abandoned
}

/// The state after an event, and the action it calls for.
///
/// While streaming, a chunk is taken in to be written, the end of the source
/// completes the store and a failure of the source gives it up. While
/// writing, a confirmed write counts the chunk and passes it on to the
/// client, unless the count would leave 64 bits; a failed write gives the
/// store up. Any other event gives an open store up and leaves a finished one
/// alone.
pub open spec fn store_step(s: StoreView, event: StoreEventView) -> (StoreView, StoreActionView) {
    if is_over(s) {
        (s, StoreActionView::Nothing)
    } else if s.phase == StorePhase::Streaming {
        match event {
            StoreEventView::Chunk(bytes) => (
                StoreView { phase: StorePhase::Writing, pending: bytes, ..s },
                StoreActionView::Write,
            ),
            StoreEventView::SourceEnded => (
                StoreView { phase: StorePhase::Complete, pending: Seq::empty(), ..s },
                StoreActionView::Finish,
            ),
            _ => (abandoned(s), StoreActionView::Abort),
        }
    } else {
        match event {
            StoreEventView::Written => if s.total_bytes + s.pending.len() <= u64::MAX {
                (
                    StoreView {
                        phase: StorePhase::Streaming,
                        pending: Seq::empty(),
                        total_bytes: (s.total_bytes + s.pending.len()) as u64,
                        written: s.written + s.pending,
                        forwarded: s.forwarded + s.pending,
                    },
                    StoreActionView::Forward(s.pending),
                )
            } else {
                (abandoned(s), StoreActionView::Abort)
            },
            _ => (abandoned(s), StoreActionView::Abort),
        }
    }
}

/// The counters after a step: a finished store counts one more item and its
/// bytes, every other step counts nothing.
pub open spec fn counters_after_step(
    stats: CacheStatsInternal,
    s: StoreView,
    event: StoreEventView,
) -> CacheStatsInternal {
    if store_step(s, event).1 is Finish {
        after_store(stats, s.total_bytes)
    } else {
        stats
    }
}

/// Whether the client got exactly what the file got, and the count is the
/// length of both.
pub open spec fn copies_agree(s: StoreView) -> bool {
    s.written == s.forwarded && s.total_bytes == s.written.len()
}

/// One store in progress.
pub struct StoreSession {
    phase: StorePhase,
    pending: Vec<u8>,
    total_bytes: u64,
    written: Ghost<Seq<u8>>,
    forwarded: Ghost<Seq<u8>>,
}

impl View for StoreSession {
    type V = StoreView;

    closed spec fn view(&self) -> StoreView {
        StoreView {
            phase: self.phase,
            pending: self.pending@,
            total_bytes: self.total_bytes,
            written: self.written@,
            forwarded: self.forwarded@,
        }
    }
}

impl StoreSession {
    /// A store that has moved nothing yet.
    pub fn new() -> (session: StoreSession)
        ensures
            session@ == fresh_store(),
    {
        StoreSession {
            phase: StorePhase::Streaming,
            pending: Vec::new(),
            total_bytes: 0,
            written: Ghost(Seq::empty()),
            forwarded: Ghost(Seq::empty()),
        }
    }

    /// Where the store stands.
    pub fn phase(&self) -> (phase: StorePhase)
        ensures
            phase == self@.phase,
    {
        self.phase
    }

    /// The chunk to write to the file.
    pub fn pending(&self) -> (bytes: &Vec<u8>)
        ensures
            bytes@ == self@.pending,
    {
        &self.pending
    }

    /// The number of bytes counted so far.
    pub fn total_bytes(&self) -> (n: u64)
        ensures
            n == self@.total_bytes,
    {
        self.total_bytes
    }

    fn give_up(&mut self) -> (action: StoreAction)
        ensures
            final(self)@ == abandoned(old(self)@),
            action@ == StoreActionView::Abort,
    {
        self.phase = StorePhase::Abandoned;
        self.pending = Vec::new();
        StoreAction::Abort
    }

    /// Takes an event in and says what to do next. The state moves, and the
    /// action is chosen, as [`store_step`] says; the counters move as
    /// [`counters_after_step`] says.
    pub fn advance(&mut self, event: StoreEvent, stats: &mut CacheStatsInternal) -> (action: StoreAction)
        ensures
            (final(self)@, action@) == store_step(old(self)@, event@),
            *final(stats) == counters_after_step(*old(stats), old(self)@, event@),
    {
        match self.phase {
            StorePhase::Complete | StorePhase::Abandoned => StoreAction::Nothing,
            StorePhase::Streaming => match event {
                StoreEvent::Chunk(bytes) => {
                    self.pending = bytes;
                    self.phase = StorePhase::Writing;
                    StoreAction::Write
                },
                StoreEvent::SourceEnded => {
                    self.phase = StorePhase::Complete;
                    self.pending = Vec::new();
                    stats.disk_items = stats.disk_items.wrapping_add(1);
                    stats.total_disk_size_bytes = stats.total_disk_size_bytes.wrapping_add(
                        self.total_bytes,
                    );
                    StoreAction::Finish
                },
                _ => self.give_up(),
            },
            StorePhase::Writing => match event {
                StoreEvent::Written => {
                    let len = self.pending.len() as u64;
                    match self.total_bytes.checked_add(len) {
                        Some(total) => {
                            let mut chunk: Vec<u8> = Vec::new();
                            std::mem::swap(&mut chunk, &mut self.pending);
                            self.total_bytes = total;
                            self.phase = StorePhase::Streaming;
                            proof {
                                self.written@ = self.written@ + chunk@;
                                self.forwarded@ = self.forwarded@ + chunk@;
                            }
                            StoreAction::Forward(chunk)
                        },
                        None => self.give_up(),
                    }
                },
                _ => self.give_up(),
            },
        }
    }
}

/// All the bytes of a run of chunks, in order.
pub open spec fn concat_all(chunks: Seq<Seq<u8>>) -> Seq<u8>
    decreases chunks.len(),
{
    if chunks.len() == 0 {
        Seq::empty()
    } else {
        concat_all(chunks.drop_last()) + chunks.last()
    }
}

/// The state after each chunk of a run was taken in and its write confirmed.
pub open spec fn after_chunks(s: StoreView, chunks: Seq<Seq<u8>>) -> StoreView
    decreases chunks.len(),
{
    if chunks.len() == 0 {
        s
    } else {
        let before = after_chunks(s, chunks.drop_last());
        let taken = store_step(before, StoreEventView::Chunk(chunks.last())).0;
        store_step(taken, StoreEventView::Written).0
    }
}

/// Every step keeps the two copies equal: if the client and the file had the
/// same bytes before an event, they have the same bytes after it.
pub proof fn lemma_step_keeps_copies(s: StoreView, event: StoreEventView)
    requires
        copies_agree(s),
    ensures
        copies_agree(store_step(s, event).0),
{
}

/// A body that arrives whole is copied whole and in order: after its chunks,
/// the file and the client both hold their concatenation, and the end of the
/// source then completes the store and counts exactly those bytes.
pub proof fn lemma_whole_body_is_copied(chunks: Seq<Seq<u8>>, stats: CacheStatsInternal)
    requires
        concat_all(chunks).len() <= u64::MAX,
    ensures
        ({
            let s = after_chunks(fresh_store(), chunks);
            &&& s.phase == StorePhase::Streaming
            &&& s.written == concat_all(chunks)
            &&& s.forwarded == concat_all(chunks)
            &&& s.total_bytes == concat_all(chunks).len()
            &&& store_step(s, StoreEventView::SourceEnded).1 is Finish
            &&& counters_after_step(stats, s, StoreEventView::SourceEnded) == after_store(
                stats,
                concat_all(chunks).len() as u64,
            )
        }),
    decreases chunks.len(),
{
    if chunks.len() > 0 {
        lemma_whole_body_is_copied(chunks.drop_last(), stats);
    }
}

/// A source that fails gives the store up at once: the client's body is
/// ended with an error, nothing is counted, and what was copied so far stays
/// as it is.
pub proof fn lemma_source_failure_aborts(s: StoreView, stats: CacheStatsInternal)
    requires
        !is_over(s),
    ensures
        store_step(s, StoreEventView::SourceFailed) == (abandoned(s), StoreActionView::Abort),
        counters_after_step(stats, s, StoreEventView::SourceFailed) == stats,
        abandoned(s).written == s.written,
        abandoned(s).forwarded == s.forwarded,
{
}

/// The files of a cache directory, each path with its content.
pub open spec fn disk_after_store(
    disk: Map<Seq<char>, Seq<u8>>,
    dir: Seq<char>,
    key: Seq<char>,
    s: StoreView,
) -> Map<Seq<char>, Seq<u8>> {
    disk.insert(body_path(dir, key), s.written)
}

/// What a lookup of `key` streams from a disk: the content of the key's body
/// file, if there is one.
pub open spec fn disk_lookup(disk: Map<Seq<char>, Seq<u8>>, dir: Seq<char>, key: Seq<char>) -> Option<Seq<u8>> {
    if disk.contains_key(body_path(dir, key)) {
        Some(disk[body_path(dir, key)])
    } else {
        None
    }
}

/// Round trip: once a body has been stored whole under a key, a lookup of
/// that key yields the very bytes that the source delivered, which are also
/// the bytes that the client received.
pub proof fn lemma_store_then_lookup(
    disk: Map<Seq<char>, Seq<u8>>,
    dir: Seq<char>,
    key: Seq<char>,
    chunks: Seq<Seq<u8>>,
)
    requires
        concat_all(chunks).len() <= u64::MAX,
    ensures
        ({
            let s = after_chunks(fresh_store(), chunks);
            &&& disk_lookup(disk_after_store(disk, dir, key, s), dir, key) == Some(concat_all(chunks))
            &&& s.forwarded == concat_all(chunks)
        }),
{
    lemma_whole_body_is_copied(chunks, crate::cache::zero_counters());
}

} // verus!
