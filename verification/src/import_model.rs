//! What an import achieves, proved against a model of its surroundings.
//!
//! The model is the importer's view of the world: a source file, and a store
//! that keeps committed payloads apart from the row of an open transaction.
//! A source that was opened so that nobody else may write to it, or that
//! nobody happens to write to, is read as it was when it was opened. Any
//! other source may deliver anything. A [`Reply`] stands for everything the
//! importer cannot decide: whether an action succeeds, how many bytes a read
//! delivers and, of an unguarded source, which; the row identifier the store
//! assigns; and what a failed write leaves behind.

use vstd::prelude::*;
use crate::documents::first_payload;
use crate::import::{ImportAction, ImportEvent, ImportState, OpenMode, CHUNK_SIZE};

verus! {

/// The source file and the store, as far as an import is concerned.
pub struct World {
    /// The bytes of the source file at the time it is opened.
    pub source: Seq<u8>,
    /// Whether no other process writes to the source during the import.
    pub quiet: bool,
    /// Whether the source, once open, is sure to stay as it was: it was
    /// opened denying writers, or nobody writes to it anyway.
    pub guarded: bool,
    /// The bytes the reads have delivered since the source was opened.
    pub delivered: Seq<u8>,
    /// What the last read left in the buffer.
    pub buffer: Seq<u8>,
    /// The committed document payloads, oldest first.
    pub rows: Seq<Seq<u8>>,
    /// The payload of the row inserted in the open transaction, if any.
    pub pending: Option<Seq<u8>>,
}

/// What the surroundings make of one action.
pub struct Reply {
    /// Whether the action succeeds.
    pub ok: bool,
    /// How many bytes a read of a guarded source would like to deliver.
    pub amount: nat,
    /// What a read of an unguarded source would like to deliver.
    pub data: Seq<u8>,
    /// The identifier the store assigns to an inserted row.
    pub rowid: i64,
    /// What the uncommitted row holds after a write that failed.
    pub debris: Seq<u8>,
}

/// An import under way: the importer's state and the world it acts on.
pub struct ImportRun {
    pub state: ImportState,
    pub world: World,
}

/// `n` zero bytes.
pub open spec fn zeros(n: nat) -> Seq<u8> {
    Seq::new(n, |i: int| 0u8)
}

/// `payload` with `data` written over the bytes from `offset` on.
pub open spec fn overwrite(payload: Seq<u8>, offset: nat, data: Seq<u8>) -> Seq<u8> {
    payload.take(offset as int) + data + payload.skip((offset + data.len()) as int)
}

/// `data` followed by zeros up to a length of `len`.
pub open spec fn padded(data: Seq<u8>, len: nat) -> Seq<u8> {
    data + zeros((len - data.len()) as nat)
}

/// The number of bytes a read delivers when `remaining` bytes are left, the
/// buffer takes `max_len`, and the reply asks for `amount`: nothing at the
/// end of the file, and otherwise at least one byte and no more than are left
/// or fit.
pub open spec fn read_size(remaining: nat, max_len: usize, amount: nat) -> nat {
    if remaining == 0 || max_len == 0 {
        0
    } else if amount == 0 {
        1
    } else if amount > remaining || amount > max_len {
        if remaining <= max_len {
            remaining
        } else {
            max_len as nat
        }
    } else {
        amount
    }
}

impl World {
    /// A world in which no import has begun: no transaction is open.
    pub open spec fn idle(self) -> bool {
        &&& self.pending is None
        &&& self.source.len() <= u64::MAX
    }

    /// What a read into a buffer of `max_len` bytes delivers: of a guarded
    /// source the next bytes, as many as `read_size` says; of any other
    /// source whatever the reply holds, as far as it fits the buffer.
    pub open spec fn read(self, max_len: usize, reply: Reply) -> Seq<u8> {
        if self.guarded {
            let start = self.delivered.len();
            let count = read_size((self.source.len() - start) as nat, max_len, reply.amount);
            self.source.subrange(start as int, (start + count) as int)
        } else if reply.data.len() <= max_len {
            reply.data
        } else {
            reply.data.take(max_len as int)
        }
    }

    /// The world after `action` was performed with `reply`, and the event
    /// that reports it.
    pub open spec fn perform(self, action: ImportAction, reply: Reply) -> (World, ImportEvent) {
        match action {
            ImportAction::OpenSource { mode } => {
                if reply.ok {
                    (
                        World {
                            guarded: mode == OpenMode::ShareDenyWrite || self.quiet,
                            delivered: Seq::empty(),
                            buffer: Seq::empty(),
                            ..self
                        },
                        ImportEvent::SourceOpened { len: self.source.len() as u64 },
                    )
                } else {
                    (self, ImportEvent::SourceFailed)
                }
            },
            ImportAction::BeginTransaction => {
                if reply.ok {
                    (World { pending: None, ..self }, ImportEvent::TransactionBegun)
                } else {
                    (self, ImportEvent::StoreFailed)
                }
            },
            ImportAction::InsertZeroBlob { len } => {
                if reply.ok {
                    (
                        World { pending: Some(zeros(len as nat)), ..self },
                        ImportEvent::RowInserted { rowid: reply.rowid },
                    )
                } else {
                    (self, ImportEvent::StoreFailed)
                }
            },
            ImportAction::OpenBlob { .. } => {
                if reply.ok && self.pending is Some {
                    (self, ImportEvent::BlobOpened)
                } else {
                    (self, ImportEvent::StoreFailed)
                }
            },
            ImportAction::ReadChunk { max_len } => {
                if reply.ok && (self.guarded ==> self.delivered.len() <= self.source.len()) {
                    let bytes = self.read(max_len, reply);
                    (
                        World { delivered: self.delivered + bytes, buffer: bytes, ..self },
                        ImportEvent::ChunkRead { count: bytes.len() as usize },
                    )
                } else {
                    (self, ImportEvent::SourceFailed)
                }
            },
            ImportAction::WriteChunk { offset, count } => {
                match self.pending {
                    Some(payload) => {
                        if reply.ok && count <= self.buffer.len() && offset + count
                            <= payload.len() {
                            (
                                World {
                                    pending: Some(
                                        overwrite(
                                            payload,
                                            offset as nat,
                                            self.buffer.take(count as int),
                                        ),
                                    ),
                                    ..self
                                },
                                ImportEvent::ChunkWritten,
                            )
                        } else {
                            (
                                World { pending: Some(reply.debris), ..self },
                                ImportEvent::StoreFailed,
                            )
                        }
                    },
                    None => (self, ImportEvent::StoreFailed),
                }
            },
            ImportAction::CloseBlob => {
                if reply.ok {
                    (self, ImportEvent::BlobClosed)
                } else {
                    (self, ImportEvent::StoreFailed)
                }
            },
            ImportAction::Commit => {
                match self.pending {
                    Some(payload) => {
                        if reply.ok {
                            (
                                World { rows: self.rows.push(payload), pending: None, ..self },
                                ImportEvent::Committed,
                            )
                        } else {
                            (self, ImportEvent::StoreFailed)
                        }
                    },
                    None => (self, ImportEvent::StoreFailed),
                }
            },
            ImportAction::Finish { .. } => (self, ImportEvent::Committed),
            ImportAction::Abort { .. } => (
                World { pending: None, ..self },
                ImportEvent::StoreFailed,
            ),
        }
    }
}

impl ImportRun {
    /// A fresh import in `world`.
    pub open spec fn start(can_deny_writers: bool, world: World) -> ImportRun {
        ImportRun { state: ImportState::initial(can_deny_writers), world }
    }

    /// One turn of the driver: perform the action the state waits on, report
    /// the event.
    pub open spec fn turn(self, reply: Reply) -> ImportRun {
        let (world, event) = self.world.perform(self.state.action(), reply);
        ImportRun { state: self.state.after(event), world }
    }

    /// As many turns as there are replies.
    pub open spec fn turns(self, replies: Seq<Reply>) -> ImportRun
        decreases replies.len(),
    {
        if replies.len() == 0 {
            self
        } else {
            self.turns(replies.drop_last()).turn(replies.last())
        }
    }

    /// Whether the source of this import is sure to be read as it was when
    /// it was opened.
    pub open spec fn guarded(can_deny_writers: bool, world: World) -> bool {
        can_deny_writers || world.quiet
    }

    /// How the importer's state and the world hang together in an import
    /// that started when the store held `before`, on a source that is
    /// guarded or not.
    pub open spec fn coherent(self, before: Seq<Seq<u8>>, guarded: bool) -> bool {
        let world = self.world;
        let total = world.source.len();
        &&& total <= u64::MAX
        &&& match self.state {
            ImportState::OpeningSource { mode } => {
                &&& world.rows == before
                &&& world.pending is None
                &&& guarded == (mode == OpenMode::ShareDenyWrite || world.quiet)
            },
            ImportState::BeginningTransaction { len } => {
                &&& world.rows == before
                &&& world.pending is None
                &&& world.guarded == guarded
                &&& len == total
                &&& world.delivered.len() == 0
            },
            ImportState::InsertingRow { len } => {
                &&& world.rows == before
                &&& world.pending is None
                &&& world.guarded == guarded
                &&& len == total
                &&& world.delivered.len() == 0
            },
            ImportState::OpeningBlob { len, .. } => {
                &&& world.rows == before
                &&& world.pending == Some(zeros(total))
                &&& world.guarded == guarded
                &&& len == total
                &&& world.delivered.len() == 0
            },
            ImportState::ReadingChunk { len, written, .. } => {
                &&& world.rows == before
                &&& world.guarded == guarded
                &&& len == total
                &&& written <= total
                &&& world.delivered.len() == written
                &&& world.pending == Some(padded(world.delivered, total))
                &&& guarded ==> world.delivered == world.source.take(written as int)
            },
            ImportState::WritingChunk { len, written, chunk, .. } => {
                &&& world.rows == before
                &&& world.guarded == guarded
                &&& len == total
                &&& 0 < chunk <= CHUNK_SIZE
                &&& written + chunk <= total
                &&& world.delivered.len() == written + chunk
                &&& world.buffer == world.delivered.skip(written as int)
                &&& world.pending == Some(padded(world.delivered.take(written as int), total))
                &&& guarded ==> world.delivered == world.source.take(written + chunk)
            },
            ImportState::ClosingBlob { len, written, .. } => {
                &&& world.rows == before
                &&& len == total
                &&& written <= total
                &&& world.delivered.len() == written
                &&& world.pending == Some(padded(world.delivered, total))
                &&& guarded ==> world.delivered == world.source
            },
            ImportState::Committing { len, written, .. } => {
                &&& world.rows == before
                &&& len == total
                &&& written <= total
                &&& world.delivered.len() == written
                &&& world.pending == Some(padded(world.delivered, total))
                &&& guarded ==> world.delivered == world.source
            },
            ImportState::Done { len, written, .. } => {
                &&& world.rows == before.push(padded(world.delivered, total))
                &&& world.pending is None
                &&& len == total
                &&& written <= total
                &&& world.delivered.len() == written
                &&& guarded ==> world.delivered == world.source
            },
            ImportState::Failed { .. } => world.rows == before,
        }
    }
}

/// A read never delivers more than is left or fits, and delivers nothing only
/// at the end of the file.
pub proof fn lemma_read_size(remaining: nat, max_len: usize, amount: nat)
    ensures
        read_size(remaining, max_len, amount) <= remaining,
        read_size(remaining, max_len, amount) <= max_len,
        max_len > 0 ==> (read_size(remaining, max_len, amount) == 0 <==> remaining == 0),
{
}

/// Writing `chunk` behind `data` over the zeros of a padded payload gives the
/// payload padded behind both.
pub proof fn lemma_overwrite_extends(data: Seq<u8>, chunk: Seq<u8>, len: nat)
    requires
        data.len() + chunk.len() <= len,
    ensures
        overwrite(padded(data, len), data.len(), chunk) == padded(data + chunk, len),
{
    let old_payload = padded(data, len);
    let new_payload = overwrite(old_payload, data.len(), chunk);
    let expected = padded(data + chunk, len);
    assert(new_payload.len() == expected.len());
    assert forall|i: int| 0 <= i < new_payload.len() implies new_payload[i] == expected[i] by {
        if i < data.len() {
            assert(new_payload[i] == old_payload[i]);
        } else if i < data.len() + chunk.len() {
            assert(new_payload[i] == chunk[i - data.len()]);
        } else {
            assert(new_payload[i] == old_payload.skip((data.len() + chunk.len()) as int)[i
                - data.len() - chunk.len()]);
        }
    }
    assert(new_payload =~= expected);
}

/// One turn keeps the importer and the world coherent.
pub proof fn lemma_turn_coherent(
    run: ImportRun,
    before: Seq<Seq<u8>>,
    guarded: bool,
    reply: Reply,
)
    requires
        run.coherent(before, guarded),
    ensures
        run.turn(reply).coherent(before, guarded),
        run.turn(reply).world.source == run.world.source,
{
    let world = run.world;
    let total = world.source.len();
    match run.state {
        ImportState::OpeningBlob { .. } => {
            assert(padded(world.delivered, total) =~= zeros(total));
            assert(world.delivered =~= world.source.take(0));
        },
        ImportState::ReadingChunk { len, written, .. } => {
            if reply.ok {
                let bytes = world.read(CHUNK_SIZE, reply);
                let after = world.delivered + bytes;
                if guarded {
                    lemma_read_size((total - written) as nat, CHUNK_SIZE, reply.amount);
                    assert(after =~= world.source.take(written + bytes.len()));
                    if bytes.len() == 0 {
                        assert(world.delivered =~= world.source);
                    }
                }
                assert(after.skip(written as int) =~= bytes);
                assert(after.take(written as int) =~= world.delivered);
                if bytes.len() == 0 {
                    assert(after =~= world.delivered);
                }
            }
        },
        ImportState::WritingChunk { len, written, chunk, .. } => {
            if reply.ok {
                let data = world.delivered.take(written as int);
                assert(world.buffer.take(chunk as int) =~= world.buffer);
                assert(data + world.buffer =~= world.delivered);
                lemma_overwrite_extends(data, world.buffer, total);
            }
        },
        _ => {},
    }
}

/// Every import that starts in an idle world stays coherent with the rows
/// the store held at the start, whatever the replies.
pub proof fn lemma_turns_coherent(can_deny_writers: bool, world: World, replies: Seq<Reply>)
    requires
        world.idle(),
    ensures
        ImportRun::start(can_deny_writers, world).turns(replies).coherent(
            world.rows,
            ImportRun::guarded(can_deny_writers, world),
        ),
        ImportRun::start(can_deny_writers, world).turns(replies).world.source == world.source,
    decreases replies.len(),
{
    let start = ImportRun::start(can_deny_writers, world);
    if replies.len() > 0 {
        lemma_turns_coherent(can_deny_writers, world, replies.drop_last());
        lemma_turn_coherent(
            start.turns(replies.drop_last()),
            world.rows,
            ImportRun::guarded(can_deny_writers, world),
            replies.last(),
        );
    }
}

/// An upper bound on the turns a coherent import still needs when nothing
/// fails.
pub open spec fn turns_left(run: ImportRun) -> nat {
    let total = run.world.source.len();
    match run.state {
        ImportState::OpeningSource { .. } => 2 * total + 7,
        ImportState::BeginningTransaction { .. } => 2 * total + 6,
        ImportState::InsertingRow { .. } => 2 * total + 5,
        ImportState::OpeningBlob { .. } => 2 * total + 4,
        ImportState::ReadingChunk { written, .. } => (2 * (total - written) + 3) as nat,
        ImportState::WritingChunk { written, chunk, .. } => (2 * (total - written - chunk)
            + 4) as nat,
        ImportState::ClosingBlob { .. } => 2,
        ImportState::Committing { .. } => 1,
        ImportState::Done { .. } => 0,
        ImportState::Failed { .. } => 0,
    }
}

/// A turn that succeeds brings a coherent import closer to its end; on a
/// guarded source it never makes it fail.
pub proof fn lemma_turn_progress(
    run: ImportRun,
    before: Seq<Seq<u8>>,
    guarded: bool,
    reply: Reply,
)
    requires
        run.coherent(before, guarded),
        reply.ok,
    ensures
        guarded && !(run.state is Failed) ==> !(run.turn(reply).state is Failed),
        run.state.finished() ==> run.turn(reply).state == run.state,
        !run.state.finished() ==> turns_left(run.turn(reply)) < turns_left(run),
{
    let world = run.world;
    let total = world.source.len();
    match run.state {
        ImportState::ReadingChunk { written, .. } => {
            if guarded {
                lemma_read_size((total - written) as nat, CHUNK_SIZE, reply.amount);
            }
        },
        ImportState::WritingChunk { written, chunk, .. } => {
            assert(world.buffer.len() == chunk);
            assert(padded(world.delivered.take(written as int), total).len() == total);
        },
        _ => {},
    }
}

/// With replies that all succeed, the turns an import still needs shrink by
/// one with every reply until it has ended, and an import from a guarded
/// source has not failed.
pub proof fn lemma_turns_progress(can_deny_writers: bool, world: World, replies: Seq<Reply>)
    requires
        world.idle(),
        forall|i: int| 0 <= i < replies.len() ==> (#[trigger] replies[i]).ok,
    ensures
        ({
            let run = ImportRun::start(can_deny_writers, world).turns(replies);
            &&& ImportRun::guarded(can_deny_writers, world) ==> !(run.state is Failed)
            &&& run.state.finished() || turns_left(run) + replies.len() <= 2 * world.source.len()
                + 7
        }),
    decreases replies.len(),
{
    let start = ImportRun::start(can_deny_writers, world);
    if replies.len() > 0 {
        let earlier = replies.drop_last();
        assert forall|i: int| 0 <= i < earlier.len() implies (#[trigger] earlier[i]).ok by {
            assert(earlier[i] == replies[i]);
        }
        lemma_turns_progress(can_deny_writers, world, earlier);
        lemma_turns_coherent(can_deny_writers, world, earlier);
        lemma_turn_progress(
            start.turns(earlier),
            world.rows,
            ImportRun::guarded(can_deny_writers, world),
            replies.last(),
        );
    }
}

/// Completion: when no action fails, an import of `n` source bytes has ended
/// after at most `2 n + 7` turns, however the reads cut the source into
/// chunks; and where the source is guarded, it has ended well.
pub proof fn law_completes(can_deny_writers: bool, world: World, replies: Seq<Reply>)
    requires
        world.idle(),
        forall|i: int| 0 <= i < replies.len() ==> (#[trigger] replies[i]).ok,
        replies.len() >= 2 * world.source.len() + 7,
    ensures
        ImportRun::start(can_deny_writers, world).turns(replies).state.finished(),
        ImportRun::guarded(can_deny_writers, world) ==> ImportRun::start(
            can_deny_writers,
            world,
        ).turns(replies).state is Done,
{
    lemma_turns_progress(can_deny_writers, world, replies);
    lemma_turns_coherent(can_deny_writers, world, replies);
}

/// Round trip: an import from a guarded source that reaches `Done` has added
/// exactly one row, and that row holds the bytes of the source, all of them
/// and nothing else. The rows that were there before are untouched.
pub proof fn law_round_trip(can_deny_writers: bool, world: World, replies: Seq<Reply>)
    requires
        world.idle(),
        ImportRun::guarded(can_deny_writers, world),
        ImportRun::start(can_deny_writers, world).turns(replies).state is Done,
    ensures
        ImportRun::start(can_deny_writers, world).turns(replies).world.rows == world.rows.push(
            world.source,
        ),
        ImportRun::start(can_deny_writers, world).turns(replies).world.pending is None,
{
    lemma_turns_coherent(can_deny_writers, world, replies);
    assert(padded(world.source, world.source.len()) =~= world.source);
}

/// The source is stored: when no action fails, an import from a guarded
/// source of `n` bytes has, after at most `2 n + 7` turns, added one row
/// whose bytes are those of the source, and touched no other.
pub proof fn law_source_is_stored(can_deny_writers: bool, world: World, replies: Seq<Reply>)
    requires
        world.idle(),
        ImportRun::guarded(can_deny_writers, world),
        forall|i: int| 0 <= i < replies.len() ==> (#[trigger] replies[i]).ok,
        replies.len() >= 2 * world.source.len() + 7,
    ensures
        ImportRun::start(can_deny_writers, world).turns(replies).world.rows == world.rows.push(
            world.source,
        ),
{
    law_completes(can_deny_writers, world, replies);
    law_round_trip(can_deny_writers, world, replies);
}

/// What is committed is what was read: whether the source is guarded or not,
/// an import that reaches `Done` has added exactly one row. It has the
/// length the source had when it was opened, starts with the bytes the reads
/// delivered, in their order, and is zero behind them.
pub proof fn law_committed_is_what_was_read(
    can_deny_writers: bool,
    world: World,
    replies: Seq<Reply>,
)
    requires
        world.idle(),
        ImportRun::start(can_deny_writers, world).turns(replies).state is Done,
    ensures
        ({
            let run = ImportRun::start(can_deny_writers, world).turns(replies);
            &&& run.world.delivered.len() <= world.source.len()
            &&& run.world.rows == world.rows.push(
                padded(run.world.delivered, world.source.len()),
            )
            &&& run.state matches ImportState::Done { len, written, .. } && len
                == world.source.len() && written == run.world.delivered.len()
        }),
{
    lemma_turns_coherent(can_deny_writers, world, replies);
}

/// Atomicity: until an import is `Done` the committed rows are those from
/// before it started, whatever failed and wherever; and once a failed import
/// has performed its `Abort`, no uncommitted row is left either.
pub proof fn law_no_row_unless_done(can_deny_writers: bool, world: World, replies: Seq<Reply>)
    requires
        world.idle(),
        !(ImportRun::start(can_deny_writers, world).turns(replies).state is Done),
    ensures
        ImportRun::start(can_deny_writers, world).turns(replies).world.rows == world.rows,
        forall|reply: Reply|
            ImportRun::start(can_deny_writers, world).turns(replies).state is Failed ==> {
                let after = #[trigger] ImportRun::start(can_deny_writers, world).turns(
                    replies,
                ).turn(reply);
                after.world.rows == world.rows && after.world.pending is None
            },
{
    lemma_turns_coherent(can_deny_writers, world, replies);
}

/// Pre-allocation: from the moment the row is inserted until the first chunk
/// is written, its payload has the length of the source and is all zeros.
pub proof fn law_preallocated(can_deny_writers: bool, world: World, replies: Seq<Reply>)
    requires
        world.idle(),
        match ImportRun::start(can_deny_writers, world).turns(replies).state {
            ImportState::OpeningBlob { .. } => true,
            ImportState::ReadingChunk { written, .. } => written == 0,
            ImportState::WritingChunk { written, .. } => written == 0,
            _ => false,
        },
    ensures
        ImportRun::start(can_deny_writers, world).turns(replies).world.pending == Some(
            zeros(world.source.len()),
        ),
{
    lemma_turns_coherent(can_deny_writers, world, replies);
    let run = ImportRun::start(can_deny_writers, world).turns(replies);
    assert(padded(run.world.delivered.take(0), world.source.len()) =~= zeros(world.source.len()));
    assert(run.state is ReadingChunk ==> run.world.delivered =~= run.world.delivered.take(0));
}

/// Fixed length: from the insert to the commit, the payload of the new row
/// has the length it was allocated with, that of the source; no write
/// resizes it.
pub proof fn law_length_is_fixed(can_deny_writers: bool, world: World, replies: Seq<Reply>)
    requires
        world.idle(),
        match ImportRun::start(can_deny_writers, world).turns(replies).state {
            ImportState::OpeningBlob { .. } => true,
            ImportState::ReadingChunk { .. } => true,
            ImportState::WritingChunk { .. } => true,
            ImportState::ClosingBlob { .. } => true,
            ImportState::Committing { .. } => true,
            _ => false,
        },
    ensures
        ImportRun::start(can_deny_writers, world).turns(replies).world.pending is Some,
        ImportRun::start(can_deny_writers, world).turns(replies).world.pending->Some_0.len()
            == world.source.len(),
{
    lemma_turns_coherent(can_deny_writers, world, replies);
}

/// Fetch after import: a fetch that follows an import from a guarded source
/// into an empty store returns the bytes of the source; where the store held
/// documents already, it returns what it returned before.
pub proof fn law_fetch_after_import(can_deny_writers: bool, world: World, replies: Seq<Reply>)
    requires
        world.idle(),
        ImportRun::guarded(can_deny_writers, world),
        ImportRun::start(can_deny_writers, world).turns(replies).state is Done,
    ensures
        first_payload(ImportRun::start(can_deny_writers, world).turns(replies).world.rows)
            == if world.rows.len() == 0 {
            Some(world.source)
        } else {
            first_payload(world.rows)
        },
{
    law_round_trip(can_deny_writers, world, replies);
}

/// One buffer: however large the source, no read leaves more than
/// `CHUNK_SIZE` bytes in the buffer.
pub proof fn law_one_buffer(can_deny_writers: bool, world: World, replies: Seq<Reply>)
    requires
        world.buffer.len() <= CHUNK_SIZE,
    ensures
        ImportRun::start(can_deny_writers, world).turns(replies).world.buffer.len() <= CHUNK_SIZE,
    decreases replies.len(),
{
    if replies.len() > 0 {
        law_one_buffer(can_deny_writers, world, replies.drop_last());
        let run = ImportRun::start(can_deny_writers, world).turns(replies.drop_last());
        let reply = replies.last();
        match run.state.action() {
            ImportAction::ReadChunk { max_len } => {
                if run.world.guarded && run.world.delivered.len() <= run.world.source.len() {
                    lemma_read_size(
                        (run.world.source.len() - run.world.delivered.len()) as nat,
                        max_len,
                        reply.amount,
                    );
                }
            },
            _ => {},
        }
    }
}

} // verus!
