//! The blob importer: copying a source file into a new document row through
//! one bounded buffer.
//!
//! The importer never touches the file or the database. It is a state
//! machine: every [`ImportState`] names the [`ImportAction`] it waits on, the
//! driver performs that action and reports an [`ImportEvent`], and
//! [`ImportState::on`] gives the state that follows.

use vstd::prelude::*;
use crate::error::ErrorKind;

verus! {

/// Capacity of the buffer a source is read through: 1 MiB.
pub const CHUNK_SIZE: usize = 1048576;

/// How the source file is to be opened.
#[derive(Clone, Copy, Debug, PartialEq, Eq, Structural)]
pub enum OpenMode {
    /// Others may read the file while it is open, but not write to it.
    ShareDenyWrite,
    /// An ordinary read-only open; the file may change during the copy.
    Plain,
}

/// Something the driver must do next.
#[derive(Clone, Copy, Debug, PartialEq, Eq, Structural)]
pub enum ImportAction {
    /// Open the source for reading and determine its length.
    OpenSource { mode: OpenMode },
    /// Begin a transaction on the database.
    BeginTransaction,
    /// Insert one row whose payload is `len` zero bytes.
    InsertZeroBlob { len: u64 },
    /// Open a byte-range handle on the payload of row `rowid`.
    OpenBlob { rowid: i64 },
    /// Read up to `max_len` bytes from the source into the buffer.
    ReadChunk { max_len: usize },
    /// Write the first `count` bytes of the buffer at `offset` of the payload.
    WriteChunk { offset: u64, count: usize },
    /// Close the byte-range handle.
    CloseBlob,
    /// Commit the transaction.
    Commit,
    /// Report success: row `rowid` is durably present.
    Finish { rowid: i64 },
    /// Give up without committing and report a failure of `kind`.
    Abort { kind: ErrorKind },
}

/// What came of the action the driver performed.
#[derive(Clone, Copy, Debug, PartialEq, Eq, Structural)]
pub enum ImportEvent {
    /// The source is open and holds `len` bytes.
    SourceOpened { len: u64 },
    /// The source could not be opened, measured or read.
    SourceFailed,
    /// The transaction is open.
    TransactionBegun,
    /// The row was inserted and received `rowid`.
    RowInserted { rowid: i64 },
    /// The byte-range handle is open.
    BlobOpened,
    /// `count` bytes were read into the buffer; zero means end of file.
    ChunkRead { count: usize },
    /// The chunk was written.
    ChunkWritten,
    /// The byte-range handle is closed.
    BlobClosed,
    /// The transaction is committed.
    Committed,
    /// The store refused the action.
    StoreFailed,
}

/// Where an import stands: what it waits on and what it has achieved.
#[derive(Clone, Copy, Debug, PartialEq, Eq, Structural)]
pub enum ImportState {
    /// Waiting for the source to be opened.
    OpeningSource { mode: OpenMode },
    /// Waiting for the transaction; the source holds `len` bytes.
    BeginningTransaction { len: u64 },
    /// Waiting for the row to be inserted.
    InsertingRow { len: u64 },
    /// Waiting for the handle on the new row.
    OpeningBlob { len: u64, rowid: i64 },
    /// Waiting for the next chunk; `written` bytes are in place.
    ReadingChunk { len: u64, rowid: i64, written: u64 },
    /// Waiting for `chunk` bytes to be written at offset `written`.
    WritingChunk { len: u64, rowid: i64, written: u64, chunk: usize },
    /// The source is exhausted; waiting for the handle to be closed.
    ClosingBlob { len: u64, rowid: i64, written: u64 },
    /// The handle is closed; waiting for the commit.
    Committing { len: u64, rowid: i64, written: u64 },
    /// The row is committed.
    Done { len: u64, rowid: i64, written: u64 },
    /// The import was given up.
    Failed { kind: ErrorKind },
}

/// The open mode for a platform that can (or cannot) deny writers.
pub open spec fn open_mode(can_deny_writers: bool) -> OpenMode {
    if can_deny_writers {
        OpenMode::ShareDenyWrite
    } else {
        OpenMode::Plain
    }
}

/// Whether `chunk` more bytes fit a payload of `len` bytes of which `written`
/// are in place.
pub open spec fn fits(len: u64, written: u64, chunk: usize) -> bool {
    written + chunk <= len
}

impl ImportState {
    /// The state of a fresh import.
    pub open spec fn initial(can_deny_writers: bool) -> ImportState {
        ImportState::OpeningSource { mode: open_mode(can_deny_writers) }
    }

    /// Whether the import has ended, in success or in failure.
    pub open spec fn finished(self) -> bool {
        self is Done || self is Failed
    }

    /// The invariant of the byte counts: no more is in place than was
    /// allocated, and a chunk in flight is not empty, fits the buffer, and
    /// fits the payload behind what is in place.
    pub open spec fn well_formed(self) -> bool {
        match self {
            ImportState::ReadingChunk { len, written, .. } => written <= len,
            ImportState::WritingChunk { len, written, chunk, .. } => {
                0 < chunk <= CHUNK_SIZE && fits(len, written, chunk)
            },
            ImportState::ClosingBlob { len, written, .. } => written <= len,
            ImportState::Committing { len, written, .. } => written <= len,
            ImportState::Done { len, written, .. } => written <= len,
            _ => true,
        }
    }

    /// The action this state waits on.
    pub open spec fn spec_action(self) -> ImportAction {
        match self {
            ImportState::OpeningSource { mode } => ImportAction::OpenSource { mode },
            ImportState::BeginningTransaction { .. } => ImportAction::BeginTransaction,
            ImportState::InsertingRow { len } => ImportAction::InsertZeroBlob { len },
            ImportState::OpeningBlob { rowid, .. } => ImportAction::OpenBlob { rowid },
            ImportState::ReadingChunk { .. } => ImportAction::ReadChunk { max_len: CHUNK_SIZE },
            ImportState::WritingChunk { written, chunk, .. } => ImportAction::WriteChunk {
                offset: written,
                count: chunk,
            },
            ImportState::ClosingBlob { .. } => ImportAction::CloseBlob,
            ImportState::Committing { .. } => ImportAction::Commit,
            ImportState::Done { rowid, .. } => ImportAction::Finish { rowid },
            ImportState::Failed { kind } => ImportAction::Abort { kind },
        }
    }

    /// The state that follows `event`.
    ///
    /// A finished import stays as it is. A failure event ends the import,
    /// whatever it was waiting for. A success event moves the import forward
    /// only in the state that waits for it; anywhere else it ends the import
    /// as a protocol failure. A chunk that would not fit the pre-allocated
    /// payload is never written: the import ends as a store failure.
    pub open spec fn after(self, event: ImportEvent) -> ImportState {
        match (self, event) {
            (ImportState::Done { .. }, _) => self,
            (ImportState::Failed { .. }, _) => self,
            (_, ImportEvent::SourceFailed) => ImportState::Failed { kind: ErrorKind::SourceIo },
            (_, ImportEvent::StoreFailed) => ImportState::Failed { kind: ErrorKind::StoreIo },
            (ImportState::OpeningSource { .. }, ImportEvent::SourceOpened { len }) => {
                ImportState::BeginningTransaction { len }
            },
            (ImportState::BeginningTransaction { len }, ImportEvent::TransactionBegun) => {
                ImportState::InsertingRow { len }
            },
            (ImportState::InsertingRow { len }, ImportEvent::RowInserted { rowid }) => {
                ImportState::OpeningBlob { len, rowid }
            },
            (ImportState::OpeningBlob { len, rowid }, ImportEvent::BlobOpened) => {
                ImportState::ReadingChunk { len, rowid, written: 0 }
            },
            (
                ImportState::ReadingChunk { len, rowid, written },
                ImportEvent::ChunkRead { count: chunk },
            ) => {
                if chunk == 0 {
                    ImportState::ClosingBlob { len, rowid, written }
                } else if chunk > CHUNK_SIZE {
                    ImportState::Failed { kind: ErrorKind::Protocol }
                } else if !fits(len, written, chunk) {
                    ImportState::Failed { kind: ErrorKind::StoreIo }
                } else {
                    ImportState::WritingChunk { len, rowid, written, chunk }
                }
            },
            (
                ImportState::WritingChunk { len, rowid, written, chunk },
                ImportEvent::ChunkWritten,
            ) => {
                if fits(len, written, chunk) {
                    ImportState::ReadingChunk { len, rowid, written: (written + chunk) as u64 }
                } else {
                    ImportState::Failed { kind: ErrorKind::Protocol }
                }
            },
            (ImportState::ClosingBlob { len, rowid, written }, ImportEvent::BlobClosed) => {
                ImportState::Committing { len, rowid, written }
            },
            (ImportState::Committing { len, rowid, written }, ImportEvent::Committed) => {
                ImportState::Done { len, rowid, written }
            },
            _ => ImportState::Failed { kind: ErrorKind::Protocol },
        }
    }

    /// Starts an import. `can_deny_writers` says whether the platform can
    /// open a file so that no other process may write to it meanwhile.
    pub fn begin(can_deny_writers: bool) -> (state: ImportState)
        ensures
            state == ImportState::initial(can_deny_writers),
            state.well_formed(),
    {
        if can_deny_writers {
            ImportState::OpeningSource { mode: OpenMode::ShareDenyWrite }
        } else {
            ImportState::OpeningSource { mode: OpenMode::Plain }
        }
    }

    /// What the driver must do now.
    #[verifier::when_used_as_spec(spec_action)]
    pub fn action(self) -> (action: ImportAction)
        ensures
            action == self.spec_action(),
            self.well_formed() ==> match action {
                ImportAction::ReadChunk { max_len } => max_len == CHUNK_SIZE,
                ImportAction::WriteChunk { count, .. } => 0 < count <= CHUNK_SIZE,
                _ => true,
            },
    {
        match self {
            ImportState::OpeningSource { mode } => ImportAction::OpenSource { mode },
            ImportState::BeginningTransaction { .. } => ImportAction::BeginTransaction,
            ImportState::InsertingRow { len } => ImportAction::InsertZeroBlob { len },
            ImportState::OpeningBlob { rowid, .. } => ImportAction::OpenBlob { rowid },
            ImportState::ReadingChunk { .. } => ImportAction::ReadChunk { max_len: CHUNK_SIZE },
            ImportState::WritingChunk { written, chunk, .. } => ImportAction::WriteChunk {
                offset: written,
                count: chunk,
            },
            ImportState::ClosingBlob { .. } => ImportAction::CloseBlob,
            ImportState::Committing { .. } => ImportAction::Commit,
            ImportState::Done { rowid, .. } => ImportAction::Finish { rowid },
            ImportState::Failed { kind } => ImportAction::Abort { kind },
        }
    }

    /// Takes in what came of the action and moves on.
    pub fn on(self, event: ImportEvent) -> (state: ImportState)
        ensures
            state == self.after(event),
            self.well_formed() ==> state.well_formed(),
    {
        match (self, event) {
            (ImportState::Done { .. }, _) => self,
            (ImportState::Failed { .. }, _) => self,
            (_, ImportEvent::SourceFailed) => ImportState::Failed { kind: ErrorKind::SourceIo },
            (_, ImportEvent::StoreFailed) => ImportState::Failed { kind: ErrorKind::StoreIo },
            (ImportState::OpeningSource { .. }, ImportEvent::SourceOpened { len }) => {
                ImportState::BeginningTransaction { len }
            },
            (ImportState::BeginningTransaction { len }, ImportEvent::TransactionBegun) => {
                ImportState::InsertingRow { len }
            },
            (ImportState::InsertingRow { len }, ImportEvent::RowInserted { rowid }) => {
                ImportState::OpeningBlob { len, rowid }
            },
            (ImportState::OpeningBlob { len, rowid }, ImportEvent::BlobOpened) => {
                ImportState::ReadingChunk { len, rowid, written: 0 }
            },
            (
                ImportState::ReadingChunk { len, rowid, written },
                ImportEvent::ChunkRead { count: chunk },
            ) => {
                if chunk == 0 {
                    ImportState::ClosingBlob { len, rowid, written }
                } else if chunk > CHUNK_SIZE {
                    ImportState::Failed { kind: ErrorKind::Protocol }
                } else if !chunk_fits(len, written, chunk) {
                    ImportState::Failed { kind: ErrorKind::StoreIo }
                } else {
                    ImportState::WritingChunk { len, rowid, written, chunk }
                }
            },
            (
                ImportState::WritingChunk { len, rowid, written, chunk },
                ImportEvent::ChunkWritten,
            ) => {
                if chunk_fits(len, written, chunk) {
                    ImportState::ReadingChunk { len, rowid, written: written + chunk as u64 }
                } else {
                    ImportState::Failed { kind: ErrorKind::Protocol }
                }
            },
            (ImportState::ClosingBlob { len, rowid, written }, ImportEvent::BlobClosed) => {
                ImportState::Committing { len, rowid, written }
            },
            (ImportState::Committing { len, rowid, written }, ImportEvent::Committed) => {
                ImportState::Done { len, rowid, written }
            },
            _ => ImportState::Failed { kind: ErrorKind::Protocol },
        }
    }
}

/// Decides `fits` without overflowing.
fn chunk_fits(len: u64, written: u64, chunk: usize) -> (b: bool)
    ensures
        b == fits(len, written, chunk),
{
    written <= len && chunk as u64 <= len - written
}

} // verus!
