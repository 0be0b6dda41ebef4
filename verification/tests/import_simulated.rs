use document_store::error::ErrorKind;
use document_store::import::{ImportAction, ImportEvent, ImportState, CHUNK_SIZE};

/// A source file and a store held in memory, each able to fail on demand.
struct Simulation {
    source: Vec<u8>,
    cursor: usize,
    buffer: Vec<u8>,
    rows: Vec<Vec<u8>>,
    pending: Option<Vec<u8>>,
    handle_open: bool,
    next_rowid: i64,
    /// The most bytes any single read delivers.
    read_limit: usize,
    /// The number of chunk writes that succeed before one fails.
    writes_before_failure: Option<usize>,
    /// The number of reads that succeed before one fails.
    reads_before_failure: Option<usize>,
    fail_commit: bool,
    /// What another process makes of the source right after it was
    /// measured.
    source_after_open: Option<Vec<u8>>,
    turns: usize,
    writes: Vec<(u64, usize)>,
}

impl Simulation {
    fn new(source: Vec<u8>) -> Simulation {
        Simulation {
            source,
            cursor: 0,
            buffer: vec![0; CHUNK_SIZE],
            rows: Vec::new(),
            pending: None,
            handle_open: false,
            next_rowid: 1,
            read_limit: CHUNK_SIZE,
            writes_before_failure: None,
            reads_before_failure: None,
            fail_commit: false,
            source_after_open: None,
            turns: 0,
            writes: Vec::new(),
        }
    }

    /// Performs one action; `None` once the import has said its last word.
    fn perform(&mut self, action: ImportAction) -> Option<ImportEvent> {
        self.turns += 1;
        match action {
            ImportAction::OpenSource { .. } => {
                self.cursor = 0;
                let len = self.source.len() as u64;
                if let Some(changed) = self.source_after_open.take() {
                    self.source = changed;
                }
                Some(ImportEvent::SourceOpened { len })
            }
            ImportAction::BeginTransaction => {
                self.pending = None;
                Some(ImportEvent::TransactionBegun)
            }
            ImportAction::InsertZeroBlob { len } => {
                self.pending = Some(vec![0; len as usize]);
                let rowid = self.next_rowid;
                self.next_rowid += 1;
                Some(ImportEvent::RowInserted { rowid })
            }
            ImportAction::OpenBlob { .. } => {
                self.handle_open = true;
                Some(ImportEvent::BlobOpened)
            }
            ImportAction::ReadChunk { max_len } => {
                if self.reads_before_failure == Some(0) {
                    return Some(ImportEvent::SourceFailed);
                }
                if let Some(left) = self.reads_before_failure.as_mut() {
                    *left -= 1;
                }
                let remaining = self.source.len() - self.cursor;
                let count = remaining.min(max_len).min(self.read_limit);
                self.buffer[..count]
                    .copy_from_slice(&self.source[self.cursor..self.cursor + count]);
                self.cursor += count;
                Some(ImportEvent::ChunkRead { count })
            }
            ImportAction::WriteChunk { offset, count } => {
                let payload = self.pending.as_mut().expect("a row was inserted");
                if self.writes_before_failure == Some(0) {
                    // A write that fails may leave part of its data behind.
                    let partial = count / 2;
                    let start = offset as usize;
                    payload[start..start + partial].copy_from_slice(&self.buffer[..partial]);
                    return Some(ImportEvent::StoreFailed);
                }
                if let Some(left) = self.writes_before_failure.as_mut() {
                    *left -= 1;
                }
                let start = offset as usize;
                payload[start..start + count].copy_from_slice(&self.buffer[..count]);
                self.writes.push((offset, count));
                Some(ImportEvent::ChunkWritten)
            }
            ImportAction::CloseBlob => {
                self.handle_open = false;
                Some(ImportEvent::BlobClosed)
            }
            ImportAction::Commit => {
                assert!(!self.handle_open, "a commit with the handle still open");
                if self.fail_commit {
                    return Some(ImportEvent::StoreFailed);
                }
                let payload = self.pending.take().expect("a row was inserted");
                self.rows.push(payload);
                Some(ImportEvent::Committed)
            }
            ImportAction::Finish { .. } => None,
            ImportAction::Abort { .. } => {
                self.handle_open = false;
                self.pending = None;
                None
            }
        }
    }

    /// Runs an import to its end.
    fn import(&mut self) -> ImportState {
        let mut state = ImportState::begin(false);
        loop {
            match self.perform(state.action()) {
                Some(event) => state = state.on(event),
                None => return state,
            }
        }
    }

    /// Runs an import until it is about to perform `wanted`.
    fn import_until(&mut self, wanted: fn(&ImportAction) -> bool) -> ImportState {
        let mut state = ImportState::begin(false);
        loop {
            let action = state.action();
            if wanted(&action) {
                return state;
            }
            match self.perform(action) {
                Some(event) => state = state.on(event),
                None => return state,
            }
        }
    }
}

/// `len` bytes that differ from place to place and are never all zero.
fn pattern(len: usize) -> Vec<u8> {
    (0..len).map(|i| ((i * 31 + i / 251 + 7) % 251) as u8 + 1).collect()
}

fn round_trip(len: usize) {
    let source = pattern(len);
    let mut simulation = Simulation::new(source.clone());
    let state = simulation.import();
    assert_eq!(state, ImportState::Done { len: len as u64, rowid: 1, written: len as u64 });
    assert_eq!(simulation.rows.len(), 1);
    assert_eq!(simulation.rows[0].len(), len);
    assert!(simulation.rows[0] == source);
    assert!(simulation.pending.is_none());
}

#[test]
fn round_trip_of_an_empty_source() {
    round_trip(0);
}

#[test]
fn round_trip_of_one_byte() {
    round_trip(1);
}

#[test]
fn round_trip_of_one_byte_less_than_a_chunk() {
    round_trip((1 << 20) - 1);
}

#[test]
fn round_trip_of_exactly_one_chunk() {
    round_trip(1 << 20);
}

#[test]
fn round_trip_of_one_byte_more_than_a_chunk() {
    round_trip((1 << 20) + 1);
}

#[test]
fn round_trip_of_five_chunks() {
    round_trip(5 << 20);
}

#[test]
fn chunks_are_written_back_to_back() {
    let mut simulation = Simulation::new(pattern((2 << 20) + 5));
    simulation.import();
    assert_eq!(simulation.writes, vec![(0, 1048576), (1048576, 1048576), (2097152, 5)]);
}

#[test]
fn short_reads_give_the_same_row() {
    let source = pattern(1000);
    let mut simulation = Simulation::new(source.clone());
    simulation.read_limit = 7;
    let state = simulation.import();
    assert_eq!(state, ImportState::Done { len: 1000, rowid: 1, written: 1000 });
    assert!(simulation.rows[0] == source);
    assert_eq!(simulation.writes.len(), 143);
    assert_eq!(simulation.writes[142], (994, 6));
}

#[test]
fn import_takes_no_more_turns_than_twice_the_length_and_seven() {
    let mut simulation = Simulation::new(pattern(20));
    simulation.read_limit = 1;
    simulation.import();
    // Eight turns around twenty pairs of read and write; the last turn is
    // the one that reports the result.
    assert_eq!(simulation.turns, 2 * 20 + 8);
}

#[test]
fn second_import_adds_a_second_row() {
    let first = pattern(300);
    let second = pattern(17);
    let mut simulation = Simulation::new(first.clone());
    simulation.import();
    simulation.source = second.clone();
    let state = simulation.import();
    assert_eq!(state, ImportState::Done { len: 17, rowid: 2, written: 17 });
    assert_eq!(simulation.rows.len(), 2);
    assert!(simulation.rows[0] == first);
    assert!(simulation.rows[1] == second);
}

#[test]
fn payload_is_preallocated_before_any_chunk_is_written() {
    let len = (1 << 20) + 123;
    let mut simulation = Simulation::new(pattern(len));
    let state =
        simulation.import_until(|action| matches!(action, ImportAction::WriteChunk { .. }));
    assert_eq!(
        state,
        ImportState::WritingChunk { len: len as u64, rowid: 1, written: 0, chunk: 1 << 20 }
    );
    let payload = simulation.pending.as_ref().expect("the row is inserted");
    assert_eq!(payload.len(), len);
    assert!(payload.iter().all(|byte| *byte == 0));
    assert!(simulation.rows.is_empty());
}

#[test]
fn payload_is_preallocated_as_soon_as_the_row_is_inserted() {
    let mut simulation = Simulation::new(pattern(4096));
    let state = simulation.import_until(|action| matches!(action, ImportAction::OpenBlob { .. }));
    assert_eq!(state, ImportState::OpeningBlob { len: 4096, rowid: 1 });
    let payload = simulation.pending.as_ref().expect("the row is inserted");
    assert_eq!(payload.len(), 4096);
    assert!(payload.iter().all(|byte| *byte == 0));
}

#[test]
fn failed_write_leaves_no_row() {
    let mut simulation = Simulation::new(pattern(3 << 20));
    simulation.writes_before_failure = Some(1);
    let state = simulation.import();
    assert_eq!(state, ImportState::Failed { kind: ErrorKind::StoreIo });
    assert_eq!(simulation.writes, vec![(0, 1048576)]);
    assert!(simulation.rows.is_empty());
    assert!(simulation.pending.is_none());
}

#[test]
fn failed_write_leaves_earlier_rows_alone() {
    let kept = pattern(50);
    let mut simulation = Simulation::new(kept.clone());
    simulation.import();
    simulation.source = pattern(2 << 20);
    simulation.writes_before_failure = Some(0);
    let state = simulation.import();
    assert_eq!(state, ImportState::Failed { kind: ErrorKind::StoreIo });
    assert_eq!(simulation.rows.len(), 1);
    assert!(simulation.rows[0] == kept);
}

#[test]
fn failed_read_leaves_no_row() {
    let mut simulation = Simulation::new(pattern(3 << 20));
    simulation.reads_before_failure = Some(2);
    let state = simulation.import();
    assert_eq!(state, ImportState::Failed { kind: ErrorKind::SourceIo });
    assert!(simulation.rows.is_empty());
    assert!(simulation.pending.is_none());
}

#[test]
fn failed_commit_leaves_no_row() {
    let mut simulation = Simulation::new(pattern(10));
    simulation.fail_commit = true;
    let state = simulation.import();
    assert_eq!(state, ImportState::Failed { kind: ErrorKind::StoreIo });
    assert!(simulation.rows.is_empty());
    assert!(simulation.pending.is_none());
}

#[test]
fn source_that_shrinks_after_it_was_measured_leaves_zeros_at_the_end() {
    let mut simulation = Simulation::new(pattern(10));
    simulation.source_after_open = Some(pattern(6));
    let state = simulation.import();
    assert_eq!(state, ImportState::Done { len: 10, rowid: 1, written: 6 });
    let mut expected = pattern(6);
    expected.extend_from_slice(&[0, 0, 0, 0]);
    assert_eq!(simulation.rows, vec![expected]);
}

#[test]
fn source_that_grows_after_it_was_measured_leaves_no_row() {
    let mut simulation = Simulation::new(pattern(5));
    simulation.source_after_open = Some(pattern(9));
    let state = simulation.import();
    assert_eq!(state, ImportState::Failed { kind: ErrorKind::StoreIo });
    assert!(simulation.writes.is_empty());
    assert!(simulation.rows.is_empty());
    assert!(simulation.pending.is_none());
}
