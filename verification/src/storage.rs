//! The chunk store: one file per chunk, all in one directory, and counters of what is stored.
//!
//! The node decides; the caller performs. Each operation on a chunk is a run: a value that says,
//! in its stage, which file operation comes next, and that is resumed with the answer of the
//! file system until it is finished.

use crate::chunk_id;
use crate::disk::{DiskSpaceError, IoFailure, IoKind};
use crate::gib::Gib;
use crate::path;
use crate::text;
use vstd::prelude::*;
use vstd::string::*;

pub use crate::disk::get_disk_available_space;

verus! {

/// The largest chunk that is stored, in bytes.
pub const MAX_CHUNK_BYTES: u64 = 0x4000_0000;

/// The counters of the store: bytes in use, the limit on them, and the number of chunks.
#[derive(Clone, Copy, Debug, PartialEq, Eq, Structural)]
pub struct StorageState {
    pub current_used_space_bytes: u64,
    pub max_storage_bytes: u64,
    pub current_chunk_count: u64,
}

/// `a + b` in the arithmetic of a 64-bit counter.
pub open spec fn counter_add(a: u64, b: u64) -> u64 {
    ((a + b) % 0x1_0000_0000_0000_0000) as u64
}

/// `a - b` in the arithmetic of a 64-bit counter.
pub open spec fn counter_sub(a: u64, b: u64) -> u64 {
    ((a - b) % 0x1_0000_0000_0000_0000) as u64
}

impl StorageState {
    /// The counters after a chunk of `size` bytes has been stored.
    pub open spec fn with_chunk(self, size: u64) -> StorageState {
        StorageState {
            current_used_space_bytes: counter_add(self.current_used_space_bytes, size),
            max_storage_bytes: self.max_storage_bytes,
            current_chunk_count: counter_add(self.current_chunk_count, 1),
        }
    }

    /// The counters after a chunk of `size` bytes has been deleted.
    pub open spec fn without_chunk(self, size: u64) -> StorageState {
        StorageState {
            current_used_space_bytes: counter_sub(self.current_used_space_bytes, size),
            max_storage_bytes: self.max_storage_bytes,
            current_chunk_count: counter_sub(self.current_chunk_count, 1),
        }
    }

    /// Counts a stored chunk of `size` bytes.
    pub fn add_chunk(&mut self, size: u64)
        ensures
            *final(self) == old(self).with_chunk(size),
    {
        self.current_used_space_bytes = self.current_used_space_bytes.wrapping_add(size);
        self.current_chunk_count = self.current_chunk_count.wrapping_add(1);
    }

    /// Counts a deleted chunk of `size` bytes.
    pub fn remove_chunk(&mut self, size: u64)
        ensures
            *final(self) == old(self).without_chunk(size),
    {
        self.current_used_space_bytes = self.current_used_space_bytes.wrapping_sub(size);
        self.current_chunk_count = self.current_chunk_count.wrapping_sub(1);
    }
}

/// An entry of the storage directory: whether it is a file, and its size, where the system told.
#[derive(Clone, Copy, Debug, PartialEq, Eq, Structural)]
pub struct DirectoryEntry {
    pub is_file: bool,
    pub size: Option<u64>,
}

impl DirectoryEntry {
    /// The entry counts as a chunk: a file whose size is known.
    pub open spec fn counts(self) -> bool {
        self.is_file && self.size is Some
    }
}

/// The bytes in the chunks among `entries`.
pub open spec fn bytes_in(entries: Seq<DirectoryEntry>) -> nat
    decreases entries.len(),
{
    if entries.len() == 0 {
        0
    } else if entries.last().counts() {
        bytes_in(entries.drop_last()) + entries.last().size->0 as nat
    } else {
        bytes_in(entries.drop_last())
    }
}

/// The number of chunks among `entries`.
pub open spec fn chunks_in(entries: Seq<DirectoryEntry>) -> nat
    decreases entries.len(),
{
    if entries.len() == 0 {
        0
    } else if entries.last().counts() {
        chunks_in(entries.drop_last()) + 1
    } else {
        chunks_in(entries.drop_last())
    }
}

proof fn bytes_in_grows(entries: Seq<DirectoryEntry>, i: int)
    requires
        0 <= i <= entries.len(),
    ensures
        bytes_in(entries.take(i)) <= bytes_in(entries),
    decreases entries.len(),
{
    if i < entries.len() {
        bytes_in_grows(entries.drop_last(), i);
        assert(entries.drop_last().take(i) =~= entries.take(i));
    } else {
        assert(entries.take(i) =~= entries);
    }
}

/// What to do about the storage directory before it is scanned.
#[derive(Clone, Copy, Debug, PartialEq, Eq, Structural)]
pub enum DirectoryStep {
    Create,
    Scan,
}

/// A directory that does not exist is created before it is scanned.
pub fn prepare_storage_directory(present: bool) -> (step: DirectoryStep)
    ensures
        step == if present {
            DirectoryStep::Scan
        } else {
            DirectoryStep::Create
        },
{
    if present {
        DirectoryStep::Scan
    } else {
        DirectoryStep::Create
    }
}

/// The counters for a storage directory that holds `entries`, with the limit `max_storage_gib`.
pub fn initialize_storage_state(max_storage_gib: Gib, entries: &Vec<DirectoryEntry>) -> (state: StorageState)
    requires
        bytes_in(entries@) <= u64::MAX,
    ensures
        state.max_storage_bytes == max_storage_gib.in_bytes(),
        state.current_used_space_bytes == bytes_in(entries@),
        state.current_chunk_count == chunks_in(entries@),
{
    let mut total_size: u64 = 0;
    let mut total_count: u64 = 0;
    let mut i: usize = 0;
    assert(entries@.take(0) =~= Seq::<DirectoryEntry>::empty());
    while i < entries.len()
        invariant
            i <= entries.len(),
            bytes_in(entries@) <= u64::MAX,
            total_size == bytes_in(entries@.take(i as int)),
            total_count == chunks_in(entries@.take(i as int)),
            total_count <= i,
        decreases entries.len() - i,
    {
        proof {
            bytes_in_grows(entries@, i + 1);
            assert(entries@.take(i + 1).drop_last() =~= entries@.take(i as int));
        }
        let entry = entries[i];
        if entry.is_file {
            if let Some(size) = entry.size {
                total_size = total_size + size;
                total_count = total_count + 1;
            }
        }
        i += 1;
    }
    assert(entries@.take(entries@.len() as int) =~= entries@);
    StorageState {
        current_used_space_bytes: total_size,
        max_storage_bytes: max_storage_gib.to_bytes(),
        current_chunk_count: total_count,
    }
}

/// Why a chunk was not stored.
#[derive(Debug)]
pub enum StoreError {
    /// The identifier is empty or too long.
    IdLength,
    /// The identifier could step out of the storage directory.
    IdTraversal,
    /// The chunk is larger than any chunk may be.
    TooLarge { size: u64 },
    /// The chunk does not fit under the configured limit.
    LimitReached { size: u64, used: u64, max: u64 },
    /// The chunk does not fit on the disk.
    DiskFull { size: u64, available: u64 },
    /// The free space of the disk is not known.
    DiskUnknown { error: DiskSpaceError },
    /// The file of the chunk is already there.
    AlreadyExists { chunk_id: String },
    /// The written file could not be moved into place.
    Finalize { reason: String },
    /// The file could not be written.
    Write { chunk_id: String, reason: String },
}

/// `a` less `b`, and nothing where `b` is more.
pub open spec fn less(a: u64, b: u64) -> nat {
    if b <= a {
        (a - b) as nat
    } else {
        0
    }
}

impl StoreError {
    /// The text of `message`.
    pub open spec fn text(self) -> Seq<char> {
        match self {
            StoreError::IdLength => "Invalid chunk_id: empty or too long"@,
            StoreError::IdTraversal => "Invalid chunk_id: contains path traversal characters"@,
            StoreError::TooLarge { size } => "Chunk too large: "@ + text::decimal(size as nat) + " bytes"@,
            StoreError::LimitReached { size, used, max } =>
                "Insufficient configured storage space. Required: "@ + text::decimal(size as nat)
                    + ", Available within limit: "@ + text::decimal(less(max, used)) + ". Current used: "@
                    + text::decimal(used as nat) + "/"@ + text::decimal(max as nat),
            StoreError::DiskFull { size, available } =>
                "Insufficient disk space. Required: "@ + text::decimal(size as nat) + ", Available: "@
                    + text::decimal(available as nat),
            StoreError::DiskUnknown { error } => error.text(),
            StoreError::AlreadyExists { chunk_id } => "Chunk "@ + chunk_id@ + " already exists"@,
            StoreError::Finalize { reason } => "Failed to finalize chunk write: "@ + reason@,
            StoreError::Write { chunk_id, reason } =>
                "Failed to write chunk "@ + chunk_id@ + " to disk: "@ + reason@,
        }
    }

    /// The message to show and to report for this error.
    pub fn message(&self) -> (r: String)
        ensures
            r@ == self.text(),
    {
        match self {
            StoreError::IdLength => "Invalid chunk_id: empty or too long".to_owned(),
            StoreError::IdTraversal => "Invalid chunk_id: contains path traversal characters".to_owned(),
            StoreError::TooLarge { size } => text::concat3(
                "Chunk too large: ",
                text::decimal_text(*size).as_str(),
                " bytes",
            ),
            StoreError::LimitReached { size, used, max } => {
                let mut r = "Insufficient configured storage space. Required: ".to_owned();
                r.append(text::decimal_text(*size).as_str());
                r.append(", Available within limit: ");
                r.append(text::decimal_text((*max).saturating_sub(*used)).as_str());
                r.append(". Current used: ");
                r.append(text::decimal_text(*used).as_str());
                r.append("/");
                r.append(text::decimal_text(*max).as_str());
                r
            },
            StoreError::DiskFull { size, available } => {
                let mut r = "Insufficient disk space. Required: ".to_owned();
                r.append(text::decimal_text(*size).as_str());
                r.append(", Available: ");
                r.append(text::decimal_text(*available).as_str());
                r
            },
            StoreError::DiskUnknown { error } => error.message(),
            StoreError::AlreadyExists { chunk_id } => text::concat3("Chunk ", chunk_id.as_str(), " already exists"),
            StoreError::Finalize { reason } => text::concat2("Failed to finalize chunk write: ", reason.as_str()),
            StoreError::Write { chunk_id, reason } => {
                let mut r = text::concat3("Failed to write chunk ", chunk_id.as_str(), " to disk: ");
                r.append(reason.as_str());
                r
            },
        }
    }
}

/// What comes next in storing a chunk.
#[derive(Debug)]
pub enum StoreStage {
    /// Ask for the free space on the disk that holds the storage directory.
    MeasureDisk,
    /// Remove the temporary file, should an earlier run have left it.
    RemoveStaleTemp,
    /// Write the data to the temporary file.
    WriteTemp,
    /// Rename the temporary file to the file of the chunk.
    RenameTemp,
    /// Remove the temporary file; the run has failed.
    DiscardTemp { error: StoreError },
    /// Nothing: this is the result, the size of the stored chunk.
    Finished(Result<u64, StoreError>),
}

/// The answer of the file system to a stage of a `StoreRun`.
#[derive(Debug)]
pub enum StoreReply {
    /// The free space, for `MeasureDisk`.
    Space(Result<u64, DiskSpaceError>),
    /// How it went, for every other stage.
    Done(Result<(), IoFailure>),
}

/// The storing of one chunk.
#[derive(Debug)]
pub struct StoreRun {
    pub chunk_id: String,
    pub chunk_path: String,
    pub temp_path: String,
    pub data: Vec<u8>,
    pub stage: StoreStage,
}

/// What the name of a temporary file begins with.
pub open spec fn temp_prefix() -> Seq<char> {
    ".tmp_"@
}

/// The file of the chunk `id` in the directory `base`.
pub open spec fn chunk_file(base: Seq<char>, id: Seq<char>) -> Seq<char> {
    path::joined(base, id)
}

/// The file a chunk is written to before it is complete.
pub open spec fn temp_file(base: Seq<char>, id: Seq<char>) -> Seq<char> {
    path::joined(base, temp_prefix() + id)
}

/// `used + size`, at most the largest number of a counter, is over the limit `max`.
pub open spec fn over_limit(used: u64, size: u64, max: u64) -> bool {
    used + size > max && max < u64::MAX
}

/// Why a chunk of `size` bytes is refused before the disk is asked, if it is.
pub open spec fn refusal(id: Seq<char>, size: nat, state: StorageState) -> Option<StoreError> {
    if !chunk_id::length_in_bounds(id) {
        Some(StoreError::IdLength)
    } else if !chunk_id::free_of_traversal(id) {
        Some(StoreError::IdTraversal)
    } else if size > MAX_CHUNK_BYTES {
        Some(StoreError::TooLarge { size: size as u64 })
    } else if over_limit(state.current_used_space_bytes, size as u64, state.max_storage_bytes) {
        Some(
            StoreError::LimitReached {
                size: size as u64,
                used: state.current_used_space_bytes,
                max: state.max_storage_bytes,
            },
        )
    } else {
        None
    }
}

/// `run` is what `store_chunk_data_to_disk` begins with.
pub open spec fn store_begun(
    run: StoreRun,
    base: Seq<char>,
    id: Seq<char>,
    data: Seq<u8>,
    state: StorageState,
) -> bool {
    &&& run.chunk_id@ == id
    &&& run.chunk_path@ == chunk_file(base, id)
    &&& run.temp_path@ == temp_file(base, id)
    &&& run.data@ == data
    &&& run.stage == match refusal(id, data.len(), state) {
        Some(e) => StoreStage::Finished(Err(e)),
        None => StoreStage::MeasureDisk,
    }
}

/// Begins to store `chunk_data` as the chunk `chunk_id` in the directory `storage_path_base`:
/// the identifier, the size and the configured limit are checked, and the free space of the disk
/// is asked for.
pub fn store_chunk_data_to_disk(
    storage_path_base: &str,
    chunk_id: &str,
    chunk_data: Vec<u8>,
    state: &StorageState,
) -> (run: StoreRun)
    ensures
        store_begun(run, storage_path_base@, chunk_id@, chunk_data@, *state),
{
    let chunk_path = path::join(storage_path_base, chunk_id);
    let temp_path = path::join(storage_path_base, text::concat2(".tmp_", chunk_id).as_str());
    let size: u64 = chunk_data.len() as u64;
    let used: u64 = state.current_used_space_bytes;
    let max: u64 = state.max_storage_bytes;
    let stage = if !chunk_id::has_valid_length(chunk_id) {
        StoreStage::Finished(Err(StoreError::IdLength))
    } else if !chunk_id::has_no_traversal(chunk_id) {
        StoreStage::Finished(Err(StoreError::IdTraversal))
    } else if size > MAX_CHUNK_BYTES {
        StoreStage::Finished(Err(StoreError::TooLarge { size }))
    } else if used.saturating_add(size) > max {
        StoreStage::Finished(Err(StoreError::LimitReached { size, used, max }))
    } else {
        StoreStage::MeasureDisk
    };
    StoreRun { chunk_id: chunk_id.to_owned(), chunk_path, temp_path, data: chunk_data, stage }
}

impl StoreRun {
    /// `reply` answers the stage of this run.
    pub open spec fn expects(self, reply: StoreReply) -> bool {
        match self.stage {
            StoreStage::MeasureDisk => reply is Space,
            StoreStage::Finished(_) => false,
            _ => reply is Done,
        }
    }

    /// The stage after `reply`.
    ///
    /// That no stale temporary file could be removed does not matter; a temporary file that could
    /// not be written or moved is discarded before the run ends with the error.
    pub open spec fn stage_after(self, reply: StoreReply) -> StoreStage {
        match (self.stage, reply) {
            (StoreStage::MeasureDisk, StoreReply::Space(Ok(available))) =>
                if self.data@.len() > available {
                    StoreStage::Finished(Err(StoreError::DiskFull { size: self.data@.len() as u64, available }))
                } else {
                    StoreStage::RemoveStaleTemp
                },
            (StoreStage::MeasureDisk, StoreReply::Space(Err(error))) =>
                StoreStage::Finished(Err(StoreError::DiskUnknown { error })),
            (StoreStage::RemoveStaleTemp, _) => StoreStage::WriteTemp,
            (StoreStage::WriteTemp, StoreReply::Done(Ok(_))) => StoreStage::RenameTemp,
            (StoreStage::WriteTemp, StoreReply::Done(Err(e))) =>
                StoreStage::DiscardTemp { error: StoreError::Write { chunk_id: self.chunk_id, reason: e.text } },
            (StoreStage::RenameTemp, StoreReply::Done(Ok(_))) =>
                StoreStage::Finished(Ok(self.data@.len() as u64)),
            (StoreStage::RenameTemp, StoreReply::Done(Err(e))) =>
                StoreStage::DiscardTemp {
                    error: if e.kind == IoKind::AlreadyExists {
                        StoreError::AlreadyExists { chunk_id: self.chunk_id }
                    } else {
                        StoreError::Finalize { reason: e.text }
                    },
                },
            (StoreStage::DiscardTemp { error }, _) => StoreStage::Finished(Err(error)),
            (stage, _) => stage,
        }
    }

    /// `reply` says that the file of the chunk is now in place.
    pub open spec fn completes_with(self, reply: StoreReply) -> bool {
        self.stage is RenameTemp && reply matches StoreReply::Done(Ok(_))
    }

    /// Goes on with the answer of the file system. The counters change when the file is in place,
    /// and only then.
    pub fn resume(self, reply: StoreReply, state: &mut StorageState) -> (next: StoreRun)
        requires
            self.expects(reply),
        ensures
            next == (StoreRun { stage: self.stage_after(reply), ..self }),
            *final(state) == if self.completes_with(reply) {
                old(state).with_chunk(self.data@.len() as u64)
            } else {
                *old(state)
            },
    {
        let size: u64 = self.data.len() as u64;
        let StoreRun { chunk_id, chunk_path, temp_path, data, stage } = self;
        let stage = match (stage, reply) {
            (StoreStage::MeasureDisk, StoreReply::Space(result)) => match result {
                Ok(available) => if size > available {
                    StoreStage::Finished(Err(StoreError::DiskFull { size, available }))
                } else {
                    StoreStage::RemoveStaleTemp
                },
                Err(error) => StoreStage::Finished(Err(StoreError::DiskUnknown { error })),
            },
            (StoreStage::RemoveStaleTemp, _) => StoreStage::WriteTemp,
            (StoreStage::WriteTemp, StoreReply::Done(result)) => match result {
                Ok(_) => StoreStage::RenameTemp,
                Err(e) => StoreStage::DiscardTemp {
                    error: StoreError::Write { chunk_id: chunk_id.clone(), reason: e.text },
                },
            },
            (StoreStage::RenameTemp, StoreReply::Done(result)) => match result {
                Ok(_) => {
                    state.add_chunk(size);
                    StoreStage::Finished(Ok(size))
                },
                Err(e) => StoreStage::DiscardTemp {
                    error: if e.kind == IoKind::AlreadyExists {
                        StoreError::AlreadyExists { chunk_id: chunk_id.clone() }
                    } else {
                        StoreError::Finalize { reason: e.text }
                    },
                },
            },
            (StoreStage::DiscardTemp { error }, _) => StoreStage::Finished(Err(error)),
            (stage, _) => stage,
        };
        StoreRun { chunk_id, chunk_path, temp_path, data, stage }
    }
}

/// The file of the chunk `chunk_id` in the directory `storage_path_base`.
pub fn chunk_file_path(storage_path_base: &str, chunk_id: &str) -> (r: String)
    ensures
        r@ == chunk_file(storage_path_base@, chunk_id@),
{
    path::join(storage_path_base, chunk_id)
}

/// Why a chunk could not be read.
#[derive(Debug)]
pub enum RetrieveError {
    /// There is no file for the chunk.
    NotFound { chunk_id: String },
    /// The file could not be read.
    Read { chunk_id: String },
}

impl RetrieveError {
    /// The text of `message`.
    pub open spec fn text(self) -> Seq<char> {
        match self {
            RetrieveError::NotFound { chunk_id } => "Chunk "@ + chunk_id@ + " not found"@,
            RetrieveError::Read { chunk_id } => "Failed to read chunk "@ + chunk_id@ + " from disk"@,
        }
    }

    /// The message to show and to report for this error.
    pub fn message(&self) -> (r: String)
        ensures
            r@ == self.text(),
    {
        match self {
            RetrieveError::NotFound { chunk_id } => text::concat3("Chunk ", chunk_id.as_str(), " not found"),
            RetrieveError::Read { chunk_id } => text::concat3(
                "Failed to read chunk ",
                chunk_id.as_str(),
                " from disk",
            ),
        }
    }
}

/// What comes next in reading a chunk.
#[derive(Debug)]
pub enum RetrieveStage {
    /// Ask whether the file of the chunk exists.
    CheckExists,
    /// Read the file of the chunk.
    ReadFile,
    /// Nothing: this is the result, the data of the chunk.
    Finished(Result<Vec<u8>, RetrieveError>),
}

/// The answer of the file system to a stage of a `RetrieveRun`.
#[derive(Debug)]
pub enum RetrieveReply {
    /// For `CheckExists`.
    Exists(Result<bool, IoFailure>),
    /// For `ReadFile`.
    Data(Result<Vec<u8>, IoFailure>),
}

/// The reading of one chunk.
#[derive(Debug)]
pub struct RetrieveRun {
    pub chunk_id: String,
    pub chunk_path: String,
    pub stage: RetrieveStage,
}

/// `run` is what `retrieve_chunk_data_from_disk` begins with.
pub open spec fn retrieve_begun(run: RetrieveRun, base: Seq<char>, id: Seq<char>) -> bool {
    &&& run.chunk_id@ == id
    &&& run.chunk_path@ == chunk_file(base, id)
    &&& run.stage is CheckExists
}

/// Begins to read the chunk `chunk_id` from the directory `storage_path_base`.
pub fn retrieve_chunk_data_from_disk(storage_path_base: &str, chunk_id: &str) -> (run: RetrieveRun)
    ensures
        retrieve_begun(run, storage_path_base@, chunk_id@),
{
    RetrieveRun {
        chunk_id: chunk_id.to_owned(),
        chunk_path: chunk_file_path(storage_path_base, chunk_id),
        stage: RetrieveStage::CheckExists,
    }
}

impl RetrieveRun {
    /// `reply` answers the stage of this run.
    pub open spec fn expects(self, reply: RetrieveReply) -> bool {
        match self.stage {
            RetrieveStage::CheckExists => reply is Exists,
            RetrieveStage::ReadFile => reply is Data,
            RetrieveStage::Finished(_) => false,
        }
    }

    /// The stage after `reply`. A file of which nothing is known counts as missing.
    pub open spec fn stage_after(self, reply: RetrieveReply) -> RetrieveStage {
        match (self.stage, reply) {
            (RetrieveStage::CheckExists, RetrieveReply::Exists(Ok(true))) => RetrieveStage::ReadFile,
            (RetrieveStage::CheckExists, RetrieveReply::Exists(_)) =>
                RetrieveStage::Finished(Err(RetrieveError::NotFound { chunk_id: self.chunk_id })),
            (RetrieveStage::ReadFile, RetrieveReply::Data(Ok(data))) => RetrieveStage::Finished(Ok(data)),
            (RetrieveStage::ReadFile, RetrieveReply::Data(Err(_))) =>
                RetrieveStage::Finished(Err(RetrieveError::Read { chunk_id: self.chunk_id })),
            (stage, _) => stage,
        }
    }

    /// Goes on with the answer of the file system.
    pub fn resume(self, reply: RetrieveReply) -> (next: RetrieveRun)
        requires
            self.expects(reply),
        ensures
            next == (RetrieveRun { stage: self.stage_after(reply), ..self }),
    {
        let RetrieveRun { chunk_id, chunk_path, stage } = self;
        let stage = match (stage, reply) {
            (RetrieveStage::CheckExists, RetrieveReply::Exists(result)) => match result {
                Ok(true) => RetrieveStage::ReadFile,
                _ => RetrieveStage::Finished(Err(RetrieveError::NotFound { chunk_id: chunk_id.clone() })),
            },
            (RetrieveStage::ReadFile, RetrieveReply::Data(result)) => match result {
                Ok(data) => RetrieveStage::Finished(Ok(data)),
                Err(_) => RetrieveStage::Finished(Err(RetrieveError::Read { chunk_id: chunk_id.clone() })),
            },
            (stage, _) => stage,
        };
        RetrieveRun { chunk_id, chunk_path, stage }
    }
}

/// Why a chunk could not be deleted.
#[derive(Debug)]
pub enum DeleteError {
    /// The size of the file could not be read.
    Metadata { chunk_id: String, reason: String },
    /// The file could not be removed.
    Remove { chunk_path: String },
}

impl DeleteError {
    /// The text of `message`.
    pub open spec fn text(self) -> Seq<char> {
        match self {
            DeleteError::Metadata { chunk_id, reason } =>
                "Error getting metadata for chunk "@ + chunk_id@ + " to delete: "@ + reason@,
            DeleteError::Remove { chunk_path } => "Failed to delete chunk file: "@ + path::shown_path(chunk_path@),
        }
    }

    /// The message to show and to report for this error.
    pub fn message(&self) -> (r: String)
        ensures
            r@ == self.text(),
    {
        match self {
            DeleteError::Metadata { chunk_id, reason } => {
                let mut r = text::concat3("Error getting metadata for chunk ", chunk_id.as_str(), " to delete: ");
                r.append(reason.as_str());
                r
            },
            DeleteError::Remove { chunk_path } => text::concat2(
                "Failed to delete chunk file: ",
                path::show_path(chunk_path.as_str()).as_str(),
            ),
        }
    }
}

/// What comes next in deleting a chunk.
#[derive(Debug)]
pub enum DeleteStage {
    /// Ask for the size of the file of the chunk.
    ReadMetadata,
    /// Remove the file of the chunk, which has this size.
    RemoveFile { size: u64 },
    /// Nothing: this is the result, the size of the deleted chunk where there was one.
    Finished(Result<Option<u64>, DeleteError>),
}

/// The answer of the file system to a stage of a `DeleteRun`.
#[derive(Debug)]
pub enum DeleteReply {
    /// For `ReadMetadata`.
    Size(Result<u64, IoFailure>),
    /// For `RemoveFile`.
    Done(Result<(), IoFailure>),
}

/// The deleting of one chunk.
#[derive(Debug)]
pub struct DeleteRun {
    pub chunk_id: String,
    pub chunk_path: String,
    pub stage: DeleteStage,
}

/// `run` is what `delete_chunk_from_disk` begins with.
pub open spec fn delete_begun(run: DeleteRun, base: Seq<char>, id: Seq<char>) -> bool {
    &&& run.chunk_id@ == id
    &&& run.chunk_path@ == chunk_file(base, id)
    &&& run.stage is ReadMetadata
}

/// Begins to delete the chunk `chunk_id` from the directory `storage_path_base`.
pub fn delete_chunk_from_disk(storage_path_base: &str, chunk_id: &str) -> (run: DeleteRun)
    ensures
        delete_begun(run, storage_path_base@, chunk_id@),
{
    DeleteRun {
        chunk_id: chunk_id.to_owned(),
        chunk_path: chunk_file_path(storage_path_base, chunk_id),
        stage: DeleteStage::ReadMetadata,
    }
}

impl DeleteRun {
    /// `reply` answers the stage of this run.
    pub open spec fn expects(self, reply: DeleteReply) -> bool {
        match self.stage {
            DeleteStage::ReadMetadata => reply is Size,
            DeleteStage::RemoveFile { .. } => reply is Done,
            DeleteStage::Finished(_) => false,
        }
    }

    /// The stage after `reply`. That there is no file for the chunk is no error.
    pub open spec fn stage_after(self, reply: DeleteReply) -> DeleteStage {
        match (self.stage, reply) {
            (DeleteStage::ReadMetadata, DeleteReply::Size(Ok(size))) => DeleteStage::RemoveFile { size },
            (DeleteStage::ReadMetadata, DeleteReply::Size(Err(e))) => if e.kind == IoKind::NotFound {
                DeleteStage::Finished(Ok(None))
            } else {
                DeleteStage::Finished(Err(DeleteError::Metadata { chunk_id: self.chunk_id, reason: e.text }))
            },
            (DeleteStage::RemoveFile { size }, DeleteReply::Done(Ok(_))) => DeleteStage::Finished(Ok(Some(size))),
            (DeleteStage::RemoveFile { .. }, DeleteReply::Done(Err(_))) =>
                DeleteStage::Finished(Err(DeleteError::Remove { chunk_path: self.chunk_path })),
            (stage, _) => stage,
        }
    }

    /// The counters after `reply`: they change when the file has been removed, and only then.
    pub open spec fn state_after(self, reply: DeleteReply, state: StorageState) -> StorageState {
        match (self.stage, reply) {
            (DeleteStage::RemoveFile { size }, DeleteReply::Done(Ok(_))) => state.without_chunk(size),
            _ => state,
        }
    }

    /// Goes on with the answer of the file system.
    pub fn resume(self, reply: DeleteReply, state: &mut StorageState) -> (next: DeleteRun)
        requires
            self.expects(reply),
        ensures
            next == (DeleteRun { stage: self.stage_after(reply), ..self }),
            *final(state) == self.state_after(reply, *old(state)),
    {
        let DeleteRun { chunk_id, chunk_path, stage } = self;
        let stage = match (stage, reply) {
            (DeleteStage::ReadMetadata, DeleteReply::Size(result)) => match result {
                Ok(size) => DeleteStage::RemoveFile { size },
                Err(e) => if e.kind == IoKind::NotFound {
                    DeleteStage::Finished(Ok(None))
                } else {
                    DeleteStage::Finished(
                        Err(DeleteError::Metadata { chunk_id: chunk_id.clone(), reason: e.text }),
                    )
                },
            },
            (DeleteStage::RemoveFile { size }, DeleteReply::Done(result)) => match result {
                Ok(_) => {
                    state.remove_chunk(size);
                    DeleteStage::Finished(Ok(Some(size)))
                },
                Err(_) => DeleteStage::Finished(Err(DeleteError::Remove { chunk_path: chunk_path.clone() })),
            },
            (stage, _) => stage,
        };
        DeleteRun { chunk_id, chunk_path, stage }
    }
}

/// That the existence of the file of a chunk could not be told.
#[derive(Debug)]
pub struct ExistsError {
    pub chunk_id: String,
    pub reason: String,
}

impl ExistsError {
    /// The text of `message`.
    pub open spec fn text(self) -> Seq<char> {
        "Error checking existence of chunk "@ + self.chunk_id@ + ": "@ + self.reason@
    }

    /// The message to show for this error.
    pub fn message(&self) -> (r: String)
        ensures
            r@ == self.text(),
    {
        let mut r = text::concat3("Error checking existence of chunk ", self.chunk_id.as_str(), ": ");
        r.append(self.reason.as_str());
        r
    }
}

/// Whether the chunk `chunk_id` is stored, given what the file system says of its file.
pub fn check_chunk_exists(chunk_id: &str, found: Result<bool, IoFailure>) -> (r: Result<bool, ExistsError>)
    ensures
        match found {
            Ok(b) => r == Ok::<bool, ExistsError>(b),
            Err(e) => r matches Err(error) && error.chunk_id@ == chunk_id@ && error.reason == e.text,
        },
{
    match found {
        Ok(b) => Ok(b),
        Err(e) => Err(ExistsError { chunk_id: chunk_id.to_owned(), reason: e.text }),
    }
}

} // verus!
