//! The chunk store of this node: chunks come and go in pieces.

use crate::disk::{IoFailure, IoKind};
use crate::path;
use crate::storage;
use crate::storage::{DirectoryEntry, StorageState};
use crate::text;
use vstd::prelude::*;
use vstd::string::*;
use vstd::utf8::*;

verus! {

/// The number of bytes in a GiB.
pub const GIB_BYTES: u64 = 0x4000_0000;

/// What the node reports of its storage.
#[derive(Clone, Copy, Debug, PartialEq, Eq, Structural)]
pub struct NodeStatus {
    pub used_space_bytes: u64,
    pub max_space_bytes: u64,
    pub free_space_bytes: u64,
    pub chunk_count: u64,
}

/// The report of these counters. Where more is in use than the limit, nothing is free.
pub open spec fn status_of(state: StorageState) -> NodeStatus {
    NodeStatus {
        used_space_bytes: state.current_used_space_bytes,
        max_space_bytes: state.max_storage_bytes,
        free_space_bytes: storage::less(state.max_storage_bytes, state.current_used_space_bytes) as u64,
        chunk_count: state.current_chunk_count,
    }
}

/// The report of these counters.
pub fn get_current_node_status(state: &StorageState) -> (status: NodeStatus)
    ensures
        status == status_of(*state),
{
    let used: u64 = state.current_used_space_bytes;
    let max_cap: u64 = state.max_storage_bytes;
    NodeStatus {
        used_space_bytes: used,
        max_space_bytes: max_cap,
        free_space_bytes: max_cap.saturating_sub(used),
        chunk_count: state.current_chunk_count,
    }
}

/// The report adds up: what is in use and what is free make the limit, as long as the limit is
/// kept.
pub proof fn status_adds_up(state: StorageState)
    requires
        state.current_used_space_bytes <= state.max_storage_bytes,
    ensures
        status_of(state).used_space_bytes + status_of(state).free_space_bytes == status_of(state).max_space_bytes,
{
}

/// The identifier `id` has a place in the store: it is shorter than two bytes, or no character
/// straddles its first two.
pub open spec fn has_place(id: Seq<char>) -> bool {
    encode_utf8(id).len() < 2 || is_char_boundary(encode_utf8(id), 2)
}

/// The name of the subdirectory for the chunk `id`: its first two bytes.
pub open spec fn subdirectory(id: Seq<char>) -> Seq<char> {
    decode_utf8(encode_utf8(id).subrange(0, 2))
}

/// The directory for the chunk `id` below the directory `base`: its subdirectory, or `base` itself
/// for an identifier that is too short to name one.
pub open spec fn directory_of(base: Seq<char>, id: Seq<char>) -> Seq<char> {
    if encode_utf8(id).len() < 2 {
        base
    } else {
        path::joined(base, subdirectory(id))
    }
}

/// The file of the chunk `id` in the directory `base`.
pub open spec fn chunk_file(base: Seq<char>, id: Seq<char>) -> Seq<char> {
    path::joined(directory_of(base, id), id)
}

/// The file of the chunk `chunk_id` in the directory `base_path`.
pub fn get_chunk_path(base_path: &str, chunk_id: &str) -> (r: String)
    requires
        has_place(chunk_id@),
    ensures
        r@ == chunk_file(base_path@, chunk_id@),
{
    if chunk_id.as_bytes().len() < 2 {
        return path::join(base_path, chunk_id);
    }
    let (subdir, _rest) = chunk_id.split_at(2);
    proof {
        encode_utf8_decode_utf8(subdir@);
    }
    path::join(path::join(base_path, subdir).as_str(), chunk_id)
}

/// An identifier of at least two characters of which the first two are ASCII has its place in the
/// subdirectory that bears these two characters.
pub proof fn ascii_subdirectory(id: Seq<char>)
    requires
        id.len() >= 2,
        '\0' <= id[0] <= '\u{7f}',
        '\0' <= id[1] <= '\u{7f}',
    ensures
        has_place(id),
        encode_utf8(id).len() >= 2,
        subdirectory(id) == id.take(2),
{
    let first = id.take(2);
    reveal_with_fuel(encode_utf8, 3);
    let rest = id.drop_first().drop_first();
    assert(first.drop_first().drop_first() =~= Seq::<char>::empty());
    assert(encode_utf8(id).subrange(0, 2) =~= encode_utf8(first));
    encode_utf8_decode_utf8(first);
    encode_utf8_valid_utf8(id);
    encode_utf8_valid_utf8(id.drop_first());
    encode_utf8_first_scalar(id);
    encode_utf8_first_scalar(id.drop_first());
    reveal_with_fuel(is_char_boundary, 3);
    assert(pop_first_scalar(encode_utf8(id)) =~= encode_utf8(id.drop_first()));
}

/// Different identifiers without a separator are different files, in whatever subdirectories.
pub proof fn chunk_files_differ(base: Seq<char>, a: Seq<char>, b: Seq<char>)
    requires
        !a.contains('/'),
        !b.contains('/'),
        chunk_file(base, a) == chunk_file(base, b),
    ensures
        a == b,
{
    path::joined_names_differ(directory_of(base, a), a, directory_of(base, b), b);
}

/// An entry of the storage directory: whether it is a directory, and what is in it then.
#[derive(Debug)]
pub struct TopEntry {
    pub is_dir: bool,
    pub entries: Vec<DirectoryEntry>,
}

/// The bytes in the chunks below these entries.
pub open spec fn bytes_below(tops: Seq<TopEntry>) -> nat
    decreases tops.len(),
{
    if tops.len() == 0 {
        0
    } else if tops.last().is_dir {
        bytes_below(tops.drop_last()) + storage::bytes_in(tops.last().entries@)
    } else {
        bytes_below(tops.drop_last())
    }
}

/// The number of chunks below these entries.
pub open spec fn chunks_below(tops: Seq<TopEntry>) -> nat
    decreases tops.len(),
{
    if tops.len() == 0 {
        0
    } else if tops.last().is_dir {
        chunks_below(tops.drop_last()) + storage::chunks_in(tops.last().entries@)
    } else {
        chunks_below(tops.drop_last())
    }
}

/// `total` in the arithmetic of a 64-bit counter.
pub open spec fn counted(total: nat) -> nat {
    total % 0x1_0000_0000_0000_0000
}

/// Counts the chunks among `entries` on top of `used` and `count`.
fn count_entries(
    entries: &Vec<DirectoryEntry>,
    used: u64,
    count: u64,
    Ghost(u): Ghost<nat>,
    Ghost(n): Ghost<nat>,
) -> (r: (u64, u64))
    requires
        used == counted(u),
        count == counted(n),
    ensures
        r.0 == counted(u + storage::bytes_in(entries@)),
        r.1 == counted(n + storage::chunks_in(entries@)),
{
    let mut used: u64 = used;
    let mut count: u64 = count;
    let mut i: usize = 0;
    assert(entries@.take(0) =~= Seq::<DirectoryEntry>::empty());
    while i < entries.len()
        invariant
            i <= entries.len(),
            used == counted(u + storage::bytes_in(entries@.take(i as int))),
            count == counted(n + storage::chunks_in(entries@.take(i as int))),
        decreases entries.len() - i,
    {
        assert(entries@.take(i + 1).drop_last() =~= entries@.take(i as int));
        let entry = entries[i];
        if entry.is_file {
            if let Some(size) = entry.size {
                used = used.wrapping_add(size);
                count = count.wrapping_add(1);
            }
        }
        i += 1;
    }
    assert(entries@.take(entries@.len() as int) =~= entries@);
    (used, count)
}

/// The counters for a storage directory with these entries, with the limit `max_storage_gib`.
/// Only what lies in subdirectories counts.
pub fn initialize_storage_state(max_storage_gib: u64, tops: &Vec<TopEntry>) -> (state: StorageState)
    requires
        max_storage_gib * GIB_BYTES <= u64::MAX,
    ensures
        state.max_storage_bytes == max_storage_gib * GIB_BYTES,
        state.current_used_space_bytes == counted(bytes_below(tops@)),
        state.current_chunk_count == counted(chunks_below(tops@)),
{
    let mut used: u64 = 0;
    let mut count: u64 = 0;
    let mut i: usize = 0;
    assert(tops@.take(0) =~= Seq::<TopEntry>::empty());
    while i < tops.len()
        invariant
            i <= tops.len(),
            used == counted(bytes_below(tops@.take(i as int))),
            count == counted(chunks_below(tops@.take(i as int))),
        decreases tops.len() - i,
    {
        assert(tops@.take(i + 1).drop_last() =~= tops@.take(i as int));
        if tops[i].is_dir {
            let r = count_entries(
                &tops[i].entries,
                used,
                count,
                Ghost(bytes_below(tops@.take(i as int))),
                Ghost(chunks_below(tops@.take(i as int))),
            );
            used = r.0;
            count = r.1;
        }
        i += 1;
    }
    assert(tops@.take(tops@.len() as int) =~= tops@);
    StorageState {
        current_used_space_bytes: used,
        max_storage_bytes: max_storage_gib * GIB_BYTES,
        current_chunk_count: count,
    }
}

/// Why the storage directory could not be scanned.
#[derive(Debug)]
pub enum ScanError {
    Create { storage_path: String },
    Read { storage_path: String },
    ReadSubdirectory { directory: String },
}

impl ScanError {
    /// The text of `message`.
    pub open spec fn text(self) -> Seq<char> {
        match self {
            ScanError::Create { storage_path } =>
                "Failed to create base storage directory: "@ + path::shown_path(storage_path@),
            ScanError::Read { storage_path } =>
                "Failed to read base storage directory: "@ + path::shown_path(storage_path@),
            ScanError::ReadSubdirectory { directory } =>
                "Failed to read subdirectory: "@ + path::shown_path(directory@),
        }
    }

    /// The message to show for this error.
    pub fn message(&self) -> (r: String)
        ensures
            r@ == self.text(),
    {
        match self {
            ScanError::Create { storage_path } => text::concat2(
                "Failed to create base storage directory: ",
                path::show_path(storage_path.as_str()).as_str(),
            ),
            ScanError::Read { storage_path } => text::concat2(
                "Failed to read base storage directory: ",
                path::show_path(storage_path.as_str()).as_str(),
            ),
            ScanError::ReadSubdirectory { directory } => text::concat2(
                "Failed to read subdirectory: ",
                path::show_path(directory.as_str()).as_str(),
            ),
        }
    }
}

/// Why a chunk was not stored.
#[derive(Debug)]
pub enum StoreError {
    /// The file of the chunk is already there.
    AlreadyExists { chunk_id: String },
    /// The chunk does not fit under the configured limit.
    LimitReached { size: u64, used: u64, max: u64 },
    /// The file of the chunk has no directory.
    NoParent { chunk_path: String },
    CreateDirectory { directory: String },
    CreateFile { chunk_path: String },
    /// The source of the data failed.
    Stream,
    Write { chunk_path: String },
    Sync { chunk_path: String },
    /// More or less came than was announced.
    SizeMismatch { chunk_id: String, expected: u64, written: u64 },
    /// More or less came than was announced, and the file could not be removed.
    RemoveMismatched { chunk_path: String },
}

impl StoreError {
    /// The text of `message`.
    pub open spec fn text(self) -> Seq<char> {
        match self {
            StoreError::AlreadyExists { chunk_id } =>
                "Chunk "@ + chunk_id@ + " already exists. Delete first to overwrite."@,
            StoreError::LimitReached { size, used, max } =>
                "Insufficient storage space. Required: "@ + text::decimal(size as nat) + ", Available: "@
                    + text::decimal(storage::less(max, used)) + ". Current usage: "@ + text::decimal(used as nat)
                    + "/"@ + text::decimal(max as nat),
            StoreError::NoParent { chunk_path } =>
                "Invalid chunk path, cannot determine parent directory: "@ + path::shown_path(chunk_path@),
            StoreError::CreateDirectory { directory } =>
                "Failed to create directory for chunk: "@ + path::shown_path(directory@),
            StoreError::CreateFile { chunk_path } =>
                "Failed to create file for chunk: "@ + path::shown_path(chunk_path@),
            StoreError::Stream => "Error streaming chunk data from source"@,
            StoreError::Write { chunk_path } =>
                "Failed to write data to chunk file: "@ + path::shown_path(chunk_path@),
            StoreError::Sync { chunk_path } => "Failed to sync chunk file: "@ + path::shown_path(chunk_path@),
            StoreError::SizeMismatch { chunk_id, expected, written } =>
                "Size mismatch for chunk "@ + chunk_id@ + ": Expected "@ + text::decimal(expected as nat)
                    + ", wrote "@ + text::decimal(written as nat) + ". Chunk deleted."@,
            StoreError::RemoveMismatched { chunk_path } =>
                "Failed to delete mismatched chunk file: "@ + path::shown_path(chunk_path@),
        }
    }

    /// The message to show and to report for this error.
    pub fn message(&self) -> (r: String)
        ensures
            r@ == self.text(),
    {
        match self {
            StoreError::AlreadyExists { chunk_id } => text::concat3(
                "Chunk ",
                chunk_id.as_str(),
                " already exists. Delete first to overwrite.",
            ),
            StoreError::LimitReached { size, used, max } => {
                let mut r = "Insufficient storage space. Required: ".to_owned();
                r.append(text::decimal_text(*size).as_str());
                r.append(", Available: ");
                r.append(text::decimal_text((*max).saturating_sub(*used)).as_str());
                r.append(". Current usage: ");
                r.append(text::decimal_text(*used).as_str());
                r.append("/");
                r.append(text::decimal_text(*max).as_str());
                r
            },
            StoreError::NoParent { chunk_path } => text::concat2(
                "Invalid chunk path, cannot determine parent directory: ",
                path::show_path(chunk_path.as_str()).as_str(),
            ),
            StoreError::CreateDirectory { directory } => text::concat2(
                "Failed to create directory for chunk: ",
                path::show_path(directory.as_str()).as_str(),
            ),
            StoreError::CreateFile { chunk_path } => text::concat2(
                "Failed to create file for chunk: ",
                path::show_path(chunk_path.as_str()).as_str(),
            ),
            StoreError::Stream => "Error streaming chunk data from source".to_owned(),
            StoreError::Write { chunk_path } => text::concat2(
                "Failed to write data to chunk file: ",
                path::show_path(chunk_path.as_str()).as_str(),
            ),
            StoreError::Sync { chunk_path } => text::concat2(
                "Failed to sync chunk file: ",
                path::show_path(chunk_path.as_str()).as_str(),
            ),
            StoreError::SizeMismatch { chunk_id, expected, written } => {
                let mut r = text::concat3("Size mismatch for chunk ", chunk_id.as_str(), ": Expected ");
                r.append(text::decimal_text(*expected).as_str());
                r.append(", wrote ");
                r.append(text::decimal_text(*written).as_str());
                r.append(". Chunk deleted.");
                r
            },
            StoreError::RemoveMismatched { chunk_path } => text::concat2(
                "Failed to delete mismatched chunk file: ",
                path::show_path(chunk_path.as_str()).as_str(),
            ),
        }
    }
}

/// What comes next in storing a chunk.
#[derive(Debug)]
pub enum StoreStage {
    /// Ask whether the file of the chunk exists.
    CheckExists,
    /// Ask whether this directory exists.
    CheckDirectory { directory: String },
    /// Create this directory and those above it.
    CreateDirectory { directory: String },
    /// Create the file of the chunk, or empty it.
    CreateFile,
    /// Ask the source for the next piece of the data.
    NextPiece,
    /// Write this piece behind what the file has.
    WritePiece { piece: Vec<u8> },
    /// Bring the file to the disk.
    Sync,
    /// Remove the file: not what was announced has come.
    RemoveMismatched,
    /// Nothing: this is the result, the size of the stored chunk.
    Finished(Result<u64, StoreError>),
}

/// The outcome of a stage of storing a chunk.
#[derive(Debug)]
pub enum StoreReply {
    /// For `CheckExists`; where it could not be told, nothing is there.
    Exists(Option<bool>),
    /// For `CheckDirectory`.
    DirectoryExists(bool),
    /// For `CreateDirectory`, `CreateFile`, `WritePiece`, `Sync` and `RemoveMismatched`: whether
    /// it was done.
    Done(bool),
    /// For `NextPiece`: a piece, the end of the data, or that the source failed.
    Piece(Result<Option<Vec<u8>>, ()>),
}

/// The storing of one chunk: its file, the directory of that, how much was announced and how much
/// has been written.
#[derive(Debug)]
pub struct StoreRun {
    pub chunk_id: String,
    pub chunk_path: String,
    pub directory: Option<String>,
    pub expected_size_bytes: u64,
    pub written: u64,
    pub stage: StoreStage,
}

/// `run` is what `store_chunk_to_disk` begins with.
pub open spec fn store_begun(run: StoreRun, base: Seq<char>, id: Seq<char>, expected_size_bytes: u64) -> bool {
    &&& run.chunk_id@ == id
    &&& run.chunk_path@ == chunk_file(base, id)
    &&& match run.directory {
        Some(directory) => {
            &&& path::parent_path(run.chunk_path@) == Some(directory@)
            &&& path::text_components(directory@) == path::text_components(run.chunk_path@).drop_last()
        },
        None => path::parent_path(run.chunk_path@) is None,
    }
    &&& run.directory is Some <==> path::has_parent(run.chunk_path@)
    &&& run.expected_size_bytes == expected_size_bytes
    &&& run.written == 0
    &&& run.stage is CheckExists
}

/// Begins to store the chunk `chunk_id`, of which this much is announced, in the directory
/// `storage_path_base`.
pub fn store_chunk_to_disk(storage_path_base: &str, chunk_id: &str, expected_size_bytes: u64) -> (run: StoreRun)
    requires
        has_place(chunk_id@),
    ensures
        store_begun(run, storage_path_base@, chunk_id@, expected_size_bytes),
{
    let chunk_path = get_chunk_path(storage_path_base, chunk_id);
    let directory = path::parent(chunk_path.as_str());
    StoreRun {
        chunk_id: chunk_id.to_owned(),
        chunk_path,
        directory,
        expected_size_bytes,
        written: 0,
        stage: StoreStage::CheckExists,
    }
}

/// The directory that is made for a chunk is the one its file is put in: its subdirectory, for an
/// identifier that names a file of its own.
pub proof fn chunk_goes_to_its_directory(run: StoreRun, base: Seq<char>, id: Seq<char>, expected_size_bytes: u64)
    requires
        store_begun(run, base, id, expected_size_bytes),
        !id.contains('/'),
        id.len() > 0,
        id != seq!['.'],
    ensures
        run.directory matches Some(directory) && path::text_components(directory@) == path::text_components(
            directory_of(base, id),
        ),
{
    path::joined_name_is_last_component(directory_of(base, id), id);
    let above = path::text_components(directory_of(base, id));
    assert(above.push(encode_utf8(id)).drop_last() =~= above);
}

impl StoreRun {
    /// `reply` is an outcome of the stage.
    pub open spec fn expects(self, reply: StoreReply) -> bool {
        match self.stage {
            StoreStage::CheckExists => reply is Exists,
            StoreStage::CheckDirectory { .. } => reply is DirectoryExists,
            StoreStage::NextPiece => reply is Piece,
            StoreStage::Finished(_) => false,
            _ => reply is Done,
        }
    }

    /// The numbers of this step are within the range of a counter: the chunk that is announced,
    /// on top of what is in use, and what has been written.
    pub open spec fn in_range(self, reply: StoreReply, state: StorageState) -> bool {
        match (self.stage, reply) {
            (StoreStage::CheckExists, StoreReply::Exists(found)) => found == Some(true)
                || state.current_used_space_bytes + self.expected_size_bytes <= u64::MAX,
            (StoreStage::WritePiece { piece }, StoreReply::Done(true)) => self.written + piece@.len() <= u64::MAX,
            _ => true,
        }
    }

    /// The stage when no file is there yet: the limit and the directory come before the file.
    pub open spec fn stage_when_absent(self, state: StorageState) -> StoreStage {
        if state.current_used_space_bytes + self.expected_size_bytes > state.max_storage_bytes {
            StoreStage::Finished(
                Err(
                    StoreError::LimitReached {
                        size: self.expected_size_bytes,
                        used: state.current_used_space_bytes,
                        max: state.max_storage_bytes,
                    },
                ),
            )
        } else {
            match self.directory {
                Some(directory) => StoreStage::CheckDirectory { directory },
                None => StoreStage::Finished(Err(StoreError::NoParent { chunk_path: self.chunk_path })),
            }
        }
    }

    /// The stage after `reply`, with these counters.
    pub open spec fn stage_after(self, reply: StoreReply, state: StorageState) -> StoreStage {
        match (self.stage, reply) {
            (StoreStage::CheckExists, StoreReply::Exists(found)) => if found == Some(true) {
                StoreStage::Finished(Err(StoreError::AlreadyExists { chunk_id: self.chunk_id }))
            } else {
                self.stage_when_absent(state)
            },
            (StoreStage::CheckDirectory { directory }, StoreReply::DirectoryExists(found)) => if found {
                StoreStage::CreateFile
            } else {
                StoreStage::CreateDirectory { directory }
            },
            (StoreStage::CreateDirectory { directory }, StoreReply::Done(done)) => if done {
                StoreStage::CreateFile
            } else {
                StoreStage::Finished(Err(StoreError::CreateDirectory { directory }))
            },
            (StoreStage::CreateFile, StoreReply::Done(done)) => if done {
                StoreStage::NextPiece
            } else {
                StoreStage::Finished(Err(StoreError::CreateFile { chunk_path: self.chunk_path }))
            },
            (StoreStage::NextPiece, StoreReply::Piece(Ok(Some(piece)))) => StoreStage::WritePiece { piece },
            (StoreStage::NextPiece, StoreReply::Piece(Ok(None))) => StoreStage::Sync,
            (StoreStage::NextPiece, StoreReply::Piece(Err(_))) => StoreStage::Finished(Err(StoreError::Stream)),
            (StoreStage::WritePiece { .. }, StoreReply::Done(done)) => if done {
                StoreStage::NextPiece
            } else {
                StoreStage::Finished(Err(StoreError::Write { chunk_path: self.chunk_path }))
            },
            (StoreStage::Sync, StoreReply::Done(done)) => if !done {
                StoreStage::Finished(Err(StoreError::Sync { chunk_path: self.chunk_path }))
            } else if self.written != self.expected_size_bytes {
                StoreStage::RemoveMismatched
            } else {
                StoreStage::Finished(Ok(self.written))
            },
            (StoreStage::RemoveMismatched, StoreReply::Done(done)) => if done {
                StoreStage::Finished(
                    Err(
                        StoreError::SizeMismatch {
                            chunk_id: self.chunk_id,
                            expected: self.expected_size_bytes,
                            written: self.written,
                        },
                    ),
                )
            } else {
                StoreStage::Finished(Err(StoreError::RemoveMismatched { chunk_path: self.chunk_path }))
            },
            (stage, _) => stage,
        }
    }

    /// What has been written after `reply`.
    pub open spec fn written_after(self, reply: StoreReply) -> u64 {
        match (self.stage, reply) {
            (StoreStage::WritePiece { piece }, StoreReply::Done(true)) => (self.written + piece@.len()) as u64,
            _ => self.written,
        }
    }

    /// This run after `reply`, with these counters.
    pub open spec fn after(self, reply: StoreReply, state: StorageState) -> StoreRun {
        StoreRun { written: self.written_after(reply), stage: self.stage_after(reply, state), ..self }
    }

    /// `reply` says that all that was announced is on the disk.
    pub open spec fn completes_with(self, reply: StoreReply) -> bool {
        self.stage is Sync && reply == StoreReply::Done(true) && self.written == self.expected_size_bytes
    }

    /// Goes on with the outcome of the stage. The counters change when all that was announced is
    /// on the disk, and only then.
    pub fn resume(self, reply: StoreReply, state: &mut StorageState) -> (next: StoreRun)
        requires
            self.expects(reply),
            self.in_range(reply, *old(state)),
        ensures
            next == self.after(reply, *old(state)),
            *final(state) == if self.completes_with(reply) {
                old(state).with_chunk(self.written)
            } else {
                *old(state)
            },
    {
        let StoreRun { chunk_id, chunk_path, directory, expected_size_bytes, written, stage } = self;
        let mut written: u64 = written;
        let stage = match (stage, reply) {
            (StoreStage::CheckExists, StoreReply::Exists(found)) => {
                let present = match found {
                    Some(b) => b,
                    None => false,
                };
                let used: u64 = state.current_used_space_bytes;
                let max: u64 = state.max_storage_bytes;
                if present {
                    StoreStage::Finished(Err(StoreError::AlreadyExists { chunk_id: chunk_id.clone() }))
                } else if used + expected_size_bytes > max {
                    StoreStage::Finished(
                        Err(StoreError::LimitReached { size: expected_size_bytes, used, max }),
                    )
                } else {
                    match &directory {
                        Some(d) => StoreStage::CheckDirectory { directory: d.clone() },
                        None => StoreStage::Finished(
                            Err(StoreError::NoParent { chunk_path: chunk_path.clone() }),
                        ),
                    }
                }
            },
            (StoreStage::CheckDirectory { directory: d }, StoreReply::DirectoryExists(found)) => if found {
                StoreStage::CreateFile
            } else {
                StoreStage::CreateDirectory { directory: d }
            },
            (StoreStage::CreateDirectory { directory: d }, StoreReply::Done(done)) => if done {
                StoreStage::CreateFile
            } else {
                StoreStage::Finished(Err(StoreError::CreateDirectory { directory: d }))
            },
            (StoreStage::CreateFile, StoreReply::Done(done)) => if done {
                StoreStage::NextPiece
            } else {
                StoreStage::Finished(Err(StoreError::CreateFile { chunk_path: chunk_path.clone() }))
            },
            (StoreStage::NextPiece, StoreReply::Piece(came)) => match came {
                Ok(Some(piece)) => StoreStage::WritePiece { piece },
                Ok(None) => StoreStage::Sync,
                Err(_) => StoreStage::Finished(Err(StoreError::Stream)),
            },
            (StoreStage::WritePiece { piece }, StoreReply::Done(done)) => if done {
                written = written + piece.len() as u64;
                StoreStage::NextPiece
            } else {
                StoreStage::Finished(Err(StoreError::Write { chunk_path: chunk_path.clone() }))
            },
            (StoreStage::Sync, StoreReply::Done(done)) => if !done {
                StoreStage::Finished(Err(StoreError::Sync { chunk_path: chunk_path.clone() }))
            } else if written != expected_size_bytes {
                StoreStage::RemoveMismatched
            } else {
                state.add_chunk(written);
                StoreStage::Finished(Ok(written))
            },
            (StoreStage::RemoveMismatched, StoreReply::Done(done)) => if done {
                StoreStage::Finished(
                    Err(
                        StoreError::SizeMismatch {
                            chunk_id: chunk_id.clone(),
                            expected: expected_size_bytes,
                            written,
                        },
                    ),
                )
            } else {
                StoreStage::Finished(Err(StoreError::RemoveMismatched { chunk_path: chunk_path.clone() }))
            },
            (stage, _) => stage,
        };
        StoreRun { chunk_id, chunk_path, directory, expected_size_bytes, written, stage }
    }
}

/// Why a chunk could not be opened for reading.
#[derive(Debug)]
pub enum RetrieveError {
    /// There is no file for the chunk.
    NotFound { chunk_id: String, chunk_path: String },
    /// The file could not be opened.
    Open { chunk_id: String, chunk_path: String },
}

impl RetrieveError {
    /// The text of `message`.
    pub open spec fn text(self) -> Seq<char> {
        match self {
            RetrieveError::NotFound { chunk_id, chunk_path } =>
                "Chunk "@ + chunk_id@ + " not found at "@ + path::shown_path(chunk_path@),
            RetrieveError::Open { chunk_id, chunk_path } =>
                "Chunk "@ + chunk_id@ + " not found or unreadable at "@ + path::shown_path(chunk_path@),
        }
    }

    /// The message to show and to report for this error.
    pub fn message(&self) -> (r: String)
        ensures
            r@ == self.text(),
    {
        match self {
            RetrieveError::NotFound { chunk_id, chunk_path } => {
                let mut r = text::concat3("Chunk ", chunk_id.as_str(), " not found at ");
                r.append(path::show_path(chunk_path.as_str()).as_str());
                r
            },
            RetrieveError::Open { chunk_id, chunk_path } => {
                let mut r = text::concat3("Chunk ", chunk_id.as_str(), " not found or unreadable at ");
                r.append(path::show_path(chunk_path.as_str()).as_str());
                r
            },
        }
    }
}

/// What comes next in opening a chunk for reading.
#[derive(Debug)]
pub enum RetrieveStage {
    /// Ask whether the file of the chunk exists.
    CheckExists,
    /// Open the file of the chunk.
    OpenFile,
    /// Nothing: the file can be read, or why it cannot.
    Finished(Result<(), RetrieveError>),
}

/// The outcome of a stage of opening a chunk.
#[derive(Debug)]
pub enum RetrieveReply {
    /// For `CheckExists`; where it could not be told, nothing is there.
    Exists(Option<bool>),
    /// For `OpenFile`: whether it was done.
    Opened(bool),
}

/// The opening of one chunk for reading.
#[derive(Debug)]
pub struct RetrieveRun {
    pub chunk_id: String,
    pub chunk_path: String,
    pub stage: RetrieveStage,
}

/// `run` is what `retrieve_chunk_from_disk` begins with.
pub open spec fn retrieve_begun(run: RetrieveRun, base: Seq<char>, id: Seq<char>) -> bool {
    &&& run.chunk_id@ == id
    &&& run.chunk_path@ == chunk_file(base, id)
    &&& run.stage is CheckExists
}

/// Begins to open the chunk `chunk_id` of the directory `storage_path_base`.
pub fn retrieve_chunk_from_disk(storage_path_base: &str, chunk_id: &str) -> (run: RetrieveRun)
    requires
        has_place(chunk_id@),
    ensures
        retrieve_begun(run, storage_path_base@, chunk_id@),
{
    RetrieveRun {
        chunk_id: chunk_id.to_owned(),
        chunk_path: get_chunk_path(storage_path_base, chunk_id),
        stage: RetrieveStage::CheckExists,
    }
}

impl RetrieveRun {
    /// `reply` is an outcome of the stage.
    pub open spec fn expects(self, reply: RetrieveReply) -> bool {
        match self.stage {
            RetrieveStage::CheckExists => reply is Exists,
            RetrieveStage::OpenFile => reply is Opened,
            RetrieveStage::Finished(_) => false,
        }
    }

    /// The stage after `reply`.
    pub open spec fn stage_after(self, reply: RetrieveReply) -> RetrieveStage {
        match (self.stage, reply) {
            (RetrieveStage::CheckExists, RetrieveReply::Exists(found)) => if found == Some(true) {
                RetrieveStage::OpenFile
            } else {
                RetrieveStage::Finished(
                    Err(RetrieveError::NotFound { chunk_id: self.chunk_id, chunk_path: self.chunk_path }),
                )
            },
            (RetrieveStage::OpenFile, RetrieveReply::Opened(done)) => if done {
                RetrieveStage::Finished(Ok(()))
            } else {
                RetrieveStage::Finished(
                    Err(RetrieveError::Open { chunk_id: self.chunk_id, chunk_path: self.chunk_path }),
                )
            },
            (stage, _) => stage,
        }
    }

    /// Goes on with the outcome of the stage.
    pub fn resume(self, reply: RetrieveReply) -> (next: RetrieveRun)
        requires
            self.expects(reply),
        ensures
            next == (RetrieveRun { stage: self.stage_after(reply), ..self }),
    {
        let RetrieveRun { chunk_id, chunk_path, stage } = self;
        let stage = match (stage, reply) {
            (RetrieveStage::CheckExists, RetrieveReply::Exists(found)) => match found {
                Some(true) => RetrieveStage::OpenFile,
                _ => RetrieveStage::Finished(
                    Err(RetrieveError::NotFound { chunk_id: chunk_id.clone(), chunk_path: chunk_path.clone() }),
                ),
            },
            (RetrieveStage::OpenFile, RetrieveReply::Opened(done)) => if done {
                RetrieveStage::Finished(Ok(()))
            } else {
                RetrieveStage::Finished(
                    Err(RetrieveError::Open { chunk_id: chunk_id.clone(), chunk_path: chunk_path.clone() }),
                )
            },
            (stage, _) => stage,
        };
        RetrieveRun { chunk_id, chunk_path, stage }
    }
}

/// The bytes of `pieces`, one piece after the other.
pub open spec fn concatenated(pieces: Seq<Vec<u8>>) -> Seq<u8>
    decreases pieces.len(),
{
    if pieces.len() == 0 {
        Seq::empty()
    } else {
        concatenated(pieces.drop_last()) + pieces.last()@
    }
}

/// The bytes of `pieces`, one piece after the other.
pub fn concat_pieces(pieces: &Vec<Vec<u8>>) -> (data: Vec<u8>)
    ensures
        data@ == concatenated(pieces@),
{
    let mut data: Vec<u8> = Vec::new();
    let mut i: usize = 0;
    assert(pieces@.take(0) =~= Seq::<Vec<u8>>::empty());
    assert(data@ =~= Seq::<u8>::empty());
    while i < pieces.len()
        invariant
            i <= pieces.len(),
            data@ == concatenated(pieces@.take(i as int)),
        decreases pieces.len() - i,
    {
        assert(pieces@.take(i + 1).drop_last() =~= pieces@.take(i as int));
        data.extend_from_slice(pieces[i].as_slice());
        assert(data@ =~= concatenated(pieces@.take(i as int)) + pieces@[i as int]@);
        i += 1;
    }
    assert(pieces@.take(pieces@.len() as int) =~= pieces@);
    data
}

/// Why a chunk could not be deleted.
#[derive(Debug)]
pub enum DeleteError {
    /// The size of the file could not be read.
    Metadata { chunk_id: String, reason: String },
    /// The file could not be removed.
    Remove { chunk_path: String },
}

impl DeleteError {
    /// The text of `message`.
    pub open spec fn text(self) -> Seq<char> {
        match self {
            DeleteError::Metadata { chunk_id, reason } => "Error deleting chunk "@ + chunk_id@ + ": "@ + reason@,
            DeleteError::Remove { chunk_path } => "Failed to delete chunk file: "@ + path::shown_path(chunk_path@),
        }
    }

    /// The message to show and to report for this error.
    pub fn message(&self) -> (r: String)
        ensures
            r@ == self.text(),
    {
        match self {
            DeleteError::Metadata { chunk_id, reason } => {
                let mut r = text::concat3("Error deleting chunk ", chunk_id.as_str(), ": ");
                r.append(reason.as_str());
                r
            },
            DeleteError::Remove { chunk_path } => text::concat2(
                "Failed to delete chunk file: ",
                path::show_path(chunk_path.as_str()).as_str(),
            ),
        }
    }
}

/// What comes next in deleting a chunk.
#[derive(Debug)]
pub enum DeleteStage {
    /// Ask for the size of the file of the chunk.
    ReadMetadata,
    /// Remove the file of the chunk, which has this size.
    RemoveFile { size: u64 },
    /// Nothing: this is the result, the size of the deleted chunk where there was one.
    Finished(Result<Option<u64>, DeleteError>),
}

/// The outcome of a stage of deleting a chunk.
#[derive(Debug)]
pub enum DeleteReply {
    /// For `ReadMetadata`.
    Size(Result<u64, IoFailure>),
    /// For `RemoveFile`: whether it was done.
    Removed(bool),
}

/// The deleting of one chunk.
#[derive(Debug)]
pub struct DeleteRun {
    pub chunk_id: String,
    pub chunk_path: String,
    pub stage: DeleteStage,
}

/// `run` is what `delete_chunk_from_disk` begins with.
pub open spec fn delete_begun(run: DeleteRun, base: Seq<char>, id: Seq<char>) -> bool {
    &&& run.chunk_id@ == id
    &&& run.chunk_path@ == chunk_file(base, id)
    &&& run.stage is ReadMetadata
}

/// Begins to delete the chunk `chunk_id` of the directory `storage_path_base`.
pub fn delete_chunk_from_disk(storage_path_base: &str, chunk_id: &str) -> (run: DeleteRun)
    requires
        has_place(chunk_id@),
    ensures
        delete_begun(run, storage_path_base@, chunk_id@),
{
    DeleteRun {
        chunk_id: chunk_id.to_owned(),
        chunk_path: get_chunk_path(storage_path_base, chunk_id),
        stage: DeleteStage::ReadMetadata,
    }
}

impl DeleteRun {
    /// `reply` is an outcome of the stage.
    pub open spec fn expects(self, reply: DeleteReply) -> bool {
        match self.stage {
            DeleteStage::ReadMetadata => reply is Size,
            DeleteStage::RemoveFile { .. } => reply is Removed,
            DeleteStage::Finished(_) => false,
        }
    }

    /// The stage after `reply`. That there is no file for the chunk is no error.
    pub open spec fn stage_after(self, reply: DeleteReply) -> DeleteStage {
        match (self.stage, reply) {
            (DeleteStage::ReadMetadata, DeleteReply::Size(Ok(size))) => DeleteStage::RemoveFile { size },
            (DeleteStage::ReadMetadata, DeleteReply::Size(Err(e))) => if e.kind == IoKind::NotFound {
                DeleteStage::Finished(Ok(None))
            } else {
                DeleteStage::Finished(Err(DeleteError::Metadata { chunk_id: self.chunk_id, reason: e.text }))
            },
            (DeleteStage::RemoveFile { size }, DeleteReply::Removed(done)) => if done {
                DeleteStage::Finished(Ok(Some(size)))
            } else {
                DeleteStage::Finished(Err(DeleteError::Remove { chunk_path: self.chunk_path }))
            },
            (stage, _) => stage,
        }
    }

    /// The counters after `reply`: they change when the file has been removed, and only then.
    pub open spec fn state_after(self, reply: DeleteReply, state: StorageState) -> StorageState {
        match (self.stage, reply) {
            (DeleteStage::RemoveFile { size }, DeleteReply::Removed(true)) => state.without_chunk(size),
            _ => state,
        }
    }

    /// Goes on with the outcome of the stage.
    pub fn resume(self, reply: DeleteReply, state: &mut StorageState) -> (next: DeleteRun)
        requires
            self.expects(reply),
        ensures
            next == (DeleteRun { stage: self.stage_after(reply), ..self }),
            *final(state) == self.state_after(reply, *old(state)),
    {
        let DeleteRun { chunk_id, chunk_path, stage } = self;
        let stage = match (stage, reply) {
            (DeleteStage::ReadMetadata, DeleteReply::Size(result)) => match result {
                Ok(size) => DeleteStage::RemoveFile { size },
                Err(e) => if e.kind == IoKind::NotFound {
                    DeleteStage::Finished(Ok(None))
                } else {
                    DeleteStage::Finished(
                        Err(DeleteError::Metadata { chunk_id: chunk_id.clone(), reason: e.text }),
                    )
                },
            },
            (DeleteStage::RemoveFile { size }, DeleteReply::Removed(done)) => if done {
                state.remove_chunk(size);
                DeleteStage::Finished(Ok(Some(size)))
            } else {
                DeleteStage::Finished(Err(DeleteError::Remove { chunk_path: chunk_path.clone() }))
            },
            (stage, _) => stage,
        };
        DeleteRun { chunk_id, chunk_path, stage }
    }
}

} // verus!
