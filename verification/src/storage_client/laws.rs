//! What the runs of this node do to a disk that does what it says, and what holds of the handling
//! of every command.

use crate::disk::{IoFailure, IoKind};
use crate::path;
use crate::storage::StorageState;
use crate::storage_client::commands;
use crate::storage_client::commands::{
    BackendCommand, CommandReply, CommandStage, Failure, HttpStatus, Response,
};
use crate::storage_client::storage;
use crate::storage_client::network::{NodeConfig, RegistrationError, RegistrationReply, RegistrationStage};
use crate::storage_client::storage::{
    DeleteError, DeleteReply, DeleteRun, DeleteStage, RetrieveError, RetrieveReply, RetrieveRun, RetrieveStage,
    StoreError, StoreReply, StoreRun, StoreStage, TopEntry,
};
use crate::storage_laws;
use crate::storage_laws::Files;
use vstd::prelude::*;
use vstd::utf8::*;

verus! {

/// What performing the stage of `run` does to the files when the disk answers `reply`. A file that
/// could not be created or written may be left with anything in it; an operation that fails
/// otherwise changes nothing.
pub open spec fn store_effect(run: StoreRun, reply: StoreReply, before: Files, after: Files) -> bool {
    let file = run.chunk_path@;
    match (run.stage, reply) {
        (StoreStage::CreateFile, StoreReply::Done(true)) => after == before.insert(file, Seq::empty()),
        (StoreStage::CreateFile, StoreReply::Done(false)) => after.remove(file) == before.remove(file),
        (StoreStage::WritePiece { piece }, StoreReply::Done(true)) => {
            &&& before.contains_key(file)
            &&& after == before.insert(file, before[file] + piece@)
        },
        (StoreStage::WritePiece { .. }, StoreReply::Done(false)) => after.remove(file) == before.remove(file),
        (StoreStage::RemoveMismatched, StoreReply::Done(true)) => after == before.remove(file),
        _ => after == before,
    }
}

/// A history of the storing of a chunk: `runs[i]` was answered `replies[i]`, which took the disk
/// from `files[i]` to `files[i + 1]` and the counters from `states[i]` to `states[i + 1]`.
pub struct StoreHistory {
    pub runs: Seq<StoreRun>,
    pub replies: Seq<StoreReply>,
    pub files: Seq<Files>,
    pub states: Seq<StorageState>,
}

impl StoreHistory {
    /// Step `i` is one that `StoreRun::resume` and the disk make.
    pub open spec fn step(self, i: int) -> bool {
        &&& self.runs[i].expects(self.replies[i])
        &&& self.runs[i].in_range(self.replies[i], self.states[i])
        &&& self.runs[i + 1] == self.runs[i].after(self.replies[i], self.states[i])
        &&& self.states[i + 1] == if self.runs[i].completes_with(self.replies[i]) {
            self.states[i].with_chunk(self.runs[i].written)
        } else {
            self.states[i]
        }
        &&& store_effect(self.runs[i], self.replies[i], self.files[i], self.files[i + 1])
    }

    /// The history of storing the chunk `id`, of which `expected` bytes are announced, in the
    /// directory `base`.
    pub open spec fn stores(self, base: Seq<char>, id: Seq<char>, expected: u64) -> bool {
        &&& self.runs.len() > 0
        &&& self.runs.len() == self.replies.len() + 1
        &&& self.runs.len() == self.files.len()
        &&& self.runs.len() == self.states.len()
        &&& storage::store_begun(self.runs[0], base, id, expected)
        &&& forall|i: int| 0 <= i < self.replies.len() ==> #[trigger] self.step(i)
    }

    /// The data that was written in the first `n` steps.
    pub open spec fn written(self, n: int) -> Seq<u8>
        decreases n,
    {
        if n <= 0 {
            Seq::empty()
        } else {
            match (self.runs[n - 1].stage, self.replies[n - 1]) {
                (StoreStage::WritePiece { piece }, StoreReply::Done(true)) => self.written(n - 1) + piece@,
                _ => self.written(n - 1),
            }
        }
    }

    /// All the data that was written.
    pub open spec fn data(self) -> Seq<u8> {
        self.written(self.replies.len() as int)
    }

    /// What holds after `i` steps.
    spec fn holds_at(self, i: int) -> bool {
        let run = self.runs[i];
        let first = self.runs[0];
        let file = first.chunk_path@;
        &&& run == (StoreRun { written: run.written, stage: run.stage, ..first })
        &&& match run.stage {
            StoreStage::CheckExists => i == 0,
            StoreStage::CheckDirectory { .. } => self.untouched_at(i) && self.fits(),
            StoreStage::CreateDirectory { .. } => self.untouched_at(i) && self.fits(),
            StoreStage::CreateFile => self.untouched_at(i) && self.fits(),
            StoreStage::Finished(Ok(n)) => {
                &&& n == first.expected_size_bytes
                &&& n == self.written(i).len()
                &&& self.files[i] == self.files[0].insert(file, self.written(i))
                &&& self.states[i] == self.states[0].with_chunk(n)
                &&& self.fits()
            },
            StoreStage::Finished(Err(e)) => {
                &&& self.files[i].remove(file) == self.files[0].remove(file)
                &&& self.states[i] == self.states[0]
                &&& e is SizeMismatch ==> !self.files[i].contains_key(file)
                &&& e is AlreadyExists || e is LimitReached || e is NoParent ==> self.files[i] == self.files[0]
            },
            _ => self.in_progress_at(i) && self.fits(),
        }
    }

    /// Nothing has been written after `i` steps.
    spec fn untouched_at(self, i: int) -> bool {
        &&& self.files[i] == self.files[0]
        &&& self.states[i] == self.states[0]
        &&& self.runs[i].written == 0
        &&& self.written(i) == Seq::<u8>::empty()
    }

    /// After `i` steps the file has what was written, and nothing else has changed.
    spec fn in_progress_at(self, i: int) -> bool {
        let file = self.runs[0].chunk_path@;
        &&& self.files[i] == self.files[0].insert(file, self.written(i))
        &&& self.runs[i].written == self.written(i).len()
        &&& self.states[i] == self.states[0]
    }

    /// What is announced fits under the limit.
    spec fn fits(self) -> bool {
        self.states[0].current_used_space_bytes + self.runs[0].expected_size_bytes
            <= self.states[0].max_storage_bytes
    }

    proof fn holds(self, base: Seq<char>, id: Seq<char>, expected: u64, i: int)
        requires
            self.stores(base, id, expected),
            0 <= i < self.runs.len(),
        ensures
            self.holds_at(i),
        decreases i,
    {
        if i > 0 {
            self.holds(base, id, expected, i - 1);
            assert(self.step(i - 1));
            let file = self.runs[0].chunk_path@;
            let was = self.files[i - 1];
            let start = self.files[0];
            assert(self.written(0) == Seq::<u8>::empty());
            match (self.runs[i - 1].stage, self.replies[i - 1]) {
                (StoreStage::WritePiece { piece }, StoreReply::Done(true)) => {
                    assert(self.files[i] =~= start.insert(file, self.written(i)));
                },
                (StoreStage::WritePiece { piece }, StoreReply::Done(false)) => {
                    assert(was.remove(file) =~= start.remove(file));
                },
                (StoreStage::NextPiece, _) => {
                    assert(was.remove(file) =~= start.remove(file));
                },
                (StoreStage::Sync, _) => {
                    assert(was.remove(file) =~= start.remove(file));
                },
                (StoreStage::RemoveMismatched, _) => {
                    assert(was.remove(file) =~= start.remove(file));
                    assert(was.remove(file).remove(file) =~= start.remove(file));
                },
                _ => {},
            }
        }
    }
}

/// A chunk whose storing succeeds is in its file, whole, with the size that was announced; no
/// other file has changed, and the chunk has been counted once, with its size.
pub proof fn stored_stream_is_in_place(h: StoreHistory, base: Seq<char>, id: Seq<char>, expected: u64)
    requires
        h.stores(base, id, expected),
        h.runs.last().stage matches StoreStage::Finished(Ok(_)),
    ensures
        h.runs.last().stage == StoreStage::Finished(Ok(expected)),
        h.data().len() == expected,
        h.files.last() == h.files[0].insert(storage::chunk_file(base, id), h.data()),
        h.states.last() == h.states[0].with_chunk(expected),
{
    h.holds(base, id, expected, h.runs.len() - 1);
}

/// A chunk whose storing fails has not been counted, and no file but its own has changed. One that
/// was there before, or that does not fit under the limit, leaves even that as it was; and where
/// not what was announced has come, nothing is left of it.
pub proof fn failed_stream_keeps_files(h: StoreHistory, base: Seq<char>, id: Seq<char>, expected: u64, e: StoreError)
    requires
        h.stores(base, id, expected),
        h.runs.last().stage == StoreStage::Finished(Err(e)),
    ensures
        h.states.last() == h.states[0],
        h.files.last().remove(storage::chunk_file(base, id)) == h.files[0].remove(storage::chunk_file(base, id)),
        e is AlreadyExists || e is LimitReached || e is NoParent ==> h.files.last() == h.files[0],
        e is SizeMismatch ==> !h.files.last().contains_key(storage::chunk_file(base, id)),
{
    h.holds(base, id, expected, h.runs.len() - 1);
}

/// The limit is kept: where nothing else is stored meanwhile, the bytes in use after a chunk has
/// been stored are those before and those of the chunk, and within the limit.
pub proof fn stream_keeps_limit(h: StoreHistory, base: Seq<char>, id: Seq<char>, expected: u64)
    requires
        h.stores(base, id, expected),
        h.runs.last().stage matches StoreStage::Finished(Ok(_)),
    ensures
        h.states.last().current_used_space_bytes == h.states[0].current_used_space_bytes + expected,
        h.states.last().current_used_space_bytes <= h.states.last().max_storage_bytes,
        h.states.last().max_storage_bytes == h.states[0].max_storage_bytes,
{
    h.holds(base, id, expected, h.runs.len() - 1);
}

/// The bytes in these pieces.
pub open spec fn total(pieces: Seq<Vec<u8>>) -> nat
    decreases pieces.len(),
{
    if pieces.len() == 0 {
        0
    } else {
        total(pieces.drop_last()) + pieces.last()@.len()
    }
}

/// `run` after all of `pieces` have come and have been written.
pub open spec fn fed(run: StoreRun, pieces: Seq<Vec<u8>>, state: StorageState) -> StoreRun
    decreases pieces.len(),
{
    if pieces.len() == 0 {
        run
    } else {
        fed(run, pieces.drop_last(), state).after(StoreReply::Piece(Ok(Some(pieces.last()))), state).after(
            StoreReply::Done(true),
            state,
        )
    }
}

proof fn fed_counts(run: StoreRun, pieces: Seq<Vec<u8>>, state: StorageState)
    requires
        run.stage is NextPiece,
        run.written + total(pieces) <= u64::MAX,
    ensures
        fed(run, pieces, state) == (StoreRun { written: (run.written + total(pieces)) as u64, ..run }),
    decreases pieces.len(),
{
    if pieces.len() > 0 {
        fed_counts(run, pieces.drop_last(), state);
    }
}

/// Success is owed: when all that was announced comes, in whatever pieces, and the disk does all
/// it is asked, the chunk is stored.
pub proof fn whole_stream_is_stored(run: StoreRun, pieces: Seq<Vec<u8>>, state: StorageState)
    requires
        run.stage is NextPiece,
        run.written == 0,
        total(pieces) == run.expected_size_bytes,
    ensures
        ({
            let all = fed(run, pieces, state);
            let ended = all.after(StoreReply::Piece(Ok(None)), state);
            let synced = StoreReply::Done(true);
            &&& ended.stage is Sync
            &&& ended.completes_with(synced)
            &&& ended.after(synced, state).stage == StoreStage::Finished(Ok(run.expected_size_bytes))
        }),
{
    fed_counts(run, pieces, state);
}

/// Success is owed: a chunk that is not there yet, that fits under the limit and whose file has a
/// directory comes to the point where its data is asked for, on a disk that does all it is asked.
pub proof fn healthy_store_asks_for_data(
    run: StoreRun,
    base: Seq<char>,
    id: Seq<char>,
    expected: u64,
    state: StorageState,
    directory: String,
    directory_exists: bool,
)
    requires
        storage::store_begun(run, base, id, expected),
        state.current_used_space_bytes + expected <= state.max_storage_bytes,
        run.directory == Some(directory),
    ensures
        ({
            let done = StoreReply::Done(true);
            let second = run.after(StoreReply::Exists(Some(false)), state);
            let third = second.after(StoreReply::DirectoryExists(directory_exists), state);
            let fourth = if directory_exists {
                third
            } else {
                third.after(done, state)
            };
            let ready = fourth.after(done, state);
            &&& second.stage == (StoreStage::CheckDirectory { directory })
            &&& fourth.stage is CreateFile
            &&& ready == (StoreRun { stage: StoreStage::NextPiece, ..run })
        }),
{
}

/// `reply` is what a disk with these files truly answers the stage of `run`, if it can.
pub open spec fn retrieve_answer(run: RetrieveRun, reply: RetrieveReply, files: Files) -> bool {
    match (run.stage, reply) {
        (RetrieveStage::CheckExists, RetrieveReply::Exists(Some(found))) => found == files.contains_key(
            run.chunk_path@,
        ),
        _ => true,
    }
}

/// What is stored is what is sent: after a chunk has been stored, a command to retrieve it opens
/// its file, and what goes to the address the backend gave is its data.
pub proof fn stored_stream_is_uploaded(
    h: StoreHistory,
    base: Seq<char>,
    expected: u64,
    command_id: String,
    chunk_id: String,
    url: String,
    states: Seq<StorageState>,
    stages: Seq<CommandStage>,
    found: bool,
    pieces: Vec<Vec<u8>>,
)
    requires
        h.stores(base, chunk_id@, expected),
        h.runs.last().stage matches StoreStage::Finished(Ok(_)),
        is_history(
            BackendCommand::RetrieveChunk { command_id, chunk_id, upload_destination_url: url },
            base,
            states,
            stages,
            seq![
                CommandReply::Retrieve(RetrieveReply::Exists(Some(found))),
                CommandReply::Retrieve(RetrieveReply::Opened(true)),
                CommandReply::Pieces(Ok(pieces)),
            ],
        ),
        stages[0] matches CommandStage::Retrieve { retrieve, .. } ==> retrieve_answer(
            retrieve,
            RetrieveReply::Exists(Some(found)),
            h.files.last(),
        ),
        storage::concatenated(pieces@) == h.files.last()[storage::chunk_file(base, chunk_id@)],
    ensures
        stages[3] matches CommandStage::Upload { command_id: c, url: u, data } && c == command_id && u == url
            && data@ == h.data(),
{
    let replies = seq![
        CommandReply::Retrieve(RetrieveReply::Exists(Some(found))),
        CommandReply::Retrieve(RetrieveReply::Opened(true)),
        CommandReply::Pieces(Ok(pieces)),
    ];
    assert(stages[0].expects(replies[0]));
    assert(stages[1].expects(replies[1]));
    assert(stages[2].expects(replies[2]));
    stored_stream_is_in_place(h, base, chunk_id@, expected);
}

/// A chunk that is not there is not retrieved: the backend is told that it was not found, and
/// where.
pub proof fn missing_chunk_is_not_found(run: RetrieveRun, files: Files, base: Seq<char>, id: Seq<char>, found: bool)
    requires
        storage::retrieve_begun(run, base, id),
        !files.contains_key(storage::chunk_file(base, id)),
        retrieve_answer(run, RetrieveReply::Exists(Some(found)), files),
    ensures
        run.stage_after(RetrieveReply::Exists(Some(found))) == RetrieveStage::Finished(
            Err(RetrieveError::NotFound { chunk_id: run.chunk_id, chunk_path: run.chunk_path }),
        ),
{
}

/// Deleting undoes storing: a chunk that was stored where there was none before, and is then
/// deleted, leaves the counters and the files as they were.
pub proof fn delete_undoes_stream(
    h: StoreHistory,
    base: Seq<char>,
    id: Seq<char>,
    expected: u64,
    run: DeleteRun,
    size: u64,
)
    requires
        h.stores(base, id, expected),
        h.runs.last().stage matches StoreStage::Finished(Ok(_)),
        !h.files[0].contains_key(storage::chunk_file(base, id)),
        storage::delete_begun(run, base, id),
        size == h.files.last()[storage::chunk_file(base, id)].len(),
    ensures
        ({
            let sized = DeleteReply::Size(Ok(size));
            let removed = DeleteReply::Removed(true);
            let second = DeleteRun { stage: run.stage_after(sized), ..run };
            &&& run.state_after(sized, h.states.last()) == h.states.last()
            &&& second.stage_after(removed) == DeleteStage::Finished(Ok(Some(expected)))
            &&& second.state_after(removed, h.states.last()) == h.states[0]
        }),
        h.files.last().remove(storage::chunk_file(base, id)) == h.files[0],
{
    stored_stream_is_in_place(h, base, id, expected);
    assert(h.files.last().remove(storage::chunk_file(base, id)) =~= h.files[0]);
    storage_laws::counter_sub_undoes_add(h.states[0].current_used_space_bytes, size);
    storage_laws::counter_sub_undoes_add(h.states[0].current_chunk_count, 1);
}

/// The identifier a command carries for its answer.
pub open spec fn command_id_of(command: BackendCommand) -> Option<String> {
    match command {
        BackendCommand::StoreChunk { command_id, .. } => Some(command_id),
        BackendCommand::RetrieveChunk { command_id, .. } => Some(command_id),
        BackendCommand::DeleteChunk { command_id, .. } => Some(command_id),
        BackendCommand::QueryStatus { command_id } => Some(command_id),
        BackendCommand::Unknown => None,
    }
}

/// The identifier an answer carries.
pub open spec fn answered_id(response: Response) -> String {
    match response {
        Response::CommandResult { command_id, .. } => command_id,
        Response::StatusReport { command_id, .. } => command_id,
    }
}

/// The stages a command went through in the storage directory `base`, their outcomes, and the
/// counters at each stage.
pub open spec fn is_history(
    command: BackendCommand,
    base: Seq<char>,
    states: Seq<StorageState>,
    stages: Seq<CommandStage>,
    replies: Seq<CommandReply>,
) -> bool {
    &&& stages.len() == replies.len() + 1
    &&& states.len() == stages.len()
    &&& commands::begins(command, base, states[0], stages[0])
    &&& forall|i: int|
        0 <= i < replies.len() ==> #[trigger] stages[i].expects(replies[i]) && stages[i].leads_to(
            replies[i],
            base,
            states[i],
            stages[i + 1],
        ) && states[i + 1] == stages[i].state_after(replies[i], states[i])
}

/// The number of answers among `stages`.
pub open spec fn answers(stages: Seq<CommandStage>) -> nat
    decreases stages.len(),
{
    if stages.len() == 0 {
        0
    } else {
        answers(stages.drop_last()) + if stages.last() is Respond {
            1nat
        } else {
            0
        }
    }
}

/// The identifier a stage carries for the answer, before there is one.
spec fn pending_id(stage: CommandStage) -> Option<String> {
    match stage {
        CommandStage::Download { command_id, .. } => Some(command_id),
        CommandStage::Store { command_id, .. } => Some(command_id),
        CommandStage::Retrieve { command_id, .. } => Some(command_id),
        CommandStage::ReadPieces { command_id, .. } => Some(command_id),
        CommandStage::Upload { command_id, .. } => Some(command_id),
        CommandStage::Delete { command_id, .. } => Some(command_id),
        _ => None,
    }
}

/// What holds at stage `i` of a history.
spec fn holds_at(command: BackendCommand, stages: Seq<CommandStage>, i: int) -> bool {
    let before = stages.take(i + 1);
    match stages[i] {
        CommandStage::Respond(response) => answers(before) == 1 && command_id_of(command) == Some(
            answered_id(response),
        ),
        CommandStage::Finished(_) => answers(before) == if command is Unknown {
            0nat
        } else {
            1
        },
        _ => answers(before) == 0 && pending_id(stages[i]) == command_id_of(command),
    }
}

proof fn holds(
    command: BackendCommand,
    base: Seq<char>,
    states: Seq<StorageState>,
    stages: Seq<CommandStage>,
    replies: Seq<CommandReply>,
    i: int,
)
    requires
        is_history(command, base, states, stages, replies),
        0 <= i < stages.len(),
    ensures
        holds_at(command, stages, i),
    decreases i,
{
    reveal_with_fuel(answers, 2);
    if i > 0 {
        holds(command, base, states, stages, replies, i - 1);
        assert(stages[i - 1].expects(replies[i - 1]));
        assert(stages.take(i + 1).drop_last() =~= stages.take(i));
    } else {
        assert(stages.take(1).drop_last() =~= Seq::<CommandStage>::empty());
    }
}

/// Every command that could be read is answered exactly once, under its own identifier; an unknown
/// command is not answered.
pub proof fn command_is_answered_once(
    command: BackendCommand,
    base: Seq<char>,
    states: Seq<StorageState>,
    stages: Seq<CommandStage>,
    replies: Seq<CommandReply>,
)
    requires
        is_history(command, base, states, stages, replies),
        stages.last() is Finished,
    ensures
        answers(stages) == if command is Unknown {
            0nat
        } else {
            1
        },
        forall|i: int|
            0 <= i < stages.len() ==> (#[trigger] stages[i] matches CommandStage::Respond(response)
                ==> command_id_of(command) == Some(answered_id(response))),
{
    holds(command, base, states, stages, replies, stages.len() - 1);
    assert(stages.take(stages.len() as int) =~= stages);
    assert forall|i: int| 0 <= i < stages.len() implies (#[trigger] stages[i] matches CommandStage::Respond(response)
        ==> command_id_of(command) == Some(answered_id(response))) by {
        holds(command, base, states, stages, replies, i);
    }
}

/// A refused download or upload is told to the backend as a failure: only an answer with a status
/// of success makes a success.
pub proof fn refused_transfer_is_a_failure(
    stage: CommandStage,
    status: HttpStatus,
    base: Seq<char>,
    state: StorageState,
    next: CommandStage,
)
    requires
        stage is Download || stage is Upload,
        !status.succeeded(),
        stage.leads_to(CommandReply::Answered(Ok(status)), base, state, next),
    ensures
        next matches CommandStage::Respond(Response::CommandResult { result: Err(e), .. }) && (e
            == Failure::DownloadStatus { status } || e == Failure::UploadStatus { status }),
{
}

impl StoreHistory {
    /// The data that came from the source in the first `n` steps.
    pub open spec fn came(self, n: int) -> Seq<u8>
        decreases n,
    {
        if n <= 0 {
            Seq::empty()
        } else {
            match self.replies[n - 1] {
                StoreReply::Piece(Ok(Some(piece))) => self.came(n - 1) + piece@,
                _ => self.came(n - 1),
            }
        }
    }

    /// What has been written after `i` steps is what has come, but for a piece that is about to be
    /// written.
    proof fn written_is_what_came(self, base: Seq<char>, id: Seq<char>, expected: u64, i: int)
        requires
            self.stores(base, id, expected),
            0 <= i < self.runs.len(),
        ensures
            match self.runs[i].stage {
                StoreStage::WritePiece { piece } => self.came(i) == self.written(i) + piece@,
                StoreStage::Finished(Err(_)) => true,
                _ => self.came(i) == self.written(i),
            },
        decreases i,
    {
        assert(self.came(0) == Seq::<u8>::empty());
        assert(self.written(0) == Seq::<u8>::empty());
        if i > 0 {
            self.written_is_what_came(base, id, expected, i - 1);
            assert(self.step(i - 1));
        }
    }
}

/// What is stored is what came from the source, all of it and in order.
pub proof fn stored_stream_is_what_came(h: StoreHistory, base: Seq<char>, id: Seq<char>, expected: u64)
    requires
        h.stores(base, id, expected),
        h.runs.last().stage matches StoreStage::Finished(Ok(_)),
    ensures
        h.came(h.replies.len() as int).len() == expected,
        h.files.last().contains_key(storage::chunk_file(base, id)),
        h.files.last()[storage::chunk_file(base, id)] == h.came(h.replies.len() as int),
        h.states.last().current_used_space_bytes == h.states[0].current_used_space_bytes + expected,
        h.states[0].current_chunk_count < u64::MAX ==> h.states.last().current_chunk_count
            == h.states[0].current_chunk_count + 1,
{
    h.written_is_what_came(base, id, expected, h.runs.len() - 1);
    stored_stream_is_in_place(h, base, id, expected);
    stream_keeps_limit(h, base, id, expected);
}

/// The end of a store is told by what came before it: it succeeds exactly when the file could be
/// brought to the disk and exactly as much had come as was announced, and every failure names its
/// cause.
pub proof fn stream_ends_for_a_cause(
    h: StoreHistory,
    base: Seq<char>,
    id: Seq<char>,
    expected: u64,
    result: Result<u64, StoreError>,
)
    requires
        h.stores(base, id, expected),
        h.runs.last().stage == StoreStage::Finished(result),
    ensures
        h.replies.len() > 0,
        ({
            let last = h.replies.len() - 1;
            let reply = h.replies[last];
            let stage = h.runs[last].stage;
            match result {
                Ok(size) => stage is Sync && reply == StoreReply::Done(true) && size == expected && h.came(
                    last,
                ).len() == expected,
                Err(StoreError::AlreadyExists { chunk_id }) => last == 0 && reply == StoreReply::Exists(Some(true))
                    && chunk_id@ == id,
                Err(StoreError::LimitReached { size, used, max }) => {
                    &&& last == 0
                    &&& reply != StoreReply::Exists(Some(true))
                    &&& size == expected && used == h.states[0].current_used_space_bytes && max
                        == h.states[0].max_storage_bytes
                    &&& used + size > max
                },
                Err(StoreError::NoParent { chunk_path }) => last == 0 && reply != StoreReply::Exists(Some(true))
                    && !path::has_parent(chunk_path@) && chunk_path@ == storage::chunk_file(base, id),
                Err(StoreError::CreateDirectory { .. }) => stage is CreateDirectory && reply == StoreReply::Done(false),
                Err(StoreError::CreateFile { .. }) => stage is CreateFile && reply == StoreReply::Done(false),
                Err(StoreError::Stream) => stage is NextPiece && (reply matches StoreReply::Piece(Err(_))),
                Err(StoreError::Write { .. }) => stage is WritePiece && reply == StoreReply::Done(false),
                Err(StoreError::Sync { .. }) => stage is Sync && reply == StoreReply::Done(false),
                Err(StoreError::SizeMismatch { chunk_id, expected: announced, written }) => {
                    &&& stage is RemoveMismatched && reply == StoreReply::Done(true)
                    &&& chunk_id@ == id && announced == expected
                    &&& written == h.came(last).len() && written != announced
                },
                Err(StoreError::RemoveMismatched { .. }) => stage is RemoveMismatched && reply == StoreReply::Done(
                    false,
                ) && h.came(last).len() != expected,
            }
        }),
{
    let i = h.replies.len() - 1;
    assert(i >= 0);
    assert(h.step(i));
    h.holds(base, id, expected, i);
    h.written_is_what_came(base, id, expected, i);
    if i > 0 {
        mismatch_is_removed(h, base, id, expected, i);
    }
}

/// A file is only removed again when more or less came than was announced.
proof fn mismatch_is_removed(h: StoreHistory, base: Seq<char>, id: Seq<char>, expected: u64, i: int)
    requires
        h.stores(base, id, expected),
        0 <= i < h.runs.len(),
    ensures
        h.runs[i].stage is RemoveMismatched ==> h.runs[i].written != expected,
{
    if i > 0 {
        assert(h.step(i - 1));
        h.holds(base, id, expected, i - 1);
    }
}

/// A chunk is taken on exactly when it is not there, leaves the bytes in use within the limit, and
/// its file has a directory; the directory is then the one its file is in.
pub proof fn chunk_is_taken_on_exactly_when_it_fits(
    run: StoreRun,
    base: Seq<char>,
    id: Seq<char>,
    expected: u64,
    state: StorageState,
    found: Option<bool>,
)
    requires
        storage::store_begun(run, base, id, expected),
    ensures
        ({
            let next = run.after(StoreReply::Exists(found), state).stage;
            &&& next is CheckDirectory <==> {
                &&& found != Some(true)
                &&& state.current_used_space_bytes + expected <= state.max_storage_bytes
                &&& path::has_parent(storage::chunk_file(base, id))
            }
            &&& next is CheckDirectory || next is Finished
            &&& next matches StoreStage::CheckDirectory { directory } ==> path::text_components(directory@)
                == path::text_components(storage::chunk_file(base, id)).drop_last()
        }),
{
}

/// The file of a chunk is named by its identifier, in the subdirectory that bears its first two
/// characters where these are ASCII, and in the storage directory itself where it is too short.
pub proof fn chunk_file_has_its_place(base: Seq<char>, id: Seq<char>)
    ensures
        encode_utf8(id).len() < 2 ==> storage::chunk_file(base, id) == path::joined(base, id),
        id.len() >= 2 && '\0' <= id[0] <= '\u{7f}' && '\0' <= id[1] <= '\u{7f}' ==> storage::chunk_file(base, id)
            == path::joined(path::joined(base, id.take(2)), id),
{
    if id.len() >= 2 && '\0' <= id[0] <= '\u{7f}' && '\0' <= id[1] <= '\u{7f}' {
        storage::ascii_subdirectory(id);
    }
}

/// A chunk is opened exactly when its file is there and can be opened.
pub proof fn held_chunk_is_opened(
    run: RetrieveRun,
    base: Seq<char>,
    id: Seq<char>,
    found: Option<bool>,
    opened: bool,
)
    requires
        storage::retrieve_begun(run, base, id),
    ensures
        run.chunk_path@ == storage::chunk_file(base, id),
        ({
            let second = run.stage_after(RetrieveReply::Exists(found));
            let third = (RetrieveRun { stage: second, ..run }).stage_after(RetrieveReply::Opened(opened));
            if found == Some(true) {
                &&& second is OpenFile
                &&& if opened {
                    third matches RetrieveStage::Finished(Ok(_))
                } else {
                    third matches RetrieveStage::Finished(Err(RetrieveError::Open { chunk_id, chunk_path }))
                        && chunk_id@ == id && chunk_path@ == storage::chunk_file(base, id)
                }
            } else {
                second matches RetrieveStage::Finished(Err(RetrieveError::NotFound { chunk_id, chunk_path }))
                    && chunk_id@ == id && chunk_path@ == storage::chunk_file(base, id)
            }
        }),
{
}

/// What is held is deleted: where the disk tells the size of the file and removes it, the result is
/// that size and the counters lose exactly that and one chunk. That there is no file is no error of
/// the store, and wherever no file was removed the counters stay.
pub proof fn held_chunk_is_deleted(
    run: DeleteRun,
    base: Seq<char>,
    id: Seq<char>,
    sized: Result<u64, IoFailure>,
    removed: bool,
    state: StorageState,
)
    requires
        storage::delete_begun(run, base, id),
    ensures
        run.chunk_path@ == storage::chunk_file(base, id),
        run.state_after(DeleteReply::Size(sized), state) == state,
        ({
            let second = run.stage_after(DeleteReply::Size(sized));
            let later = DeleteRun { stage: second, ..run };
            let third = later.stage_after(DeleteReply::Removed(removed));
            let after = later.state_after(DeleteReply::Removed(removed), state);
            match sized {
                Ok(size) => {
                    &&& second is RemoveFile
                    &&& if removed {
                        &&& third == DeleteStage::Finished(Ok(Some(size)))
                        &&& size <= state.current_used_space_bytes ==> after.current_used_space_bytes
                            == state.current_used_space_bytes - size
                        &&& 1 <= state.current_chunk_count ==> after.current_chunk_count == state.current_chunk_count
                            - 1
                        &&& after.max_storage_bytes == state.max_storage_bytes
                    } else {
                        &&& third matches DeleteStage::Finished(Err(DeleteError::Remove { chunk_path })) && chunk_path@
                            == storage::chunk_file(base, id)
                        &&& after == state
                    }
                },
                Err(failure) => if failure.kind == IoKind::NotFound {
                    second == DeleteStage::Finished(Ok(None))
                } else {
                    second matches DeleteStage::Finished(Err(DeleteError::Metadata { chunk_id, reason })) && chunk_id@
                        == id && reason == failure.text
                },
            }
        }),
{
}

/// The command is answered so, under its own identifier.
pub open spec fn is_answer(stage: CommandStage, command_id: String, result: Result<(), Failure>) -> bool {
    stage == CommandStage::Respond(Response::CommandResult { command_id, result })
}

/// A command to store a chunk asks for its data at the address it gives, and goes on to store what
/// comes exactly when the answer has a status from 200 to 299; else the backend is told why not.
pub proof fn data_is_asked_for_where_it_is(
    base: Seq<char>,
    command_id: String,
    chunk_id: String,
    expected: u64,
    url: String,
    states: Seq<StorageState>,
    stages: Seq<CommandStage>,
    replies: Seq<CommandReply>,
    answer: Result<HttpStatus, String>,
)
    requires
        is_history(
            BackendCommand::StoreChunk {
                command_id,
                chunk_id,
                expected_size_bytes: expected,
                data_source_url: url,
            },
            base,
            states,
            stages,
            replies,
        ),
        replies.len() > 0,
        replies[0] == CommandReply::Answered(answer),
    ensures
        stages[0] matches CommandStage::Download { url: asked, .. } && asked == url,
        match answer {
            Ok(status) => if 200 <= status.code <= 299 {
                stages[1] matches CommandStage::Store { command_id: c, store } && c == command_id && store.chunk_path@
                    == storage::chunk_file(base, chunk_id@) && store.expected_size_bytes == expected && store.written
                    == 0
            } else {
                is_answer(stages[1], command_id, Err(Failure::DownloadStatus { status }))
            },
            Err(reason) => is_answer(stages[1], command_id, Err(Failure::DownloadRequest { reason })),
        },
        states[1] == states[0],
{
    assert(stages[0].expects(replies[0]));
}

/// A store that is over is told to the backend: a success when it succeeded, whatever its size, and
/// its own error when it failed.
pub proof fn end_of_store_is_told(
    command: BackendCommand,
    base: Seq<char>,
    states: Seq<StorageState>,
    stages: Seq<CommandStage>,
    replies: Seq<CommandReply>,
    i: int,
    command_id: String,
    store: StoreRun,
    reply: StoreReply,
)
    requires
        is_history(command, base, states, stages, replies),
        0 <= i < replies.len(),
        stages[i] == (CommandStage::Store { command_id, store }),
        replies[i] == CommandReply::Store(reply),
    ensures
        store.stage is Sync && reply == StoreReply::Done(true) && store.written == store.expected_size_bytes ==> {
            &&& is_answer(stages[i + 1], command_id, Ok(()))
            &&& states[i].current_used_space_bytes + store.written <= u64::MAX
                ==> states[i + 1].current_used_space_bytes == states[i].current_used_space_bytes + store.written
        },
        store.after(reply, states[i]).stage matches StoreStage::Finished(Err(e)) ==> is_answer(
            stages[i + 1],
            command_id,
            Err(Failure::Store(e)),
        ) && states[i + 1] == states[i],
        !(store.after(reply, states[i]).stage is Finished) ==> stages[i + 1] is Store,
{
    assert(stages[i].expects(replies[i]));
}

/// A chunk that is retrieved is sent, all its pieces in order, to the address the command gives; the
/// command succeeds exactly when that is answered with a status from 200 to 299.
pub proof fn held_chunk_is_sent(
    base: Seq<char>,
    command_id: String,
    chunk_id: String,
    url: String,
    states: Seq<StorageState>,
    stages: Seq<CommandStage>,
    replies: Seq<CommandReply>,
    pieces: Result<Vec<Vec<u8>>, String>,
    answer: Result<HttpStatus, String>,
)
    requires
        is_history(
            BackendCommand::RetrieveChunk { command_id, chunk_id, upload_destination_url: url },
            base,
            states,
            stages,
            replies,
        ),
        replies.len() >= 3,
        replies[0] == CommandReply::Retrieve(RetrieveReply::Exists(Some(true))),
        replies[1] == CommandReply::Retrieve(RetrieveReply::Opened(true)),
        replies[2] == CommandReply::Pieces(pieces),
        replies.len() > 3 && pieces is Ok ==> replies[3] == CommandReply::Answered(answer),
    ensures
        stages[0] matches CommandStage::Retrieve { retrieve, .. } && retrieve.chunk_path@ == storage::chunk_file(
            base,
            chunk_id@,
        ),
        match pieces {
            Ok(all) => {
                &&& stages[3] matches CommandStage::Upload { command_id: c, url: u, data } && c == command_id && u
                    == url && data@ == storage::concatenated(all@)
                &&& replies.len() > 3 ==> match answer {
                    Ok(status) => is_answer(
                        stages[4],
                        command_id,
                        if 200 <= status.code <= 299 {
                            Ok(())
                        } else {
                            Err(Failure::UploadStatus { status })
                        },
                    ),
                    Err(reason) => is_answer(stages[4], command_id, Err(Failure::UploadRequest { reason })),
                }
            },
            Err(reason) => is_answer(stages[3], command_id, Err(Failure::Read { reason })),
        },
{
    assert(stages[0].expects(replies[0]));
    assert(stages[1].expects(replies[1]));
    assert(stages[2].expects(replies[2]));
    if replies.len() > 3 {
        assert(stages[3].expects(replies[3]));
    }
}

/// A chunk that is not there, or cannot be opened, is told to the backend and not sent.
pub proof fn missing_chunk_is_told(
    base: Seq<char>,
    command_id: String,
    chunk_id: String,
    url: String,
    states: Seq<StorageState>,
    stages: Seq<CommandStage>,
    replies: Seq<CommandReply>,
    found: Option<bool>,
)
    requires
        is_history(
            BackendCommand::RetrieveChunk { command_id, chunk_id, upload_destination_url: url },
            base,
            states,
            stages,
            replies,
        ),
        replies.len() > 0,
        replies[0] == CommandReply::Retrieve(RetrieveReply::Exists(found)),
    ensures
        found != Some(true) ==> (stages[1] matches CommandStage::Respond(
            Response::CommandResult { command_id: c, result: Err(Failure::Retrieve(RetrieveError::NotFound { .. })) },
        ) && c == command_id),
        found == Some(true) && replies.len() > 1 && replies[1] == CommandReply::Retrieve(RetrieveReply::Opened(false))
            ==> (stages[2] matches CommandStage::Respond(
            Response::CommandResult { command_id: c, result: Err(Failure::Retrieve(RetrieveError::Open { .. })) },
        ) && c == command_id),
{
    assert(stages[0].expects(replies[0]));
    if replies.len() > 1 {
        assert(stages[1].expects(replies[1]));
    }
}

/// A command to delete a chunk succeeds exactly when its file was removed; that there was none is a
/// failure, and is told as such.
pub proof fn deletion_is_told(
    base: Seq<char>,
    command_id: String,
    chunk_id: String,
    states: Seq<StorageState>,
    stages: Seq<CommandStage>,
    replies: Seq<CommandReply>,
    sized: Result<u64, IoFailure>,
    removed: bool,
)
    requires
        is_history(BackendCommand::DeleteChunk { command_id, chunk_id }, base, states, stages, replies),
        replies.len() > 0,
        replies[0] == CommandReply::Delete(DeleteReply::Size(sized)),
        replies.len() > 1 && sized is Ok ==> replies[1] == CommandReply::Delete(DeleteReply::Removed(removed)),
    ensures
        stages[0] matches CommandStage::Delete { delete, .. } && delete.chunk_path@ == storage::chunk_file(
            base,
            chunk_id@,
        ),
        sized matches Err(failure) ==> if failure.kind == IoKind::NotFound {
            is_answer(stages[1], command_id, Err(Failure::NotFound { chunk_id }))
        } else {
            stages[1] matches CommandStage::Respond(
                Response::CommandResult {
                    command_id: c,
                    result: Err(Failure::Delete(DeleteError::Metadata { reason, .. })),
                },
            ) && c == command_id && reason == failure.text
        },
        sized matches Ok(size) ==> replies.len() > 1 ==> if removed {
            &&& is_answer(stages[2], command_id, Ok(()))
            &&& size <= states[0].current_used_space_bytes ==> states[2].current_used_space_bytes
                == states[0].current_used_space_bytes - size
        } else {
            &&& stages[2] matches CommandStage::Respond(
                Response::CommandResult { command_id: c, result: Err(Failure::Delete(DeleteError::Remove { .. })) },
            ) && c == command_id
            &&& states[2] == states[0]
        },
{
    assert(stages[0].expects(replies[0]));
    if replies.len() > 1 {
        assert(stages[1].expects(replies[1]));
    }
}

/// The report is the counters as they are, and what is left under the limit.
pub proof fn status_is_the_counters(base: Seq<char>, command: BackendCommand, state: StorageState, stage: CommandStage)
    requires
        commands::begins(command, base, state, stage),
    ensures
        command matches BackendCommand::QueryStatus { command_id } ==> (stage matches CommandStage::Respond(
            Response::StatusReport { command_id: c, status },
        ) && c == command_id && status.used_space_bytes == state.current_used_space_bytes && status.max_space_bytes
            == state.max_storage_bytes && status.chunk_count == state.current_chunk_count && status.free_space_bytes
            == if state.max_storage_bytes >= state.current_used_space_bytes {
            state.max_storage_bytes - state.current_used_space_bytes
        } else {
            0
        }),
        command is Unknown ==> stage matches CommandStage::Finished(Ok(_)),
{
}

/// A scan counts what lies in subdirectories, and nothing that lies beside them.
pub proof fn subdirectories_are_counted(tops: Seq<TopEntry>, top: TopEntry)
    ensures
        storage::bytes_below(Seq::<TopEntry>::empty()) == 0,
        storage::chunks_below(Seq::<TopEntry>::empty()) == 0,
        storage::bytes_below(tops.push(top)) == storage::bytes_below(tops) + if top.is_dir {
            crate::storage::bytes_in(top.entries@)
        } else {
            0
        },
        storage::chunks_below(tops.push(top)) == storage::chunks_below(tops) + if top.is_dir {
            crate::storage::chunks_in(top.entries@)
        } else {
            0
        },
{
    assert(tops.push(top).drop_last() =~= tops);
}

/// What fits in a counter is counted as it is.
pub proof fn what_fits_is_counted(total: nat)
    requires
        total <= u64::MAX,
    ensures
        storage::counted(total) == total,
{
}

/// Pieces are put together whole and in order.
pub proof fn pieces_are_put_together(pieces: Seq<Vec<u8>>, more: Vec<u8>)
    ensures
        storage::concatenated(Seq::<Vec<u8>>::empty()) == Seq::<u8>::empty(),
        storage::concatenated(pieces.push(more)) == storage::concatenated(pieces) + more@,
{
    assert(pieces.push(more).drop_last() =~= pieces);
}

/// The stages of a registration, their outcomes and the configuration at each stage.
pub open spec fn is_registration(
    stages: Seq<RegistrationStage>,
    replies: Seq<RegistrationReply>,
    configs: Seq<NodeConfig>,
) -> bool {
    &&& stages.len() == replies.len() + 1
    &&& configs.len() == stages.len()
    &&& stages[0] is Send
    &&& forall|i: int|
        0 <= i < replies.len() ==> #[trigger] stages[i].expects(replies[i]) && stages[i + 1] == stages[i].after(
            replies[i],
        ) && configs[i + 1] == stages[i].config_after(replies[i], configs[i])
}

/// A node is registered exactly when the backend answered with a status from 200 to 299, its answer
/// could be read, and the configuration with the identifier and the token of that answer could be
/// saved; what fails first is told.
pub proof fn node_is_registered_when_all_is_done(
    stages: Seq<RegistrationStage>,
    replies: Seq<RegistrationReply>,
    configs: Seq<NodeConfig>,
    result: Result<(), RegistrationError>,
)
    requires
        is_registration(stages, replies, configs),
        stages.last() == RegistrationStage::Finished(result),
    ensures
        1 <= replies.len() <= 3,
        replies.len() > 1 ==> (replies[0] matches RegistrationReply::Answered(Some(status)) && 200 <= status.code
            <= 299),
        replies.len() > 2 ==> (replies[1] matches RegistrationReply::Parsed(Some(response)) && {
            &&& configs[2].node_id == response.node_id
            &&& configs[2].auth_token == response.auth_token
            &&& configs[2].storage_path == configs[0].storage_path
            &&& configs[2].max_storage_gib == configs[0].max_storage_gib
            &&& configs[2].backend_ws_url == configs[0].backend_ws_url
            &&& configs[2].backend_api_url == configs[0].backend_api_url
            &&& configs.last() == configs[2]
        }),
        match result {
            Ok(_) => replies.len() == 3 && replies[2] == RegistrationReply::Saved(true),
            Err(RegistrationError::Send) => replies.len() == 1 && replies[0] == RegistrationReply::Answered(None),
            Err(RegistrationError::Refused { status }) => replies.len() == 1 && replies[0]
                == RegistrationReply::Answered(Some(status)) && !(200 <= status.code <= 299),
            Err(RegistrationError::Parse) => replies.len() == 2 && replies[1] == RegistrationReply::Parsed(None),
            Err(RegistrationError::Save) => replies.len() == 3 && replies[2] == RegistrationReply::Saved(false),
        },
{
    assert(stages[0].expects(replies[0]));
    if replies.len() > 1 {
        assert(stages[1].expects(replies[1]));
    }
    if replies.len() > 2 {
        assert(stages[2].expects(replies[2]));
    }
    if replies.len() > 3 {
        assert(stages[3].expects(replies[3]));
    }
}

/// A node connects with what it has exactly when it has both an identifier and a token.
pub proof fn credentials_are_both(config: NodeConfig)
    ensures
        config.has_credentials() <==> config.node_id@ != Seq::<char>::empty() && config.auth_token@ != Seq::<
            char,
        >::empty(),
{
    assert(config.node_id@.len() == 0 ==> config.node_id@ =~= Seq::<char>::empty());
    assert(config.auth_token@.len() == 0 ==> config.auth_token@ =~= Seq::<char>::empty());
}

} // verus!
