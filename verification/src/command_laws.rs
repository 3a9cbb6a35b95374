//! What holds of the handling of every command of the backend.

use crate::chunk_id;
use crate::commands;
use crate::commands::{BackendCommand, CommandError, CommandReply, CommandStage, Refusal, Response};
use crate::disk::{IoFailure, IoKind};
use crate::path;
use crate::storage;
use crate::storage::{
    DeleteError, DeleteReply, DeleteRun, DeleteStage, RetrieveError, RetrieveReply, StorageState, StoreError,
    StoreReply, StoreRun, StoreStage, MAX_CHUNK_BYTES,
};
use crate::storage_laws;
use crate::storage_laws::StoreHistory;
use vstd::prelude::*;

verus! {

/// The identifier a command carries for its answer.
pub open spec fn command_id_of(command: BackendCommand) -> Option<String> {
    match command {
        BackendCommand::StoreChunk { command_id, .. } => Some(command_id),
        BackendCommand::GetChunk { command_id, .. } => Some(command_id),
        BackendCommand::DeleteChunk { command_id, .. } => Some(command_id),
        BackendCommand::StatusRequest { command_id } => Some(command_id),
        BackendCommand::Unknown => None,
    }
}

/// The chunk a command is about.
pub open spec fn chunk_id_of(command: BackendCommand) -> Option<String> {
    match command {
        BackendCommand::StoreChunk { chunk_id, .. } => Some(chunk_id),
        BackendCommand::GetChunk { chunk_id, .. } => Some(chunk_id),
        BackendCommand::DeleteChunk { chunk_id, .. } => Some(chunk_id),
        BackendCommand::StatusRequest { .. } => None,
        BackendCommand::Unknown => None,
    }
}

/// The identifier an answer carries.
pub open spec fn answered_id(response: Response) -> String {
    match response {
        Response::CommandResult { command_id, .. } => command_id,
        Response::ChunkData { command_id, .. } => command_id,
        Response::StatusReport { command_id, .. } => command_id,
    }
}

/// The stage asks for a file to be looked at, written, read or removed.
pub open spec fn touches_files(stage: CommandStage) -> bool {
    !(stage is Respond) && !(stage is Finished)
}

/// The stages a command went through in the storage directory `base`, their outcomes, and the
/// counters at each stage.
pub open spec fn is_history(
    command: BackendCommand,
    base: Seq<char>,
    states: Seq<StorageState>,
    stages: Seq<CommandStage>,
    replies: Seq<CommandReply>,
) -> bool {
    &&& stages.len() == replies.len() + 1
    &&& states.len() == stages.len()
    &&& commands::begins(command, base, states[0], stages[0])
    &&& forall|i: int|
        0 <= i < replies.len() ==> #[trigger] stages[i].expects(replies[i]) && stages[i].leads_to(
            replies[i],
            base,
            states[i],
            stages[i + 1],
        ) && states[i + 1] == stages[i].state_after(replies[i], states[i])
}

/// The number of answers among `stages`.
pub open spec fn answers(stages: Seq<CommandStage>) -> nat
    decreases stages.len(),
{
    if stages.len() == 0 {
        0
    } else {
        answers(stages.drop_last()) + if stages.last() is Respond {
            1nat
        } else {
            0
        }
    }
}

/// A chunk identifier that is not a UUID is answered at once with that reason, whatever the
/// command was to do with the chunk: no file is touched for it.
pub proof fn only_uuids_reach_files(
    command: BackendCommand,
    base: Seq<char>,
    state: StorageState,
    stage: CommandStage,
)
    requires
        chunk_id_of(command) is Some,
        commands::begins(command, base, state, stage),
    ensures
        touches_files(stage) <==> chunk_id::is_uuid(chunk_id_of(command)->0@),
        !chunk_id::is_uuid(chunk_id_of(command)->0@) ==> stage == commands::refused(
            command_id_of(command)->0,
            chunk_id_of(command)->0,
            Refusal::NotAUuid,
        ),
{
}

/// What holds at stage `i` of a history.
spec fn holds_at(command: BackendCommand, stages: Seq<CommandStage>, i: int) -> bool {
    let before = stages.take(i + 1);
    match stages[i] {
        CommandStage::CheckExists { command_id, .. } => answers(before) == 0 && command_id_of(command) == Some(
            command_id,
        ),
        CommandStage::Store { command_id, .. } => answers(before) == 0 && command_id_of(command) == Some(command_id),
        CommandStage::Retrieve { command_id, .. } => answers(before) == 0 && command_id_of(command) == Some(
            command_id,
        ),
        CommandStage::Delete { command_id, .. } => answers(before) == 0 && command_id_of(command) == Some(command_id),
        CommandStage::Respond(response) => answers(before) == 1 && command_id_of(command) == Some(
            answered_id(response),
        ),
        CommandStage::Finished(Err(CommandError::Exists(_))) => answers(before) == 0,
        CommandStage::Finished(_) => answers(before) == if command is Unknown {
            0nat
        } else {
            1
        },
    }
}

proof fn holds(
    command: BackendCommand,
    base: Seq<char>,
    states: Seq<StorageState>,
    stages: Seq<CommandStage>,
    replies: Seq<CommandReply>,
    i: int,
)
    requires
        is_history(command, base, states, stages, replies),
        0 <= i < stages.len(),
    ensures
        holds_at(command, stages, i),
    decreases i,
{
    reveal_with_fuel(answers, 2);
    if i > 0 {
        holds(command, base, states, stages, replies, i - 1);
        assert(stages[i - 1].expects(replies[i - 1]));
        assert(stages.take(i + 1).drop_last() =~= stages.take(i));
    } else {
        assert(stages.take(1).drop_last() =~= Seq::<CommandStage>::empty());
    }
}

/// Every command that could be read is answered exactly once, under its own identifier, unless
/// the disk could not even tell whether the chunk exists; an unknown command is not answered.
pub proof fn command_is_answered_once(
    command: BackendCommand,
    base: Seq<char>,
    states: Seq<StorageState>,
    stages: Seq<CommandStage>,
    replies: Seq<CommandReply>,
)
    requires
        is_history(command, base, states, stages, replies),
        stages.last() is Finished,
    ensures
        answers(stages) == if command is Unknown || stages.last() matches CommandStage::Finished(
            Err(CommandError::Exists(_)),
        ) {
            0nat
        } else {
            1
        },
        forall|i: int|
            0 <= i < stages.len() ==> (#[trigger] stages[i] matches CommandStage::Respond(response)
                ==> command_id_of(command) == Some(answered_id(response))),
{
    holds(command, base, states, stages, replies, stages.len() - 1);
    assert(stages.take(stages.len() as int) =~= stages);
    assert forall|i: int| 0 <= i < stages.len() implies (#[trigger] stages[i] matches CommandStage::Respond(response)
        ==> command_id_of(command) == Some(answered_id(response))) by {
        holds(command, base, states, stages, replies, i);
    }
}

/// The change of storage that a delete reports undoes the one its store reported.
pub proof fn deltas_cancel(command_id: String, chunk_id: String, store: StoreRun, delete: DeleteRun, size: u64)
    requires
        size <= i64::MAX,
        store.stage == StoreStage::Finished(Ok(size)),
        delete.stage == DeleteStage::Finished(Ok(Some(size))),
    ensures
        commands::storing(command_id, chunk_id, store) matches CommandStage::Respond(
            Response::CommandResult { storage_delta: Some(up), .. },
        ) && commands::deleting(command_id, chunk_id, delete) matches CommandStage::Respond(
            Response::CommandResult { storage_delta: Some(down), .. },
        ) && up == size && up + down == 0,
{
}

/// The change of the bytes in use that the backend is told of at a stage.
pub open spec fn told_at(stage: CommandStage) -> int {
    match stage {
        CommandStage::Respond(Response::CommandResult { storage_delta: Some(delta), .. }) => delta as int,
        _ => 0,
    }
}

/// The change of the bytes in use that the backend is told of in all of `stages`.
pub open spec fn told(stages: Seq<CommandStage>) -> int
    decreases stages.len(),
{
    if stages.len() == 0 {
        0
    } else {
        told(stages.drop_last()) + told_at(stages.last())
    }
}

/// The counters know of the file that a delete removes, whose size is told as it is.
pub open spec fn removes_counted(stage: CommandStage, state: StorageState) -> bool {
    stage matches CommandStage::Delete { delete, .. } ==> (delete.stage matches DeleteStage::RemoveFile { size }
        ==> size <= state.current_used_space_bytes && size <= i64::MAX)
}

/// What has been counted and told at stage `i` of a history.
spec fn counted_at(command: BackendCommand, states: Seq<StorageState>, stages: Seq<CommandStage>, i: int) -> bool {
    let before = stages.take(i + 1);
    let unchanged = states[i] == states[0] && told(before) == 0;
    match stages[i] {
        CommandStage::CheckExists { binary_data, .. } => {
            &&& unchanged
            &&& command matches BackendCommand::StoreChunk { binary_data: given, .. } && binary_data == given
        },
        CommandStage::Store { store, .. } => {
            &&& unchanged
            &&& command matches BackendCommand::StoreChunk { binary_data: Some(data), .. } && store.data@ == data@
            &&& store.data@.len() <= MAX_CHUNK_BYTES
            &&& !storage::over_limit(
                states[0].current_used_space_bytes,
                store.data@.len() as u64,
                states[0].max_storage_bytes,
            )
        },
        CommandStage::Retrieve { .. } => unchanged,
        CommandStage::Delete { .. } => unchanged && command is DeleteChunk,
        _ => {
            &&& states[i].current_used_space_bytes == states[0].current_used_space_bytes + told(before)
            &&& told(before) > 0 ==> command is StoreChunk
            &&& told(before) < 0 ==> command is DeleteChunk
        },
    }
}

proof fn counted(
    command: BackendCommand,
    base: Seq<char>,
    states: Seq<StorageState>,
    stages: Seq<CommandStage>,
    replies: Seq<CommandReply>,
    i: int,
)
    requires
        is_history(command, base, states, stages, replies),
        command matches BackendCommand::StoreChunk { binary_data: Some(data), .. } ==> states[0].max_storage_bytes
            < u64::MAX || states[0].current_used_space_bytes + data@.len() <= u64::MAX,
        forall|j: int| 0 <= j < stages.len() ==> removes_counted(#[trigger] stages[j], states[0]),
        0 <= i < stages.len(),
    ensures
        counted_at(command, states, stages, i),
    decreases i,
{
    reveal_with_fuel(told, 2);
    if i > 0 {
        counted(command, base, states, stages, replies, i - 1);
        assert(stages[i - 1].expects(replies[i - 1]));
        assert(stages.take(i + 1).drop_last() =~= stages.take(i));
    } else {
        assert(stages.take(1).drop_last() =~= Seq::<CommandStage>::empty());
    }
}

/// The backend can keep its own books: however far a command has come, the bytes in use have
/// changed by exactly what the backend was told. Only a store tells of more and only a delete of
/// less. This takes counters that know of the file a delete removes, and that have room to count
/// the chunk to store.
pub proof fn told_change_is_the_change(
    command: BackendCommand,
    base: Seq<char>,
    states: Seq<StorageState>,
    stages: Seq<CommandStage>,
    replies: Seq<CommandReply>,
)
    requires
        is_history(command, base, states, stages, replies),
        command matches BackendCommand::StoreChunk { binary_data: Some(data), .. } ==> states[0].max_storage_bytes
            < u64::MAX || states[0].current_used_space_bytes + data@.len() <= u64::MAX,
        forall|i: int| 0 <= i < stages.len() ==> removes_counted(#[trigger] stages[i], states[0]),
    ensures
        states.last().current_used_space_bytes == states[0].current_used_space_bytes + told(stages),
        told(stages) > 0 ==> command is StoreChunk,
        told(stages) < 0 ==> command is DeleteChunk,
{
    counted(command, base, states, stages, replies, stages.len() - 1);
    assert(stages.take(stages.len() as int) =~= stages);
}

/// An error tells the backend of no change, and nothing has changed.
pub proof fn error_tells_of_no_change(
    command: BackendCommand,
    base: Seq<char>,
    states: Seq<StorageState>,
    stages: Seq<CommandStage>,
    replies: Seq<CommandReply>,
    i: int,
)
    requires
        is_history(command, base, states, stages, replies),
        0 <= i < stages.len(),
        stages[i] matches CommandStage::Respond(Response::CommandResult { result: Err(_), .. }),
    ensures
        stages[i] matches CommandStage::Respond(Response::CommandResult { storage_delta, .. }) && storage_delta
            is None,
        states[i] == states[0],
{
    if i > 0 {
        assert(stages[i - 1].expects(replies[i - 1]));
        unchanged_until_done(command, base, states, stages, replies, i - 1);
    }
}

/// While files are touched for a command, the counters are as they were.
proof fn unchanged_until_done(
    command: BackendCommand,
    base: Seq<char>,
    states: Seq<StorageState>,
    stages: Seq<CommandStage>,
    replies: Seq<CommandReply>,
    i: int,
)
    requires
        is_history(command, base, states, stages, replies),
        0 <= i < stages.len(),
        touches_files(stages[i]),
    ensures
        states[i] == states[0],
    decreases i,
{
    if i > 0 {
        assert(stages[i - 1].expects(replies[i - 1]));
        unchanged_until_done(command, base, states, stages, replies, i - 1);
    }
}

/// No command moves the limit of the storage.
pub proof fn limit_stays(
    command: BackendCommand,
    base: Seq<char>,
    states: Seq<StorageState>,
    stages: Seq<CommandStage>,
    replies: Seq<CommandReply>,
    i: int,
)
    requires
        is_history(command, base, states, stages, replies),
        0 <= i < stages.len(),
    ensures
        states[i].max_storage_bytes == states[0].max_storage_bytes,
    decreases i,
{
    if i > 0 {
        assert(stages[i - 1].expects(replies[i - 1]));
        limit_stays(command, base, states, stages, replies, i - 1);
    }
}

/// What the backend stores is what it gets: once a chunk has been stored in the storage directory,
/// a request for it is answered with its data.
pub proof fn stored_chunk_is_returned(
    h: StoreHistory,
    base: Seq<char>,
    data: Seq<u8>,
    command_id: String,
    chunk_id: String,
    states: Seq<StorageState>,
    stages: Seq<CommandStage>,
    found: bool,
    read: Vec<u8>,
)
    requires
        h.stores(base, chunk_id@, data),
        h.runs.last().stage matches StoreStage::Finished(Ok(_)),
        chunk_id::is_uuid(chunk_id@),
        is_history(
            BackendCommand::GetChunk { command_id, chunk_id },
            base,
            states,
            stages,
            seq![
                CommandReply::Retrieve(RetrieveReply::Exists(Ok(found))),
                CommandReply::Retrieve(RetrieveReply::Data(Ok(read))),
            ],
        ),
        stages[0] matches CommandStage::Retrieve { retrieve, .. } ==> storage_laws::retrieve_answer(
            retrieve,
            RetrieveReply::Exists(Ok(found)),
            h.files.last(),
        ),
        stages[1] matches CommandStage::Retrieve { retrieve, .. } ==> storage_laws::retrieve_answer(
            retrieve,
            RetrieveReply::Data(Ok(read)),
            h.files.last(),
        ),
    ensures
        stages[2] == CommandStage::Respond(Response::ChunkData { command_id, data: read }),
        read@ == data,
{
    let replies = seq![
        CommandReply::Retrieve(RetrieveReply::Exists(Ok(found))),
        CommandReply::Retrieve(RetrieveReply::Data(Ok(read))),
    ];
    assert(stages[0].expects(replies[0]));
    assert(stages[1].expects(replies[1]));
    storage_laws::stored_chunk_is_in_place(h, base, chunk_id@, data);
}

/// Success is owed: a command to store a chunk that is not there, with as much data as it says and
/// within the limits, on a disk with room for it that does all it is asked, is answered with
/// success and with the size of the chunk, which is counted.
pub proof fn healthy_store_is_confirmed(
    base: Seq<char>,
    command_id: String,
    chunk_id: String,
    data: Vec<u8>,
    states: Seq<StorageState>,
    stages: Seq<CommandStage>,
    available: u64,
    stale: StoreReply,
)
    requires
        chunk_id::is_uuid(chunk_id@),
        data@.len() <= MAX_CHUNK_BYTES,
        states.len() > 0,
        !storage::over_limit(
            states[0].current_used_space_bytes,
            data@.len() as u64,
            states[0].max_storage_bytes,
        ),
        data@.len() <= available,
        data@.len() <= usize::MAX,
        stale is Done,
        is_history(
            BackendCommand::StoreChunk {
                command_id,
                data_size: data@.len() as u64,
                binary_data: Some(data),
                chunk_id,
            },
            base,
            states,
            stages,
            seq![
                CommandReply::Exists(Ok(false)),
                CommandReply::Store(StoreReply::Space(Ok(available))),
                CommandReply::Store(stale),
                CommandReply::Store(StoreReply::Done(Ok(()))),
                CommandReply::Store(StoreReply::Done(Ok(()))),
            ],
        ),
    ensures
        stages[5] == commands::succeeded(command_id, chunk_id, Some(data@.len() as i64)),
        states[5] == states[0].with_chunk(data@.len() as u64),
{
    let done = CommandReply::Store(StoreReply::Done(Ok(())));
    let replies = seq![
        CommandReply::Exists(Ok(false)),
        CommandReply::Store(StoreReply::Space(Ok(available))),
        CommandReply::Store(stale),
        done,
        done,
    ];
    chunk_id::uuid_is_storable(chunk_id@);
    assert(stages[0].expects(replies[0]));
    assert(stages[1].expects(replies[1]));
    assert(stages[2].expects(replies[2]));
    assert(stages[3].expects(replies[3]));
    assert(stages[4].expects(replies[4]));
}

/// A chunk is only stored where none is: a command to store one that is there is refused, and the
/// file is not touched.
pub proof fn stored_chunk_is_not_overwritten(
    stage: CommandStage,
    base: Seq<char>,
    state: StorageState,
    next: CommandStage,
)
    requires
        stage is CheckExists,
        stage.leads_to(CommandReply::Exists(Ok(true)), base, state, next),
    ensures
        stage matches CommandStage::CheckExists { command_id, chunk_id, .. } && next == commands::refused(
            command_id,
            chunk_id,
            Refusal::Collision { chunk_id },
        ),
        !touches_files(next),
{
}

/// A failed command is answered so, under its own identifier and that of its chunk, with this reason
/// and no change of storage.
pub open spec fn is_failure(stage: CommandStage, command_id: String, chunk_id: String, refusal: Refusal) -> bool {
    stage == CommandStage::Respond(
        Response::CommandResult { command_id, chunk_id, result: Err(refusal), storage_delta: None },
    )
}

/// Success is owed: a command to store a chunk under a UUID that is not there yet, with as much data
/// as it says, not more than 1 GiB and within the limit, on a disk with room that does all it is
/// asked, is answered with success and with its size as the change of storage, whatever the size
/// and the limit are; and the chunk is counted.
pub proof fn chunk_within_the_limit_is_confirmed(
    base: Seq<char>,
    command_id: String,
    chunk_id: String,
    data_size: u64,
    data: Vec<u8>,
    states: Seq<StorageState>,
    stages: Seq<CommandStage>,
    replies: Seq<CommandReply>,
    available: u64,
)
    requires
        is_history(
            BackendCommand::StoreChunk { command_id, data_size, binary_data: Some(data), chunk_id },
            base,
            states,
            stages,
            replies,
        ),
        chunk_id::is_uuid(chunk_id@),
        data_size == data@.len(),
        data@.len() <= 1024 * 1024 * 1024,
        states[0].current_used_space_bytes + data@.len() <= states[0].max_storage_bytes,
        data@.len() <= available,
        replies.len() == 6,
        replies[0] == CommandReply::Exists(Ok(false)),
        replies[1] == CommandReply::Store(StoreReply::Space(Ok(available))),
        replies[3] == CommandReply::Store(StoreReply::Done(Ok(()))),
        replies[4] == CommandReply::Store(StoreReply::Done(Ok(()))),
        replies[5] == CommandReply::Sent(Ok(())),
    ensures
        stages[0] matches CommandStage::CheckExists { chunk_path, .. } && chunk_path@ == path::joined(base, chunk_id@),
        stages[5] matches CommandStage::Respond(
            Response::CommandResult { command_id: c, chunk_id: i, result: Ok(_), storage_delta: Some(delta) },
        ) && c == command_id && i == chunk_id && delta == data@.len(),
        stages[6] matches CommandStage::Finished(Ok(_)),
        states[6].current_used_space_bytes == states[0].current_used_space_bytes + data@.len(),
        states[6].max_storage_bytes == states[0].max_storage_bytes,
{
    chunk_id::uuid_is_storable(chunk_id@);
    assert(data.len() == data@.len());
    assert(stages[0].expects(replies[0]));
    assert(stages[1].expects(replies[1]));
    assert(stages[2].expects(replies[2]));
    assert(stages[3].expects(replies[3]));
    assert(stages[4].expects(replies[4]));
    assert(stages[5].expects(replies[5]));
}

/// A command to store a chunk is refused before the disk is written to when the chunk is there, when
/// it carries no data, or when it carries more or less than it says; where the disk cannot tell
/// whether the chunk is there, it ends with that error.
pub proof fn store_command_is_refused_for_its_reason(
    base: Seq<char>,
    command_id: String,
    chunk_id: String,
    data_size: u64,
    binary_data: Option<Vec<u8>>,
    states: Seq<StorageState>,
    stages: Seq<CommandStage>,
    replies: Seq<CommandReply>,
    found: Result<bool, IoFailure>,
)
    requires
        is_history(
            BackendCommand::StoreChunk { command_id, data_size, binary_data, chunk_id },
            base,
            states,
            stages,
            replies,
        ),
        chunk_id::is_uuid(chunk_id@),
        data_size <= usize::MAX,
        replies.len() > 0,
        replies[0] == CommandReply::Exists(found),
    ensures
        states[1] == states[0],
        match found {
            Err(failure) => stages[1] matches CommandStage::Finished(Err(CommandError::Exists(e))) && e.chunk_id
                == chunk_id && e.reason == failure.text,
            Ok(true) => is_failure(stages[1], command_id, chunk_id, Refusal::Collision { chunk_id }),
            Ok(false) => match binary_data {
                None => is_failure(stages[1], command_id, chunk_id, Refusal::NoData),
                Some(data) => if data@.len() != data_size {
                    is_failure(
                        stages[1],
                        command_id,
                        chunk_id,
                        Refusal::SizeMismatch { expected: data_size, got: data@.len() as u64 },
                    )
                } else if data@.len() > 1024 * 1024 * 1024 {
                    is_failure(
                        stages[1],
                        command_id,
                        chunk_id,
                        Refusal::Store(StoreError::TooLarge { size: data_size }),
                    )
                } else if states[0].current_used_space_bytes + data@.len() > states[0].max_storage_bytes
                    && states[0].max_storage_bytes < u64::MAX {
                    is_failure(
                        stages[1],
                        command_id,
                        chunk_id,
                        Refusal::Store(
                            StoreError::LimitReached {
                                size: data_size,
                                used: states[0].current_used_space_bytes,
                                max: states[0].max_storage_bytes,
                            },
                        ),
                    )
                } else {
                    stages[1] matches CommandStage::Store { command_id: c, chunk_id: i, store } && c == command_id && i
                        == chunk_id && store.data@ == data@ && store.chunk_path@ == path::joined(base, chunk_id@)
                },
            },
        },
{
    chunk_id::uuid_is_storable(chunk_id@);
    assert(stages[0].expects(replies[0]));
}

/// A store that fails on the disk is told to the backend with its own error: the disk is full or
/// unknown, or the file could not be written or moved.
pub proof fn failed_store_is_told(
    command: BackendCommand,
    base: Seq<char>,
    states: Seq<StorageState>,
    stages: Seq<CommandStage>,
    replies: Seq<CommandReply>,
    i: int,
    command_id: String,
    chunk_id: String,
    store: StoreRun,
)
    requires
        is_history(command, base, states, stages, replies),
        0 <= i < replies.len(),
        stages[i] == (CommandStage::Store { command_id, chunk_id, store }),
    ensures
        match (store.stage, replies[i]) {
            (StoreStage::MeasureDisk, CommandReply::Store(StoreReply::Space(Ok(available)))) => if store.data@.len()
                > available {
                is_failure(
                    stages[i + 1],
                    command_id,
                    chunk_id,
                    Refusal::Store(StoreError::DiskFull { size: store.data@.len() as u64, available }),
                )
            } else {
                stages[i + 1] is Store
            },
            (StoreStage::MeasureDisk, CommandReply::Store(StoreReply::Space(Err(error)))) => is_failure(
                stages[i + 1],
                command_id,
                chunk_id,
                Refusal::Store(StoreError::DiskUnknown { error }),
            ),
            (StoreStage::DiscardTemp { error }, _) => is_failure(
                stages[i + 1],
                command_id,
                chunk_id,
                Refusal::Store(error),
            ),
            (StoreStage::RenameTemp, CommandReply::Store(StoreReply::Done(Ok(_)))) => stages[i + 1] is Respond,
            _ => stages[i + 1] is Store,
        },
{
    assert(stages[i].expects(replies[i]));
}

/// A command to get a chunk under a UUID is answered with the contents of its file exactly when the
/// disk has the file and reads it, whatever the size; else it is told that the chunk was not found
/// or could not be read. The counters stay.
pub proof fn held_chunk_is_returned(
    base: Seq<char>,
    command_id: String,
    chunk_id: String,
    states: Seq<StorageState>,
    stages: Seq<CommandStage>,
    replies: Seq<CommandReply>,
    found: Result<bool, IoFailure>,
    read: Result<Vec<u8>, IoFailure>,
)
    requires
        is_history(BackendCommand::GetChunk { command_id, chunk_id }, base, states, stages, replies),
        chunk_id::is_uuid(chunk_id@),
        replies.len() > 0,
        replies[0] == CommandReply::Retrieve(RetrieveReply::Exists(found)),
        replies.len() > 1 && found == Ok::<bool, IoFailure>(true) ==> replies[1] == CommandReply::Retrieve(
            RetrieveReply::Data(read),
        ),
    ensures
        stages[0] matches CommandStage::Retrieve { retrieve, .. } && retrieve.chunk_path@ == path::joined(
            base,
            chunk_id@,
        ),
        found != Ok::<bool, IoFailure>(true) ==> (stages[1] matches CommandStage::Respond(
            Response::CommandResult { result: Err(Refusal::Retrieve(RetrieveError::NotFound { chunk_id: i })), .. },
        ) && i@ == chunk_id@ && is_failure(
            stages[1],
            command_id,
            chunk_id,
            Refusal::Retrieve(RetrieveError::NotFound { chunk_id: i }),
        )),
        found == Ok::<bool, IoFailure>(true) && replies.len() > 1 ==> match read {
            Ok(data) => stages[2] == CommandStage::Respond(Response::ChunkData { command_id, data }),
            Err(_) => stages[2] matches CommandStage::Respond(
                Response::CommandResult { result: Err(Refusal::Retrieve(RetrieveError::Read { chunk_id: i })), .. },
            ) && i@ == chunk_id@ && is_failure(
                stages[2],
                command_id,
                chunk_id,
                Refusal::Retrieve(RetrieveError::Read { chunk_id: i }),
            ),
        },
        states[1] == states[0],
{
    assert(stages[0].expects(replies[0]));
    if replies.len() > 1 {
        assert(stages[1].expects(replies[1]));
    }
}

/// A command to delete a chunk under a UUID is answered with success exactly when the file was
/// removed, and then with its size taken away as the change of storage, or when there was none, and
/// then without a change; else it is told why not.
pub proof fn held_chunk_is_deleted(
    base: Seq<char>,
    command_id: String,
    chunk_id: String,
    states: Seq<StorageState>,
    stages: Seq<CommandStage>,
    replies: Seq<CommandReply>,
    sized: Result<u64, IoFailure>,
    removed: Result<(), IoFailure>,
)
    requires
        is_history(BackendCommand::DeleteChunk { command_id, chunk_id }, base, states, stages, replies),
        chunk_id::is_uuid(chunk_id@),
        replies.len() > 0,
        replies[0] == CommandReply::Delete(DeleteReply::Size(sized)),
        replies.len() > 1 && sized is Ok ==> replies[1] == CommandReply::Delete(DeleteReply::Done(removed)),
        sized matches Ok(size) ==> size <= i64::MAX,
    ensures
        stages[0] matches CommandStage::Delete { delete, .. } && delete.chunk_path@ == path::joined(base, chunk_id@),
        sized matches Err(failure) ==> if failure.kind == IoKind::NotFound {
            stages[1] matches CommandStage::Respond(
                Response::CommandResult { command_id: c, chunk_id: i, result: Ok(_), storage_delta: None },
            ) && c == command_id && i == chunk_id
        } else {
            stages[1] matches CommandStage::Respond(
                Response::CommandResult { result: Err(Refusal::Delete(DeleteError::Metadata { reason, .. })), .. },
            ) && reason == failure.text
        },
        sized matches Ok(size) ==> replies.len() > 1 ==> match removed {
            Ok(_) => {
                &&& stages[2] matches CommandStage::Respond(
                    Response::CommandResult { command_id: c, chunk_id: i, result: Ok(_), storage_delta: Some(delta) },
                ) && c == command_id && i == chunk_id && delta == -size
                &&& size <= states[0].current_used_space_bytes ==> states[2].current_used_space_bytes
                    == states[0].current_used_space_bytes - size
            },
            Err(_) => stages[2] matches CommandStage::Respond(
                Response::CommandResult { result: Err(Refusal::Delete(DeleteError::Remove { chunk_path })), .. },
            ) && chunk_path@ == path::joined(base, chunk_id@) && states[2] == states[0],
        },
{
    assert(stages[0].expects(replies[0]));
    if replies.len() > 1 {
        assert(stages[1].expects(replies[1]));
    }
}

/// A request for the status is answered at once, with the counters as they are; an unknown command is
/// ignored at once.
pub proof fn status_is_the_counters(
    base: Seq<char>,
    command: BackendCommand,
    state: StorageState,
    stage: CommandStage,
)
    requires
        commands::begins(command, base, state, stage),
    ensures
        command matches BackendCommand::StatusRequest { command_id } ==> (stage matches CommandStage::Respond(
            Response::StatusReport { command_id: c, status },
        ) && c == command_id && status.used_space_bytes == state.current_used_space_bytes && status.max_space_bytes
            == state.max_storage_bytes && status.current_chunk_count == state.current_chunk_count),
        command is Unknown ==> stage matches CommandStage::Finished(Ok(_)),
{
}

/// A command ends well exactly when its answer has been handed on.
pub proof fn answer_that_is_taken_ends_the_command(
    command: BackendCommand,
    base: Seq<char>,
    states: Seq<StorageState>,
    stages: Seq<CommandStage>,
    replies: Seq<CommandReply>,
    i: int,
)
    requires
        is_history(command, base, states, stages, replies),
        0 <= i < replies.len(),
        stages[i] is Respond,
    ensures
        states[i + 1] == states[i],
        match replies[i] {
            CommandReply::Sent(Ok(_)) => stages[i + 1] matches CommandStage::Finished(Ok(_)),
            CommandReply::Sent(Err(reason)) => stages[i + 1] == CommandStage::Finished(
                Err(CommandError::Send { reason }),
            ),
            _ => false,
        },
{
    assert(stages[i].expects(replies[i]));
}

} // verus!
