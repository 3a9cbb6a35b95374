//! The commands of the backend and how they are answered.

use crate::chunk_id;
use crate::disk::IoFailure;
use crate::storage;
use crate::storage::{
    DeleteError, DeleteReply, DeleteRun, DeleteStage, ExistsError, RetrieveError, RetrieveReply, RetrieveRun,
    RetrieveStage, StorageState, StoreError, StoreReply, StoreRun, StoreStage,
};
use crate::text;
use vstd::prelude::*;
use vstd::string::*;

verus! {

/// What the node reports of its storage.
#[derive(Clone, Copy, Debug, PartialEq, Eq, Structural)]
pub struct NodeStatus {
    pub used_space_bytes: u64,
    pub max_space_bytes: u64,
    pub current_chunk_count: u64,
}

impl NodeStatus {
    /// The report of these counters.
    pub open spec fn spec_of(state: StorageState) -> NodeStatus {
        NodeStatus {
            used_space_bytes: state.current_used_space_bytes,
            max_space_bytes: state.max_storage_bytes,
            current_chunk_count: state.current_chunk_count,
        }
    }

    /// The report of these counters.
    pub fn of(state: &StorageState) -> (status: NodeStatus)
        ensures
            status == NodeStatus::spec_of(*state),
    {
        NodeStatus {
            used_space_bytes: state.current_used_space_bytes,
            max_space_bytes: state.max_storage_bytes,
            current_chunk_count: state.current_chunk_count,
        }
    }
}

/// A command of the backend.
#[derive(Debug)]
pub enum BackendCommand {
    StoreChunk { command_id: String, data_size: u64, binary_data: Option<Vec<u8>>, chunk_id: String },
    GetChunk { command_id: String, chunk_id: String },
    DeleteChunk { command_id: String, chunk_id: String },
    StatusRequest { command_id: String },
    /// Anything that could not be read as a command.
    Unknown,
}

/// Why a command could not be carried out; the backend is told.
#[derive(Debug)]
pub enum Refusal {
    NotAUuid,
    Collision { chunk_id: String },
    SizeMismatch { expected: u64, got: u64 },
    NoData,
    Store(StoreError),
    Retrieve(RetrieveError),
    Delete(DeleteError),
}

impl Refusal {
    /// The text of `message`.
    pub open spec fn text(self) -> Seq<char> {
        match self {
            Refusal::NotAUuid => "Invalid chunk_id: not a valid UUID"@,
            Refusal::Collision { chunk_id } => "Chunk ID collision: "@ + chunk_id@ + " already exists"@,
            Refusal::SizeMismatch { expected, got } =>
                "Binary data size mismatch: expected "@ + text::decimal(expected as nat) + ", got "@
                    + text::decimal(got as nat),
            Refusal::NoData => "No binary data provided for STORE_CHUNK command"@,
            Refusal::Store(e) => e.text(),
            Refusal::Retrieve(e) => e.text(),
            Refusal::Delete(e) => e.text(),
        }
    }

    /// The message the backend is sent for this refusal.
    pub fn message(&self) -> (r: String)
        ensures
            r@ == self.text(),
    {
        match self {
            Refusal::NotAUuid => "Invalid chunk_id: not a valid UUID".to_owned(),
            Refusal::Collision { chunk_id } => text::concat3(
                "Chunk ID collision: ",
                chunk_id.as_str(),
                " already exists",
            ),
            Refusal::SizeMismatch { expected, got } => {
                let mut r = text::concat3(
                    "Binary data size mismatch: expected ",
                    text::decimal_text(*expected).as_str(),
                    ", got ",
                );
                r.append(text::decimal_text(*got).as_str());
                r
            },
            Refusal::NoData => "No binary data provided for STORE_CHUNK command".to_owned(),
            Refusal::Store(e) => e.message(),
            Refusal::Retrieve(e) => e.message(),
            Refusal::Delete(e) => e.message(),
        }
    }
}

/// An answer to the backend.
#[derive(Debug)]
pub enum Response {
    /// How a command went: without an error it succeeded. The delta is by how many bytes the
    /// storage in use has grown, where it has changed.
    CommandResult {
        command_id: String,
        chunk_id: String,
        result: Result<(), Refusal>,
        storage_delta: Option<i64>,
    },
    /// The data of a chunk.
    ChunkData { command_id: String, data: Vec<u8> },
    /// The report of the storage.
    StatusReport { command_id: String, status: NodeStatus },
}

/// Why the handling of a command ended without an answer.
#[derive(Debug)]
pub enum CommandError {
    /// Whether the chunk exists could not be told.
    Exists(ExistsError),
    /// The answer could not be handed on.
    Send { reason: String },
}

/// What comes next in handling a command.
#[derive(Debug)]
pub enum CommandStage {
    /// Ask whether the file of the chunk exists; the command is to store it.
    CheckExists {
        chunk_path: String,
        command_id: String,
        data_size: u64,
        binary_data: Option<Vec<u8>>,
        chunk_id: String,
    },
    /// Store the chunk: perform the stage of this run.
    Store { command_id: String, chunk_id: String, store: StoreRun },
    /// Read the chunk: perform the stage of this run.
    Retrieve { command_id: String, chunk_id: String, retrieve: RetrieveRun },
    /// Delete the chunk: perform the stage of this run.
    Delete { command_id: String, chunk_id: String, delete: DeleteRun },
    /// Hand this answer on to the backend.
    Respond(Response),
    /// Nothing: the command has been handled.
    Finished(Result<(), CommandError>),
}

/// The outcome of a stage of a command.
#[derive(Debug)]
pub enum CommandReply {
    /// For `CheckExists`.
    Exists(Result<bool, IoFailure>),
    /// For `Store`: the answer to the stage of the run.
    Store(StoreReply),
    /// For `Retrieve`: the answer to the stage of the run.
    Retrieve(RetrieveReply),
    /// For `Delete`: the answer to the stage of the run.
    Delete(DeleteReply),
    /// For `Respond`: whether the answer was taken.
    Sent(Result<(), String>),
}

/// The answer that a command has not been carried out.
pub open spec fn refused(command_id: String, chunk_id: String, refusal: Refusal) -> CommandStage {
    CommandStage::Respond(
        Response::CommandResult { command_id, chunk_id, result: Err(refusal), storage_delta: None },
    )
}

/// The answer that a command has been carried out.
pub open spec fn succeeded(command_id: String, chunk_id: String, delta: Option<i64>) -> CommandStage {
    CommandStage::Respond(
        Response::CommandResult { command_id, chunk_id, result: Ok(()), storage_delta: delta },
    )
}

/// What comes next in storing a chunk: the run goes on, or it is over and the backend is told. The
/// change of storage is the size of the stored chunk.
pub open spec fn storing(command_id: String, chunk_id: String, store: StoreRun) -> CommandStage {
    match store.stage {
        StoreStage::Finished(Ok(size)) => succeeded(command_id, chunk_id, Some(size as i64)),
        StoreStage::Finished(Err(e)) => refused(command_id, chunk_id, Refusal::Store(e)),
        _ => CommandStage::Store { command_id, chunk_id, store },
    }
}

/// What comes next in reading a chunk: the run goes on, or it is over and the backend is sent the
/// data.
pub open spec fn retrieving(command_id: String, chunk_id: String, retrieve: RetrieveRun) -> CommandStage {
    match retrieve.stage {
        RetrieveStage::Finished(Ok(data)) => CommandStage::Respond(Response::ChunkData { command_id, data }),
        RetrieveStage::Finished(Err(e)) => refused(command_id, chunk_id, Refusal::Retrieve(e)),
        _ => CommandStage::Retrieve { command_id, chunk_id, retrieve },
    }
}

/// What comes next in deleting a chunk: the run goes on, or it is over and the backend is told.
/// The change of storage is the size of the deleted chunk, taken away; there is none where there
/// was no chunk.
pub open spec fn deleting(command_id: String, chunk_id: String, delete: DeleteRun) -> CommandStage {
    match delete.stage {
        DeleteStage::Finished(Ok(Some(size))) =>
            succeeded(command_id, chunk_id, Some((0 - (size as i64)) as i64)),
        DeleteStage::Finished(Ok(None)) => succeeded(command_id, chunk_id, None),
        DeleteStage::Finished(Err(e)) => refused(command_id, chunk_id, Refusal::Delete(e)),
        _ => CommandStage::Delete { command_id, chunk_id, delete },
    }
}

/// `stage` is what `command` begins with, in the storage directory `base`. A chunk identifier that
/// is not a UUID is refused before any file is touched; an unknown command is ignored.
pub open spec fn begins(command: BackendCommand, base: Seq<char>, state: StorageState, stage: CommandStage) -> bool {
    match command {
        BackendCommand::StoreChunk { command_id, data_size, binary_data, chunk_id } =>
            if chunk_id::is_uuid(chunk_id@) {
                stage matches CommandStage::CheckExists { chunk_path, .. } && chunk_path@ == storage::chunk_file(
                    base,
                    chunk_id@,
                ) && stage == (CommandStage::CheckExists { chunk_path, command_id, data_size, binary_data, chunk_id })
            } else {
                stage == refused(command_id, chunk_id, Refusal::NotAUuid)
            },
        BackendCommand::GetChunk { command_id, chunk_id } => if chunk_id::is_uuid(chunk_id@) {
            stage matches CommandStage::Retrieve { retrieve, .. } && storage::retrieve_begun(
                retrieve,
                base,
                chunk_id@,
            ) && stage == (CommandStage::Retrieve { command_id, chunk_id, retrieve })
        } else {
            stage == refused(command_id, chunk_id, Refusal::NotAUuid)
        },
        BackendCommand::DeleteChunk { command_id, chunk_id } => if chunk_id::is_uuid(chunk_id@) {
            stage matches CommandStage::Delete { delete, .. } && storage::delete_begun(delete, base, chunk_id@)
                && stage == (CommandStage::Delete { command_id, chunk_id, delete })
        } else {
            stage == refused(command_id, chunk_id, Refusal::NotAUuid)
        },
        BackendCommand::StatusRequest { command_id } => stage == CommandStage::Respond(
            Response::StatusReport { command_id, status: NodeStatus::spec_of(state) },
        ),
        BackendCommand::Unknown => stage == CommandStage::Finished(Ok(())),
    }
}

fn refuse(command_id: String, chunk_id: String, refusal: Refusal) -> (stage: CommandStage)
    ensures
        stage == refused(command_id, chunk_id, refusal),
{
    CommandStage::Respond(
        Response::CommandResult { command_id, chunk_id, result: Err(refusal), storage_delta: None },
    )
}

fn succeed(command_id: String, chunk_id: String, delta: Option<i64>) -> (stage: CommandStage)
    ensures
        stage == succeeded(command_id, chunk_id, delta),
{
    CommandStage::Respond(
        Response::CommandResult { command_id, chunk_id, result: Ok(()), storage_delta: delta },
    )
}

/// Begins to handle `command`, in the storage directory `storage_path`.
pub fn handle_command(command: BackendCommand, storage_path: &str, state: &StorageState) -> (stage: CommandStage)
    ensures
        begins(command, storage_path@, *state, stage),
{
    match command {
        BackendCommand::StoreChunk { command_id, data_size, binary_data, chunk_id } => {
            if !chunk_id::parses_as_uuid(chunk_id.as_str()) {
                refuse(command_id, chunk_id, Refusal::NotAUuid)
            } else {
                let chunk_path = storage::chunk_file_path(storage_path, chunk_id.as_str());
                CommandStage::CheckExists { chunk_path, command_id, data_size, binary_data, chunk_id }
            }
        },
        BackendCommand::GetChunk { command_id, chunk_id } => {
            if !chunk_id::parses_as_uuid(chunk_id.as_str()) {
                refuse(command_id, chunk_id, Refusal::NotAUuid)
            } else {
                let retrieve = storage::retrieve_chunk_data_from_disk(storage_path, chunk_id.as_str());
                CommandStage::Retrieve { command_id, chunk_id, retrieve }
            }
        },
        BackendCommand::DeleteChunk { command_id, chunk_id } => {
            if !chunk_id::parses_as_uuid(chunk_id.as_str()) {
                refuse(command_id, chunk_id, Refusal::NotAUuid)
            } else {
                let delete = storage::delete_chunk_from_disk(storage_path, chunk_id.as_str());
                CommandStage::Delete { command_id, chunk_id, delete }
            }
        },
        BackendCommand::StatusRequest { command_id } => CommandStage::Respond(
            Response::StatusReport { command_id, status: NodeStatus::of(state) },
        ),
        BackendCommand::Unknown => CommandStage::Finished(Ok(())),
    }
}

fn go_on_storing(command_id: String, chunk_id: String, store: StoreRun) -> (stage: CommandStage)
    ensures
        stage == storing(command_id, chunk_id, store),
{
    match store.stage {
        StoreStage::Finished(result) => match result {
            Ok(size) => succeed(command_id, chunk_id, Some(size as i64)),
            Err(e) => refuse(command_id, chunk_id, Refusal::Store(e)),
        },
        _ => CommandStage::Store { command_id, chunk_id, store },
    }
}

fn go_on_retrieving(command_id: String, chunk_id: String, retrieve: RetrieveRun) -> (stage: CommandStage)
    ensures
        stage == retrieving(command_id, chunk_id, retrieve),
{
    match retrieve.stage {
        RetrieveStage::Finished(result) => match result {
            Ok(data) => CommandStage::Respond(Response::ChunkData { command_id, data }),
            Err(e) => refuse(command_id, chunk_id, Refusal::Retrieve(e)),
        },
        _ => CommandStage::Retrieve { command_id, chunk_id, retrieve },
    }
}

fn go_on_deleting(command_id: String, chunk_id: String, delete: DeleteRun) -> (stage: CommandStage)
    requires
        delete.stage matches DeleteStage::Finished(Ok(Some(size))) ==> size != 0x8000_0000_0000_0000,
    ensures
        stage == deleting(command_id, chunk_id, delete),
{
    match delete.stage {
        DeleteStage::Finished(result) => match result {
            Ok(Some(size)) => {
                assert(size as i64 != i64::MIN) by (bit_vector)
                    requires
                        size != 0x8000_0000_0000_0000u64,
                ;
                succeed(command_id, chunk_id, Some(-(size as i64)))
            },
            Ok(None) => succeed(command_id, chunk_id, None),
            Err(e) => refuse(command_id, chunk_id, Refusal::Delete(e)),
        },
        _ => CommandStage::Delete { command_id, chunk_id, delete },
    }
}

impl CommandStage {
    /// `reply` is an outcome of this stage.
    pub open spec fn expects(self, reply: CommandReply) -> bool {
        match self {
            CommandStage::CheckExists { .. } => reply is Exists,
            CommandStage::Store { store, .. } => reply matches CommandReply::Store(r) && store.expects(r),
            CommandStage::Retrieve { retrieve, .. } => reply matches CommandReply::Retrieve(r) && retrieve.expects(r),
            CommandStage::Delete { delete, .. } => reply matches CommandReply::Delete(r) && delete.expects(r),
            CommandStage::Respond(_) => reply is Sent,
            CommandStage::Finished(_) => false,
        }
    }

    /// The size of a chunk that has been deleted can be told as a change of the bytes in use.
    pub open spec fn size_is_tellable(self, reply: CommandReply) -> bool {
        match (self, reply) {
            (CommandStage::Delete { delete, .. }, CommandReply::Delete(DeleteReply::Done(Ok(_)))) =>
                delete.stage matches DeleteStage::RemoveFile { size } ==> size != 0x8000_0000_0000_0000,
            _ => true,
        }
    }

    /// The counters after this stage and its outcome `reply`.
    pub open spec fn state_after(self, reply: CommandReply, state: StorageState) -> StorageState {
        match (self, reply) {
            (CommandStage::Store { store, .. }, CommandReply::Store(r)) => if store.completes_with(r) {
                state.with_chunk(store.data@.len() as u64)
            } else {
                state
            },
            (CommandStage::Delete { delete, .. }, CommandReply::Delete(r)) => delete.state_after(r, state),
            _ => state,
        }
    }

    /// `next` is what comes after this stage and its outcome `reply`, in the storage directory
    /// `base` and with these counters.
    pub open spec fn leads_to(
        self,
        reply: CommandReply,
        base: Seq<char>,
        state: StorageState,
        next: CommandStage,
    ) -> bool {
        match (self, reply) {
            (
                CommandStage::CheckExists { command_id, data_size, binary_data, chunk_id, .. },
                CommandReply::Exists(Ok(found)),
            ) => if found {
                next == refused(command_id, chunk_id, Refusal::Collision { chunk_id })
            } else {
                match binary_data {
                    None => next == refused(command_id, chunk_id, Refusal::NoData),
                    Some(data) => if data@.len() != data_size as usize {
                        next == refused(
                            command_id,
                            chunk_id,
                            Refusal::SizeMismatch { expected: data_size, got: data@.len() as u64 },
                        )
                    } else {
                        exists|store: StoreRun| #[trigger]
                            storage::store_begun(store, base, chunk_id@, data@, state) && next == storing(
                                command_id,
                                chunk_id,
                                store,
                            )
                    },
                }
            },
            (CommandStage::CheckExists { chunk_id, .. }, CommandReply::Exists(Err(e))) =>
                next == CommandStage::Finished(
                    Err(CommandError::Exists(ExistsError { chunk_id, reason: e.text })),
                ),
            (CommandStage::Store { command_id, chunk_id, store }, CommandReply::Store(r)) =>
                next == storing(command_id, chunk_id, StoreRun { stage: store.stage_after(r), ..store }),
            (CommandStage::Retrieve { command_id, chunk_id, retrieve }, CommandReply::Retrieve(r)) =>
                next == retrieving(command_id, chunk_id, RetrieveRun { stage: retrieve.stage_after(r), ..retrieve }),
            (CommandStage::Delete { command_id, chunk_id, delete }, CommandReply::Delete(r)) =>
                next == deleting(command_id, chunk_id, DeleteRun { stage: delete.stage_after(r), ..delete }),
            (CommandStage::Respond(_), CommandReply::Sent(Ok(_))) => next == CommandStage::Finished(Ok(())),
            (CommandStage::Respond(_), CommandReply::Sent(Err(reason))) =>
                next == CommandStage::Finished(Err(CommandError::Send { reason })),
            (stage, _) => next == stage,
        }
    }

    /// Goes on with the outcome of this stage.
    pub fn resume(self, reply: CommandReply, storage_path: &str, state: &mut StorageState) -> (next: CommandStage)
        requires
            self.expects(reply),
            self.size_is_tellable(reply),
        ensures
            self.leads_to(reply, storage_path@, *old(state), next),
            *final(state) == self.state_after(reply, *old(state)),
    {
        match (self, reply) {
            (
                CommandStage::CheckExists { command_id, data_size, binary_data, chunk_id, .. },
                CommandReply::Exists(found),
            ) => match found {
                Err(e) => CommandStage::Finished(
                    Err(CommandError::Exists(ExistsError { chunk_id, reason: e.text })),
                ),
                Ok(true) => {
                    let collided = chunk_id.clone();
                    refuse(command_id, chunk_id, Refusal::Collision { chunk_id: collided })
                },
                Ok(false) => match binary_data {
                    None => refuse(command_id, chunk_id, Refusal::NoData),
                    Some(data) => {
                        if data.len() != data_size as usize {
                            let got: u64 = data.len() as u64;
                            refuse(command_id, chunk_id, Refusal::SizeMismatch { expected: data_size, got })
                        } else {
                            let store = storage::store_chunk_data_to_disk(
                                storage_path,
                                chunk_id.as_str(),
                                data,
                                state,
                            );
                            go_on_storing(command_id, chunk_id, store)
                        }
                    },
                },
            },
            (CommandStage::Store { command_id, chunk_id, store }, CommandReply::Store(r)) => {
                let store = store.resume(r, state);
                go_on_storing(command_id, chunk_id, store)
            },
            (CommandStage::Retrieve { command_id, chunk_id, retrieve }, CommandReply::Retrieve(r)) => {
                let retrieve = retrieve.resume(r);
                go_on_retrieving(command_id, chunk_id, retrieve)
            },
            (CommandStage::Delete { command_id, chunk_id, delete }, CommandReply::Delete(r)) => {
                let delete = delete.resume(r, state);
                go_on_deleting(command_id, chunk_id, delete)
            },
            (CommandStage::Respond(_), CommandReply::Sent(result)) => match result {
                Ok(_) => CommandStage::Finished(Ok(())),
                Err(reason) => CommandStage::Finished(Err(CommandError::Send { reason })),
            },
            (stage, _) => stage,
        }
    }
}

} // verus!
