//! The commands of the backend and how they are answered.

use crate::storage::StorageState;
use crate::storage_client::storage;
use crate::storage_client::storage::{
    DeleteError, DeleteReply, DeleteRun, DeleteStage, NodeStatus, RetrieveError, RetrieveReply, RetrieveRun,
    RetrieveStage, StoreError, StoreReply, StoreRun, StoreStage,
};
use crate::text;
use vstd::prelude::*;
use vstd::string::*;

verus! {

/// A command of the backend.
#[derive(Debug)]
pub enum BackendCommand {
    StoreChunk { command_id: String, chunk_id: String, expected_size_bytes: u64, data_source_url: String },
    RetrieveChunk { command_id: String, chunk_id: String, upload_destination_url: String },
    DeleteChunk { command_id: String, chunk_id: String },
    QueryStatus { command_id: String },
    /// Anything that could not be read as a command.
    Unknown,
}

/// The status of an answer over HTTP, and how it is shown.
#[derive(Debug)]
pub struct HttpStatus {
    pub code: u16,
    pub shown: String,
}

impl HttpStatus {
    /// The status says that the request succeeded.
    pub open spec fn succeeded(self) -> bool {
        200 <= self.code < 300
    }

    /// Does the status say that the request succeeded?
    pub fn is_success(&self) -> (yes: bool)
        ensures
            yes == self.succeeded(),
    {
        200 <= self.code && self.code < 300
    }
}

/// Why a command could not be carried out; the backend is told.
#[derive(Debug)]
pub enum Failure {
    DownloadStatus { status: HttpStatus },
    DownloadRequest { reason: String },
    Store(StoreError),
    Retrieve(RetrieveError),
    /// The file of the chunk could not be read to its end.
    Read { reason: String },
    UploadRequest { reason: String },
    UploadStatus { status: HttpStatus },
    Delete(DeleteError),
    /// There was no chunk to delete.
    NotFound { chunk_id: String },
}

impl Failure {
    /// The text of `message`.
    pub open spec fn text(self) -> Seq<char> {
        match self {
            Failure::DownloadStatus { status } => "Download failed with status: "@ + status.shown@,
            Failure::DownloadRequest { reason } => "Download request failed: "@ + reason@,
            Failure::Store(e) => e.text(),
            Failure::Retrieve(e) => e.text(),
            Failure::Read { reason } => "Failed to read chunk: "@ + reason@,
            Failure::UploadRequest { reason } => "Upload failed: "@ + reason@,
            Failure::UploadStatus { status } => "Upload failed with status: "@ + status.shown@,
            Failure::Delete(e) => e.text(),
            Failure::NotFound { chunk_id } => "Chunk "@ + chunk_id@ + " not found"@,
        }
    }

    /// The message the backend is sent for this failure.
    pub fn message(&self) -> (r: String)
        ensures
            r@ == self.text(),
    {
        match self {
            Failure::DownloadStatus { status } => text::concat2(
                "Download failed with status: ",
                status.shown.as_str(),
            ),
            Failure::DownloadRequest { reason } => text::concat2("Download request failed: ", reason.as_str()),
            Failure::Store(e) => e.message(),
            Failure::Retrieve(e) => e.message(),
            Failure::Read { reason } => text::concat2("Failed to read chunk: ", reason.as_str()),
            Failure::UploadRequest { reason } => text::concat2("Upload failed: ", reason.as_str()),
            Failure::UploadStatus { status } => text::concat2("Upload failed with status: ", status.shown.as_str()),
            Failure::Delete(e) => e.message(),
            Failure::NotFound { chunk_id } => text::concat3("Chunk ", chunk_id.as_str(), " not found"),
        }
    }
}

/// An answer to the backend.
#[derive(Debug)]
pub enum Response {
    /// How a command went.
    CommandResult { command_id: String, result: Result<(), Failure> },
    /// The report of the storage.
    StatusReport { command_id: String, status: NodeStatus },
}

/// What comes next in handling a command.
#[derive(Debug)]
pub enum CommandStage {
    /// Ask for the data of the chunk at this address.
    Download { command_id: String, chunk_id: String, expected_size_bytes: u64, url: String },
    /// Store the data that comes: perform the stage of this run.
    Store { command_id: String, store: StoreRun },
    /// Open the chunk: perform the stage of this run.
    Retrieve { command_id: String, retrieve: RetrieveRun, url: String },
    /// Read the opened file to its end, in pieces.
    ReadPieces { command_id: String, url: String },
    /// Send this data to this address.
    Upload { command_id: String, url: String, data: Vec<u8> },
    /// Delete the chunk: perform the stage of this run.
    Delete { command_id: String, chunk_id: String, delete: DeleteRun },
    /// Hand this answer on to the backend.
    Respond(Response),
    /// Nothing: the command has been handled, or why its answer was not taken.
    Finished(Result<(), SendError>),
}

/// Which answer was not taken.
#[derive(Clone, Copy, Debug, PartialEq, Eq, Structural)]
pub enum SendError {
    CommandResult,
    StatusReport,
}

impl SendError {
    /// The text of `message`.
    pub open spec fn text(self) -> Seq<char> {
        match self {
            SendError::CommandResult => "Failed to send command result"@,
            SendError::StatusReport => "Failed to send status report"@,
        }
    }

    /// The message to show for this error.
    pub fn message(&self) -> (r: String)
        ensures
            r@ == self.text(),
    {
        match self {
            SendError::CommandResult => "Failed to send command result".to_owned(),
            SendError::StatusReport => "Failed to send status report".to_owned(),
        }
    }
}

/// The outcome of a stage of a command.
#[derive(Debug)]
pub enum CommandReply {
    /// For `Download` and `Upload`: the status of the answer, or why there is none.
    Answered(Result<HttpStatus, String>),
    /// For `Store`: the outcome of the stage of the run.
    Store(StoreReply),
    /// For `Retrieve`: the outcome of the stage of the run.
    Retrieve(RetrieveReply),
    /// For `ReadPieces`: the pieces, or why they could not be read.
    Pieces(Result<Vec<Vec<u8>>, String>),
    /// For `Delete`: the outcome of the stage of the run.
    Delete(DeleteReply),
    /// For `Respond`: whether the answer was taken.
    Sent(bool),
}

/// The answer that a command went like this.
pub open spec fn answered(command_id: String, result: Result<(), Failure>) -> CommandStage {
    CommandStage::Respond(Response::CommandResult { command_id, result })
}

/// What comes next in storing a chunk: the run goes on, or it is over and the backend is told.
pub open spec fn storing(command_id: String, store: StoreRun) -> CommandStage {
    match store.stage {
        StoreStage::Finished(Ok(_)) => answered(command_id, Ok(())),
        StoreStage::Finished(Err(e)) => answered(command_id, Err(Failure::Store(e))),
        _ => CommandStage::Store { command_id, store },
    }
}

/// What comes next in opening a chunk: the run goes on, or it is over and the file is read.
pub open spec fn retrieving(command_id: String, retrieve: RetrieveRun, url: String) -> CommandStage {
    match retrieve.stage {
        RetrieveStage::Finished(Ok(_)) => CommandStage::ReadPieces { command_id, url },
        RetrieveStage::Finished(Err(e)) => answered(command_id, Err(Failure::Retrieve(e))),
        _ => CommandStage::Retrieve { command_id, retrieve, url },
    }
}

/// What comes next in deleting a chunk: the run goes on, or it is over and the backend is told. It
/// is a failure that there was no chunk.
pub open spec fn deleting(command_id: String, chunk_id: String, delete: DeleteRun) -> CommandStage {
    match delete.stage {
        DeleteStage::Finished(Ok(Some(_))) => answered(command_id, Ok(())),
        DeleteStage::Finished(Ok(None)) => answered(command_id, Err(Failure::NotFound { chunk_id })),
        DeleteStage::Finished(Err(e)) => answered(command_id, Err(Failure::Delete(e))),
        _ => CommandStage::Delete { command_id, chunk_id, delete },
    }
}

/// The chunk the command is to find, if it is to find one, has a place in the store.
pub open spec fn has_place(command: BackendCommand) -> bool {
    match command {
        BackendCommand::RetrieveChunk { chunk_id, .. } => storage::has_place(chunk_id@),
        BackendCommand::DeleteChunk { chunk_id, .. } => storage::has_place(chunk_id@),
        _ => true,
    }
}

/// `stage` is what `command` begins with, in the storage directory `base`. An unknown command is
/// ignored.
pub open spec fn begins(command: BackendCommand, base: Seq<char>, state: StorageState, stage: CommandStage) -> bool {
    match command {
        BackendCommand::StoreChunk { command_id, chunk_id, expected_size_bytes, data_source_url } => stage == (
        CommandStage::Download { command_id, chunk_id, expected_size_bytes, url: data_source_url }),
        BackendCommand::RetrieveChunk { command_id, chunk_id, upload_destination_url } =>
            stage matches CommandStage::Retrieve { retrieve, .. } && storage::retrieve_begun(
                retrieve,
                base,
                chunk_id@,
            ) && stage == (CommandStage::Retrieve { command_id, retrieve, url: upload_destination_url }),
        BackendCommand::DeleteChunk { command_id, chunk_id } =>
            stage matches CommandStage::Delete { delete, .. } && storage::delete_begun(delete, base, chunk_id@)
                && stage == (CommandStage::Delete { command_id, chunk_id, delete }),
        BackendCommand::QueryStatus { command_id } => stage == CommandStage::Respond(
            Response::StatusReport { command_id, status: storage::status_of(state) },
        ),
        BackendCommand::Unknown => stage == CommandStage::Finished(Ok(())),
    }
}

/// Begins to handle `command`, in the storage directory `storage_path`.
pub fn handle_command(command: BackendCommand, storage_path: &str, state: &StorageState) -> (stage: CommandStage)
    requires
        has_place(command),
    ensures
        begins(command, storage_path@, *state, stage),
{
    match command {
        BackendCommand::StoreChunk { command_id, chunk_id, expected_size_bytes, data_source_url } => {
            CommandStage::Download { command_id, chunk_id, expected_size_bytes, url: data_source_url }
        },
        BackendCommand::RetrieveChunk { command_id, chunk_id, upload_destination_url } => {
            let retrieve = storage::retrieve_chunk_from_disk(storage_path, chunk_id.as_str());
            CommandStage::Retrieve { command_id, retrieve, url: upload_destination_url }
        },
        BackendCommand::DeleteChunk { command_id, chunk_id } => {
            let delete = storage::delete_chunk_from_disk(storage_path, chunk_id.as_str());
            CommandStage::Delete { command_id, chunk_id, delete }
        },
        BackendCommand::QueryStatus { command_id } => CommandStage::Respond(
            Response::StatusReport { command_id, status: storage::get_current_node_status(state) },
        ),
        BackendCommand::Unknown => CommandStage::Finished(Ok(())),
    }
}

fn answer(command_id: String, result: Result<(), Failure>) -> (stage: CommandStage)
    ensures
        stage == answered(command_id, result),
{
    CommandStage::Respond(Response::CommandResult { command_id, result })
}

fn go_on_storing(command_id: String, store: StoreRun) -> (stage: CommandStage)
    ensures
        stage == storing(command_id, store),
{
    match store.stage {
        StoreStage::Finished(result) => match result {
            Ok(_) => answer(command_id, Ok(())),
            Err(e) => answer(command_id, Err(Failure::Store(e))),
        },
        _ => CommandStage::Store { command_id, store },
    }
}

fn go_on_retrieving(command_id: String, retrieve: RetrieveRun, url: String) -> (stage: CommandStage)
    ensures
        stage == retrieving(command_id, retrieve, url),
{
    match retrieve.stage {
        RetrieveStage::Finished(result) => match result {
            Ok(_) => CommandStage::ReadPieces { command_id, url },
            Err(e) => answer(command_id, Err(Failure::Retrieve(e))),
        },
        _ => CommandStage::Retrieve { command_id, retrieve, url },
    }
}

fn go_on_deleting(command_id: String, chunk_id: String, delete: DeleteRun) -> (stage: CommandStage)
    ensures
        stage == deleting(command_id, chunk_id, delete),
{
    match delete.stage {
        DeleteStage::Finished(result) => match result {
            Ok(Some(_)) => answer(command_id, Ok(())),
            Ok(None) => answer(command_id, Err(Failure::NotFound { chunk_id })),
            Err(e) => answer(command_id, Err(Failure::Delete(e))),
        },
        _ => CommandStage::Delete { command_id, chunk_id, delete },
    }
}

impl CommandStage {
    /// `reply` is an outcome of this stage.
    pub open spec fn expects(self, reply: CommandReply) -> bool {
        match self {
            CommandStage::Download { .. } => reply is Answered,
            CommandStage::Store { store, .. } => reply matches CommandReply::Store(r) && store.expects(r),
            CommandStage::Retrieve { retrieve, .. } => reply matches CommandReply::Retrieve(r) && retrieve.expects(r),
            CommandStage::ReadPieces { .. } => reply is Pieces,
            CommandStage::Upload { .. } => reply is Answered,
            CommandStage::Delete { delete, .. } => reply matches CommandReply::Delete(r) && delete.expects(r),
            CommandStage::Respond(_) => reply is Sent,
            CommandStage::Finished(_) => false,
        }
    }

    /// A chunk whose data comes has a place in the store, and the numbers of a store are within
    /// the range of a counter.
    pub open spec fn can_go_on(self, reply: CommandReply, state: StorageState) -> bool {
        match (self, reply) {
            (CommandStage::Download { chunk_id, .. }, CommandReply::Answered(Ok(status))) =>
                status.succeeded() ==> storage::has_place(chunk_id@),
            (CommandStage::Store { store, .. }, CommandReply::Store(r)) => store.in_range(r, state),
            _ => true,
        }
    }

    /// The counters after this stage and its outcome `reply`.
    pub open spec fn state_after(self, reply: CommandReply, state: StorageState) -> StorageState {
        match (self, reply) {
            (CommandStage::Store { store, .. }, CommandReply::Store(r)) => if store.completes_with(r) {
                state.with_chunk(store.written)
            } else {
                state
            },
            (CommandStage::Delete { delete, .. }, CommandReply::Delete(r)) => delete.state_after(r, state),
            _ => state,
        }
    }

    /// `next` is what comes after this stage and its outcome `reply`, in the storage directory
    /// `base` and with these counters.
    pub open spec fn leads_to(
        self,
        reply: CommandReply,
        base: Seq<char>,
        state: StorageState,
        next: CommandStage,
    ) -> bool {
        match (self, reply) {
            (
                CommandStage::Download { command_id, chunk_id, expected_size_bytes, .. },
                CommandReply::Answered(Ok(status)),
            ) => if status.succeeded() {
                next matches CommandStage::Store { store, .. } && storage::store_begun(
                    store,
                    base,
                    chunk_id@,
                    expected_size_bytes,
                ) && next == (CommandStage::Store { command_id, store })
            } else {
                next == answered(command_id, Err(Failure::DownloadStatus { status }))
            },
            (CommandStage::Download { command_id, .. }, CommandReply::Answered(Err(reason))) =>
                next == answered(command_id, Err(Failure::DownloadRequest { reason })),
            (CommandStage::Store { command_id, store }, CommandReply::Store(r)) =>
                next == storing(command_id, store.after(r, state)),
            (CommandStage::Retrieve { command_id, retrieve, url }, CommandReply::Retrieve(r)) =>
                next == retrieving(command_id, RetrieveRun { stage: retrieve.stage_after(r), ..retrieve }, url),
            (CommandStage::ReadPieces { command_id, url }, CommandReply::Pieces(Ok(pieces))) =>
                next matches CommandStage::Upload { data, .. } && data@ == storage::concatenated(pieces@) && next == (
                CommandStage::Upload { command_id, url, data }),
            (CommandStage::ReadPieces { command_id, .. }, CommandReply::Pieces(Err(reason))) =>
                next == answered(command_id, Err(Failure::Read { reason })),
            (CommandStage::Upload { command_id, .. }, CommandReply::Answered(Ok(status))) =>
                next == answered(
                    command_id,
                    if status.succeeded() {
                        Ok(())
                    } else {
                        Err(Failure::UploadStatus { status })
                    },
                ),
            (CommandStage::Upload { command_id, .. }, CommandReply::Answered(Err(reason))) =>
                next == answered(command_id, Err(Failure::UploadRequest { reason })),
            (CommandStage::Delete { command_id, chunk_id, delete }, CommandReply::Delete(r)) =>
                next == deleting(command_id, chunk_id, DeleteRun { stage: delete.stage_after(r), ..delete }),
            (CommandStage::Respond(response), CommandReply::Sent(taken)) => next == CommandStage::Finished(
                if taken {
                    Ok(())
                } else {
                    match response {
                        Response::CommandResult { .. } => Err(SendError::CommandResult),
                        Response::StatusReport { .. } => Err(SendError::StatusReport),
                    }
                },
            ),
            (stage, _) => next == stage,
        }
    }

    /// Goes on with the outcome of this stage.
    pub fn resume(self, reply: CommandReply, storage_path: &str, state: &mut StorageState) -> (next: CommandStage)
        requires
            self.expects(reply),
            self.can_go_on(reply, *old(state)),
        ensures
            self.leads_to(reply, storage_path@, *old(state), next),
            *final(state) == self.state_after(reply, *old(state)),
    {
        match (self, reply) {
            (
                CommandStage::Download { command_id, chunk_id, expected_size_bytes, .. },
                CommandReply::Answered(outcome),
            ) => match outcome {
                Ok(status) => if status.is_success() {
                    let store = storage::store_chunk_to_disk(storage_path, chunk_id.as_str(), expected_size_bytes);
                    CommandStage::Store { command_id, store }
                } else {
                    answer(command_id, Err(Failure::DownloadStatus { status }))
                },
                Err(reason) => answer(command_id, Err(Failure::DownloadRequest { reason })),
            },
            (CommandStage::Store { command_id, store }, CommandReply::Store(r)) => {
                let store = store.resume(r, state);
                go_on_storing(command_id, store)
            },
            (CommandStage::Retrieve { command_id, retrieve, url }, CommandReply::Retrieve(r)) => {
                let retrieve = retrieve.resume(r);
                go_on_retrieving(command_id, retrieve, url)
            },
            (CommandStage::ReadPieces { command_id, url }, CommandReply::Pieces(result)) => match result {
                Ok(pieces) => {
                    let data = storage::concat_pieces(&pieces);
                    CommandStage::Upload { command_id, url, data }
                },
                Err(reason) => answer(command_id, Err(Failure::Read { reason })),
            },
            (CommandStage::Upload { command_id, .. }, CommandReply::Answered(outcome)) => match outcome {
                Ok(status) => if status.is_success() {
                    answer(command_id, Ok(()))
                } else {
                    answer(command_id, Err(Failure::UploadStatus { status }))
                },
                Err(reason) => answer(command_id, Err(Failure::UploadRequest { reason })),
            },
            (CommandStage::Delete { command_id, chunk_id, delete }, CommandReply::Delete(r)) => {
                let delete = delete.resume(r, state);
                go_on_deleting(command_id, chunk_id, delete)
            },
            (CommandStage::Respond(response), CommandReply::Sent(taken)) => if taken {
                CommandStage::Finished(Ok(()))
            } else {
                match response {
                    Response::CommandResult { .. } => CommandStage::Finished(Err(SendError::CommandResult)),
                    Response::StatusReport { .. } => CommandStage::Finished(Err(SendError::StatusReport)),
                }
            },
            (stage, _) => stage,
        }
    }
}

} // verus!
