use yourcloud_client::storage::StorageState;
use yourcloud_client::storage_client::commands::{
    handle_command, BackendCommand, CommandReply, CommandStage, HttpStatus, Response, SendError,
};
use yourcloud_client::disk::{IoFailure, IoKind};
use yourcloud_client::storage_client::storage::{DeleteReply, RetrieveReply, StoreReply};

fn state() -> StorageState {
    StorageState { current_used_space_bytes: 30, max_storage_bytes: 100, current_chunk_count: 4 }
}

fn begin(command: BackendCommand) -> CommandStage {
    handle_command(command, "/data", &state())
}

fn go_on(stage: CommandStage, reply: CommandReply) -> CommandStage {
    stage.resume(reply, "/data", &mut state())
}

fn store() -> CommandStage {
    begin(BackendCommand::StoreChunk {
        command_id: "c1".to_string(),
        chunk_id: "abcdef".to_string(),
        expected_size_bytes: 5,
        data_source_url: "http://from".to_string(),
    })
}

fn retrieve() -> CommandStage {
    begin(BackendCommand::RetrieveChunk {
        command_id: "c1".to_string(),
        chunk_id: "abcdef".to_string(),
        upload_destination_url: "http://to".to_string(),
    })
}

fn delete() -> CommandStage {
    begin(BackendCommand::DeleteChunk { command_id: "c1".to_string(), chunk_id: "abcdef".to_string() })
}

fn status(code: u16) -> HttpStatus {
    HttpStatus { code, shown: format!("{} Shown", code) }
}

fn outcome(stage: CommandStage) -> Result<(), String> {
    match stage {
        CommandStage::Respond(Response::CommandResult { command_id, result }) => {
            assert_eq!(command_id, "c1");
            result.map_err(|e| e.message())
        }
        _ => panic!("not answered"),
    }
}

#[test]
fn success_is_in_the_two_hundreds() {
    for code in [100, 199, 200, 204, 299, 300, 404, 500] {
        assert_eq!(status(code).is_success(), reqwest::StatusCode::from_u16(code).unwrap().is_success());
    }
}

#[test]
fn downloaded_chunk_is_stored() {
    let stage = store();
    match &stage {
        CommandStage::Download { url, .. } => assert_eq!(url, "http://from"),
        _ => panic!("not downloaded"),
    }
    let stage = go_on(stage, CommandReply::Answered(Ok(status(200))));
    match &stage {
        CommandStage::Store { store, .. } => {
            assert_eq!(store.chunk_path, "/data/ab/abcdef");
            assert_eq!(store.expected_size_bytes, 5);
        }
        _ => panic!("not stored"),
    }
    let mut counters = state();
    let mut stage = stage;
    for reply in [
        StoreReply::Exists(Some(false)),
        StoreReply::DirectoryExists(true),
        StoreReply::Done(true),
        StoreReply::Piece(Ok(Some(b"hello".to_vec()))),
        StoreReply::Done(true),
        StoreReply::Piece(Ok(None)),
        StoreReply::Done(true),
    ] {
        assert_eq!(counters, state());
        stage = stage.resume(CommandReply::Store(reply), "/data", &mut counters);
    }
    assert_eq!(outcome(stage), Ok(()));
    assert_eq!((counters.current_used_space_bytes, counters.current_chunk_count), (35, 5));
}

#[test]
fn failed_downloads_of_a_command_are_told() {
    assert_eq!(
        outcome(go_on(store(), CommandReply::Answered(Ok(status(404))))),
        Err("Download failed with status: 404 Shown".to_string())
    );
    assert_eq!(
        outcome(go_on(store(), CommandReply::Answered(Err("refused".to_string())))),
        Err("Download request failed: refused".to_string())
    );
    let stage = go_on(store(), CommandReply::Answered(Ok(status(200))));
    assert_eq!(
        outcome(go_on(stage, CommandReply::Store(StoreReply::Exists(Some(true))))),
        Err("Chunk abcdef already exists. Delete first to overwrite.".to_string())
    );
}

fn opened() -> CommandStage {
    let stage = go_on(retrieve(), CommandReply::Retrieve(RetrieveReply::Exists(Some(true))));
    go_on(stage, CommandReply::Retrieve(RetrieveReply::Opened(true)))
}

fn uploading() -> CommandStage {
    let stage = opened();
    assert!(matches!(&stage, CommandStage::ReadPieces { .. }));
    go_on(stage, CommandReply::Pieces(Ok(vec![b"he".to_vec(), b"llo".to_vec()])))
}

#[test]
fn retrieved_chunk_is_uploaded() {
    match retrieve() {
        CommandStage::Retrieve { retrieve, .. } => assert_eq!(retrieve.chunk_path, "/data/ab/abcdef"),
        _ => panic!("not retrieved"),
    }
    let stage = uploading();
    match &stage {
        CommandStage::Upload { url, data, .. } => {
            assert_eq!(url, "http://to");
            assert_eq!(data, b"hello");
        }
        _ => panic!("not uploaded"),
    }
    assert_eq!(outcome(go_on(stage, CommandReply::Answered(Ok(status(201))))), Ok(()));
}

#[test]
fn failed_uploads_are_told() {
    assert_eq!(
        outcome(go_on(retrieve(), CommandReply::Retrieve(RetrieveReply::Exists(None)))),
        Err("Chunk abcdef not found at \"/data/ab/abcdef\"".to_string())
    );
    assert_eq!(
        outcome(go_on(opened(), CommandReply::Pieces(Err("io".to_string())))),
        Err("Failed to read chunk: io".to_string())
    );
    assert_eq!(
        outcome(go_on(uploading(), CommandReply::Answered(Ok(status(500))))),
        Err("Upload failed with status: 500 Shown".to_string())
    );
    assert_eq!(
        outcome(go_on(uploading(), CommandReply::Answered(Err("refused".to_string())))),
        Err("Upload failed: refused".to_string())
    );
}

fn deleted() -> CommandStage {
    let stage = go_on(delete(), CommandReply::Delete(DeleteReply::Size(Ok(5))));
    go_on(stage, CommandReply::Delete(DeleteReply::Removed(true)))
}

#[test]
fn deleted_chunk_is_told() {
    match delete() {
        CommandStage::Delete { delete, .. } => assert_eq!(delete.chunk_path, "/data/ab/abcdef"),
        _ => panic!("not deleted"),
    }
    assert_eq!(outcome(deleted()), Ok(()));
    let failure = |kind: IoKind| IoFailure { kind, text: "denied".to_string() };
    assert_eq!(
        outcome(go_on(delete(), CommandReply::Delete(DeleteReply::Size(Err(failure(IoKind::NotFound)))))),
        Err("Chunk abcdef not found".to_string())
    );
    assert_eq!(
        outcome(go_on(delete(), CommandReply::Delete(DeleteReply::Size(Err(failure(IoKind::Other)))))),
        Err("Error deleting chunk abcdef: denied".to_string())
    );
}

#[test]
fn status_query_is_answered() {
    match begin(BackendCommand::QueryStatus { command_id: "q".to_string() }) {
        CommandStage::Respond(Response::StatusReport { command_id, status }) => {
            assert_eq!(command_id, "q");
            assert_eq!(status.free_space_bytes, 70);
        }
        _ => panic!("not answered"),
    }
}

#[test]
fn unknown_command_of_this_node_is_ignored() {
    assert!(matches!(begin(BackendCommand::Unknown), CommandStage::Finished(Ok(()))));
}

#[test]
fn untaken_answers_are_told_apart() {
    match go_on(deleted(), CommandReply::Sent(false)) {
        CommandStage::Finished(Err(e)) => {
            assert_eq!(e, SendError::CommandResult);
            assert_eq!(e.message(), "Failed to send command result");
        }
        _ => panic!("taken"),
    }
    let report = begin(BackendCommand::QueryStatus { command_id: "q".to_string() });
    match go_on(report, CommandReply::Sent(false)) {
        CommandStage::Finished(Err(e)) => assert_eq!(e.message(), "Failed to send status report"),
        _ => panic!("taken"),
    }
    let report = begin(BackendCommand::QueryStatus { command_id: "q".to_string() });
    assert!(matches!(go_on(report, CommandReply::Sent(true)), CommandStage::Finished(Ok(()))));
}
