use yourcloud_client::commands::{
    handle_command, BackendCommand, CommandError, CommandReply, CommandStage, NodeStatus, Refusal, Response,
};
use yourcloud_client::disk::{IoFailure, IoKind};
use yourcloud_client::storage::{
    DeleteReply, RetrieveReply, StorageState, StoreReply, StoreStage,
};

const ID: &str = "67e55044-10b1-426f-9247-bb680e5fe0c8";

fn state() -> StorageState {
    StorageState { current_used_space_bytes: 7, max_storage_bytes: 100, current_chunk_count: 2 }
}

fn begin(command: BackendCommand) -> CommandStage {
    handle_command(command, "/data", &state())
}

fn go_on(stage: CommandStage, reply: CommandReply) -> CommandStage {
    stage.resume(reply, "/data", &mut state())
}

fn failure(kind: IoKind) -> IoFailure {
    IoFailure { kind, text: "denied".to_string() }
}

fn get(chunk_id: &str) -> BackendCommand {
    BackendCommand::GetChunk { command_id: "c1".to_string(), chunk_id: chunk_id.to_string() }
}

fn delete(chunk_id: &str) -> BackendCommand {
    BackendCommand::DeleteChunk { command_id: "c1".to_string(), chunk_id: chunk_id.to_string() }
}

fn store(chunk_id: &str, data_size: u64, binary_data: Option<Vec<u8>>) -> BackendCommand {
    BackendCommand::StoreChunk {
        command_id: "c1".to_string(),
        data_size,
        binary_data,
        chunk_id: chunk_id.to_string(),
    }
}

fn refusal(stage: CommandStage) -> String {
    match stage {
        CommandStage::Respond(Response::CommandResult { command_id, result: Err(e), storage_delta, .. }) => {
            assert_eq!(command_id, "c1");
            assert_eq!(storage_delta, None);
            e.message()
        }
        _ => panic!("not refused"),
    }
}

fn delta(stage: CommandStage) -> Option<i64> {
    match stage {
        CommandStage::Respond(Response::CommandResult { command_id, chunk_id, result: Ok(()), storage_delta }) => {
            assert_eq!(command_id, "c1");
            assert_eq!(chunk_id, ID);
            storage_delta
        }
        _ => panic!("not successful"),
    }
}

#[test]
fn every_written_form_of_a_uuid_is_accepted() {
    for id in [
        ID,
        "67E55044-10B1-426F-9247-BB680E5FE0C8",
        "67e5504410b1426f9247bb680e5fe0c8",
        "{67e55044-10b1-426f-9247-bb680e5fe0c8}",
        "urn:uuid:67e55044-10b1-426f-9247-bb680e5fe0c8",
    ] {
        assert!(uuid::Uuid::parse_str(id).is_ok());
        assert!(matches!(begin(get(id)), CommandStage::Retrieve { .. }), "{}", id);
        assert!(matches!(begin(delete(id)), CommandStage::Delete { .. }), "{}", id);
        assert!(matches!(begin(store(id, 0, None)), CommandStage::CheckExists { .. }), "{}", id);
    }
}

#[test]
fn what_is_not_a_uuid_reaches_no_file() {
    for id in [
        "",
        "chunk",
        "../../etc/passwd",
        "67e55044-10b1-426f-9247-bb680e5fe0c",
        "67e55044-10b1-426f-9247-bb680e5fe0cg",
        "67e55044x10b1-426f-9247-bb680e5fe0c8",
        "{67e55044-10b1-426f-9247-bb680e5fe0c8",
        "67e5504410b1426f9247bb680e5fe0c8 ",
        "urn:uuid:67e5504410b1426f9247bb680e5fe0c8",
    ] {
        assert!(uuid::Uuid::parse_str(id).is_err());
        for stage in [begin(get(id)), begin(delete(id)), begin(store(id, 0, None))] {
            assert_eq!(refusal(stage), "Invalid chunk_id: not a valid UUID");
        }
    }
}

#[test]
fn files_of_a_command_lie_in_the_storage_directory() {
    let file = format!("/data/{}", ID);
    match begin(store(ID, 0, None)) {
        CommandStage::CheckExists { chunk_path, .. } => assert_eq!(chunk_path, file),
        _ => panic!("not checked"),
    }
    match begin(get(ID)) {
        CommandStage::Retrieve { retrieve, .. } => assert_eq!(retrieve.chunk_path, file),
        _ => panic!("not read"),
    }
    match begin(delete(ID)) {
        CommandStage::Delete { delete, .. } => assert_eq!(delete.chunk_path, file),
        _ => panic!("not deleted"),
    }
}

#[test]
fn store_goes_through_all_its_stages() {
    let mut counters = state();
    let stage = begin(store(ID, 3, Some(vec![1, 2, 3])));
    let stage = stage.resume(CommandReply::Exists(Ok(false)), "/data", &mut counters);
    match &stage {
        CommandStage::Store { store, .. } => {
            assert_eq!(store.data, vec![1, 2, 3]);
            assert_eq!(store.chunk_id, ID);
            assert!(matches!(store.stage, StoreStage::MeasureDisk));
        }
        _ => panic!("not stored"),
    }
    let mut stage = stage;
    for reply in [
        StoreReply::Space(Ok(1000)),
        StoreReply::Done(Err(failure(IoKind::NotFound))),
        StoreReply::Done(Ok(())),
        StoreReply::Done(Ok(())),
    ] {
        assert_eq!(counters, state());
        stage = stage.resume(CommandReply::Store(reply), "/data", &mut counters);
    }
    assert_eq!(counters.current_used_space_bytes, 10);
    assert_eq!(counters.current_chunk_count, 3);
    assert!(matches!(&stage, CommandStage::Respond(_)));
    let done = go_on(stage, CommandReply::Sent(Ok(())));
    assert!(matches!(done, CommandStage::Finished(Ok(()))));
}

#[test]
fn stored_chunk_is_not_overwritten() {
    let stage = go_on(begin(store(ID, 1, Some(vec![1]))), CommandReply::Exists(Ok(true)));
    assert_eq!(refusal(stage), format!("Chunk ID collision: {} already exists", ID));
}

#[test]
fn announced_size_must_match() {
    let stage = go_on(begin(store(ID, 4, Some(vec![1, 2, 3]))), CommandReply::Exists(Ok(false)));
    assert_eq!(refusal(stage), "Binary data size mismatch: expected 4, got 3");
}

#[test]
fn store_needs_data() {
    let stage = go_on(begin(store(ID, 0, None)), CommandReply::Exists(Ok(false)));
    assert_eq!(refusal(stage), "No binary data provided for STORE_CHUNK command");
}

#[test]
fn unknown_existence_ends_without_an_answer() {
    match go_on(begin(store(ID, 0, None)), CommandReply::Exists(Err(failure(IoKind::Other)))) {
        CommandStage::Finished(Err(CommandError::Exists(e))) => {
            assert_eq!(e.message(), format!("Error checking existence of chunk {}: denied", ID));
        }
        _ => panic!("not ended"),
    }
}

#[test]
fn failed_operations_are_told() {
    let stage = go_on(begin(store(ID, 0, Some(Vec::new()))), CommandReply::Exists(Ok(false)));
    let stage = go_on(stage, CommandReply::Store(StoreReply::Space(Ok(0))));
    let stage = go_on(stage, CommandReply::Store(StoreReply::Done(Ok(()))));
    let stage = go_on(stage, CommandReply::Store(StoreReply::Done(Err(failure(IoKind::Other)))));
    let stage = go_on(stage, CommandReply::Store(StoreReply::Done(Ok(()))));
    assert_eq!(refusal(stage), format!("Failed to write chunk {} to disk: denied", ID));
    let stage = go_on(begin(get(ID)), CommandReply::Retrieve(RetrieveReply::Exists(Ok(false))));
    assert_eq!(refusal(stage), format!("Chunk {} not found", ID));
    let stage = go_on(begin(delete(ID)), CommandReply::Delete(DeleteReply::Size(Ok(1))));
    let stage = go_on(stage, CommandReply::Delete(DeleteReply::Done(Err(failure(IoKind::Other)))));
    assert_eq!(refusal(stage), format!("Failed to delete chunk file: \"/data/{}\"", ID));
    assert_eq!(Refusal::NoData.message(), "No binary data provided for STORE_CHUNK command");
}

#[test]
fn chunk_over_the_limit_is_refused_at_once() {
    let stage = go_on(begin(store(ID, 94, Some(vec![0; 94]))), CommandReply::Exists(Ok(false)));
    assert_eq!(
        refusal(stage),
        "Insufficient configured storage space. Required: 94, Available within limit: 93. Current used: 7/100"
    );
}

#[test]
fn chunk_data_is_sent_as_it_was_read() {
    let stage = go_on(begin(get(ID)), CommandReply::Retrieve(RetrieveReply::Exists(Ok(true))));
    match go_on(stage, CommandReply::Retrieve(RetrieveReply::Data(Ok(vec![9, 8, 7])))) {
        CommandStage::Respond(Response::ChunkData { command_id, data }) => {
            assert_eq!(command_id, "c1");
            assert_eq!(data, vec![9, 8, 7]);
        }
        _ => panic!("not answered"),
    }
}

#[test]
fn reported_changes_cancel() {
    let stage = go_on(begin(store(ID, 12, Some(vec![0; 12]))), CommandReply::Exists(Ok(false)));
    let stage = go_on(stage, CommandReply::Store(StoreReply::Space(Ok(12))));
    let stage = go_on(stage, CommandReply::Store(StoreReply::Done(Ok(()))));
    let stage = go_on(stage, CommandReply::Store(StoreReply::Done(Ok(()))));
    let up = delta(go_on(stage, CommandReply::Store(StoreReply::Done(Ok(())))));
    let stage = go_on(begin(delete(ID)), CommandReply::Delete(DeleteReply::Size(Ok(12))));
    let down = delta(go_on(stage, CommandReply::Delete(DeleteReply::Done(Ok(())))));
    assert_eq!(up, Some(12));
    assert_eq!(down, Some(-12));
    let missing = CommandReply::Delete(DeleteReply::Size(Err(failure(IoKind::NotFound))));
    assert_eq!(delta(go_on(begin(delete(ID)), missing)), None);
}

fn run(command: BackendCommand, state: &mut StorageState, replies: Vec<CommandReply>) -> CommandStage {
    let mut stage = handle_command(command, "/data", state);
    for reply in replies {
        stage = stage.resume(reply, "/data", state);
    }
    stage
}

#[test]
fn told_change_is_the_change_of_the_counters() {
    let mut counters = state();
    let stored = run(
        store(ID, 12, Some(vec![0; 12])),
        &mut counters,
        vec![
            CommandReply::Exists(Ok(false)),
            CommandReply::Store(StoreReply::Space(Ok(12))),
            CommandReply::Store(StoreReply::Done(Err(failure(IoKind::NotFound)))),
            CommandReply::Store(StoreReply::Done(Ok(()))),
            CommandReply::Store(StoreReply::Done(Ok(()))),
        ],
    );
    assert_eq!(delta(stored), Some(12));
    assert_eq!(
        counters,
        StorageState { current_used_space_bytes: 19, max_storage_bytes: 100, current_chunk_count: 3 }
    );
    let deleted = run(
        delete(ID),
        &mut counters,
        vec![
            CommandReply::Delete(DeleteReply::Size(Ok(19))),
            CommandReply::Delete(DeleteReply::Done(Ok(()))),
        ],
    );
    assert_eq!(delta(deleted), Some(-19));
    assert_eq!(
        counters,
        StorageState { current_used_space_bytes: 0, max_storage_bytes: 100, current_chunk_count: 2 }
    );
}

#[test]
fn error_leaves_the_counters_alone() {
    let mut counters = state();
    let kept = run(
        delete(ID),
        &mut counters,
        vec![
            CommandReply::Delete(DeleteReply::Size(Ok(3))),
            CommandReply::Delete(DeleteReply::Done(Err(failure(IoKind::Other)))),
        ],
    );
    refusal(kept);
    assert_eq!(counters, state());
    let full = run(store(ID, 94, Some(vec![0; 94])), &mut counters, vec![CommandReply::Exists(Ok(false))]);
    refusal(full);
    assert_eq!(counters, state());
}

#[test]
fn status_is_answered_at_once() {
    match begin(BackendCommand::StatusRequest { command_id: "s".to_string() }) {
        CommandStage::Respond(Response::StatusReport { command_id, status }) => {
            assert_eq!(command_id, "s");
            assert_eq!(
                status,
                NodeStatus { used_space_bytes: 7, max_space_bytes: 100, current_chunk_count: 2 }
            );
        }
        _ => panic!("not answered"),
    }
}

#[test]
fn unknown_command_is_ignored() {
    assert!(matches!(begin(BackendCommand::Unknown), CommandStage::Finished(Ok(()))));
}

#[test]
fn untaken_answer_is_an_error() {
    let stage = begin(BackendCommand::StatusRequest { command_id: "s".to_string() });
    match go_on(stage, CommandReply::Sent(Err("closed".to_string()))) {
        CommandStage::Finished(Err(CommandError::Send { reason })) => assert_eq!(reason, "closed"),
        _ => panic!("not ended"),
    }
}
