use std::collections::HashMap;
use yourcloud_client::disk::{DiskSpaceError, IoFailure, IoKind};
use yourcloud_client::gib::Gib;
use yourcloud_client::storage::{
    check_chunk_exists, chunk_file_path, delete_chunk_from_disk, initialize_storage_state, prepare_storage_directory,
    retrieve_chunk_data_from_disk, store_chunk_data_to_disk, DeleteError, DeleteReply, DeleteStage, DirectoryEntry,
    DirectoryStep, RetrieveError, RetrieveReply, RetrieveStage, StorageState, StoreError, StoreReply, StoreRun,
    StoreStage,
};

type Disk = HashMap<String, Vec<u8>>;

fn empty(max: u64) -> StorageState {
    StorageState { current_used_space_bytes: 0, max_storage_bytes: max, current_chunk_count: 0 }
}

fn failure(kind: IoKind, text: &str) -> IoFailure {
    IoFailure { kind, text: text.to_string() }
}

fn perform(mut run: StoreRun, disk: &mut Disk, state: &mut StorageState, free: u64) -> Result<u64, StoreError> {
    loop {
        let reply = match &run.stage {
            StoreStage::MeasureDisk => StoreReply::Space(Ok(free)),
            StoreStage::RemoveStaleTemp => match disk.remove(&run.temp_path) {
                Some(_) => StoreReply::Done(Ok(())),
                None => StoreReply::Done(Err(failure(IoKind::NotFound, "no such file"))),
            },
            StoreStage::WriteTemp => {
                disk.insert(run.temp_path.clone(), run.data.clone());
                StoreReply::Done(Ok(()))
            }
            StoreStage::RenameTemp => {
                let data = disk.remove(&run.temp_path).unwrap();
                disk.insert(run.chunk_path.clone(), data);
                StoreReply::Done(Ok(()))
            }
            StoreStage::DiscardTemp { .. } => {
                disk.remove(&run.temp_path);
                StoreReply::Done(Ok(()))
            }
            StoreStage::Finished(_) => unreachable!(),
        };
        run = run.resume(reply, state);
        if let StoreStage::Finished(result) = run.stage {
            return result;
        }
    }
}

fn store(id: &str, data: &[u8], disk: &mut Disk, state: &mut StorageState) -> Result<u64, StoreError> {
    let run = store_chunk_data_to_disk("/data", id, data.to_vec(), state);
    match run.stage {
        StoreStage::Finished(result) => result,
        _ => perform(run, disk, state, 1 << 40),
    }
}

fn retrieve(id: &str, disk: &Disk) -> Result<Vec<u8>, RetrieveError> {
    let run = retrieve_chunk_data_from_disk("/data", id);
    assert!(matches!(run.stage, RetrieveStage::CheckExists));
    let found = disk.contains_key(&run.chunk_path);
    let run = run.resume(RetrieveReply::Exists(Ok(found)));
    let run = match run.stage {
        RetrieveStage::ReadFile => {
            let data = disk[&run.chunk_path].clone();
            run.resume(RetrieveReply::Data(Ok(data)))
        }
        _ => run,
    };
    match run.stage {
        RetrieveStage::Finished(result) => result,
        _ => unreachable!(),
    }
}

fn delete(id: &str, disk: &mut Disk, state: &mut StorageState) -> Result<Option<u64>, DeleteError> {
    let run = delete_chunk_from_disk("/data", id);
    let size = match disk.get(&run.chunk_path) {
        Some(data) => Ok(data.len() as u64),
        None => Err(failure(IoKind::NotFound, "no such file")),
    };
    let run = run.resume(DeleteReply::Size(size), state);
    let run = match run.stage {
        DeleteStage::RemoveFile { .. } => {
            disk.remove(&run.chunk_path);
            run.resume(DeleteReply::Done(Ok(())), state)
        }
        _ => run,
    };
    match run.stage {
        DeleteStage::Finished(result) => result,
        _ => unreachable!(),
    }
}

#[test]
fn stored_chunk_reads_back_and_is_counted() {
    let mut disk = Disk::new();
    let mut state = empty(1000);
    assert_eq!(store("chunk", b"hello", &mut disk, &mut state).unwrap(), 5);
    assert_eq!(disk.len(), 1);
    assert_eq!(disk["/data/chunk"], b"hello");
    assert_eq!(
        state,
        StorageState { current_used_space_bytes: 5, max_storage_bytes: 1000, current_chunk_count: 1 }
    );
    assert_eq!(retrieve("chunk", &disk).unwrap(), b"hello");
}

#[test]
fn empty_chunk_is_stored() {
    let mut disk = Disk::new();
    let mut state = empty(0);
    assert_eq!(store("chunk", b"", &mut disk, &mut state).unwrap(), 0);
    assert_eq!(state.current_chunk_count, 1);
}

#[test]
fn delete_undoes_store_on_a_disk() {
    let mut disk = Disk::new();
    let mut state = empty(1000);
    store("a", b"first", &mut disk, &mut state).unwrap();
    let before = (disk.clone(), state);
    store("b", b"second", &mut disk, &mut state).unwrap();
    assert_eq!(delete("b", &mut disk, &mut state).unwrap(), Some(6));
    assert_eq!((disk, state), before);
}

#[test]
fn deleting_what_is_not_there_is_no_error() {
    let mut disk = Disk::new();
    let mut state = empty(1000);
    assert_eq!(delete("a", &mut disk, &mut state).unwrap(), None);
    assert_eq!(state, empty(1000));
}

#[test]
fn limit_is_kept_by_every_store() {
    let mut disk = Disk::new();
    let mut state = empty(10);
    assert!(store("a", b"123456", &mut disk, &mut state).is_ok());
    let e = store("b", b"12345", &mut disk, &mut state).unwrap_err();
    assert_eq!(
        e.message(),
        "Insufficient configured storage space. Required: 5, Available within limit: 4. Current used: 6/10"
    );
    assert!(matches!(e, StoreError::LimitReached { size: 5, used: 6, max: 10 }));
    assert!(store("c", b"1234", &mut disk, &mut state).is_ok());
    assert_eq!(state.current_used_space_bytes, 10);
    assert_eq!(disk.len(), 2);
}

#[test]
fn identifiers_are_checked_before_anything_else() {
    let state = empty(0);
    let refused = |id: &str| match store_chunk_data_to_disk("/data", id, vec![0; 3], &state).stage {
        StoreStage::Finished(Err(e)) => e.message(),
        _ => panic!("not refused"),
    };
    let long = "x".repeat(256);
    assert_eq!(refused(""), "Invalid chunk_id: empty or too long");
    assert_eq!(refused(&long), "Invalid chunk_id: empty or too long");
    assert_eq!(refused(&"é".repeat(128)), "Invalid chunk_id: empty or too long");
    for id in ["..", "a/b", "a\\b", "x..y", "/etc/passwd"] {
        assert_eq!(refused(id), "Invalid chunk_id: contains path traversal characters");
    }
    let longest = "x".repeat(255);
    let run = store_chunk_data_to_disk("/data", &longest, Vec::new(), &state);
    assert!(matches!(run.stage, StoreStage::MeasureDisk));
}

#[test]
fn chunk_on_a_full_disk_is_refused() {
    let mut state = empty(1000);
    let run = store_chunk_data_to_disk("/data", "a", vec![1; 10], &state);
    let run = run.resume(StoreReply::Space(Ok(9)), &mut state);
    match run.stage {
        StoreStage::Finished(Err(e)) => {
            assert_eq!(e.message(), "Insufficient disk space. Required: 10, Available: 9");
        }
        _ => panic!("not refused"),
    }
    let run = store_chunk_data_to_disk("/data", "a", vec![1; 10], &state);
    let run = run.resume(StoreReply::Space(Ok(10)), &mut state);
    assert!(matches!(run.stage, StoreStage::RemoveStaleTemp));
}

#[test]
fn unknown_disk_stops_the_store() {
    let mut state = empty(1000);
    let run = store_chunk_data_to_disk("/data", "a", vec![1; 10], &state);
    let error = DiskSpaceError::NoDisk { storage_path: "/data".to_string() };
    let run = run.resume(StoreReply::Space(Err(error)), &mut state);
    match run.stage {
        StoreStage::Finished(Err(StoreError::DiskUnknown { error })) => {
            assert!(matches!(error, DiskSpaceError::NoDisk { .. }));
        }
        _ => panic!("not stopped"),
    }
}

fn run_at_write(state: &mut StorageState) -> StoreRun {
    let run = store_chunk_data_to_disk("/data", "a", vec![1, 2], state);
    assert_eq!(run.temp_path, "/data/.tmp_a");
    let run = run.resume(StoreReply::Space(Ok(100)), state);
    let run = run.resume(StoreReply::Done(Ok(())), state);
    assert!(matches!(run.stage, StoreStage::WriteTemp));
    run
}

#[test]
fn failed_write_discards_the_temporary_file() {
    let mut state = empty(1000);
    let run = run_at_write(&mut state);
    let run = run.resume(StoreReply::Done(Err(failure(IoKind::Other, "disk on fire"))), &mut state);
    assert!(matches!(run.stage, StoreStage::DiscardTemp { .. }));
    let run = run.resume(StoreReply::Done(Ok(())), &mut state);
    match run.stage {
        StoreStage::Finished(Err(e)) => {
            assert_eq!(e.message(), "Failed to write chunk a to disk: disk on fire");
        }
        _ => panic!("not failed"),
    }
    assert_eq!(state, empty(1000));
}

#[test]
fn failed_rename_discards_the_temporary_file() {
    for (kind, message) in [
        (IoKind::AlreadyExists, "Chunk a already exists"),
        (IoKind::Other, "Failed to finalize chunk write: no"),
        (IoKind::NotFound, "Failed to finalize chunk write: no"),
    ] {
        let mut state = empty(1000);
        let run = run_at_write(&mut state);
        let run = run.resume(StoreReply::Done(Ok(())), &mut state);
        assert!(matches!(run.stage, StoreStage::RenameTemp));
        let run = run.resume(StoreReply::Done(Err(failure(kind, "no"))), &mut state);
        let run = run.resume(StoreReply::Done(Err(failure(IoKind::Other, "again"))), &mut state);
        match run.stage {
            StoreStage::Finished(Err(e)) => assert_eq!(e.message(), message),
            _ => panic!("not failed"),
        }
        assert_eq!(state, empty(1000));
    }
}

#[test]
fn too_large_chunk_is_described() {
    assert_eq!(StoreError::TooLarge { size: 1_073_741_825 }.message(), "Chunk too large: 1073741825 bytes");
}

#[test]
fn missing_chunk_is_not_found() {
    let disk = Disk::new();
    let e = retrieve("a", &disk).unwrap_err();
    assert!(matches!(e, RetrieveError::NotFound { .. }));
    assert_eq!(e.message(), "Chunk a not found");
    let run = retrieve_chunk_data_from_disk("/data", "a");
    let run = run.resume(RetrieveReply::Exists(Err(failure(IoKind::Other, "denied"))));
    assert!(matches!(run.stage, RetrieveStage::Finished(Err(RetrieveError::NotFound { .. }))));
}

#[test]
fn unreadable_chunk_is_reported() {
    let run = retrieve_chunk_data_from_disk("/data", "a");
    let run = run.resume(RetrieveReply::Exists(Ok(true)));
    let run = run.resume(RetrieveReply::Data(Err(failure(IoKind::Other, "denied"))));
    match run.stage {
        RetrieveStage::Finished(Err(e)) => assert_eq!(e.message(), "Failed to read chunk a from disk"),
        _ => panic!("not failed"),
    }
}

#[test]
fn failed_deletes_are_reported() {
    let mut state = empty(1000);
    let run = delete_chunk_from_disk("/data", "a");
    let run = run.resume(DeleteReply::Size(Err(failure(IoKind::Other, "denied"))), &mut state);
    match run.stage {
        DeleteStage::Finished(Err(e)) => {
            assert_eq!(e.message(), "Error getting metadata for chunk a to delete: denied");
        }
        _ => panic!("not failed"),
    }
    let run = delete_chunk_from_disk("/data", "a");
    let run = run.resume(DeleteReply::Size(Ok(3)), &mut state);
    let run = run.resume(DeleteReply::Done(Err(failure(IoKind::Other, "denied"))), &mut state);
    match run.stage {
        DeleteStage::Finished(Err(e)) => assert_eq!(e.message(), "Failed to delete chunk file: \"/data/a\""),
        _ => panic!("not failed"),
    }
    assert_eq!(state, empty(1000));
}

#[test]
fn existence_is_told_or_not() {
    assert!(check_chunk_exists("a", Ok(true)).unwrap());
    assert!(!check_chunk_exists("a", Ok(false)).unwrap());
    let e = check_chunk_exists("a", Err(failure(IoKind::Other, "denied"))).unwrap_err();
    assert_eq!(e.message(), "Error checking existence of chunk a: denied");
}

#[test]
fn scan_counts_the_files() {
    let entries = vec![
        DirectoryEntry { is_file: true, size: Some(10) },
        DirectoryEntry { is_file: false, size: Some(4096) },
        DirectoryEntry { is_file: true, size: None },
        DirectoryEntry { is_file: true, size: Some(5) },
    ];
    let state = initialize_storage_state(Gib { bits: 2.5f64.to_bits() }, &entries);
    assert_eq!(
        state,
        StorageState { current_used_space_bytes: 15, max_storage_bytes: 2_684_354_560, current_chunk_count: 2 }
    );
    assert_eq!(initialize_storage_state(Gib { bits: 0 }, &Vec::new()), empty(0));
}

#[test]
fn missing_directory_is_created_before_the_scan() {
    assert_eq!(prepare_storage_directory(false), DirectoryStep::Create);
    assert_eq!(prepare_storage_directory(true), DirectoryStep::Scan);
}

#[test]
fn counters_match_a_scan_after_stores_and_deletes() {
    let mut disk = Disk::new();
    let mut state = empty(1000);
    for (id, data) in [("a", "1"), ("b", "22"), ("c", "333")] {
        store(id, data.as_bytes(), &mut disk, &mut state).unwrap();
    }
    delete("b", &mut disk, &mut state).unwrap();
    let entries: Vec<DirectoryEntry> =
        disk.values().map(|d| DirectoryEntry { is_file: true, size: Some(d.len() as u64) }).collect();
    let scanned = initialize_storage_state(Gib { bits: 0 }, &entries);
    assert_eq!(scanned.current_used_space_bytes, state.current_used_space_bytes);
    assert_eq!(scanned.current_chunk_count, state.current_chunk_count);
}

#[test]
fn counters_wrap_and_come_back() {
    let start = StorageState { current_used_space_bytes: 3, max_storage_bytes: 9, current_chunk_count: 0 };
    let mut state = start;
    state.remove_chunk(5);
    assert_eq!(state.current_used_space_bytes, u64::MAX - 1);
    assert_eq!(state.current_chunk_count, u64::MAX);
    state.add_chunk(5);
    assert_eq!(state, start);
}

#[test]
fn stale_temporary_file_is_replaced() {
    let mut disk = Disk::new();
    disk.insert("/data/.tmp_a".to_string(), b"left over".to_vec());
    let mut state = empty(1000);
    assert_eq!(store("a", b"new", &mut disk, &mut state).unwrap(), 3);
    assert_eq!(disk.len(), 1);
    assert_eq!(disk[&chunk_file_path("/data", "a")], b"new");
}
