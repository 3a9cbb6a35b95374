use std::collections::HashMap;
use std::path::Path;
use yourcloud_client::disk::{IoFailure, IoKind};
use yourcloud_client::path::components_of;
use yourcloud_client::storage::{DirectoryEntry, StorageState};
use yourcloud_client::storage_client::storage::{
    concat_pieces, delete_chunk_from_disk, get_chunk_path, get_current_node_status, initialize_storage_state,
    retrieve_chunk_from_disk, store_chunk_to_disk, DeleteReply, DeleteStage, NodeStatus, RetrieveReply, RetrieveStage,
    ScanError, StoreError, StoreReply, StoreRun, StoreStage, TopEntry,
};

fn state(used: u64, max: u64) -> StorageState {
    StorageState { current_used_space_bytes: used, max_storage_bytes: max, current_chunk_count: 0 }
}

fn perform(
    mut run: StoreRun,
    disk: &mut HashMap<String, Vec<u8>>,
    state: &mut StorageState,
    pieces: &[&[u8]],
) -> Result<u64, StoreError> {
    let mut pieces = pieces.iter();
    loop {
        let reply = match &run.stage {
            StoreStage::CheckExists => StoreReply::Exists(Some(disk.contains_key(&run.chunk_path))),
            StoreStage::CheckDirectory { .. } => StoreReply::DirectoryExists(false),
            StoreStage::CreateDirectory { directory } => {
                assert_eq!(Path::new(&run.chunk_path).parent().unwrap(), Path::new(directory));
                StoreReply::Done(true)
            }
            StoreStage::CreateFile => {
                disk.insert(run.chunk_path.clone(), Vec::new());
                StoreReply::Done(true)
            }
            StoreStage::NextPiece => StoreReply::Piece(Ok(pieces.next().map(|p| p.to_vec()))),
            StoreStage::WritePiece { piece } => {
                disk.get_mut(&run.chunk_path).unwrap().extend_from_slice(piece);
                StoreReply::Done(true)
            }
            StoreStage::Sync => StoreReply::Done(true),
            StoreStage::RemoveMismatched => {
                disk.remove(&run.chunk_path);
                StoreReply::Done(true)
            }
            StoreStage::Finished(_) => unreachable!(),
        };
        run = run.resume(reply, state);
        if let StoreStage::Finished(result) = run.stage {
            return result;
        }
    }
}

#[test]
fn status_report_adds_up() {
    let s = StorageState { current_used_space_bytes: 30, max_storage_bytes: 100, current_chunk_count: 4 };
    assert_eq!(
        get_current_node_status(&s),
        NodeStatus { used_space_bytes: 30, max_space_bytes: 100, free_space_bytes: 70, chunk_count: 4 }
    );
    assert_eq!(get_current_node_status(&state(101, 100)).free_space_bytes, 0);
}

#[test]
fn chunks_lie_in_subdirectories() {
    for id in ["", "a", "ab", "abcdef", "é", "éx", "0a-ff", "/x", "..", "../x"] {
        let expected = if id.len() < 2 {
            Path::new("/data").join(id)
        } else {
            Path::new("/data").join(&id[..2]).join(id)
        };
        assert_eq!(get_chunk_path("/data", id), expected.to_str().unwrap(), "{:?}", id);
    }
    assert_eq!(get_chunk_path("/data", "abcdef"), "/data/ab/abcdef");
}

#[test]
fn only_files_in_subdirectories_count() {
    let file = |size: u64| DirectoryEntry { is_file: true, size: Some(size) };
    let tops = vec![
        TopEntry { is_dir: false, entries: vec![file(1000)] },
        TopEntry {
            is_dir: true,
            entries: vec![
                file(1),
                DirectoryEntry { is_file: true, size: None },
                DirectoryEntry { is_file: false, size: Some(7) },
            ],
        },
        TopEntry { is_dir: true, entries: vec![file(2), file(3)] },
    ];
    let s = initialize_storage_state(3, &tops);
    assert_eq!(
        s,
        StorageState { current_used_space_bytes: 6, max_storage_bytes: 3 << 30, current_chunk_count: 3 }
    );
}

#[test]
fn failed_scans_are_described() {
    assert_eq!(
        ScanError::Create { storage_path: "/d".to_string() }.message(),
        "Failed to create base storage directory: \"/d\""
    );
    assert_eq!(
        ScanError::Read { storage_path: "/d".to_string() }.message(),
        "Failed to read base storage directory: \"/d\""
    );
    assert_eq!(
        ScanError::ReadSubdirectory { directory: "/d/ab".to_string() }.message(),
        "Failed to read subdirectory: \"/d/ab\""
    );
}

#[test]
fn streamed_chunk_is_stored_whole() {
    let mut disk = HashMap::new();
    let mut s = state(0, 100);
    let run = store_chunk_to_disk("/data", "abcdef", 5);
    assert_eq!(perform(run, &mut disk, &mut s, &[b"he", b"", b"llo"]).unwrap(), 5);
    assert_eq!(disk["/data/ab/abcdef"], b"hello");
    assert_eq!(s, StorageState { current_used_space_bytes: 5, max_storage_bytes: 100, current_chunk_count: 1 });
}

#[test]
fn mismatched_chunk_is_removed() {
    let mut disk = HashMap::new();
    let mut s = state(0, 100);
    let run = store_chunk_to_disk("/data", "abcdef", 6);
    let e = perform(run, &mut disk, &mut s, &[b"hello"]).unwrap_err();
    assert_eq!(e.message(), "Size mismatch for chunk abcdef: Expected 6, wrote 5. Chunk deleted.");
    assert!(disk.is_empty());
    assert_eq!(s, state(0, 100));
}

#[test]
fn existing_chunk_is_kept() {
    let mut disk = HashMap::new();
    disk.insert("/data/ab/abcdef".to_string(), b"old".to_vec());
    let mut s = state(3, 100);
    let run = store_chunk_to_disk("/data", "abcdef", 3);
    let e = perform(run, &mut disk, &mut s, &[b"new"]).unwrap_err();
    assert_eq!(e.message(), "Chunk abcdef already exists. Delete first to overwrite.");
    assert_eq!(disk["/data/ab/abcdef"], b"old");
    assert_eq!(s, state(3, 100));
}

#[test]
fn limit_of_this_node_is_kept() {
    let mut disk = HashMap::new();
    let mut s = state(98, 100);
    let e = perform(store_chunk_to_disk("/data", "abcdef", 3), &mut disk, &mut s, &[b"new"]).unwrap_err();
    assert_eq!(
        e.message(),
        "Insufficient storage space. Required: 3, Available: 2. Current usage: 98/100"
    );
    assert!(disk.is_empty());
    let stored = perform(store_chunk_to_disk("/data", "abcdef", 2), &mut disk, &mut s, &[b"ne"]);
    assert_eq!(stored.unwrap(), 2);
    assert_eq!(s.current_used_space_bytes, 100);
}

#[test]
fn chunk_without_a_directory_is_refused() {
    let mut s = state(0, 100);
    let run = store_chunk_to_disk("/data", "/", 0);
    assert_eq!(run.directory, None);
    let run = run.resume(StoreReply::Exists(None), &mut s);
    match run.stage {
        StoreStage::Finished(Err(e)) => {
            assert_eq!(e.message(), "Invalid chunk path, cannot determine parent directory: \"/\"");
        }
        _ => panic!("not refused"),
    }
    assert_eq!(store_chunk_to_disk("/data", "abcdef", 0).directory.as_deref(), Some("/data/ab"));
}

fn failed(run: StoreRun) -> String {
    match run.stage {
        StoreStage::Finished(Err(e)) => e.message(),
        _ => panic!("not failed"),
    }
}

#[test]
fn every_failure_of_a_store_is_told() {
    let mut s = state(0, 100);
    let mut directory = || store_chunk_to_disk("/data", "abcdef", 1).resume(StoreReply::Exists(Some(false)), &mut s);
    let (a, b, c, d, e, f) = (directory(), directory(), directory(), directory(), directory(), directory());
    let mut s = state(0, 100);
    let created = a.resume(StoreReply::DirectoryExists(false), &mut s);
    assert_eq!(
        failed(created.resume(StoreReply::Done(false), &mut s)),
        "Failed to create directory for chunk: \"/data/ab\""
    );
    let file = b.resume(StoreReply::DirectoryExists(true), &mut s);
    assert_eq!(
        failed(file.resume(StoreReply::Done(false), &mut s)),
        "Failed to create file for chunk: \"/data/ab/abcdef\""
    );
    let next = c.resume(StoreReply::DirectoryExists(true), &mut s).resume(StoreReply::Done(true), &mut s);
    assert_eq!(
        failed(next.resume(StoreReply::Piece(Err(())), &mut s)),
        "Error streaming chunk data from source"
    );
    let next = d.resume(StoreReply::DirectoryExists(true), &mut s).resume(StoreReply::Done(true), &mut s);
    let write = next.resume(StoreReply::Piece(Ok(Some(vec![1]))), &mut s);
    assert_eq!(
        failed(write.resume(StoreReply::Done(false), &mut s)),
        "Failed to write data to chunk file: \"/data/ab/abcdef\""
    );
    let next = e.resume(StoreReply::DirectoryExists(true), &mut s).resume(StoreReply::Done(true), &mut s);
    let sync = next.resume(StoreReply::Piece(Ok(None)), &mut s);
    assert_eq!(
        failed(sync.resume(StoreReply::Done(false), &mut s)),
        "Failed to sync chunk file: \"/data/ab/abcdef\""
    );
    let next = f.resume(StoreReply::DirectoryExists(true), &mut s).resume(StoreReply::Done(true), &mut s);
    let remove = next.resume(StoreReply::Piece(Ok(None)), &mut s).resume(StoreReply::Done(true), &mut s);
    assert!(matches!(remove.stage, StoreStage::RemoveMismatched));
    assert_eq!(
        failed(remove.resume(StoreReply::Done(false), &mut s)),
        "Failed to delete mismatched chunk file: \"/data/ab/abcdef\""
    );
    assert_eq!(s, state(0, 100));
}

#[test]
fn chunk_is_opened_for_reading() {
    let run = retrieve_chunk_from_disk("/data", "abcdef");
    assert_eq!(run.chunk_path, "/data/ab/abcdef");
    let run = run.resume(RetrieveReply::Exists(Some(true)));
    assert!(matches!(run.stage, RetrieveStage::OpenFile));
    assert!(matches!(run.resume(RetrieveReply::Opened(true)).stage, RetrieveStage::Finished(Ok(()))));
}

#[test]
fn missing_or_closed_chunk_is_told() {
    for found in [None, Some(false)] {
        match retrieve_chunk_from_disk("/data", "abcdef").resume(RetrieveReply::Exists(found)).stage {
            RetrieveStage::Finished(Err(e)) => {
                assert_eq!(e.message(), "Chunk abcdef not found at \"/data/ab/abcdef\"");
            }
            _ => panic!("found"),
        }
    }
    let run = retrieve_chunk_from_disk("/data", "abcdef").resume(RetrieveReply::Exists(Some(true)));
    match run.resume(RetrieveReply::Opened(false)).stage {
        RetrieveStage::Finished(Err(e)) => {
            assert_eq!(e.message(), "Chunk abcdef not found or unreadable at \"/data/ab/abcdef\"");
        }
        _ => panic!("opened"),
    }
}

#[test]
fn pieces_are_put_together() {
    assert_eq!(concat_pieces(&vec![b"ab".to_vec(), Vec::new(), b"c".to_vec()]), b"abc");
    assert!(concat_pieces(&Vec::new()).is_empty());
}

#[test]
fn delete_undoes_the_stream() {
    let mut disk = HashMap::new();
    let mut s = state(1, 100);
    perform(store_chunk_to_disk("/data", "abcdef", 5), &mut disk, &mut s, &[b"hello"]).unwrap();
    let run = delete_chunk_from_disk("/data", "abcdef");
    assert_eq!(run.chunk_path, "/data/ab/abcdef");
    let size = disk[&run.chunk_path].len() as u64;
    let run = run.resume(DeleteReply::Size(Ok(size)), &mut s);
    let run = run.resume(DeleteReply::Removed(true), &mut s);
    assert!(matches!(run.stage, DeleteStage::Finished(Ok(Some(5)))));
    assert_eq!(s, state(1, 100));
}

#[test]
fn failed_deletes_of_this_node_are_told() {
    let mut s = state(0, 100);
    let failure = |kind: IoKind| IoFailure { kind, text: "denied".to_string() };
    let run = delete_chunk_from_disk("/data", "abcdef");
    let run = run.resume(DeleteReply::Size(Err(failure(IoKind::NotFound))), &mut s);
    assert!(matches!(run.stage, DeleteStage::Finished(Ok(None))));
    let run = delete_chunk_from_disk("/data", "abcdef");
    match run.resume(DeleteReply::Size(Err(failure(IoKind::Other))), &mut s).stage {
        DeleteStage::Finished(Err(e)) => assert_eq!(e.message(), "Error deleting chunk abcdef: denied"),
        _ => panic!("deleted"),
    }
    let run = delete_chunk_from_disk("/data", "abcdef").resume(DeleteReply::Size(Ok(1)), &mut s);
    match run.resume(DeleteReply::Removed(false), &mut s).stage {
        DeleteStage::Finished(Err(e)) => {
            assert_eq!(e.message(), "Failed to delete chunk file: \"/data/ab/abcdef\"");
        }
        _ => panic!("deleted"),
    }
    assert_eq!(s, state(0, 100));
}

#[test]
fn directory_of_a_chunk_is_its_file_without_the_last_component() {
    let bases = ["", "/", "//", ".", "./", "./.", "a", "a/", "a//", "a/.", "..", "/..", "/.", "/data", "/d/./e"];
    let ids = [
        "", ".", "..", "a", "/", "//", "/.", "/a", "a/", "a//b", "./", "./a", "ab", "ab/./c", ".a", "...", "./.", "é",
    ];
    for base in bases {
        for id in ids {
            let run = store_chunk_to_disk(base, id, 0);
            let whole = components_of(run.chunk_path.as_bytes());
            let nothing_above = whole.is_empty() || whole.last().unwrap() == b"/";
            match run.directory {
                None => assert!(nothing_above, "{:?} {:?}", base, id),
                Some(directory) => {
                    assert!(!nothing_above, "{:?} {:?}", base, id);
                    assert_eq!(components_of(directory.as_bytes()), whole[..whole.len() - 1], "{:?} {:?}", base, id);
                }
            }
        }
    }
}

#[test]
fn chunk_goes_to_its_subdirectory() {
    assert_eq!(store_chunk_to_disk("/data", "abc", 0).directory.as_deref(), Some("/data/ab"));
    assert_eq!(store_chunk_to_disk("/data//", "abc", 0).directory.as_deref(), Some("/data//ab"));
    assert_eq!(store_chunk_to_disk("/data", "a", 0).directory.as_deref(), Some("/data"));
    assert_eq!(store_chunk_to_disk("/data", "..", 0).directory.as_deref(), Some("/data/.."));
}

#[test]
fn different_identifiers_are_different_files() {
    let ids = ["", "a", "b", "ab", "abc", "abd", "ba", "é", "éa", ".", ".."];
    for base in ["", "/", "/data", "a", "ab"] {
        for a in ids {
            for b in ids {
                assert_eq!(get_chunk_path(base, a) == get_chunk_path(base, b), a == b, "{:?} {:?} {:?}", base, a, b);
            }
        }
    }
}
