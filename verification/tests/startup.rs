use yourcloud_client::disk::DiskSpaceError;
use yourcloud_client::startup::{StartReply, StartStage, Startup};
use yourcloud_client::storage::StorageState;

fn begin() -> Startup {
    Startup::begin("/data".to_string(), 100)
}

fn message(startup: Startup) -> String {
    match startup.stage {
        StartStage::Failed(e) => e.message(),
        _ => panic!("not failed"),
    }
}

#[test]
fn node_starts_when_all_is_well() {
    let state = StorageState { current_used_space_bytes: 1, max_storage_bytes: 100, current_chunk_count: 1 };
    let s = begin();
    assert!(matches!(s.stage, StartStage::CreateDirectory));
    let s = s.resume(StartReply::Created(true));
    assert!(matches!(s.stage, StartStage::MeasureDisk));
    let s = s.resume(StartReply::Space(Ok(100)));
    assert!(matches!(s.stage, StartStage::Scan));
    match s.resume(StartReply::Scanned(Some(state))).stage {
        StartStage::Serve { state: s } => assert_eq!(s, state),
        _ => panic!("not started"),
    }
}

#[test]
fn node_does_not_start_otherwise() {
    assert_eq!(
        message(begin().resume(StartReply::Created(false))),
        "Failed to create storage directory: \"/data\""
    );
    let measure = || begin().resume(StartReply::Created(true));
    assert_eq!(
        message(measure().resume(StartReply::Space(Ok(99)))),
        "Not enough disk space to meet configured max_storage_gib."
    );
    let error = DiskSpaceError::NoDisk { storage_path: "/data".to_string() };
    assert_eq!(
        message(measure().resume(StartReply::Space(Err(error)))),
        "Failed to verify available disk space."
    );
    let scan = measure().resume(StartReply::Space(Ok(1000)));
    assert_eq!(message(scan.resume(StartReply::Scanned(None))), "Failed to initialize storage state");
}
