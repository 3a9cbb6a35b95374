use yourcloud_client::disk::{IoFailure, IoKind};
use yourcloud_client::storage::{
    DeleteError, DeleteStage, RetrieveReply, StorageState, StoreReply, StoreStage,
};
use yourcloud_client::webrtc::{
    answer_check_request, answer_delete_request, candidate_message, refuse_upload, take_candidate, AnswerError,
    AnswerReply, AnswerStage, CandidateError, CandidateStage, ChannelAction, ClientMessage, DownloadReply,
    DownloadRun, DownloadStage, PeerCandidate, TransferSession, UploadReply, UploadRun, UploadStage, WebRTCManager,
    FRAME_BYTES, HIGH_WATER_MARK,
};

fn id(s: &str) -> String {
    s.to_string()
}

fn manager() -> WebRTCManager {
    WebRTCManager::new(id("/data"))
}

fn control(m: &mut WebRTCManager, message: ClientMessage) -> ChannelAction {
    m.handle_message(true, b"", Some(message))
}

fn data(m: &mut WebRTCManager, bytes: &[u8]) {
    assert!(matches!(m.handle_message(false, bytes, None), ChannelAction::Ignore));
}

fn upload(m: &mut WebRTCManager, chunk_id: &str) {
    assert!(matches!(control(m, ClientMessage::Upload { chunk_id: id(chunk_id) }), ChannelAction::Ignore));
}

fn complete(m: &mut WebRTCManager, chunk_id: &str) -> Option<TransferSession> {
    match control(m, ClientMessage::TransferComplete { chunk_id: id(chunk_id) }) {
        ChannelAction::StoreUpload { session } => Some(session),
        ChannelAction::NoUpload { chunk_id: c } => {
            assert_eq!(c, chunk_id);
            None
        }
        _ => panic!("unexpected"),
    }
}

#[test]
fn upload_is_put_together() {
    let mut m = manager();
    upload(&mut m, "a");
    for piece in [&b"he"[..], b"", b"llo", b" there"] {
        data(&mut m, piece);
    }
    let session = complete(&mut m, "a").unwrap();
    assert_eq!(session.chunk_id, "a");
    assert_eq!(session.buffer, b"hello there");
    assert!(complete(&mut m, "a").is_none());
}

#[test]
fn data_goes_to_the_last_upload_that_began() {
    let mut m = manager();
    upload(&mut m, "a");
    data(&mut m, b"1");
    upload(&mut m, "b");
    data(&mut m, b"2");
    assert_eq!(complete(&mut m, "a").unwrap().buffer, b"1");
    data(&mut m, b"3");
    assert_eq!(complete(&mut m, "b").unwrap().buffer, b"23");
}

#[test]
fn repeated_upload_begins_anew() {
    let mut m = manager();
    upload(&mut m, "a");
    data(&mut m, b"old");
    upload(&mut m, "a");
    data(&mut m, b"new");
    assert_eq!(m.active_uploads.len(), 1);
    assert_eq!(complete(&mut m, "a").unwrap().buffer, b"new");
}

#[test]
fn data_without_an_upload_is_dropped() {
    let mut m = manager();
    data(&mut m, b"lost");
    assert!(m.active_uploads.is_empty());
    upload(&mut m, "a");
    complete(&mut m, "a").unwrap();
    data(&mut m, b"lost");
    assert!(m.active_uploads.is_empty());
}

#[test]
fn requests_become_actions() {
    let mut m = manager();
    match control(&mut m, ClientMessage::Download { chunk_id: id("a") }) {
        ChannelAction::Download { chunk_id } => assert_eq!(chunk_id, "a"),
        _ => panic!("no download"),
    }
    match control(&mut m, ClientMessage::Delete { chunk_id: id("a") }) {
        ChannelAction::Delete { chunk_id } => assert_eq!(chunk_id, "a"),
        _ => panic!("no delete"),
    }
    match control(&mut m, ClientMessage::CheckId { chunk_id: id("a") }) {
        ChannelAction::CheckId { chunk_id } => assert_eq!(chunk_id, "a"),
        _ => panic!("no check"),
    }
    let error = ClientMessage::TransferError { chunk_id: id("a"), error: id("e") };
    assert!(matches!(control(&mut m, error), ChannelAction::Ignore));
    let status = ClientMessage::IdStatus { chunk_id: id("a"), exists: true };
    assert!(matches!(control(&mut m, status), ChannelAction::Ignore));
    assert!(matches!(m.handle_message(true, b"junk", None), ChannelAction::Ignore));
}

fn state() -> StorageState {
    StorageState { current_used_space_bytes: 0, max_storage_bytes: 1 << 30, current_chunk_count: 0 }
}

fn stored(mut run: UploadRun, m: &mut WebRTCManager, counters: &mut StorageState) -> UploadRun {
    for reply in [
        StoreReply::Space(Ok(1000)),
        StoreReply::Done(Ok(())),
        StoreReply::Done(Ok(())),
        StoreReply::Done(Ok(())),
    ] {
        run = run.resume(UploadReply::Store(reply), m, counters);
    }
    run
}

#[test]
fn peer_is_told_after_the_chunk_is_stored() {
    let mut m = manager();
    let mut counters = state();
    upload(&mut m, "a");
    data(&mut m, b"xyz");
    let session = complete(&mut m, "a").unwrap();
    let run = m.finalize_upload(session, &counters);
    match &run.stage {
        UploadStage::Store { store } => {
            assert_eq!(store.chunk_path, "/data/a");
            assert_eq!(store.data, b"xyz");
            assert!(matches!(store.stage, StoreStage::MeasureDisk));
        }
        _ => panic!("not stored"),
    }
    let run = stored(run, &mut m, &mut counters);
    assert_eq!((counters.current_used_space_bytes, counters.current_chunk_count), (3, 1));
    match &run.stage {
        UploadStage::Reply { message: ClientMessage::TransferComplete { chunk_id } } => assert_eq!(chunk_id, "a"),
        _ => panic!("not told"),
    }
    assert_eq!(m.current_upload_chunk_id.as_deref(), Some("a"));
    let run = run.resume(UploadReply::Sent(Ok(())), &mut m, &mut counters);
    assert!(matches!(run.stage, UploadStage::Finished(Ok(()))));
    assert_eq!(m.current_upload_chunk_id, None);
}

#[test]
fn failed_store_is_not_confirmed() {
    let mut m = manager();
    upload(&mut m, "../a");
    let session = complete(&mut m, "../a").unwrap();
    let run = m.finalize_upload(session, &state());
    match run.stage {
        UploadStage::Finished(Err(e)) => {
            assert_eq!(e.message(), "Invalid chunk_id: contains path traversal characters");
        }
        _ => panic!("confirmed"),
    }
    assert_eq!(m.current_upload_chunk_id.as_deref(), Some("../a"));
    upload(&mut m, "b");
    data(&mut m, b"xyz");
    let session = complete(&mut m, "b").unwrap();
    let mut counters = state();
    let run = m.finalize_upload(session, &counters);
    let run = run.resume(UploadReply::Store(StoreReply::Space(Ok(2))), &mut m, &mut counters);
    match run.stage {
        UploadStage::Finished(Err(e)) => {
            assert_eq!(e.message(), "Insufficient disk space. Required: 3, Available: 2");
        }
        _ => panic!("confirmed"),
    }
    assert_eq!(counters, state());
    assert_eq!(m.current_upload_chunk_id.as_deref(), Some("b"));
}

#[test]
fn unsent_confirmation_is_an_error() {
    let mut m = manager();
    let mut counters = state();
    upload(&mut m, "a");
    let session = complete(&mut m, "a").unwrap();
    let run = m.finalize_upload(session, &counters);
    let run = stored(run, &mut m, &mut counters);
    let run = run.resume(UploadReply::Sent(Err(id("closed"))), &mut m, &mut counters);
    match run.stage {
        UploadStage::Finished(Err(e)) => assert_eq!(e.message(), "closed"),
        _ => panic!("sent"),
    }
    assert_eq!(m.current_upload_chunk_id.as_deref(), Some("a"));
}

#[test]
fn upload_that_never_began_cannot_be_completed() {
    match refuse_upload(id("a")).stage {
        UploadStage::Finished(Err(e)) => {
            assert_eq!(e.message(), "Cannot finalize: No upload session for chunk_id: a");
        }
        _ => panic!("completed"),
    }
}

fn read(run: DownloadRun, bytes: Vec<u8>) -> DownloadRun {
    let run = run.resume(DownloadReply::Retrieve(RetrieveReply::Exists(Ok(true))));
    run.resume(DownloadReply::Retrieve(RetrieveReply::Data(Ok(bytes))))
}

fn download(bytes: Vec<u8>) -> (Vec<Vec<u8>>, String) {
    let run = manager().handle_download_request(id("a"));
    match &run.stage {
        DownloadStage::Retrieve { retrieve } => assert_eq!(retrieve.chunk_path, "/data/a"),
        _ => panic!("not read"),
    }
    let mut run = read(run, bytes);
    let mut frames = Vec::new();
    let mut told = None;
    loop {
        let reply = match &run.stage {
            DownloadStage::MeasureBuffer => DownloadReply::Buffered(HIGH_WATER_MARK),
            DownloadStage::SendFrame { frame } => {
                frames.push(frame.clone());
                DownloadReply::Sent(Ok(()))
            }
            DownloadStage::Reply { message: ClientMessage::TransferComplete { chunk_id } } => {
                told = Some(chunk_id.clone());
                DownloadReply::Sent(Ok(()))
            }
            DownloadStage::Finished(result) => {
                assert!(result.is_ok());
                return (frames, told.unwrap());
            }
            _ => panic!("unexpected"),
        };
        run = run.resume(reply);
    }
}

#[test]
fn frames_are_the_chunk() {
    for n in [0, 1, FRAME_BYTES - 1, FRAME_BYTES, FRAME_BYTES + 1, 3 * FRAME_BYTES, 100_000] {
        let bytes: Vec<u8> = (0..n).map(|i| (i % 251) as u8).collect();
        let (frames, told) = download(bytes.clone());
        assert_eq!(told, "a");
        assert_eq!(frames.len(), (n + FRAME_BYTES - 1) / FRAME_BYTES);
        assert!(frames.iter().all(|f| !f.is_empty() && f.len() <= FRAME_BYTES));
        assert!(frames.iter().rev().skip(1).all(|f| f.len() == FRAME_BYTES));
        assert_eq!(frames.concat(), bytes);
    }
}

#[test]
fn frames_wait_for_a_low_buffer() {
    let run = manager().handle_download_request(id("a"));
    let run = read(run, vec![1]);
    let run = run.resume(DownloadReply::Buffered(HIGH_WATER_MARK + 1));
    assert!(matches!(run.stage, DownloadStage::AwaitLowBuffer));
    let run = run.resume(DownloadReply::BufferLow);
    assert!(matches!(run.stage, DownloadStage::MeasureBuffer));
    let run = run.resume(DownloadReply::Buffered(0));
    assert!(matches!(run.stage, DownloadStage::SendFrame { .. }));
    assert_eq!(HIGH_WATER_MARK, 16 * 1024 * 1024);
    assert_eq!(FRAME_BYTES, 16 * 1024);
}

#[test]
fn failed_downloads_are_told() {
    let run = manager().handle_download_request(id("a"));
    match run.resume(DownloadReply::Retrieve(RetrieveReply::Exists(Ok(false)))).stage {
        DownloadStage::Finished(Err(e)) => assert_eq!(e.message(), "Chunk a not found"),
        _ => panic!("not failed"),
    }
    let run = manager().handle_download_request(id("a"));
    let run = read(run, vec![1]);
    let run = run.resume(DownloadReply::Buffered(0));
    match run.resume(DownloadReply::Sent(Err(id("closed")))).stage {
        DownloadStage::Finished(Err(e)) => assert_eq!(e.message(), "closed"),
        _ => panic!("not failed"),
    }
}

#[test]
fn delete_request_is_answered() {
    let run = manager().handle_delete_request("a");
    assert_eq!(run.chunk_path, "/data/a");
    assert!(matches!(run.stage, DeleteStage::ReadMetadata));
    for deleted in [None, Some(4)] {
        match answer_delete_request(id("a"), Ok(deleted)).unwrap() {
            ClientMessage::TransferComplete { chunk_id } => assert_eq!(chunk_id, "a"),
            _ => panic!("unexpected"),
        }
    }
    let error = DeleteError::Metadata { chunk_id: id("a"), reason: id("denied") };
    assert_eq!(
        answer_delete_request(id("a"), Err(error)).unwrap_err().message(),
        "Error getting metadata for chunk a to delete: denied"
    );
}

#[test]
fn check_request_is_answered() {
    assert_eq!(manager().handle_check_request("a"), "/data/a");
    for there in [false, true] {
        match answer_check_request(id("a"), Ok(there)).unwrap() {
            ClientMessage::IdStatus { chunk_id, exists } => {
                assert_eq!(chunk_id, "a");
                assert_eq!(exists, there);
            }
            _ => panic!("unexpected"),
        }
    }
    let failure = IoFailure { kind: IoKind::Other, text: id("denied") };
    assert_eq!(
        answer_check_request(id("a"), Err(failure)).unwrap_err().message(),
        "Error checking existence of chunk a: denied"
    );
}

#[test]
fn uploaded_chunk_downloads_back() {
    let mut m = manager();
    let bytes: Vec<u8> = (0..40_000u32).map(|i| (i % 253) as u8).collect();
    upload(&mut m, "a");
    for piece in bytes.chunks(7_000) {
        data(&mut m, piece);
    }
    let session = complete(&mut m, "a").unwrap();
    let (frames, _) = download(session.buffer);
    assert_eq!(frames.concat(), bytes);
}

#[test]
fn offer_is_answered_in_order() {
    let stage = manager().handle_offer_and_create_answer();
    assert!(matches!(stage, AnswerStage::SetRemote));
    let stage = stage.resume(AnswerReply::Done(Ok(())));
    assert!(matches!(stage, AnswerStage::CreateAnswer));
    let stage = stage.resume(AnswerReply::Done(Ok(())));
    assert!(matches!(stage, AnswerStage::SetLocal));
    let stage = stage.resume(AnswerReply::Done(Ok(())));
    assert!(matches!(stage, AnswerStage::ReadLocal));
    assert!(matches!(stage.resume(AnswerReply::Local(true)), AnswerStage::Finished(Ok(()))));
}

#[test]
fn failed_answers_are_told() {
    let stage = manager().handle_offer_and_create_answer();
    match stage.resume(AnswerReply::Done(Err(id("bad offer")))) {
        AnswerStage::Finished(Err(e)) => assert_eq!(e.message(), "bad offer"),
        _ => panic!("not failed"),
    }
    match AnswerStage::ReadLocal.resume(AnswerReply::Local(false)) {
        AnswerStage::Finished(Err(e)) => {
            assert!(matches!(e, AnswerError::NoLocalDescription));
            assert_eq!(e.message(), "Local description not available");
        }
        _ => panic!("not failed"),
    }
}

#[test]
fn candidates_are_sent_under_the_session() {
    let candidate = PeerCandidate {
        candidate: id("candidate:abc \"123\""),
        sdp_mid: Some(String::new()),
        sdp_mline_index: Some(0),
        username_fragment: None,
    };
    let message = candidate_message("s1", Some(candidate)).unwrap();
    assert_eq!(
        message,
        "{\"candidate\":{\"candidate\":\"candidate:abc \\\"123\\\"\",\"sdpMLineIndex\":0,\"sdpMid\":\"\",\
         \"usernameFragment\":null},\"command_id\":\"s1\",\"type\":\"ICE_CANDIDATE_ANSWER\"}"
    );
    let value: serde_json::Value = serde_json::from_str(&message).unwrap();
    assert_eq!(value["command_id"], "s1");
    assert_eq!(value["type"], "ICE_CANDIDATE_ANSWER");
    let read = added(&value["candidate"].to_string());
    assert_eq!(read.candidate, "candidate:abc \"123\"");
    assert_eq!(read.sdp_mid.as_deref(), Some(""));
    assert_eq!(read.sdp_mline_index, Some(0));
    assert_eq!(read.username_fragment, None);
    assert!(candidate_message("s1", None).is_none());
}

#[test]
fn new_peer_uses_open_servers() {
    let servers = WebRTCManager::ice_servers();
    assert_eq!(servers.len(), 1);
    assert_eq!(
        servers[0].urls,
        vec!["stun:stun.l.google.com:19302", "stun:global.stun.twilio.com:3478"]
    );
}

fn added(json: &str) -> PeerCandidate {
    match manager().add_ice_candidate(json) {
        CandidateStage::Add { candidate } => candidate,
        CandidateStage::Finished(_) => panic!("not read"),
    }
}

fn not_added(json: &str) -> String {
    match manager().add_ice_candidate(json) {
        CandidateStage::Finished(Err(CandidateError::Unreadable { reason })) => reason,
        _ => panic!("read"),
    }
}

#[test]
fn candidate_is_handed_to_the_connection() {
    let full = added(
        r#"{"candidate":"candidate:abc123","sdpMid":"0","sdpMLineIndex":7,"usernameFragment":"def"}"#,
    );
    assert_eq!(full.candidate, "candidate:abc123");
    assert_eq!(full.sdp_mid.as_deref(), Some("0"));
    assert_eq!(full.sdp_mline_index, Some(7));
    assert_eq!(full.username_fragment.as_deref(), Some("def"));
    let bare = added(r#"{"candidate":"","sdpMid":null,"unknown":[1]}"#);
    assert_eq!(bare.candidate, "");
    assert_eq!(bare.sdp_mid, None);
    assert_eq!(bare.sdp_mline_index, None);
    assert_eq!(bare.username_fragment, None);
}

#[test]
fn unreadable_candidate_is_not_handed_on() {
    assert_eq!(not_added("{}"), "missing field `candidate` at line 1 column 2");
    assert_eq!(not_added(""), "EOF while parsing a value at line 1 column 0");
    assert!(not_added(r#"{"candidate":"c","sdpMLineIndex":65536}"#).contains("65536"));
    assert!(!not_added(r#"{"candidate":5}"#).is_empty());
    match manager().add_ice_candidate("{}") {
        CandidateStage::Finished(Err(e)) => {
            assert_eq!(e.message(), "missing field `candidate` at line 1 column 2")
        }
        _ => panic!("read"),
    }
}

#[test]
fn outcome_of_the_connection_ends_the_candidate() {
    let json = r#"{"candidate":"candidate:abc123"}"#;
    assert!(matches!(manager().add_ice_candidate(json).resume(Ok(())), CandidateStage::Finished(Ok(()))));
    match manager().add_ice_candidate(json).resume(Err(id("no remote description"))) {
        CandidateStage::Finished(Err(e)) => {
            assert!(matches!(e, CandidateError::Refused { .. }));
            assert_eq!(e.message(), "no remote description");
        }
        _ => panic!("taken"),
    }
}

#[test]
fn candidate_that_was_read_is_taken() {
    let read = PeerCandidate {
        candidate: id("c"),
        sdp_mid: None,
        sdp_mline_index: Some(1),
        username_fragment: None,
    };
    match take_candidate(Ok(read)) {
        CandidateStage::Add { candidate } => {
            assert_eq!(candidate.candidate, "c");
            assert_eq!(candidate.sdp_mline_index, Some(1));
        }
        _ => panic!("not taken"),
    }
    match take_candidate(Err(id("why"))) {
        CandidateStage::Finished(Err(e)) => assert_eq!(e.message(), "why"),
        _ => panic!("taken"),
    }
}
