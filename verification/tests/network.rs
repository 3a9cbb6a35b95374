use yourcloud_client::commands::{BackendCommand, NodeStatus};
use yourcloud_client::config::Config;
use yourcloud_client::gib::Gib;
use yourcloud_client::network::{
    after_attempt, auth_request, backend_ws_url, choose_ice_servers, conclude_delivery, get_turn_credentials,
    judge_auth_members, judge_auth_reply, process_message, send_status_report, start_communication_loop, turn_request,
    AuthReply, ConnectReply, HandlerGone, Incoming, Network, OfferedServer, Outgoing, SessionError, SessionEvent,
    SessionReply, SessionStage,
};
use yourcloud_client::storage::StorageState;

fn network(ws_url: &str) -> Network {
    Network::init(ws_url.to_string(), "secret".to_string(), "node".to_string())
}

fn config(node_id: &str, auth_token: &str) -> Config {
    Config {
        node_id: node_id.to_string(),
        auth_token: auth_token.to_string(),
        storage_path: "/data".to_string(),
        max_storage_gib: Gib { bits: 1.0f64.to_bits() },
        ws_url: String::new(),
    }
}

#[test]
fn delays_double_up_to_a_minute() {
    let n = network("ws://x");
    let mut failures = 0;
    let mut delays = Vec::new();
    for _ in 0..9 {
        let (next, delay) = n.run_connection_loop(failures, false);
        assert_eq!(next, failures + 1);
        failures = next;
        delays.push(delay);
    }
    assert_eq!(delays, vec![1000, 2000, 4000, 8000, 16000, 32000, 60000, 60000, 60000]);
    assert_eq!(n.run_connection_loop(failures, true), (0, 1000));
}

#[test]
fn longest_series_of_failures_still_has_a_delay() {
    assert_eq!(after_attempt(54, false), (55, 60000));
    assert_eq!(after_attempt(55, false), (56, 60000));
    assert_eq!(after_attempt(1000, false), (1001, 60000));
    assert_eq!(after_attempt(u64::MAX - 1, false), (u64::MAX, 60000));
    assert_eq!(after_attempt(u64::MAX, true), (0, 1000));
}

#[test]
fn authentication_carries_identifier_and_token() {
    let text = auth_request("no\"de", "s€cret");
    let value: serde_json::Value = serde_json::from_str(&text).unwrap();
    assert_eq!(value.as_object().unwrap().len(), 3);
    assert_eq!(value["type"], "AUTH");
    assert_eq!(value["node_id"], "no\"de");
    assert_eq!(value["token"], "s€cret");
}

fn auth_error(text: &str) -> String {
    judge_auth_reply(AuthReply::Text(text.to_string())).unwrap_err().message()
}

#[test]
fn answers_to_the_authentication_are_judged() {
    assert!(judge_auth_reply(AuthReply::Text("{\"type\":\"AUTH_SUCCESS\"}".to_string())).is_ok());
    assert!(judge_auth_reply(AuthReply::Text(" {\"a\":1, \"type\" : \"AUTH_SUCCESS\"} ".to_string())).is_ok());
    assert_eq!(auth_error("{\"type\":\"AUTH_FAILED\",\"reason\":\"bad token\"}"), "Authentication failed: bad token");
    assert_eq!(auth_error("{\"type\":\"AUTH_FAILED\"}"), "Authentication failed: Unknown reason");
    assert_eq!(auth_error("{\"type\":\"AUTH_FAILED\",\"reason\":7}"), "Authentication failed: Unknown reason");
    assert_eq!(auth_error("{\"type\":\"HELLO\"}"), "Unexpected auth response: {\"type\":\"HELLO\"}");
    assert_eq!(auth_error("{\"type\":1}"), "Unexpected auth response: {\"type\":1}");
    assert_eq!(auth_error("[1]"), "Unexpected auth response: [1]");
    assert_eq!(auth_error("nonsense"), "Failed to parse auth response as JSON");
    assert_eq!(auth_error(""), "Failed to parse auth response as JSON");
}

#[test]
fn other_answers_to_the_authentication_fail() {
    let message = |reply: AuthReply| judge_auth_reply(reply).unwrap_err().message();
    assert_eq!(message(AuthReply::Closed), "Connection closed by peer before auth response");
    assert_eq!(message(AuthReply::TimedOut), "Timed out waiting for auth response");
    assert_eq!(
        message(AuthReply::Other { shown: "Binary([1])".to_string() }),
        "Unexpected message during auth: Binary([1])"
    );
}

#[test]
fn members_of_an_answer_decide() {
    let judge = |kind: Option<&str>, reason: Option<&str>| {
        judge_auth_members(kind.map(str::to_string), reason.map(str::to_string), "all".to_string())
    };
    assert!(judge(Some("AUTH_SUCCESS"), Some("x")).is_ok());
    assert_eq!(judge(Some("AUTH_FAILED"), Some("x")).unwrap_err().message(), "Authentication failed: x");
    assert_eq!(judge(Some("AUTH_FAILED"), None).unwrap_err().message(), "Authentication failed: Unknown reason");
    assert_eq!(judge(Some("OTHER"), None).unwrap_err().message(), "Unexpected auth response: all");
    assert_eq!(judge(None, None).unwrap_err().message(), "Unexpected auth response: all");
}

fn served(n: &Network) -> SessionStage {
    let stage = n.establish_and_process_messages();
    let stage = stage.resume(n, SessionReply::Connect(ConnectReply::Connected));
    let stage = stage.resume(n, SessionReply::Sent(Ok(())));
    stage.resume(n, SessionReply::Auth(AuthReply::Text("{\"type\":\"AUTH_SUCCESS\"}".to_string())))
}

#[test]
fn connection_is_served_after_authentication() {
    let n = network("wss://x");
    let stage = n.establish_and_process_messages();
    assert!(matches!(stage, SessionStage::Connect { encrypted: true }));
    let stage = stage.resume(&n, SessionReply::Connect(ConnectReply::Connected));
    match &stage {
        SessionStage::SendAuth { request } => assert_eq!(request, &auth_request("node", "secret")),
        _ => panic!("no authentication"),
    }
    let stage = stage.resume(&n, SessionReply::Sent(Ok(())));
    assert!(matches!(stage, SessionStage::AwaitAuth));
    assert!(matches!(served(&n), SessionStage::AwaitEvent));
}

#[test]
fn encryption_follows_the_address() {
    assert!(matches!(
        network("ws://x").establish_and_process_messages(),
        SessionStage::Connect { encrypted: false }
    ));
    assert!(matches!(
        network("WSS://x").establish_and_process_messages(),
        SessionStage::Connect { encrypted: false }
    ));
}

fn session_error(stage: SessionStage) -> String {
    match stage {
        SessionStage::Finished(Err(e)) => e.message(),
        _ => panic!("not failed"),
    }
}

#[test]
fn failed_connections_are_told() {
    let n = network("wss://x");
    let connect = || n.establish_and_process_messages();
    assert_eq!(
        session_error(connect().resume(&n, SessionReply::Connect(ConnectReply::Failed))),
        "Failed to connect to WebSocket: wss://x"
    );
    assert_eq!(
        session_error(connect().resume(&n, SessionReply::Connect(ConnectReply::NoTls))),
        "Failed to build native TLS connector"
    );
    let auth = connect().resume(&n, SessionReply::Connect(ConnectReply::Connected));
    assert_eq!(
        session_error(auth.resume(&n, SessionReply::Sent(Err("gone".to_string())))),
        "Failed to send authentication message"
    );
    let failed = served(&n)
        .resume(&n, SessionReply::Event(SessionEvent::ReceiveFailed { reason: "reset".to_string() }));
    assert!(matches!(&failed, SessionStage::Finished(Err(SessionError::Receive { .. }))));
    assert_eq!(session_error(failed), "reset");
}

#[test]
fn events_are_served() {
    let n = network("wss://x");
    let at = |event: SessionEvent| served(&n).resume(&n, SessionReply::Event(event));
    match at(SessionEvent::Received(Incoming::Text("cmd".to_string()))) {
        SessionStage::Dispatch { command } => assert_eq!(command, "cmd"),
        _ => panic!("not dispatched"),
    }
    match at(SessionEvent::Received(Incoming::Ping(vec![1, 2]))) {
        SessionStage::SendPong { data } => assert_eq!(data, vec![1, 2]),
        _ => panic!("no pong"),
    }
    assert!(matches!(at(SessionEvent::Received(Incoming::Close)), SessionStage::Finished(Ok(()))));
    assert!(matches!(at(SessionEvent::Received(Incoming::Other)), SessionStage::AwaitEvent));
    assert!(matches!(at(SessionEvent::Ended), SessionStage::Finished(Ok(()))));
    let sending = at(SessionEvent::ToSend(Outgoing::Text("answer".to_string())));
    match &sending {
        SessionStage::Send { message: Outgoing::Text(t) } => assert_eq!(t, "answer"),
        _ => panic!("not sent"),
    }
    assert!(matches!(sending.resume(&n, SessionReply::Sent(Ok(()))), SessionStage::AwaitEvent));
    let pong = at(SessionEvent::Received(Incoming::Ping(Vec::new())));
    assert_eq!(session_error(pong.resume(&n, SessionReply::Sent(Err("broken".to_string())))), "broken");
    let dispatched = at(SessionEvent::Received(Incoming::Text("cmd".to_string())));
    assert!(matches!(dispatched.resume(&n, SessionReply::Dispatched), SessionStage::AwaitEvent));
}

#[test]
fn unread_messages_become_unknown_commands() {
    let d = process_message(None);
    assert!(matches!(d.command, BackendCommand::Unknown));
    assert!(!d.required);
    let d = process_message(Some(BackendCommand::StatusRequest { command_id: "x".to_string() }));
    assert!(matches!(d.command, BackendCommand::StatusRequest { .. }));
    assert!(d.required);
}

#[test]
fn required_command_must_be_taken() {
    assert!(conclude_delivery(true, true).is_ok());
    assert!(conclude_delivery(false, false).is_ok());
    assert_eq!(conclude_delivery(true, false), Err(HandlerGone));
    assert_eq!(HandlerGone.message(), "Command handler channel is closed.");
}

#[test]
fn status_report_has_the_counters() {
    let state = StorageState { current_used_space_bytes: 1, max_storage_bytes: 2, current_chunk_count: 3 };
    let report = send_status_report("c".to_string(), &state);
    assert_eq!(report.kind, "STATUS_REPORT");
    assert_eq!(report.command_id, "c");
    assert_eq!(report.status, NodeStatus { used_space_bytes: 1, max_space_bytes: 2, current_chunk_count: 3 });
}

#[test]
fn servers_are_asked_for_with_the_token() {
    assert_eq!(
        turn_request("https://api", "t"),
        ("https://api/turn-credentials".to_string(), "Bearer t".to_string())
    );
}

#[test]
fn offered_servers_are_taken_as_they_are() {
    let offered = || {
        vec![
            OfferedServer {
                urls: vec!["turn:a".to_string(), "turn:b".to_string()],
                username: Some("u".to_string()),
                credential: None,
            },
            OfferedServer { urls: Vec::new(), username: None, credential: Some("c".to_string()) },
        ]
    };
    for servers in [get_turn_credentials(offered()), choose_ice_servers(Some(offered()))] {
        assert_eq!(servers.len(), 2);
        assert_eq!(servers[0].urls, vec!["turn:a", "turn:b"]);
        assert_eq!((servers[0].username.as_str(), servers[0].credential.as_str()), ("u", ""));
        assert!(servers[1].urls.is_empty());
        assert_eq!((servers[1].username.as_str(), servers[1].credential.as_str()), ("", "c"));
    }
}

#[test]
fn open_server_stands_in_when_none_is_offered() {
    let servers = choose_ice_servers(None);
    assert_eq!(servers.len(), 1);
    assert_eq!(servers[0].urls, vec!["stun:stun.l.google.com:19302"]);
    assert_eq!(servers[0].username, "");
    assert_eq!(servers[0].credential, "");
}

#[test]
fn empty_address_means_the_default_backend() {
    assert_eq!(backend_ws_url(""), "wss://wss.project-yourcloud.me");
    assert_eq!(backend_ws_url("ws://local"), "ws://local");
}

#[test]
fn address_gets_a_scheme_once() {
    let url = |u: &str| start_communication_loop(&config("n", "t"), u).unwrap().ws_url;
    assert_eq!(url("host/path"), "wss://host/path");
    assert_eq!(url("wss://host/path"), "wss://host/path");
    assert_eq!(url("ws://host"), "ws://host");
    assert_eq!(url(&url("host")), url("host"));
}

#[test]
fn node_without_credentials_does_not_connect() {
    for c in [config("", "t"), config("n", ""), config("", "")] {
        let e = start_communication_loop(&c, "x").unwrap_err();
        assert_eq!(e.message(), "Node is not configured with an ID and auth token.");
    }
    let n = start_communication_loop(&config("n", "t"), "x").unwrap();
    assert_eq!((n.node_id.as_str(), n.auth_token.as_str()), ("n", "t"));
}
