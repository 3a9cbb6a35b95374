use yourcloud_client::network::{Incoming, Outgoing, SessionEvent};
use yourcloud_client::storage_client::commands::{BackendCommand, HttpStatus};
use yourcloud_client::storage_client::network::{
    judge_auth_reply, kind_is_success, process_message, register_node, send_command_result, send_status_report,
    start_communication_loop, AuthReply, FirstStep, Network, NodeConfig, RegistrationReply, RegistrationResponse,
    RegistrationStage, SessionReply, SessionStage,
};
use yourcloud_client::storage_client::storage::NodeStatus;

fn config(node_id: &str, auth_token: &str) -> NodeConfig {
    NodeConfig {
        node_id: node_id.to_string(),
        auth_token: auth_token.to_string(),
        storage_path: "/data".to_string(),
        max_storage_gib: 7,
        backend_ws_url: "ws://back".to_string(),
        backend_api_url: "http://api".to_string(),
    }
}

fn network() -> Network {
    Network::init("ws://back".to_string(), "secret".to_string(), "node".to_string())
}

#[test]
fn command_results_tell_the_error() {
    let m = send_command_result("c".to_string(), Ok(()));
    assert_eq!((m.kind.as_str(), m.command_id.as_str(), m.success), ("COMMAND_RESULT", "c", true));
    assert_eq!(m.error, None);
    let m = send_command_result("c".to_string(), Err("broken".to_string()));
    assert!(!m.success);
    assert_eq!(m.error.as_deref(), Some("broken"));
}

#[test]
fn status_report_of_this_node_is_sent() {
    let status = NodeStatus { used_space_bytes: 1, max_space_bytes: 2, free_space_bytes: 1, chunk_count: 3 };
    let m = send_status_report("c".to_string(), status);
    assert_eq!((m.kind.as_str(), m.command_id.as_str()), ("STATUS_REPORT", "c"));
    assert_eq!(m.status, status);
}

#[test]
fn delays_of_this_node_double_too() {
    assert_eq!(network().run_connection_loop(0, false), (1, 1000));
    assert_eq!(network().run_connection_loop(3, false), (4, 8000));
    assert_eq!(network().run_connection_loop(10, false), (11, 60000));
    assert_eq!(network().run_connection_loop(55, false), (56, 60000));
    assert_eq!(network().run_connection_loop(10, true), (0, 1000));
}

#[test]
fn only_success_lets_this_node_in() {
    let judge = |t: &str| judge_auth_reply(AuthReply::Text(t.to_string()));
    assert!(judge("{\"type\":\"AUTH_SUCCESS\"}").is_ok());
    let failed = "{\"type\":\"AUTH_FAILED\"}";
    let value: serde_json::Value = serde_json::from_str(failed).unwrap();
    assert_eq!(judge(failed).unwrap_err().message(), format!("Authentication failed: {:?}", value));
    assert_eq!(judge("[]").unwrap_err().message(), "Authentication failed: Array []");
    assert_eq!(judge("{").unwrap_err().message(), "Failed to parse auth response JSON");
}

#[test]
fn other_answers_do_not_let_this_node_in() {
    let message = |reply: AuthReply| judge_auth_reply(reply).unwrap_err().message();
    assert_eq!(
        message(AuthReply::Other { shown: "Ping([])".to_string() }),
        "Unexpected message type during auth: Ping([])"
    );
    assert_eq!(message(AuthReply::Failed), "Error waiting for auth response");
    assert_eq!(message(AuthReply::Closed), "Connection closed by peer before auth response");
    assert_eq!(message(AuthReply::TimedOut), "Timed out waiting for auth response after 10 seconds");
}

#[test]
fn kind_of_an_answer_is_compared() {
    assert!(kind_is_success(&Some("AUTH_SUCCESS".to_string())));
    assert!(!kind_is_success(&Some("auth_success".to_string())));
    assert!(!kind_is_success(&None));
}

#[test]
fn connection_of_this_node_is_served() {
    let n = network();
    let stage = n.establish_and_process_messages();
    assert!(matches!(stage, SessionStage::Connect));
    let stage = stage.resume(&n, SessionReply::Connected(true));
    match &stage {
        SessionStage::SendAuth { request } => {
            let value: serde_json::Value = serde_json::from_str(request).unwrap();
            assert_eq!(value["type"], "AUTH");
            assert_eq!(value["node_id"], "node");
            assert_eq!(value["token"], "secret");
        }
        _ => panic!("no authentication"),
    }
    let stage = stage.resume(&n, SessionReply::Sent(Ok(())));
    let reply = AuthReply::Text("{\"type\":\"AUTH_SUCCESS\"}".to_string());
    let stage = stage.resume(&n, SessionReply::Auth(reply));
    assert!(matches!(stage, SessionStage::AwaitEvent));
    let event = SessionEvent::Received(Incoming::Text("cmd".to_string()));
    let stage = stage.resume(&n, SessionReply::Event(event));
    assert!(matches!(&stage, SessionStage::Dispatch { .. }));
    let stage = stage.resume(&n, SessionReply::Dispatched);
    let event = SessionEvent::ToSend(Outgoing::Binary(vec![1]));
    let stage = stage.resume(&n, SessionReply::Event(event));
    assert!(matches!(&stage, SessionStage::Send { message: Outgoing::Binary(_) }));
    let stage = stage.resume(&n, SessionReply::Sent(Ok(())));
    let stage = stage.resume(&n, SessionReply::Event(SessionEvent::Received(Incoming::Close)));
    assert!(matches!(stage, SessionStage::Finished(Ok(()))));
}

#[test]
fn failed_connection_of_this_node_is_told() {
    let n = network();
    match n.establish_and_process_messages().resume(&n, SessionReply::Connected(false)) {
        SessionStage::Finished(Err(e)) => {
            assert_eq!(e.message(), "Failed to connect to backend WebSocket: ws://back");
        }
        _ => panic!("connected"),
    }
    let stage = n.establish_and_process_messages().resume(&n, SessionReply::Connected(true));
    match stage.resume(&n, SessionReply::Sent(Err("x".to_string()))) {
        SessionStage::Finished(Err(e)) => assert_eq!(e.message(), "Failed to send authentication message"),
        _ => panic!("sent"),
    }
}

#[test]
fn unread_message_becomes_unknown() {
    let d = process_message(None);
    assert!(matches!(d.command, BackendCommand::Unknown) && !d.required);
    let d = process_message(Some(BackendCommand::QueryStatus { command_id: "q".to_string() }));
    assert!(matches!(d.command, BackendCommand::QueryStatus { .. }) && d.required);
}

#[test]
fn node_with_credentials_connects() {
    match start_communication_loop(&config("n", "t")) {
        FirstStep::Connect(n) => {
            assert_eq!(
                (n.backend_ws_url.as_str(), n.auth_token.as_str(), n.node_id.as_str()),
                ("ws://back", "t", "n")
            );
        }
        FirstStep::Register => panic!("registers"),
    }
    for c in [config("", "t"), config("n", ""), config("", "")] {
        assert!(matches!(start_communication_loop(&c), FirstStep::Register));
    }
}

#[test]
fn registration_asks_with_what_is_known() {
    match register_node(&config("", ""), Some("host".to_string()), None) {
        RegistrationStage::Send { url, request } => {
            assert_eq!(url, "http://api/register_node");
            assert_eq!(request.requested_max_gib, 7);
            assert_eq!(request.system_info.hostname, "host");
            assert_eq!(request.system_info.os_version, "unknown_os_version");
        }
        _ => panic!("not sent"),
    }
    match register_node(&config("", ""), None, Some("os".to_string())) {
        RegistrationStage::Send { request, .. } => {
            assert_eq!(request.system_info.hostname, "unknown_hostname");
            assert_eq!(request.system_info.os_version, "os");
        }
        _ => panic!("not sent"),
    }
}

fn status(code: u16) -> HttpStatus {
    HttpStatus { code, shown: format!("{} Shown", code) }
}

#[test]
fn registered_node_gets_its_credentials() {
    let mut c = config("", "");
    let stage = register_node(&c, None, None);
    let stage = stage.resume(RegistrationReply::Answered(Some(status(200))), &mut c);
    assert!(matches!(stage, RegistrationStage::ReadAnswer));
    let response = RegistrationResponse { node_id: "n".to_string(), auth_token: "t".to_string() };
    let stage = stage.resume(RegistrationReply::Parsed(Some(response)), &mut c);
    assert!(matches!(stage, RegistrationStage::Save));
    assert_eq!((c.node_id.as_str(), c.auth_token.as_str(), c.max_storage_gib), ("n", "t", 7));
    let stage = stage.resume(RegistrationReply::Saved(true), &mut c);
    assert!(matches!(stage, RegistrationStage::Finished(Ok(()))));
    assert!(matches!(start_communication_loop(&c), FirstStep::Connect(_)));
}

#[test]
fn failed_registrations_are_told() {
    let message = |stage: RegistrationStage| match stage {
        RegistrationStage::Finished(Err(e)) => e.message(),
        _ => panic!("registered"),
    };
    let mut c = config("", "");
    let first = register_node(&c, None, None);
    assert_eq!(
        message(first.resume(RegistrationReply::Answered(None), &mut c)),
        "Failed to send registration request to backend"
    );
    let first = register_node(&c, None, None);
    assert_eq!(
        message(first.resume(RegistrationReply::Answered(Some(status(403))), &mut c)),
        "Registration failed with status: 403 Shown"
    );
    assert_eq!(
        message(RegistrationStage::ReadAnswer.resume(RegistrationReply::Parsed(None), &mut c)),
        "Failed to parse registration response JSON"
    );
    assert_eq!(
        message(RegistrationStage::Save.resume(RegistrationReply::Saved(false), &mut c)),
        "Failed to save updated config after registration"
    );
    assert_eq!((c.node_id.as_str(), c.auth_token.as_str()), ("", ""));
}
