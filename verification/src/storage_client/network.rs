//! The connection of this node to the backend, and its registration.

use crate::json;
use crate::network;
use crate::network::{Incoming, Outgoing, SessionEvent};
use crate::storage_client::commands::{BackendCommand, HttpStatus};
use crate::storage_client::storage::NodeStatus;
use crate::text;
use vstd::prelude::*;
use vstd::string::*;

verus! {

/// The number of commands, and of answers, that wait to be handled.
pub const QUEUE_LENGTH: u64 = 32;

/// What this node is configured with.
#[derive(Debug)]
pub struct NodeConfig {
    pub node_id: String,
    pub auth_token: String,
    pub storage_path: String,
    pub max_storage_gib: u64,
    pub backend_ws_url: String,
    pub backend_api_url: String,
}

impl NodeConfig {
    /// The node has an identifier and a token.
    pub open spec fn has_credentials(self) -> bool {
        self.node_id@.len() > 0 && self.auth_token@.len() > 0
    }
}

/// How a command went, as the backend is told.
#[derive(Debug)]
pub struct CommandResult {
    pub kind: String,
    pub command_id: String,
    pub success: bool,
    pub error: Option<String>,
}

/// The message that the command `command_id` went like this: an error is told by its text.
pub fn send_command_result(command_id: String, operation_result: Result<(), String>) -> (message: CommandResult)
    ensures
        message.kind@ == "COMMAND_RESULT"@,
        message.command_id == command_id,
        message.success == operation_result is Ok,
        message.error == match operation_result {
            Ok(_) => None::<String>,
            Err(e) => Some(e),
        },
{
    match operation_result {
        Ok(_) => CommandResult { kind: "COMMAND_RESULT".to_owned(), command_id, success: true, error: None },
        Err(e) => CommandResult { kind: "COMMAND_RESULT".to_owned(), command_id, success: false, error: Some(e) },
    }
}

/// A report of the storage, as it is sent to the backend.
#[derive(Debug)]
pub struct StatusReport {
    pub kind: String,
    pub command_id: String,
    pub status: NodeStatus,
}

/// The message with this report, in answer to the command `command_id`.
pub fn send_status_report(command_id: String, status_data: NodeStatus) -> (message: StatusReport)
    ensures
        message.kind@ == "STATUS_REPORT"@,
        message.command_id == command_id,
        message.status == status_data,
{
    StatusReport { kind: "STATUS_REPORT".to_owned(), command_id, status: status_data }
}

/// A connection to the backend that the node keeps up.
#[derive(Debug)]
pub struct Network {
    pub backend_ws_url: String,
    pub auth_token: String,
    pub node_id: String,
}

/// Why a connection ended in failure.
#[derive(Debug)]
pub enum SessionError {
    Connect { backend_ws_url: String },
    SendAuth,
    AuthNotJson,
    AuthFailed { shown: String },
    AuthOtherMessage { shown: String },
    AuthReceive,
    AuthClosed,
    AuthTimedOut,
    Receive { reason: String },
    Send { reason: String },
}

impl SessionError {
    /// The text of `message`.
    pub open spec fn text(self) -> Seq<char> {
        match self {
            SessionError::Connect { backend_ws_url } =>
                "Failed to connect to backend WebSocket: "@ + backend_ws_url@,
            SessionError::SendAuth => "Failed to send authentication message"@,
            SessionError::AuthNotJson => "Failed to parse auth response JSON"@,
            SessionError::AuthFailed { shown } => "Authentication failed: "@ + shown@,
            SessionError::AuthOtherMessage { shown } => "Unexpected message type during auth: "@ + shown@,
            SessionError::AuthReceive => "Error waiting for auth response"@,
            SessionError::AuthClosed => "Connection closed by peer before auth response"@,
            SessionError::AuthTimedOut =>
                "Timed out waiting for auth response after "@ + text::decimal(network::AUTH_TIMEOUT_SECONDS as nat)
                    + " seconds"@,
            SessionError::Receive { reason } => reason@,
            SessionError::Send { reason } => reason@,
        }
    }

    /// The message to show for this error.
    pub fn message(&self) -> (r: String)
        ensures
            r@ == self.text(),
    {
        match self {
            SessionError::Connect { backend_ws_url } => text::concat2(
                "Failed to connect to backend WebSocket: ",
                backend_ws_url.as_str(),
            ),
            SessionError::SendAuth => "Failed to send authentication message".to_owned(),
            SessionError::AuthNotJson => "Failed to parse auth response JSON".to_owned(),
            SessionError::AuthFailed { shown } => text::concat2("Authentication failed: ", shown.as_str()),
            SessionError::AuthOtherMessage { shown } => text::concat2(
                "Unexpected message type during auth: ",
                shown.as_str(),
            ),
            SessionError::AuthReceive => "Error waiting for auth response".to_owned(),
            SessionError::AuthClosed => "Connection closed by peer before auth response".to_owned(),
            SessionError::AuthTimedOut => text::concat3(
                "Timed out waiting for auth response after ",
                text::decimal_text(network::AUTH_TIMEOUT_SECONDS).as_str(),
                " seconds",
            ),
            SessionError::Receive { reason } => reason.clone(),
            SessionError::Send { reason } => reason.clone(),
        }
    }
}

/// What the backend answered, or did not, to the authentication of the node.
#[derive(Debug)]
pub enum AuthReply {
    Text(String),
    /// Another message, as it is shown.
    Other { shown: String },
    /// A message could not be received.
    Failed,
    Closed,
    TimedOut,
}

/// The type of the answer says that the node is in.
pub open spec fn is_success(kind: Option<Seq<char>>) -> bool {
    kind == Some("AUTH_SUCCESS"@)
}

/// Does the type of the answer say that the node is in?
pub fn kind_is_success(kind: &Option<String>) -> (yes: bool)
    ensures
        yes == is_success(network::text_view(*kind)),
{
    match kind {
        Some(k) => text::same(k.as_str(), "AUTH_SUCCESS"),
        None => false,
    }
}

/// The backend has let the node in: its answer is JSON and says so.
pub open spec fn lets_in(reply: AuthReply) -> bool {
    match reply {
        AuthReply::Text(t) => match json::parsed_members(t@) {
            Some(members) => is_success(network::member(members, "type"@)),
            None => false,
        },
        _ => false,
    }
}

/// Why the answer `reply` does not let the node in.
pub open spec fn states_failure(error: SessionError, reply: AuthReply) -> bool {
    match reply {
        AuthReply::Text(t) => match json::parsed_members(t@) {
            None => error is AuthNotJson,
            Some(_) => error matches SessionError::AuthFailed { shown } && shown@ == json::shown_json(t@),
        },
        AuthReply::Other { shown } => error == (SessionError::AuthOtherMessage { shown }),
        AuthReply::Failed => error is AuthReceive,
        AuthReply::Closed => error is AuthClosed,
        AuthReply::TimedOut => error is AuthTimedOut,
    }
}

/// Judges the answer to the authentication.
pub fn judge_auth_reply(reply: AuthReply) -> (r: Result<(), SessionError>)
    ensures
        r is Ok <==> lets_in(reply),
        r matches Err(e) ==> states_failure(e, reply),
{
    match reply {
        AuthReply::Text(t) => match json::parse_json(t.as_str()) {
            Err(_) => Err(SessionError::AuthNotJson),
            Ok(value) => {
                let kind = json::text_member(&value, "type");
                if kind_is_success(&kind) {
                    Ok(())
                } else {
                    Err(SessionError::AuthFailed { shown: json::show_json(t.as_str()) })
                }
            },
        },
        AuthReply::Other { shown } => Err(SessionError::AuthOtherMessage { shown }),
        AuthReply::Failed => Err(SessionError::AuthReceive),
        AuthReply::Closed => Err(SessionError::AuthClosed),
        AuthReply::TimedOut => Err(SessionError::AuthTimedOut),
    }
}

/// What comes next in a connection.
#[derive(Debug)]
pub enum SessionStage {
    Connect,
    /// Send this message, which authenticates the node.
    SendAuth { request: String },
    /// Wait for the answer to the authentication, but not for long.
    AwaitAuth,
    /// Wait for something to happen.
    AwaitEvent,
    /// Hand on this text, which should be a command; what comes of it does not matter here.
    Dispatch { command: String },
    /// Answer a ping with its own data.
    SendPong { data: Vec<u8> },
    /// Send this message.
    Send { message: Outgoing },
    /// Nothing: the connection is over.
    Finished(Result<(), SessionError>),
}

/// The outcome of a stage of a connection.
#[derive(Debug)]
pub enum SessionReply {
    /// For `Connect`: whether it was done.
    Connected(bool),
    /// For `SendAuth`, `SendPong` and `Send`: why it was not sent, if it was not.
    Sent(Result<(), String>),
    /// For `AwaitAuth`.
    Auth(AuthReply),
    /// For `AwaitEvent`.
    Event(SessionEvent),
    /// For `Dispatch`.
    Dispatched,
}

impl Network {
    /// A connection to `backend_ws_url` for the node `node_id`.
    pub fn init(backend_ws_url: String, auth_token: String, node_id: String) -> (network: Network)
        ensures
            network == (Network { backend_ws_url, auth_token, node_id }),
    {
        Network { backend_ws_url, auth_token, node_id }
    }

    /// One round of the loop that keeps the connection up: after an attempt that ended well or
    /// not, the number of failures in a row, and the delay before the next attempt in
    /// milliseconds.
    pub fn run_connection_loop(&self, failures: u64, ended_well: bool) -> (r: (u64, u64))
        requires
            ended_well || failures < u64::MAX,
        ensures
            r.0 == network::failures_after(failures, ended_well),
            r.1 == network::retry_delay(network::failures_after(failures, ended_well)),
    {
        network::after_attempt(failures, ended_well)
    }

    /// Begins a connection.
    pub fn establish_and_process_messages(&self) -> (stage: SessionStage)
        ensures
            stage is Connect,
    {
        SessionStage::Connect
    }
}

impl SessionStage {
    /// `reply` is an outcome of this stage.
    pub open spec fn expects(self, reply: SessionReply) -> bool {
        match self {
            SessionStage::Connect => reply is Connected,
            SessionStage::SendAuth { .. } => reply is Sent,
            SessionStage::AwaitAuth => reply is Auth,
            SessionStage::AwaitEvent => reply is Event,
            SessionStage::Dispatch { .. } => reply is Dispatched,
            SessionStage::SendPong { .. } => reply is Sent,
            SessionStage::Send { .. } => reply is Sent,
            SessionStage::Finished(_) => false,
        }
    }

    /// `next` is what comes after this stage and its outcome `reply`, in a connection of `node`.
    pub open spec fn leads_to(self, node: Network, reply: SessionReply, next: SessionStage) -> bool {
        match (self, reply) {
            (SessionStage::Connect, SessionReply::Connected(true)) =>
                next matches SessionStage::SendAuth { request } && request@ == json::object_text(
                    network::auth_members(node.node_id@, node.auth_token@),
                ),
            (SessionStage::Connect, SessionReply::Connected(false)) => next == SessionStage::Finished(
                Err(SessionError::Connect { backend_ws_url: node.backend_ws_url }),
            ),
            (SessionStage::SendAuth { .. }, SessionReply::Sent(Ok(_))) => next == SessionStage::AwaitAuth,
            (SessionStage::SendAuth { .. }, SessionReply::Sent(Err(_))) =>
                next == SessionStage::Finished(Err(SessionError::SendAuth)),
            (SessionStage::AwaitAuth, SessionReply::Auth(answer)) => if lets_in(answer) {
                next == SessionStage::AwaitEvent
            } else {
                next matches SessionStage::Finished(Err(e)) && states_failure(e, answer)
            },
            (SessionStage::AwaitEvent, SessionReply::Event(event)) => next == match event {
                SessionEvent::Received(Incoming::Text(command)) => SessionStage::Dispatch { command },
                SessionEvent::Received(Incoming::Ping(data)) => SessionStage::SendPong { data },
                SessionEvent::Received(Incoming::Close) => SessionStage::Finished(Ok(())),
                SessionEvent::Received(Incoming::Other) => SessionStage::AwaitEvent,
                SessionEvent::ReceiveFailed { reason } =>
                    SessionStage::Finished(Err(SessionError::Receive { reason })),
                SessionEvent::ToSend(message) => SessionStage::Send { message },
                SessionEvent::Ended => SessionStage::Finished(Ok(())),
            },
            (SessionStage::Dispatch { .. }, SessionReply::Dispatched) => next == SessionStage::AwaitEvent,
            (_, SessionReply::Sent(Ok(_))) => next == SessionStage::AwaitEvent,
            (_, SessionReply::Sent(Err(reason))) =>
                next == SessionStage::Finished(Err(SessionError::Send { reason })),
            _ => next == self,
        }
    }

    /// Goes on with the outcome of this stage.
    pub fn resume(self, node: &Network, reply: SessionReply) -> (next: SessionStage)
        requires
            self.expects(reply),
        ensures
            self.leads_to(*node, reply, next),
    {
        match (self, reply) {
            (SessionStage::Connect, SessionReply::Connected(done)) => if done {
                SessionStage::SendAuth {
                    request: network::auth_request(node.node_id.as_str(), node.auth_token.as_str()),
                }
            } else {
                SessionStage::Finished(
                    Err(SessionError::Connect { backend_ws_url: node.backend_ws_url.clone() }),
                )
            },
            (SessionStage::SendAuth { .. }, SessionReply::Sent(result)) => match result {
                Ok(_) => SessionStage::AwaitAuth,
                Err(_) => SessionStage::Finished(Err(SessionError::SendAuth)),
            },
            (SessionStage::AwaitAuth, SessionReply::Auth(answer)) => match judge_auth_reply(answer) {
                Ok(_) => SessionStage::AwaitEvent,
                Err(e) => SessionStage::Finished(Err(e)),
            },
            (SessionStage::AwaitEvent, SessionReply::Event(event)) => match event {
                SessionEvent::Received(Incoming::Text(command)) => SessionStage::Dispatch { command },
                SessionEvent::Received(Incoming::Ping(data)) => SessionStage::SendPong { data },
                SessionEvent::Received(Incoming::Close) => SessionStage::Finished(Ok(())),
                SessionEvent::Received(Incoming::Other) => SessionStage::AwaitEvent,
                SessionEvent::ReceiveFailed { reason } => SessionStage::Finished(
                    Err(SessionError::Receive { reason }),
                ),
                SessionEvent::ToSend(message) => SessionStage::Send { message },
                SessionEvent::Ended => SessionStage::Finished(Ok(())),
            },
            (SessionStage::Dispatch { .. }, SessionReply::Dispatched) => SessionStage::AwaitEvent,
            (_, SessionReply::Sent(result)) => match result {
                Ok(_) => SessionStage::AwaitEvent,
                Err(reason) => SessionStage::Finished(Err(SessionError::Send { reason })),
            },
            (stage, _) => stage,
        }
    }

    /// The connection is being served: commands are taken and messages are sent.
    pub open spec fn is_served(self) -> bool {
        self is AwaitEvent || self is Dispatch || self is SendPong || self is Send
    }
}

/// The stages a connection went through, and their outcomes.
pub open spec fn is_session(node: Network, stages: Seq<SessionStage>, replies: Seq<SessionReply>) -> bool {
    &&& stages.len() == replies.len() + 1
    &&& stages[0] is Connect
    &&& forall|i: int|
        0 <= i < replies.len() ==> #[trigger] stages[i].expects(replies[i]) && stages[i].leads_to(
            node,
            replies[i],
            stages[i + 1],
        )
}

/// No command is taken from the backend, and no message is sent to it but the authentication,
/// before the backend has let the node in.
pub proof fn nothing_before_auth(
    node: Network,
    stages: Seq<SessionStage>,
    replies: Seq<SessionReply>,
    i: int,
) -> (at: int)
    requires
        is_session(node, stages, replies),
        0 <= i < stages.len(),
        stages[i].is_served(),
    ensures
        0 <= at < i,
        stages[at] is AwaitAuth,
        replies[at] matches SessionReply::Auth(answer) && lets_in(answer),
    decreases i,
{
    assert(i > 0);
    assert(stages[i - 1].expects(replies[i - 1]));
    if stages[i - 1].is_served() {
        nothing_before_auth(node, stages, replies, i - 1)
    } else {
        i - 1
    }
}

/// A command to hand on to the handler of commands. One that is required must be taken.
#[derive(Debug)]
pub struct Delivery {
    pub command: BackendCommand,
    pub required: bool,
}

/// What to hand on for a message that was read as a command, or could not be.
pub fn process_message(parsed: Option<BackendCommand>) -> (delivery: Delivery)
    ensures
        delivery == match parsed {
            Some(command) => (Delivery { command, required: true }),
            None => (Delivery { command: BackendCommand::Unknown, required: false }),
        },
{
    match parsed {
        Some(command) => Delivery { command, required: true },
        None => Delivery { command: BackendCommand::Unknown, required: false },
    }
}

/// What the backend is told of the machine of a new node.
#[derive(Debug)]
pub struct SystemInfo {
    pub hostname: String,
    pub os_version: String,
}

/// The request of a new node to be registered.
#[derive(Debug)]
pub struct RegistrationRequest {
    pub requested_max_gib: u64,
    pub system_info: SystemInfo,
}

/// What a new node gets from the backend.
#[derive(Debug)]
pub struct RegistrationResponse {
    pub node_id: String,
    pub auth_token: String,
}

/// Why a node was not registered.
#[derive(Debug)]
pub enum RegistrationError {
    Send,
    Refused { status: HttpStatus },
    Parse,
    Save,
}

impl RegistrationError {
    /// The text of `message`.
    pub open spec fn text(self) -> Seq<char> {
        match self {
            RegistrationError::Send => "Failed to send registration request to backend"@,
            RegistrationError::Refused { status } => "Registration failed with status: "@ + status.shown@,
            RegistrationError::Parse => "Failed to parse registration response JSON"@,
            RegistrationError::Save => "Failed to save updated config after registration"@,
        }
    }

    /// The message to show for this error.
    pub fn message(&self) -> (r: String)
        ensures
            r@ == self.text(),
    {
        match self {
            RegistrationError::Send => "Failed to send registration request to backend".to_owned(),
            RegistrationError::Refused { status } => text::concat2(
                "Registration failed with status: ",
                status.shown.as_str(),
            ),
            RegistrationError::Parse => "Failed to parse registration response JSON".to_owned(),
            RegistrationError::Save => "Failed to save updated config after registration".to_owned(),
        }
    }
}

/// What comes next in the registration of a node.
#[derive(Debug)]
pub enum RegistrationStage {
    /// Send this request to this address.
    Send { url: String, request: RegistrationRequest },
    /// Read the answer.
    ReadAnswer,
    /// Save the configuration.
    Save,
    /// Nothing: the node is registered, or why it is not.
    Finished(Result<(), RegistrationError>),
}

/// The outcome of a stage of a registration.
#[derive(Debug)]
pub enum RegistrationReply {
    /// For `Send`: the status of the answer, where there is one.
    Answered(Option<HttpStatus>),
    /// For `ReadAnswer`: what it was read as, where it could be read.
    Parsed(Option<RegistrationResponse>),
    /// For `Save`: whether it was done.
    Saved(bool),
}

/// Begins to register a node on a machine with this name and system, as far as they are known.
pub fn register_node(config: &NodeConfig, host_name: Option<String>, long_os_version: Option<String>) -> (stage:
    RegistrationStage)
    ensures
        stage matches RegistrationStage::Send { url, request } && {
            &&& url@ == config.backend_api_url@ + "/register_node"@
            &&& request.requested_max_gib == config.max_storage_gib
            &&& match host_name {
                Some(name) => request.system_info.hostname == name,
                None => request.system_info.hostname@ == "unknown_hostname"@,
            }
            &&& match long_os_version {
                Some(version) => request.system_info.os_version == version,
                None => request.system_info.os_version@ == "unknown_os_version"@,
            }
        },
{
    let hostname = match host_name {
        Some(name) => name,
        None => "unknown_hostname".to_owned(),
    };
    let os_version = match long_os_version {
        Some(version) => version,
        None => "unknown_os_version".to_owned(),
    };
    RegistrationStage::Send {
        url: text::concat2(config.backend_api_url.as_str(), "/register_node"),
        request: RegistrationRequest {
            requested_max_gib: config.max_storage_gib,
            system_info: SystemInfo { hostname, os_version },
        },
    }
}

impl RegistrationStage {
    /// `reply` is an outcome of this stage.
    pub open spec fn expects(self, reply: RegistrationReply) -> bool {
        match self {
            RegistrationStage::Send { .. } => reply is Answered,
            RegistrationStage::ReadAnswer => reply is Parsed,
            RegistrationStage::Save => reply is Saved,
            RegistrationStage::Finished(_) => false,
        }
    }

    /// What comes after this stage and its outcome `reply`.
    pub open spec fn after(self, reply: RegistrationReply) -> RegistrationStage {
        match (self, reply) {
            (RegistrationStage::Send { .. }, RegistrationReply::Answered(Some(status))) => if status.succeeded() {
                RegistrationStage::ReadAnswer
            } else {
                RegistrationStage::Finished(Err(RegistrationError::Refused { status }))
            },
            (RegistrationStage::Send { .. }, RegistrationReply::Answered(None)) =>
                RegistrationStage::Finished(Err(RegistrationError::Send)),
            (RegistrationStage::ReadAnswer, RegistrationReply::Parsed(Some(_))) => RegistrationStage::Save,
            (RegistrationStage::ReadAnswer, RegistrationReply::Parsed(None)) =>
                RegistrationStage::Finished(Err(RegistrationError::Parse)),
            (RegistrationStage::Save, RegistrationReply::Saved(done)) => if done {
                RegistrationStage::Finished(Ok(()))
            } else {
                RegistrationStage::Finished(Err(RegistrationError::Save))
            },
            (stage, _) => stage,
        }
    }

    /// The configuration after this stage and its outcome `reply`: the identifier and the token
    /// are those of the answer, and nothing else changes.
    pub open spec fn config_after(self, reply: RegistrationReply, config: NodeConfig) -> NodeConfig {
        match (self, reply) {
            (RegistrationStage::ReadAnswer, RegistrationReply::Parsed(Some(response))) => NodeConfig {
                node_id: response.node_id,
                auth_token: response.auth_token,
                ..config
            },
            _ => config,
        }
    }

    /// Goes on with the outcome of this stage.
    pub fn resume(self, reply: RegistrationReply, config: &mut NodeConfig) -> (next: RegistrationStage)
        requires
            self.expects(reply),
        ensures
            next == self.after(reply),
            *final(config) == self.config_after(reply, *old(config)),
    {
        match (self, reply) {
            (RegistrationStage::Send { .. }, RegistrationReply::Answered(answer)) => match answer {
                Some(status) => if status.is_success() {
                    RegistrationStage::ReadAnswer
                } else {
                    RegistrationStage::Finished(Err(RegistrationError::Refused { status }))
                },
                None => RegistrationStage::Finished(Err(RegistrationError::Send)),
            },
            (RegistrationStage::ReadAnswer, RegistrationReply::Parsed(parsed)) => match parsed {
                Some(response) => {
                    config.node_id = response.node_id;
                    config.auth_token = response.auth_token;
                    RegistrationStage::Save
                },
                None => RegistrationStage::Finished(Err(RegistrationError::Parse)),
            },
            (RegistrationStage::Save, RegistrationReply::Saved(done)) => if done {
                RegistrationStage::Finished(Ok(()))
            } else {
                RegistrationStage::Finished(Err(RegistrationError::Save))
            },
            (stage, _) => stage,
        }
    }
}

/// What a node does first: it registers, or it connects.
#[derive(Debug)]
pub enum FirstStep {
    Register,
    Connect(Network),
}

/// A node that has an identifier and a token connects with them; another one registers first.
pub fn start_communication_loop(config: &NodeConfig) -> (step: FirstStep)
    ensures
        step == if config.has_credentials() {
            FirstStep::Connect(
                Network {
                    backend_ws_url: config.backend_ws_url,
                    auth_token: config.auth_token,
                    node_id: config.node_id,
                },
            )
        } else {
            FirstStep::Register
        },
{
    if config.node_id.as_str().is_empty() || config.auth_token.as_str().is_empty() {
        FirstStep::Register
    } else {
        FirstStep::Connect(
            Network::init(config.backend_ws_url.clone(), config.auth_token.clone(), config.node_id.clone()),
        )
    }
}

/// A registration that succeeds leaves the node with what the backend gave it, saved; where the
/// backend gave it an identifier and a token, it can connect.
pub proof fn registered_node_can_connect(
    config: NodeConfig,
    response: RegistrationResponse,
    status: HttpStatus,
    first: RegistrationStage,
)
    requires
        first is Send,
        status.succeeded(),
    ensures
        ({
            let sent = RegistrationReply::Answered(Some(status));
            let read = RegistrationReply::Parsed(Some(response));
            let second = first.after(sent);
            let third = second.after(read);
            let registered = second.config_after(read, first.config_after(sent, config));
            &&& third is Save
            &&& third.after(RegistrationReply::Saved(true)) == RegistrationStage::Finished(Ok(()))
            &&& registered.node_id == response.node_id
            &&& registered.auth_token == response.auth_token
            &&& registered.max_storage_gib == config.max_storage_gib
            &&& registered.storage_path == config.storage_path
            &&& registered.backend_ws_url == config.backend_ws_url
            &&& registered.has_credentials() == (response.node_id@.len() > 0 && response.auth_token@.len() > 0)
        }),
{
}

} // verus!
