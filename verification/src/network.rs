//! The connection to the backend: how it is made, authenticated, served and made again.

use crate::commands::{BackendCommand, NodeStatus};
use crate::config::Config;
use crate::json;
use crate::storage::StorageState;
use crate::text;
use vstd::arithmetic::power2::*;
use vstd::prelude::*;
use vstd::string::*;

verus! {

/// The delay before the first new attempt to connect, in milliseconds.
pub const RETRY_BASE_MS: u64 = 1000;

/// The longest delay before a new attempt to connect, in milliseconds.
pub const RETRY_MAX_MS: u64 = 60000;

/// How long the node waits for the answer to its authentication, in seconds.
pub const AUTH_TIMEOUT_SECONDS: u64 = 10;

/// The largest message the node takes, in bytes.
pub const MAX_MESSAGE_BYTES: u64 = 0x400_0000;

/// The number of commands, and of answers, that wait to be handled.
pub const QUEUE_LENGTH: u64 = 256;

/// A connection to the backend that the node keeps up.
#[derive(Debug)]
pub struct Network {
    pub ws_url: String,
    pub auth_token: String,
    pub node_id: String,
}

/// The number of attempts that have failed in a row, after one more that ended well or not.
pub open spec fn failures_after(failures: u64, ended_well: bool) -> nat {
    if ended_well {
        0
    } else {
        failures as nat + 1
    }
}

/// The delay for this many failures in a row, before it is cut off: doubled with every failure
/// after the first.
pub open spec fn doubled_delay(failures: nat) -> nat {
    RETRY_BASE_MS as nat * pow2(
        if failures == 0 {
            0
        } else {
            (failures - 1) as nat
        },
    )
}

/// The delay before the next attempt, after this many failures in a row.
pub open spec fn retry_delay(failures: nat) -> nat {
    if doubled_delay(failures) <= RETRY_MAX_MS {
        doubled_delay(failures)
    } else {
        RETRY_MAX_MS as nat
    }
}

/// A longer series of failures never shortens the delay, which stays between one second and one
/// minute.
pub proof fn retry_delay_grows(fewer: nat, more: nat)
    requires
        fewer <= more,
    ensures
        RETRY_BASE_MS <= retry_delay(fewer) <= retry_delay(more) <= RETRY_MAX_MS,
{
    let a = if fewer == 0 {
        0nat
    } else {
        (fewer - 1) as nat
    };
    let b = if more == 0 {
        0nat
    } else {
        (more - 1) as nat
    };
    lemma_pow2_pos(a);
    lemma_pow2_pos(b);
    if a < b {
        lemma_pow2_strictly_increases(a, b);
    }
}

/// A connection that ended well is made again after the shortest delay.
pub proof fn retry_starts_over(failures: u64)
    ensures
        failures_after(failures, true) == 0,
        retry_delay(failures_after(failures, true)) == RETRY_BASE_MS,
{
    lemma2_to64();
}

impl Network {
    /// A connection to `ws_url` for the node `node_id`.
    pub fn init(ws_url: String, auth_token: String, node_id: String) -> (network: Network)
        ensures
            network == (Network { ws_url, auth_token, node_id }),
    {
        Network { ws_url, auth_token, node_id }
    }

    /// One round of the loop that keeps the connection up: after an attempt that ended well or
    /// not, the number of failures in a row, and the delay before the next attempt in
    /// milliseconds.
    pub fn run_connection_loop(&self, failures: u64, ended_well: bool) -> (r: (u64, u64))
        requires
            ended_well || failures < u64::MAX,
        ensures
            r.0 == failures_after(failures, ended_well),
            r.1 == retry_delay(failures_after(failures, ended_well)),
    {
        after_attempt(failures, ended_well)
    }
}

/// What comes after an attempt to connect that ended well or not: the number of failures in a row,
/// and the delay before the next attempt in milliseconds.
pub fn after_attempt(failures: u64, ended_well: bool) -> (r: (u64, u64))
    requires
        ended_well || failures < u64::MAX,
    ensures
        r.0 == failures_after(failures, ended_well),
        r.1 == retry_delay(failures_after(failures, ended_well)),
{
    let next: u64 = if ended_well {
        0
    } else {
        failures + 1
    };
    let doublings: u64 = next.saturating_sub(1);
    let mut delay: u64 = RETRY_BASE_MS;
    let mut k: u64 = 0;
    proof {
        lemma2_to64();
    }
    while k < doublings && delay <= RETRY_MAX_MS
        invariant
            k <= doublings,
            delay == RETRY_BASE_MS * pow2(k as nat),
            delay <= 2 * RETRY_MAX_MS,
        decreases doublings - k,
    {
        proof {
            lemma_pow2_unfold((k + 1) as nat);
        }
        delay = delay * 2;
        k += 1;
    }
    if delay <= RETRY_MAX_MS {
        (next, delay)
    } else {
        proof {
            if k < doublings {
                lemma_pow2_strictly_increases(k as nat, doublings as nat);
            }
        }
        (next, RETRY_MAX_MS)
    }
}

/// A message from the backend.
#[derive(Debug)]
pub enum Incoming {
    Text(String),
    Ping(Vec<u8>),
    Close,
    /// A message of a kind the node has no use for.
    Other,
}

/// A message to the backend.
#[derive(Debug)]
pub enum Outgoing {
    Text(String),
    Binary(Vec<u8>),
}

/// Why a connection ended in failure.
#[derive(Debug)]
pub enum SessionError {
    /// There is no encryption to connect with.
    NoTls,
    Connect { ws_url: String },
    SendAuth,
    AuthNotJson,
    AuthFailed { reason: String },
    AuthUnexpected { reply: String },
    AuthOtherMessage { shown: String },
    AuthClosed,
    AuthTimedOut,
    Receive { reason: String },
    Send { reason: String },
}

impl SessionError {
    /// The text of `message`.
    pub open spec fn text(self) -> Seq<char> {
        match self {
            SessionError::NoTls => "Failed to build native TLS connector"@,
            SessionError::Connect { ws_url } => "Failed to connect to WebSocket: "@ + ws_url@,
            SessionError::SendAuth => "Failed to send authentication message"@,
            SessionError::AuthNotJson => "Failed to parse auth response as JSON"@,
            SessionError::AuthFailed { reason } => "Authentication failed: "@ + reason@,
            SessionError::AuthUnexpected { reply } => "Unexpected auth response: "@ + reply@,
            SessionError::AuthOtherMessage { shown } => "Unexpected message during auth: "@ + shown@,
            SessionError::AuthClosed => "Connection closed by peer before auth response"@,
            SessionError::AuthTimedOut => "Timed out waiting for auth response"@,
            SessionError::Receive { reason } => reason@,
            SessionError::Send { reason } => reason@,
        }
    }

    /// The message to show for this error.
    pub fn message(&self) -> (r: String)
        ensures
            r@ == self.text(),
    {
        match self {
            SessionError::NoTls => "Failed to build native TLS connector".to_owned(),
            SessionError::Connect { ws_url } => text::concat2("Failed to connect to WebSocket: ", ws_url.as_str()),
            SessionError::SendAuth => "Failed to send authentication message".to_owned(),
            SessionError::AuthNotJson => "Failed to parse auth response as JSON".to_owned(),
            SessionError::AuthFailed { reason } => text::concat2("Authentication failed: ", reason.as_str()),
            SessionError::AuthUnexpected { reply } => text::concat2("Unexpected auth response: ", reply.as_str()),
            SessionError::AuthOtherMessage { shown } => text::concat2(
                "Unexpected message during auth: ",
                shown.as_str(),
            ),
            SessionError::AuthClosed => "Connection closed by peer before auth response".to_owned(),
            SessionError::AuthTimedOut => "Timed out waiting for auth response".to_owned(),
            SessionError::Receive { reason } => reason.clone(),
            SessionError::Send { reason } => reason.clone(),
        }
    }
}

/// What the backend answered, or did not, to the authentication of the node.
#[derive(Debug)]
pub enum AuthReply {
    Text(String),
    /// Another message, or a failure to receive one, as it is shown.
    Other { shown: String },
    Closed,
    TimedOut,
}

/// What the type of the answer to the authentication, the reason in it and the answer as a whole
/// amount to: nothing where the node is in, else why it is not.
pub open spec fn auth_verdict(
    kind: Option<Seq<char>>,
    reason: Option<Seq<char>>,
    reply: Seq<char>,
) -> Option<SessionVerdict> {
    if kind == Some("AUTH_SUCCESS"@) {
        None
    } else if kind == Some("AUTH_FAILED"@) {
        Some(
            SessionVerdict::Failed(
                match reason {
                    Some(r) => r,
                    None => "Unknown reason"@,
                },
            ),
        )
    } else {
        Some(SessionVerdict::Unexpected(reply))
    }
}

/// Why an answer in JSON is not a success.
pub enum SessionVerdict {
    Failed(Seq<char>),
    Unexpected(Seq<char>),
}

/// `error` says what `verdict` says.
pub open spec fn states_verdict(error: SessionError, verdict: SessionVerdict) -> bool {
    match verdict {
        SessionVerdict::Failed(why) => error matches SessionError::AuthFailed { reason } && reason@ == why,
        SessionVerdict::Unexpected(text) => error matches SessionError::AuthUnexpected { reply } && reply@ == text,
    }
}

/// A text that may be missing, as characters.
pub open spec fn text_view(t: Option<String>) -> Option<Seq<char>> {
    match t {
        Some(s) => Some(s@),
        None => None,
    }
}

/// Judges the answer `reply` to the authentication by its members `type` and `reason`.
pub fn judge_auth_members(kind: Option<String>, reason: Option<String>, reply: String) -> (r: Result<
    (),
    SessionError,
>)
    ensures
        match auth_verdict(text_view(kind), text_view(reason), reply@) {
            None => r is Ok,
            Some(verdict) => r matches Err(e) && states_verdict(e, verdict),
        },
{
    match kind {
        Some(k) => {
            if text::same(k.as_str(), "AUTH_SUCCESS") {
                Ok(())
            } else if text::same(k.as_str(), "AUTH_FAILED") {
                let why = match reason {
                    Some(w) => w,
                    None => "Unknown reason".to_owned(),
                };
                Err(SessionError::AuthFailed { reason: why })
            } else {
                Err(SessionError::AuthUnexpected { reply })
            }
        },
        None => Err(SessionError::AuthUnexpected { reply }),
    }
}

/// The member `key` of an object, where it is text.
pub open spec fn member(members: Map<Seq<char>, Seq<char>>, key: Seq<char>) -> Option<Seq<char>> {
    if members.contains_key(key) {
        Some(members[key])
    } else {
        None
    }
}

/// The backend has let the node in: its answer is JSON and says so.
pub open spec fn lets_in(reply: AuthReply) -> bool {
    match reply {
        AuthReply::Text(t) => match json::parsed_members(t@) {
            Some(members) => member(members, "type"@) == Some("AUTH_SUCCESS"@),
            None => false,
        },
        _ => false,
    }
}

/// Why the answer `reply` does not let the node in.
pub open spec fn states_failure(error: SessionError, reply: AuthReply) -> bool {
    match reply {
        AuthReply::Text(t) => match json::parsed_members(t@) {
            None => error is AuthNotJson,
            Some(members) => auth_verdict(member(members, "type"@), member(members, "reason"@), t@) matches Some(v)
                && states_verdict(error, v),
        },
        AuthReply::Other { shown } => error == SessionError::AuthOtherMessage { shown },
        AuthReply::Closed => error is AuthClosed,
        AuthReply::TimedOut => error is AuthTimedOut,
    }
}

/// Judges the answer to the authentication.
pub fn judge_auth_reply(reply: AuthReply) -> (r: Result<(), SessionError>)
    ensures
        r is Ok <==> lets_in(reply),
        r matches Err(e) ==> states_failure(e, reply),
{
    match reply {
        AuthReply::Text(t) => match json::parse_json(t.as_str()) {
            Err(_) => Err(SessionError::AuthNotJson),
            Ok(value) => {
                let kind = json::text_member(&value, "type");
                let reason = json::text_member(&value, "reason");
                judge_auth_members(kind, reason, t)
            },
        },
        AuthReply::Other { shown } => Err(SessionError::AuthOtherMessage { shown }),
        AuthReply::Closed => Err(SessionError::AuthClosed),
        AuthReply::TimedOut => Err(SessionError::AuthTimedOut),
    }
}

/// The members of the message a node authenticates with.
pub open spec fn auth_members(node_id: Seq<char>, token: Seq<char>) -> Seq<(Seq<char>, Seq<char>)> {
    seq![("type"@, "AUTH"@), ("node_id"@, node_id), ("token"@, token)]
}

/// The message a node authenticates with: a JSON object with its identifier and its token.
pub fn auth_request(node_id: &str, token: &str) -> (r: String)
    ensures
        r@ == json::object_text(auth_members(node_id@, token@)),
        json::parsed_members(r@) == Some(
            map!["type"@ => "AUTH"@, "node_id"@ => node_id@, "token"@ => token@],
        ),
{
    let mut members: Vec<(String, String)> = Vec::new();
    members.push(("type".to_owned(), "AUTH".to_owned()));
    members.push(("node_id".to_owned(), node_id.to_owned()));
    members.push(("token".to_owned(), token.to_owned()));
    proof {
        let views = json::member_views(members@);
        assert(views =~= auth_members(node_id@, token@));
        reveal_with_fuel(json::by_key, 4);
        assert(views.drop_last().drop_last().drop_last() =~= Seq::<(Seq<char>, Seq<char>)>::empty());
        assert(views.last() == ("token"@, token@));
        assert(views.drop_last().last() == ("node_id"@, node_id@));
        assert(views.drop_last().drop_last().last() == ("type"@, "AUTH"@));
        assert(json::by_key(views) =~= map!["type"@ => "AUTH"@, "node_id"@ => node_id@, "token"@ => token@]);
    }
    json::write_object(&members)
}

/// What came of an attempt to connect.
#[derive(Clone, Copy, Debug, PartialEq, Eq, Structural)]
pub enum ConnectReply {
    Connected,
    NoTls,
    Failed,
}

/// What happens while a connection is served.
#[derive(Debug)]
pub enum SessionEvent {
    /// A message came in.
    Received(Incoming),
    /// The connection failed.
    ReceiveFailed { reason: String },
    /// The node has a message to send.
    ToSend(Outgoing),
    /// Neither will anything come in, nor is there anything left to send.
    Ended,
}

/// What comes next in a connection.
#[derive(Debug)]
pub enum SessionStage {
    /// Connect, encrypted or not.
    Connect { encrypted: bool },
    /// Send this message, which authenticates the node.
    SendAuth { request: String },
    /// Wait for the answer to the authentication, but not for long.
    AwaitAuth,
    /// Wait for something to happen.
    AwaitEvent,
    /// Hand on this text, which should be a command; what comes of it does not matter here.
    Dispatch { command: String },
    /// Answer a ping with its own data.
    SendPong { data: Vec<u8> },
    /// Send this message.
    Send { message: Outgoing },
    /// Nothing: the connection is over.
    Finished(Result<(), SessionError>),
}

/// The outcome of a stage of a connection.
#[derive(Debug)]
pub enum SessionReply {
    /// For `Connect`.
    Connect(ConnectReply),
    /// For `SendAuth`, `SendPong` and `Send`: why it was not sent, if it was not.
    Sent(Result<(), String>),
    /// For `AwaitAuth`.
    Auth(AuthReply),
    /// For `AwaitEvent`.
    Event(SessionEvent),
    /// For `Dispatch`.
    Dispatched,
}

impl Network {
    /// The connection is to be encrypted: its address says so.
    pub open spec fn is_encrypted(self) -> bool {
        "wss://"@.is_prefix_of(self.ws_url@)
    }

    /// Begins a connection.
    pub fn establish_and_process_messages(&self) -> (stage: SessionStage)
        ensures
            stage == (SessionStage::Connect { encrypted: self.is_encrypted() }),
    {
        SessionStage::Connect { encrypted: text::starts_with(self.ws_url.as_str(), "wss://") }
    }
}

impl SessionStage {
    /// `reply` is an outcome of this stage.
    pub open spec fn expects(self, reply: SessionReply) -> bool {
        match self {
            SessionStage::Connect { .. } => reply is Connect,
            SessionStage::SendAuth { .. } => reply is Sent,
            SessionStage::AwaitAuth => reply is Auth,
            SessionStage::AwaitEvent => reply is Event,
            SessionStage::Dispatch { .. } => reply is Dispatched,
            SessionStage::SendPong { .. } => reply is Sent,
            SessionStage::Send { .. } => reply is Sent,
            SessionStage::Finished(_) => false,
        }
    }

    /// `next` is what comes after this stage and its outcome `reply`, in a connection of
    /// `network`.
    pub open spec fn leads_to(self, network: Network, reply: SessionReply, next: SessionStage) -> bool {
        match (self, reply) {
            (SessionStage::Connect { .. }, SessionReply::Connect(ConnectReply::Connected)) =>
                next matches SessionStage::SendAuth { request } && request@ == json::object_text(
                    auth_members(network.node_id@, network.auth_token@),
                ),
            (SessionStage::Connect { .. }, SessionReply::Connect(ConnectReply::NoTls)) =>
                next == SessionStage::Finished(Err(SessionError::NoTls)),
            (SessionStage::Connect { .. }, SessionReply::Connect(ConnectReply::Failed)) =>
                next == SessionStage::Finished(Err(SessionError::Connect { ws_url: network.ws_url })),
            (SessionStage::SendAuth { .. }, SessionReply::Sent(Ok(_))) => next == SessionStage::AwaitAuth,
            (SessionStage::SendAuth { .. }, SessionReply::Sent(Err(_))) =>
                next == SessionStage::Finished(Err(SessionError::SendAuth)),
            (SessionStage::AwaitAuth, SessionReply::Auth(answer)) => if lets_in(answer) {
                next == SessionStage::AwaitEvent
            } else {
                next matches SessionStage::Finished(Err(e)) && states_failure(e, answer)
            },
            (SessionStage::AwaitEvent, SessionReply::Event(event)) => next == match event {
                SessionEvent::Received(Incoming::Text(command)) => SessionStage::Dispatch { command },
                SessionEvent::Received(Incoming::Ping(data)) => SessionStage::SendPong { data },
                SessionEvent::Received(Incoming::Close) => SessionStage::Finished(Ok(())),
                SessionEvent::Received(Incoming::Other) => SessionStage::AwaitEvent,
                SessionEvent::ReceiveFailed { reason } =>
                    SessionStage::Finished(Err(SessionError::Receive { reason })),
                SessionEvent::ToSend(message) => SessionStage::Send { message },
                SessionEvent::Ended => SessionStage::Finished(Ok(())),
            },
            (SessionStage::Dispatch { .. }, SessionReply::Dispatched) => next == SessionStage::AwaitEvent,
            (_, SessionReply::Sent(Ok(_))) => next == SessionStage::AwaitEvent,
            (_, SessionReply::Sent(Err(reason))) =>
                next == SessionStage::Finished(Err(SessionError::Send { reason })),
            _ => next == self,
        }
    }

    /// Goes on with the outcome of this stage.
    pub fn resume(self, network: &Network, reply: SessionReply) -> (next: SessionStage)
        requires
            self.expects(reply),
        ensures
            self.leads_to(*network, reply, next),
    {
        match (self, reply) {
            (SessionStage::Connect { .. }, SessionReply::Connect(outcome)) => match outcome {
                ConnectReply::Connected => SessionStage::SendAuth {
                    request: auth_request(network.node_id.as_str(), network.auth_token.as_str()),
                },
                ConnectReply::NoTls => SessionStage::Finished(Err(SessionError::NoTls)),
                ConnectReply::Failed => SessionStage::Finished(
                    Err(SessionError::Connect { ws_url: network.ws_url.clone() }),
                ),
            },
            (SessionStage::SendAuth { .. }, SessionReply::Sent(result)) => match result {
                Ok(_) => SessionStage::AwaitAuth,
                Err(_) => SessionStage::Finished(Err(SessionError::SendAuth)),
            },
            (SessionStage::AwaitAuth, SessionReply::Auth(answer)) => match judge_auth_reply(answer) {
                Ok(_) => SessionStage::AwaitEvent,
                Err(e) => SessionStage::Finished(Err(e)),
            },
            (SessionStage::AwaitEvent, SessionReply::Event(event)) => match event {
                SessionEvent::Received(Incoming::Text(command)) => SessionStage::Dispatch { command },
                SessionEvent::Received(Incoming::Ping(data)) => SessionStage::SendPong { data },
                SessionEvent::Received(Incoming::Close) => SessionStage::Finished(Ok(())),
                SessionEvent::Received(Incoming::Other) => SessionStage::AwaitEvent,
                SessionEvent::ReceiveFailed { reason } => SessionStage::Finished(
                    Err(SessionError::Receive { reason }),
                ),
                SessionEvent::ToSend(message) => SessionStage::Send { message },
                SessionEvent::Ended => SessionStage::Finished(Ok(())),
            },
            (SessionStage::Dispatch { .. }, SessionReply::Dispatched) => SessionStage::AwaitEvent,
            (_, SessionReply::Sent(result)) => match result {
                Ok(_) => SessionStage::AwaitEvent,
                Err(reason) => SessionStage::Finished(Err(SessionError::Send { reason })),
            },
            (stage, _) => stage,
        }
    }

    /// The connection is being served: commands are taken and messages are sent.
    pub open spec fn is_served(self) -> bool {
        self is AwaitEvent || self is Dispatch || self is SendPong || self is Send
    }
}

/// The stages a connection went through, and their outcomes.
pub open spec fn is_session(network: Network, stages: Seq<SessionStage>, replies: Seq<SessionReply>) -> bool {
    &&& stages.len() == replies.len() + 1
    &&& stages[0] == (SessionStage::Connect { encrypted: network.is_encrypted() })
    &&& forall|i: int|
        0 <= i < replies.len() ==> #[trigger] stages[i].expects(replies[i]) && stages[i].leads_to(
            network,
            replies[i],
            stages[i + 1],
        )
}

/// No command is taken from the backend, and no message is sent to it but the authentication,
/// before the backend has let the node in.
pub proof fn nothing_before_auth(
    network: Network,
    stages: Seq<SessionStage>,
    replies: Seq<SessionReply>,
    i: int,
) -> (at: int)
    requires
        is_session(network, stages, replies),
        0 <= i < stages.len(),
        stages[i].is_served(),
    ensures
        0 <= at < i,
        stages[at] is AwaitAuth,
        replies[at] matches SessionReply::Auth(answer) && lets_in(answer),
    decreases i,
{
    assert(i > 0);
    assert(stages[i - 1].expects(replies[i - 1]));
    if stages[i - 1].is_served() {
        nothing_before_auth(network, stages, replies, i - 1)
    } else {
        i - 1
    }
}

/// A command to hand on to the handler of commands. One that is required must be taken.
#[derive(Debug)]
pub struct Delivery {
    pub command: BackendCommand,
    pub required: bool,
}

/// That the handler of commands is gone.
#[derive(Clone, Copy, Debug, PartialEq, Eq, Structural)]
pub struct HandlerGone;

impl HandlerGone {
    /// The message to show for this error.
    pub fn message(&self) -> (r: String)
        ensures
            r@ == "Command handler channel is closed."@,
    {
        "Command handler channel is closed.".to_owned()
    }
}

/// What to hand on for a message that was read as a command, or could not be.
pub fn process_message(parsed: Option<BackendCommand>) -> (delivery: Delivery)
    ensures
        delivery == match parsed {
            Some(command) => (Delivery { command, required: true }),
            None => (Delivery { command: BackendCommand::Unknown, required: false }),
        },
{
    match parsed {
        Some(command) => Delivery { command, required: true },
        None => Delivery { command: BackendCommand::Unknown, required: false },
    }
}

/// What comes of handing a command on: only a required one must have been taken.
pub fn conclude_delivery(required: bool, taken: bool) -> (r: Result<(), HandlerGone>)
    ensures
        r is Err <==> required && !taken,
{
    if required && !taken {
        Err(HandlerGone)
    } else {
        Ok(())
    }
}

/// A report of the storage, as it is sent to the backend.
#[derive(Debug)]
pub struct StatusReport {
    pub kind: String,
    pub command_id: String,
    pub status: NodeStatus,
}

/// The report of these counters, in answer to the command `command_id`.
pub fn send_status_report(command_id: String, state: &StorageState) -> (report: StatusReport)
    ensures
        report.kind@ == "STATUS_REPORT"@,
        report.command_id == command_id,
        report.status == NodeStatus::spec_of(*state),
{
    StatusReport { kind: "STATUS_REPORT".to_owned(), command_id, status: NodeStatus::of(state) }
}

/// A server that helps two peers to find a way to each other.
#[derive(Debug)]
pub struct IceServer {
    pub urls: Vec<String>,
    pub username: String,
    pub credential: String,
}

/// Such a server as the backend describes it.
#[derive(Debug)]
pub struct OfferedServer {
    pub urls: Vec<String>,
    pub username: Option<String>,
    pub credential: Option<String>,
}

/// The text `t`, or no text at all.
pub open spec fn text_or_none(t: Option<String>) -> Seq<char> {
    match t {
        Some(s) => s@,
        None => Seq::empty(),
    }
}

/// Where the node asks for servers, and with which authorization.
pub fn turn_request(api_url: &str, auth_token: &str) -> (r: (String, String))
    ensures
        r.0@ == api_url@ + "/turn-credentials"@,
        r.1@ == "Bearer "@ + auth_token@,
{
    (text::concat2(api_url, "/turn-credentials"), text::concat2("Bearer ", auth_token))
}

/// The servers the backend offers, each with the name and the credential it has, or none.
pub fn get_turn_credentials(offered: Vec<OfferedServer>) -> (servers: Vec<IceServer>)
    ensures
        servers@.len() == offered@.len(),
        forall|i: int|
            0 <= i < offered@.len() ==> {
                &&& (#[trigger] servers@[i]).urls == offered@[i].urls
                &&& servers@[i].username@ == text_or_none(offered@[i].username)
                &&& servers@[i].credential@ == text_or_none(offered@[i].credential)
            },
{
    let mut servers: Vec<IceServer> = Vec::new();
    for server in it: offered
        invariant
            it.seq() == offered@,
            servers@.len() == it.index(),
            forall|i: int|
                0 <= i < servers@.len() ==> {
                    &&& (#[trigger] servers@[i]).urls == offered@[i].urls
                    &&& servers@[i].username@ == text_or_none(offered@[i].username)
                    &&& servers@[i].credential@ == text_or_none(offered@[i].credential)
                },
    {
        let username = match server.username {
            Some(u) => u,
            None => String::new(),
        };
        let credential = match server.credential {
            Some(c) => c,
            None => String::new(),
        };
        servers.push(IceServer { urls: server.urls, username, credential });
    }
    servers
}

/// A server at these addresses that asks for no name and no credential.
pub open spec fn is_open_server(server: IceServer, urls: Seq<Seq<char>>) -> bool {
    &&& server.urls@.map_values(|u: String| u@) == urls
    &&& server.username@ == Seq::<char>::empty()
    &&& server.credential@ == Seq::<char>::empty()
}

/// The servers a peer connection uses: those the backend offers, or, where it could not be
/// asked, one that is open to all.
pub fn choose_ice_servers(offered: Option<Vec<OfferedServer>>) -> (servers: Vec<IceServer>)
    ensures
        match offered {
            Some(list) => {
                &&& servers@.len() == list@.len()
                &&& forall|i: int|
                    0 <= i < list@.len() ==> {
                        &&& (#[trigger] servers@[i]).urls == list@[i].urls
                        &&& servers@[i].username@ == text_or_none(list@[i].username)
                        &&& servers@[i].credential@ == text_or_none(list@[i].credential)
                    }
            },
            None => servers@.len() == 1 && is_open_server(servers@[0], seq!["stun:stun.l.google.com:19302"@]),
        },
{
    match offered {
        Some(list) => get_turn_credentials(list),
        None => {
            let mut urls: Vec<String> = Vec::new();
            urls.push("stun:stun.l.google.com:19302".to_owned());
            assert(urls@.map_values(|u: String| u@) =~= seq!["stun:stun.l.google.com:19302"@]);
            let mut servers: Vec<IceServer> = Vec::new();
            servers.push(IceServer { urls, username: String::new(), credential: String::new() });
            servers
        },
    }
}

/// The address of the default backend.
pub open spec fn default_ws_url() -> Seq<char> {
    "wss://wss.project-yourcloud.me"@
}

/// The address of the backend: the configured one, or the default where none is configured.
pub fn backend_ws_url(configured: &str) -> (r: String)
    ensures
        r@ == if configured@.len() == 0 {
            default_ws_url()
        } else {
            configured@
        },
{
    if configured.is_empty() {
        "wss://wss.project-yourcloud.me".to_owned()
    } else {
        configured.to_owned()
    }
}

/// `url` says how to connect, encrypted or not.
pub open spec fn has_scheme(url: Seq<char>) -> bool {
    "ws://"@.is_prefix_of(url) || "wss://"@.is_prefix_of(url)
}

/// `url` with a scheme: its own, or the encrypted one.
pub open spec fn with_scheme(url: Seq<char>) -> Seq<char> {
    if has_scheme(url) {
        url
    } else {
        "wss://"@ + url
    }
}

/// An address gets a scheme once, and then keeps it.
pub proof fn scheme_is_added_once(url: Seq<char>)
    ensures
        has_scheme(with_scheme(url)),
        with_scheme(with_scheme(url)) == with_scheme(url),
{
    if !has_scheme(url) {
        let full = "wss://"@ + url;
        assert(full.subrange(0, "wss://"@.len() as int) =~= "wss://"@);
    }
}

/// That the node lacks what it needs to connect.
#[derive(Clone, Copy, Debug, PartialEq, Eq, Structural)]
pub struct NotConfigured;

impl NotConfigured {
    /// The message to show for this error.
    pub fn message(&self) -> (r: String)
        ensures
            r@ == "Node is not configured with an ID and auth token."@,
    {
        "Node is not configured with an ID and auth token.".to_owned()
    }
}

/// The connection of a configured node to `ws_url`: a node without an identifier or a token has
/// none.
pub fn start_communication_loop(config: &Config, ws_url: &str) -> (r: Result<Network, NotConfigured>)
    ensures
        match r {
            Ok(network) => {
                &&& config.has_credentials()
                &&& network.ws_url@ == with_scheme(ws_url@)
                &&& network.auth_token == config.auth_token
                &&& network.node_id == config.node_id
            },
            Err(_) => !config.has_credentials(),
        },
{
    let url = if !text::starts_with(ws_url, "ws://") && !text::starts_with(ws_url, "wss://") {
        text::concat2("wss://", ws_url)
    } else {
        ws_url.to_owned()
    };
    if !config.is_ready() {
        return Err(NotConfigured);
    }
    Ok(Network::init(url, config.auth_token.clone(), config.node_id.clone()))
}

} // verus!
