//! The steps of the histories of this node are the steps that its functions make, and what single
//! functions of it answer.

use crate::json;
use crate::network::{Incoming, SessionEvent};
use crate::path;
use crate::storage::StorageState;
use crate::storage_client::commands;
use crate::storage_client::commands::{BackendCommand, CommandReply, CommandStage, HttpStatus, SendError};
use crate::storage_client::network;
use crate::storage_client::network::{
    AuthReply, CommandResult, Delivery, FirstStep, Network, NodeConfig, RegistrationError, RegistrationReply,
    RegistrationStage, SessionError, SessionReply, SessionStage, StatusReport,
};
use crate::storage_client::storage;
use crate::storage_client::storage::{
    DeleteReply, DeleteRun, NodeStatus, RetrieveError, RetrieveReply, RetrieveRun, RetrieveStage, StoreError,
    StoreReply, StoreRun, StoreStage, TopEntry,
};
use vstd::prelude::*;

verus! {

/// A store begins as the histories of stores do.
pub proof fn store_begins(base: &str, id: &str, expected_size_bytes: u64, run: StoreRun)
    requires
        call_ensures(storage::store_chunk_to_disk, (base, id, expected_size_bytes), run),
    ensures
        storage::store_begun(run, base@, id@, expected_size_bytes),
        run.directory matches Some(directory) ==> path::parent_path(run.chunk_path@) == Some(directory@),
        run.directory is None ==> path::parent_path(run.chunk_path@) is None,
{
}

/// A store goes on as the histories of stores do, and counts as they do.
pub proof fn store_goes_on(run: StoreRun, reply: StoreReply)
    ensures
        forall|state: &mut StorageState, next: StoreRun| #[trigger]
            call_ensures(StoreRun::resume, (run, reply, state), next) ==> {
                &&& next == run.after(reply, *state)
                &&& *final(state) == if run.completes_with(reply) {
                    (*state).with_chunk(run.written)
                } else {
                    *state
                }
            },
{
}

/// A chunk begins to be opened, and its opening goes on, as in the histories.
pub proof fn retrieve_goes_on(
    base: &str,
    id: &str,
    begun: RetrieveRun,
    run: RetrieveRun,
    reply: RetrieveReply,
    next: RetrieveRun,
)
    requires
        call_ensures(storage::retrieve_chunk_from_disk, (base, id), begun),
        call_ensures(RetrieveRun::resume, (run, reply), next),
    ensures
        storage::retrieve_begun(begun, base@, id@),
        next == (RetrieveRun { stage: run.stage_after(reply), ..run }),
{
}

/// A chunk begins to be deleted as in the histories.
pub proof fn delete_begins(base: &str, id: &str, begun: DeleteRun)
    requires
        call_ensures(storage::delete_chunk_from_disk, (base, id), begun),
    ensures
        storage::delete_begun(begun, base@, id@),
{
}

/// A deletion goes on, and counts, as in the histories.
pub proof fn delete_goes_on(run: DeleteRun, reply: DeleteReply)
    ensures
        forall|state: &mut StorageState, next: DeleteRun| #[trigger]
            call_ensures(DeleteRun::resume, (run, reply, state), next) ==> {
                &&& next == (DeleteRun { stage: run.stage_after(reply), ..run })
                &&& *final(state) == run.state_after(reply, *state)
            },
{
}

/// A command begins to be handled as in the histories.
pub proof fn command_begins(command: BackendCommand, base: &str, state: &StorageState, stage: CommandStage)
    requires
        call_ensures(commands::handle_command, (command, base, state), stage),
    ensures
        commands::begins(command, base@, *state, stage),
{
}

/// A command goes on, and counts, as in the histories.
pub proof fn command_goes_on(stage: CommandStage, reply: CommandReply, base: &str)
    ensures
        forall|state: &mut StorageState, next: CommandStage| #[trigger]
            call_ensures(CommandStage::resume, (stage, reply, base, state), next) ==> {
                &&& stage.leads_to(reply, base@, *state, next)
                &&& *final(state) == stage.state_after(reply, *state)
            },
{
}

/// A connection begins, and goes on, as in the histories.
pub proof fn session_goes_on(
    node: &Network,
    begun: SessionStage,
    stage: SessionStage,
    reply: SessionReply,
    next: SessionStage,
)
    requires
        call_ensures(Network::establish_and_process_messages, (node,), begun),
        call_ensures(SessionStage::resume, (stage, node, reply), next),
    ensures
        begun is Connect,
        stage.leads_to(*node, reply, next),
{
}

/// A registration goes on as in the histories; the node takes its identifier and its token from the
/// answer, and nothing else of it changes.
pub proof fn registration_goes_on(stage: RegistrationStage, reply: RegistrationReply)
    ensures
        forall|config: &mut NodeConfig, next: RegistrationStage| #[trigger]
            call_ensures(RegistrationStage::resume, (stage, reply, config), next) ==> {
                &&& next == stage.after(reply)
                &&& final(config).storage_path == config.storage_path
                &&& final(config).max_storage_gib == config.max_storage_gib
                &&& final(config).backend_ws_url == config.backend_ws_url
                &&& final(config).backend_api_url == config.backend_api_url
                &&& match reply {
                    RegistrationReply::Parsed(Some(response)) if stage is ReadAnswer => {
                        &&& final(config).node_id == response.node_id
                        &&& final(config).auth_token == response.auth_token
                    },
                    _ => {
                        &&& final(config).node_id == config.node_id
                        &&& final(config).auth_token == config.auth_token
                    },
                }
            },
{
}

/// A new node asks for what it is configured with, below the address of the backend, and says of its
/// machine what is known.
pub proof fn registration_asks_for_the_limit(
    config: &NodeConfig,
    host_name: Option<String>,
    long_os_version: Option<String>,
    stage: RegistrationStage,
)
    requires
        call_ensures(network::register_node, (config, host_name, long_os_version), stage),
    ensures
        stage is Send,
        stage->Send_url@ == config.backend_api_url@ + "/register_node"@,
        stage->Send_request.requested_max_gib == config.max_storage_gib,
        host_name matches Some(name) ==> stage->Send_request.system_info.hostname@ == name@,
        host_name is None ==> stage->Send_request.system_info.hostname@ == "unknown_hostname"@,
        long_os_version matches Some(version) ==> stage->Send_request.system_info.os_version@ == version@,
        long_os_version is None ==> stage->Send_request.system_info.os_version@ == "unknown_os_version"@,
{
}

/// A node that has an identifier and a token connects with them, and any other registers.
pub proof fn node_registers_only_without_credentials(config: &NodeConfig, step: FirstStep)
    requires
        call_ensures(network::start_communication_loop, (config,), step),
    ensures
        step is Register <==> config.node_id@.len() == 0 || config.auth_token@.len() == 0,
        step matches FirstStep::Connect(n) ==> {
            &&& n.node_id == config.node_id
            &&& n.auth_token == config.auth_token
            &&& n.backend_ws_url == config.backend_ws_url
        },
{
}

/// A connection is made of what it is given.
pub proof fn connection_is_what_it_is_given(ws_url: String, auth_token: String, node_id: String, n: Network)
    requires
        call_ensures(Network::init, (ws_url, auth_token, node_id), n),
    ensures
        n.backend_ws_url == ws_url,
        n.auth_token == auth_token,
        n.node_id == node_id,
{
}

/// After an attempt that ended well nothing has failed. After one that did not, there is one failure
/// more, and the next delay is twice this one, up to a minute.
pub proof fn delays_grow_with_failures(
    n: &Network,
    failures: u64,
    good: (u64, u64),
    first: (u64, u64),
    second: (u64, u64),
)
    requires
        failures < u64::MAX - 1,
        call_ensures(Network::run_connection_loop, (n, failures, true), good),
        call_ensures(Network::run_connection_loop, (n, failures, false), first),
        call_ensures(Network::run_connection_loop, (n, first.0, false), second),
    ensures
        good == (0u64, 1000u64),
        first.0 == failures + 1,
        failures == 0 ==> first.1 == 1000,
        second.0 == first.0 + 1,
        second.1 == if 2 * first.1 <= 60000 {
            2 * first.1
        } else {
            60000
        },
{
    crate::session_laws::delay_doubles_up_to_a_minute(first.0 as nat);
    crate::session_laws::failures_are_counted_in_a_row(failures);
    crate::session_laws::failures_are_counted_in_a_row(first.0);
}

/// Only a JSON object whose type says success lets the node in; silence, an end, a failure, another
/// message and what is no JSON are each told as what they are.
pub proof fn only_success_lets_in(reply: AuthReply, r: Result<(), SessionError>)
    requires
        call_ensures(network::judge_auth_reply, (reply,), r),
    ensures
        r is Ok <==> match reply {
            AuthReply::Text(t) => match json::parsed_members(t@) {
                Some(members) => members.contains_key("type"@) && members["type"@] == "AUTH_SUCCESS"@,
                None => false,
            },
            _ => false,
        },
        reply matches AuthReply::Text(t) ==> (json::parsed_members(t@) is None <==> r matches Err(
            SessionError::AuthNotJson,
        )),
        reply is Failed <==> r matches Err(SessionError::AuthReceive),
        reply is Closed <==> r matches Err(SessionError::AuthClosed),
        reply is TimedOut <==> r matches Err(SessionError::AuthTimedOut),
        reply matches AuthReply::Other { shown } ==> (r matches Err(
            SessionError::AuthOtherMessage { shown: told },
        ) && told == shown),
{
}

/// The type `AUTH_SUCCESS`, and no other and not its absence, says that the node is in.
pub proof fn only_one_type_is_success(kind: &Option<String>, yes: bool)
    requires
        call_ensures(network::kind_is_success, (kind,), yes),
    ensures
        yes <==> (*kind matches Some(k) && k@ == "AUTH_SUCCESS"@),
{
}

/// What was read as a command is handed on and must be taken; anything else is handed on as an
/// unknown command that need not be.
pub proof fn command_is_handed_on(parsed: Option<BackendCommand>, delivery: Delivery)
    requires
        call_ensures(network::process_message, (parsed,), delivery),
    ensures
        parsed matches Some(command) ==> delivery.command == command,
        parsed is None ==> delivery.command is Unknown,
        delivery.required == parsed is Some,
{
}

/// The backend is told of a command that it went well exactly when it did, and why it did not.
pub proof fn result_is_told(command_id: String, result: Result<(), String>, message: CommandResult)
    requires
        call_ensures(network::send_command_result, (command_id, result), message),
    ensures
        message.kind@ == "COMMAND_RESULT"@,
        message.command_id == command_id,
        message.success <==> result is Ok,
        message.error is None <==> result is Ok,
        result matches Err(e) ==> message.error == Some(e),
{
}

/// A report names the command it answers and holds what it is given.
pub proof fn report_is_what_it_is_given(command_id: String, status: NodeStatus, report: StatusReport)
    requires
        call_ensures(network::send_status_report, (command_id, status), report),
    ensures
        report.kind@ == "STATUS_REPORT"@,
        report.command_id == command_id,
        report.status == status,
{
}

/// The status is the counters as they are, and what the limit leaves free.
pub proof fn status_is_the_counters(state: &StorageState, status: NodeStatus)
    requires
        call_ensures(storage::get_current_node_status, (state,), status),
    ensures
        status.used_space_bytes == state.current_used_space_bytes,
        status.max_space_bytes == state.max_storage_bytes,
        status.chunk_count == state.current_chunk_count,
        state.current_used_space_bytes <= state.max_storage_bytes ==> status.free_space_bytes
            == state.max_storage_bytes - state.current_used_space_bytes,
        state.current_used_space_bytes > state.max_storage_bytes ==> status.free_space_bytes == 0,
{
}

/// The status of an answer says success exactly from 200 to 299.
pub proof fn success_is_a_range(status: &HttpStatus, yes: bool)
    requires
        call_ensures(HttpStatus::is_success, (status,), yes),
    ensures
        yes <==> 200 <= status.code <= 299,
{
}

/// A chunk whose identifier begins with two ASCII characters lies in the subdirectory that bears
/// them, under its whole identifier.
pub proof fn chunk_lies_in_its_subdirectory(base: &str, id: &str, r: String)
    requires
        call_ensures(storage::get_chunk_path, (base, id), r),
        id@.len() >= 2,
        '\0' <= id@[0] <= '\u{7f}',
        '\0' <= id@[1] <= '\u{7f}',
    ensures
        r@ == path::joined(path::joined(base@, id@.take(2)), id@),
{
    storage::ascii_subdirectory(id@);
}

/// One more subdirectory adds its files to the counters, as far as they go, and anything else in the
/// storage directory adds nothing; the limit is so many gibibytes.
pub proof fn subdirectories_are_scanned(
    max_storage_gib: u64,
    tops: &Vec<TopEntry>,
    more: &Vec<TopEntry>,
    top: TopEntry,
    before: StorageState,
    after: StorageState,
)
    requires
        more@ == tops@.push(top),
        storage::bytes_below(more@) <= u64::MAX,
        storage::chunks_below(more@) <= u64::MAX,
        call_ensures(storage::initialize_storage_state, (max_storage_gib, tops), before),
        call_ensures(storage::initialize_storage_state, (max_storage_gib, more), after),
    ensures
        before.max_storage_bytes == max_storage_gib * (1024 * 1024 * 1024),
        after.max_storage_bytes == before.max_storage_bytes,
        top.is_dir ==> {
            &&& after.current_used_space_bytes == before.current_used_space_bytes + crate::storage::bytes_in(
                top.entries@,
            )
            &&& after.current_chunk_count == before.current_chunk_count + crate::storage::chunks_in(top.entries@)
        },
        !top.is_dir ==> {
            &&& after.current_used_space_bytes == before.current_used_space_bytes
            &&& after.current_chunk_count == before.current_chunk_count
        },
        tops@.len() == 0 ==> before.current_used_space_bytes == 0 && before.current_chunk_count == 0,
{
    assert(more@.drop_last() =~= tops@);
}

/// The pieces of a chunk make its data: one more piece is so much more data, at the end.
pub proof fn pieces_make_the_data(
    pieces: &Vec<Vec<u8>>,
    more: &Vec<Vec<u8>>,
    piece: Vec<u8>,
    before: Vec<u8>,
    after: Vec<u8>,
)
    requires
        more@ == pieces@.push(piece),
        call_ensures(storage::concat_pieces, (pieces,), before),
        call_ensures(storage::concat_pieces, (more,), after),
    ensures
        after@ == before@ + piece@,
        pieces@.len() == 0 ==> before@.len() == 0,
{
    assert(more@.drop_last() =~= pieces@);
}

/// A chunk is stored in this order: nothing may be there, the limit must hold it, its directory is
/// made where it is missing, and its file; then piece after piece is written, until there is none,
/// and what was written is compared with what was announced. Whatever fails ends the store.
pub proof fn store_moves_on(run: StoreRun, reply: StoreReply)
    ensures
        forall|state: &mut StorageState, next: StoreRun| #[trigger]
            call_ensures(StoreRun::resume, (run, reply, state), next) ==> {
                &&& next.chunk_id == run.chunk_id && next.chunk_path == run.chunk_path
                &&& next.directory == run.directory && next.expected_size_bytes == run.expected_size_bytes
                &&& run.stage is CheckExists ==> match reply {
                    StoreReply::Exists(Some(true)) => next.stage == StoreStage::Finished(
                        Err(StoreError::AlreadyExists { chunk_id: run.chunk_id }),
                    ),
                    StoreReply::Exists(_) => {
                        let used = state.current_used_space_bytes;
                        let max = state.max_storage_bytes;
                        if used + run.expected_size_bytes <= max {
                            match run.directory {
                                Some(directory) => next.stage == (StoreStage::CheckDirectory { directory }),
                                None => next.stage == StoreStage::Finished(
                                    Err(StoreError::NoParent { chunk_path: run.chunk_path }),
                                ),
                            }
                        } else {
                            next.stage == StoreStage::Finished(
                                Err(StoreError::LimitReached { size: run.expected_size_bytes, used, max }),
                            )
                        }
                    },
                    _ => true,
                }
                &&& run.stage matches StoreStage::CheckDirectory { directory } ==> match reply {
                    StoreReply::DirectoryExists(true) => next.stage is CreateFile,
                    StoreReply::DirectoryExists(false) => next.stage == (StoreStage::CreateDirectory { directory }),
                    _ => true,
                }
                &&& run.stage matches StoreStage::CreateDirectory { directory } ==> match reply {
                    StoreReply::Done(true) => next.stage is CreateFile,
                    StoreReply::Done(false) => next.stage == StoreStage::Finished(
                        Err(StoreError::CreateDirectory { directory }),
                    ),
                    _ => true,
                }
                &&& run.stage is CreateFile ==> match reply {
                    StoreReply::Done(true) => next.stage is NextPiece,
                    StoreReply::Done(false) => next.stage == StoreStage::Finished(
                        Err(StoreError::CreateFile { chunk_path: run.chunk_path }),
                    ),
                    _ => true,
                }
                &&& run.stage is NextPiece ==> match reply {
                    StoreReply::Piece(Ok(Some(piece))) => next.stage == (StoreStage::WritePiece { piece }),
                    StoreReply::Piece(Ok(None)) => next.stage is Sync,
                    StoreReply::Piece(Err(_)) => next.stage matches StoreStage::Finished(Err(StoreError::Stream)),
                    _ => true,
                }
                &&& run.stage is WritePiece ==> match reply {
                    StoreReply::Done(true) => next.stage is NextPiece,
                    StoreReply::Done(false) => next.stage == StoreStage::Finished(
                        Err(StoreError::Write { chunk_path: run.chunk_path }),
                    ),
                    _ => true,
                }
                &&& run.stage is Sync ==> match reply {
                    StoreReply::Done(true) => if run.written == run.expected_size_bytes {
                        next.stage == StoreStage::Finished(Ok(run.written))
                    } else {
                        next.stage is RemoveMismatched
                    },
                    StoreReply::Done(false) => next.stage == StoreStage::Finished(
                        Err(StoreError::Sync { chunk_path: run.chunk_path }),
                    ),
                    _ => true,
                }
                &&& run.stage is RemoveMismatched ==> match reply {
                    StoreReply::Done(true) => next.stage == StoreStage::Finished(
                        Err(
                            StoreError::SizeMismatch {
                                chunk_id: run.chunk_id,
                                expected: run.expected_size_bytes,
                                written: run.written,
                            },
                        ),
                    ),
                    StoreReply::Done(false) => next.stage == StoreStage::Finished(
                        Err(StoreError::RemoveMismatched { chunk_path: run.chunk_path }),
                    ),
                    _ => true,
                }
                &&& !(run.stage is Sync && reply == StoreReply::Done(true)) ==> *final(state) == *state
            },
{
}

/// A chunk that is there is opened; one that is not, or cannot be opened, is told.
pub proof fn retrieve_moves_on(run: RetrieveRun, reply: RetrieveReply, next: RetrieveRun)
    requires
        call_ensures(RetrieveRun::resume, (run, reply), next),
    ensures
        next.chunk_id == run.chunk_id && next.chunk_path == run.chunk_path,
        run.stage is CheckExists ==> match reply {
            RetrieveReply::Exists(Some(true)) => next.stage is OpenFile,
            RetrieveReply::Exists(_) => next.stage == RetrieveStage::Finished(
                Err(RetrieveError::NotFound { chunk_id: run.chunk_id, chunk_path: run.chunk_path }),
            ),
            _ => true,
        },
        run.stage is OpenFile ==> match reply {
            RetrieveReply::Opened(true) => next.stage matches RetrieveStage::Finished(Ok(_)),
            RetrieveReply::Opened(false) => next.stage == RetrieveStage::Finished(
                Err(RetrieveError::Open { chunk_id: run.chunk_id, chunk_path: run.chunk_path }),
            ),
            _ => true,
        },
{
}

/// A connection is made, authenticated and served, in this order; what cannot be done ends it with
/// the reason.
pub proof fn session_moves_on(stage: SessionStage, node: &Network, reply: SessionReply, next: SessionStage)
    requires
        call_ensures(SessionStage::resume, (stage, node, reply), next),
    ensures
        stage is Connect && reply == SessionReply::Connected(true) ==> next is SendAuth,
        stage is Connect && reply == SessionReply::Connected(false) ==> next == SessionStage::Finished(
            Err(SessionError::Connect { backend_ws_url: node.backend_ws_url }),
        ),
        stage is SendAuth ==> match reply {
            SessionReply::Sent(Ok(_)) => next is AwaitAuth,
            SessionReply::Sent(Err(_)) => next matches SessionStage::Finished(Err(SessionError::SendAuth)),
            _ => true,
        },
        stage is AwaitEvent ==> match reply {
            SessionReply::Event(SessionEvent::Received(Incoming::Text(text))) => next == (SessionStage::Dispatch {
                command: text,
            }),
            SessionReply::Event(SessionEvent::Received(Incoming::Ping(data))) => next == (SessionStage::SendPong {
                data,
            }),
            SessionReply::Event(SessionEvent::ToSend(message)) => next == (SessionStage::Send { message }),
            SessionReply::Event(SessionEvent::Received(Incoming::Close)) => next matches SessionStage::Finished(
                Ok(_),
            ),
            _ => true,
        },
        stage is Dispatch && reply is Dispatched ==> next is AwaitEvent,
        (stage is SendPong || stage is Send) && (reply matches SessionReply::Sent(Ok(_))) ==> next is AwaitEvent,
{
}

/// A registration is sent, its answer is read and what it holds is saved, in this order.
pub proof fn registration_moves_on(stage: RegistrationStage, reply: RegistrationReply)
    ensures
        forall|config: &mut NodeConfig, next: RegistrationStage| #[trigger]
            call_ensures(RegistrationStage::resume, (stage, reply, config), next) ==> {
                &&& stage is Send ==> match reply {
                    RegistrationReply::Answered(Some(status)) => if 200 <= status.code <= 299 {
                        next is ReadAnswer
                    } else {
                        next == RegistrationStage::Finished(Err(RegistrationError::Refused { status }))
                    },
                    RegistrationReply::Answered(None) => next matches RegistrationStage::Finished(
                        Err(RegistrationError::Send),
                    ),
                    _ => true,
                }
                &&& stage is ReadAnswer ==> match reply {
                    RegistrationReply::Parsed(Some(_)) => next is Save,
                    RegistrationReply::Parsed(None) => next matches RegistrationStage::Finished(
                        Err(RegistrationError::Parse),
                    ),
                    _ => true,
                }
                &&& stage is Save ==> match reply {
                    RegistrationReply::Saved(true) => next matches RegistrationStage::Finished(Ok(_)),
                    RegistrationReply::Saved(false) => next matches RegistrationStage::Finished(
                        Err(RegistrationError::Save),
                    ),
                    _ => true,
                }
            },
{
}

/// An answer that is handed on ends its command, well exactly where it was taken.
pub proof fn command_comes_to_its_end(stage: CommandStage, reply: CommandReply, base: &str)
    ensures
        forall|state: &mut StorageState, next: CommandStage| #[trigger]
            call_ensures(CommandStage::resume, (stage, reply, base, state), next) ==> {
                &&& stage matches CommandStage::Respond(response) ==> {
                    &&& *final(state) == *state
                    &&& reply == CommandReply::Sent(true) ==> (next matches CommandStage::Finished(Ok(_)))
                    &&& reply == CommandReply::Sent(false) && response is CommandResult ==> (next
                        matches CommandStage::Finished(Err(SendError::CommandResult)))
                    &&& reply == CommandReply::Sent(false) && response is StatusReport ==> (next
                        matches CommandStage::Finished(Err(SendError::StatusReport)))
                }
            },
{
}

} // verus!
