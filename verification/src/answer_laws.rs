//! What single functions answer, for all that they can be asked.

use crate::cli;
use crate::cli::{Cli, CliAction, Line};
use crate::commands::BackendCommand;
use crate::config;
use crate::config::{Config, Places, SaveError, ValidationError};
use crate::disk;
use crate::disk::{DiskSpaceError, IoFailure, MountedDisk};
use crate::gib::Gib;
use crate::json;
use crate::network;
use crate::network::{
    AuthReply, Delivery, HandlerGone, IceServer, Network, NotConfigured, OfferedServer, SessionError, StatusReport,
};
use crate::path;
use crate::setup;
use crate::setup::{Prompt, Setup, SetupError, SetupStage};
use crate::storage;
use crate::storage::{
    DeleteError, DeleteRun, DirectoryEntry, DirectoryStep, ExistsError, StorageState,
};
use crate::webrtc;
use crate::webrtc::{
    CandidateError, CandidateStage, ChannelError, ClientMessage, PeerCandidate, UploadRun, UploadStage, WebRTCManager,
};
use vstd::prelude::*;

verus! {

/// What was read as a command is handed on and must be taken; anything else is handed on as an
/// unknown command that need not be.
pub proof fn command_is_handed_on(parsed: Option<BackendCommand>, delivery: Delivery)
    requires
        call_ensures(network::process_message, (parsed,), delivery),
    ensures
        parsed matches Some(command) ==> delivery.command == command,
        parsed is None ==> delivery.command is Unknown,
        delivery.required == parsed is Some,
{
}

/// It is a failure exactly that a command which must be taken was not.
pub proof fn command_left_behind_is_a_failure(required: bool, taken: bool, r: Result<(), HandlerGone>)
    requires
        call_ensures(network::conclude_delivery, (required, taken), r),
    ensures
        taken ==> r is Ok,
        !required ==> r is Ok,
        r is Ok ==> taken || !required,
{
}

/// A report names the command it answers and gives the counters as they are.
pub proof fn report_is_the_counters(command_id: String, state: &StorageState, report: StatusReport)
    requires
        call_ensures(network::send_status_report, (command_id, state), report),
    ensures
        report.kind@ == "STATUS_REPORT"@,
        report.command_id == command_id,
        report.status.used_space_bytes == state.current_used_space_bytes,
        report.status.max_space_bytes == state.max_storage_bytes,
        report.status.current_chunk_count == state.current_chunk_count,
{
}

/// The backend is asked for servers below its address, with the token of the node.
pub proof fn servers_are_asked_for_with_the_token(api_url: &str, auth_token: &str, r: (String, String))
    requires
        call_ensures(network::turn_request, (api_url, auth_token), r),
    ensures
        r.0@ == api_url@ + "/turn-credentials"@,
        r.1@ == "Bearer "@ + auth_token@,
{
}

/// All servers that the backend offers are used, in their order, with their addresses and with the
/// name and the credential that they have.
pub proof fn offered_servers_are_used(list: Vec<OfferedServer>, servers: Vec<IceServer>, i: int)
    requires
        call_ensures(network::choose_ice_servers, (Some(list),), servers),
        0 <= i < list@.len(),
    ensures
        servers@.len() == list@.len(),
        servers@[i].urls == list@[i].urls,
        list@[i].username matches Some(name) ==> servers@[i].username@ == name@,
        list@[i].username is None ==> servers@[i].username@.len() == 0,
        list@[i].credential matches Some(credential) ==> servers@[i].credential@ == credential@,
        list@[i].credential is None ==> servers@[i].credential@.len() == 0,
{
}

/// The same servers come of an offer, whether or not there could have been none.
pub proof fn offer_is_taken_whole(list: Vec<OfferedServer>, servers: Vec<IceServer>, i: int)
    requires
        call_ensures(network::get_turn_credentials, (list,), servers),
        0 <= i < list@.len(),
    ensures
        servers@.len() == list@.len(),
        servers@[i].urls == list@[i].urls,
        list@[i].username matches Some(name) ==> servers@[i].username@ == name@,
        list@[i].username is None ==> servers@[i].username@.len() == 0,
        list@[i].credential matches Some(credential) ==> servers@[i].credential@ == credential@,
        list@[i].credential is None ==> servers@[i].credential@.len() == 0,
{
}

/// Without an offer one open server is used, and before any offer one with two addresses.
pub proof fn open_servers_need_no_offer(servers: Vec<IceServer>, first: Vec<IceServer>)
    requires
        call_ensures(network::choose_ice_servers, (None,), servers),
        call_ensures(WebRTCManager::ice_servers, (), first),
    ensures
        servers@.len() == 1,
        servers@[0].urls@.len() == 1,
        servers@[0].urls@[0]@ == "stun:stun.l.google.com:19302"@,
        servers@[0].username@.len() == 0,
        servers@[0].credential@.len() == 0,
        first@.len() == 1,
        first@[0].urls@.len() == 2,
        first@[0].urls@[0]@ == "stun:stun.l.google.com:19302"@,
        first@[0].urls@[1]@ == "stun:global.stun.twilio.com:3478"@,
        first@[0].username@.len() == 0,
        first@[0].credential@.len() == 0,
{
    let one = seq!["stun:stun.l.google.com:19302"@];
    let two = seq!["stun:stun.l.google.com:19302"@, "stun:global.stun.twilio.com:3478"@];
    assert(network::is_open_server(servers@[0], one));
    assert(network::is_open_server(first@[0], two));
    assert(servers@[0].urls@.map_values(|u: String| u@) == one);
    assert(first@[0].urls@.map_values(|u: String| u@) == two);
    assert(one.len() == 1 && two.len() == 2);
    assert(servers@[0].urls@.map_values(|u: String| u@).len() == servers@[0].urls@.len());
    assert(one[0] == servers@[0].urls@[0]@);
    assert(two[0] == first@[0].urls@[0]@ && two[1] == first@[0].urls@[1]@);
}

/// The node connects to the address it is configured with, and to the default one only where it has
/// none.
pub proof fn configured_backend_is_used(configured: &str, r: String)
    requires
        call_ensures(network::backend_ws_url, (configured,), r),
    ensures
        configured@.len() > 0 ==> r@ == configured@,
        configured@.len() == 0 ==> r@ == "wss://wss.project-yourcloud.me"@,
{
}

/// A node connects exactly when it has an identifier and a token: with them, and to the address it
/// was given, encrypted where the address does not say.
pub proof fn node_connects_with_its_credentials(config: &Config, ws_url: &str, r: Result<Network, NotConfigured>)
    requires
        call_ensures(network::start_communication_loop, (config, ws_url), r),
    ensures
        r is Ok <==> config.node_id@.len() > 0 && config.auth_token@.len() > 0,
        r matches Ok(n) ==> {
            &&& n.node_id@ == config.node_id@
            &&& n.auth_token@ == config.auth_token@
            &&& "ws://"@.is_prefix_of(ws_url@) || "wss://"@.is_prefix_of(ws_url@) ==> n.ws_url@ == ws_url@
            &&& !("ws://"@.is_prefix_of(ws_url@) || "wss://"@.is_prefix_of(ws_url@)) ==> n.ws_url@ == "wss://"@
                + ws_url@
        },
{
}

/// A connection is made of what it is given.
pub proof fn connection_is_what_it_is_given(ws_url: String, auth_token: String, node_id: String, n: Network)
    requires
        call_ensures(Network::init, (ws_url, auth_token, node_id), n),
    ensures
        n.ws_url == ws_url,
        n.auth_token == auth_token,
        n.node_id == node_id,
{
}

/// After an attempt that ended well nothing has failed. After one that did not, there is one failure
/// more, and the next delay is twice this one, up to a minute.
pub proof fn delays_grow_with_failures(
    n: &Network,
    failures: u64,
    good: (u64, u64),
    first: (u64, u64),
    second: (u64, u64),
)
    requires
        failures < u64::MAX - 1,
        call_ensures(Network::run_connection_loop, (n, failures, true), good),
        call_ensures(Network::run_connection_loop, (n, failures, false), first),
        call_ensures(network::after_attempt, (first.0, false), second),
    ensures
        good == (0u64, 1000u64),
        first.0 == failures + 1,
        failures == 0 ==> first.1 == 1000,
        second.0 == first.0 + 1,
        second.1 == if 2 * first.1 <= 60000 {
            2 * first.1
        } else {
            60000
        },
{
    crate::session_laws::delay_doubles_up_to_a_minute(first.0 as nat);
    crate::session_laws::failures_are_counted_in_a_row(failures);
    crate::session_laws::failures_are_counted_in_a_row(first.0);
}

/// The members of the answer to the authentication decide: success lets the node in, a failure is
/// told with its reason, and anything else is told as it came.
pub proof fn answer_decides_by_its_type(
    kind: Option<String>,
    reason: Option<String>,
    reply: String,
    r: Result<(), SessionError>,
)
    requires
        call_ensures(network::judge_auth_members, (kind, reason, reply), r),
    ensures
        r is Ok <==> (kind matches Some(k) && k@ == "AUTH_SUCCESS"@),
        (kind matches Some(k) && k@ == "AUTH_FAILED"@) ==> (r matches Err(
            SessionError::AuthFailed { reason: told },
        ) && told@ == match reason {
            Some(why) => why@,
            None => "Unknown reason"@,
        }),
        !(kind matches Some(k) && (k@ == "AUTH_SUCCESS"@ || k@ == "AUTH_FAILED"@)) ==> (r matches Err(
            SessionError::AuthUnexpected { reply: told },
        ) && told@ == reply@),
{
    reveal_strlit("AUTH_SUCCESS");
    reveal_strlit("AUTH_FAILED");
    assert("AUTH_SUCCESS"@.len() != "AUTH_FAILED"@.len());
}

/// Only a JSON object whose type says success lets the node in; silence, an end, another message and
/// what is no JSON are each told as what they are.
pub proof fn only_success_lets_in(reply: AuthReply, r: Result<(), SessionError>)
    requires
        call_ensures(network::judge_auth_reply, (reply,), r),
    ensures
        r is Ok <==> match reply {
            AuthReply::Text(t) => match json::parsed_members(t@) {
                Some(members) => members.contains_key("type"@) && members["type"@] == "AUTH_SUCCESS"@,
                None => false,
            },
            _ => false,
        },
        reply matches AuthReply::Text(t) ==> (json::parsed_members(t@) is None <==> r matches Err(
            SessionError::AuthNotJson,
        )),
        reply is Closed <==> r matches Err(SessionError::AuthClosed),
        reply is TimedOut <==> r matches Err(SessionError::AuthTimedOut),
        reply matches AuthReply::Other { shown } ==> (r matches Err(
            SessionError::AuthOtherMessage { shown: told },
        ) && told == shown),
{
}

/// A node authenticates with a JSON object that holds its identifier, its token and nothing else but
/// its type.
pub proof fn request_holds_the_credentials(node_id: &str, token: &str, r: String)
    requires
        call_ensures(network::auth_request, (node_id, token), r),
    ensures
        json::parsed_members(r@) matches Some(members) && {
            &&& members["type"@] == "AUTH"@
            &&& members["node_id"@] == node_id@
            &&& members["token"@] == token@
            &&& members.dom() =~= set!["type"@, "node_id"@, "token"@]
        },
{
    reveal_strlit("type");
    reveal_strlit("node_id");
    reveal_strlit("token");
    assert("type"@.len() == 4);
    assert("node_id"@.len() == 7);
    assert("token"@.len() == 5);
}

/// A new peer has uploaded nothing, and its chunks go to the directory it was given.
pub proof fn new_peer_has_no_uploads(storage_path: String, manager: WebRTCManager, chunk_id: Seq<char>)
    requires
        call_ensures(WebRTCManager::new, (storage_path,), manager),
    ensures
        manager.storage_path == storage_path,
        manager@.current is None,
        !manager@.received.contains_key(chunk_id),
        manager.well_formed(),
{
}

/// An upload that never began ends at once, and the peer is told which chunk it was about.
pub proof fn unknown_upload_is_refused(chunk_id: String, run: UploadRun)
    requires
        call_ensures(webrtc::refuse_upload, (chunk_id,), run),
    ensures
        run.stage matches UploadStage::Finished(Err(ChannelError::NoUpload { chunk_id: named })) && named == chunk_id,
{
}

/// A peer asks about, and deletes, the file that bears the identifier of the chunk in the storage
/// directory.
pub proof fn peer_asks_of_the_file_of_the_chunk(
    manager: &WebRTCManager,
    chunk_id: &str,
    delete: DeleteRun,
    file: String,
    stored: String,
    base: &str,
)
    requires
        call_ensures(WebRTCManager::handle_delete_request, (manager, chunk_id), delete),
        call_ensures(WebRTCManager::handle_check_request, (manager, chunk_id), file),
        call_ensures(storage::chunk_file_path, (base, chunk_id), stored),
    ensures
        delete.chunk_path@ == path::joined(manager.storage_path@, chunk_id@),
        delete.chunk_id@ == chunk_id@,
        file@ == path::joined(manager.storage_path@, chunk_id@),
        stored@ == path::joined(base@, chunk_id@),
{
}

/// A peer is told that its chunk is gone whenever the deletion did not fail, and is told why it
/// failed otherwise.
pub proof fn deletion_is_answered(
    chunk_id: String,
    deleted: Result<Option<u64>, DeleteError>,
    r: Result<ClientMessage, ChannelError>,
)
    requires
        call_ensures(webrtc::answer_delete_request, (chunk_id, deleted), r),
    ensures
        deleted is Ok ==> (r matches Ok(ClientMessage::TransferComplete { chunk_id: named }) && named == chunk_id),
        deleted matches Err(e) ==> (r matches Err(ChannelError::Delete(told)) && told == e),
{
}

/// A peer is told what the file system says of the file of the chunk.
pub proof fn question_is_answered(
    chunk_id: String,
    found: Result<bool, IoFailure>,
    r: Result<ClientMessage, ChannelError>,
    text: &str,
    told: Result<bool, ExistsError>,
)
    requires
        call_ensures(webrtc::answer_check_request, (chunk_id, found), r),
        call_ensures(storage::check_chunk_exists, (text, found), told),
    ensures
        found matches Ok(exists) ==> (r matches Ok(
            ClientMessage::IdStatus { chunk_id: named, exists: said },
        ) && named == chunk_id && said == exists),
        found matches Err(e) ==> (r matches Err(ChannelError::Exists(error)) && error.chunk_id@ == chunk_id@
            && error.reason == e.text),
        found matches Ok(exists) ==> (told matches Ok(said) && said == exists),
        found matches Err(e) ==> (told matches Err(error) && error.chunk_id@ == text@ && error.reason == e.text),
{
}

/// What was read as a way to reach the peer is handed to the connection as it is, and what the
/// connection says of it is the result; what could not be read is refused with the reason.
pub proof fn candidate_is_handed_on(
    read: Result<PeerCandidate, String>,
    first: CandidateStage,
    added: Result<(), String>,
    last: CandidateStage,
)
    requires
        call_ensures(webrtc::take_candidate, (read,), first),
        call_ensures(CandidateStage::resume, (first, added), last),
    ensures
        read matches Ok(candidate) ==> (first matches CandidateStage::Add { candidate: handed } && handed
            == candidate),
        read matches Err(why) ==> (first matches CandidateStage::Finished(
            Err(CandidateError::Unreadable { reason }),
        ) && reason == why),
        added is Ok ==> (last matches CandidateStage::Finished(Ok(_))),
        added matches Err(why) ==> (last matches CandidateStage::Finished(
            Err(CandidateError::Refused { reason }),
        ) && reason == why),
{
}

/// A text that holds a way to reach the peer leads to handing it on, with all its members; another
/// text ends the run.
pub proof fn candidate_text_is_read(manager: &WebRTCManager, candidate_json: &str, stage: CandidateStage)
    requires
        call_ensures(WebRTCManager::add_ice_candidate, (manager, candidate_json), stage),
    ensures
        stage is Add <==> webrtc::candidate_read(candidate_json@) is Ok,
        stage matches CandidateStage::Add { candidate } ==> webrtc::candidate_read(candidate_json@) == Ok::<
            _,
            Seq<char>,
        >(candidate@),
        stage matches CandidateStage::Finished(r) ==> r is Err,
{
}

/// Every way to reach this side is told to the backend, in its session; that all have been found is
/// not.
pub proof fn every_candidate_is_told(session_id: &str, candidate: Option<PeerCandidate>, r: Option<String>)
    requires
        call_ensures(webrtc::candidate_message, (session_id, candidate), r),
    ensures
        r is Some <==> candidate is Some,
        r matches Some(message) ==> (json::parsed_members(message@) matches Some(members) && {
            &&& members["command_id"@] == session_id@
            &&& members["type"@] == "ICE_CANDIDATE_ANSWER"@
        }),
{
    reveal_strlit("command_id");
    reveal_strlit("type");
    assert("command_id"@.len() != "type"@.len());
}

/// Each command of the command line does its own thing.
pub proof fn command_line_is_obeyed(cli: Cli, action: CliAction)
    requires
        call_ensures(cli::handle_command, (cli,), action),
    ensures
        cli.command is Start <==> action is Proceed,
        cli.command is Status <==> action is ShowStatus,
        cli.command is Setup <==> action is InteractiveSetup,
        cli.command is Validate <==> action is ValidateConfiguration,
        cli.command is Config <==> action is ShowConfiguration,
{
}

/// A directory that is there is scanned, and one that is not is made.
pub proof fn missing_directory_is_made(present: bool, step: DirectoryStep)
    requires
        call_ensures(storage::prepare_storage_directory, (present,), step),
    ensures
        present <==> step is Scan,
        !present <==> step is Create,
{
}

/// One more file whose size is known in the storage directory is one more chunk, with that many more
/// bytes in use; the limit is what is configured, whatever the directory holds.
pub proof fn stored_files_are_counted(
    max_storage_gib: Gib,
    entries: &Vec<DirectoryEntry>,
    more: &Vec<DirectoryEntry>,
    entry: DirectoryEntry,
    before: StorageState,
    after: StorageState,
)
    requires
        more@ == entries@.push(entry),
        call_ensures(storage::initialize_storage_state, (max_storage_gib, entries), before),
        call_ensures(storage::initialize_storage_state, (max_storage_gib, more), after),
    ensures
        before.max_storage_bytes == max_storage_gib.in_bytes(),
        after.max_storage_bytes == before.max_storage_bytes,
        match entry.size {
            Some(size) if entry.is_file => {
                &&& after.current_used_space_bytes == before.current_used_space_bytes + size
                &&& after.current_chunk_count == before.current_chunk_count + 1
            },
            _ => {
                &&& after.current_used_space_bytes == before.current_used_space_bytes
                &&& after.current_chunk_count == before.current_chunk_count
            },
        },
        entries@.len() == 0 ==> before.current_used_space_bytes == 0 && before.current_chunk_count == 0,
{
    assert(more@.drop_last() =~= entries@);
}

/// A node that is not set up yet has no identifier, no token, no address, forty gibibytes, and the
/// default storage directory.
pub proof fn default_is_not_set_up(places: &Places, config: Config, path: String)
    requires
        call_ensures(Config::default, (places,), config),
        call_ensures(config::get_default_storage_path, (places,), path),
    ensures
        config.node_id@.len() == 0,
        config.auth_token@.len() == 0,
        config.ws_url@.len() == 0,
        config.storage_path@ == path@,
        config.max_storage_gib.bits == 0x4044_0000_0000_0000,
        match places.home {
            Some(home) => path@ == path::joined(home@, "Project_YourCloud"@),
            None => match places.user {
                Some(user) => path@ == "/home/"@ + user@ + "/Project_YourCloud"@,
                None => match places.current_dir {
                    Some(dir) => path@ == path::joined(dir@, "Project_YourCloud"@),
                    None => path@ == path::joined("/tmp"@, "Project_YourCloud"@),
                },
            },
        },
{
}

/// A node is ready exactly when it has an identifier and a token.
pub proof fn ready_is_having_both(config: &Config, yes: bool)
    requires
        call_ensures(Config::is_ready, (config,), yes),
    ensures
        yes <==> config.node_id@.len() > 0 && config.auth_token@.len() > 0,
{
}

/// The directory that is asked for is used; the default one stands in only where none is.
pub proof fn asked_directory_is_used(path: Option<String>, places: &Places, r: Result<String, ValidationError>)
    requires
        call_ensures(config::make_storage_directory, (path, places), r),
    ensures
        r is Ok,
        path matches Some(given) ==> r->Ok_0 == given,
        path is None ==> r->Ok_0@ == config::default_storage_path(*places),
{
}

/// The configuration file lies in its own directory, in the configuration directory of the user or in
/// `/etc`.
pub proof fn config_file_is_below_its_directory(
    config_dir: &Option<String>,
    directory: String,
    file: Result<String, ValidationError>,
)
    requires
        call_ensures(config::get_config_directory, (config_dir,), directory),
        call_ensures(config::get_config_path, (config_dir,), file),
    ensures
        file is Ok,
        config_dir matches Some(dir) ==> directory@ == path::joined(dir@, "Project_YourCloud"@) && file->Ok_0@
            == path::joined(directory@, "config.toml"@),
        config_dir is None ==> directory@ == "/etc/Project_YourCloud"@ && file->Ok_0@
            == "/etc/Project_YourCloud/config.toml"@,
{
}

/// The verdict on a configuration is the one on its rules with the verdict on its characters.
pub proof fn characters_are_looked_at(
    config: &Config,
    allowed: bool,
    id: &str,
    given: Result<(), ValidationError>,
    judged: Result<(), ValidationError>,
)
    requires
        id@ == config.node_id@,
        call_ensures(config::has_node_id_characters, (id,), allowed),
        call_ensures(config::validate_config_given, (config, allowed), given),
        call_ensures(config::validate_config, (config,), judged),
    ensures
        given == judged,
        allowed <==> forall|i: int|
            0 <= i < id@.len() ==> crate::text::alphanumeric(#[trigger] id@[i]) || id@[i] == '-' || id@[i] == '_',
{
}

/// The free space is told exactly when the path could be resolved and some disk is mounted above it;
/// it is that of the disk with the longest mount point, and the first of those.
pub proof fn free_space_is_of_the_closest_disk(
    storage_path: &str,
    canonical: Option<Vec<u8>>,
    disks: &Vec<MountedDisk>,
    r: Result<u64, DiskSpaceError>,
)
    requires
        call_ensures(disk::get_disk_available_space, (storage_path, canonical, disks), r),
    ensures
        canonical is None <==> r matches Err(DiskSpaceError::NotResolved { .. }),
        match canonical {
            None => true,
            Some(c) => {
                &&& r is Ok <==> exists|i: int|
                    0 <= i < disks@.len() && (#[trigger] disks@[i]).mount_point@.len() > 0 && path::lies_under(
                        c@,
                        disks@[i].mount_point@,
                    )
                &&& r matches Ok(space) ==> exists|i: int|
                    {
                        &&& 0 <= i < disks@.len()
                        &&& (#[trigger] disks@[i]).available_space == space
                        &&& path::lies_under(c@, disks@[i].mount_point@)
                        &&& forall|j: int|
                            0 <= j < disks@.len() && path::lies_under(c@, (#[trigger] disks@[j]).mount_point@) ==> {
                                &&& disks@[j].mount_point@.len() <= disks@[i].mount_point@.len()
                                &&& j < i ==> disks@[j].mount_point@.len() < disks@[i].mount_point@.len()
                            }
                    }
            },
        },
{
    if let Some(c) = canonical {
        match r {
            Ok(space) => {
                let i = choose|i: int| #[trigger]
                    disk::is_closest_disk(disks@, i, c@) && space == disks@[i].available_space;
                assert(disk::disk_holds(disks@, i, c@));
                assert forall|j: int|
                    0 <= j < disks@.len() && path::lies_under(c@, (#[trigger] disks@[j]).mount_point@) implies {
                    &&& disks@[j].mount_point@.len() <= disks@[i].mount_point@.len()
                    &&& j < i ==> disks@[j].mount_point@.len() < disks@[i].mount_point@.len()
                } by {
                    if disks@[j].mount_point@.len() > 0 {
                        assert(disk::disk_holds(disks@, j, c@));
                    }
                }
                assert(disks@[i].available_space == space);
            },
            Err(_) => {
                assert(r matches Err(DiskSpaceError::NoDisk { .. }));
                assert(disk::no_disk_holds(disks@, c@));
                assert forall|i: int| 0 <= i < disks@.len() && (#[trigger] disks@[i]).mount_point@.len() > 0 implies
                    !path::lies_under(c@, disks@[i].mount_point@) by {
                    assert(!disk::disk_holds(disks@, i, c@));
                }
            },
        }
    }
}

/// The dialog begins with the first question and with what is configured already, or with the
/// default, and tells the user which.
pub proof fn dialog_begins_with_what_there_is(
    loaded: Option<Config>,
    places: &Places,
    found: bool,
    setup: Setup,
    lines: Vec<Line>,
)
    requires
        call_ensures(setup::interactive_setup, (loaded, places), setup),
        call_ensures(setup::greeting, (found,), lines),
    ensures
        setup.stage is AskNodeId,
        loaded matches Some(config) ==> setup.config == config,
        loaded is None ==> {
            &&& setup.config.node_id@.len() == 0
            &&& setup.config.auth_token@.len() == 0
            &&& setup.config.ws_url@.len() == 0
            &&& setup.config.storage_path@ == config::default_storage_path(*places)
            &&& setup.config.max_storage_gib.bits == 0x4044_0000_0000_0000
        },
        ({
            let views = cli::line_views(lines@);
            &&& views.len() == 4
            &&& found ==> views[2] == cli::LineView::Text(
                "Found existing configuration. Current values will be shown in [brackets]."@,
            )
            &&& !found ==> views[2] == cli::LineView::Text(
                "No existing configuration found. Creating new configuration."@,
            )
        }),
{
}

/// The user is asked exactly while the dialog has a question, with the question of its stage.
pub proof fn user_is_asked_while_there_is_a_question(setup: &Setup, r: Option<Prompt>, lines: Vec<Line>)
    requires
        call_ensures(Setup::prompt, (setup,), r),
        call_ensures(Setup::summary, (setup,), lines),
    ensures
        r is None <==> setup.stage is Save || setup.stage is Finished,
        r matches Some(p) ==> setup.prompted() == Some(p@),
        cli::line_views(lines@) == setup::summary_lines(setup.config),
{
}

/// The answers `n` and `no`, and no other, say that nothing is to be saved.
pub proof fn only_no_means_no(lowered: &str, yes: bool)
    requires
        call_ensures(setup::refuses_to_save, (lowered,), yes),
    ensures
        yes <==> lowered@ == "n"@ || lowered@ == "no"@,
{
}

/// The dialog ends as the saving did, and says at its end what was done and what comes next.
pub proof fn dialog_ends_as_the_saving_did(
    setup: Setup,
    result: Result<(), SaveError>,
    next: Setup,
    saved: bool,
    lines: Vec<Line>,
)
    requires
        call_ensures(Setup::conclude, (setup, result), next),
        call_ensures(Setup::farewell, (&next, saved), lines),
    ensures
        next.config == setup.config,
        result is Ok ==> (next.stage matches SetupStage::Finished(Ok(_))),
        result matches Err(e) ==> (next.stage matches SetupStage::Finished(Err(SetupError::Save(told))) && told == e),
        ({
            let views = cli::line_views(lines@);
            let ready = setup.config.node_id@.len() > 0 && setup.config.auth_token@.len() > 0;
            &&& !saved ==> views == seq![cli::LineView::Text("Configuration not saved."@)]
            &&& saved ==> views[0] == cli::LineView::Text("Configuration saved successfully!"@)
            &&& saved && ready ==> views.len() == 4 && views[2] == cli::LineView::Text(
                "Your storage node is ready to start!"@,
            )
            &&& saved && !ready ==> views.len() == 5 && views[2] == cli::LineView::Text(
                "Note: Node ID and Auth Token are required to connect to the backend."@,
            )
        }),
{
}

} // verus!
