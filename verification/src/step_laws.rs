//! The steps of the histories are the steps that the functions make.
//!
//! The laws speak of histories: what a task began with, what it was answered, and what came next.
//! Here it is shown that whatever the functions of the library give is such a beginning and such a
//! step, so that what holds of every history holds of every run.

use crate::cli;
use crate::cli::{FileFacts, Report, StorageFacts};
use crate::commands;
use crate::commands::{BackendCommand, CommandReply, CommandStage};
use crate::config;
use crate::config::{Config, LoadReply, LoadStage, SaveReply, SaveStage, ValidationError};
use crate::disk::DiskSpaceError;
use crate::gib::Gib;
use crate::network::{Network, SessionReply, SessionStage};
use crate::setup::Setup;
use crate::startup::{StartReply, Startup};
use crate::storage;
use crate::storage::{
    DeleteReply, DeleteRun, RetrieveReply, RetrieveRun, StorageState, StoreReply, StoreRun,
};
use crate::webrtc;
use crate::webrtc::{
    AnswerReply, AnswerStage, ChannelAction, ClientMessage, DownloadReply, DownloadRun, TransferSession, UploadReply,
    UploadRun, WebRTCManager,
};
use vstd::prelude::*;

verus! {

/// A store begins as the histories of stores do.
pub proof fn store_begins(base: &str, id: &str, data: Vec<u8>, state: &StorageState, run: StoreRun)
    requires
        call_ensures(storage::store_chunk_data_to_disk, (base, id, data, state), run),
    ensures
        storage::store_begun(run, base@, id@, data@, *state),
{
}

/// A store goes on as the histories of stores do, and counts as they do.
pub proof fn store_goes_on(run: StoreRun, reply: StoreReply)
    ensures
        forall|state: &mut StorageState, next: StoreRun| #[trigger]
            call_ensures(StoreRun::resume, (run, reply, state), next) ==> {
                &&& next == (StoreRun { stage: run.stage_after(reply), ..run })
                &&& *final(state) == if run.completes_with(reply) {
                    (*state).with_chunk(run.data@.len() as u64)
                } else {
                    *state
                }
            },
{
}

/// A stored chunk adds its size to the bytes in use and one to the number of chunks, and a deleted
/// one takes them away, as far as the counters go.
pub proof fn chunks_are_counted(size: u64)
    ensures
        forall|state: &mut StorageState|
            #![trigger call_ensures(StorageState::add_chunk, (state, size), ())]
            call_ensures(StorageState::add_chunk, (state, size), ()) ==> {
                &&& state.current_used_space_bytes + size <= u64::MAX ==> final(state).current_used_space_bytes
                    == state.current_used_space_bytes + size
                &&& state.current_chunk_count < u64::MAX ==> final(state).current_chunk_count
                    == state.current_chunk_count + 1
                &&& final(state).max_storage_bytes == state.max_storage_bytes
            },
        forall|state: &mut StorageState|
            #![trigger call_ensures(StorageState::remove_chunk, (state, size), ())]
            call_ensures(StorageState::remove_chunk, (state, size), ()) ==> {
                &&& size <= state.current_used_space_bytes ==> final(state).current_used_space_bytes
                    == state.current_used_space_bytes - size
                &&& 0 < state.current_chunk_count ==> final(state).current_chunk_count == state.current_chunk_count - 1
                &&& final(state).max_storage_bytes == state.max_storage_bytes
            },
{
}

/// A chunk begins to be read, and its reading goes on, as in the histories.
pub proof fn retrieve_goes_on(
    base: &str,
    id: &str,
    begun: RetrieveRun,
    run: RetrieveRun,
    reply: RetrieveReply,
    next: RetrieveRun,
)
    requires
        call_ensures(storage::retrieve_chunk_data_from_disk, (base, id), begun),
        call_ensures(RetrieveRun::resume, (run, reply), next),
    ensures
        storage::retrieve_begun(begun, base@, id@),
        next == (RetrieveRun { stage: run.stage_after(reply), ..run }),
{
}

/// A chunk begins to be deleted as in the histories.
pub proof fn delete_begins(base: &str, id: &str, begun: DeleteRun)
    requires
        call_ensures(storage::delete_chunk_from_disk, (base, id), begun),
    ensures
        storage::delete_begun(begun, base@, id@),
{
}

/// A deletion goes on, and counts, as in the histories.
pub proof fn delete_goes_on(run: DeleteRun, reply: DeleteReply)
    ensures
        forall|state: &mut StorageState, next: DeleteRun| #[trigger]
            call_ensures(DeleteRun::resume, (run, reply, state), next) ==> {
                &&& next == (DeleteRun { stage: run.stage_after(reply), ..run })
                &&& *final(state) == run.state_after(reply, *state)
            },
{
}

/// A command begins to be handled as in the histories.
pub proof fn command_begins(command: BackendCommand, base: &str, state: &StorageState, stage: CommandStage)
    requires
        call_ensures(commands::handle_command, (command, base, state), stage),
    ensures
        commands::begins(command, base@, *state, stage),
{
}

/// A command goes on, and counts, as in the histories.
pub proof fn command_goes_on(stage: CommandStage, reply: CommandReply, base: &str)
    ensures
        forall|state: &mut StorageState, next: CommandStage| #[trigger]
            call_ensures(CommandStage::resume, (stage, reply, base, state), next) ==> {
                &&& stage.leads_to(reply, base@, *state, next)
                &&& *final(state) == stage.state_after(reply, *state)
            },
{
}

/// An upload begins to be completed as in the histories.
pub proof fn upload_begins(
    manager: &WebRTCManager,
    session: TransferSession,
    state: &StorageState,
    run: UploadRun,
)
    requires
        call_ensures(WebRTCManager::finalize_upload, (manager, session, state), run),
    ensures
        run.chunk_id == session.chunk_id,
        exists|store: StoreRun| #[trigger]
            storage::store_begun(store, manager.storage_path@, session.chunk_id@, session.buffer@, *state)
                && run.stage == webrtc::storing(run.chunk_id, store),
{
}

/// An upload goes on, and counts, as in the histories. When the peer has been told, and only then, no
/// upload is current any more.
pub proof fn upload_goes_on(run: UploadRun, reply: UploadReply)
    requires
        run.expects(reply),
    ensures
        forall|manager: &mut WebRTCManager, state: &mut StorageState, next: UploadRun| #[trigger]
            call_ensures(UploadRun::resume, (run, reply, manager, state), next) ==> {
                &&& next == (UploadRun { stage: run.stage_after(reply), ..run })
                &&& *final(state) == run.state_after(reply, *state)
                &&& final(manager).active_uploads == manager.active_uploads
                &&& final(manager).storage_path == manager.storage_path
                &&& final(manager).current_upload_chunk_id == if run.stage is Reply && (reply matches UploadReply::Sent(
                    Ok(_),
                )) {
                    None::<String>
                } else {
                    manager.current_upload_chunk_id
                }
            },
{
}

/// A download begins, and goes on, as in the histories.
pub proof fn download_goes_on(
    manager: &WebRTCManager,
    chunk_id: String,
    begun: DownloadRun,
    run: DownloadRun,
    reply: DownloadReply,
    next: DownloadRun,
)
    requires
        call_ensures(WebRTCManager::handle_download_request, (manager, chunk_id), begun),
        call_ensures(DownloadRun::resume, (run, reply), next),
    ensures
        begun.chunk_id@ == chunk_id@,
        begun.data@ == Seq::<u8>::empty(),
        begun.sent == 0,
        begun.stage matches webrtc::DownloadStage::Retrieve { retrieve } && storage::retrieve_begun(
            retrieve,
            manager.storage_path@,
            chunk_id@,
        ),
        run.leads_to(reply, next),
        next.well_formed(),
{
}

/// A message on the data channel does to the uploads what the laws of uploads say: text is control,
/// and anything else is data of the current upload.
pub proof fn channel_message_is_taken_in(is_string: bool, data: &[u8], parsed: Option<ClientMessage>)
    ensures
        forall|manager: &mut WebRTCManager, action: ChannelAction| #[trigger]
            call_ensures(WebRTCManager::handle_message, (manager, is_string, data, parsed), action) ==> {
                &&& final(manager).storage_path == manager.storage_path
                &&& is_string ==> manager.controlled(parsed, action, *final(manager))
                &&& !is_string ==> action is Ignore && (*final(manager))@ == (*manager)@.receive(data@)
            },
        forall|manager: &mut WebRTCManager, action: ChannelAction| #[trigger]
            call_ensures(WebRTCManager::handle_control_message, (manager, parsed), action) ==> manager.controlled(
                parsed,
                action,
                *final(manager),
            ),
        forall|manager: &mut WebRTCManager|
            #![trigger call_ensures(WebRTCManager::handle_data_chunk, (manager, data), ())]
            call_ensures(WebRTCManager::handle_data_chunk, (manager, data), ()) ==> (*final(manager))@
                == (*manager)@.receive(data@),
{
}

/// The answering of an offer begins, and goes on, as in the histories.
pub proof fn answer_goes_on(
    manager: &WebRTCManager,
    begun: AnswerStage,
    stage: AnswerStage,
    reply: AnswerReply,
    next: AnswerStage,
)
    requires
        call_ensures(WebRTCManager::handle_offer_and_create_answer, (manager,), begun),
        call_ensures(AnswerStage::resume, (stage, reply), next),
    ensures
        begun is SetRemote,
        next == stage.after(reply),
{
}

/// A connection begins, and goes on, as in the histories.
pub proof fn session_goes_on(
    network: &Network,
    begun: SessionStage,
    stage: SessionStage,
    reply: SessionReply,
    next: SessionStage,
)
    requires
        call_ensures(Network::establish_and_process_messages, (network,), begun),
        call_ensures(SessionStage::resume, (stage, network, reply), next),
    ensures
        begun == (SessionStage::Connect { encrypted: network.is_encrypted() }),
        stage.leads_to(*network, reply, next),
{
}

/// The loading and the saving of a configuration begin, and go on, as in the histories.
pub proof fn config_goes_on(
    load: LoadStage,
    load_reply: LoadReply,
    loaded: LoadStage,
    load_begun: LoadStage,
    save: SaveStage,
    save_reply: SaveReply,
    saved: SaveStage,
    config_dir: &Option<String>,
    save_begun: SaveStage,
)
    requires
        call_ensures(config::load_config, (), load_begun),
        call_ensures(LoadStage::resume, (load, load_reply), loaded),
        call_ensures(config::save_config, (config_dir,), save_begun),
        call_ensures(SaveStage::resume, (save, save_reply), saved),
    ensures
        load_begun is CheckExists,
        loaded == load.after(load_reply),
        save_begun matches SaveStage::CreateDirectory { directory } && directory@ == config::config_directory(
            *config_dir,
        ),
        saved == save.after(save_reply),
{
}

/// The check of a configuration finds what is wrong with it, and nothing else.
pub proof fn check_finds_the_fault(config: &Config, r: Result<(), ValidationError>)
    requires
        call_ensures(config::validate_config, (config,), r),
    ensures
        match config::fault(*config, config::node_id_characters(config.node_id@)) {
            None => r is Ok,
            Some(e) => r == Err::<(), ValidationError>(e),
        },
{
}

/// The dialog goes on with what the user typed, without the white space around it, as in the
/// histories.
pub proof fn dialog_goes_on(setup: Setup, input: &str, number: Option<Gib>, next: Setup)
    requires
        call_ensures(Setup::answer, (setup, input, number), next),
    ensures
        setup.leads_to(crate::text::trimmed(input@), number, next),
{
}

/// A start begins, and goes on, as in the histories.
pub proof fn start_goes_on(
    storage_path: String,
    required_bytes: u64,
    begun: Startup,
    start: Startup,
    reply: StartReply,
    next: Startup,
)
    requires
        call_ensures(Startup::begin, (storage_path, required_bytes), begun),
        call_ensures(Startup::resume, (start, reply), next),
    ensures
        begun.stage is CreateDirectory,
        begun.storage_path == storage_path,
        begun.required_bytes == required_bytes,
        next == (Startup { stage: start.stage_after(reply), ..start }),
{
}

/// The status of a configured node is what the laws of the status say, and a node without a
/// configuration is told why, and fails for that reason.
pub proof fn status_is_reported(known: &Result<(Config, StorageFacts), String>, report: Report)
    requires
        call_ensures(cli::show_status, (known,), report),
    ensures
        match *known {
            Ok(k) => report.outcome is Ok && cli::line_views(report.lines@) == cli::status_lines(k.0, k.1),
            Err(e) => {
                let lines = cli::line_views(report.lines@);
                &&& report.outcome matches Err(message) && message@ == e@
                &&& lines.len() == 3
                &&& lines[1] == cli::LineView::Text("Failed to load configuration: "@ + e@)
            },
        },
{
}

/// A configuration that could be loaded is checked by its rules and by the free space; without one
/// the check fails for the reason why there is none.
pub proof fn validation_is_reported(
    known: &Result<(Config, Result<u64, DiskSpaceError>), String>,
    amount: &str,
    report: Report,
)
    requires
        call_ensures(cli::validate_configuration, (known, amount), report),
    ensures
        match *known {
            Ok(k) => cli::is_validation(
                report,
                k.0,
                config::fault(k.0, config::node_id_characters(k.0.node_id@)),
                k.1,
                amount@,
            ),
            Err(e) => {
                let lines = cli::line_views(report.lines@);
                &&& report.outcome matches Err(message) && message@ == e@
                &&& lines.len() == 2
                &&& lines[1] == cli::LineView::Text("Failed to load configuration: "@ + e@)
            },
        },
{
}

/// The validation succeeds exactly when the configuration was loaded, is accepted, and the disk has
/// room for all that it may come to hold.
pub proof fn validation_succeeds_exactly_when(
    known: &Result<(Config, Result<u64, DiskSpaceError>), String>,
    amount: &str,
    report: Report,
)
    requires
        call_ensures(cli::validate_configuration, (known, amount), report),
    ensures
        report.outcome is Ok <==> match *known {
            Ok((config, Ok(bytes))) => {
                &&& config::fault(config, config::node_id_characters(config.node_id@)) is None
                &&& bytes >= config.max_storage_gib.in_bytes()
            },
            _ => false,
        },
{
}

/// The configuration file is shown as the laws of what is shown say: its path, its contents and what
/// was read from it, or that there is none, or why it could not be read.
pub proof fn configuration_is_reported(config_dir: &Option<String>, facts: &Option<FileFacts>, report: Report)
    requires
        call_ensures(cli::show_configuration, (config_dir, facts), report),
    ensures
        ({
            let lines = cli::line_views(report.lines@);
            let head = cli::file_head(config::config_file(*config_dir));
            match *facts {
                None => {
                    &&& report.outcome is Ok
                    &&& lines.len() == 4
                    &&& lines.take(2) == head
                    &&& lines[2] == cli::LineView::Text("Configuration file does not exist"@)
                },
                Some(f) => match f.contents {
                    Ok(contents) => {
                        &&& report.outcome is Ok
                        &&& lines == head + cli::contents_lines(contents@) + cli::parsed_lines(f.parsed)
                    },
                    Err(e) => {
                        &&& report.outcome matches Err(message) && message@ == e@
                        &&& lines.last() == cli::LineView::Text("Failed to read configuration file: "@ + e@)
                    },
                },
            }
        }),
{
    let lines = cli::line_views(report.lines@);
    if *facts is None {
        assert(lines.take(2) =~= cli::file_head(config::config_file(*config_dir)));
    }
}

} // verus!
