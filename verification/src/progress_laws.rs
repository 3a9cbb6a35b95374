//! Every answer takes a task on: what is done well is followed by the next thing to do, and what
//! fails ends the task, or undoes it, with the reason.

use crate::commands::{CommandError, CommandReply, CommandStage};
use crate::config;
use crate::config::{LoadError, LoadReply, LoadStage, SaveError, SaveReply, SaveStage, ValidationError};
use crate::gib::Gib;
use crate::network::{ConnectReply, Incoming, Network, SessionError, SessionEvent, SessionReply, SessionStage};
use crate::setup::Setup;
use crate::startup::{StartError, StartReply, StartStage, Startup};
use crate::storage::{
    RetrieveError, RetrieveReply, RetrieveRun, RetrieveStage, StorageState, StoreError, StoreReply, StoreRun,
    StoreStage,
};
use crate::text;
use crate::webrtc::{
    AnswerError, AnswerReply, AnswerStage, ChannelAction, ChannelError, ClientMessage, DownloadReply, DownloadRun,
    DownloadStage, UploadReply, UploadRun, UploadStage, WebRTCManager,
};
use vstd::prelude::*;

verus! {

/// The loading of a configuration looks for the file, reads it and parses it, and gives what was
/// parsed exactly when the check of it gives no error.
pub proof fn loading_moves_on(
    stage: LoadStage,
    reply: LoadReply,
    next: LoadStage,
    verdict: Result<(), ValidationError>,
)
    requires
        call_ensures(LoadStage::resume, (stage, reply), next),
        reply matches LoadReply::Parsed(Some(config)) ==> call_ensures(
            config::validate_config,
            (&config,),
            verdict,
        ),
    ensures
        stage is CheckExists && reply == LoadReply::Exists(true) ==> next is ReadFile,
        stage is CheckExists && reply == LoadReply::Exists(false) ==> (next matches LoadStage::Finished(
            Err(LoadError::Missing),
        )),
        stage is ReadFile ==> match reply {
            LoadReply::Contents(Some(contents)) => next == (LoadStage::Parse { contents }),
            LoadReply::Contents(None) => next matches LoadStage::Finished(Err(LoadError::Read)),
            _ => true,
        },
        stage is Parse ==> match reply {
            LoadReply::Parsed(None) => next matches LoadStage::Finished(Err(LoadError::Parse)),
            LoadReply::Parsed(Some(config)) => match verdict {
                Ok(_) => next == LoadStage::Finished(Ok(config)),
                Err(e) => next == LoadStage::Finished(Err(LoadError::Invalid(e))),
            },
            _ => true,
        },
{
}

/// The saving of a configuration makes its directory, then its text, then its file.
pub proof fn saving_moves_on(stage: SaveStage, reply: SaveReply, next: SaveStage)
    requires
        call_ensures(SaveStage::resume, (stage, reply), next),
    ensures
        stage is CreateDirectory && reply == SaveReply::Done(true) ==> next is Serialize,
        stage is CreateDirectory && reply == SaveReply::Done(false) ==> (next matches SaveStage::Finished(
            Err(SaveError::CreateDirectory),
        )),
        stage is Serialize ==> match reply {
            SaveReply::Serialized(Some(contents)) => next == (SaveStage::WriteFile { contents }),
            SaveReply::Serialized(None) => next matches SaveStage::Finished(Err(SaveError::Serialize)),
            _ => true,
        },
        stage is WriteFile && reply == SaveReply::Done(true) ==> (next matches SaveStage::Finished(Ok(_))),
        stage is WriteFile && reply == SaveReply::Done(false) ==> (next matches SaveStage::Finished(
            Err(SaveError::Write),
        )),
{
}

/// A node that starts makes its directory, measures the disk, and scans the directory where the disk
/// has room for all that it may come to hold; then it serves.
pub proof fn start_moves_on(start: Startup, reply: StartReply, next: Startup)
    requires
        call_ensures(Startup::resume, (start, reply), next),
    ensures
        next.storage_path == start.storage_path,
        next.required_bytes == start.required_bytes,
        start.stage is CreateDirectory && reply == StartReply::Created(true) ==> next.stage is MeasureDisk,
        start.stage is CreateDirectory && reply == StartReply::Created(false) ==> next.stage == StartStage::Failed(
            StartError::CreateDirectory { storage_path: start.storage_path },
        ),
        start.stage is MeasureDisk ==> match reply {
            StartReply::Space(Ok(available)) => if available >= start.required_bytes {
                next.stage is Scan
            } else {
                next.stage == StartStage::Failed(
                    StartError::NotEnoughSpace { available, required: start.required_bytes },
                )
            },
            StartReply::Space(Err(error)) => next.stage == StartStage::Failed(StartError::SpaceUnknown { error }),
            _ => true,
        },
        start.stage is Scan ==> match reply {
            StartReply::Scanned(Some(state)) => next.stage == (StartStage::Serve { state }),
            StartReply::Scanned(None) => next.stage matches StartStage::Failed(StartError::Scan),
            _ => true,
        },
{
}

/// A chunk that is stored is measured against the disk, written beside its place and moved there; one
/// that could not be written or moved is cleared away, and the store fails for that reason. The
/// counters change with the move, and with nothing else.
pub proof fn store_moves_on(run: StoreRun, reply: StoreReply)
    ensures
        forall|state: &mut StorageState, next: StoreRun| #[trigger]
            call_ensures(StoreRun::resume, (run, reply, state), next) ==> {
                &&& next.chunk_id == run.chunk_id && next.chunk_path == run.chunk_path
                &&& next.temp_path == run.temp_path && next.data == run.data
                &&& run.stage is MeasureDisk ==> match reply {
                    StoreReply::Space(Ok(available)) => if run.data@.len() <= available {
                        next.stage is RemoveStaleTemp
                    } else {
                        next.stage == StoreStage::Finished(
                            Err(StoreError::DiskFull { size: run.data@.len() as u64, available }),
                        )
                    },
                    StoreReply::Space(Err(error)) => next.stage == StoreStage::Finished(
                        Err(StoreError::DiskUnknown { error }),
                    ),
                    _ => true,
                }
                &&& run.stage is RemoveStaleTemp ==> next.stage is WriteTemp
                &&& run.stage is WriteTemp ==> match reply {
                    StoreReply::Done(Ok(_)) => next.stage is RenameTemp,
                    StoreReply::Done(Err(e)) => next.stage == (StoreStage::DiscardTemp {
                        error: StoreError::Write { chunk_id: run.chunk_id, reason: e.text },
                    }),
                    _ => true,
                }
                &&& run.stage is RenameTemp ==> match reply {
                    StoreReply::Done(Ok(_)) => next.stage == StoreStage::Finished(Ok(run.data@.len() as u64)),
                    StoreReply::Done(Err(e)) => next.stage is DiscardTemp,
                    _ => true,
                }
                &&& run.stage matches StoreStage::DiscardTemp { error } ==> next.stage == StoreStage::Finished(
                    Err(error),
                )
                &&& !(run.stage is RenameTemp && (reply matches StoreReply::Done(Ok(_)))) ==> *final(state) == *state
            },
{
}

/// A chunk that is there is read, and what was read is given as it is; one that is not there, or
/// cannot be read, is told by its identifier.
pub proof fn retrieve_moves_on(run: RetrieveRun, reply: RetrieveReply, next: RetrieveRun)
    requires
        call_ensures(RetrieveRun::resume, (run, reply), next),
    ensures
        next.chunk_id == run.chunk_id && next.chunk_path == run.chunk_path,
        run.stage is CheckExists ==> match reply {
            RetrieveReply::Exists(Ok(found)) => if found {
                next.stage is ReadFile
            } else {
                next.stage == RetrieveStage::Finished(Err(RetrieveError::NotFound { chunk_id: run.chunk_id }))
            },
            RetrieveReply::Exists(Err(_)) => next.stage == RetrieveStage::Finished(
                Err(RetrieveError::NotFound { chunk_id: run.chunk_id }),
            ),
            _ => true,
        },
        run.stage is ReadFile ==> match reply {
            RetrieveReply::Data(Ok(data)) => next.stage == RetrieveStage::Finished(Ok(data)),
            RetrieveReply::Data(Err(_)) => next.stage == RetrieveStage::Finished(
                Err(RetrieveError::Read { chunk_id: run.chunk_id }),
            ),
            _ => true,
        },
{
}

/// An answer that is handed on ends its command, well where it was taken and with the reason where it
/// was not; and a chunk whose existence cannot be told is neither stored nor answered.
pub proof fn command_comes_to_its_end(stage: CommandStage, reply: CommandReply, base: &str)
    ensures
        forall|state: &mut StorageState, next: CommandStage| #[trigger]
            call_ensures(CommandStage::resume, (stage, reply, base, state), next) ==> {
                &&& stage is Respond ==> match reply {
                    CommandReply::Sent(Ok(_)) => next matches CommandStage::Finished(Ok(_)),
                    CommandReply::Sent(Err(reason)) => next == CommandStage::Finished(
                        Err(CommandError::Send { reason }),
                    ),
                    _ => true,
                }
                &&& stage matches CommandStage::CheckExists { chunk_id, .. } ==> match reply {
                    CommandReply::Exists(Err(e)) => next matches CommandStage::Finished(
                        Err(CommandError::Exists(error)),
                    ) && error.chunk_id == chunk_id && error.reason == e.text,
                    _ => true,
                }
                &&& stage is Respond || stage is CheckExists || stage is Retrieve ==> *final(state) == *state
            },
{
}

/// A chunk is sent frame by frame: a frame goes out when no more than 16 MiB are waiting, the sender
/// waits when more are, and looks again when it was told that little is left. A frame holds the next
/// 16 KiB, or all that is left.
pub proof fn download_moves_on(run: DownloadRun, reply: DownloadReply, next: DownloadRun)
    requires
        call_ensures(DownloadRun::resume, (run, reply), next),
    ensures
        next.chunk_id == run.chunk_id,
        !(run.stage is Retrieve) ==> next.data@ == run.data@,
        run.stage is MeasureBuffer ==> match reply {
            DownloadReply::Buffered(amount) => {
                &&& next.sent == run.sent
                &&& amount > 16 * 1024 * 1024 ==> next.stage is AwaitLowBuffer
                &&& amount <= 16 * 1024 * 1024 ==> (next.stage matches DownloadStage::SendFrame { frame } && {
                    &&& frame@ == run.data@.subrange(run.sent as int, run.sent + frame@.len())
                    &&& frame@.len() == if run.data@.len() - run.sent <= 16 * 1024 {
                        run.data@.len() - run.sent
                    } else {
                        16384int
                    }
                })
            },
            _ => true,
        },
        run.stage is AwaitLowBuffer && reply is BufferLow ==> next.stage is MeasureBuffer && next.sent == run.sent,
        run.stage matches DownloadStage::SendFrame { frame } ==> match reply {
            DownloadReply::Sent(Ok(_)) => {
                &&& next.sent == run.sent + frame@.len()
                &&& next.sent < run.data@.len() ==> next.stage is MeasureBuffer
                &&& next.sent == run.data@.len() ==> next.stage == (DownloadStage::Reply {
                    message: ClientMessage::TransferComplete { chunk_id: run.chunk_id },
                })
            },
            _ => true,
        },
        run.stage is Reply && (reply matches DownloadReply::Sent(Ok(_))) ==> (next.stage
            matches DownloadStage::Finished(Ok(_))),
        run.stage is SendFrame || run.stage is Reply ==> match reply {
            DownloadReply::Sent(Err(reason)) => next.stage == DownloadStage::Finished(
                Err(ChannelError::Send { reason }),
            ),
            _ => true,
        },
{
    if let DownloadStage::SendFrame { frame } = next.stage {
        if run.stage is MeasureBuffer && reply is Buffered {
            let from = run.sent as int;
            assert(next.well_formed());
            assert(run.data@.skip(from) =~= run.data@.subrange(from, run.data@.len() as int));
            assert(frame@ =~= run.data@.subrange(from, from + frame@.len()));
        }
    }
}

/// The answering of an offer takes the offer, makes an answer, takes that, and reads it; whatever
/// fails ends it with its reason.
pub proof fn answering_moves_on(stage: AnswerStage, reply: AnswerReply, next: AnswerStage)
    requires
        call_ensures(AnswerStage::resume, (stage, reply), next),
    ensures
        match reply {
            AnswerReply::Done(Ok(_)) => {
                &&& stage is SetRemote ==> next is CreateAnswer
                &&& stage is CreateAnswer ==> next is SetLocal
                &&& stage is SetLocal ==> next is ReadLocal
            },
            AnswerReply::Done(Err(reason)) => next == AnswerStage::Finished(Err(AnswerError::Failed { reason })),
            AnswerReply::Local(present) => stage is ReadLocal ==> if present {
                next matches AnswerStage::Finished(Ok(_))
            } else {
                next matches AnswerStage::Finished(Err(AnswerError::NoLocalDescription))
            },
        },
{
}

/// A connection is made, authenticated and served, in this order; what cannot be done ends it with
/// the reason.
pub proof fn session_moves_on(stage: SessionStage, network: &Network, reply: SessionReply, next: SessionStage)
    requires
        call_ensures(SessionStage::resume, (stage, network, reply), next),
    ensures
        stage is Connect ==> match reply {
            SessionReply::Connect(ConnectReply::Connected) => next is SendAuth,
            SessionReply::Connect(ConnectReply::NoTls) => next matches SessionStage::Finished(
                Err(SessionError::NoTls),
            ),
            SessionReply::Connect(ConnectReply::Failed) => next == SessionStage::Finished(
                Err(SessionError::Connect { ws_url: network.ws_url }),
            ),
            _ => true,
        },
        stage is SendAuth ==> match reply {
            SessionReply::Sent(Ok(_)) => next is AwaitAuth,
            SessionReply::Sent(Err(_)) => next matches SessionStage::Finished(Err(SessionError::SendAuth)),
            _ => true,
        },
        stage is AwaitEvent ==> match reply {
            SessionReply::Event(SessionEvent::Received(Incoming::Text(text))) => next == (SessionStage::Dispatch {
                command: text,
            }),
            SessionReply::Event(SessionEvent::Received(Incoming::Ping(data))) => next == (SessionStage::SendPong {
                data,
            }),
            SessionReply::Event(SessionEvent::ToSend(message)) => next == (SessionStage::Send { message }),
            SessionReply::Event(SessionEvent::Received(Incoming::Close)) => next matches SessionStage::Finished(
                Ok(_),
            ),
            _ => true,
        },
        stage is Dispatch && reply is Dispatched ==> next is AwaitEvent,
        (stage is SendPong || stage is Send) && (reply matches SessionReply::Sent(Ok(_))) ==> next is AwaitEvent,
{
}

/// Data on the channel is put behind what the current upload has so far, and behind nothing else; data
/// without an upload that has begun is dropped.
pub proof fn data_goes_to_the_current_upload(data: &[u8])
    ensures
        forall|manager: &mut WebRTCManager|
            #![trigger call_ensures(WebRTCManager::handle_data_chunk, (manager, data), ())]
            call_ensures(WebRTCManager::handle_data_chunk, (manager, data), ()) ==> {
                let (before, after) = ((*manager)@, (*final(manager))@);
                &&& after.current == before.current
                &&& match before.current {
                    Some(id) => if before.received.contains_key(id) {
                        after.received == before.received.insert(id, before.received[id] + data@)
                    } else {
                        after.received == before.received
                    },
                    None => after.received == before.received,
                }
            },
{
}

/// A peer that could be told of its stored chunk ends the upload well; one that could not be told ends
/// it with the reason.
pub proof fn upload_comes_to_its_end(run: UploadRun, reply: UploadReply)
    ensures
        forall|manager: &mut WebRTCManager, state: &mut StorageState, next: UploadRun| #[trigger]
            call_ensures(UploadRun::resume, (run, reply, manager, state), next) ==> {
                &&& next.chunk_id == run.chunk_id
                &&& run.stage is Reply ==> match reply {
                    UploadReply::Sent(Ok(_)) => next.stage matches UploadStage::Finished(Ok(_)),
                    UploadReply::Sent(Err(reason)) => next.stage == UploadStage::Finished(
                        Err(ChannelError::Send { reason }),
                    ),
                    _ => true,
                }
                &&& run.stage is Reply ==> *final(state) == *state
            },
{
}

/// A chunk that has been read for a peer is sent from its beginning, or at once told to be complete
/// where it is empty; one that could not be read ends the download with the reason.
pub proof fn read_chunk_is_sent(
    run: DownloadRun,
    retrieve: RetrieveRun,
    reply: RetrieveReply,
    read: RetrieveRun,
    next: DownloadRun,
)
    requires
        run.stage == (DownloadStage::Retrieve { retrieve }),
        call_ensures(RetrieveRun::resume, (retrieve, reply), read),
        call_ensures(DownloadRun::resume, (run, DownloadReply::Retrieve(reply)), next),
    ensures
        match read.stage {
            RetrieveStage::Finished(Ok(data)) => {
                &&& next.data@ == data@
                &&& next.sent == 0
                &&& data@.len() > 0 ==> next.stage is MeasureBuffer
                &&& data@.len() == 0 ==> next.stage == (DownloadStage::Reply {
                    message: ClientMessage::TransferComplete { chunk_id: run.chunk_id },
                })
            },
            RetrieveStage::Finished(Err(e)) => next.stage == DownloadStage::Finished(
                Err(ChannelError::Retrieve(e)),
            ),
            _ => next.stage == (DownloadStage::Retrieve { retrieve: read }),
        },
{
}

/// Nothing but white space, typed where the dialog asks whether to save, saves the configuration.
pub proof fn enter_saves(setup: Setup, input: &str, number: Option<Gib>, next: Setup)
    requires
        setup.stage is AskSave,
        call_ensures(Setup::answer, (setup, input, number), next),
        text::trimmed(input@).len() == 0,
    ensures
        next.stage is Save,
        next.config == setup.config,
{
}

/// A control message changes the upload it is about and no other: an upload that begins is empty and
/// becomes the current one, and one that is complete is taken out, whichever is current.
pub proof fn control_touches_one_upload(message: Option<ClientMessage>, other: Seq<char>)
    ensures
        forall|manager: &mut WebRTCManager, action: ChannelAction| #[trigger]
            call_ensures(WebRTCManager::handle_control_message, (manager, message), action) ==> {
                let (before, after) = ((*manager)@, (*final(manager))@);
                match message {
                    Some(ClientMessage::Upload { chunk_id }) => {
                        &&& after.current == Some(chunk_id@)
                        &&& after.received.contains_key(chunk_id@)
                        &&& after.received[chunk_id@].len() == 0
                        &&& other != chunk_id@ ==> after.received.contains_key(other) == before.received.contains_key(
                            other,
                        ) && after.received[other] == before.received[other]
                    },
                    Some(ClientMessage::TransferComplete { chunk_id }) => {
                        &&& after.current == before.current
                        &&& !after.received.contains_key(chunk_id@)
                        &&& other != chunk_id@ ==> after.received.contains_key(other) == before.received.contains_key(
                            other,
                        ) && after.received[other] == before.received[other]
                    },
                    _ => after == before,
                }
            },
{
}

} // verus!
