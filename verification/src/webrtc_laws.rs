//! What holds of the transfers between peers.

use crate::path;
use crate::storage;
use crate::storage::{
    RetrieveError, RetrieveReply, StorageState, StoreReply, StoreRun, StoreStage,
};
use crate::storage_laws;
use crate::storage_laws::{Files, StoreHistory};
use crate::webrtc;
use crate::webrtc::{
    AnswerError, AnswerReply, AnswerStage, ChannelAction, ChannelError, ClientMessage, DownloadReply, DownloadRun,
    DownloadStage, UploadReply, UploadRun, UploadStage, Uploads, WebRTCManager, FRAME_BYTES,
};
use vstd::prelude::*;

verus! {

/// The bytes of `pieces`, one piece after the other.
pub open spec fn concatenated(pieces: Seq<Seq<u8>>) -> Seq<u8>
    decreases pieces.len(),
{
    if pieces.len() == 0 {
        Seq::empty()
    } else {
        concatenated(pieces.drop_last()) + pieces.last()
    }
}

/// The uploads after each of `pieces` has come in.
pub open spec fn after_all(uploads: Uploads, pieces: Seq<Seq<u8>>) -> Uploads
    decreases pieces.len(),
{
    if pieces.len() == 0 {
        uploads
    } else {
        after_all(uploads, pieces.drop_last()).receive(pieces.last())
    }
}

/// An upload is what came in since it began, in order: however the data was cut, it is put
/// together again, whatever was uploaded under the same identifier before is forgotten, and no
/// other upload is touched.
pub proof fn upload_is_what_came(uploads: Uploads, id: Seq<char>, pieces: Seq<Seq<u8>>)
    ensures
        after_all(uploads.begin(id), pieces).received == uploads.received.insert(id, concatenated(pieces)),
        after_all(uploads.begin(id), pieces).current == Some(id),
    decreases pieces.len(),
{
    if pieces.len() > 0 {
        upload_is_what_came(uploads, id, pieces.drop_last());
    }
    assert(after_all(uploads.begin(id), pieces).received =~= uploads.received.insert(id, concatenated(pieces)));
}

/// Data that comes in when no upload is current is dropped, and data of the current upload leaves
/// every other one as it is.
pub proof fn data_is_for_current_upload(uploads: Uploads, data: Seq<u8>, id: Seq<char>)
    requires
        uploads.current != Some(id),
    ensures
        uploads.receive(data).received.contains_key(id) == uploads.received.contains_key(id),
        uploads.received.contains_key(id) ==> uploads.receive(data).received[id] == uploads.received[id],
        uploads.current is None ==> uploads.receive(data) == uploads,
{
}

/// The history of completing an upload: `runs[i]` was answered `replies[i]`.
pub open spec fn is_upload(runs: Seq<UploadRun>, replies: Seq<UploadReply>) -> bool {
    &&& runs.len() == replies.len() + 1
    &&& runs[0].stage is Store
    &&& forall|i: int|
        0 <= i < replies.len() ==> #[trigger] runs[i].expects(replies[i]) && runs[i + 1] == (UploadRun {
            stage: runs[i].stage_after(replies[i]),
            ..runs[i]
        })
}

/// A peer is told that its upload is complete only when the file of the chunk is in place.
pub proof fn upload_is_confirmed_when_stored(runs: Seq<UploadRun>, replies: Seq<UploadReply>, i: int) -> (at: int)
    requires
        is_upload(runs, replies),
        0 <= i < runs.len(),
        runs[i].stage is Reply || runs[i].stage == UploadStage::Finished(Ok(())),
    ensures
        0 <= at < i,
        runs[at].stage matches UploadStage::Store { store } && replies[at] matches UploadReply::Store(r)
            && store.completes_with(r),
        runs[i].stage matches UploadStage::Reply { message } ==> message == (ClientMessage::TransferComplete {
            chunk_id: runs[0].chunk_id,
        }),
    decreases i,
{
    upload_keeps_chunk(runs, replies, i);
    assert(i > 0);
    assert(runs[i - 1].expects(replies[i - 1]));
    upload_keeps_chunk(runs, replies, i - 1);
    if runs[i - 1].stage is Reply {
        upload_is_confirmed_when_stored(runs, replies, i - 1)
    } else {
        i - 1
    }
}

proof fn upload_keeps_chunk(runs: Seq<UploadRun>, replies: Seq<UploadReply>, i: int)
    requires
        is_upload(runs, replies),
        0 <= i < runs.len(),
    ensures
        runs[i].chunk_id == runs[0].chunk_id,
    decreases i,
{
    if i > 0 {
        upload_keeps_chunk(runs, replies, i - 1);
        assert(runs[i - 1].expects(replies[i - 1]));
    }
}

/// The history of sending the chunk `id` of the directory `base` to a peer: `runs[i]` was answered
/// `replies[i]`.
pub open spec fn is_download(
    base: Seq<char>,
    id: Seq<char>,
    runs: Seq<DownloadRun>,
    replies: Seq<DownloadReply>,
) -> bool {
    &&& runs.len() == replies.len() + 1
    &&& runs[0].chunk_id@ == id
    &&& runs[0].data@ == Seq::<u8>::empty()
    &&& runs[0].sent == 0
    &&& runs[0].stage matches DownloadStage::Retrieve { retrieve } && storage::retrieve_begun(retrieve, base, id)
    &&& forall|i: int|
        0 <= i < replies.len() ==> #[trigger] runs[i].expects(replies[i]) && runs[i].leads_to(
            replies[i],
            runs[i + 1],
        ) && runs[i + 1].well_formed()
}

/// The frames that were sent in the first `n` steps.
pub open spec fn frames_sent(runs: Seq<DownloadRun>, replies: Seq<DownloadReply>, n: int) -> Seq<Seq<u8>>
    decreases n,
{
    if n <= 0 {
        Seq::empty()
    } else {
        let before = frames_sent(runs, replies, n - 1);
        match (runs[n - 1].stage, replies[n - 1]) {
            (DownloadStage::SendFrame { frame }, DownloadReply::Sent(Ok(_))) => before.push(frame@),
            _ => before,
        }
    }
}

/// The disk answered every question of the history as it is: its files are `files`.
pub open spec fn disk_answered(runs: Seq<DownloadRun>, replies: Seq<DownloadReply>, files: Files) -> bool {
    forall|i: int|
        0 <= i < replies.len() ==> match (#[trigger] runs[i].stage, replies[i]) {
            (DownloadStage::Retrieve { retrieve }, DownloadReply::Retrieve(r)) => storage_laws::retrieve_answer(
                retrieve,
                r,
                files,
            ),
            _ => true,
        }
}

/// What holds after `i` steps: the frames that were sent are what the run says has been sent, and
/// each of them is within the size of a frame, and is full unless it is the end; the data is that
/// of the file.
spec fn download_holds_at(
    base: Seq<char>,
    id: Seq<char>,
    runs: Seq<DownloadRun>,
    replies: Seq<DownloadReply>,
    files: Files,
    i: int,
) -> bool {
    let run = runs[i];
    let frames = frames_sent(runs, replies, i);
    let file = storage::chunk_file(base, id);
    &&& run.well_formed()
    &&& run.chunk_id == runs[0].chunk_id
    &&& concatenated(frames) == run.data@.take(run.sent as int)
    &&& forall|k: int| 0 <= k < frames.len() ==> 0 < (#[trigger] frames[k]).len() <= FRAME_BYTES
    &&& forall|k: int|
        0 <= k < frames.len() && (k < frames.len() - 1 || run.sent < run.data@.len()) ==> (#[trigger] frames[k]).len()
            == FRAME_BYTES
    &&& match run.stage {
        DownloadStage::Retrieve { retrieve } => {
            &&& retrieve.chunk_path@ == file
            &&& run.sent == 0
            &&& run.data@ == Seq::<u8>::empty()
            &&& frames.len() == 0
        },
        DownloadStage::Finished(Err(ChannelError::Retrieve(_))) => frames.len() == 0,
        _ => files.contains_key(file) && run.data@ == files[file],
    }
    &&& match run.stage {
        DownloadStage::Reply { message } => {
            &&& run.sent == run.data@.len()
            &&& message == (ClientMessage::TransferComplete { chunk_id: run.chunk_id })
        },
        DownloadStage::Finished(Ok(_)) => run.sent == run.data@.len(),
        _ => true,
    }
}

proof fn download_holds(
    base: Seq<char>,
    id: Seq<char>,
    runs: Seq<DownloadRun>,
    replies: Seq<DownloadReply>,
    files: Files,
    i: int,
)
    requires
        is_download(base, id, runs, replies),
        disk_answered(runs, replies, files),
        0 <= i < runs.len(),
    ensures
        download_holds_at(base, id, runs, replies, files, i),
    decreases i,
{
    if i > 0 {
        download_holds(base, id, runs, replies, files, i - 1);
        let before = runs[i - 1];
        let after = runs[i];
        assert(before.expects(replies[i - 1]));
        assert(runs[i - 1 + 1] == after);
        let frames = frames_sent(runs, replies, i - 1);
        match (before.stage, replies[i - 1]) {
            (DownloadStage::SendFrame { frame }, DownloadReply::Sent(Ok(_))) => {
                assert(frames.push(frame@).drop_last() =~= frames);
                assert(before.data@.take(before.sent as int) + frame@ =~= after.data@.take(after.sent as int));
            },
            (DownloadStage::Retrieve { .. }, _) => {
                assert(after.data@.take(0) =~= Seq::<u8>::empty());
                assert(before.data@.take(0) =~= Seq::<u8>::empty());
            },
            _ => {},
        }
    } else {
        assert(runs[0].data@.take(0) =~= Seq::<u8>::empty());
    }
}

/// A peer that asks for a chunk gets all of it: when the sending has succeeded, there is a file for
/// the chunk, and the frames that were sent are, one after the other, its contents. Every frame but
/// the last is full, and the last is neither empty nor larger than a frame.
pub proof fn frames_are_the_chunk(
    base: Seq<char>,
    id: Seq<char>,
    runs: Seq<DownloadRun>,
    replies: Seq<DownloadReply>,
    files: Files,
)
    requires
        is_download(base, id, runs, replies),
        disk_answered(runs, replies, files),
        runs.last().stage == DownloadStage::Finished(Ok(())),
    ensures
        files.contains_key(storage::chunk_file(base, id)),
        concatenated(frames_sent(runs, replies, replies.len() as int)) == files[storage::chunk_file(base, id)],
        forall|k: int|
            0 <= k < frames_sent(runs, replies, replies.len() as int).len() ==> 0 < (#[trigger] frames_sent(
                runs,
                replies,
                replies.len() as int,
            )[k]).len() <= FRAME_BYTES,
        forall|k: int|
            0 <= k < frames_sent(runs, replies, replies.len() as int).len() - 1 ==> (#[trigger] frames_sent(
                runs,
                replies,
                replies.len() as int,
            )[k]).len() == FRAME_BYTES,
{
    download_holds(base, id, runs, replies, files, runs.len() - 1);
    let data = runs.last().data@;
    assert(data.take(data.len() as int) =~= data);
}

/// A chunk that cannot be read is not sent, not even in part.
pub proof fn unreadable_chunk_is_not_sent(
    base: Seq<char>,
    id: Seq<char>,
    runs: Seq<DownloadRun>,
    replies: Seq<DownloadReply>,
    files: Files,
)
    requires
        is_download(base, id, runs, replies),
        disk_answered(runs, replies, files),
        runs.last().stage matches DownloadStage::Finished(Err(ChannelError::Retrieve(_))),
    ensures
        frames_sent(runs, replies, replies.len() as int) == Seq::<Seq<u8>>::empty(),
{
    download_holds(base, id, runs, replies, files, runs.len() - 1);
    assert(frames_sent(runs, replies, replies.len() as int) =~= Seq::empty());
}

/// A frame is only sent while no more than the high water mark is waiting in the data channel,
/// and every frame that is sent brings the end nearer.
pub proof fn frames_wait_and_advance(run: DownloadRun, reply: DownloadReply, next: DownloadRun)
    requires
        run.well_formed(),
        run.expects(reply),
        run.leads_to(reply, next),
    ensures
        next.stage is SendFrame ==> (reply matches DownloadReply::Buffered(amount) && amount
            <= webrtc::HIGH_WATER_MARK),
        run.stage is SendFrame && reply == DownloadReply::Sent(Ok(())) ==> run.sent < next.sent
            <= next.data@.len(),
{
}

/// What a peer uploads is what a peer downloads: once the upload of a chunk, in whatever pieces,
/// has been stored, a download that succeeds sends the same bytes.
pub proof fn upload_downloads_back(
    uploads: Uploads,
    id: Seq<char>,
    pieces: Seq<Seq<u8>>,
    h: StoreHistory,
    base: Seq<char>,
    runs: Seq<DownloadRun>,
    replies: Seq<DownloadReply>,
)
    requires
        h.stores(base, id, after_all(uploads.begin(id), pieces).received[id]),
        h.runs.last().stage matches StoreStage::Finished(Ok(_)),
        is_download(base, id, runs, replies),
        disk_answered(runs, replies, h.files.last()),
        runs.last().stage == DownloadStage::Finished(Ok(())),
    ensures
        concatenated(frames_sent(runs, replies, replies.len() as int)) == concatenated(pieces),
{
    upload_is_what_came(uploads, id, pieces);
    storage_laws::stored_chunk_is_in_place(h, base, id, concatenated(pieces));
    frames_are_the_chunk(base, id, runs, replies, h.files.last());
}

/// The history of completing the upload of `data` as the chunk `id`, for a peer whose chunks are in
/// the directory `base`: `runs[i]` was answered `replies[i]`, with the counters `states[i]`.
pub open spec fn completes_upload(
    base: Seq<char>,
    id: Seq<char>,
    data: Seq<u8>,
    runs: Seq<UploadRun>,
    replies: Seq<UploadReply>,
    states: Seq<StorageState>,
) -> bool {
    &&& runs.len() == replies.len() + 1
    &&& states.len() == runs.len()
    &&& runs[0].chunk_id@ == id
    &&& exists|store: StoreRun| #[trigger]
        storage::store_begun(store, base, id, data, states[0]) && runs[0].stage == webrtc::storing(
            runs[0].chunk_id,
            store,
        )
    &&& forall|i: int|
        0 <= i < replies.len() ==> #[trigger] runs[i].expects(replies[i]) && runs[i + 1] == (UploadRun {
            stage: runs[i].stage_after(replies[i]),
            ..runs[i]
        }) && states[i + 1] == runs[i].state_after(replies[i], states[i])
}

/// What holds at step `i` of completing an upload.
spec fn upload_holds_at(
    data: Seq<u8>,
    runs: Seq<UploadRun>,
    replies: Seq<UploadReply>,
    states: Seq<StorageState>,
    i: int,
) -> bool {
    let counted = states[0].max_storage_bytes < u64::MAX ==> states[i].current_used_space_bytes
        == states[0].current_used_space_bytes + data.len();
    &&& runs[i].chunk_id == runs[0].chunk_id
    &&& match runs[i].stage {
        UploadStage::Store { store } => {
            &&& store.data@ == data
            &&& states[i] == states[0]
            &&& data.len() <= 1024 * 1024 * 1024
            &&& states[0].max_storage_bytes < u64::MAX ==> states[0].current_used_space_bytes + data.len()
                <= states[0].max_storage_bytes
            &&& !(store.stage is Finished)
            &&& forall|j: int| 0 <= j <= i ==> (#[trigger] runs[j]).stage is Store
        },
        UploadStage::Reply { message } => {
            &&& message == (ClientMessage::TransferComplete { chunk_id: runs[0].chunk_id })
            &&& counted
        },
        UploadStage::Finished(Ok(_)) => {
            &&& i > 0
            &&& runs[i - 1].stage == (UploadStage::Reply {
                message: ClientMessage::TransferComplete { chunk_id: runs[0].chunk_id },
            })
            &&& replies[i - 1] matches UploadReply::Sent(Ok(_))
            &&& counted
        },
        UploadStage::Finished(Err(ChannelError::Send { reason })) => {
            &&& i > 0
            &&& runs[i - 1].stage is Reply
            &&& replies[i - 1] == UploadReply::Sent(Err(reason))
        },
        UploadStage::Finished(Err(ChannelError::Store(_))) => {
            &&& states[i] == states[0]
            &&& forall|j: int| 0 <= j < i ==> (#[trigger] runs[j]).stage is Store
        },
        UploadStage::Finished(Err(_)) => false,
    }
}

proof fn upload_holds(
    base: Seq<char>,
    id: Seq<char>,
    data: Seq<u8>,
    runs: Seq<UploadRun>,
    replies: Seq<UploadReply>,
    states: Seq<StorageState>,
    i: int,
)
    requires
        completes_upload(base, id, data, runs, replies, states),
        0 <= i < runs.len(),
    ensures
        upload_holds_at(data, runs, replies, states, i),
    decreases i,
{
    if i > 0 {
        upload_holds(base, id, data, runs, replies, states, i - 1);
        assert(runs[i - 1].expects(replies[i - 1]));
    } else {
        let store = choose|store: StoreRun| #[trigger]
            storage::store_begun(store, base, id, data, states[0]) && runs[0].stage == webrtc::storing(
                runs[0].chunk_id,
                store,
            );
        storage_laws::chunk_is_taken_on_exactly_when_it_fits(store, base, id, data, states[0]);
    }
}

/// Confirmation is owed: a chunk whose file has been moved into place is confirmed to the peer
/// next, by its own identifier and whatever its size.
pub proof fn stored_upload_is_confirmed(
    base: Seq<char>,
    id: Seq<char>,
    data: Seq<u8>,
    runs: Seq<UploadRun>,
    replies: Seq<UploadReply>,
    states: Seq<StorageState>,
    i: int,
)
    requires
        completes_upload(base, id, data, runs, replies, states),
        0 <= i < replies.len(),
        runs[i].stage matches UploadStage::Store { store } && store.stage is RenameTemp,
        replies[i] matches UploadReply::Store(StoreReply::Done(Ok(_))),
    ensures
        runs[i + 1].stage matches UploadStage::Reply { message: ClientMessage::TransferComplete { chunk_id } }
            && chunk_id@ == id,
{
    upload_holds(base, id, data, runs, replies, states, i);
    assert(runs[i].expects(replies[i]));
}

/// An upload that ends well was confirmed: the stage before the end told the peer that the transfer
/// of its chunk is complete, and that was sent; and the bytes of the chunk are counted. An upload
/// that ends in failure ends so because the confirmation could not be sent, or because the chunk
/// was not stored: then nothing was confirmed and nothing was counted.
pub proof fn ended_upload_was_confirmed(
    base: Seq<char>,
    id: Seq<char>,
    data: Seq<u8>,
    runs: Seq<UploadRun>,
    replies: Seq<UploadReply>,
    states: Seq<StorageState>,
    result: Result<(), ChannelError>,
)
    requires
        completes_upload(base, id, data, runs, replies, states),
        runs.last().stage == UploadStage::Finished(result),
    ensures
        match result {
            Ok(_) => {
                &&& runs.len() >= 2
                &&& runs[runs.len() - 2].stage matches UploadStage::Reply {
                    message: ClientMessage::TransferComplete { chunk_id },
                } && chunk_id@ == id
                &&& replies.last() matches UploadReply::Sent(Ok(_))
                &&& states[0].max_storage_bytes < u64::MAX ==> states.last().current_used_space_bytes
                    == states[0].current_used_space_bytes + data.len()
            },
            Err(ChannelError::Send { reason }) => replies.len() > 0 && replies.last() == UploadReply::Sent(Err(reason)),
            Err(ChannelError::Store(_)) => {
                &&& states.last() == states[0]
                &&& forall|j: int| 0 <= j < runs.len() ==> !((#[trigger] runs[j]).stage is Reply)
            },
            Err(_) => false,
        },
{
    upload_holds(base, id, data, runs, replies, states, runs.len() - 1);
}

/// Success is owed: the upload of a chunk with a plain name that is not larger than 1 GiB and leaves
/// the bytes in use within the limit, to a disk with room that does all it is asked, is stored,
/// then confirmed, and ends well when the confirmation has been sent.
pub proof fn healthy_upload_is_confirmed(
    base: Seq<char>,
    id: Seq<char>,
    data: Seq<u8>,
    runs: Seq<UploadRun>,
    replies: Seq<UploadReply>,
    states: Seq<StorageState>,
    available: u64,
)
    requires
        completes_upload(base, id, data, runs, replies, states),
        storage_laws::is_plain_name(id),
        data.len() <= 1024 * 1024 * 1024,
        states[0].current_used_space_bytes + data.len() <= states[0].max_storage_bytes,
        data.len() <= available,
        replies.len() == 5,
        replies[0] == UploadReply::Store(StoreReply::Space(Ok(available))),
        replies[2] == UploadReply::Store(StoreReply::Done(Ok(()))),
        replies[3] == UploadReply::Store(StoreReply::Done(Ok(()))),
        replies[4] == UploadReply::Sent(Ok(())),
    ensures
        runs[4].stage matches UploadStage::Reply { message: ClientMessage::TransferComplete { chunk_id } } && chunk_id@
            == id,
        runs[5].stage matches UploadStage::Finished(Ok(_)),
        states[5].current_used_space_bytes == states[0].current_used_space_bytes + data.len(),
{
    let store = choose|store: StoreRun| #[trigger]
        storage::store_begun(store, base, id, data, states[0]) && runs[0].stage == webrtc::storing(
            runs[0].chunk_id,
            store,
        );
    storage_laws::chunk_is_taken_on_exactly_when_it_fits(store, base, id, data, states[0]);
    assert(store.data.len() == data.len());
    assert(runs[0].expects(replies[0]));
    assert(runs[1].expects(replies[1]));
    assert(runs[2].expects(replies[2]));
    assert(runs[3].expects(replies[3]));
    assert(runs[4].expects(replies[4]));
}

/// A download that ends was answered so: it ends well when the peer has been told, in the stage
/// before, that the transfer of its chunk is complete; it fails when the disk has no file or does
/// not read it, or when something could not be sent, and for no other reason.
pub proof fn download_ends_for_a_cause(
    base: Seq<char>,
    id: Seq<char>,
    runs: Seq<DownloadRun>,
    replies: Seq<DownloadReply>,
    files: Files,
    result: Result<(), ChannelError>,
)
    requires
        is_download(base, id, runs, replies),
        disk_answered(runs, replies, files),
        runs.last().stage == DownloadStage::Finished(result),
    ensures
        replies.len() > 0,
        match result {
            Ok(_) => {
                &&& runs[runs.len() - 2].stage matches DownloadStage::Reply {
                    message: ClientMessage::TransferComplete { chunk_id },
                } && chunk_id@ == id
                &&& replies.last() matches DownloadReply::Sent(Ok(_))
                &&& files.contains_key(path::joined(base, id))
            },
            Err(ChannelError::Retrieve(RetrieveError::NotFound { chunk_id })) => {
                &&& chunk_id@ == id
                &&& replies.last() matches DownloadReply::Retrieve(RetrieveReply::Exists(found)) && (found matches Ok(
                    there,
                ) ==> !there && !files.contains_key(path::joined(base, id)))
            },
            Err(ChannelError::Retrieve(RetrieveError::Read { chunk_id })) => {
                &&& chunk_id@ == id
                &&& replies.last() matches DownloadReply::Retrieve(RetrieveReply::Data(Err(_)))
            },
            Err(ChannelError::Send { reason }) => replies.last() == DownloadReply::Sent(Err(reason)),
            Err(_) => false,
        },
{
    let i = runs.len() - 1;
    assert(i > 0);
    assert(runs[i - 1].expects(replies[i - 1]));
    download_holds(base, id, runs, replies, files, i - 1);
    retrieve_stays(base, id, runs, replies, i - 1);
    assert(runs[i - 1 + 1] == runs[i]);
}

/// While a chunk is read for a peer, it is the chunk the peer asked for.
proof fn retrieve_stays(base: Seq<char>, id: Seq<char>, runs: Seq<DownloadRun>, replies: Seq<DownloadReply>, i: int)
    requires
        is_download(base, id, runs, replies),
        0 <= i < runs.len(),
    ensures
        runs[i].chunk_id@ == id,
        runs[i].stage matches DownloadStage::Retrieve { retrieve } ==> {
            &&& retrieve.chunk_id@ == id
            &&& retrieve.chunk_path@ == path::joined(base, id)
            &&& !(retrieve.stage is Finished)
        },
    decreases i,
{
    if i > 0 {
        retrieve_stays(base, id, runs, replies, i - 1);
        assert(runs[i - 1].expects(replies[i - 1]));
        assert(runs[i - 1 + 1] == runs[i]);
    }
}

/// Success is owed: the download of a chunk that the disk has and reads, over a channel that takes
/// all it is given, never fails, whatever the size of the chunk and however often it had to wait.
pub proof fn held_chunk_never_fails_to_be_sent(
    base: Seq<char>,
    id: Seq<char>,
    runs: Seq<DownloadRun>,
    replies: Seq<DownloadReply>,
    files: Files,
)
    requires
        is_download(base, id, runs, replies),
        disk_answered(runs, replies, files),
        files.contains_key(path::joined(base, id)),
        forall|i: int|
            0 <= i < replies.len() ==> match #[trigger] replies[i] {
                DownloadReply::Retrieve(RetrieveReply::Exists(found)) => found is Ok,
                DownloadReply::Retrieve(RetrieveReply::Data(read)) => read is Ok,
                DownloadReply::Sent(sent) => sent is Ok,
                _ => true,
            },
    ensures
        runs.last().stage matches DownloadStage::Finished(result) ==> result is Ok,
{
    if let DownloadStage::Finished(result) = runs.last().stage {
        download_ends_for_a_cause(base, id, runs, replies, files, result);
    }
}

/// After the chunk has been read and `k` frames have been sent over a channel in which little waits,
/// the next frame is due, or there is none left and the peer is told.
proof fn download_after_frames(
    base: Seq<char>,
    id: Seq<char>,
    runs: Seq<DownloadRun>,
    replies: Seq<DownloadReply>,
    read: Vec<u8>,
    k: int,
)
    requires
        is_download(base, id, runs, replies),
        replies.len() >= 2,
        replies[0] == DownloadReply::Retrieve(RetrieveReply::Exists(Ok(true))),
        replies[1] == DownloadReply::Retrieve(RetrieveReply::Data(Ok(read))),
        forall|i: int|
            2 <= i < replies.len() ==> match #[trigger] replies[i] {
                DownloadReply::Buffered(waiting) => waiting <= 16 * 1024 * 1024,
                DownloadReply::Sent(sent) => sent is Ok,
                _ => true,
            },
        0 <= k,
        2 + 2 * k < runs.len(),
        k == 0 || (k - 1) * 16384 < read@.len(),
    ensures
        runs[2 + 2 * k].data == read,
        k * 16384 < read@.len() ==> runs[2 + 2 * k].stage is MeasureBuffer && runs[2 + 2 * k].sent == k * 16384,
        k * 16384 >= read@.len() ==> (runs[2 + 2 * k].stage matches DownloadStage::Reply {
            message: ClientMessage::TransferComplete { chunk_id },
        } && chunk_id@ == id),
    decreases k,
{
    retrieve_stays(base, id, runs, replies, 0);
    assert(runs[0].expects(replies[0]));
    retrieve_stays(base, id, runs, replies, 1);
    assert(runs[1].expects(replies[1]));
    retrieve_stays(base, id, runs, replies, 2);
    if k > 0 {
        download_after_frames(base, id, runs, replies, read, k - 1);
        let at = 2 + 2 * (k - 1);
        assert(runs[at].expects(replies[at]));
        assert(runs[at + 1].expects(replies[at + 1]));
        assert(runs[at + 1 + 1] == runs[2 + 2 * k]);
        retrieve_stays(base, id, runs, replies, 2 + 2 * k);
        let frame = webrtc::frame_at(read@, runs[at].sent as int);
        assert(frame.len() == if read@.len() - (k - 1) * 16384 <= 16384 {
            read@.len() - (k - 1) * 16384
        } else {
            16384
        });
    }
}

/// Success is owed: a chunk of any size that the disk has and reads is sent in as many frames of
/// 16 KiB as it takes, then the peer is told, and the download ends well, in exactly as many steps.
pub proof fn held_chunk_is_sent_to_its_end(
    base: Seq<char>,
    id: Seq<char>,
    runs: Seq<DownloadRun>,
    replies: Seq<DownloadReply>,
    read: Vec<u8>,
    frames: int,
)
    requires
        is_download(base, id, runs, replies),
        0 <= frames,
        frames == 0 || (frames - 1) * 16384 < read@.len(),
        read@.len() <= frames * 16384,
        replies.len() == 2 + 2 * frames + 1,
        replies[0] == DownloadReply::Retrieve(RetrieveReply::Exists(Ok(true))),
        replies[1] == DownloadReply::Retrieve(RetrieveReply::Data(Ok(read))),
        forall|i: int|
            2 <= i < replies.len() ==> match #[trigger] replies[i] {
                DownloadReply::Buffered(waiting) => waiting <= 16 * 1024 * 1024,
                DownloadReply::Sent(sent) => sent is Ok,
                _ => true,
            },
    ensures
        frames > 0 ==> runs[2].stage is MeasureBuffer && runs[2].data@ == read@,
        runs[2 + 2 * frames].stage matches DownloadStage::Reply {
            message: ClientMessage::TransferComplete { chunk_id },
        } && chunk_id@ == id,
        runs.last().stage matches DownloadStage::Finished(Ok(_)),
{
    download_after_frames(base, id, runs, replies, read, 0);
    download_after_frames(base, id, runs, replies, read, frames);
    assert(runs[2 + 2 * frames].expects(replies[2 + 2 * frames]));
}

/// What a peer sends as a chunk is what is stored as it: after the message that begins the upload
/// and the data that follows, the message that completes it hands over all the data under the
/// identifier of the chunk, once, and leaves every other upload as it was.
pub proof fn uploaded_data_is_handed_over(
    before: WebRTCManager,
    begun: ChannelAction,
    managers: Seq<WebRTCManager>,
    pieces: Seq<Seq<u8>>,
    chunk_id: String,
    action: ChannelAction,
    after: WebRTCManager,
)
    requires
        managers.len() == pieces.len() + 1,
        before.controlled(Some(ClientMessage::Upload { chunk_id }), begun, managers[0]),
        forall|i: int| 0 <= i < pieces.len() ==> (#[trigger] managers[i])@.receive(pieces[i]) == managers[i + 1]@,
        managers.last().controlled(Some(ClientMessage::TransferComplete { chunk_id }), action, after),
    ensures
        begun is Ignore,
        action matches ChannelAction::StoreUpload { session } && session.chunk_id@ == chunk_id@ && session.buffer@
            == concatenated(pieces),
        !after@.received.contains_key(chunk_id@),
        forall|other: Seq<char>|
            other != chunk_id@ ==> (#[trigger] after@.received.contains_key(other)
                == before@.received.contains_key(other)) && (before@.received.contains_key(other)
                ==> after@.received[other] == before@.received[other]),
{
    received_so_far(before@, managers, pieces, chunk_id@, pieces.len() as int);
    assert(pieces.take(pieces.len() as int) =~= pieces);
}

proof fn received_so_far(
    before: Uploads,
    managers: Seq<WebRTCManager>,
    pieces: Seq<Seq<u8>>,
    id: Seq<char>,
    n: int,
)
    requires
        managers.len() == pieces.len() + 1,
        managers[0]@ == before.begin(id),
        forall|i: int| 0 <= i < pieces.len() ==> (#[trigger] managers[i])@.receive(pieces[i]) == managers[i + 1]@,
        0 <= n <= pieces.len(),
    ensures
        managers[n]@.current == Some(id),
        managers[n]@.received == before.received.insert(id, concatenated(pieces.take(n))),
    decreases n,
{
    if n > 0 {
        received_so_far(before, managers, pieces, id, n - 1);
        assert(managers[n - 1]@.receive(pieces[n - 1]) == managers[n - 1 + 1]@);
        assert(pieces.take(n).drop_last() =~= pieces.take(n - 1));
        assert(managers[n]@.received =~= before.received.insert(id, concatenated(pieces.take(n))));
    } else {
        assert(pieces.take(0) =~= Seq::<Seq<u8>>::empty());
    }
}

/// A request of a peer is handed on for the chunk it names and changes no upload; what only the node
/// sends, and what cannot be read, is ignored; and an upload that never began cannot be completed.
pub proof fn requests_are_handed_on(
    manager: WebRTCManager,
    message: Option<ClientMessage>,
    action: ChannelAction,
    after: WebRTCManager,
)
    requires
        manager.controlled(message, action, after),
    ensures
        match message {
            None => action is Ignore && after == manager,
            Some(ClientMessage::Upload { .. }) => action is Ignore,
            Some(ClientMessage::Download { chunk_id }) => after == manager && (action matches ChannelAction::Download {
                chunk_id: asked,
            } && asked@ == chunk_id@),
            Some(ClientMessage::Delete { chunk_id }) => after == manager && (action matches ChannelAction::Delete {
                chunk_id: asked,
            } && asked@ == chunk_id@),
            Some(ClientMessage::CheckId { chunk_id }) => after == manager && (action matches ChannelAction::CheckId {
                chunk_id: asked,
            } && asked@ == chunk_id@),
            Some(ClientMessage::TransferComplete { chunk_id }) => manager@.received.contains_key(chunk_id@) || (
            action matches ChannelAction::NoUpload { chunk_id: asked } && asked@ == chunk_id@ && after@.received
                =~= manager@.received),
            Some(ClientMessage::TransferError { .. }) => action is Ignore && after == manager,
            Some(ClientMessage::IdStatus { .. }) => action is Ignore && after == manager,
        },
{
}

/// The stages of answering an offer, and their outcomes.
pub open spec fn is_answering(stages: Seq<AnswerStage>, replies: Seq<AnswerReply>) -> bool {
    &&& stages.len() == replies.len() + 1
    &&& stages[0] is SetRemote
    &&& forall|i: int|
        0 <= i < replies.len() ==> #[trigger] stages[i].expects(replies[i]) && stages[i + 1] == stages[i].after(
            replies[i],
        )
}

/// An offer is answered exactly when it could be taken, an answer could be made and taken, and there
/// is a description to send; the first of these that fails is told, by its own reason.
pub proof fn offer_is_answered_when_all_is_done(
    stages: Seq<AnswerStage>,
    replies: Seq<AnswerReply>,
    result: Result<(), AnswerError>,
)
    requires
        is_answering(stages, replies),
        stages.last() == AnswerStage::Finished(result),
    ensures
        1 <= replies.len() <= 4,
        forall|i: int| 0 <= i < replies.len() - 1 ==> (#[trigger] replies[i] matches AnswerReply::Done(Ok(_))),
        match result {
            Ok(_) => replies.len() == 4 && replies[3] == AnswerReply::Local(true),
            Err(AnswerError::NoLocalDescription) => replies.len() == 4 && replies[3] == AnswerReply::Local(false),
            Err(AnswerError::Failed { reason }) => replies.last() == AnswerReply::Done(Err(reason)),
        },
{
    assert(stages[0].expects(replies[0]));
    if replies.len() > 1 {
        assert(stages[1].expects(replies[1]));
    }
    if replies.len() > 2 {
        assert(stages[2].expects(replies[2]));
    }
    if replies.len() > 3 {
        assert(stages[3].expects(replies[3]));
    }
    if replies.len() > 4 {
        assert(stages[4].expects(replies[4]));
    }
}

} // verus!
