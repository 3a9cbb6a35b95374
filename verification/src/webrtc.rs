//! Transfers of chunks over a data channel between peers.

use crate::disk::IoFailure;
use crate::json;
use crate::network;
use crate::network::IceServer;
use crate::storage;
use crate::storage::{
    DeleteError, DeleteRun, ExistsError, RetrieveError, RetrieveReply, RetrieveRun, RetrieveStage, StorageState,
    StoreError, StoreReply, StoreRun, StoreStage,
};
use crate::text;
use vstd::prelude::*;
use vstd::slice::*;
use vstd::string::*;

verus! {

/// The size of the frames a chunk is sent in, in bytes.
pub const FRAME_BYTES: usize = 16384;

/// The most that may wait in a data channel before another frame is sent, in bytes.
pub const HIGH_WATER_MARK: usize = 0x100_0000;

/// A chunk that is being uploaded: what has come of it so far.
#[derive(Debug)]
pub struct TransferSession {
    pub chunk_id: String,
    pub buffer: Vec<u8>,
}

/// A message of the protocol of the data channel.
#[derive(Debug)]
pub enum ClientMessage {
    Upload { chunk_id: String },
    Download { chunk_id: String },
    Delete { chunk_id: String },
    CheckId { chunk_id: String },
    TransferComplete { chunk_id: String },
    TransferError { chunk_id: String, error: String },
    IdStatus { chunk_id: String, exists: bool },
}

/// The transfers of one peer.
#[derive(Debug)]
pub struct WebRTCManager {
    pub storage_path: String,
    pub active_uploads: Vec<TransferSession>,
    pub current_upload_chunk_id: Option<String>,
}

/// What has come of each upload, by chunk, and the chunk that data is for.
pub struct Uploads {
    pub received: Map<Seq<char>, Seq<u8>>,
    pub current: Option<Seq<char>>,
}

/// What has come of each of these uploads, by chunk.
pub open spec fn received_of(sessions: Seq<TransferSession>) -> Map<Seq<char>, Seq<u8>>
    decreases sessions.len(),
{
    if sessions.len() == 0 {
        Map::empty()
    } else {
        received_of(sessions.drop_last()).insert(sessions.last().chunk_id@, sessions.last().buffer@)
    }
}

/// No chunk is uploaded twice at a time.
pub open spec fn distinct(sessions: Seq<TransferSession>) -> bool {
    forall|i: int, j: int|
        0 <= i < j < sessions.len() ==> (#[trigger] sessions[i]).chunk_id@ != (#[trigger] sessions[j]).chunk_id@
}

/// In a list of distinct uploads, each is found under its chunk, and nothing else is.
proof fn received_of_distinct(sessions: Seq<TransferSession>)
    requires
        distinct(sessions),
    ensures
        forall|i: int|
            0 <= i < sessions.len() ==> {
                &&& received_of(sessions).contains_key((#[trigger] sessions[i]).chunk_id@)
                &&& received_of(sessions)[sessions[i].chunk_id@] == sessions[i].buffer@
            },
        forall|id: Seq<char>| #[trigger]
            received_of(sessions).contains_key(id) ==> exists|i: int|
                0 <= i < sessions.len() && (#[trigger] sessions[i]).chunk_id@ == id,
    decreases sessions.len(),
{
    if sessions.len() > 0 {
        let front = sessions.drop_last();
        assert(distinct(front)) by {
            assert forall|i: int, j: int| 0 <= i < j < front.len() implies (#[trigger] front[i]).chunk_id@ != (
            #[trigger] front[j]).chunk_id@ by {
                assert(front[i] == sessions[i] && front[j] == sessions[j]);
            }
        }
        received_of_distinct(front);
        let last = sessions.len() - 1;
        assert forall|i: int| 0 <= i < sessions.len() implies {
            &&& received_of(sessions).contains_key((#[trigger] sessions[i]).chunk_id@)
            &&& received_of(sessions)[sessions[i].chunk_id@] == sessions[i].buffer@
        } by {
            if i < last {
                assert(front[i] == sessions[i]);
                assert(sessions[i].chunk_id@ != sessions[last].chunk_id@);
            }
        }
        assert forall|id: Seq<char>| #[trigger] received_of(sessions).contains_key(id) implies exists|i: int|
            0 <= i < sessions.len() && (#[trigger] sessions[i]).chunk_id@ == id by {
            if id == sessions[last].chunk_id@ {
            } else {
                assert(received_of(front).contains_key(id));
                let i = choose|i: int| 0 <= i < front.len() && (#[trigger] front[i]).chunk_id@ == id;
                assert(sessions[i].chunk_id@ == id);
            }
        }
    }
}

/// Two lists of distinct uploads that hold the same things under the same chunks are the same by
/// chunk.
proof fn same_received(a: Seq<TransferSession>, m: Map<Seq<char>, Seq<u8>>)
    requires
        distinct(a),
        forall|i: int|
            0 <= i < a.len() ==> m.contains_key((#[trigger] a[i]).chunk_id@) && m[a[i].chunk_id@] == a[i].buffer@,
        forall|id: Seq<char>| #[trigger]
            m.contains_key(id) ==> exists|i: int| 0 <= i < a.len() && (#[trigger] a[i]).chunk_id@ == id,
    ensures
        received_of(a) == m,
{
    received_of_distinct(a);
    assert forall|id: Seq<char>| received_of(a).contains_key(id) == m.contains_key(id) by {
        if received_of(a).contains_key(id) {
            let i = choose|i: int| 0 <= i < a.len() && (#[trigger] a[i]).chunk_id@ == id;
            assert(m.contains_key(a[i].chunk_id@));
        }
        if m.contains_key(id) {
            let i = choose|i: int| 0 <= i < a.len() && (#[trigger] a[i]).chunk_id@ == id;
            assert(received_of(a).contains_key(a[i].chunk_id@));
        }
    }
    assert forall|id: Seq<char>| received_of(a).contains_key(id) implies received_of(a)[id] == m[id] by {
        let i = choose|i: int| 0 <= i < a.len() && (#[trigger] a[i]).chunk_id@ == id;
        assert(received_of(a)[a[i].chunk_id@] == m[a[i].chunk_id@]);
    }
    assert(received_of(a) =~= m);
}

impl Uploads {
    /// An upload of `id` begins: what came of an earlier one is forgotten, and data is for it.
    pub open spec fn begin(self, id: Seq<char>) -> Uploads {
        Uploads { received: self.received.insert(id, Seq::empty()), current: Some(id) }
    }

    /// Data has come: it belongs to the current upload, if there is one.
    pub open spec fn receive(self, data: Seq<u8>) -> Uploads {
        match self.current {
            Some(id) => if self.received.contains_key(id) {
                Uploads { received: self.received.insert(id, self.received[id] + data), current: self.current }
            } else {
                self
            },
            None => self,
        }
    }

    /// The upload of `id` is taken out.
    pub open spec fn take(self, id: Seq<char>) -> Uploads {
        Uploads { received: self.received.remove(id), current: self.current }
    }
}

/// What a message on the data channel asks for.
#[derive(Debug)]
pub enum ChannelAction {
    /// Nothing more.
    Ignore,
    /// Store this chunk, whose upload is complete.
    StoreUpload { session: TransferSession },
    /// Send this chunk.
    Download { chunk_id: String },
    /// Delete this chunk.
    Delete { chunk_id: String },
    /// Tell whether this chunk exists.
    CheckId { chunk_id: String },
    /// The peer says that an upload is complete which never began.
    NoUpload { chunk_id: String },
}

impl WebRTCManager {
    /// The uploads, by chunk.
    pub open spec fn view(self) -> Uploads {
        Uploads {
            received: received_of(self.active_uploads@),
            current: network::text_view(self.current_upload_chunk_id),
        }
    }

    /// No chunk is uploaded twice at a time.
    pub open spec fn well_formed(self) -> bool {
        distinct(self.active_uploads@)
    }

    /// The transfers of a new peer: none.
    pub fn new(storage_path: String) -> (manager: WebRTCManager)
        ensures
            manager.well_formed(),
            manager.storage_path == storage_path,
            manager@.received == Map::<Seq<char>, Seq<u8>>::empty(),
            manager@.current is None,
    {
        WebRTCManager { storage_path, active_uploads: Vec::new(), current_upload_chunk_id: None }
    }

    /// The servers a new peer connection uses.
    pub fn ice_servers() -> (servers: Vec<IceServer>)
        ensures
            servers@.len() == 1,
            network::is_open_server(
                servers@[0],
                seq!["stun:stun.l.google.com:19302"@, "stun:global.stun.twilio.com:3478"@],
            ),
    {
        let mut urls: Vec<String> = Vec::new();
        urls.push("stun:stun.l.google.com:19302".to_owned());
        urls.push("stun:global.stun.twilio.com:3478".to_owned());
        assert(urls@.map_values(|u: String| u@) =~= seq![
            "stun:stun.l.google.com:19302"@,
            "stun:global.stun.twilio.com:3478"@,
        ]);
        let mut servers: Vec<IceServer> = Vec::new();
        servers.push(IceServer { urls, username: String::new(), credential: String::new() });
        servers
    }

    /// The place of the upload of `chunk_id`, where there is one.
    fn find(&self, chunk_id: &str) -> (r: Option<usize>)
        requires
            self.well_formed(),
        ensures
            match r {
                Some(i) => {
                    &&& i < self.active_uploads@.len()
                    &&& self.active_uploads@[i as int].chunk_id@ == chunk_id@
                    &&& self@.received.contains_key(chunk_id@)
                    &&& self@.received[chunk_id@] == self.active_uploads@[i as int].buffer@
                },
                None => {
                    &&& !self@.received.contains_key(chunk_id@)
                    &&& forall|i: int|
                        0 <= i < self.active_uploads@.len() ==> (#[trigger] self.active_uploads@[i]).chunk_id@
                            != chunk_id@
                },
            },
    {
        let mut i: usize = 0;
        while i < self.active_uploads.len()
            invariant
                self.well_formed(),
                i <= self.active_uploads.len(),
                forall|j: int|
                    0 <= j < i ==> (#[trigger] self.active_uploads@[j]).chunk_id@ != chunk_id@,
            decreases self.active_uploads.len() - i,
        {
            if text::same(self.active_uploads[i].chunk_id.as_str(), chunk_id) {
                proof {
                    received_of_distinct(self.active_uploads@);
                }
                return Some(i);
            }
            i += 1;
        }
        proof {
            received_of_distinct(self.active_uploads@);
        }
        None
    }

    /// Takes the upload of `chunk_id` out, where there is one.
    fn take_upload(&mut self, chunk_id: &str) -> (r: Option<TransferSession>)
        requires
            old(self).well_formed(),
        ensures
            final(self).well_formed(),
            final(self).storage_path == old(self).storage_path,
            final(self)@.received == old(self)@.received.remove(chunk_id@),
            final(self).current_upload_chunk_id == old(self).current_upload_chunk_id,
            match r {
                Some(session) => {
                    &&& old(self)@.received.contains_key(chunk_id@)
                    &&& session.chunk_id@ == chunk_id@
                    &&& session.buffer@ == old(self)@.received[chunk_id@]
                },
                None => !old(self)@.received.contains_key(chunk_id@),
            },
    {
        let ghost before = self.active_uploads@;
        let ghost m = self@.received;
        match self.find(chunk_id) {
            Some(i) => {
                let session = self.active_uploads.remove(i);
                proof {
                    let after = self.active_uploads@;
                    received_of_distinct(before);
                    assert forall|j: int, k: int| 0 <= j < k < after.len() implies (#[trigger] after[j]).chunk_id@ != (
                    #[trigger] after[k]).chunk_id@ by {
                        let bj = if j < i { j } else { j + 1 };
                        let bk = if k < i { k } else { k + 1 };
                        assert(after[j] == before[bj] && after[k] == before[bk]);
                    }
                    assert forall|j: int| 0 <= j < after.len() implies m.remove(chunk_id@).contains_key(
                        (#[trigger] after[j]).chunk_id@,
                    ) && m.remove(chunk_id@)[after[j].chunk_id@] == after[j].buffer@ by {
                        let bj = if j < i { j } else { j + 1 };
                        assert(after[j] == before[bj]);
                        assert(before[bj].chunk_id@ != before[i as int].chunk_id@);
                    }
                    assert forall|id: Seq<char>| #[trigger] m.remove(chunk_id@).contains_key(id) implies exists|j: int|
                        0 <= j < after.len() && (#[trigger] after[j]).chunk_id@ == id by {
                        let bj = choose|b: int| 0 <= b < before.len() && (#[trigger] before[b]).chunk_id@ == id;
                        let j = if bj < i { bj } else { bj - 1 };
                        assert(after[j] == before[bj]);
                    }
                    same_received(after, m.remove(chunk_id@));
                }
                Some(session)
            },
            None => {
                assert(m.remove(chunk_id@) =~= m);
                None
            },
        }
    }

    /// Begins the upload of `chunk_id`.
    fn begin_upload(&mut self, chunk_id: String)
        requires
            old(self).well_formed(),
        ensures
            final(self).well_formed(),
            final(self).storage_path == old(self).storage_path,
            final(self)@ == old(self)@.begin(chunk_id@),
    {
        let ghost m = self@.received;
        let _forgotten = self.take_upload(chunk_id.as_str());
        let ghost rest = self.active_uploads@;
        proof {
            received_of_distinct(rest);
        }
        self.active_uploads.push(TransferSession { chunk_id: chunk_id.clone(), buffer: Vec::new() });
        proof {
            let after = self.active_uploads@;
            assert(after.drop_last() =~= rest);
            assert(received_of(after) =~= m.remove(chunk_id@).insert(chunk_id@, Seq::empty()));
            assert(m.remove(chunk_id@).insert(chunk_id@, Seq::<u8>::empty()) =~= m.insert(chunk_id@, Seq::empty()));
            assert forall|j: int, k: int| 0 <= j < k < after.len() implies (#[trigger] after[j]).chunk_id@ != (
            #[trigger] after[k]).chunk_id@ by {
                assert(after[j] == rest[j]);
                if k < rest.len() {
                    assert(after[k] == rest[k]);
                } else {
                    assert(received_of(rest).contains_key(rest[j].chunk_id@));
                }
            }
        }
        self.current_upload_chunk_id = Some(chunk_id);
    }

    /// Takes in data of an upload: it is put behind what the current upload has so far. Without
    /// one it is dropped.
    pub fn handle_data_chunk(&mut self, data: &[u8])
        requires
            old(self).well_formed(),
        ensures
            final(self).well_formed(),
            final(self).storage_path == old(self).storage_path,
            final(self)@ == old(self)@.receive(data@),
    {
        let ghost before = self.active_uploads@;
        let ghost m = self@.received;
        let found = match &self.current_upload_chunk_id {
            Some(id) => self.find(id.as_str()),
            None => None,
        };
        match found {
            Some(i) => {
                let ghost id = self@.current->0;
                let ghost now = m.insert(id, m[id] + data@);
                self.active_uploads[i].buffer.extend_from_slice(data);
                assert(self.active_uploads@[i as int].buffer@ =~= m[id] + data@);
                proof {
                    let after = self.active_uploads@;
                    received_of_distinct(before);
                    assert(after.len() == before.len());
                    assert forall|j: int| 0 <= j < after.len() implies (#[trigger] after[j]).chunk_id@
                        == before[j].chunk_id@ && (j != i ==> after[j] == before[j]) by {}
                    assert forall|j: int, k: int| 0 <= j < k < after.len() implies (#[trigger] after[j]).chunk_id@ != (
                    #[trigger] after[k]).chunk_id@ by {
                        assert(before[j].chunk_id@ != before[k].chunk_id@);
                    }
                    assert forall|j: int| 0 <= j < after.len() implies now.contains_key(
                        (#[trigger] after[j]).chunk_id@,
                    ) && now[after[j].chunk_id@] == after[j].buffer@ by {
                        assert(m.contains_key(before[j].chunk_id@));
                        if j < i {
                            assert(before[j].chunk_id@ != before[i as int].chunk_id@);
                        } else if i < j {
                            assert(before[i as int].chunk_id@ != before[j].chunk_id@);
                        }
                    }
                    assert forall|k: Seq<char>| #[trigger] now.contains_key(k) implies exists|j: int|
                        0 <= j < after.len() && (#[trigger] after[j]).chunk_id@ == k by {
                        assert(m.contains_key(k));
                        let j = choose|j: int| 0 <= j < before.len() && (#[trigger] before[j]).chunk_id@ == k;
                        assert(after[j].chunk_id@ == k);
                    }
                    same_received(after, now);
                }
            },
            None => {},
        }
    }

    /// The control message `message` asks for `action` and leads from these transfers to `after`.
    /// A message that could not be read, or that only the node sends, is ignored.
    pub open spec fn controlled(
        self,
        message: Option<ClientMessage>,
        action: ChannelAction,
        after: WebRTCManager,
    ) -> bool {
        match message {
            Some(ClientMessage::Upload { chunk_id }) => {
                &&& action is Ignore
                &&& after@ == self@.begin(chunk_id@)
            },
            Some(ClientMessage::Download { chunk_id }) => {
                &&& action == (ChannelAction::Download { chunk_id })
                &&& after == self
            },
            Some(ClientMessage::Delete { chunk_id }) => {
                &&& action == (ChannelAction::Delete { chunk_id })
                &&& after == self
            },
            Some(ClientMessage::CheckId { chunk_id }) => {
                &&& action == (ChannelAction::CheckId { chunk_id })
                &&& after == self
            },
            Some(ClientMessage::TransferComplete { chunk_id }) => {
                &&& after@ == self@.take(chunk_id@)
                &&& if self@.received.contains_key(chunk_id@) {
                    action matches ChannelAction::StoreUpload { session } && session.chunk_id@ == chunk_id@
                        && session.buffer@ == self@.received[chunk_id@]
                } else {
                    action == (ChannelAction::NoUpload { chunk_id })
                }
            },
            _ => action is Ignore && after == self,
        }
    }

    /// Takes in a control message; `message` is what it was read as, where it could be read.
    pub fn handle_control_message(&mut self, message: Option<ClientMessage>) -> (action: ChannelAction)
        requires
            old(self).well_formed(),
        ensures
            final(self).well_formed(),
            final(self).storage_path == old(self).storage_path,
            old(self).controlled(message, action, *final(self)),
    {
        match message {
            Some(ClientMessage::Upload { chunk_id }) => {
                self.begin_upload(chunk_id);
                ChannelAction::Ignore
            },
            Some(ClientMessage::Download { chunk_id }) => ChannelAction::Download { chunk_id },
            Some(ClientMessage::Delete { chunk_id }) => ChannelAction::Delete { chunk_id },
            Some(ClientMessage::CheckId { chunk_id }) => ChannelAction::CheckId { chunk_id },
            Some(ClientMessage::TransferComplete { chunk_id }) => match self.take_upload(chunk_id.as_str()) {
                Some(session) => ChannelAction::StoreUpload { session },
                None => ChannelAction::NoUpload { chunk_id },
            },
            _ => ChannelAction::Ignore,
        }
    }
}

impl WebRTCManager {
    /// Takes in a message of the data channel. Text is control, and `parsed` is what it was read
    /// as, where it could be read; anything else is data of an upload.
    pub fn handle_message(&mut self, is_string: bool, data: &[u8], parsed: Option<ClientMessage>) -> (action:
        ChannelAction)
        requires
            old(self).well_formed(),
        ensures
            final(self).well_formed(),
            final(self).storage_path == old(self).storage_path,
            !is_string ==> action is Ignore && final(self)@ == old(self)@.receive(data@),
            is_string ==> old(self).controlled(parsed, action, *final(self)),
    {
        if is_string {
            self.handle_control_message(parsed)
        } else {
            self.handle_data_chunk(data);
            ChannelAction::Ignore
        }
    }
}

/// Why a request on the data channel failed; the peer is not told.
#[derive(Debug)]
pub enum ChannelError {
    NoUpload { chunk_id: String },
    Store(StoreError),
    Retrieve(RetrieveError),
    Delete(DeleteError),
    Exists(ExistsError),
    Send { reason: String },
}

impl ChannelError {
    /// The text of `message`.
    pub open spec fn text(self) -> Seq<char> {
        match self {
            ChannelError::NoUpload { chunk_id } =>
                "Cannot finalize: No upload session for chunk_id: "@ + chunk_id@,
            ChannelError::Store(e) => e.text(),
            ChannelError::Retrieve(e) => e.text(),
            ChannelError::Delete(e) => e.text(),
            ChannelError::Exists(e) => e.text(),
            ChannelError::Send { reason } => reason@,
        }
    }

    /// The message to show for this error.
    pub fn message(&self) -> (r: String)
        ensures
            r@ == self.text(),
    {
        match self {
            ChannelError::NoUpload { chunk_id } => text::concat2(
                "Cannot finalize: No upload session for chunk_id: ",
                chunk_id.as_str(),
            ),
            ChannelError::Store(e) => e.message(),
            ChannelError::Retrieve(e) => e.message(),
            ChannelError::Delete(e) => e.message(),
            ChannelError::Exists(e) => e.message(),
            ChannelError::Send { reason } => reason.clone(),
        }
    }
}

/// What comes next in completing an upload.
#[derive(Debug)]
pub enum UploadStage {
    /// Store the chunk: perform the stage of this run.
    Store { store: StoreRun },
    /// Tell the peer, with this message.
    Reply { message: ClientMessage },
    /// Nothing: this is the result.
    Finished(Result<(), ChannelError>),
}

/// The outcome of a stage of completing an upload.
#[derive(Debug)]
pub enum UploadReply {
    /// For `Store`: the answer to the stage of the run.
    Store(StoreReply),
    /// For `Reply`: why it was not sent, if it was not.
    Sent(Result<(), String>),
}

/// The completion of one upload.
#[derive(Debug)]
pub struct UploadRun {
    pub chunk_id: String,
    pub stage: UploadStage,
}

/// What comes next in storing the upload of a chunk: the run goes on, or it is over and the peer is
/// told of its success.
pub open spec fn storing(chunk_id: String, store: StoreRun) -> UploadStage {
    match store.stage {
        StoreStage::Finished(Ok(_)) => UploadStage::Reply { message: ClientMessage::TransferComplete { chunk_id } },
        StoreStage::Finished(Err(e)) => UploadStage::Finished(Err(ChannelError::Store(e))),
        _ => UploadStage::Store { store },
    }
}

fn go_on_storing(chunk_id: &String, store: StoreRun) -> (stage: UploadStage)
    ensures
        stage == storing(*chunk_id, store),
{
    match store.stage {
        StoreStage::Finished(result) => match result {
            Ok(_) => UploadStage::Reply {
                message: ClientMessage::TransferComplete { chunk_id: chunk_id.clone() },
            },
            Err(e) => UploadStage::Finished(Err(ChannelError::Store(e))),
        },
        _ => UploadStage::Store { store },
    }
}

impl WebRTCManager {
    /// Begins to complete the upload `session`: its chunk is stored.
    pub fn finalize_upload(&self, session: TransferSession, state: &StorageState) -> (run: UploadRun)
        ensures
            run.chunk_id == session.chunk_id,
            exists|store: StoreRun| #[trigger]
                storage::store_begun(
                    store,
                    self.storage_path@,
                    session.chunk_id@,
                    session.buffer@,
                    *state,
                ) && run.stage == storing(session.chunk_id, store),
    {
        let store = storage::store_chunk_data_to_disk(
            self.storage_path.as_str(),
            session.chunk_id.as_str(),
            session.buffer,
            state,
        );
        let stage = go_on_storing(&session.chunk_id, store);
        UploadRun { chunk_id: session.chunk_id, stage }
    }
}

/// The outcome of an upload that never began.
pub fn refuse_upload(chunk_id: String) -> (run: UploadRun)
    ensures
        run.chunk_id == chunk_id,
        run.stage == UploadStage::Finished(Err(ChannelError::NoUpload { chunk_id })),
{
    UploadRun {
        chunk_id: chunk_id.clone(),
        stage: UploadStage::Finished(Err(ChannelError::NoUpload { chunk_id })),
    }
}

impl UploadRun {
    /// `reply` is an outcome of the stage of this run.
    pub open spec fn expects(self, reply: UploadReply) -> bool {
        match self.stage {
            UploadStage::Store { store } => reply matches UploadReply::Store(r) && store.expects(r),
            UploadStage::Reply { .. } => reply is Sent,
            UploadStage::Finished(_) => false,
        }
    }

    /// The stage after `reply`.
    pub open spec fn stage_after(self, reply: UploadReply) -> UploadStage {
        match (self.stage, reply) {
            (UploadStage::Store { store }, UploadReply::Store(r)) =>
                storing(self.chunk_id, StoreRun { stage: store.stage_after(r), ..store }),
            (UploadStage::Reply { .. }, UploadReply::Sent(Ok(_))) => UploadStage::Finished(Ok(())),
            (UploadStage::Reply { .. }, UploadReply::Sent(Err(reason))) =>
                UploadStage::Finished(Err(ChannelError::Send { reason })),
            (stage, _) => stage,
        }
    }

    /// The counters after `reply`: they change when the file of the chunk is in place.
    pub open spec fn state_after(self, reply: UploadReply, state: StorageState) -> StorageState {
        match (self.stage, reply) {
            (UploadStage::Store { store }, UploadReply::Store(r)) => if store.completes_with(r) {
                state.with_chunk(store.data@.len() as u64)
            } else {
                state
            },
            _ => state,
        }
    }

    /// Goes on with the outcome of the stage. When the peer has been told that its chunk is
    /// stored, and only then, no upload is current any more.
    pub fn resume(self, reply: UploadReply, manager: &mut WebRTCManager, state: &mut StorageState) -> (next:
        UploadRun)
        requires
            self.expects(reply),
        ensures
            next == (UploadRun { stage: self.stage_after(reply), ..self }),
            *final(manager) == if next.stage == UploadStage::Finished(Ok(())) {
                WebRTCManager { current_upload_chunk_id: None, ..*old(manager) }
            } else {
                *old(manager)
            },
            *final(state) == self.state_after(reply, *old(state)),
    {
        let UploadRun { chunk_id, stage } = self;
        let stage = match (stage, reply) {
            (UploadStage::Store { store }, UploadReply::Store(r)) => {
                let store = store.resume(r, state);
                go_on_storing(&chunk_id, store)
            },
            (UploadStage::Reply { .. }, UploadReply::Sent(result)) => match result {
                Ok(_) => {
                    manager.current_upload_chunk_id = None;
                    UploadStage::Finished(Ok(()))
                },
                Err(reason) => UploadStage::Finished(Err(ChannelError::Send { reason })),
            },
            (stage, _) => stage,
        };
        UploadRun { chunk_id, stage }
    }
}

/// What comes next in sending a chunk to a peer.
#[derive(Debug)]
pub enum DownloadStage {
    /// Read the chunk: perform the stage of this run.
    Retrieve { retrieve: RetrieveRun },
    /// Ask how much is waiting in the data channel.
    MeasureBuffer,
    /// Wait until the data channel says that little is waiting.
    AwaitLowBuffer,
    /// Send this frame.
    SendFrame { frame: Vec<u8> },
    /// Tell the peer, with this message.
    Reply { message: ClientMessage },
    /// Nothing: this is the result.
    Finished(Result<(), ChannelError>),
}

/// The outcome of a stage of sending a chunk to a peer.
#[derive(Debug)]
pub enum DownloadReply {
    /// For `Retrieve`: the answer to the stage of the run.
    Retrieve(RetrieveReply),
    /// For `MeasureBuffer`: the number of bytes that are waiting.
    Buffered(usize),
    /// For `AwaitLowBuffer`.
    BufferLow,
    /// For `SendFrame` and `Reply`: why it was not sent, if it was not.
    Sent(Result<(), String>),
}

/// The sending of one chunk to a peer: its data, and how much of it has been sent.
#[derive(Debug)]
pub struct DownloadRun {
    pub chunk_id: String,
    pub data: Vec<u8>,
    pub sent: usize,
    pub stage: DownloadStage,
}

impl WebRTCManager {
    /// Begins to send the chunk `chunk_id` to a peer.
    pub fn handle_download_request(&self, chunk_id: String) -> (run: DownloadRun)
        ensures
            run.chunk_id == chunk_id,
            run.data@ == Seq::<u8>::empty(),
            run.sent == 0,
            run.stage matches DownloadStage::Retrieve { retrieve } && storage::retrieve_begun(
                retrieve,
                self.storage_path@,
                chunk_id@,
            ),
            run.well_formed(),
    {
        let retrieve = storage::retrieve_chunk_data_from_disk(self.storage_path.as_str(), chunk_id.as_str());
        DownloadRun { chunk_id, data: Vec::new(), sent: 0, stage: DownloadStage::Retrieve { retrieve } }
    }
}

/// The bytes of the frame that begins at `from`: all that is left, but no more than a frame.
pub open spec fn frame_at(data: Seq<u8>, from: int) -> Seq<u8> {
    if data.len() - from <= FRAME_BYTES {
        data.skip(from)
    } else {
        data.subrange(from, from + FRAME_BYTES)
    }
}

impl DownloadRun {
    /// No more has been sent than there is, and a frame that is being sent is the next one.
    pub open spec fn well_formed(self) -> bool {
        &&& self.sent <= self.data@.len()
        &&& self.stage is MeasureBuffer || self.stage is AwaitLowBuffer ==> self.sent < self.data@.len()
        &&& self.stage matches DownloadStage::SendFrame { frame } ==> {
            &&& self.sent < self.data@.len()
            &&& frame@ == frame_at(self.data@, self.sent as int)
        }
    }

    /// `reply` is an outcome of the stage of this run.
    pub open spec fn expects(self, reply: DownloadReply) -> bool {
        match self.stage {
            DownloadStage::Retrieve { retrieve } => reply matches DownloadReply::Retrieve(r) && retrieve.expects(r),
            DownloadStage::MeasureBuffer => reply is Buffered,
            DownloadStage::AwaitLowBuffer => reply is BufferLow,
            DownloadStage::SendFrame { .. } => reply is Sent,
            DownloadStage::Reply { .. } => reply is Sent,
            DownloadStage::Finished(_) => false,
        }
    }

    /// There is a frame left to send, or the peer is told that there is none: what comes next
    /// when `sent` bytes of `data` have been sent.
    pub open spec fn next_frame(chunk_id: String, data: Seq<u8>, sent: int) -> DownloadStage {
        if sent < data.len() {
            DownloadStage::MeasureBuffer
        } else {
            DownloadStage::Reply { message: ClientMessage::TransferComplete { chunk_id } }
        }
    }

    /// `next` is this run after `reply`.
    pub open spec fn leads_to(self, reply: DownloadReply, next: DownloadRun) -> bool {
        &&& next.chunk_id == self.chunk_id
        &&& match (self.stage, reply) {
            (DownloadStage::Retrieve { retrieve }, DownloadReply::Retrieve(r)) => {
                let read = RetrieveRun { stage: retrieve.stage_after(r), ..retrieve };
                match read.stage {
                    RetrieveStage::Finished(Ok(data)) => {
                        &&& next.data == data
                        &&& next.sent == 0
                        &&& next.stage == DownloadRun::next_frame(self.chunk_id, data@, 0)
                    },
                    RetrieveStage::Finished(Err(e)) => next == (DownloadRun {
                        stage: DownloadStage::Finished(Err(ChannelError::Retrieve(e))),
                        ..self
                    }),
                    _ => next == (DownloadRun { stage: DownloadStage::Retrieve { retrieve: read }, ..self }),
                }
            },
            (DownloadStage::MeasureBuffer, DownloadReply::Buffered(amount)) => {
                &&& next.data == self.data
                &&& next.sent == self.sent
                &&& if amount > HIGH_WATER_MARK {
                    next.stage is AwaitLowBuffer
                } else {
                    next.stage matches DownloadStage::SendFrame { frame } && frame@ == frame_at(
                        self.data@,
                        self.sent as int,
                    )
                }
            },
            (DownloadStage::AwaitLowBuffer, DownloadReply::BufferLow) => next == (DownloadRun {
                stage: DownloadStage::MeasureBuffer,
                ..self
            }),
            (DownloadStage::SendFrame { frame }, DownloadReply::Sent(Ok(_))) => {
                &&& next.data == self.data
                &&& next.sent == self.sent + frame@.len()
                &&& next.stage == DownloadRun::next_frame(self.chunk_id, self.data@, next.sent as int)
            },
            (DownloadStage::Reply { .. }, DownloadReply::Sent(Ok(_))) => next == (DownloadRun {
                stage: DownloadStage::Finished(Ok(())),
                ..self
            }),
            (_, DownloadReply::Sent(Err(reason))) => next == (DownloadRun {
                stage: DownloadStage::Finished(Err(ChannelError::Send { reason })),
                ..self
            }),
            _ => next == self,
        }
    }

    /// Goes on with the outcome of the stage.
    pub fn resume(self, reply: DownloadReply) -> (next: DownloadRun)
        requires
            self.well_formed(),
            self.expects(reply),
        ensures
            next.well_formed(),
            self.leads_to(reply, next),
    {
        let DownloadRun { chunk_id, data, sent, stage } = self;
        match (stage, reply) {
            (DownloadStage::Retrieve { retrieve }, DownloadReply::Retrieve(r)) => {
                let retrieve = retrieve.resume(r);
                match retrieve.stage {
                    RetrieveStage::Finished(result) => match result {
                        Ok(read) => {
                            let stage = frame_or_reply(&chunk_id, read.len() > 0);
                            DownloadRun { chunk_id, data: read, sent: 0, stage }
                        },
                        Err(e) => DownloadRun {
                            chunk_id,
                            data,
                            sent,
                            stage: DownloadStage::Finished(Err(ChannelError::Retrieve(e))),
                        },
                    },
                    _ => DownloadRun { chunk_id, data, sent, stage: DownloadStage::Retrieve { retrieve } },
                }
            },
            (DownloadStage::MeasureBuffer, DownloadReply::Buffered(amount)) => {
                if amount > HIGH_WATER_MARK {
                    DownloadRun { chunk_id, data, sent, stage: DownloadStage::AwaitLowBuffer }
                } else {
                    let end: usize = if data.len() - sent <= FRAME_BYTES {
                        data.len()
                    } else {
                        sent + FRAME_BYTES
                    };
                    let frame = slice_to_vec(slice_subrange(data.as_slice(), sent, end));
                    assert(frame@ =~= frame_at(data@, sent as int));
                    DownloadRun { chunk_id, data, sent, stage: DownloadStage::SendFrame { frame } }
                }
            },
            (DownloadStage::AwaitLowBuffer, DownloadReply::BufferLow) => DownloadRun {
                chunk_id,
                data,
                sent,
                stage: DownloadStage::MeasureBuffer,
            },
            (DownloadStage::SendFrame { frame }, DownloadReply::Sent(result)) => match result {
                Ok(_) => {
                    let total: usize = data.len();
                    let now: usize = sent + frame.len();
                    let stage = frame_or_reply(&chunk_id, now < total);
                    DownloadRun { chunk_id, data, sent: now, stage }
                },
                Err(reason) => DownloadRun {
                    chunk_id,
                    data,
                    sent,
                    stage: DownloadStage::Finished(Err(ChannelError::Send { reason })),
                },
            },
            (DownloadStage::Reply { .. }, DownloadReply::Sent(result)) => match result {
                Ok(_) => DownloadRun { chunk_id, data, sent, stage: DownloadStage::Finished(Ok(())) },
                Err(reason) => DownloadRun {
                    chunk_id,
                    data,
                    sent,
                    stage: DownloadStage::Finished(Err(ChannelError::Send { reason })),
                },
            },
            (stage, _) => DownloadRun { chunk_id, data, sent, stage },
        }
    }
}

fn frame_or_reply(chunk_id: &String, frame_left: bool) -> (stage: DownloadStage)
    ensures
        stage == if frame_left {
            DownloadStage::MeasureBuffer
        } else {
            DownloadStage::Reply { message: ClientMessage::TransferComplete { chunk_id: *chunk_id } }
        },
{
    if frame_left {
        DownloadStage::MeasureBuffer
    } else {
        DownloadStage::Reply { message: ClientMessage::TransferComplete { chunk_id: chunk_id.clone() } }
    }
}

impl WebRTCManager {
    /// Begins to delete the chunk `chunk_id` for a peer.
    pub fn handle_delete_request(&self, chunk_id: &str) -> (delete: DeleteRun)
        ensures
            storage::delete_begun(delete, self.storage_path@, chunk_id@),
    {
        storage::delete_chunk_from_disk(self.storage_path.as_str(), chunk_id)
    }

    /// The file whose existence tells a peer whether the chunk `chunk_id` exists.
    pub fn handle_check_request(&self, chunk_id: &str) -> (file: String)
        ensures
            file@ == storage::chunk_file(self.storage_path@, chunk_id@),
    {
        storage::chunk_file_path(self.storage_path.as_str(), chunk_id)
    }
}

/// The message a peer is sent for its request to delete a chunk, given the result of the
/// `DeleteRun`: whether there was a chunk to delete makes no difference.
pub fn answer_delete_request(chunk_id: String, deleted: Result<Option<u64>, DeleteError>) -> (r: Result<
    ClientMessage,
    ChannelError,
>)
    ensures
        r == match deleted {
            Ok(_) => Ok::<ClientMessage, ChannelError>(ClientMessage::TransferComplete { chunk_id }),
            Err(e) => Err::<ClientMessage, ChannelError>(ChannelError::Delete(e)),
        },
{
    match deleted {
        Ok(_) => Ok(ClientMessage::TransferComplete { chunk_id }),
        Err(e) => Err(ChannelError::Delete(e)),
    }
}

/// The message a peer is sent for its question whether a chunk exists, given what the file system
/// says of its file.
pub fn answer_check_request(chunk_id: String, found: Result<bool, IoFailure>) -> (r: Result<
    ClientMessage,
    ChannelError,
>)
    ensures
        match found {
            Ok(exists) => r == Ok::<ClientMessage, ChannelError>(ClientMessage::IdStatus { chunk_id, exists }),
            Err(e) => r matches Err(ChannelError::Exists(error)) && error.chunk_id@ == chunk_id@ && error.reason
                == e.text,
        },
{
    match storage::check_chunk_exists(chunk_id.as_str(), found) {
        Ok(exists) => Ok(ClientMessage::IdStatus { chunk_id, exists }),
        Err(e) => Err(ChannelError::Exists(e)),
    }
}

/// What comes next in answering the offer of a peer.
#[derive(Debug)]
pub enum AnswerStage {
    /// Take the offer as the description of the peer.
    SetRemote,
    /// Make an answer.
    CreateAnswer,
    /// Take the answer as the description of this side.
    SetLocal,
    /// Read the description of this side: it is the answer to send.
    ReadLocal,
    /// Nothing: the answer can be sent, or why it cannot.
    Finished(Result<(), AnswerError>),
}

/// Why the offer of a peer was not answered.
#[derive(Debug)]
pub enum AnswerError {
    Failed { reason: String },
    NoLocalDescription,
}

impl AnswerError {
    /// The text of `message`.
    pub open spec fn text(self) -> Seq<char> {
        match self {
            AnswerError::Failed { reason } => reason@,
            AnswerError::NoLocalDescription => "Local description not available"@,
        }
    }

    /// The message to show for this error.
    pub fn message(&self) -> (r: String)
        ensures
            r@ == self.text(),
    {
        match self {
            AnswerError::Failed { reason } => reason.clone(),
            AnswerError::NoLocalDescription => "Local description not available".to_owned(),
        }
    }
}

/// The outcome of a stage of answering an offer.
#[derive(Debug)]
pub enum AnswerReply {
    /// For `SetRemote`, `CreateAnswer` and `SetLocal`: why it was not done, if it was not.
    Done(Result<(), String>),
    /// For `ReadLocal`: whether there is a description.
    Local(bool),
}

impl WebRTCManager {
    /// Begins to answer the offer of a peer.
    pub fn handle_offer_and_create_answer(&self) -> (stage: AnswerStage)
        ensures
            stage is SetRemote,
    {
        AnswerStage::SetRemote
    }
}

impl AnswerStage {
    /// `reply` is an outcome of this stage.
    pub open spec fn expects(self, reply: AnswerReply) -> bool {
        match self {
            AnswerStage::ReadLocal => reply is Local,
            AnswerStage::Finished(_) => false,
            _ => reply is Done,
        }
    }

    /// What comes after this stage and its outcome `reply`.
    pub open spec fn after(self, reply: AnswerReply) -> AnswerStage {
        match (self, reply) {
            (AnswerStage::SetRemote, AnswerReply::Done(Ok(_))) => AnswerStage::CreateAnswer,
            (AnswerStage::CreateAnswer, AnswerReply::Done(Ok(_))) => AnswerStage::SetLocal,
            (AnswerStage::SetLocal, AnswerReply::Done(Ok(_))) => AnswerStage::ReadLocal,
            (_, AnswerReply::Done(Err(reason))) => AnswerStage::Finished(Err(AnswerError::Failed { reason })),
            (AnswerStage::ReadLocal, AnswerReply::Local(true)) => AnswerStage::Finished(Ok(())),
            (AnswerStage::ReadLocal, AnswerReply::Local(false)) =>
                AnswerStage::Finished(Err(AnswerError::NoLocalDescription)),
            (stage, _) => stage,
        }
    }

    /// Goes on with the outcome of this stage.
    pub fn resume(self, reply: AnswerReply) -> (next: AnswerStage)
        requires
            self.expects(reply),
        ensures
            next == self.after(reply),
    {
        match reply {
            AnswerReply::Done(Err(reason)) => AnswerStage::Finished(Err(AnswerError::Failed { reason })),
            AnswerReply::Done(Ok(_)) => match self {
                AnswerStage::SetRemote => AnswerStage::CreateAnswer,
                AnswerStage::CreateAnswer => AnswerStage::SetLocal,
                AnswerStage::SetLocal => AnswerStage::ReadLocal,
                stage => stage,
            },
            AnswerReply::Local(present) => if present {
                AnswerStage::Finished(Ok(()))
            } else {
                AnswerStage::Finished(Err(AnswerError::NoLocalDescription))
            },
        }
    }
}

/// A way to reach a peer, as the peer wrote it down.
#[derive(Debug)]
pub struct PeerCandidate {
    pub candidate: String,
    pub sdp_mid: Option<String>,
    pub sdp_mline_index: Option<u16>,
    pub username_fragment: Option<String>,
}

impl PeerCandidate {
    /// The candidate, the medium it is for by name and by number, and the name fragment of its user.
    pub open spec fn view(self) -> (Seq<char>, Option<Seq<char>>, Option<u16>, Option<Seq<char>>) {
        (
            self.candidate@,
            network::text_view(self.sdp_mid),
            self.sdp_mline_index,
            network::text_view(self.username_fragment),
        )
    }
}

/// The text of the JSON object with the text members `members` and, under `key`, with what
/// `serde_json` makes of an `RTCIceCandidateInit` of the crate `webrtc` with these members.
pub uninterp spec fn candidate_object_text(
    members: Seq<(Seq<char>, Seq<char>)>,
    key: Seq<char>,
    candidate: (Seq<char>, Option<Seq<char>>, Option<u16>, Option<Seq<char>>),
) -> Seq<char>;

/// Builds a `serde_json::Value` of an object, with text members and with what
/// `serde_json::to_value` gives for an `RTCIceCandidateInit` of the crate `webrtc`, and calls its
/// `to_string`. The contract names the text, and claims that reading it as JSON gives the text
/// members back, but for one under `key`, where there is no text now.
#[verifier::external_body]
pub(crate) fn write_candidate_object(
    members: &Vec<(String, String)>,
    key: &str,
    candidate: PeerCandidate,
) -> (r: String)
    ensures
        r@ == candidate_object_text(json::member_views(members@), key@, candidate@),
        json::parsed_members(r@) == Some(json::by_key(json::member_views(members@)).remove(key@)),
{
    let init = ::webrtc::ice_transport::ice_candidate::RTCIceCandidateInit {
        candidate: candidate.candidate,
        sdp_mid: candidate.sdp_mid,
        sdp_mline_index: candidate.sdp_mline_index,
        username_fragment: candidate.username_fragment,
    };
    let mut object = serde_json::Map::new();
    for member in members.iter() {
        object.insert(member.0.clone(), serde_json::Value::String(member.1.clone()));
    }
    object.insert(key.to_owned(), serde_json::to_value(init).unwrap());
    serde_json::Value::Object(object).to_string()
}

/// The text members of the message with a way to reach this side, in the session `session_id`.
pub open spec fn candidate_members(session_id: Seq<char>) -> Seq<(Seq<char>, Seq<char>)> {
    seq![("command_id"@, session_id), ("type"@, "ICE_CANDIDATE_ANSWER"@)]
}

/// The message to the backend for a way to reach this side, in the session `session_id`: a JSON
/// object that holds it as its member `candidate`. When all ways have been found there is none.
pub fn candidate_message(session_id: &str, candidate: Option<PeerCandidate>) -> (r: Option<String>)
    ensures
        match candidate {
            Some(c) => r matches Some(message) && message@ == candidate_object_text(
                candidate_members(session_id@),
                "candidate"@,
                c@,
            ) && json::parsed_members(message@) == Some(
                map!["command_id"@ => session_id@, "type"@ => "ICE_CANDIDATE_ANSWER"@],
            ),
            None => r is None,
        },
{
    match candidate {
        Some(candidate) => {
            let mut members: Vec<(String, String)> = Vec::new();
            members.push(("command_id".to_owned(), session_id.to_owned()));
            members.push(("type".to_owned(), "ICE_CANDIDATE_ANSWER".to_owned()));
            proof {
                reveal_strlit("command_id");
                reveal_strlit("type");
                reveal_strlit("candidate");
                assert("candidate"@.len() != "command_id"@.len() && "candidate"@.len() != "type"@.len());
                let views = json::member_views(members@);
                assert(views =~= candidate_members(session_id@));
                reveal_with_fuel(json::by_key, 3);
                assert(views.drop_last().drop_last() =~= Seq::<(Seq<char>, Seq<char>)>::empty());
                assert(views.last() == ("type"@, "ICE_CANDIDATE_ANSWER"@));
                assert(views.drop_last().last() == ("command_id"@, session_id@));
                assert(json::by_key(views).remove("candidate"@) =~= map![
                    "command_id"@ => session_id@,
                    "type"@ => "ICE_CANDIDATE_ANSWER"@,
                ]);
            }
            Some(write_candidate_object(&members, "candidate", candidate))
        },
        None => None,
    }
}

/// What `serde_json::from_str` reads in the text `json` for an `RTCIceCandidateInit` of the crate
/// `webrtc`: its members `candidate`, `sdp_mid`, `sdp_mline_index` and `username_fragment`, or the
/// text of the error.
pub uninterp spec fn candidate_read(json: Seq<char>) -> Result<
    (Seq<char>, Option<Seq<char>>, Option<u16>, Option<Seq<char>>),
    Seq<char>,
>;

/// Calls `serde_json::from_str` for the type `RTCIceCandidateInit` of the crate `webrtc`, and hands
/// on the four members of that type, or the error as it is displayed. The contract only gives the
/// outcome a name: it depends on the text alone.
#[verifier::external_body]
pub(crate) fn read_candidate(json: &str) -> (r: Result<PeerCandidate, String>)
    ensures
        match r {
            Ok(c) => candidate_read(json@) == Ok::<_, Seq<char>>(c@),
            Err(e) => candidate_read(json@) == Err::<
                (Seq<char>, Option<Seq<char>>, Option<u16>, Option<Seq<char>>),
                _,
            >(e@),
        },
{
    match serde_json::from_str::<::webrtc::ice_transport::ice_candidate::RTCIceCandidateInit>(json) {
        Ok(c) => Ok(
            PeerCandidate {
                candidate: c.candidate,
                sdp_mid: c.sdp_mid,
                sdp_mline_index: c.sdp_mline_index,
                username_fragment: c.username_fragment,
            },
        ),
        Err(e) => Err(e.to_string()),
    }
}

/// Why a way to reach a peer was not taken.
#[derive(Debug)]
pub enum CandidateError {
    /// What the peer wrote down is no candidate.
    Unreadable { reason: String },
    /// The connection did not take the candidate.
    Refused { reason: String },
}

impl CandidateError {
    /// The text of `message`.
    pub open spec fn text(self) -> Seq<char> {
        match self {
            CandidateError::Unreadable { reason } => reason@,
            CandidateError::Refused { reason } => reason@,
        }
    }

    /// The message to show for this error.
    pub fn message(&self) -> (r: String)
        ensures
            r@ == self.text(),
    {
        match self {
            CandidateError::Unreadable { reason } => reason.clone(),
            CandidateError::Refused { reason } => reason.clone(),
        }
    }
}

/// What comes next in taking a way to reach a peer.
#[derive(Debug)]
pub enum CandidateStage {
    /// Hand the candidate to the connection.
    Add { candidate: PeerCandidate },
    /// Nothing: the candidate was taken, or why it was not.
    Finished(Result<(), CandidateError>),
}

impl WebRTCManager {
    /// Begins to take the way to reach the peer that `candidate_json` holds. What the text holds is
    /// handed to the connection; a text that holds no candidate ends the run.
    pub fn add_ice_candidate(&self, candidate_json: &str) -> (stage: CandidateStage)
        ensures
            match candidate_read(candidate_json@) {
                Ok(read) => stage matches CandidateStage::Add { candidate } && candidate@ == read,
                Err(why) => stage matches CandidateStage::Finished(
                    Err(CandidateError::Unreadable { reason }),
                ) && reason@ == why,
            },
    {
        take_candidate(read_candidate(candidate_json))
    }
}

/// What comes first in taking the way to reach a peer that was read, or why it could not be read.
pub fn take_candidate(read: Result<PeerCandidate, String>) -> (stage: CandidateStage)
    ensures
        stage == match read {
            Ok(candidate) => CandidateStage::Add { candidate },
            Err(reason) => CandidateStage::Finished(Err(CandidateError::Unreadable { reason })),
        },
{
    match read {
        Ok(candidate) => CandidateStage::Add { candidate },
        Err(reason) => CandidateStage::Finished(Err(CandidateError::Unreadable { reason })),
    }
}

impl CandidateStage {
    /// Goes on with what came of handing the candidate to the connection: why the connection did
    /// not take it, if it did not.
    pub fn resume(self, added: Result<(), String>) -> (next: CandidateStage)
        requires
            self is Add,
        ensures
            next == CandidateStage::Finished(
                match added {
                    Ok(_) => Ok(()),
                    Err(reason) => Err(CandidateError::Refused { reason }),
                },
            ),
    {
        match added {
            Ok(_) => CandidateStage::Finished(Ok(())),
            Err(reason) => CandidateStage::Finished(Err(CandidateError::Refused { reason })),
        }
    }
}

} // verus!
