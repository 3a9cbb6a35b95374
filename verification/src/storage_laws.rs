//! What the runs of the chunk store do to a disk that does what it says.
//!
//! A disk is modelled as the contents of its files, by path. A history of a run pairs each stage
//! with the answer of the disk and with the state of the disk and of the counters before and
//! after.

use crate::chunk_id;
use crate::disk::{IoFailure, IoKind};
use crate::path;
use crate::storage;
use crate::storage::{
    DeleteError, DeleteReply, DeleteRun, DeleteStage, DirectoryEntry, RetrieveError, RetrieveReply, RetrieveRun,
    RetrieveStage, StorageState, StoreError, StoreReply, StoreRun, StoreStage, MAX_CHUNK_BYTES,
};
use vstd::prelude::*;
use vstd::utf8::*;

verus! {

/// The contents of the files of a disk, by path.
pub type Files = Map<Seq<char>, Seq<u8>>;

/// What performing the stage of `run` does to the files when the disk answers `reply`. A write
/// that fails may leave anything in the file it was to write; an operation that fails otherwise
/// changes nothing.
pub open spec fn store_effect(run: StoreRun, reply: StoreReply, before: Files, after: Files) -> bool {
    let temp = run.temp_path@;
    match (run.stage, reply) {
        (StoreStage::RemoveStaleTemp, StoreReply::Done(Ok(_))) => after == before.remove(temp),
        (StoreStage::DiscardTemp { .. }, StoreReply::Done(Ok(_))) => after == before.remove(temp),
        (StoreStage::WriteTemp, StoreReply::Done(Ok(_))) => after == before.insert(temp, run.data@),
        (StoreStage::WriteTemp, StoreReply::Done(Err(_))) => after.remove(temp) == before.remove(temp),
        (StoreStage::RenameTemp, StoreReply::Done(Ok(_))) => {
            &&& before.contains_key(temp)
            &&& after == before.remove(temp).insert(run.chunk_path@, before[temp])
        },
        _ => after == before,
    }
}

/// A history of the storing of a chunk: `runs[i]` was answered `replies[i]`, which took the disk
/// from `files[i]` to `files[i + 1]` and the counters from `states[i]` to `states[i + 1]`.
pub struct StoreHistory {
    pub runs: Seq<StoreRun>,
    pub replies: Seq<StoreReply>,
    pub files: Seq<Files>,
    pub states: Seq<StorageState>,
}

impl StoreHistory {
    /// Step `i` is one that `StoreRun::resume` and the disk make.
    pub open spec fn step(self, i: int) -> bool {
        &&& self.runs[i].expects(self.replies[i])
        &&& self.runs[i + 1] == (StoreRun { stage: self.runs[i].stage_after(self.replies[i]), ..self.runs[i] })
        &&& self.states[i + 1] == if self.runs[i].completes_with(self.replies[i]) {
            self.states[i].with_chunk(self.runs[i].data@.len() as u64)
        } else {
            self.states[i]
        }
        &&& store_effect(self.runs[i], self.replies[i], self.files[i], self.files[i + 1])
    }

    /// The history of storing `data` as the chunk `id` in the directory `base`.
    pub open spec fn stores(self, base: Seq<char>, id: Seq<char>, data: Seq<u8>) -> bool {
        &&& self.runs.len() > 0
        &&& self.runs.len() == self.replies.len() + 1
        &&& self.runs.len() == self.files.len()
        &&& self.runs.len() == self.states.len()
        &&& storage::store_begun(self.runs[0], base, id, data, self.states[0])
        &&& forall|i: int| 0 <= i < self.replies.len() ==> #[trigger] self.step(i)
    }

    /// What holds after `i` steps: the run is still about the same chunk, no file but the
    /// temporary one has changed before the chunk is in place, and the counters have not either.
    spec fn holds_at(self, i: int) -> bool {
        let run = self.runs[i];
        let first = self.runs[0];
        &&& run == (StoreRun { stage: run.stage, ..first })
        &&& match run.stage {
            StoreStage::Finished(Ok(n)) => {
                &&& n == first.data@.len() as u64
                &&& self.files[i] == self.files[0].remove(first.temp_path@).insert(first.chunk_path@, first.data@)
                &&& self.states[i] == self.states[0].with_chunk(n)
                &&& first.stage is MeasureDisk
            },
            _ => {
                &&& self.files[i].remove(first.temp_path@) == self.files[0].remove(first.temp_path@)
                &&& self.states[i] == self.states[0]
                &&& first.stage is Finished ==> i == 0
            },
        }
        &&& run.stage is RenameTemp ==> {
            &&& self.files[i].contains_key(first.temp_path@)
            &&& self.files[i][first.temp_path@] == first.data@
        }
    }

    proof fn holds(self, base: Seq<char>, id: Seq<char>, data: Seq<u8>, i: int)
        requires
            self.stores(base, id, data),
            0 <= i < self.runs.len(),
        ensures
            self.holds_at(i),
        decreases i,
    {
        if i > 0 {
            self.holds(base, id, data, i - 1);
            assert(self.step(i - 1));
            let temp = self.runs[0].temp_path@;
            assert(self.files[i - 1].remove(temp).remove(temp) =~= self.files[i - 1].remove(temp));
            assert(self.files[i - 1].insert(temp, data).remove(temp) =~= self.files[i - 1].remove(temp));
        }
    }
}

/// A chunk whose storing succeeds is in its file, whole; no other file has changed but the
/// temporary one, which is gone; and the chunk has been counted once, with its size.
pub proof fn stored_chunk_is_in_place(h: StoreHistory, base: Seq<char>, id: Seq<char>, data: Seq<u8>)
    requires
        h.stores(base, id, data),
        h.runs.last().stage matches StoreStage::Finished(Ok(_)),
    ensures
        h.runs.last().stage == StoreStage::Finished(Ok(data.len() as u64)),
        h.files.last() == h.files[0].remove(storage::temp_file(base, id)).insert(storage::chunk_file(base, id), data),
        h.files.last().contains_key(storage::chunk_file(base, id)),
        h.files.last()[storage::chunk_file(base, id)] == data,
        h.states.last() == h.states[0].with_chunk(data.len() as u64),
        chunk_id::length_in_bounds(id),
        chunk_id::free_of_traversal(id),
        data.len() <= MAX_CHUNK_BYTES,
{
    h.holds(base, id, data, h.runs.len() - 1);
}

/// Success is owed: a chunk that is not refused, on a disk with room for it that does all it is
/// asked, is stored, whether or not there was a temporary file to remove.
pub proof fn healthy_store_succeeds(
    run: StoreRun,
    base: Seq<char>,
    id: Seq<char>,
    data: Seq<u8>,
    state: StorageState,
    available: u64,
    stale: StoreReply,
)
    requires
        storage::store_begun(run, base, id, data, state),
        storage::refusal(id, data.len(), state) is None,
        data.len() <= available,
        stale is Done,
    ensures
        ({
            let done = StoreReply::Done(Ok(()));
            let second = StoreRun { stage: run.stage_after(StoreReply::Space(Ok(available))), ..run };
            let third = StoreRun { stage: second.stage_after(stale), ..run };
            let fourth = StoreRun { stage: third.stage_after(done), ..run };
            fourth.stage_after(done) == StoreStage::Finished(Ok(data.len() as u64))
        }),
{
}

/// A chunk whose storing fails has not been counted, and no file but the temporary one has
/// changed: what was stored before, under any identifier, is still there.
pub proof fn failed_store_keeps_files(h: StoreHistory, base: Seq<char>, id: Seq<char>, data: Seq<u8>)
    requires
        h.stores(base, id, data),
        h.runs.last().stage matches StoreStage::Finished(Err(_)),
    ensures
        h.states.last() == h.states[0],
        h.files.last().remove(storage::temp_file(base, id)) == h.files[0].remove(storage::temp_file(base, id)),
{
    h.holds(base, id, data, h.runs.len() - 1);
}

/// Where the last thing a failed run did was to remove its temporary file, the file is gone.
pub proof fn failed_store_leaves_no_temp(h: StoreHistory, base: Seq<char>, id: Seq<char>, data: Seq<u8>)
    requires
        h.stores(base, id, data),
        h.replies.len() > 0,
        h.runs[h.runs.len() - 2].stage is DiscardTemp,
        h.replies.last() matches StoreReply::Done(Ok(_)),
    ensures
        h.runs.last().stage matches StoreStage::Finished(Err(_)),
        !h.files.last().contains_key(storage::temp_file(base, id)),
{
    let i = h.replies.len() - 1;
    h.holds(base, id, data, i);
    assert(h.step(i));
}

/// The limit is kept: where nothing else is stored meanwhile, the bytes in use after a chunk has
/// been stored are those before and those of the chunk, and within the limit.
pub proof fn store_keeps_limit(h: StoreHistory, base: Seq<char>, id: Seq<char>, data: Seq<u8>)
    requires
        h.stores(base, id, data),
        h.runs.last().stage matches StoreStage::Finished(Ok(_)),
        h.states[0].max_storage_bytes < u64::MAX,
    ensures
        h.states.last().current_used_space_bytes == h.states[0].current_used_space_bytes + data.len(),
        h.states.last().current_used_space_bytes <= h.states.last().max_storage_bytes,
        h.states.last().max_storage_bytes == h.states[0].max_storage_bytes,
{
    stored_chunk_is_in_place(h, base, id, data);
    h.holds(base, id, data, h.runs.len() - 1);
}

/// The name of a temporary file has no separator where the identifier has none.
proof fn temp_name_is_plain(id: Seq<char>)
    requires
        !id.contains('/'),
    ensures
        !(storage::temp_prefix() + id).contains('/'),
        (storage::temp_prefix() + id).len() == id.len() + 5,
{
    reveal_strlit(".tmp_");
    let name = storage::temp_prefix() + id;
    assert forall|i: int| 0 <= i < name.len() implies name[i] != '/' by {
        if i >= 5 {
            assert(name[i] == id[i - 5]);
            assert(id.contains(id[i - 5]));
        }
    }
}

/// The files a run of the store names lie in the storage directory: each is the path of the
/// directory, a separator, and a name without a separator that is not `..`.
pub proof fn store_stays_in_directory(base: Seq<char>, id: Seq<char>)
    requires
        base.len() > 0,
        chunk_id::free_of_traversal(id),
    ensures
        ({
            let cut = storage::chunk_file(base, id).len() - id.len();
            &&& base.is_prefix_of(storage::chunk_file(base, id))
            &&& 0 < cut <= base.len() + 1
            &&& storage::chunk_file(base, id)[cut - 1] == '/'
            &&& storage::chunk_file(base, id).skip(cut) == id
            &&& !id.contains('/')
            &&& id != seq!['.', '.']
        }),
        ({
            let name = storage::temp_prefix() + id;
            let cut = storage::temp_file(base, id).len() - name.len();
            &&& base.is_prefix_of(storage::temp_file(base, id))
            &&& 0 < cut <= base.len() + 1
            &&& storage::temp_file(base, id)[cut - 1] == '/'
            &&& storage::temp_file(base, id).skip(cut) == name
            &&& !name.contains('/')
        }),
        storage::chunk_file(base, id) != storage::temp_file(base, id),
{
    let name = storage::temp_prefix() + id;
    temp_name_is_plain(id);
    path::joined_name_stays_below(base, id);
    path::joined_name_stays_below(base, name);
    assert(id != seq!['.', '.']) by {
        if id == seq!['.', '.'] {
            assert(id[0] == '.' && id[1] == '.');
        }
    }
    assert(storage::chunk_file(base, id) != storage::temp_file(base, id)) by {
        if storage::chunk_file(base, id) == storage::temp_file(base, id) {
            path::joined_names_differ(base, id, base, name);
        }
    }
}

/// `reply` is what a disk with these files truly answers the stage of `run`, if it can.
pub open spec fn retrieve_answer(run: RetrieveRun, reply: RetrieveReply, files: Files) -> bool {
    match (run.stage, reply) {
        (RetrieveStage::CheckExists, RetrieveReply::Exists(Ok(found))) => found == files.contains_key(run.chunk_path@),
        (RetrieveStage::ReadFile, RetrieveReply::Data(Ok(data))) => {
            &&& files.contains_key(run.chunk_path@)
            &&& data@ == files[run.chunk_path@]
        },
        _ => true,
    }
}

/// Reading a chunk gives the contents of its file, or says that there is none, as long as the
/// disk can answer.
pub proof fn retrieve_reads_file(
    run: RetrieveRun,
    files: Files,
    base: Seq<char>,
    id: Seq<char>,
    found: bool,
    data: Vec<u8>,
)
    requires
        storage::retrieve_begun(run, base, id),
        retrieve_answer(run, RetrieveReply::Exists(Ok(found)), files),
        ({
            let second = RetrieveRun { stage: run.stage_after(RetrieveReply::Exists(Ok(found))), ..run };
            retrieve_answer(second, RetrieveReply::Data(Ok(data)), files)
        }),
    ensures
        ({
            let second = RetrieveRun { stage: run.stage_after(RetrieveReply::Exists(Ok(found))), ..run };
            if files.contains_key(storage::chunk_file(base, id)) {
                &&& second.stage is ReadFile
                &&& second.stage_after(RetrieveReply::Data(Ok(data))) == RetrieveStage::Finished(Ok(data))
                &&& data@ == files[storage::chunk_file(base, id)]
            } else {
                second.stage == RetrieveStage::Finished(Err(RetrieveError::NotFound { chunk_id: run.chunk_id }))
            }
        }),
{
}

/// What is stored is what is read: after a chunk has been stored, reading it gives its data.
pub proof fn stored_chunk_reads_back(
    h: StoreHistory,
    base: Seq<char>,
    id: Seq<char>,
    data: Seq<u8>,
    run: RetrieveRun,
    found: bool,
    read: Vec<u8>,
)
    requires
        h.stores(base, id, data),
        h.runs.last().stage matches StoreStage::Finished(Ok(_)),
        storage::retrieve_begun(run, base, id),
        retrieve_answer(run, RetrieveReply::Exists(Ok(found)), h.files.last()),
        ({
            let second = RetrieveRun { stage: run.stage_after(RetrieveReply::Exists(Ok(found))), ..run };
            retrieve_answer(second, RetrieveReply::Data(Ok(read)), h.files.last())
        }),
    ensures
        ({
            let second = RetrieveRun { stage: run.stage_after(RetrieveReply::Exists(Ok(found))), ..run };
            second.stage_after(RetrieveReply::Data(Ok(read))) == RetrieveStage::Finished(Ok(read))
        }),
        read@ == data,
{
    stored_chunk_is_in_place(h, base, id, data);
    retrieve_reads_file(run, h.files.last(), base, id, found, read);
}

/// Deleting undoes storing: a chunk that was stored where there was none before, and is then
/// deleted, leaves the counters as they were and the files as they were, but for a temporary
/// file an earlier run had left.
pub proof fn delete_undoes_store(
    h: StoreHistory,
    base: Seq<char>,
    id: Seq<char>,
    data: Seq<u8>,
    run: DeleteRun,
    size: u64,
)
    requires
        h.stores(base, id, data),
        h.runs.last().stage matches StoreStage::Finished(Ok(_)),
        !h.files[0].contains_key(storage::chunk_file(base, id)),
        storage::delete_begun(run, base, id),
        size == h.files.last()[storage::chunk_file(base, id)].len(),
    ensures
        ({
            let sized = DeleteReply::Size(Ok(size));
            let second = DeleteRun { stage: run.stage_after(sized), ..run };
            let removed = DeleteReply::Done(Ok(()));
            &&& run.state_after(sized, h.states.last()) == h.states.last()
            &&& second.expects(removed)
            &&& second.stage_after(removed) == DeleteStage::Finished(Ok(Some(data.len() as u64)))
            &&& second.state_after(removed, h.states.last()) == h.states[0]
        }),
        h.files.last().remove(storage::chunk_file(base, id)) == h.files[0].remove(storage::temp_file(base, id)),
{
    stored_chunk_is_in_place(h, base, id, data);
    assert(h.files.last().remove(storage::chunk_file(base, id)) =~= h.files[0].remove(storage::temp_file(base, id)));
    counter_sub_undoes_add(h.states[0].current_used_space_bytes, size);
    counter_sub_undoes_add(h.states[0].current_chunk_count, 1);
}

/// Taking off a counter what was put on it gives it back, even past the end of its range.
pub proof fn counter_sub_undoes_add(a: u64, b: u64)
    ensures
        storage::counter_sub(storage::counter_add(a, b), b) == a,
{
}

/// The bytes in the files of a directory.
pub open spec fn bytes_of(files: Files) -> nat
    decreases files.dom().len(),
    when files.dom().finite()
{
    if files.dom().len() == 0 {
        0
    } else {
        let p = files.dom().choose();
        files[p].len() + bytes_of(files.remove(p))
    }
}

/// `entries` is what a scan of a directory with these files gives: one entry per file, each with
/// the size of the file, in the order of `paths`.
pub open spec fn lists(entries: Seq<DirectoryEntry>, paths: Seq<Seq<char>>, files: Files) -> bool {
    &&& files.dom().finite()
    &&& entries.len() == paths.len()
    &&& paths.no_duplicates()
    &&& paths.to_set() == files.dom()
    &&& forall|i: int|
        0 <= i < paths.len() ==> (#[trigger] entries[i]).is_file && entries[i].size == Some(
            files[paths[i]].len() as u64,
        ) && files[paths[i]].len() <= u64::MAX
}

proof fn bytes_of_any(files: Files, p: Seq<char>)
    requires
        files.dom().finite(),
        files.contains_key(p),
    ensures
        bytes_of(files) == files[p].len() + bytes_of(files.remove(p)),
    decreases files.dom().len(),
{
    let q = files.dom().choose();
    if p != q {
        bytes_of_any(files.remove(q), p);
        bytes_of_any(files.remove(p), q);
        assert(files.remove(q).remove(p) =~= files.remove(p).remove(q));
    }
}

/// A scan of a directory gives the bytes and the number of the files in it.
pub proof fn scan_counts_files(entries: Seq<DirectoryEntry>, paths: Seq<Seq<char>>, files: Files)
    requires
        lists(entries, paths, files),
    ensures
        storage::bytes_in(entries) == bytes_of(files),
        storage::chunks_in(entries) == files.dom().len(),
    decreases entries.len(),
{
    if entries.len() > 0 {
        let p = paths.last();
        let rest = files.remove(p);
        let front = paths.drop_last();
        assert(paths =~= front.push(p));
        assert(paths.contains(p)) by {
            assert(paths[paths.len() - 1] == p);
        }
        assert(files.contains_key(p));
        assert(front.to_set() =~= rest.dom()) by {
            assert forall|q: Seq<char>| front.to_set().contains(q) implies rest.dom().contains(q) by {
                let i = choose|i: int| 0 <= i < front.len() && front[i] == q;
                assert(paths[i] == q);
                assert(paths.contains(q));
            }
            assert forall|q: Seq<char>| rest.dom().contains(q) implies front.to_set().contains(q) by {
                assert(paths.contains(q));
                let i = choose|i: int| 0 <= i < paths.len() && paths[i] == q;
                assert(front[i] == q);
            }
        }
        assert forall|i: int| 0 <= i < front.len() implies (#[trigger] entries.drop_last()[i]).is_file
            && entries.drop_last()[i].size == Some(rest[front[i]].len() as u64)
            && rest[front[i]].len() <= u64::MAX by {
            assert(entries.drop_last()[i] == entries[i]);
            assert(front[i] == paths[i]);
            assert(paths[i] != paths[paths.len() - 1]);
        }
        scan_counts_files(entries.drop_last(), front, rest);
        bytes_of_any(files, p);
    } else {
        assert(paths.to_set() =~= Set::<Seq<char>>::empty());
    }
}

/// The counters agree with a scan of the directory.
pub open spec fn counters_match(state: StorageState, files: Files) -> bool {
    &&& files.dom().finite()
    &&& state.current_used_space_bytes == bytes_of(files)
    &&& state.current_chunk_count == files.dom().len()
}

/// The counters stay in step with the directory: after a chunk has been stored where there was
/// none, a scan finds exactly what the counters say. (Storing over a chunk that is there, or over
/// a temporary file that was left, counts the bytes of the old file on.)
pub proof fn store_keeps_counters(h: StoreHistory, base: Seq<char>, id: Seq<char>, data: Seq<u8>)
    requires
        h.stores(base, id, data),
        h.runs.last().stage matches StoreStage::Finished(Ok(_)),
        !h.files[0].contains_key(storage::chunk_file(base, id)),
        !h.files[0].contains_key(storage::temp_file(base, id)),
        counters_match(h.states[0], h.files[0]),
        h.states[0].max_storage_bytes < u64::MAX,
        h.states[0].current_chunk_count < u64::MAX,
    ensures
        counters_match(h.states.last(), h.files.last()),
{
    stored_chunk_is_in_place(h, base, id, data);
    store_keeps_limit(h, base, id, data);
    let before = h.files[0];
    let after = h.files.last();
    let p = storage::chunk_file(base, id);
    assert(before.remove(storage::temp_file(base, id)) =~= before);
    assert(after.dom() =~= before.dom().insert(p));
    bytes_of_any(after, p);
    assert(after.remove(p) =~= before);
}

/// The counters stay in step with the directory when a chunk is deleted.
pub proof fn delete_keeps_counters(
    files: Files,
    state: StorageState,
    base: Seq<char>,
    id: Seq<char>,
    run: DeleteRun,
    size: u64,
)
    requires
        storage::delete_begun(run, base, id),
        files.contains_key(storage::chunk_file(base, id)),
        size == files[storage::chunk_file(base, id)].len(),
        counters_match(state, files),
    ensures
        ({
            let second = DeleteRun { stage: run.stage_after(DeleteReply::Size(Ok(size))), ..run };
            let removed = DeleteReply::Done(Ok(()));
            counters_match(second.state_after(removed, state), files.remove(storage::chunk_file(base, id)))
        }),
{
    let p = storage::chunk_file(base, id);
    bytes_of_any(files, p);
    assert(files.remove(p).dom() =~= files.dom().remove(p));
}

/// A name for a file of its own in any directory: it has between one and 255 bytes, no separator of
/// any system, and no two dots in a row.
pub open spec fn is_plain_name(id: Seq<char>) -> bool {
    &&& 1 <= id.len()
    &&& encode_utf8(id).len() <= 255
    &&& forall|i: int| 0 <= i < id.len() ==> #[trigger] id[i] != '/' && id[i] != '\\'
    &&& forall|i: int| 0 <= i < id.len() - 1 ==> !(#[trigger] id[i] == '.' && id[i + 1] == '.')
}

proof fn plain_name_is_storable(id: Seq<char>)
    ensures
        is_plain_name(id) <==> chunk_id::length_in_bounds(id) && chunk_id::free_of_traversal(id),
{
    if is_plain_name(id) {
        assert(!id.contains('/') && !id.contains('\\'));
    }
    if chunk_id::length_in_bounds(id) && chunk_id::free_of_traversal(id) {
        assert forall|i: int| 0 <= i < id.len() implies #[trigger] id[i] != '/' && id[i] != '\\' by {
            assert(id.contains(id[i]));
        }
    }
}

/// A chunk is taken on exactly when it has a plain name, is not larger than 1 GiB, and leaves the
/// bytes in use within the limit; a limit at the end of the range of a counter limits nothing.
pub proof fn chunk_is_taken_on_exactly_when_it_fits(
    run: StoreRun,
    base: Seq<char>,
    id: Seq<char>,
    data: Seq<u8>,
    state: StorageState,
)
    requires
        storage::store_begun(run, base, id, data, state),
    ensures
        run.stage is MeasureDisk <==> {
            &&& is_plain_name(id)
            &&& data.len() <= 1024 * 1024 * 1024
            &&& state.current_used_space_bytes + data.len() <= state.max_storage_bytes || state.max_storage_bytes
                == u64::MAX
        },
        !(run.stage is MeasureDisk) ==> run.stage matches StoreStage::Finished(Err(_)),
{
    plain_name_is_storable(id);
    assert(run.data.len() == data.len());
}

/// A refusal is for the reason it gives: each of the four is given exactly when it holds and none
/// of those before it does.
pub proof fn refusal_gives_its_reason(
    run: StoreRun,
    base: Seq<char>,
    id: Seq<char>,
    data: Seq<u8>,
    state: StorageState,
    e: StoreError,
)
    requires
        storage::store_begun(run, base, id, data, state),
        run.stage == StoreStage::Finished(Err(e)),
    ensures
        match e {
            StoreError::IdLength => id.len() == 0 || encode_utf8(id).len() > 255,
            StoreError::IdTraversal => id.len() > 0 && encode_utf8(id).len() <= 255 && !is_plain_name(id),
            StoreError::TooLarge { size } => is_plain_name(id) && size == data.len() && size > 1024 * 1024 * 1024,
            StoreError::LimitReached { size, used, max } => {
                &&& is_plain_name(id)
                &&& size == data.len() && size <= 1024 * 1024 * 1024
                &&& used == state.current_used_space_bytes && max == state.max_storage_bytes
                &&& used + size > max
            },
            _ => false,
        },
{
    plain_name_is_storable(id);
    assert(run.data.len() == data.len());
}

/// Success is owed: a chunk with a plain name that is not larger than 1 GiB and leaves the bytes in
/// use within the limit, on a disk with room for it that does all it is asked, is stored and
/// counted with its size, whatever that is and whatever the limit is.
pub proof fn chunk_within_the_limit_is_stored(
    h: StoreHistory,
    base: Seq<char>,
    id: Seq<char>,
    data: Seq<u8>,
    available: u64,
)
    requires
        h.stores(base, id, data),
        is_plain_name(id),
        data.len() <= 1024 * 1024 * 1024,
        h.states[0].current_used_space_bytes + data.len() <= h.states[0].max_storage_bytes,
        data.len() <= available,
        h.replies.len() == 4,
        h.replies[0] == StoreReply::Space(Ok(available)),
        h.replies[2] == StoreReply::Done(Ok(())),
        h.replies[3] == StoreReply::Done(Ok(())),
    ensures
        h.runs.last().stage == StoreStage::Finished(Ok(data.len() as u64)),
        h.files.last().contains_key(path::joined(base, id)),
        h.files.last()[path::joined(base, id)] == data,
        h.states.last().current_used_space_bytes == h.states[0].current_used_space_bytes + data.len(),
        h.states[0].current_chunk_count < u64::MAX ==> h.states.last().current_chunk_count
            == h.states[0].current_chunk_count + 1,
        h.states.last().max_storage_bytes == h.states[0].max_storage_bytes,
{
    plain_name_is_storable(id);
    assert(h.step(0) && h.step(1) && h.step(2) && h.step(3));
    stored_chunk_is_in_place(h, base, id, data);
}

/// The end of a store that was taken on is told by the answers of the disk: it succeeds exactly
/// when there was room and the file was written and moved into place, and every failure names the
/// answer that caused it. A file that was begun and not completed is discarded before the end.
pub proof fn store_ends_as_the_disk_answers(
    h: StoreHistory,
    base: Seq<char>,
    id: Seq<char>,
    data: Seq<u8>,
    result: Result<u64, StoreError>,
)
    requires
        h.stores(base, id, data),
        h.runs[0].stage is MeasureDisk,
        h.runs.last().stage == StoreStage::Finished(result),
    ensures
        h.replies.len() >= 1,
        h.replies.len() == 1 || h.replies.len() == 4 || h.replies.len() == 5,
        h.replies[0] is Space,
        result is Ok <==> {
            &&& h.replies[0] matches StoreReply::Space(Ok(available)) && data.len() <= available
            &&& h.replies.len() == 4
            &&& h.replies[2] matches StoreReply::Done(Ok(_))
            &&& h.replies[3] matches StoreReply::Done(Ok(_))
        },
        match result {
            Ok(size) => size == data.len(),
            Err(StoreError::DiskFull { size, available }) => {
                &&& h.replies[0] == StoreReply::Space(Ok(available))
                &&& size == data.len() && size > available
            },
            Err(StoreError::DiskUnknown { error }) => h.replies[0] == StoreReply::Space(Err(error)),
            Err(StoreError::Write { chunk_id, reason }) => {
                &&& h.replies.len() == 4
                &&& chunk_id@ == id
                &&& h.replies[2] matches StoreReply::Done(Err(failure)) && reason == failure.text
                &&& h.runs[3].stage is DiscardTemp
            },
            Err(StoreError::AlreadyExists { chunk_id }) => {
                &&& h.replies.len() == 5
                &&& chunk_id@ == id
                &&& h.replies[3] matches StoreReply::Done(Err(failure)) && failure.kind == IoKind::AlreadyExists
                &&& h.runs[4].stage is DiscardTemp
            },
            Err(StoreError::Finalize { reason }) => {
                &&& h.replies.len() == 5
                &&& h.replies[3] matches StoreReply::Done(Err(failure)) && failure.kind != IoKind::AlreadyExists
                    && reason == failure.text
                &&& h.runs[4].stage is DiscardTemp
            },
            Err(_) => false,
        },
{
    assert(h.runs[0].data.len() == data.len());
    let n = h.replies.len();
    assert(n > 0);
    assert(h.step(0));
    if n > 1 {
        assert(h.step(1));
    }
    if n > 2 {
        assert(h.step(2));
    }
    if n > 3 {
        assert(h.step(3));
    }
    if n > 4 {
        assert(h.step(4));
    }
    if n > 5 {
        assert(h.step(5));
    }
}

/// Whatever is held is read: with a disk that says whether the file is there and then reads it,
/// the result is the contents of the file at the place of the chunk, of any size. Nothing but the
/// disk can make a chunk missing or unreadable.
pub proof fn held_chunk_is_read(
    run: RetrieveRun,
    base: Seq<char>,
    id: Seq<char>,
    found: Result<bool, IoFailure>,
    read: Result<Vec<u8>, IoFailure>,
)
    requires
        storage::retrieve_begun(run, base, id),
    ensures
        run.chunk_path@ == path::joined(base, id),
        ({
            let second = run.stage_after(RetrieveReply::Exists(found));
            let third = (RetrieveRun { stage: second, ..run }).stage_after(RetrieveReply::Data(read));
            if found == Ok::<bool, IoFailure>(true) {
                &&& second is ReadFile
                &&& match read {
                    Ok(data) => third == RetrieveStage::Finished(Ok(data)),
                    Err(_) => third matches RetrieveStage::Finished(Err(RetrieveError::Read { chunk_id }))
                        && chunk_id@ == id,
                }
            } else {
                second matches RetrieveStage::Finished(Err(RetrieveError::NotFound { chunk_id })) && chunk_id@ == id
            }
        }),
{
}

/// What is held is deleted: where the disk tells the size of the file and removes it, the result is
/// that size and the counters lose exactly that and one chunk. Where there is no file that is no
/// error, and wherever no file was removed the counters stay.
pub proof fn held_chunk_is_deleted(
    run: DeleteRun,
    base: Seq<char>,
    id: Seq<char>,
    sized: Result<u64, IoFailure>,
    removed: Result<(), IoFailure>,
    state: StorageState,
)
    requires
        storage::delete_begun(run, base, id),
    ensures
        run.chunk_path@ == path::joined(base, id),
        run.state_after(DeleteReply::Size(sized), state) == state,
        ({
            let second = run.stage_after(DeleteReply::Size(sized));
            let later = DeleteRun { stage: second, ..run };
            let third = later.stage_after(DeleteReply::Done(removed));
            let after = later.state_after(DeleteReply::Done(removed), state);
            match (sized, removed) {
                (Ok(size), Ok(_)) => {
                    &&& second is RemoveFile
                    &&& third == DeleteStage::Finished(Ok(Some(size)))
                    &&& size <= state.current_used_space_bytes ==> after.current_used_space_bytes
                        == state.current_used_space_bytes - size
                    &&& 1 <= state.current_chunk_count ==> after.current_chunk_count == state.current_chunk_count - 1
                    &&& after.max_storage_bytes == state.max_storage_bytes
                },
                (Ok(_), Err(_)) => {
                    &&& second is RemoveFile
                    &&& third matches DeleteStage::Finished(Err(DeleteError::Remove { chunk_path })) && chunk_path@
                        == path::joined(base, id)
                    &&& after == state
                },
                (Err(failure), _) => if failure.kind == IoKind::NotFound {
                    second == DeleteStage::Finished(Ok(None))
                } else {
                    second matches DeleteStage::Finished(Err(DeleteError::Metadata { chunk_id, reason })) && chunk_id@
                        == id && reason == failure.text
                },
            }
        }),
{
}

/// A scan counts each file whose size is known once, with its size, and nothing else.
pub proof fn entry_is_counted_once(entries: Seq<DirectoryEntry>, entry: DirectoryEntry)
    ensures
        storage::bytes_in(Seq::<DirectoryEntry>::empty()) == 0,
        storage::chunks_in(Seq::<DirectoryEntry>::empty()) == 0,
        ({
            let more = entries.push(entry);
            match entry.size {
                Some(size) => if entry.is_file {
                    &&& storage::bytes_in(more) == storage::bytes_in(entries) + size
                    &&& storage::chunks_in(more) == storage::chunks_in(entries) + 1
                } else {
                    &&& storage::bytes_in(more) == storage::bytes_in(entries)
                    &&& storage::chunks_in(more) == storage::chunks_in(entries)
                },
                None => {
                    &&& storage::bytes_in(more) == storage::bytes_in(entries)
                    &&& storage::chunks_in(more) == storage::chunks_in(entries)
                },
            }
        }),
{
    assert(entries.push(entry).drop_last() =~= entries);
}

} // verus!
