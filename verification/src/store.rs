//! The entity store: one keyed table per entity kind, with upsert-on-conflict
//! semantics.  An upsert replaces every non-key field of the row holding its
//! key, or appends a new row; it never merges field by field.  The batch
//! operations are atomic: a rejected batch leaves every table untouched.

use crate::dates::{all_periods_ok, periods_valid};
use crate::models::{
    blob_views, diary_views, image_views, meta_views, period_meta_views, period_views, ref_views,
    string_views, todo_views, DiaryImageRefItem, DiaryImageSyncItem, DiarySyncItem, DiaryV,
    EncryptedBlob, ImageBlobItem, ImageBlobV, ImageFetchResponse, ImageHashListResponse,
    ImageRefsResponse, ImageRefsUpsertRequest, ImageUploadRequest, ImageV, MetaV, PeriodMeta,
    PeriodMetaV, PeriodSyncItem, PeriodV, RefV, SyncCounts, SyncMeta, SyncMetaResponse,
    SyncUploadRequest, SyncUploadResponse, TodoSyncItem, TodoV,
};
use crate::table::{
    apply_by, lemma_apply_snoc, lemma_apply_unique, lemma_lookup_at_first, lemma_lookup_none,
    lemma_upsert_appends, lemma_upsert_updates, lookup_by, unique_keys, upsert_by,
};
use vstd::prelude::*;

verus! {

// ---------------------------------------------------------------------------
// Key projections.  Each table's rows are keyed by one of these.
// ---------------------------------------------------------------------------
pub open spec fn diary_keyf() -> spec_fn(DiaryV) -> Seq<char> {
    |d: DiaryV| d.uuid
}

pub open spec fn todo_keyf() -> spec_fn(TodoV) -> Seq<char> {
    |t: TodoV| t.uuid
}

pub open spec fn period_keyf() -> spec_fn(PeriodV) -> Seq<char> {
    |p: PeriodV| p.start_date
}

pub open spec fn blob_keyf() -> spec_fn(ImageBlobV) -> Seq<char> {
    |b: ImageBlobV| b.hash
}

pub open spec fn ref_keyf() -> spec_fn(RefV) -> (Seq<char>, Seq<char>) {
    |r: RefV| (r.diary_uuid, r.file_name)
}

// ---------------------------------------------------------------------------
// The blob and reference rows an uploaded image decomposes into.
// ---------------------------------------------------------------------------
pub open spec fn blob_of(i: ImageV) -> ImageBlobV {
    ImageBlobV { hash: i.hash, iv: i.blob.iv, data: i.blob.data, updated_at: i.updated_at }
}

pub open spec fn ref_of(i: ImageV) -> RefV {
    RefV {
        diary_uuid: i.diary_uuid,
        file_name: i.file_name,
        hash: i.hash,
        updated_at: i.updated_at,
    }
}

pub open spec fn blobs_of(s: Seq<ImageV>) -> Seq<ImageBlobV> {
    s.map_values(|i: ImageV| blob_of(i))
}

pub open spec fn refs_of(s: Seq<ImageV>) -> Seq<RefV> {
    s.map_values(|i: ImageV| ref_of(i))
}

// ---------------------------------------------------------------------------
// Projections a summary or listing returns.
// ---------------------------------------------------------------------------
pub open spec fn diary_metas(s: Seq<DiaryV>) -> Seq<MetaV> {
    s.map_values(|d: DiaryV| MetaV { uuid: d.uuid, updated_at: d.updated_at })
}

pub open spec fn todo_metas(s: Seq<TodoV>) -> Seq<MetaV> {
    s.map_values(|t: TodoV| MetaV { uuid: t.uuid, updated_at: t.updated_at })
}

pub open spec fn period_metas(s: Seq<PeriodV>) -> Seq<PeriodMetaV> {
    s.map_values(|p: PeriodV| PeriodMetaV { start_date: p.start_date, updated_at: p.updated_at })
}

pub open spec fn hashes_of(s: Seq<ImageBlobV>) -> Seq<Seq<char>> {
    s.map_values(|b: ImageBlobV| b.hash)
}

// ---------------------------------------------------------------------------
// What each operation promises, named once and shared by the store's methods
// and the credential-checked entry points.
// ---------------------------------------------------------------------------
/// What one upload batch does.  A well-dated batch is applied whole: every
/// item of every kind upserted in order, the counts reporting the batch's
/// sizes.  A batch with a malformed period date commits nothing and fails
/// with zeroed counts: no partial batch is ever visible.
pub open spec fn upload_post(
    pre: StoreV,
    post: StoreV,
    req: SyncUploadRequest,
    resp: SyncUploadResponse,
) -> bool {
    if all_periods_ok(period_views(req.periods@)) {
        &&& post.diaries == apply_by(pre.diaries, diary_keyf(), diary_views(req.diaries@))
        &&& post.todos == apply_by(pre.todos, todo_keyf(), todo_views(req.todos@))
        &&& post.periods == apply_by(pre.periods, period_keyf(), period_views(req.periods@))
        &&& post.image_blobs == apply_by(
            pre.image_blobs,
            blob_keyf(),
            blobs_of(image_views(req.images@)),
        )
        &&& post.image_refs == apply_by(
            pre.image_refs,
            ref_keyf(),
            refs_of(image_views(req.images@)),
        )
        &&& resp.ok
        &&& resp.message@ == "ok"@
        &&& resp.counts.diaries == req.diaries@.len()
        &&& resp.counts.todos == req.todos@.len()
        &&& resp.counts.periods == req.periods@.len()
        &&& resp.counts.images == req.images@.len()
    } else {
        &&& post == pre
        &&& !resp.ok
        &&& resp.message@ == "invalid period date"@
        &&& resp.counts.diaries == 0
        &&& resp.counts.todos == 0
        &&& resp.counts.periods == 0
        &&& resp.counts.images == 0
    }
}

/// What one image-blob batch does: every blob upserted by its content hash;
/// everything else untouched.
pub open spec fn image_upload_post(pre: StoreV, post: StoreV, req: ImageUploadRequest) -> bool {
    &&& post.image_blobs == apply_by(
        pre.image_blobs,
        blob_keyf(),
        blobs_of(image_views(req.images@)),
    )
    &&& post.diaries == pre.diaries
    &&& post.todos == pre.todos
    &&& post.periods == pre.periods
    &&& post.image_refs == pre.image_refs
}

/// What one image-reference batch does: every reference upserted by its
/// compound key; everything else untouched.
pub open spec fn image_refs_upsert_post(
    pre: StoreV,
    post: StoreV,
    req: ImageRefsUpsertRequest,
) -> bool {
    &&& post.image_refs == apply_by(pre.image_refs, ref_keyf(), ref_views(req.refs@))
    &&& post.diaries == pre.diaries
    &&& post.todos == pre.todos
    &&& post.periods == pre.periods
    &&& post.image_blobs == pre.image_blobs
}

/// What the metadata summary returns: every (key, updatedAt) pair of all
/// three payload-bearing kinds, unfiltered and in storage order.
pub open spec fn meta_post(store: StoreV, resp: SyncMetaResponse) -> bool {
    &&& meta_views(resp.diaries@) == diary_metas(store.diaries)
    &&& meta_views(resp.todos@) == todo_metas(store.todos)
    &&& period_meta_views(resp.periods@) == period_metas(store.periods)
}

/// What the hash listing returns: every stored content hash, in order.
pub open spec fn hashes_post(store: StoreV, resp: ImageHashListResponse) -> bool {
    string_views(resp.hashes@) == hashes_of(store.image_blobs)
}

/// What the reference listing returns: the full reference manifest, in order.
pub open spec fn refs_list_post(store: StoreV, resp: ImageRefsResponse) -> bool {
    ref_views(resp.refs@) == store.image_refs
}

/// What an image fetch returns: the joined reference and blob when both
/// exist, and nothing when the pair is unknown or the reference dangles.
pub open spec fn fetch_post(
    store: StoreV,
    diary_uuid: Seq<char>,
    file_name: Seq<char>,
    r: Option<ImageFetchResponse>,
) -> bool {
    match r {
        None => fetch_spec(store.image_blobs, store.image_refs, diary_uuid, file_name) is None,
        Some(resp) => {
            let fs = fetch_spec(store.image_blobs, store.image_refs, diary_uuid, file_name);
            let pair = fs->0;
            let rv = pair.0;
            let bv = pair.1;
            &&& fs is Some
            &&& resp.diaryUuid@ == rv.diary_uuid
            &&& resp.fileName@ == rv.file_name
            &&& resp.hash@ == rv.hash
            &&& resp.updatedAt == rv.updated_at
            &&& resp.blob.iv@ == bv.iv
            &&& resp.blob.data@ == bv.data
        },
    }
}

/// What fetching an image by its reference key yields: the reference found
/// under `(diary_uuid, file_name)` joined with the blob its hash points at;
/// nothing when either is missing.
pub open spec fn fetch_spec(
    blobs: Seq<ImageBlobV>,
    refs: Seq<RefV>,
    diary_uuid: Seq<char>,
    file_name: Seq<char>,
) -> Option<(RefV, ImageBlobV)> {
    match lookup_by(refs, ref_keyf(), (diary_uuid, file_name)) {
        None => None,
        Some(r) => match lookup_by(blobs, blob_keyf(), r.hash) {
            None => None,
            Some(b) => Some((r, b)),
        },
    }
}

// ---------------------------------------------------------------------------
// The store and its model.
// ---------------------------------------------------------------------------
/// The mathematical state of the store: five keyed tables.
pub struct StoreV {
    pub diaries: Seq<DiaryV>,
    pub todos: Seq<TodoV>,
    pub periods: Seq<PeriodV>,
    pub image_blobs: Seq<ImageBlobV>,
    pub image_refs: Seq<RefV>,
}

impl StoreV {
    /// Well-formedness: within each table, keys are pairwise distinct.
    pub open spec fn wf(self) -> bool {
        &&& unique_keys(self.diaries, diary_keyf())
        &&& unique_keys(self.todos, todo_keyf())
        &&& unique_keys(self.periods, period_keyf())
        &&& unique_keys(self.image_blobs, blob_keyf())
        &&& unique_keys(self.image_refs, ref_keyf())
    }
}

/// The entity store.
pub struct SyncStore {
    pub diaries: Vec<DiarySyncItem>,
    pub todos: Vec<TodoSyncItem>,
    pub periods: Vec<PeriodSyncItem>,
    pub image_blobs: Vec<ImageBlobItem>,
    pub image_refs: Vec<DiaryImageRefItem>,
}

impl View for SyncStore {
    type V = StoreV;

    open spec fn view(&self) -> StoreV {
        StoreV {
            diaries: diary_views(self.diaries@),
            todos: todo_views(self.todos@),
            periods: period_views(self.periods@),
            image_blobs: blob_views(self.image_blobs@),
            image_refs: ref_views(self.image_refs@),
        }
    }
}

// ---------------------------------------------------------------------------
// Row location: the index of the first row holding a key, if any.
// ---------------------------------------------------------------------------
fn find_diary_index(v: &Vec<DiarySyncItem>, uuid: &String) -> (r: Option<usize>)
    ensures
        match r {
            Some(i) => i < v@.len() && diary_views(v@)[i as int].uuid == uuid@ && (forall|j: int|
                0 <= j < i ==> diary_views(v@)[j].uuid != uuid@),
            None => forall|j: int| 0 <= j < v@.len() ==> diary_views(v@)[j].uuid != uuid@,
        },
{
    let mut i: usize = 0;
    while i < v.len()
        invariant
            i <= v.len(),
            forall|j: int| 0 <= j < i ==> diary_views(v@)[j].uuid != uuid@,
        decreases v.len() - i,
    {
        if v[i].uuid == *uuid {
            return Some(i);
        }
        i = i + 1;
    }
    None
}

fn find_todo_index(v: &Vec<TodoSyncItem>, uuid: &String) -> (r: Option<usize>)
    ensures
        match r {
            Some(i) => i < v@.len() && todo_views(v@)[i as int].uuid == uuid@ && (forall|j: int|
                0 <= j < i ==> todo_views(v@)[j].uuid != uuid@),
            None => forall|j: int| 0 <= j < v@.len() ==> todo_views(v@)[j].uuid != uuid@,
        },
{
    let mut i: usize = 0;
    while i < v.len()
        invariant
            i <= v.len(),
            forall|j: int| 0 <= j < i ==> todo_views(v@)[j].uuid != uuid@,
        decreases v.len() - i,
    {
        if v[i].uuid == *uuid {
            return Some(i);
        }
        i = i + 1;
    }
    None
}

fn find_period_index(v: &Vec<PeriodSyncItem>, start_date: &String) -> (r: Option<usize>)
    ensures
        match r {
            Some(i) => i < v@.len() && period_views(v@)[i as int].start_date == start_date@ && (
            forall|j: int| 0 <= j < i ==> period_views(v@)[j].start_date != start_date@),
            None => forall|j: int|
                0 <= j < v@.len() ==> period_views(v@)[j].start_date != start_date@,
        },
{
    let mut i: usize = 0;
    while i < v.len()
        invariant
            i <= v.len(),
            forall|j: int| 0 <= j < i ==> period_views(v@)[j].start_date != start_date@,
        decreases v.len() - i,
    {
        if v[i].startDate == *start_date {
            return Some(i);
        }
        i = i + 1;
    }
    None
}

fn find_blob_index(v: &Vec<ImageBlobItem>, hash: &String) -> (r: Option<usize>)
    ensures
        match r {
            Some(i) => i < v@.len() && blob_views(v@)[i as int].hash == hash@ && (forall|j: int|
                0 <= j < i ==> blob_views(v@)[j].hash != hash@),
            None => forall|j: int| 0 <= j < v@.len() ==> blob_views(v@)[j].hash != hash@,
        },
{
    let mut i: usize = 0;
    while i < v.len()
        invariant
            i <= v.len(),
            forall|j: int| 0 <= j < i ==> blob_views(v@)[j].hash != hash@,
        decreases v.len() - i,
    {
        if v[i].hash == *hash {
            return Some(i);
        }
        i = i + 1;
    }
    None
}

fn find_ref_index(v: &Vec<DiaryImageRefItem>, diary_uuid: &String, file_name: &String) -> (r:
    Option<usize>)
    ensures
        match r {
            Some(i) => i < v@.len() && ref_views(v@)[i as int].diary_uuid == diary_uuid@
                && ref_views(v@)[i as int].file_name == file_name@ && (forall|j: int|
                0 <= j < i ==> (ref_views(v@)[j].diary_uuid, ref_views(v@)[j].file_name) != (
                diary_uuid@,
                file_name@,
                )),
            None => forall|j: int|
                0 <= j < v@.len() ==> (ref_views(v@)[j].diary_uuid, ref_views(v@)[j].file_name)
                    != (diary_uuid@, file_name@),
        },
{
    let mut i: usize = 0;
    while i < v.len()
        invariant
            i <= v.len(),
            forall|j: int|
                0 <= j < i ==> (ref_views(v@)[j].diary_uuid, ref_views(v@)[j].file_name) != (
                diary_uuid@,
                file_name@,
                ),
        decreases v.len() - i,
    {
        if v[i].diaryUuid == *diary_uuid && v[i].fileName == *file_name {
            return Some(i);
        }
        i = i + 1;
    }
    None
}

// ---------------------------------------------------------------------------
// The store's operations.
// ---------------------------------------------------------------------------
impl SyncStore {
    /// An empty store; trivially well-formed.
    pub fn new() -> (s: SyncStore)
        ensures
            s@.diaries == Seq::<DiaryV>::empty(),
            s@.todos == Seq::<TodoV>::empty(),
            s@.periods == Seq::<PeriodV>::empty(),
            s@.image_blobs == Seq::<ImageBlobV>::empty(),
            s@.image_refs == Seq::<RefV>::empty(),
            s@.wf(),
    {
        let s = SyncStore {
            diaries: Vec::new(),
            todos: Vec::new(),
            periods: Vec::new(),
            image_blobs: Vec::new(),
            image_refs: Vec::new(),
        };
        proof {
            assert(s@.diaries =~= Seq::<DiaryV>::empty());
            assert(s@.todos =~= Seq::<TodoV>::empty());
            assert(s@.periods =~= Seq::<PeriodV>::empty());
            assert(s@.image_blobs =~= Seq::<ImageBlobV>::empty());
            assert(s@.image_refs =~= Seq::<RefV>::empty());
        }
        s
    }

    /// Upsert one diary row by `uuid`.
    pub fn upsert_diary(&mut self, item: DiarySyncItem)
        ensures
            final(self)@.diaries == upsert_by(old(self)@.diaries, diary_keyf(), item@),
            final(self)@.todos == old(self)@.todos,
            final(self)@.periods == old(self)@.periods,
            final(self)@.image_blobs == old(self)@.image_blobs,
            final(self)@.image_refs == old(self)@.image_refs,
    {
        let ghost s0 = diary_views(self.diaries@);
        match find_diary_index(&self.diaries, &item.uuid) {
            Some(i) => {
                self.diaries.set(i, item);
                proof {
                    assert(diary_views(self.diaries@) =~= s0.update(i as int, item@));
                    lemma_upsert_updates(s0, diary_keyf(), item@, i as int);
                }
            },
            None => {
                self.diaries.push(item);
                proof {
                    assert(diary_views(self.diaries@) =~= s0.push(item@));
                    lemma_upsert_appends(s0, diary_keyf(), item@);
                }
            },
        }
    }

    /// Upsert one todo row by `uuid`.
    pub fn upsert_todo(&mut self, item: TodoSyncItem)
        ensures
            final(self)@.todos == upsert_by(old(self)@.todos, todo_keyf(), item@),
            final(self)@.diaries == old(self)@.diaries,
            final(self)@.periods == old(self)@.periods,
            final(self)@.image_blobs == old(self)@.image_blobs,
            final(self)@.image_refs == old(self)@.image_refs,
    {
        let ghost s0 = todo_views(self.todos@);
        match find_todo_index(&self.todos, &item.uuid) {
            Some(i) => {
                self.todos.set(i, item);
                proof {
                    assert(todo_views(self.todos@) =~= s0.update(i as int, item@));
                    lemma_upsert_updates(s0, todo_keyf(), item@, i as int);
                }
            },
            None => {
                self.todos.push(item);
                proof {
                    assert(todo_views(self.todos@) =~= s0.push(item@));
                    lemma_upsert_appends(s0, todo_keyf(), item@);
                }
            },
        }
    }

    /// Upsert one period row by `startDate`.
    pub fn upsert_period(&mut self, item: PeriodSyncItem)
        ensures
            final(self)@.periods == upsert_by(old(self)@.periods, period_keyf(), item@),
            final(self)@.diaries == old(self)@.diaries,
            final(self)@.todos == old(self)@.todos,
            final(self)@.image_blobs == old(self)@.image_blobs,
            final(self)@.image_refs == old(self)@.image_refs,
    {
        let ghost s0 = period_views(self.periods@);
        match find_period_index(&self.periods, &item.startDate) {
            Some(i) => {
                self.periods.set(i, item);
                proof {
                    assert(period_views(self.periods@) =~= s0.update(i as int, item@));
                    lemma_upsert_updates(s0, period_keyf(), item@, i as int);
                }
            },
            None => {
                self.periods.push(item);
                proof {
                    assert(period_views(self.periods@) =~= s0.push(item@));
                    lemma_upsert_appends(s0, period_keyf(), item@);
                }
            },
        }
    }

    /// Upsert one image-blob row by content `hash`.
    pub fn upsert_image_blob(&mut self, item: ImageBlobItem)
        ensures
            final(self)@.image_blobs == upsert_by(old(self)@.image_blobs, blob_keyf(), item@),
            final(self)@.diaries == old(self)@.diaries,
            final(self)@.todos == old(self)@.todos,
            final(self)@.periods == old(self)@.periods,
            final(self)@.image_refs == old(self)@.image_refs,
    {
        let ghost s0 = blob_views(self.image_blobs@);
        match find_blob_index(&self.image_blobs, &item.hash) {
            Some(i) => {
                self.image_blobs.set(i, item);
                proof {
                    assert(blob_views(self.image_blobs@) =~= s0.update(i as int, item@));
                    lemma_upsert_updates(s0, blob_keyf(), item@, i as int);
                }
            },
            None => {
                self.image_blobs.push(item);
                proof {
                    assert(blob_views(self.image_blobs@) =~= s0.push(item@));
                    lemma_upsert_appends(s0, blob_keyf(), item@);
                }
            },
        }
    }

    /// Upsert one image-reference row by `(diaryUuid, fileName)`.
    pub fn upsert_image_ref(&mut self, item: DiaryImageRefItem)
        ensures
            final(self)@.image_refs == upsert_by(old(self)@.image_refs, ref_keyf(), item@),
            final(self)@.diaries == old(self)@.diaries,
            final(self)@.todos == old(self)@.todos,
            final(self)@.periods == old(self)@.periods,
            final(self)@.image_blobs == old(self)@.image_blobs,
    {
        let ghost s0 = ref_views(self.image_refs@);
        match find_ref_index(&self.image_refs, &item.diaryUuid, &item.fileName) {
            Some(i) => {
                self.image_refs.set(i, item);
                proof {
                    assert(ref_views(self.image_refs@) =~= s0.update(i as int, item@));
                    lemma_upsert_updates(s0, ref_keyf(), item@, i as int);
                }
            },
            None => {
                self.image_refs.push(item);
                proof {
                    assert(ref_views(self.image_refs@) =~= s0.push(item@));
                    lemma_upsert_appends(s0, ref_keyf(), item@);
                }
            },
        }
    }

    /// Upsert one uploaded image: the blob by its hash, then the reference by
    /// its compound key, both pointing at that hash.
    pub fn upsert_image(&mut self, item: &DiaryImageSyncItem)
        ensures
            final(self)@.image_blobs == upsert_by(
                old(self)@.image_blobs,
                blob_keyf(),
                blob_of(item@),
            ),
            final(self)@.image_refs == upsert_by(old(self)@.image_refs, ref_keyf(), ref_of(item@)),
            final(self)@.diaries == old(self)@.diaries,
            final(self)@.todos == old(self)@.todos,
            final(self)@.periods == old(self)@.periods,
    {
        let blob_row = ImageBlobItem {
            hash: item.hash.clone(),
            iv: item.blob.iv.clone(),
            data: item.blob.data.clone(),
            updatedAt: item.updatedAt,
        };
        assert(blob_row@ == blob_of(item@));
        self.upsert_image_blob(blob_row);
        let ref_row = DiaryImageRefItem {
            diaryUuid: item.diaryUuid.clone(),
            fileName: item.fileName.clone(),
            hash: item.hash.clone(),
            updatedAt: item.updatedAt,
        };
        assert(ref_row@ == ref_of(item@));
        self.upsert_image_ref(ref_row);
    }

    /// Apply one upload batch atomically.  A period whose start or end date
    /// is not a calendar date condemns the whole batch: nothing is committed
    /// and the failure carries zeroed counts.  Otherwise every item of every
    /// kind is upserted in order and the counts report the batch's sizes.
    pub fn upload_batch(&mut self, req: &SyncUploadRequest) -> (resp: SyncUploadResponse)
        ensures
            upload_post(old(self)@, final(self)@, *req, resp),
            old(self)@.wf() ==> final(self)@.wf(),
    {
        if !periods_valid(&req.periods) {
            return SyncUploadResponse {
                ok: false,
                message: "invalid period date".to_owned(),
                counts: SyncCounts { diaries: 0, todos: 0, periods: 0, images: 0 },
            };
        }
        let ghost st0 = self@;
        let dv = Ghost(diary_views(req.diaries@));
        let mut i: usize = 0;
        while i < req.diaries.len()
            invariant
                i <= req.diaries.len(),
                dv@ == diary_views(req.diaries@),
                self@.diaries == apply_by(st0.diaries, diary_keyf(), dv@.take(i as int)),
                self@.todos == st0.todos,
                self@.periods == st0.periods,
                self@.image_blobs == st0.image_blobs,
                self@.image_refs == st0.image_refs,
            decreases req.diaries.len() - i,
        {
            let item = req.diaries[i].clone();
            proof {
                assert(item@ == dv@[i as int]);
                assert(dv@.take(i as int + 1) =~= dv@.take(i as int).push(dv@[i as int]));
                lemma_apply_snoc(st0.diaries, diary_keyf(), dv@.take(i as int), dv@[i as int]);
            }
            self.upsert_diary(item);
            i = i + 1;
        }
        proof {
            assert(dv@.take(req.diaries@.len() as int) =~= dv@);
        }
        let ghost st1 = self@;
        let tv = Ghost(todo_views(req.todos@));
        let mut i: usize = 0;
        while i < req.todos.len()
            invariant
                i <= req.todos.len(),
                tv@ == todo_views(req.todos@),
                self@.todos == apply_by(st1.todos, todo_keyf(), tv@.take(i as int)),
                self@.diaries == st1.diaries,
                self@.periods == st1.periods,
                self@.image_blobs == st1.image_blobs,
                self@.image_refs == st1.image_refs,
            decreases req.todos.len() - i,
        {
            let item = req.todos[i].clone();
            proof {
                assert(item@ == tv@[i as int]);
                assert(tv@.take(i as int + 1) =~= tv@.take(i as int).push(tv@[i as int]));
                lemma_apply_snoc(st1.todos, todo_keyf(), tv@.take(i as int), tv@[i as int]);
            }
            self.upsert_todo(item);
            i = i + 1;
        }
        proof {
            assert(tv@.take(req.todos@.len() as int) =~= tv@);
        }
        let ghost st2 = self@;
        let pv = Ghost(period_views(req.periods@));
        let mut i: usize = 0;
        while i < req.periods.len()
            invariant
                i <= req.periods.len(),
                pv@ == period_views(req.periods@),
                self@.periods == apply_by(st2.periods, period_keyf(), pv@.take(i as int)),
                self@.diaries == st2.diaries,
                self@.todos == st2.todos,
                self@.image_blobs == st2.image_blobs,
                self@.image_refs == st2.image_refs,
            decreases req.periods.len() - i,
        {
            let item = req.periods[i].clone();
            proof {
                assert(item@ == pv@[i as int]);
                assert(pv@.take(i as int + 1) =~= pv@.take(i as int).push(pv@[i as int]));
                lemma_apply_snoc(st2.periods, period_keyf(), pv@.take(i as int), pv@[i as int]);
            }
            self.upsert_period(item);
            i = i + 1;
        }
        proof {
            assert(pv@.take(req.periods@.len() as int) =~= pv@);
        }
        let ghost st3 = self@;
        let iv = Ghost(image_views(req.images@));
        let mut i: usize = 0;
        while i < req.images.len()
            invariant
                i <= req.images.len(),
                iv@ == image_views(req.images@),
                self@.image_blobs == apply_by(
                    st3.image_blobs,
                    blob_keyf(),
                    blobs_of(iv@).take(i as int),
                ),
                self@.image_refs == apply_by(
                    st3.image_refs,
                    ref_keyf(),
                    refs_of(iv@).take(i as int),
                ),
                self@.diaries == st3.diaries,
                self@.todos == st3.todos,
                self@.periods == st3.periods,
            decreases req.images.len() - i,
        {
            proof {
                assert(iv@[i as int] == req.images@[i as int]@);
                assert(blobs_of(iv@)[i as int] == blob_of(iv@[i as int]));
                assert(refs_of(iv@)[i as int] == ref_of(iv@[i as int]));
                assert(blobs_of(iv@).take(i as int + 1) =~= blobs_of(iv@).take(i as int).push(
                    blobs_of(iv@)[i as int],
                ));
                assert(refs_of(iv@).take(i as int + 1) =~= refs_of(iv@).take(i as int).push(
                    refs_of(iv@)[i as int],
                ));
                lemma_apply_snoc(
                    st3.image_blobs,
                    blob_keyf(),
                    blobs_of(iv@).take(i as int),
                    blobs_of(iv@)[i as int],
                );
                lemma_apply_snoc(
                    st3.image_refs,
                    ref_keyf(),
                    refs_of(iv@).take(i as int),
                    refs_of(iv@)[i as int],
                );
            }
            self.upsert_image(&req.images[i]);
            i = i + 1;
        }
        proof {
            assert(blobs_of(iv@).take(req.images@.len() as int) =~= blobs_of(iv@));
            assert(refs_of(iv@).take(req.images@.len() as int) =~= refs_of(iv@));
            if st0.wf() {
                lemma_apply_unique(st0.diaries, diary_keyf(), dv@);
                lemma_apply_unique(st0.todos, todo_keyf(), tv@);
                lemma_apply_unique(st0.periods, period_keyf(), pv@);
                lemma_apply_unique(st0.image_blobs, blob_keyf(), blobs_of(iv@));
                lemma_apply_unique(st0.image_refs, ref_keyf(), refs_of(iv@));
            }
        }
        SyncUploadResponse {
            ok: true,
            message: "ok".to_owned(),
            counts: SyncCounts {
                diaries: req.diaries.len(),
                todos: req.todos.len(),
                periods: req.periods.len(),
                images: req.images.len(),
            },
        }
    }

    /// Apply one image-blob batch atomically: each blob is upserted by its
    /// content hash; references are untouched.
    pub fn image_upload_batch(&mut self, req: &ImageUploadRequest)
        ensures
            image_upload_post(old(self)@, final(self)@, *req),
            old(self)@.wf() ==> final(self)@.wf(),
    {
        let ghost st0 = self@;
        let iv = Ghost(image_views(req.images@));
        let mut i: usize = 0;
        while i < req.images.len()
            invariant
                i <= req.images.len(),
                iv@ == image_views(req.images@),
                self@.image_blobs == apply_by(
                    st0.image_blobs,
                    blob_keyf(),
                    blobs_of(iv@).take(i as int),
                ),
                self@.diaries == st0.diaries,
                self@.todos == st0.todos,
                self@.periods == st0.periods,
                self@.image_refs == st0.image_refs,
            decreases req.images.len() - i,
        {
            let item = &req.images[i];
            let blob_row = ImageBlobItem {
                hash: item.hash.clone(),
                iv: item.blob.iv.clone(),
                data: item.blob.data.clone(),
                updatedAt: item.updatedAt,
            };
            proof {
                assert(iv@[i as int] == req.images@[i as int]@);
                assert(blob_row@ == blobs_of(iv@)[i as int]);
                assert(blobs_of(iv@).take(i as int + 1) =~= blobs_of(iv@).take(i as int).push(
                    blobs_of(iv@)[i as int],
                ));
                lemma_apply_snoc(
                    st0.image_blobs,
                    blob_keyf(),
                    blobs_of(iv@).take(i as int),
                    blobs_of(iv@)[i as int],
                );
            }
            self.upsert_image_blob(blob_row);
            i = i + 1;
        }
        proof {
            assert(blobs_of(iv@).take(req.images@.len() as int) =~= blobs_of(iv@));
            if st0.wf() {
                lemma_apply_unique(st0.image_blobs, blob_keyf(), blobs_of(iv@));
            }
        }
    }

    /// Apply one image-reference batch atomically: each reference is upserted
    /// by `(diaryUuid, fileName)`, repointing the pair at its hash; blobs are
    /// untouched.
    pub fn image_refs_upsert_batch(&mut self, req: &ImageRefsUpsertRequest)
        ensures
            image_refs_upsert_post(old(self)@, final(self)@, *req),
            old(self)@.wf() ==> final(self)@.wf(),
    {
        let ghost st0 = self@;
        let rv = Ghost(ref_views(req.refs@));
        let mut i: usize = 0;
        while i < req.refs.len()
            invariant
                i <= req.refs.len(),
                rv@ == ref_views(req.refs@),
                self@.image_refs == apply_by(st0.image_refs, ref_keyf(), rv@.take(i as int)),
                self@.diaries == st0.diaries,
                self@.todos == st0.todos,
                self@.periods == st0.periods,
                self@.image_blobs == st0.image_blobs,
            decreases req.refs.len() - i,
        {
            let item = req.refs[i].clone();
            proof {
                assert(item@ == rv@[i as int]);
                assert(rv@.take(i as int + 1) =~= rv@.take(i as int).push(rv@[i as int]));
                lemma_apply_snoc(st0.image_refs, ref_keyf(), rv@.take(i as int), rv@[i as int]);
            }
            self.upsert_image_ref(item);
            i = i + 1;
        }
        proof {
            assert(rv@.take(req.refs@.len() as int) =~= rv@);
            if st0.wf() {
                lemma_apply_unique(st0.image_refs, ref_keyf(), rv@);
            }
        }
    }

    /// The full (key, updatedAt) summary of all three payload-bearing kinds,
    /// unfiltered and in storage order.
    pub fn meta_summary(&self) -> (resp: SyncMetaResponse)
        ensures
            meta_post(self@, resp),
    {
        let mut diaries: Vec<SyncMeta> = Vec::new();
        let mut i: usize = 0;
        while i < self.diaries.len()
            invariant
                i <= self.diaries.len(),
                meta_views(diaries@) =~= diary_metas(self@.diaries).take(i as int),
            decreases self.diaries.len() - i,
        {
            let m = SyncMeta {
                uuid: self.diaries[i].uuid.clone(),
                updatedAt: self.diaries[i].updatedAt,
            };
            proof {
                assert(m@ == diary_metas(self@.diaries)[i as int]);
            }
            let ghost before = diaries@;
            diaries.push(m);
            proof {
                assert(meta_views(diaries@) =~= meta_views(before).push(m@));
                assert(meta_views(diaries@) =~= diary_metas(self@.diaries).take(i as int + 1));
            }
            i = i + 1;
        }
        let mut todos: Vec<SyncMeta> = Vec::new();
        let mut i: usize = 0;
        while i < self.todos.len()
            invariant
                i <= self.todos.len(),
                meta_views(todos@) =~= todo_metas(self@.todos).take(i as int),
            decreases self.todos.len() - i,
        {
            let m = SyncMeta { uuid: self.todos[i].uuid.clone(), updatedAt: self.todos[i].updatedAt };
            proof {
                assert(m@ == todo_metas(self@.todos)[i as int]);
            }
            let ghost before = todos@;
            todos.push(m);
            proof {
                assert(meta_views(todos@) =~= meta_views(before).push(m@));
                assert(meta_views(todos@) =~= todo_metas(self@.todos).take(i as int + 1));
            }
            i = i + 1;
        }
        let mut periods: Vec<PeriodMeta> = Vec::new();
        let mut i: usize = 0;
        while i < self.periods.len()
            invariant
                i <= self.periods.len(),
                period_meta_views(periods@) =~= period_metas(self@.periods).take(i as int),
            decreases self.periods.len() - i,
        {
            let m = PeriodMeta {
                startDate: self.periods[i].startDate.clone(),
                updatedAt: self.periods[i].updatedAt,
            };
            proof {
                assert(m@ == period_metas(self@.periods)[i as int]);
            }
            let ghost before = periods@;
            periods.push(m);
            proof {
                assert(period_meta_views(periods@) =~= period_meta_views(before).push(m@));
                assert(period_meta_views(periods@) =~= period_metas(self@.periods).take(
                    i as int + 1,
                ));
            }
            i = i + 1;
        }
        proof {
            assert(diary_metas(self@.diaries).take(self.diaries@.len() as int) =~= diary_metas(
                self@.diaries,
            ));
            assert(todo_metas(self@.todos).take(self.todos@.len() as int) =~= todo_metas(
                self@.todos,
            ));
            assert(period_metas(self@.periods).take(self.periods@.len() as int) =~= period_metas(
                self@.periods,
            ));
        }
        SyncMetaResponse { diaries, todos, periods }
    }

    /// Every distinct content hash currently stored, in storage order.
    pub fn hash_list(&self) -> (resp: ImageHashListResponse)
        ensures
            hashes_post(self@, resp),
    {
        let mut hashes: Vec<String> = Vec::new();
        let mut i: usize = 0;
        while i < self.image_blobs.len()
            invariant
                i <= self.image_blobs.len(),
                string_views(hashes@) =~= hashes_of(self@.image_blobs).take(i as int),
            decreases self.image_blobs.len() - i,
        {
            let h = self.image_blobs[i].hash.clone();
            proof {
                assert(h@ == hashes_of(self@.image_blobs)[i as int]);
            }
            let ghost before = hashes@;
            hashes.push(h);
            proof {
                assert(string_views(hashes@) =~= string_views(before).push(h@));
                assert(string_views(hashes@) =~= hashes_of(self@.image_blobs).take(i as int + 1));
            }
            i = i + 1;
        }
        proof {
            assert(hashes_of(self@.image_blobs).take(self.image_blobs@.len() as int) =~= hashes_of(
                self@.image_blobs,
            ));
        }
        ImageHashListResponse { hashes }
    }

    /// The full reference manifest, in storage order.
    pub fn refs_list(&self) -> (resp: ImageRefsResponse)
        ensures
            refs_list_post(self@, resp),
    {
        let mut refs: Vec<DiaryImageRefItem> = Vec::new();
        let mut i: usize = 0;
        while i < self.image_refs.len()
            invariant
                i <= self.image_refs.len(),
                ref_views(refs@) =~= self@.image_refs.take(i as int),
            decreases self.image_refs.len() - i,
        {
            let item = self.image_refs[i].clone();
            proof {
                assert(item@ == self@.image_refs[i as int]);
            }
            let ghost before = refs@;
            refs.push(item);
            proof {
                assert(ref_views(refs@) =~= ref_views(before).push(item@));
                assert(ref_views(refs@) =~= self@.image_refs.take(i as int + 1));
            }
            i = i + 1;
        }
        proof {
            assert(self@.image_refs.take(self.image_refs@.len() as int) =~= self@.image_refs);
        }
        ImageRefsResponse { refs }
    }

    /// Fetch one image by its reference key: the reference joined with the
    /// blob its hash points at.  Nothing is returned when no reference holds
    /// the pair, or when the reference's hash has no blob (an inconsistent
    /// reference, handled defensively).
    pub fn fetch_image(&self, diary_uuid: &String, file_name: &String) -> (r: Option<
        ImageFetchResponse,
    >)
        ensures
            fetch_post(self@, diary_uuid@, file_name@, r),
    {
        let ri = match find_ref_index(&self.image_refs, diary_uuid, file_name) {
            None => {
                proof {
                    lemma_lookup_none(self@.image_refs, ref_keyf(), (diary_uuid@, file_name@));
                }
                return None;
            },
            Some(ri) => ri,
        };
        proof {
            lemma_lookup_at_first(
                self@.image_refs,
                ref_keyf(),
                (diary_uuid@, file_name@),
                ri as int,
            );
        }
        let hash = &self.image_refs[ri].hash;
        let bi = match find_blob_index(&self.image_blobs, hash) {
            None => {
                proof {
                    lemma_lookup_none(self@.image_blobs, blob_keyf(), hash@);
                }
                return None;
            },
            Some(bi) => bi,
        };
        proof {
            lemma_lookup_at_first(self@.image_blobs, blob_keyf(), hash@, bi as int);
        }
        let r = &self.image_refs[ri];
        let b = &self.image_blobs[bi];
        Some(
            ImageFetchResponse {
                fileName: r.fileName.clone(),
                diaryUuid: r.diaryUuid.clone(),
                hash: r.hash.clone(),
                updatedAt: r.updatedAt,
                blob: EncryptedBlob { iv: b.iv.clone(), data: b.data.clone() },
            },
        )
    }
}

} // verus!
