//! The reconciliation engine's download side.  A client sends a manifest of
//! (key, updatedAt) pairs; the engine returns exactly the stored rows the
//! manifest has never seen or holds a strictly older copy of.  Equal
//! timestamps count as already synced.  Images are excluded from this bulk
//! delta: they are pulled on demand instead.

use crate::models::{
    diary_views, meta_views, period_meta_views, period_views, todo_views, DiaryImageSyncItem,
    DiarySyncItem, DiaryV, MetaV, PeriodMeta, PeriodMetaV, PeriodSyncItem, PeriodV, SyncCounts,
    SyncDownloadEnvelope, SyncDownloadRequest, SyncDownloadResponse, SyncMeta, TodoSyncItem, TodoV,
};
use crate::store::SyncStore;
use vstd::prelude::*;

verus! {

/// The manifest list as a map from key to last-known `updatedAt`; a key
/// repeated in the list keeps its last entry.
pub open spec fn manifest_map(s: Seq<MetaV>) -> Map<Seq<char>, i64>
    decreases s.len(),
{
    if s.len() == 0 {
        Map::empty()
    } else {
        manifest_map(s.drop_last()).insert(s.last().uuid, s.last().updated_at)
    }
}

/// The period manifest list as a map from start date to `updatedAt`.
pub open spec fn period_manifest_map(s: Seq<PeriodMetaV>) -> Map<Seq<char>, i64>
    decreases s.len(),
{
    if s.len() == 0 {
        Map::empty()
    } else {
        period_manifest_map(s.drop_last()).insert(s.last().start_date, s.last().updated_at)
    }
}

/// A stored diary belongs to the delta iff the manifest has never seen its
/// key, or the stored copy is strictly newer.
pub open spec fn diary_included(d: DiaryV, m: Map<Seq<char>, i64>) -> bool {
    !m.contains_key(d.uuid) || d.updated_at > m[d.uuid]
}

pub open spec fn todo_included(t: TodoV, m: Map<Seq<char>, i64>) -> bool {
    !m.contains_key(t.uuid) || t.updated_at > m[t.uuid]
}

pub open spec fn period_included(p: PeriodV, m: Map<Seq<char>, i64>) -> bool {
    !m.contains_key(p.start_date) || p.updated_at > m[p.start_date]
}

/// The diary delta: the included rows, in storage order.
pub open spec fn diary_delta(s: Seq<DiaryV>, m: Map<Seq<char>, i64>) -> Seq<DiaryV>
    decreases s.len(),
{
    if s.len() == 0 {
        Seq::empty()
    } else {
        let rest = diary_delta(s.drop_last(), m);
        if diary_included(s.last(), m) {
            rest.push(s.last())
        } else {
            rest
        }
    }
}

pub open spec fn todo_delta(s: Seq<TodoV>, m: Map<Seq<char>, i64>) -> Seq<TodoV>
    decreases s.len(),
{
    if s.len() == 0 {
        Seq::empty()
    } else {
        let rest = todo_delta(s.drop_last(), m);
        if todo_included(s.last(), m) {
            rest.push(s.last())
        } else {
            rest
        }
    }
}

pub open spec fn period_delta(s: Seq<PeriodV>, m: Map<Seq<char>, i64>) -> Seq<PeriodV>
    decreases s.len(),
{
    if s.len() == 0 {
        Seq::empty()
    } else {
        let rest = period_delta(s.drop_last(), m);
        if period_included(s.last(), m) {
            rest.push(s.last())
        } else {
            rest
        }
    }
}

/// Look a key up in the manifest list; a repeated key keeps its last entry,
/// as `manifest_map` says.
fn manifest_get(manifest: &Vec<SyncMeta>, key: &String) -> (r: Option<i64>)
    ensures
        ({
            let m = manifest_map(meta_views(manifest@));
            match r {
                Some(v) => m.contains_key(key@) && m[key@] == v,
                None => !m.contains_key(key@),
            }
        }),
{
    let mut r: Option<i64> = None;
    let mut i: usize = 0;
    while i < manifest.len()
        invariant
            i <= manifest.len(),
            ({
                let m = manifest_map(meta_views(manifest@).take(i as int));
                match r {
                    Some(v) => m.contains_key(key@) && m[key@] == v,
                    None => !m.contains_key(key@),
                }
            }),
        decreases manifest.len() - i,
    {
        proof {
            let mv = meta_views(manifest@);
            assert(mv.take(i as int + 1).drop_last() =~= mv.take(i as int));
            assert(mv.take(i as int + 1).last() == mv[i as int]);
        }
        if manifest[i].uuid == *key {
            r = Some(manifest[i].updatedAt);
        }
        i = i + 1;
    }
    proof {
        assert(meta_views(manifest@).take(manifest@.len() as int) =~= meta_views(manifest@));
    }
    r
}

/// Look a start date up in the period manifest list.
fn period_manifest_get(manifest: &Vec<PeriodMeta>, key: &String) -> (r: Option<i64>)
    ensures
        ({
            let m = period_manifest_map(period_meta_views(manifest@));
            match r {
                Some(v) => m.contains_key(key@) && m[key@] == v,
                None => !m.contains_key(key@),
            }
        }),
{
    let mut r: Option<i64> = None;
    let mut i: usize = 0;
    while i < manifest.len()
        invariant
            i <= manifest.len(),
            ({
                let m = period_manifest_map(period_meta_views(manifest@).take(i as int));
                match r {
                    Some(v) => m.contains_key(key@) && m[key@] == v,
                    None => !m.contains_key(key@),
                }
            }),
        decreases manifest.len() - i,
    {
        proof {
            let mv = period_meta_views(manifest@);
            assert(mv.take(i as int + 1).drop_last() =~= mv.take(i as int));
            assert(mv.take(i as int + 1).last() == mv[i as int]);
        }
        if manifest[i].startDate == *key {
            r = Some(manifest[i].updatedAt);
        }
        i = i + 1;
    }
    proof {
        assert(period_meta_views(manifest@).take(manifest@.len() as int) =~= period_meta_views(
            manifest@,
        ));
    }
    r
}

/// The stored diaries the client must apply: exactly the delta, in order.
pub fn filter_diaries(stored: &Vec<DiarySyncItem>, manifest: &Vec<SyncMeta>) -> (out: Vec<
    DiarySyncItem,
>)
    ensures
        diary_views(out@) == diary_delta(diary_views(stored@), manifest_map(meta_views(manifest@))),
{
    let ghost m = manifest_map(meta_views(manifest@));
    let ghost sv = diary_views(stored@);
    let mut out: Vec<DiarySyncItem> = Vec::new();
    let mut i: usize = 0;
    while i < stored.len()
        invariant
            i <= stored.len(),
            m == manifest_map(meta_views(manifest@)),
            sv == diary_views(stored@),
            diary_views(out@) =~= diary_delta(sv.take(i as int), m),
        decreases stored.len() - i,
    {
        let wanted = match manifest_get(manifest, &stored[i].uuid) {
            None => true,
            Some(v) => stored[i].updatedAt > v,
        };
        proof {
            assert(sv[i as int] == stored@[i as int]@);
            assert(wanted == diary_included(sv[i as int], m));
            assert(sv.take(i as int + 1).drop_last() =~= sv.take(i as int));
            assert(sv.take(i as int + 1).last() == sv[i as int]);
        }
        if wanted {
            let item = stored[i].clone();
            let ghost before = out@;
            out.push(item);
            proof {
                assert(diary_views(out@) =~= diary_views(before).push(item@));
            }
        }
        proof {
            assert(diary_views(out@) =~= diary_delta(sv.take(i as int + 1), m));
        }
        i = i + 1;
    }
    proof {
        assert(sv.take(stored@.len() as int) =~= sv);
    }
    out
}

/// The stored todos the client must apply: exactly the delta, in order.
pub fn filter_todos(stored: &Vec<TodoSyncItem>, manifest: &Vec<SyncMeta>) -> (out: Vec<
    TodoSyncItem,
>)
    ensures
        todo_views(out@) == todo_delta(todo_views(stored@), manifest_map(meta_views(manifest@))),
{
    let ghost m = manifest_map(meta_views(manifest@));
    let ghost sv = todo_views(stored@);
    let mut out: Vec<TodoSyncItem> = Vec::new();
    let mut i: usize = 0;
    while i < stored.len()
        invariant
            i <= stored.len(),
            m == manifest_map(meta_views(manifest@)),
            sv == todo_views(stored@),
            todo_views(out@) =~= todo_delta(sv.take(i as int), m),
        decreases stored.len() - i,
    {
        let wanted = match manifest_get(manifest, &stored[i].uuid) {
            None => true,
            Some(v) => stored[i].updatedAt > v,
        };
        proof {
            assert(sv[i as int] == stored@[i as int]@);
            assert(wanted == todo_included(sv[i as int], m));
            assert(sv.take(i as int + 1).drop_last() =~= sv.take(i as int));
            assert(sv.take(i as int + 1).last() == sv[i as int]);
        }
        if wanted {
            let item = stored[i].clone();
            let ghost before = out@;
            out.push(item);
            proof {
                assert(todo_views(out@) =~= todo_views(before).push(item@));
            }
        }
        proof {
            assert(todo_views(out@) =~= todo_delta(sv.take(i as int + 1), m));
        }
        i = i + 1;
    }
    proof {
        assert(sv.take(stored@.len() as int) =~= sv);
    }
    out
}

/// The stored periods the client must apply: exactly the delta, in order.
pub fn filter_periods(stored: &Vec<PeriodSyncItem>, manifest: &Vec<PeriodMeta>) -> (out: Vec<
    PeriodSyncItem,
>)
    ensures
        period_views(out@) == period_delta(
            period_views(stored@),
            period_manifest_map(period_meta_views(manifest@)),
        ),
{
    let ghost m = period_manifest_map(period_meta_views(manifest@));
    let ghost sv = period_views(stored@);
    let mut out: Vec<PeriodSyncItem> = Vec::new();
    let mut i: usize = 0;
    while i < stored.len()
        invariant
            i <= stored.len(),
            m == period_manifest_map(period_meta_views(manifest@)),
            sv == period_views(stored@),
            period_views(out@) =~= period_delta(sv.take(i as int), m),
        decreases stored.len() - i,
    {
        let wanted = match period_manifest_get(manifest, &stored[i].startDate) {
            None => true,
            Some(v) => stored[i].updatedAt > v,
        };
        proof {
            assert(sv[i as int] == stored@[i as int]@);
            assert(wanted == period_included(sv[i as int], m));
            assert(sv.take(i as int + 1).drop_last() =~= sv.take(i as int));
            assert(sv.take(i as int + 1).last() == sv[i as int]);
        }
        if wanted {
            let item = stored[i].clone();
            let ghost before = out@;
            out.push(item);
            proof {
                assert(period_views(out@) =~= period_views(before).push(item@));
            }
        }
        proof {
            assert(period_views(out@) =~= period_delta(sv.take(i as int + 1), m));
        }
        i = i + 1;
    }
    proof {
        assert(sv.take(stored@.len() as int) =~= sv);
    }
    out
}

/// What one download returns: exactly the per-kind deltas, an always-empty
/// images list, and counts that match the lists.
pub open spec fn download_post(
    store: crate::store::StoreV,
    req: SyncDownloadRequest,
    env: SyncDownloadEnvelope,
) -> bool {
    &&& env.ok
    &&& env.message@ == "ok"@
    &&& diary_views(env.data.diaries@) == diary_delta(
        store.diaries,
        manifest_map(meta_views(req.diaries@)),
    )
    &&& todo_views(env.data.todos@) == todo_delta(
        store.todos,
        manifest_map(meta_views(req.todos@)),
    )
    &&& period_views(env.data.periods@) == period_delta(
        store.periods,
        period_manifest_map(period_meta_views(req.periods@)),
    )
    &&& env.data.images@ == Seq::<DiaryImageSyncItem>::empty()
    &&& env.counts.diaries == env.data.diaries@.len()
    &&& env.counts.todos == env.data.todos@.len()
    &&& env.counts.periods == env.data.periods@.len()
    &&& env.counts.images == 0
}

impl SyncStore {
    /// Answer one download request: for diaries, todos and periods, exactly
    /// the rows the manifest has never seen or holds an older copy of.  The
    /// images list is always empty: image blobs are pulled on demand, never
    /// in the bulk delta.
    pub fn download(&self, req: &SyncDownloadRequest) -> (env: SyncDownloadEnvelope)
        ensures
            download_post(self@, *req, env),
    {
        let diaries = filter_diaries(&self.diaries, &req.diaries);
        let todos = filter_todos(&self.todos, &req.todos);
        let periods = filter_periods(&self.periods, &req.periods);
        let images: Vec<DiaryImageSyncItem> = Vec::new();
        proof {
            assert(images@ =~= Seq::<DiaryImageSyncItem>::empty());
        }
        let counts = SyncCounts {
            diaries: diaries.len(),
            todos: todos.len(),
            periods: periods.len(),
            images: 0,
        };
        SyncDownloadEnvelope {
            ok: true,
            message: "ok".to_owned(),
            counts,
            data: SyncDownloadResponse { diaries, todos, periods, images },
        }
    }
}

} // verus!
