//! The engine's laws, stated once over the store model and proved for every
//! input.  Each law speaks through the same spec functions the operations'
//! own contracts use, so what holds here holds of the executable engine.

use crate::delta::{diary_delta, diary_included};
use crate::models::{DiaryV, ImageBlobV, ImageV, RefV};
use crate::store::{blob_keyf, blob_of, diary_keyf, fetch_spec, ref_keyf, ref_of};
use crate::table::{
    count_key, lemma_lookup_count, lemma_upsert_idempotent, lemma_upsert_last_wins,
    lemma_upsert_lookup, lemma_upsert_unique, lookup_by, unique_keys, upsert_by,
};
use vstd::prelude::*;

verus! {

/// Idempotent upsert: uploading the same diary twice leaves the store
/// exactly as one upload does, and exactly one stored row holds the diary's
/// key, carrying its fields.
pub proof fn law_diary_upsert_idempotent(s: Seq<DiaryV>, d: DiaryV)
    requires
        unique_keys(s, diary_keyf()),
    ensures
        upsert_by(upsert_by(s, diary_keyf(), d), diary_keyf(), d) == upsert_by(s, diary_keyf(), d),
        lookup_by(upsert_by(s, diary_keyf(), d), diary_keyf(), d.uuid) == Some(d),
        count_key(upsert_by(s, diary_keyf(), d), diary_keyf(), d.uuid) == 1,
{
    lemma_upsert_idempotent(s, diary_keyf(), d);
    lemma_upsert_lookup(s, diary_keyf(), d, d.uuid);
    lemma_upsert_unique(s, diary_keyf(), d);
    lemma_lookup_count(upsert_by(s, diary_keyf(), d), diary_keyf(), d.uuid);
}

/// Last write wins by commit order: two uploads under one `uuid` leave the
/// store as the later upload alone does, whatever the two records'
/// `updatedAt` values say, and the stored row under that key is the later
/// record.
pub proof fn law_diary_last_write_wins(s: Seq<DiaryV>, a: DiaryV, b: DiaryV)
    requires
        a.uuid == b.uuid,
    ensures
        upsert_by(upsert_by(s, diary_keyf(), a), diary_keyf(), b) == upsert_by(
            s,
            diary_keyf(),
            b,
        ),
        lookup_by(upsert_by(s, diary_keyf(), b), diary_keyf(), a.uuid) == Some(b),
{
    lemma_upsert_last_wins(s, diary_keyf(), a, b);
    lemma_upsert_lookup(s, diary_keyf(), b, a.uuid);
}

/// Download delta correctness: a stored diary is in the delta if and only if
/// the manifest has never seen its key or holds a strictly smaller
/// `updatedAt`; and everything in the delta is a stored, included diary.
pub proof fn law_download_delta_correct(s: Seq<DiaryV>, m: Map<Seq<char>, i64>)
    ensures
        forall|j: int|
            0 <= j < s.len() ==> (diary_included(s[j], m) <==> diary_delta(s, m).contains(s[j])),
        forall|d: DiaryV| #[trigger]
            diary_delta(s, m).contains(d) ==> s.contains(d) && diary_included(d, m),
    decreases s.len(),
{
    if s.len() > 0 {
        law_download_delta_correct(s.drop_last(), m);
        let rest = diary_delta(s.drop_last(), m);
        let out = diary_delta(s, m);
        assert forall|d: DiaryV| #[trigger] out.contains(d) implies s.contains(d)
            && diary_included(d, m) by {
            if rest.contains(d) {
                assert(s.drop_last().contains(d));
                let j = choose|j: int| 0 <= j < s.drop_last().len() && s.drop_last()[j] == d;
                assert(s[j] == d);
            } else {
                assert(d == s.last());
                assert(s[s.len() - 1] == d);
            }
        }
        assert forall|j: int| 0 <= j < s.len() implies (diary_included(s[j], m) <==> out.contains(
            s[j],
        )) by {
            if j < s.len() - 1 {
                assert(s.drop_last()[j] == s[j]);
                if diary_included(s[j], m) {
                    assert(rest.contains(s[j]));
                    let k = choose|k: int| 0 <= k < rest.len() && rest[k] == s[j];
                    if diary_included(s.last(), m) {
                        assert(out == rest.push(s.last()));
                        assert(out[k] == s[j]);
                    } else {
                        assert(out == rest);
                    }
                }
            } else {
                if diary_included(s[j], m) {
                    assert(out == rest.push(s.last()));
                    assert(out[out.len() - 1] == s[j]);
                }
            }
        }
    }
}

/// Image dedup: uploading one content hash under two different
/// (diaryUuid, fileName) references stores exactly one blob row and both
/// reference rows, and fetching either reference yields that one blob's
/// content.
pub proof fn law_image_dedup(blobs: Seq<ImageBlobV>, refs: Seq<RefV>, a: ImageV, b: ImageV)
    requires
        unique_keys(blobs, blob_keyf()),
        unique_keys(refs, ref_keyf()),
        a.hash == b.hash,
        (a.diary_uuid, a.file_name) != (b.diary_uuid, b.file_name),
    ensures
        ({
            let blobs2 = upsert_by(
                upsert_by(blobs, blob_keyf(), blob_of(a)),
                blob_keyf(),
                blob_of(b),
            );
            let refs2 = upsert_by(upsert_by(refs, ref_keyf(), ref_of(a)), ref_keyf(), ref_of(b));
            &&& count_key(blobs2, blob_keyf(), b.hash) == 1
            &&& lookup_by(refs2, ref_keyf(), (a.diary_uuid, a.file_name)) == Some(ref_of(a))
            &&& lookup_by(refs2, ref_keyf(), (b.diary_uuid, b.file_name)) == Some(ref_of(b))
            &&& fetch_spec(blobs2, refs2, a.diary_uuid, a.file_name) == Some(
                (ref_of(a), blob_of(b)),
            )
            &&& fetch_spec(blobs2, refs2, b.diary_uuid, b.file_name) == Some(
                (ref_of(b), blob_of(b)),
            )
        }),
{
    let blobs1 = upsert_by(blobs, blob_keyf(), blob_of(a));
    let blobs2 = upsert_by(blobs1, blob_keyf(), blob_of(b));
    let refs1 = upsert_by(refs, ref_keyf(), ref_of(a));
    let refs2 = upsert_by(refs1, ref_keyf(), ref_of(b));
    lemma_upsert_last_wins(blobs, blob_keyf(), blob_of(a), blob_of(b));
    assert(blobs2 == upsert_by(blobs, blob_keyf(), blob_of(b)));
    lemma_upsert_unique(blobs, blob_keyf(), blob_of(b));
    lemma_upsert_lookup(blobs, blob_keyf(), blob_of(b), b.hash);
    lemma_lookup_count(upsert_by(blobs, blob_keyf(), blob_of(b)), blob_keyf(), b.hash);
    lemma_upsert_lookup(refs, ref_keyf(), ref_of(a), (a.diary_uuid, a.file_name));
    lemma_upsert_lookup(refs1, ref_keyf(), ref_of(b), (a.diary_uuid, a.file_name));
    lemma_upsert_lookup(refs1, ref_keyf(), ref_of(b), (b.diary_uuid, b.file_name));
    assert(lookup_by(refs2, ref_keyf(), (a.diary_uuid, a.file_name)) == Some(ref_of(a)));
    assert(ref_of(a).hash == b.hash);
    lemma_upsert_lookup(blobs, blob_keyf(), blob_of(b), a.hash);
}

} // verus!
