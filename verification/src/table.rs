//! The keyed-table model.  Every entity kind lives in one table whose rows
//! carry a key; an upsert inserts a new row or overwrites the row that already
//! holds the key, never merging field by field.  Tables are modelled as
//! sequences of rows with pairwise-distinct keys; `upsert_by` and `lookup_by`
//! are the two primitive operations, parametrised by the key projection.

use vstd::prelude::*;

verus! {

/// The first row whose key is `k`, if any.
pub open spec fn lookup_by<T, K>(s: Seq<T>, keyf: spec_fn(T) -> K, k: K) -> Option<T>
    decreases s.len(),
{
    if s.len() == 0 {
        None
    } else if keyf(s[0]) == k {
        Some(s[0])
    } else {
        lookup_by(s.drop_first(), keyf, k)
    }
}

/// Overwrite the first row whose key equals `item`'s, or append `item` when no
/// row holds that key.
pub open spec fn upsert_by<T, K>(s: Seq<T>, keyf: spec_fn(T) -> K, item: T) -> Seq<T>
    decreases s.len(),
{
    if s.len() == 0 {
        seq![item]
    } else if keyf(s[0]) == keyf(item) {
        seq![item] + s.drop_first()
    } else {
        seq![s[0]] + upsert_by(s.drop_first(), keyf, item)
    }
}

/// Table well-formedness: no two rows share a key.
pub open spec fn unique_keys<T, K>(s: Seq<T>, keyf: spec_fn(T) -> K) -> bool {
    forall|i: int, j: int| 0 <= i < j < s.len() ==> keyf(s[i]) != keyf(s[j])
}

/// How many rows hold the key `k`.
pub open spec fn count_key<T, K>(s: Seq<T>, keyf: spec_fn(T) -> K, k: K) -> nat
    decreases s.len(),
{
    if s.len() == 0 {
        0
    } else {
        (if keyf(s[0]) == k {
            1nat
        } else {
            0nat
        }) + count_key(s.drop_first(), keyf, k)
    }
}

/// When the first `i` rows miss `item`'s key and row `i` holds it, the upsert
/// is exactly an in-place overwrite of row `i`.
pub proof fn lemma_upsert_updates<T, K>(s: Seq<T>, keyf: spec_fn(T) -> K, item: T, i: int)
    requires
        0 <= i < s.len(),
        forall|j: int| 0 <= j < i ==> keyf(s[j]) != keyf(item),
        keyf(s[i]) == keyf(item),
    ensures
        upsert_by(s, keyf, item) == s.update(i, item),
    decreases i,
{
    if i == 0 {
        assert(upsert_by(s, keyf, item) =~= s.update(0, item));
    } else {
        lemma_upsert_updates(s.drop_first(), keyf, item, i - 1);
        assert(seq![s[0]] + s.drop_first().update(i - 1, item) =~= s.update(i, item));
    }
}

/// When no row holds `item`'s key, the upsert is exactly an append.
pub proof fn lemma_upsert_appends<T, K>(s: Seq<T>, keyf: spec_fn(T) -> K, item: T)
    requires
        forall|j: int| 0 <= j < s.len() ==> keyf(s[j]) != keyf(item),
    ensures
        upsert_by(s, keyf, item) == s.push(item),
    decreases s.len(),
{
    if s.len() == 0 {
        assert(upsert_by(s, keyf, item) =~= s.push(item));
    } else {
        lemma_upsert_appends(s.drop_first(), keyf, item);
        assert(seq![s[0]] + s.drop_first().push(item) =~= s.push(item));
    }
}

/// After an upsert, looking the row up by its key yields the new row, and
/// every other key resolves as before.
pub proof fn lemma_upsert_lookup<T, K>(s: Seq<T>, keyf: spec_fn(T) -> K, item: T, k: K)
    ensures
        lookup_by(upsert_by(s, keyf, item), keyf, k) == if k == keyf(item) {
            Some(item)
        } else {
            lookup_by(s, keyf, k)
        },
    decreases s.len(),
{
    let out = upsert_by(s, keyf, item);
    if s.len() == 0 {
        assert(out =~= seq![item]);
        assert(out.drop_first() =~= Seq::<T>::empty());
        assert(lookup_by(out.drop_first(), keyf, k) is None);
    } else if keyf(s[0]) == keyf(item) {
        assert(out =~= seq![item] + s.drop_first());
        assert(out[0] == item);
        assert(out.drop_first() =~= s.drop_first());
        assert(lookup_by(out, keyf, k) == if k == keyf(item) {
            Some(item)
        } else {
            lookup_by(s.drop_first(), keyf, k)
        });
    } else {
        assert(out =~= seq![s[0]] + upsert_by(s.drop_first(), keyf, item));
        assert(out[0] == s[0]);
        assert(out.drop_first() =~= upsert_by(s.drop_first(), keyf, item));
        lemma_upsert_lookup(s.drop_first(), keyf, item, k);
    }
}

/// An upsert never duplicates a key.
pub proof fn lemma_upsert_unique<T, K>(s: Seq<T>, keyf: spec_fn(T) -> K, item: T)
    requires
        unique_keys(s, keyf),
    ensures
        unique_keys(upsert_by(s, keyf, item), keyf),
    decreases s.len(),
{
    let out = upsert_by(s, keyf, item);
    if s.len() == 0 {
    } else if keyf(s[0]) == keyf(item) {
        assert(out =~= seq![item] + s.drop_first());
        assert forall|i: int, j: int| 0 <= i < j < out.len() implies keyf(out[i]) != keyf(
            out[j],
        ) by {
            if i == 0 {
                assert(keyf(out[j]) == keyf(s[j]));
                assert(keyf(s[0]) != keyf(s[j]));
            } else {
                assert(keyf(out[i]) == keyf(s[i]) && keyf(out[j]) == keyf(s[j]));
            }
        }
    } else {
        assert forall|i: int, j: int| 0 <= i < j < s.drop_first().len() implies keyf(
            s.drop_first()[i],
        ) != keyf(s.drop_first()[j]) by {
            assert(s.drop_first()[i] == s[i + 1] && s.drop_first()[j] == s[j + 1]);
        }
        assert forall|j: int| 0 <= j < s.drop_first().len() implies keyf(
            s.drop_first()[j],
        ) != keyf(s[0]) by {
            assert(s.drop_first()[j] == s[j + 1]);
        }
        lemma_upsert_unique(s.drop_first(), keyf, item);
        lemma_upsert_lookup(s.drop_first(), keyf, item, keyf(s[0]));
        lemma_lookup_none(s.drop_first(), keyf, keyf(s[0]));
        let rest = upsert_by(s.drop_first(), keyf, item);
        assert(lookup_by(rest, keyf, keyf(s[0])) is None);
        lemma_lookup_none(rest, keyf, keyf(s[0]));
        assert(out =~= seq![s[0]] + rest);
        assert forall|i: int, j: int| 0 <= i < j < out.len() implies keyf(out[i]) != keyf(
            out[j],
        ) by {
            if i == 0 {
                assert(out[j] == rest[j - 1]);
            } else {
                assert(out[i] == rest[i - 1] && out[j] == rest[j - 1]);
            }
        }
    }
}

/// A key missing from every row is a key `lookup_by` misses.
pub proof fn lemma_lookup_none<T, K>(s: Seq<T>, keyf: spec_fn(T) -> K, k: K)
    ensures
        (lookup_by(s, keyf, k) is None) <==> (forall|j: int|
            0 <= j < s.len() ==> keyf(s[j]) != k),
    decreases s.len(),
{
    if s.len() == 0 {
    } else if keyf(s[0]) == k {
    } else {
        lemma_lookup_none(s.drop_first(), keyf, k);
        if lookup_by(s, keyf, k) is None {
            assert forall|j: int| 0 <= j < s.len() implies keyf(s[j]) != k by {
                if j > 0 {
                    assert(s.drop_first()[j - 1] == s[j]);
                }
            }
        } else {
            let j = choose|j: int|
                0 <= j < s.drop_first().len() && keyf(s.drop_first()[j]) == k;
            assert(s[j + 1] == s.drop_first()[j]);
        }
    }
}

/// A first match at index `i` is what `lookup_by` returns.
pub proof fn lemma_lookup_at_first<T, K>(s: Seq<T>, keyf: spec_fn(T) -> K, k: K, i: int)
    requires
        0 <= i < s.len(),
        keyf(s[i]) == k,
        forall|j: int| 0 <= j < i ==> keyf(s[j]) != k,
    ensures
        lookup_by(s, keyf, k) == Some(s[i]),
    decreases i,
{
    if i > 0 {
        assert(s.drop_first()[i - 1] == s[i]);
        assert forall|j: int| 0 <= j < i - 1 implies keyf(s.drop_first()[j]) != k by {
            assert(s.drop_first()[j] == s[j + 1]);
        }
        lemma_lookup_at_first(s.drop_first(), keyf, k, i - 1);
    }
}

/// In a well-formed table a found key is held by exactly one row, a missing
/// key by none.
pub proof fn lemma_lookup_count<T, K>(s: Seq<T>, keyf: spec_fn(T) -> K, k: K)
    requires
        unique_keys(s, keyf),
    ensures
        count_key(s, keyf, k) == if lookup_by(s, keyf, k) is Some {
            1nat
        } else {
            0nat
        },
    decreases s.len(),
{
    if s.len() > 0 {
        assert forall|i: int, j: int| 0 <= i < j < s.drop_first().len() implies keyf(
            s.drop_first()[i],
        ) != keyf(s.drop_first()[j]) by {
            assert(s.drop_first()[i] == s[i + 1] && s.drop_first()[j] == s[j + 1]);
        }
        lemma_lookup_count(s.drop_first(), keyf, k);
        if keyf(s[0]) == k {
            lemma_lookup_none(s.drop_first(), keyf, k);
            assert forall|j: int| 0 <= j < s.drop_first().len() implies keyf(
                s.drop_first()[j],
            ) != k by {
                assert(s.drop_first()[j] == s[j + 1]);
            }
        }
    }
}

/// Upserting the same row twice leaves the table exactly as one upsert does.
pub proof fn lemma_upsert_idempotent<T, K>(s: Seq<T>, keyf: spec_fn(T) -> K, item: T)
    ensures
        upsert_by(upsert_by(s, keyf, item), keyf, item) == upsert_by(s, keyf, item),
    decreases s.len(),
{
    let once = upsert_by(s, keyf, item);
    if s.len() == 0 {
        assert(once =~= seq![item]);
        assert(upsert_by(once, keyf, item) =~= once);
    } else if keyf(s[0]) == keyf(item) {
        assert(once =~= seq![item] + s.drop_first());
        assert(once[0] == item);
        assert(once.drop_first() =~= s.drop_first());
        assert(upsert_by(once, keyf, item) =~= seq![item] + once.drop_first());
        assert(upsert_by(once, keyf, item) =~= once);
    } else {
        assert(once =~= seq![s[0]] + upsert_by(s.drop_first(), keyf, item));
        assert(once[0] == s[0]);
        assert(once.drop_first() =~= upsert_by(s.drop_first(), keyf, item));
        lemma_upsert_idempotent(s.drop_first(), keyf, item);
        assert(upsert_by(once, keyf, item) =~= seq![s[0]] + upsert_by(
            once.drop_first(),
            keyf,
            item,
        ));
        assert(upsert_by(once, keyf, item) =~= once);
    }
}

/// Fold a batch of rows into the table, upserting them in order; a key that
/// occurs twice in the batch keeps the later row.
pub open spec fn apply_by<T, K>(s: Seq<T>, keyf: spec_fn(T) -> K, items: Seq<T>) -> Seq<T>
    decreases items.len(),
{
    if items.len() == 0 {
        s
    } else {
        apply_by(upsert_by(s, keyf, items[0]), keyf, items.drop_first())
    }
}

/// A batch extended by one row folds as the batch followed by one upsert.
pub proof fn lemma_apply_snoc<T, K>(s: Seq<T>, keyf: spec_fn(T) -> K, items: Seq<T>, x: T)
    ensures
        apply_by(s, keyf, items.push(x)) == upsert_by(apply_by(s, keyf, items), keyf, x),
    decreases items.len(),
{
    if items.len() == 0 {
        assert(items.push(x)[0] == x);
        assert(items.push(x).drop_first() =~= items);
        assert(apply_by(s, keyf, items) == s);
        assert(apply_by(s, keyf, items.push(x)) == apply_by(
            upsert_by(s, keyf, x),
            keyf,
            items,
        ));
        assert(apply_by(upsert_by(s, keyf, x), keyf, items) == upsert_by(s, keyf, x));
    } else {
        assert(items.push(x)[0] == items[0]);
        assert(items.push(x).drop_first() =~= items.drop_first().push(x));
        let s1 = upsert_by(s, keyf, items[0]);
        lemma_apply_snoc(s1, keyf, items.drop_first(), x);
        assert(apply_by(s, keyf, items.push(x)) == apply_by(
            s1,
            keyf,
            items.drop_first().push(x),
        ));
        assert(apply_by(s, keyf, items) == apply_by(s1, keyf, items.drop_first()));
    }
}

/// Folding a batch into a well-formed table keeps it well-formed.
pub proof fn lemma_apply_unique<T, K>(s: Seq<T>, keyf: spec_fn(T) -> K, items: Seq<T>)
    requires
        unique_keys(s, keyf),
    ensures
        unique_keys(apply_by(s, keyf, items), keyf),
    decreases items.len(),
{
    if items.len() > 0 {
        lemma_upsert_unique(s, keyf, items[0]);
        lemma_apply_unique(upsert_by(s, keyf, items[0]), keyf, items.drop_first());
    }
}

/// Two upserts under one key collapse to the later one: whichever write lands
/// last wins, whatever the rows' other fields say.
pub proof fn lemma_upsert_last_wins<T, K>(s: Seq<T>, keyf: spec_fn(T) -> K, a: T, b: T)
    requires
        keyf(a) == keyf(b),
    ensures
        upsert_by(upsert_by(s, keyf, a), keyf, b) == upsert_by(s, keyf, b),
    decreases s.len(),
{
    let once = upsert_by(s, keyf, a);
    if s.len() == 0 {
        assert(once =~= seq![a]);
        assert(upsert_by(once, keyf, b) =~= seq![b]);
        assert(upsert_by(s, keyf, b) =~= seq![b]);
    } else if keyf(s[0]) == keyf(a) {
        assert(once =~= seq![a] + s.drop_first());
        assert(once[0] == a);
        assert(once.drop_first() =~= s.drop_first());
        assert(upsert_by(once, keyf, b) =~= seq![b] + s.drop_first());
        assert(upsert_by(s, keyf, b) =~= seq![b] + s.drop_first());
    } else {
        assert(once =~= seq![s[0]] + upsert_by(s.drop_first(), keyf, a));
        assert(once[0] == s[0]);
        assert(once.drop_first() =~= upsert_by(s.drop_first(), keyf, a));
        lemma_upsert_last_wins(s.drop_first(), keyf, a, b);
        assert(upsert_by(once, keyf, b) =~= seq![s[0]] + upsert_by(
            once.drop_first(),
            keyf,
            b,
        ));
        assert(upsert_by(s, keyf, b) =~= seq![s[0]] + upsert_by(s.drop_first(), keyf, b));
        assert(upsert_by(once, keyf, b) =~= upsert_by(s, keyf, b));
    }
}

} // verus!
