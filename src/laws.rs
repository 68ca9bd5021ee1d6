use vstd::prelude::*;

use crate::item::CacheItem;
use crate::table::{added_if_absent, expired_items, has_key, needs_wake, put, survivors};

verus! {

/// Of any run of `not_found_add` calls with one key, only the first can add
/// an entry, and it does exactly when the key was absent; from then on the
/// key is present, and every later call returns false and leaves the
/// entries, and so the stored value, unchanged.
pub proof fn lemma_not_found_add_once<K, V>(
    states: Seq<Seq<CacheItem<K, V>>>,
    results: Seq<bool>,
    key: K,
)
    requires
        results.len() >= 1,
        states.len() == results.len() + 1,
        forall|i: int|
            0 <= i < results.len() ==> added_if_absent(
                states[i],
                states[i + 1],
                key,
                #[trigger] results[i],
            ),
    ensures
        results[0] == !has_key(states[0], key),
        forall|i: int| 1 <= i <= results.len() ==> #[trigger] has_key(states[i], key),
        forall|i: int| 0 < i < results.len() ==> !#[trigger] results[i],
        forall|i: int| 0 < i < results.len() ==> #[trigger] states[i + 1] == states[i],
{
    let r0 = results[0];
    assert(added_if_absent(states[0], states[1], key, r0));
    assert forall|i: int| 1 <= i <= results.len() implies #[trigger] has_key(states[i], key) by {
        lemma_key_stays(states, results, key, i);
    }
    assert forall|i: int| 0 < i < results.len() implies !#[trigger] results[i] && states[i + 1] == states[i] by {
        let ri = results[i];
        assert(added_if_absent(states[i], states[i + 1], key, ri));
        lemma_key_stays(states, results, key, i);
    }
    assert forall|i: int| 0 < i < results.len() implies #[trigger] states[i + 1] == states[i] by {
        let ri = results[i];
        assert(!ri);
    }
}

proof fn lemma_key_stays<K, V>(
    states: Seq<Seq<CacheItem<K, V>>>,
    results: Seq<bool>,
    key: K,
    i: int,
)
    requires
        1 <= i <= results.len(),
        states.len() == results.len() + 1,
        forall|k: int|
            0 <= k < results.len() ==> added_if_absent(
                states[k],
                states[k + 1],
                key,
                #[trigger] results[k],
            ),
    ensures
        has_key(states[i], key),
    decreases i,
{
    let p = i - 1;
    let rp = results[p];
    assert(added_if_absent(states[p], states[p + 1], key, rp));
    if p >= 1 {
        lemma_key_stays(states, results, key, p);
    }
    if rp {
        let it = choose|it: CacheItem<K, V>| it.key == key && states[i] == states[p].push(it);
        assert(states[i][states[p].len() as int] == it);
    } else {
        assert(states[i] == states[p]);
    }
}

/// A sweep at `now` keeps exactly the entries that have not run out of
/// time and removes exactly those that have: an entry last accessed less
/// than its life span ago stays, one accessed at least its life span ago
/// goes.
pub proof fn lemma_sweep_splits<K, V>(s: Seq<CacheItem<K, V>>, now: u64)
    ensures
        forall|i: int|
            0 <= i < s.len() ==> (#[trigger] s[i].expired_at(now) ==> expired_items(
                s,
                now,
            ).contains(s[i])),
        forall|i: int|
            0 <= i < s.len() ==> (!#[trigger] s[i].expired_at(now) ==> survivors(
                s,
                now,
            ).contains(s[i])),
        forall|x: CacheItem<K, V>| #[trigger] survivors(s, now).contains(x) ==> s.contains(x)
            && !x.expired_at(now),
        forall|x: CacheItem<K, V>| #[trigger] expired_items(s, now).contains(x) ==> s.contains(x)
            && x.expired_at(now),
    decreases s.len(),
{
    if s.len() > 0 {
        let p = s.drop_last();
        lemma_sweep_splits(p, now);
        assert forall|i: int| 0 <= i < s.len() && #[trigger] s[i].expired_at(now) implies expired_items(
            s,
            now,
        ).contains(s[i]) by {
            if i < s.len() - 1 {
                assert(s[i] == p[i]);
                if s[i].expired_at(now) {
                    assert(expired_items(p, now).contains(p[i]));
                    let j = choose|j: int|
                        0 <= j < expired_items(p, now).len() && expired_items(p, now)[j] == p[i];
                    if s.last().expired_at(now) {
                        assert(expired_items(s, now)[j] == p[i]);
                    }
                }
            } else if s[i].expired_at(now) {
                let e = expired_items(s, now);
                assert(e[e.len() - 1] == s[i]);
            }
        }
        assert forall|i: int| 0 <= i < s.len() && !#[trigger] s[i].expired_at(now) implies survivors(
            s,
            now,
        ).contains(s[i]) by {
            if i < s.len() - 1 {
                assert(s[i] == p[i]);
                if !s[i].expired_at(now) {
                    assert(survivors(p, now).contains(p[i]));
                    let j = choose|j: int|
                        0 <= j < survivors(p, now).len() && survivors(p, now)[j] == p[i];
                    if !s.last().expired_at(now) {
                        assert(survivors(s, now)[j] == p[i]);
                    }
                }
            } else if !s[i].expired_at(now) {
                let v = survivors(s, now);
                assert(v[v.len() - 1] == s[i]);
            }
        }
        assert forall|x: CacheItem<K, V>| #[trigger] survivors(s, now).contains(x) implies s.contains(
            x,
        ) && !x.expired_at(now) by {
            let v = survivors(s, now);
            let j = choose|j: int| 0 <= j < v.len() && v[j] == x;
            if !s.last().expired_at(now) && j == v.len() - 1 {
                assert(s[s.len() - 1] == x);
            } else {
                assert(survivors(p, now)[j] == x);
                assert(survivors(p, now).contains(x));
                let k = choose|k: int| 0 <= k < p.len() && p[k] == x;
                assert(s[k] == x);
            }
        }
        assert forall|x: CacheItem<K, V>| #[trigger] expired_items(s, now).contains(x) implies s.contains(
            x,
        ) && x.expired_at(now) by {
            let e = expired_items(s, now);
            let j = choose|j: int| 0 <= j < e.len() && e[j] == x;
            if s.last().expired_at(now) && j == e.len() - 1 {
                assert(s[s.len() - 1] == x);
            } else {
                assert(expired_items(p, now)[j] == x);
                assert(expired_items(p, now).contains(x));
                let k = choose|k: int| 0 <= k < p.len() && p[k] == x;
                assert(s[k] == x);
            }
        }
    }
}

/// An entry with a life span of zero survives every sweep, whatever the
/// time.
pub proof fn lemma_unexpiring_survives<K, V>(s: Seq<CacheItem<K, V>>, i: int, now: u64)
    requires
        0 <= i < s.len(),
        s[i].life_span == 0,
    ensures
        survivors(s, now).contains(s[i]),
        !expired_items(s, now).contains(s[i]),
{
    lemma_sweep_splits(s, now);
    assert(!s[i].expired_at(now));
}

/// Whatever is stored under a key, by `add` or by a data loader through
/// `load`, leaves the key present; so after a miss that the loader filled,
/// the next lookup of the key is a hit and does not call the loader again.
pub proof fn lemma_stored_key_is_present<K, V>(
    before: Seq<CacheItem<K, V>>,
    after: Seq<CacheItem<K, V>>,
    item: CacheItem<K, V>,
    prev: Option<CacheItem<K, V>>,
)
    requires
        put(before, after, item, prev),
    ensures
        has_key(after, item.key),
{
    match prev {
        Some(p) => {
            let i = choose|i: int|
                0 <= i < before.len() && before[i] == p && p.key == item.key && after
                    == before.update(i, item);
            assert(after[i] == item);
        },
        None => {
            assert(after[before.len() as int] == item);
        },
    }
}

/// After a flush the scheduler is idle, and the next add of an item that can
/// expire arms it again.
pub proof fn lemma_flush_then_add_rearms(life_span: u64)
    requires
        life_span > 0,
    ensures
        needs_wake(life_span, 0),
{
}

} // verus!
