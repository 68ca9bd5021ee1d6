use vstd::prelude::*;
use vstd::laws_eq::obeys_concrete_eq;

use crate::error::Error;
use crate::item::{next_count, CacheItem, CallbackId};
use crate::typed::TypedMap;

verus! {

/// What a queued callback is fired for.
#[derive(Debug, Clone, Copy, PartialEq, Eq, Structural)]
pub enum NoticeKind {
    /// An added-item callback, given the item just stored under the key
    /// that was added.
    ItemAdded,
    /// A table-level about-to-delete callback, given a removed item.
    ItemAboutToDelete,
    /// An item-level about-to-expire callback, given the key of a removed item.
    KeyAboutToExpire,
}

/// One callback to fire. Notices are queued in the order in which the
/// callbacks must run. For the two teardown kinds, `item` is the position of
/// the removed item in what the operation returned; for `ItemAdded` it is 0.
#[derive(Debug, Clone, Copy, PartialEq, Eq, Structural)]
pub struct Notice {
    pub kind: NoticeKind,
    pub callback: CallbackId,
    pub item: usize,
}

/// What the expiration scheduler waits for.
#[derive(Debug, Clone, Copy, PartialEq, Eq, Structural)]
pub enum SchedulerState {
    /// Nothing can expire: sleep until woken.
    Idle,
    /// Sleep this long, then sweep.
    Armed(u64),
}

/// A table of expiring entries with one key type and one value type.
///
/// Entries are kept in insertion order, keys unique. `clean_up_interval` is
/// the sleep that the expiration scheduler is armed with, zero when idle.
/// Callbacks fired by an operation are queued in `notices`; `wake` says that
/// the scheduler must re-evaluate now.
pub struct CacheTable<K, V> {
    pub name: String,
    pub items: Vec<CacheItem<K, V>>,
    pub clean_up_interval: u64,
    pub added_item: Vec<CallbackId>,
    pub about_to_delete_item: Vec<CallbackId>,
    pub notices: Vec<Notice>,
    pub wake: bool,
}

/// No two entries share a key.
pub open spec fn keys_unique<K, V>(s: Seq<CacheItem<K, V>>) -> bool {
    forall|i: int, j: int|
        0 <= i < s.len() && 0 <= j < s.len() && i != j ==> s[i].key != s[j].key
}

/// Whether some entry has key `k`.
pub open spec fn has_key<K, V>(s: Seq<CacheItem<K, V>>, k: K) -> bool {
    exists|i: int| 0 <= i < s.len() && s[i].key == k
}

/// The notices of one round of added-item callbacks.
pub open spec fn added_notices(ids: Seq<CallbackId>) -> Seq<Notice> {
    ids.map_values(|c: CallbackId| Notice { kind: NoticeKind::ItemAdded, callback: c, item: 0 })
}

/// The teardown of one removed item, at position `idx` of what was removed:
/// every table-level about-to-delete callback, then every callback of the
/// item's own about-to-expire list.
pub open spec fn teardown_notices(
    table_ids: Seq<CallbackId>,
    item_ids: Seq<CallbackId>,
    idx: usize,
) -> Seq<Notice> {
    delete_notices(table_ids, idx) + expire_notices(item_ids, idx)
}

/// The notices of one round of about-to-delete callbacks for removed item `idx`.
pub open spec fn delete_notices(ids: Seq<CallbackId>, idx: usize) -> Seq<Notice> {
    ids.map_values(
        |c: CallbackId| Notice { kind: NoticeKind::ItemAboutToDelete, callback: c, item: idx },
    )
}

/// The notices of one round of about-to-expire callbacks for removed item `idx`.
pub open spec fn expire_notices(ids: Seq<CallbackId>, idx: usize) -> Seq<Notice> {
    ids.map_values(
        |c: CallbackId| Notice { kind: NoticeKind::KeyAboutToExpire, callback: c, item: idx },
    )
}

/// Whether adding an item with this life span must wake a scheduler armed
/// with `interval`.
pub open spec fn needs_wake(life_span: u64, interval: u64) -> bool {
    life_span > 0 && (interval == 0 || life_span < interval)
}

/// `new` is `old` with `item` stored under its key: in place of the entry
/// `prev` that held the key before, or at the end when none did.
pub open spec fn put<K, V>(
    old: Seq<CacheItem<K, V>>,
    new: Seq<CacheItem<K, V>>,
    item: CacheItem<K, V>,
    prev: Option<CacheItem<K, V>>,
) -> bool {
    match prev {
        Some(p) => exists|i: int|
            0 <= i < old.len() && old[i] == p && p.key == item.key && new == old.update(i, item),
        None => !has_key(old, item.key) && new == old.push(item),
    }
}

/// One call of `not_found_add` with key `key` took the entries from
/// `before` to `after` and returned `r`: it added an entry with the key
/// exactly when none had it, and otherwise changed nothing.
pub open spec fn added_if_absent<K, V>(
    before: Seq<CacheItem<K, V>>,
    after: Seq<CacheItem<K, V>>,
    key: K,
    r: bool,
) -> bool {
    &&& r == !has_key(before, key)
    &&& !r ==> after == before
    &&& r ==> exists|it: CacheItem<K, V>| it.key == key && after == before.push(it)
}

/// `it` is an item just made from these arguments at `now`.
pub open spec fn fresh<K, V>(it: CacheItem<K, V>, key: K, life_span: u64, value: V, now: u64) -> bool {
    &&& it.key == key
    &&& it.value == value
    &&& it.life_span == life_span
    &&& it.created_on == now
    &&& it.accessed_on == now
    &&& it.access_count == 0
    &&& it.about_to_expire@ == Seq::<CallbackId>::empty()
}

/// `new` is `old` after an access at `now` to the entry at position `i`.
pub open spec fn touched<K, V>(
    old: Seq<CacheItem<K, V>>,
    new: Seq<CacheItem<K, V>>,
    i: int,
    now: u64,
) -> bool {
    &&& 0 <= i < old.len()
    &&& new.len() == old.len()
    &&& forall|j: int| 0 <= j < old.len() && j != i ==> new[j] == old[j]
    &&& new[i].key == old[i].key
    &&& new[i].value == old[i].value
    &&& new[i].life_span == old[i].life_span
    &&& new[i].created_on == old[i].created_on
    &&& new[i].about_to_expire == old[i].about_to_expire
    &&& new[i].access_count == next_count(old[i].access_count)
    &&& new[i].accessed_on == if now >= old[i].accessed_on {
        now
    } else {
        old[i].accessed_on
    }
}

/// The entries of `s` that a sweep at `now` keeps, in order.
pub open spec fn survivors<K, V>(s: Seq<CacheItem<K, V>>, now: u64) -> Seq<CacheItem<K, V>>
    decreases s.len(),
{
    if s.len() == 0 {
        Seq::empty()
    } else {
        let r = survivors(s.drop_last(), now);
        if s.last().expired_at(now) {
            r
        } else {
            r.push(s.last())
        }
    }
}

/// The entries of `s` that a sweep at `now` removes, in order.
pub open spec fn expired_items<K, V>(s: Seq<CacheItem<K, V>>, now: u64) -> Seq<CacheItem<K, V>>
    decreases s.len(),
{
    if s.len() == 0 {
        Seq::empty()
    } else {
        let r = expired_items(s.drop_last(), now);
        if s.last().expired_at(now) {
            r.push(s.last())
        } else {
            r
        }
    }
}

/// The sleep that a sweep at `now` arms the scheduler with: the least time
/// left among the entries of `s` that can expire and have not, or zero
/// (idle) when there are none.
pub open spec fn next_wake<K, V>(s: Seq<CacheItem<K, V>>, now: u64) -> nat
    decreases s.len(),
{
    if s.len() == 0 {
        0
    } else {
        let w = next_wake(s.drop_last(), now);
        let it = s.last();
        if it.life_span == 0 || it.expired_at(now) {
            w
        } else if w == 0 || it.remaining_at(now) < w {
            it.remaining_at(now)
        } else {
            w
        }
    }
}

/// The teardowns of the removed items `removed`, one after another.
pub open spec fn sweep_notices<K, V>(table_ids: Seq<CallbackId>, removed: Seq<CacheItem<K, V>>) -> Seq<
    Notice,
>
    decreases removed.len(),
{
    if removed.len() == 0 {
        Seq::empty()
    } else {
        sweep_notices(table_ids, removed.drop_last()) + teardown_notices(
            table_ids,
            removed.last().about_to_expire@,
            (removed.len() - 1) as usize,
        )
    }
}

/// Removing one entry keeps the keys unique.
pub proof fn lemma_remove_keeps_unique<K, V>(s: Seq<CacheItem<K, V>>, i: int)
    requires
        keys_unique(s),
        0 <= i < s.len(),
    ensures
        keys_unique(s.remove(i)),
{
    let t = s.remove(i);
    assert forall|a: int, b: int| 0 <= a < t.len() && 0 <= b < t.len() && a != b implies t[a].key
        != t[b].key by {
        let oa = if a < i { a } else { a + 1 };
        let ob = if b < i { b } else { b + 1 };
        assert(t[a] == s[oa]);
        assert(t[b] == s[ob]);
    }
}

impl<K: TypedMap<Value = V>, V> CacheTable<K, V> {
    /// Keys are unique.
    pub open spec fn wf(&self) -> bool {
        keys_unique(self.items@)
    }

    /// Whether the table holds key `k`.
    pub open spec fn contains(&self, k: K) -> bool {
        has_key(self.items@, k)
    }

    /// An empty, idle table.
    pub fn new(name: String) -> (r: Self)
        ensures
            r.wf(),
            r.name@ == name@,
            r.items@ == Seq::<CacheItem<K, V>>::empty(),
            r.clean_up_interval == 0,
            r.added_item@ == Seq::<CallbackId>::empty(),
            r.about_to_delete_item@ == Seq::<CallbackId>::empty(),
            r.notices@ == Seq::<Notice>::empty(),
            !r.wake,
    {
        CacheTable {
            name,
            items: Vec::new(),
            clean_up_interval: 0,
            added_item: Vec::new(),
            about_to_delete_item: Vec::new(),
            notices: Vec::new(),
            wake: false,
        }
    }

    /// The number of entries.
    pub fn count(&self) -> (r: usize)
        ensures
            r == self.items@.len(),
    {
        self.items.len()
    }

    /// The position of the entry with key `key`, if any.
    fn find(&self, key: &K) -> (r: Option<usize>)
        requires
            obeys_concrete_eq::<K>(),
        ensures
            match r {
                Some(i) => i < self.items@.len() && self.items@[i as int].key == *key,
                None => !self.contains(*key),
            },
    {
        proof {
            reveal(obeys_concrete_eq);
        }
        let mut i: usize = 0;
        while i < self.items.len()
            invariant
                i <= self.items@.len(),
                obeys_concrete_eq::<K>(),
                forall|j: int| 0 <= j < i ==> self.items@[j].key != *key,
            decreases self.items@.len() - i,
        {
            proof {
                reveal(obeys_concrete_eq);
            }
            if self.items[i].key == *key {
                return Some(i);
            }
            i = i + 1;
        }
        None
    }

    /// The entry with key `key`, unchanged: no access is recorded and no data
    /// loader is consulted.
    pub fn get(&self, key: &K) -> (r: Option<&CacheItem<K, V>>)
        requires
            obeys_concrete_eq::<K>(),
        ensures
            r is Some <==> self.contains(*key),
            r is Some ==> exists|i: int|
                0 <= i < self.items@.len() && self.items@[i].key == *key && self.items@[i]
                    == *r->Some_0,
    {
        match self.find(key) {
            Some(i) => Some(&self.items[i]),
            None => None,
        }
    }

    /// Whether the table holds key `key`.
    pub fn key_exists(&self, key: K) -> (r: bool)
        requires
            obeys_concrete_eq::<K>(),
        ensures
            r == self.contains(key),
    {
        self.find(&key).is_some()
    }

    /// Queues one round of added-item callbacks.
    fn queue_added(&mut self)
        ensures
            final(self).notices@ == old(self).notices@ + added_notices(old(self).added_item@),
            final(self).items == old(self).items,
            final(self).added_item == old(self).added_item,
            final(self).about_to_delete_item == old(self).about_to_delete_item,
            final(self).clean_up_interval == old(self).clean_up_interval,
            final(self).wake == old(self).wake,
    {
        let ghost start = self.notices@;
        let mut j: usize = 0;
        while j < self.added_item.len()
            invariant
                j <= self.added_item@.len(),
                self.items == old(self).items,
                self.added_item == old(self).added_item,
                self.about_to_delete_item == old(self).about_to_delete_item,
                self.clean_up_interval == old(self).clean_up_interval,
                self.wake == old(self).wake,
                self.notices@ == start + added_notices(self.added_item@.take(j as int)),
            decreases self.added_item@.len() - j,
        {
            let c = self.added_item[j];
            self.notices.push(Notice { kind: NoticeKind::ItemAdded, callback: c, item: 0 });
            proof {
                assert(self.added_item@.take(j + 1) =~= self.added_item@.take(j as int).push(c));
                assert(added_notices(self.added_item@.take(j + 1)) =~= added_notices(
                    self.added_item@.take(j as int),
                ).push(Notice { kind: NoticeKind::ItemAdded, callback: c, item: 0 }));
            }
            j = j + 1;
        }
        assert(self.added_item@.take(j as int) =~= self.added_item@);
    }

    /// Queues the teardown of a removed item whose own about-to-expire
    /// callbacks are `item_ids`, at position `idx` of what was removed.
    fn queue_teardown(&mut self, item_ids: &Vec<CallbackId>, idx: usize)
        ensures
            final(self).notices@ == old(self).notices@ + teardown_notices(
                old(self).about_to_delete_item@,
                item_ids@,
                idx,
            ),
            final(self).items == old(self).items,
            final(self).added_item == old(self).added_item,
            final(self).about_to_delete_item == old(self).about_to_delete_item,
            final(self).clean_up_interval == old(self).clean_up_interval,
            final(self).wake == old(self).wake,
    {
        let ghost start = self.notices@;
        let mut j: usize = 0;
        while j < self.about_to_delete_item.len()
            invariant
                j <= self.about_to_delete_item@.len(),
                self.items == old(self).items,
                self.added_item == old(self).added_item,
                self.about_to_delete_item == old(self).about_to_delete_item,
                self.clean_up_interval == old(self).clean_up_interval,
                self.wake == old(self).wake,
                self.notices@ == start + delete_notices(self.about_to_delete_item@.take(j as int), idx),
            decreases self.about_to_delete_item@.len() - j,
        {
            let c = self.about_to_delete_item[j];
            self.notices.push(Notice { kind: NoticeKind::ItemAboutToDelete, callback: c, item: idx });
            proof {
                assert(self.about_to_delete_item@.take(j + 1) =~= self.about_to_delete_item@.take(
                    j as int,
                ).push(c));
                assert(delete_notices(self.about_to_delete_item@.take(j + 1), idx) =~= delete_notices(
                    self.about_to_delete_item@.take(j as int),
                    idx,
                ).push(Notice { kind: NoticeKind::ItemAboutToDelete, callback: c, item: idx }));
            }
            j = j + 1;
        }
        assert(self.about_to_delete_item@.take(j as int) =~= self.about_to_delete_item@);
        let ghost mid = self.notices@;
        let mut k: usize = 0;
        while k < item_ids.len()
            invariant
                k <= item_ids@.len(),
                self.items == old(self).items,
                self.added_item == old(self).added_item,
                self.about_to_delete_item == old(self).about_to_delete_item,
                self.clean_up_interval == old(self).clean_up_interval,
                self.wake == old(self).wake,
                self.notices@ == mid + expire_notices(item_ids@.take(k as int), idx),
            decreases item_ids@.len() - k,
        {
            let c = item_ids[k];
            self.notices.push(Notice { kind: NoticeKind::KeyAboutToExpire, callback: c, item: idx });
            proof {
                assert(item_ids@.take(k + 1) =~= item_ids@.take(k as int).push(c));
                assert(expire_notices(item_ids@.take(k + 1), idx) =~= expire_notices(
                    item_ids@.take(k as int),
                    idx,
                ).push(Notice { kind: NoticeKind::KeyAboutToExpire, callback: c, item: idx }));
            }
            k = k + 1;
        }
        assert(item_ids@.take(k as int) =~= item_ids@);
        assert(self.notices@ =~= old(self).notices@ + teardown_notices(
            old(self).about_to_delete_item@,
            item_ids@,
            idx,
        ));
    }

    /// Stores `item` under its key, queues the added-item callbacks and, when
    /// the item expires sooner than the scheduler is armed for, asks the
    /// scheduler to re-evaluate. Returns the entry it replaced and the
    /// position of the new one.
    fn add_internal(&mut self, item: CacheItem<K, V>) -> (r: (Option<CacheItem<K, V>>, usize))
        requires
            old(self).wf(),
            obeys_concrete_eq::<K>(),
        ensures
            final(self).wf(),
            put(old(self).items@, final(self).items@, item, r.0),
            r.1 < final(self).items@.len(),
            final(self).items@[r.1 as int] == item,
            final(self).notices@ == old(self).notices@ + added_notices(old(self).added_item@),
            final(self).wake == (old(self).wake || needs_wake(
                item.life_span,
                old(self).clean_up_interval,
            )),
            final(self).added_item == old(self).added_item,
            final(self).about_to_delete_item == old(self).about_to_delete_item,
            final(self).clean_up_interval == old(self).clean_up_interval,
    {
        let life_span = item.life_span;
        let ghost it = item;
        let r = match self.find(&item.key) {
            Some(i) => {
                let prev = self.items.remove(i);
                self.items.insert(i, item);
                proof {
                    assert(old(self).items@.remove(i as int).insert(i as int, it) =~= old(
                        self,
                    ).items@.update(i as int, it));
                    assert(keys_unique(self.items@));
                }
                (Some(prev), i)
            },
            None => {
                let n = self.items.len();
                self.items.push(item);
                (None, n)
            },
        };
        self.queue_added();
        if life_span > 0 && (self.clean_up_interval == 0 || life_span < self.clean_up_interval) {
            self.wake = true;
        }
        r
    }

    /// Stores a new item made from the arguments at `now`, in place of the
    /// entry that held `key`, which is returned.
    pub fn add(&mut self, key: K, life_span: u64, value: V, now: u64) -> (r: Option<CacheItem<K, V>>)
        requires
            old(self).wf(),
            obeys_concrete_eq::<K>(),
        ensures
            final(self).wf(),
            exists|it: CacheItem<K, V>|
                fresh(it, key, life_span, value, now) && put(old(self).items@, final(self).items@, it, r),
            r is None <==> !old(self).contains(key),
            final(self).contains(key),
            final(self).notices@ == old(self).notices@ + added_notices(old(self).added_item@),
            final(self).wake == (old(self).wake || needs_wake(life_span, old(self).clean_up_interval)),
            final(self).added_item == old(self).added_item,
            final(self).about_to_delete_item == old(self).about_to_delete_item,
            final(self).clean_up_interval == old(self).clean_up_interval,
    {
        let item = CacheItem::new(key, life_span, value, now);
        let ghost it = item;
        let (r, i) = self.add_internal(item);
        assert(fresh(it, key, life_span, value, now));
        assert(self.items@[i as int].key == key);
        r
    }

    /// Adds a new item made from the arguments at `now` when no entry has
    /// `key`, as `add` does; otherwise changes nothing. Returns whether it added.
    pub fn not_found_add(&mut self, key: K, life_span: u64, value: V, now: u64) -> (r: bool)
        requires
            old(self).wf(),
            obeys_concrete_eq::<K>(),
        ensures
            final(self).wf(),
            added_if_absent(old(self).items@, final(self).items@, key, r),
            final(self).contains(key),
            !r ==> *final(self) == *old(self),
            r ==> exists|it: CacheItem<K, V>|
                fresh(it, key, life_span, value, now) && final(self).items@ == old(
                    self,
                ).items@.push(it),
            r ==> final(self).notices@ == old(self).notices@ + added_notices(old(self).added_item@),
            r ==> final(self).wake == (old(self).wake || needs_wake(
                life_span,
                old(self).clean_up_interval,
            )),
            final(self).added_item == old(self).added_item,
            final(self).about_to_delete_item == old(self).about_to_delete_item,
            final(self).clean_up_interval == old(self).clean_up_interval,
    {
        if let Some(j) = self.find(&key) {
            assert(self.items@[j as int].key == key);
            return false;
        }
        let item = CacheItem::new(key, life_span, value, now);
        let ghost it = item;
        let (_, i) = self.add_internal(item);
        assert(fresh(it, key, life_span, value, now));
        assert(self.items@[i as int].key == key);
        true
    }

    /// Removes the entry with key `key` and queues its teardown: the
    /// table's about-to-delete callbacks, then the item's about-to-expire
    /// callbacks. Fails with `KeyNotFound`, changing nothing, when no entry
    /// has the key.
    pub fn delete(&mut self, key: &K) -> (r: Result<CacheItem<K, V>, Error>)
        requires
            old(self).wf(),
            obeys_concrete_eq::<K>(),
        ensures
            final(self).wf(),
            r is Err <==> !old(self).contains(*key),
            r is Err ==> r == Err::<CacheItem<K, V>, Error>(Error::KeyNotFound) && *final(self)
                == *old(self),
            r is Ok ==> exists|i: int|
                0 <= i < old(self).items@.len() && old(self).items@[i] == r->Ok_0
                    && r->Ok_0.key == *key && final(self).items@ == old(self).items@.remove(i),
            r is Ok ==> final(self).notices@ == old(self).notices@ + teardown_notices(
                old(self).about_to_delete_item@,
                r->Ok_0.about_to_expire@,
                0,
            ),
            final(self).added_item == old(self).added_item,
            final(self).about_to_delete_item == old(self).about_to_delete_item,
            final(self).clean_up_interval == old(self).clean_up_interval,
            final(self).wake == old(self).wake,
    {
        match self.find(key) {
            None => Err(Error::KeyNotFound),
            Some(i) => {
                let item = self.items.remove(i);
                proof {
                    lemma_remove_keeps_unique(old(self).items@, i as int);
                }
                self.queue_teardown(&item.about_to_expire, 0);
                Ok(item)
            },
        }
    }

    /// Removes every entry, without firing any callback, and leaves the
    /// scheduler idle.
    pub fn flush(&mut self)
        ensures
            final(self).wf(),
            final(self).items@ == Seq::<CacheItem<K, V>>::empty(),
            final(self).clean_up_interval == 0,
            final(self).added_item == old(self).added_item,
            final(self).about_to_delete_item == old(self).about_to_delete_item,
            final(self).notices == old(self).notices,
            final(self).wake == old(self).wake,
    {
        self.items.clear();
        self.clean_up_interval = 0;
    }

    /// Stores what a data loader produced for the missing key `key`: nothing
    /// fails with `KeyNotFoundOrLoadable` and changes nothing; an item is
    /// stored under `key`, as `add` stores one, and returned.
    pub fn load(&mut self, key: K, loaded: Option<CacheItem<K, V>>) -> (r: Result<
        &CacheItem<K, V>,
        Error,
    >)
        requires
            old(self).wf(),
            obeys_concrete_eq::<K>(),
        ensures
            final(self).wf(),
            loaded is None ==> r == Err::<&CacheItem<K, V>, Error>(Error::KeyNotFoundOrLoadable)
                && *final(self) == *old(self),
            loaded is Some ==> r is Ok && r->Ok_0.key == key && r->Ok_0.value
                == loaded->Some_0.value && r->Ok_0.life_span == loaded->Some_0.life_span
                && r->Ok_0.created_on == loaded->Some_0.created_on && r->Ok_0.accessed_on
                == loaded->Some_0.accessed_on && r->Ok_0.access_count
                == loaded->Some_0.access_count && r->Ok_0.about_to_expire
                == loaded->Some_0.about_to_expire,
            loaded is Some ==> final(self).contains(key),
            loaded is Some ==> exists|prev: Option<CacheItem<K, V>>|
                put(old(self).items@, final(self).items@, *r->Ok_0, prev),
            loaded is Some ==> final(self).notices@ == old(self).notices@ + added_notices(
                old(self).added_item@,
            ),
            loaded is Some ==> final(self).wake == (old(self).wake || needs_wake(
                loaded->Some_0.life_span,
                old(self).clean_up_interval,
            )),
            final(self).added_item == old(self).added_item,
            final(self).about_to_delete_item == old(self).about_to_delete_item,
            final(self).clean_up_interval == old(self).clean_up_interval,
    {
        match loaded {
            None => Err(Error::KeyNotFoundOrLoadable),
            Some(it) => {
                let mut it = it;
                it.key = key;
                let ghost stored = it;
                let (prev, i) = self.add_internal(it);
                let ghost p = prev;
                assert(self.items@[i as int].key == key);
                assert(put(old(self).items@, self.items@, stored, p));
                Ok(&self.items[i])
            },
        }
    }

    /// Records an access at `now` to the entry at position `i`.
    fn touch(&mut self, i: usize, now: u64)
        requires
            old(self).wf(),
            i < old(self).items@.len(),
        ensures
            final(self).wf(),
            touched(old(self).items@, final(self).items@, i as int, now),
            final(self).added_item == old(self).added_item,
            final(self).about_to_delete_item == old(self).about_to_delete_item,
            final(self).clean_up_interval == old(self).clean_up_interval,
            final(self).notices == old(self).notices,
            final(self).wake == old(self).wake,
    {
        let mut it = self.items.remove(i);
        it.keep_alive(now);
        self.items.insert(i, it);
        proof {
            let o = old(self).items@;
            assert(self.items@ =~= o.update(i as int, self.items@[i as int]));
            assert forall|a: int, b: int|
                0 <= a < self.items@.len() && 0 <= b < self.items@.len() && a
                    != b implies self.items@[a].key != self.items@[b].key by {
                assert(self.items@[a].key == o[a].key);
                assert(self.items@[b].key == o[b].key);
            }
        }
    }

    /// The entry with key `key`, after recording an access to it at `now`.
    /// A miss fails with `KeyNotFound` and changes nothing: this is the
    /// lookup of a table without a data loader.
    pub fn value(&mut self, key: K, now: u64) -> (r: Result<&CacheItem<K, V>, Error>)
        requires
            old(self).wf(),
            obeys_concrete_eq::<K>(),
        ensures
            final(self).wf(),
            old(self).contains(key) ==> r is Ok && exists|i: int|
                old(self).items@[i].key == key && touched(
                    old(self).items@,
                    final(self).items@,
                    i,
                    now,
                ) && *r->Ok_0 == final(self).items@[i],
            old(self).contains(key) ==> final(self).notices == old(self).notices
                && final(self).wake == old(self).wake,
            !old(self).contains(key) ==> r == Err::<&CacheItem<K, V>, Error>(Error::KeyNotFound)
                && *final(self) == *old(self),
            final(self).added_item == old(self).added_item,
            final(self).about_to_delete_item == old(self).about_to_delete_item,
            final(self).clean_up_interval == old(self).clean_up_interval,
    {
        match self.find(&key) {
            Some(i) => {
                self.touch(i, now);
                Ok(&self.items[i])
            },
            None => Err(Error::KeyNotFound),
        }
    }

    /// The entry with key `key`, after recording an access to it at `now`.
    /// On a miss `loader` is called once with the key, and what it returns
    /// is stored as `load` stores it: this is the lookup of a table with a
    /// data loader.
    pub fn value_or_load<F>(&mut self, key: K, now: u64, loader: &F) -> (r: Result<
        &CacheItem<K, V>,
        Error,
    >) where F: Fn(&K) -> Option<CacheItem<K, V>>
        requires
            old(self).wf(),
            obeys_concrete_eq::<K>(),
            forall|k: &K| #[trigger] loader.requires((k,)),
        ensures
            final(self).wf(),
            old(self).contains(key) ==> r is Ok && exists|i: int|
                old(self).items@[i].key == key && touched(
                    old(self).items@,
                    final(self).items@,
                    i,
                    now,
                ) && *r->Ok_0 == final(self).items@[i],
            old(self).contains(key) ==> final(self).notices == old(self).notices
                && final(self).wake == old(self).wake,
            !old(self).contains(key) ==> (r is Ok || r == Err::<&CacheItem<K, V>, Error>(
                Error::KeyNotFoundOrLoadable,
            )),
            !old(self).contains(key) ==> exists|loaded: Option<CacheItem<K, V>>|
                loader.ensures((&key,), loaded) && (loaded is None <==> r is Err),
            r is Err ==> *final(self) == *old(self),
            r is Ok ==> r->Ok_0.key == key && final(self).contains(key),
            final(self).added_item == old(self).added_item,
            final(self).about_to_delete_item == old(self).about_to_delete_item,
            final(self).clean_up_interval == old(self).clean_up_interval,
    {
        match self.find(&key) {
            Some(i) => {
                self.touch(i, now);
                Ok(&self.items[i])
            },
            None => {
                let loaded = loader(&key);
                let ghost l = loaded;
                let r = self.load(key, loaded);
                assert(loader.ensures((&key,), l));
                r
            },
        }
    }

    /// The sweep of the expiration scheduler at `now`: removes, in entry
    /// order, every entry that has run out of time and returns them; queues
    /// the teardown of each, in that order; and arms the scheduler with the
    /// least time left among the entries that remain and can expire, or
    /// leaves it idle when there are none.
    pub fn expire(&mut self, now: u64) -> (r: Vec<CacheItem<K, V>>)
        requires
            old(self).wf(),
        ensures
            final(self).wf(),
            final(self).items@ == survivors(old(self).items@, now),
            r@ == expired_items(old(self).items@, now),
            final(self).clean_up_interval == next_wake(old(self).items@, now),
            final(self).notices@ == old(self).notices@ + sweep_notices(
                old(self).about_to_delete_item@,
                r@,
            ),
            final(self).added_item == old(self).added_item,
            final(self).about_to_delete_item == old(self).about_to_delete_item,
            final(self).wake == old(self).wake,
    {
        let ghost orig = self.items@;
        let ghost ids = self.about_to_delete_item@;
        let ghost start = self.notices@;
        let mut removed: Vec<CacheItem<K, V>> = Vec::new();
        let mut wake: u64 = 0;
        let mut i: usize = 0;
        let ghost mut j: int = 0;
        while i < self.items.len()
            invariant
                0 <= j <= orig.len(),
                self.items@.len() - i == orig.len() - j,
                i <= self.items@.len(),
                self.items@ == survivors(orig.take(j), now) + orig.skip(j),
                i == survivors(orig.take(j), now).len(),
                removed@ == expired_items(orig.take(j), now),
                wake == next_wake(orig.take(j), now),
                keys_unique(self.items@),
                self.notices@ == start + sweep_notices(ids, removed@),
                self.about_to_delete_item@ == ids,
                self.added_item == old(self).added_item,
                self.about_to_delete_item == old(self).about_to_delete_item,
                self.wake == old(self).wake,
            decreases self.items@.len() - i,
        {
            let ghost surv = survivors(orig.take(j), now);
            proof {
                assert(orig.take(j + 1) =~= orig.take(j).push(orig[j]));
                assert(orig.take(j + 1).drop_last() =~= orig.take(j));
                assert(self.items@[i as int] == orig[j]);
            }
            if self.items[i].is_expired(now) {
                let it = self.items.remove(i);
                proof {
                    lemma_remove_keeps_unique(self.items@.insert(i as int, it), i as int);
                    assert(self.items@ =~= surv + orig.skip(j + 1));
                }
                let ghost before = removed@;
                self.queue_teardown(&it.about_to_expire, removed.len());
                removed.push(it);
                proof {
                    assert(removed@.drop_last() =~= before);
                }
            } else {
                if self.items[i].life_span > 0 {
                    let rem = self.items[i].remaining(now);
                    if wake == 0 || rem < wake {
                        wake = rem;
                    }
                }
                proof {
                    assert(self.items@ =~= surv.push(orig[j]) + orig.skip(j + 1));
                }
                i = i + 1;
            }
            proof {
                j = j + 1;
            }
        }
        proof {
            assert(orig.take(j) =~= orig);
        }
        self.clean_up_interval = wake;
        removed
    }

    /// The scheduler's state as the last sweep or flush left it.
    pub fn scheduler_state(&self) -> (r: SchedulerState)
        ensures
            self.clean_up_interval == 0 ==> r == SchedulerState::Idle,
            self.clean_up_interval > 0 ==> r == SchedulerState::Armed(self.clean_up_interval),
    {
        if self.clean_up_interval == 0 {
            SchedulerState::Idle
        } else {
            SchedulerState::Armed(self.clean_up_interval)
        }
    }

    /// Calls `trans` with the key and the entry, for each entry in order.
    pub fn foreach<F>(&self, trans: F) where F: Fn(&K, &CacheItem<K, V>)
        requires
            forall|k: &K, it: &CacheItem<K, V>| #[trigger] trans.requires((k, it)),
    {
        let mut i: usize = 0;
        while i < self.items.len()
            invariant
                i <= self.items@.len(),
                forall|k: &K, it: &CacheItem<K, V>| #[trigger] trans.requires((k, it)),
            decreases self.items@.len() - i,
        {
            let it = &self.items[i];
            trans(&it.key, it);
            i = i + 1;
        }
    }

    /// The about-to-expire callbacks of the entry with key `key`, for change;
    /// the entry's other fields stay as they are.
    pub fn about_to_expire_callbacks(&mut self, key: &K) -> (r: Option<&mut Vec<CallbackId>>)
        requires
            old(self).wf(),
            obeys_concrete_eq::<K>(),
        ensures
            r is Some <==> old(self).contains(*key),
            r is None ==> *final(self) == *old(self),
            r is Some ==> exists|i: int|
                0 <= i < old(self).items@.len() && old(self).items@[i].key == *key
                    && *r->Some_0 == old(self).items@[i].about_to_expire
                    && final(self).items@.len() == old(self).items@.len()
                    && final(self).items@[i].about_to_expire == *final(r->Some_0)
                    && final(self).items@[i].key == old(self).items@[i].key
                    && final(self).items@[i].value == old(self).items@[i].value
                    && final(self).items@[i].life_span == old(self).items@[i].life_span
                    && final(self).items@[i].created_on == old(self).items@[i].created_on
                    && final(self).items@[i].accessed_on == old(self).items@[i].accessed_on
                    && final(self).items@[i].access_count == old(self).items@[i].access_count
                    && forall|j: int| 0 <= j < old(self).items@.len() && j != i
                        ==> final(self).items@[j] == old(self).items@[j],
            final(self).wf(),
            final(self).added_item == old(self).added_item,
            final(self).about_to_delete_item == old(self).about_to_delete_item,
            final(self).clean_up_interval == old(self).clean_up_interval,
            final(self).notices == old(self).notices,
            final(self).wake == old(self).wake,
    {
        match self.find(key) {
            Some(i) => Some(&mut self.items[i].about_to_expire),
            None => None,
        }
    }

    /// Replaces the added-item callbacks by `f` alone.
    pub fn set_added_item_callback(&mut self, f: CallbackId)
        ensures
            final(self).added_item@ == seq![f],
            final(self).items == old(self).items,
            final(self).about_to_delete_item == old(self).about_to_delete_item,
            final(self).clean_up_interval == old(self).clean_up_interval,
            final(self).notices == old(self).notices,
            final(self).wake == old(self).wake,
    {
        self.added_item.clear();
        self.added_item.push(f);
    }

    /// Appends `f` to the added-item callbacks.
    pub fn add_added_item_callback(&mut self, f: CallbackId)
        ensures
            final(self).added_item@ == old(self).added_item@.push(f),
            final(self).items == old(self).items,
            final(self).about_to_delete_item == old(self).about_to_delete_item,
            final(self).clean_up_interval == old(self).clean_up_interval,
            final(self).notices == old(self).notices,
            final(self).wake == old(self).wake,
    {
        self.added_item.push(f);
    }

    /// Removes all added-item callbacks.
    pub fn remove_added_item_callbacks(&mut self)
        ensures
            final(self).added_item@ == Seq::<CallbackId>::empty(),
            final(self).items == old(self).items,
            final(self).about_to_delete_item == old(self).about_to_delete_item,
            final(self).clean_up_interval == old(self).clean_up_interval,
            final(self).notices == old(self).notices,
            final(self).wake == old(self).wake,
    {
        self.added_item.clear();
    }

    /// Replaces the about-to-delete callbacks by `f` alone.
    pub fn set_about_to_delete_item_callback(&mut self, f: CallbackId)
        ensures
            final(self).about_to_delete_item@ == seq![f],
            final(self).items == old(self).items,
            final(self).added_item == old(self).added_item,
            final(self).clean_up_interval == old(self).clean_up_interval,
            final(self).notices == old(self).notices,
            final(self).wake == old(self).wake,
    {
        self.about_to_delete_item.clear();
        self.about_to_delete_item.push(f);
    }

    /// Appends `f` to the about-to-delete callbacks.
    pub fn add_about_to_delete_item_callback(&mut self, f: CallbackId)
        ensures
            final(self).about_to_delete_item@ == old(self).about_to_delete_item@.push(f),
            final(self).items == old(self).items,
            final(self).added_item == old(self).added_item,
            final(self).clean_up_interval == old(self).clean_up_interval,
            final(self).notices == old(self).notices,
            final(self).wake == old(self).wake,
    {
        self.about_to_delete_item.push(f);
    }

    /// Removes all about-to-delete callbacks.
    pub fn remove_about_to_delete_item_callbacks(&mut self)
        ensures
            final(self).about_to_delete_item@ == Seq::<CallbackId>::empty(),
            final(self).items == old(self).items,
            final(self).added_item == old(self).added_item,
            final(self).clean_up_interval == old(self).clean_up_interval,
            final(self).notices == old(self).notices,
            final(self).wake == old(self).wake,
    {
        self.about_to_delete_item.clear();
    }

    /// Hands out the queued notices, in order, and empties the queue.
    pub fn take_notices(&mut self) -> (r: Vec<Notice>)
        ensures
            r@ == old(self).notices@,
            final(self).notices@ == Seq::<Notice>::empty(),
            final(self).items == old(self).items,
            final(self).added_item == old(self).added_item,
            final(self).about_to_delete_item == old(self).about_to_delete_item,
            final(self).clean_up_interval == old(self).clean_up_interval,
            final(self).wake == old(self).wake,
    {
        let mut r: Vec<Notice> = Vec::new();
        std::mem::swap(&mut r, &mut self.notices);
        r
    }

    /// Whether the scheduler was asked to re-evaluate since the last call;
    /// clears the request.
    pub fn take_wake(&mut self) -> (r: bool)
        ensures
            r == old(self).wake,
            !final(self).wake,
            final(self).items == old(self).items,
            final(self).added_item == old(self).added_item,
            final(self).about_to_delete_item == old(self).about_to_delete_item,
            final(self).clean_up_interval == old(self).clean_up_interval,
            final(self).notices == old(self).notices,
    {
        let r = self.wake;
        self.wake = false;
        r
    }
}

} // verus!
