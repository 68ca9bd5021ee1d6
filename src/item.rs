use vstd::prelude::*;

verus! {

/// Identifier of a callback registered by the embedding program. The library
/// keeps the order of registration and says, through notices, which
/// callbacks fire and in what order; the program owns the closures.
pub type CallbackId = u64;

/// One cache entry.
///
/// Timestamps and life spans are nanoseconds on the embedding program's
/// monotonic clock. A life span of zero means that the entry never expires.
#[derive(Clone)]
pub struct CacheItem<K, V> {
    pub key: K,
    pub value: V,
    pub life_span: u64,
    pub created_on: u64,
    pub accessed_on: u64,
    pub access_count: usize,
    pub about_to_expire: Vec<CallbackId>,
}

/// The access counter after one more access: it wraps at the top of `usize`,
/// as an atomic counter does.
pub open spec fn next_count(c: usize) -> usize {
    if c == usize::MAX {
        0
    } else {
        (c + 1) as usize
    }
}

impl<K, V> CacheItem<K, V> {
    /// An item is well formed when it was not accessed before it was created.
    pub open spec fn wf(&self) -> bool {
        self.created_on <= self.accessed_on
    }

    /// Whether the item has run out of time at `now`.
    pub open spec fn expired_at(&self, now: u64) -> bool {
        self.life_span > 0 && self.elapsed_at(now) >= self.life_span
    }

    /// Time since the last access; a clock reading before it counts as none.
    pub open spec fn elapsed_at(&self, now: u64) -> nat {
        if now >= self.accessed_on {
            (now - self.accessed_on) as nat
        } else {
            0
        }
    }

    /// Time left before the item expires.
    pub open spec fn remaining_at(&self, now: u64) -> nat {
        if self.elapsed_at(now) >= self.life_span {
            0
        } else {
            (self.life_span - self.elapsed_at(now)) as nat
        }
    }

    /// A new item, created and last accessed at `now`, never accessed since.
    pub fn new(key: K, life_span: u64, value: V, now: u64) -> (r: Self)
        ensures
            r.key == key,
            r.value == value,
            r.life_span == life_span,
            r.created_on == now,
            r.accessed_on == now,
            r.access_count == 0,
            r.about_to_expire@ == Seq::<CallbackId>::empty(),
            r.wf(),
    {
        CacheItem {
            key,
            value,
            life_span,
            created_on: now,
            accessed_on: now,
            access_count: 0,
            about_to_expire: Vec::new(),
        }
    }

    /// Records an access at `now`: the access time moves forward to `now`
    /// (never backward) and the counter grows by one.
    pub fn keep_alive(&mut self, now: u64)
        ensures
            final(self).accessed_on == if now >= old(self).accessed_on {
                now
            } else {
                old(self).accessed_on
            },
            final(self).access_count == next_count(old(self).access_count),
            final(self).key == old(self).key,
            final(self).value == old(self).value,
            final(self).life_span == old(self).life_span,
            final(self).created_on == old(self).created_on,
            final(self).about_to_expire == old(self).about_to_expire,
            old(self).wf() ==> final(self).wf(),
    {
        if now >= self.accessed_on {
            self.accessed_on = now;
        }
        self.access_count = self.access_count.wrapping_add(1);
    }

    /// Whether the item has run out of time at `now`.
    pub fn is_expired(&self, now: u64) -> (r: bool)
        ensures
            r == self.expired_at(now),
    {
        if self.life_span == 0 {
            false
        } else if now >= self.accessed_on {
            now - self.accessed_on >= self.life_span
        } else {
            false
        }
    }

    /// Time left before the item expires at `now`.
    pub fn remaining(&self, now: u64) -> (r: u64)
        ensures
            r == self.remaining_at(now),
    {
        let elapsed: u64 = if now >= self.accessed_on {
            now - self.accessed_on
        } else {
            0
        };
        if elapsed >= self.life_span {
            0
        } else {
            self.life_span - elapsed
        }
    }

    /// How long the item lives without being accessed; zero means forever.
    pub fn life_span(&self) -> (r: u64)
        ensures
            r == self.life_span,
    {
        self.life_span
    }

    /// When the item was last accessed.
    pub fn accessed_on(&self) -> (r: u64)
        ensures
            r == self.accessed_on,
    {
        self.accessed_on
    }

    /// When the item was created.
    pub fn created_on(&self) -> (r: u64)
        ensures
            r == self.created_on,
    {
        self.created_on
    }

    /// How often the item was accessed.
    pub fn access_count(&self) -> (r: usize)
        ensures
            r == self.access_count,
    {
        self.access_count
    }

    /// The item's key.
    pub fn key(&self) -> (r: &K)
        ensures
            *r == self.key,
    {
        &self.key
    }

    /// The item's value.
    pub fn value(&self) -> (r: &V)
        ensures
            *r == self.value,
    {
        &self.value
    }

    /// Replaces the item's about-to-expire callbacks by `f` alone.
    pub fn set_about_to_expire_callback(&mut self, f: CallbackId)
        ensures
            final(self).about_to_expire@ == seq![f],
            final(self).key == old(self).key,
            final(self).value == old(self).value,
            final(self).life_span == old(self).life_span,
            final(self).created_on == old(self).created_on,
            final(self).accessed_on == old(self).accessed_on,
            final(self).access_count == old(self).access_count,
    {
        self.about_to_expire.clear();
        self.about_to_expire.push(f);
    }

    /// Appends `f` to the item's about-to-expire callbacks.
    pub fn add_about_to_expire_callback(&mut self, f: CallbackId)
        ensures
            final(self).about_to_expire@ == old(self).about_to_expire@.push(f),
            final(self).key == old(self).key,
            final(self).value == old(self).value,
            final(self).life_span == old(self).life_span,
            final(self).created_on == old(self).created_on,
            final(self).accessed_on == old(self).accessed_on,
            final(self).access_count == old(self).access_count,
    {
        self.about_to_expire.push(f);
    }

    /// Removes all of the item's about-to-expire callbacks.
    pub fn remove_about_to_expire_callback(&mut self)
        ensures
            final(self).about_to_expire@ == Seq::<CallbackId>::empty(),
            final(self).key == old(self).key,
            final(self).value == old(self).value,
            final(self).life_span == old(self).life_span,
            final(self).created_on == old(self).created_on,
            final(self).accessed_on == old(self).accessed_on,
            final(self).access_count == old(self).access_count,
    {
        self.about_to_expire.clear();
    }
}

} // verus!
