//! Durable cache and lock: the only coordination channel between
//! invocations that share no process memory.
//!
//! Each key owns one slot of durable state holding a cached blob and a
//! lock record. A lock is claimed with both a block-count expiry and a
//! wall-clock expiry; no holder can release early — the claim stands
//! until *both* expiries have passed, trading slightly delayed release
//! for safety against a holder that never completes.

use vstd::prelude::*;

use crate::codec::clone_bytes;
use crate::errors::LockError;

verus! {

/// A point in time as the host sees it: the ledger tick count and the
/// wall clock in milliseconds.
#[derive(Clone, Copy, PartialEq, Eq, Structural, Debug)]
pub struct Moment {
    pub block: u64,
    pub time_ms: u64,
}

/// The durable slots the worker coordinates through.
#[derive(Clone, Copy, PartialEq, Eq, Structural, Debug)]
pub enum CacheKey {
    Metadata,
    Price,
}

/// A lock record: the claim stands until both expiries have passed.
#[derive(Clone, Copy, PartialEq, Eq, Structural, Debug)]
pub struct LockStamp {
    pub expires_block: u64,
    pub expires_time_ms: u64,
}

/// One keyed slot of durable state: its lock record and its cached blob.
pub struct Slot {
    pub lock: Option<LockStamp>,
    pub value: Option<Vec<u8>>,
}

/// The durable shared state, one slot per key.
pub struct DurableStore {
    pub metadata: Slot,
    pub price: Slot,
}

/// Saturating addition: an expiry near the top of the domain clamps
/// rather than wraps.
pub open spec fn sat_add(a: u64, b: u64) -> u64 {
    if a + b > u64::MAX {
        u64::MAX
    } else {
        (a + b) as u64
    }
}

/// Is the lock still held at `now`? It is while either expiry has not
/// yet passed.
pub open spec fn lock_held(lock: Option<LockStamp>, now: Moment) -> bool {
    match lock {
        Some(st) => now.block < st.expires_block || now.time_ms < st.expires_time_ms,
        None => false,
    }
}

/// The record a successful `acquire` at `now` writes.
pub open spec fn stamp_for(now: Moment, block_ttl: u64, time_ttl_ms: u64) -> LockStamp {
    LockStamp {
        expires_block: sat_add(now.block, block_ttl),
        expires_time_ms: sat_add(now.time_ms, time_ttl_ms),
    }
}

impl DurableStore {
    pub open spec fn slot(self, key: CacheKey) -> Slot {
        match key {
            CacheKey::Metadata => self.metadata,
            CacheKey::Price => self.price,
        }
    }

    /// The cached blob under `key`, if any.
    pub open spec fn cached(self, key: CacheKey) -> Option<Seq<u8>> {
        match self.slot(key).value {
            Some(v) => Some(v@),
            None => None,
        }
    }

    /// The lock record under `key`, if any.
    pub open spec fn lock_of(self, key: CacheKey) -> Option<LockStamp> {
        self.slot(key).lock
    }

    /// Slots other than `key` agree between `a` and `b`.
    pub open spec fn agrees_except(a: DurableStore, b: DurableStore, key: CacheKey) -> bool {
        forall|k: CacheKey| k != key ==> #[trigger] a.slot(k) == b.slot(k)
    }

    /// Fresh durable state: nothing cached, nothing locked.
    pub fn new() -> (s: DurableStore)
        ensures
            forall|k: CacheKey| #[trigger] s.lock_of(k) is None,
            forall|k: CacheKey| #[trigger] s.cached(k) is None,
    {
        DurableStore {
            metadata: Slot { lock: None, value: None },
            price: Slot { lock: None, value: None },
        }
    }

    /// Try to claim exclusive ownership of `key` at `now`, recording a
    /// block-count expiry and a wall-clock expiry. Exactly one of two
    /// things happens: the key is still held — by this or any other
    /// invocation — and nothing changes, or the claim is recorded. There
    /// is no early release; only the expiries end a claim.
    pub fn acquire(&mut self, key: CacheKey, now: Moment, block_ttl: u64, time_ttl_ms: u64) -> (r:
        Result<(), LockError>)
        ensures
            match r {
                Ok(_) => {
                    &&& !lock_held(old(self).lock_of(key), now)
                    &&& final(self).lock_of(key) == Some(stamp_for(now, block_ttl, time_ttl_ms))
                    &&& final(self).cached(key) == old(self).cached(key)
                    &&& Self::agrees_except(*old(self), *final(self), key)
                },
                Err(e) => {
                    &&& e == LockError::AlreadyHeld
                    &&& lock_held(old(self).lock_of(key), now)
                    &&& *final(self) == *old(self)
                },
            },
    {
        let stamp = LockStamp {
            expires_block: now.block.saturating_add(block_ttl),
            expires_time_ms: now.time_ms.saturating_add(time_ttl_ms),
        };
        match key {
            CacheKey::Metadata => {
                if held_now(&self.metadata.lock, now) {
                    return Err(LockError::AlreadyHeld);
                }
                self.metadata.lock = Some(stamp);
            },
            CacheKey::Price => {
                if held_now(&self.price.lock, now) {
                    return Err(LockError::AlreadyHeld);
                }
                self.price.lock = Some(stamp);
            },
        }
        Ok(())
    }

    /// Read the cached blob under `key`. Reading never requires holding
    /// the lock.
    pub fn get(&self, key: CacheKey) -> (r: Option<Vec<u8>>)
        ensures
            match r {
                Some(v) => self.cached(key) == Some(v@),
                None => self.cached(key) is None,
            },
    {
        let slot_value = match key {
            CacheKey::Metadata => &self.metadata.value,
            CacheKey::Price => &self.price.value,
        };
        match slot_value {
            Some(v) => Some(clone_bytes(v)),
            None => None,
        }
    }

    /// Replace — never merge — the cached blob under `key`. The worker's
    /// discipline is that only the lock holder writes.
    pub fn set(&mut self, key: CacheKey, value: Vec<u8>)
        ensures
            final(self).cached(key) == Some(value@),
            final(self).lock_of(key) == old(self).lock_of(key),
            Self::agrees_except(*old(self), *final(self), key),
    {
        match key {
            CacheKey::Metadata => {
                self.metadata.value = Some(value);
            },
            CacheKey::Price => {
                self.price.value = Some(value);
            },
        }
    }
}

/// Is the lock record still held at `now`?
fn held_now(lock: &Option<LockStamp>, now: Moment) -> (b: bool)
    ensures
        b == lock_held(*lock, now),
{
    match lock {
        Some(st) => now.block < st.expires_block || now.time_ms < st.expires_time_ms,
        None => false,
    }
}

/// Mutual exclusion: the record a successful `acquire` at `now1` writes
/// keeps the key held against any second `acquire` attempted while
/// either expiry has not yet passed — by `acquire`'s contract that
/// attempt returns `AlreadyHeld`.
pub proof fn lemma_acquire_excludes_until_expiry(
    now1: Moment,
    block_ttl: u64,
    time_ttl_ms: u64,
    now2: Moment,
)
    requires
        now2.block < stamp_for(now1, block_ttl, time_ttl_ms).expires_block || now2.time_ms
            < stamp_for(now1, block_ttl, time_ttl_ms).expires_time_ms,
    ensures
        lock_held(Some(stamp_for(now1, block_ttl, time_ttl_ms)), now2),
{
}

/// TTL release: once both expiries of the recorded claim have passed,
/// the key is no longer held — by `acquire`'s contract a subsequent
/// attempt succeeds.
pub proof fn lemma_acquire_succeeds_after_expiry(
    now1: Moment,
    block_ttl: u64,
    time_ttl_ms: u64,
    now2: Moment,
)
    requires
        now2.block >= stamp_for(now1, block_ttl, time_ttl_ms).expires_block,
        now2.time_ms >= stamp_for(now1, block_ttl, time_ttl_ms).expires_time_ms,
    ensures
        !lock_held(Some(stamp_for(now1, block_ttl, time_ttl_ms)), now2),
{
}

} // verus!
