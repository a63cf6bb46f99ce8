//! The cache of user states.
//!
//! The cache maps a user to the state that was last loaded or saved for that
//! user, with the instant at which that happened. An entry answers reads
//! while it is fresh: for `CACHE_TTL_SECONDS` after its instant. Stale
//! entries stay until they are replaced or evicted.

use std::collections::HashMap;
use vstd::prelude::*;
use vstd::std_specs::hash::*;
use crate::clock::elapsed_since;
use crate::clock::within_window;
use crate::models::user_state::UserState;
use crate::models::user_state::UserStateView;

verus! {

/// The seconds for which a cache entry answers reads.
pub const CACHE_TTL_SECONDS: u32 = 300;

/// A cached state and the instant at which it entered the cache.
#[derive(Debug, PartialEq, Eq)]
pub struct CacheEntry {
    pub state: UserState,
    pub stamp: i64,
}

/// What a `CacheEntry` holds.
pub struct CacheEntryView {
    pub state: UserStateView,
    pub stamp: i64,
}

impl View for CacheEntry {
    type V = CacheEntryView;

    open spec fn view(&self) -> CacheEntryView {
        CacheEntryView { state: self.state@, stamp: self.stamp }
    }
}

/// What the cache holds: for each user with an entry, that entry.
pub type CacheView = Map<i64, CacheEntryView>;

/// Whether an entry made at `stamp` still answers reads at `now`.
pub open spec fn fresh_at(stamp: i64, now: i64) -> bool {
    elapsed_since(stamp as int, now as int) < CACHE_TTL_SECONDS * 1_000_000
}

/// The state that the cache answers a read of `chat_id` with at `now`, if
/// it answers at all.
pub open spec fn cached_at(cache: CacheView, chat_id: i64, now: i64) -> Option<UserStateView> {
    if cache.contains_key(chat_id) && fresh_at(cache[chat_id].stamp, now) {
        Some(cache[chat_id].state)
    } else {
        None
    }
}

/// The cache once `state` has entered it for `chat_id` at `now`.
pub open spec fn remembered(
    cache: CacheView,
    chat_id: i64,
    state: UserStateView,
    now: i64,
) -> CacheView {
    cache.insert(chat_id, CacheEntryView { state, stamp: now })
}

/// The cache without the entries that are stale at `now`.
pub open spec fn evicted_at(cache: CacheView, now: i64) -> CacheView {
    Map::new(
        |chat_id: i64| cache.contains_key(chat_id) && fresh_at(cache[chat_id].stamp, now),
        |chat_id: i64| cache[chat_id],
    )
}

/// The cache of user states, by user.
pub struct UserCache {
    entries: HashMap<i64, CacheEntry>,
}

/// `HashMap::retain` with the freshness test: drops from `entries` each one
/// that is stale at `now`, and keeps the others as they are.
#[verifier::external_body]
fn retain_fresh(entries: &mut HashMap<i64, CacheEntry>, now: i64)
    ensures
        forall|chat_id: i64|
            final(entries)@.contains_key(chat_id) <==> old(entries)@.contains_key(chat_id)
                && fresh_at(old(entries)@[chat_id].stamp, now),
        forall|chat_id: i64|
            final(entries)@.contains_key(chat_id) ==> final(entries)@[chat_id] == old(entries)@[chat_id],
{
    entries.retain(|_, entry| within_window(entry.stamp, now, CACHE_TTL_SECONDS));
}

impl View for UserCache {
    type V = CacheView;

    closed spec fn view(&self) -> CacheView {
        self.entries@.map_values(|entry: CacheEntry| entry@)
    }
}

impl UserCache {
    /// A cache without entries.
    pub fn new() -> (cache: Self)
        ensures
            cache@ == Map::<i64, CacheEntryView>::empty(),
    {
        let cache = UserCache { entries: HashMap::new() };
        assert(cache@ =~= Map::<i64, CacheEntryView>::empty());
        cache
    }

    /// The number of entries, fresh or stale.
    pub fn len(&self) -> (count: usize)
        ensures
            count == self@.len(),
    {
        broadcast use group_hash_axioms;

        assert(self@.dom() =~= self.entries@.dom());
        self.entries.len()
    }

    /// The state that the cache holds for `chat_id`, if its entry is fresh
    /// at `now`.
    pub fn lookup(&self, chat_id: i64, now: i64) -> (hit: Option<UserState>)
        ensures
            hit is Some <==> cached_at(self@, chat_id, now) is Some,
            hit matches Some(state) ==> Some(state@) == cached_at(self@, chat_id, now),
    {
        broadcast use group_hash_axioms;

        match self.entries.get(&chat_id) {
            Some(entry) => {
                if within_window(entry.stamp, now, CACHE_TTL_SECONDS) {
                    Some(entry.state.clone())
                } else {
                    None
                }
            },
            None => None,
        }
    }

    /// Enters `state` for `chat_id` at `now`, in the place of any entry that
    /// the user had.
    pub fn remember(&mut self, chat_id: i64, state: UserState, now: i64)
        ensures
            final(self)@ == remembered(old(self)@, chat_id, state@, now),
    {
        broadcast use group_hash_axioms;

        let entry = CacheEntry { state, stamp: now };
        self.entries.insert(chat_id, entry);
        assert(self@ =~= remembered(old(self)@, chat_id, state@, now));
    }

    /// Evicts the entries that are stale at `now`.
    pub fn evict_stale(&mut self, now: i64)
        ensures
            final(self)@ == evicted_at(old(self)@, now),
    {
        retain_fresh(&mut self.entries, now);
        assert(self@ =~= evicted_at(old(self)@, now));
    }
}

} // verus!
