//! The access to user states and reservations: the store behind a cache.
//!
//! A read of a user's state is answered from the cache while the user's
//! entry is fresh, and from the store otherwise. A read never fails: where
//! the store cannot answer, the state of an unknown user is handed out. A
//! write checks the sizes of the records, goes to the store first, and enters
//! the cache only once the store has taken it.

use vstd::prelude::*;
use crate::cache::cached_at;
use crate::cache::CacheView;
use crate::cache::evicted_at;
use crate::cache::fresh_at;
use crate::cache::remembered;
use crate::cache::UserCache;
use crate::database::booking_by_id;
use crate::database::booking_by_payload;
use crate::database::bookings_after_cancel;
use crate::database::bookings_after_completion;
use crate::database::bookings_after_purge;
use crate::database::bookings_after_save;
use crate::database::cancel_failure;
use crate::database::Database;
use crate::database::DatabaseView;
use crate::database::funding_booking;
use crate::database::lemma_user_save;
use crate::database::newest_first;
use crate::database::save_failure;
use crate::database::stored_state;
use crate::database::unreachable_failure;
use crate::database::user_listing;
use crate::database::UserRow;
use crate::database::UserRowView;
use crate::database::users_after_save;
use crate::error::BotStateError;
use crate::error::BotStateErrorView;
use crate::error::failure;
use crate::models::booking::Booking;
use crate::models::booking::booking_of;
use crate::models::session::UserSession;
use crate::models::user_state::UserState;
use crate::models::user_state::UserStateView;

verus! {

/// The cap on the size of a user's conversation history, in KiB.
pub const HISTORY_LIMIT_KB: usize = 5;

/// The cap on the size of a user's temperature settings, in KiB.
pub const TEMPERATURES_LIMIT_KB: usize = 1;

/// Why a record of `size` bytes is not accepted under a cap of `max_kb`
/// KiB, if it is not.
pub open spec fn oversize(size: nat, max_kb: nat) -> Option<BotStateErrorView> {
    if size > max_kb * 1024 {
        Some(BotStateErrorView::DataTooLarge(size as usize))
    } else {
        None
    }
}

/// Why the records of `state` are not accepted, if they are not: the
/// history is checked first, then the temperature settings.
pub open spec fn size_failure(state: UserStateView) -> Option<BotStateErrorView> {
    if oversize(state.conversation_history.len(), HISTORY_LIMIT_KB as nat) is Some {
        oversize(state.conversation_history.len(), HISTORY_LIMIT_KB as nat)
    } else {
        oversize(state.user_temperatures.len(), TEMPERATURES_LIMIT_KB as nat)
    }
}

/// Checks the size of a record against a cap of `max_kb` KiB.
pub fn validate_data_size(data: &Vec<u8>, max_kb: usize) -> (checked: Result<(), BotStateError>)
    ensures
        failure(checked) == oversize(data@.len(), max_kb as nat),
{
    let size = data.len();
    if (size as u128) > (max_kb as u128) * 1024 {
        Err(BotStateError::DataTooLarge(size))
    } else {
        Ok(())
    }
}

/// Checks the sizes of the records of `state` against their caps.
pub fn validate_user_state(state: &UserState) -> (checked: Result<(), BotStateError>)
    ensures
        failure(checked) == size_failure(state@),
{
    match validate_data_size(&state.conversation_history, HISTORY_LIMIT_KB) {
        Err(error) => Err(error),
        Ok(()) => validate_data_size(&state.user_temperatures, TEMPERATURES_LIMIT_KB),
    }
}

/// The state that a read hands out for what the store answered: the stored
/// state, the state of an unknown user where the store has none, and
/// nothing where the store failed.
pub open spec fn loaded_view(fetched: Result<Option<UserState>, BotStateError>) -> Option<
    UserStateView,
> {
    match fetched {
        Ok(Some(state)) => Some(state@),
        Ok(None) => Some(UserStateView::empty()),
        Err(_) => None,
    }
}

/// Ends a read that the cache could not answer, with what the store
/// answered at `now`. A state that the store gave, or the state of an
/// unknown user where it had none, enters the cache and is handed out.
/// Where the store failed, the state of an unknown user is handed out and
/// the cache stays as it is.
pub fn read_through(
    cache: &mut UserCache,
    chat_id: i64,
    fetched: Result<Option<UserState>, BotStateError>,
    now: i64,
) -> (state: UserState)
    ensures
        loaded_view(fetched) matches Some(loaded) ==> state@ == loaded && final(cache)@
            == remembered(old(cache)@, chat_id, loaded, now),
        loaded_view(fetched) is None ==> state@ == UserStateView::empty() && final(cache)@ == old(cache)@,
{
    match fetched {
        Ok(Some(state)) => {
            cache.remember(chat_id, state.clone(), now);
            state
        },
        Ok(None) => {
            let state = UserState::default();
            cache.remember(chat_id, state.clone(), now);
            state
        },
        Err(_) => UserState::default(),
    }
}

/// Ends a write with what the store answered at `now`: a state that the
/// store has taken enters the cache; where the store failed, the failure is
/// handed on and the cache stays as it is.
pub fn write_through(
    cache: &mut UserCache,
    chat_id: i64,
    state: UserState,
    written: Result<(), BotStateError>,
    now: i64,
) -> (saved: Result<(), BotStateError>)
    ensures
        failure(saved) == failure(written),
        written is Ok ==> final(cache)@ == remembered(old(cache)@, chat_id, state@, now),
        written is Err ==> final(cache)@ == old(cache)@,
{
    match written {
        Ok(()) => {
            cache.remember(chat_id, state, now);
            Ok(())
        },
        Err(error) => Err(error),
    }
}

/// What the engine holds: the store and the cache.
pub struct BotStateView {
    pub db: DatabaseView,
    pub cache: CacheView,
}

impl BotStateView {
    /// The state that the store answers a read of `chat_id` with: the
    /// stored state, or the state of an unknown user. Nothing where the
    /// store cannot be reached.
    pub open spec fn fetched(self, chat_id: i64) -> Option<UserStateView> {
        if !self.db.reachable {
            None
        } else {
            match stored_state(self.db.user_states, chat_id) {
                Some(state) => Some(state),
                None => Some(UserStateView::empty()),
            }
        }
    }

    /// The state that a read of `chat_id` at `now` hands out.
    pub open spec fn state_read(self, chat_id: i64, now: i64) -> UserStateView {
        match cached_at(self.cache, chat_id, now) {
            Some(state) => state,
            None => match self.fetched(chat_id) {
                Some(state) => state,
                None => UserStateView::empty(),
            },
        }
    }

    /// The engine after a read of `chat_id` at `now`: where the store had
    /// to answer and did, its answer has entered the cache.
    pub open spec fn after_read(self, chat_id: i64, now: i64) -> BotStateView {
        if cached_at(self.cache, chat_id, now) is None && self.fetched(chat_id) is Some {
            BotStateView {
                cache: remembered(self.cache, chat_id, self.fetched(chat_id)->0, now),
                ..self
            }
        } else {
            self
        }
    }

    /// The engine with `bookings` as its table of reservations.
    pub open spec fn with_bookings(self, bookings: Seq<crate::models::booking::BookingView>) -> BotStateView {
        BotStateView { db: DatabaseView { bookings, ..self.db }, ..self }
    }

    /// The engine once the reservation `id` has been withdrawn at `now`:
    /// the reservation is gone, and with a paid one the session that
    /// waited for its start.
    pub open spec fn after_cancel(self, id: Seq<char>, now: i64) -> BotStateView {
        if cancel_failure(self.db, id, now) is Some {
            self
        } else {
            let booking = booking_by_id(self.db.bookings, id)->0;
            let removed = self.with_bookings(bookings_after_cancel(self.db, id, now));
            let state = removed.state_read(booking.user_id, now);
            if !booking.is_paid {
                removed
            } else if state.current_session matches Some(session) && session.awaits(booking) {
                removed.after_read(booking.user_id, now).after_state_save(
                    booking.user_id,
                    state.with_session(None),
                    now,
                )
            } else {
                removed.after_read(booking.user_id, now)
            }
        }
    }

    /// Why `state` is not written, if it is not: a record is over its cap,
    /// or the store cannot be reached.
    pub open spec fn state_save_failure(self, state: UserStateView) -> Option<BotStateErrorView> {
        if size_failure(state) is Some {
            size_failure(state)
        } else if !self.db.reachable {
            Some(unreachable_failure())
        } else {
            None
        }
    }

    /// The engine after `state` has been written for `chat_id` at `now`:
    /// store and cache hold it, or nothing has changed.
    pub open spec fn after_state_save(
        self,
        chat_id: i64,
        state: UserStateView,
        now: i64,
    ) -> BotStateView {
        if self.state_save_failure(state) is Some {
            self
        } else {
            BotStateView {
                db: DatabaseView {
                    user_states: users_after_save(self.db.user_states, chat_id, state),
                    ..self.db
                },
                cache: remembered(self.cache, chat_id, state, now),
            }
        }
    }
}

/// A state that has been written is what every read of that user hands
/// out while the cache entry of the write is fresh. The store is not asked:
/// whatever it holds by then, and whether or not it can be reached, the read
/// hands out the written state and changes nothing.
pub proof fn lemma_read_after_write(
    s: BotStateView,
    chat_id: i64,
    state: UserStateView,
    saved_at: i64,
    read_at: i64,
    store: DatabaseView,
)
    requires
        s.state_save_failure(state) is None,
        fresh_at(saved_at, read_at),
    ensures
        ({
            let written = s.after_state_save(chat_id, state, saved_at);
            let later = BotStateView { db: store, ..written };
            &&& written.state_read(chat_id, read_at) == state
            &&& later.state_read(chat_id, read_at) == state
            &&& later.after_read(chat_id, read_at) == later
        }),
{
}

/// A cache entry that is fresh at `now` is not lost before `now`: it is
/// still there after a read for any user, after a write for another user,
/// and after an eviction, each at an instant `at` that does not lie after
/// `now`.
pub proof fn lemma_fresh_entry_stays(
    s: BotStateView,
    chat_id: i64,
    now: i64,
    other: i64,
    state: UserStateView,
    at: i64,
)
    requires
        cached_at(s.cache, chat_id, now) is Some,
        at <= now,
    ensures
        cached_at(s.after_read(other, at).cache, chat_id, now) == cached_at(s.cache, chat_id, now),
        other != chat_id ==> cached_at(s.after_state_save(other, state, at).cache, chat_id, now)
            == cached_at(s.cache, chat_id, now),
        cached_at(evicted_at(s.cache, at), chat_id, now) == cached_at(s.cache, chat_id, now),
{
}

/// A read that the cache does not answer hands out what the store holds for
/// the user: the stored state, or the state of an unknown user where the
/// store holds none.
pub proof fn lemma_read_converges(s: BotStateView, chat_id: i64, now: i64)
    requires
        s.db.reachable,
        cached_at(s.cache, chat_id, now) is None,
    ensures
        s.state_read(chat_id, now) == match stored_state(s.db.user_states, chat_id) {
            Some(state) => state,
            None => UserStateView::empty(),
        },
{
}

/// Once the cache entry of a write is stale, a read hands out the state as
/// the store holds it since that write.
pub proof fn lemma_read_after_staleness(
    s: BotStateView,
    chat_id: i64,
    state: UserStateView,
    saved_at: i64,
    read_at: i64,
)
    requires
        s.db.well_formed(),
        s.state_save_failure(state) is None,
        !fresh_at(saved_at, read_at),
    ensures
        ({
            let written = s.after_state_save(chat_id, state, saved_at);
            &&& stored_state(written.db.user_states, chat_id) == Some(state.stored())
            &&& written.state_read(chat_id, read_at) == state.stored()
        }),
{
    lemma_user_save(s.db.user_states, chat_id, state, chat_id);
}

/// A state whose history is over its cap is not written: the write fails
/// with the size of the history, and store and cache stay as they were.
pub proof fn lemma_oversize_is_refused(s: BotStateView, chat_id: i64, state: UserStateView, now: i64)
    requires
        state.conversation_history.len() > HISTORY_LIMIT_KB * 1024,
    ensures
        s.state_save_failure(state) == Some(
            BotStateErrorView::DataTooLarge(state.conversation_history.len() as usize),
        ),
        s.after_state_save(chat_id, state, now) == s,
{
}

/// The engine: the store and, before it, the cache of user states.
pub struct BotState {
    db: Database,
    cache: UserCache,
}

impl View for BotState {
    type V = BotStateView;

    closed spec fn view(&self) -> BotStateView {
        BotStateView { db: self.db@, cache: self.cache@ }
    }
}

impl BotState {
    /// An engine over the store `db`, with an empty cache.
    pub fn new(db: Database) -> (state: Self)
        ensures
            state@ == (BotStateView { db: db@, cache: Map::empty() }),
    {
        BotState { db, cache: UserCache::new() }
    }

    /// The store.
    pub fn database(&self) -> (db: &Database)
        ensures
            db@ == self@.db,
    {
        &self.db
    }

    /// The number of cache entries, fresh or stale.
    pub fn cached_entries(&self) -> (count: usize)
        ensures
            count == self@.cache.len(),
    {
        self.cache.len()
    }

    /// Makes the store reachable or unreachable.
    pub fn set_store_reachable(&mut self, reachable: bool)
        ensures
            final(self)@ == (BotStateView {
                db: DatabaseView { reachable, ..old(self)@.db },
                ..old(self)@
            }),
            final(self)@.db.well_formed(),
    {
        self.db.set_reachable(reachable);
    }

    /// Writes the state of the user `chat_id` at `now`.
    ///
    /// The sizes of the records are checked first. Then the store takes the
    /// state, and only then the cache. Where the write fails, store and
    /// cache stay as they were.
    pub fn save_user_state(&mut self, chat_id: i64, state: UserState, now: i64) -> (saved: Result<
        (),
        BotStateError,
    >)
        ensures
            failure(saved) == old(self)@.state_save_failure(state@),
            final(self)@ == old(self)@.after_state_save(chat_id, state@, now),
            final(self)@.db.well_formed(),
    {
        match validate_user_state(&state) {
            Err(error) => {
                proof {
                    use_type_invariant(&self.db);
                }
                Err(error)
            },
            Ok(()) => {
                let written = self.db.save_user_state(chat_id, state.clone());
                write_through(&mut self.cache, chat_id, state, written, now)
            },
        }
    }

    /// The state of the user `chat_id` at `now`, from the cache where the
    /// user's entry is fresh, from the store otherwise. The state of an
    /// unknown user where the store has none or cannot be reached.
    pub fn get_user_state(&mut self, chat_id: i64, now: i64) -> (state: UserState)
        ensures
            state@ == old(self)@.state_read(chat_id, now),
            final(self)@ == old(self)@.after_read(chat_id, now),
            final(self)@.db.well_formed(),
    {
        match self.cache.lookup(chat_id, now) {
            Some(state) => {
                proof {
                    use_type_invariant(&self.db);
                }
                state
            },
            None => {
                let fetched = self.db.fetch_user_state(chat_id);
                read_through(&mut self.cache, chat_id, fetched, now)
            },
        }
    }

    /// The states of all users that the store holds, in the order of its
    /// table. None where the store cannot be reached.
    pub fn get_all_user_states(&self) -> (rows: Vec<UserRow>)
        ensures
            self@.db.well_formed(),
            self@.db.reachable ==> rows.deep_view() == self@.db.user_states,
            !self@.db.reachable ==> rows.deep_view() == Seq::<UserRowView>::empty(),
    {
        match self.db.all_user_states() {
            Ok(rows) => rows,
            Err(_) => {
                let rows: Vec<UserRow> = Vec::new();
                assert(rows.deep_view() =~= Seq::<UserRowView>::empty());
                rows
            },
        }
    }

    /// Evicts the cache entries that are stale at `now`.
    pub fn cleanup_cache(&mut self, now: i64)
        ensures
            final(self)@ == (BotStateView { cache: evicted_at(old(self)@.cache, now), ..old(self)@ }),
    {
        self.cache.evict_stale(now);
    }
    /// Writes a reservation at `now`: a new one enters the table of
    /// reservations, a known one receives the payment, the completion and
    /// the payment prompt that `booking` brings.
    pub fn save_booking(&mut self, booking: &Booking, now: i64) -> (saved: Result<(), BotStateError>)
        ensures
            failure(saved) == save_failure(old(self)@.db, booking@, now),
            final(self)@ == old(self)@.with_bookings(
                bookings_after_save(old(self)@.db, booking@, now),
            ),
            final(self)@.db.well_formed(),
    {
        self.db.save_booking(booking, now)
    }

    /// Removes the unpaid reservations whose deadline has been reached at
    /// `now`, and gives their number.
    pub fn cleanup_expired_bookings(&mut self, now: i64) -> (purged: Result<u64, BotStateError>)
        ensures
            !old(self)@.db.reachable ==> failure(purged) == Some(unreachable_failure())
                && final(self)@ == old(self)@,
            old(self)@.db.reachable ==> purged is Ok && final(self)@ == old(self)@.with_bookings(
                bookings_after_purge(old(self)@.db.bookings, now),
            ) && purged->Ok_0 == old(self)@.db.bookings.len() - final(self)@.db.bookings.len(),
            final(self)@.db.well_formed(),
    {
        self.db.cleanup_expired_bookings(now)
    }

    /// The reservations of the user `chat_id` at `now`, newest first. The
    /// unpaid reservations whose deadline has been reached are removed
    /// before.
    pub fn get_user_bookings(&mut self, chat_id: i64, now: i64) -> (listed: Result<
        Vec<Booking>,
        BotStateError,
    >)
        ensures
            !old(self)@.db.reachable ==> failure(listed) == Some(unreachable_failure())
                && final(self)@ == old(self)@,
            old(self)@.db.reachable ==> listed is Ok && final(self)@ == old(self)@.with_bookings(
                bookings_after_purge(old(self)@.db.bookings, now),
            ) && listed->Ok_0.deep_view() == user_listing(final(self)@.db.bookings, chat_id),
            listed matches Ok(rows) ==> newest_first(rows.deep_view()),
            final(self)@.db.well_formed(),
    {
        self.db.get_user_bookings(chat_id, now)
    }

    /// The reservation with the invoice token `invoice_payload`, if there is
    /// one.
    pub fn get_booking_by_payload(&self, invoice_payload: &str) -> (found: Result<
        Option<Booking>,
        BotStateError,
    >)
        ensures
            self@.db.well_formed(),
            !self@.db.reachable ==> failure(found) == Some(unreachable_failure()),
            self@.db.reachable ==> found is Ok && booking_of(found->Ok_0) == booking_by_payload(
                self@.db.bookings,
                invoice_payload@,
            ),
    {
        self.db.get_booking_by_payload(invoice_payload)
    }

    /// The reservation with the identifier `booking_id`, if there is one.
    pub fn get_booking_by_id(&self, booking_id: &str) -> (found: Result<
        Option<Booking>,
        BotStateError,
    >)
        ensures
            self@.db.well_formed(),
            !self@.db.reachable ==> failure(found) == Some(unreachable_failure()),
            self@.db.reachable ==> found is Ok && booking_of(found->Ok_0) == booking_by_id(
                self@.db.bookings,
                booking_id@,
            ),
    {
        self.db.get_booking_by_id(booking_id)
    }

    /// Records that the session of the reservation `booking_id` has ended.
    /// Only a paid reservation changes.
    pub fn mark_booking_completed(&mut self, booking_id: &str) -> (marked: Result<
        (),
        BotStateError,
    >)
        ensures
            !old(self)@.db.reachable ==> failure(marked) == Some(unreachable_failure())
                && final(self)@ == old(self)@,
            old(self)@.db.reachable ==> marked is Ok && final(self)@ == old(self)@.with_bookings(
                bookings_after_completion(old(self)@.db.bookings, booking_id@),
            ),
            final(self)@.db.well_formed(),
    {
        self.db.mark_booking_completed(booking_id)
    }

    /// The reservation that has paid for `session`: the newest paid
    /// reservation of the session's user for the session's persona.
    pub fn find_booking_for_session(&self, session: &UserSession) -> (found: Result<
        Option<Booking>,
        BotStateError,
    >)
        ensures
            self@.db.well_formed(),
            !self@.db.reachable ==> failure(found) == Some(unreachable_failure()),
            self@.db.reachable ==> found is Ok && booking_of(found->Ok_0) == funding_booking(
                self@.db.bookings,
                session@.chat_id,
                session@.consultant_model,
            ),
    {
        self.db.find_funding_booking(session.chat_id, session.consultant_model.as_str())
    }

    /// Withdraws the reservation `booking_id` at `now`, if it can still be
    /// withdrawn: while it is pending, or paid for a start that lies ahead.
    /// The session that waits for the start of a paid reservation goes with
    /// it.
    pub fn cancel_booking(&mut self, booking_id: &str, now: i64) -> (cancelled: Result<
        (),
        BotStateError,
    >)
        ensures
            failure(cancelled) == cancel_failure(old(self)@.db, booking_id@, now),
            final(self)@ == old(self)@.after_cancel(booking_id@, now),
            final(self)@.db.well_formed(),
    {
        let booking = match self.db.get_booking_by_id(booking_id) {
            Err(error) => {
                return Err(error);
            },
            Ok(None) => {
                return Err(BotStateError::NotFound);
            },
            Ok(Some(booking)) => booking,
        };
        match self.db.cancel_booking(booking_id, now) {
            Err(error) => {
                return Err(error);
            },
            Ok(()) => {},
        }
        if booking.is_paid {
            let mut state = self.get_user_state(booking.user_id, now);
            let waiting = match &state.current_session {
                Some(session) => session.awaits(&booking),
                None => false,
            };
            if waiting {
                state.current_session = None;
                let _ = self.save_user_state(booking.user_id, state, now);
            }
        }
        Ok(())
    }
}

} // verus!
