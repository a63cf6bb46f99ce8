//! What the engine does with the events that reach it, and the periodic
//! sweep.
//!
//! The sweep removes the reservations that have expired unpaid, starts the
//! sessions whose scheduled start has arrived, and ends the sessions whose
//! paid time has run out. The reservation that paid for a session that ends
//! is completed.

pub mod callbacks;
pub mod commands;
pub mod messages;
pub mod payments;
pub mod utils;

use vstd::prelude::*;
use crate::bot_state::BotState;
use crate::bot_state::BotStateView;
use crate::bot_state::size_failure;
use crate::cache::evicted_at;
use crate::clock::clock_reading;
use crate::clock::utc_now;
use crate::database::booking_by_id;
use crate::database::booking_by_payload;
use crate::database::bookings_after_completion;
use crate::database::bookings_after_purge;
use crate::database::funding_booking;
use crate::database::has_id;
use crate::database::has_payload;
use crate::database::lemma_completion_consistent;
use crate::database::lemma_completion_keeps_funding;
use crate::database::lemma_newest_funding;
use crate::database::lemma_place_of_id;
use crate::database::lemma_place_of_payload;
use crate::database::lemma_purge_consistent;
use crate::database::lemma_purge_keeps_funding;
use crate::database::lemma_purge_lookup;
use crate::database::lemma_purge_lookup_by_payload;
use crate::database::lemma_user_save;
use crate::database::newest_funding_at;
use crate::database::only_completed;
use crate::database::place_of_id;
use crate::database::place_of_payload;
use crate::database::stored_state;
use crate::database::UserRow;
use crate::database::UserRowView;
use crate::models::session::SessionChange;
use crate::models::session::SessionView;

verus! {

/// What a sweep did for one user.
#[derive(Debug, Clone, Copy, PartialEq, Eq, Structural)]
pub enum UserSweep {
    /// The user has no session, or the session stays as it is.
    Unchanged,
    /// The session has started.
    Started,
    /// The session has ended; the reservation that paid for it is completed.
    Ended,
    /// The session has ended, and no reservation that paid for it was found.
    EndedUnfunded,
}

/// A user and what a sweep did for that user.
#[derive(Debug, Clone, Copy, PartialEq, Eq, Structural)]
pub struct SweptUser {
    pub chat_id: i64,
    pub change: UserSweep,
}

/// What a sweep did: how many expired reservations it removed, and what it
/// did for each user, in the order of the table of user states.
#[derive(Debug, PartialEq, Eq)]
pub struct SweepReport {
    pub purged: u64,
    pub users: Vec<SweptUser>,
}

/// The reservation that paid for `session`, as the store finds it.
pub open spec fn funding_of(s: BotStateView, session: SessionView) -> Option<
    crate::models::booking::BookingView,
> {
    if s.db.reachable {
        funding_booking(s.db.bookings, session.chat_id, session.consultant_model)
    } else {
        None
    }
}

impl BotStateView {
    /// What a sweep at `now` does for the user of `row`.
    pub open spec fn user_sweep(self, row: UserRowView, now: i64) -> UserSweep {
        match row.state.current_session {
            None => UserSweep::Unchanged,
            Some(session) => match session.change_at(now) {
                SessionChange::Unchanged => UserSweep::Unchanged,
                SessionChange::Started => UserSweep::Started,
                SessionChange::Ended => if self.db.reachable && funding_of(self, session) is None {
                    UserSweep::EndedUnfunded
                } else {
                    UserSweep::Ended
                },
            },
        }
    }

    /// The engine once the reservation that paid for `session` is completed.
    pub open spec fn after_session_end(self, session: SessionView) -> BotStateView {
        match funding_of(self, session) {
            Some(booking) => if booking.is_completed {
                self
            } else {
                self.with_bookings(bookings_after_completion(self.db.bookings, booking.id))
            },
            None => self,
        }
    }

    /// The engine after a sweep at `now` for the user of `row`: a session
    /// that starts or ends is written with the user's state, and the
    /// reservation that paid for a session that ends is completed.
    pub open spec fn after_user_sweep(self, row: UserRowView, now: i64) -> BotStateView {
        match row.state.current_session {
            None => self,
            Some(session) => {
                let swept = row.state.with_session(Some(session.swept_at(now)));
                match session.change_at(now) {
                    SessionChange::Unchanged => self,
                    SessionChange::Started => self.after_state_save(row.chat_id, swept, now),
                    SessionChange::Ended => self.after_session_end(session).after_state_save(
                        row.chat_id,
                        swept,
                        now,
                    ),
                }
            },
        }
    }

    /// The engine after a sweep at `now` for the users of `rows`, one after
    /// the other.
    pub open spec fn after_users_sweep(self, rows: Seq<UserRowView>, now: i64) -> BotStateView
        decreases rows.len(),
    {
        if rows.len() == 0 {
            self
        } else {
            self.after_users_sweep(rows.drop_last(), now).after_user_sweep(rows.last(), now)
        }
    }

    /// What a sweep at `now` does for the users of `rows`, one after the
    /// other.
    pub open spec fn users_sweep(self, rows: Seq<UserRowView>, now: i64) -> Seq<SweptUser>
        decreases rows.len(),
    {
        if rows.len() == 0 {
            Seq::empty()
        } else {
            self.users_sweep(rows.drop_last(), now).push(
                SweptUser {
                    chat_id: rows.last().chat_id,
                    change: self.after_users_sweep(rows.drop_last(), now).user_sweep(
                        rows.last(),
                        now,
                    ),
                },
            )
        }
    }

    /// The users that a sweep visits: those of the store, none where the
    /// store cannot be reached.
    pub open spec fn swept_rows(self) -> Seq<UserRowView> {
        if self.db.reachable {
            self.db.user_states
        } else {
            Seq::empty()
        }
    }

    /// The engine once a sweep at `now` has removed the expired
    /// reservations.
    pub open spec fn after_purge(self, now: i64) -> BotStateView {
        if self.db.reachable {
            self.with_bookings(bookings_after_purge(self.db.bookings, now))
        } else {
            self
        }
    }

    /// The engine after a sweep at `now`.
    pub open spec fn after_sweep(self, now: i64) -> BotStateView {
        self.after_purge(now).after_users_sweep(self.swept_rows(), now)
    }

    /// What a sweep at `now` does for each user.
    pub open spec fn sweep_changes(self, now: i64) -> Seq<SweptUser> {
        self.after_purge(now).users_sweep(self.swept_rows(), now)
    }

    /// How many reservations a sweep at `now` removes.
    pub open spec fn sweep_purged(self, now: i64) -> nat {
        (self.db.bookings.len() - self.after_purge(now).db.bookings.len()) as nat
    }
}

/// What a sweep for one user leaves alone: the store keeps its rules and is
/// reachable as before, reservations are completed at most, and the states
/// that the store holds for other users stay.
pub proof fn lemma_user_sweep_frame(s: BotStateView, row: UserRowView, now: i64)
    requires
        s.db.well_formed(),
    ensures
        ({
            let swept = s.after_user_sweep(row, now);
            &&& swept.db.well_formed()
            &&& swept.db.reachable == s.db.reachable
            &&& only_completed(s.db.bookings, swept.db.bookings)
            &&& forall|other: i64|
                other != row.chat_id ==> #[trigger] stored_state(swept.db.user_states, other)
                    == stored_state(s.db.user_states, other)
        }),
{
    let swept = s.after_user_sweep(row, now);
    if row.state.current_session is Some {
        let session = row.state.current_session->0;
        let state = row.state.with_session(Some(session.swept_at(now)));
        let ended = s.after_session_end(session);
        if funding_of(s, session) is Some {
            lemma_completion_consistent(s.db.bookings, funding_of(s, session)->0.id);
        }
        assert(only_completed(s.db.bookings, ended.db.bookings));
        assert forall|other: i64| other != row.chat_id implies #[trigger] stored_state(
            swept.db.user_states,
            other,
        ) == stored_state(s.db.user_states, other) by {
            lemma_user_save(s.db.user_states, row.chat_id, state, other);
        }
        lemma_user_save(s.db.user_states, row.chat_id, state, row.chat_id);
    }
}

/// What a sweep for a run of users leaves alone: the store keeps its rules
/// and is reachable as before, reservations are completed at most, and the
/// state that the store holds for a user who is not in the run stays.
pub proof fn lemma_users_sweep_frame(s: BotStateView, rows: Seq<UserRowView>, now: i64)
    requires
        s.db.well_formed(),
    ensures
        ({
            let swept = s.after_users_sweep(rows, now);
            &&& swept.db.well_formed()
            &&& swept.db.reachable == s.db.reachable
            &&& only_completed(s.db.bookings, swept.db.bookings)
            &&& forall|other: i64|
                (forall|i: int| 0 <= i < rows.len() ==> (#[trigger] rows[i]).chat_id != other)
                    ==> #[trigger] stored_state(swept.db.user_states, other) == stored_state(
                    s.db.user_states,
                    other,
                )
        }),
    decreases rows.len(),
{
    if rows.len() > 0 {
        let front = s.after_users_sweep(rows.drop_last(), now);
        let swept = s.after_users_sweep(rows, now);
        lemma_users_sweep_frame(s, rows.drop_last(), now);
        lemma_user_sweep_frame(front, rows.last(), now);
        assert forall|other: i64|
            (forall|i: int| 0 <= i < rows.len() ==> (#[trigger] rows[i]).chat_id != other)
                implies #[trigger] stored_state(swept.db.user_states, other) == stored_state(
            s.db.user_states,
            other,
        ) by {
            assert(rows[rows.len() - 1].chat_id != other);
            assert forall|i: int| 0 <= i < rows.drop_last().len() implies (
            #[trigger] rows.drop_last()[i]).chat_id != other by {
                assert(rows[i].chat_id != other);
            }
            assert(stored_state(front.db.user_states, other) == stored_state(
                s.db.user_states,
                other,
            ));
        }
    }
}

/// A sweep for a run of users is the sweep for its first `k` users followed
/// by the sweep for the others.
pub proof fn lemma_users_sweep_split(s: BotStateView, rows: Seq<UserRowView>, k: int, now: i64)
    requires
        0 <= k <= rows.len(),
    ensures
        s.after_users_sweep(rows, now) == s.after_users_sweep(rows.take(k), now).after_users_sweep(
            rows.skip(k),
            now,
        ),
    decreases rows.len(),
{
    if k == rows.len() {
        assert(rows.take(k) =~= rows);
        assert(rows.skip(k) =~= Seq::<UserRowView>::empty());
    } else {
        lemma_users_sweep_split(s, rows.drop_last(), k, now);
        assert(rows.drop_last().take(k) =~= rows.take(k));
        assert(rows.drop_last().skip(k) =~= rows.skip(k).drop_last());
        assert(rows.skip(k).last() == rows.last());
    }
}

/// What a sweep for a run of users reports for the user at the place `k`:
/// what it did for that user once the users before had been swept.
pub proof fn lemma_users_sweep_entry(s: BotStateView, rows: Seq<UserRowView>, k: int, now: i64)
    requires
        0 <= k < rows.len(),
    ensures
        s.users_sweep(rows, now).len() == rows.len(),
        s.users_sweep(rows, now)[k] == (SweptUser {
            chat_id: rows[k].chat_id,
            change: s.after_users_sweep(rows.take(k), now).user_sweep(rows[k], now),
        }),
    decreases rows.len(),
{
    lemma_users_sweep_len(s, rows, now);
    if k == rows.len() - 1 {
        assert(rows.take(k) =~= rows.drop_last());
    } else {
        lemma_users_sweep_entry(s, rows.drop_last(), k, now);
        assert(rows.drop_last().take(k) =~= rows.take(k));
    }
}

/// A sweep reports on every user that it visits.
pub proof fn lemma_users_sweep_len(s: BotStateView, rows: Seq<UserRowView>, now: i64)
    ensures
        s.users_sweep(rows, now).len() == rows.len(),
    decreases rows.len(),
{
    if rows.len() > 0 {
        lemma_users_sweep_len(s, rows.drop_last(), now);
    }
}

/// A reservation that is unpaid with its deadline reached is gone after a
/// sweep: it is found neither under its identifier nor under its invoice
/// token.
pub proof fn lemma_sweep_purges_expired(s: BotStateView, id: Seq<char>, now: i64)
    requires
        s.db.well_formed(),
        s.db.reachable,
        booking_by_id(s.db.bookings, id) matches Some(booking) && booking.expired_at(now),
    ensures
        booking_by_id(s.after_sweep(now).db.bookings, id) is None,
        booking_by_payload(
            s.after_sweep(now).db.bookings,
            booking_by_id(s.db.bookings, id)->0.invoice_payload,
        ) is None,
{
    let booking = booking_by_id(s.db.bookings, id)->0;
    let payload = booking.invoice_payload;
    let purged = s.after_purge(now);
    let swept = s.after_sweep(now);
    lemma_place_of_payload(s.db.bookings, payload, place_of_id(s.db.bookings, id));
    lemma_purge_lookup(s.db.bookings, now, id);
    lemma_purge_lookup_by_payload(s.db.bookings, now, payload);
    lemma_purge_consistent(s.db.bookings, now);
    lemma_users_sweep_frame(purged, s.swept_rows(), now);
    if has_id(swept.db.bookings, id) {
        let at = place_of_id(swept.db.bookings, id);
        assert(purged.db.bookings[at].id == id);
    }
    if has_payload(swept.db.bookings, payload) {
        let at = place_of_payload(swept.db.bookings, payload);
        assert(purged.db.bookings[at].invoice_payload == payload);
    }
}

/// A session whose scheduled start has arrived is started by a sweep: the
/// store then holds the user's state with the session active, and the sweep
/// reports the start.
pub proof fn lemma_sweep_starts_due_session(s: BotStateView, k: int, now: i64)
    requires
        s.db.well_formed(),
        s.db.reachable,
        0 <= k < s.db.user_states.len(),
        s.db.user_states[k].state.current_session matches Some(session) && session.due_at(now),
        size_failure(s.db.user_states[k].state) is None,
    ensures
        ({
            let row = s.db.user_states[k];
            let session = row.state.current_session->0;
            let swept = s.after_sweep(now);
            &&& stored_state(swept.db.user_states, row.chat_id) == Some(
                row.state.with_session(Some(SessionView { is_active: true, ..session })),
            )
            &&& s.sweep_changes(now)[k] == SweptUser {
                chat_id: row.chat_id,
                change: UserSweep::Started,
            }
        }),
{
    let rows = s.db.user_states;
    let row = rows[k];
    let session = row.state.current_session->0;
    let started = row.state.with_session(Some(session.swept_at(now)));
    let purged = s.after_purge(now);
    let before = purged.after_users_sweep(rows.take(k), now);
    let at_k = before.after_user_sweep(row, now);

    lemma_purge_consistent(s.db.bookings, now);
    lemma_users_sweep_split(purged, rows, k + 1, now);
    assert(rows.take(k + 1).drop_last() =~= rows.take(k));
    assert(rows.take(k + 1).last() == row);
    lemma_users_sweep_frame(purged, rows.take(k), now);
    lemma_user_sweep_frame(before, row, now);
    lemma_users_sweep_frame(at_k, rows.skip(k + 1), now);
    lemma_users_sweep_entry(purged, rows, k, now);
    lemma_user_save(before.db.user_states, row.chat_id, started, row.chat_id);
    assert(started.stored() == started);
    assert forall|i: int| 0 <= i < rows.skip(k + 1).len() implies (
    #[trigger] rows.skip(k + 1)[i]).chat_id != row.chat_id by {
        assert(rows[k].chat_id != rows[k + 1 + i].chat_id);
    }
}

/// A session whose paid time has passed is ended by a sweep: the store then
/// holds the user's state with the session inactive, the sweep reports the
/// end, and the reservation that paid for the session is completed.
pub proof fn lemma_sweep_ends_lapsed_session(s: BotStateView, k: int, now: i64)
    requires
        s.db.well_formed(),
        s.db.reachable,
        0 <= k < s.db.user_states.len(),
        s.db.user_states[k].state.current_session matches Some(session) && session.lapsed_at(now),
        size_failure(s.db.user_states[k].state) is None,
    ensures
        ({
            let row = s.db.user_states[k];
            let session = row.state.current_session->0;
            let swept = s.after_sweep(now);
            let funding = funding_booking(s.db.bookings, session.chat_id, session.consultant_model);
            &&& stored_state(swept.db.user_states, row.chat_id) == Some(
                row.state.with_session(Some(SessionView { is_active: false, ..session })),
            )
            &&& s.sweep_changes(now)[k].chat_id == row.chat_id
            &&& s.sweep_changes(now)[k].change == if funding is Some {
                UserSweep::Ended
            } else {
                UserSweep::EndedUnfunded
            }
            &&& funding matches Some(booking) ==> booking_by_id(swept.db.bookings, booking.id)
                == Some(booking.completed()) && booking.completed().is_completed
        }),
{
    let rows = s.db.user_states;
    let row = rows[k];
    let session = row.state.current_session->0;
    let ended = row.state.with_session(Some(session.swept_at(now)));
    let purged = s.after_purge(now);
    let before = purged.after_users_sweep(rows.take(k), now);
    let at_k = before.after_user_sweep(row, now);
    let swept = s.after_sweep(now);
    let chat_id = session.chat_id;
    let model = session.consultant_model;

    lemma_purge_consistent(s.db.bookings, now);
    lemma_purge_keeps_funding(s.db.bookings, now, chat_id, model);
    lemma_users_sweep_split(purged, rows, k + 1, now);
    assert(rows.take(k + 1).drop_last() =~= rows.take(k));
    assert(rows.take(k + 1).last() == row);
    lemma_users_sweep_frame(purged, rows.take(k), now);
    lemma_user_sweep_frame(before, row, now);
    lemma_users_sweep_frame(at_k, rows.skip(k + 1), now);
    lemma_users_sweep_entry(purged, rows, k, now);
    lemma_completion_keeps_funding(purged.db.bookings, before.db.bookings, chat_id, model);

    // The state of the user is written in the sweep for the user, and the
    // sweeps for the users after leave it alone.
    let closed = before.after_session_end(session);
    assert(closed.db.user_states == before.db.user_states);
    assert(closed.db.reachable);
    lemma_user_save(before.db.user_states, row.chat_id, ended, row.chat_id);
    assert(ended.stored() == ended);
    assert forall|i: int| 0 <= i < rows.skip(k + 1).len() implies (
    #[trigger] rows.skip(k + 1)[i]).chat_id != row.chat_id by {
        assert(rows[k].chat_id != rows[k + 1 + i].chat_id);
    }

    // The reservation that paid is completed in the sweep for the user, and
    // stays completed.
    if funding_booking(s.db.bookings, chat_id, model) is Some {
        let booking = funding_booking(s.db.bookings, chat_id, model)->0;
        let at = choose|at: int| newest_funding_at(purged.db.bookings, chat_id, model, at);
        assert(newest_funding_at(before.db.bookings, chat_id, model, at));
        lemma_newest_funding(before.db.bookings, chat_id, model, at);
        assert(before.db.bookings[at] == booking || before.db.bookings[at] == booking.completed());
        assert(forall|i: int|
            0 <= i < before.db.bookings.len() && i != at ==> (
            #[trigger] before.db.bookings[i]).id != before.db.bookings[at].id) by {
            assert forall|i: int| 0 <= i < before.db.bookings.len() && i != at implies (
            #[trigger] before.db.bookings[i]).id != before.db.bookings[at].id by {
                if i < at {
                    assert(before.db.bookings[i].id != before.db.bookings[at].id);
                } else {
                    assert(before.db.bookings[at].id != before.db.bookings[i].id);
                }
            }
        }
        assert(closed.db.bookings[at] == booking.completed());
        assert(at_k.db.bookings[at] == booking.completed());
        assert(swept.db.bookings[at] == at_k.db.bookings[at] || swept.db.bookings[at]
            == at_k.db.bookings[at].completed());
        lemma_place_of_id(swept.db.bookings, booking.id, at);
    } else {
        assert(funding_booking(before.db.bookings, chat_id, model) is None);
    }
}

/// Sweeps for the user of `row` at `now`.
pub fn sweep_user(state: &mut BotState, row: &UserRow, now: i64) -> (change: UserSweep)
    ensures
        change == old(state)@.user_sweep(row@, now),
        final(state)@ == old(state)@.after_user_sweep(row@, now),
{
    let session = match &row.state.current_session {
        None => {
            return UserSweep::Unchanged;
        },
        Some(session) => session,
    };
    let mut swept_session = session.clone();
    let change = swept_session.sweep(now);
    let mut swept = row.state.clone();
    swept.current_session = Some(swept_session);
    match change {
        SessionChange::Unchanged => UserSweep::Unchanged,
        SessionChange::Started => {
            let _ = state.save_user_state(row.chat_id, swept, now);
            UserSweep::Started
        },
        SessionChange::Ended => {
            let outcome = match state.find_booking_for_session(session) {
                Ok(Some(booking)) => {
                    if !booking.is_completed {
                        let _ = state.mark_booking_completed(booking.id.as_str());
                    }
                    UserSweep::Ended
                },
                Ok(None) => UserSweep::EndedUnfunded,
                Err(_) => UserSweep::Ended,
            };
            let _ = state.save_user_state(row.chat_id, swept, now);
            outcome
        },
    }
}

/// Sweeps at `now`: removes the reservations that have expired unpaid, then
/// starts and ends the sessions of the users that the store holds.
pub fn sweep(state: &mut BotState, now: i64) -> (report: SweepReport)
    ensures
        final(state)@ == old(state)@.after_sweep(now),
        report.users@ == old(state)@.sweep_changes(now),
        report.purged == old(state)@.sweep_purged(now),
{
    let rows = state.get_all_user_states();
    let purged = match state.cleanup_expired_bookings(now) {
        Ok(count) => count,
        Err(_) => 0,
    };
    let ghost start = state@;
    let ghost visited = rows.deep_view();
    let mut users: Vec<SweptUser> = Vec::new();
    let mut at: usize = 0;
    proof {
        assert(visited.take(0) =~= Seq::<UserRowView>::empty());
    }
    while at < rows.len()
        invariant
            at <= rows.len(),
            visited == rows.deep_view(),
            state@ == start.after_users_sweep(visited.take(at as int), now),
            users@ == start.users_sweep(visited.take(at as int), now),
        decreases rows.len() - at,
    {
        proof {
            assert(visited.take(at + 1).drop_last() =~= visited.take(at as int));
            assert(visited.take(at + 1).last() == rows[at as int]@);
        }
        let change = sweep_user(state, &rows[at], now);
        users.push(SweptUser { chat_id: rows[at].chat_id, change });
        at = at + 1;
    }
    proof {
        assert(visited.take(at as int) =~= visited);
    }
    SweepReport { purged, users }
}

/// Sweeps at the time that the system clock shows.
pub fn check_sessions_task(state: &mut BotState) -> (report: SweepReport)
    ensures
        exists|now: i64|
            clock_reading(now as int) && final(state)@ == #[trigger] old(state)@.after_sweep(now)
                && report.users@ == old(state)@.sweep_changes(now) && report.purged == old(state)@.sweep_purged(now),
{
    let now = utc_now();
    sweep(state, now)
}

/// Evicts the stale cache entries at the time that the system clock shows.
pub fn cleanup_cache_task(state: &mut BotState)
    ensures
        exists|now: i64|
            clock_reading(now as int) && final(state)@ == (BotStateView {
                cache: #[trigger] evicted_at(old(state)@.cache, now),
                ..old(state)@
            }),
{
    let now = utc_now();
    state.cleanup_cache(now);
}

} // verus!
