//! The store: the table of user states and the table of reservations.
//!
//! The tables are held in memory, in the order in which their rows were
//! written. The store may be unreachable; while it is, every operation fails
//! and changes nothing.

use vstd::prelude::*;
use crate::clock::after_minutes;
use crate::clock::MICROS_PER_MINUTE;
use crate::error::BotStateError;
use crate::error::BotStateErrorView;
use crate::error::failure;
use crate::models::booking::Booking;
use crate::models::booking::BookingView;
use crate::models::booking::PAYMENT_WINDOW_MINUTES;
use crate::models::user_state::UserState;
use crate::models::user_state::UserStateView;

verus! {

/// A row of the table of user states.
#[derive(Debug, PartialEq, Eq)]
pub struct UserRow {
    pub chat_id: i64,
    pub state: UserState,
}

/// What a `UserRow` holds.
pub struct UserRowView {
    pub chat_id: i64,
    pub state: UserStateView,
}

impl View for UserRow {
    type V = UserRowView;

    open spec fn view(&self) -> UserRowView {
        UserRowView { chat_id: self.chat_id, state: self.state@ }
    }
}

impl DeepView for UserRow {
    type V = UserRowView;

    open spec fn deep_view(&self) -> UserRowView {
        self@
    }
}

impl Clone for UserRow {
    fn clone(&self) -> (copy: Self)
        ensures
            copy@ == self@,
    {
        UserRow { chat_id: self.chat_id, state: self.state.clone() }
    }
}

/// What the store holds.
pub struct DatabaseView {
    pub reachable: bool,
    pub user_states: Seq<UserRowView>,
    pub bookings: Seq<BookingView>,
}

/// No two reservations of the table have the same identifier.
pub open spec fn distinct_ids(rows: Seq<BookingView>) -> bool {
    forall|i: int, j: int|
        0 <= i < j < rows.len() ==> (#[trigger] rows[i]).id != (#[trigger] rows[j]).id
}

/// No two reservations of the table have the same invoice token.
pub open spec fn distinct_payloads(rows: Seq<BookingView>) -> bool {
    forall|i: int, j: int|
        0 <= i < j < rows.len() ==> (#[trigger] rows[i]).invoice_payload != (
        #[trigger] rows[j]).invoice_payload
}

/// No two paid reservations of the table claim the same slot.
pub open spec fn distinct_paid_slots(rows: Seq<BookingView>) -> bool {
    forall|i: int, j: int|
        0 <= i < j < rows.len() && (#[trigger] rows[i]).is_paid && (#[trigger] rows[j]).is_paid
            ==> !rows[i].same_slot(rows[j])
}

/// Every reservation of the table keeps the rules of a stored reservation.
pub open spec fn all_well_formed(rows: Seq<BookingView>) -> bool {
    forall|i: int| 0 <= i < rows.len() ==> (#[trigger] rows[i]).well_formed()
}

/// The rules that the table of reservations keeps.
pub open spec fn bookings_consistent(rows: Seq<BookingView>) -> bool {
    &&& distinct_ids(rows)
    &&& distinct_payloads(rows)
    &&& distinct_paid_slots(rows)
    &&& all_well_formed(rows)
}

/// No two rows of the table of user states are for the same user, and no
/// stored state carries a scheduled time.
pub open spec fn users_consistent(rows: Seq<UserRowView>) -> bool {
    &&& forall|i: int, j: int|
        0 <= i < j < rows.len() ==> (#[trigger] rows[i]).chat_id != (#[trigger] rows[j]).chat_id
    &&& forall|i: int| 0 <= i < rows.len() ==> (#[trigger] rows[i]).state.scheduled_time is None
}

impl DatabaseView {
    /// The rules that the store keeps.
    pub open spec fn well_formed(self) -> bool {
        &&& users_consistent(self.user_states)
        &&& bookings_consistent(self.bookings)
    }

    /// A reachable store without rows.
    pub open spec fn empty() -> DatabaseView {
        DatabaseView { reachable: true, user_states: Seq::empty(), bookings: Seq::empty() }
    }
}

/// What the store says when it cannot be reached.
pub open spec fn unreachable_failure() -> BotStateErrorView {
    BotStateErrorView::DatabaseError("store unreachable"@)
}

/// What the store says when it does not accept a row.
pub open spec fn rejected_failure() -> BotStateErrorView {
    BotStateErrorView::DatabaseError("row rejected"@)
}

/// Whether the table has a reservation with the identifier `id`.
pub open spec fn has_id(rows: Seq<BookingView>, id: Seq<char>) -> bool {
    exists|i: int| 0 <= i < rows.len() && (#[trigger] rows[i]).id == id
}

/// The place of a reservation with the identifier `id`, where one exists.
pub open spec fn place_of_id(rows: Seq<BookingView>, id: Seq<char>) -> int {
    choose|i: int| 0 <= i < rows.len() && (#[trigger] rows[i]).id == id
}

/// The reservation with the identifier `id`, if the table has one.
pub open spec fn booking_by_id(rows: Seq<BookingView>, id: Seq<char>) -> Option<BookingView> {
    if has_id(rows, id) {
        Some(rows[place_of_id(rows, id)])
    } else {
        None
    }
}

/// Whether the table has a reservation with the invoice token `payload`.
pub open spec fn has_payload(rows: Seq<BookingView>, payload: Seq<char>) -> bool {
    exists|i: int| 0 <= i < rows.len() && (#[trigger] rows[i]).invoice_payload == payload
}

/// The place of a reservation with the invoice token `payload`, where one
/// exists.
pub open spec fn place_of_payload(rows: Seq<BookingView>, payload: Seq<char>) -> int {
    choose|i: int| 0 <= i < rows.len() && (#[trigger] rows[i]).invoice_payload == payload
}

/// The reservation with the invoice token `payload`, if the table has one.
pub open spec fn booking_by_payload(rows: Seq<BookingView>, payload: Seq<char>) -> Option<
    BookingView,
> {
    if has_payload(rows, payload) {
        Some(rows[place_of_payload(rows, payload)])
    } else {
        None
    }
}

/// Whether the table has a row for the user `chat_id`.
pub open spec fn has_user(rows: Seq<UserRowView>, chat_id: i64) -> bool {
    exists|i: int| 0 <= i < rows.len() && (#[trigger] rows[i]).chat_id == chat_id
}

/// The place of the row for the user `chat_id`, where one exists.
pub open spec fn place_of_user(rows: Seq<UserRowView>, chat_id: i64) -> int {
    choose|i: int| 0 <= i < rows.len() && (#[trigger] rows[i]).chat_id == chat_id
}

/// The state that the table holds for the user `chat_id`, if it has one.
pub open spec fn stored_state(rows: Seq<UserRowView>, chat_id: i64) -> Option<UserStateView> {
    if has_user(rows, chat_id) {
        Some(rows[place_of_user(rows, chat_id)].state)
    } else {
        None
    }
}

/// In a table with distinct identifiers, a reservation that has the
/// identifier is the one that the lookup finds.
pub proof fn lemma_place_of_id(rows: Seq<BookingView>, id: Seq<char>, at: int)
    requires
        distinct_ids(rows),
        0 <= at < rows.len(),
        rows[at].id == id,
    ensures
        has_id(rows, id),
        place_of_id(rows, id) == at,
        booking_by_id(rows, id) == Some(rows[at]),
{
    let found = place_of_id(rows, id);
    if found < at {
        assert(rows[found].id != rows[at].id);
    } else if at < found {
        assert(rows[at].id != rows[found].id);
    }
}

/// In a table with distinct invoice tokens, a reservation that has the
/// token is the one that the lookup finds.
pub proof fn lemma_place_of_payload(rows: Seq<BookingView>, payload: Seq<char>, at: int)
    requires
        distinct_payloads(rows),
        0 <= at < rows.len(),
        rows[at].invoice_payload == payload,
    ensures
        has_payload(rows, payload),
        place_of_payload(rows, payload) == at,
        booking_by_payload(rows, payload) == Some(rows[at]),
{
    let found = place_of_payload(rows, payload);
    if found < at {
        assert(rows[found].invoice_payload != rows[at].invoice_payload);
    } else if at < found {
        assert(rows[at].invoice_payload != rows[found].invoice_payload);
    }
}

/// In a table with one row for each user, a row that is for the user is the
/// one that the lookup finds.
pub proof fn lemma_place_of_user(rows: Seq<UserRowView>, chat_id: i64, at: int)
    requires
        users_consistent(rows),
        0 <= at < rows.len(),
        rows[at].chat_id == chat_id,
    ensures
        has_user(rows, chat_id),
        place_of_user(rows, chat_id) == at,
        stored_state(rows, chat_id) == Some(rows[at].state),
{
    let found = place_of_user(rows, chat_id);
    if found < at {
        assert(rows[found].chat_id != rows[at].chat_id);
    } else if at < found {
        assert(rows[at].chat_id != rows[found].chat_id);
    }
}

/// The deadline for the payment of a reservation written at `now`.
pub open spec fn deadline_at(now: i64) -> int {
    after_minutes(now as int, PAYMENT_WINDOW_MINUTES as int)
}

/// The deadline that a reservation has once it is written at `now`: none
/// for a paid one, a new one for an unpaid one.
pub open spec fn written_deadline(is_paid: bool, now: i64) -> Option<i64> {
    if is_paid {
        None
    } else {
        Some(deadline_at(now) as i64)
    }
}

/// The row that enters the table when `booking` is written at `now` and the
/// table had no reservation with its identifier.
pub open spec fn inserted_row(booking: BookingView, now: i64) -> BookingView {
    BookingView {
        created_at: now,
        expires_at: written_deadline(booking.is_paid, now),
        ..booking
    }
}

/// The row that takes the place of `row` when `booking`, which has its
/// identifier, is written at `now`: the payment, the completion and the
/// payment prompt are taken from `booking`, the rest stays.
pub open spec fn updated_row(row: BookingView, booking: BookingView, now: i64) -> BookingView {
    BookingView {
        is_paid: booking.is_paid,
        is_completed: booking.is_completed,
        payment_invoice_message_id: booking.payment_invoice_message_id,
        expires_at: written_deadline(booking.is_paid, now),
        ..row
    }
}

/// Whether a paid reservation of the table, other than the one at the
/// place `except`, claims the slot of `row`.
pub open spec fn slot_taken(rows: Seq<BookingView>, row: BookingView, except: int) -> bool {
    exists|j: int|
        0 <= j < rows.len() && j != except && (#[trigger] rows[j]).is_paid && rows[j].same_slot(
            row,
        )
}

/// The row that writing `booking` at `now` puts into the table.
pub open spec fn written_row(rows: Seq<BookingView>, booking: BookingView, now: i64) -> BookingView {
    if has_id(rows, booking.id) {
        updated_row(rows[place_of_id(rows, booking.id)], booking, now)
    } else {
        inserted_row(booking, now)
    }
}

/// Why the store does not write `booking` at `now`, if it does not.
///
/// An unreachable store writes nothing. A row is rejected where its deadline
/// would be no instant, where it would break the rules of a stored
/// reservation, or where a new reservation brings an invoice token that the
/// table has. The slot is taken where another paid reservation claims the
/// slot of a new reservation, or of one that is written as paid.
pub open spec fn save_failure(db: DatabaseView, booking: BookingView, now: i64) -> Option<
    BotStateErrorView,
> {
    let row = written_row(db.bookings, booking, now);
    if !db.reachable {
        Some(unreachable_failure())
    } else if !booking.is_paid && deadline_at(now) > i64::MAX {
        Some(rejected_failure())
    } else if !row.well_formed() {
        Some(rejected_failure())
    } else if has_id(db.bookings, booking.id) {
        if row.is_paid && slot_taken(db.bookings, row, place_of_id(db.bookings, booking.id)) {
            Some(BotStateErrorView::SlotTaken)
        } else {
            None
        }
    } else if has_payload(db.bookings, booking.invoice_payload) {
        Some(rejected_failure())
    } else if slot_taken(db.bookings, row, -1) {
        Some(BotStateErrorView::SlotTaken)
    } else {
        None
    }
}

/// The table of reservations once `booking` has been written at `now`.
pub open spec fn bookings_after_save(db: DatabaseView, booking: BookingView, now: i64) -> Seq<
    BookingView,
> {
    let row = written_row(db.bookings, booking, now);
    if save_failure(db, booking, now) is Some {
        db.bookings
    } else if has_id(db.bookings, booking.id) {
        db.bookings.update(place_of_id(db.bookings, booking.id), row)
    } else {
        db.bookings.push(row)
    }
}

/// Writing a reservation keeps the rules of the table of reservations.
pub proof fn lemma_save_consistent(db: DatabaseView, booking: BookingView, now: i64)
    requires
        bookings_consistent(db.bookings),
    ensures
        bookings_consistent(bookings_after_save(db, booking, now)),
{
    let rows = db.bookings;
    let after = bookings_after_save(db, booking, now);
    let row = written_row(rows, booking, now);
    if save_failure(db, booking, now) is Some {
    } else if has_id(rows, booking.id) {
        let at = place_of_id(rows, booking.id);
        assert forall|i: int, j: int| 0 <= i < j < after.len() implies (#[trigger] after[i]).id
            != (#[trigger] after[j]).id && after[i].invoice_payload != after[j].invoice_payload
            && (after[i].is_paid && after[j].is_paid ==> !after[i].same_slot(after[j])) by {
            assert(rows[i].id != rows[j].id);
            assert(rows[i].invoice_payload != rows[j].invoice_payload);
            if i == at {
                assert(rows[j].is_paid && rows[j].same_slot(row) ==> slot_taken(rows, row, at));
            } else if j == at {
                assert(rows[i].is_paid && rows[i].same_slot(row) ==> slot_taken(rows, row, at));
            }
        }
        assert forall|i: int| 0 <= i < after.len() implies (#[trigger] after[i]).well_formed() by {
            assert(i != at ==> rows[i].well_formed());
        }
    } else {
        assert forall|i: int, j: int| 0 <= i < j < after.len() implies (#[trigger] after[i]).id
            != (#[trigger] after[j]).id && after[i].invoice_payload != after[j].invoice_payload
            && (after[i].is_paid && after[j].is_paid ==> !after[i].same_slot(after[j])) by {
            if j == rows.len() {
                assert(rows[i].id != booking.id);
                assert(rows[i].invoice_payload != booking.invoice_payload);
                assert(rows[i].is_paid && rows[i].same_slot(row) ==> slot_taken(rows, row, -1));
            } else {
                assert(rows[i].id != rows[j].id);
                assert(rows[i].invoice_payload != rows[j].invoice_payload);
            }
        }
        assert forall|i: int| 0 <= i < after.len() implies (#[trigger] after[i]).well_formed() by {
            assert(i < rows.len() ==> rows[i].well_formed());
        }
    }
}

/// A reservation that was written is found under its identifier and under
/// its invoice token, as the row that the write put into the table.
pub proof fn lemma_saved_booking_is_found(db: DatabaseView, booking: BookingView, now: i64)
    requires
        bookings_consistent(db.bookings),
        save_failure(db, booking, now) is None,
    ensures
        booking_by_id(bookings_after_save(db, booking, now), booking.id) == Some(
            written_row(db.bookings, booking, now),
        ),
        booking_by_payload(
            bookings_after_save(db, booking, now),
            written_row(db.bookings, booking, now).invoice_payload,
        ) == Some(written_row(db.bookings, booking, now)),
{
    lemma_save_consistent(db, booking, now);
    let rows = db.bookings;
    let after = bookings_after_save(db, booking, now);
    let row = written_row(rows, booking, now);
    let at = if has_id(rows, booking.id) {
        place_of_id(rows, booking.id)
    } else {
        rows.len() as int
    };
    assert(after[at] == row);
    lemma_place_of_id(after, booking.id, at);
    lemma_place_of_payload(after, row.invoice_payload, at);
}

/// The table of reservations once the session of the reservation `id` has
/// ended: that reservation is completed, if it is there and paid.
pub open spec fn bookings_after_completion(rows: Seq<BookingView>, id: Seq<char>) -> Seq<
    BookingView,
> {
    Seq::new(
        rows.len(),
        |i: int|
            if rows[i].id == id {
                rows[i].completed()
            } else {
                rows[i]
            },
    )
}

/// Whether `after` is `before` with some of its reservations completed and
/// nothing else changed.
pub open spec fn only_completed(before: Seq<BookingView>, after: Seq<BookingView>) -> bool {
    &&& after.len() == before.len()
    &&& forall|i: int|
        0 <= i < before.len() ==> (#[trigger] after[i]) == before[i] || after[i]
            == before[i].completed()
}

/// Completing a reservation keeps the rules of the table of reservations.
pub proof fn lemma_completion_consistent(rows: Seq<BookingView>, id: Seq<char>)
    requires
        bookings_consistent(rows),
    ensures
        bookings_consistent(bookings_after_completion(rows, id)),
{
    let after = bookings_after_completion(rows, id);
    assert forall|i: int, j: int| 0 <= i < j < after.len() implies (#[trigger] after[i]).id != (
    #[trigger] after[j]).id && after[i].invoice_payload != after[j].invoice_payload && (
    after[i].is_paid && after[j].is_paid ==> !after[i].same_slot(after[j])) by {
        assert(rows[i].id != rows[j].id);
        assert(rows[i].invoice_payload != rows[j].invoice_payload);
    }
    assert forall|i: int| 0 <= i < after.len() implies (#[trigger] after[i]).well_formed() by {
        assert(rows[i].well_formed());
    }
}

/// Completing a reservation changes that reservation only, and no
/// identifier.
pub proof fn lemma_completion_lookup(rows: Seq<BookingView>, done: Seq<char>, id: Seq<char>)
    requires
        bookings_consistent(rows),
    ensures
        booking_by_id(bookings_after_completion(rows, done), id) == match booking_by_id(rows, id) {
            Some(row) => if id == done {
                Some(row.completed())
            } else {
                Some(row)
            },
            None => None,
        },
{
    let after = bookings_after_completion(rows, done);
    lemma_completion_consistent(rows, done);
    if has_id(rows, id) {
        let at = place_of_id(rows, id);
        assert(after[at].id == id);
        lemma_place_of_id(after, id, at);
    } else if has_id(after, id) {
        let at = place_of_id(after, id);
        assert(rows[at].id == id);
    }
}

/// The reservations that a purge at `now` leaves in the table: all but the
/// unpaid ones whose deadline has been reached.
pub open spec fn bookings_after_purge(rows: Seq<BookingView>, now: i64) -> Seq<BookingView> {
    rows.filter(|row: BookingView| !row.expired_at(now))
}

/// Where the rows that a filter keeps come from: for each kept row its
/// place in the table. The places rise, and every row that meets the test
/// is kept.
pub proof fn lemma_filter_places<A>(rows: Seq<A>, test: spec_fn(A) -> bool) -> (places: Seq<int>)
    ensures
        places.len() == rows.filter(test).len(),
        forall|k: int|
            0 <= k < places.len() ==> 0 <= #[trigger] places[k] < rows.len() && rows[places[k]]
                == rows.filter(test)[k] && test(rows[places[k]]),
        forall|k: int, l: int|
            0 <= k < l < places.len() ==> #[trigger] places[k] < #[trigger] places[l],
        forall|a: int|
            0 <= a < rows.len() && test(#[trigger] rows[a]) ==> exists|k: int|
                0 <= k < places.len() && #[trigger] places[k] == a,
    decreases rows.len(),
{
    reveal(Seq::filter);
    if rows.len() == 0 {
        Seq::empty()
    } else {
        let front = rows.drop_last();
        let front_places = lemma_filter_places(front, test);
        let places = if test(rows.last()) {
            front_places.push(rows.len() - 1)
        } else {
            front_places
        };
        assert forall|a: int| 0 <= a < rows.len() && test(#[trigger] rows[a]) implies exists|
            k: int,
        |
            0 <= k < places.len() && #[trigger] places[k] == a by {
            if a < rows.len() - 1 {
                assert(test(front[a]));
                let k = choose|k: int| 0 <= k < front_places.len() && #[trigger] front_places[k] == a;
                assert(places[k] == a);
            } else {
                assert(places[places.len() - 1] == a);
            }
        }
        places
    }
}

/// A purge keeps the rules of the table of reservations.
pub proof fn lemma_purge_consistent(rows: Seq<BookingView>, now: i64)
    requires
        bookings_consistent(rows),
    ensures
        bookings_consistent(bookings_after_purge(rows, now)),
{
    let test = |row: BookingView| !row.expired_at(now);
    let kept = rows.filter(test);
    let places = lemma_filter_places(rows, test);
    assert forall|i: int, j: int| 0 <= i < j < kept.len() implies (#[trigger] kept[i]).id != (
    #[trigger] kept[j]).id && kept[i].invoice_payload != kept[j].invoice_payload && (kept[i].is_paid
        && kept[j].is_paid ==> !kept[i].same_slot(kept[j])) by {
        assert(places[i] < places[j]);
        assert(rows[places[i]] == kept[i]);
        assert(rows[places[j]] == kept[j]);
    }
    assert forall|i: int| 0 <= i < kept.len() implies (#[trigger] kept[i]).well_formed() by {
        assert(rows[places[i]] == kept[i]);
    }
}

/// A reservation that a purge at `now` removes is unpaid with its deadline
/// reached; every other reservation stays, and is found as before.
pub proof fn lemma_purge_lookup(rows: Seq<BookingView>, now: i64, id: Seq<char>)
    requires
        bookings_consistent(rows),
    ensures
        booking_by_id(bookings_after_purge(rows, now), id) == match booking_by_id(rows, id) {
            Some(row) => if row.expired_at(now) {
                None
            } else {
                Some(row)
            },
            None => None,
        },
{
    let test = |row: BookingView| !row.expired_at(now);
    let kept = rows.filter(test);
    let places = lemma_filter_places(rows, test);
    lemma_purge_consistent(rows, now);
    if has_id(kept, id) {
        let k = place_of_id(kept, id);
        assert(rows[places[k]] == kept[k]);
        lemma_place_of_id(rows, id, places[k]);
    } else if has_id(rows, id) {
        let at = place_of_id(rows, id);
        if test(rows[at]) {
            let k = choose|k: int| 0 <= k < places.len() && #[trigger] places[k] == at;
            assert(kept[k].id == id);
        }
    }
}

/// A purge at `now` leaves no reservation under the invoice token of one
/// that it removes, and finds every other reservation as before.
pub proof fn lemma_purge_lookup_by_payload(rows: Seq<BookingView>, now: i64, payload: Seq<char>)
    requires
        bookings_consistent(rows),
    ensures
        booking_by_payload(bookings_after_purge(rows, now), payload) == match booking_by_payload(
            rows,
            payload,
        ) {
            Some(row) => if row.expired_at(now) {
                None
            } else {
                Some(row)
            },
            None => None,
        },
{
    let test = |row: BookingView| !row.expired_at(now);
    let kept = rows.filter(test);
    let places = lemma_filter_places(rows, test);
    lemma_purge_consistent(rows, now);
    if has_payload(kept, payload) {
        let k = place_of_payload(kept, payload);
        assert(rows[places[k]] == kept[k]);
        lemma_place_of_payload(rows, payload, places[k]);
    } else if has_payload(rows, payload) {
        let at = place_of_payload(rows, payload);
        if test(rows[at]) {
            let k = choose|k: int| 0 <= k < places.len() && #[trigger] places[k] == at;
            assert(kept[k].invoice_payload == payload);
        }
    }
}

/// Whether a reservation has paid for a session of the user `chat_id` with
/// the persona `model`.
pub open spec fn funds(row: BookingView, chat_id: i64, model: Seq<char>) -> bool {
    row.is_paid && row.user_id == chat_id && row.consultant_model == model
}

/// Whether the reservation at the place `at` is the newest that has paid
/// for a session of the user with the persona: none of the others was
/// created later, and of those created at the same instant it is the last
/// in the table.
pub open spec fn newest_funding_at(
    rows: Seq<BookingView>,
    chat_id: i64,
    model: Seq<char>,
    at: int,
) -> bool {
    &&& 0 <= at < rows.len()
    &&& funds(rows[at], chat_id, model)
    &&& forall|i: int|
        0 <= i < rows.len() && funds(#[trigger] rows[i], chat_id, model) ==> rows[i].created_at
            < rows[at].created_at || (rows[i].created_at == rows[at].created_at && i <= at)
}

/// The newest reservation that has paid for a session of the user `chat_id`
/// with the persona `model`, if there is one.
pub open spec fn funding_booking(rows: Seq<BookingView>, chat_id: i64, model: Seq<char>) -> Option<
    BookingView,
> {
    if exists|at: int| newest_funding_at(rows, chat_id, model, at) {
        Some(rows[choose|at: int| newest_funding_at(rows, chat_id, model, at)])
    } else {
        None
    }
}

/// At most one place holds the newest funding reservation.
pub proof fn lemma_newest_funding(rows: Seq<BookingView>, chat_id: i64, model: Seq<char>, at: int)
    requires
        newest_funding_at(rows, chat_id, model, at),
    ensures
        funding_booking(rows, chat_id, model) == Some(rows[at]),
{
    let chosen = choose|at: int| newest_funding_at(rows, chat_id, model, at);
    assert(funds(rows[chosen], chat_id, model));
    assert(funds(rows[at], chat_id, model));
    assert(chosen == at);
}

/// Without a funding reservation in the table, none is found.
pub proof fn lemma_no_funding(rows: Seq<BookingView>, chat_id: i64, model: Seq<char>)
    requires
        forall|i: int| 0 <= i < rows.len() ==> !funds(#[trigger] rows[i], chat_id, model),
    ensures
        funding_booking(rows, chat_id, model) is None,
{
    if exists|at: int| newest_funding_at(rows, chat_id, model, at) {
        let at = choose|at: int| newest_funding_at(rows, chat_id, model, at);
        assert(funds(rows[at], chat_id, model));
    }
}

/// A purge removes no paid reservation: the reservation that has paid for a
/// session is the same before and after.
pub proof fn lemma_purge_keeps_funding(rows: Seq<BookingView>, now: i64, chat_id: i64, model: Seq<char>)
    ensures
        funding_booking(bookings_after_purge(rows, now), chat_id, model) == funding_booking(
            rows,
            chat_id,
            model,
        ),
{
    let test = |row: BookingView| !row.expired_at(now);
    let kept = rows.filter(test);
    let places = lemma_filter_places(rows, test);
    if exists|at: int| newest_funding_at(rows, chat_id, model, at) {
        let at = choose|at: int| newest_funding_at(rows, chat_id, model, at);
        assert(test(rows[at]));
        let k = choose|k: int| 0 <= k < places.len() && #[trigger] places[k] == at;
        assert forall|i: int|
            0 <= i < kept.len() && funds(#[trigger] kept[i], chat_id, model) implies kept[i].created_at
            < kept[k].created_at || (kept[i].created_at == kept[k].created_at && i <= k) by {
            assert(rows[places[i]] == kept[i]);
            assert(funds(rows[places[i]], chat_id, model));
            if i > k {
                assert(places[k] < places[i]);
            }
        }
        assert(newest_funding_at(kept, chat_id, model, k));
        lemma_newest_funding(kept, chat_id, model, k);
    } else if exists|k: int| newest_funding_at(kept, chat_id, model, k) {
        let k = choose|k: int| newest_funding_at(kept, chat_id, model, k);
        let at = places[k];
        assert(rows[at] == kept[k]);
        assert forall|i: int|
            0 <= i < rows.len() && funds(#[trigger] rows[i], chat_id, model) implies rows[i].created_at
            < rows[at].created_at || (rows[i].created_at == rows[at].created_at && i <= at) by {
            assert(test(rows[i]));
            let l = choose|l: int| 0 <= l < places.len() && #[trigger] places[l] == i;
            assert(rows[places[l]] == kept[l]);
            assert(funds(kept[l], chat_id, model));
            if l < k {
                assert(places[l] < places[k]);
            }
        }
        assert(newest_funding_at(rows, chat_id, model, at));
    }
}

/// Completing reservations does not change which reservation has paid for a
/// session, only whether it is completed.
pub proof fn lemma_completion_keeps_funding(
    before: Seq<BookingView>,
    after: Seq<BookingView>,
    chat_id: i64,
    model: Seq<char>,
)
    requires
        only_completed(before, after),
    ensures
        forall|at: int|
            newest_funding_at(before, chat_id, model, at) <==> #[trigger] newest_funding_at(
                after,
                chat_id,
                model,
                at,
            ),
        funding_booking(before, chat_id, model) is None <==> funding_booking(after, chat_id, model)
            is None,
{
    assert forall|at: int| newest_funding_at(before, chat_id, model, at) implies newest_funding_at(
        after,
        chat_id,
        model,
        at,
    ) by {
        assert(funds(after[at], chat_id, model));
        assert forall|i: int|
            0 <= i < after.len() && funds(#[trigger] after[i], chat_id, model) implies after[i].created_at
            < after[at].created_at || (after[i].created_at == after[at].created_at && i <= at) by {
            assert(funds(before[i], chat_id, model));
        }
    }
    assert forall|at: int| newest_funding_at(after, chat_id, model, at) implies newest_funding_at(
        before,
        chat_id,
        model,
        at,
    ) by {
        assert(after[at] == before[at] || after[at] == before[at].completed());
        assert(funds(before[at], chat_id, model));
        assert forall|i: int|
            0 <= i < before.len() && funds(#[trigger] before[i], chat_id, model) implies before[i].created_at
            < before[at].created_at || (before[i].created_at == before[at].created_at && i <= at) by {
            assert(after[i] == before[i] || after[i] == before[i].completed());
            assert(funds(after[i], chat_id, model));
        }
    }
    if exists|at: int| newest_funding_at(before, chat_id, model, at) {
        let at = choose|at: int| newest_funding_at(before, chat_id, model, at);
        assert(newest_funding_at(after, chat_id, model, at));
    }
    if exists|at: int| newest_funding_at(after, chat_id, model, at) {
        let at = choose|at: int| newest_funding_at(after, chat_id, model, at);
        assert(newest_funding_at(before, chat_id, model, at));
    }
}

/// Why the store does not withdraw the reservation `id` at `now`, if it
/// does not: it cannot be reached, it has no such reservation, or the
/// reservation can no longer be withdrawn.
pub open spec fn cancel_failure(db: DatabaseView, id: Seq<char>, now: i64) -> Option<
    BotStateErrorView,
> {
    if !db.reachable {
        Some(unreachable_failure())
    } else if !has_id(db.bookings, id) {
        Some(BotStateErrorView::NotFound)
    } else if !db.bookings[place_of_id(db.bookings, id)].cancellable_at(now) {
        Some(BotStateErrorView::CannotCancel)
    } else {
        None
    }
}

/// The table of reservations once the reservation `id` has been withdrawn
/// at `now`.
pub open spec fn bookings_after_cancel(db: DatabaseView, id: Seq<char>, now: i64) -> Seq<
    BookingView,
> {
    if cancel_failure(db, id, now) is Some {
        db.bookings
    } else {
        db.bookings.remove(place_of_id(db.bookings, id))
    }
}

/// Taking a row out keeps the rules of the table of reservations.
pub proof fn lemma_removal_consistent(rows: Seq<BookingView>, at: int)
    requires
        bookings_consistent(rows),
        0 <= at < rows.len(),
    ensures
        bookings_consistent(rows.remove(at)),
{
    let after = rows.remove(at);
    assert forall|i: int, j: int| 0 <= i < j < after.len() implies (#[trigger] after[i]).id != (
    #[trigger] after[j]).id && after[i].invoice_payload != after[j].invoice_payload && (
    after[i].is_paid && after[j].is_paid ==> !after[i].same_slot(after[j])) by {
        let from_i = if i < at {
            i
        } else {
            i + 1
        };
        let from_j = if j < at {
            j
        } else {
            j + 1
        };
        assert(rows[from_i] == after[i]);
        assert(rows[from_j] == after[j]);
    }
    assert forall|i: int| 0 <= i < after.len() implies (#[trigger] after[i]).well_formed() by {
        let from_i = if i < at {
            i
        } else {
            i + 1
        };
        assert(rows[from_i] == after[i]);
    }
}

/// A list of reservations, newest first, with `row` in its place: after
/// the reservations that are not older than it.
pub open spec fn inserted_by_age(listed: Seq<BookingView>, row: BookingView) -> Seq<BookingView>
    decreases listed.len(),
{
    if listed.len() == 0 {
        seq![row]
    } else if listed.last().created_at >= row.created_at {
        listed.push(row)
    } else {
        inserted_by_age(listed.drop_last(), row).push(listed.last())
    }
}

/// The reservations of the user `chat_id`, newest first. Reservations that
/// were created at the same instant are listed in the order of the table.
pub open spec fn user_listing(rows: Seq<BookingView>, chat_id: i64) -> Seq<BookingView>
    decreases rows.len(),
{
    if rows.len() == 0 {
        Seq::empty()
    } else if rows.last().user_id == chat_id {
        inserted_by_age(user_listing(rows.drop_last(), chat_id), rows.last())
    } else {
        user_listing(rows.drop_last(), chat_id)
    }
}

/// Whether no reservation of the list is newer than one before it.
pub open spec fn newest_first(listed: Seq<BookingView>) -> bool {
    forall|i: int, j: int|
        0 <= i < j < listed.len() ==> (#[trigger] listed[i]).created_at >= (
        #[trigger] listed[j]).created_at
}

/// The place of a reservation in a list is behind the reservations that are
/// not older than it, and before those that are.
pub proof fn lemma_inserted_by_age(listed: Seq<BookingView>, row: BookingView, place: int)
    requires
        0 <= place <= listed.len(),
        forall|i: int| place <= i < listed.len() ==> (#[trigger] listed[i]).created_at < row.created_at,
        place > 0 ==> listed[place - 1].created_at >= row.created_at,
    ensures
        inserted_by_age(listed, row) == listed.insert(place, row),
    decreases listed.len(),
{
    if place == listed.len() {
        assert(listed.push(row) =~= listed.insert(place, row));
    } else {
        assert(listed.last().created_at < row.created_at);
        lemma_inserted_by_age(listed.drop_last(), row, place);
        assert(listed.drop_last().insert(place, row).push(listed.last()) =~= listed.insert(
            place,
            row,
        ));
    }
}

/// Every reservation of a list in which `row` has taken its place is `row`
/// or was in the list before.
pub proof fn lemma_insertion_members(listed: Seq<BookingView>, row: BookingView)
    ensures
        forall|i: int|
            0 <= i < inserted_by_age(listed, row).len() ==> (#[trigger] inserted_by_age(
                listed,
                row,
            )[i]) == row || exists|k: int| 0 <= k < listed.len() && listed[k] == inserted_by_age(listed, row)[i],
    decreases listed.len(),
{
    let after = inserted_by_age(listed, row);
    if listed.len() == 0 {
    } else if listed.last().created_at >= row.created_at {
        assert forall|i: int| 0 <= i < after.len() implies (#[trigger] after[i]) == row || exists|
            k: int,
        |
            0 <= k < listed.len() && listed[k] == after[i] by {
            if i < listed.len() {
                assert(listed[i] == after[i]);
            }
        }
    } else {
        let front = listed.drop_last();
        let placed = inserted_by_age(front, row);
        lemma_insertion_members(front, row);
        assert forall|i: int| 0 <= i < after.len() implies (#[trigger] after[i]) == row || exists|
            k: int,
        |
            0 <= k < listed.len() && listed[k] == after[i] by {
            if i < placed.len() {
                if placed[i] != row {
                    let k = choose|k: int| 0 <= k < front.len() && front[k] == placed[i];
                    assert(listed[k] == after[i]);
                }
            } else {
                assert(listed[listed.len() - 1] == after[i]);
            }
        }
    }
}

/// A list that is newest first stays so when a reservation takes its place
/// in it, and it then holds that reservation besides those it held.
pub proof fn lemma_insertion_keeps_order(listed: Seq<BookingView>, row: BookingView)
    requires
        newest_first(listed),
    ensures
        newest_first(inserted_by_age(listed, row)),
        inserted_by_age(listed, row).len() == listed.len() + 1,
        inserted_by_age(listed, row).to_multiset() == listed.to_multiset().insert(row),
    decreases listed.len(),
{
    broadcast use vstd::seq_lib::group_to_multiset_ensures;

    let after = inserted_by_age(listed, row);
    if listed.len() == 0 {
        assert(listed =~= Seq::empty());
    } else if listed.last().created_at >= row.created_at {
        assert forall|i: int, j: int| 0 <= i < j < after.len() implies (#[trigger] after[i]).created_at
            >= (#[trigger] after[j]).created_at by {
            if j == listed.len() {
                if i < listed.len() - 1 {
                    assert(listed[i].created_at >= listed[listed.len() - 1].created_at);
                }
            } else {
                assert(listed[i].created_at >= listed[j].created_at);
            }
        }
    } else {
        let front = listed.drop_last();
        assert forall|i: int, j: int| 0 <= i < j < front.len() implies (#[trigger] front[i]).created_at
            >= (#[trigger] front[j]).created_at by {
            assert(listed[i].created_at >= listed[j].created_at);
        }
        lemma_insertion_keeps_order(front, row);
        let placed = inserted_by_age(front, row);
        lemma_insertion_members(front, row);
        assert forall|i: int, j: int| 0 <= i < j < after.len() implies (#[trigger] after[i]).created_at
            >= (#[trigger] after[j]).created_at by {
            if j == placed.len() {
                if placed[i] == row {
                } else {
                    let k = choose|k: int| 0 <= k < front.len() && front[k] == placed[i];
                    assert(listed[k].created_at >= listed[listed.len() - 1].created_at);
                }
            } else {
                assert(placed[i].created_at >= placed[j].created_at);
            }
        }
        assert(listed =~= front.push(listed.last()));
        assert(listed.to_multiset() =~= front.to_multiset().insert(listed.last()));
        assert(after.to_multiset() =~= listed.to_multiset().insert(row));
    }
}

/// The list of a user's reservations is newest first, and it holds the
/// reservations of the user in the table, each as often as the table.
pub proof fn lemma_user_listing(rows: Seq<BookingView>, chat_id: i64)
    ensures
        newest_first(user_listing(rows, chat_id)),
        user_listing(rows, chat_id).to_multiset() == rows.filter(
            |row: BookingView| row.user_id == chat_id,
        ).to_multiset(),
    decreases rows.len(),
{
    broadcast use vstd::seq_lib::group_to_multiset_ensures;

    reveal(Seq::filter);
    let mine = |row: BookingView| row.user_id == chat_id;
    if rows.len() == 0 {
        assert(rows.filter(mine) =~= Seq::empty());
    } else {
        lemma_user_listing(rows.drop_last(), chat_id);
        if rows.last().user_id == chat_id {
            lemma_insertion_keeps_order(user_listing(rows.drop_last(), chat_id), rows.last());
            assert(rows.filter(mine) =~= rows.drop_last().filter(mine).push(rows.last()));
        }
    }
}

/// The table of user states once `state` has been written for `chat_id`:
/// the row of the user is replaced, or a new row ends the table. The
/// scheduled time is not stored.
pub open spec fn users_after_save(rows: Seq<UserRowView>, chat_id: i64, state: UserStateView) -> Seq<
    UserRowView,
> {
    let row = UserRowView { chat_id, state: state.stored() };
    if has_user(rows, chat_id) {
        rows.update(place_of_user(rows, chat_id), row)
    } else {
        rows.push(row)
    }
}

/// Writing a user's state keeps the rules of the table of user states. The
/// state is then what the store holds for that user, without its scheduled
/// time, and what the store holds for any other user is as before.
pub proof fn lemma_user_save(rows: Seq<UserRowView>, chat_id: i64, state: UserStateView, other: i64)
    requires
        users_consistent(rows),
    ensures
        users_consistent(users_after_save(rows, chat_id, state)),
        stored_state(users_after_save(rows, chat_id, state), chat_id) == Some(state.stored()),
        other != chat_id ==> stored_state(users_after_save(rows, chat_id, state), other)
            == stored_state(rows, other),
{
    let after = users_after_save(rows, chat_id, state);
    let at = if has_user(rows, chat_id) {
        place_of_user(rows, chat_id)
    } else {
        rows.len() as int
    };
    assert forall|i: int, j: int| 0 <= i < j < after.len() implies (#[trigger] after[i]).chat_id
        != (#[trigger] after[j]).chat_id by {
        if j < rows.len() {
            assert(rows[i].chat_id != rows[j].chat_id);
        } else {
            assert(rows[i].chat_id != chat_id);
        }
    }
    assert forall|i: int| 0 <= i < after.len() implies (
    #[trigger] after[i]).state.scheduled_time is None by {
        assert(i != at ==> rows[i].state.scheduled_time is None);
    }
    assert(after[at].chat_id == chat_id);
    lemma_place_of_user(after, chat_id, at);
    if other != chat_id {
        if has_user(rows, other) {
            let there = place_of_user(rows, other);
            assert(after[there] == rows[there]);
            lemma_place_of_user(after, other, there);
        } else if has_user(after, other) {
            let there = place_of_user(after, other);
            assert(rows[there].chat_id == other);
        }
    }
}

/// The store.
pub struct Database {
    reachable: bool,
    user_states: Vec<UserRow>,
    bookings: Vec<Booking>,
}

impl View for Database {
    type V = DatabaseView;

    closed spec fn view(&self) -> DatabaseView {
        DatabaseView {
            reachable: self.reachable,
            user_states: self.user_states.deep_view(),
            bookings: self.bookings.deep_view(),
        }
    }
}

impl Database {
    /// The store keeps its rules at all times.
    #[verifier::type_invariant]
    pub open spec fn consistent(&self) -> bool {
        self@.well_formed()
    }

    /// A reachable store without rows.
    pub fn new() -> (db: Self)
        ensures
            db@ == DatabaseView::empty(),
            db@.well_formed(),
    {
        let db = Database { reachable: true, user_states: Vec::new(), bookings: Vec::new() };
        assert(db@.user_states =~= Seq::<UserRowView>::empty());
        assert(db@.bookings =~= Seq::<BookingView>::empty());
        db
    }

    /// Prepares the tables for a run of the service: the table of
    /// reservations starts empty, the table of user states stays.
    pub fn init(&mut self) -> (prepared: Result<(), BotStateError>)
        ensures
            !old(self)@.reachable ==> failure(prepared) == Some(unreachable_failure())
                && final(self)@ == old(self)@,
            old(self)@.reachable ==> prepared is Ok && final(self)@ == (DatabaseView {
                bookings: Seq::empty(),
                ..old(self)@
            }),
            final(self)@.well_formed(),
    {
        proof {
            use_type_invariant(&*self);
        }
        if !self.reachable {
            return Err(Self::unreachable());
        }
        let _ = self.take_bookings();
        Ok(())
    }

    /// Makes the store reachable or unreachable. Its rows stay.
    pub fn set_reachable(&mut self, reachable: bool)
        ensures
            final(self)@ == (DatabaseView { reachable, ..old(self)@ }),
            final(self)@.well_formed(),
    {
        proof {
            use_type_invariant(&*self);
        }
        self.reachable = reachable;
    }

    /// Whether the store can be reached.
    pub fn is_reachable(&self) -> (reachable: bool)
        ensures
            reachable == self@.reachable,
    {
        self.reachable
    }

    /// The failure of an operation on an unreachable store.
    fn unreachable() -> (error: BotStateError)
        ensures
            error@ == unreachable_failure(),
    {
        BotStateError::DatabaseError("store unreachable".to_owned())
    }

    /// Takes the rows of the table of reservations out, to put them back
    /// once they have been changed.
    fn take_bookings(&mut self) -> (rows: Vec<Booking>)
        ensures
            rows.deep_view() == old(self)@.bookings,
            final(self)@ == (DatabaseView { bookings: Seq::empty(), ..old(self)@ }),
    {
        proof {
            use_type_invariant(&*self);
        }
        let mut rows: Vec<Booking> = Vec::new();
        core::mem::swap(&mut self.bookings, &mut rows);
        assert(self@.bookings =~= Seq::<BookingView>::empty());
        rows
    }

    /// The failure of a write that the store does not accept.
    fn rejected() -> (error: BotStateError)
        ensures
            error@ == rejected_failure(),
    {
        BotStateError::DatabaseError("row rejected".to_owned())
    }

    /// The place of the reservation with the identifier `id`.
    fn find_id(&self, id: &str) -> (place: Option<usize>)
        ensures
            place matches Some(at) ==> at < self@.bookings.len() && self@.bookings[at as int].id
                == id@,
            place is None ==> !has_id(self@.bookings, id@),
    {
        let mut at: usize = 0;
        while at < self.bookings.len()
            invariant
                at <= self.bookings.len(),
                forall|i: int| 0 <= i < at ==> (#[trigger] self@.bookings[i]).id != id@,
            decreases self.bookings.len() - at,
        {
            if crate::text::same_text(self.bookings[at].id.as_str(), id) {
                return Some(at);
            }
            at = at + 1;
        }
        None
    }

    /// The place of the reservation with the invoice token `payload`.
    fn find_payload(&self, payload: &str) -> (place: Option<usize>)
        ensures
            place matches Some(at) ==> at < self@.bookings.len()
                && self@.bookings[at as int].invoice_payload == payload@,
            place is None ==> !has_payload(self@.bookings, payload@),
    {
        let mut at: usize = 0;
        while at < self.bookings.len()
            invariant
                at <= self.bookings.len(),
                forall|i: int|
                    0 <= i < at ==> (#[trigger] self@.bookings[i]).invoice_payload != payload@,
            decreases self.bookings.len() - at,
        {
            if crate::text::same_text(self.bookings[at].invoice_payload.as_str(), payload) {
                return Some(at);
            }
            at = at + 1;
        }
        None
    }

    /// The reservation with the invoice token `invoice_payload`, if there is
    /// one.
    pub fn get_booking_by_payload(&self, invoice_payload: &str) -> (found: Result<
        Option<Booking>,
        BotStateError,
    >)
        ensures
            self@.well_formed(),
            !self@.reachable ==> failure(found) == Some(unreachable_failure()),
            self@.reachable ==> found is Ok && crate::models::booking::booking_of(found->Ok_0)
                == booking_by_payload(self@.bookings, invoice_payload@),
    {
        proof {
            use_type_invariant(self);
        }
        if !self.reachable {
            return Err(Self::unreachable());
        }
        match self.find_payload(invoice_payload) {
            Some(at) => {
                proof {
                    lemma_place_of_payload(self@.bookings, invoice_payload@, at as int);
                }
                Ok(Some(self.bookings[at].clone()))
            },
            None => Ok(None),
        }
    }

    /// Whether a paid reservation, other than the one at the place `except`,
    /// claims the slot of `row`.
    fn slot_is_taken(&self, row: &Booking, except: Option<usize>) -> (taken: bool)
        ensures
            taken == slot_taken(
                self@.bookings,
                row@,
                match except {
                    Some(at) => at as int,
                    None => -1,
                },
            ),
    {
        let ghost skip: int = match except {
            Some(at) => at as int,
            None => -1,
        };
        let mut at: usize = 0;
        while at < self.bookings.len()
            invariant
                at <= self.bookings.len(),
                skip == match except {
                    Some(at) => at as int,
                    None => -1,
                },
                forall|j: int|
                    0 <= j < at && j != skip ==> !((#[trigger] self@.bookings[j]).is_paid
                        && self@.bookings[j].same_slot(row@)),
            decreases self.bookings.len() - at,
        {
            let skipped = match except {
                Some(place) => place == at,
                None => false,
            };
            if !skipped && self.bookings[at].is_paid && self.bookings[at].same_slot(row) {
                proof {
                    let j = at as int;
                    assert(j != skip && self@.bookings[j].is_paid && self@.bookings[j].same_slot(
                        row@,
                    ));
                }
                return true;
            }
            at = at + 1;
        }
        false
    }

    /// Writes a reservation at `now`.
    ///
    /// A reservation whose identifier the table does not have enters it as a
    /// new row, created at `now`. One whose identifier the table has only
    /// brings its payment, its completion and its payment prompt to that
    /// row. In both cases an unpaid row gets a new deadline, and a paid row
    /// gets none.
    pub fn save_booking(&mut self, booking: &Booking, now: i64) -> (saved: Result<
        (),
        BotStateError,
    >)
        ensures
            failure(saved) == save_failure(old(self)@, booking@, now),
            final(self)@ == (DatabaseView {
                bookings: bookings_after_save(old(self)@, booking@, now),
                ..old(self)@
            }),
            final(self)@.well_formed(),
    {
        proof {
            use_type_invariant(&*self);
        }
        if !self.reachable {
            return Err(Self::unreachable());
        }
        let span: i64 = (PAYMENT_WINDOW_MINUTES as i64) * MICROS_PER_MINUTE;
        if !booking.is_paid && now > i64::MAX - span {
            return Err(Self::rejected());
        }
        let deadline: Option<i64> = if booking.is_paid {
            None
        } else {
            Some(now + span)
        };
        match self.find_id(booking.id.as_str()) {
            Some(at) => {
                proof {
                    lemma_place_of_id(self@.bookings, booking@.id, at as int);
                }
                let mut row = self.bookings[at].clone();
                row.is_paid = booking.is_paid;
                row.is_completed = booking.is_completed;
                row.payment_invoice_message_id = booking.payment_invoice_message_id;
                row.expires_at = deadline;
                if !row.is_well_formed() {
                    return Err(Self::rejected());
                }
                if row.is_paid && self.slot_is_taken(&row, Some(at)) {
                    return Err(BotStateError::SlotTaken);
                }
                let ghost before = self@.bookings;
                let mut rows = self.take_bookings();
                rows.set(at, row);
                proof {
                    assert(rows.deep_view() =~= before.update(at as int, row@));
                }
                self.bookings = rows;
                Ok(())
            },
            None => {
                let mut row = booking.clone();
                row.created_at = now;
                row.expires_at = deadline;
                if !row.is_well_formed() {
                    return Err(Self::rejected());
                }
                if self.find_payload(booking.invoice_payload.as_str()).is_some() {
                    return Err(Self::rejected());
                }
                if self.slot_is_taken(&row, None) {
                    return Err(BotStateError::SlotTaken);
                }
                let ghost before = self@.bookings;
                let mut rows = self.take_bookings();
                rows.push(row);
                proof {
                    assert(rows.deep_view() =~= before.push(row@));
                }
                self.bookings = rows;
                Ok(())
            },
        }
    }

    /// Records that the session of the reservation `booking_id` has ended.
    /// Only a paid reservation changes; where there is none with that
    /// identifier, nothing changes.
    pub fn mark_booking_completed(&mut self, booking_id: &str) -> (marked: Result<
        (),
        BotStateError,
    >)
        ensures
            !old(self)@.reachable ==> failure(marked) == Some(unreachable_failure())
                && final(self)@ == old(self)@,
            old(self)@.reachable ==> marked is Ok && final(self)@ == (DatabaseView {
                bookings: bookings_after_completion(old(self)@.bookings, booking_id@),
                ..old(self)@
            }),
            final(self)@.well_formed(),
    {
        proof {
            use_type_invariant(&*self);
            lemma_completion_consistent(self@.bookings, booking_id@);
        }
        if !self.reachable {
            return Err(Self::unreachable());
        }
        let ghost before = self@.bookings;
        match self.find_id(booking_id) {
            Some(at) => {
                let mut row = self.bookings[at].clone();
                row.mark_completed();
                let mut rows = self.take_bookings();
                rows.set(at, row);
                proof {
                    assert forall|i: int| 0 <= i < before.len() implies (#[trigger] before[i]).id
                        == booking_id@ <==> i == at by {
                        if i < at {
                            assert(before[i].id != before[at as int].id);
                        } else if at < i {
                            assert(before[at as int].id != before[i].id);
                        }
                    }
                    assert(rows.deep_view() =~= bookings_after_completion(before, booking_id@));
                }
                self.bookings = rows;
            },
            None => {
                proof {
                    assert(before =~= bookings_after_completion(before, booking_id@));
                }
            },
        }
        Ok(())
    }

    /// Removes the unpaid reservations whose deadline has been reached at
    /// `now`, and gives their number.
    pub fn cleanup_expired_bookings(&mut self, now: i64) -> (purged: Result<u64, BotStateError>)
        ensures
            !old(self)@.reachable ==> failure(purged) == Some(unreachable_failure())
                && final(self)@ == old(self)@,
            old(self)@.reachable ==> purged is Ok && final(self)@ == (DatabaseView {
                bookings: bookings_after_purge(old(self)@.bookings, now),
                ..old(self)@
            }) && purged->Ok_0 == old(self)@.bookings.len() - final(self)@.bookings.len(),
            final(self)@.well_formed(),
    {
        proof {
            use_type_invariant(&*self);
            lemma_purge_consistent(self@.bookings, now);
        }
        if !self.reachable {
            return Err(Self::unreachable());
        }
        let ghost before = self@.bookings;
        let ghost test = |row: BookingView| !row.expired_at(now);
        let rows = self.take_bookings();
        let mut kept: Vec<Booking> = Vec::new();
        let mut dropped: u64 = 0;
        let mut at: usize = 0;
        proof {
            reveal(Seq::filter);
            assert(before.take(0) =~= Seq::<BookingView>::empty());
            assert(kept.deep_view() =~= before.take(0).filter(test));
        }
        while at < rows.len()
            invariant
                at <= rows.len(),
                rows.deep_view() == before,
                test == (|row: BookingView| !row.expired_at(now)),
                kept.deep_view() == before.take(at as int).filter(test),
                dropped + kept.len() == at,
            decreases rows.len() - at,
        {
            proof {
                reveal(Seq::filter);
                assert(before.take(at + 1).drop_last() =~= before.take(at as int));
                assert(before.take(at + 1).last() == before[at as int]);
            }
            let ghost so_far = kept.deep_view();
            if rows[at].is_expired(now) {
                dropped = dropped + 1;
            } else {
                kept.push(rows[at].clone());
                assert(kept.deep_view() =~= so_far.push(before[at as int]));
            }
            at = at + 1;
        }
        proof {
            assert(before.take(at as int) =~= before);
        }
        self.bookings = kept;
        Ok(dropped)
    }

    /// The newest paid reservation of the user `chat_id` for the persona
    /// `model`: the one that has paid for the user's session with it.
    pub fn find_funding_booking(&self, chat_id: i64, model: &str) -> (found: Result<
        Option<Booking>,
        BotStateError,
    >)
        ensures
            self@.well_formed(),
            !self@.reachable ==> failure(found) == Some(unreachable_failure()),
            self@.reachable ==> found is Ok && crate::models::booking::booking_of(found->Ok_0)
                == funding_booking(self@.bookings, chat_id, model@),
    {
        proof {
            use_type_invariant(self);
        }
        if !self.reachable {
            return Err(Self::unreachable());
        }
        let mut best: Option<usize> = None;
        let mut at: usize = 0;
        while at < self.bookings.len()
            invariant
                at <= self.bookings.len(),
                best is None ==> forall|i: int|
                    0 <= i < at ==> !funds(#[trigger] self@.bookings[i], chat_id, model@),
                best matches Some(b) ==> b < at && funds(self@.bookings[b as int], chat_id, model@)
                    && forall|i: int|
                    0 <= i < at && funds(#[trigger] self@.bookings[i], chat_id, model@)
                        ==> self@.bookings[i].created_at < self@.bookings[b as int].created_at || (
                    self@.bookings[i].created_at == self@.bookings[b as int].created_at && i <= b),
            decreases self.bookings.len() - at,
        {
            let row = &self.bookings[at];
            if row.is_paid && row.user_id == chat_id && crate::text::same_text(
                row.consultant_model.as_str(),
                model,
            ) {
                let newer = match best {
                    Some(b) => self.bookings[b].created_at <= row.created_at,
                    None => true,
                };
                if newer {
                    best = Some(at);
                }
            }
            at = at + 1;
        }
        match best {
            Some(b) => {
                proof {
                    lemma_newest_funding(self@.bookings, chat_id, model@, b as int);
                }
                Ok(Some(self.bookings[b].clone()))
            },
            None => {
                proof {
                    lemma_no_funding(self@.bookings, chat_id, model@);
                }
                Ok(None)
            },
        }
    }

    /// Withdraws the reservation `booking_id` at `now`: takes it out of the
    /// table, if it can still be withdrawn.
    pub fn cancel_booking(&mut self, booking_id: &str, now: i64) -> (cancelled: Result<
        (),
        BotStateError,
    >)
        ensures
            failure(cancelled) == cancel_failure(old(self)@, booking_id@, now),
            final(self)@ == (DatabaseView {
                bookings: bookings_after_cancel(old(self)@, booking_id@, now),
                ..old(self)@
            }),
            final(self)@.well_formed(),
    {
        proof {
            use_type_invariant(&*self);
        }
        if !self.reachable {
            return Err(Self::unreachable());
        }
        match self.find_id(booking_id) {
            Some(at) => {
                proof {
                    lemma_place_of_id(self@.bookings, booking_id@, at as int);
                    lemma_removal_consistent(self@.bookings, at as int);
                }
                if !self.bookings[at].can_cancel(now) {
                    return Err(BotStateError::CannotCancel);
                }
                let ghost before = self@.bookings;
                let mut rows = self.take_bookings();
                rows.remove(at);
                proof {
                    assert(rows.deep_view() =~= before.remove(at as int));
                }
                self.bookings = rows;
                Ok(())
            },
            None => Err(BotStateError::NotFound),
        }
    }

    /// Takes the rows of the table of user states out, to put them back
    /// once they have been changed.
    fn take_user_states(&mut self) -> (rows: Vec<UserRow>)
        ensures
            rows.deep_view() == old(self)@.user_states,
            final(self)@ == (DatabaseView { user_states: Seq::empty(), ..old(self)@ }),
    {
        proof {
            use_type_invariant(&*self);
        }
        let mut rows: Vec<UserRow> = Vec::new();
        core::mem::swap(&mut self.user_states, &mut rows);
        assert(self@.user_states =~= Seq::<UserRowView>::empty());
        rows
    }

    /// The place of the row for the user `chat_id`.
    fn find_user(&self, chat_id: i64) -> (place: Option<usize>)
        ensures
            place matches Some(at) ==> at < self@.user_states.len()
                && self@.user_states[at as int].chat_id == chat_id,
            place is None ==> !has_user(self@.user_states, chat_id),
    {
        let mut at: usize = 0;
        while at < self.user_states.len()
            invariant
                at <= self.user_states.len(),
                forall|i: int| 0 <= i < at ==> (#[trigger] self@.user_states[i]).chat_id != chat_id,
            decreases self.user_states.len() - at,
        {
            if self.user_states[at].chat_id == chat_id {
                return Some(at);
            }
            at = at + 1;
        }
        None
    }

    /// Writes the state of the user `chat_id`, in the place of the one that
    /// the store had for that user. The scheduled time is not stored.
    pub fn save_user_state(&mut self, chat_id: i64, state: UserState) -> (saved: Result<
        (),
        BotStateError,
    >)
        ensures
            !old(self)@.reachable ==> failure(saved) == Some(unreachable_failure())
                && final(self)@ == old(self)@,
            old(self)@.reachable ==> saved is Ok && final(self)@ == (DatabaseView {
                user_states: users_after_save(old(self)@.user_states, chat_id, state@),
                ..old(self)@
            }),
            final(self)@.well_formed(),
    {
        proof {
            use_type_invariant(&*self);
        }
        if !self.reachable {
            return Err(Self::unreachable());
        }
        let mut state = state;
        state.scheduled_time = None;
        let row = UserRow { chat_id, state };
        let ghost before = self@.user_states;
        match self.find_user(chat_id) {
            Some(at) => {
                proof {
                    lemma_place_of_user(before, chat_id, at as int);
                }
                let mut rows = self.take_user_states();
                rows.set(at, row);
                proof {
                    assert(rows.deep_view() =~= before.update(at as int, row@));
                }
                self.user_states = rows;
            },
            None => {
                let mut rows = self.take_user_states();
                rows.push(row);
                proof {
                    assert(rows.deep_view() =~= before.push(row@));
                }
                self.user_states = rows;
            },
        }
        Ok(())
    }

    /// The state that the store holds for the user `chat_id`, if it holds
    /// one.
    pub fn fetch_user_state(&self, chat_id: i64) -> (fetched: Result<
        Option<UserState>,
        BotStateError,
    >)
        ensures
            self@.well_formed(),
            !self@.reachable ==> failure(fetched) == Some(unreachable_failure()),
            self@.reachable ==> fetched is Ok && crate::models::user_state::state_of(
                fetched->Ok_0,
            ) == stored_state(self@.user_states, chat_id),
    {
        proof {
            use_type_invariant(self);
        }
        if !self.reachable {
            return Err(Self::unreachable());
        }
        match self.find_user(chat_id) {
            Some(at) => {
                proof {
                    lemma_place_of_user(self@.user_states, chat_id, at as int);
                }
                Ok(Some(self.user_states[at].state.clone()))
            },
            None => Ok(None),
        }
    }

    /// The rows of the table of user states, in the order of the table.
    pub fn all_user_states(&self) -> (rows: Result<Vec<UserRow>, BotStateError>)
        ensures
            self@.well_formed(),
            !self@.reachable ==> failure(rows) == Some(unreachable_failure()),
            self@.reachable ==> rows is Ok && rows->Ok_0.deep_view() == self@.user_states,
    {
        proof {
            use_type_invariant(self);
        }
        if !self.reachable {
            return Err(Self::unreachable());
        }
        let rows = self.user_states.clone();
        assert(rows.deep_view() =~= self.user_states.deep_view());
        Ok(rows)
    }

    /// The reservations of the table, in the order of the table.
    pub fn all_bookings(&self) -> (rows: Result<Vec<Booking>, BotStateError>)
        ensures
            self@.well_formed(),
            !self@.reachable ==> failure(rows) == Some(unreachable_failure()),
            self@.reachable ==> rows is Ok && rows->Ok_0.deep_view() == self@.bookings,
    {
        proof {
            use_type_invariant(self);
        }
        if !self.reachable {
            return Err(Self::unreachable());
        }
        let rows = self.bookings.clone();
        assert(rows.deep_view() =~= self.bookings.deep_view());
        Ok(rows)
    }

    /// The reservations of the user `chat_id` at `now`, newest first. The
    /// unpaid reservations whose deadline has been reached are removed
    /// before.
    pub fn get_user_bookings(&mut self, chat_id: i64, now: i64) -> (listed: Result<
        Vec<Booking>,
        BotStateError,
    >)
        ensures
            !old(self)@.reachable ==> failure(listed) == Some(unreachable_failure())
                && final(self)@ == old(self)@,
            old(self)@.reachable ==> listed is Ok && final(self)@ == (DatabaseView {
                bookings: bookings_after_purge(old(self)@.bookings, now),
                ..old(self)@
            }) && listed->Ok_0.deep_view() == user_listing(final(self)@.bookings, chat_id),
            listed matches Ok(rows) ==> newest_first(rows.deep_view())
                && rows.deep_view().to_multiset() == final(self)@.bookings.filter(
                |row: BookingView| row.user_id == chat_id,
            ).to_multiset(),
            final(self)@.well_formed(),
    {
        match self.cleanup_expired_bookings(now) {
            Err(error) => {
                return Err(error);
            },
            Ok(_) => {},
        }
        let ghost rows = self@.bookings;
        let mut listed: Vec<Booking> = Vec::new();
        let mut at: usize = 0;
        proof {
            assert(rows.take(0) =~= Seq::<BookingView>::empty());
            assert(listed.deep_view() =~= user_listing(rows.take(0), chat_id));
        }
        while at < self.bookings.len()
            invariant
                at <= self.bookings.len(),
                rows == self@.bookings,
                listed.deep_view() == user_listing(rows.take(at as int), chat_id),
            decreases self.bookings.len() - at,
        {
            proof {
                assert(rows.take(at + 1).drop_last() =~= rows.take(at as int));
                assert(rows.take(at + 1).last() == rows[at as int]);
            }
            if self.bookings[at].user_id == chat_id {
                let row = self.bookings[at].clone();
                let ghost so_far = listed.deep_view();
                let mut place: usize = listed.len();
                while place > 0 && listed[place - 1].created_at < row.created_at
                    invariant
                        place <= listed.len(),
                        so_far == listed.deep_view(),
                        forall|i: int|
                            place <= i < so_far.len() ==> (#[trigger] so_far[i]).created_at
                                < row.created_at,
                    decreases place,
                {
                    place = place - 1;
                }
                proof {
                    lemma_inserted_by_age(so_far, row@, place as int);
                }
                listed.insert(place, row);
                assert(listed.deep_view() =~= so_far.insert(place as int, row@));
            }
            at = at + 1;
        }
        proof {
            assert(rows.take(at as int) =~= rows);
            lemma_user_listing(rows, chat_id);
        }
        Ok(listed)
    }

    /// The reservation with the identifier `booking_id`, if there is one.
    pub fn get_booking_by_id(&self, booking_id: &str) -> (found: Result<
        Option<Booking>,
        BotStateError,
    >)
        ensures
            self@.well_formed(),
            !self@.reachable ==> failure(found) == Some(unreachable_failure()),
            self@.reachable ==> found is Ok && crate::models::booking::booking_of(found->Ok_0)
                == booking_by_id(self@.bookings, booking_id@),
    {
        proof {
            use_type_invariant(self);
        }
        if !self.reachable {
            return Err(Self::unreachable());
        }
        match self.find_id(booking_id) {
            Some(at) => {
                proof {
                    lemma_place_of_id(self@.bookings, booking_id@, at as int);
                }
                Ok(Some(self.bookings[at].clone()))
            },
            None => Ok(None),
        }
    }
}

} // verus!
