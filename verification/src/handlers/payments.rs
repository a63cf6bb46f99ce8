//! The reconciliation of payments.
//!
//! A payment notice names a reservation by its invoice token. The notice may
//! arrive more than once: only the first one marks the reservation as paid
//! and opens the session, every later one is answered as processed already.

use vstd::prelude::*;
use crate::bot_state::BotState;
use crate::bot_state::BotStateView;
use crate::cache::fresh_at;
use crate::clock::after_minutes;
use crate::clock::clock_reading;
use crate::clock::utc_now;
use crate::database::booking_by_id;
use crate::database::booking_by_payload;
use crate::database::bookings_after_save;
use crate::database::DatabaseView;
use crate::database::deadline_at;
use crate::database::has_id;
use crate::database::has_payload;
use crate::database::lemma_place_of_id;
use crate::database::lemma_saved_booking_is_found;
use crate::database::lemma_user_save;
use crate::database::place_of_id;
use crate::database::place_of_payload;
use crate::database::save_failure;
use crate::database::slot_taken;
use crate::database::stored_state;
use crate::database::written_row;
use crate::error::BotStateError;
use crate::error::BotStateErrorView;
use crate::models::ai_assistants::AIAssistant;
use crate::models::booking::Booking;
use crate::models::booking::booking_of;
use crate::models::booking::BookingStatus;
use crate::models::booking::BookingView;
use crate::models::booking::PaymentMark;
use crate::models::session::opened_session;
use crate::models::session::SessionView;
use crate::models::session::UserSession;
use crate::models::session::window_fits;
use crate::models::user_state::UserState;
use crate::models::user_state::UserStateView;
use crate::text::decimal_text;
use crate::text::escaped;
use crate::text::push_decimal;
use crate::text::push_escaped;
use crate::text::push_text;

verus! {

/// Whether a session of any length that starts at `now` ends at an instant.
pub open spec fn session_fits(now: i64) -> bool {
    after_minutes(now as int, u32::MAX as int) <= i64::MAX
}

/// How a payment notice was answered.
#[derive(Debug, Clone, Copy, PartialEq, Eq, Structural)]
pub enum PaymentOutcome {
    /// No reservation has the invoice token.
    NotFound,
    /// The store failed to look the reservation up.
    LookupFailed,
    /// The reservation was paid before; nothing changed.
    AlreadyPaid,
    /// The store did not take the payment; nothing changed.
    UpdateFailed,
    /// The reservation is paid, and its session is the user's session.
    Activated,
    /// The reservation is paid and its session is opened, but the store
    /// did not take the user's state.
    ActivatedUnsaved,
}

/// What a payment notice has brought about: the answer, and for a payment
/// that was taken the session and the payment prompt to retract.
#[derive(Debug, PartialEq, Eq)]
pub struct PaymentReceipt {
    pub outcome: PaymentOutcome,
    pub session: Option<UserSession>,
    pub retract_message: Option<i32>,
}

/// What a `PaymentReceipt` holds.
pub struct PaymentReceiptView {
    pub outcome: PaymentOutcome,
    pub session: Option<SessionView>,
    pub retract_message: Option<i32>,
}

impl View for PaymentReceipt {
    type V = PaymentReceiptView;

    open spec fn view(&self) -> PaymentReceiptView {
        PaymentReceiptView {
            outcome: self.outcome,
            session: crate::models::user_state::session_of(self.session),
            retract_message: self.retract_message,
        }
    }
}

/// A receipt for a notice that changed nothing.
pub open spec fn idle_receipt(outcome: PaymentOutcome) -> PaymentReceiptView {
    PaymentReceiptView { outcome, session: None, retract_message: None }
}

impl BotStateView {
    /// The engine once the payment of `booking` has been written at `now`.
    pub open spec fn after_payment_mark(self, booking: BookingView, now: i64) -> BotStateView {
        self.with_bookings(bookings_after_save(self.db, booking.paid(), now))
    }

    /// The state of the payer `chat_id` with the session that the payment
    /// of `booking` at `now` opens, which replaces any session before it.
    pub open spec fn state_with_session(
        self,
        booking: BookingView,
        chat_id: i64,
        now: i64,
    ) -> UserStateView {
        self.after_payment_mark(booking, now).state_read(chat_id, now).with_session(
            Some(opened_session(booking, chat_id, now)),
        )
    }

    /// How a payment notice for the invoice token `payload`, from the user
    /// `chat_id` at `now`, is answered.
    pub open spec fn payment_outcome(self, chat_id: i64, payload: Seq<char>, now: i64) -> PaymentOutcome {
        if !self.db.reachable {
            PaymentOutcome::LookupFailed
        } else {
            match booking_by_payload(self.db.bookings, payload) {
                None => PaymentOutcome::NotFound,
                Some(booking) => if booking.is_paid {
                    PaymentOutcome::AlreadyPaid
                } else if save_failure(self.db, booking.paid(), now) is Some {
                    PaymentOutcome::UpdateFailed
                } else if self.after_payment_mark(booking, now).after_read(
                    chat_id,
                    now,
                ).state_save_failure(self.state_with_session(booking, chat_id, now)) is Some {
                    PaymentOutcome::ActivatedUnsaved
                } else {
                    PaymentOutcome::Activated
                },
            }
        }
    }

    /// The engine after a payment notice for the invoice token `payload`,
    /// from the user `chat_id` at `now`.
    pub open spec fn after_payment(self, chat_id: i64, payload: Seq<char>, now: i64) -> BotStateView {
        match self.payment_outcome(chat_id, payload, now) {
            PaymentOutcome::Activated | PaymentOutcome::ActivatedUnsaved => {
                let booking = booking_by_payload(self.db.bookings, payload)->0;
                self.after_payment_mark(booking, now).after_read(chat_id, now).after_state_save(
                    chat_id,
                    self.state_with_session(booking, chat_id, now),
                    now,
                )
            },
            _ => self,
        }
    }

    /// What a payment notice for the invoice token `payload`, from the user
    /// `chat_id` at `now`, brings about.
    pub open spec fn payment_receipt(self, chat_id: i64, payload: Seq<char>, now: i64) -> PaymentReceiptView {
        match self.payment_outcome(chat_id, payload, now) {
            PaymentOutcome::Activated | PaymentOutcome::ActivatedUnsaved => {
                let booking = booking_by_payload(self.db.bookings, payload)->0;
                PaymentReceiptView {
                    outcome: self.payment_outcome(chat_id, payload, now),
                    session: Some(opened_session(booking, chat_id, now)),
                    retract_message: booking.payment_invoice_message_id,
                }
            },
            outcome => idle_receipt(outcome),
        }
    }
}

/// A payment notice that arrives again changes nothing. Once a notice has
/// been taken, every later notice for the same invoice token, from whom and
/// whenever it comes, is answered as paid already: the reservation, the
/// session and the cache stay as the first notice left them.
pub proof fn lemma_payment_is_idempotent(
    s: BotStateView,
    chat_id: i64,
    payload: Seq<char>,
    now: i64,
    again_from: i64,
    again_at: i64,
)
    requires
        s.db.well_formed(),
        s.payment_outcome(chat_id, payload, now) == PaymentOutcome::Activated || s.payment_outcome(
            chat_id,
            payload,
            now,
        ) == PaymentOutcome::ActivatedUnsaved,
    ensures
        ({
            let paid = s.after_payment(chat_id, payload, now);
            &&& booking_by_payload(paid.db.bookings, payload) == Some(
                booking_by_payload(s.db.bookings, payload)->0.paid(),
            )
            &&& paid.payment_outcome(again_from, payload, again_at) == PaymentOutcome::AlreadyPaid
            &&& paid.after_payment(again_from, payload, again_at) == paid
            &&& paid.payment_receipt(again_from, payload, again_at) == idle_receipt(
                PaymentOutcome::AlreadyPaid,
            )
        }),
{
    let booking = booking_by_payload(s.db.bookings, payload)->0;
    let at = place_of_payload(s.db.bookings, payload);
    lemma_place_of_id(s.db.bookings, booking.id, at);
    lemma_saved_booking_is_found(s.db, booking.paid(), now);
}

/// A payment that is taken and saved makes the session that it opens the
/// session of the payer: the store holds the payer's state with it, and
/// every read of the payer's state hands it out while the cache entry of
/// the payment is fresh.
pub proof fn lemma_payment_opens_session(
    s: BotStateView,
    chat_id: i64,
    payload: Seq<char>,
    now: i64,
    read_at: i64,
)
    requires
        s.db.well_formed(),
        s.payment_outcome(chat_id, payload, now) == PaymentOutcome::Activated,
        fresh_at(now, read_at),
    ensures
        ({
            let booking = booking_by_payload(s.db.bookings, payload)->0;
            let session = opened_session(booking, chat_id, now);
            let paid = s.after_payment(chat_id, payload, now);
            &&& paid.payment_receipt(chat_id, payload, now) == idle_receipt(
                PaymentOutcome::AlreadyPaid,
            )
            &&& s.payment_receipt(chat_id, payload, now).session == Some(session)
            &&& paid.state_read(chat_id, read_at).current_session == Some(session)
            &&& stored_state(paid.db.user_states, chat_id) matches Some(stored)
                && stored.current_session == Some(session)
            &&& session.is_active == !booking.starts_after(now)
        }),
{
    let booking = booking_by_payload(s.db.bookings, payload)->0;
    let marked = s.after_payment_mark(booking, now).after_read(chat_id, now);
    lemma_payment_is_idempotent(s, chat_id, payload, now, chat_id, now);
    lemma_user_save(
        marked.db.user_states,
        chat_id,
        s.state_with_session(booking, chat_id, now),
        chat_id,
    );
}

/// Of two reservations for one slot, only one becomes paid. Once a paid
/// reservation holds a slot, a new reservation for that slot is not
/// created, and the payment of another reservation for that slot is not
/// taken: either fails because the slot is taken, and the table stays as it
/// is.
pub proof fn lemma_slot_is_paid_once(db: DatabaseView, holder: int, booking: BookingView, now: i64)
    requires
        db.well_formed(),
        db.reachable,
        0 <= holder < db.bookings.len(),
        db.bookings[holder].is_paid,
        db.bookings[holder].same_slot(booking),
        db.bookings[holder].id != booking.id,
        !booking.is_paid,
        !booking.is_completed,
        deadline_at(now) <= i64::MAX,
        booking.well_formed(),
        !has_id(db.bookings, booking.id) ==> !has_payload(db.bookings, booking.invoice_payload),
    ensures
        !has_id(db.bookings, booking.id) ==> save_failure(db, booking, now) == Some(
            BotStateErrorView::SlotTaken,
        ) && bookings_after_save(db, booking, now) == db.bookings,
        booking_by_id(db.bookings, booking.id) == Some(booking) ==> save_failure(
            db,
            booking.paid(),
            now,
        ) == Some(BotStateErrorView::SlotTaken) && bookings_after_save(db, booking.paid(), now)
            == db.bookings,
{
    let rows = db.bookings;
    if has_id(rows, booking.id) {
        if booking_by_id(rows, booking.id) == Some(booking) {
            let at = place_of_id(rows, booking.id);
            let row = written_row(rows, booking.paid(), now);
            assert(row == booking.paid());
            assert(rows[holder].is_paid && rows[holder].same_slot(row) && holder != at);
        }
    } else {
        let row = written_row(rows, booking, now);
        assert(rows[holder].is_paid && rows[holder].same_slot(row) && holder != -1);
    }
}

/// Where no paid reservation holds the slot of a pending reservation, its
/// payment is taken, and the reservation is then found paid.
pub proof fn lemma_free_slot_is_paid(db: DatabaseView, booking: BookingView, now: i64)
    requires
        db.well_formed(),
        db.reachable,
        booking_by_id(db.bookings, booking.id) == Some(booking),
        !booking.is_paid,
        !slot_taken(db.bookings, booking, place_of_id(db.bookings, booking.id)),
    ensures
        save_failure(db, booking.paid(), now) is None,
        booking_by_id(bookings_after_save(db, booking.paid(), now), booking.id) == Some(
            booking.paid(),
        ),
{
    let rows = db.bookings;
    let at = place_of_id(rows, booking.id);
    let row = written_row(rows, booking.paid(), now);
    assert(rows[at].well_formed());
    assert(row == booking.paid());
    assert forall|j: int|
        0 <= j < rows.len() && j != at && (#[trigger] rows[j]).is_paid implies !rows[j].same_slot(
        row,
    ) by {
        assert(!(rows[j].is_paid && rows[j].same_slot(booking)));
    }
    lemma_saved_booking_is_found(db, booking.paid(), now);
}

/// Settles a reservation that a payment notice names: marks it as paid and
/// opens its session for the payer `chat_id` at `now`. Nothing is settled
/// where the reservation was paid before.
pub fn settle_payment(booking: &Booking, chat_id: i64, now: i64) -> (settled: Option<
    (Booking, UserSession),
>)
    requires
        window_fits(booking@, now),
    ensures
        booking@.is_paid ==> settled is None,
        !booking@.is_paid ==> settled is Some,
        settled matches Some((paid, session)) ==> paid@ == booking@.paid() && session@
            == opened_session(booking@, chat_id, now),
{
    let mut paid = booking.clone();
    match paid.mark_paid() {
        PaymentMark::AlreadyPaid => None,
        PaymentMark::Paid => {
            let session = UserSession::open(booking, chat_id, now);
            Some((paid, session))
        },
    }
}

/// Gives the user's state the session that a payment has opened, in the
/// place of any session before it.
pub fn install_session(state: &mut UserState, session: UserSession)
    ensures
        final(state)@ == old(state)@.with_session(Some(session@)),
{
    state.current_session = Some(session);
}

/// A receipt for a notice that changed nothing.
fn idle(outcome: PaymentOutcome) -> (receipt: PaymentReceipt)
    ensures
        receipt@ == idle_receipt(outcome),
{
    PaymentReceipt { outcome, session: None, retract_message: None }
}

/// Reconciles a payment notice for the invoice token `invoice_payload` that
/// came from the user `chat_id` at `now`.
///
/// The reservation is looked up by the token. One that is found unpaid is
/// marked as paid; then its session becomes the session of the payer, and
/// the payer's state is written. A notice for a reservation that is paid
/// already changes nothing.
pub fn process_payment(state: &mut BotState, chat_id: i64, invoice_payload: &str, now: i64) -> (receipt:
    PaymentReceipt)
    requires
        session_fits(now),
    ensures
        receipt@ == old(state)@.payment_receipt(chat_id, invoice_payload@, now),
        final(state)@ == old(state)@.after_payment(chat_id, invoice_payload@, now),
        final(state)@.db.well_formed(),
{
    let booking = match state.get_booking_by_payload(invoice_payload) {
        Err(_) => {
            return idle(PaymentOutcome::LookupFailed);
        },
        Ok(None) => {
            return idle(PaymentOutcome::NotFound);
        },
        Ok(Some(booking)) => booking,
    };
    proof {
        let rows = state@.db.bookings;
        let at = crate::database::place_of_payload(rows, invoice_payload@);
        assert(rows[at].well_formed());
    }
    let (paid, session) = match settle_payment(&booking, chat_id, now) {
        None => {
            return idle(PaymentOutcome::AlreadyPaid);
        },
        Some(settled) => settled,
    };
    if state.save_booking(&paid, now).is_err() {
        return idle(PaymentOutcome::UpdateFailed);
    }
    let mut user_state = state.get_user_state(chat_id, now);
    install_session(&mut user_state, session.clone());
    let saved = state.save_user_state(chat_id, user_state, now);
    let outcome = if saved.is_err() {
        PaymentOutcome::ActivatedUnsaved
    } else {
        PaymentOutcome::Activated
    };
    PaymentReceipt {
        outcome,
        session: Some(session),
        retract_message: booking.payment_invoice_message_id,
    }
}

/// Reconciles a payment notice at the time that the system clock shows.
pub fn successful_payment_handler(state: &mut BotState, chat_id: i64, invoice_payload: &str) -> (receipt:
    PaymentReceipt)
    ensures
        exists|now: i64|
            clock_reading(now as int) && receipt@ == old(state)@.payment_receipt(
                chat_id,
                invoice_payload@,
                now,
            ) && final(state)@
                == #[trigger] old(state)@.after_payment(chat_id, invoice_payload@, now),
{
    let now = utc_now();
    process_payment(state, chat_id, invoice_payload, now)
}

/// How a request to authorize a payment is answered.
#[derive(Debug, Clone, Copy, PartialEq, Eq, Structural)]
pub enum PreCheckoutAnswer {
    /// The reservation is there, unpaid, and its deadline lies ahead.
    Approve,
    /// The reservation is paid already.
    AlreadyPaid,
    /// No reservation has the invoice token.
    NotFound,
    /// The reservation is unpaid and its deadline has passed.
    Expired,
    /// The store failed to look the reservation up.
    LookupFailed,
}

/// How a request to authorize the payment of what the store found under the
/// invoice token is answered at `now`.
pub open spec fn pre_checkout_for(found: Option<BookingView>, now: i64) -> PreCheckoutAnswer {
    match found {
        None => PreCheckoutAnswer::NotFound,
        Some(booking) => match booking.status_at(now) {
            BookingStatus::Pending => PreCheckoutAnswer::Approve,
            BookingStatus::Expired => PreCheckoutAnswer::Expired,
            _ => PreCheckoutAnswer::AlreadyPaid,
        },
    }
}

/// How a request to authorize a payment is answered at `now`, from what the
/// store answered to the lookup of the invoice token.
pub fn pre_checkout_answer(lookup: &Result<Option<Booking>, BotStateError>, now: i64) -> (answer:
    PreCheckoutAnswer)
    ensures
        lookup is Err ==> answer == PreCheckoutAnswer::LookupFailed,
        lookup matches Ok(found) ==> answer == pre_checkout_for(booking_of(*found), now),
{
    match lookup {
        Err(_) => PreCheckoutAnswer::LookupFailed,
        Ok(None) => PreCheckoutAnswer::NotFound,
        Ok(Some(booking)) => match booking.status(now) {
            BookingStatus::Pending => PreCheckoutAnswer::Approve,
            BookingStatus::Expired => PreCheckoutAnswer::Expired,
            _ => PreCheckoutAnswer::AlreadyPaid,
        },
    }
}

/// The reason that goes to the payment provider with a denial. An approval
/// has none.
pub open spec fn denial_reason(answer: PreCheckoutAnswer) -> Option<Seq<char>> {
    match answer {
        PreCheckoutAnswer::Approve => None,
        PreCheckoutAnswer::AlreadyPaid => Some("Бронирование уже оплачено"@),
        PreCheckoutAnswer::NotFound => Some("Бронирование не найдено"@),
        PreCheckoutAnswer::Expired => Some("Срок оплаты бронирования истёк"@),
        PreCheckoutAnswer::LookupFailed => Some("Ошибка при проверке бронирования"@),
    }
}

impl PreCheckoutAnswer {
    /// The reason that goes to the payment provider with a denial.
    pub fn reason(&self) -> (reason: Option<String>)
        ensures
            crate::llm::config::text_of(reason) == denial_reason(*self),
    {
        match self {
            PreCheckoutAnswer::Approve => None,
            PreCheckoutAnswer::AlreadyPaid => Some("Бронирование уже оплачено".to_owned()),
            PreCheckoutAnswer::NotFound => Some("Бронирование не найдено".to_owned()),
            PreCheckoutAnswer::Expired => Some("Срок оплаты бронирования истёк".to_owned()),
            PreCheckoutAnswer::LookupFailed => Some("Ошибка при проверке бронирования".to_owned()),
        }
    }
}

/// Answers a request to authorize the payment of the reservation with the
/// invoice token `invoice_payload` at `now`. Nothing changes.
pub fn authorize_payment(state: &BotState, invoice_payload: &str, now: i64) -> (answer:
    PreCheckoutAnswer)
    ensures
        !state@.db.reachable ==> answer == PreCheckoutAnswer::LookupFailed,
        state@.db.reachable ==> answer == pre_checkout_for(
            booking_by_payload(state@.db.bookings, invoice_payload@),
            now,
        ),
{
    let lookup = state.get_booking_by_payload(invoice_payload);
    pre_checkout_answer(&lookup, now)
}

/// Answers a request to authorize a payment at the time that the system
/// clock shows.
pub fn pre_checkout_handler(state: &BotState, invoice_payload: &str) -> (answer: PreCheckoutAnswer)
    ensures
        !state@.db.reachable ==> answer == PreCheckoutAnswer::LookupFailed,
        state@.db.reachable ==> exists|now: i64|
            clock_reading(now as int) && answer == #[trigger] pre_checkout_for(
                booking_by_payload(state@.db.bookings, invoice_payload@),
                now,
            ),
{
    let now = utc_now();
    authorize_payment(state, invoice_payload, now)
}

/// The price of a reservation as an invoice states it: a price that the
/// invoice cannot state is given as the largest that it can.
pub open spec fn invoice_amount(booking: BookingView) -> u32 {
    if booking.total_price > i32::MAX {
        i32::MAX as u32
    } else {
        booking.total_price as u32
    }
}

/// An invoice for a reservation.
#[derive(Debug, PartialEq, Eq)]
pub struct Invoice {
    pub title: String,
    pub description: String,
    pub payload: String,
    pub label: String,
    pub amount: u32,
}

/// What an `Invoice` holds.
pub struct InvoiceView {
    pub title: Seq<char>,
    pub description: Seq<char>,
    pub payload: Seq<char>,
    pub label: Seq<char>,
    pub amount: u32,
}

impl View for Invoice {
    type V = InvoiceView;

    open spec fn view(&self) -> InvoiceView {
        InvoiceView {
            title: self.title@,
            description: self.description@,
            payload: self.payload@,
            label: self.label@,
            amount: self.amount,
        }
    }
}

/// The invoice for `booking`, a session with the persona named `name`.
pub open spec fn invoice_for(booking: BookingView, name: Seq<char>) -> InvoiceView {
    InvoiceView {
        title: "Сессия с консультантом "@ + name,
        description: "Сессия с консультантом\nКонсультант: "@ + name + "\nДлительность: "@
            + decimal_text(booking.duration_minutes as nat) + " минут\n⭐ Стоимость: "@
            + decimal_text(invoice_amount(booking) as nat) + " Stars"@,
        payload: booking.invoice_payload,
        label: "Сессия "@ + name + " ("@ + decimal_text(booking.duration_minutes as nat)
            + " мин)"@,
        amount: invoice_amount(booking),
    }
}

/// The invoice that asks for the payment of `booking`, a session with
/// `assistant`.
pub fn send_stars_invoice(booking: &Booking, assistant: &AIAssistant) -> (invoice: Invoice)
    ensures
        invoice@ == invoice_for(booking@, assistant@.name),
{
    let amount: u32 = if booking.total_price > i32::MAX as u64 {
        i32::MAX as u32
    } else {
        booking.total_price as u32
    };
    let name = assistant.name.as_str();
    let mut title = String::new();
    push_text(&mut title, "Сессия с консультантом ");
    push_text(&mut title, name);
    let mut description = String::new();
    push_text(&mut description, "Сессия с консультантом\nКонсультант: ");
    push_text(&mut description, name);
    push_text(&mut description, "\nДлительность: ");
    push_decimal(&mut description, booking.duration_minutes as u64);
    push_text(&mut description, " минут\n⭐ Стоимость: ");
    push_decimal(&mut description, amount as u64);
    push_text(&mut description, " Stars");
    let mut label = String::new();
    push_text(&mut label, "Сессия ");
    push_text(&mut label, name);
    push_text(&mut label, " (");
    push_decimal(&mut label, booking.duration_minutes as u64);
    push_text(&mut label, " мин)");
    let ghost wanted = invoice_for(booking@, assistant@.name);
    assert(title@ =~= wanted.title);
    assert(description@ =~= wanted.description);
    assert(label@ =~= wanted.label);
    Invoice { title, description, payload: booking.invoice_payload.clone(), label, amount }
}

/// What a user is told once a payment has opened a session.
pub open spec fn payment_confirmation(booking: BookingView, name: Seq<char>) -> Seq<char> {
    "✅ *Оплата прошла успешно\\!*\n\n*Сессия началась*\n*Консультант:* "@ + escaped(name)
        + "\n*Доступное время:* "@ + decimal_text(booking.duration_minutes as nat)
        + " мин\n*Стоимость:* "@ + decimal_text(invoice_amount(booking) as nat)
        + " Stars\n\nТеперь вы можете общаться с консультантом\\."@
}

/// What the payer of `booking` is told once the payment has opened the
/// session with the persona named `name`.
pub fn confirm_payment(booking: &Booking, name: &str) -> (text: String)
    ensures
        text@ == payment_confirmation(booking@, name@),
{
    let amount: u32 = if booking.total_price > i32::MAX as u64 {
        i32::MAX as u32
    } else {
        booking.total_price as u32
    };
    let mut text = String::new();
    push_text(&mut text, "✅ *Оплата прошла успешно\\!*\n\n*Сессия началась*\n*Консультант:* ");
    push_escaped(&mut text, name);
    push_text(&mut text, "\n*Доступное время:* ");
    push_decimal(&mut text, booking.duration_minutes as u64);
    push_text(&mut text, " мин\n*Стоимость:* ");
    push_decimal(&mut text, amount as u64);
    push_text(&mut text, " Stars\n\nТеперь вы можете общаться с консультантом\\.");
    assert(text@ =~= payment_confirmation(booking@, name@));
    text
}

} // verus!
