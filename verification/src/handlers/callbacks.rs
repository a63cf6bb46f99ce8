//! What the engine does when a user picks a button.
//!
//! The data of the button says what was picked. The pick of a length of
//! session makes a reservation; the pick of a persona makes it the user's
//! persona.

use vstd::prelude::*;
use crate::bot_state::BotState;
use crate::bot_state::BotStateView;
use crate::clock::checked_add_minutes;
use crate::clock::clock_reading;
use crate::clock::utc_now;
use crate::database::booking_by_id;
use crate::database::bookings_after_save;
use crate::database::deadline_at;
use crate::database::save_failure;
use crate::error::BotStateError;
use crate::error::failure;
use crate::models::ai_assistants::AIAssistant;
use crate::models::ai_assistants::AIAssistantView;
use crate::models::ai_assistants::persona_by_model;
use crate::models::ai_assistants::resolved_persona;
use crate::models::booking::Booking;
use crate::models::booking::BookingStatus;
use crate::models::booking::BookingView;
use crate::models::booking::PAYMENT_WINDOW_MINUTES;
use crate::models::time_slot::chosen_slot;
use crate::models::time_slot::TimeSlot;
use crate::models::time_slot::TimeSlotView;
use crate::models::user_state::UserStateView;
use crate::text::decimal_text;
use crate::text::escaped;
use crate::text::has_prefix;
use crate::text::parse_i32;
use crate::text::parsed_i32;
use crate::text::push_decimal;
use crate::text::push_escaped;
use crate::text::push_text;
use crate::text::same_text;
use crate::text::strip_prefix;

verus! {

/// What a user picked.
#[derive(Debug, PartialEq, Eq)]
pub enum CallbackCommand {
    /// The persona with this model.
    SelectAi(String),
    /// The persona with this model, to be shown in full.
    ConsultantInfo(String),
    /// The way back to the list of personas.
    BackToConsultantsList,
    /// The length of session with this identifier.
    TimeSlot(i32),
    /// The way back to the selection of a persona.
    BackToConsultantSelection,
    /// The way from the list of personas to the selection.
    ChangeConsultantFromList,
    /// The clearing of the conversation history.
    ClearHistory,
    /// A new session.
    NewSession,
    /// The reservation with this identifier, to be shown in full.
    InfoBooking(String),
    /// The temperature that this text denotes.
    Temperature(String),
    /// The way out of a selection.
    CancelSelection,
    /// Nothing that the engine knows.
    Unknown,
}

/// What a `CallbackCommand` holds.
pub enum CallbackCommandView {
    SelectAi(Seq<char>),
    ConsultantInfo(Seq<char>),
    BackToConsultantsList,
    TimeSlot(i32),
    BackToConsultantSelection,
    ChangeConsultantFromList,
    ClearHistory,
    NewSession,
    InfoBooking(Seq<char>),
    Temperature(Seq<char>),
    CancelSelection,
    Unknown,
}

impl View for CallbackCommand {
    type V = CallbackCommandView;

    open spec fn view(&self) -> CallbackCommandView {
        match self {
            CallbackCommand::SelectAi(model) => CallbackCommandView::SelectAi(model@),
            CallbackCommand::ConsultantInfo(model) => CallbackCommandView::ConsultantInfo(model@),
            CallbackCommand::BackToConsultantsList => CallbackCommandView::BackToConsultantsList,
            CallbackCommand::TimeSlot(id) => CallbackCommandView::TimeSlot(*id),
            CallbackCommand::BackToConsultantSelection => {
                CallbackCommandView::BackToConsultantSelection
            },
            CallbackCommand::ChangeConsultantFromList => CallbackCommandView::ChangeConsultantFromList,
            CallbackCommand::ClearHistory => CallbackCommandView::ClearHistory,
            CallbackCommand::NewSession => CallbackCommandView::NewSession,
            CallbackCommand::InfoBooking(id) => CallbackCommandView::InfoBooking(id@),
            CallbackCommand::Temperature(text) => CallbackCommandView::Temperature(text@),
            CallbackCommand::CancelSelection => CallbackCommandView::CancelSelection,
            CallbackCommand::Unknown => CallbackCommandView::Unknown,
        }
    }
}

/// What follows `prefix` in `data`.
pub open spec fn after_prefix(data: Seq<char>, prefix: Seq<char>) -> Seq<char> {
    data.skip(prefix.len() as int)
}

/// The identifier of a length of session that a text denotes; zero where it
/// denotes no number.
pub open spec fn slot_id_of(text: Seq<char>) -> i32 {
    match parsed_i32(text) {
        Some(id) => id,
        None => 0,
    }
}

/// What the data `data` of a button says was picked.
pub open spec fn callback_of(data: Seq<char>) -> CallbackCommandView {
    if has_prefix(data, "select_ai_"@) {
        CallbackCommandView::SelectAi(after_prefix(data, "select_ai_"@))
    } else if has_prefix(data, "consultant_info_"@) {
        CallbackCommandView::ConsultantInfo(after_prefix(data, "consultant_info_"@))
    } else if data == "back_to_consultants_list"@ {
        CallbackCommandView::BackToConsultantsList
    } else if has_prefix(data, "time_slot_"@) {
        CallbackCommandView::TimeSlot(slot_id_of(after_prefix(data, "time_slot_"@)))
    } else if data == "back_to_consultant_selection"@ {
        CallbackCommandView::BackToConsultantSelection
    } else if data == "change_consultant_from_list"@ {
        CallbackCommandView::ChangeConsultantFromList
    } else if data == "clear_history"@ {
        CallbackCommandView::ClearHistory
    } else if data == "new_session"@ {
        CallbackCommandView::NewSession
    } else if has_prefix(data, "info_booking_"@) {
        CallbackCommandView::InfoBooking(after_prefix(data, "info_booking_"@))
    } else if has_prefix(data, "temp_"@) {
        CallbackCommandView::Temperature(after_prefix(data, "temp_"@))
    } else if data == "cancel_selection"@ {
        CallbackCommandView::CancelSelection
    } else {
        CallbackCommandView::Unknown
    }
}

/// The pick of a length of session, from the text after the prefix and the
/// number that the text was read as.
pub fn slot_choice(number: Option<i32>) -> (id: i32)
    ensures
        id == match number {
            Some(n) => n,
            None => 0,
        },
{
    match number {
        Some(id) => id,
        None => 0,
    }
}

/// What the data `data` of a button says was picked.
pub fn parse_callback(data: &str) -> (command: CallbackCommand)
    ensures
        command@ == callback_of(data@),
{
    if let Some(model) = strip_prefix(data, "select_ai_") {
        return CallbackCommand::SelectAi(model.to_owned());
    }
    if let Some(model) = strip_prefix(data, "consultant_info_") {
        return CallbackCommand::ConsultantInfo(model.to_owned());
    }
    if same_text(data, "back_to_consultants_list") {
        return CallbackCommand::BackToConsultantsList;
    }
    if let Some(number) = strip_prefix(data, "time_slot_") {
        return CallbackCommand::TimeSlot(slot_choice(parse_i32(number)));
    }
    if same_text(data, "back_to_consultant_selection") {
        return CallbackCommand::BackToConsultantSelection;
    }
    if same_text(data, "change_consultant_from_list") {
        return CallbackCommand::ChangeConsultantFromList;
    }
    if same_text(data, "clear_history") {
        return CallbackCommand::ClearHistory;
    }
    if same_text(data, "new_session") {
        return CallbackCommand::NewSession;
    }
    if let Some(id) = strip_prefix(data, "info_booking_") {
        return CallbackCommand::InfoBooking(id.to_owned());
    }
    if let Some(text) = strip_prefix(data, "temp_") {
        return CallbackCommand::Temperature(text.to_owned());
    }
    if same_text(data, "cancel_selection") {
        return CallbackCommand::CancelSelection;
    }
    CallbackCommand::Unknown
}

/// A new token for a reservation or an invoice, from `uuid::Uuid::new_v4`
/// and the `Display` of `Uuid`. The token is random; its text is the
/// hyphenated form, which has 36 characters.
#[verifier::external_body]
fn fresh_token() -> (token: String)
    ensures
        token@.len() == 36,
{
    uuid::Uuid::new_v4().to_string()
}

/// The minutes of a session of the length `slot`.
pub open spec fn slot_minutes(slot: TimeSlotView) -> u32 {
    slot.duration_minutes as u32
}

/// The price in stars of a session of the length `slot` with `assistant`.
pub open spec fn slot_price(assistant: AIAssistantView, slot: TimeSlotView) -> u64 {
    (assistant.price_per_minute * slot_minutes(slot)) as u64
}

/// The deadline for the payment of a reservation asked for at `now`, where
/// it is an instant.
pub open spec fn requested_deadline(now: i64) -> Option<i64> {
    if deadline_at(now) <= i64::MAX {
        Some(deadline_at(now) as i64)
    } else {
        None
    }
}

/// The reservation that the user `chat_id` asks for at `now`: a session
/// of the length `slot` with `assistant`, under the identifier `id` and the
/// invoice token `payload`.
pub open spec fn requested_booking(
    chat_id: i64,
    assistant: AIAssistantView,
    slot: TimeSlotView,
    id: Seq<char>,
    payload: Seq<char>,
    scheduled_start: Option<i64>,
    now: i64,
) -> BookingView {
    BookingView {
        id,
        user_id: chat_id,
        consultant_model: assistant.model,
        duration_minutes: slot_minutes(slot),
        total_price: slot_price(assistant, slot),
        invoice_payload: payload,
        is_paid: false,
        is_completed: false,
        created_at: now,
        payment_invoice_message_id: None,
        scheduled_start,
        expires_at: requested_deadline(now),
    }
}

/// The reservation that the user `chat_id` asks for at `now`, under the
/// identifier `id` and the invoice token `invoice_payload`: pending, to be
/// paid within the payment window.
pub fn booking_request(
    chat_id: i64,
    assistant: &AIAssistant,
    slot: &TimeSlot,
    id: String,
    invoice_payload: String,
    scheduled_start: Option<i64>,
    now: i64,
) -> (booking: Booking)
    ensures
        booking@ == requested_booking(
            chat_id,
            assistant@,
            slot@,
            id@,
            invoice_payload@,
            scheduled_start,
            now,
        ),
{
    let minutes: u32 = slot.duration_minutes as u32;
    assert(0 <= assistant.price_per_minute * minutes <= 0xffff_ffff * 0xffff_ffff)
        by (nonlinear_arith)
        requires
            0 <= assistant.price_per_minute <= 0xffff_ffff,
            0 <= minutes <= 0xffff_ffff,
    ;
    Booking {
        id,
        user_id: chat_id,
        consultant_model: assistant.model.clone(),
        duration_minutes: minutes,
        total_price: (assistant.price_per_minute as u64) * (minutes as u64),
        invoice_payload,
        is_paid: false,
        is_completed: false,
        created_at: now,
        payment_invoice_message_id: None,
        scheduled_start,
        expires_at: checked_add_minutes(now, PAYMENT_WINDOW_MINUTES),
    }
}

/// The reservation that the user `chat_id` asks for at `now`, under a new
/// identifier and a new invoice token.
pub fn new_booking_request(
    chat_id: i64,
    assistant: &AIAssistant,
    slot: &TimeSlot,
    scheduled_start: Option<i64>,
    now: i64,
) -> (booking: Booking)
    ensures
        booking@ == requested_booking(
            chat_id,
            assistant@,
            slot@,
            booking@.id,
            booking@.invoice_payload,
            scheduled_start,
            now,
        ),
        booking@.id.len() == 36,
        booking@.invoice_payload.len() == 36,
{
    let id = fresh_token();
    let invoice_payload = fresh_token();
    booking_request(chat_id, assistant, slot, id, invoice_payload, scheduled_start, now)
}

/// Makes the reservation that the user `chat_id` asks for at `now`, under
/// the identifier `id` and the invoice token `invoice_payload`, and hands
/// it out.
///
/// The reservation is pending, to be paid within the payment window. It is
/// not made where its slot is taken by a paid reservation.
pub fn reserve_with(
    state: &mut BotState,
    chat_id: i64,
    assistant: &AIAssistant,
    slot: &TimeSlot,
    id: String,
    invoice_payload: String,
    scheduled_start: Option<i64>,
    now: i64,
) -> (made: Result<Booking, BotStateError>)
    ensures
        ({
            let request = requested_booking(
                chat_id,
                assistant@,
                slot@,
                id@,
                invoice_payload@,
                scheduled_start,
                now,
            );
            &&& failure(made) == save_failure(old(state)@.db, request, now)
            &&& final(state)@ == old(state)@.with_bookings(
                bookings_after_save(old(state)@.db, request, now),
            )
            &&& made matches Ok(booking) ==> booking@ == request
        }),
        final(state)@.db.well_formed(),
{
    let booking = booking_request(chat_id, assistant, slot, id, invoice_payload, scheduled_start, now);
    match state.save_booking(&booking, now) {
        Ok(()) => Ok(booking),
        Err(error) => Err(error),
    }
}

/// Notes on a reservation the message that prompts for its payment, at
/// `now`. The deadline for the payment starts anew.
pub fn note_invoice_message(state: &mut BotState, booking: &Booking, message_id: i32, now: i64) -> (noted:
    Result<(), BotStateError>)
    ensures
        ({
            let prompted = BookingView { payment_invoice_message_id: Some(message_id), ..booking@ };
            &&& failure(noted) == save_failure(old(state)@.db, prompted, now)
            &&& final(state)@ == old(state)@.with_bookings(
                bookings_after_save(old(state)@.db, prompted, now),
            )
        }),
        final(state)@.db.well_formed(),
{
    let mut prompted = booking.clone();
    prompted.payment_invoice_message_id = Some(message_id);
    state.save_booking(&prompted, now)
}

/// Makes the persona with the model `model` the persona of the user
/// `chat_id` at `now`.
pub fn select_persona(state: &mut BotState, chat_id: i64, model: String, now: i64) -> (saved: Result<
    (),
    BotStateError,
>)
    ensures
        ({
            let read = old(state)@.after_read(chat_id, now);
            let chosen = UserStateView {
                current_model: model@,
                ..old(state)@.state_read(chat_id, now)
            };
            &&& failure(saved) == read.state_save_failure(chosen)
            &&& final(state)@ == read.after_state_save(chat_id, chosen, now)
        }),
        final(state)@.db.well_formed(),
{
    let mut user_state = state.get_user_state(chat_id, now);
    user_state.current_model = model;
    state.save_user_state(chat_id, user_state, now)
}

/// The words for where a reservation stands.
pub open spec fn status_words(status: BookingStatus) -> Seq<char> {
    match status {
        BookingStatus::Completed => "✅ Завершена"@,
        BookingStatus::Paid => "🟢 Активна"@,
        BookingStatus::Pending => "⏳ Ожидает оплаты"@,
        BookingStatus::Expired => "❌ Истекла"@,
    }
}

/// The words for where a reservation stands.
pub fn status_label(status: BookingStatus) -> (words: String)
    ensures
        words@ == status_words(status),
{
    match status {
        BookingStatus::Completed => "✅ Завершена".to_owned(),
        BookingStatus::Paid => "🟢 Активна".to_owned(),
        BookingStatus::Pending => "⏳ Ожидает оплаты".to_owned(),
        BookingStatus::Expired => "❌ Истекла".to_owned(),
    }
}

/// A reservation in full, for the user who made it, at `now`: persona,
/// length, price, status and identifier.
pub open spec fn booking_info(name: Seq<char>, booking: BookingView, now: i64) -> Seq<char> {
    "📋 *Информация о сессии*\n\n*Консультант:* "@ + escaped(name) + "\n*Продолжительность:* "@
        + decimal_text(booking.duration_minutes as nat) + " мин\n*Стоимость:* "@ + decimal_text(
        booking.total_price as nat,
    ) + " Stars\n*Статус:* "@ + escaped(status_words(booking.status_at(now))) + "\n*ID сессии:* `"@
        + booking.id + "`"@
}

/// A reservation in full at `now`, under the name `assistant_name` of its
/// persona, for the user `chat_id`. Nothing for a user who did not make it.
pub fn format_booking_info(assistant_name: &str, booking: &Booking, chat_id: i64, now: i64) -> (text:
    Option<String>)
    ensures
        booking@.user_id != chat_id ==> text is None,
        booking@.user_id == chat_id ==> text is Some && text->0@ == booking_info(
            assistant_name@,
            booking@,
            now,
        ),
{
    if booking.user_id != chat_id {
        return None;
    }
    let status = status_label(booking.status(now));
    let mut text = String::new();
    push_text(&mut text, "📋 *Информация о сессии*\n\n*Консультант:* ");
    push_escaped(&mut text, assistant_name);
    push_text(&mut text, "\n*Продолжительность:* ");
    push_decimal(&mut text, booking.duration_minutes as u64);
    push_text(&mut text, " мин\n*Стоимость:* ");
    push_decimal(&mut text, booking.total_price);
    push_text(&mut text, " Stars\n*Статус:* ");
    push_escaped(&mut text, status.as_str());
    push_text(&mut text, "\n*ID сессии:* `");
    push_text(&mut text, booking.id.as_str());
    push_text(&mut text, "`");
    assert(text@ =~= booking_info(assistant_name@, booking@, now));
    Some(text)
}

/// What is shown to a user who picked a persona.
pub open spec fn selection_text(assistant: AIAssistantView) -> Seq<char> {
    "✅ *Вы выбрали:* "@ + escaped(assistant.name) + "\n\n*Стиль общения:* "@ + escaped(
        assistant.specialty,
    ) + "\n*Цена:* "@ + decimal_text(assistant.price_per_minute as nat) + " Stars/мин\n\n"@
        + escaped(assistant.greeting) + "\n\nВыберите продолжительность сессии:"@
}

/// What is shown to a user who picked `assistant`.
pub fn format_selection(assistant: &AIAssistant) -> (text: String)
    ensures
        text@ == selection_text(assistant@),
{
    let mut text = String::new();
    push_text(&mut text, "✅ *Вы выбрали:* ");
    push_escaped(&mut text, assistant.name.as_str());
    push_text(&mut text, "\n\n*Стиль общения:* ");
    push_escaped(&mut text, assistant.specialty.as_str());
    push_text(&mut text, "\n*Цена:* ");
    push_decimal(&mut text, assistant.price_per_minute as u64);
    push_text(&mut text, " Stars/мин\n\n");
    push_escaped(&mut text, assistant.greeting.as_str());
    push_text(&mut text, "\n\nВыберите продолжительность сессии:");
    assert(text@ =~= selection_text(assistant@));
    text
}

/// What the engine answers to a pick.
#[derive(Debug, PartialEq, Eq)]
pub enum CallbackReply {
    /// The persona is the user's persona now; its lengths of session are
    /// to be offered.
    PersonaSelected(AIAssistant),
    /// The persona is to be shown in full.
    ConsultantShown(AIAssistant),
    /// The list of personas is to be shown.
    ConsultantsList,
    /// The selection of a persona is to be shown.
    PersonaSelection,
    /// The reservation is made; its invoice is to be sent.
    Reserved(Booking),
    /// The reservation could not be made.
    ReservationFailed,
    /// The conversation history of the user is to be cleared.
    ClearHistory,
    /// The reservation in full.
    BookingShown(String),
    /// The reservation belongs to another user; nothing is shown.
    BookingHidden,
    /// There is no such reservation.
    BookingNotFound,
    /// The store failed to look the reservation up.
    BookingLookupFailed,
    /// The temperature that the text denotes is to be set.
    Temperature(String),
    /// The selection is left.
    Cancelled,
    /// Nothing is done.
    Ignored,
}

/// What a `CallbackReply` holds.
pub enum CallbackReplyView {
    PersonaSelected(AIAssistantView),
    ConsultantShown(AIAssistantView),
    ConsultantsList,
    PersonaSelection,
    Reserved(BookingView),
    ReservationFailed,
    ClearHistory,
    BookingShown(Seq<char>),
    BookingHidden,
    BookingNotFound,
    BookingLookupFailed,
    Temperature(Seq<char>),
    Cancelled,
    Ignored,
}

impl View for CallbackReply {
    type V = CallbackReplyView;

    open spec fn view(&self) -> CallbackReplyView {
        match self {
            CallbackReply::PersonaSelected(assistant) => CallbackReplyView::PersonaSelected(
                assistant@,
            ),
            CallbackReply::ConsultantShown(assistant) => CallbackReplyView::ConsultantShown(
                assistant@,
            ),
            CallbackReply::ConsultantsList => CallbackReplyView::ConsultantsList,
            CallbackReply::PersonaSelection => CallbackReplyView::PersonaSelection,
            CallbackReply::Reserved(booking) => CallbackReplyView::Reserved(booking@),
            CallbackReply::ReservationFailed => CallbackReplyView::ReservationFailed,
            CallbackReply::ClearHistory => CallbackReplyView::ClearHistory,
            CallbackReply::BookingShown(text) => CallbackReplyView::BookingShown(text@),
            CallbackReply::BookingHidden => CallbackReplyView::BookingHidden,
            CallbackReply::BookingNotFound => CallbackReplyView::BookingNotFound,
            CallbackReply::BookingLookupFailed => CallbackReplyView::BookingLookupFailed,
            CallbackReply::Temperature(text) => CallbackReplyView::Temperature(text@),
            CallbackReply::Cancelled => CallbackReplyView::Cancelled,
            CallbackReply::Ignored => CallbackReplyView::Ignored,
        }
    }
}

/// The persona that stands for the model `model` in the catalog.
pub open spec fn persona_for(catalog: Seq<AIAssistantView>, model: Seq<char>) -> AIAssistantView {
    resolved_persona(persona_by_model(catalog, model), catalog).0
}

/// The state of the user `chat_id` once the persona with `model` is the
/// user's persona.
pub open spec fn state_with_persona(s: BotStateView, chat_id: i64, model: Seq<char>, now: i64) -> UserStateView {
    UserStateView { current_model: model, ..s.state_read(chat_id, now) }
}

/// The reservation that the pick of the length of session `slot_id` asks
/// for: a session with the user's persona, at the time that the user's
/// state has scheduled, if any.
pub open spec fn picked_booking(
    s: BotStateView,
    chat_id: i64,
    slot_id: i32,
    catalog: Seq<AIAssistantView>,
    slots: Seq<TimeSlotView>,
    id: Seq<char>,
    payload: Seq<char>,
    now: i64,
) -> BookingView {
    let user_state = s.state_read(chat_id, now);
    requested_booking(
        chat_id,
        persona_for(catalog, user_state.current_model),
        chosen_slot(slots, slot_id),
        id,
        payload,
        user_state.scheduled_time,
        now,
    )
}

impl BotStateView {
    /// The engine after the pick `command` of the user `chat_id` at `now`.
    /// A reservation that the pick asks for is made under the identifier
    /// `id` and the invoice token `payload`.
    pub open spec fn after_callback(
        self,
        chat_id: i64,
        command: CallbackCommandView,
        catalog: Seq<AIAssistantView>,
        slots: Seq<TimeSlotView>,
        id: Seq<char>,
        payload: Seq<char>,
        now: i64,
    ) -> BotStateView {
        match command {
            CallbackCommandView::SelectAi(model) => self.after_read(chat_id, now).after_state_save(
                chat_id,
                state_with_persona(self, chat_id, persona_for(catalog, model).model, now),
                now,
            ),
            CallbackCommandView::TimeSlot(slot_id) => {
                let read = self.after_read(chat_id, now);
                read.with_bookings(
                    bookings_after_save(
                        read.db,
                        picked_booking(self, chat_id, slot_id, catalog, slots, id, payload, now),
                        now,
                    ),
                )
            },
            _ => self,
        }
    }

    /// What the engine answers to the pick `command` of the user `chat_id`
    /// at `now`.
    pub open spec fn callback_reply(
        self,
        chat_id: i64,
        command: CallbackCommandView,
        catalog: Seq<AIAssistantView>,
        slots: Seq<TimeSlotView>,
        id: Seq<char>,
        payload: Seq<char>,
        now: i64,
    ) -> CallbackReplyView {
        match command {
            CallbackCommandView::SelectAi(model) => CallbackReplyView::PersonaSelected(
                persona_for(catalog, model),
            ),
            CallbackCommandView::ConsultantInfo(model) => CallbackReplyView::ConsultantShown(
                persona_for(catalog, model),
            ),
            CallbackCommandView::BackToConsultantsList => CallbackReplyView::ConsultantsList,
            CallbackCommandView::TimeSlot(slot_id) => {
                let request = picked_booking(self, chat_id, slot_id, catalog, slots, id, payload, now);
                if save_failure(self.db, request, now) is Some {
                    CallbackReplyView::ReservationFailed
                } else {
                    CallbackReplyView::Reserved(request)
                }
            },
            CallbackCommandView::BackToConsultantSelection => CallbackReplyView::PersonaSelection,
            CallbackCommandView::ChangeConsultantFromList => CallbackReplyView::PersonaSelection,
            CallbackCommandView::ClearHistory => CallbackReplyView::ClearHistory,
            CallbackCommandView::NewSession => CallbackReplyView::PersonaSelection,
            CallbackCommandView::InfoBooking(booking_id) => if !self.db.reachable {
                CallbackReplyView::BookingLookupFailed
            } else {
                match booking_by_id(self.db.bookings, booking_id) {
                    None => CallbackReplyView::BookingNotFound,
                    Some(booking) => if booking.user_id == chat_id {
                        CallbackReplyView::BookingShown(
                            booking_info(
                                persona_for(catalog, booking.consultant_model).name,
                                booking,
                                now,
                            ),
                        )
                    } else {
                        CallbackReplyView::BookingHidden
                    },
                }
            },
            CallbackCommandView::Temperature(text) => CallbackReplyView::Temperature(text),
            CallbackCommandView::CancelSelection => CallbackReplyView::Cancelled,
            CallbackCommandView::Unknown => CallbackReplyView::Ignored,
        }
    }
}

/// The persona that stands for the model `model` in the catalog.
pub fn resolve_by_model(catalog: &Vec<AIAssistant>, model: &str) -> (assistant: AIAssistant)
    ensures
        assistant@ == persona_for(catalog.deep_view(), model@),
{
    let found = AIAssistant::find_by_model_with_price(catalog, model);
    AIAssistant::resolve(found, catalog).assistant
}

/// Carries out the pick `command` of the user `chat_id` at `now`, with the
/// catalog of personas and the lengths of session on offer. A reservation
/// that the pick asks for is made under the identifier `id` and the
/// invoice token `invoice_payload`.
pub fn handle_callback(
    state: &mut BotState,
    chat_id: i64,
    command: CallbackCommand,
    catalog: &Vec<AIAssistant>,
    slots: &Vec<TimeSlot>,
    id: String,
    invoice_payload: String,
    now: i64,
) -> (reply: CallbackReply)
    requires
        command is TimeSlot ==> slots.len() > 0,
    ensures
        reply@ == old(state)@.callback_reply(
            chat_id,
            command@,
            catalog.deep_view(),
            slots.deep_view(),
            id@,
            invoice_payload@,
            now,
        ),
        final(state)@ == old(state)@.after_callback(
            chat_id,
            command@,
            catalog.deep_view(),
            slots.deep_view(),
            id@,
            invoice_payload@,
            now,
        ),
{
    match command {
        CallbackCommand::SelectAi(model) => {
            let assistant = resolve_by_model(catalog, model.as_str());
            let _ = select_persona(state, chat_id, assistant.model.clone(), now);
            CallbackReply::PersonaSelected(assistant)
        },
        CallbackCommand::ConsultantInfo(model) => {
            CallbackReply::ConsultantShown(resolve_by_model(catalog, model.as_str()))
        },
        CallbackCommand::BackToConsultantsList => CallbackReply::ConsultantsList,
        CallbackCommand::TimeSlot(slot_id) => {
            let user_state = state.get_user_state(chat_id, now);
            let assistant = resolve_by_model(catalog, user_state.current_model.as_str());
            let slot = TimeSlot::select(slots, slot_id);
            match reserve_with(
                state,
                chat_id,
                &assistant,
                slot,
                id,
                invoice_payload,
                user_state.scheduled_time,
                now,
            ) {
                Ok(booking) => CallbackReply::Reserved(booking),
                Err(_) => CallbackReply::ReservationFailed,
            }
        },
        CallbackCommand::BackToConsultantSelection => CallbackReply::PersonaSelection,
        CallbackCommand::ChangeConsultantFromList => CallbackReply::PersonaSelection,
        CallbackCommand::ClearHistory => CallbackReply::ClearHistory,
        CallbackCommand::NewSession => CallbackReply::PersonaSelection,
        CallbackCommand::InfoBooking(booking_id) => {
            match state.get_booking_by_id(booking_id.as_str()) {
                Err(_) => CallbackReply::BookingLookupFailed,
                Ok(None) => CallbackReply::BookingNotFound,
                Ok(Some(booking)) => {
                    let assistant = resolve_by_model(catalog, booking.consultant_model.as_str());
                    match format_booking_info(assistant.name.as_str(), &booking, chat_id, now) {
                        Some(text) => CallbackReply::BookingShown(text),
                        None => CallbackReply::BookingHidden,
                    }
                },
            }
        },
        CallbackCommand::Temperature(text) => CallbackReply::Temperature(text),
        CallbackCommand::CancelSelection => CallbackReply::Cancelled,
        CallbackCommand::Unknown => CallbackReply::Ignored,
    }
}

/// Carries out what the data `data` of a button says the user `chat_id`
/// picked, at the time that the system clock shows. A reservation is made
/// under a new identifier and a new invoice token.
pub fn callback_handler(
    state: &mut BotState,
    chat_id: i64,
    data: &str,
    catalog: &Vec<AIAssistant>,
    slots: &Vec<TimeSlot>,
) -> (reply: CallbackReply)
    requires
        slots.len() > 0,
    ensures
        exists|id: Seq<char>, payload: Seq<char>, now: i64|
            clock_reading(now as int) && id.len() == 36 && payload.len() == 36 && reply@
                == #[trigger] old(state)@.callback_reply(
                chat_id,
                callback_of(data@),
                catalog.deep_view(),
                slots.deep_view(),
                id,
                payload,
                now,
            ) && final(state)@ == old(state)@.after_callback(
                chat_id,
                callback_of(data@),
                catalog.deep_view(),
                slots.deep_view(),
                id,
                payload,
                now,
            ),
{
    let command = parse_callback(data);
    let id = fresh_token();
    let invoice_payload = fresh_token();
    let now = utc_now();
    handle_callback(state, chat_id, command, catalog, slots, id, invoice_payload, now)
}

} // verus!
