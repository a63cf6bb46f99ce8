//! The texts and the choices that are put before a user.
//!
//! A choice is a button: a label, and the data that comes back when the
//! user picks it. A keyboard is a list of rows of buttons.

use vstd::prelude::*;
use crate::models::ai_assistants::AIAssistant;
use crate::models::ai_assistants::AIAssistantView;
use crate::models::ai_assistants::persona_by_model;
use crate::models::ai_assistants::resolved_persona;
use crate::models::booking::Booking;
use crate::models::booking::BookingView;
use crate::models::time_slot::TimeSlot;
use crate::models::time_slot::TimeSlotView;
use crate::models::user_state::UserState;
use crate::models::user_state::UserStateView;
use crate::text::decimal_text;
use crate::text::escaped;
use crate::text::push_decimal;
use crate::text::push_escaped;
use crate::text::push_signed_decimal;
use crate::text::push_text;
use crate::text::signed_decimal_text;

verus! {

/// A choice put before a user.
#[derive(Debug, PartialEq, Eq)]
pub struct Button {
    pub text: String,
    pub data: String,
}

/// What a `Button` holds.
pub struct ButtonView {
    pub text: Seq<char>,
    pub data: Seq<char>,
}

impl View for Button {
    type V = ButtonView;

    open spec fn view(&self) -> ButtonView {
        ButtonView { text: self.text@, data: self.data@ }
    }
}

impl DeepView for Button {
    type V = ButtonView;

    open spec fn deep_view(&self) -> ButtonView {
        self@
    }
}

impl Clone for Button {
    fn clone(&self) -> (copy: Self)
        ensures
            copy@ == self@,
    {
        Button { text: self.text.clone(), data: self.data.clone() }
    }
}

/// A button with a fixed label and fixed data.
pub open spec fn fixed_button(text: Seq<char>, data: Seq<char>) -> ButtonView {
    ButtonView { text, data }
}

/// A row that holds one button.
pub open spec fn single(button: ButtonView) -> Seq<ButtonView> {
    seq![button]
}

/// A persona in one line: its name and its specialty.
pub open spec fn ai_info(assistant: AIAssistantView) -> Seq<char> {
    escaped(assistant.name) + " - "@ + escaped(assistant.specialty)
}

/// A persona in full: name, description, specialty and price.
pub open spec fn consultant_info(assistant: AIAssistantView) -> Seq<char> {
    "👤 *"@ + escaped(assistant.name) + "*\n\n*Описание:* "@ + escaped(assistant.description)
        + "\n*Специализация:* "@ + escaped(assistant.specialty) + "\n*Цена:* "@ + decimal_text(
        assistant.price_per_minute as nat,
    ) + " Stars/мин"@
}

/// The button that selects a persona.
pub open spec fn ai_button(assistant: AIAssistantView) -> ButtonView {
    ButtonView {
        text: ai_info(assistant),
        data: "select_ai_"@ + signed_decimal_text(assistant.id as int),
    }
}

/// The button that asks for a persona in full.
pub open spec fn info_button(assistant: AIAssistantView) -> ButtonView {
    ButtonView {
        text: "ℹ️ "@ + assistant.name + " - "@ + assistant.specialty,
        data: "consultant_info_"@ + signed_decimal_text(assistant.id as int),
    }
}

/// The button that selects a length of session at `price_per_minute`.
pub open spec fn slot_button(slot: TimeSlotView, price_per_minute: u32) -> ButtonView {
    ButtonView {
        text: slot.label(price_per_minute),
        data: "time_slot_"@ + signed_decimal_text(slot.id as int),
    }
}

/// The button that asks for a reservation in full, labelled with the name
/// of its persona.
pub open spec fn booking_button(name: Seq<char>, booking: BookingView) -> ButtonView {
    ButtonView {
        text: "ℹ️ "@ + name + " ("@ + decimal_text(booking.duration_minutes as nat) + " мин)"@,
        data: "info_booking_"@ + booking.id,
    }
}

/// The button that leaves a selection.
pub open spec fn cancel_button() -> ButtonView {
    fixed_button("❌ Отмена"@, "cancel_selection"@)
}

/// The button that leads to the selection of a persona.
pub open spec fn choose_button() -> ButtonView {
    fixed_button("👥 Выбрать консультанта"@, "change_consultant_from_list"@)
}

/// The button that starts a new session.
pub open spec fn new_session_button() -> ButtonView {
    fixed_button("💬 Новая сессия"@, "new_session"@)
}

/// The keyboard for the selection of a persona: one row for each persona
/// of the catalog, then the way out.
pub open spec fn ai_keyboard(catalog: Seq<AIAssistantView>) -> Seq<Seq<ButtonView>> {
    Seq::new(catalog.len(), |i: int| single(ai_button(catalog[i]))).push(single(cancel_button()))
}

/// The keyboard of the list of personas: one row for each persona of the
/// catalog, then the way to the selection.
pub open spec fn consultants_info_keyboard(catalog: Seq<AIAssistantView>) -> Seq<Seq<ButtonView>> {
    Seq::new(catalog.len(), |i: int| single(info_button(catalog[i]))).push(single(choose_button()))
}

/// The keyboard for the selection of a length of session: one row for each
/// slot, then the way back and the way out.
pub open spec fn time_slots_keyboard(slots: Seq<TimeSlotView>, price_per_minute: u32) -> Seq<
    Seq<ButtonView>,
> {
    Seq::new(slots.len(), |i: int| single(slot_button(slots[i], price_per_minute))).push(
        single(fixed_button("◀️ Назад к выбору консультанта"@, "back_to_consultant_selection"@)),
    ).push(single(cancel_button()))
}

/// The keyboard under a persona in full.
pub open spec fn back_to_consultants_keyboard() -> Seq<Seq<ButtonView>> {
    seq![
        single(fixed_button("◀️ Назад к списку консультантов"@, "back_to_consultants_list"@)),
        single(choose_button()),
    ]
}

/// The keyboard for the session of a user at `now`: the way to end the
/// session where the user may talk in it, then the way to a new session.
pub open spec fn session_management_keyboard(state: UserStateView, now: i64) -> Seq<Seq<ButtonView>> {
    if state.current_session matches Some(session) && session.live_at(now) {
        seq![
            single(fixed_button("❌ Завершить сессию"@, "end_session"@)),
            single(new_session_button()),
        ]
    } else {
        seq![single(new_session_button())]
    }
}

/// The labels of the main menu, row by row.
pub open spec fn main_menu() -> Seq<Seq<Seq<char>>> {
    seq![
        seq!["👥 Выбрать консультанта"@],
        seq!["💰 Мои сессии"@],
        seq!["ℹ️ Список консультантов"@, "ℹ️ О боте"@],
    ]
}

/// The name under which a reservation is listed: the name of the persona
/// that stands for its model in the catalog.
pub open spec fn listed_name(booking: BookingView, catalog: Seq<AIAssistantView>) -> Seq<char> {
    resolved_persona(persona_by_model(catalog, booking.consultant_model), catalog).0.name
}

/// The keyboard of the list of a user's reservations: one row for each,
/// then the way to a new session. No rows where the user has none.
pub open spec fn user_sessions_keyboard(bookings: Seq<BookingView>, catalog: Seq<AIAssistantView>) -> Seq<
    Seq<ButtonView>,
> {
    let rows = Seq::new(
        bookings.len(),
        |i: int| single(booking_button(listed_name(bookings[i], catalog), bookings[i])),
    );
    if bookings.len() == 0 {
        rows
    } else {
        rows.push(single(new_session_button()))
    }
}

/// The text over the list of a user's reservations.
pub open spec fn user_sessions_text(count: nat) -> Seq<char> {
    if count == 0 {
        "💰 *Ваши сессии*\n\nУ вас пока нет активных сессий\\."@
    } else {
        "💰 *Ваши сессии*\n\nВыберите сессию для просмотра информации:"@
    }
}

/// A reply of a persona as it is shown: the name of the persona before it.
pub open spec fn ai_message(name: Seq<char>, message: Seq<char>) -> Seq<char> {
    "*"@ + escaped(name) + ":* "@ + message
}

/// A button with the label `text` and the data `data`.
fn button(text: &str, data: &str) -> (made: Button)
    ensures
        made@ == fixed_button(text@, data@),
{
    Button { text: text.to_owned(), data: data.to_owned() }
}

/// A row that holds `button` alone.
fn row_of(button: Button) -> (row: Vec<Button>)
    ensures
        row.deep_view() == single(button@),
{
    let mut row: Vec<Button> = Vec::new();
    row.push(button);
    assert(row.deep_view() =~= single(button@));
    row
}

/// The labels of the main menu, row by row.
pub fn main_menu_keyboard() -> (rows: Vec<Vec<String>>)
    ensures
        rows.deep_view() == main_menu(),
{
    let mut first: Vec<String> = Vec::new();
    first.push("👥 Выбрать консультанта".to_owned());
    let mut second: Vec<String> = Vec::new();
    second.push("💰 Мои сессии".to_owned());
    let mut third: Vec<String> = Vec::new();
    third.push("ℹ️ Список консультантов".to_owned());
    third.push("ℹ️ О боте".to_owned());
    assert(first.deep_view() =~= seq!["👥 Выбрать консультанта"@]);
    assert(second.deep_view() =~= seq!["💰 Мои сессии"@]);
    assert(third.deep_view() =~= seq!["ℹ️ Список консультантов"@, "ℹ️ О боте"@]);
    let mut rows: Vec<Vec<String>> = Vec::new();
    rows.push(first);
    rows.push(second);
    rows.push(third);
    assert(rows.deep_view() =~= main_menu());
    rows
}

/// A persona in one line: its name and its specialty.
pub fn format_ai_info(assistant: &AIAssistant) -> (line: String)
    ensures
        line@ == ai_info(assistant@),
{
    let mut line = String::new();
    push_escaped(&mut line, assistant.name.as_str());
    push_text(&mut line, " - ");
    push_escaped(&mut line, assistant.specialty.as_str());
    assert(line@ =~= ai_info(assistant@));
    line
}

/// A persona in full: name, description, specialty and price.
pub fn format_consultant_info(assistant: &AIAssistant) -> (text: String)
    ensures
        text@ == consultant_info(assistant@),
{
    let mut text = String::new();
    push_text(&mut text, "👤 *");
    push_escaped(&mut text, assistant.name.as_str());
    push_text(&mut text, "*\n\n*Описание:* ");
    push_escaped(&mut text, assistant.description.as_str());
    push_text(&mut text, "\n*Специализация:* ");
    push_escaped(&mut text, assistant.specialty.as_str());
    push_text(&mut text, "\n*Цена:* ");
    push_decimal(&mut text, assistant.price_per_minute as u64);
    push_text(&mut text, " Stars/мин");
    assert(text@ =~= consultant_info(assistant@));
    text
}

/// The keyboard for the selection of a persona.
pub fn make_ai_keyboard(catalog: &Vec<AIAssistant>) -> (keyboard: Vec<Vec<Button>>)
    ensures
        keyboard.deep_view() == ai_keyboard(catalog.deep_view()),
{
    let ghost personas = catalog.deep_view();
    let mut keyboard: Vec<Vec<Button>> = Vec::new();
    let mut at: usize = 0;
    assert(keyboard.deep_view() =~= Seq::new(0, |i: int| single(ai_button(personas[i]))));
    while at < catalog.len()
        invariant
            at <= catalog.len(),
            personas == catalog.deep_view(),
            keyboard.deep_view() == Seq::new(at as nat, |i: int| single(ai_button(personas[i]))),
        decreases catalog.len() - at,
    {
        let assistant = &catalog[at];
        let mut data = String::new();
        push_text(&mut data, "select_ai_");
        push_signed_decimal(&mut data, assistant.id as i64);
        let made = Button { text: format_ai_info(assistant), data };
        assert(made@.data =~= ai_button(assistant@).data);
        let ghost so_far = keyboard.deep_view();
        keyboard.push(row_of(made));
        at = at + 1;
        assert(keyboard.deep_view() =~= so_far.push(single(ai_button(assistant@))));
        assert(keyboard.deep_view() =~= Seq::new(
            at as nat,
            |i: int| single(ai_button(personas[i])),
        ));
    }
    let ghost rows = keyboard.deep_view();
    keyboard.push(row_of(button("❌ Отмена", "cancel_selection")));
    assert(keyboard.deep_view() =~= rows.push(single(cancel_button())));
    keyboard
}

/// The keyboard of the list of personas.
pub fn make_consultants_info_keyboard(catalog: &Vec<AIAssistant>) -> (keyboard: Vec<Vec<Button>>)
    ensures
        keyboard.deep_view() == consultants_info_keyboard(catalog.deep_view()),
{
    let ghost personas = catalog.deep_view();
    let mut keyboard: Vec<Vec<Button>> = Vec::new();
    let mut at: usize = 0;
    assert(keyboard.deep_view() =~= Seq::new(0, |i: int| single(info_button(personas[i]))));
    while at < catalog.len()
        invariant
            at <= catalog.len(),
            personas == catalog.deep_view(),
            keyboard.deep_view() == Seq::new(at as nat, |i: int| single(info_button(personas[i]))),
        decreases catalog.len() - at,
    {
        let assistant = &catalog[at];
        let mut text = String::new();
        push_text(&mut text, "ℹ️ ");
        push_text(&mut text, assistant.name.as_str());
        push_text(&mut text, " - ");
        push_text(&mut text, assistant.specialty.as_str());
        let mut data = String::new();
        push_text(&mut data, "consultant_info_");
        push_signed_decimal(&mut data, assistant.id as i64);
        let made = Button { text, data };
        assert(made@.text =~= info_button(assistant@).text);
        assert(made@.data =~= info_button(assistant@).data);
        let ghost so_far = keyboard.deep_view();
        keyboard.push(row_of(made));
        at = at + 1;
        assert(keyboard.deep_view() =~= so_far.push(single(info_button(assistant@))));
        assert(keyboard.deep_view() =~= Seq::new(
            at as nat,
            |i: int| single(info_button(personas[i])),
        ));
    }
    let ghost rows = keyboard.deep_view();
    keyboard.push(row_of(button("👥 Выбрать консультанта", "change_consultant_from_list")));
    assert(keyboard.deep_view() =~= rows.push(single(choose_button())));
    keyboard
}

/// The keyboard for the selection of a length of session with `assistant`.
pub fn make_time_slots_keyboard(slots: &Vec<TimeSlot>, assistant: &AIAssistant) -> (keyboard: Vec<
    Vec<Button>,
>)
    ensures
        keyboard.deep_view() == time_slots_keyboard(
            slots.deep_view(),
            assistant@.price_per_minute,
        ),
{
    let ghost offered = slots.deep_view();
    let price = assistant.price_per_minute;
    let mut keyboard: Vec<Vec<Button>> = Vec::new();
    let mut at: usize = 0;
    assert(keyboard.deep_view() =~= Seq::new(0, |i: int| single(slot_button(offered[i], price))));
    while at < slots.len()
        invariant
            at <= slots.len(),
            offered == slots.deep_view(),
            keyboard.deep_view() == Seq::new(
                at as nat,
                |i: int| single(slot_button(offered[i], price)),
            ),
        decreases slots.len() - at,
    {
        let slot = &slots[at];
        let mut data = String::new();
        push_text(&mut data, "time_slot_");
        push_signed_decimal(&mut data, slot.id as i64);
        let made = Button { text: slot.format_price(price), data };
        assert(made@.data =~= slot_button(slot@, price).data);
        let ghost so_far = keyboard.deep_view();
        keyboard.push(row_of(made));
        at = at + 1;
        assert(keyboard.deep_view() =~= so_far.push(single(slot_button(slot@, price))));
        assert(keyboard.deep_view() =~= Seq::new(
            at as nat,
            |i: int| single(slot_button(offered[i], price)),
        ));
    }
    let ghost rows = keyboard.deep_view();
    keyboard.push(row_of(button("◀️ Назад к выбору консультанта", "back_to_consultant_selection")));
    keyboard.push(row_of(button("❌ Отмена", "cancel_selection")));
    assert(keyboard.deep_view() =~= rows.push(
        single(fixed_button("◀️ Назад к выбору консультанта"@, "back_to_consultant_selection"@)),
    ).push(single(cancel_button())));
    keyboard
}

/// The keyboard under a persona in full.
pub fn make_back_to_consultants_keyboard() -> (keyboard: Vec<Vec<Button>>)
    ensures
        keyboard.deep_view() == back_to_consultants_keyboard(),
{
    let mut keyboard: Vec<Vec<Button>> = Vec::new();
    keyboard.push(row_of(button("◀️ Назад к списку консультантов", "back_to_consultants_list")));
    keyboard.push(row_of(button("👥 Выбрать консультанта", "change_consultant_from_list")));
    assert(keyboard.deep_view() =~= back_to_consultants_keyboard());
    keyboard
}

/// The keyboard for the session of a user at `now`.
pub fn make_session_management_keyboard(user_state: &UserState, now: i64) -> (keyboard: Vec<
    Vec<Button>,
>)
    ensures
        keyboard.deep_view() == session_management_keyboard(user_state@, now),
{
    let mut keyboard: Vec<Vec<Button>> = Vec::new();
    let live = match &user_state.current_session {
        Some(session) => session.is_live(now),
        None => false,
    };
    if live {
        keyboard.push(row_of(button("❌ Завершить сессию", "end_session")));
    }
    keyboard.push(row_of(button("💬 Новая сессия", "new_session")));
    assert(keyboard.deep_view() =~= session_management_keyboard(user_state@, now));
    keyboard
}

/// The text over the list of a user's reservations, of which there are
/// `count`.
pub fn sessions_text(count: usize) -> (text: String)
    ensures
        text@ == user_sessions_text(count as nat),
{
    if count == 0 {
        "💰 *Ваши сессии*\n\nУ вас пока нет активных сессий\\.".to_owned()
    } else {
        "💰 *Ваши сессии*\n\nВыберите сессию для просмотра информации:".to_owned()
    }
}

/// The keyboard of the list of a user's reservations. Each is listed under
/// the name of the persona that stands for its model in the catalog.
pub fn show_user_sessions(bookings: &Vec<Booking>, catalog: &Vec<AIAssistant>) -> (keyboard: Vec<
    Vec<Button>,
>)
    ensures
        keyboard.deep_view() == user_sessions_keyboard(bookings.deep_view(), catalog.deep_view()),
{
    let ghost listed = bookings.deep_view();
    let ghost personas = catalog.deep_view();
    let mut keyboard: Vec<Vec<Button>> = Vec::new();
    let mut at: usize = 0;
    assert(keyboard.deep_view() =~= Seq::new(
        0,
        |i: int| single(booking_button(listed_name(listed[i], personas), listed[i])),
    ));
    while at < bookings.len()
        invariant
            at <= bookings.len(),
            listed == bookings.deep_view(),
            personas == catalog.deep_view(),
            keyboard.deep_view() == Seq::new(
                at as nat,
                |i: int| single(booking_button(listed_name(listed[i], personas), listed[i])),
            ),
        decreases bookings.len() - at,
    {
        let booking = &bookings[at];
        let found = AIAssistant::find_by_model_with_price(catalog, booking.consultant_model.as_str());
        let resolved = AIAssistant::resolve(found, catalog);
        let mut text = String::new();
        push_text(&mut text, "ℹ️ ");
        push_text(&mut text, resolved.assistant.name.as_str());
        push_text(&mut text, " (");
        push_decimal(&mut text, booking.duration_minutes as u64);
        push_text(&mut text, " мин)");
        let mut data = String::new();
        push_text(&mut data, "info_booking_");
        push_text(&mut data, booking.id.as_str());
        let made = Button { text, data };
        let ghost wanted = booking_button(listed_name(booking@, personas), booking@);
        assert(made@.text =~= wanted.text);
        assert(made@.data =~= wanted.data);
        let ghost so_far = keyboard.deep_view();
        keyboard.push(row_of(made));
        at = at + 1;
        assert(keyboard.deep_view() =~= so_far.push(single(wanted)));
        assert(keyboard.deep_view() =~= Seq::new(
            at as nat,
            |i: int| single(booking_button(listed_name(listed[i], personas), listed[i])),
        ));
    }
    if bookings.len() > 0 {
        let ghost rows = keyboard.deep_view();
        keyboard.push(row_of(button("💬 Новая сессия", "new_session")));
        assert(keyboard.deep_view() =~= rows.push(single(new_session_button())));
    }
    keyboard
}

/// A reply of the persona `ai_name` as it is shown.
pub fn send_ai_message(ai_name: &str, message: &str) -> (text: String)
    ensures
        text@ == ai_message(ai_name@, message@),
{
    let mut text = String::new();
    push_text(&mut text, "*");
    push_escaped(&mut text, ai_name);
    push_text(&mut text, ":* ");
    push_text(&mut text, message);
    assert(text@ =~= ai_message(ai_name@, message@));
    text
}

} // verus!
