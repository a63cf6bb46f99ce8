//! What the engine does with a text that a user wrote.
//!
//! A text is either a pick from the main menu or a question to the persona.
//! A question is taken only while the user's session is live. The turn has
//! two halves: the question enters the history and the history goes to the
//! persona; then the persona's reply, cleaned for display, enters the
//! history too.

use vstd::prelude::*;
use vstd::utf8::encode_utf8;
use crate::bot_state::BotState;
use crate::bot_state::BotStateView;
use crate::clock::clock_reading;
use crate::clock::utc_now;
use crate::handlers::callbacks::persona_for;
use crate::handlers::callbacks::resolve_by_model;
use crate::llm::config::ChatMessage;
use crate::models::ai_assistants::AIAssistant;
use crate::models::ai_assistants::AIAssistantView;
use crate::models::user_state::UserState;
use crate::models::user_state::UserStateView;
use crate::text::escaped;
use crate::text::has_prefix;
use crate::text::push_char;
use crate::text::push_escaped;
use crate::text::push_text;
use crate::text::replace_all;
use crate::text::replaced;
use crate::text::same_text;
use crate::text::strip_prefix;

verus! {

/// The most characters of a reply that are shown.
pub const REPLY_LIMIT: usize = 3800;

/// Where a text that a user wrote leads.
#[derive(Debug, Clone, Copy, PartialEq, Eq, Structural)]
pub enum MessageRoute {
    /// A command; commands are handled elsewhere.
    Command,
    /// The pick of the selection of a persona.
    ChooseConsultant,
    /// The pick of the list of the user's sessions.
    MySessions,
    /// The pick of the list of personas.
    ConsultantList,
    /// The pick of the note about the service.
    About,
    /// A question to the persona.
    Chat,
}

/// Where the text `text` leads.
pub open spec fn route_of(text: Seq<char>) -> MessageRoute {
    if has_prefix(text, "/"@) {
        MessageRoute::Command
    } else if text == "👥 Выбрать консультанта"@ {
        MessageRoute::ChooseConsultant
    } else if text == "💰 Мои сессии"@ {
        MessageRoute::MySessions
    } else if text == "ℹ️ Список консультантов"@ {
        MessageRoute::ConsultantList
    } else if text == "ℹ️ О боте"@ {
        MessageRoute::About
    } else {
        MessageRoute::Chat
    }
}

/// Where the text `text` leads.
pub fn route_message(text: &str) -> (route: MessageRoute)
    ensures
        route == route_of(text@),
{
    if strip_prefix(text, "/").is_some() {
        MessageRoute::Command
    } else if same_text(text, "👥 Выбрать консультанта") {
        MessageRoute::ChooseConsultant
    } else if same_text(text, "💰 Мои сессии") {
        MessageRoute::MySessions
    } else if same_text(text, "ℹ️ Список консультантов") {
        MessageRoute::ConsultantList
    } else if same_text(text, "ℹ️ О боте") {
        MessageRoute::About
    } else {
        MessageRoute::Chat
    }
}

/// Whether the user of `state` may talk to the persona at `now`.
pub open spec fn may_chat(state: UserStateView, now: i64) -> bool {
    state.current_session matches Some(session) && session.live_at(now)
}

/// Whether the user of `state` may talk to the persona at `now`: the user
/// has a session, it is active, and paid time is left.
pub fn can_chat(state: &UserState, now: i64) -> (allowed: bool)
    ensures
        allowed == may_chat(state@, now),
{
    match &state.current_session {
        Some(session) => session.is_live(now),
        None => false,
    }
}

/// How a persona is told to lay out its replies.
pub open spec fn layout_rules() -> Seq<char> {
    "\n\n- Используй *жирный текст* для выделения важных моментов (одну звездочку вместо двух)\n- Используй _курсив_ для акцентов\n- Используй эмодзи для выразительности\n- Если нужно показать код, используй обратные кавычки: `код`\n- Для списков используй маркеры • или цифры\n- Используй MarkdownV2 для форматирования текста\nТвои будут отображаться в Telegram, поэтому форматируй их соответствующим образом"@
}

/// The instructions that open a conversation with a persona: the prompt of
/// the persona, then how to lay out the replies.
pub fn opening_instructions(prompt: &str) -> (instructions: String)
    ensures
        instructions@ == prompt@ + layout_rules(),
{
    let mut instructions = String::new();
    push_text(&mut instructions, prompt);
    push_text(
        &mut instructions,
        "\n\n- Используй *жирный текст* для выделения важных моментов (одну звездочку вместо двух)\n- Используй _курсив_ для акцентов\n- Используй эмодзи для выразительности\n- Если нужно показать код, используй обратные кавычки: `код`\n- Для списков используй маркеры • или цифры\n- Используй MarkdownV2 для форматирования текста\nТвои будут отображаться в Telegram, поэтому форматируй их соответствующим образом",
    );
    assert(instructions@ =~= prompt@ + layout_rules());
    instructions
}

/// A text with its HTML tags turned into the marks that the display knows,
/// or dropped where it knows none.
pub open spec fn untagged(text: Seq<char>) -> Seq<char> {
    let t = replaced(replaced(text, "<b>"@, "*"@), "</b>"@, "*"@);
    let t = replaced(replaced(t, "<strong>"@, "*"@), "</strong>"@, "*"@);
    let t = replaced(replaced(t, "<i>"@, "_"@), "</i>"@, "_"@);
    let t = replaced(replaced(t, "<em>"@, "_"@), "</em>"@, "_"@);
    let t = replaced(replaced(replaced(t, "<br>"@, "\n"@), "<br/>"@, "\n"@), "<br />"@, "\n"@);
    let t = replaced(replaced(t, "<p>"@, "\n"@), "</p>"@, "\n"@);
    let t = replaced(replaced(t, "<u>"@, ""@), "</u>"@, ""@);
    let t = replaced(replaced(t, "<s>"@, ""@), "</s>"@, ""@);
    let t = replaced(replaced(t, "<code>"@, "`"@), "</code>"@, "`"@);
    replaced(replaced(t, "<pre>"@, "```\n"@), "</pre>"@, "\n```"@)
}

/// Whether a text ends with two line breaks.
pub open spec fn ends_with_blank_line(text: Seq<char>) -> bool {
    text.len() >= 2 && text[text.len() - 1] == '\n' && text[text.len() - 2] == '\n'
}

/// A text in which no more than two line breaks follow one another: of a
/// longer run the first two stay.
pub open spec fn squeezed(text: Seq<char>) -> Seq<char>
    decreases text.len(),
{
    if text.len() == 0 {
        Seq::empty()
    } else if text.last() == '\n' && ends_with_blank_line(squeezed(text.drop_last())) {
        squeezed(text.drop_last())
    } else {
        squeezed(text.drop_last()).push(text.last())
    }
}

/// What ends a reply that was cut short.
pub open spec fn cut_notice() -> Seq<char> {
    "\n\n\\[Сообщение было сокращено\\]"@
}

/// A text cut to the length that is shown: one of more than `REPLY_LIMIT`
/// bytes keeps its first `REPLY_LIMIT` characters and ends with a notice.
pub open spec fn cut(text: Seq<char>) -> Seq<char> {
    if encode_utf8(text).len() > REPLY_LIMIT {
        if text.len() > REPLY_LIMIT {
            text.take(REPLY_LIMIT as int) + cut_notice()
        } else {
            text + cut_notice()
        }
    } else {
        text
    }
}

/// A reply as it is shown: tags turned into marks, special characters
/// escaped, runs of line breaks squeezed, and the whole cut to length.
pub open spec fn cleaned(text: Seq<char>) -> Seq<char> {
    cut(squeezed(escaped(untagged(text))))
}

/// Turns the HTML tags of a text into the marks that the display knows.
fn untag(text: &str) -> (out: String)
    ensures
        out@ == untagged(text@),
{
    proof {
        reveal_strlit("<b>");
        reveal_strlit("</b>");
        reveal_strlit("<strong>");
        reveal_strlit("</strong>");
        reveal_strlit("<i>");
        reveal_strlit("</i>");
        reveal_strlit("<em>");
        reveal_strlit("</em>");
        reveal_strlit("<br>");
        reveal_strlit("<br/>");
        reveal_strlit("<br />");
        reveal_strlit("<p>");
        reveal_strlit("</p>");
        reveal_strlit("<u>");
        reveal_strlit("</u>");
        reveal_strlit("<s>");
        reveal_strlit("</s>");
        reveal_strlit("<code>");
        reveal_strlit("</code>");
        reveal_strlit("<pre>");
        reveal_strlit("</pre>");
    }
    let t = replace_all(text, "<b>", "*");
    let t = replace_all(t.as_str(), "</b>", "*");
    let t = replace_all(t.as_str(), "<strong>", "*");
    let t = replace_all(t.as_str(), "</strong>", "*");
    let t = replace_all(t.as_str(), "<i>", "_");
    let t = replace_all(t.as_str(), "</i>", "_");
    let t = replace_all(t.as_str(), "<em>", "_");
    let t = replace_all(t.as_str(), "</em>", "_");
    let t = replace_all(t.as_str(), "<br>", "\n");
    let t = replace_all(t.as_str(), "<br/>", "\n");
    let t = replace_all(t.as_str(), "<br />", "\n");
    let t = replace_all(t.as_str(), "<p>", "\n");
    let t = replace_all(t.as_str(), "</p>", "\n");
    let t = replace_all(t.as_str(), "<u>", "");
    let t = replace_all(t.as_str(), "</u>", "");
    let t = replace_all(t.as_str(), "<s>", "");
    let t = replace_all(t.as_str(), "</s>", "");
    let t = replace_all(t.as_str(), "<code>", "`");
    let t = replace_all(t.as_str(), "</code>", "`");
    let t = replace_all(t.as_str(), "<pre>", "```\n");
    replace_all(t.as_str(), "</pre>", "\n```")
}

/// Squeezes the runs of line breaks of a text to two line breaks each.
fn squeeze(text: &str) -> (out: String)
    ensures
        out@ == squeezed(text@),
{
    let mut out = String::new();
    let mut breaks: u8 = 0;
    assert(text@.take(0) =~= Seq::<char>::empty());
    assert(out@ =~= squeezed(text@.take(0)));
    for c in chars: text.chars()
        invariant
            chars.seq() == text@,
            out@ == squeezed(text@.take(chars.index() as int)),
            breaks <= 2,
            breaks == 2 <==> ends_with_blank_line(out@),
            breaks >= 1 <==> out@.len() >= 1 && out@.last() == '\n',
    {
        let ghost done = chars.index() as int;
        assert(text@.take(done + 1).drop_last() =~= text@.take(done));
        assert(text@.take(done + 1).last() == c);
        if c == '\n' {
            if breaks < 2 {
                push_char(&mut out, c);
                breaks = breaks + 1;
            }
        } else {
            push_char(&mut out, c);
            breaks = 0;
        }
    }
    assert(text@.take(text@.len() as int) =~= text@);
    out
}

/// Cuts a text to the length that is shown.
fn cut_to_length(text: String) -> (out: String)
    ensures
        out@ == cut(text@),
{
    if text.as_str().as_bytes().len() <= REPLY_LIMIT {
        return text;
    }
    let mut out = String::new();
    let mut kept: usize = 0;
    assert(text@.take(0) =~= Seq::<char>::empty());
    assert(out@ =~= text@.take(0));
    for c in chars: text.as_str().chars()
        invariant
            chars.seq() == text@,
            kept <= REPLY_LIMIT,
            kept <= chars.index(),
            kept < REPLY_LIMIT ==> kept == chars.index(),
            out@ == text@.take(kept as int),
    {
        if kept < REPLY_LIMIT {
            push_char(&mut out, c);
            kept = kept + 1;
            assert(out@ =~= text@.take(kept as int));
        }
    }
    proof {
        if kept < REPLY_LIMIT {
            assert(text@.take(kept as int) =~= text@);
        }
    }
    push_text(&mut out, "\n\n\\[Сообщение было сокращено\\]");
    out
}

/// A reply of the persona as it is shown.
pub fn clean_telegram_markdown(text: &str) -> (out: String)
    ensures
        out@ == cleaned(text@),
{
    let untagged = untag(text);
    let mut marked = String::new();
    push_escaped(&mut marked, untagged.as_str());
    assert(marked@ =~= escaped(untagged@));
    let squeezed = squeeze(marked.as_str());
    cut_to_length(squeezed)
}

/// How the first half of a turn ended.
#[derive(Debug, PartialEq, Eq)]
pub enum TurnStart {
    /// The user may not talk now: there is no session, or it is not live.
    /// Nothing changed.
    Refused,
    /// The question is taken; the history goes to the persona.
    Asked(Vec<ChatMessage>),
}

/// How the second half of a turn ended.
#[derive(Debug, PartialEq, Eq)]
pub enum TurnEnd {
    /// The user has no session. Nothing changed.
    NoSession,
    /// The persona gave no reply. Nothing changed.
    NoReply,
    /// The reply is taken; the text to show, and whether the paid time was
    /// found to be over.
    Replied(String, bool),
}

/// The state once the user's question has been taken at `now` in a session
/// with a persona whose prompt is `prompt`.
pub open spec fn state_after_question(
    state: UserStateView,
    prompt: Seq<char>,
    text: Seq<char>,
    now: i64,
) -> UserStateView {
    if may_chat(state, now) {
        state.with_session(
            Some(state.current_session->0.with_question(prompt + layout_rules(), text)),
        )
    } else {
        state
    }
}

/// The text of an optional reply.
pub open spec fn reply_text(reply: Option<&str>) -> Option<Seq<char>> {
    match reply {
        Some(raw) => Some(raw@),
        None => None,
    }
}

/// The state once the persona's reply has been taken at `now`.
pub open spec fn state_after_reply(state: UserStateView, reply: Option<Seq<char>>, now: i64) -> UserStateView {
    match (state.current_session, reply) {
        (Some(session), Some(raw)) => state.with_session(
            Some(session.with_reply(cleaned(raw), now)),
        ),
        _ => state,
    }
}

/// The first half of a turn: takes the question `text` of the user at
/// `now`, if the user may talk. A history that is empty first receives the
/// instructions for the persona.
pub fn start_turn(state: &mut UserState, prompt: &str, text: &str, now: i64) -> (started: TurnStart)
    ensures
        final(state)@ == state_after_question(old(state)@, prompt@, text@, now),
        started is Asked <==> may_chat(old(state)@, now),
        started matches TurnStart::Asked(history) ==> history.deep_view()
            == final(state)@.current_session->0.history,
{
    if !can_chat(state, now) {
        return TurnStart::Refused;
    }
    let mut session = match state.current_session.take() {
        Some(session) => session,
        None => {
            return TurnStart::Refused;
        },
    };
    let history = session.take_question(opening_instructions(prompt), text.to_owned());
    state.current_session = Some(session);
    TurnStart::Asked(history)
}

/// The second half of a turn: takes the reply of the persona at `now`,
/// cleaned for display, and counts the exchange. A session whose paid time
/// is over becomes inactive.
pub fn finish_turn(state: &mut UserState, reply: Option<&str>, now: i64) -> (ended: TurnEnd)
    requires
        old(state)@.current_session matches Some(session) ==> session.messages_exchanged
            < u32::MAX,
    ensures
        final(state)@ == state_after_reply(old(state)@, reply_text(reply), now),
        old(state)@.current_session is None ==> ended is NoSession,
        old(state)@.current_session is Some && reply is None ==> ended is NoReply,
        old(state)@.current_session matches Some(session) ==> (reply matches Some(raw) ==> (ended
            matches TurnEnd::Replied(shown, time_is_up) && shown@ == cleaned(raw@) && time_is_up
            == (now > session.paid_until))),
{
    let mut session = match state.current_session.take() {
        Some(session) => session,
        None => {
            return TurnEnd::NoSession;
        },
    };
    match reply {
        None => {
            state.current_session = Some(session);
            TurnEnd::NoReply
        },
        Some(raw) => {
            let shown = clean_telegram_markdown(raw);
            let time_is_up = session.take_reply(shown.clone(), now);
            state.current_session = Some(session);
            TurnEnd::Replied(shown, time_is_up)
        },
    }
}

/// A turn whose first half is done: the user's state with the question in
/// it, not written yet, the history that goes to the persona, and the
/// persona.
#[derive(Debug, PartialEq, Eq)]
pub struct PendingTurn {
    pub state: UserState,
    pub history: Vec<ChatMessage>,
    pub assistant: AIAssistant,
}

/// What the engine answers to a text that a user wrote.
#[derive(Debug, PartialEq, Eq)]
pub enum MessageReply {
    /// The text is a command; nothing is done.
    Ignored,
    /// The selection of a persona is to be shown.
    PersonaSelection,
    /// The list of the user's sessions is to be shown.
    SessionsList,
    /// The list of personas is to be shown.
    ConsultantsList,
    /// The note about the service is to be shown.
    About,
    /// The user may not talk now and is asked to choose a persona.
    ChooseConsultantFirst,
    /// The question is taken; the history is to go to the persona.
    Asked(PendingTurn),
}

/// How a turn ended, and whether the store took the user's state.
#[derive(Debug, PartialEq, Eq)]
pub struct TurnReport {
    pub end: TurnEnd,
    pub saved: bool,
}

/// Whether `reply` is what the engine answers to the text `text` that the
/// user `chat_id` wrote at `now`: the pick of the menu that the text leads
/// to, or for a question the turn that it starts, with the persona that
/// stands for the user's model and the user's state with the question in
/// it. A user who may not talk is asked to choose a persona first.
pub open spec fn answers_message(
    s: BotStateView,
    chat_id: i64,
    text: Seq<char>,
    catalog: Seq<AIAssistantView>,
    now: i64,
    reply: MessageReply,
) -> bool {
    match route_of(text) {
        MessageRoute::Command => reply is Ignored,
        MessageRoute::ChooseConsultant => reply is PersonaSelection,
        MessageRoute::MySessions => reply is SessionsList,
        MessageRoute::ConsultantList => reply is ConsultantsList,
        MessageRoute::About => reply is About,
        MessageRoute::Chat => {
            let read = s.state_read(chat_id, now);
            let assistant = persona_for(catalog, read.current_model);
            if may_chat(read, now) {
                &&& reply matches MessageReply::Asked(turn)
                &&& turn.assistant@ == assistant
                &&& turn.state@ == state_after_question(read, assistant.prompt, text, now)
                &&& turn.history.deep_view() == turn.state@.current_session->0.history
            } else {
                reply is ChooseConsultantFirst
            }
        },
    }
}

/// The engine after the text `text` of the user `chat_id` at `now`: a
/// question reads the user's state, which is not written before the turn is
/// complete; the picks of the menu change nothing.
pub open spec fn after_message(s: BotStateView, chat_id: i64, text: Seq<char>, now: i64) -> BotStateView {
    if route_of(text) == MessageRoute::Chat {
        s.after_read(chat_id, now)
    } else {
        s
    }
}

/// Takes the text `text` that the user `chat_id` wrote at `now`.
pub fn handle_message(
    state: &mut BotState,
    chat_id: i64,
    text: &str,
    catalog: &Vec<AIAssistant>,
    now: i64,
) -> (reply: MessageReply)
    ensures
        final(state)@ == after_message(old(state)@, chat_id, text@, now),
        answers_message(old(state)@, chat_id, text@, catalog.deep_view(), now, reply),
{
    match route_message(text) {
        MessageRoute::Command => MessageReply::Ignored,
        MessageRoute::ChooseConsultant => MessageReply::PersonaSelection,
        MessageRoute::MySessions => MessageReply::SessionsList,
        MessageRoute::ConsultantList => MessageReply::ConsultantsList,
        MessageRoute::About => MessageReply::About,
        MessageRoute::Chat => {
            let mut user_state = state.get_user_state(chat_id, now);
            let assistant = resolve_by_model(catalog, user_state.current_model.as_str());
            match start_turn(&mut user_state, assistant.prompt.as_str(), text, now) {
                TurnStart::Refused => MessageReply::ChooseConsultantFirst,
                TurnStart::Asked(history) => MessageReply::Asked(
                    PendingTurn { state: user_state, history, assistant },
                ),
            }
        },
    }
}

/// Takes a text that the user `chat_id` wrote, at the time that the system
/// clock shows.
pub fn message_handler(state: &mut BotState, chat_id: i64, text: &str, catalog: &Vec<AIAssistant>) -> (reply:
    MessageReply)
    ensures
        exists|now: i64|
            clock_reading(now as int) && final(state)@ == #[trigger] after_message(
                old(state)@,
                chat_id,
                text@,
                now,
            ) && answers_message(old(state)@, chat_id, text@, catalog.deep_view(), now, reply),
{
    let now = utc_now();
    handle_message(state, chat_id, text, catalog, now)
}

/// Completes a turn at `now`: takes the reply of the persona into the state
/// that the first half left, and writes the state. The state is written
/// also where the persona gave no reply: the question stays in the history.
pub fn complete_turn(
    state: &mut BotState,
    chat_id: i64,
    pending: UserState,
    reply: Option<&str>,
    now: i64,
) -> (report: TurnReport)
    requires
        pending@.current_session matches Some(session) ==> session.messages_exchanged < u32::MAX,
    ensures
        pending@.current_session is None ==> report.end is NoSession && final(state)@ == old(state)@,
        pending@.current_session is Some ==> {
            let replied = state_after_reply(pending@, reply_text(reply), now);
            &&& final(state)@ == old(state)@.after_state_save(chat_id, replied, now)
            &&& report.saved == (old(state)@.state_save_failure(replied) is None)
            &&& reply is None ==> report.end is NoReply
            &&& reply matches Some(raw) ==> (report.end matches TurnEnd::Replied(shown, time_is_up)
                && shown@ == cleaned(raw@) && time_is_up == (now
                > pending@.current_session->0.paid_until))
        },
{
    let mut user_state = pending;
    let end = finish_turn(&mut user_state, reply, now);
    match end {
        TurnEnd::NoSession => TurnReport { end, saved: false },
        _ => {
            let saved = state.save_user_state(chat_id, user_state, now).is_ok();
            TurnReport { end, saved }
        },
    }
}

} // verus!
