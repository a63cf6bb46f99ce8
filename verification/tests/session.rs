use listener_bot::llm::config::ChatMessage;
use listener_bot::models::booking::Booking;
use listener_bot::models::session::SessionChange;
use listener_bot::models::session::UserSession;

const NOW: i64 = 1_700_000_000_000_000;
const MINUTE: i64 = 60_000_000;

fn booking(scheduled_start: Option<i64>) -> Booking {
    Booking::pending(
        "b1".to_string(),
        7,
        "GigaChat-2-Max".to_string(),
        30,
        300,
        "t1".to_string(),
        scheduled_start,
        NOW,
    )
}

#[test]
fn an_immediate_session_is_active_for_the_paid_minutes() {
    let session = UserSession::open(&booking(None), 7, NOW);
    assert_eq!(session.chat_id, 7);
    assert_eq!(session.consultant_model, "GigaChat-2-Max");
    assert_eq!(session.session_start, NOW);
    assert_eq!(session.paid_until, NOW + 30 * MINUTE);
    assert_eq!(session.total_price, 300);
    assert_eq!(session.messages_exchanged, 0);
    assert!(session.history.is_empty());
    assert!(session.is_active);
    assert_eq!(session.scheduled_start, None);
    assert!(session.is_live(NOW));
    assert!(session.is_live(NOW + 30 * MINUTE - 1));
    assert!(!session.is_live(NOW + 30 * MINUTE));
}

#[test]
fn a_session_paid_ahead_waits_for_its_start() {
    let start = NOW + 10 * MINUTE;
    let mut session = UserSession::open(&booking(Some(start)), 7, NOW);
    assert!(!session.is_active);
    assert_eq!(session.session_start, start);
    assert_eq!(session.paid_until, start + 30 * MINUTE);
    assert_eq!(session.scheduled_start, Some(start));
    assert!(!session.is_live(NOW));

    assert_eq!(session.sweep(NOW), SessionChange::Unchanged);
    assert_eq!(session.sweep(start - 1), SessionChange::Unchanged);
    assert!(!session.is_active);

    assert_eq!(session.sweep(start), SessionChange::Started);
    assert!(session.is_active);
    assert!(session.is_live(start));
    assert_eq!(session.sweep(start + 1), SessionChange::Unchanged);
    assert!(session.is_active);
}

#[test]
fn a_start_that_has_passed_makes_the_session_immediate() {
    let session = UserSession::open(&booking(Some(NOW)), 7, NOW);
    assert!(session.is_active);
    assert_eq!(session.session_start, NOW);
    assert_eq!(session.scheduled_start, None);
    let earlier = UserSession::open(&booking(Some(NOW - MINUTE)), 7, NOW);
    assert!(earlier.is_active);
    assert_eq!(earlier.paid_until, NOW + 30 * MINUTE);
}

#[test]
fn a_session_ends_after_its_last_paid_instant() {
    let mut session = UserSession::open(&booking(None), 7, NOW);
    let end = NOW + 30 * MINUTE;
    assert_eq!(session.change_due(end), SessionChange::Unchanged);
    assert_eq!(session.sweep(end), SessionChange::Unchanged);
    assert!(session.is_active);
    assert_eq!(session.sweep(end + 1), SessionChange::Ended);
    assert!(!session.is_active);
    assert_eq!(session.sweep(end + 2), SessionChange::Unchanged);
    assert!(!session.is_active);
}

#[test]
fn a_session_that_was_never_started_is_not_started_after_its_paid_time() {
    let start = NOW + 10 * MINUTE;
    let mut session = UserSession::open(&booking(Some(start)), 7, NOW);
    assert_eq!(session.sweep(start + 30 * MINUTE), SessionChange::Unchanged);
    assert_eq!(session.sweep(start + 31 * MINUTE), SessionChange::Unchanged);
    assert!(!session.is_active);
}

#[test]
fn the_first_question_brings_the_instructions_with_it() {
    let mut session = UserSession::open(&booking(None), 7, NOW);
    let asked = session.take_question("Be kind.".to_string(), "Hello".to_string());
    assert_eq!(asked.len(), 2);
    assert_eq!(asked[0], ChatMessage::plain("system", "Be kind.".to_string()));
    assert_eq!(asked[1], ChatMessage::plain("user", "Hello".to_string()));
    assert_eq!(session.history, asked);

    let again = session.take_question("Be kind.".to_string(), "And now?".to_string());
    assert_eq!(again.len(), 3);
    assert_eq!(again[2], ChatMessage::plain("user", "And now?".to_string()));
    assert_eq!(session.history, again);
    assert_eq!(session.messages_exchanged, 0);
}

#[test]
fn a_plain_message_has_a_role_and_a_text_only() {
    let message = ChatMessage::plain("assistant", "Hi".to_string());
    assert_eq!(message.role, "assistant");
    assert_eq!(message.content, Some("Hi".to_string()));
    assert_eq!(message.tool_calls, None);
    assert_eq!(message.tool_call_id, None);
    assert_eq!(message.name, None);
}

#[test]
fn a_reply_is_counted_and_ends_a_session_whose_time_is_up() {
    let mut session = UserSession::open(&booking(None), 7, NOW);
    session.take_question("p".to_string(), "q".to_string());
    let end = NOW + 30 * MINUTE;
    assert!(!session.take_reply("first".to_string(), end));
    assert_eq!(session.messages_exchanged, 1);
    assert!(session.is_active);
    assert_eq!(session.history.len(), 3);
    assert_eq!(session.history[2], ChatMessage::plain("assistant", "first".to_string()));

    assert!(session.take_reply("late".to_string(), end + 1));
    assert_eq!(session.messages_exchanged, 2);
    assert!(!session.is_active);
    assert_eq!(session.history.len(), 4);
}

#[test]
fn a_copy_of_a_session_is_equal_to_it() {
    let mut session = UserSession::open(&booking(None), 7, NOW);
    session.take_question("p".to_string(), "q".to_string());
    assert_eq!(session.clone(), session);
}
