use listener_bot::database::Database;
use listener_bot::error::BotStateError;
use listener_bot::models::booking::Booking;
use listener_bot::models::user_state::UserState;

const NOW: i64 = 1_700_000_000_000_000;
const MINUTE: i64 = 60_000_000;

fn booking(id: &str, user: i64, token: &str, scheduled_start: Option<i64>) -> Booking {
    Booking::pending(
        id.to_string(),
        user,
        "GigaChat-2-Max".to_string(),
        30,
        300,
        token.to_string(),
        scheduled_start,
        NOW,
    )
}

fn unreachable() -> BotStateError {
    BotStateError::DatabaseError("store unreachable".to_string())
}

fn rejected() -> BotStateError {
    BotStateError::DatabaseError("row rejected".to_string())
}

#[test]
fn a_new_store_is_reachable_and_empty() {
    let db = Database::new();
    assert!(db.is_reachable());
    assert_eq!(db.all_bookings(), Ok(vec![]));
    assert_eq!(db.all_user_states().map(|rows| rows.len()), Ok(0));
    assert_eq!(db.get_booking_by_id("b1"), Ok(None));
    assert_eq!(db.get_booking_by_payload("t1"), Ok(None));
    assert_eq!(db.fetch_user_state(7), Ok(None));
}

#[test]
fn a_written_reservation_is_found_by_identifier_and_by_token() {
    let mut db = Database::new();
    let b1 = booking("b1", 7, "t1", None);
    assert_eq!(db.save_booking(&b1, NOW), Ok(()));
    assert_eq!(db.get_booking_by_id("b1"), Ok(Some(b1.clone())));
    assert_eq!(db.get_booking_by_payload("t1"), Ok(Some(b1.clone())));
    assert_eq!(db.get_booking_by_id("t1"), Ok(None));
    assert_eq!(db.get_booking_by_payload("b1"), Ok(None));
    assert_eq!(db.all_bookings(), Ok(vec![b1]));
}

#[test]
fn the_store_stamps_a_new_reservation_itself() {
    let mut db = Database::new();
    let mut b1 = booking("b1", 7, "t1", None);
    b1.created_at = 5;
    b1.expires_at = Some(6);
    let later = NOW + MINUTE;
    assert_eq!(db.save_booking(&b1, later), Ok(()));
    let stored = db.get_booking_by_id("b1").unwrap().unwrap();
    assert_eq!(stored.created_at, later);
    assert_eq!(stored.expires_at, Some(later + 5 * MINUTE));
}

#[test]
fn writing_a_known_reservation_updates_payment_completion_and_prompt_only() {
    let mut db = Database::new();
    let b1 = booking("b1", 7, "t1", None);
    db.save_booking(&b1, NOW).unwrap();

    let mut changed = b1.clone();
    changed.user_id = 99;
    changed.consultant_model = "other".to_string();
    changed.duration_minutes = 1;
    changed.total_price = 1;
    changed.invoice_payload = "other-token".to_string();
    changed.payment_invoice_message_id = Some(555);
    let later = NOW + MINUTE;
    assert_eq!(db.save_booking(&changed, later), Ok(()));

    let mut expected = b1.clone();
    expected.payment_invoice_message_id = Some(555);
    expected.expires_at = Some(later + 5 * MINUTE);
    assert_eq!(db.get_booking_by_id("b1"), Ok(Some(expected.clone())));
    assert_eq!(db.get_booking_by_payload("other-token"), Ok(None));
    assert_eq!(db.all_bookings(), Ok(vec![expected]));
}

#[test]
fn a_paid_write_removes_the_deadline() {
    let mut db = Database::new();
    let b1 = booking("b1", 7, "t1", None);
    db.save_booking(&b1, NOW).unwrap();
    let mut paid = b1.clone();
    paid.mark_paid();
    assert_eq!(db.save_booking(&paid, NOW + MINUTE), Ok(()));
    let stored = db.get_booking_by_id("b1").unwrap().unwrap();
    assert!(stored.is_paid);
    assert_eq!(stored.expires_at, None);
    assert_eq!(stored.created_at, NOW);
}

#[test]
fn a_second_reservation_with_a_known_token_is_rejected() {
    let mut db = Database::new();
    db.save_booking(&booking("b1", 7, "t1", None), NOW).unwrap();
    assert_eq!(db.save_booking(&booking("b2", 8, "t1", None), NOW), Err(rejected()));
    assert_eq!(db.all_bookings().unwrap().len(), 1);
    assert_eq!(db.save_booking(&booking("b2", 8, "t2", None), NOW), Ok(()));
    assert_eq!(db.all_bookings().unwrap().len(), 2);
}

#[test]
fn a_reservation_that_breaks_the_rules_is_rejected() {
    let mut db = Database::new();
    let mut completed_unpaid = booking("b1", 7, "t1", None);
    completed_unpaid.is_completed = true;
    assert_eq!(db.save_booking(&completed_unpaid, NOW), Err(rejected()));

    let mut endless = booking("b2", 7, "t2", Some(i64::MAX));
    endless.duration_minutes = 1;
    assert_eq!(db.save_booking(&endless, NOW), Err(rejected()));

    assert_eq!(db.save_booking(&booking("b3", 7, "t3", None), i64::MAX), Err(rejected()));
    assert_eq!(db.all_bookings(), Ok(vec![]));
}

#[test]
fn a_slot_that_a_paid_reservation_holds_is_taken() {
    let start = NOW + 60 * MINUTE;
    let mut db = Database::new();
    let mut holder = booking("b1", 7, "t1", Some(start));
    db.save_booking(&holder, NOW).unwrap();
    holder.mark_paid();
    db.save_booking(&holder, NOW).unwrap();

    assert_eq!(db.save_booking(&booking("b2", 8, "t2", Some(start)), NOW), Err(BotStateError::SlotTaken));
    assert_eq!(db.get_booking_by_id("b2"), Ok(None));
    assert_eq!(db.all_bookings().unwrap().len(), 1);

    assert_eq!(db.save_booking(&booking("b3", 8, "t3", Some(start + 1)), NOW), Ok(()));
    let mut other_persona = booking("b4", 8, "t4", Some(start));
    other_persona.consultant_model = "deepseek-chat".to_string();
    assert_eq!(db.save_booking(&other_persona, NOW), Ok(()));
    assert_eq!(db.save_booking(&booking("b5", 8, "t5", None), NOW), Ok(()));
}

#[test]
fn of_two_pending_reservations_for_a_slot_only_one_becomes_paid() {
    let start = NOW + 60 * MINUTE;
    let mut db = Database::new();
    let a = booking("a", 7, "ta", Some(start));
    let b = booking("b", 8, "tb", Some(start));
    assert_eq!(db.save_booking(&a, NOW), Ok(()));
    assert_eq!(db.save_booking(&b, NOW), Ok(()));

    let mut a_paid = a.clone();
    a_paid.mark_paid();
    assert_eq!(db.save_booking(&a_paid, NOW + 1), Ok(()));

    let mut b_paid = b.clone();
    b_paid.mark_paid();
    assert_eq!(db.save_booking(&b_paid, NOW + 2), Err(BotStateError::SlotTaken));
    let stored_b = db.get_booking_by_id("b").unwrap().unwrap();
    assert!(!stored_b.is_paid);
    assert_eq!(stored_b, b);
    assert!(db.get_booking_by_id("a").unwrap().unwrap().is_paid);
}

#[test]
fn a_purge_removes_the_unpaid_reservations_whose_deadline_is_reached() {
    let mut db = Database::new();
    db.save_booking(&booking("old", 7, "t-old", None), NOW).unwrap();
    let mut paid = booking("paid", 7, "t-paid", None);
    db.save_booking(&paid, NOW).unwrap();
    paid.mark_paid();
    db.save_booking(&paid, NOW).unwrap();
    db.save_booking(&booking("new", 7, "t-new", None), NOW + MINUTE).unwrap();

    let deadline = NOW + 5 * MINUTE;
    assert_eq!(db.cleanup_expired_bookings(deadline - 1), Ok(0));
    assert_eq!(db.all_bookings().unwrap().len(), 3);

    assert_eq!(db.cleanup_expired_bookings(deadline), Ok(1));
    assert_eq!(db.get_booking_by_id("old"), Ok(None));
    assert_eq!(db.get_booking_by_payload("t-old"), Ok(None));
    let left: Vec<String> = db.all_bookings().unwrap().into_iter().map(|b| b.id).collect();
    assert_eq!(left, vec!["paid".to_string(), "new".to_string()]);

    assert_eq!(db.cleanup_expired_bookings(deadline), Ok(0));
    assert_eq!(db.cleanup_expired_bookings(i64::MAX), Ok(1));
    let left: Vec<String> = db.all_bookings().unwrap().into_iter().map(|b| b.id).collect();
    assert_eq!(left, vec!["paid".to_string()]);
}

#[test]
fn completion_marks_the_paid_reservation_with_the_identifier() {
    let mut db = Database::new();
    let mut paid = booking("paid", 7, "t1", None);
    db.save_booking(&paid, NOW).unwrap();
    paid.mark_paid();
    db.save_booking(&paid, NOW).unwrap();
    db.save_booking(&booking("unpaid", 7, "t2", None), NOW).unwrap();

    assert_eq!(db.mark_booking_completed("unpaid"), Ok(()));
    assert!(!db.get_booking_by_id("unpaid").unwrap().unwrap().is_completed);
    assert_eq!(db.mark_booking_completed("nobody"), Ok(()));
    assert_eq!(db.mark_booking_completed("paid"), Ok(()));
    assert!(db.get_booking_by_id("paid").unwrap().unwrap().is_completed);
    let once = db.all_bookings();
    assert_eq!(db.mark_booking_completed("paid"), Ok(()));
    assert_eq!(db.all_bookings(), once);
}

#[test]
fn the_funding_reservation_is_the_newest_paid_one_of_user_and_persona() {
    let mut db = Database::new();
    for (id, token, user, at) in [("a", "ta", 7, NOW), ("b", "tb", 7, NOW + 2), ("c", "tc", 7, NOW + 1), ("d", "td", 8, NOW + 9)] {
        let mut b = booking(id, user, token, None);
        db.save_booking(&b, at).unwrap();
        b.mark_paid();
        db.save_booking(&b, at).unwrap();
    }
    db.save_booking(&booking("e", 7, "te", None), NOW + 10).unwrap();
    let mut other = booking("f", 7, "tf", None);
    other.consultant_model = "deepseek-chat".to_string();
    db.save_booking(&other, NOW + 11).unwrap();
    other.mark_paid();
    db.save_booking(&other, NOW + 11).unwrap();

    assert_eq!(db.find_funding_booking(7, "GigaChat-2-Max").unwrap().unwrap().id, "b");
    assert_eq!(db.find_funding_booking(8, "GigaChat-2-Max").unwrap().unwrap().id, "d");
    assert_eq!(db.find_funding_booking(7, "deepseek-chat").unwrap().unwrap().id, "f");
    assert_eq!(db.find_funding_booking(9, "GigaChat-2-Max"), Ok(None));
    assert_eq!(db.find_funding_booking(8, "deepseek-chat"), Ok(None));
}

#[test]
fn of_funding_reservations_of_one_instant_the_last_written_counts() {
    let mut db = Database::new();
    for (id, token) in [("a", "ta"), ("b", "tb")] {
        let mut b = booking(id, 7, token, None);
        db.save_booking(&b, NOW).unwrap();
        b.mark_paid();
        db.save_booking(&b, NOW).unwrap();
    }
    assert_eq!(db.find_funding_booking(7, "GigaChat-2-Max").unwrap().unwrap().id, "b");
}

#[test]
fn the_reservations_of_a_user_are_listed_newest_first() {
    let mut db = Database::new();
    db.save_booking(&booking("a", 7, "ta", None), NOW + 1).unwrap();
    db.save_booking(&booking("b", 7, "tb", None), NOW + 3).unwrap();
    db.save_booking(&booking("x", 8, "tx", None), NOW + 4).unwrap();
    db.save_booking(&booking("c", 7, "tc", None), NOW + 2).unwrap();
    db.save_booking(&booking("d", 7, "td", None), NOW + 3).unwrap();
    let ids = |rows: Vec<Booking>| rows.into_iter().map(|b| b.id).collect::<Vec<String>>();
    assert_eq!(ids(db.get_user_bookings(7, NOW + 5).unwrap()), vec!["b", "d", "c", "a"]);
    assert_eq!(ids(db.get_user_bookings(8, NOW + 5).unwrap()), vec!["x"]);
    assert_eq!(ids(db.get_user_bookings(9, NOW + 5).unwrap()), Vec::<String>::new());
}

#[test]
fn listing_the_reservations_of_a_user_purges_first() {
    let mut db = Database::new();
    db.save_booking(&booking("a", 7, "ta", None), NOW).unwrap();
    db.save_booking(&booking("b", 7, "tb", None), NOW + MINUTE).unwrap();
    db.save_booking(&booking("x", 8, "tx", None), NOW).unwrap();
    let listed = db.get_user_bookings(7, NOW + 5 * MINUTE).unwrap();
    assert_eq!(listed.len(), 1);
    assert_eq!(listed[0].id, "b");
    assert_eq!(db.get_booking_by_id("x"), Ok(None));
    assert_eq!(db.all_bookings().unwrap().len(), 1);
}

#[test]
fn a_reservation_is_withdrawn_while_it_may_be() {
    let mut db = Database::new();
    db.save_booking(&booking("a", 7, "ta", None), NOW).unwrap();
    assert_eq!(db.cancel_booking("nobody", NOW), Err(BotStateError::NotFound));
    assert_eq!(db.cancel_booking("a", NOW + 5 * MINUTE), Err(BotStateError::CannotCancel));
    assert_eq!(db.all_bookings().unwrap().len(), 1);
    assert_eq!(db.cancel_booking("a", NOW + 5 * MINUTE - 1), Ok(()));
    assert_eq!(db.all_bookings(), Ok(vec![]));
    assert_eq!(db.cancel_booking("a", NOW), Err(BotStateError::NotFound));

    let start = NOW + 60 * MINUTE;
    let mut scheduled = booking("s", 7, "ts", Some(start));
    db.save_booking(&scheduled, NOW).unwrap();
    scheduled.mark_paid();
    db.save_booking(&scheduled, NOW).unwrap();
    assert_eq!(db.cancel_booking("s", start), Err(BotStateError::CannotCancel));
    assert_eq!(db.cancel_booking("s", start - 1), Ok(()));

    let mut immediate = booking("i", 7, "ti", None);
    db.save_booking(&immediate, NOW).unwrap();
    immediate.mark_paid();
    db.save_booking(&immediate, NOW).unwrap();
    assert_eq!(db.cancel_booking("i", NOW), Err(BotStateError::CannotCancel));
}

#[test]
fn an_unreachable_store_fails_and_keeps_its_rows() {
    let mut db = Database::new();
    let b1 = booking("b1", 7, "t1", None);
    db.save_booking(&b1, NOW).unwrap();
    db.save_user_state(7, UserState::default()).unwrap();
    db.set_reachable(false);
    assert!(!db.is_reachable());

    assert_eq!(db.save_booking(&booking("b2", 7, "t2", None), NOW), Err(unreachable()));
    assert_eq!(db.get_booking_by_id("b1"), Err(unreachable()));
    assert_eq!(db.get_booking_by_payload("t1"), Err(unreachable()));
    assert_eq!(db.mark_booking_completed("b1"), Err(unreachable()));
    assert_eq!(db.cleanup_expired_bookings(i64::MAX), Err(unreachable()));
    assert_eq!(db.find_funding_booking(7, "GigaChat-2-Max"), Err(unreachable()));
    assert_eq!(db.cancel_booking("b1", NOW), Err(unreachable()));
    assert_eq!(db.get_user_bookings(7, i64::MAX), Err(unreachable()));
    assert_eq!(db.save_user_state(8, UserState::default()), Err(unreachable()));
    assert_eq!(db.fetch_user_state(7), Err(unreachable()));
    assert_eq!(db.all_user_states(), Err(unreachable()));
    assert_eq!(db.all_bookings(), Err(unreachable()));
    assert_eq!(db.init(), Err(unreachable()));

    db.set_reachable(true);
    assert_eq!(db.all_bookings(), Ok(vec![b1]));
    assert_eq!(db.all_user_states().unwrap().len(), 1);
}

#[test]
fn user_states_are_kept_one_for_each_user_in_the_order_of_their_first_write() {
    let mut db = Database::new();
    let mut first = UserState::default();
    first.current_model = "GigaChat-2-Max".to_string();
    let mut second = UserState::default();
    second.current_model = "deepseek-chat".to_string();
    db.save_user_state(7, first.clone()).unwrap();
    db.save_user_state(8, second.clone()).unwrap();
    assert_eq!(db.fetch_user_state(7), Ok(Some(first.clone())));
    assert_eq!(db.fetch_user_state(8), Ok(Some(second.clone())));
    assert_eq!(db.fetch_user_state(9), Ok(None));

    db.save_user_state(7, second.clone()).unwrap();
    assert_eq!(db.fetch_user_state(7), Ok(Some(second.clone())));
    let rows = db.all_user_states().unwrap();
    assert_eq!(rows.iter().map(|row| row.chat_id).collect::<Vec<i64>>(), vec![7, 8]);
}

#[test]
fn the_scheduled_time_of_a_state_is_not_stored() {
    let mut db = Database::new();
    let mut state = UserState::default();
    state.scheduled_time = Some(NOW);
    db.save_user_state(7, state.clone()).unwrap();
    let stored = db.fetch_user_state(7).unwrap().unwrap();
    assert_eq!(stored.scheduled_time, None);
    state.scheduled_time = None;
    assert_eq!(stored, state);
}

#[test]
fn preparing_the_store_empties_the_reservations_and_keeps_the_user_states() {
    let mut db = Database::new();
    db.save_booking(&booking("b1", 7, "t1", None), NOW).unwrap();
    db.save_user_state(7, UserState::default()).unwrap();
    assert_eq!(db.init(), Ok(()));
    assert_eq!(db.all_bookings(), Ok(vec![]));
    assert_eq!(db.all_user_states().unwrap().len(), 1);
}
