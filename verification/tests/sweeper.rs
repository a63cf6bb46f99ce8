use listener_bot::bot_state::BotState;
use listener_bot::database::Database;
use listener_bot::database::UserRow;
use listener_bot::handlers::check_sessions_task;
use listener_bot::handlers::cleanup_cache_task;
use listener_bot::handlers::payments::process_payment;
use listener_bot::handlers::payments::PaymentOutcome;
use listener_bot::handlers::sweep;
use listener_bot::handlers::sweep_user;
use listener_bot::handlers::SweptUser;
use listener_bot::handlers::UserSweep;
use listener_bot::models::booking::Booking;
use listener_bot::models::booking::BookingStatus;
use listener_bot::models::user_state::UserState;

const NOW: i64 = 1_700_000_000_000_000;
const MINUTE: i64 = 60_000_000;

fn booking(id: &str, user: i64, token: &str, scheduled_start: Option<i64>) -> Booking {
    Booking::pending(
        id.to_string(),
        user,
        "GigaChat-2-Max".to_string(),
        30,
        300,
        token.to_string(),
        scheduled_start,
        NOW,
    )
}

fn engine_with(bookings: &[Booking]) -> BotState {
    let mut engine = BotState::new(Database::new());
    for b in bookings {
        engine.save_booking(b, NOW).unwrap();
    }
    engine
}

fn stored_session_active(engine: &BotState, user: i64) -> bool {
    engine.database().fetch_user_state(user).unwrap().unwrap().current_session.unwrap().is_active
}

#[test]
fn an_unpaid_reservation_is_gone_after_the_first_sweep_past_its_deadline() {
    let mut engine = engine_with(&[booking("B1", 7, "t1", None)]);
    let deadline = NOW + 5 * MINUTE;

    let early = sweep(&mut engine, deadline - 1);
    assert_eq!(early.purged, 0);
    assert!(engine.get_booking_by_id("B1").unwrap().is_some());

    let report = sweep(&mut engine, deadline);
    assert_eq!(report.purged, 1);
    assert_eq!(engine.get_booking_by_id("B1"), Ok(None));
    assert_eq!(engine.get_booking_by_payload("t1"), Ok(None));
    assert_eq!(engine.get_user_bookings(7, deadline), Ok(vec![]));
    assert_eq!(sweep(&mut engine, deadline + MINUTE).purged, 0);
}

#[test]
fn a_session_paid_ahead_becomes_active_with_the_sweep_after_its_start() {
    let start = NOW + 10 * MINUTE;
    let mut engine = engine_with(&[booking("B1", 7, "t1", Some(start))]);
    assert_eq!(process_payment(&mut engine, 7, "t1", NOW).outcome, PaymentOutcome::Activated);
    assert!(!stored_session_active(&engine, 7));

    let before = sweep(&mut engine, start - 1);
    assert_eq!(before.users, vec![SweptUser { chat_id: 7, change: UserSweep::Unchanged }]);
    assert!(!stored_session_active(&engine, 7));

    let at_start = sweep(&mut engine, start);
    assert_eq!(at_start.users, vec![SweptUser { chat_id: 7, change: UserSweep::Started }]);
    assert!(stored_session_active(&engine, 7));
    assert!(engine.get_user_state(7, start).current_session.unwrap().is_active);
    assert_eq!(engine.get_booking_by_id("B1").unwrap().unwrap().status(start), BookingStatus::Paid);

    let after = sweep(&mut engine, start + MINUTE);
    assert_eq!(after.users, vec![SweptUser { chat_id: 7, change: UserSweep::Unchanged }]);
    assert!(stored_session_active(&engine, 7));
}

#[test]
fn a_session_whose_paid_time_has_passed_is_ended_and_its_reservation_completed() {
    let mut engine = engine_with(&[booking("B1", 7, "t1", None)]);
    process_payment(&mut engine, 7, "t1", NOW);
    let end = NOW + 30 * MINUTE;

    assert_eq!(sweep(&mut engine, end).users, vec![SweptUser { chat_id: 7, change: UserSweep::Unchanged }]);
    assert!(stored_session_active(&engine, 7));
    assert!(!engine.get_booking_by_id("B1").unwrap().unwrap().is_completed);

    let report = sweep(&mut engine, end + 1);
    assert_eq!(report.users, vec![SweptUser { chat_id: 7, change: UserSweep::Ended }]);
    assert!(!stored_session_active(&engine, 7));
    assert!(!engine.get_user_state(7, end + 1).current_session.unwrap().is_active);
    let funding = engine.get_booking_by_id("B1").unwrap().unwrap();
    assert!(funding.is_completed);
    assert_eq!(funding.status(end + 1), BookingStatus::Completed);

    let again = sweep(&mut engine, end + 2);
    assert_eq!(again.users, vec![SweptUser { chat_id: 7, change: UserSweep::Unchanged }]);
    assert!(engine.get_booking_by_id("B1").unwrap().unwrap().is_completed);
}

#[test]
fn a_session_without_a_funding_reservation_is_ended_and_reported() {
    let mut engine = engine_with(&[booking("B1", 7, "t1", None)]);
    process_payment(&mut engine, 7, "t1", NOW);
    let state = engine.get_user_state(7, NOW);
    let mut unfunded = BotState::new(Database::new());
    unfunded.save_user_state(7, state, NOW).unwrap();
    let report = sweep(&mut unfunded, NOW + 31 * MINUTE);
    assert_eq!(report.users, vec![SweptUser { chat_id: 7, change: UserSweep::EndedUnfunded }]);
    assert!(!stored_session_active(&unfunded, 7));
}

#[test]
fn every_user_is_swept_in_the_order_of_the_table() {
    let start = NOW + 10 * MINUTE;
    let mut engine = engine_with(&[booking("A", 1, "ta", None), booking("B", 2, "tb", Some(start))]);
    process_payment(&mut engine, 1, "ta", NOW);
    process_payment(&mut engine, 2, "tb", NOW);
    engine.save_user_state(4, UserState::default(), NOW).unwrap();
    engine.save_booking(&booking("C", 3, "tc", None), NOW + 20 * MINUTE).unwrap();
    process_payment(&mut engine, 3, "tc", NOW + 25 * MINUTE);

    let report = sweep(&mut engine, NOW + 31 * MINUTE);
    assert_eq!(
        report.users,
        vec![
            SweptUser { chat_id: 1, change: UserSweep::Ended },
            SweptUser { chat_id: 2, change: UserSweep::Started },
            SweptUser { chat_id: 4, change: UserSweep::Unchanged },
            SweptUser { chat_id: 3, change: UserSweep::Unchanged },
        ]
    );
    assert!(engine.get_booking_by_id("A").unwrap().unwrap().is_completed);
    assert!(!engine.get_booking_by_id("B").unwrap().unwrap().is_completed);
    assert!(!engine.get_booking_by_id("C").unwrap().unwrap().is_completed);
    assert!(!stored_session_active(&engine, 1));
    assert!(stored_session_active(&engine, 2));
    assert!(stored_session_active(&engine, 3));
}

#[test]
fn a_sweep_of_an_unreachable_store_does_nothing() {
    let mut engine = engine_with(&[booking("B1", 7, "t1", None)]);
    process_payment(&mut engine, 7, "t1", NOW);
    engine.set_store_reachable(false);
    let report = sweep(&mut engine, NOW + 31 * MINUTE);
    assert_eq!(report.purged, 0);
    assert_eq!(report.users, vec![]);
    engine.set_store_reachable(true);
    assert!(stored_session_active(&engine, 7));
    assert!(!engine.get_booking_by_id("B1").unwrap().unwrap().is_completed);
}

#[test]
fn a_state_that_cannot_be_saved_keeps_its_session_but_the_reservation_is_completed() {
    let mut engine = engine_with(&[booking("B1", 7, "t1", None)]);
    process_payment(&mut engine, 7, "t1", NOW);
    let mut row = UserRow { chat_id: 7, state: engine.get_user_state(7, NOW) };
    row.state.conversation_history = vec![b' '; 6000];
    assert_eq!(sweep_user(&mut engine, &row, NOW + 31 * MINUTE), UserSweep::Ended);
    assert!(stored_session_active(&engine, 7));
    assert!(engine.get_booking_by_id("B1").unwrap().unwrap().is_completed);
}

#[test]
fn the_swept_state_enters_the_cache() {
    let mut engine = engine_with(&[booking("B1", 7, "t1", None)]);
    process_payment(&mut engine, 7, "t1", NOW);
    let late = NOW + 31 * MINUTE;
    sweep(&mut engine, late);
    engine.set_store_reachable(false);
    assert!(!engine.get_user_state(7, late + 1).current_session.unwrap().is_active);
}

#[test]
fn the_periodic_task_sweeps_at_the_time_of_the_clock() {
    let mut engine = engine_with(&[booking("old", 7, "t1", None), booking("paid", 8, "t2", None)]);
    process_payment(&mut engine, 8, "t2", NOW);
    let report = check_sessions_task(&mut engine);
    assert_eq!(report.purged, 1);
    assert_eq!(report.users, vec![SweptUser { chat_id: 8, change: UserSweep::Ended }]);
    assert_eq!(engine.get_booking_by_id("old"), Ok(None));
    assert!(engine.get_booking_by_id("paid").unwrap().unwrap().is_completed);
}

#[test]
fn the_periodic_task_evicts_what_is_stale_for_the_clock() {
    let mut engine = BotState::new(Database::new());
    engine.save_user_state(7, UserState::default(), NOW).unwrap();
    engine.save_user_state(8, UserState::default(), i64::MAX).unwrap();
    assert_eq!(engine.cached_entries(), 2);
    cleanup_cache_task(&mut engine);
    assert_eq!(engine.cached_entries(), 1);
}
