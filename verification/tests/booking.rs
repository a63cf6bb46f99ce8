use listener_bot::models::booking::Booking;
use listener_bot::models::booking::BookingStatus;
use listener_bot::models::booking::PaymentMark;
use listener_bot::models::booking::PAYMENT_WINDOW_MINUTES;

const NOW: i64 = 1_700_000_000_000_000;
const MINUTE: i64 = 60_000_000;

fn pending(scheduled_start: Option<i64>) -> Booking {
    Booking::pending(
        "b1".to_string(),
        7,
        "GigaChat-2-Max".to_string(),
        30,
        300,
        "t1".to_string(),
        scheduled_start,
        NOW,
    )
}

#[test]
fn a_new_reservation_is_pending_for_five_minutes() {
    let booking = pending(None);
    assert_eq!(PAYMENT_WINDOW_MINUTES, 5);
    assert_eq!(booking.id, "b1");
    assert_eq!(booking.user_id, 7);
    assert_eq!(booking.consultant_model, "GigaChat-2-Max");
    assert_eq!(booking.duration_minutes, 30);
    assert_eq!(booking.total_price, 300);
    assert_eq!(booking.invoice_payload, "t1");
    assert!(!booking.is_paid);
    assert!(!booking.is_completed);
    assert_eq!(booking.created_at, NOW);
    assert_eq!(booking.payment_invoice_message_id, None);
    assert_eq!(booking.scheduled_start, None);
    assert_eq!(booking.expires_at, Some(NOW + 5 * MINUTE));
    assert!(booking.is_well_formed());
}

#[test]
fn a_reservation_expires_at_its_deadline() {
    let booking = pending(None);
    let deadline = NOW + 5 * MINUTE;
    assert_eq!(booking.status(NOW), BookingStatus::Pending);
    assert_eq!(booking.status(deadline - 1), BookingStatus::Pending);
    assert_eq!(booking.status(deadline), BookingStatus::Expired);
    assert_eq!(booking.status(deadline + 1), BookingStatus::Expired);
    assert!(!booking.is_expired(deadline - 1));
    assert!(booking.is_expired(deadline));
    assert!(booking.is_expired(i64::MAX));
}

#[test]
fn marking_paid_twice_changes_the_reservation_once() {
    let mut booking = pending(None);
    assert_eq!(booking.mark_paid(), PaymentMark::Paid);
    assert!(booking.is_paid);
    assert!(!booking.is_completed);
    assert_eq!(booking.expires_at, None);
    let after_first = booking.clone();
    assert_eq!(booking.mark_paid(), PaymentMark::AlreadyPaid);
    assert_eq!(booking, after_first);
    assert!(booking.is_well_formed());
}

#[test]
fn a_paid_reservation_never_expires() {
    let mut booking = pending(None);
    booking.mark_paid();
    assert_eq!(booking.status(NOW), BookingStatus::Paid);
    assert_eq!(booking.status(i64::MAX), BookingStatus::Paid);
    assert!(!booking.is_expired(i64::MAX));
}

#[test]
fn only_a_paid_reservation_is_completed() {
    let mut unpaid = pending(None);
    unpaid.mark_completed();
    assert!(!unpaid.is_completed);
    assert_eq!(unpaid.status(NOW), BookingStatus::Pending);

    let mut paid = pending(None);
    paid.mark_paid();
    paid.mark_completed();
    assert!(paid.is_completed);
    assert_eq!(paid.status(NOW), BookingStatus::Completed);
    let once = paid.clone();
    paid.mark_completed();
    assert_eq!(paid, once);
}

#[test]
fn a_pending_reservation_can_be_withdrawn_until_it_expires() {
    let booking = pending(None);
    assert!(booking.can_cancel(NOW));
    assert!(booking.can_cancel(NOW + 5 * MINUTE - 1));
    assert!(!booking.can_cancel(NOW + 5 * MINUTE));
}

#[test]
fn a_paid_reservation_can_be_withdrawn_only_before_its_scheduled_start() {
    let start = NOW + 60 * MINUTE;
    let mut scheduled = pending(Some(start));
    scheduled.mark_paid();
    assert!(scheduled.starts_after(NOW));
    assert!(scheduled.can_cancel(NOW));
    assert!(scheduled.can_cancel(start - 1));
    assert!(!scheduled.can_cancel(start));
    assert!(!scheduled.starts_after(start));

    let mut immediate = pending(None);
    immediate.mark_paid();
    assert!(!immediate.can_cancel(NOW));

    scheduled.mark_completed();
    assert!(!scheduled.can_cancel(NOW));
}

#[test]
fn reservations_claim_the_same_slot_by_persona_and_start() {
    let start = NOW + 60 * MINUTE;
    let a = pending(Some(start));
    let mut b = pending(Some(start));
    b.id = "b2".to_string();
    assert!(a.same_slot(&b));
    b.consultant_model = "deepseek-chat".to_string();
    assert!(!a.same_slot(&b));
    b.consultant_model = a.consultant_model.clone();
    b.scheduled_start = Some(start + 1);
    assert!(!a.same_slot(&b));
    let unscheduled = pending(None);
    assert!(!unscheduled.same_slot(&pending(None)));
    assert!(!a.same_slot(&unscheduled));
}

#[test]
fn a_reservation_that_breaks_the_rules_is_told_apart() {
    let mut paid_with_deadline = pending(None);
    paid_with_deadline.is_paid = true;
    assert!(!paid_with_deadline.is_well_formed());

    let mut unpaid_without_deadline = pending(None);
    unpaid_without_deadline.expires_at = None;
    assert!(!unpaid_without_deadline.is_well_formed());
    assert_eq!(unpaid_without_deadline.status(NOW), BookingStatus::Expired);

    let mut completed_unpaid = pending(None);
    completed_unpaid.is_completed = true;
    assert!(!completed_unpaid.is_well_formed());

    let mut endless = pending(Some(i64::MAX));
    endless.duration_minutes = 1;
    assert!(!endless.is_well_formed());
    endless.duration_minutes = 0;
    assert!(endless.is_well_formed());
}
