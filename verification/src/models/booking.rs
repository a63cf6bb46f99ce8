//! A reservation and the states it passes through.
//!
//! A reservation is created pending, with a deadline for its payment. It
//! becomes paid when its payment has been reconciled, and completed when the
//! session that it paid for has ended. One that is still unpaid at its
//! deadline has expired and is removed.

use vstd::prelude::*;
use crate::clock::after_minutes;
use crate::clock::MICROS_PER_MINUTE;

verus! {

/// The minutes that a reservation waits for its payment.
pub const PAYMENT_WINDOW_MINUTES: u32 = 5;

/// A reservation of a session with a persona. Prices are whole stars.
#[derive(Debug, PartialEq, Eq)]
pub struct Booking {
    pub id: String,
    pub user_id: i64,
    pub consultant_model: String,
    pub duration_minutes: u32,
    pub total_price: u64,
    pub invoice_payload: String,
    pub is_paid: bool,
    pub is_completed: bool,
    pub created_at: i64,
    pub payment_invoice_message_id: Option<i32>,
    pub scheduled_start: Option<i64>,
    pub expires_at: Option<i64>,
}

/// What a `Booking` holds.
pub struct BookingView {
    pub id: Seq<char>,
    pub user_id: i64,
    pub consultant_model: Seq<char>,
    pub duration_minutes: u32,
    pub total_price: u64,
    pub invoice_payload: Seq<char>,
    pub is_paid: bool,
    pub is_completed: bool,
    pub created_at: i64,
    pub payment_invoice_message_id: Option<i32>,
    pub scheduled_start: Option<i64>,
    pub expires_at: Option<i64>,
}

/// Where a reservation stands at some instant.
#[derive(Debug, Clone, Copy, PartialEq, Eq, Structural)]
pub enum BookingStatus {
    /// Unpaid, and the deadline for its payment lies ahead.
    Pending,
    /// Unpaid, and the deadline has passed.
    Expired,
    /// Paid; its session has not ended.
    Paid,
    /// Paid, and its session has ended.
    Completed,
}

/// What marking a reservation as paid did.
#[derive(Debug, Clone, Copy, PartialEq, Eq, Structural)]
pub enum PaymentMark {
    /// The reservation was unpaid and is now paid.
    Paid,
    /// The reservation was paid before; nothing changed.
    AlreadyPaid,
}

impl BookingView {
    /// The rules that every stored reservation keeps: a paid one has no
    /// deadline and an unpaid one has one, only a paid one is completed, and
    /// the end of a scheduled session is an instant.
    pub open spec fn well_formed(self) -> bool {
        &&& self.is_paid <==> self.expires_at is None
        &&& self.is_completed ==> self.is_paid
        &&& self.scheduled_start matches Some(start) ==> after_minutes(
            start as int,
            self.duration_minutes as int,
        ) <= i64::MAX
    }

    /// Whether the reservation is unpaid at `now` with its deadline reached.
    pub open spec fn expired_at(self, now: i64) -> bool {
        &&& !self.is_paid
        &&& self.expires_at matches Some(deadline)
        &&& deadline <= now
    }

    /// Where the reservation stands at `now`.
    pub open spec fn status_at(self, now: i64) -> BookingStatus {
        if self.is_paid {
            if self.is_completed {
                BookingStatus::Completed
            } else {
                BookingStatus::Paid
            }
        } else if self.expires_at matches Some(deadline) && deadline > now {
            BookingStatus::Pending
        } else {
            BookingStatus::Expired
        }
    }

    /// The reservation once its payment is recorded: paid, not completed,
    /// without a deadline.
    pub open spec fn paid(self) -> BookingView {
        BookingView { is_paid: true, is_completed: false, expires_at: None, ..self }
    }

    /// The reservation once its session has ended. Only a paid reservation
    /// is completed; an unpaid one stays as it is.
    pub open spec fn completed(self) -> BookingView {
        if self.is_paid {
            BookingView { is_completed: true, ..self }
        } else {
            self
        }
    }

    /// Whether the session that the reservation is for starts after `now`.
    pub open spec fn starts_after(self, now: i64) -> bool {
        self.scheduled_start matches Some(start) && start > now
    }

    /// Whether the user may still withdraw the reservation at `now`: while it
    /// is pending, or while it is paid and its session is scheduled for
    /// later and has not been completed.
    pub open spec fn cancellable_at(self, now: i64) -> bool {
        match self.status_at(now) {
            BookingStatus::Pending => true,
            BookingStatus::Paid => self.starts_after(now),
            _ => false,
        }
    }

    /// Whether two reservations claim the same slot: the same persona at the
    /// same scheduled start.
    pub open spec fn same_slot(self, other: BookingView) -> bool {
        &&& self.scheduled_start is Some
        &&& self.scheduled_start == other.scheduled_start
        &&& self.consultant_model == other.consultant_model
    }
}

/// A fresh reservation made at `now`: unpaid, not completed, without a
/// payment prompt, to be paid within the payment window.
pub open spec fn pending_booking(
    id: Seq<char>,
    user_id: i64,
    consultant_model: Seq<char>,
    duration_minutes: u32,
    total_price: u64,
    invoice_payload: Seq<char>,
    scheduled_start: Option<i64>,
    now: i64,
) -> BookingView {
    BookingView {
        id,
        user_id,
        consultant_model,
        duration_minutes,
        total_price,
        invoice_payload,
        is_paid: false,
        is_completed: false,
        created_at: now,
        payment_invoice_message_id: None,
        scheduled_start,
        expires_at: Some(after_minutes(now as int, PAYMENT_WINDOW_MINUTES as int) as i64),
    }
}

/// What an optional reservation holds.
pub open spec fn booking_of(booking: Option<Booking>) -> Option<BookingView> {
    match booking {
        Some(b) => Some(b@),
        None => None,
    }
}

impl View for Booking {
    type V = BookingView;

    open spec fn view(&self) -> BookingView {
        BookingView {
            id: self.id@,
            user_id: self.user_id,
            consultant_model: self.consultant_model@,
            duration_minutes: self.duration_minutes,
            total_price: self.total_price,
            invoice_payload: self.invoice_payload@,
            is_paid: self.is_paid,
            is_completed: self.is_completed,
            created_at: self.created_at,
            payment_invoice_message_id: self.payment_invoice_message_id,
            scheduled_start: self.scheduled_start,
            expires_at: self.expires_at,
        }
    }
}

impl DeepView for Booking {
    type V = BookingView;

    open spec fn deep_view(&self) -> BookingView {
        self@
    }
}

impl Clone for Booking {
    fn clone(&self) -> (copy: Self)
        ensures
            copy@ == self@,
    {
        Booking {
            id: self.id.clone(),
            user_id: self.user_id,
            consultant_model: self.consultant_model.clone(),
            duration_minutes: self.duration_minutes,
            total_price: self.total_price,
            invoice_payload: self.invoice_payload.clone(),
            is_paid: self.is_paid,
            is_completed: self.is_completed,
            created_at: self.created_at,
            payment_invoice_message_id: self.payment_invoice_message_id,
            scheduled_start: self.scheduled_start,
            expires_at: self.expires_at,
        }
    }
}

impl Booking {
    /// A fresh reservation made at `now`, to be paid within the payment
    /// window. The deadline must be an instant.
    pub fn pending(
        id: String,
        user_id: i64,
        consultant_model: String,
        duration_minutes: u32,
        total_price: u64,
        invoice_payload: String,
        scheduled_start: Option<i64>,
        now: i64,
    ) -> (booking: Self)
        requires
            after_minutes(now as int, PAYMENT_WINDOW_MINUTES as int) <= i64::MAX,
        ensures
            booking@ == pending_booking(
                id@,
                user_id,
                consultant_model@,
                duration_minutes,
                total_price,
                invoice_payload@,
                scheduled_start,
                now,
            ),
    {
        let deadline: i64 = now + (PAYMENT_WINDOW_MINUTES as i64) * MICROS_PER_MINUTE;
        Booking {
            id,
            user_id,
            consultant_model,
            duration_minutes,
            total_price,
            invoice_payload,
            is_paid: false,
            is_completed: false,
            created_at: now,
            payment_invoice_message_id: None,
            scheduled_start,
            expires_at: Some(deadline),
        }
    }

    /// Whether the reservation keeps the rules of a stored reservation.
    pub fn is_well_formed(&self) -> (ok: bool)
        ensures
            ok == self@.well_formed(),
    {
        let deadline_ok = self.is_paid == self.expires_at.is_none();
        let completed_ok = !self.is_completed || self.is_paid;
        let window_ok = match self.scheduled_start {
            Some(start) => {
                let span: i64 = (self.duration_minutes as i64) * MICROS_PER_MINUTE;
                start <= i64::MAX - span
            },
            None => true,
        };
        deadline_ok && completed_ok && window_ok
    }

    /// Whether the reservation is unpaid at `now` with its deadline reached.
    pub fn is_expired(&self, now: i64) -> (expired: bool)
        ensures
            expired == self@.expired_at(now),
    {
        match self.expires_at {
            Some(deadline) => !self.is_paid && deadline <= now,
            None => false,
        }
    }

    /// Where the reservation stands at `now`.
    pub fn status(&self, now: i64) -> (status: BookingStatus)
        ensures
            status == self@.status_at(now),
    {
        if self.is_paid {
            if self.is_completed {
                BookingStatus::Completed
            } else {
                BookingStatus::Paid
            }
        } else {
            match self.expires_at {
                Some(deadline) => if deadline > now {
                    BookingStatus::Pending
                } else {
                    BookingStatus::Expired
                },
                None => BookingStatus::Expired,
            }
        }
    }

    /// Records the payment. A reservation that is paid already stays as it
    /// is, and the result says so.
    pub fn mark_paid(&mut self) -> (mark: PaymentMark)
        ensures
            old(self)@.is_paid ==> mark == PaymentMark::AlreadyPaid && final(self)@ == old(self)@,
            !old(self)@.is_paid ==> mark == PaymentMark::Paid && final(self)@ == old(self)@.paid(),
    {
        if self.is_paid {
            PaymentMark::AlreadyPaid
        } else {
            self.is_paid = true;
            self.is_completed = false;
            self.expires_at = None;
            PaymentMark::Paid
        }
    }

    /// Records that the session has ended. Only a paid reservation changes.
    pub fn mark_completed(&mut self)
        ensures
            final(self)@ == old(self)@.completed(),
    {
        if self.is_paid {
            self.is_completed = true;
        }
    }

    /// Whether the session that the reservation is for starts after `now`.
    pub fn starts_after(&self, now: i64) -> (later: bool)
        ensures
            later == self@.starts_after(now),
    {
        match self.scheduled_start {
            Some(start) => start > now,
            None => false,
        }
    }

    /// Whether the user may still withdraw the reservation at `now`.
    pub fn can_cancel(&self, now: i64) -> (allowed: bool)
        ensures
            allowed == self@.cancellable_at(now),
    {
        match self.status(now) {
            BookingStatus::Pending => true,
            BookingStatus::Paid => self.starts_after(now),
            _ => false,
        }
    }

    /// Whether this reservation and `other` claim the same slot.
    pub fn same_slot(&self, other: &Booking) -> (same: bool)
        ensures
            same == self@.same_slot(other@),
    {
        match (self.scheduled_start, other.scheduled_start) {
            (Some(mine), Some(theirs)) => mine == theirs && self.consultant_model
                == other.consultant_model,
            _ => false,
        }
    }
}

} // verus!
