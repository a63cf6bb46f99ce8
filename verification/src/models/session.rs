//! A paid session: the window of time in which a user may talk to a persona.
//!
//! A session is opened when a reservation is paid. It is active from its
//! start until the paid time has run out. A session that was paid ahead of
//! its scheduled start waits, inactive, for that start.

use vstd::prelude::*;
use crate::clock::after_minutes;
use crate::clock::MICROS_PER_MINUTE;
use crate::llm::config::ChatMessage;
use crate::llm::config::ChatMessageView;
use crate::llm::config::plain_message;
use crate::models::booking::Booking;
use crate::models::booking::BookingView;

verus! {

/// The session of one user with one persona.
#[derive(Debug, PartialEq, Eq)]
pub struct UserSession {
    pub chat_id: i64,
    pub consultant_model: String,
    pub session_start: i64,
    pub paid_until: i64,
    pub total_price: u64,
    pub messages_exchanged: u32,
    pub history: Vec<ChatMessage>,
    pub is_active: bool,
    pub scheduled_start: Option<i64>,
}

/// What a `UserSession` holds.
pub struct SessionView {
    pub chat_id: i64,
    pub consultant_model: Seq<char>,
    pub session_start: i64,
    pub paid_until: i64,
    pub total_price: u64,
    pub messages_exchanged: u32,
    pub history: Seq<ChatMessageView>,
    pub is_active: bool,
    pub scheduled_start: Option<i64>,
}

/// What the periodic sweep does to a session.
#[derive(Debug, Clone, Copy, PartialEq, Eq, Structural)]
pub enum SessionChange {
    /// The session stays as it is.
    Unchanged,
    /// The scheduled start has arrived: the session becomes active.
    Started,
    /// The paid time has run out: the session becomes inactive.
    Ended,
}

impl SessionView {
    /// Whether the user may talk at `now`: the session is active and paid
    /// time is left.
    pub open spec fn live_at(self, now: i64) -> bool {
        self.is_active && now < self.paid_until
    }

    /// Whether the session waits for a scheduled start that has arrived at
    /// `now`, with paid time left.
    pub open spec fn due_at(self, now: i64) -> bool {
        &&& !self.is_active
        &&& self.scheduled_start matches Some(start)
        &&& start <= now
        &&& now < self.paid_until
    }

    /// Whether the session is active at `now` though its paid time is over.
    pub open spec fn lapsed_at(self, now: i64) -> bool {
        self.is_active && now > self.paid_until
    }

    /// What a sweep at `now` does to the session.
    pub open spec fn change_at(self, now: i64) -> SessionChange {
        if self.due_at(now) {
            SessionChange::Started
        } else if self.lapsed_at(now) {
            SessionChange::Ended
        } else {
            SessionChange::Unchanged
        }
    }

    /// The session after a sweep at `now`.
    pub open spec fn swept_at(self, now: i64) -> SessionView {
        match self.change_at(now) {
            SessionChange::Started => SessionView { is_active: true, ..self },
            SessionChange::Ended => SessionView { is_active: false, ..self },
            SessionChange::Unchanged => self,
        }
    }

    /// Whether the session is the one that the payment of `booking` has
    /// opened ahead of its start, still waiting for that start.
    pub open spec fn awaits(self, booking: BookingView) -> bool {
        &&& !self.is_active
        &&& self.scheduled_start is Some
        &&& self.scheduled_start == booking.scheduled_start
        &&& self.consultant_model == booking.consultant_model
    }

    /// The session with one more message at the end of its history.
    pub open spec fn with_message(self, message: ChatMessageView) -> SessionView {
        SessionView { history: self.history.push(message), ..self }
    }

    /// The session once the user's `text` has been taken in: an empty
    /// history first receives the persona's instructions.
    pub open spec fn with_question(self, instructions: Seq<char>, text: Seq<char>) -> SessionView {
        let opened = if self.history.len() == 0 {
            self.with_message(plain_message("system"@, instructions))
        } else {
            self
        };
        opened.with_message(plain_message("user"@, text))
    }

    /// The session once the persona's `reply` has been taken in at `now`:
    /// the reply ends the history, one more exchange is counted, and a
    /// session whose paid time is over becomes inactive.
    pub open spec fn with_reply(self, reply: Seq<char>, now: i64) -> SessionView {
        SessionView {
            history: self.history.push(plain_message("assistant"@, reply)),
            messages_exchanged: (self.messages_exchanged + 1) as u32,
            is_active: self.is_active && !(now > self.paid_until),
            ..self
        }
    }
}

/// Whether the session that a payment at `now` opens for `booking` has an
/// end that is an instant.
pub open spec fn window_fits(booking: BookingView, now: i64) -> bool {
    if booking.starts_after(now) {
        after_minutes(booking.scheduled_start->0 as int, booking.duration_minutes as int)
            <= i64::MAX
    } else {
        after_minutes(now as int, booking.duration_minutes as int) <= i64::MAX
    }
}

/// The session that a payment at `now` opens for `booking`. Where the
/// reservation is for a later start the session waits for it, inactive;
/// otherwise it is active at once.
pub open spec fn opened_session(booking: BookingView, chat_id: i64, now: i64) -> SessionView {
    if booking.starts_after(now) {
        let start = booking.scheduled_start->0;
        SessionView {
            chat_id,
            consultant_model: booking.consultant_model,
            session_start: start,
            paid_until: after_minutes(start as int, booking.duration_minutes as int) as i64,
            total_price: booking.total_price,
            messages_exchanged: 0,
            history: Seq::empty(),
            is_active: false,
            scheduled_start: Some(start),
        }
    } else {
        SessionView {
            chat_id,
            consultant_model: booking.consultant_model,
            session_start: now,
            paid_until: after_minutes(now as int, booking.duration_minutes as int) as i64,
            total_price: booking.total_price,
            messages_exchanged: 0,
            history: Seq::empty(),
            is_active: true,
            scheduled_start: None,
        }
    }
}

/// A session that is paid ahead of its scheduled start is inactive when it
/// is opened. A sweep makes it active at the first instant at which the
/// start has arrived and paid time is left, and at no instant before.
pub proof fn lemma_scheduled_session(booking: BookingView, chat_id: i64, paid_at: i64, swept_at: i64)
    requires
        booking.starts_after(paid_at),
        window_fits(booking, paid_at),
    ensures
        ({
            let session = opened_session(booking, chat_id, paid_at);
            let start = booking.scheduled_start->0;
            &&& !session.is_active
            &&& !session.live_at(swept_at)
            &&& session.scheduled_start == Some(start)
            &&& session.paid_until == after_minutes(start as int, booking.duration_minutes as int)
            &&& session.swept_at(swept_at).is_active <==> start <= swept_at < session.paid_until
            &&& session.swept_at(swept_at).is_active ==> session.change_at(swept_at)
                == SessionChange::Started
        }),
{
}

/// A sweep leaves no session active past its paid time: a session that is
/// active after a sweep at `now` has paid time up to `now`, and one whose
/// paid time is over is neither active afterwards nor open for talk.
pub proof fn lemma_swept_session(session: SessionView, now: i64)
    ensures
        session.swept_at(now).is_active ==> now <= session.paid_until,
        now > session.paid_until ==> !session.swept_at(now).is_active && !session.live_at(now),
        session.swept_at(now).swept_at(now) == session.swept_at(now),
{
}

impl View for UserSession {
    type V = SessionView;

    open spec fn view(&self) -> SessionView {
        SessionView {
            chat_id: self.chat_id,
            consultant_model: self.consultant_model@,
            session_start: self.session_start,
            paid_until: self.paid_until,
            total_price: self.total_price,
            messages_exchanged: self.messages_exchanged,
            history: self.history.deep_view(),
            is_active: self.is_active,
            scheduled_start: self.scheduled_start,
        }
    }
}

impl DeepView for UserSession {
    type V = SessionView;

    open spec fn deep_view(&self) -> SessionView {
        self@
    }
}

impl Clone for UserSession {
    fn clone(&self) -> (copy: Self)
        ensures
            copy@ == self@,
    {
        let history = self.history.clone();
        assert(history.deep_view() =~= self.history.deep_view());
        UserSession {
            chat_id: self.chat_id,
            consultant_model: self.consultant_model.clone(),
            session_start: self.session_start,
            paid_until: self.paid_until,
            total_price: self.total_price,
            messages_exchanged: self.messages_exchanged,
            history,
            is_active: self.is_active,
            scheduled_start: self.scheduled_start,
        }
    }
}

impl UserSession {
    /// Opens the session that a payment at `now` has bought with `booking`.
    pub fn open(booking: &Booking, chat_id: i64, now: i64) -> (session: Self)
        requires
            window_fits(booking@, now),
        ensures
            session@ == opened_session(booking@, chat_id, now),
    {
        let span: i64 = (booking.duration_minutes as i64) * MICROS_PER_MINUTE;
        let history: Vec<ChatMessage> = Vec::new();
        assert(history.deep_view() =~= Seq::<ChatMessageView>::empty());
        if booking.starts_after(now) {
            let start: i64 = match booking.scheduled_start {
                Some(start) => start,
                None => now,
            };
            UserSession {
                chat_id,
                consultant_model: booking.consultant_model.clone(),
                session_start: start,
                paid_until: start + span,
                total_price: booking.total_price,
                messages_exchanged: 0,
                history,
                is_active: false,
                scheduled_start: Some(start),
            }
        } else {
            UserSession {
                chat_id,
                consultant_model: booking.consultant_model.clone(),
                session_start: now,
                paid_until: now + span,
                total_price: booking.total_price,
                messages_exchanged: 0,
                history,
                is_active: true,
                scheduled_start: None,
            }
        }
    }

    /// Whether the session is the one that the payment of `booking` has
    /// opened ahead of its start, still waiting for that start.
    pub fn awaits(&self, booking: &Booking) -> (waiting: bool)
        ensures
            waiting == self@.awaits(booking@),
    {
        match (self.scheduled_start, booking.scheduled_start) {
            (Some(mine), Some(theirs)) => !self.is_active && mine == theirs
                && self.consultant_model == booking.consultant_model,
            _ => false,
        }
    }

    /// Whether the user may talk at `now`.
    pub fn is_live(&self, now: i64) -> (live: bool)
        ensures
            live == self@.live_at(now),
    {
        self.is_active && now < self.paid_until
    }

    /// What a sweep at `now` has to do to the session.
    pub fn change_due(&self, now: i64) -> (change: SessionChange)
        ensures
            change == self@.change_at(now),
    {
        let due = match self.scheduled_start {
            Some(start) => !self.is_active && start <= now && now < self.paid_until,
            None => false,
        };
        if due {
            SessionChange::Started
        } else if self.is_active && now > self.paid_until {
            SessionChange::Ended
        } else {
            SessionChange::Unchanged
        }
    }

    /// Sweeps the session at `now` and says what changed.
    pub fn sweep(&mut self, now: i64) -> (change: SessionChange)
        ensures
            change == old(self)@.change_at(now),
            final(self)@ == old(self)@.swept_at(now),
    {
        let change = self.change_due(now);
        match change {
            SessionChange::Started => {
                self.is_active = true;
            },
            SessionChange::Ended => {
                self.is_active = false;
            },
            SessionChange::Unchanged => {},
        }
        change
    }

    /// Takes in what the user wrote and hands out the history to put before
    /// the persona. An empty history first receives `instructions`.
    pub fn take_question(&mut self, instructions: String, text: String) -> (asked: Vec<ChatMessage>)
        ensures
            final(self)@ == old(self)@.with_question(instructions@, text@),
            asked.deep_view() == final(self)@.history,
    {
        if self.history.len() == 0 {
            let system = ChatMessage::plain("system", instructions);
            self.history.push(system);
            assert(self.history.deep_view() =~= old(self).history.deep_view().push(
                plain_message("system"@, instructions@),
            ));
        }
        let before = Ghost(self.history.deep_view());
        let question = ChatMessage::plain("user", text);
        self.history.push(question);
        assert(self.history.deep_view() =~= before@.push(plain_message("user"@, text@)));
        let asked = self.history.clone();
        assert(asked.deep_view() =~= self.history.deep_view());
        asked
    }

    /// Takes in the persona's reply at `now`. The result says whether the
    /// paid time was found to be over.
    pub fn take_reply(&mut self, reply: String, now: i64) -> (time_is_up: bool)
        requires
            old(self).messages_exchanged < u32::MAX,
        ensures
            final(self)@ == old(self)@.with_reply(reply@, now),
            time_is_up == (now > old(self).paid_until),
    {
        let answer = ChatMessage::plain("assistant", reply);
        self.history.push(answer);
        assert(self.history.deep_view() =~= old(self).history.deep_view().push(
            plain_message("assistant"@, reply@),
        ));
        self.messages_exchanged = self.messages_exchanged + 1;
        let time_is_up = now > self.paid_until;
        if time_is_up {
            self.is_active = false;
        }
        time_is_up
    }
}

} // verus!
