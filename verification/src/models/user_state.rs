//! What the engine keeps for one user.
//!
//! Besides the chosen persona and the session, a user's state carries two
//! records of chat settings. The engine does not look into them: each is
//! held as the bytes of its JSON text, and only its size is checked.

use vstd::prelude::*;
use crate::models::session::SessionView;
use crate::models::session::UserSession;

verus! {

/// The state of one user. At most one session belongs to a user at a time.
#[derive(Debug, PartialEq, Eq)]
pub struct UserState {
    pub current_model: String,
    pub current_session: Option<UserSession>,
    pub conversation_history: Vec<u8>,
    pub user_temperatures: Vec<u8>,
    pub scheduled_time: Option<i64>,
}

/// What a `UserState` holds.
pub struct UserStateView {
    pub current_model: Seq<char>,
    pub current_session: Option<SessionView>,
    pub conversation_history: Seq<u8>,
    pub user_temperatures: Seq<u8>,
    pub scheduled_time: Option<i64>,
}

/// What an optional session holds.
pub open spec fn session_of(session: Option<UserSession>) -> Option<SessionView> {
    match session {
        Some(s) => Some(s@),
        None => None,
    }
}

/// What an optional state holds.
pub open spec fn state_of(state: Option<UserState>) -> Option<UserStateView> {
    match state {
        Some(s) => Some(s@),
        None => None,
    }
}

/// The JSON text of a record without entries: `{}`.
pub open spec fn empty_record() -> Seq<u8> {
    seq![0x7bu8, 0x7du8]
}

impl UserStateView {
    /// The state of a user of whom nothing is known yet: no persona, no
    /// session, no settings.
    pub open spec fn empty() -> UserStateView {
        UserStateView {
            current_model: Seq::empty(),
            current_session: None,
            conversation_history: empty_record(),
            user_temperatures: empty_record(),
            scheduled_time: None,
        }
    }

    /// The state with `session` in the place of its session.
    pub open spec fn with_session(self, session: Option<SessionView>) -> UserStateView {
        UserStateView { current_session: session, ..self }
    }

    /// The state as it is read back from the store: the scheduled time is
    /// not stored.
    pub open spec fn stored(self) -> UserStateView {
        UserStateView { scheduled_time: None, ..self }
    }
}

impl View for UserState {
    type V = UserStateView;

    open spec fn view(&self) -> UserStateView {
        UserStateView {
            current_model: self.current_model@,
            current_session: session_of(self.current_session),
            conversation_history: self.conversation_history@,
            user_temperatures: self.user_temperatures@,
            scheduled_time: self.scheduled_time,
        }
    }
}

impl DeepView for UserState {
    type V = UserStateView;

    open spec fn deep_view(&self) -> UserStateView {
        self@
    }
}

impl Clone for UserState {
    fn clone(&self) -> (copy: Self)
        ensures
            copy@ == self@,
    {
        let current_session = match &self.current_session {
            Some(session) => Some(session.clone()),
            None => None,
        };
        UserState {
            current_model: self.current_model.clone(),
            current_session,
            conversation_history: self.conversation_history.clone(),
            user_temperatures: self.user_temperatures.clone(),
            scheduled_time: self.scheduled_time,
        }
    }
}

impl Default for UserState {
    fn default() -> (state: Self)
        ensures
            state@ == UserStateView::empty(),
    {
        let mut history: Vec<u8> = Vec::new();
        history.push(0x7bu8);
        history.push(0x7du8);
        let mut temperatures: Vec<u8> = Vec::new();
        temperatures.push(0x7bu8);
        temperatures.push(0x7du8);
        assert(history@ =~= empty_record());
        assert(temperatures@ =~= empty_record());
        UserState {
            current_model: String::new(),
            current_session: None,
            conversation_history: history,
            user_temperatures: temperatures,
            scheduled_time: None,
        }
    }
}

} // verus!
