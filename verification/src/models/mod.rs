//! The records that the engine keeps.

pub mod booking;
pub mod session;
pub mod user_state;
pub mod time_slot;
pub mod ai_assistants;
