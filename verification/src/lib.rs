//! The session and booking lifecycle engine of a paid chat service.
//!
//! A user reserves a timed session with a persona, pays for it, and may then
//! talk to the persona until the paid time has run out. This crate holds the
//! rules of that lifecycle, each with a machine-checked contract:
//!
//! - `models`: the records, and what a reservation and a session go through;
//! - `database`: the store, with the table of user states and the table of
//!   reservations;
//! - `cache`: the cache of user states, whose entries answer for five
//!   minutes;
//! - `bot_state`: the access to user states and reservations, the store
//!   behind the cache;
//! - `handlers`: the reconciliation of payments, the periodic sweep, and
//!   what is done with the texts, picks and commands of a user;
//! - `llm`: the messages of the language-model service;
//! - `clock`, `text`, `error`: instants, texts and failures.
//!
//! Instants are microseconds since the Unix epoch, and prices are whole
//! stars. The contracts speak of what the records hold: their views.

pub mod bot_state;
pub mod cache;
pub mod clock;
pub mod database;
pub mod error;
pub mod handlers;
pub mod llm;
pub mod models;
pub mod text;
