//! What can go wrong in the engine.

use vstd::prelude::*;
use crate::text::decimal_text;
use crate::text::push_decimal;
use crate::text::push_text;

verus! {

/// A failure of the engine.
#[derive(Debug, PartialEq, Eq)]
pub enum BotStateError {
    /// The store could not carry out an operation.
    DatabaseError(String),
    /// A stored record could not be read or written as JSON.
    SerializationError(String),
    /// A record is larger than its cap; the size in bytes.
    DataTooLarge(usize),
    /// Another paid reservation holds the slot.
    SlotTaken,
    /// No reservation or session was found.
    NotFound,
    /// The reservation can no longer be withdrawn.
    CannotCancel,
}

/// What a `BotStateError` holds.
pub enum BotStateErrorView {
    DatabaseError(Seq<char>),
    SerializationError(Seq<char>),
    DataTooLarge(usize),
    SlotTaken,
    NotFound,
    CannotCancel,
}

impl View for BotStateError {
    type V = BotStateErrorView;

    open spec fn view(&self) -> BotStateErrorView {
        match self {
            BotStateError::DatabaseError(reason) => BotStateErrorView::DatabaseError(reason@),
            BotStateError::SerializationError(reason) => BotStateErrorView::SerializationError(
                reason@,
            ),
            BotStateError::DataTooLarge(size) => BotStateErrorView::DataTooLarge(*size),
            BotStateError::SlotTaken => BotStateErrorView::SlotTaken,
            BotStateError::NotFound => BotStateErrorView::NotFound,
            BotStateError::CannotCancel => BotStateErrorView::CannotCancel,
        }
    }
}

/// The failure of a result, if it is one.
pub open spec fn failure<T>(result: Result<T, BotStateError>) -> Option<BotStateErrorView> {
    match result {
        Ok(_) => None,
        Err(error) => Some(error@),
    }
}

impl BotStateErrorView {
    /// The failure in words.
    pub open spec fn message(self) -> Seq<char> {
        match self {
            BotStateErrorView::DatabaseError(reason) => "Database error: "@ + reason,
            BotStateErrorView::SerializationError(reason) => "Serialization error: "@ + reason,
            BotStateErrorView::DataTooLarge(size) => "Data too large: "@ + decimal_text(
                size as nat,
            ) + " bytes"@,
            BotStateErrorView::SlotTaken => "Slot taken"@,
            BotStateErrorView::NotFound => "Not found"@,
            BotStateErrorView::CannotCancel => "Cannot cancel"@,
        }
    }
}

impl Clone for BotStateError {
    fn clone(&self) -> (copy: Self)
        ensures
            copy@ == self@,
    {
        match self {
            BotStateError::DatabaseError(reason) => BotStateError::DatabaseError(reason.clone()),
            BotStateError::SerializationError(reason) => BotStateError::SerializationError(
                reason.clone(),
            ),
            BotStateError::DataTooLarge(size) => BotStateError::DataTooLarge(*size),
            BotStateError::SlotTaken => BotStateError::SlotTaken,
            BotStateError::NotFound => BotStateError::NotFound,
            BotStateError::CannotCancel => BotStateError::CannotCancel,
        }
    }
}

impl BotStateError {
    /// The failure in words.
    pub fn message(&self) -> (words: String)
        ensures
            words@ == self@.message(),
    {
        let mut words = String::new();
        match self {
            BotStateError::DatabaseError(reason) => {
                push_text(&mut words, "Database error: ");
                push_text(&mut words, reason.as_str());
            },
            BotStateError::SerializationError(reason) => {
                push_text(&mut words, "Serialization error: ");
                push_text(&mut words, reason.as_str());
            },
            BotStateError::DataTooLarge(size) => {
                push_text(&mut words, "Data too large: ");
                push_decimal(&mut words, *size as u64);
                push_text(&mut words, " bytes");
            },
            BotStateError::SlotTaken => {
                push_text(&mut words, "Slot taken");
            },
            BotStateError::NotFound => {
                push_text(&mut words, "Not found");
            },
            BotStateError::CannotCancel => {
                push_text(&mut words, "Cannot cancel");
            },
        }
        assert(words@ =~= self@.message());
        words
    }
}

} // verus!
