//! The library's error type.
use vstd::prelude::*;

use crate::text::owned;

verus! {

/// Errors that the library reports to its callers.
#[derive(Debug)]
pub enum AppError {
    /// Input rejected by a business rule; the message is meant for the user.
    Validation(String),
    /// The named entity does not exist.
    NotFound { entity: String, id: String },
    /// A status change that the document's state machine does not allow.
    InvalidTransition { from: String, to: String },
    /// A failure that is not the user's fault.
    Internal(String),
}

/// Result type used across the library.
pub type AppResult<T> = Result<T, AppError>;

/// `e` is a validation error with message `m`.
pub open spec fn is_validation(e: AppError, m: Seq<char>) -> bool {
    e matches AppError::Validation(x) && x@ == m
}

/// `e` reports that the `entity` with `id` does not exist.
pub open spec fn is_not_found(e: AppError, entity: Seq<char>, id: Seq<char>) -> bool {
    e matches AppError::NotFound { entity: en, id: i } && en@ == entity && i@ == id
}

/// `e` reports a refused transition between the two named statuses.
pub open spec fn is_invalid_transition(e: AppError, from: Seq<char>, to: Seq<char>) -> bool {
    e matches AppError::InvalidTransition { from: f, to: t } && f@ == from && t@ == to
}

/// A validation error with the given message.
pub fn validation(msg: &str) -> (e: AppError)
    ensures
        is_validation(e, msg@),
{
    AppError::Validation(owned(msg))
}

/// A validation error that owns its message.
pub fn validation_owned(msg: String) -> (e: AppError)
    ensures
        is_validation(e, msg@),
{
    AppError::Validation(msg)
}

/// The error for a missing `entity` with `id`.
pub fn not_found(entity: &str, id: &str) -> (e: AppError)
    ensures
        is_not_found(e, entity@, id@),
{
    AppError::NotFound { entity: owned(entity), id: owned(id) }
}

/// The internal error for a column whose value failed to serialise.
pub fn serialize_error(column: &str, e: String) -> (r: AppError)
    ensures
        r matches AppError::Internal(m) && m@ == "serialize "@ + column@ + ": "@ + e@,
{
    let mut m = String::from_str("serialize ");
    m.append(column);
    m.append(": ");
    m.append(e.as_str());
    AppError::Internal(m)
}

} // verus!
