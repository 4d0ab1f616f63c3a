use vstd::prelude::*;

verus! {

/// The errors that the service answers a request with.
#[derive(Debug)]
pub enum AppError {
    /// A record that the request names does not exist (for its business).
    NotFound(String),
    /// An invoice cannot move from state `from` to state `to`.
    InvalidTransition { from: String, to: String },
    /// The request itself is malformed.
    ValidationError(String),
    /// The request carries no valid API key.
    Unauthorized,
    /// A failure inside the service.
    Internal(String),
}

} // verus!
