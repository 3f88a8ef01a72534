//! The outcome taxonomy of a verification call.

use vstd::prelude::*;

verus! {

/// Why a verification call did not return a valid subscription.
///
/// Every failure is returned to the caller; nothing is swallowed and
/// nothing panics.
#[derive(Debug, PartialEq, Eq)]
pub enum Error {
    /// Network or connection failure, with the transport's description.
    TransportError(String),
    /// The response body is not valid JSON.
    ParseError,
    /// The response JSON lacks the top-level `message` field — a defect in
    /// the remote contract, surfaced explicitly rather than crashing.
    MissingField,
    /// A well-formed 200 response whose message is not for the requested
    /// product. Carries a fixed client-side explanation, not server text.
    InvalidForProduct(String),
    /// A non-200 response, with the normalized server message.
    ApiError(String),
}

} // verus!
