//! Typed error set of the authenticated resource request protocol. Every
//! failure is surfaced to the immediate caller as one of these variants;
//! none is swallowed, downgraded, or retried.

use vstd::prelude::*;

verus! {

/// Errors surfaced by the client core.
#[derive(Debug, Clone, PartialEq, Eq)]
pub enum ImdbApiError {
    /// The underlying HTTP call itself could not complete (DNS, TLS,
    /// connection failure); carries the transport diagnostic.
    TransportError(String),
    /// Credential bootstrap failed, returned a malformed or incomplete
    /// credential envelope, or the fetched secret could not initialize the
    /// signing primitive.
    AuthenticationError,
    /// The resource URL could not be parsed prior to signing; carries the
    /// parse diagnostic. A caller or configuration defect, not a transient
    /// condition.
    SigningError(String),
    /// The signed resource request reached the service but received a
    /// non-success HTTP status; carries the numeric status.
    ApiError(u16),
    /// The response body could not be parsed as the expected JSON structure.
    DecodeError(String),
}

} // verus!
