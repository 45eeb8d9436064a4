//! The one error type of this layer, and the turning of driver failures
//! into it.

use vstd::prelude::*;

verus! {

/// The request-level failures that a caller may be told about.
#[derive(Debug, Clone, PartialEq, Eq)]
pub enum HttpErrors {
    /// The session token is missing, malformed, forged or expired.
    Unauthorized,
    /// What was sent does not have the shape that was asked for.
    BadRequest,
}

/// Every failure of this layer. No driver error leaves it: each is turned
/// into one of these at the point of the call.
#[derive(Debug, Clone, PartialEq, Eq)]
pub enum Errors {
    /// The store, the driver or the connection failed; the text says how.
    InternalError(String),
    /// The request itself is at fault.
    HttpError(HttpErrors),
}

impl Errors {
    /// Whether this is the internal error that carries `detail`.
    pub open spec fn is_internal(self, detail: Seq<char>) -> bool {
        self matches Errors::InternalError(text) && text@ == detail
    }

    /// Whether this is the one outcome of a failed token check.
    pub open spec fn is_unauthorized(self) -> bool {
        self == Errors::HttpError(HttpErrors::Unauthorized)
    }

    /// Whether this reports a malformed input.
    pub open spec fn is_bad_request(self) -> bool {
        self == Errors::HttpError(HttpErrors::BadRequest)
    }

    /// The text that describes the failure.
    pub fn message(&self) -> (r: String)
        ensures
            r@ == self.message_text(),
    {
        match self {
            Errors::InternalError(text) => text.clone(),
            Errors::HttpError(HttpErrors::Unauthorized) => "Unauthorized".to_string(),
            Errors::HttpError(HttpErrors::BadRequest) => "Bad request".to_string(),
        }
    }

    /// What `message` returns.
    pub open spec fn message_text(self) -> Seq<char> {
        match self {
            Errors::InternalError(text) => text@,
            Errors::HttpError(HttpErrors::Unauthorized) => "Unauthorized"@,
            Errors::HttpError(HttpErrors::BadRequest) => "Bad request"@,
        }
    }
}

/// Turns what the driver reported into this layer's result: a success is
/// handed on unchanged, a failure becomes the internal error that carries
/// the driver's own words.
pub fn store_outcome<T>(outcome: Result<T, String>) -> (r: Result<T, Errors>)
    ensures
        outcome matches Ok(value) ==> r == Ok::<T, Errors>(value),
        outcome matches Err(cause) ==> r matches Err(e) && e.is_internal(cause@),
{
    match outcome {
        Ok(value) => Ok(value),
        Err(cause) => Err(Errors::InternalError(cause)),
    }
}

} // verus!
