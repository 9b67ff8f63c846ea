//! What can go wrong between building a request and reading the answer.

use crate::content_string::ContentStringError;
use vstd::prelude::*;
use vstd::std_specs::convert::FromSpecImpl;

verus! {

/// `reqwest::Error`, the failure of the transport. Nothing is read from it:
/// it is handed in by the caller and carried to the result.
#[verifier::external_type_specification]
#[verifier::external_body]
pub struct ExTransportError(reqwest::Error);

/// `serde_json::Error`, as `serde_json::to_string` may return it.
#[verifier::external_type_specification]
#[verifier::external_body]
pub struct ExJsonError(serde_json::Error);

/// Failure of a call to the service.
#[derive(Debug)]
pub enum ClientError {
    /// A text for a payload was refused.
    InvalidContentString(ContentStringError),
    /// The transport failed: no answer, or one that could not be read.
    Http(reqwest::Error),
    /// A payload could not be written as JSON.
    Json(serde_json::Error),
    /// The service answered with a status outside 200..=299; `body` is the
    /// text of its answer, unchanged.
    Api { status: u16, body: String },
}

impl From<ContentStringError> for ClientError {
    fn from(e: ContentStringError) -> (r: Self) {
        ClientError::InvalidContentString(e)
    }
}

impl FromSpecImpl<ContentStringError> for ClientError {
    open spec fn obeys_from_spec() -> bool {
        true
    }

    open spec fn from_spec(e: ContentStringError) -> Self {
        ClientError::InvalidContentString(e)
    }
}

impl From<reqwest::Error> for ClientError {
    fn from(e: reqwest::Error) -> (r: Self) {
        ClientError::Http(e)
    }
}

impl FromSpecImpl<reqwest::Error> for ClientError {
    open spec fn obeys_from_spec() -> bool {
        true
    }

    open spec fn from_spec(e: reqwest::Error) -> Self {
        ClientError::Http(e)
    }
}

impl From<serde_json::Error> for ClientError {
    fn from(e: serde_json::Error) -> (r: Self) {
        ClientError::Json(e)
    }
}

impl FromSpecImpl<serde_json::Error> for ClientError {
    open spec fn obeys_from_spec() -> bool {
        true
    }

    open spec fn from_spec(e: serde_json::Error) -> Self {
        ClientError::Json(e)
    }
}

} // verus!
