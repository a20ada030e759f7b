use vstd::prelude::*;

verus! {

/// `reqwest::Error`, declared so that the library's error type can carry the
/// HTTP crate's failures through to callers unchanged.
#[verifier::external_type_specification]
#[verifier::external_body]
pub struct ExReqwestError(reqwest::Error);

/// `serde_json::Error`, declared so that payload decode failures can be
/// carried through to callers unchanged.
#[verifier::external_type_specification]
#[verifier::external_body]
pub struct ExSerdeJsonError(serde_json::Error);

/// The client-level error: a transport failure, a decode failure, or any
/// other failure described in text.
#[derive(Debug)]
pub enum APIError {
    /// A failure reported by the HTTP transport.
    HTTP(reqwest::Error),
    /// A failure to decode a response payload.
    Serde(serde_json::Error),
    /// Any other failure, described in text.
    Other(String),
}

impl core::convert::From<reqwest::Error> for APIError {
    fn from(e: reqwest::Error) -> (r: Self) {
        APIError::HTTP(e)
    }
}

impl vstd::std_specs::convert::FromSpecImpl<reqwest::Error> for APIError {
    open spec fn obeys_from_spec() -> bool {
        true
    }

    open spec fn from_spec(e: reqwest::Error) -> Self {
        APIError::HTTP(e)
    }
}

impl core::convert::From<serde_json::Error> for APIError {
    fn from(e: serde_json::Error) -> (r: Self) {
        APIError::Serde(e)
    }
}

impl vstd::std_specs::convert::FromSpecImpl<serde_json::Error> for APIError {
    open spec fn obeys_from_spec() -> bool {
        true
    }

    open spec fn from_spec(e: serde_json::Error) -> Self {
        APIError::Serde(e)
    }
}

} // verus!
