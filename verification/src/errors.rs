use vstd::prelude::*;

use vstd::seq_lib::*;

verus! {

/// An error reported by the trading API itself, carried as the
/// `errorMessage` field of a response payload.
#[derive(Debug)]
pub struct OandaError {
    error_message: String,
}

impl OandaError {
    /// The message the error was built from.
    pub closed spec fn spec_message(&self) -> Seq<char> {
        self.error_message@
    }

    pub fn new(message: &str) -> (r: OandaError)
        ensures
            r.spec_message() == message@,
    {
        OandaError { error_message: message.to_owned() }
    }

    /// A human-readable rendering of the error.
    pub fn to_string(&self) -> (r: String)
        ensures
            r@ == "OandaError: "@ + self.spec_message(),
    {
        let mut s = String::from_str("OandaError: ");
        s.append(self.error_message.as_str());
        s
    }
}

/// Relies on the `Display` impl of `reqwest::Error`: its rendering, used
/// only to describe a transport failure in text.
#[verifier::external_body]
fn reqwest_error_string(e: &reqwest::Error) -> String {
    format!("{}", e)
}

/// Relies on the `Display` impl of `serde_json::Error`: its rendering, used
/// only to describe a decode failure in text.
#[verifier::external_body]
fn serde_error_string(e: &serde_json::Error) -> String {
    format!("{}", e)
}

/// The endpoint-level error type: a transport failure, an error the API
/// reported, a decode failure, or any other failure described in text.
#[derive(Debug)]
pub enum Errors {
    ReqwestError(reqwest::Error),
    OandaError(OandaError),
    SerdeError(serde_json::Error),
    CustomError(String),
}

impl Errors {
    /// A human-readable rendering: a prefix naming the failure's layer,
    /// then its own message.
    pub fn to_string(&self) -> (r: String)
        ensures
            self matches Errors::OandaError(e) ==> r@ == "Oanda error: "@ + "OandaError: "@
                + e.spec_message(),
            self matches Errors::CustomError(m) ==> r@ == "Custom error: "@ + m@,
            self matches Errors::ReqwestError(_) ==> "Reqwest error: "@.is_prefix_of(r@),
            self matches Errors::SerdeError(_) ==> "Serde error: "@.is_prefix_of(r@),
    {
        match self {
            Errors::ReqwestError(e) => {
                let mut s = String::from_str("Reqwest error: ");
                let detail = reqwest_error_string(e);
                s.append(detail.as_str());
                s
            },
            Errors::OandaError(e) => {
                let mut s = String::from_str("Oanda error: ");
                let detail = e.to_string();
                s.append(detail.as_str());
                proof {
                    assert(s@ =~= "Oanda error: "@ + "OandaError: "@ + e.spec_message());
                }
                s
            },
            Errors::SerdeError(e) => {
                let mut s = String::from_str("Serde error: ");
                let detail = serde_error_string(e);
                s.append(detail.as_str());
                s
            },
            Errors::CustomError(m) => {
                let mut s = String::from_str("Custom error: ");
                s.append(m.as_str());
                s
            },
        }
    }
}

impl core::convert::From<OandaError> for Errors {
    fn from(error: OandaError) -> (r: Self) {
        Errors::OandaError(error)
    }
}

impl vstd::std_specs::convert::FromSpecImpl<OandaError> for Errors {
    open spec fn obeys_from_spec() -> bool {
        true
    }

    open spec fn from_spec(error: OandaError) -> Self {
        Errors::OandaError(error)
    }
}

impl core::convert::From<serde_json::Error> for Errors {
    fn from(error: serde_json::Error) -> (r: Self) {
        Errors::SerdeError(error)
    }
}

impl vstd::std_specs::convert::FromSpecImpl<serde_json::Error> for Errors {
    open spec fn obeys_from_spec() -> bool {
        true
    }

    open spec fn from_spec(error: serde_json::Error) -> Self {
        Errors::SerdeError(error)
    }
}

impl core::convert::From<reqwest::Error> for Errors {
    fn from(error: reqwest::Error) -> (r: Self) {
        Errors::ReqwestError(error)
    }
}

impl vstd::std_specs::convert::FromSpecImpl<reqwest::Error> for Errors {
    open spec fn obeys_from_spec() -> bool {
        true
    }

    open spec fn from_spec(error: reqwest::Error) -> Self {
        Errors::ReqwestError(error)
    }
}

} // verus!
