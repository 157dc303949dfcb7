//! The unified error type of the token-acquisition flow.

use vstd::prelude::*;
use vstd::string::StringExecFns;

verus! {

/// Every failure of the flow falls in one of these buckets: a transport-level
/// failure, a response body that does not have the expected shape, an error
/// the provider itself reported, a general failure with a message, or an
/// unknown one.
#[derive(Debug)]
pub enum OktaClientError {
    Unknown,
    General(String),
    Network(String),
    OktaAPI(String),
    Parser(String),
}

impl OktaClientError {
    /// A human-readable description of the error, with the bucket named first.
    pub fn message(&self) -> (r: String)
        ensures
            match self {
                OktaClientError::Unknown => r@ == "Unknown Error"@,
                OktaClientError::General(m) => r@ == "General Error: "@ + m@,
                OktaClientError::Network(m) => r@ == "Network Error: "@ + m@,
                OktaClientError::OktaAPI(m) => r@ == "OKTA API Error: "@ + m@,
                OktaClientError::Parser(m) => r@ == "Parser Error: "@ + m@,
            },
    {
        match self {
            OktaClientError::Unknown => "Unknown Error".to_owned(),
            OktaClientError::General(m) => {
                let mut r = "General Error: ".to_owned();
                r.append(m.as_str());
                r
            },
            OktaClientError::Network(m) => {
                let mut r = "Network Error: ".to_owned();
                r.append(m.as_str());
                r
            },
            OktaClientError::OktaAPI(m) => {
                let mut r = "OKTA API Error: ".to_owned();
                r.append(m.as_str());
                r
            },
            OktaClientError::Parser(m) => {
                let mut r = "Parser Error: ".to_owned();
                r.append(m.as_str());
                r
            },
        }
    }
}

impl From<String> for OktaClientError {
    /// A bare message is a general error.
    fn from(error: String) -> (r: Self) {
        OktaClientError::General(error)
    }
}

impl vstd::std_specs::convert::FromSpecImpl<String> for OktaClientError {
    open spec fn obeys_from_spec() -> bool {
        true
    }

    open spec fn from_spec(error: String) -> Self {
        OktaClientError::General(error)
    }
}

} // verus!
