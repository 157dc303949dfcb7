//! Primary authentication against the provider's authn endpoint.
//!
//! The embedding program posts the credentials as JSON and hands the response
//! body back; everything decided about that body is decided here. The body is
//! a mapping that carries either a success shape (`status`, `sessionToken`,
//! `expiresAt`) or an error shape (`errorCode`, `errorSummary`, `errorId`);
//! a provider-reported error must stay distinguishable from a parse failure.

use vstd::prelude::*;
use vstd::string::StringExecFns;

use crate::error::OktaClientError;
use crate::json::{json_string_field, spec_json_string_field};

verus! {

/// The JSON body posted to the authn endpoint.
#[derive(Debug)]
pub struct OktaAuthnRequest {
    pub username: String,
    pub password: String,
}

/// The fields of an authn response body; each is present exactly when the
/// body carries it as a string.
#[derive(Debug)]
pub struct OktaAuthnResponse {
    pub expires_at: Option<String>,
    pub status: Option<String>,
    pub session_token: Option<String>,
    pub error_code: Option<String>,
    pub error_summary: Option<String>,
    pub error_id: Option<String>,
}

impl Default for OktaAuthnResponse {
    /// An empty response, with every field absent.
    fn default() -> (r: Self)
        ensures
            r.expires_at is None,
            r.status is None,
            r.session_token is None,
            r.error_code is None,
            r.error_summary is None,
            r.error_id is None,
    {
        OktaAuthnResponse {
            expires_at: None,
            status: None,
            session_token: None,
            error_code: None,
            error_summary: None,
            error_id: None,
        }
    }
}

impl OktaAuthnResponse {
    /// The provider-reported error carried by the response, if any: an error
    /// code turns the response into a provider failure whose message is the
    /// provider's own summary (empty when the summary is missing).
    pub fn as_error(&self) -> (r: Option<OktaClientError>)
        ensures
            self.error_code is None ==> r is None,
            self.error_code is Some ==> (r matches Some(e) && e matches OktaClientError::OktaAPI(m)
                && m@ == (match self.error_summary {
                Some(s) => s@,
                None => Seq::<char>::empty(),
            })),
    {
        match &self.error_code {
            None => None,
            Some(_) => Some(
                OktaClientError::OktaAPI(
                    match &self.error_summary {
                        Some(s) => s.clone(),
                        None => String::new(),
                    },
                ),
            ),
        }
    }
}

/// The authn endpoint of a tenant.
pub open spec fn spec_authn_url(base: Seq<char>) -> Seq<char> {
    base + "/api/v1/authn"@
}

/// Build the authn endpoint URL: `{base}/api/v1/authn`.
pub fn authn_url(base_url: &str) -> (r: String)
    ensures
        r@ == spec_authn_url(base_url@),
{
    let mut r = base_url.to_owned();
    r.append("/api/v1/authn");
    r
}

/// Read every recognized field of an authn response body.
pub fn parse_authn_response(body: &str) -> (r: OktaAuthnResponse)
    ensures
        r.expires_at.deep_view() == spec_json_string_field(body@, "expiresAt"@),
        r.status.deep_view() == spec_json_string_field(body@, "status"@),
        r.session_token.deep_view() == spec_json_string_field(body@, "sessionToken"@),
        r.error_code.deep_view() == spec_json_string_field(body@, "errorCode"@),
        r.error_summary.deep_view() == spec_json_string_field(body@, "errorSummary"@),
        r.error_id.deep_view() == spec_json_string_field(body@, "errorId"@),
{
    OktaAuthnResponse {
        expires_at: json_string_field(body, "expiresAt"),
        status: json_string_field(body, "status"),
        session_token: json_string_field(body, "sessionToken"),
        error_code: json_string_field(body, "errorCode"),
        error_summary: json_string_field(body, "errorSummary"),
        error_id: json_string_field(body, "errorId"),
    }
}

/// The provider's error summary, empty when it is missing.
pub open spec fn spec_authn_error_summary(body: Seq<char>) -> Seq<char> {
    match spec_json_string_field(body, "errorSummary"@) {
        Some(s) => s,
        None => Seq::empty(),
    }
}

/// What session authentication makes of a response body.
pub enum AuthnOutcome {
    Session { token: Seq<char> },
    ProviderFailure { message: Seq<char> },
    MissingToken,
}

/// The outcome of parsing an authn response body: a present `errorCode` is a
/// provider failure carrying the provider's summary; otherwise a present
/// `sessionToken` is the session; otherwise the token is missing.
pub open spec fn spec_authn_outcome(body: Seq<char>) -> AuthnOutcome {
    if spec_json_string_field(body, "errorCode"@) is Some {
        AuthnOutcome::ProviderFailure { message: spec_authn_error_summary(body) }
    } else if spec_json_string_field(body, "sessionToken"@) is Some {
        AuthnOutcome::Session { token: spec_json_string_field(body, "sessionToken"@)->0 }
    } else {
        AuthnOutcome::MissingToken
    }
}

/// Parse an authn response body down to its session token. A provider-reported
/// error comes back as a provider failure with the provider's own summary; a
/// body with neither error code nor session token is a parse failure.
pub fn session_from_authn_body(body: &str) -> (r: Result<String, OktaClientError>)
    ensures
        match spec_authn_outcome(body@) {
            AuthnOutcome::Session { token } => r matches Ok(t) && t@ == token,
            AuthnOutcome::ProviderFailure { message } => r matches Err(e) && e matches
                OktaClientError::OktaAPI(m) && m@ == message,
            AuthnOutcome::MissingToken => r matches Err(e) && e matches OktaClientError::Parser(m)
                && m@ == "Missing Session Token"@,
        },
{
    let response = parse_authn_response(body);
    match response.as_error() {
        Some(e) => Err(e),
        None => match response.session_token {
            Some(t) => Ok(t),
            None => Err(OktaClientError::Parser("Missing Session Token".to_owned())),
        },
    }
}

} // verus!
