//! The final code-for-token exchange.
//!
//! The embedding program posts the form built here to the token endpoint and
//! hands the JSON response body back; the access token is read out of it
//! here. This is the only step that reveals the PKCE code verifier.

use vstd::prelude::*;
use vstd::string::StringExecFns;

use crate::error::OktaClientError;
use crate::json::{json_string_field, spec_json_string_field};

verus! {

/// The OAuth2 grant types, in their wire spelling; only the authorization
/// code grant is implemented by this flow.
#[derive(Debug)]
pub enum GrantType {
    Implicit,
    AuthorizationCode,
    ClientCredentials,
    Password,
    RefreshToken,
}

impl GrantType {
    /// The form value that names the grant type on the wire.
    pub fn as_str(&self) -> (r: &'static str)
        ensures
            r@ == match self {
                GrantType::Implicit => "implicit"@,
                GrantType::AuthorizationCode => "authorization_code"@,
                GrantType::ClientCredentials => "client_credentials"@,
                GrantType::Password => "password"@,
                GrantType::RefreshToken => "refresh_token"@,
            },
    {
        match self {
            GrantType::Implicit => "implicit",
            GrantType::AuthorizationCode => "authorization_code",
            GrantType::ClientCredentials => "client_credentials",
            GrantType::Password => "password",
            GrantType::RefreshToken => "refresh_token",
        }
    }
}

/// The form posted to the token endpoint.
#[derive(Debug)]
pub struct OktaTokenRequest {
    pub client_id: String,
    pub code_verifier: String,
    pub redirect_uri: String,
    pub grant_type: GrantType,
    pub code: String,
}

impl OktaTokenRequest {
    /// The request as the five form pairs posted to the token endpoint, in
    /// wire order.
    pub fn as_params(&self) -> (r: Vec<(&'static str, String)>)
        ensures
            r@.len() == 5,
            r@[0].0@ == "client_id"@ && r@[0].1@ == self.client_id@,
            r@[1].0@ == "code_verifier"@ && r@[1].1@ == self.code_verifier@,
            r@[2].0@ == "redirect_uri"@ && r@[2].1@ == self.redirect_uri@,
            r@[3].0@ == "grant_type"@ && r@[3].1@ == match self.grant_type {
                GrantType::Implicit => "implicit"@,
                GrantType::AuthorizationCode => "authorization_code"@,
                GrantType::ClientCredentials => "client_credentials"@,
                GrantType::Password => "password"@,
                GrantType::RefreshToken => "refresh_token"@,
            },
            r@[4].0@ == "code"@ && r@[4].1@ == self.code@,
    {
        let mut r: Vec<(&'static str, String)> = Vec::new();
        r.push(("client_id", self.client_id.clone()));
        r.push(("code_verifier", self.code_verifier.clone()));
        r.push(("redirect_uri", self.redirect_uri.clone()));
        r.push(("grant_type", self.grant_type.as_str().to_owned()));
        r.push(("code", self.code.clone()));
        r
    }
}

/// The error message for a token response without an access token: it names
/// the field and keeps the raw body for diagnosis.
pub open spec fn spec_missing_token_error(body: Seq<char>) -> Seq<char> {
    "access_token was missing from the token response: "@ + body
}

/// Read the access token out of a token response body. A body without a
/// string-valued `access_token` field is a parse failure that names the field
/// and carries the raw body.
pub fn token_from_body(body: &str) -> (r: Result<String, OktaClientError>)
    ensures
        match spec_json_string_field(body@, "access_token"@) {
            Some(t) => r matches Ok(s) && s@ == t,
            None => r matches Err(e) && e matches OktaClientError::Parser(m) && m@
                == spec_missing_token_error(body@),
        },
{
    match json_string_field(body, "access_token") {
        Some(t) => Ok(t),
        None => {
            let mut m = "access_token was missing from the token response: ".to_owned();
            m.append(body);
            Err(OktaClientError::Parser(m))
        },
    }
}

} // verus!
