//! The authorize call: building its query and extracting the returned code.
//!
//! With `prompt=none` and `response_mode=form_post` the provider renders an
//! HTML page holding a hidden `input` named `code` instead of issuing a
//! redirect, because no browser drives the flow. The embedding program fetches
//! the URL built here and hands the HTML back; the code is scraped out of it
//! here, and its absence is a reported failure, never a crash — it commonly
//! means a misconfigured redirect URI, scope or authorization server.

use rand::Rng;
use vstd::prelude::*;

use crate::error::OktaClientError;

verus! {

/// How the code challenge was derived from the verifier; only SHA-256 is
/// implemented.
#[derive(Debug)]
pub enum CodeChallengeMethod {
    S256,
}

impl CodeChallengeMethod {
    /// The wire spelling of the method.
    pub fn as_str(&self) -> (r: &'static str)
        ensures
            r@ == "S256"@,
    {
        "S256"
    }
}

/// What the authorize call asks the provider to return; only the
/// authorization code is implemented.
#[derive(Debug)]
pub enum ResponseType {
    Code,
}

impl ResponseType {
    /// The wire spelling of the response type.
    pub fn as_str(&self) -> (r: &'static str)
        ensures
            r@ == "code"@,
    {
        "code"
    }
}

/// How the provider is asked to deliver the response; only the form post is
/// implemented.
#[derive(Debug)]
pub enum ResponseMode {
    FormPost,
}

impl ResponseMode {
    /// The wire spelling of the response mode.
    pub fn as_str(&self) -> (r: &'static str)
        ensures
            r@ == "form_post"@,
    {
        "form_post"
    }
}

/// Whether the provider may prompt interactively; it may not — the session
/// token already proves authentication.
#[derive(Debug)]
pub enum Prompt {
    NoPrompt,
}

impl Prompt {
    /// The wire spelling of the prompt setting.
    pub fn as_str(&self) -> (r: &'static str)
        ensures
            r@ == "none"@,
    {
        "none"
    }
}

/// Whether `c` is an ASCII letter or digit.
pub open spec fn is_alphanumeric_char(c: char) -> bool {
    ||| ('A' as u32) <= (c as u32) <= ('Z' as u32)
    ||| ('a' as u32) <= (c as u32) <= ('z' as u32)
    ||| ('0' as u32) <= (c as u32) <= ('9' as u32)
}

/// Whether `s` has the shape of a per-request state or nonce value: eight
/// alphanumeric characters.
pub open spec fn spec_is_param_token(s: Seq<char>) -> bool {
    s.len() == 8 && forall|i: int| 0 <= i < s.len() ==> is_alphanumeric_char(#[trigger] s[i])
}

/// Relies on rand::thread_rng sampling the Alphanumeric distribution: eight
/// random ASCII letters or digits; nothing more is promised of which ones.
#[verifier::external_body]
fn random_string() -> (r: String)
    ensures
        spec_is_param_token(r@),
{
    rand::thread_rng()
        .sample_iter(&rand::distributions::Alphanumeric)
        .take(8)
        .map(char::from)
        .collect()
}

/// One authorize request: the client's identifiers, the PKCE challenge, the
/// fixed flow parameters, fresh state and nonce values, and the session token
/// proving authentication.
#[derive(Debug)]
pub struct OktaAuthorizeRequest {
    pub client_id: String,
    pub response_type: ResponseType,
    pub code_challenge_method: CodeChallengeMethod,
    pub code_challenge: String,
    pub redirect_uri: String,
    pub scope: String,
    pub prompt: Prompt,
    pub response_mode: ResponseMode,
    pub state: String,
    pub nonce: String,
    pub session_token: String,
}

/// The views of a sequence of query pairs.
pub open spec fn pairs_view(ps: Seq<(&'static str, String)>) -> Seq<(Seq<char>, Seq<char>)> {
    ps.map_values(|p: (&'static str, String)| (p.0@, p.1@))
}

/// The query pairs of an authorize request, in wire order.
pub open spec fn spec_authorize_params(
    client_id: Seq<char>,
    code_challenge: Seq<char>,
    redirect_uri: Seq<char>,
    scope: Seq<char>,
    state: Seq<char>,
    nonce: Seq<char>,
    session_token: Seq<char>,
) -> Seq<(Seq<char>, Seq<char>)> {
    seq![
        ("client_id"@, client_id),
        ("response_type"@, "code"@),
        ("code_challenge_method"@, "S256"@),
        ("code_challenge"@, code_challenge),
        ("redirect_uri"@, redirect_uri),
        ("scope"@, scope),
        ("prompt"@, "none"@),
        ("response_mode"@, "form_post"@),
        ("state"@, state),
        ("sessionToken"@, session_token),
        ("nonce"@, nonce),
    ]
}

impl OktaAuthorizeRequest {
    /// Build the request for one authorize call, drawing fresh random state
    /// and nonce values.
    pub fn new(
        client_id: String,
        code_challenge: String,
        redirect_uri: String,
        scope: String,
        session_token: String,
    ) -> (r: Self)
        ensures
            r.client_id@ == client_id@,
            r.code_challenge@ == code_challenge@,
            r.redirect_uri@ == redirect_uri@,
            r.scope@ == scope@,
            r.session_token@ == session_token@,
            spec_is_param_token(r.state@),
            spec_is_param_token(r.nonce@),
    {
        OktaAuthorizeRequest {
            client_id,
            response_type: ResponseType::Code,
            code_challenge_method: CodeChallengeMethod::S256,
            code_challenge,
            redirect_uri,
            scope,
            prompt: Prompt::NoPrompt,
            response_mode: ResponseMode::FormPost,
            state: random_string(),
            nonce: random_string(),
            session_token,
        }
    }

    /// The request as its query pairs, in wire order.
    pub fn as_params(&self) -> (r: Vec<(&'static str, String)>)
        ensures
            pairs_view(r@) == spec_authorize_params(
                self.client_id@,
                self.code_challenge@,
                self.redirect_uri@,
                self.scope@,
                self.state@,
                self.nonce@,
                self.session_token@,
            ),
    {
        let mut r: Vec<(&'static str, String)> = Vec::new();
        r.push(("client_id", self.client_id.clone()));
        r.push(("response_type", self.response_type.as_str().to_owned()));
        r.push(("code_challenge_method", self.code_challenge_method.as_str().to_owned()));
        r.push(("code_challenge", self.code_challenge.clone()));
        r.push(("redirect_uri", self.redirect_uri.clone()));
        r.push(("scope", self.scope.clone()));
        r.push(("prompt", self.prompt.as_str().to_owned()));
        r.push(("response_mode", self.response_mode.as_str().to_owned()));
        r.push(("state", self.state.clone()));
        r.push(("sessionToken", self.session_token.clone()));
        r.push(("nonce", self.nonce.clone()));
        proof {
            assert(pairs_view(r@) =~= spec_authorize_params(
                self.client_id@,
                self.code_challenge@,
                self.redirect_uri@,
                self.scope@,
                self.state@,
                self.nonce@,
                self.session_token@,
            ));
        }
        r
    }
}

/// A base URL together with query pairs, parsed and serialized back: present
/// exactly when the base parses as an absolute URL.
pub uninterp spec fn spec_url_with_params(
    base: Seq<char>,
    params: Seq<(Seq<char>, Seq<char>)>,
) -> Option<Seq<char>>;

/// Whether a base URL parses; the pairs play no part in it, since they are
/// appended only after the base has parsed.
pub open spec fn spec_url_base_ok(base: Seq<char>) -> bool {
    spec_url_with_params(base, Seq::empty()) is Some
}

/// Relies on reqwest::Url::parse_with_params: the base URL with the pairs
/// appended as a percent-encoded query; it fails exactly when the base does
/// not parse as an absolute URL, whatever the pairs.
#[verifier::external_body]
fn url_with_params(base: &str, params: &Vec<(&'static str, String)>) -> (r: Option<String>)
    ensures
        r is Some <==> spec_url_base_ok(base@),
        r matches Some(u) ==> spec_url_with_params(base@, pairs_view(params@)) == Some(u@),
{
    match reqwest::Url::parse_with_params(base, params.iter()) {
        Ok(u) => Some(String::from(u)),
        Err(_) => None,
    }
}

/// Build the full authorize URL for a request against an authorization
/// endpoint. Fails exactly when the endpoint does not parse as a URL.
pub fn authorize_url(authorization_endpoint: &str, request: &OktaAuthorizeRequest) -> (r: Result<
    String,
    OktaClientError,
>)
    ensures
        spec_url_base_ok(authorization_endpoint@) ==> (r matches Ok(u) && Some(u@)
            == spec_url_with_params(
            authorization_endpoint@,
            spec_authorize_params(
                request.client_id@,
                request.code_challenge@,
                request.redirect_uri@,
                request.scope@,
                request.state@,
                request.nonce@,
                request.session_token@,
            ),
        )),
        !spec_url_base_ok(authorization_endpoint@) ==> (r matches Err(e) && e matches
            OktaClientError::General(m) && m@ == "Failed to create URL"@),
{
    let params = request.as_params();
    match url_with_params(authorization_endpoint, &params) {
        Some(u) => Ok(u),
        None => Err(OktaClientError::General("Failed to create URL".to_owned())),
    }
}

/// The `value` attribute of the first `input` element named `code` in the
/// document.
pub uninterp spec fn spec_code_input_value(html: Seq<char>) -> Option<Seq<char>>;

/// Relies on scraper::Html::parse_document, scraper::Selector::parse,
/// scraper::Html::select and scraper::node::Element::attr: the `value`
/// attribute of the first `input` element named `code`, or nothing when no
/// such element carries one. The fixed selector always parses.
#[verifier::external_body]
fn scrape_code_input(html: &str) -> (r: Option<String>)
    ensures
        r is Some <==> spec_code_input_value(html@) is Some,
        r matches Some(s) ==> spec_code_input_value(html@) == Some(s@),
{
    let dom = scraper::Html::parse_document(html);
    let selector = scraper::Selector::parse("input[name=\"code\"]").unwrap();
    match dom.select(&selector).next() {
        Some(element) => match element.value().attr("value") {
            Some(v) => Some(v.to_owned()),
            None => None,
        },
        None => None,
    }
}

/// Extract the authorization code from the provider's HTML response: the
/// `value` of the hidden `input` named `code`. Its absence — the provider
/// rendered a consent or error page instead — is a reported parse failure.
pub fn extract_code(html: &str) -> (r: Result<String, OktaClientError>)
    ensures
        match spec_code_input_value(html@) {
            Some(c) => r matches Ok(s) && s@ == c,
            None => r matches Err(e) && e matches OktaClientError::Parser(m) && m@
                == "Missing Input with code- maybe got an error instead"@,
        },
{
    match scrape_code_input(html) {
        Some(code) => Ok(code),
        None => Err(
            OktaClientError::Parser("Missing Input with code- maybe got an error instead".to_owned()),
        ),
    }
}

} // verus!
