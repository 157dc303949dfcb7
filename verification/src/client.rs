//! The flow orchestrator.
//!
//! One token acquisition is a strictly linear walk: discovery, session
//! authentication, authorization, token exchange. Every decision of the walk
//! is the verified [`OktaClient::flow_step`]: it takes the current state and
//! the outcome of the last network round trip, and returns the next state
//! with the next action. The embedding program owns the transport: it
//! performs each action and hands the response body (or the transport error)
//! back, until the action is [`FlowAction::Finish`].

use vstd::prelude::*;

use crate::authn::{authn_url, session_from_authn_body, spec_authn_url, spec_authn_outcome, AuthnOutcome};
use crate::authorize::{
    authorize_url, extract_code, spec_authorize_params, spec_code_input_value,
    spec_is_param_token, spec_url_base_ok, spec_url_with_params, OktaAuthorizeRequest,
};
use crate::error::OktaClientError;
use crate::json::spec_json_string_field;
use crate::openid::{
    discovery_url, parse_openid_config, spec_discovery_url, spec_parse_openid_config,
    DiscoveryOutcome, OpenIDConfig,
};
use crate::pkce::PKCE;
use crate::token::{spec_missing_token_error, token_from_body, GrantType, OktaTokenRequest};

verus! {

/// The configuration and the PKCE pair of one flow instance, owned for its
/// whole duration.
#[derive(Debug)]
pub struct OktaClient {
    pub client_id: String,
    pub base_url: String,
    pub login_redirect_url: String,
    pub username: String,
    pub password: String,
    pub authorization_server_id: String,
    pub pkce: PKCE,
    pub scopes: String,
}

/// Where one flow stands. The walk is linear — each state is reachable only
/// from the one before it — and `Failed` is terminal, reachable from every
/// non-terminal state.
#[derive(Debug)]
pub enum FlowState {
    Start,
    MetadataResolved { metadata: OpenIDConfig },
    SessionEstablished { metadata: OpenIDConfig, session_token: String },
    CodeObtained { metadata: OpenIDConfig, auth_code: String },
    TokenObtained { access_token: String },
    Failed { error: OktaClientError },
}

/// The network round trip the embedding program must perform next: a plain
/// read, a JSON post of the credentials, or a form post; `Finish` ends the
/// walk.
#[derive(Debug)]
pub enum FlowAction {
    FetchDiscovery { url: String },
    PostCredentials { url: String, username: String, password: String },
    FetchAuthorize { url: String },
    PostTokenForm { url: String, form: Vec<(&'static str, String)> },
    Finish,
}

/// The walk failed with a network error carrying the transport's message.
pub open spec fn spec_failed_network(next: FlowState, action: FlowAction, message: Seq<char>) -> bool {
    &&& next matches FlowState::Failed { error } && error matches OktaClientError::Network(m)
        && m@ == message
    &&& action is Finish
}

/// The walk failed with a parse error.
pub open spec fn spec_failed_parser(next: FlowState, action: FlowAction, message: Seq<char>) -> bool {
    &&& next matches FlowState::Failed { error } && error matches OktaClientError::Parser(m)
        && m@ == message
    &&& action is Finish
}

/// The walk failed with a provider-reported error.
pub open spec fn spec_failed_api(next: FlowState, action: FlowAction, message: Seq<char>) -> bool {
    &&& next matches FlowState::Failed { error } && error matches OktaClientError::OktaAPI(m)
        && m@ == message
    &&& action is Finish
}

/// The walk failed with a general error.
pub open spec fn spec_failed_general(next: FlowState, action: FlowAction, message: Seq<char>) -> bool {
    &&& next matches FlowState::Failed { error } && error matches OktaClientError::General(m)
        && m@ == message
    &&& action is Finish
}

/// The five form pairs of the token exchange, in wire order: this is the one
/// place the PKCE code verifier is revealed.
pub open spec fn spec_token_form(
    form: Seq<(&'static str, String)>,
    client: OktaClient,
    code: Seq<char>,
) -> bool {
    &&& form.len() == 5
    &&& form[0].0@ == "client_id"@ && form[0].1@ == client.client_id@
    &&& form[1].0@ == "code_verifier"@ && form[1].1@ == client.pkce.code_verifier@
    &&& form[2].0@ == "redirect_uri"@ && form[2].1@ == client.login_redirect_url@
    &&& form[3].0@ == "grant_type"@ && form[3].1@ == "authorization_code"@
    &&& form[4].0@ == "code"@ && form[4].1@ == code
}

/// The transition relation of the flow: given the client, the state the walk
/// stood in and the outcome of the round trip, which state and action follow.
/// Terminal states stay put; every transport error is a network failure; each
/// step advances exactly one state when its body parses, and fails with that
/// step's error when it does not.
pub open spec fn flow_transition(
    client: OktaClient,
    state: FlowState,
    response: Result<String, String>,
    next: FlowState,
    action: FlowAction,
) -> bool {
    match state {
        FlowState::TokenObtained { access_token } => {
            &&& next matches FlowState::TokenObtained { access_token: t } && t@ == access_token@
            &&& action is Finish
        },
        FlowState::Failed { error } => {
            &&& next matches FlowState::Failed { error: e } && e == error
            &&& action is Finish
        },
        FlowState::Start => match response {
            Err(m) => spec_failed_network(next, action, m@),
            Ok(body) => match spec_parse_openid_config(
                spec_discovery_url(client.base_url@, client.authorization_server_id@),
                body@,
            ) {
                DiscoveryOutcome::Metadata { authorization_endpoint, token_endpoint } => {
                    &&& next matches FlowState::MetadataResolved { metadata }
                        && metadata.authorization_endpoint@ == authorization_endpoint
                        && metadata.token_endpoint@ == token_endpoint
                    &&& action matches FlowAction::PostCredentials { url, username, password }
                        && url@ == spec_authn_url(client.base_url@) && username@
                        == client.username@ && password@ == client.password@
                },
                DiscoveryOutcome::Failure { message } => spec_failed_parser(next, action, message),
            },
        },
        FlowState::MetadataResolved { metadata } => match response {
            Err(m) => spec_failed_network(next, action, m@),
            Ok(body) => match spec_authn_outcome(body@) {
                AuthnOutcome::Session { token } => {
                    if spec_url_base_ok(metadata.authorization_endpoint@) {
                        &&& next matches FlowState::SessionEstablished {
                            metadata: md,
                            session_token,
                        } && md == metadata && session_token@ == token
                        &&& action matches FlowAction::FetchAuthorize { url }
                            && (exists|state_value: Seq<char>, nonce_value: Seq<char>|
                            spec_is_param_token(state_value) && spec_is_param_token(nonce_value)
                                && Some(url@) == spec_url_with_params(
                                metadata.authorization_endpoint@,
                                spec_authorize_params(
                                    client.client_id@,
                                    client.pkce.code_challenge@,
                                    client.login_redirect_url@,
                                    client.scopes@,
                                    state_value,
                                    nonce_value,
                                    token,
                                ),
                            ))
                    } else {
                        spec_failed_general(next, action, "Failed to create URL"@)
                    }
                },
                AuthnOutcome::ProviderFailure { message } => spec_failed_api(next, action, message),
                AuthnOutcome::MissingToken => spec_failed_parser(
                    next,
                    action,
                    "Missing Session Token"@,
                ),
            },
        },
        FlowState::SessionEstablished { metadata, session_token: _ } => match response {
            Err(m) => spec_failed_network(next, action, m@),
            Ok(html) => match spec_code_input_value(html@) {
                Some(code) => {
                    &&& next matches FlowState::CodeObtained { metadata: md, auth_code } && md
                        == metadata && auth_code@ == code
                    &&& action matches FlowAction::PostTokenForm { url, form } && url@
                        == metadata.token_endpoint@ && spec_token_form(form@, client, code)
                },
                None => spec_failed_parser(
                    next,
                    action,
                    "Missing Input with code- maybe got an error instead"@,
                ),
            },
        },
        FlowState::CodeObtained { metadata: _, auth_code: _ } => match response {
            Err(m) => spec_failed_network(next, action, m@),
            Ok(body) => match spec_json_string_field(body@, "access_token"@) {
                Some(t) => {
                    &&& next matches FlowState::TokenObtained { access_token } && access_token@
                        == t
                    &&& action is Finish
                },
                None => spec_failed_parser(next, action, spec_missing_token_error(body@)),
            },
        },
    }
}

impl OktaClient {
    /// Create a new client owning its configuration and a fresh PKCE pair.
    pub fn new(
        username: String,
        password: String,
        client_id: String,
        authorization_server_id: String,
        login_redirect_url: String,
        base_url: String,
        scopes: String,
    ) -> (r: Self)
        ensures
            r.username@ == username@,
            r.password@ == password@,
            r.client_id@ == client_id@,
            r.authorization_server_id@ == authorization_server_id@,
            r.login_redirect_url@ == login_redirect_url@,
            r.base_url@ == base_url@,
            r.scopes@ == scopes@,
            r.pkce.wf(),
    {
        OktaClient {
            client_id,
            base_url,
            login_redirect_url,
            username,
            password,
            authorization_server_id,
            pkce: PKCE::new(),
            scopes,
        }
    }

    /// Begin the walk: the first action fetches the discovery document.
    pub fn flow_begin(&self) -> (r: (FlowState, FlowAction))
        ensures
            r.0 is Start,
            r.1 matches FlowAction::FetchDiscovery { url } && url@ == spec_discovery_url(
                self.base_url@,
                self.authorization_server_id@,
            ),
    {
        let url = discovery_url(self.base_url.as_str(), self.authorization_server_id.as_str());
        (FlowState::Start, FlowAction::FetchDiscovery { url })
    }

    /// Advance the walk by one round trip: `response` is the body the last
    /// action's request came back with, or the transport's error message.
    pub fn flow_step(&self, state: FlowState, response: Result<String, String>) -> (r: (
        FlowState,
        FlowAction,
    ))
        ensures
            flow_transition(*self, state, response, r.0, r.1),
    {
        let body = match response {
            Ok(b) => b,
            Err(m) => {
                return match state {
                    FlowState::TokenObtained { access_token } => (
                        FlowState::TokenObtained { access_token },
                        FlowAction::Finish,
                    ),
                    FlowState::Failed { error } => (FlowState::Failed { error }, FlowAction::Finish),
                    _ => (
                        FlowState::Failed { error: OktaClientError::Network(m) },
                        FlowAction::Finish,
                    ),
                };
            },
        };
        match state {
            FlowState::Start => {
                let url = discovery_url(
                    self.base_url.as_str(),
                    self.authorization_server_id.as_str(),
                );
                match parse_openid_config(url.as_str(), body.as_str()) {
                    Ok(metadata) => {
                        let action = FlowAction::PostCredentials {
                            url: authn_url(self.base_url.as_str()),
                            username: self.username.clone(),
                            password: self.password.clone(),
                        };
                        (FlowState::MetadataResolved { metadata }, action)
                    },
                    Err(error) => (FlowState::Failed { error }, FlowAction::Finish),
                }
            },
            FlowState::MetadataResolved { metadata } => {
                match session_from_authn_body(body.as_str()) {
                    Ok(token) => {
                        let request = OktaAuthorizeRequest::new(
                            self.client_id.clone(),
                            self.pkce.code_challenge.clone(),
                            self.login_redirect_url.clone(),
                            self.scopes.clone(),
                            token.clone(),
                        );
                        match authorize_url(metadata.authorization_endpoint.as_str(), &request) {
                            Ok(url) => {
                                proof {
                                    assert(spec_is_param_token(request.state@)
                                        && spec_is_param_token(request.nonce@) && Some(url@)
                                        == spec_url_with_params(
                                        metadata.authorization_endpoint@,
                                        spec_authorize_params(
                                            self.client_id@,
                                            self.pkce.code_challenge@,
                                            self.login_redirect_url@,
                                            self.scopes@,
                                            request.state@,
                                            request.nonce@,
                                            token@,
                                        ),
                                    ));
                                }
                                (
                                    FlowState::SessionEstablished {
                                        metadata,
                                        session_token: token,
                                    },
                                    FlowAction::FetchAuthorize { url },
                                )
                            },
                            Err(error) => (FlowState::Failed { error }, FlowAction::Finish),
                        }
                    },
                    Err(error) => (FlowState::Failed { error }, FlowAction::Finish),
                }
            },
            FlowState::SessionEstablished { metadata, session_token: _ } => {
                match extract_code(body.as_str()) {
                    Ok(code) => {
                        let request = OktaTokenRequest {
                            client_id: self.client_id.clone(),
                            code_verifier: self.pkce.code_verifier.clone(),
                            redirect_uri: self.login_redirect_url.clone(),
                            grant_type: GrantType::AuthorizationCode,
                            code: code.clone(),
                        };
                        let form = request.as_params();
                        let url = metadata.token_endpoint.clone();
                        (
                            FlowState::CodeObtained { metadata, auth_code: code },
                            FlowAction::PostTokenForm { url, form },
                        )
                    },
                    Err(error) => (FlowState::Failed { error }, FlowAction::Finish),
                }
            },
            FlowState::CodeObtained { metadata: _, auth_code: _ } => {
                match token_from_body(body.as_str()) {
                    Ok(access_token) => (
                        FlowState::TokenObtained { access_token },
                        FlowAction::Finish,
                    ),
                    Err(error) => (FlowState::Failed { error }, FlowAction::Finish),
                }
            },
            FlowState::TokenObtained { access_token } => (
                FlowState::TokenObtained { access_token },
                FlowAction::Finish,
            ),
            FlowState::Failed { error } => (FlowState::Failed { error }, FlowAction::Finish),
        }
    }
}

} // verus!
