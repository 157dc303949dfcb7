//! A library for acquiring an OAuth2 access token from an OpenID-Connect
//! identity provider with resource-owner credentials and the authorization
//! code + PKCE flow, without a browser redirect.
//!
//! The flow is strictly linear: discovery, session authentication,
//! authorization (scraping the code out of a server-rendered form), and the
//! final code-for-token exchange. Every step's parsing and decision logic
//! lives here with a contract; the network round trips are left to the
//! embedding program, which drives [`client::OktaClient::flow_step`].

pub mod authn;
pub mod authorize;
pub mod client;
pub mod error;
pub mod json;
pub mod openid;
pub mod pkce;
pub mod token;
