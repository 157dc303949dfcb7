//! Provider metadata discovery.
//!
//! The well-known discovery document is fetched by the embedding program; the
//! parsing lives here. A healthy provider answers with a JSON object holding
//! the two endpoint URLs; a misconfigured tenant answers with an HTML error
//! page, out of which the error code and its explanation are scraped so that
//! the failure stays diagnosable.

use vstd::prelude::*;
use vstd::string::StringExecFns;

use crate::error::OktaClientError;
use crate::json::{json_is_object, json_string_field, spec_json_is_object, spec_json_string_field};

verus! {

/// Provider metadata resolved from the well-known discovery document.
#[derive(Debug)]
pub struct OpenIDConfig {
    pub authorization_endpoint: String,
    pub token_endpoint: String,
}

/// The concatenated text content of every `div` of class `error-code` in the
/// document.
pub uninterp spec fn spec_error_code_text(html: Seq<char>) -> Seq<char>;

/// The concatenated text content of every `p` of class `o-form-explain` in
/// the document.
pub uninterp spec fn spec_form_explain_text(html: Seq<char>) -> Seq<char>;

/// Relies on scraper::Html::parse_document, scraper::Selector::parse and
/// scraper::Html::select: the concatenated text of every `div` whose class
/// attribute is exactly `error-code`. The fixed selector always parses.
#[verifier::external_body]
fn scrape_error_code(html: &str) -> (r: String)
    ensures
        r@ == spec_error_code_text(html@),
{
    let dom = scraper::Html::parse_document(html);
    let selector = scraper::Selector::parse("div[class=\"error-code\"]").unwrap();
    dom.select(&selector).flat_map(|element| element.text()).collect()
}

/// Relies on scraper::Html::parse_document, scraper::Selector::parse and
/// scraper::Html::select: the concatenated text of every `p` whose class
/// attribute is exactly `o-form-explain`. The fixed selector always parses.
#[verifier::external_body]
fn scrape_form_explain(html: &str) -> (r: String)
    ensures
        r@ == spec_form_explain_text(html@),
{
    let dom = scraper::Html::parse_document(html);
    let selector = scraper::Selector::parse("p[class=\"o-form-explain\"]").unwrap();
    dom.select(&selector).flat_map(|element| element.text()).collect()
}

/// The well-known discovery URL for a tenant and an authorization server.
pub open spec fn spec_discovery_url(base: Seq<char>, authorization_server_id: Seq<char>) -> Seq<
    char,
> {
    base + "/oauth2/"@ + authorization_server_id + "/.well-known/openid-configuration"@
}

/// Build the well-known discovery URL:
/// `{base}/oauth2/{id}/.well-known/openid-configuration`.
pub fn discovery_url(base_url: &str, authorization_server_id: &str) -> (r: String)
    ensures
        r@ == spec_discovery_url(base_url@, authorization_server_id@),
{
    let mut r = base_url.to_owned();
    r.append("/oauth2/");
    r.append(authorization_server_id);
    r.append("/.well-known/openid-configuration");
    r
}

/// The error message for a discovery response that is not JSON: both scraped
/// HTML fragments and the requested URL appear in it.
pub open spec fn spec_discovery_html_error(url: Seq<char>, body: Seq<char>) -> Seq<char> {
    "Error "@ + spec_error_code_text(body) + " while getting the openid configuration at "@ + url
        + ": "@ + spec_form_explain_text(body)
}

/// The error message for a discovery document that lacks a required
/// string-valued field: it names the field, the URL and the raw body.
pub open spec fn spec_missing_field_error(url: Seq<char>, body: Seq<char>, field: Seq<char>) -> Seq<
    char,
> {
    "Error while getting the openid configuration at "@ + url + ": "@ + field
        + " was missing from the openid configuration: "@ + body
}

/// What discovery makes of a response body: either both endpoints, or the
/// message of the parse failure.
pub enum DiscoveryOutcome {
    Metadata { authorization_endpoint: Seq<char>, token_endpoint: Seq<char> },
    Failure { message: Seq<char> },
}

/// The outcome of parsing a discovery response body fetched from `url`: a
/// non-JSON body is scraped for an HTML error; a JSON body must hold
/// string-valued `token_endpoint` and `authorization_endpoint` fields, the
/// former checked first.
pub open spec fn spec_parse_openid_config(url: Seq<char>, body: Seq<char>) -> DiscoveryOutcome {
    if !spec_json_is_object(body) {
        DiscoveryOutcome::Failure { message: spec_discovery_html_error(url, body) }
    } else if spec_json_string_field(body, "token_endpoint"@) is None {
        DiscoveryOutcome::Failure {
            message: spec_missing_field_error(url, body, "token_endpoint"@),
        }
    } else if spec_json_string_field(body, "authorization_endpoint"@) is None {
        DiscoveryOutcome::Failure {
            message: spec_missing_field_error(url, body, "authorization_endpoint"@),
        }
    } else {
        DiscoveryOutcome::Metadata {
            authorization_endpoint: spec_json_string_field(body, "authorization_endpoint"@)->0,
            token_endpoint: spec_json_string_field(body, "token_endpoint"@)->0,
        }
    }
}

fn missing_field_error(url: &str, body: &str, field: &str) -> (r: String)
    ensures
        r@ == spec_missing_field_error(url@, body@, field@),
{
    let mut m = "Error while getting the openid configuration at ".to_owned();
    m.append(url);
    m.append(": ");
    m.append(field);
    m.append(" was missing from the openid configuration: ");
    m.append(body);
    m
}

/// Parse the body answered by the discovery URL `url`. A JSON object must
/// carry both endpoints as strings; any other body is treated as the
/// provider's HTML error page and reported as a parse failure that keeps the
/// scraped error code and explanation.
pub fn parse_openid_config(url: &str, body: &str) -> (r: Result<OpenIDConfig, OktaClientError>)
    ensures
        match spec_parse_openid_config(url@, body@) {
            DiscoveryOutcome::Metadata { authorization_endpoint, token_endpoint } => r matches Ok(c)
                && c.authorization_endpoint@ == authorization_endpoint && c.token_endpoint@
                == token_endpoint,
            DiscoveryOutcome::Failure { message } => r matches Err(e) && e matches
                OktaClientError::Parser(m) && m@ == message,
        },
{
    if !json_is_object(body) {
        let error_code = scrape_error_code(body);
        let error_explain = scrape_form_explain(body);
        let mut m = "Error ".to_owned();
        m.append(error_code.as_str());
        m.append(" while getting the openid configuration at ");
        m.append(url);
        m.append(": ");
        m.append(error_explain.as_str());
        return Err(OktaClientError::Parser(m));
    }
    let token_endpoint = match json_string_field(body, "token_endpoint") {
        Some(t) => t,
        None => {
            return Err(OktaClientError::Parser(missing_field_error(url, body, "token_endpoint")));
        },
    };
    let authorization_endpoint = match json_string_field(body, "authorization_endpoint") {
        Some(a) => a,
        None => {
            return Err(
                OktaClientError::Parser(missing_field_error(url, body, "authorization_endpoint")),
            );
        },
    };
    Ok(OpenIDConfig { authorization_endpoint, token_endpoint })
}

} // verus!
