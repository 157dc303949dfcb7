use auth_token::authn::{
    authn_url, parse_authn_response, session_from_authn_body, OktaAuthnResponse,
};
use auth_token::authorize::{authorize_url, extract_code, OktaAuthorizeRequest};
use auth_token::error::OktaClientError;
use auth_token::openid::{discovery_url, parse_openid_config};
use auth_token::token::{token_from_body, GrantType, OktaTokenRequest};

#[test]
fn discovery_url_is_well_known_path() {
    let url = discovery_url("https://myapp.okta.com", "default");
    assert_eq!(
        url,
        "https://myapp.okta.com/oauth2/default/.well-known/openid-configuration"
    );
}

#[test]
fn discovery_of_json_with_both_endpoints() {
    let body = "{\"token_endpoint\":\"T\",\"authorization_endpoint\":\"A\"}";
    let config = parse_openid_config("https://x.example", body).unwrap();
    assert_eq!(config.token_endpoint, "T");
    assert_eq!(config.authorization_endpoint, "A");
}

#[test]
fn discovery_of_html_error_page() {
    let body = "<div class=\"error-code\">E0000007</div><p class=\"o-form-explain\">Not found</p>";
    match parse_openid_config("https://x.example", body) {
        Err(OktaClientError::Parser(m)) => {
            assert!(m.contains("E0000007"));
            assert!(m.contains("Not found"));
            assert_eq!(
                m,
                "Error E0000007 while getting the openid configuration at https://x.example: Not found"
            );
        }
        other => panic!("expected a parser error, got {:?}", other),
    }
}

#[test]
fn discovery_of_non_object_json_is_scraped_as_html() {
    match parse_openid_config("https://x.example", "5") {
        Err(OktaClientError::Parser(m)) => {
            assert_eq!(
                m,
                "Error  while getting the openid configuration at https://x.example: "
            );
        }
        other => panic!("expected a parser error, got {:?}", other),
    }
}

#[test]
fn discovery_of_html_without_error_elements_still_fails() {
    let body = "<p>nothing to see</p>";
    match parse_openid_config("https://x.example", body) {
        Err(OktaClientError::Parser(m)) => {
            assert!(m.contains("https://x.example"));
        }
        other => panic!("expected a parser error, got {:?}", other),
    }
}

#[test]
fn discovery_missing_token_endpoint() {
    let body = "{\"authorization_endpoint\":\"A\"}";
    match parse_openid_config("https://x.example", body) {
        Err(OktaClientError::Parser(m)) => {
            assert!(m.contains("token_endpoint"));
            assert!(m.contains("https://x.example"));
        }
        other => panic!("expected a parser error, got {:?}", other),
    }
}

#[test]
fn discovery_missing_authorization_endpoint() {
    let body = "{\"token_endpoint\":\"T\"}";
    match parse_openid_config("https://x.example", body) {
        Err(OktaClientError::Parser(m)) => {
            assert!(m.contains("authorization_endpoint"));
        }
        other => panic!("expected a parser error, got {:?}", other),
    }
}

#[test]
fn discovery_wrong_typed_endpoint_is_parse_failure() {
    let body = "{\"token_endpoint\":5,\"authorization_endpoint\":\"A\"}";
    match parse_openid_config("https://x.example", body) {
        Err(OktaClientError::Parser(m)) => {
            assert!(m.contains("token_endpoint"));
        }
        other => panic!("expected a parser error, got {:?}", other),
    }
}

#[test]
fn authn_url_is_authn_endpoint() {
    assert_eq!(
        authn_url("https://myapp.okta.com"),
        "https://myapp.okta.com/api/v1/authn"
    );
}

#[test]
fn authn_provider_error_is_api_failure() {
    let body = "{\"errorCode\":\"E0000004\",\"errorSummary\":\"Authentication failed\"}";
    match session_from_authn_body(body) {
        Err(OktaClientError::OktaAPI(m)) => assert_eq!(m, "Authentication failed"),
        other => panic!("expected a provider-reported error, got {:?}", other),
    }
}

#[test]
fn authn_success_yields_session_token() {
    let body = "{\"sessionToken\":\"abc\",\"status\":\"SUCCESS\"}";
    assert_eq!(session_from_authn_body(body).unwrap(), "abc");
}

#[test]
fn authn_without_token_or_error_is_parse_failure() {
    let body = "{\"status\":\"SUCCESS\"}";
    match session_from_authn_body(body) {
        Err(OktaClientError::Parser(m)) => assert_eq!(m, "Missing Session Token"),
        other => panic!("expected a parser error, got {:?}", other),
    }
}

#[test]
fn authn_response_fields_are_read() {
    let body = "{\"expiresAt\":\"2024-01-01T00:00:00Z\",\"status\":\"SUCCESS\",\
                \"sessionToken\":\"abc\",\"errorCode\":\"E1\",\"errorSummary\":\"S\",\"errorId\":\"I\"}";
    let response = parse_authn_response(body);
    assert_eq!(response.expires_at.as_deref(), Some("2024-01-01T00:00:00Z"));
    assert_eq!(response.status.as_deref(), Some("SUCCESS"));
    assert_eq!(response.session_token.as_deref(), Some("abc"));
    assert_eq!(response.error_code.as_deref(), Some("E1"));
    assert_eq!(response.error_summary.as_deref(), Some("S"));
    assert_eq!(response.error_id.as_deref(), Some("I"));
}

#[test]
fn authn_response_default_is_empty() {
    let response = OktaAuthnResponse::default();
    assert!(response.expires_at.is_none());
    assert!(response.status.is_none());
    assert!(response.session_token.is_none());
    assert!(response.error_code.is_none());
    assert!(response.error_summary.is_none());
    assert!(response.error_id.is_none());
}

#[test]
fn as_error_reports_provider_summary() {
    let mut response = OktaAuthnResponse::default();
    response.error_code = Some("E0000004".to_owned());
    response.error_summary = Some("Authentication failed".to_owned());
    match response.as_error() {
        Some(OktaClientError::OktaAPI(m)) => assert_eq!(m, "Authentication failed"),
        other => panic!("expected a provider-reported error, got {:?}", other),
    }
}

#[test]
fn as_error_without_summary_has_empty_message() {
    let mut response = OktaAuthnResponse::default();
    response.error_code = Some("E0000004".to_owned());
    match response.as_error() {
        Some(OktaClientError::OktaAPI(m)) => assert_eq!(m, ""),
        other => panic!("expected a provider-reported error, got {:?}", other),
    }
}

#[test]
fn as_error_is_none_without_error_code() {
    let mut response = OktaAuthnResponse::default();
    response.session_token = Some("abc".to_owned());
    assert!(response.as_error().is_none());
}

#[test]
fn extract_code_reads_hidden_input() {
    let html = "<input type=\"hidden\" name=\"code\" value=\"XYZ123\"/>";
    assert_eq!(extract_code(html).unwrap(), "XYZ123");
}

#[test]
fn extract_code_reads_input_inside_form() {
    let html = "<html><body><form method=\"post\">\
                <input type=\"hidden\" name=\"state\" value=\"s\"/>\
                <input type=\"hidden\" name=\"code\" value=\"deadbeef\"/>\
                </form></body></html>";
    assert_eq!(extract_code(html).unwrap(), "deadbeef");
}

#[test]
fn extract_code_without_input_is_parse_failure() {
    let html = "<html><body><p>consent required</p></body></html>";
    match extract_code(html) {
        Err(OktaClientError::Parser(m)) => {
            assert!(m.contains("Missing Input with code"));
        }
        other => panic!("expected a parser error, got {:?}", other),
    }
}

#[test]
fn token_response_with_access_token() {
    assert_eq!(token_from_body("{\"access_token\":\"tok\"}").unwrap(), "tok");
}

#[test]
fn token_response_without_access_token_is_parse_failure() {
    match token_from_body("{}") {
        Err(OktaClientError::Parser(m)) => {
            assert!(m.contains("access_token"));
            assert!(m.contains("{}"));
        }
        other => panic!("expected a parser error, got {:?}", other),
    }
}

#[test]
fn grant_types_have_wire_spellings() {
    assert_eq!(GrantType::Implicit.as_str(), "implicit");
    assert_eq!(GrantType::AuthorizationCode.as_str(), "authorization_code");
    assert_eq!(GrantType::ClientCredentials.as_str(), "client_credentials");
    assert_eq!(GrantType::Password.as_str(), "password");
    assert_eq!(GrantType::RefreshToken.as_str(), "refresh_token");
}

#[test]
fn token_request_as_params_in_wire_order() {
    let request = OktaTokenRequest {
        client_id: "cid".to_owned(),
        code_verifier: "ver".to_owned(),
        redirect_uri: "https://r.example/cb".to_owned(),
        grant_type: GrantType::AuthorizationCode,
        code: "c0de".to_owned(),
    };
    let params = request.as_params();
    assert_eq!(params.len(), 5);
    assert_eq!(params[0], ("client_id", "cid".to_owned()));
    assert_eq!(params[1], ("code_verifier", "ver".to_owned()));
    assert_eq!(params[2], ("redirect_uri", "https://r.example/cb".to_owned()));
    assert_eq!(params[3], ("grant_type", "authorization_code".to_owned()));
    assert_eq!(params[4], ("code", "c0de".to_owned()));
}

#[test]
fn authorize_request_params_in_wire_order() {
    let request = OktaAuthorizeRequest::new(
        "cid".to_owned(),
        "chal".to_owned(),
        "https://r.example/cb".to_owned(),
        "openid profile email".to_owned(),
        "sess".to_owned(),
    );
    let params = request.as_params();
    assert_eq!(params.len(), 11);
    assert_eq!(params[0], ("client_id", "cid".to_owned()));
    assert_eq!(params[1], ("response_type", "code".to_owned()));
    assert_eq!(params[2], ("code_challenge_method", "S256".to_owned()));
    assert_eq!(params[3], ("code_challenge", "chal".to_owned()));
    assert_eq!(params[4], ("redirect_uri", "https://r.example/cb".to_owned()));
    assert_eq!(params[5], ("scope", "openid profile email".to_owned()));
    assert_eq!(params[6], ("prompt", "none".to_owned()));
    assert_eq!(params[7], ("response_mode", "form_post".to_owned()));
    assert_eq!(params[8].0, "state");
    assert_eq!(params[9], ("sessionToken", "sess".to_owned()));
    assert_eq!(params[10].0, "nonce");
    assert_eq!(request.state.len(), 8);
    assert_eq!(request.nonce.len(), 8);
    assert!(request.state.chars().all(|c| c.is_ascii_alphanumeric()));
    assert!(request.nonce.chars().all(|c| c.is_ascii_alphanumeric()));
}

#[test]
fn authorize_url_carries_query_parameters() {
    let request = OktaAuthorizeRequest::new(
        "cid".to_owned(),
        "chal".to_owned(),
        "https://r.example/cb".to_owned(),
        "openid profile email".to_owned(),
        "sess".to_owned(),
    );
    let url = authorize_url("https://a.example/oauth2/v1/authorize", &request).unwrap();
    assert!(url.starts_with("https://a.example/oauth2/v1/authorize?"));
    assert!(url.contains("client_id=cid"));
    assert!(url.contains("response_type=code"));
    assert!(url.contains("code_challenge_method=S256"));
    assert!(url.contains("code_challenge=chal"));
    assert!(url.contains("prompt=none"));
    assert!(url.contains("response_mode=form_post"));
    assert!(url.contains("sessionToken=sess"));
    assert!(url.contains("scope=openid+profile+email"));
}

#[test]
fn authorize_url_with_bad_endpoint_fails() {
    let request = OktaAuthorizeRequest::new(
        "cid".to_owned(),
        "chal".to_owned(),
        "https://r.example/cb".to_owned(),
        "openid".to_owned(),
        "sess".to_owned(),
    );
    match authorize_url("not a url", &request) {
        Err(OktaClientError::General(m)) => assert_eq!(m, "Failed to create URL"),
        other => panic!("expected a general error, got {:?}", other),
    }
}

#[test]
fn error_messages_name_their_bucket() {
    assert_eq!(OktaClientError::Unknown.message(), "Unknown Error");
    assert_eq!(
        OktaClientError::General("g".to_owned()).message(),
        "General Error: g"
    );
    assert_eq!(
        OktaClientError::Network("n".to_owned()).message(),
        "Network Error: n"
    );
    assert_eq!(
        OktaClientError::OktaAPI("a".to_owned()).message(),
        "OKTA API Error: a"
    );
    assert_eq!(
        OktaClientError::Parser("p".to_owned()).message(),
        "Parser Error: p"
    );
}

#[test]
fn error_from_string_is_general() {
    match OktaClientError::from("boom".to_owned()) {
        OktaClientError::General(m) => assert_eq!(m, "boom"),
        other => panic!("expected a general error, got {:?}", other),
    }
}
