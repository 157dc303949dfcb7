use auth_token::pkce::{b64url_encode, PKCE};
use base64::engine::general_purpose::URL_SAFE_NO_PAD;
use base64::Engine;
use sha2::{Digest, Sha256};

fn is_verifier_char(c: char) -> bool {
    c.is_ascii_alphanumeric() || c == '-' || c == '.' || c == '~' || c == '_'
}

#[test]
fn challenge_is_base64url_of_sha256_of_verifier() {
    let pkce = PKCE::new();
    let digest = Sha256::digest(pkce.code_verifier.as_bytes());
    let expected = URL_SAFE_NO_PAD.encode(digest);
    assert_eq!(pkce.code_challenge, expected);
}

#[test]
fn challenge_has_no_padding_and_is_43_chars() {
    let pkce = PKCE::new();
    assert_eq!(pkce.code_challenge.len(), 43);
    assert!(!pkce.code_challenge.contains('='));
    assert!(!pkce.code_challenge.contains('+'));
    assert!(!pkce.code_challenge.contains('/'));
}

#[test]
fn verifier_is_128_unreserved_chars() {
    let pkce = PKCE::new();
    assert_eq!(pkce.code_verifier.len(), 128);
    assert!(pkce.code_verifier.chars().all(is_verifier_char));
}

#[test]
fn two_generations_give_different_verifiers() {
    let first = PKCE::new();
    let second = PKCE::new();
    assert_ne!(first.code_verifier, second.code_verifier);
    assert_ne!(first.code_challenge, second.code_challenge);
}

#[test]
fn b64url_encode_matches_base64_crate() {
    let cases: Vec<Vec<u8>> = vec![
        vec![],
        vec![0],
        vec![255],
        vec![1, 2],
        vec![251, 239],
        vec![0, 0, 0],
        vec![104, 101, 108, 108, 111],
        (0u8..=255).collect(),
    ];
    for bytes in cases {
        assert_eq!(b64url_encode(&bytes), URL_SAFE_NO_PAD.encode(&bytes));
    }
}

#[test]
fn b64url_encode_known_value() {
    let bytes: Vec<u8> = b"any carnal pleasure.".to_vec();
    assert_eq!(b64url_encode(&bytes), "YW55IGNhcm5hbCBwbGVhc3VyZS4");
    assert_eq!(b64url_encode(&vec![]), "");
}
