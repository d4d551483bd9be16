//! Validating redirect callbacks: state consumption, user denial, and
//! the token request that a valid callback yields.

use aspotify::authorization::StateRegistry;
use aspotify::errors::Error;
use aspotify::redirect::{exchange_token_pair, redirect_token_request, RedirectedError};
use aspotify::token::{TokenRequest, TokenResponse};

fn registry_with(state: &str) -> StateRegistry {
    let mut registry = StateRegistry::new();
    registry.register(state.to_string());
    registry
}

#[test]
fn valid_redirect_yields_code_grant() {
    let mut registry = registry_with("state1234");
    let request = redirect_token_request(
        "https://example.com/callback?code=authcode&state=state1234",
        &mut registry,
    )
    .unwrap();
    match request {
        TokenRequest::AuthorizationCode { code, redirect_uri } => {
            assert_eq!(code, "authcode");
            assert_eq!(redirect_uri, "https://example.com/callback");
        }
        _ => panic!("expected the authorization-code grant"),
    }
}

#[test]
fn state_single_use_across_redirects() {
    let mut registry = registry_with("state1234");
    let url = "https://example.com/callback?code=authcode&state=state1234";
    assert!(redirect_token_request(url, &mut registry).is_ok());
    // The same callback again: the state was consumed, so it is refused.
    let second = redirect_token_request(url, &mut registry);
    assert!(matches!(second, Err(RedirectedError::IncorrectState)));
}

#[test]
fn state_consumed_even_when_user_denied() {
    let mut registry = registry_with("st");
    let denied = redirect_token_request(
        "https://example.com/callback?error=access_denied&state=st",
        &mut registry,
    );
    match denied {
        Err(RedirectedError::AuthFailed(message)) => assert_eq!(message, "access_denied"),
        _ => panic!("expected the denial to surface"),
    }
    assert!(!registry.contains("st"));
}

#[test]
fn malformed_url_is_refused() {
    let mut registry = registry_with("st");
    let r = redirect_token_request("not a url at all", &mut registry);
    assert!(matches!(r, Err(RedirectedError::InvalidUrl)));
    // Nothing was consumed.
    assert!(registry.contains("st"));
}

#[test]
fn missing_state_is_refused() {
    let mut registry = registry_with("st");
    let r = redirect_token_request("https://example.com/callback?code=c", &mut registry);
    assert!(matches!(r, Err(RedirectedError::IncorrectState)));
    assert!(registry.contains("st"));
}

#[test]
fn unknown_state_is_refused() {
    let mut registry = registry_with("st");
    let r = redirect_token_request(
        "https://example.com/callback?code=c&state=other",
        &mut registry,
    );
    assert!(matches!(r, Err(RedirectedError::IncorrectState)));
}

#[test]
fn missing_code_is_refused_after_consuming_the_state() {
    let mut registry = registry_with("st");
    let r = redirect_token_request("https://example.com/callback?state=st", &mut registry);
    assert!(matches!(r, Err(RedirectedError::InvalidUrl)));
    assert!(!registry.contains("st"));
}

#[test]
fn query_values_are_percent_decoded() {
    let mut registry = registry_with("st");
    let request = redirect_token_request(
        "https://example.com/callback?code=a%2Fb%20c&state=st",
        &mut registry,
    )
    .unwrap();
    match request {
        TokenRequest::AuthorizationCode { code, .. } => assert_eq!(code, "a/b c"),
        _ => panic!("expected the authorization-code grant"),
    }
}

#[test]
fn exchange_must_carry_a_refresh_token() {
    let good = TokenResponse {
        access_token: "bearer".to_string(),
        expires_in: 10,
        refresh_token: Some("refresh".to_string()),
    };
    let (token, refresh) = exchange_token_pair(good, 500).unwrap();
    assert_eq!(token.token, "bearer");
    assert_eq!(token.expires, 10_500);
    assert_eq!(token.refresh_token.as_deref(), Some("refresh"));
    assert_eq!(refresh, "refresh");

    let bad = TokenResponse {
        access_token: "bearer".to_string(),
        expires_in: 10,
        refresh_token: None,
    };
    assert!(matches!(exchange_token_pair(bad, 0), Err(Error::Parse(_))));
}

#[test]
fn spotify_redirect_error_carries_its_message() {
    let e = aspotify::redirect::SpotifyRedirectError("access_denied".to_string());
    assert_eq!(e.message().as_str(), "access_denied");
}
