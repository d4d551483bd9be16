//! The token cache: reuse within the lifetime, refresh after it, and
//! refresh-token preservation.

use aspotify::errors::AuthError;
use aspotify::token::{
    on_token_outcome, token_expiry, token_step, AccessToken, TokenRequest, TokenResponse,
    TokenStep,
};

/// A caller that needs a token at instant `now`: takes the protocol
/// step, and counts how often the network would have been hit.
fn get_token(cache: &mut AccessToken, now: u64, round_trips: &mut usize) -> String {
    match token_step(cache, now) {
        TokenStep::Cached { token } => token,
        TokenStep::Refresh { request } => {
            *round_trips += 1;
            let response = match request {
                TokenRequest::RefreshToken { .. } | TokenRequest::ClientCredentials => {
                    TokenResponse {
                        access_token: format!("token-{}", *round_trips),
                        expires_in: 3600,
                        refresh_token: None,
                    }
                }
                TokenRequest::AuthorizationCode { .. } => panic!("no code grant in this flow"),
            };
            on_token_outcome(cache, Ok(response), now).unwrap()
        }
    }
}

#[test]
fn token_reuse_within_ttl() {
    let mut cache = AccessToken::expired();
    let mut round_trips = 0;
    let first = get_token(&mut cache, 0, &mut round_trips);
    assert_eq!(round_trips, 1);
    let second = get_token(&mut cache, 1_000, &mut round_trips);
    assert_eq!(round_trips, 1, "the second call within the TTL must not hit the network");
    assert_eq!(first, second);
    assert_eq!(second, "token-1");
}

#[test]
fn expiry_triggers_refresh() {
    let mut cache = AccessToken::expired();
    let mut round_trips = 0;
    let _ = get_token(&mut cache, 0, &mut round_trips);
    // Push the cached expiry into the past: the next call must go to the
    // network however recent the previous call was.
    cache.expires = 5;
    let _ = get_token(&mut cache, 6, &mut round_trips);
    assert_eq!(round_trips, 2);
    let step = token_step(&cache, cache.expires);
    assert!(matches!(step, TokenStep::Refresh { .. }));
}

#[test]
fn refresh_token_preserved_when_response_omits_it() {
    let mut cache = AccessToken::expired_with_refresh("refresh-1".to_string());
    let response = TokenResponse {
        access_token: "bearer-2".to_string(),
        expires_in: 60,
        refresh_token: None,
    };
    let token = on_token_outcome(&mut cache, Ok(response), 1_000).unwrap();
    assert_eq!(token, "bearer-2");
    assert_eq!(cache.token, "bearer-2");
    assert_eq!(cache.expires, 61_000);
    assert_eq!(cache.refresh_token.as_deref(), Some("refresh-1"));
}

#[test]
fn refresh_token_replaced_when_response_carries_one() {
    let mut cache = AccessToken::expired_with_refresh("refresh-1".to_string());
    let response = TokenResponse {
        access_token: "bearer-2".to_string(),
        expires_in: 60,
        refresh_token: Some("refresh-2".to_string()),
    };
    on_token_outcome(&mut cache, Ok(response), 0).unwrap();
    assert_eq!(cache.refresh_token.as_deref(), Some("refresh-2"));
}

#[test]
fn failed_refresh_leaves_cache_untouched() {
    let mut cache = AccessToken::expired_with_refresh("refresh-1".to_string());
    cache.token = "stale".to_string();
    cache.expires = 7;
    let outcome = on_token_outcome(
        &mut cache,
        Err(AuthError {
            error: "invalid_client".to_string(),
            error_description: "bad secret".to_string(),
        }),
        1_000,
    );
    assert!(outcome.is_err());
    assert_eq!(cache.token, "stale");
    assert_eq!(cache.expires, 7);
    assert_eq!(cache.refresh_token.as_deref(), Some("refresh-1"));
}

#[test]
fn grant_choice_follows_held_refresh_token() {
    let with_refresh = AccessToken::expired_with_refresh("r".to_string());
    match token_step(&with_refresh, 0) {
        TokenStep::Refresh { request: TokenRequest::RefreshToken { refresh_token } } => {
            assert_eq!(refresh_token, "r");
        }
        _ => panic!("a held refresh token must be used"),
    }
    let without = AccessToken::expired();
    assert!(matches!(
        token_step(&without, 0),
        TokenStep::Refresh { request: TokenRequest::ClientCredentials }
    ));
}

#[test]
fn form_pairs_carry_the_grant() {
    let pairs = TokenRequest::ClientCredentials.form_pairs();
    assert_eq!(pairs, vec![("grant_type".to_string(), "client_credentials".to_string())]);
    let pairs = TokenRequest::RefreshToken { refresh_token: "rt".to_string() }.form_pairs();
    assert_eq!(
        pairs,
        vec![
            ("grant_type".to_string(), "refresh_token".to_string()),
            ("refresh_token".to_string(), "rt".to_string()),
        ]
    );
    let pairs = TokenRequest::AuthorizationCode {
        code: "c".to_string(),
        redirect_uri: "https://example.com/cb".to_string(),
    }
    .form_pairs();
    assert_eq!(pairs.len(), 3);
    assert_eq!(pairs[0], ("grant_type".to_string(), "authorization_code".to_string()));
    assert_eq!(pairs[1], ("code".to_string(), "c".to_string()));
    assert_eq!(pairs[2], ("redirect_uri".to_string(), "https://example.com/cb".to_string()));
}

#[test]
fn expiry_saturates_at_the_clock_end() {
    assert_eq!(token_expiry(0, 60), 60_000);
    assert_eq!(token_expiry(u64::MAX - 1, 60), u64::MAX);
    assert_eq!(token_expiry(5, u64::MAX), u64::MAX);
}
