//! Authorization URLs and the single-use anti-forgery state registry.

use aspotify::authorization::{
    authorization_url, authorization_url_with_state, get_authorization_url, random_state,
    scopes_joined, Scope, StateRegistry,
};

#[test]
fn authorization_url_carries_the_query() {
    let scopes = vec![Scope::UserReadPlaybackState, Scope::PlaylistReadPrivate];
    let url = authorization_url_with_state(
        "client123",
        &scopes,
        false,
        "https://example.com/callback",
        "state456",
    )
    .unwrap();
    assert_eq!(
        url,
        "https://accounts.spotify.com/authorize?response_type=code&state=state456&\
         client_id=client123&scope=user-read-playback-state+playlist-read-private&\
         show_dialog=false&redirect_uri=https%3A%2F%2Fexample.com%2Fcallback"
    );
}

#[test]
fn force_approve_sets_show_dialog() {
    let url =
        authorization_url_with_state("id", &vec![], true, "https://example.com/cb", "s").unwrap();
    assert!(url.contains("show_dialog=true"));
}

#[test]
fn scopes_join_with_spaces() {
    assert_eq!(scopes_joined(&vec![]), "");
    assert_eq!(scopes_joined(&vec![Scope::Streaming]), "streaming");
    assert_eq!(
        scopes_joined(&vec![Scope::UgcImageUpload, Scope::UserTopRead, Scope::UserReadEmail]),
        "ugc-image-upload user-top-read user-read-email"
    );
}

#[test]
fn random_state_has_shape() {
    let alphabet = "ABCDEFGHIJKLMNOPQRSTUVWXYZabcdefghijklmnopqrstuvwxyz0123456789-_.~";
    for _ in 0..20 {
        let state = random_state();
        assert_eq!(state.chars().count(), 16);
        assert!(state.chars().all(|c| alphabet.contains(c)));
    }
}

#[test]
fn random_url_returns_its_state() {
    let (url, state) = authorization_url("id", &vec![], false, "https://example.com/cb").unwrap();
    // The state travels form-encoded: of its alphabet only `~` is escaped.
    let encoded = state.replace('~', "%7E");
    assert!(url.contains(&format!("state={}", encoded)));
}

#[test]
fn state_single_use_in_registry() {
    let mut registry = StateRegistry::new();
    registry.register("abcdefgh12345678".to_string());
    assert!(registry.contains("abcdefgh12345678"));
    assert!(registry.consume("abcdefgh12345678"));
    assert!(!registry.contains("abcdefgh12345678"));
    assert!(!registry.consume("abcdefgh12345678"), "a consumed state must not be accepted again");
}

#[test]
fn register_is_idempotent() {
    let mut registry = StateRegistry::new();
    registry.register("s1".to_string());
    registry.register("s1".to_string());
    assert!(registry.consume("s1"));
    assert!(!registry.consume("s1"));
}

#[test]
fn registered_url_state_is_outstanding() {
    let mut registry = StateRegistry::new();
    let (url, state) =
        get_authorization_url("id", &vec![], false, "https://example.com/cb", &mut registry)
            .unwrap();
    let encoded = state.replace('~', "%7E");
    assert!(url.contains(&format!("state={}", encoded)));
    assert!(registry.contains(state.as_str()));
    assert!(registry.consume(state.as_str()));
    assert!(!registry.contains(state.as_str()));
}
