//! The token cache and the steps of the token-acquisition protocol.
//!
//! A caller that needs a bearer token asks [`token_step`] what to do: use
//! the cached token (no network round-trip), or send a token request. When
//! a token request was sent, [`on_token_outcome`] folds the outcome back
//! into the cache: a success replaces the bearer string and expiry while
//! preserving the refresh token where the response omitted it; a failure
//! leaves the cache exactly as it was, so the next caller retries.

use vstd::prelude::*;
use vstd::string::StringExecFns;

use crate::errors::{AuthError, Error};
use crate::text::pairs_view;

verus! {

/// A cached access token: the bearer string, the instant (milliseconds) at
/// which it expires, and the refresh token, if the authorization-code flow
/// produced one.
pub struct AccessToken {
    /// The bearer string.
    pub token: String,
    /// The instant at which the token stops being usable, in milliseconds.
    pub expires: u64,
    /// The long-lived refresh token, if one is held.
    pub refresh_token: Option<String>,
}

impl AccessToken {
    /// An already-expired token, so that the first caller refreshes.
    pub fn expired() -> (r: AccessToken)
        ensures
            r.token@ == Seq::<char>::empty(),
            r.expires == 0,
            r.refresh_token is None,
    {
        AccessToken { token: String::new(), expires: 0, refresh_token: None }
    }

    /// An already-expired token that holds a refresh token, so that the
    /// first caller refreshes through the refresh-token grant.
    pub fn expired_with_refresh(refresh_token: String) -> (r: AccessToken)
        ensures
            r.token@ == Seq::<char>::empty(),
            r.expires == 0,
            r.refresh_token == Some(refresh_token),
    {
        AccessToken { token: String::new(), expires: 0, refresh_token: Some(refresh_token) }
    }

    /// Whether the token has expired at instant `now`.
    pub fn is_expired(&self, now: u64) -> (r: bool)
        ensures
            r == (self.expires <= now),
    {
        self.expires <= now
    }
}

/// A client-credentials access token: an app-only bearer string and its
/// expiry, with no refresh token involved.
pub struct CCToken {
    /// The bearer string.
    pub token: String,
    /// The instant at which the token stops being usable, in
    /// milliseconds.
    pub expires: u64,
}

impl CCToken {
    /// An already-expired token, so that the first caller refreshes.
    pub fn expired() -> (r: CCToken)
        ensures
            r.token@ == Seq::<char>::empty(),
            r.expires == 0,
    {
        CCToken { token: String::new(), expires: 0 }
    }

    /// Whether the token has expired at instant `now`.
    pub fn is_expired(&self, now: u64) -> (r: bool)
        ensures
            r == (self.expires <= now),
    {
        self.expires <= now
    }
}

/// A request to the token endpoint, one variant per grant type.
pub enum TokenRequest {
    /// Renew an access token through a held refresh token.
    RefreshToken {
        /// The refresh token to present.
        refresh_token: String,
    },
    /// Ask for an app-only token from the client credentials alone.
    ClientCredentials,
    /// Exchange a one-time authorization code for a token pair.
    AuthorizationCode {
        /// The code from the redirect callback.
        code: String,
        /// The redirect URI the code was delivered to, stripped of its
        /// query string.
        redirect_uri: String,
    },
}

/// The form fields a token request carries, in order.
pub open spec fn spec_form_pairs(r: TokenRequest) -> Seq<(Seq<char>, Seq<char>)> {
    match r {
        TokenRequest::RefreshToken { refresh_token } => seq![
            ("grant_type"@, "refresh_token"@),
            ("refresh_token"@, refresh_token@),
        ],
        TokenRequest::ClientCredentials => seq![("grant_type"@, "client_credentials"@)],
        TokenRequest::AuthorizationCode { code, redirect_uri } => seq![
            ("grant_type"@, "authorization_code"@),
            ("code"@, code@),
            ("redirect_uri"@, redirect_uri@),
        ],
    }
}

impl TokenRequest {
    /// The key-value pairs to send, form-encoded, to the token endpoint.
    pub fn form_pairs(&self) -> (r: Vec<(String, String)>)
        ensures
            pairs_view(r@) == spec_form_pairs(*self),
    {
        let mut v: Vec<(String, String)> = Vec::new();
        match self {
            TokenRequest::RefreshToken { refresh_token } => {
                v.push((String::from_str("grant_type"), String::from_str("refresh_token")));
                v.push((String::from_str("refresh_token"), refresh_token.clone()));
            },
            TokenRequest::ClientCredentials => {
                v.push((String::from_str("grant_type"), String::from_str("client_credentials")));
            },
            TokenRequest::AuthorizationCode { code, redirect_uri } => {
                v.push((String::from_str("grant_type"), String::from_str("authorization_code")));
                v.push((String::from_str("code"), code.clone()));
                v.push((String::from_str("redirect_uri"), redirect_uri.clone()));
            },
        }
        proof {
            assert(pairs_view(v@) =~= spec_form_pairs(*self));
        }
        v
    }
}

/// A successful body from the token endpoint, reduced to plain values.
pub struct TokenResponse {
    /// The new bearer string.
    pub access_token: String,
    /// The token's lifetime in seconds.
    pub expires_in: u64,
    /// A new refresh token, if the endpoint chose to rotate it.
    pub refresh_token: Option<String>,
}

/// The expiry instant of a token received at `now` with a lifetime of
/// `ttl_seconds`: `now + ttl`, saturating at the clock's end.
pub open spec fn spec_expiry(now: u64, ttl_seconds: u64) -> u64 {
    if now + ttl_seconds * 1000 <= u64::MAX {
        (now + ttl_seconds * 1000) as u64
    } else {
        u64::MAX
    }
}

/// Compute the expiry instant of a token received at `now`.
pub fn token_expiry(now: u64, ttl_seconds: u64) -> (r: u64)
    ensures
        r == spec_expiry(now, ttl_seconds),
{
    match ttl_seconds.checked_mul(1000) {
        Some(ms) => now.saturating_add(ms),
        None => u64::MAX,
    }
}

/// What a caller that needs a token must do.
pub enum TokenStep {
    /// The cache holds a live token: use it, make no request.
    Cached {
        /// The cached bearer string.
        token: String,
    },
    /// The cache is stale: send this request to the token endpoint.
    Refresh {
        /// The request to send.
        request: TokenRequest,
    },
}

/// The grant a stale cache refreshes through: the refresh-token grant when
/// a refresh token is held, the client-credentials grant otherwise.
pub open spec fn spec_grant_request(cache: AccessToken) -> TokenRequest {
    match cache.refresh_token {
        Some(rt) => TokenRequest::RefreshToken { refresh_token: rt },
        None => TokenRequest::ClientCredentials,
    }
}

/// The step [`token_step`] takes on a given cache at a given instant.
pub open spec fn spec_token_step(cache: AccessToken, now: u64) -> TokenStep {
    if now < cache.expires {
        TokenStep::Cached { token: cache.token }
    } else {
        TokenStep::Refresh { request: spec_grant_request(cache) }
    }
}

/// Decide how to produce a token at instant `now`: return the cached
/// bearer string while it is live, otherwise the token request to send.
pub fn token_step(cache: &AccessToken, now: u64) -> (step: TokenStep)
    ensures
        step == spec_token_step(*cache, now),
{
    if now < cache.expires {
        TokenStep::Cached { token: cache.token.clone() }
    } else {
        match &cache.refresh_token {
            Some(rt) => TokenStep::Refresh {
                request: TokenRequest::RefreshToken { refresh_token: rt.clone() },
            },
            None => TokenStep::Refresh { request: TokenRequest::ClientCredentials },
        }
    }
}

/// The cache after a successful token response received at `now`: the
/// bearer string and expiry are replaced; the refresh token is replaced
/// only when the response carries one, and kept otherwise.
pub open spec fn spec_apply_token_response(
    cache: AccessToken,
    response: TokenResponse,
    now: u64,
) -> AccessToken {
    AccessToken {
        token: response.access_token,
        expires: spec_expiry(now, response.expires_in),
        refresh_token: match response.refresh_token {
            Some(rt) => Some(rt),
            None => cache.refresh_token,
        },
    }
}

/// Replace the cache with the content of a successful token response
/// received at instant `now`.
pub fn apply_token_response(cache: &mut AccessToken, response: &TokenResponse, now: u64)
    ensures
        *final(cache) == spec_apply_token_response(*old(cache), *response, now),
{
    cache.token = response.access_token.clone();
    cache.expires = token_expiry(now, response.expires_in);
    match &response.refresh_token {
        Some(rt) => {
            cache.refresh_token = Some(rt.clone());
        },
        None => {},
    }
}

/// Fold the outcome of a token request back into the cache: a success
/// updates the cache and yields the new bearer string; a failure leaves
/// the cache untouched and surfaces the authentication error.
pub fn on_token_outcome(
    cache: &mut AccessToken,
    outcome: Result<TokenResponse, AuthError>,
    now: u64,
) -> (r: Result<String, Error>)
    ensures
        match outcome {
            Ok(response) => {
                &&& *final(cache) == spec_apply_token_response(*old(cache), response, now)
                &&& r matches Ok(t) && t == response.access_token
            },
            Err(e) => {
                &&& *final(cache) == *old(cache)
                &&& r matches Err(err) && err == Error::Auth(e)
            },
        },
{
    match outcome {
        Ok(response) => {
            apply_token_response(cache, &response, now);
            Ok(response.access_token)
        },
        Err(e) => Err(Error::Auth(e)),
    }
}

/// While the cached token is live, every caller is told to reuse the one
/// cached bearer string and no caller is told to make a request: two calls
/// within the lifetime take no round-trip and return the identical string.
pub proof fn lemma_token_reuse(cache: AccessToken, now1: u64, now2: u64)
    requires
        now1 < cache.expires,
        now2 < cache.expires,
    ensures
        spec_token_step(cache, now1) == (TokenStep::Cached { token: cache.token }),
        spec_token_step(cache, now2) == spec_token_step(cache, now1),
{
}

/// Once the cached expiry lies at or before `now`, the step is always a
/// refresh round-trip, however recently the last call was made.
pub proof fn lemma_expired_always_refreshes(cache: AccessToken, now: u64)
    requires
        cache.expires <= now,
    ensures
        spec_token_step(cache, now) is Refresh,
        spec_token_step(cache, now) == (TokenStep::Refresh { request: spec_grant_request(cache) }),
{
}

/// A refresh-grant response that omits the refresh token leaves the held
/// refresh token exactly as it was, never empty.
pub proof fn lemma_refresh_token_preserved(cache: AccessToken, response: TokenResponse, now: u64)
    requires
        response.refresh_token is None,
    ensures
        spec_apply_token_response(cache, response, now).refresh_token == cache.refresh_token,
{
}

} // verus!
