//! Validating the redirect callback of the authorization-code flow.
//!
//! The user's browser comes back to the registered redirect URI carrying
//! query parameters. [`redirect_token_request`] checks them in order: the
//! URL must parse; the `state` must be outstanding in the caller's
//! [`StateRegistry`] and is consumed either way; an `error` parameter
//! means the user declined; and the `code` parameter yields the token
//! request to send. Each failure keeps its own variant, so a caller can
//! tell a forged callback from a declined consent from a malformed URL.

use vstd::prelude::*;
use vstd::string::StringExecFns;

use crate::authorization::StateRegistry;
use crate::errors::Error;
use crate::text::pairs_view;
use crate::token::{spec_expiry, AccessToken, TokenRequest, TokenResponse};

verus! {

/// A redirect URL reduced to plain values: the serialization up to the
/// end of its path, and its decoded query pairs in order.
pub struct ParsedUrl {
    /// The URL up to and including the path, with query and fragment
    /// stripped: what the token exchange presents as `redirect_uri`.
    pub prefix: String,
    /// The decoded query pairs, in the order they appear.
    pub pairs: Vec<(String, String)>,
}

/// What `url::Url::parse` yields on a redirect URL: the serialization up
/// to the end of the path together with the decoded query pairs, or
/// nothing where the string is not a valid absolute URL.
pub uninterp spec fn url_parts_of(s: Seq<char>) -> Option<(Seq<char>, Seq<(Seq<char>, Seq<char>)>)>;

/// Relies on `url::Url::parse`, slicing by `url::Position::AfterPath` and
/// `url::Url::query_pairs`: parses the URL, takes its serialization up to
/// the end of the path, and decodes the query pairs in order.
#[verifier::external_body]
fn parse_url(s: &str) -> (r: Option<ParsedUrl>)
    ensures
        r is Some <==> url_parts_of(s@) is Some,
        r matches Some(p) ==> url_parts_of(s@) == Some((p.prefix@, pairs_view(p.pairs@))),
{
    match url::Url::parse(s) {
        Ok(u) => {
            let prefix = u[..url::Position::AfterPath].to_string();
            let pairs = u.query_pairs().map(|(k, v)| (k.into_owned(), v.into_owned())).collect();
            Some(ParsedUrl { prefix, pairs })
        },
        Err(_) => None,
    }
}

/// The value of the last pair carrying `key`, if any: a later duplicate
/// overrides an earlier one.
pub open spec fn spec_lookup(pairs: Seq<(Seq<char>, Seq<char>)>, key: Seq<char>) -> Option<
    Seq<char>,
>
    decreases pairs.len(),
{
    if pairs.len() == 0 {
        None
    } else if pairs.last().0 == key {
        Some(pairs.last().1)
    } else {
        spec_lookup(pairs.drop_last(), key)
    }
}

/// Find the value of the last pair carrying `key`.
pub fn pair_lookup(pairs: &Vec<(String, String)>, key: &str) -> (r: Option<String>)
    ensures
        match r {
            Some(v) => spec_lookup(pairs_view(pairs@), key@) == Some(v@),
            None => spec_lookup(pairs_view(pairs@), key@) is None,
        },
{
    let ghost pv = pairs_view(pairs@);
    let mut i: usize = pairs.len();
    proof {
        assert(pv.take(pairs@.len() as int) =~= pv);
    }
    while i > 0
        invariant
            i <= pairs@.len(),
            pv == pairs_view(pairs@),
            spec_lookup(pv, key@) == spec_lookup(pv.take(i as int), key@),
        decreases i,
    {
        i = i - 1;
        if crate::text::string_eq_lit(&pairs[i].0, key) {
            proof {
                assert(pv.take(i + 1).last() == pv[i as int]);
                assert(pv[i as int].0 == key@);
            }
            return Some(pairs[i].1.clone());
        }
        proof {
            assert(pv.take(i + 1).last() == pv[i as int]);
            assert(pv.take(i + 1).drop_last() =~= pv.take(i as int));
        }
    }
    None
}

/// An error value reported by the authorization server after a redirect,
/// as the `error` query parameter carried it.
#[derive(Debug, Clone)]
pub struct SpotifyRedirectError(pub String);

impl SpotifyRedirectError {
    /// The server's error value.
    pub fn message(&self) -> (r: &String)
        ensures
            r == self.0,
    {
        &self.0
    }
}

/// An error from validating a redirect callback.
#[derive(Debug)]
pub enum RedirectedError {
    /// The redirect URL is malformed: it does not parse, or carries no
    /// authorization code.
    InvalidUrl,
    /// The state parameter is missing, or is not an outstanding state.
    IncorrectState,
    /// The authorization server reported an error, most often that the
    /// user declined; carries the server's `error` value.
    AuthFailed(String),
    /// The token exchange that followed validation failed.
    Token(Error),
}

/// The decision a redirect callback leads to, over the parsed parts of
/// the URL and the set of outstanding states.
pub enum RedirectOutcome {
    /// The URL does not parse, or carries no code.
    BadUrl,
    /// The state is missing or not outstanding.
    BadState,
    /// The authorization server reported this error value.
    Denied {
        /// The server's `error` value.
        message: Seq<char>,
    },
    /// Exchange this code, presenting this redirect URI.
    Exchange {
        /// The one-time authorization code.
        code: Seq<char>,
        /// The redirect URI, stripped of its query string.
        redirect_uri: Seq<char>,
        /// The state that was consumed.
        state: Seq<char>,
    },
}

/// The outcome of validating a redirect whose URL parsed to `parts`
/// against the outstanding states `pending`.
pub open spec fn spec_redirect_outcome(
    parts: Option<(Seq<char>, Seq<(Seq<char>, Seq<char>)>)>,
    pending: Set<Seq<char>>,
) -> RedirectOutcome {
    match parts {
        None => RedirectOutcome::BadUrl,
        Some(p) => match spec_lookup(p.1, "state"@) {
            None => RedirectOutcome::BadState,
            Some(st) => if !pending.contains(st) {
                RedirectOutcome::BadState
            } else {
                match spec_lookup(p.1, "error"@) {
                    Some(msg) => RedirectOutcome::Denied { message: msg },
                    None => match spec_lookup(p.1, "code"@) {
                        None => RedirectOutcome::BadUrl,
                        Some(code) => RedirectOutcome::Exchange {
                            code,
                            redirect_uri: p.0,
                            state: st,
                        },
                    },
                }
            },
        },
    }
}

/// The outstanding states after the validation: a presented state is
/// consumed whether or not it was outstanding.
pub open spec fn spec_pending_after(
    parts: Option<(Seq<char>, Seq<(Seq<char>, Seq<char>)>)>,
    pending: Set<Seq<char>>,
) -> Set<Seq<char>> {
    match parts {
        None => pending,
        Some(p) => match spec_lookup(p.1, "state"@) {
            None => pending,
            Some(st) => pending.remove(st),
        },
    }
}

/// Validate a redirect callback and, on success, produce the token
/// request that exchanges its authorization code.
///
/// The checks run in order: the URL must parse (else [`RedirectedError::InvalidUrl`]);
/// its `state` must be outstanding and is consumed from the registry
/// either way (else [`RedirectedError::IncorrectState`]); an `error`
/// parameter fails with [`RedirectedError::AuthFailed`]; a missing `code`
/// fails with [`RedirectedError::InvalidUrl`].
pub fn redirect_token_request(url: &str, registry: &mut StateRegistry) -> (r: Result<
    TokenRequest,
    RedirectedError,
>)
    requires
        old(registry).wf(),
    ensures
        final(registry).wf(),
        final(registry)@ == spec_pending_after(url_parts_of(url@), old(registry)@),
        match spec_redirect_outcome(url_parts_of(url@), old(registry)@) {
            RedirectOutcome::BadUrl => r matches Err(RedirectedError::InvalidUrl),
            RedirectOutcome::BadState => r matches Err(RedirectedError::IncorrectState),
            RedirectOutcome::Denied { message } => r matches Err(RedirectedError::AuthFailed(m))
                && m@ == message,
            RedirectOutcome::Exchange { code, redirect_uri, state } => r matches Ok(
                TokenRequest::AuthorizationCode { code: c, redirect_uri: u },
            ) && c@ == code && u@ == redirect_uri,
        },
{
    let parsed = parse_url(url);
    match parsed {
        None => Err(RedirectedError::InvalidUrl),
        Some(p) => {
            let state = pair_lookup(&p.pairs, "state");
            match state {
                None => Err(RedirectedError::IncorrectState),
                Some(st) => {
                    let had = registry.consume(st.as_str());
                    if !had {
                        Err(RedirectedError::IncorrectState)
                    } else {
                        match pair_lookup(&p.pairs, "error") {
                            Some(msg) => Err(RedirectedError::AuthFailed(msg)),
                            None => match pair_lookup(&p.pairs, "code") {
                                None => Err(RedirectedError::InvalidUrl),
                                Some(code) => Ok(TokenRequest::AuthorizationCode {
                                    code,
                                    redirect_uri: p.prefix,
                                }),
                            },
                        }
                    }
                },
            }
        },
    }
}

/// A state accepted by one validation cannot be accepted by another:
/// whatever the first validation returned, a second redirect carrying the
/// same state meets the incorrect-state error.
pub proof fn lemma_redirect_state_single_use(
    parts1: Option<(Seq<char>, Seq<(Seq<char>, Seq<char>)>)>,
    parts2: Option<(Seq<char>, Seq<(Seq<char>, Seq<char>)>)>,
    pending: Set<Seq<char>>,
    state: Seq<char>,
)
    requires
        parts1 matches Some(p1) && spec_lookup(p1.1, "state"@) == Some(state),
        parts2 matches Some(p2) && spec_lookup(p2.1, "state"@) == Some(state),
    ensures
        spec_redirect_outcome(parts2, spec_pending_after(parts1, pending))
            == RedirectOutcome::BadState,
{
}

/// The token pair an authorization-code exchange yields at instant `now`:
/// the exchange response must carry a refresh token, unlike a
/// refresh-grant response, so a response without one is a parse failure.
pub fn exchange_token_pair(response: TokenResponse, now: u64) -> (r: Result<
    (AccessToken, String),
    Error,
>)
    ensures
        match response.refresh_token {
            Some(rt) => r matches Ok(p) && p.0 == (AccessToken {
                token: response.access_token,
                expires: spec_expiry(now, response.expires_in),
                refresh_token: Some(rt),
            }) && p.1 == rt,
            None => r matches Err(e) && e is Parse,
        },
{
    match response.refresh_token {
        Some(rt) => {
            let expires = crate::token::token_expiry(now, response.expires_in);
            Ok((
                AccessToken {
                    token: response.access_token,
                    expires,
                    refresh_token: Some(rt.clone()),
                },
                rt,
            ))
        },
        None => Err(Error::Parse(String::from_str("token response carries no refresh token"))),
    }
}

} // verus!
