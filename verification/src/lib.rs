//! A verified core for a Spotify Web API client.
//!
//! The crate covers the stateful heart of such a client: OAuth2 token
//! caching and refresh ([`token`]), the authorization-code redirect flow
//! with single-use anti-forgery states ([`authorization`] and [`redirect`]),
//! request dispatch with rate-limit retries and cache-lifetime computation
//! ([`dispatch`]), batched multi-ID requests ([`batch`]), the error envelope
//! returned by the remote endpoints ([`envelope`]), and the plain data model
//! ([`model`]).
//!
//! Network I/O itself is left to the caller: every function here is a step
//! of a protocol, taking plain values (what was received, the current
//! instant) and returning plain values (what to send, what to store).
//! Instants are carried as milliseconds on a monotonic clock, and durations
//! as the units the wire format uses (seconds for token lifetimes and
//! rate-limit waits).

use vstd::prelude::*;

pub mod authorization;
pub mod envelope;
pub mod batch;
pub mod dispatch;
pub mod errors;
pub mod model;
pub mod redirect;
pub mod text;
pub mod token;

verus! {

/// The result of a request to an endpoint: the payload together with the
/// instant (milliseconds) at which any HTTP cache freshness attached to it
/// expires.
pub struct Response<T> {
    /// The data itself.
    pub data: T,
    /// When the cache expires, in milliseconds on the caller's clock.
    pub expires: u64,
}

impl<T> Response<T> {
    /// Map the contained data, keeping the cache expiry.
    pub fn map<U, F: FnOnce(T) -> U>(self, f: F) -> (r: Response<U>)
        requires
            call_requires(f, (self.data,)),
        ensures
            r.expires == self.expires,
            call_ensures(f, (self.data,), r.data),
    {
        Response { data: f(self.data), expires: self.expires }
    }
}

/// A client identifier and client secret pair, as issued by the remote
/// service's application dashboard.
pub struct ClientCredentials {
    /// The client ID.
    pub id: String,
    /// The client secret.
    pub secret: String,
}

impl ClientCredentials {
    /// Credentials from explicit values.
    pub fn new(id: String, secret: String) -> (r: ClientCredentials)
        ensures
            r.id == id,
            r.secret == secret,
    {
        ClientCredentials { id, secret }
    }

    /// Credentials with empty ID and secret.
    pub fn empty() -> (r: ClientCredentials)
        ensures
            r.id@ == Seq::<char>::empty(),
            r.secret@ == Seq::<char>::empty(),
    {
        ClientCredentials { id: String::new(), secret: String::new() }
    }
}

} // verus!
