//! Building authorization URLs and tracking the anti-forgery states that
//! were handed out with them.
//!
//! Each authorization URL carries a random `state` value. The
//! [`StateRegistry`] holds every state that is still outstanding; a state
//! is removed the moment a redirect presenting it is validated, so it can
//! never be accepted twice.

use vstd::prelude::*;
use vstd::string::{StrSliceExecFns, StringExecFns};

use crate::text::pairs_view;

verus! {

/// A scope that the user can grant access to.
#[derive(Debug, Clone, Copy, PartialEq, Eq, Hash, Structural)]
#[allow(missing_docs)]
pub enum Scope {
    UgcImageUpload,
    UserReadPlaybackState,
    UserModifyPlaybackState,
    UserReadCurrentlyPlaying,
    Streaming,
    AppRemoteControl,
    UserReadEmail,
    UserReadPrivate,
    PlaylistReadCollaborative,
    PlaylistModifyPublic,
    PlaylistReadPrivate,
    PlaylistModifyPrivate,
    UserLibraryModify,
    UserLibraryRead,
    UserTopRead,
    UserReadRecentlyPlayed,
    UserReadPlaybackPosition,
    UserFollowRead,
    UserFollowModify,
}

/// The kebab-case name of a scope on the wire.
pub open spec fn spec_scope_str(s: Scope) -> Seq<char> {
    match s {
        Scope::UgcImageUpload => "ugc-image-upload"@,
        Scope::UserReadPlaybackState => "user-read-playback-state"@,
        Scope::UserModifyPlaybackState => "user-modify-playback-state"@,
        Scope::UserReadCurrentlyPlaying => "user-read-currently-playing"@,
        Scope::Streaming => "streaming"@,
        Scope::AppRemoteControl => "app-remote-control"@,
        Scope::UserReadEmail => "user-read-email"@,
        Scope::UserReadPrivate => "user-read-private"@,
        Scope::PlaylistReadCollaborative => "playlist-read-collaborative"@,
        Scope::PlaylistModifyPublic => "playlist-modify-public"@,
        Scope::PlaylistReadPrivate => "playlist-read-private"@,
        Scope::PlaylistModifyPrivate => "playlist-modify-private"@,
        Scope::UserLibraryModify => "user-library-modify"@,
        Scope::UserLibraryRead => "user-library-read"@,
        Scope::UserTopRead => "user-top-read"@,
        Scope::UserReadRecentlyPlayed => "user-read-recently-played"@,
        Scope::UserReadPlaybackPosition => "user-read-playback-position"@,
        Scope::UserFollowRead => "user-follow-read"@,
        Scope::UserFollowModify => "user-follow-modify"@,
    }
}

impl Scope {
    /// Get the scope as a string, in the kebab-case the wire requires.
    pub fn as_str(self) -> (r: &'static str)
        ensures
            r@ == spec_scope_str(self),
    {
        match self {
            Self::UgcImageUpload => "ugc-image-upload",
            Self::UserReadPlaybackState => "user-read-playback-state",
            Self::UserModifyPlaybackState => "user-modify-playback-state",
            Self::UserReadCurrentlyPlaying => "user-read-currently-playing",
            Self::Streaming => "streaming",
            Self::AppRemoteControl => "app-remote-control",
            Self::UserReadEmail => "user-read-email",
            Self::UserReadPrivate => "user-read-private",
            Self::PlaylistReadCollaborative => "playlist-read-collaborative",
            Self::PlaylistModifyPublic => "playlist-modify-public",
            Self::PlaylistReadPrivate => "playlist-read-private",
            Self::PlaylistModifyPrivate => "playlist-modify-private",
            Self::UserLibraryModify => "user-library-modify",
            Self::UserLibraryRead => "user-library-read",
            Self::UserTopRead => "user-top-read",
            Self::UserReadRecentlyPlayed => "user-read-recently-played",
            Self::UserReadPlaybackPosition => "user-read-playback-position",
            Self::UserFollowRead => "user-follow-read",
            Self::UserFollowModify => "user-follow-modify",
        }
    }
}

/// The scope names joined with single spaces, in order.
pub open spec fn spec_scopes_joined(scopes: Seq<Scope>) -> Seq<char>
    decreases scopes.len(),
{
    if scopes.len() == 0 {
        Seq::empty()
    } else if scopes.len() == 1 {
        spec_scope_str(scopes[0])
    } else {
        spec_scopes_joined(scopes.drop_last()) + " "@ + spec_scope_str(scopes.last())
    }
}

/// Join the scope names with single spaces, in order.
pub fn scopes_joined(scopes: &Vec<Scope>) -> (r: String)
    ensures
        r@ == spec_scopes_joined(scopes@),
{
    let mut out = String::new();
    let mut i: usize = 0;
    while i < scopes.len()
        invariant
            i <= scopes@.len(),
            out@ == spec_scopes_joined(scopes@.take(i as int)),
        decreases scopes@.len() - i,
    {
        if i > 0 {
            out.append(" ");
        }
        out.append(scopes[i].as_str());
        proof {
            assert(scopes@.take(i + 1).drop_last() =~= scopes@.take(i as int));
            assert(scopes@.take(i + 1).last() == scopes@[i as int]);
            if i == 0 {
                assert(out@ =~= spec_scopes_joined(scopes@.take(1)));
            } else {
                assert(out@ =~= spec_scopes_joined(scopes@.take(i + 1)));
            }
        }
        i = i + 1;
    }
    proof {
        assert(scopes@.take(scopes@.len() as int) =~= scopes@);
    }
    out
}

/// The set of outstanding, not-yet-consumed anti-forgery states.
///
/// Each state appears at most once; consuming a state removes it, so a
/// second redirect presenting the same state is rejected.
pub struct StateRegistry {
    states: Vec<String>,
}

impl View for StateRegistry {
    type V = Set<Seq<char>>;

    closed spec fn view(&self) -> Set<Seq<char>> {
        self.states@.map_values(|s: String| s@).to_set()
    }
}

impl StateRegistry {
    /// No two held states read the same.
    pub closed spec fn wf(self) -> bool {
        forall|i: int, j: int|
            0 <= i < j < self.states@.len() ==> self.states@[i]@ != self.states@[j]@
    }

    /// An empty registry.
    pub fn new() -> (r: StateRegistry)
        ensures
            r@ == Set::<Seq<char>>::empty(),
            r.wf(),
    {
        let r = StateRegistry { states: Vec::new() };
        proof {
            assert(r.states@.map_values(|s: String| s@) =~= Seq::<Seq<char>>::empty());
            assert(r@ =~= Set::<Seq<char>>::empty());
        }
        r
    }

    /// Whether `state` is outstanding.
    pub fn contains(&self, state: &str) -> (r: bool)
        ensures
            r == self@.contains(state@),
    {
        let ghost views = self.states@.map_values(|s: String| s@);
        let mut i: usize = 0;
        while i < self.states.len()
            invariant
                i <= self.states@.len(),
                views == self.states@.map_values(|s: String| s@),
                forall|j: int| 0 <= j < i ==> #[trigger] views[j] != state@,
            decreases self.states@.len() - i,
        {
            if crate::text::string_eq_lit(&self.states[i], state) {
                proof {
                    assert(views[i as int] == state@);
                    assert(views.contains(state@));
                }
                return true;
            }
            i = i + 1;
        }
        proof {
            if views.contains(state@) {
                let k = choose|k: int| 0 <= k < views.len() && views[k] == state@;
                assert(views[k] != state@);
            }
        }
        false
    }

    /// Add a freshly generated state to the outstanding set.
    pub fn register(&mut self, state: String)
        requires
            old(self).wf(),
        ensures
            final(self)@ == old(self)@.insert(state@),
            final(self).wf(),
    {
        if !self.contains(state.as_str()) {
            let ghost before = self.states@;
            self.states.push(state);
            proof {
                let after_views = self.states@.map_values(|s: String| s@);
                let before_views = before.map_values(|s: String| s@);
                assert(after_views =~= before_views.push(state@));
                assert(after_views.to_set() =~= before_views.to_set().insert(state@)) by {
                    assert forall|x: Seq<char>| after_views.to_set().contains(x) implies
                        before_views.to_set().insert(state@).contains(x) by {
                        let k = choose|k: int|
                            0 <= k < after_views.len() && after_views[k] == x;
                        if k < before_views.len() {
                            assert(before_views[k] == x);
                        }
                    }
                    assert forall|x: Seq<char>|
                        before_views.to_set().insert(state@).contains(x) implies
                        after_views.to_set().contains(x) by {
                        if x == state@ {
                            assert(after_views[after_views.len() - 1] == x);
                        } else {
                            let k = choose|k: int|
                                0 <= k < before_views.len() && before_views[k] == x;
                            assert(after_views[k] == x);
                        }
                    }
                }
                assert forall|i: int, j: int|
                    0 <= i < j < self.states@.len() implies self.states@[i]@ != self.states@[j]@ by {
                    if j == self.states@.len() - 1 {
                        assert(before_views[i] == before.map_values(|s: String| s@)[i]);
                        assert(!before_views.to_set().contains(state@));
                        assert(before_views[i] != state@);
                    }
                }
            }
        } else {
            proof {
                assert(old(self)@.insert(state@) =~= old(self)@);
            }
        }
    }

    /// Consume `state`: report whether it was outstanding, and remove it
    /// either way, so it cannot be accepted again.
    pub fn consume(&mut self, state: &str) -> (r: bool)
        requires
            old(self).wf(),
        ensures
            r == old(self)@.contains(state@),
            final(self)@ == old(self)@.remove(state@),
            final(self).wf(),
    {
        let ghost before = self.states@;
        let ghost before_views = before.map_values(|s: String| s@);
        let mut i: usize = 0;
        while i < self.states.len()
            invariant
                i <= self.states@.len(),
                self.states@ == before,
                old(self).wf(),
                self.states@ == old(self).states@,
                before_views == before.map_values(|s: String| s@),
                forall|j: int| 0 <= j < i ==> #[trigger] before_views[j] != state@,
            decreases self.states@.len() - i,
        {
            if crate::text::string_eq_lit(&self.states[i], state) {
                self.states.remove(i);
                proof {
                    let after_views = self.states@.map_values(|s: String| s@);
                    assert(before[i as int]@ == state@);
                    assert(before_views[i as int] == before[i as int]@);
                    assert(before_views[i as int] == state@);
                    assert(after_views =~= before_views.subrange(0, i as int) + before_views.subrange(
                        i + 1,
                        before_views.len() as int,
                    ));
                    assert(before_views.to_set().contains(state@));
                    assert(after_views.to_set() =~= before_views.to_set().remove(state@)) by {
                        assert forall|x: Seq<char>| after_views.to_set().contains(x) implies
                            before_views.to_set().remove(state@).contains(x) by {
                            let k = choose|k: int|
                                0 <= k < after_views.len() && after_views[k] == x;
                            if k < i {
                                assert(before_views[k] == x);
                                assert(x != state@);
                            } else {
                                assert(before_views[k + 1] == x);
                                assert(x != state@);
                            }
                        }
                        assert forall|x: Seq<char>|
                            before_views.to_set().remove(state@).contains(x) implies
                            after_views.to_set().contains(x) by {
                            let k = choose|k: int|
                                0 <= k < before_views.len() && before_views[k] == x;
                            if k < i {
                                assert(after_views[k] == x);
                            } else {
                                assert(k != i);
                                assert(after_views[k - 1] == x);
                            }
                        }
                    }
                    assert forall|a: int, b: int|
                        0 <= a < b < self.states@.len() implies self.states@[a]@
                            != self.states@[b]@ by {
                        let a0 = if a < i { a } else { a + 1 };
                        let b0 = if b < i { b } else { b + 1 };
                        assert(self.states@[a]@ == before_views[a0]);
                        assert(self.states@[b]@ == before_views[b0]);
                    }
                }
                return true;
            }
            i = i + 1;
        }
        proof {
            assert forall|j: int| 0 <= j < before_views.len() implies before_views[j]
                != state@ by {}
            if before_views.to_set().contains(state@) {
                let k = choose|k: int|
                    0 <= k < before_views.len() && before_views[k] == state@;
            }
            assert(!old(self)@.contains(state@));
            assert(old(self)@.remove(state@) =~= old(self)@);
        }
        false
    }
}

/// A state that has just been consumed is no longer outstanding: a second
/// attempt to consume it finds nothing, whatever the first attempt's
/// outcome was.
pub proof fn lemma_state_single_use(pending: Set<Seq<char>>, state: Seq<char>)
    ensures
        !pending.remove(state).contains(state),
{
}

/// Relies on rand's `Rng::gen_range` on `thread_rng`: a drawn index lies
/// below the exclusive upper bound. The range is non-empty by the
/// precondition, so the call cannot panic.
#[verifier::external_body]
fn random_index(bound: usize) -> (r: usize)
    requires
        bound > 0,
    ensures
        r < bound,
{
    rand::Rng::gen_range(&mut rand::thread_rng(), 0..bound)
}

/// The characters an anti-forgery state is drawn from: the unreserved URL
/// characters.
pub open spec fn spec_state_alphabet() -> Seq<char> {
    "ABCDEFGHIJKLMNOPQRSTUVWXYZabcdefghijklmnopqrstuvwxyz0123456789-_.~"@
}

/// Whether every character of `s` comes from the state alphabet.
pub open spec fn all_from_state_alphabet(s: Seq<char>) -> bool {
    forall|i: int| 0 <= i < s.len() ==> spec_state_alphabet().contains(#[trigger] s[i])
}

/// Generate a random anti-forgery state: sixteen characters drawn from
/// the unreserved alphabet.
pub fn random_state() -> (r: String)
    ensures
        r@.len() == 16,
        all_from_state_alphabet(r@),
{
    let alphabet = "ABCDEFGHIJKLMNOPQRSTUVWXYZabcdefghijklmnopqrstuvwxyz0123456789-_.~";
    proof {
        reveal_strlit("ABCDEFGHIJKLMNOPQRSTUVWXYZabcdefghijklmnopqrstuvwxyz0123456789-_.~");
    }
    let mut out = String::new();
    let mut i: usize = 0;
    while i < 16
        invariant
            i <= 16,
            out@.len() == i,
            all_from_state_alphabet(out@),
            alphabet@ == spec_state_alphabet(),
            alphabet@.len() == 66,
        decreases 16 - i,
    {
        let idx = random_index(66);
        let c = alphabet.get_char(idx);
        out.push(c);
        proof {
            assert(spec_state_alphabet()[idx as int] == c);
            assert(spec_state_alphabet().contains(c));
            assert(all_from_state_alphabet(out@));
        }
        i = i + 1;
    }
    out
}

/// The fixed base of every authorization URL.
pub open spec fn spec_authorize_base() -> Seq<char> {
    "https://accounts.spotify.com/authorize"@
}

/// The query pairs of an authorization URL, in order.
pub open spec fn spec_authorize_params(
    client_id: Seq<char>,
    scopes: Seq<Scope>,
    force_approve: bool,
    redirect_uri: Seq<char>,
    state: Seq<char>,
) -> Seq<(Seq<char>, Seq<char>)> {
    seq![
        ("response_type"@, "code"@),
        ("state"@, state),
        ("client_id"@, client_id),
        ("scope"@, spec_scopes_joined(scopes)),
        ("show_dialog"@, if force_approve { "true"@ } else { "false"@ }),
        ("redirect_uri"@, redirect_uri),
    ]
}

/// What `url::Url::parse_with_params` yields for a base URL and query
/// pairs: the serialized URL with the pairs appended form-encoded, or
/// nothing where the base does not parse as an absolute URL.
pub uninterp spec fn url_with_params_spec(
    base: Seq<char>,
    params: Seq<(Seq<char>, Seq<char>)>,
) -> Option<Seq<char>>;

/// Relies on `url::Url::parse_with_params`: parses `base` as an absolute
/// URL and appends each pair of `params`, form-encoded, to its query.
#[verifier::external_body]
fn url_with_params(base: &str, params: &Vec<(String, String)>) -> (r: Option<String>)
    ensures
        r is Some <==> url_with_params_spec(base@, pairs_view(params@)) is Some,
        r matches Some(u) ==> url_with_params_spec(base@, pairs_view(params@)) == Some(u@),
{
    match url::Url::parse_with_params(base, params.as_slice()) {
        Ok(u) => Some(String::from(u)),
        Err(_) => None,
    }
}

/// Build the authorization URL for a state the caller supplies.
///
/// Returns `None` only where the URL library refuses the assembled input.
pub fn authorization_url_with_state(
    client_id: &str,
    scopes: &Vec<Scope>,
    force_approve: bool,
    redirect_uri: &str,
    state: &str,
) -> (r: Option<String>)
    ensures
        r is Some <==> url_with_params_spec(
            spec_authorize_base(),
            spec_authorize_params(client_id@, scopes@, force_approve, redirect_uri@, state@),
        ) is Some,
        r matches Some(u) ==> Some(u@) == url_with_params_spec(
            spec_authorize_base(),
            spec_authorize_params(client_id@, scopes@, force_approve, redirect_uri@, state@),
        ),
{
    let mut params: Vec<(String, String)> = Vec::new();
    params.push((String::from_str("response_type"), String::from_str("code")));
    params.push((String::from_str("state"), String::from_str(state)));
    params.push((String::from_str("client_id"), String::from_str(client_id)));
    params.push((String::from_str("scope"), scopes_joined(scopes)));
    let dialog = if force_approve {
        String::from_str("true")
    } else {
        String::from_str("false")
    };
    params.push((String::from_str("show_dialog"), dialog));
    params.push((String::from_str("redirect_uri"), String::from_str(redirect_uri)));
    proof {
        assert(pairs_view(params@) =~= spec_authorize_params(
            client_id@,
            scopes@,
            force_approve,
            redirect_uri@,
            state@,
        ));
    }
    url_with_params("https://accounts.spotify.com/authorize", &params)
}

/// Build an authorization URL with a freshly generated random state, and
/// return both. The caller keeps the state to check the redirect against.
///
/// Returns `None` only where the URL library refuses the assembled input
/// for the drawn state.
pub fn authorization_url(
    client_id: &str,
    scopes: &Vec<Scope>,
    force_approve: bool,
    redirect_uri: &str,
) -> (r: Option<(String, String)>)
    ensures
        r matches Some(p) ==> {
            &&& p.1@.len() == 16
            &&& all_from_state_alphabet(p.1@)
            &&& Some(p.0@) == url_with_params_spec(
                spec_authorize_base(),
                spec_authorize_params(client_id@, scopes@, force_approve, redirect_uri@, p.1@),
            )
        },
        r is None ==> exists|st: Seq<char>|
            st.len() == 16 && #[trigger] all_from_state_alphabet(st) && url_with_params_spec(
                spec_authorize_base(),
                spec_authorize_params(client_id@, scopes@, force_approve, redirect_uri@, st),
            ) is None,
{
    let state = random_state();
    match authorization_url_with_state(client_id, scopes, force_approve, redirect_uri, state.as_str()) {
        Some(u) => Some((u, state)),
        None => {
            proof {
                assert(state@.len() == 16 && all_from_state_alphabet(state@)
                    && url_with_params_spec(
                    spec_authorize_base(),
                    spec_authorize_params(
                        client_id@,
                        scopes@,
                        force_approve,
                        redirect_uri@,
                        state@,
                    ),
                ) is None);
            }
            None
        },
    }
}

/// Build an authorization URL with a fresh random state and register the
/// state as outstanding, so that exactly one later redirect can consume
/// it. Returns the URL and the state.
///
/// Returns `None`, leaving the registry unchanged, only where the URL
/// library refused the assembled input for the drawn state, or every
/// drawn state was already outstanding.
pub fn get_authorization_url(
    client_id: &str,
    scopes: &Vec<Scope>,
    force_approve: bool,
    redirect_uri: &str,
    registry: &mut StateRegistry,
) -> (r: Option<(String, String)>)
    requires
        old(registry).wf(),
    ensures
        final(registry).wf(),
        r is None ==> final(registry)@ == old(registry)@,
        r is None ==> exists|st: Seq<char>|
            st.len() == 16 && #[trigger] all_from_state_alphabet(st) && (url_with_params_spec(
                spec_authorize_base(),
                spec_authorize_params(client_id@, scopes@, force_approve, redirect_uri@, st),
            ) is None || old(registry)@.contains(st)),
        r matches Some(p) ==> {
            &&& p.1@.len() == 16
            &&& all_from_state_alphabet(p.1@)
            &&& !old(registry)@.contains(p.1@)
            &&& final(registry)@ == old(registry)@.insert(p.1@)
            &&& Some(p.0@) == url_with_params_spec(
                spec_authorize_base(),
                spec_authorize_params(client_id@, scopes@, force_approve, redirect_uri@, p.1@),
            )
        },
{
    let mut attempts: usize = 0;
    while attempts < 64
        invariant
            registry.wf(),
            registry@ == old(registry)@,
            attempts > 0 ==> exists|st: Seq<char>|
                st.len() == 16 && #[trigger] all_from_state_alphabet(st) && old(
                    registry,
                )@.contains(st),
        decreases 64 - attempts,
    {
        let state = random_state();
        if !registry.contains(state.as_str()) {
            let url = authorization_url_with_state(
                client_id,
                scopes,
                force_approve,
                redirect_uri,
                state.as_str(),
            );
            match url {
                Some(u) => {
                    registry.register(state.clone());
                    return Some((u, state));
                },
                None => {
                    proof {
                        assert(state@.len() == 16 && all_from_state_alphabet(state@)
                            && url_with_params_spec(
                            spec_authorize_base(),
                            spec_authorize_params(
                                client_id@,
                                scopes@,
                                force_approve,
                                redirect_uri@,
                                state@,
                            ),
                        ) is None);
                    }
                    return None;
                },
            }
        }
        proof {
            assert(state@.len() == 16 && all_from_state_alphabet(state@) && old(
                registry,
            )@.contains(state@));
        }
        attempts = attempts + 1;
    }
    None
}

} // verus!
