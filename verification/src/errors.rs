//! The error taxonomy: authentication failures, endpoint failures with an
//! optional machine-readable reason, and transport or parse failures.

use vstd::prelude::*;
use vstd::string::StringExecFns;

verus! {

/// An error returned by the token endpoint.
#[derive(Debug, Clone)]
pub struct AuthError {
    /// A short code for the error.
    pub error: String,
    /// A human-readable description of the error.
    pub error_description: String,
}

impl AuthError {
    /// The error as one readable line: the code, a separator, the
    /// description.
    pub fn message(&self) -> (r: String)
        ensures
            r@ == self.error@ + ": "@ + self.error_description@,
    {
        let mut out: String = self.error.clone();
        out.append(": ");
        out.append(self.error_description.as_str());
        out
    }
}

/// A reason for an error caused by the player endpoints, as the wire
/// format names them.
#[derive(Debug, Clone, Copy, PartialEq, Eq, Structural)]
pub enum PlayerErrorReason {
    /// There is no previous track in the context.
    NoPrevTrack,
    /// There is no next track in the context.
    NoNextTrack,
    /// The requested track does not exist.
    NoSpecificTrack,
    /// Playback is paused.
    AlreadyPaused,
    /// Playback is not paused.
    NotPaused,
    /// Playback is not on the local device.
    NotPlayingLocally,
    /// No track is currently playing.
    NotPlayingTrack,
    /// No context is currently playing.
    NotPlayingContext,
    /// The current context is endless, so the shuffle command cannot be
    /// applied.
    EndlessContext,
    /// The command cannot be performed on the current context.
    ContextDisallow,
    /// The command requested a new track and context to play, but it is
    /// the same as the old one and there is a resume point.
    AlreadyPlaying,
    /// Too frequent track play.
    RateLimited,
    /// The context cannot be remote controlled.
    RemoteControlDisallow,
    /// It is not possible to remote control the device.
    DeviceNotControllable,
    /// It is not possible to remote control the device's volume.
    VolumeControlDisallow,
    /// The user does not have an active device.
    NoActiveDevice,
    /// The action requires premium, which the user doesn't have.
    PremiumRequired,
    /// The action is restricted due to unknown reasons.
    Unknown,
}

/// The name under which a reason travels on the wire.
pub open spec fn spec_wire_name(r: PlayerErrorReason) -> Seq<char> {
    match r {
        PlayerErrorReason::NoPrevTrack => "NO_PREV_TRACK"@,
        PlayerErrorReason::NoNextTrack => "NO_NEXT_TRACK"@,
        PlayerErrorReason::NoSpecificTrack => "NO_SPECIFIC_TRACK"@,
        PlayerErrorReason::AlreadyPaused => "ALREADY_PAUSED"@,
        PlayerErrorReason::NotPaused => "NOT_PAUSED"@,
        PlayerErrorReason::NotPlayingLocally => "NOT_PLAYING_LOCALLY"@,
        PlayerErrorReason::NotPlayingTrack => "NOT_PLAYING_TRACK"@,
        PlayerErrorReason::NotPlayingContext => "NOT_PLAYING_CONTEXT"@,
        PlayerErrorReason::EndlessContext => "ENDLESS_CONTEXT"@,
        PlayerErrorReason::ContextDisallow => "CONTEXT_DISALLOW"@,
        PlayerErrorReason::AlreadyPlaying => "ALREADY_PLAYING"@,
        PlayerErrorReason::RateLimited => "RATE_LIMITED"@,
        PlayerErrorReason::RemoteControlDisallow => "REMOTE_CONTROL_DISALLOW"@,
        PlayerErrorReason::DeviceNotControllable => "DEVICE_NOT_CONTROLLABLE"@,
        PlayerErrorReason::VolumeControlDisallow => "VOLUME_CONTROL_DISALLOW"@,
        PlayerErrorReason::NoActiveDevice => "NO_ACTIVE_DEVICE"@,
        PlayerErrorReason::PremiumRequired => "PREMIUM_REQUIRED"@,
        PlayerErrorReason::Unknown => "UNKNOWN"@,
    }
}

/// The reason a wire name denotes, if any.
pub open spec fn spec_reason_from_wire(s: Seq<char>) -> Option<PlayerErrorReason> {
    if s == "NO_PREV_TRACK"@ {
        Some(PlayerErrorReason::NoPrevTrack)
    } else if s == "NO_NEXT_TRACK"@ {
        Some(PlayerErrorReason::NoNextTrack)
    } else if s == "NO_SPECIFIC_TRACK"@ {
        Some(PlayerErrorReason::NoSpecificTrack)
    } else if s == "ALREADY_PAUSED"@ {
        Some(PlayerErrorReason::AlreadyPaused)
    } else if s == "NOT_PAUSED"@ {
        Some(PlayerErrorReason::NotPaused)
    } else if s == "NOT_PLAYING_LOCALLY"@ {
        Some(PlayerErrorReason::NotPlayingLocally)
    } else if s == "NOT_PLAYING_TRACK"@ {
        Some(PlayerErrorReason::NotPlayingTrack)
    } else if s == "NOT_PLAYING_CONTEXT"@ {
        Some(PlayerErrorReason::NotPlayingContext)
    } else if s == "ENDLESS_CONTEXT"@ {
        Some(PlayerErrorReason::EndlessContext)
    } else if s == "CONTEXT_DISALLOW"@ {
        Some(PlayerErrorReason::ContextDisallow)
    } else if s == "ALREADY_PLAYING"@ {
        Some(PlayerErrorReason::AlreadyPlaying)
    } else if s == "RATE_LIMITED"@ {
        Some(PlayerErrorReason::RateLimited)
    } else if s == "REMOTE_CONTROL_DISALLOW"@ {
        Some(PlayerErrorReason::RemoteControlDisallow)
    } else if s == "DEVICE_NOT_CONTROLLABLE"@ {
        Some(PlayerErrorReason::DeviceNotControllable)
    } else if s == "VOLUME_CONTROL_DISALLOW"@ {
        Some(PlayerErrorReason::VolumeControlDisallow)
    } else if s == "NO_ACTIVE_DEVICE"@ {
        Some(PlayerErrorReason::NoActiveDevice)
    } else if s == "PREMIUM_REQUIRED"@ {
        Some(PlayerErrorReason::PremiumRequired)
    } else if s == "UNKNOWN"@ {
        Some(PlayerErrorReason::Unknown)
    } else {
        None
    }
}

/// The human-readable account of a reason.
pub open spec fn spec_description(r: PlayerErrorReason) -> Seq<char> {
    match r {
        PlayerErrorReason::NoPrevTrack => "There is no previous track"@,
        PlayerErrorReason::NoNextTrack => "There is no next track"@,
        PlayerErrorReason::NoSpecificTrack => "The requested track does not exist"@,
        PlayerErrorReason::AlreadyPaused => "Playback is paused"@,
        PlayerErrorReason::NotPaused => "Playback is not paused"@,
        PlayerErrorReason::NotPlayingLocally => "Playback is not on the local device"@,
        PlayerErrorReason::NotPlayingTrack => "No track is currently playing"@,
        PlayerErrorReason::NotPlayingContext => "No context is currently playing"@,
        PlayerErrorReason::EndlessContext => "The current context is endless"@,
        PlayerErrorReason::ContextDisallow => "The action cannot be performed on the current context"@,
        PlayerErrorReason::AlreadyPlaying => "The same track is already playing"@,
        PlayerErrorReason::RateLimited => "Too frequent track play"@,
        PlayerErrorReason::RemoteControlDisallow => "The context cannot be remote controlled"@,
        PlayerErrorReason::DeviceNotControllable => "It is not possible to control the device"@,
        PlayerErrorReason::VolumeControlDisallow => "It is not possible to control the device's volume"@,
        PlayerErrorReason::NoActiveDevice => "The user does not have an active device"@,
        PlayerErrorReason::PremiumRequired => "The action requires premium"@,
        PlayerErrorReason::Unknown => "The action is restricted for unknown reasons"@,
    }
}

impl PlayerErrorReason {
    /// The reason's name on the wire.
    pub fn wire_name(self) -> (r: &'static str)
        ensures
            r@ == spec_wire_name(self),
    {
        match self {
            Self::NoPrevTrack => "NO_PREV_TRACK",
            Self::NoNextTrack => "NO_NEXT_TRACK",
            Self::NoSpecificTrack => "NO_SPECIFIC_TRACK",
            Self::AlreadyPaused => "ALREADY_PAUSED",
            Self::NotPaused => "NOT_PAUSED",
            Self::NotPlayingLocally => "NOT_PLAYING_LOCALLY",
            Self::NotPlayingTrack => "NOT_PLAYING_TRACK",
            Self::NotPlayingContext => "NOT_PLAYING_CONTEXT",
            Self::EndlessContext => "ENDLESS_CONTEXT",
            Self::ContextDisallow => "CONTEXT_DISALLOW",
            Self::AlreadyPlaying => "ALREADY_PLAYING",
            Self::RateLimited => "RATE_LIMITED",
            Self::RemoteControlDisallow => "REMOTE_CONTROL_DISALLOW",
            Self::DeviceNotControllable => "DEVICE_NOT_CONTROLLABLE",
            Self::VolumeControlDisallow => "VOLUME_CONTROL_DISALLOW",
            Self::NoActiveDevice => "NO_ACTIVE_DEVICE",
            Self::PremiumRequired => "PREMIUM_REQUIRED",
            Self::Unknown => "UNKNOWN",
        }
    }

    /// A human-readable account of the reason.
    pub fn description(self) -> (r: &'static str)
        ensures
            r@ == spec_description(self),
    {
        match self {
            Self::NoPrevTrack => "There is no previous track",
            Self::NoNextTrack => "There is no next track",
            Self::NoSpecificTrack => "The requested track does not exist",
            Self::AlreadyPaused => "Playback is paused",
            Self::NotPaused => "Playback is not paused",
            Self::NotPlayingLocally => "Playback is not on the local device",
            Self::NotPlayingTrack => "No track is currently playing",
            Self::NotPlayingContext => "No context is currently playing",
            Self::EndlessContext => "The current context is endless",
            Self::ContextDisallow => "The action cannot be performed on the current context",
            Self::AlreadyPlaying => "The same track is already playing",
            Self::RateLimited => "Too frequent track play",
            Self::RemoteControlDisallow => "The context cannot be remote controlled",
            Self::DeviceNotControllable => "It is not possible to control the device",
            Self::VolumeControlDisallow => "It is not possible to control the device's volume",
            Self::NoActiveDevice => "The user does not have an active device",
            Self::PremiumRequired => "The action requires premium",
            Self::Unknown => "The action is restricted for unknown reasons",
        }
    }
}

/// Parse a wire name back into a reason; `None` exactly when no reason
/// carries that name.
pub fn reason_from_wire(s: &String) -> (r: Option<PlayerErrorReason>)
    ensures
        r == spec_reason_from_wire(s@),
{
    if crate::text::string_eq_lit(s, "NO_PREV_TRACK") {
        Some(PlayerErrorReason::NoPrevTrack)
    } else if crate::text::string_eq_lit(s, "NO_NEXT_TRACK") {
        Some(PlayerErrorReason::NoNextTrack)
    } else if crate::text::string_eq_lit(s, "NO_SPECIFIC_TRACK") {
        Some(PlayerErrorReason::NoSpecificTrack)
    } else if crate::text::string_eq_lit(s, "ALREADY_PAUSED") {
        Some(PlayerErrorReason::AlreadyPaused)
    } else if crate::text::string_eq_lit(s, "NOT_PAUSED") {
        Some(PlayerErrorReason::NotPaused)
    } else if crate::text::string_eq_lit(s, "NOT_PLAYING_LOCALLY") {
        Some(PlayerErrorReason::NotPlayingLocally)
    } else if crate::text::string_eq_lit(s, "NOT_PLAYING_TRACK") {
        Some(PlayerErrorReason::NotPlayingTrack)
    } else if crate::text::string_eq_lit(s, "NOT_PLAYING_CONTEXT") {
        Some(PlayerErrorReason::NotPlayingContext)
    } else if crate::text::string_eq_lit(s, "ENDLESS_CONTEXT") {
        Some(PlayerErrorReason::EndlessContext)
    } else if crate::text::string_eq_lit(s, "CONTEXT_DISALLOW") {
        Some(PlayerErrorReason::ContextDisallow)
    } else if crate::text::string_eq_lit(s, "ALREADY_PLAYING") {
        Some(PlayerErrorReason::AlreadyPlaying)
    } else if crate::text::string_eq_lit(s, "RATE_LIMITED") {
        Some(PlayerErrorReason::RateLimited)
    } else if crate::text::string_eq_lit(s, "REMOTE_CONTROL_DISALLOW") {
        Some(PlayerErrorReason::RemoteControlDisallow)
    } else if crate::text::string_eq_lit(s, "DEVICE_NOT_CONTROLLABLE") {
        Some(PlayerErrorReason::DeviceNotControllable)
    } else if crate::text::string_eq_lit(s, "VOLUME_CONTROL_DISALLOW") {
        Some(PlayerErrorReason::VolumeControlDisallow)
    } else if crate::text::string_eq_lit(s, "NO_ACTIVE_DEVICE") {
        Some(PlayerErrorReason::NoActiveDevice)
    } else if crate::text::string_eq_lit(s, "PREMIUM_REQUIRED") {
        Some(PlayerErrorReason::PremiumRequired)
    } else if crate::text::string_eq_lit(s, "UNKNOWN") {
        Some(PlayerErrorReason::Unknown)
    } else {
        None
    }
}

/// A wire name always reads back as the reason it was written for.
pub proof fn lemma_wire_name_roundtrip(r: PlayerErrorReason)
    ensures
        spec_reason_from_wire(spec_wire_name(r)) == Some(r),
{
    broadcast use vstd::string::group_string_axioms;

    reveal_strlit("NO_PREV_TRACK");
    reveal_strlit("NO_NEXT_TRACK");
    reveal_strlit("NO_SPECIFIC_TRACK");
    reveal_strlit("ALREADY_PAUSED");
    reveal_strlit("NOT_PAUSED");
    reveal_strlit("NOT_PLAYING_LOCALLY");
    reveal_strlit("NOT_PLAYING_TRACK");
    reveal_strlit("NOT_PLAYING_CONTEXT");
    reveal_strlit("ENDLESS_CONTEXT");
    reveal_strlit("CONTEXT_DISALLOW");
    reveal_strlit("ALREADY_PLAYING");
    reveal_strlit("RATE_LIMITED");
    reveal_strlit("REMOTE_CONTROL_DISALLOW");
    reveal_strlit("DEVICE_NOT_CONTROLLABLE");
    reveal_strlit("VOLUME_CONTROL_DISALLOW");
    reveal_strlit("NO_ACTIVE_DEVICE");
    reveal_strlit("PREMIUM_REQUIRED");
    reveal_strlit("UNKNOWN");
    assert(("NO_PREV_TRACK"@).len() == 13);
    assert(("NO_NEXT_TRACK"@).len() == 13);
    assert(("NO_SPECIFIC_TRACK"@).len() == 17);
    assert(("ALREADY_PAUSED"@).len() == 14);
    assert(("NOT_PAUSED"@).len() == 10);
    assert(("NOT_PLAYING_LOCALLY"@).len() == 19);
    assert(("NOT_PLAYING_TRACK"@).len() == 17);
    assert(("NOT_PLAYING_CONTEXT"@).len() == 19);
    assert(("ENDLESS_CONTEXT"@).len() == 15);
    assert(("CONTEXT_DISALLOW"@).len() == 16);
    assert(("ALREADY_PLAYING"@).len() == 15);
    assert(("RATE_LIMITED"@).len() == 12);
    assert(("REMOTE_CONTROL_DISALLOW"@).len() == 23);
    assert(("DEVICE_NOT_CONTROLLABLE"@).len() == 23);
    assert(("VOLUME_CONTROL_DISALLOW"@).len() == 23);
    assert(("NO_ACTIVE_DEVICE"@).len() == 16);
    assert(("PREMIUM_REQUIRED"@).len() == 16);
    assert(("UNKNOWN"@).len() == 7);
    // Names of equal length are told apart by one character each.
    assert(("NO_PREV_TRACK"@)[3] == 'P' && ("NO_NEXT_TRACK"@)[3] == 'N');
    assert(("NO_SPECIFIC_TRACK"@)[2] == '_' && ("NOT_PLAYING_TRACK"@)[2] == 'T');
    assert(("NOT_PLAYING_LOCALLY"@)[12] == 'L' && ("NOT_PLAYING_CONTEXT"@)[12] == 'C');
    assert(("ENDLESS_CONTEXT"@)[0] == 'E' && ("ALREADY_PLAYING"@)[0] == 'A');
    assert(("CONTEXT_DISALLOW"@)[0] == 'C' && ("NO_ACTIVE_DEVICE"@)[0] == 'N'
        && ("PREMIUM_REQUIRED"@)[0] == 'P');
    assert(("REMOTE_CONTROL_DISALLOW"@)[0] == 'R' && ("DEVICE_NOT_CONTROLLABLE"@)[0] == 'D'
        && ("VOLUME_CONTROL_DISALLOW"@)[0] == 'V');
}

/// An error object returned by the resource endpoints.
#[derive(Debug, Clone)]
pub struct EndpointError {
    /// The HTTP status code of the error.
    pub status: u16,
    /// A short description of the error's cause.
    pub message: String,
    /// The reason for the error; only present for player endpoints.
    pub reason: Option<PlayerErrorReason>,
}

impl EndpointError {
    /// Whether the status code is one the wire format can carry.
    pub open spec fn wf(self) -> bool {
        100 <= self.status < 1000
    }
}

/// Two endpoint errors with the same content.
pub open spec fn endpoint_error_eq(a: EndpointError, b: EndpointError) -> bool {
    a.status == b.status && a.message@ == b.message@ && a.reason == b.reason
}

/// Any failure of one request: the transport failed, a body did not parse,
/// the token endpoint refused, or a resource endpoint refused.
#[derive(Debug)]
pub enum Error {
    /// The HTTP transport itself failed; carries the transport's account
    /// of the failure.
    Http(String),
    /// A response body that should have been well-formed was not.
    Parse(String),
    /// The token endpoint returned an error.
    Auth(AuthError),
    /// A resource endpoint returned an error.
    Endpoint(EndpointError),
}

} // verus!
