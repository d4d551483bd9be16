//! The error envelope: serialization, parsing, and the round trip.

use aspotify::envelope::{error_envelope_to_json, parse_auth_error, parse_error_envelope};
use aspotify::errors::{reason_from_wire, EndpointError, PlayerErrorReason};

#[test]
fn envelope_round_trip() {
    let original = EndpointError {
        status: 404,
        message: "Not found".to_string(),
        reason: None,
    };
    let body = error_envelope_to_json(&original);
    let back = parse_error_envelope(&body).unwrap();
    assert_eq!(back.status, original.status);
    assert_eq!(back.message, original.message);
    assert_eq!(back.reason, original.reason);
}

#[test]
fn wire_body_parses_to_the_same_value() {
    let e = parse_error_envelope(r#"{"error":{"status":404,"message":"Not found"}}"#).unwrap();
    assert_eq!(e.status, 404);
    assert_eq!(e.message, "Not found");
    assert_eq!(e.reason, None);
}

#[test]
fn serialization_is_exact() {
    let e = EndpointError {
        status: 404,
        message: "Not found".to_string(),
        reason: None,
    };
    assert_eq!(
        error_envelope_to_json(&e),
        r#"{"error":{"status":404,"message":"Not found","reason":null}}"#
    );
    let with_reason = EndpointError {
        status: 403,
        message: "Player command failed: Restriction violated".to_string(),
        reason: Some(PlayerErrorReason::NoActiveDevice),
    };
    let expected = r#"{"error":{"status":403,"message":"Player command failed: Restriction violated","reason":"NO_ACTIVE_DEVICE"}}"#;
    assert_eq!(error_envelope_to_json(&with_reason), expected);
}

#[test]
fn whitespace_is_tolerated() {
    let e = parse_error_envelope(
        " { \"error\" : { \"status\" : 403 ,\n\t\"message\" : \"x\" } } ",
    )
    .unwrap();
    assert_eq!(e.status, 403);
    assert_eq!(e.message, "x");
}

#[test]
fn reason_field_round_trips() {
    let body = r#"{"error":{"status":403,"message":"m","reason":"NO_ACTIVE_DEVICE"}}"#;
    let e = parse_error_envelope(body).unwrap();
    assert_eq!(e.reason, Some(PlayerErrorReason::NoActiveDevice));
    let again = parse_error_envelope(&error_envelope_to_json(&e)).unwrap();
    assert_eq!(again.reason, Some(PlayerErrorReason::NoActiveDevice));
    assert_eq!(again.message, "m");

    let null_reason = parse_error_envelope(r#"{"error":{"status":403,"message":"m","reason":null}}"#)
        .unwrap();
    assert_eq!(null_reason.reason, None);
}

#[test]
fn unknown_reason_is_refused() {
    assert!(parse_error_envelope(r#"{"error":{"status":403,"message":"m","reason":"NOT_A_REASON"}}"#)
        .is_none());
}

#[test]
fn escaped_message_round_trips() {
    let original = EndpointError {
        status: 400,
        message: "say \"hi\" to a\\b\nand\ttabs".to_string(),
        reason: None,
    };
    let body = error_envelope_to_json(&original);
    let back = parse_error_envelope(&body).unwrap();
    assert_eq!(back.message, original.message);
}

#[test]
fn escape_sequences_are_decoded() {
    let e = parse_error_envelope(r#"{"error":{"status":400,"message":"a\"b\\c\/d\ne"}}"#).unwrap();
    assert_eq!(e.message, "a\"b\\c/d\ne");
    // An escape outside the accepted set is refused.
    assert!(parse_error_envelope(r#"{"error":{"status":400,"message":"\u0041"}}"#).is_none());
}

#[test]
fn malformed_envelopes_are_refused() {
    assert!(parse_error_envelope("").is_none());
    assert!(parse_error_envelope("{}").is_none());
    assert!(parse_error_envelope(r#"{"error":{}}"#).is_none());
    assert!(parse_error_envelope(r#"{"error":{"status":404}}"#).is_none());
    assert!(parse_error_envelope(r#"{"error":{"message":"m","status":404}}"#).is_none());
    assert!(parse_error_envelope(r#"{"error":{"status":99,"message":"m"}}"#).is_none());
    assert!(parse_error_envelope(r#"{"error":{"status":1000,"message":"m"}}"#).is_none());
    assert!(parse_error_envelope(r#"{"error":{"status":404,"message":"m"}} trailing"#).is_none());
    assert!(parse_error_envelope(r#"{"error":{"status":404,"message":"m"}"#).is_none());
    assert!(parse_error_envelope(r#"{"error":{"status":40x,"message":"m"}}"#).is_none());
}

#[test]
fn reason_wire_names_round_trip() {
    let reasons = [
        PlayerErrorReason::NoPrevTrack,
        PlayerErrorReason::NoNextTrack,
        PlayerErrorReason::NoSpecificTrack,
        PlayerErrorReason::AlreadyPaused,
        PlayerErrorReason::NotPaused,
        PlayerErrorReason::NotPlayingLocally,
        PlayerErrorReason::NotPlayingTrack,
        PlayerErrorReason::NotPlayingContext,
        PlayerErrorReason::EndlessContext,
        PlayerErrorReason::ContextDisallow,
        PlayerErrorReason::AlreadyPlaying,
        PlayerErrorReason::RateLimited,
        PlayerErrorReason::RemoteControlDisallow,
        PlayerErrorReason::DeviceNotControllable,
        PlayerErrorReason::VolumeControlDisallow,
        PlayerErrorReason::NoActiveDevice,
        PlayerErrorReason::PremiumRequired,
        PlayerErrorReason::Unknown,
    ];
    for reason in reasons {
        let name = reason.wire_name().to_string();
        assert_eq!(reason_from_wire(&name), Some(reason));
        assert!(!reason.description().is_empty());
    }
    assert_eq!(reason_from_wire(&"nope".to_string()), None);
    assert_eq!(
        PlayerErrorReason::NoPrevTrack.description(),
        "There is no previous track"
    );
}

#[test]
fn auth_error_body_parses() {
    let e = parse_auth_error(
        r#"{"error":"invalid_client","error_description":"Invalid client secret"}"#,
    )
    .unwrap();
    assert_eq!(e.error, "invalid_client");
    assert_eq!(e.error_description, "Invalid client secret");
    assert_eq!(e.message(), "invalid_client: Invalid client secret");
}

#[test]
fn auth_error_body_tolerates_whitespace_and_escapes() {
    let e = parse_auth_error(
        " { \"error\" : \"invalid_grant\" ,\n\t\"error_description\" : \"say \\\"no\\\"\" } ",
    )
    .unwrap();
    assert_eq!(e.error, "invalid_grant");
    assert_eq!(e.error_description, "say \"no\"");
}

#[test]
fn malformed_auth_bodies_are_refused() {
    assert!(parse_auth_error("").is_none());
    assert!(parse_auth_error("<html>oops</html>").is_none());
    assert!(parse_auth_error(r#"{"error":"x"}"#).is_none());
    assert!(parse_auth_error(r#"{"error_description":"y","error":"x"}"#).is_none());
    assert!(parse_auth_error(r#"{"error":"x","error_description":"y"} z"#).is_none());
    assert!(parse_auth_error(r#"{"error":7,"error_description":"y"}"#).is_none());
}
