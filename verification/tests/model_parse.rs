//! The data model: date and URI parsing, name tables, and the simplify
//! projections.

use std::collections::HashMap;

use aspotify::model::{
    parse_release_date, parse_uri_id, search_types_param, AlbumGroup, Date, Followers, ItemType,
    PlaylistItemType, RepeatState, TimeRange, UserPrivate, UserPublic,
};
use aspotify::authorization::Scope;
use aspotify::Response;

#[test]
fn release_dates_of_any_precision() {
    assert_eq!(
        parse_release_date("2020-01-15"),
        Some(Date { year: 2020, month: 1, day: 15 })
    );
    assert_eq!(parse_release_date("1981"), Some(Date { year: 1981, month: 1, day: 1 }));
    assert_eq!(parse_release_date("2020-02"), Some(Date { year: 2020, month: 2, day: 1 }));
    assert_eq!(parse_release_date("2020-02-29"), Some(Date { year: 2020, month: 2, day: 29 }));
    assert_eq!(parse_release_date("2000-02-29"), Some(Date { year: 2000, month: 2, day: 29 }));
    assert_eq!(parse_release_date("1900-02-29"), None);
    assert_eq!(parse_release_date("2021-02-29"), None);
    assert_eq!(parse_release_date("2020-13-01"), None);
    assert_eq!(parse_release_date("2020-04-31"), None);
    assert_eq!(parse_release_date("2020-0-1"), None);
    assert_eq!(parse_release_date(""), None);
    assert_eq!(parse_release_date("abc"), None);
    assert_eq!(parse_release_date("2020-01-15-x"), None);
}

#[test]
fn uri_ids() {
    assert_eq!(parse_uri_id("spotify:track:abc123"), Some("abc123".to_string()));
    assert_eq!(parse_uri_id("spotify:album:xyz"), Some("xyz".to_string()));
    // Old-style playlist URIs carry the ID in the fifth part.
    assert_eq!(
        parse_uri_id("spotify:user:bob:playlist:pl99"),
        Some("pl99".to_string())
    );
    assert_eq!(parse_uri_id("spotify:user:bob:other:x"), None);
    assert_eq!(parse_uri_id("spotify:track:a:b:c"), None);
    assert_eq!(parse_uri_id("spotify"), None);
    assert_eq!(parse_uri_id("spotify:track"), None);
    assert_eq!(parse_uri_id("http:track:abc"), None);
    assert_eq!(parse_uri_id("spotify:user:bob:playlist"), None);
}

#[test]
fn wire_name_tables() {
    assert_eq!(Scope::UserReadPlaybackState.as_str(), "user-read-playback-state");
    assert_eq!(Scope::UgcImageUpload.as_str(), "ugc-image-upload");
    assert_eq!(ItemType::Episode.as_str(), "episode");
    assert_eq!(RepeatState::Track.as_str(), "track");
    assert_eq!(RepeatState::Off.as_str(), "off");
    assert_eq!(AlbumGroup::AppearsOn.as_str(), "appears_on");
    assert_eq!(TimeRange::Medium.as_str(), "medium_term");
}

#[test]
fn response_map_keeps_the_expiry() {
    let response = Response { data: 21u32, expires: 99 };
    let doubled = response.map(|d| d * 2);
    assert_eq!(doubled.data, 42);
    assert_eq!(doubled.expires, 99);
}

#[test]
fn playlist_item_uri() {
    let track: PlaylistItemType<String, String> = PlaylistItemType::Track("t1".to_string());
    assert_eq!(track.uri(), "spotify:track:t1");
    let episode: PlaylistItemType<String, String> = PlaylistItemType::Episode("e1".to_string());
    assert_eq!(episode.uri(), "spotify:episode:e1");
}

#[test]
fn user_projections_keep_their_fields() {
    let user = UserPrivate {
        display_name: Some("Bob".to_string()),
        external_urls: HashMap::new(),
        id: "bob".to_string(),
        followers: Followers { total: 3 },
        images: vec![],
        country: Some("DE".to_string()),
        email: Some("bob@example.com".to_string()),
        product: None,
    };
    let public: UserPublic = user.clone().publicize();
    assert_eq!(public.id, "bob");
    assert_eq!(public.display_name.as_deref(), Some("Bob"));
    assert_eq!(public.followers, Followers { total: 3 });
    let simple = user.simplify();
    assert_eq!(simple.id, "bob");
    assert_eq!(simple.display_name.as_deref(), Some("Bob"));
}

#[test]
fn search_types_default_to_all() {
    assert_eq!(search_types_param(&vec![]), "album,artist,playlist,track,show,episode");
    assert_eq!(search_types_param(&vec![ItemType::Track]), "track");
    assert_eq!(
        search_types_param(&vec![ItemType::Album, ItemType::Show]),
        "album,show"
    );
}
