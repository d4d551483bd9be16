//! The object model, reduced to plain values: resource structures as the
//! endpoints return them, and the verified parsing that the wire format
//! needs (release dates of any precision, item URIs).
//!
//! Serialization lives outside the library; these types carry the data
//! itself. Durations are milliseconds, timestamps are milliseconds since
//! the Unix epoch, and dates are a year, month and day of their own.

use std::collections::HashMap;

use vstd::prelude::*;
use vstd::string::{StrSliceExecFns, StringExecFns};

use crate::text::{chars_of, find_char, parse_u64_spec, spec_find_char, string_range};

verus! {

/// A category of music, for example "Mood" or "Top Lists".
#[derive(Debug, Clone, PartialEq, Eq)]
pub struct Category {
    /// The category icon, in various sizes.
    pub icons: Vec<Image>,
    /// The ID of the category.
    pub id: String,
    /// The name of the category.
    pub name: String,
}

/// The copyright information for a resource.
#[derive(Debug, Clone, PartialEq, Eq)]
pub struct Copyright {
    /// The copyright text.
    pub text: String,
    /// Whether the copyright is for the performance of the piece, not
    /// the piece.
    pub performance_copyright: bool,
}

/// Information about the followers of an item.
#[derive(Debug, Clone, PartialEq, Eq)]
pub struct Followers {
    /// The total number of followers.
    pub total: usize,
}

/// An image with a URL and an optional width and height.
#[derive(Debug, Clone, PartialEq, Eq)]
pub struct Image {
    /// The source URL of the image.
    pub url: String,
    /// The height of the image in pixels, if known.
    pub height: Option<usize>,
    /// The width of the image in pixels, if known.
    pub width: Option<usize>,
}

/// A page of items.
#[derive(Debug, Clone, PartialEq, Eq)]
pub struct Page<T> {
    /// The items in the page.
    pub items: Vec<T>,
    /// The maximum number of items in the page.
    pub limit: usize,
    /// The offset of the page in the items.
    pub offset: usize,
    /// The total number of items.
    pub total: usize,
}

/// A page of items, using a cursor to find the next page.
#[derive(Debug, Clone, PartialEq, Eq)]
pub struct CursorPage<T> {
    /// The items in the page.
    pub items: Vec<T>,
    /// The maximum number of items in the page.
    pub limit: usize,
    /// The cursor used to find the next set of items.
    pub cursors: Cursor,
    /// The total number of items.
    pub total: usize,
}

/// Object that contains the next `CursorPage`.
#[derive(Debug, Clone, PartialEq, Eq)]
pub struct Cursor {
    /// The cursor page after this one.
    pub after: Option<String>,
}

/// A page of items, using a cursor to move backwards and forwards.
#[derive(Debug, Clone, PartialEq, Eq)]
pub struct TwoWayCursorPage<T> {
    /// The items in the page.
    pub items: Vec<T>,
    /// The maximum number of items in the page.
    pub limit: usize,
    /// The cursor used to find the next and previous sets of items.
    pub cursors: TwoWayCursor,
}

/// Object that contains the next and previous `CursorPage`.
#[derive(Debug, Clone, PartialEq, Eq)]
pub struct TwoWayCursor {
    /// The cursor page after this one.
    pub after: Option<String>,
    /// The cursor page before this one.
    pub before: Option<String>,
}

/// How a recommendation was chosen.
#[derive(Debug, Clone, PartialEq, Eq)]
pub struct RecommendationSeed {
    /// The number of tracks available after minimum and maximum filters
    /// have been applied.
    pub after_filtering_size: usize,
    /// The number of tracks available after relinking for regional
    /// availability.
    pub after_relinking_size: usize,
    /// The ID used to select this seed, given by the user.
    pub id: String,
    /// The number of recommended tracks available for this seed.
    pub initial_pool_size: usize,
    /// The entity type of this seed.
    pub entity_type: SeedType,
}

/// The context from which a recommendation was chosen.
#[derive(Debug, Clone, Copy, PartialEq, Eq, Hash, Structural)]
#[allow(missing_docs)]
pub enum SeedType {
    Artist,
    Track,
    Genre,
}

/// How precise a date measurement is.
#[derive(Debug, Clone, Copy, PartialEq, Eq, Hash, Structural)]
pub enum DatePrecision {
    /// The measurement is precise to the nearest year.
    Year,
    /// The measurement is precise to the nearest month.
    Month,
    /// The measurement is precise to the nearest day.
    Day,
}

/// Restrictions applied to a track due to markets.
#[derive(Debug, Clone, PartialEq, Eq)]
pub struct Restrictions {
    /// Why the restriction was applied.
    pub reason: String,
}

/// A type of item in the object model.
#[derive(Debug, Clone, Copy, PartialEq, Eq, Hash, Structural)]
#[allow(missing_docs)]
pub enum ItemType {
    Album,
    Artist,
    Playlist,
    Track,
    Show,
    Episode,
}

/// The name of an item type on the wire.
pub open spec fn spec_item_type_str(t: ItemType) -> Seq<char> {
    match t {
        ItemType::Album => "album"@,
        ItemType::Artist => "artist"@,
        ItemType::Playlist => "playlist"@,
        ItemType::Track => "track"@,
        ItemType::Show => "show"@,
        ItemType::Episode => "episode"@,
    }
}

impl ItemType {
    /// The type of item as a string.
    pub fn as_str(self) -> (r: &'static str)
        ensures
            r@ == spec_item_type_str(self),
    {
        match self {
            Self::Album => "album",
            Self::Artist => "artist",
            Self::Playlist => "playlist",
            Self::Track => "track",
            Self::Show => "show",
            Self::Episode => "episode",
        }
    }
}

/// The item types joined with commas, in order.
pub open spec fn spec_item_types_joined(types: Seq<ItemType>) -> Seq<char>
    decreases types.len(),
{
    if types.len() == 0 {
        Seq::empty()
    } else if types.len() == 1 {
        spec_item_type_str(types[0])
    } else {
        spec_item_types_joined(types.drop_last()) + ","@ + spec_item_type_str(types.last())
    }
}

/// The `type` parameter of a search: the requested item types joined
/// with commas, or all six types where none was requested.
pub open spec fn spec_search_types(types: Seq<ItemType>) -> Seq<char> {
    if types.len() == 0 {
        "album,artist,playlist,track,show,episode"@
    } else {
        spec_item_types_joined(types)
    }
}

/// Build the `type` parameter of a search: the requested item types
/// joined with commas, defaulting to every type where none is given.
pub fn search_types_param(types: &Vec<ItemType>) -> (r: String)
    ensures
        r@ == spec_search_types(types@),
{
    if types.len() == 0 {
        return String::from_str("album,artist,playlist,track,show,episode");
    }
    let mut out = String::new();
    let mut i: usize = 0;
    while i < types.len()
        invariant
            i <= types@.len(),
            out@ == spec_item_types_joined(types@.take(i as int)),
        decreases types@.len() - i,
    {
        if i > 0 {
            out.append(",");
        }
        out.append(types[i].as_str());
        proof {
            assert(types@.take(i + 1).drop_last() =~= types@.take(i as int));
            assert(types@.take(i + 1).last() == types@[i as int]);
            if i == 0 {
                assert(out@ =~= spec_item_types_joined(types@.take(1)));
            } else {
                assert(out@ =~= spec_item_types_joined(types@.take(i + 1)));
            }
        }
        i = i + 1;
    }
    proof {
        assert(types@.take(types@.len() as int) =~= types@);
    }
    out
}

/// A time range from which to calculate a response.
#[derive(Debug, Clone, Copy, PartialEq, Eq, Hash, Structural)]
pub enum TimeRange {
    /// Use approximately the last four weeks of data.
    Short,
    /// Use approximately the last six months of data.
    Medium,
    /// Use several years of data.
    Long,
}

/// The name of a time range on the wire.
pub open spec fn spec_time_range_str(t: TimeRange) -> Seq<char> {
    match t {
        TimeRange::Long => "long_term"@,
        TimeRange::Medium => "medium_term"@,
        TimeRange::Short => "short_term"@,
    }
}

impl TimeRange {
    /// The time range as the wire names it.
    pub fn as_str(self) -> (r: &'static str)
        ensures
            r@ == spec_time_range_str(self),
    {
        match self {
            Self::Long => "long_term",
            Self::Medium => "medium_term",
            Self::Short => "short_term",
        }
    }
}

/// A device object.
#[derive(Debug, Clone, PartialEq, Eq)]
pub struct Device {
    /// The device ID; not always present.
    pub id: Option<String>,
    /// Whether this device is the currently active device.
    pub is_active: bool,
    /// Whether this device is currently in a private session.
    pub is_private_session: bool,
    /// Whether controlling this device is restricted.
    pub is_restricted: bool,
    /// The name of the device.
    pub name: String,
    /// The type of the device.
    pub device_type: DeviceType,
    /// The current volume in percent; not always present.
    pub volume_percent: Option<u32>,
}

/// A type of device.
#[derive(Debug, Clone, Copy, PartialEq, Eq, Hash, Structural)]
#[allow(missing_docs)]
pub enum DeviceType {
    Computer,
    Tablet,
    Smartphone,
    Speaker,
    TV,
    AVR,
    STB,
    AudioDongle,
    GameConsole,
    CastVideo,
    CastAudio,
    Automobile,
    Unknown,
}

/// Actions that are disallowed in the current playing context.
#[derive(Debug, Clone, PartialEq, Eq)]
pub struct Actions {
    /// The list of disallowed actions.
    pub disallows: Vec<Disallow>,
}

/// An action that is currently not able to be performed.
#[derive(Debug, Clone, Copy, PartialEq, Eq, Hash, Structural)]
#[allow(missing_docs)]
pub enum Disallow {
    InterruptingPlayback,
    Pausing,
    Resuming,
    Seeking,
    SkippingNext,
    SkippingPrev,
    TogglingRepeatContext,
    TogglingShuffle,
    TogglingRepeatTrack,
    TransferringPlayback,
}

/// The context of the current playing track.
#[derive(Debug, Clone, PartialEq, Eq)]
pub struct Context {
    /// The type of context: album, artist, playlist or track.
    pub context_type: ItemType,
    /// Known external URLs for this context.
    pub external_urls: HashMap<String, String>,
    /// The ID of the context, read from its URI.
    pub id: String,
}

/// Repeating the track, the context or not at all.
#[derive(Debug, Clone, Copy, PartialEq, Eq, Hash, Structural)]
pub enum RepeatState {
    /// Not repeating.
    Off,
    /// Repeating the current track.
    Track,
    /// Repeating the current context.
    Context,
}

/// The name of a repeat state on the wire.
pub open spec fn spec_repeat_state_str(s: RepeatState) -> Seq<char> {
    match s {
        RepeatState::Off => "off"@,
        RepeatState::Track => "track"@,
        RepeatState::Context => "context"@,
    }
}

impl RepeatState {
    /// Get the state of repeating as a lowercase string.
    pub fn as_str(self) -> (r: &'static str)
        ensures
            r@ == spec_repeat_state_str(self),
    {
        match self {
            Self::Off => "off",
            Self::Track => "track",
            Self::Context => "context",
        }
    }
}

/// The mode of a track: major or minor.
#[derive(Debug, Clone, Copy, PartialEq, Eq, Hash, Structural)]
pub enum Mode {
    /// The track is major.
    Major,
    /// The track is minor.
    Minor,
}

/// The subscription level of a user.
#[derive(Debug, Clone, Copy, PartialEq, Eq, Hash, Structural)]
pub enum Subscription {
    /// The user is subscribed to the premium tier.
    Premium,
    /// The user is on the free tier.
    Free,
}

/// A calendar date, as precise as the wire supplied it.
#[derive(Debug, Clone, Copy, PartialEq, Eq, Hash, Structural)]
pub struct Date {
    /// The year.
    pub year: i32,
    /// The month, from 1 to 12.
    pub month: u8,
    /// The day of the month, from 1.
    pub day: u8,
}

/// Whether `year` is a leap year in the proleptic Gregorian calendar.
pub open spec fn spec_is_leap_year(year: int) -> bool {
    (year % 4 == 0 && year % 100 != 0) || year % 400 == 0
}

/// The number of days of `month` in `year`, for months 1 to 12.
pub open spec fn spec_days_in_month(year: int, month: int) -> int {
    if month == 2 {
        if spec_is_leap_year(year) {
            29
        } else {
            28
        }
    } else if month == 4 || month == 6 || month == 9 || month == 11 {
        30
    } else {
        31
    }
}

impl Date {
    /// A valid calendar date.
    pub open spec fn wf(self) -> bool {
        &&& 1 <= self.month <= 12
        &&& 1 <= self.day <= spec_days_in_month(self.year as int, self.month as int)
    }
}

/// A position to resume from in an object.
#[derive(Debug, Clone, Copy, PartialEq, Eq, Structural)]
pub struct ResumePoint {
    /// Whether the user has fully played the object.
    pub fully_played: bool,
    /// The user's most recent position in the object, in milliseconds.
    pub resume_position: u64,
}

/// A `Date` from a year, month and day as the wire carries them, where
/// they name a valid calendar date.
pub open spec fn spec_ymd(y: int, m: int, d: int) -> Option<Date> {
    if i32::MIN <= y <= i32::MAX && 1 <= m <= 12 && 1 <= d <= spec_days_in_month(y, m) {
        Some(Date { year: y as i32, month: m as u8, day: d as u8 })
    } else {
        None
    }
}

/// What a release date string of any precision denotes: `YYYY`,
/// `YYYY-MM` or `YYYY-MM-DD`, with a missing month or day read as 1, and
/// only valid calendar dates accepted.
pub open spec fn spec_parse_release_date(s: Seq<char>) -> Option<Date> {
    let k1 = spec_find_char(s, 0, '-');
    match parse_u64_spec(s.take(k1)) {
        None => None,
        Some(y) => if y > i32::MAX {
            None
        } else if k1 == s.len() {
            spec_ymd(y as int, 1, 1)
        } else {
            let k2 = spec_find_char(s, k1 + 1, '-');
            match parse_u64_spec(s.subrange(k1 + 1, k2)) {
                None => None,
                Some(m) => if k2 == s.len() {
                    spec_ymd(y as int, m as int, 1)
                } else {
                    match parse_u64_spec(s.skip(k2 + 1)) {
                        None => None,
                        Some(d) => spec_ymd(y as int, m as int, d as int),
                    }
                },
            }
        },
    }
}

/// Check a year, month and day for calendar validity.
fn make_date(y: u64, m: u64, d: u64) -> (r: Option<Date>)
    requires
        y <= i32::MAX,
    ensures
        r == spec_ymd(y as int, m as int, d as int),
{
    if m < 1 || m > 12 {
        return None;
    }
    let days: u64 = if m == 2 {
        let y4: bool = y % 4 == 0;
        let y100: bool = y % 100 == 0;
        let y400: bool = y % 400 == 0;
        if (y4 && !y100) || y400 {
            29
        } else {
            28
        }
    } else if m == 4 || m == 6 || m == 9 || m == 11 {
        30
    } else {
        31
    };
    if d < 1 || d > days {
        return None;
    }
    Some(Date { year: y as i32, month: m as u8, day: d as u8 })
}

/// Parse a release date of any precision: a year, optionally a month,
/// optionally a day, separated by `-`. A missing month or day is read as
/// 1; anything that does not name a valid calendar date is refused.
pub fn parse_release_date(s: &str) -> (r: Option<Date>)
    ensures
        r == spec_parse_release_date(s@),
        r matches Some(date) ==> date.wf(),
{
    let v = chars_of(s);
    let k1 = find_char(&v, 0, '-');
    let y = match crate::text::parse_u64(string_range(&v, 0, k1).as_str()) {
        Some(y) => y,
        None => {
            proof {
                assert(v@.subrange(0, k1 as int) =~= v@.take(k1 as int));
            }
            return None;
        },
    };
    proof {
        assert(v@.subrange(0, k1 as int) =~= v@.take(k1 as int));
    }
    if y > 0x7fff_ffff {
        return None;
    }
    if k1 == v.len() {
        return make_date(y, 1, 1);
    }
    let k2 = find_char(&v, k1 + 1, '-');
    let m = match crate::text::parse_u64(string_range(&v, k1 + 1, k2).as_str()) {
        Some(m) => m,
        None => {
            return None;
        },
    };
    if k2 == v.len() {
        return make_date(y, m, 1);
    }
    let d = match crate::text::parse_u64(string_range(&v, k2 + 1, v.len()).as_str()) {
        Some(d) => d,
        None => {
            proof {
                assert(v@.subrange(k2 + 1, v@.len() as int) =~= v@.skip(k2 + 1));
            }
            return None;
        },
    };
    proof {
        assert(v@.subrange(k2 + 1, v@.len() as int) =~= v@.skip(k2 + 1));
    }
    make_date(y, m, d)
}

/// What an item URI denotes: `spotify:<type>:<id>` yields the ID, and
/// the old-style `spotify:user:<name>:playlist:<id>` yields the playlist
/// ID. Anything else is refused.
pub open spec fn spec_parse_uri(s: Seq<char>) -> Option<Seq<char>> {
    let k1 = spec_find_char(s, 0, ':');
    if s.take(k1) != "spotify"@ || k1 == s.len() {
        None
    } else {
        let k2 = spec_find_char(s, k1 + 1, ':');
        if k2 == s.len() {
            None
        } else {
            let k3 = spec_find_char(s, k2 + 1, ':');
            if k3 == s.len() {
                Some(s.subrange(k2 + 1, k3))
            } else {
                let k4 = spec_find_char(s, k3 + 1, ':');
                if s.subrange(k1 + 1, k2) != "user"@ || s.subrange(k3 + 1, k4) != "playlist"@ {
                    None
                } else if k4 == s.len() {
                    None
                } else {
                    let k5 = spec_find_char(s, k4 + 1, ':');
                    Some(s.subrange(k4 + 1, k5))
                }
            }
        }
    }
}

/// Read the ID out of an item URI: `spotify:<type>:<id>`, or the
/// old-style `spotify:user:<name>:playlist:<id>`.
pub fn parse_uri_id(uri: &str) -> (r: Option<String>)
    ensures
        match r {
            Some(id) => spec_parse_uri(uri@) == Some(id@),
            None => spec_parse_uri(uri@) is None,
        },
{
    let v = chars_of(uri);
    let k1 = find_char(&v, 0, ':');
    let head = string_range(&v, 0, k1);
    proof {
        assert(v@.subrange(0, k1 as int) =~= v@.take(k1 as int));
    }
    if !crate::text::string_eq_lit(&head, "spotify") || k1 == v.len() {
        return None;
    }
    let k2 = find_char(&v, k1 + 1, ':');
    if k2 == v.len() {
        return None;
    }
    let k3 = find_char(&v, k2 + 1, ':');
    if k3 == v.len() {
        return Some(string_range(&v, k2 + 1, k3));
    }
    let k4 = find_char(&v, k3 + 1, ':');
    let kind = string_range(&v, k1 + 1, k2);
    let val = string_range(&v, k3 + 1, k4);
    if !crate::text::string_eq_lit(&kind, "user") || !crate::text::string_eq_lit(&val, "playlist") {
        return None;
    }
    if k4 == v.len() {
        return None;
    }
    let k5 = find_char(&v, k4 + 1, ':');
    Some(string_range(&v, k4 + 1, k5))
}

/// A simplified artist object.
#[derive(Debug, Clone, PartialEq, Eq)]
pub struct ArtistSimplified {
    /// Known external URLs for this artist.
    pub external_urls: HashMap<String, String>,
    /// The name of the artist.
    pub name: String,
    /// The ID of the artist; only absent for local tracks on a playlist.
    pub id: Option<String>,
}

/// An artist object.
#[derive(Debug, Clone, PartialEq, Eq)]
pub struct Artist {
    /// Known external URLs for this artist.
    pub external_urls: HashMap<String, String>,
    /// The name of the artist.
    pub name: String,
    /// The ID of the artist.
    pub id: String,
    /// Information about the followers of this artist.
    pub followers: Followers,
    /// The genres this artist is associated with.
    pub genres: Vec<String>,
    /// Images of the artist in various sizes, widest first.
    pub images: Vec<Image>,
    /// The popularity of the artist, from 0 to 100.
    pub popularity: u32,
}

impl Artist {
    /// Convert to an `ArtistSimplified`.
    pub fn simplify(self) -> (r: ArtistSimplified)
        ensures
            r.external_urls == self.external_urls,
            r.name == self.name,
            r.id == Some(self.id),
    {
        ArtistSimplified {
            external_urls: self.external_urls,
            name: self.name,
            id: Some(self.id),
        }
    }
}

/// The type of album.
#[derive(Debug, Clone, Copy, PartialEq, Eq, Hash, Structural)]
pub enum AlbumType {
    /// An album.
    Album,
    /// A single.
    Single,
    /// A compilation album.
    Compilation,
}

/// Similar to `AlbumType`, but with an extra variant.
#[derive(Debug, Clone, Copy, PartialEq, Eq, Hash, Structural)]
pub enum AlbumGroup {
    /// An album.
    Album,
    /// A single.
    Single,
    /// A compilation album.
    Compilation,
    /// An album the artist appears on, but did not release.
    AppearsOn,
}

/// The name of an album group on the wire.
pub open spec fn spec_album_group_str(g: AlbumGroup) -> Seq<char> {
    match g {
        AlbumGroup::Album => "album"@,
        AlbumGroup::Single => "single"@,
        AlbumGroup::Compilation => "compilation"@,
        AlbumGroup::AppearsOn => "appears_on"@,
    }
}

impl AlbumGroup {
    /// Get the album's type as a string.
    pub fn as_str(self) -> (r: &'static str)
        ensures
            r@ == spec_album_group_str(self),
    {
        match self {
            AlbumGroup::Album => "album",
            AlbumGroup::Single => "single",
            AlbumGroup::Compilation => "compilation",
            AlbumGroup::AppearsOn => "appears_on",
        }
    }
}

/// A simplified album object.
#[derive(Debug, Clone, PartialEq, Eq)]
pub struct AlbumSimplified {
    /// The type of album; only absent for the album of a local track.
    pub album_type: Option<AlbumType>,
    /// The artists who made this album.
    pub artists: Vec<ArtistSimplified>,
    /// The markets in which at least one of the album's tracks is
    /// available, as two-letter country codes.
    pub available_markets: Option<Vec<String>>,
    /// Known external URLs for this album.
    pub external_urls: HashMap<String, String>,
    /// The cover art for the album in various sizes, widest first.
    pub images: Vec<Image>,
    /// The name of the album; empty where the album was taken down.
    pub name: String,
    /// The ID of the album; only absent for the album of a local track.
    pub id: Option<String>,
    /// When the album was released; only absent for the album of a local
    /// track.
    pub release_date: Option<Date>,
    /// How precise the release date is; only absent for the album of a
    /// local track.
    pub release_date_precision: Option<DatePrecision>,
    /// Present where track relinking found nothing to relink with.
    pub restrictions: Option<Restrictions>,
}

/// An album object.
#[derive(Debug, Clone, PartialEq, Eq)]
pub struct Album {
    /// The type of album.
    pub album_type: AlbumType,
    /// The artists who made this album.
    pub artists: Vec<ArtistSimplified>,
    /// The markets in which at least one of the album's tracks is
    /// available, as two-letter country codes.
    pub available_markets: Option<Vec<String>>,
    /// Known external URLs for this album.
    pub external_urls: HashMap<String, String>,
    /// The cover art for the album in various sizes, widest first.
    pub images: Vec<Image>,
    /// The name of the album; empty where the album was taken down.
    pub name: String,
    /// The ID of the album.
    pub id: String,
    /// When the album was released.
    pub release_date: Date,
    /// How precise the release date is.
    pub release_date_precision: DatePrecision,
    /// Present where track relinking found nothing to relink with.
    pub restrictions: Option<Restrictions>,
    /// The known copyrights of this album.
    pub copyrights: Vec<Copyright>,
    /// Known external IDs for this album.
    pub external_ids: HashMap<String, String>,
    /// The genres used to classify the album.
    pub genres: Vec<String>,
    /// The label of the album.
    pub label: String,
    /// The popularity of the album, from 0 to 100.
    pub popularity: u32,
    /// A page of tracks in the album.
    pub tracks: Page<TrackSimplified>,
}

impl Album {
    /// Convert to an `AlbumSimplified`.
    pub fn simplify(self) -> (r: AlbumSimplified)
        ensures
            r.album_type == Some(self.album_type),
            r.artists == self.artists,
            r.available_markets == self.available_markets,
            r.external_urls == self.external_urls,
            r.images == self.images,
            r.name == self.name,
            r.id == Some(self.id),
            r.release_date == Some(self.release_date),
            r.release_date_precision == Some(self.release_date_precision),
            r.restrictions == self.restrictions,
    {
        AlbumSimplified {
            album_type: Some(self.album_type),
            artists: self.artists,
            available_markets: self.available_markets,
            external_urls: self.external_urls,
            images: self.images,
            name: self.name,
            id: Some(self.id),
            release_date: Some(self.release_date),
            release_date_precision: Some(self.release_date_precision),
            restrictions: self.restrictions,
        }
    }
}

/// A simplified album object from the context of an artist.
#[derive(Debug, Clone, PartialEq, Eq)]
pub struct ArtistsAlbum {
    /// The type of album.
    pub album_type: AlbumType,
    /// Whether the artist released the album, or appears on it.
    pub album_group: AlbumGroup,
    /// The artists who made this album.
    pub artists: Vec<ArtistSimplified>,
    /// The markets in which at least one of the album's tracks is
    /// available, as two-letter country codes.
    pub available_markets: Option<Vec<String>>,
    /// Known external URLs for this album.
    pub external_urls: HashMap<String, String>,
    /// The cover art for the album in various sizes, widest first.
    pub images: Vec<Image>,
    /// The name of the album; empty where the album was taken down.
    pub name: String,
    /// The ID of the album.
    pub id: String,
    /// When the album was released.
    pub release_date: Date,
    /// How precise the release date is.
    pub release_date_precision: DatePrecision,
    /// Present where track relinking found nothing to relink with.
    pub restrictions: Option<Restrictions>,
}

impl ArtistsAlbum {
    /// Convert to an `AlbumSimplified`.
    pub fn simplify(self) -> (r: AlbumSimplified)
        ensures
            r.album_type == Some(self.album_type),
            r.artists == self.artists,
            r.available_markets == self.available_markets,
            r.external_urls == self.external_urls,
            r.images == self.images,
            r.name == self.name,
            r.id == Some(self.id),
            r.release_date == Some(self.release_date),
            r.release_date_precision == Some(self.release_date_precision),
            r.restrictions == self.restrictions,
    {
        AlbumSimplified {
            album_type: Some(self.album_type),
            artists: self.artists,
            available_markets: self.available_markets,
            external_urls: self.external_urls,
            images: self.images,
            name: self.name,
            id: Some(self.id),
            release_date: Some(self.release_date),
            release_date_precision: Some(self.release_date_precision),
            restrictions: self.restrictions,
        }
    }
}

/// A link to a track.
#[derive(Debug, Clone, PartialEq, Eq)]
pub struct TrackLink {
    /// Known external URLs for this track.
    pub external_urls: HashMap<String, String>,
    /// The ID of this track.
    pub id: String,
}

/// A simplified track object.
#[derive(Debug, Clone, PartialEq, Eq)]
pub struct TrackSimplified {
    /// The artists who performed the track.
    pub artists: Vec<ArtistSimplified>,
    /// The markets in which this track is available, as two-letter
    /// country codes.
    pub available_markets: Option<Vec<String>>,
    /// The disc number, 1 unless the album has several discs.
    pub disc_number: usize,
    /// The track length in milliseconds.
    pub duration: u64,
    /// Whether the track has explicit lyrics, false if unknown.
    pub explicit: bool,
    /// Known external URLs for this track.
    pub external_urls: HashMap<String, String>,
    /// The ID of this track; only absent for a local track.
    pub id: Option<String>,
    /// When track relinking is applied, whether the track is playable in
    /// the given market.
    pub is_playable: Option<bool>,
    /// When track relinking replaced the requested track, the original.
    pub linked_from: Option<TrackLink>,
    /// Present where track relinking found nothing to relink with.
    pub restrictions: Option<Restrictions>,
    /// The name of the track.
    pub name: String,
    /// A link to a short preview of the track, where one exists.
    pub preview_url: Option<String>,
    /// The 1-indexed number of the track on its disc.
    pub track_number: usize,
    /// Whether the track is a local track.
    pub is_local: bool,
}

/// A track object.
#[derive(Debug, Clone, PartialEq, Eq)]
pub struct Track {
    /// The artists who performed the track.
    pub artists: Vec<ArtistSimplified>,
    /// The markets in which this track is available, as two-letter
    /// country codes.
    pub available_markets: Option<Vec<String>>,
    /// The disc number, 1 unless the album has several discs.
    pub disc_number: usize,
    /// The track length in milliseconds.
    pub duration: u64,
    /// Whether the track has explicit lyrics, false if unknown.
    pub explicit: bool,
    /// Known external URLs for this track.
    pub external_urls: HashMap<String, String>,
    /// The ID of this track; only absent for a local track.
    pub id: Option<String>,
    /// When track relinking is applied, whether the track is playable in
    /// the given market.
    pub is_playable: Option<bool>,
    /// When track relinking replaced the requested track, the original.
    pub linked_from: Option<TrackLink>,
    /// Present where track relinking found nothing to relink with.
    pub restrictions: Option<Restrictions>,
    /// The name of the track.
    pub name: String,
    /// A link to a short preview of the track, where one exists.
    pub preview_url: Option<String>,
    /// The 1-indexed number of the track on its disc.
    pub track_number: usize,
    /// Whether the track is a local track.
    pub is_local: bool,
    /// The album on which this track appears.
    pub album: AlbumSimplified,
    /// Known external IDs for this track.
    pub external_ids: HashMap<String, String>,
    /// The popularity of the track, from 0 to 100.
    pub popularity: u32,
}

impl Track {
    /// Convert to a `TrackSimplified`.
    pub fn simplify(self) -> (r: TrackSimplified)
        ensures
            r.artists == self.artists,
            r.available_markets == self.available_markets,
            r.disc_number == self.disc_number,
            r.duration == self.duration,
            r.explicit == self.explicit,
            r.external_urls == self.external_urls,
            r.id == self.id,
            r.is_playable == self.is_playable,
            r.linked_from == self.linked_from,
            r.restrictions == self.restrictions,
            r.name == self.name,
            r.preview_url == self.preview_url,
            r.track_number == self.track_number,
            r.is_local == self.is_local,
    {
        TrackSimplified {
            artists: self.artists,
            available_markets: self.available_markets,
            disc_number: self.disc_number,
            duration: self.duration,
            explicit: self.explicit,
            external_urls: self.external_urls,
            id: self.id,
            is_playable: self.is_playable,
            linked_from: self.linked_from,
            restrictions: self.restrictions,
            name: self.name,
            preview_url: self.preview_url,
            track_number: self.track_number,
            is_local: self.is_local,
        }
    }
}

/// The number of tracks an object contains.
#[derive(Debug, Clone, PartialEq, Eq, Structural)]
pub struct Tracks {
    /// The number of tracks.
    pub total: usize,
}

/// A user object with the fields that every view of a user carries.
#[derive(Debug, Clone, PartialEq, Eq)]
pub struct UserSimplified {
    /// The name of the user; can be unavailable.
    pub display_name: Option<String>,
    /// Known public external URLs for this user.
    pub external_urls: HashMap<String, String>,
    /// The user ID.
    pub id: String,
}

/// A user object that is accessible to everyone.
#[derive(Debug, Clone, PartialEq, Eq)]
pub struct UserPublic {
    /// The name of the user; can be unavailable.
    pub display_name: Option<String>,
    /// Known public external URLs for this user.
    pub external_urls: HashMap<String, String>,
    /// The user ID.
    pub id: String,
    /// Information about the followers of the user.
    pub followers: Followers,
    /// The user's profile images.
    pub images: Vec<Image>,
}

/// A user object only accessible to the user themselves.
#[derive(Debug, Clone, PartialEq, Eq)]
pub struct UserPrivate {
    /// The name of the user; can be unavailable.
    pub display_name: Option<String>,
    /// Known public external URLs for this user.
    pub external_urls: HashMap<String, String>,
    /// The user ID.
    pub id: String,
    /// Information about the followers of the user.
    pub followers: Followers,
    /// The user's profile images.
    pub images: Vec<Image>,
    /// The country of the user, as a two-letter country code.
    pub country: Option<String>,
    /// The user's email address, not necessarily verified.
    pub email: Option<String>,
    /// The user's subscription level.
    pub product: Option<Subscription>,
}

impl UserPublic {
    /// Convert to a `UserSimplified`.
    pub fn simplify(self) -> (r: UserSimplified)
        ensures
            r.display_name == self.display_name,
            r.external_urls == self.external_urls,
            r.id == self.id,
    {
        UserSimplified {
            display_name: self.display_name,
            external_urls: self.external_urls,
            id: self.id,
        }
    }
}

impl UserPrivate {
    /// Convert to a `UserPublic`.
    pub fn publicize(self) -> (r: UserPublic)
        ensures
            r.display_name == self.display_name,
            r.external_urls == self.external_urls,
            r.id == self.id,
            r.followers == self.followers,
            r.images == self.images,
    {
        UserPublic {
            display_name: self.display_name,
            external_urls: self.external_urls,
            id: self.id,
            followers: self.followers,
            images: self.images,
        }
    }

    /// Convert to a `UserSimplified`.
    pub fn simplify(self) -> (r: UserSimplified)
        ensures
            r.display_name == self.display_name,
            r.external_urls == self.external_urls,
            r.id == self.id,
    {
        self.publicize().simplify()
    }
}

/// A simplified show object.
#[derive(Debug, Clone, PartialEq, Eq)]
pub struct ShowSimplified {
    /// The countries in which the show can be played, as two-letter
    /// country codes.
    pub available_markets: Vec<String>,
    /// The copyright statements of the show.
    pub copyrights: Vec<Copyright>,
    /// A description of the show.
    pub description: String,
    /// Whether the show is explicit.
    pub explicit: bool,
    /// Known external URLs for this show.
    pub external_urls: HashMap<String, String>,
    /// The ID of the show.
    pub id: String,
    /// The cover art for the show in various sizes, widest first.
    pub images: Vec<Image>,
    /// Whether the show is hosted outside of the service's CDN, where
    /// known.
    pub is_externally_hosted: Option<bool>,
    /// The languages used in the show, as ISO 639 codes.
    pub languages: Vec<String>,
    /// The media type of the show.
    pub media_type: String,
    /// The name of the show.
    pub name: String,
    /// The publisher of the show.
    pub publisher: String,
}

/// A show object.
#[derive(Debug, Clone, PartialEq, Eq)]
pub struct Show {
    /// The countries in which the show can be played, as two-letter
    /// country codes.
    pub available_markets: Vec<String>,
    /// The copyright statements of the show.
    pub copyrights: Vec<Copyright>,
    /// A description of the show.
    pub description: String,
    /// Whether the show is explicit.
    pub explicit: bool,
    /// Known external URLs for this show.
    pub external_urls: HashMap<String, String>,
    /// The ID of the show.
    pub id: String,
    /// The cover art for the show in various sizes, widest first.
    pub images: Vec<Image>,
    /// Whether the show is hosted outside of the service's CDN, where
    /// known.
    pub is_externally_hosted: Option<bool>,
    /// The languages used in the show, as ISO 639 codes.
    pub languages: Vec<String>,
    /// The media type of the show.
    pub media_type: String,
    /// The name of the show.
    pub name: String,
    /// The publisher of the show.
    pub publisher: String,
    /// A page of the show's episodes.
    pub episodes: Page<EpisodeSimplified>,
}

impl Show {
    /// Convert to a `ShowSimplified`.
    pub fn simplify(self) -> (r: ShowSimplified)
        ensures
            r.available_markets == self.available_markets,
            r.copyrights == self.copyrights,
            r.description == self.description,
            r.explicit == self.explicit,
            r.external_urls == self.external_urls,
            r.id == self.id,
            r.images == self.images,
            r.is_externally_hosted == self.is_externally_hosted,
            r.languages == self.languages,
            r.media_type == self.media_type,
            r.name == self.name,
            r.publisher == self.publisher,
    {
        ShowSimplified {
            available_markets: self.available_markets,
            copyrights: self.copyrights,
            description: self.description,
            explicit: self.explicit,
            external_urls: self.external_urls,
            id: self.id,
            images: self.images,
            is_externally_hosted: self.is_externally_hosted,
            languages: self.languages,
            media_type: self.media_type,
            name: self.name,
            publisher: self.publisher,
        }
    }
}

/// A simplified episode object.
#[derive(Debug, Clone, PartialEq, Eq)]
pub struct EpisodeSimplified {
    /// The URL of a short audio preview of the episode, where one
    /// exists.
    pub audio_preview_url: Option<String>,
    /// A description of the episode.
    pub description: String,
    /// The length of the episode in milliseconds.
    pub duration: u64,
    /// Whether the episode is explicit.
    pub explicit: bool,
    /// Known external URLs for this episode.
    pub external_urls: HashMap<String, String>,
    /// The ID of the episode.
    pub id: String,
    /// The cover art for this episode in various sizes, widest first.
    pub images: Vec<Image>,
    /// Whether the episode is hosted outside of the service's CDN.
    pub is_externally_hosted: bool,
    /// Whether the episode is playable in the given market.
    pub is_playable: bool,
    /// The languages used in this episode, as ISO 639 codes.
    pub languages: Vec<String>,
    /// The name of the episode.
    pub name: String,
    /// When the episode was released.
    pub release_date: Date,
    /// How precise the release date is.
    pub release_date_precision: DatePrecision,
    /// The user's most recent position in the episode, where there is a
    /// user.
    pub resume_point: Option<ResumePoint>,
}

/// An episode object.
#[derive(Debug, Clone, PartialEq, Eq)]
pub struct Episode {
    /// The URL of a short audio preview of the episode, where one
    /// exists.
    pub audio_preview_url: Option<String>,
    /// A description of the episode.
    pub description: String,
    /// The length of the episode in milliseconds.
    pub duration: u64,
    /// Whether the episode is explicit.
    pub explicit: bool,
    /// Known external URLs for this episode.
    pub external_urls: HashMap<String, String>,
    /// The ID of the episode.
    pub id: String,
    /// The cover art for this episode in various sizes, widest first.
    pub images: Vec<Image>,
    /// Whether the episode is hosted outside of the service's CDN.
    pub is_externally_hosted: bool,
    /// Whether the episode is playable in the given market.
    pub is_playable: bool,
    /// The languages used in this episode, as ISO 639 codes.
    pub languages: Vec<String>,
    /// The name of the episode.
    pub name: String,
    /// When the episode was released.
    pub release_date: Date,
    /// How precise the release date is.
    pub release_date_precision: DatePrecision,
    /// The user's most recent position in the episode, where there is a
    /// user.
    pub resume_point: Option<ResumePoint>,
    /// The show the episode belongs to.
    pub show: ShowSimplified,
}

impl Episode {
    /// Convert to an `EpisodeSimplified`.
    pub fn simplify(self) -> (r: EpisodeSimplified)
        ensures
            r.audio_preview_url == self.audio_preview_url,
            r.description == self.description,
            r.duration == self.duration,
            r.explicit == self.explicit,
            r.external_urls == self.external_urls,
            r.id == self.id,
            r.images == self.images,
            r.is_externally_hosted == self.is_externally_hosted,
            r.is_playable == self.is_playable,
            r.languages == self.languages,
            r.name == self.name,
            r.release_date == self.release_date,
            r.release_date_precision == self.release_date_precision,
            r.resume_point == self.resume_point,
    {
        EpisodeSimplified {
            audio_preview_url: self.audio_preview_url,
            description: self.description,
            duration: self.duration,
            explicit: self.explicit,
            external_urls: self.external_urls,
            id: self.id,
            images: self.images,
            is_externally_hosted: self.is_externally_hosted,
            is_playable: self.is_playable,
            languages: self.languages,
            name: self.name,
            release_date: self.release_date,
            release_date_precision: self.release_date_precision,
            resume_point: self.resume_point,
        }
    }
}

/// The types of item that can go in a playlist.
#[derive(Debug, Clone, Copy, PartialEq, Eq, Hash)]
pub enum PlaylistItemType<T, E> {
    /// A track.
    Track(T),
    /// An episode.
    Episode(E),
}

impl PlaylistItemType<String, String> {
    /// The item URI formed from the held ID.
    pub fn uri(&self) -> (r: String)
        ensures
            self matches PlaylistItemType::Track(t) ==> r@ == "spotify:track:"@ + t@,
            self matches PlaylistItemType::Episode(e) ==> r@ == "spotify:episode:"@ + e@,
    {
        match self {
            Self::Track(track) => {
                let mut out = String::from_str("spotify:track:");
                out.append(track.as_str());
                out
            },
            Self::Episode(episode) => {
                let mut out = String::from_str("spotify:episode:");
                out.append(episode.as_str());
                out
            },
        }
    }
}

/// Information about an item inside a playlist.
#[derive(Debug, Clone, PartialEq, Eq)]
pub struct PlaylistItem {
    /// When the item was added, in milliseconds since the Unix epoch;
    /// very old playlists may not have it.
    pub added_at: Option<i64>,
    /// The user who added the item; very old playlists may not have it.
    pub added_by: Option<UserSimplified>,
    /// Whether the item is a local file.
    pub is_local: bool,
    /// The item itself; not always present.
    pub item: Option<PlaylistItemType<Track, Episode>>,
}

/// A simplified playlist object.
#[derive(Debug, Clone, PartialEq, Eq)]
pub struct PlaylistSimplified {
    /// Whether the owner allows other people to modify the playlist.
    pub collaborative: bool,
    /// Known external URLs for this playlist.
    pub external_urls: HashMap<String, String>,
    /// The ID of the playlist.
    pub id: String,
    /// Images for the playlist, in descending order of size.
    pub images: Vec<Image>,
    /// The name of the playlist.
    pub name: String,
    /// The user who owns the playlist.
    pub owner: UserSimplified,
    /// Whether the playlist is public; absent where not relevant.
    pub public: Option<bool>,
    /// The version identifier of the playlist.
    pub snapshot_id: String,
    /// The number of tracks in the playlist.
    pub tracks: Tracks,
}

/// A playlist object.
#[derive(Debug, Clone, PartialEq, Eq)]
pub struct Playlist {
    /// Whether the owner allows other people to modify the playlist.
    pub collaborative: bool,
    /// Known external URLs for this playlist.
    pub external_urls: HashMap<String, String>,
    /// The ID of the playlist.
    pub id: String,
    /// Images for the playlist, in descending order of size.
    pub images: Vec<Image>,
    /// The name of the playlist.
    pub name: String,
    /// The user who owns the playlist.
    pub owner: UserSimplified,
    /// Whether the playlist is public; absent where not relevant.
    pub public: Option<bool>,
    /// The version identifier of the playlist.
    pub snapshot_id: String,
    /// The playlist description, only for modified and verified
    /// playlists.
    pub description: Option<String>,
    /// The followers of the playlist.
    pub followers: Followers,
    /// Information about the tracks and episodes of the playlist.
    pub tracks: Page<PlaylistItem>,
}

impl Playlist {
    /// Convert to a `PlaylistSimplified`.
    pub fn simplify(self) -> (r: PlaylistSimplified)
        ensures
            r.collaborative == self.collaborative,
            r.external_urls == self.external_urls,
            r.id == self.id,
            r.images == self.images,
            r.name == self.name,
            r.owner == self.owner,
            r.public == self.public,
            r.snapshot_id == self.snapshot_id,
            r.tracks == (Tracks { total: self.tracks.total }),
    {
        PlaylistSimplified {
            collaborative: self.collaborative,
            external_urls: self.external_urls,
            id: self.id,
            images: self.images,
            name: self.name,
            owner: self.owner,
            public: self.public,
            snapshot_id: self.snapshot_id,
            tracks: Tracks { total: self.tracks.total },
        }
    }
}

/// A list of featured playlists, and a message.
#[derive(Debug, Clone, PartialEq, Eq)]
pub struct FeaturedPlaylists {
    /// A message about the featured playlists.
    pub message: String,
    /// The list of featured playlists.
    pub playlists: Page<PlaylistSimplified>,
}

/// The currently playing item, discriminated by the companion type
/// string of the wire format.
#[derive(Debug, Clone, PartialEq, Eq)]
pub enum PlayingType {
    /// A track.
    Track(Track),
    /// An episode of a show.
    Episode(Episode),
    /// An advert.
    Ad(Track),
    /// An unknown item type.
    Unknown(Track),
}

/// Information about the currently playing item.
#[derive(Debug, Clone, PartialEq, Eq)]
pub struct CurrentlyPlaying {
    /// The context of the currently playing item; absent for example in
    /// a private session.
    pub context: Option<Context>,
    /// Progress into the item in milliseconds; absent for example in a
    /// private session.
    pub progress: Option<u64>,
    /// Whether something is currently playing.
    pub is_playing: bool,
    /// The currently playing item; absent for example in a private
    /// session.
    pub item: Option<PlayingType>,
    /// Which actions are disallowed in the current context.
    pub actions: Actions,
}

/// Information about a user's current playback state.
#[derive(Debug, Clone, PartialEq, Eq)]
pub struct CurrentPlayback {
    /// The currently active device.
    pub device: Device,
    /// The repeat state.
    pub repeat_state: RepeatState,
    /// Whether shuffle is on.
    pub shuffle_state: bool,
    /// The currently playing item.
    pub currently_playing: CurrentlyPlaying,
}

/// Recommended tracks for the user.
#[derive(Debug, Clone, PartialEq, Eq)]
pub struct Recommendations {
    /// The seeds the recommendations grew from.
    pub seeds: Vec<RecommendationSeed>,
    /// The recommended tracks.
    pub tracks: Vec<TrackSimplified>,
}

/// The results of a search, one page per requested item type.
#[derive(Debug, Clone, PartialEq, Eq)]
pub struct SearchResults {
    /// The resulting artists of the search.
    pub artists: Option<Page<Artist>>,
    /// The resulting albums of the search.
    pub albums: Option<Page<AlbumSimplified>>,
    /// The resulting tracks of the search.
    pub tracks: Option<Page<Track>>,
    /// The resulting playlists of the search.
    pub playlists: Option<Page<PlaylistSimplified>>,
    /// The resulting shows of the search.
    pub shows: Option<Page<ShowSimplified>>,
    /// The resulting episodes of the search.
    pub episodes: Option<Page<EpisodeSimplified>>,
}

/// A request to play something.
#[derive(Debug, Clone, PartialEq, Eq)]
pub enum Play {
    /// Play from a context — an album, artist, playlist or show — with a
    /// 0-indexed offset to start playing at.
    Context(ItemType, String, usize),
    /// Play a list of tracks.
    Tracks(Vec<String>),
}

} // verus!
