//! Media items, libraries and their streams, and what a user has done with an item.
use vstd::prelude::*;
use crate::text::{concat, u64_text, decimal};

verus! {

/// Media item type enumeration.
#[derive(Debug, Clone, Copy, PartialEq, Eq, Structural)]
pub enum MediaType {
    /// Movie
    Movie,
    /// TV Series
    Series,
    /// TV Episode
    Episode,
    /// Music Album
    Album,
    /// Music Track
    Audio,
    /// Photo
    Photo,
    /// Video
    Video,
    /// Collection/Folder
    Folder,
    /// Playlist
    Playlist,
}

/// Base media item structure. (The community rating, a float, is kept by the
/// application.)
#[derive(Debug, Clone)]
pub struct MediaItem {
    /// Unique item identifier
    pub id: String,
    /// Item name/title
    pub name: String,
    /// Item type
    pub media_type: MediaType,
    /// Item overview/description
    pub overview: Option<String>,
    /// Release/air date
    pub premiere_date: Option<String>,
    /// Runtime in ticks of 100 nanoseconds
    pub runtime_ticks: Option<u64>,
    /// Official rating (G, PG, R, etc.)
    pub official_rating: Option<String>,
    /// Production year
    pub production_year: Option<u32>,
    /// Genres
    pub genres: Vec<String>,
    /// Studios/Networks
    pub studios: Vec<String>,
    /// People (actors, directors, etc.)
    pub people: Vec<PersonInfo>,
    /// Image tags for different image types, as (image type, tag) pairs
    pub image_tags: Vec<(String, String)>,
    /// Whether item has been played
    pub is_played: bool,
    /// Play count
    pub play_count: Option<u32>,
    /// User data
    pub user_data: Option<UserData>,
}

/// Person information (actor, director, etc.).
#[derive(Debug, Clone)]
pub struct PersonInfo {
    /// Person name
    pub name: String,
    /// Person ID
    pub id: Option<String>,
    /// Role (Actor, Director, Writer, etc.)
    pub role: Option<String>,
    /// Character name (for actors)
    pub character: Option<String>,
    /// Person type
    pub person_type: String,
}

/// User-specific data for a media item. (The user's rating, a float, is kept by the
/// application.)
#[derive(Debug, Clone)]
pub struct UserData {
    /// Whether item is favorite
    pub is_favorite: bool,
    /// Playback position in ticks
    pub playback_position_ticks: Option<u64>,
    /// Last played date
    pub last_played_date: Option<String>,
    /// Whether item is played
    pub played: bool,
    /// Play count
    pub play_count: u32,
}

/// Library information.
#[derive(Debug, Clone)]
pub struct Library {
    /// Library ID
    pub id: String,
    /// Library name
    pub name: String,
    /// Library type (movies, tvshows, music, etc.)
    pub collection_type: String,
    /// Library location paths
    pub locations: Vec<String>,
    /// Whether library is enabled
    pub is_enabled: bool,
    /// Item count in library
    pub item_count: Option<u32>,
}

/// Media stream information.
#[derive(Debug, Clone)]
pub struct MediaStream {
    /// Stream index
    pub index: u32,
    /// Stream type (Video, Audio, Subtitle)
    pub stream_type: StreamType,
    /// Codec name
    pub codec: Option<String>,
    /// Language code
    pub language: Option<String>,
    /// Display title
    pub display_title: Option<String>,
    /// Whether stream is default
    pub is_default: bool,
    /// Whether stream is forced
    pub is_forced: bool,
    /// Whether stream is external
    pub is_external: bool,
}

/// Stream type enumeration.
#[derive(Debug, Clone, Copy, PartialEq, Eq, Structural)]
pub enum StreamType {
    /// Video stream
    Video,
    /// Audio stream
    Audio,
    /// Subtitle stream
    Subtitle,
}

/// Playback information.
#[derive(Debug, Clone)]
pub struct PlaybackInfo {
    /// Media sources available for playback
    pub media_sources: Vec<MediaSource>,
    /// Play session ID
    pub play_session_id: Option<String>,
    /// Error code if any
    pub error_code: Option<String>,
}

/// Media source information.
#[derive(Debug, Clone)]
pub struct MediaSource {
    /// Source ID
    pub id: String,
    /// Source path
    pub path: Option<String>,
    /// Source type (Default, Grouping, Placeholder)
    pub source_type: String,
    /// Container format
    pub container: Option<String>,
    /// File size in bytes
    pub size: Option<u64>,
    /// Bitrate
    pub bitrate: Option<u32>,
    /// Media streams
    pub media_streams: Vec<MediaStream>,
    /// Whether source supports direct play
    pub supports_direct_play: bool,
    /// Whether source supports direct stream
    pub supports_direct_stream: bool,
    /// Whether source supports transcoding
    pub supports_transcoding: bool,
}

/// Ticks (of 100 nanoseconds) in a minute.
pub const TICKS_PER_MINUTE: u64 = 600_000_000;

/// A runtime of `ticks` as text: whole hours and the minutes left over (`1h 5m`), or the
/// minutes alone (`42m`) under an hour; seconds are dropped.
pub open spec fn runtime_text(ticks: nat) -> Seq<char> {
    let minutes = ticks / (TICKS_PER_MINUTE as nat);
    let hours = minutes / 60;
    if hours > 0 {
        decimal(hours) + "h "@ + decimal(minutes % 60) + "m"@
    } else {
        decimal(minutes % 60) + "m"@
    }
}

/// The runtime text accounts for every whole minute of the runtime: writing the minutes
/// as `hours * 60 + rest` with `rest` under 60, the text shows `hours` and `rest` as
/// `{hours}h {rest}m`, or only `{rest}m` when there is not a whole hour.
pub proof fn law_runtime_text_counts_all_minutes(ticks: nat, hours: nat, rest: nat)
    requires
        rest < 60,
        hours * 60 + rest == ticks / 600_000_000,
    ensures
        hours > 0 ==> runtime_text(ticks) == decimal(hours) + "h "@ + decimal(rest) + "m"@,
        hours == 0 ==> runtime_text(ticks) == decimal(rest) + "m"@,
{
    let m = ticks / 600_000_000;
    vstd::arithmetic::div_mod::lemma_fundamental_div_mod_converse(m as int, 60, hours as int, rest as int);
}

impl MediaItem {
    /// The runtime as text, when the item has one.
    pub fn runtime_formatted(&self) -> (r: Option<String>)
        ensures
            match self.runtime_ticks {
                Some(t) => r matches Some(s) && s@ == runtime_text(t as nat),
                None => r is None,
            },
    {
        match self.runtime_ticks {
            Some(ticks) => {
                let minutes = ticks / TICKS_PER_MINUTE;
                let hours = minutes / 60;
                let remaining = minutes % 60;
                if hours > 0 {
                    let h = u64_text(hours);
                    let m = u64_text(remaining);
                    let mut s = concat(h.as_str(), "h ");
                    s = concat(s.as_str(), m.as_str());
                    Some(concat(s.as_str(), "m"))
                } else {
                    let m = u64_text(remaining);
                    Some(concat(m.as_str(), "m"))
                }
            },
            None => None,
        }
    }

    /// Whether the item has been watched: the user data's word when there is user data,
    /// else the item's own flag.
    pub fn is_watched(&self) -> (b: bool)
        ensures
            b == match self.user_data {
                Some(d) => d.played,
                None => self.is_played,
            },
    {
        match &self.user_data {
            Some(d) => d.played,
            None => self.is_played,
        }
    }

    /// Whether the user marked the item as a favorite (never without user data).
    pub fn is_favorite(&self) -> (b: bool)
        ensures
            b == (self.user_data matches Some(d) && d.is_favorite),
    {
        match &self.user_data {
            Some(d) => d.is_favorite,
            None => false,
        }
    }
}

} // verus!
