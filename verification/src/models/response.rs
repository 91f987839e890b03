//! Envelopes of Jellyfin API responses: paged results, libraries, pings, images and
//! error bodies.
use vstd::prelude::*;

verus! {

/// Generic response wrapper for paginated results
#[derive(Debug, Clone)]
pub struct QueryResult<T> {
    pub items: Vec<T>,
    pub total_record_count: i32,
    pub start_index: i32,
}

/// Library information
#[derive(Debug, Clone)]
pub struct Library {
    pub name: String,
    pub id: String,
    pub collection_type: Option<String>,
    pub item_id: String,
    pub primary_image_tag: Option<String>,
}

/// Generic API error response
#[derive(Debug, Clone)]
pub struct ApiErrorResponse {
    pub name: Option<String>,
    pub description: Option<String>,
    pub error_code: Option<String>,
    pub stack_trace: Option<String>,
}

/// Response for system ping
#[derive(Debug, Clone)]
pub struct PingResponse {
    pub value: String,
}

/// Image information
#[derive(Debug, Clone)]
pub struct ImageInfo {
    pub image_type: String,
    pub image_index: Option<i32>,
    pub image_tag: String,
    pub path: Option<String>,
    pub blur_hash: Option<String>,
    pub height: Option<i32>,
    pub width: Option<i32>,
    pub size: Option<i64>,
}

/// Response for search queries
#[derive(Debug, Clone)]
pub struct SearchResponse {
    pub search_hints: Vec<SearchHint>,
    pub total_record_count: i32,
}

/// Search hint result
/// (`primary_image_aspect_ratio`, which holds floating point, is left out of this type.)
#[derive(Debug, Clone)]
pub struct SearchHint {
    pub item_id: String,
    pub id: String,
    pub name: String,
    pub matched_term: Option<String>,
    pub index_number: Option<i32>,
    pub production_year: Option<i32>,
    pub parent_index_number: Option<i32>,
    pub primary_image_tag: Option<String>,
    pub thumb_image_tag: Option<String>,
    pub thumb_image_item_id: Option<String>,
    pub backdrop_image_tag: Option<String>,
    pub backdrop_image_item_id: Option<String>,
    pub item_type: String,
    pub is_folder: Option<bool>,
    pub runtime_ticks: Option<i64>,
    pub media_type: Option<String>,
    pub start_date: Option<String>,
    pub end_date: Option<String>,
    pub series: Option<String>,
    pub status: Option<String>,
    pub album: Option<String>,
    pub album_id: Option<String>,
    pub album_artist: Option<String>,
    pub artists: Vec<String>,
    pub song_count: Option<i32>,
    pub episode_count: Option<i32>,
    pub channel_id: Option<String>,
    pub channel_name: Option<String>,
}

/// Response for playback info requests
#[derive(Debug, Clone)]
pub struct PlaybackInfoResponse {
    pub media_sources: Vec<crate::models::jellyfin::MediaSourceInfo>,
    pub play_session_id: Option<String>,
    pub error_code: Option<String>,
}

/// Response for item queries.
pub type ItemsResponse = QueryResult<crate::models::jellyfin::BaseItem>;

/// Response for library queries.
pub type LibrariesResponse = Vec<Library>;

/// Response for session queries.
pub type SessionsResponse = Vec<crate::models::jellyfin::SessionInfo>;

/// Response for user queries.
pub type UsersResponse = Vec<crate::models::jellyfin::UserInfo>;

/// Response for image queries.
pub type ImagesResponse = Vec<ImageInfo>;

} // verus!
