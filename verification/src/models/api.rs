//! The shapes of Jellyfin API payloads, and the query builders for the items, streaming
//! and search endpoints.
//!
//! Fields that hold floating-point measurements (ratings, aspect ratios, frame rates,
//! percentages) are left out; each payload's doc comment names them.
use vstd::prelude::*;
use std::collections::HashMap;
use crate::config::opt_text;
use crate::text::{bool_string, bool_text};
use super::query::{
    add_bool, add_entry, add_flag, add_i32, add_i64, add_list, add_text, add_u32, add_u32_list, append_entries,
    list_entry, opt_bool_text, opt_entry, opt_i32_text, opt_i64_text, opt_u32_text, params_view,
    set_entry, texts, u32_texts, upsert, entries_with, lemma_concat_empty, lemma_entries_with_concat,
    lemma_entries_with_empty, lemma_entries_with_list, lemma_entries_with_opt, lemma_entries_with_single,
    same_entries,
};
use crate::text::{decimal, join, signed_decimal};

verus! {

/// Server information response from Jellyfin API
#[derive(Debug, Clone)]
pub struct ServerInfo {
    /// Server unique identifier
    pub id: String,
    /// Server name
    pub name: String,
    /// Server version
    pub version: String,
    /// Operating system the server is running on
    pub operating_system: String,
    /// Local network address
    pub local_address: Option<String>,
    /// WAN address for external access
    pub wan_address: Option<String>,
    /// Server product name
    pub product_name: Option<String>,
    /// Startup wizard completed
    pub startup_wizard_completed: Option<bool>,
}

/// Public server information (available without authentication)
#[derive(Debug, Clone)]
pub struct PublicServerInfo {
    /// Server unique identifier
    pub id: String,
    /// Server name
    pub name: String,
    /// Server version
    pub version: String,
    /// Product name
    pub product_name: Option<String>,
    /// Operating system
    pub operating_system: Option<String>,
    /// Local address
    pub local_address: Option<String>,
    /// Startup wizard completed
    pub startup_wizard_completed: Option<bool>,
}

/// User configuration
#[derive(Debug, Clone)]
pub struct UserConfiguration {
    /// Audio language preference
    pub audio_language_preference: Option<String>,
    /// Play default audio track
    pub play_default_audio_track: bool,
    /// Subtitle language preference
    pub subtitle_language_preference: Option<String>,
    /// Display missing episodes
    pub display_missing_episodes: bool,
    /// Grouped folders
    pub grouped_folders: Vec<String>,
    /// Subtitle mode
    pub subtitle_mode: Option<String>,
    /// Display collections view
    pub display_collections_view: bool,
    /// Enable local password
    pub enable_local_password: bool,
    /// Ordered views
    pub ordered_views: Vec<String>,
    /// Latest items excludes
    pub latest_items_excludes: Vec<String>,
    /// My media excludes
    pub my_media_excludes: Vec<String>,
    /// Hide played in latest
    pub hide_played_in_latest: bool,
    /// Remember audio selections
    pub remember_audio_selections: bool,
    /// Remember subtitle selections
    pub remember_subtitle_selections: bool,
    /// Enable next episode auto play
    pub enable_next_episode_auto_play: bool,
}

/// Queue item for now playing queue
#[derive(Debug, Clone)]
pub struct QueueItem {
    /// Item ID
    pub id: String,
    /// Playlist item ID
    pub playlist_item_id: Option<String>,
}

/// Person information for base items
#[derive(Debug, Clone)]
pub struct BaseItemPerson {
    /// Name
    pub name: String,
    /// ID
    pub id: String,
    /// Role
    pub role: Option<String>,
    /// Type
    pub person_type: String,
    /// Primary image tag
    pub primary_image_tag: Option<String>,
}

/// Name and GUID pair
#[derive(Debug, Clone)]
pub struct NameGuidPair {
    /// Name
    pub name: String,
    /// ID
    pub id: String,
}

/// Media URL structure
#[derive(Debug, Clone)]
pub struct MediaUrl {
    /// URL
    pub url: String,
    /// Name
    pub name: Option<String>,
}

/// External URL structure
#[derive(Debug, Clone)]
pub struct ExternalUrl {
    /// Name
    pub name: String,
    /// URL
    pub url: String,
}

/// Media attachment
#[derive(Debug, Clone)]
pub struct MediaAttachment {
    /// Codec
    pub codec: Option<String>,
    /// Codec tag
    pub codec_tag: Option<String>,
    /// Comment
    pub comment: Option<String>,
    /// Index
    pub index: i32,
    /// File name
    pub file_name: Option<String>,
    /// Mime type
    pub mime_type: Option<String>,
    /// Delivery url
    pub delivery_url: Option<String>,
}

/// Sort order enumeration.
#[derive(Debug, Clone, Copy, PartialEq, Eq)]
pub enum SortOrder {
    Ascending,
    Descending,
}

impl SortOrder {
    /// How the order is written in a query.
    pub open spec fn text(&self) -> Seq<char> {
        match self {
            SortOrder::Ascending => "Ascending"@,
            SortOrder::Descending => "Descending"@,
        }
    }

    /// How the order is written in a query.
    pub fn to_string(&self) -> (s: String)
        ensures
            s@ == self.text(),
    {
        match self {
            SortOrder::Ascending => String::from_str("Ascending"),
            SortOrder::Descending => String::from_str("Descending"),
        }
    }
}

impl Default for SortOrder {
    fn default() -> (r: Self)
        ensures
            r == SortOrder::Ascending,
    {
        SortOrder::Ascending
    }
}

/// Query parameters for the items endpoint.
///
/// Holds the filters that the builder methods set and that are sent with a request.
/// (`min_community_rating`, `min_critic_rating`, `min_resume_percentage` and
/// `max_resume_percentage`, which hold floating point, are left out of this type.)
#[derive(Debug, Clone)]
pub struct ItemsQuery {
    /// Parent ID to get items from
    pub parent_id: Option<String>,
    /// Include item types filter
    pub include_item_types: Vec<String>,
    /// Exclude item types filter
    pub exclude_item_types: Vec<String>,
    /// Whether to search recursively
    pub recursive: bool,
    /// Sort by fields
    pub sort_by: Vec<String>,
    /// Sort order
    pub sort_order: SortOrder,
    /// Maximum number of items to return
    pub limit: Option<u32>,
    /// Starting index for pagination
    pub start_index: Option<u32>,
    /// Search term
    pub search_term: Option<String>,
    /// User ID for user-specific data
    pub user_id: Option<String>,
    /// Fields to include in response
    pub fields: Vec<String>,
    /// Enable images
    pub enable_images: Option<bool>,
    /// Image type limit
    pub image_type_limit: Option<u32>,
    /// Enable user data
    pub enable_user_data: Option<bool>,
    /// Enable total record count
    pub enable_total_record_count: Option<bool>,
    /// Genres
    pub genres: Vec<String>,
    /// Years
    pub years: Vec<u32>,
    /// Is played filter
    pub is_played: Option<bool>,
    /// Is favorite filter
    pub is_favorite: Option<bool>,
    pub enable_image_types: Vec<String>,
    pub filters: Vec<String>,
    pub official_ratings: Vec<String>,
    pub tags: Vec<String>,
    pub studios: Vec<String>,
    pub artists: Vec<String>,
    pub albums: Vec<String>,
    pub person_ids: Vec<String>,
    pub person_types: Vec<String>,
    pub has_trailer: Option<bool>,
    pub has_theme_song: Option<bool>,
    pub has_theme_video: Option<bool>,
    pub has_subtitles: Option<bool>,
    pub has_special_features: Option<bool>,
    pub has_lyrics: Option<bool>,
    pub has_overview: Option<bool>,
    pub has_imdb_id: Option<bool>,
    pub has_tmdb_id: Option<bool>,
    pub has_tvdb_id: Option<bool>,
    pub is_hd: Option<bool>,
    pub is_4k: Option<bool>,
    pub location_types: Vec<String>,
    pub exclude_location_types: Vec<String>,
    pub media_types: Vec<String>,
    pub video_types: Vec<String>,
    pub video_3d_formats: Vec<String>,
    pub series_statuses: Vec<String>,
    pub name_starts_with_or_greater: Option<String>,
    pub name_starts_with: Option<String>,
    pub name_less_than: Option<String>,
    pub adjacent_to: Option<String>,
    pub min_official_rating: Option<String>,
    pub max_official_rating: Option<String>,
    pub min_sort_name: Option<String>,
    pub min_date_created: Option<String>,
    pub max_date_created: Option<String>,
    pub min_premiere_date: Option<String>,
    pub max_premiere_date: Option<String>,
    pub min_index_number: Option<i32>,
    pub min_player_count: Option<i32>,
    pub max_player_count: Option<i32>,
    pub parent_index_number: Option<i32>,
    pub has_parental_rating: Option<bool>,
    pub is_airing: Option<bool>,
    pub max_air_date: Option<String>,
    pub min_air_date: Option<String>,
    pub series_timer_id: Option<String>,
    pub has_aired: Option<bool>,
    pub has_official_rating: Option<bool>,
    pub collapse_box_set_items: Option<bool>,
    pub min_width: Option<i32>,
    pub min_height: Option<i32>,
    pub max_width: Option<i32>,
    pub max_height: Option<i32>,
    pub is_3d: Option<bool>,
    pub series_ids: Vec<String>,
    pub box_set_ids: Vec<String>,
    pub artist_ids: Vec<String>,
    pub album_artist_ids: Vec<String>,
    pub contributing_artist_ids: Vec<String>,
    pub album_ids: Vec<String>,
    pub ids: Vec<String>,
    pub exclude_ids: Vec<String>,
    pub exclude_artist_ids: Vec<String>,
    pub exclude_series_ids: Vec<String>,
    pub exclude_album_ids: Vec<String>,
    pub group_items_into_collections: Option<bool>,
    pub is_locked: Option<bool>,
    pub is_place_holder: Option<bool>,
    pub has_official_rating_2: Option<bool>,
    pub is_in_box_set: Option<bool>,
}

impl ItemsQuery {
    /// A query with no filters: empty lists, no optional values, not recursive, ascending.
    pub fn new() -> (r: ItemsQuery)
        ensures
            r.parent_id is None, r.include_item_types@.len() == 0, r.exclude_item_types@.len() == 0,
            !r.recursive, r.sort_by@.len() == 0, r.sort_order == SortOrder::Ascending,
            r.limit is None, r.start_index is None, r.search_term is None, r.user_id is None,
            r.fields@.len() == 0, r.enable_images is None, r.image_type_limit is None,
            r.enable_user_data is None, r.enable_total_record_count is None,
            r.genres@.len() == 0, r.years@.len() == 0, r.is_played is None, r.is_favorite is None,
            r.enable_image_types@.len() == 0,
            r.filters@.len() == 0,
            r.official_ratings@.len() == 0,
            r.tags@.len() == 0,
            r.studios@.len() == 0,
            r.artists@.len() == 0,
            r.albums@.len() == 0,
            r.person_ids@.len() == 0,
            r.person_types@.len() == 0,
            r.has_trailer is None,
            r.has_theme_song is None,
            r.has_theme_video is None,
            r.has_subtitles is None,
            r.has_special_features is None,
            r.has_lyrics is None,
            r.has_overview is None,
            r.has_imdb_id is None,
            r.has_tmdb_id is None,
            r.has_tvdb_id is None,
            r.is_hd is None,
            r.is_4k is None,
            r.location_types@.len() == 0,
            r.exclude_location_types@.len() == 0,
            r.media_types@.len() == 0,
            r.video_types@.len() == 0,
            r.video_3d_formats@.len() == 0,
            r.series_statuses@.len() == 0,
            r.name_starts_with_or_greater is None,
            r.name_starts_with is None,
            r.name_less_than is None,
            r.adjacent_to is None,
            r.min_official_rating is None,
            r.max_official_rating is None,
            r.min_sort_name is None,
            r.min_date_created is None,
            r.max_date_created is None,
            r.min_premiere_date is None,
            r.max_premiere_date is None,
            r.min_index_number is None,
            r.min_player_count is None,
            r.max_player_count is None,
            r.parent_index_number is None,
            r.has_parental_rating is None,
            r.is_airing is None,
            r.max_air_date is None,
            r.min_air_date is None,
            r.series_timer_id is None,
            r.has_aired is None,
            r.has_official_rating is None,
            r.collapse_box_set_items is None,
            r.min_width is None,
            r.min_height is None,
            r.max_width is None,
            r.max_height is None,
            r.is_3d is None,
            r.series_ids@.len() == 0,
            r.box_set_ids@.len() == 0,
            r.artist_ids@.len() == 0,
            r.album_artist_ids@.len() == 0,
            r.contributing_artist_ids@.len() == 0,
            r.album_ids@.len() == 0,
            r.ids@.len() == 0,
            r.exclude_ids@.len() == 0,
            r.exclude_artist_ids@.len() == 0,
            r.exclude_series_ids@.len() == 0,
            r.exclude_album_ids@.len() == 0,
            r.group_items_into_collections is None,
            r.is_locked is None,
            r.is_place_holder is None,
            r.has_official_rating_2 is None,
            r.is_in_box_set is None,
    {
        ItemsQuery {
            parent_id: None,
            include_item_types: Vec::new(),
            exclude_item_types: Vec::new(),
            recursive: false,
            sort_by: Vec::new(),
            sort_order: SortOrder::Ascending,
            limit: None,
            start_index: None,
            search_term: None,
            user_id: None,
            fields: Vec::new(),
            enable_images: None,
            image_type_limit: None,
            enable_user_data: None,
            enable_total_record_count: None,
            genres: Vec::new(),
            years: Vec::new(),
            is_played: None,
            is_favorite: None,
            enable_image_types: Vec::new(),
            filters: Vec::new(),
            official_ratings: Vec::new(),
            tags: Vec::new(),
            studios: Vec::new(),
            artists: Vec::new(),
            albums: Vec::new(),
            person_ids: Vec::new(),
            person_types: Vec::new(),
            has_trailer: None,
            has_theme_song: None,
            has_theme_video: None,
            has_subtitles: None,
            has_special_features: None,
            has_lyrics: None,
            has_overview: None,
            has_imdb_id: None,
            has_tmdb_id: None,
            has_tvdb_id: None,
            is_hd: None,
            is_4k: None,
            location_types: Vec::new(),
            exclude_location_types: Vec::new(),
            media_types: Vec::new(),
            video_types: Vec::new(),
            video_3d_formats: Vec::new(),
            series_statuses: Vec::new(),
            name_starts_with_or_greater: None,
            name_starts_with: None,
            name_less_than: None,
            adjacent_to: None,
            min_official_rating: None,
            max_official_rating: None,
            min_sort_name: None,
            min_date_created: None,
            max_date_created: None,
            min_premiere_date: None,
            max_premiere_date: None,
            min_index_number: None,
            min_player_count: None,
            max_player_count: None,
            parent_index_number: None,
            has_parental_rating: None,
            is_airing: None,
            max_air_date: None,
            min_air_date: None,
            series_timer_id: None,
            has_aired: None,
            has_official_rating: None,
            collapse_box_set_items: None,
            min_width: None,
            min_height: None,
            max_width: None,
            max_height: None,
            is_3d: None,
            series_ids: Vec::new(),
            box_set_ids: Vec::new(),
            artist_ids: Vec::new(),
            album_artist_ids: Vec::new(),
            contributing_artist_ids: Vec::new(),
            album_ids: Vec::new(),
            ids: Vec::new(),
            exclude_ids: Vec::new(),
            exclude_artist_ids: Vec::new(),
            exclude_series_ids: Vec::new(),
            exclude_album_ids: Vec::new(),
            group_items_into_collections: None,
            is_locked: None,
            is_place_holder: None,
            has_official_rating_2: None,
            is_in_box_set: None,
        }
    }

    /// Set parent ID
    pub fn parent_id(self, value: String) -> (r: Self)
        ensures
            r == (Self { parent_id: Some(value), ..self }),
    {
        let mut r = self;
        r.parent_id = Some(value);
        r
    }

    /// Add include item type
    pub fn include_item_type(self, value: String) -> (r: Self)
        ensures
            r.include_item_types@ == self.include_item_types@.push(value),
            r == (Self { include_item_types: r.include_item_types, ..self }),
    {
        let mut r = self;
        r.include_item_types.push(value);
        r
    }

    /// Set include item types
    pub fn include_item_types(self, value: Vec<String>) -> (r: Self)
        ensures
            r == (Self { include_item_types: value, ..self }),
    {
        let mut r = self;
        r.include_item_types = value;
        r
    }

    /// Add exclude item type
    pub fn exclude_item_type(self, value: String) -> (r: Self)
        ensures
            r.exclude_item_types@ == self.exclude_item_types@.push(value),
            r == (Self { exclude_item_types: r.exclude_item_types, ..self }),
    {
        let mut r = self;
        r.exclude_item_types.push(value);
        r
    }

    /// Set recursive search
    pub fn recursive(self, value: bool) -> (r: Self)
        ensures
            r == (Self { recursive: value, ..self }),
    {
        let mut r = self;
        r.recursive = value;
        r
    }

    /// Add sort by field
    pub fn sort_by(self, value: String) -> (r: Self)
        ensures
            r.sort_by@ == self.sort_by@.push(value),
            r == (Self { sort_by: r.sort_by, ..self }),
    {
        let mut r = self;
        r.sort_by.push(value);
        r
    }

    /// Set sort order
    pub fn sort_order(self, value: SortOrder) -> (r: Self)
        ensures
            r == (Self { sort_order: value, ..self }),
    {
        let mut r = self;
        r.sort_order = value;
        r
    }

    /// Set limit
    pub fn limit(self, value: u32) -> (r: Self)
        ensures
            r == (Self { limit: Some(value), ..self }),
    {
        let mut r = self;
        r.limit = Some(value);
        r
    }

    /// Set start index
    pub fn start_index(self, value: u32) -> (r: Self)
        ensures
            r == (Self { start_index: Some(value), ..self }),
    {
        let mut r = self;
        r.start_index = Some(value);
        r
    }

    /// Set search term
    pub fn search_term(self, value: String) -> (r: Self)
        ensures
            r == (Self { search_term: Some(value), ..self }),
    {
        let mut r = self;
        r.search_term = Some(value);
        r
    }

    /// Set user ID
    pub fn user_id(self, value: String) -> (r: Self)
        ensures
            r == (Self { user_id: Some(value), ..self }),
    {
        let mut r = self;
        r.user_id = Some(value);
        r
    }

    /// Add field to include
    pub fn field(self, value: String) -> (r: Self)
        ensures
            r.fields@ == self.fields@.push(value),
            r == (Self { fields: r.fields, ..self }),
    {
        let mut r = self;
        r.fields.push(value);
        r
    }

    /// Set fields to include
    pub fn fields(self, value: Vec<String>) -> (r: Self)
        ensures
            r == (Self { fields: value, ..self }),
    {
        let mut r = self;
        r.fields = value;
        r
    }

    /// Enable images
    pub fn enable_images(self, value: bool) -> (r: Self)
        ensures
            r == (Self { enable_images: Some(value), ..self }),
    {
        let mut r = self;
        r.enable_images = Some(value);
        r
    }

    /// Set image type limit
    pub fn image_type_limit(self, value: u32) -> (r: Self)
        ensures
            r == (Self { image_type_limit: Some(value), ..self }),
    {
        let mut r = self;
        r.image_type_limit = Some(value);
        r
    }

    /// Enable user data
    pub fn enable_user_data(self, value: bool) -> (r: Self)
        ensures
            r == (Self { enable_user_data: Some(value), ..self }),
    {
        let mut r = self;
        r.enable_user_data = Some(value);
        r
    }

    /// Enable total record count
    pub fn enable_total_record_count(self, value: bool) -> (r: Self)
        ensures
            r == (Self { enable_total_record_count: Some(value), ..self }),
    {
        let mut r = self;
        r.enable_total_record_count = Some(value);
        r
    }

    /// Add genre filter
    pub fn genre(self, value: String) -> (r: Self)
        ensures
            r.genres@ == self.genres@.push(value),
            r == (Self { genres: r.genres, ..self }),
    {
        let mut r = self;
        r.genres.push(value);
        r
    }

    /// Set genres filter
    pub fn genres(self, value: Vec<String>) -> (r: Self)
        ensures
            r == (Self { genres: value, ..self }),
    {
        let mut r = self;
        r.genres = value;
        r
    }

    /// Add year filter
    pub fn year(self, value: u32) -> (r: Self)
        ensures
            r.years@ == self.years@.push(value),
            r == (Self { years: r.years, ..self }),
    {
        let mut r = self;
        r.years.push(value);
        r
    }

    /// Set years filter
    pub fn years(self, value: Vec<u32>) -> (r: Self)
        ensures
            r == (Self { years: value, ..self }),
    {
        let mut r = self;
        r.years = value;
        r
    }

    /// Set is played filter
    pub fn is_played(self, value: bool) -> (r: Self)
        ensures
            r == (Self { is_played: Some(value), ..self }),
    {
        let mut r = self;
        r.is_played = Some(value);
        r
    }

    /// Set is favorite filter
    pub fn is_favorite(self, value: bool) -> (r: Self)
        ensures
            r == (Self { is_favorite: Some(value), ..self }),
    {
        let mut r = self;
        r.is_favorite = Some(value);
        r
    }

    /// The query parameters of this query, in the order they are sent.
    pub open spec fn query(&self) -> Seq<(Seq<char>, Seq<char>)> {
        opt_entry("ParentId"@, opt_text(self.parent_id))
            + list_entry("IncludeItemTypes"@, texts(self.include_item_types@))
            + list_entry("ExcludeItemTypes"@, texts(self.exclude_item_types@))
            + (if self.recursive { seq![("Recursive"@, bool_text(true))] } else { Seq::empty() })
            + list_entry("SortBy"@, texts(self.sort_by@))
            + seq![("SortOrder"@, self.sort_order.text())]
            + opt_entry("Limit"@, opt_u32_text(self.limit))
            + opt_entry("StartIndex"@, opt_u32_text(self.start_index))
            + opt_entry("SearchTerm"@, opt_text(self.search_term))
            + opt_entry("UserId"@, opt_text(self.user_id))
            + list_entry("Fields"@, texts(self.fields@))
            + opt_entry("EnableImages"@, opt_bool_text(self.enable_images))
            + opt_entry("ImageTypeLimit"@, opt_u32_text(self.image_type_limit))
            + opt_entry("EnableUserData"@, opt_bool_text(self.enable_user_data))
            + opt_entry("EnableTotalRecordCount"@, opt_bool_text(self.enable_total_record_count))
            + list_entry("Genres"@, texts(self.genres@))
            + list_entry("Years"@, u32_texts(self.years@))
            + opt_entry("IsPlayed"@, opt_bool_text(self.is_played))
            + opt_entry("IsFavorite"@, opt_bool_text(self.is_favorite))
    }

    /// The query parameters of this query: each filter that is set, in a fixed order.
    pub fn to_query_params(&self) -> (params: Vec<(String, String)>)
        ensures
            params_view(params@) == self.query(),
    {
        let mut params: Vec<(String, String)> = Vec::new();
        let ghost start = params_view(params@);
        add_text(&mut params, "ParentId", &self.parent_id);
        proof { assert(start =~= Seq::<(Seq<char>, Seq<char>)>::empty()); assert(params_view(params@) =~= opt_entry("ParentId"@, opt_text(self.parent_id))); }
        add_list(&mut params, "IncludeItemTypes", &self.include_item_types);
        add_list(&mut params, "ExcludeItemTypes", &self.exclude_item_types);
        add_flag(&mut params, "Recursive", self.recursive);
        add_list(&mut params, "SortBy", &self.sort_by);
        add_entry(&mut params, "SortOrder", self.sort_order.to_string());
        add_u32(&mut params, "Limit", self.limit);
        add_u32(&mut params, "StartIndex", self.start_index);
        add_text(&mut params, "SearchTerm", &self.search_term);
        add_text(&mut params, "UserId", &self.user_id);
        add_list(&mut params, "Fields", &self.fields);
        add_bool(&mut params, "EnableImages", self.enable_images);
        add_u32(&mut params, "ImageTypeLimit", self.image_type_limit);
        add_bool(&mut params, "EnableUserData", self.enable_user_data);
        add_bool(&mut params, "EnableTotalRecordCount", self.enable_total_record_count);
        add_list(&mut params, "Genres", &self.genres);
        add_u32_list(&mut params, "Years", &self.years);
        add_bool(&mut params, "IsPlayed", self.is_played);
        add_bool(&mut params, "IsFavorite", self.is_favorite);
        params
    }

}

/// Stream parameters for media streaming.
///
/// Holds the options that the builder methods set and that are sent with a request;
/// `stream_options` keeps one value per key, in the order the keys were first given.
/// (`max_frame_rate` and `framerate`, which hold floating point, are left out of this
/// type.)
#[derive(Debug, Clone)]
pub struct StreamParams {
    /// Maximum streaming bitrate
    pub max_streaming_bitrate: Option<u32>,
    /// Container format
    pub container: Option<String>,
    /// Audio codec
    pub audio_codec: Option<String>,
    /// Video codec
    pub video_codec: Option<String>,
    /// Audio bitrate
    pub audio_bitrate: Option<u32>,
    /// Video bitrate
    pub video_bitrate: Option<u32>,
    /// Max audio channels
    pub max_audio_channels: Option<u32>,
    /// Max width
    pub max_width: Option<u32>,
    /// Max height
    pub max_height: Option<u32>,
    /// Start time in ticks
    pub start_time_ticks: Option<i64>,
    /// Device ID
    pub device_id: Option<String>,
    /// Media source ID
    pub media_source_id: Option<String>,
    /// Play session ID
    pub play_session_id: Option<String>,
    /// Audio stream index
    pub audio_stream_index: Option<i32>,
    /// Video stream index
    pub video_stream_index: Option<i32>,
    /// Subtitle stream index
    pub subtitle_stream_index: Option<i32>,
    /// Whether to enable direct play
    pub enable_direct_play: Option<bool>,
    /// Whether to enable direct stream
    pub enable_direct_stream: Option<bool>,
    /// Whether to enable transcoding
    pub enable_transcoding: Option<bool>,
    /// Stream options
    pub stream_options: Vec<(String, String)>,
    pub live_stream_id: Option<String>,
    pub allow_video_stream_copy: Option<bool>,
    pub allow_audio_stream_copy: Option<bool>,
    pub break_on_non_key_frames: Option<bool>,
    pub audio_sample_rate: Option<u32>,
    pub max_audio_bit_depth: Option<u32>,
    pub max_streaming_bitrate_2: Option<u32>,
    pub profile: Option<String>,
    pub level: Option<String>,
    pub max_ref_frames: Option<i32>,
    pub max_video_bit_depth: Option<u32>,
    pub require_avc: Option<bool>,
    pub de_interlace: Option<bool>,
    pub require_non_anamorphic: Option<bool>,
    pub transcoding_max_audio_channels: Option<u32>,
    pub cpu_core_limit: Option<u32>,
    pub live_stream_id_2: Option<String>,
    pub enable_mpegts_m2ts_mode: Option<bool>,
    pub video_codec_2: Option<String>,
    pub subtitle_codec: Option<String>,
    pub transcoding_reasons: Option<String>,
    pub audio_stream_index_2: Option<i32>,
    pub video_stream_index_2: Option<i32>,
    pub context: Option<String>,
}

impl StreamParams {
    /// Parameters with no option set.
    pub fn new() -> (r: StreamParams)
        ensures
            r.max_streaming_bitrate is None, r.container is None, r.audio_codec is None, r.video_codec is None, r.audio_bitrate is None, r.video_bitrate is None, r.max_audio_channels is None, r.max_width is None, r.max_height is None, r.start_time_ticks is None, r.device_id is None, r.media_source_id is None, r.play_session_id is None, r.audio_stream_index is None, r.video_stream_index is None, r.subtitle_stream_index is None, r.enable_direct_play is None, r.enable_direct_stream is None, r.enable_transcoding is None,
            r.stream_options@.len() == 0,
            r.live_stream_id is None,
            r.allow_video_stream_copy is None,
            r.allow_audio_stream_copy is None,
            r.break_on_non_key_frames is None,
            r.audio_sample_rate is None,
            r.max_audio_bit_depth is None,
            r.max_streaming_bitrate_2 is None,
            r.profile is None,
            r.level is None,
            r.max_ref_frames is None,
            r.max_video_bit_depth is None,
            r.require_avc is None,
            r.de_interlace is None,
            r.require_non_anamorphic is None,
            r.transcoding_max_audio_channels is None,
            r.cpu_core_limit is None,
            r.live_stream_id_2 is None,
            r.enable_mpegts_m2ts_mode is None,
            r.video_codec_2 is None,
            r.subtitle_codec is None,
            r.transcoding_reasons is None,
            r.audio_stream_index_2 is None,
            r.video_stream_index_2 is None,
            r.context is None,
    {
        StreamParams {
            max_streaming_bitrate: None,
            container: None,
            audio_codec: None,
            video_codec: None,
            audio_bitrate: None,
            video_bitrate: None,
            max_audio_channels: None,
            max_width: None,
            max_height: None,
            start_time_ticks: None,
            device_id: None,
            media_source_id: None,
            play_session_id: None,
            audio_stream_index: None,
            video_stream_index: None,
            subtitle_stream_index: None,
            enable_direct_play: None,
            enable_direct_stream: None,
            enable_transcoding: None,
            stream_options: Vec::new(),
            live_stream_id: None,
            allow_video_stream_copy: None,
            allow_audio_stream_copy: None,
            break_on_non_key_frames: None,
            audio_sample_rate: None,
            max_audio_bit_depth: None,
            max_streaming_bitrate_2: None,
            profile: None,
            level: None,
            max_ref_frames: None,
            max_video_bit_depth: None,
            require_avc: None,
            de_interlace: None,
            require_non_anamorphic: None,
            transcoding_max_audio_channels: None,
            cpu_core_limit: None,
            live_stream_id_2: None,
            enable_mpegts_m2ts_mode: None,
            video_codec_2: None,
            subtitle_codec: None,
            transcoding_reasons: None,
            audio_stream_index_2: None,
            video_stream_index_2: None,
            context: None,
        }
    }

    /// Set maximum streaming bitrate
    pub fn max_streaming_bitrate(self, value: u32) -> (r: Self)
        ensures
            r == (Self { max_streaming_bitrate: Some(value), ..self }),
    {
        let mut r = self;
        r.max_streaming_bitrate = Some(value);
        r
    }

    /// Set container format
    pub fn container(self, value: String) -> (r: Self)
        ensures
            r == (Self { container: Some(value), ..self }),
    {
        let mut r = self;
        r.container = Some(value);
        r
    }

    /// Set audio codec
    pub fn audio_codec(self, value: String) -> (r: Self)
        ensures
            r == (Self { audio_codec: Some(value), ..self }),
    {
        let mut r = self;
        r.audio_codec = Some(value);
        r
    }

    /// Set video codec
    pub fn video_codec(self, value: String) -> (r: Self)
        ensures
            r == (Self { video_codec: Some(value), ..self }),
    {
        let mut r = self;
        r.video_codec = Some(value);
        r
    }

    /// Set audio bitrate
    pub fn audio_bitrate(self, value: u32) -> (r: Self)
        ensures
            r == (Self { audio_bitrate: Some(value), ..self }),
    {
        let mut r = self;
        r.audio_bitrate = Some(value);
        r
    }

    /// Set video bitrate
    pub fn video_bitrate(self, value: u32) -> (r: Self)
        ensures
            r == (Self { video_bitrate: Some(value), ..self }),
    {
        let mut r = self;
        r.video_bitrate = Some(value);
        r
    }

    /// Set max audio channels
    pub fn max_audio_channels(self, value: u32) -> (r: Self)
        ensures
            r == (Self { max_audio_channels: Some(value), ..self }),
    {
        let mut r = self;
        r.max_audio_channels = Some(value);
        r
    }

    /// Set max width
    pub fn max_width(self, value: u32) -> (r: Self)
        ensures
            r == (Self { max_width: Some(value), ..self }),
    {
        let mut r = self;
        r.max_width = Some(value);
        r
    }

    /// Set max height
    pub fn max_height(self, value: u32) -> (r: Self)
        ensures
            r == (Self { max_height: Some(value), ..self }),
    {
        let mut r = self;
        r.max_height = Some(value);
        r
    }

    /// Set start time in ticks
    pub fn start_time_ticks(self, value: i64) -> (r: Self)
        ensures
            r == (Self { start_time_ticks: Some(value), ..self }),
    {
        let mut r = self;
        r.start_time_ticks = Some(value);
        r
    }

    /// Set device ID
    pub fn device_id(self, value: String) -> (r: Self)
        ensures
            r == (Self { device_id: Some(value), ..self }),
    {
        let mut r = self;
        r.device_id = Some(value);
        r
    }

    /// Set media source ID
    pub fn media_source_id(self, value: String) -> (r: Self)
        ensures
            r == (Self { media_source_id: Some(value), ..self }),
    {
        let mut r = self;
        r.media_source_id = Some(value);
        r
    }

    /// Set play session ID
    pub fn play_session_id(self, value: String) -> (r: Self)
        ensures
            r == (Self { play_session_id: Some(value), ..self }),
    {
        let mut r = self;
        r.play_session_id = Some(value);
        r
    }

    /// Set audio stream index
    pub fn audio_stream_index(self, value: i32) -> (r: Self)
        ensures
            r == (Self { audio_stream_index: Some(value), ..self }),
    {
        let mut r = self;
        r.audio_stream_index = Some(value);
        r
    }

    /// Set video stream index
    pub fn video_stream_index(self, value: i32) -> (r: Self)
        ensures
            r == (Self { video_stream_index: Some(value), ..self }),
    {
        let mut r = self;
        r.video_stream_index = Some(value);
        r
    }

    /// Set subtitle stream index
    pub fn subtitle_stream_index(self, value: i32) -> (r: Self)
        ensures
            r == (Self { subtitle_stream_index: Some(value), ..self }),
    {
        let mut r = self;
        r.subtitle_stream_index = Some(value);
        r
    }

    /// Enable direct play
    pub fn enable_direct_play(self, value: bool) -> (r: Self)
        ensures
            r == (Self { enable_direct_play: Some(value), ..self }),
    {
        let mut r = self;
        r.enable_direct_play = Some(value);
        r
    }

    /// Enable direct stream
    pub fn enable_direct_stream(self, value: bool) -> (r: Self)
        ensures
            r == (Self { enable_direct_stream: Some(value), ..self }),
    {
        let mut r = self;
        r.enable_direct_stream = Some(value);
        r
    }

    /// Enable transcoding
    pub fn enable_transcoding(self, value: bool) -> (r: Self)
        ensures
            r == (Self { enable_transcoding: Some(value), ..self }),
    {
        let mut r = self;
        r.enable_transcoding = Some(value);
        r
    }

    /// Sets the stream option `key` to `value`, replacing an earlier value of that key.
    pub fn stream_option(self, key: String, value: String) -> (r: StreamParams)
        ensures
            params_view(r.stream_options@) == upsert(params_view(self.stream_options@), key@, value@),
            r == (StreamParams { stream_options: r.stream_options, ..self }),
    {
        let mut r = self;
        set_entry(&mut r.stream_options, key, value);
        r
    }


    /// The query parameters of these options before the free-form stream options.
    pub open spec fn fixed_query(&self) -> Seq<(Seq<char>, Seq<char>)> {
        opt_entry("MaxStreamingBitrate"@, opt_u32_text(self.max_streaming_bitrate))
            + opt_entry("Container"@, opt_text(self.container))
            + opt_entry("AudioCodec"@, opt_text(self.audio_codec))
            + opt_entry("VideoCodec"@, opt_text(self.video_codec))
            + opt_entry("AudioBitrate"@, opt_u32_text(self.audio_bitrate))
            + opt_entry("VideoBitrate"@, opt_u32_text(self.video_bitrate))
            + opt_entry("MaxAudioChannels"@, opt_u32_text(self.max_audio_channels))
            + opt_entry("MaxWidth"@, opt_u32_text(self.max_width))
            + opt_entry("MaxHeight"@, opt_u32_text(self.max_height))
            + opt_entry("StartTimeTicks"@, opt_i64_text(self.start_time_ticks))
            + opt_entry("DeviceId"@, opt_text(self.device_id))
            + opt_entry("MediaSourceId"@, opt_text(self.media_source_id))
            + opt_entry("PlaySessionId"@, opt_text(self.play_session_id))
            + opt_entry("AudioStreamIndex"@, opt_i32_text(self.audio_stream_index))
            + opt_entry("VideoStreamIndex"@, opt_i32_text(self.video_stream_index))
            + opt_entry("SubtitleStreamIndex"@, opt_i32_text(self.subtitle_stream_index))
            + opt_entry("EnableDirectPlay"@, opt_bool_text(self.enable_direct_play))
            + opt_entry("EnableDirectStream"@, opt_bool_text(self.enable_direct_stream))
            + opt_entry("EnableTranscoding"@, opt_bool_text(self.enable_transcoding))
    }

    /// The query parameters of these options: each option that is set, in a fixed order,
    /// then the stream options.
    pub fn to_query_params(&self) -> (params: Vec<(String, String)>)
        ensures
            params_view(params@) == self.fixed_query() + params_view(self.stream_options@),
    {
        let mut params: Vec<(String, String)> = Vec::new();
        let ghost start = params_view(params@);
        add_u32(&mut params, "MaxStreamingBitrate", self.max_streaming_bitrate);
        proof { assert(start =~= Seq::<(Seq<char>, Seq<char>)>::empty()); assert(params_view(params@) =~= opt_entry("MaxStreamingBitrate"@, opt_u32_text(self.max_streaming_bitrate))); }
        add_text(&mut params, "Container", &self.container);
        add_text(&mut params, "AudioCodec", &self.audio_codec);
        add_text(&mut params, "VideoCodec", &self.video_codec);
        add_u32(&mut params, "AudioBitrate", self.audio_bitrate);
        add_u32(&mut params, "VideoBitrate", self.video_bitrate);
        add_u32(&mut params, "MaxAudioChannels", self.max_audio_channels);
        add_u32(&mut params, "MaxWidth", self.max_width);
        add_u32(&mut params, "MaxHeight", self.max_height);
        add_i64(&mut params, "StartTimeTicks", self.start_time_ticks);
        add_text(&mut params, "DeviceId", &self.device_id);
        add_text(&mut params, "MediaSourceId", &self.media_source_id);
        add_text(&mut params, "PlaySessionId", &self.play_session_id);
        add_i32(&mut params, "AudioStreamIndex", self.audio_stream_index);
        add_i32(&mut params, "VideoStreamIndex", self.video_stream_index);
        add_i32(&mut params, "SubtitleStreamIndex", self.subtitle_stream_index);
        add_bool(&mut params, "EnableDirectPlay", self.enable_direct_play);
        add_bool(&mut params, "EnableDirectStream", self.enable_direct_stream);
        add_bool(&mut params, "EnableTranscoding", self.enable_transcoding);
        append_entries(&mut params, &self.stream_options);
        params
    }
}

/// Authentication request parameters.
#[derive(Debug, Clone)]
pub struct AuthRequest {
    /// Username
    pub username: String,
    /// Password
    pub password: String,
}

impl AuthRequest {
    /// Create a new authentication request.
    pub fn new(username: String, password: String) -> (r: AuthRequest)
        ensures
            r == (AuthRequest { username, password }),
    {
        AuthRequest { username, password }
    }
}

/// Search query parameters
#[derive(Debug, Clone)]
pub struct SearchQuery {
    /// Search term
    pub search_term: String,
    /// Include item types
    pub include_item_types: Vec<String>,
    /// Exclude item types
    pub exclude_item_types: Vec<String>,
    /// Media types
    pub media_types: Vec<String>,
    /// Parent ID
    pub parent_id: Option<String>,
    /// Whether to search people
    pub include_people: bool,
    /// Whether to search media
    pub include_media: bool,
    /// Whether to search genres
    pub include_genres: bool,
    /// Whether to search studios
    pub include_studios: bool,
    /// Whether to search artists
    pub include_artists: bool,
    /// Limit
    pub limit: Option<u32>,
    /// User ID
    pub user_id: Option<String>,
}

impl SearchQuery {
    /// A search for `search_term` over people, media, genres, studios and artists, with no
    /// other filter.
    pub fn new(search_term: String) -> (r: SearchQuery)
        ensures
            r.search_term == search_term,
            r.include_item_types@.len() == 0, r.exclude_item_types@.len() == 0, r.media_types@.len() == 0,
            r.parent_id is None,
            r.include_people, r.include_media, r.include_genres, r.include_studios, r.include_artists,
            r.limit is None, r.user_id is None,
    {
        SearchQuery {
            search_term,
            include_item_types: Vec::new(),
            exclude_item_types: Vec::new(),
            media_types: Vec::new(),
            parent_id: None,
            include_people: true,
            include_media: true,
            include_genres: true,
            include_studios: true,
            include_artists: true,
            limit: None,
            user_id: None,
        }
    }

    /// Set search term
    pub fn search_term(self, value: String) -> (r: Self)
        ensures
            r == (Self { search_term: value, ..self }),
    {
        let mut r = self;
        r.search_term = value;
        r
    }

    /// Add include item type
    pub fn include_item_type(self, value: String) -> (r: Self)
        ensures
            r.include_item_types@ == self.include_item_types@.push(value),
            r == (Self { include_item_types: r.include_item_types, ..self }),
    {
        let mut r = self;
        r.include_item_types.push(value);
        r
    }

    /// Set include item types
    pub fn include_item_types(self, value: Vec<String>) -> (r: Self)
        ensures
            r == (Self { include_item_types: value, ..self }),
    {
        let mut r = self;
        r.include_item_types = value;
        r
    }

    /// Set parent ID
    pub fn parent_id(self, value: String) -> (r: Self)
        ensures
            r == (Self { parent_id: Some(value), ..self }),
    {
        let mut r = self;
        r.parent_id = Some(value);
        r
    }

    /// Set whether to include people in search
    pub fn include_people(self, value: bool) -> (r: Self)
        ensures
            r == (Self { include_people: value, ..self }),
    {
        let mut r = self;
        r.include_people = value;
        r
    }

    /// Set whether to include media in search
    pub fn include_media(self, value: bool) -> (r: Self)
        ensures
            r == (Self { include_media: value, ..self }),
    {
        let mut r = self;
        r.include_media = value;
        r
    }

    /// Set limit
    pub fn limit(self, value: u32) -> (r: Self)
        ensures
            r == (Self { limit: Some(value), ..self }),
    {
        let mut r = self;
        r.limit = Some(value);
        r
    }

    /// Set user ID
    pub fn user_id(self, value: String) -> (r: Self)
        ensures
            r == (Self { user_id: Some(value), ..self }),
    {
        let mut r = self;
        r.user_id = Some(value);
        r
    }

    /// The query parameters of this search, in the order they are sent.
    pub open spec fn query(&self) -> Seq<(Seq<char>, Seq<char>)> {
        seq![("SearchTerm"@, self.search_term@)]
            + list_entry("IncludeItemTypes"@, texts(self.include_item_types@))
            + list_entry("ExcludeItemTypes"@, texts(self.exclude_item_types@))
            + opt_entry("ParentId"@, opt_text(self.parent_id))
            + seq![("IncludePeople"@, bool_text(self.include_people))]
            + seq![("IncludeMedia"@, bool_text(self.include_media))]
            + seq![("IncludeGenres"@, bool_text(self.include_genres))]
            + seq![("IncludeStudios"@, bool_text(self.include_studios))]
            + seq![("IncludeArtists"@, bool_text(self.include_artists))]
            + opt_entry("Limit"@, opt_u32_text(self.limit))
            + opt_entry("UserId"@, opt_text(self.user_id))
    }

    /// The query parameters of this search: the term, the filters that are set and the five inclusion flags.
    pub fn to_query_params(&self) -> (params: Vec<(String, String)>)
        ensures
            params_view(params@) == self.query(),
    {
        let mut params: Vec<(String, String)> = Vec::new();
        let ghost start = params_view(params@);
        add_entry(&mut params, "SearchTerm", self.search_term.clone());
        proof { assert(start =~= Seq::<(Seq<char>, Seq<char>)>::empty()); assert(params_view(params@) =~= seq![("SearchTerm"@, self.search_term@)]); }
        add_list(&mut params, "IncludeItemTypes", &self.include_item_types);
        add_list(&mut params, "ExcludeItemTypes", &self.exclude_item_types);
        add_text(&mut params, "ParentId", &self.parent_id);
        add_entry(&mut params, "IncludePeople", bool_string(self.include_people));
        add_entry(&mut params, "IncludeMedia", bool_string(self.include_media));
        add_entry(&mut params, "IncludeGenres", bool_string(self.include_genres));
        add_entry(&mut params, "IncludeStudios", bool_string(self.include_studios));
        add_entry(&mut params, "IncludeArtists", bool_string(self.include_artists));
        add_u32(&mut params, "Limit", self.limit);
        add_text(&mut params, "UserId", &self.user_id);
        params
    }

}

impl Default for ItemsQuery {
    /// Every option unset: empty lists and texts, no optional values, flags off.
    fn default() -> (r: ItemsQuery)
        ensures
            r.parent_id is None,
            r.include_item_types@.len() == 0,
            r.exclude_item_types@.len() == 0,
            !r.recursive,
            r.sort_by@.len() == 0,
            r.sort_order == SortOrder::Ascending,
            r.limit is None,
            r.start_index is None,
            r.search_term is None,
            r.user_id is None,
            r.fields@.len() == 0,
            r.enable_images is None,
            r.image_type_limit is None,
            r.enable_user_data is None,
            r.enable_total_record_count is None,
            r.genres@.len() == 0,
            r.years@.len() == 0,
            r.is_played is None,
            r.is_favorite is None,
            r.enable_image_types@.len() == 0,
            r.filters@.len() == 0,
            r.official_ratings@.len() == 0,
            r.tags@.len() == 0,
            r.studios@.len() == 0,
            r.artists@.len() == 0,
            r.albums@.len() == 0,
            r.person_ids@.len() == 0,
            r.person_types@.len() == 0,
            r.has_trailer is None,
            r.has_theme_song is None,
            r.has_theme_video is None,
            r.has_subtitles is None,
            r.has_special_features is None,
            r.has_lyrics is None,
            r.has_overview is None,
            r.has_imdb_id is None,
            r.has_tmdb_id is None,
            r.has_tvdb_id is None,
            r.is_hd is None,
            r.is_4k is None,
            r.location_types@.len() == 0,
            r.exclude_location_types@.len() == 0,
            r.media_types@.len() == 0,
            r.video_types@.len() == 0,
            r.video_3d_formats@.len() == 0,
            r.series_statuses@.len() == 0,
            r.name_starts_with_or_greater is None,
            r.name_starts_with is None,
            r.name_less_than is None,
            r.adjacent_to is None,
            r.min_official_rating is None,
            r.max_official_rating is None,
            r.min_sort_name is None,
            r.min_date_created is None,
            r.max_date_created is None,
            r.min_premiere_date is None,
            r.max_premiere_date is None,
            r.min_index_number is None,
            r.min_player_count is None,
            r.max_player_count is None,
            r.parent_index_number is None,
            r.has_parental_rating is None,
            r.is_airing is None,
            r.max_air_date is None,
            r.min_air_date is None,
            r.series_timer_id is None,
            r.has_aired is None,
            r.has_official_rating is None,
            r.collapse_box_set_items is None,
            r.min_width is None,
            r.min_height is None,
            r.max_width is None,
            r.max_height is None,
            r.is_3d is None,
            r.series_ids@.len() == 0,
            r.box_set_ids@.len() == 0,
            r.artist_ids@.len() == 0,
            r.album_artist_ids@.len() == 0,
            r.contributing_artist_ids@.len() == 0,
            r.album_ids@.len() == 0,
            r.ids@.len() == 0,
            r.exclude_ids@.len() == 0,
            r.exclude_artist_ids@.len() == 0,
            r.exclude_series_ids@.len() == 0,
            r.exclude_album_ids@.len() == 0,
            r.group_items_into_collections is None,
            r.is_locked is None,
            r.is_place_holder is None,
            r.has_official_rating_2 is None,
            r.is_in_box_set is None,
    {
        ItemsQuery {
            parent_id: None,
            include_item_types: Vec::new(),
            exclude_item_types: Vec::new(),
            recursive: false,
            sort_by: Vec::new(),
            sort_order: SortOrder::Ascending,
            limit: None,
            start_index: None,
            search_term: None,
            user_id: None,
            fields: Vec::new(),
            enable_images: None,
            image_type_limit: None,
            enable_user_data: None,
            enable_total_record_count: None,
            genres: Vec::new(),
            years: Vec::new(),
            is_played: None,
            is_favorite: None,
            enable_image_types: Vec::new(),
            filters: Vec::new(),
            official_ratings: Vec::new(),
            tags: Vec::new(),
            studios: Vec::new(),
            artists: Vec::new(),
            albums: Vec::new(),
            person_ids: Vec::new(),
            person_types: Vec::new(),
            has_trailer: None,
            has_theme_song: None,
            has_theme_video: None,
            has_subtitles: None,
            has_special_features: None,
            has_lyrics: None,
            has_overview: None,
            has_imdb_id: None,
            has_tmdb_id: None,
            has_tvdb_id: None,
            is_hd: None,
            is_4k: None,
            location_types: Vec::new(),
            exclude_location_types: Vec::new(),
            media_types: Vec::new(),
            video_types: Vec::new(),
            video_3d_formats: Vec::new(),
            series_statuses: Vec::new(),
            name_starts_with_or_greater: None,
            name_starts_with: None,
            name_less_than: None,
            adjacent_to: None,
            min_official_rating: None,
            max_official_rating: None,
            min_sort_name: None,
            min_date_created: None,
            max_date_created: None,
            min_premiere_date: None,
            max_premiere_date: None,
            min_index_number: None,
            min_player_count: None,
            max_player_count: None,
            parent_index_number: None,
            has_parental_rating: None,
            is_airing: None,
            max_air_date: None,
            min_air_date: None,
            series_timer_id: None,
            has_aired: None,
            has_official_rating: None,
            collapse_box_set_items: None,
            min_width: None,
            min_height: None,
            max_width: None,
            max_height: None,
            is_3d: None,
            series_ids: Vec::new(),
            box_set_ids: Vec::new(),
            artist_ids: Vec::new(),
            album_artist_ids: Vec::new(),
            contributing_artist_ids: Vec::new(),
            album_ids: Vec::new(),
            ids: Vec::new(),
            exclude_ids: Vec::new(),
            exclude_artist_ids: Vec::new(),
            exclude_series_ids: Vec::new(),
            exclude_album_ids: Vec::new(),
            group_items_into_collections: None,
            is_locked: None,
            is_place_holder: None,
            has_official_rating_2: None,
            is_in_box_set: None,
        }
    }
}

impl Default for StreamParams {
    /// Every option unset: empty lists and texts, no optional values, flags off.
    fn default() -> (r: StreamParams)
        ensures
            r.max_streaming_bitrate is None,
            r.container is None,
            r.audio_codec is None,
            r.video_codec is None,
            r.audio_bitrate is None,
            r.video_bitrate is None,
            r.max_audio_channels is None,
            r.max_width is None,
            r.max_height is None,
            r.start_time_ticks is None,
            r.device_id is None,
            r.media_source_id is None,
            r.play_session_id is None,
            r.audio_stream_index is None,
            r.video_stream_index is None,
            r.subtitle_stream_index is None,
            r.enable_direct_play is None,
            r.enable_direct_stream is None,
            r.enable_transcoding is None,
            r.stream_options@.len() == 0,
            r.live_stream_id is None,
            r.allow_video_stream_copy is None,
            r.allow_audio_stream_copy is None,
            r.break_on_non_key_frames is None,
            r.audio_sample_rate is None,
            r.max_audio_bit_depth is None,
            r.max_streaming_bitrate_2 is None,
            r.profile is None,
            r.level is None,
            r.max_ref_frames is None,
            r.max_video_bit_depth is None,
            r.require_avc is None,
            r.de_interlace is None,
            r.require_non_anamorphic is None,
            r.transcoding_max_audio_channels is None,
            r.cpu_core_limit is None,
            r.live_stream_id_2 is None,
            r.enable_mpegts_m2ts_mode is None,
            r.video_codec_2 is None,
            r.subtitle_codec is None,
            r.transcoding_reasons is None,
            r.audio_stream_index_2 is None,
            r.video_stream_index_2 is None,
            r.context is None,
    {
        StreamParams {
            max_streaming_bitrate: None,
            container: None,
            audio_codec: None,
            video_codec: None,
            audio_bitrate: None,
            video_bitrate: None,
            max_audio_channels: None,
            max_width: None,
            max_height: None,
            start_time_ticks: None,
            device_id: None,
            media_source_id: None,
            play_session_id: None,
            audio_stream_index: None,
            video_stream_index: None,
            subtitle_stream_index: None,
            enable_direct_play: None,
            enable_direct_stream: None,
            enable_transcoding: None,
            stream_options: Vec::new(),
            live_stream_id: None,
            allow_video_stream_copy: None,
            allow_audio_stream_copy: None,
            break_on_non_key_frames: None,
            audio_sample_rate: None,
            max_audio_bit_depth: None,
            max_streaming_bitrate_2: None,
            profile: None,
            level: None,
            max_ref_frames: None,
            max_video_bit_depth: None,
            require_avc: None,
            de_interlace: None,
            require_non_anamorphic: None,
            transcoding_max_audio_channels: None,
            cpu_core_limit: None,
            live_stream_id_2: None,
            enable_mpegts_m2ts_mode: None,
            video_codec_2: None,
            subtitle_codec: None,
            transcoding_reasons: None,
            audio_stream_index_2: None,
            video_stream_index_2: None,
            context: None,
        }
    }
}

impl Default for SearchQuery {
    /// Every option unset: empty lists and texts, no optional values, flags off.
    fn default() -> (r: SearchQuery)
        ensures
            r.search_term@.len() == 0,
            r.include_item_types@.len() == 0,
            r.exclude_item_types@.len() == 0,
            r.media_types@.len() == 0,
            r.parent_id is None,
            !r.include_people,
            !r.include_media,
            !r.include_genres,
            !r.include_studios,
            !r.include_artists,
            r.limit is None,
            r.user_id is None,
    {
        SearchQuery {
            search_term: String::new(),
            include_item_types: Vec::new(),
            exclude_item_types: Vec::new(),
            media_types: Vec::new(),
            parent_id: None,
            include_people: false,
            include_media: false,
            include_genres: false,
            include_studios: false,
            include_artists: false,
            limit: None,
            user_id: None,
        }
    }
}

/// Authentication response from login endpoint
#[derive(Debug, Clone)]
pub struct AuthResponse {
    /// Access token for API requests
    pub access_token: String,
    /// Server ID
    pub server_id: String,
    /// User information
    pub user: UserInfo,
    /// Session information
    pub session_info: SessionInfo,
}

/// User information from API
#[derive(Debug, Clone)]
pub struct UserInfo {
    /// User unique identifier
    pub id: String,
    /// Username
    pub name: String,
    /// Server ID
    pub server_id: Option<String>,
    /// Primary image tag
    pub primary_image_tag: Option<String>,
    /// Whether user has password
    pub has_password: bool,
    /// Whether user has configured password
    pub has_configured_password: bool,
    /// Whether user has configured easy password
    pub has_configured_easy_password: bool,
    /// Whether user can manage emby
    pub enable_auto_login: Option<bool>,
    /// Last login date
    pub last_login_date: Option<String>,
    /// Last activity date
    pub last_activity_date: Option<String>,
    /// User configuration
    pub configuration: Option<UserConfiguration>,
    /// User policy
    pub policy: Option<UserPolicy>,
}

/// User policy information
#[derive(Debug, Clone)]
pub struct UserPolicy {
    /// Whether user is administrator
    pub is_administrator: bool,
    /// Whether user is hidden
    pub is_hidden: bool,
    /// Whether user is disabled
    pub is_disabled: bool,
    /// Max parental rating
    pub max_parental_rating: Option<i32>,
    /// Blocked tags
    pub blocked_tags: Vec<String>,
    /// Enable user preference access
    pub enable_user_preference_access: bool,
    /// Access schedules
    pub access_schedules: Vec<AccessSchedule>,
    /// Block unrated items
    pub block_unrated_items: Vec<String>,
    /// Enable remote control of other users
    pub enable_remote_control_of_other_users: bool,
    /// Enable shared device control
    pub enable_shared_device_control: bool,
    /// Enable remote access
    pub enable_remote_access: bool,
    /// Enable live tv management
    pub enable_live_tv_management: bool,
    /// Enable live tv access
    pub enable_live_tv_access: bool,
    /// Enable media playback
    pub enable_media_playback: bool,
    /// Enable audio playback transcoding
    pub enable_audio_playback_transcoding: bool,
    /// Enable video playback transcoding
    pub enable_video_playback_transcoding: bool,
    /// Enable playback remuxing
    pub enable_playback_remuxing: bool,
    /// Force remote source transcoding
    pub force_remote_source_transcoding: bool,
    /// Enable content deletion
    pub enable_content_deletion: bool,
    /// Enable content deletion from folders
    pub enable_content_deletion_from_folders: Vec<String>,
    /// Enable content downloading
    pub enable_content_downloading: bool,
    /// Enable sync transcoding
    pub enable_sync_transcoding: bool,
    /// Enable media conversion
    pub enable_media_conversion: bool,
    /// Enabled devices
    pub enabled_devices: Vec<String>,
    /// Enable all devices
    pub enable_all_devices: bool,
    /// Enabled channels
    pub enabled_channels: Vec<String>,
    /// Enable all channels
    pub enable_all_channels: bool,
    /// Enabled folders
    pub enabled_folders: Vec<String>,
    /// Enable all folders
    pub enable_all_folders: bool,
    /// Invalid login attempt count
    pub invalid_login_attempt_count: i32,
    /// Login attempts before lockout
    pub login_attempts_before_lockout: i32,
    /// Max active sessions
    pub max_active_sessions: i32,
    /// Enable public sharing
    pub enable_public_sharing: bool,
    /// Blocked media folders
    pub blocked_media_folders: Vec<String>,
    /// Blocked channels
    pub blocked_channels: Vec<String>,
    /// Remote client bitrate limit
    pub remote_client_bitrate_limit: i32,
    /// Authentication provider id
    pub authentication_provider_id: Option<String>,
    /// Password reset provider id
    pub password_reset_provider_id: Option<String>,
    /// Sync play access
    pub sync_play_access: Option<String>,
}

/// Access schedule for user policy
/// (`start_hour`, `end_hour`, which hold floating point, are left out of this type.)
#[derive(Debug, Clone)]
pub struct AccessSchedule {
    /// User ID
    pub user_id: Option<String>,
    /// Day of week
    pub day_of_week: Option<String>,
}

/// Session information
#[derive(Debug, Clone)]
pub struct SessionInfo {
    /// Session ID
    pub id: String,
    /// User ID
    pub user_id: String,
    /// Username
    pub user_name: String,
    /// Client name
    pub client: String,
    /// Last activity date
    pub last_activity_date: String,
    /// Last playback check in
    pub last_playback_check_in: String,
    /// Device name
    pub device_name: String,
    /// Device type
    pub device_type: Option<String>,
    /// Device ID
    pub device_id: String,
    /// Application version
    pub application_version: String,
    /// Whether session is active
    pub is_active: bool,
    /// Whether supports media control
    pub supports_media_control: bool,
    /// Whether supports remote control
    pub supports_remote_control: bool,
    /// Now playing item
    pub now_playing_item: Option<BaseItem>,
    /// Now playing queue
    pub now_playing_queue: Option<Vec<QueueItem>>,
    /// Has custom device name
    pub has_custom_device_name: bool,
    /// Playlist item ID
    pub playlist_item_id: Option<String>,
    /// Server ID
    pub server_id: Option<String>,
    /// User primary image tag
    pub user_primary_image_tag: Option<String>,
    /// Supported commands
    pub supported_commands: Vec<String>,
}

/// Base item structure for media items
/// (`community_rating`, `primary_image_aspect_ratio`, `critic_rating`, `exposure_time`, `focal_length`, `aperture`, `shutter_speed`, `latitude`, `longitude`, `altitude`, `completion_percentage`, which hold floating point, are left out of this type.)
#[derive(Debug)]
pub struct BaseItem {
    /// Item unique identifier
    pub id: String,
    /// Item name
    pub name: String,
    /// Original title
    pub original_title: Option<String>,
    /// Server ID
    pub server_id: Option<String>,
    /// Item type (Movie, Series, Episode, etc.)
    pub item_type: String,
    /// Channel ID
    pub channel_id: Option<String>,
    /// Channel name
    pub channel_name: Option<String>,
    /// Overview/description
    pub overview: Option<String>,
    /// Taglines
    pub taglines: Vec<String>,
    /// Genres
    pub genres: Vec<String>,
    /// Cumulative run time ticks
    pub cumulative_run_time_ticks: Option<i64>,
    /// Runtime ticks
    pub runtime_ticks: Option<i64>,
    /// Play access
    pub play_access: Option<String>,
    /// Aspect ratio
    pub aspect_ratio: Option<String>,
    /// Production year
    pub production_year: Option<i32>,
    /// Is place holder
    pub is_place_holder: Option<bool>,
    /// Number
    pub number: Option<String>,
    /// Channel number
    pub channel_number: Option<String>,
    /// Index number
    pub index_number: Option<i32>,
    /// Index number end
    pub index_number_end: Option<i32>,
    /// Parent index number
    pub parent_index_number: Option<i32>,
    /// Remote trailers
    pub remote_trailers: Vec<MediaUrl>,
    /// Provider IDs
    pub provider_ids: HashMap<String, String>,
    /// Is HD
    pub is_hd: Option<bool>,
    /// Is folder
    pub is_folder: Option<bool>,
    /// Parent ID
    pub parent_id: Option<String>,
    /// Parent type
    pub parent_type: Option<String>,
    /// Parent backdrop image tags
    pub parent_backdrop_image_tags: Vec<String>,
    /// Parent primary image item ID
    pub parent_primary_image_item_id: Option<String>,
    /// Parent primary image tag
    pub parent_primary_image_tag: Option<String>,
    /// People
    pub people: Vec<BaseItemPerson>,
    /// Studios
    pub studios: Vec<NameGuidPair>,
    /// Genre items
    pub genre_items: Vec<NameGuidPair>,
    /// Parent logo image tag
    pub parent_logo_image_tag: Option<String>,
    /// Parent art item ID
    pub parent_art_item_id: Option<String>,
    /// Parent art image tag
    pub parent_art_image_tag: Option<String>,
    /// Series name
    pub series_name: Option<String>,
    /// Series ID
    pub series_id: Option<String>,
    /// Season ID
    pub season_id: Option<String>,
    /// Special feature count
    pub special_feature_count: Option<i32>,
    /// Display preferences ID
    pub display_preferences_id: Option<String>,
    /// Status
    pub status: Option<String>,
    /// Air time
    pub air_time: Option<String>,
    /// Air days
    pub air_days: Vec<String>,
    /// Tags
    pub tags: Vec<String>,
    /// Artists
    pub artists: Vec<String>,
    /// Artist items
    pub artist_items: Vec<NameGuidPair>,
    /// Album
    pub album: Option<String>,
    /// Collection type
    pub collection_type: Option<String>,
    /// Display order
    pub display_order: Option<String>,
    /// Album ID
    pub album_id: Option<String>,
    /// Album primary image tag
    pub album_primary_image_tag: Option<String>,
    /// Series primary image tag
    pub series_primary_image_tag: Option<String>,
    /// Album artist
    pub album_artist: Option<String>,
    /// Album artists
    pub album_artists: Vec<NameGuidPair>,
    /// Season name
    pub season_name: Option<String>,
    /// Media streams
    pub media_streams: Vec<MediaStreamInfo>,
    /// Video type
    pub video_type: Option<String>,
    /// Part count
    pub part_count: Option<i32>,
    /// Media source count
    pub media_source_count: Option<i32>,
    /// Image tags
    pub image_tags: HashMap<String, String>,
    /// Backdrop image tags
    pub backdrop_image_tags: Vec<String>,
    /// Screenshot image tags
    pub screenshot_image_tags: Vec<String>,
    /// Parent logo item ID
    pub parent_logo_item_id: Option<String>,
    /// Parent backdrop item ID
    pub parent_backdrop_item_id: Option<String>,
    /// Parent backdrop image tags
    pub parent_backdrop_image_tags_2: Vec<String>,
    /// Total bitrate
    pub total_bitrate: Option<i32>,
    /// Video 3D format
    pub video3_d_format: Option<String>,
    /// Premiere date
    pub premiere_date: Option<String>,
    /// External URLs
    pub external_urls: Vec<ExternalUrl>,
    /// Media sources
    pub media_sources: Vec<MediaSourceInfo>,
    /// Production locations
    pub production_locations: Vec<String>,
    /// Path
    pub path: Option<String>,
    /// Enable media source display
    pub enable_media_source_display: Option<bool>,
    /// Official rating
    pub official_rating: Option<String>,
    /// Custom rating
    pub custom_rating: Option<String>,
    /// Channel primary image tag
    pub channel_primary_image_tag: Option<String>,
    /// Movie count
    pub movie_count: Option<i32>,
    /// Series count
    pub series_count: Option<i32>,
    /// Program count
    pub program_count: Option<i32>,
    /// Episode count
    pub episode_count: Option<i32>,
    /// Song count
    pub song_count: Option<i32>,
    /// Album count
    pub album_count: Option<i32>,
    /// Artist count
    pub artist_count: Option<i32>,
    /// Music video count
    pub music_video_count: Option<i32>,
    /// Lock data
    pub lock_data: Option<bool>,
    /// Width
    pub width: Option<i32>,
    /// Height
    pub height: Option<i32>,
    /// Camera make
    pub camera_make: Option<String>,
    /// Camera model
    pub camera_model: Option<String>,
    /// Software
    pub software: Option<String>,
    /// Image orientation
    pub image_orientation: Option<String>,
    /// ISO speed rating
    pub iso_speed_rating: Option<i32>,
    /// Series timer ID
    pub series_timer_id: Option<String>,
    /// Program ID
    pub program_id: Option<String>,
    /// Channel primary image tag
    pub channel_logo_image_tag: Option<String>,
    /// Start date
    pub start_date: Option<String>,
    /// End date
    pub end_date: Option<String>,
    /// Is repeat
    pub is_repeat: Option<bool>,
    /// Episode title
    pub episode_title: Option<String>,
    /// Channel type
    pub channel_type: Option<String>,
    /// Audio
    pub audio: Option<String>,
    /// Is movie
    pub is_movie: Option<bool>,
    /// Is sports
    pub is_sports: Option<bool>,
    /// Is series
    pub is_series: Option<bool>,
    /// Is live
    pub is_live: Option<bool>,
    /// Is news
    pub is_news: Option<bool>,
    /// Is kids
    pub is_kids: Option<bool>,
    /// Is premiere
    pub is_premiere: Option<bool>,
    /// Timer ID
    pub timer_id: Option<String>,
    /// Current program
    pub current_program: Option<Box<BaseItem>>,
    /// User data
    pub user_data: Option<UserData>,
}

/// User data for items
/// (`rating`, `played_percentage`, which hold floating point, are left out of this type.)
#[derive(Debug, Clone)]
pub struct UserData {
    /// Unplayed item count
    pub unplayed_item_count: Option<i32>,
    /// Playback position ticks
    pub playback_position_ticks: i64,
    /// Play count
    pub play_count: i32,
    /// Is favorite
    pub is_favorite: bool,
    /// Likes
    pub likes: Option<bool>,
    /// Last played date
    pub last_played_date: Option<String>,
    /// Played
    pub played: bool,
    /// Key
    pub key: Option<String>,
    /// Item ID
    pub item_id: Option<String>,
}

/// Media stream information
/// (`average_frame_rate`, `real_frame_rate`, `level`, which hold floating point, are left out of this type.)
#[derive(Debug, Clone)]
pub struct MediaStreamInfo {
    /// Codec
    pub codec: Option<String>,
    /// Codec tag
    pub codec_tag: Option<String>,
    /// Language
    pub language: Option<String>,
    /// Color range
    pub color_range: Option<String>,
    /// Color space
    pub color_space: Option<String>,
    /// Color transfer
    pub color_transfer: Option<String>,
    /// Color primaries
    pub color_primaries: Option<String>,
    /// Comment
    pub comment: Option<String>,
    /// Time base
    pub time_base: Option<String>,
    /// Codec time base
    pub codec_time_base: Option<String>,
    /// Title
    pub title: Option<String>,
    /// Video range
    pub video_range: Option<String>,
    /// Video range type
    pub video_range_type: Option<String>,
    /// Video do vi title
    pub video_do_vi_title: Option<String>,
    /// Local ized undefined
    pub localized_undefined: Option<String>,
    /// Local ized default
    pub localized_default: Option<String>,
    /// Local ized forced
    pub localized_forced: Option<String>,
    /// Local ized external
    pub localized_external: Option<String>,
    /// Display title
    pub display_title: Option<String>,
    /// Nal length size
    pub nal_length_size: Option<String>,
    /// Is interlaced
    pub is_interlaced: bool,
    /// Is AVC
    pub is_avc: Option<bool>,
    /// Channel layout
    pub channel_layout: Option<String>,
    /// Bit rate
    pub bit_rate: Option<i32>,
    /// Bit depth
    pub bit_depth: Option<i32>,
    /// Ref frames
    pub ref_frames: Option<i32>,
    /// Packet length
    pub packet_length: Option<i32>,
    /// Channels
    pub channels: Option<i32>,
    /// Sample rate
    pub sample_rate: Option<i32>,
    /// Is default
    pub is_default: bool,
    /// Is forced
    pub is_forced: bool,
    /// Height
    pub height: Option<i32>,
    /// Width
    pub width: Option<i32>,
    /// Profile
    pub profile: Option<String>,
    /// Type
    pub stream_type: String,
    /// Aspect ratio
    pub aspect_ratio: Option<String>,
    /// Index
    pub index: i32,
    /// Score
    pub score: Option<i32>,
    /// Is external
    pub is_external: bool,
    /// Delivery method
    pub delivery_method: Option<String>,
    /// Delivery url
    pub delivery_url: Option<String>,
    /// Is external url
    pub is_external_url: Option<bool>,
    /// Is text subtitle stream
    pub is_text_subtitle_stream: bool,
    /// Supports external stream
    pub supports_external_stream: bool,
    /// Path
    pub path: Option<String>,
    /// Pixel format
    pub pixel_format: Option<String>,
    /// Is anamorphic
    pub is_anamorphic: Option<bool>,
}

/// Media source information
#[derive(Debug, Clone)]
pub struct MediaSourceInfo {
    /// Protocol
    pub protocol: Option<String>,
    /// ID
    pub id: String,
    /// Path
    pub path: Option<String>,
    /// Encoder path
    pub encoder_path: Option<String>,
    /// Encoder protocol
    pub encoder_protocol: Option<String>,
    /// Type
    pub source_type: String,
    /// Container
    pub container: Option<String>,
    /// Size
    pub size: Option<i64>,
    /// Name
    pub name: Option<String>,
    /// Is remote
    pub is_remote: bool,
    /// ETag
    pub e_tag: Option<String>,
    /// Run time ticks
    pub run_time_ticks: Option<i64>,
    /// Read at native framerate
    pub read_at_native_framerate: bool,
    /// Ignore DTS
    pub ignore_dts: bool,
    /// Ignore index
    pub ignore_index: bool,
    /// Gen PTS input
    pub gen_pts_input: bool,
    /// Supports transcoding
    pub supports_transcoding: bool,
    /// Supports direct stream
    pub supports_direct_stream: bool,
    /// Supports direct play
    pub supports_direct_play: bool,
    /// Is infinite stream
    pub is_infinite_stream: bool,
    /// Requires opening
    pub requires_opening: bool,
    /// Opening token
    pub opening_token: Option<String>,
    /// Requires closing
    pub requires_closing: bool,
    /// Live stream id
    pub live_stream_id: Option<String>,
    /// Buffer ms
    pub buffer_ms: Option<i32>,
    /// Requires looping
    pub requires_looping: bool,
    /// Supports probing
    pub supports_probing: bool,
    /// Video type
    pub video_type: Option<String>,
    /// Iso type
    pub iso_type: Option<String>,
    /// Video3D format
    pub video3_d_format: Option<String>,
    /// Media streams
    pub media_streams: Vec<MediaStreamInfo>,
    /// Media attachments
    pub media_attachments: Vec<MediaAttachment>,
    /// Formats
    pub formats: Vec<String>,
    /// Bitrate
    pub bitrate: Option<i32>,
    /// Timestamp
    pub timestamp: Option<String>,
    /// Required HTTP headers
    pub required_http_headers: HashMap<String, String>,
    /// Transcoding URL
    pub transcoding_url: Option<String>,
    /// Transcoding sub protocol
    pub transcoding_sub_protocol: Option<String>,
    /// Transcoding container
    pub transcoding_container: Option<String>,
    /// Analyze duration ms
    pub analyze_duration_ms: Option<i32>,
    /// Default audio stream index
    pub default_audio_stream_index: Option<i32>,
    /// Default subtitle stream index
    pub default_subtitle_stream_index: Option<i32>,
}

/// Response wrapper for items queries
#[derive(Debug, Clone)]
pub struct ItemsResponse {
    /// Items returned
    pub items: Vec<BaseItem>,
    /// Total record count
    pub total_record_count: i32,
    /// Start index
    pub start_index: i32,
}

/// Response wrapper for search queries
#[derive(Debug, Clone)]
pub struct SearchResponse {
    /// Search hints
    pub search_hints: Vec<SearchHint>,
    /// Total record count
    pub total_record_count: i32,
}

/// Search hint result
/// (`primary_image_aspect_ratio`, which holds floating point, is left out of this type.)
#[derive(Debug, Clone)]
pub struct SearchHint {
    /// Item ID
    pub item_id: String,
    /// ID
    pub id: String,
    /// Name
    pub name: String,
    /// Matched term
    pub matched_term: Option<String>,
    /// Index number
    pub index_number: Option<i32>,
    /// Production year
    pub production_year: Option<i32>,
    /// Parent index number
    pub parent_index_number: Option<i32>,
    /// Primary image tag
    pub primary_image_tag: Option<String>,
    /// Thumb image tag
    pub thumb_image_tag: Option<String>,
    /// Thumb image item ID
    pub thumb_image_item_id: Option<String>,
    /// Backdrop image tag
    pub backdrop_image_tag: Option<String>,
    /// Backdrop image item ID
    pub backdrop_image_item_id: Option<String>,
    /// Type
    pub item_type: String,
    /// Is folder
    pub is_folder: Option<bool>,
    /// Run time ticks
    pub run_time_ticks: Option<i64>,
    /// Media type
    pub media_type: Option<String>,
    /// Start date
    pub start_date: Option<String>,
    /// End date
    pub end_date: Option<String>,
    /// Series
    pub series: Option<String>,
    /// Status
    pub status: Option<String>,
    /// Album
    pub album: Option<String>,
    /// Album ID
    pub album_id: Option<String>,
    /// Album artist
    pub album_artist: Option<String>,
    /// Artists
    pub artists: Vec<String>,
    /// Song count
    pub song_count: Option<i32>,
    /// Episode count
    pub episode_count: Option<i32>,
    /// Channel ID
    pub channel_id: Option<String>,
    /// Channel name
    pub channel_name: Option<String>,
}

impl Clone for BaseItem {
    fn clone(&self) -> (r: Self)
        decreases self,
    {
        BaseItem {
            id: self.id.clone(),
            name: self.name.clone(),
            original_title: self.original_title.clone(),
            server_id: self.server_id.clone(),
            item_type: self.item_type.clone(),
            channel_id: self.channel_id.clone(),
            channel_name: self.channel_name.clone(),
            overview: self.overview.clone(),
            taglines: self.taglines.clone(),
            genres: self.genres.clone(),
            cumulative_run_time_ticks: self.cumulative_run_time_ticks.clone(),
            runtime_ticks: self.runtime_ticks.clone(),
            play_access: self.play_access.clone(),
            aspect_ratio: self.aspect_ratio.clone(),
            production_year: self.production_year.clone(),
            is_place_holder: self.is_place_holder.clone(),
            number: self.number.clone(),
            channel_number: self.channel_number.clone(),
            index_number: self.index_number.clone(),
            index_number_end: self.index_number_end.clone(),
            parent_index_number: self.parent_index_number.clone(),
            remote_trailers: self.remote_trailers.clone(),
            provider_ids: self.provider_ids.clone(),
            is_hd: self.is_hd.clone(),
            is_folder: self.is_folder.clone(),
            parent_id: self.parent_id.clone(),
            parent_type: self.parent_type.clone(),
            parent_backdrop_image_tags: self.parent_backdrop_image_tags.clone(),
            parent_primary_image_item_id: self.parent_primary_image_item_id.clone(),
            parent_primary_image_tag: self.parent_primary_image_tag.clone(),
            people: self.people.clone(),
            studios: self.studios.clone(),
            genre_items: self.genre_items.clone(),
            parent_logo_image_tag: self.parent_logo_image_tag.clone(),
            parent_art_item_id: self.parent_art_item_id.clone(),
            parent_art_image_tag: self.parent_art_image_tag.clone(),
            series_name: self.series_name.clone(),
            series_id: self.series_id.clone(),
            season_id: self.season_id.clone(),
            special_feature_count: self.special_feature_count.clone(),
            display_preferences_id: self.display_preferences_id.clone(),
            status: self.status.clone(),
            air_time: self.air_time.clone(),
            air_days: self.air_days.clone(),
            tags: self.tags.clone(),
            artists: self.artists.clone(),
            artist_items: self.artist_items.clone(),
            album: self.album.clone(),
            collection_type: self.collection_type.clone(),
            display_order: self.display_order.clone(),
            album_id: self.album_id.clone(),
            album_primary_image_tag: self.album_primary_image_tag.clone(),
            series_primary_image_tag: self.series_primary_image_tag.clone(),
            album_artist: self.album_artist.clone(),
            album_artists: self.album_artists.clone(),
            season_name: self.season_name.clone(),
            media_streams: self.media_streams.clone(),
            video_type: self.video_type.clone(),
            part_count: self.part_count.clone(),
            media_source_count: self.media_source_count.clone(),
            image_tags: self.image_tags.clone(),
            backdrop_image_tags: self.backdrop_image_tags.clone(),
            screenshot_image_tags: self.screenshot_image_tags.clone(),
            parent_logo_item_id: self.parent_logo_item_id.clone(),
            parent_backdrop_item_id: self.parent_backdrop_item_id.clone(),
            parent_backdrop_image_tags_2: self.parent_backdrop_image_tags_2.clone(),
            total_bitrate: self.total_bitrate.clone(),
            video3_d_format: self.video3_d_format.clone(),
            premiere_date: self.premiere_date.clone(),
            external_urls: self.external_urls.clone(),
            media_sources: self.media_sources.clone(),
            production_locations: self.production_locations.clone(),
            path: self.path.clone(),
            enable_media_source_display: self.enable_media_source_display.clone(),
            official_rating: self.official_rating.clone(),
            custom_rating: self.custom_rating.clone(),
            channel_primary_image_tag: self.channel_primary_image_tag.clone(),
            movie_count: self.movie_count.clone(),
            series_count: self.series_count.clone(),
            program_count: self.program_count.clone(),
            episode_count: self.episode_count.clone(),
            song_count: self.song_count.clone(),
            album_count: self.album_count.clone(),
            artist_count: self.artist_count.clone(),
            music_video_count: self.music_video_count.clone(),
            lock_data: self.lock_data.clone(),
            width: self.width.clone(),
            height: self.height.clone(),
            camera_make: self.camera_make.clone(),
            camera_model: self.camera_model.clone(),
            software: self.software.clone(),
            image_orientation: self.image_orientation.clone(),
            iso_speed_rating: self.iso_speed_rating.clone(),
            series_timer_id: self.series_timer_id.clone(),
            program_id: self.program_id.clone(),
            channel_logo_image_tag: self.channel_logo_image_tag.clone(),
            start_date: self.start_date.clone(),
            end_date: self.end_date.clone(),
            is_repeat: self.is_repeat.clone(),
            episode_title: self.episode_title.clone(),
            channel_type: self.channel_type.clone(),
            audio: self.audio.clone(),
            is_movie: self.is_movie.clone(),
            is_sports: self.is_sports.clone(),
            is_series: self.is_series.clone(),
            is_live: self.is_live.clone(),
            is_news: self.is_news.clone(),
            is_kids: self.is_kids.clone(),
            is_premiere: self.is_premiere.clone(),
            timer_id: self.timer_id.clone(),
            current_program: match &self.current_program {
                Some(b) => Some(Box::new((&**b).clone())),
                None => None,
            },
            user_data: self.user_data.clone(),
        }
    }
}



proof fn lemma_items_query_by_key_part0(q: ItemsQuery, k: Seq<char>)
    ensures
        same_entries(entries_with(opt_entry("ParentId"@, opt_text(q.parent_id)) + list_entry("IncludeItemTypes"@, texts(q.include_item_types@)) + list_entry("ExcludeItemTypes"@, texts(q.exclude_item_types@)) + (if q.recursive { seq![("Recursive"@, bool_text(true))] } else { Seq::empty() }) + list_entry("SortBy"@, texts(q.sort_by@)) + seq![("SortOrder"@, q.sort_order.text())], k), (if "ParentId"@ == k { opt_entry("ParentId"@, opt_text(q.parent_id)) } else { Seq::empty() })
            + (if "IncludeItemTypes"@ == k { list_entry("IncludeItemTypes"@, texts(q.include_item_types@)) } else { Seq::empty() })
            + (if "ExcludeItemTypes"@ == k { list_entry("ExcludeItemTypes"@, texts(q.exclude_item_types@)) } else { Seq::empty() })
            + (if "Recursive"@ == k && q.recursive { seq![("Recursive"@, bool_text(true))] } else { Seq::empty() })
            + (if "SortBy"@ == k { list_entry("SortBy"@, texts(q.sort_by@)) } else { Seq::empty() })
            + (if "SortOrder"@ == k { seq![("SortOrder"@, q.sort_order.text())] } else { Seq::empty() })),
{
    lemma_entries_with_opt("ParentId"@, opt_text(q.parent_id), k);
    lemma_entries_with_list("IncludeItemTypes"@, texts(q.include_item_types@), k);
    lemma_entries_with_list("ExcludeItemTypes"@, texts(q.exclude_item_types@), k);
    if q.recursive {
        lemma_entries_with_single(("Recursive"@, bool_text(true)), k);
    } else {
        lemma_entries_with_empty(k);
    }
    lemma_entries_with_list("SortBy"@, texts(q.sort_by@), k);
    lemma_entries_with_single(("SortOrder"@, q.sort_order.text()), k);
    lemma_entries_with_concat(opt_entry("ParentId"@, opt_text(q.parent_id)), list_entry("IncludeItemTypes"@, texts(q.include_item_types@)), k);
    lemma_entries_with_concat(opt_entry("ParentId"@, opt_text(q.parent_id)) + list_entry("IncludeItemTypes"@, texts(q.include_item_types@)), list_entry("ExcludeItemTypes"@, texts(q.exclude_item_types@)), k);
    lemma_entries_with_concat(opt_entry("ParentId"@, opt_text(q.parent_id)) + list_entry("IncludeItemTypes"@, texts(q.include_item_types@)) + list_entry("ExcludeItemTypes"@, texts(q.exclude_item_types@)), (if q.recursive { seq![("Recursive"@, bool_text(true))] } else { Seq::empty() }), k);
    lemma_entries_with_concat(opt_entry("ParentId"@, opt_text(q.parent_id)) + list_entry("IncludeItemTypes"@, texts(q.include_item_types@)) + list_entry("ExcludeItemTypes"@, texts(q.exclude_item_types@)) + (if q.recursive { seq![("Recursive"@, bool_text(true))] } else { Seq::empty() }), list_entry("SortBy"@, texts(q.sort_by@)), k);
    lemma_entries_with_concat(opt_entry("ParentId"@, opt_text(q.parent_id)) + list_entry("IncludeItemTypes"@, texts(q.include_item_types@)) + list_entry("ExcludeItemTypes"@, texts(q.exclude_item_types@)) + (if q.recursive { seq![("Recursive"@, bool_text(true))] } else { Seq::empty() }) + list_entry("SortBy"@, texts(q.sort_by@)), seq![("SortOrder"@, q.sort_order.text())], k);
}

proof fn lemma_items_query_by_key_part1(q: ItemsQuery, k: Seq<char>)
    ensures
        same_entries(entries_with(opt_entry("ParentId"@, opt_text(q.parent_id)) + list_entry("IncludeItemTypes"@, texts(q.include_item_types@)) + list_entry("ExcludeItemTypes"@, texts(q.exclude_item_types@)) + (if q.recursive { seq![("Recursive"@, bool_text(true))] } else { Seq::empty() }) + list_entry("SortBy"@, texts(q.sort_by@)) + seq![("SortOrder"@, q.sort_order.text())] + opt_entry("Limit"@, opt_u32_text(q.limit)) + opt_entry("StartIndex"@, opt_u32_text(q.start_index)) + opt_entry("SearchTerm"@, opt_text(q.search_term)) + opt_entry("UserId"@, opt_text(q.user_id)) + list_entry("Fields"@, texts(q.fields@)) + opt_entry("EnableImages"@, opt_bool_text(q.enable_images)), k), entries_with(opt_entry("ParentId"@, opt_text(q.parent_id)) + list_entry("IncludeItemTypes"@, texts(q.include_item_types@)) + list_entry("ExcludeItemTypes"@, texts(q.exclude_item_types@)) + (if q.recursive { seq![("Recursive"@, bool_text(true))] } else { Seq::empty() }) + list_entry("SortBy"@, texts(q.sort_by@)) + seq![("SortOrder"@, q.sort_order.text())], k)
            + (if "Limit"@ == k { opt_entry("Limit"@, opt_u32_text(q.limit)) } else { Seq::empty() })
            + (if "StartIndex"@ == k { opt_entry("StartIndex"@, opt_u32_text(q.start_index)) } else { Seq::empty() })
            + (if "SearchTerm"@ == k { opt_entry("SearchTerm"@, opt_text(q.search_term)) } else { Seq::empty() })
            + (if "UserId"@ == k { opt_entry("UserId"@, opt_text(q.user_id)) } else { Seq::empty() })
            + (if "Fields"@ == k { list_entry("Fields"@, texts(q.fields@)) } else { Seq::empty() })
            + (if "EnableImages"@ == k { opt_entry("EnableImages"@, opt_bool_text(q.enable_images)) } else { Seq::empty() })),
{
    lemma_entries_with_opt("Limit"@, opt_u32_text(q.limit), k);
    lemma_entries_with_opt("StartIndex"@, opt_u32_text(q.start_index), k);
    lemma_entries_with_opt("SearchTerm"@, opt_text(q.search_term), k);
    lemma_entries_with_opt("UserId"@, opt_text(q.user_id), k);
    lemma_entries_with_list("Fields"@, texts(q.fields@), k);
    lemma_entries_with_opt("EnableImages"@, opt_bool_text(q.enable_images), k);
    lemma_entries_with_concat(opt_entry("ParentId"@, opt_text(q.parent_id)) + list_entry("IncludeItemTypes"@, texts(q.include_item_types@)) + list_entry("ExcludeItemTypes"@, texts(q.exclude_item_types@)) + (if q.recursive { seq![("Recursive"@, bool_text(true))] } else { Seq::empty() }) + list_entry("SortBy"@, texts(q.sort_by@)) + seq![("SortOrder"@, q.sort_order.text())], opt_entry("Limit"@, opt_u32_text(q.limit)), k);
    lemma_entries_with_concat(opt_entry("ParentId"@, opt_text(q.parent_id)) + list_entry("IncludeItemTypes"@, texts(q.include_item_types@)) + list_entry("ExcludeItemTypes"@, texts(q.exclude_item_types@)) + (if q.recursive { seq![("Recursive"@, bool_text(true))] } else { Seq::empty() }) + list_entry("SortBy"@, texts(q.sort_by@)) + seq![("SortOrder"@, q.sort_order.text())] + opt_entry("Limit"@, opt_u32_text(q.limit)), opt_entry("StartIndex"@, opt_u32_text(q.start_index)), k);
    lemma_entries_with_concat(opt_entry("ParentId"@, opt_text(q.parent_id)) + list_entry("IncludeItemTypes"@, texts(q.include_item_types@)) + list_entry("ExcludeItemTypes"@, texts(q.exclude_item_types@)) + (if q.recursive { seq![("Recursive"@, bool_text(true))] } else { Seq::empty() }) + list_entry("SortBy"@, texts(q.sort_by@)) + seq![("SortOrder"@, q.sort_order.text())] + opt_entry("Limit"@, opt_u32_text(q.limit)) + opt_entry("StartIndex"@, opt_u32_text(q.start_index)), opt_entry("SearchTerm"@, opt_text(q.search_term)), k);
    lemma_entries_with_concat(opt_entry("ParentId"@, opt_text(q.parent_id)) + list_entry("IncludeItemTypes"@, texts(q.include_item_types@)) + list_entry("ExcludeItemTypes"@, texts(q.exclude_item_types@)) + (if q.recursive { seq![("Recursive"@, bool_text(true))] } else { Seq::empty() }) + list_entry("SortBy"@, texts(q.sort_by@)) + seq![("SortOrder"@, q.sort_order.text())] + opt_entry("Limit"@, opt_u32_text(q.limit)) + opt_entry("StartIndex"@, opt_u32_text(q.start_index)) + opt_entry("SearchTerm"@, opt_text(q.search_term)), opt_entry("UserId"@, opt_text(q.user_id)), k);
    lemma_entries_with_concat(opt_entry("ParentId"@, opt_text(q.parent_id)) + list_entry("IncludeItemTypes"@, texts(q.include_item_types@)) + list_entry("ExcludeItemTypes"@, texts(q.exclude_item_types@)) + (if q.recursive { seq![("Recursive"@, bool_text(true))] } else { Seq::empty() }) + list_entry("SortBy"@, texts(q.sort_by@)) + seq![("SortOrder"@, q.sort_order.text())] + opt_entry("Limit"@, opt_u32_text(q.limit)) + opt_entry("StartIndex"@, opt_u32_text(q.start_index)) + opt_entry("SearchTerm"@, opt_text(q.search_term)) + opt_entry("UserId"@, opt_text(q.user_id)), list_entry("Fields"@, texts(q.fields@)), k);
    lemma_entries_with_concat(opt_entry("ParentId"@, opt_text(q.parent_id)) + list_entry("IncludeItemTypes"@, texts(q.include_item_types@)) + list_entry("ExcludeItemTypes"@, texts(q.exclude_item_types@)) + (if q.recursive { seq![("Recursive"@, bool_text(true))] } else { Seq::empty() }) + list_entry("SortBy"@, texts(q.sort_by@)) + seq![("SortOrder"@, q.sort_order.text())] + opt_entry("Limit"@, opt_u32_text(q.limit)) + opt_entry("StartIndex"@, opt_u32_text(q.start_index)) + opt_entry("SearchTerm"@, opt_text(q.search_term)) + opt_entry("UserId"@, opt_text(q.user_id)) + list_entry("Fields"@, texts(q.fields@)), opt_entry("EnableImages"@, opt_bool_text(q.enable_images)), k);
}

proof fn lemma_items_query_by_key_part2(q: ItemsQuery, k: Seq<char>)
    ensures
        same_entries(entries_with(opt_entry("ParentId"@, opt_text(q.parent_id)) + list_entry("IncludeItemTypes"@, texts(q.include_item_types@)) + list_entry("ExcludeItemTypes"@, texts(q.exclude_item_types@)) + (if q.recursive { seq![("Recursive"@, bool_text(true))] } else { Seq::empty() }) + list_entry("SortBy"@, texts(q.sort_by@)) + seq![("SortOrder"@, q.sort_order.text())] + opt_entry("Limit"@, opt_u32_text(q.limit)) + opt_entry("StartIndex"@, opt_u32_text(q.start_index)) + opt_entry("SearchTerm"@, opt_text(q.search_term)) + opt_entry("UserId"@, opt_text(q.user_id)) + list_entry("Fields"@, texts(q.fields@)) + opt_entry("EnableImages"@, opt_bool_text(q.enable_images)) + opt_entry("ImageTypeLimit"@, opt_u32_text(q.image_type_limit)) + opt_entry("EnableUserData"@, opt_bool_text(q.enable_user_data)) + opt_entry("EnableTotalRecordCount"@, opt_bool_text(q.enable_total_record_count)) + list_entry("Genres"@, texts(q.genres@)) + list_entry("Years"@, u32_texts(q.years@)) + opt_entry("IsPlayed"@, opt_bool_text(q.is_played)), k), entries_with(opt_entry("ParentId"@, opt_text(q.parent_id)) + list_entry("IncludeItemTypes"@, texts(q.include_item_types@)) + list_entry("ExcludeItemTypes"@, texts(q.exclude_item_types@)) + (if q.recursive { seq![("Recursive"@, bool_text(true))] } else { Seq::empty() }) + list_entry("SortBy"@, texts(q.sort_by@)) + seq![("SortOrder"@, q.sort_order.text())] + opt_entry("Limit"@, opt_u32_text(q.limit)) + opt_entry("StartIndex"@, opt_u32_text(q.start_index)) + opt_entry("SearchTerm"@, opt_text(q.search_term)) + opt_entry("UserId"@, opt_text(q.user_id)) + list_entry("Fields"@, texts(q.fields@)) + opt_entry("EnableImages"@, opt_bool_text(q.enable_images)), k)
            + (if "ImageTypeLimit"@ == k { opt_entry("ImageTypeLimit"@, opt_u32_text(q.image_type_limit)) } else { Seq::empty() })
            + (if "EnableUserData"@ == k { opt_entry("EnableUserData"@, opt_bool_text(q.enable_user_data)) } else { Seq::empty() })
            + (if "EnableTotalRecordCount"@ == k { opt_entry("EnableTotalRecordCount"@, opt_bool_text(q.enable_total_record_count)) } else { Seq::empty() })
            + (if "Genres"@ == k { list_entry("Genres"@, texts(q.genres@)) } else { Seq::empty() })
            + (if "Years"@ == k { list_entry("Years"@, u32_texts(q.years@)) } else { Seq::empty() })
            + (if "IsPlayed"@ == k { opt_entry("IsPlayed"@, opt_bool_text(q.is_played)) } else { Seq::empty() })),
{
    lemma_entries_with_opt("ImageTypeLimit"@, opt_u32_text(q.image_type_limit), k);
    lemma_entries_with_opt("EnableUserData"@, opt_bool_text(q.enable_user_data), k);
    lemma_entries_with_opt("EnableTotalRecordCount"@, opt_bool_text(q.enable_total_record_count), k);
    lemma_entries_with_list("Genres"@, texts(q.genres@), k);
    lemma_entries_with_list("Years"@, u32_texts(q.years@), k);
    lemma_entries_with_opt("IsPlayed"@, opt_bool_text(q.is_played), k);
    lemma_entries_with_concat(opt_entry("ParentId"@, opt_text(q.parent_id)) + list_entry("IncludeItemTypes"@, texts(q.include_item_types@)) + list_entry("ExcludeItemTypes"@, texts(q.exclude_item_types@)) + (if q.recursive { seq![("Recursive"@, bool_text(true))] } else { Seq::empty() }) + list_entry("SortBy"@, texts(q.sort_by@)) + seq![("SortOrder"@, q.sort_order.text())] + opt_entry("Limit"@, opt_u32_text(q.limit)) + opt_entry("StartIndex"@, opt_u32_text(q.start_index)) + opt_entry("SearchTerm"@, opt_text(q.search_term)) + opt_entry("UserId"@, opt_text(q.user_id)) + list_entry("Fields"@, texts(q.fields@)) + opt_entry("EnableImages"@, opt_bool_text(q.enable_images)), opt_entry("ImageTypeLimit"@, opt_u32_text(q.image_type_limit)), k);
    lemma_entries_with_concat(opt_entry("ParentId"@, opt_text(q.parent_id)) + list_entry("IncludeItemTypes"@, texts(q.include_item_types@)) + list_entry("ExcludeItemTypes"@, texts(q.exclude_item_types@)) + (if q.recursive { seq![("Recursive"@, bool_text(true))] } else { Seq::empty() }) + list_entry("SortBy"@, texts(q.sort_by@)) + seq![("SortOrder"@, q.sort_order.text())] + opt_entry("Limit"@, opt_u32_text(q.limit)) + opt_entry("StartIndex"@, opt_u32_text(q.start_index)) + opt_entry("SearchTerm"@, opt_text(q.search_term)) + opt_entry("UserId"@, opt_text(q.user_id)) + list_entry("Fields"@, texts(q.fields@)) + opt_entry("EnableImages"@, opt_bool_text(q.enable_images)) + opt_entry("ImageTypeLimit"@, opt_u32_text(q.image_type_limit)), opt_entry("EnableUserData"@, opt_bool_text(q.enable_user_data)), k);
    lemma_entries_with_concat(opt_entry("ParentId"@, opt_text(q.parent_id)) + list_entry("IncludeItemTypes"@, texts(q.include_item_types@)) + list_entry("ExcludeItemTypes"@, texts(q.exclude_item_types@)) + (if q.recursive { seq![("Recursive"@, bool_text(true))] } else { Seq::empty() }) + list_entry("SortBy"@, texts(q.sort_by@)) + seq![("SortOrder"@, q.sort_order.text())] + opt_entry("Limit"@, opt_u32_text(q.limit)) + opt_entry("StartIndex"@, opt_u32_text(q.start_index)) + opt_entry("SearchTerm"@, opt_text(q.search_term)) + opt_entry("UserId"@, opt_text(q.user_id)) + list_entry("Fields"@, texts(q.fields@)) + opt_entry("EnableImages"@, opt_bool_text(q.enable_images)) + opt_entry("ImageTypeLimit"@, opt_u32_text(q.image_type_limit)) + opt_entry("EnableUserData"@, opt_bool_text(q.enable_user_data)), opt_entry("EnableTotalRecordCount"@, opt_bool_text(q.enable_total_record_count)), k);
    lemma_entries_with_concat(opt_entry("ParentId"@, opt_text(q.parent_id)) + list_entry("IncludeItemTypes"@, texts(q.include_item_types@)) + list_entry("ExcludeItemTypes"@, texts(q.exclude_item_types@)) + (if q.recursive { seq![("Recursive"@, bool_text(true))] } else { Seq::empty() }) + list_entry("SortBy"@, texts(q.sort_by@)) + seq![("SortOrder"@, q.sort_order.text())] + opt_entry("Limit"@, opt_u32_text(q.limit)) + opt_entry("StartIndex"@, opt_u32_text(q.start_index)) + opt_entry("SearchTerm"@, opt_text(q.search_term)) + opt_entry("UserId"@, opt_text(q.user_id)) + list_entry("Fields"@, texts(q.fields@)) + opt_entry("EnableImages"@, opt_bool_text(q.enable_images)) + opt_entry("ImageTypeLimit"@, opt_u32_text(q.image_type_limit)) + opt_entry("EnableUserData"@, opt_bool_text(q.enable_user_data)) + opt_entry("EnableTotalRecordCount"@, opt_bool_text(q.enable_total_record_count)), list_entry("Genres"@, texts(q.genres@)), k);
    lemma_entries_with_concat(opt_entry("ParentId"@, opt_text(q.parent_id)) + list_entry("IncludeItemTypes"@, texts(q.include_item_types@)) + list_entry("ExcludeItemTypes"@, texts(q.exclude_item_types@)) + (if q.recursive { seq![("Recursive"@, bool_text(true))] } else { Seq::empty() }) + list_entry("SortBy"@, texts(q.sort_by@)) + seq![("SortOrder"@, q.sort_order.text())] + opt_entry("Limit"@, opt_u32_text(q.limit)) + opt_entry("StartIndex"@, opt_u32_text(q.start_index)) + opt_entry("SearchTerm"@, opt_text(q.search_term)) + opt_entry("UserId"@, opt_text(q.user_id)) + list_entry("Fields"@, texts(q.fields@)) + opt_entry("EnableImages"@, opt_bool_text(q.enable_images)) + opt_entry("ImageTypeLimit"@, opt_u32_text(q.image_type_limit)) + opt_entry("EnableUserData"@, opt_bool_text(q.enable_user_data)) + opt_entry("EnableTotalRecordCount"@, opt_bool_text(q.enable_total_record_count)) + list_entry("Genres"@, texts(q.genres@)), list_entry("Years"@, u32_texts(q.years@)), k);
    lemma_entries_with_concat(opt_entry("ParentId"@, opt_text(q.parent_id)) + list_entry("IncludeItemTypes"@, texts(q.include_item_types@)) + list_entry("ExcludeItemTypes"@, texts(q.exclude_item_types@)) + (if q.recursive { seq![("Recursive"@, bool_text(true))] } else { Seq::empty() }) + list_entry("SortBy"@, texts(q.sort_by@)) + seq![("SortOrder"@, q.sort_order.text())] + opt_entry("Limit"@, opt_u32_text(q.limit)) + opt_entry("StartIndex"@, opt_u32_text(q.start_index)) + opt_entry("SearchTerm"@, opt_text(q.search_term)) + opt_entry("UserId"@, opt_text(q.user_id)) + list_entry("Fields"@, texts(q.fields@)) + opt_entry("EnableImages"@, opt_bool_text(q.enable_images)) + opt_entry("ImageTypeLimit"@, opt_u32_text(q.image_type_limit)) + opt_entry("EnableUserData"@, opt_bool_text(q.enable_user_data)) + opt_entry("EnableTotalRecordCount"@, opt_bool_text(q.enable_total_record_count)) + list_entry("Genres"@, texts(q.genres@)) + list_entry("Years"@, u32_texts(q.years@)), opt_entry("IsPlayed"@, opt_bool_text(q.is_played)), k);
}

proof fn lemma_items_query_by_key_part3(q: ItemsQuery, k: Seq<char>)
    ensures
        same_entries(entries_with(opt_entry("ParentId"@, opt_text(q.parent_id)) + list_entry("IncludeItemTypes"@, texts(q.include_item_types@)) + list_entry("ExcludeItemTypes"@, texts(q.exclude_item_types@)) + (if q.recursive { seq![("Recursive"@, bool_text(true))] } else { Seq::empty() }) + list_entry("SortBy"@, texts(q.sort_by@)) + seq![("SortOrder"@, q.sort_order.text())] + opt_entry("Limit"@, opt_u32_text(q.limit)) + opt_entry("StartIndex"@, opt_u32_text(q.start_index)) + opt_entry("SearchTerm"@, opt_text(q.search_term)) + opt_entry("UserId"@, opt_text(q.user_id)) + list_entry("Fields"@, texts(q.fields@)) + opt_entry("EnableImages"@, opt_bool_text(q.enable_images)) + opt_entry("ImageTypeLimit"@, opt_u32_text(q.image_type_limit)) + opt_entry("EnableUserData"@, opt_bool_text(q.enable_user_data)) + opt_entry("EnableTotalRecordCount"@, opt_bool_text(q.enable_total_record_count)) + list_entry("Genres"@, texts(q.genres@)) + list_entry("Years"@, u32_texts(q.years@)) + opt_entry("IsPlayed"@, opt_bool_text(q.is_played)) + opt_entry("IsFavorite"@, opt_bool_text(q.is_favorite)), k), entries_with(opt_entry("ParentId"@, opt_text(q.parent_id)) + list_entry("IncludeItemTypes"@, texts(q.include_item_types@)) + list_entry("ExcludeItemTypes"@, texts(q.exclude_item_types@)) + (if q.recursive { seq![("Recursive"@, bool_text(true))] } else { Seq::empty() }) + list_entry("SortBy"@, texts(q.sort_by@)) + seq![("SortOrder"@, q.sort_order.text())] + opt_entry("Limit"@, opt_u32_text(q.limit)) + opt_entry("StartIndex"@, opt_u32_text(q.start_index)) + opt_entry("SearchTerm"@, opt_text(q.search_term)) + opt_entry("UserId"@, opt_text(q.user_id)) + list_entry("Fields"@, texts(q.fields@)) + opt_entry("EnableImages"@, opt_bool_text(q.enable_images)) + opt_entry("ImageTypeLimit"@, opt_u32_text(q.image_type_limit)) + opt_entry("EnableUserData"@, opt_bool_text(q.enable_user_data)) + opt_entry("EnableTotalRecordCount"@, opt_bool_text(q.enable_total_record_count)) + list_entry("Genres"@, texts(q.genres@)) + list_entry("Years"@, u32_texts(q.years@)) + opt_entry("IsPlayed"@, opt_bool_text(q.is_played)), k)
            + (if "IsFavorite"@ == k { opt_entry("IsFavorite"@, opt_bool_text(q.is_favorite)) } else { Seq::empty() })),
{
    lemma_entries_with_opt("IsFavorite"@, opt_bool_text(q.is_favorite), k);
    lemma_entries_with_concat(opt_entry("ParentId"@, opt_text(q.parent_id)) + list_entry("IncludeItemTypes"@, texts(q.include_item_types@)) + list_entry("ExcludeItemTypes"@, texts(q.exclude_item_types@)) + (if q.recursive { seq![("Recursive"@, bool_text(true))] } else { Seq::empty() }) + list_entry("SortBy"@, texts(q.sort_by@)) + seq![("SortOrder"@, q.sort_order.text())] + opt_entry("Limit"@, opt_u32_text(q.limit)) + opt_entry("StartIndex"@, opt_u32_text(q.start_index)) + opt_entry("SearchTerm"@, opt_text(q.search_term)) + opt_entry("UserId"@, opt_text(q.user_id)) + list_entry("Fields"@, texts(q.fields@)) + opt_entry("EnableImages"@, opt_bool_text(q.enable_images)) + opt_entry("ImageTypeLimit"@, opt_u32_text(q.image_type_limit)) + opt_entry("EnableUserData"@, opt_bool_text(q.enable_user_data)) + opt_entry("EnableTotalRecordCount"@, opt_bool_text(q.enable_total_record_count)) + list_entry("Genres"@, texts(q.genres@)) + list_entry("Years"@, u32_texts(q.years@)) + opt_entry("IsPlayed"@, opt_bool_text(q.is_played)), opt_entry("IsFavorite"@, opt_bool_text(q.is_favorite)), k);
}

/// Every option of an items query that is set gives exactly one parameter under its Jellyfin key,
/// holding its value (lists joined with commas); an option that is not set gives none.
#[verifier::rlimit(100)]
pub proof fn law_items_query_entries(q: ItemsQuery)
    ensures
        entries_with(q.query(), "ParentId"@) == (match q.parent_id { Some(v) => seq![("ParentId"@, v@)], None => Seq::empty() }),
        entries_with(q.query(), "IncludeItemTypes"@) == (if q.include_item_types@.len() > 0 { seq![("IncludeItemTypes"@, join(texts(q.include_item_types@), ","@))] } else { Seq::empty() }),
        entries_with(q.query(), "ExcludeItemTypes"@) == (if q.exclude_item_types@.len() > 0 { seq![("ExcludeItemTypes"@, join(texts(q.exclude_item_types@), ","@))] } else { Seq::empty() }),
        entries_with(q.query(), "Recursive"@) == (if q.recursive { seq![("Recursive"@, bool_text(true))] } else { Seq::empty() }),
        entries_with(q.query(), "SortBy"@) == (if q.sort_by@.len() > 0 { seq![("SortBy"@, join(texts(q.sort_by@), ","@))] } else { Seq::empty() }),
        entries_with(q.query(), "SortOrder"@) == (seq![("SortOrder"@, q.sort_order.text())]),
        entries_with(q.query(), "Limit"@) == (match q.limit { Some(v) => seq![("Limit"@, decimal(v as nat))], None => Seq::empty() }),
        entries_with(q.query(), "StartIndex"@) == (match q.start_index { Some(v) => seq![("StartIndex"@, decimal(v as nat))], None => Seq::empty() }),
        entries_with(q.query(), "SearchTerm"@) == (match q.search_term { Some(v) => seq![("SearchTerm"@, v@)], None => Seq::empty() }),
        entries_with(q.query(), "UserId"@) == (match q.user_id { Some(v) => seq![("UserId"@, v@)], None => Seq::empty() }),
        entries_with(q.query(), "Fields"@) == (if q.fields@.len() > 0 { seq![("Fields"@, join(texts(q.fields@), ","@))] } else { Seq::empty() }),
        entries_with(q.query(), "EnableImages"@) == (match q.enable_images { Some(v) => seq![("EnableImages"@, bool_text(v))], None => Seq::empty() }),
        entries_with(q.query(), "ImageTypeLimit"@) == (match q.image_type_limit { Some(v) => seq![("ImageTypeLimit"@, decimal(v as nat))], None => Seq::empty() }),
        entries_with(q.query(), "EnableUserData"@) == (match q.enable_user_data { Some(v) => seq![("EnableUserData"@, bool_text(v))], None => Seq::empty() }),
        entries_with(q.query(), "EnableTotalRecordCount"@) == (match q.enable_total_record_count { Some(v) => seq![("EnableTotalRecordCount"@, bool_text(v))], None => Seq::empty() }),
        entries_with(q.query(), "Genres"@) == (if q.genres@.len() > 0 { seq![("Genres"@, join(texts(q.genres@), ","@))] } else { Seq::empty() }),
        entries_with(q.query(), "Years"@) == (if q.years@.len() > 0 { seq![("Years"@, join(u32_texts(q.years@), ","@))] } else { Seq::empty() }),
        entries_with(q.query(), "IsPlayed"@) == (match q.is_played { Some(v) => seq![("IsPlayed"@, bool_text(v))], None => Seq::empty() }),
        entries_with(q.query(), "IsFavorite"@) == (match q.is_favorite { Some(v) => seq![("IsFavorite"@, bool_text(v))], None => Seq::empty() }),
{
    assert(entries_with(q.query(), "ParentId"@) == (match q.parent_id { Some(v) => seq![("ParentId"@, v@)], None => Seq::empty() })) by {
        broadcast use lemma_concat_empty;
        lemma_items_query_by_key_part0(q, "ParentId"@);
        lemma_items_query_by_key_part1(q, "ParentId"@);
        lemma_items_query_by_key_part2(q, "ParentId"@);
        lemma_items_query_by_key_part3(q, "ParentId"@);
        reveal_strlit("ParentId");
        assert("ParentId"@.len() == 8);
        reveal_strlit("IncludeItemTypes");
        assert("IncludeItemTypes"@.len() == 16);
        reveal_strlit("ExcludeItemTypes");
        assert("ExcludeItemTypes"@.len() == 16);
        reveal_strlit("Recursive");
        assert("Recursive"@.len() == 9);
        reveal_strlit("SortBy");
        assert("SortBy"@.len() == 6);
        reveal_strlit("SortOrder");
        assert("SortOrder"@.len() == 9);
        reveal_strlit("Limit");
        assert("Limit"@.len() == 5);
        reveal_strlit("StartIndex");
        assert("StartIndex"@.len() == 10);
        reveal_strlit("SearchTerm");
        assert("SearchTerm"@.len() == 10);
        reveal_strlit("UserId");
        assert("UserId"@.len() == 6);
        reveal_strlit("Fields");
        assert("Fields"@.len() == 6);
        reveal_strlit("EnableImages");
        assert("EnableImages"@.len() == 12);
        reveal_strlit("ImageTypeLimit");
        assert("ImageTypeLimit"@.len() == 14);
        reveal_strlit("EnableUserData");
        assert("EnableUserData"@.len() == 14);
        reveal_strlit("EnableTotalRecordCount");
        assert("EnableTotalRecordCount"@.len() == 22);
        reveal_strlit("Genres");
        assert("Genres"@.len() == 6);
        reveal_strlit("Years");
        assert("Years"@.len() == 5);
        reveal_strlit("IsPlayed");
        assert("IsPlayed"@.len() == 8);
        assert("IsPlayed"@[0] == 'I' && "ParentId"@[0] == 'P');
        reveal_strlit("IsFavorite");
        assert("IsFavorite"@.len() == 10);
    }
    assert(entries_with(q.query(), "IncludeItemTypes"@) == (if q.include_item_types@.len() > 0 { seq![("IncludeItemTypes"@, join(texts(q.include_item_types@), ","@))] } else { Seq::empty() })) by {
        broadcast use lemma_concat_empty;
        lemma_items_query_by_key_part0(q, "IncludeItemTypes"@);
        lemma_items_query_by_key_part1(q, "IncludeItemTypes"@);
        lemma_items_query_by_key_part2(q, "IncludeItemTypes"@);
        lemma_items_query_by_key_part3(q, "IncludeItemTypes"@);
        reveal_strlit("IncludeItemTypes");
        assert("IncludeItemTypes"@.len() == 16);
        reveal_strlit("ParentId");
        assert("ParentId"@.len() == 8);
        reveal_strlit("ExcludeItemTypes");
        assert("ExcludeItemTypes"@.len() == 16);
        assert("ExcludeItemTypes"@[0] == 'E' && "IncludeItemTypes"@[0] == 'I');
        reveal_strlit("Recursive");
        assert("Recursive"@.len() == 9);
        reveal_strlit("SortBy");
        assert("SortBy"@.len() == 6);
        reveal_strlit("SortOrder");
        assert("SortOrder"@.len() == 9);
        reveal_strlit("Limit");
        assert("Limit"@.len() == 5);
        reveal_strlit("StartIndex");
        assert("StartIndex"@.len() == 10);
        reveal_strlit("SearchTerm");
        assert("SearchTerm"@.len() == 10);
        reveal_strlit("UserId");
        assert("UserId"@.len() == 6);
        reveal_strlit("Fields");
        assert("Fields"@.len() == 6);
        reveal_strlit("EnableImages");
        assert("EnableImages"@.len() == 12);
        reveal_strlit("ImageTypeLimit");
        assert("ImageTypeLimit"@.len() == 14);
        reveal_strlit("EnableUserData");
        assert("EnableUserData"@.len() == 14);
        reveal_strlit("EnableTotalRecordCount");
        assert("EnableTotalRecordCount"@.len() == 22);
        reveal_strlit("Genres");
        assert("Genres"@.len() == 6);
        reveal_strlit("Years");
        assert("Years"@.len() == 5);
        reveal_strlit("IsPlayed");
        assert("IsPlayed"@.len() == 8);
        reveal_strlit("IsFavorite");
        assert("IsFavorite"@.len() == 10);
    }
    assert(entries_with(q.query(), "ExcludeItemTypes"@) == (if q.exclude_item_types@.len() > 0 { seq![("ExcludeItemTypes"@, join(texts(q.exclude_item_types@), ","@))] } else { Seq::empty() })) by {
        broadcast use lemma_concat_empty;
        lemma_items_query_by_key_part0(q, "ExcludeItemTypes"@);
        lemma_items_query_by_key_part1(q, "ExcludeItemTypes"@);
        lemma_items_query_by_key_part2(q, "ExcludeItemTypes"@);
        lemma_items_query_by_key_part3(q, "ExcludeItemTypes"@);
        reveal_strlit("ExcludeItemTypes");
        assert("ExcludeItemTypes"@.len() == 16);
        reveal_strlit("ParentId");
        assert("ParentId"@.len() == 8);
        reveal_strlit("IncludeItemTypes");
        assert("IncludeItemTypes"@.len() == 16);
        assert("IncludeItemTypes"@[0] == 'I' && "ExcludeItemTypes"@[0] == 'E');
        reveal_strlit("Recursive");
        assert("Recursive"@.len() == 9);
        reveal_strlit("SortBy");
        assert("SortBy"@.len() == 6);
        reveal_strlit("SortOrder");
        assert("SortOrder"@.len() == 9);
        reveal_strlit("Limit");
        assert("Limit"@.len() == 5);
        reveal_strlit("StartIndex");
        assert("StartIndex"@.len() == 10);
        reveal_strlit("SearchTerm");
        assert("SearchTerm"@.len() == 10);
        reveal_strlit("UserId");
        assert("UserId"@.len() == 6);
        reveal_strlit("Fields");
        assert("Fields"@.len() == 6);
        reveal_strlit("EnableImages");
        assert("EnableImages"@.len() == 12);
        reveal_strlit("ImageTypeLimit");
        assert("ImageTypeLimit"@.len() == 14);
        reveal_strlit("EnableUserData");
        assert("EnableUserData"@.len() == 14);
        reveal_strlit("EnableTotalRecordCount");
        assert("EnableTotalRecordCount"@.len() == 22);
        reveal_strlit("Genres");
        assert("Genres"@.len() == 6);
        reveal_strlit("Years");
        assert("Years"@.len() == 5);
        reveal_strlit("IsPlayed");
        assert("IsPlayed"@.len() == 8);
        reveal_strlit("IsFavorite");
        assert("IsFavorite"@.len() == 10);
    }
    assert(entries_with(q.query(), "Recursive"@) == (if q.recursive { seq![("Recursive"@, bool_text(true))] } else { Seq::empty() })) by {
        broadcast use lemma_concat_empty;
        lemma_items_query_by_key_part0(q, "Recursive"@);
        lemma_items_query_by_key_part1(q, "Recursive"@);
        lemma_items_query_by_key_part2(q, "Recursive"@);
        lemma_items_query_by_key_part3(q, "Recursive"@);
        reveal_strlit("Recursive");
        assert("Recursive"@.len() == 9);
        reveal_strlit("ParentId");
        assert("ParentId"@.len() == 8);
        reveal_strlit("IncludeItemTypes");
        assert("IncludeItemTypes"@.len() == 16);
        reveal_strlit("ExcludeItemTypes");
        assert("ExcludeItemTypes"@.len() == 16);
        reveal_strlit("SortBy");
        assert("SortBy"@.len() == 6);
        reveal_strlit("SortOrder");
        assert("SortOrder"@.len() == 9);
        assert("SortOrder"@[0] == 'S' && "Recursive"@[0] == 'R');
        reveal_strlit("Limit");
        assert("Limit"@.len() == 5);
        reveal_strlit("StartIndex");
        assert("StartIndex"@.len() == 10);
        reveal_strlit("SearchTerm");
        assert("SearchTerm"@.len() == 10);
        reveal_strlit("UserId");
        assert("UserId"@.len() == 6);
        reveal_strlit("Fields");
        assert("Fields"@.len() == 6);
        reveal_strlit("EnableImages");
        assert("EnableImages"@.len() == 12);
        reveal_strlit("ImageTypeLimit");
        assert("ImageTypeLimit"@.len() == 14);
        reveal_strlit("EnableUserData");
        assert("EnableUserData"@.len() == 14);
        reveal_strlit("EnableTotalRecordCount");
        assert("EnableTotalRecordCount"@.len() == 22);
        reveal_strlit("Genres");
        assert("Genres"@.len() == 6);
        reveal_strlit("Years");
        assert("Years"@.len() == 5);
        reveal_strlit("IsPlayed");
        assert("IsPlayed"@.len() == 8);
        reveal_strlit("IsFavorite");
        assert("IsFavorite"@.len() == 10);
    }
    assert(entries_with(q.query(), "SortBy"@) == (if q.sort_by@.len() > 0 { seq![("SortBy"@, join(texts(q.sort_by@), ","@))] } else { Seq::empty() })) by {
        broadcast use lemma_concat_empty;
        lemma_items_query_by_key_part0(q, "SortBy"@);
        lemma_items_query_by_key_part1(q, "SortBy"@);
        lemma_items_query_by_key_part2(q, "SortBy"@);
        lemma_items_query_by_key_part3(q, "SortBy"@);
        reveal_strlit("SortBy");
        assert("SortBy"@.len() == 6);
        reveal_strlit("ParentId");
        assert("ParentId"@.len() == 8);
        reveal_strlit("IncludeItemTypes");
        assert("IncludeItemTypes"@.len() == 16);
        reveal_strlit("ExcludeItemTypes");
        assert("ExcludeItemTypes"@.len() == 16);
        reveal_strlit("Recursive");
        assert("Recursive"@.len() == 9);
        reveal_strlit("SortOrder");
        assert("SortOrder"@.len() == 9);
        reveal_strlit("Limit");
        assert("Limit"@.len() == 5);
        reveal_strlit("StartIndex");
        assert("StartIndex"@.len() == 10);
        reveal_strlit("SearchTerm");
        assert("SearchTerm"@.len() == 10);
        reveal_strlit("UserId");
        assert("UserId"@.len() == 6);
        assert("UserId"@[0] == 'U' && "SortBy"@[0] == 'S');
        reveal_strlit("Fields");
        assert("Fields"@.len() == 6);
        assert("Fields"@[0] == 'F' && "SortBy"@[0] == 'S');
        reveal_strlit("EnableImages");
        assert("EnableImages"@.len() == 12);
        reveal_strlit("ImageTypeLimit");
        assert("ImageTypeLimit"@.len() == 14);
        reveal_strlit("EnableUserData");
        assert("EnableUserData"@.len() == 14);
        reveal_strlit("EnableTotalRecordCount");
        assert("EnableTotalRecordCount"@.len() == 22);
        reveal_strlit("Genres");
        assert("Genres"@.len() == 6);
        assert("Genres"@[0] == 'G' && "SortBy"@[0] == 'S');
        reveal_strlit("Years");
        assert("Years"@.len() == 5);
        reveal_strlit("IsPlayed");
        assert("IsPlayed"@.len() == 8);
        reveal_strlit("IsFavorite");
        assert("IsFavorite"@.len() == 10);
    }
    assert(entries_with(q.query(), "SortOrder"@) == (seq![("SortOrder"@, q.sort_order.text())])) by {
        broadcast use lemma_concat_empty;
        lemma_items_query_by_key_part0(q, "SortOrder"@);
        lemma_items_query_by_key_part1(q, "SortOrder"@);
        lemma_items_query_by_key_part2(q, "SortOrder"@);
        lemma_items_query_by_key_part3(q, "SortOrder"@);
        reveal_strlit("SortOrder");
        assert("SortOrder"@.len() == 9);
        reveal_strlit("ParentId");
        assert("ParentId"@.len() == 8);
        reveal_strlit("IncludeItemTypes");
        assert("IncludeItemTypes"@.len() == 16);
        reveal_strlit("ExcludeItemTypes");
        assert("ExcludeItemTypes"@.len() == 16);
        reveal_strlit("Recursive");
        assert("Recursive"@.len() == 9);
        assert("Recursive"@[0] == 'R' && "SortOrder"@[0] == 'S');
        reveal_strlit("SortBy");
        assert("SortBy"@.len() == 6);
        reveal_strlit("Limit");
        assert("Limit"@.len() == 5);
        reveal_strlit("StartIndex");
        assert("StartIndex"@.len() == 10);
        reveal_strlit("SearchTerm");
        assert("SearchTerm"@.len() == 10);
        reveal_strlit("UserId");
        assert("UserId"@.len() == 6);
        reveal_strlit("Fields");
        assert("Fields"@.len() == 6);
        reveal_strlit("EnableImages");
        assert("EnableImages"@.len() == 12);
        reveal_strlit("ImageTypeLimit");
        assert("ImageTypeLimit"@.len() == 14);
        reveal_strlit("EnableUserData");
        assert("EnableUserData"@.len() == 14);
        reveal_strlit("EnableTotalRecordCount");
        assert("EnableTotalRecordCount"@.len() == 22);
        reveal_strlit("Genres");
        assert("Genres"@.len() == 6);
        reveal_strlit("Years");
        assert("Years"@.len() == 5);
        reveal_strlit("IsPlayed");
        assert("IsPlayed"@.len() == 8);
        reveal_strlit("IsFavorite");
        assert("IsFavorite"@.len() == 10);
    }
    assert(entries_with(q.query(), "Limit"@) == (match q.limit { Some(v) => seq![("Limit"@, decimal(v as nat))], None => Seq::empty() })) by {
        broadcast use lemma_concat_empty;
        lemma_items_query_by_key_part0(q, "Limit"@);
        lemma_items_query_by_key_part1(q, "Limit"@);
        lemma_items_query_by_key_part2(q, "Limit"@);
        lemma_items_query_by_key_part3(q, "Limit"@);
        reveal_strlit("Limit");
        assert("Limit"@.len() == 5);
        reveal_strlit("ParentId");
        assert("ParentId"@.len() == 8);
        reveal_strlit("IncludeItemTypes");
        assert("IncludeItemTypes"@.len() == 16);
        reveal_strlit("ExcludeItemTypes");
        assert("ExcludeItemTypes"@.len() == 16);
        reveal_strlit("Recursive");
        assert("Recursive"@.len() == 9);
        reveal_strlit("SortBy");
        assert("SortBy"@.len() == 6);
        reveal_strlit("SortOrder");
        assert("SortOrder"@.len() == 9);
        reveal_strlit("StartIndex");
        assert("StartIndex"@.len() == 10);
        reveal_strlit("SearchTerm");
        assert("SearchTerm"@.len() == 10);
        reveal_strlit("UserId");
        assert("UserId"@.len() == 6);
        reveal_strlit("Fields");
        assert("Fields"@.len() == 6);
        reveal_strlit("EnableImages");
        assert("EnableImages"@.len() == 12);
        reveal_strlit("ImageTypeLimit");
        assert("ImageTypeLimit"@.len() == 14);
        reveal_strlit("EnableUserData");
        assert("EnableUserData"@.len() == 14);
        reveal_strlit("EnableTotalRecordCount");
        assert("EnableTotalRecordCount"@.len() == 22);
        reveal_strlit("Genres");
        assert("Genres"@.len() == 6);
        reveal_strlit("Years");
        assert("Years"@.len() == 5);
        assert("Years"@[0] == 'Y' && "Limit"@[0] == 'L');
        reveal_strlit("IsPlayed");
        assert("IsPlayed"@.len() == 8);
        reveal_strlit("IsFavorite");
        assert("IsFavorite"@.len() == 10);
    }
    assert(entries_with(q.query(), "StartIndex"@) == (match q.start_index { Some(v) => seq![("StartIndex"@, decimal(v as nat))], None => Seq::empty() })) by {
        broadcast use lemma_concat_empty;
        lemma_items_query_by_key_part0(q, "StartIndex"@);
        lemma_items_query_by_key_part1(q, "StartIndex"@);
        lemma_items_query_by_key_part2(q, "StartIndex"@);
        lemma_items_query_by_key_part3(q, "StartIndex"@);
        reveal_strlit("StartIndex");
        assert("StartIndex"@.len() == 10);
        reveal_strlit("ParentId");
        assert("ParentId"@.len() == 8);
        reveal_strlit("IncludeItemTypes");
        assert("IncludeItemTypes"@.len() == 16);
        reveal_strlit("ExcludeItemTypes");
        assert("ExcludeItemTypes"@.len() == 16);
        reveal_strlit("Recursive");
        assert("Recursive"@.len() == 9);
        reveal_strlit("SortBy");
        assert("SortBy"@.len() == 6);
        reveal_strlit("SortOrder");
        assert("SortOrder"@.len() == 9);
        reveal_strlit("Limit");
        assert("Limit"@.len() == 5);
        reveal_strlit("SearchTerm");
        assert("SearchTerm"@.len() == 10);
        assert("SearchTerm"@[1] == 'e' && "StartIndex"@[1] == 't');
        reveal_strlit("UserId");
        assert("UserId"@.len() == 6);
        reveal_strlit("Fields");
        assert("Fields"@.len() == 6);
        reveal_strlit("EnableImages");
        assert("EnableImages"@.len() == 12);
        reveal_strlit("ImageTypeLimit");
        assert("ImageTypeLimit"@.len() == 14);
        reveal_strlit("EnableUserData");
        assert("EnableUserData"@.len() == 14);
        reveal_strlit("EnableTotalRecordCount");
        assert("EnableTotalRecordCount"@.len() == 22);
        reveal_strlit("Genres");
        assert("Genres"@.len() == 6);
        reveal_strlit("Years");
        assert("Years"@.len() == 5);
        reveal_strlit("IsPlayed");
        assert("IsPlayed"@.len() == 8);
        reveal_strlit("IsFavorite");
        assert("IsFavorite"@.len() == 10);
        assert("IsFavorite"@[0] == 'I' && "StartIndex"@[0] == 'S');
    }
    assert(entries_with(q.query(), "SearchTerm"@) == (match q.search_term { Some(v) => seq![("SearchTerm"@, v@)], None => Seq::empty() })) by {
        broadcast use lemma_concat_empty;
        lemma_items_query_by_key_part0(q, "SearchTerm"@);
        lemma_items_query_by_key_part1(q, "SearchTerm"@);
        lemma_items_query_by_key_part2(q, "SearchTerm"@);
        lemma_items_query_by_key_part3(q, "SearchTerm"@);
        reveal_strlit("SearchTerm");
        assert("SearchTerm"@.len() == 10);
        reveal_strlit("ParentId");
        assert("ParentId"@.len() == 8);
        reveal_strlit("IncludeItemTypes");
        assert("IncludeItemTypes"@.len() == 16);
        reveal_strlit("ExcludeItemTypes");
        assert("ExcludeItemTypes"@.len() == 16);
        reveal_strlit("Recursive");
        assert("Recursive"@.len() == 9);
        reveal_strlit("SortBy");
        assert("SortBy"@.len() == 6);
        reveal_strlit("SortOrder");
        assert("SortOrder"@.len() == 9);
        reveal_strlit("Limit");
        assert("Limit"@.len() == 5);
        reveal_strlit("StartIndex");
        assert("StartIndex"@.len() == 10);
        assert("StartIndex"@[1] == 't' && "SearchTerm"@[1] == 'e');
        reveal_strlit("UserId");
        assert("UserId"@.len() == 6);
        reveal_strlit("Fields");
        assert("Fields"@.len() == 6);
        reveal_strlit("EnableImages");
        assert("EnableImages"@.len() == 12);
        reveal_strlit("ImageTypeLimit");
        assert("ImageTypeLimit"@.len() == 14);
        reveal_strlit("EnableUserData");
        assert("EnableUserData"@.len() == 14);
        reveal_strlit("EnableTotalRecordCount");
        assert("EnableTotalRecordCount"@.len() == 22);
        reveal_strlit("Genres");
        assert("Genres"@.len() == 6);
        reveal_strlit("Years");
        assert("Years"@.len() == 5);
        reveal_strlit("IsPlayed");
        assert("IsPlayed"@.len() == 8);
        reveal_strlit("IsFavorite");
        assert("IsFavorite"@.len() == 10);
        assert("IsFavorite"@[0] == 'I' && "SearchTerm"@[0] == 'S');
    }
    assert(entries_with(q.query(), "UserId"@) == (match q.user_id { Some(v) => seq![("UserId"@, v@)], None => Seq::empty() })) by {
        broadcast use lemma_concat_empty;
        lemma_items_query_by_key_part0(q, "UserId"@);
        lemma_items_query_by_key_part1(q, "UserId"@);
        lemma_items_query_by_key_part2(q, "UserId"@);
        lemma_items_query_by_key_part3(q, "UserId"@);
        reveal_strlit("UserId");
        assert("UserId"@.len() == 6);
        reveal_strlit("ParentId");
        assert("ParentId"@.len() == 8);
        reveal_strlit("IncludeItemTypes");
        assert("IncludeItemTypes"@.len() == 16);
        reveal_strlit("ExcludeItemTypes");
        assert("ExcludeItemTypes"@.len() == 16);
        reveal_strlit("Recursive");
        assert("Recursive"@.len() == 9);
        reveal_strlit("SortBy");
        assert("SortBy"@.len() == 6);
        assert("SortBy"@[0] == 'S' && "UserId"@[0] == 'U');
        reveal_strlit("SortOrder");
        assert("SortOrder"@.len() == 9);
        reveal_strlit("Limit");
        assert("Limit"@.len() == 5);
        reveal_strlit("StartIndex");
        assert("StartIndex"@.len() == 10);
        reveal_strlit("SearchTerm");
        assert("SearchTerm"@.len() == 10);
        reveal_strlit("Fields");
        assert("Fields"@.len() == 6);
        assert("Fields"@[0] == 'F' && "UserId"@[0] == 'U');
        reveal_strlit("EnableImages");
        assert("EnableImages"@.len() == 12);
        reveal_strlit("ImageTypeLimit");
        assert("ImageTypeLimit"@.len() == 14);
        reveal_strlit("EnableUserData");
        assert("EnableUserData"@.len() == 14);
        reveal_strlit("EnableTotalRecordCount");
        assert("EnableTotalRecordCount"@.len() == 22);
        reveal_strlit("Genres");
        assert("Genres"@.len() == 6);
        assert("Genres"@[0] == 'G' && "UserId"@[0] == 'U');
        reveal_strlit("Years");
        assert("Years"@.len() == 5);
        reveal_strlit("IsPlayed");
        assert("IsPlayed"@.len() == 8);
        reveal_strlit("IsFavorite");
        assert("IsFavorite"@.len() == 10);
    }
    assert(entries_with(q.query(), "Fields"@) == (if q.fields@.len() > 0 { seq![("Fields"@, join(texts(q.fields@), ","@))] } else { Seq::empty() })) by {
        broadcast use lemma_concat_empty;
        lemma_items_query_by_key_part0(q, "Fields"@);
        lemma_items_query_by_key_part1(q, "Fields"@);
        lemma_items_query_by_key_part2(q, "Fields"@);
        lemma_items_query_by_key_part3(q, "Fields"@);
        reveal_strlit("Fields");
        assert("Fields"@.len() == 6);
        reveal_strlit("ParentId");
        assert("ParentId"@.len() == 8);
        reveal_strlit("IncludeItemTypes");
        assert("IncludeItemTypes"@.len() == 16);
        reveal_strlit("ExcludeItemTypes");
        assert("ExcludeItemTypes"@.len() == 16);
        reveal_strlit("Recursive");
        assert("Recursive"@.len() == 9);
        reveal_strlit("SortBy");
        assert("SortBy"@.len() == 6);
        assert("SortBy"@[0] == 'S' && "Fields"@[0] == 'F');
        reveal_strlit("SortOrder");
        assert("SortOrder"@.len() == 9);
        reveal_strlit("Limit");
        assert("Limit"@.len() == 5);
        reveal_strlit("StartIndex");
        assert("StartIndex"@.len() == 10);
        reveal_strlit("SearchTerm");
        assert("SearchTerm"@.len() == 10);
        reveal_strlit("UserId");
        assert("UserId"@.len() == 6);
        assert("UserId"@[0] == 'U' && "Fields"@[0] == 'F');
        reveal_strlit("EnableImages");
        assert("EnableImages"@.len() == 12);
        reveal_strlit("ImageTypeLimit");
        assert("ImageTypeLimit"@.len() == 14);
        reveal_strlit("EnableUserData");
        assert("EnableUserData"@.len() == 14);
        reveal_strlit("EnableTotalRecordCount");
        assert("EnableTotalRecordCount"@.len() == 22);
        reveal_strlit("Genres");
        assert("Genres"@.len() == 6);
        assert("Genres"@[0] == 'G' && "Fields"@[0] == 'F');
        reveal_strlit("Years");
        assert("Years"@.len() == 5);
        reveal_strlit("IsPlayed");
        assert("IsPlayed"@.len() == 8);
        reveal_strlit("IsFavorite");
        assert("IsFavorite"@.len() == 10);
    }
    assert(entries_with(q.query(), "EnableImages"@) == (match q.enable_images { Some(v) => seq![("EnableImages"@, bool_text(v))], None => Seq::empty() })) by {
        broadcast use lemma_concat_empty;
        lemma_items_query_by_key_part0(q, "EnableImages"@);
        lemma_items_query_by_key_part1(q, "EnableImages"@);
        lemma_items_query_by_key_part2(q, "EnableImages"@);
        lemma_items_query_by_key_part3(q, "EnableImages"@);
        reveal_strlit("EnableImages");
        assert("EnableImages"@.len() == 12);
        reveal_strlit("ParentId");
        assert("ParentId"@.len() == 8);
        reveal_strlit("IncludeItemTypes");
        assert("IncludeItemTypes"@.len() == 16);
        reveal_strlit("ExcludeItemTypes");
        assert("ExcludeItemTypes"@.len() == 16);
        reveal_strlit("Recursive");
        assert("Recursive"@.len() == 9);
        reveal_strlit("SortBy");
        assert("SortBy"@.len() == 6);
        reveal_strlit("SortOrder");
        assert("SortOrder"@.len() == 9);
        reveal_strlit("Limit");
        assert("Limit"@.len() == 5);
        reveal_strlit("StartIndex");
        assert("StartIndex"@.len() == 10);
        reveal_strlit("SearchTerm");
        assert("SearchTerm"@.len() == 10);
        reveal_strlit("UserId");
        assert("UserId"@.len() == 6);
        reveal_strlit("Fields");
        assert("Fields"@.len() == 6);
        reveal_strlit("ImageTypeLimit");
        assert("ImageTypeLimit"@.len() == 14);
        reveal_strlit("EnableUserData");
        assert("EnableUserData"@.len() == 14);
        reveal_strlit("EnableTotalRecordCount");
        assert("EnableTotalRecordCount"@.len() == 22);
        reveal_strlit("Genres");
        assert("Genres"@.len() == 6);
        reveal_strlit("Years");
        assert("Years"@.len() == 5);
        reveal_strlit("IsPlayed");
        assert("IsPlayed"@.len() == 8);
        reveal_strlit("IsFavorite");
        assert("IsFavorite"@.len() == 10);
    }
    assert(entries_with(q.query(), "ImageTypeLimit"@) == (match q.image_type_limit { Some(v) => seq![("ImageTypeLimit"@, decimal(v as nat))], None => Seq::empty() })) by {
        broadcast use lemma_concat_empty;
        lemma_items_query_by_key_part0(q, "ImageTypeLimit"@);
        lemma_items_query_by_key_part1(q, "ImageTypeLimit"@);
        lemma_items_query_by_key_part2(q, "ImageTypeLimit"@);
        lemma_items_query_by_key_part3(q, "ImageTypeLimit"@);
        reveal_strlit("ImageTypeLimit");
        assert("ImageTypeLimit"@.len() == 14);
        reveal_strlit("ParentId");
        assert("ParentId"@.len() == 8);
        reveal_strlit("IncludeItemTypes");
        assert("IncludeItemTypes"@.len() == 16);
        reveal_strlit("ExcludeItemTypes");
        assert("ExcludeItemTypes"@.len() == 16);
        reveal_strlit("Recursive");
        assert("Recursive"@.len() == 9);
        reveal_strlit("SortBy");
        assert("SortBy"@.len() == 6);
        reveal_strlit("SortOrder");
        assert("SortOrder"@.len() == 9);
        reveal_strlit("Limit");
        assert("Limit"@.len() == 5);
        reveal_strlit("StartIndex");
        assert("StartIndex"@.len() == 10);
        reveal_strlit("SearchTerm");
        assert("SearchTerm"@.len() == 10);
        reveal_strlit("UserId");
        assert("UserId"@.len() == 6);
        reveal_strlit("Fields");
        assert("Fields"@.len() == 6);
        reveal_strlit("EnableImages");
        assert("EnableImages"@.len() == 12);
        reveal_strlit("EnableUserData");
        assert("EnableUserData"@.len() == 14);
        assert("EnableUserData"@[0] == 'E' && "ImageTypeLimit"@[0] == 'I');
        reveal_strlit("EnableTotalRecordCount");
        assert("EnableTotalRecordCount"@.len() == 22);
        reveal_strlit("Genres");
        assert("Genres"@.len() == 6);
        reveal_strlit("Years");
        assert("Years"@.len() == 5);
        reveal_strlit("IsPlayed");
        assert("IsPlayed"@.len() == 8);
        reveal_strlit("IsFavorite");
        assert("IsFavorite"@.len() == 10);
    }
    assert(entries_with(q.query(), "EnableUserData"@) == (match q.enable_user_data { Some(v) => seq![("EnableUserData"@, bool_text(v))], None => Seq::empty() })) by {
        broadcast use lemma_concat_empty;
        lemma_items_query_by_key_part0(q, "EnableUserData"@);
        lemma_items_query_by_key_part1(q, "EnableUserData"@);
        lemma_items_query_by_key_part2(q, "EnableUserData"@);
        lemma_items_query_by_key_part3(q, "EnableUserData"@);
        reveal_strlit("EnableUserData");
        assert("EnableUserData"@.len() == 14);
        reveal_strlit("ParentId");
        assert("ParentId"@.len() == 8);
        reveal_strlit("IncludeItemTypes");
        assert("IncludeItemTypes"@.len() == 16);
        reveal_strlit("ExcludeItemTypes");
        assert("ExcludeItemTypes"@.len() == 16);
        reveal_strlit("Recursive");
        assert("Recursive"@.len() == 9);
        reveal_strlit("SortBy");
        assert("SortBy"@.len() == 6);
        reveal_strlit("SortOrder");
        assert("SortOrder"@.len() == 9);
        reveal_strlit("Limit");
        assert("Limit"@.len() == 5);
        reveal_strlit("StartIndex");
        assert("StartIndex"@.len() == 10);
        reveal_strlit("SearchTerm");
        assert("SearchTerm"@.len() == 10);
        reveal_strlit("UserId");
        assert("UserId"@.len() == 6);
        reveal_strlit("Fields");
        assert("Fields"@.len() == 6);
        reveal_strlit("EnableImages");
        assert("EnableImages"@.len() == 12);
        reveal_strlit("ImageTypeLimit");
        assert("ImageTypeLimit"@.len() == 14);
        assert("ImageTypeLimit"@[0] == 'I' && "EnableUserData"@[0] == 'E');
        reveal_strlit("EnableTotalRecordCount");
        assert("EnableTotalRecordCount"@.len() == 22);
        reveal_strlit("Genres");
        assert("Genres"@.len() == 6);
        reveal_strlit("Years");
        assert("Years"@.len() == 5);
        reveal_strlit("IsPlayed");
        assert("IsPlayed"@.len() == 8);
        reveal_strlit("IsFavorite");
        assert("IsFavorite"@.len() == 10);
    }
    assert(entries_with(q.query(), "EnableTotalRecordCount"@) == (match q.enable_total_record_count { Some(v) => seq![("EnableTotalRecordCount"@, bool_text(v))], None => Seq::empty() })) by {
        broadcast use lemma_concat_empty;
        lemma_items_query_by_key_part0(q, "EnableTotalRecordCount"@);
        lemma_items_query_by_key_part1(q, "EnableTotalRecordCount"@);
        lemma_items_query_by_key_part2(q, "EnableTotalRecordCount"@);
        lemma_items_query_by_key_part3(q, "EnableTotalRecordCount"@);
        reveal_strlit("EnableTotalRecordCount");
        assert("EnableTotalRecordCount"@.len() == 22);
        reveal_strlit("ParentId");
        assert("ParentId"@.len() == 8);
        reveal_strlit("IncludeItemTypes");
        assert("IncludeItemTypes"@.len() == 16);
        reveal_strlit("ExcludeItemTypes");
        assert("ExcludeItemTypes"@.len() == 16);
        reveal_strlit("Recursive");
        assert("Recursive"@.len() == 9);
        reveal_strlit("SortBy");
        assert("SortBy"@.len() == 6);
        reveal_strlit("SortOrder");
        assert("SortOrder"@.len() == 9);
        reveal_strlit("Limit");
        assert("Limit"@.len() == 5);
        reveal_strlit("StartIndex");
        assert("StartIndex"@.len() == 10);
        reveal_strlit("SearchTerm");
        assert("SearchTerm"@.len() == 10);
        reveal_strlit("UserId");
        assert("UserId"@.len() == 6);
        reveal_strlit("Fields");
        assert("Fields"@.len() == 6);
        reveal_strlit("EnableImages");
        assert("EnableImages"@.len() == 12);
        reveal_strlit("ImageTypeLimit");
        assert("ImageTypeLimit"@.len() == 14);
        reveal_strlit("EnableUserData");
        assert("EnableUserData"@.len() == 14);
        reveal_strlit("Genres");
        assert("Genres"@.len() == 6);
        reveal_strlit("Years");
        assert("Years"@.len() == 5);
        reveal_strlit("IsPlayed");
        assert("IsPlayed"@.len() == 8);
        reveal_strlit("IsFavorite");
        assert("IsFavorite"@.len() == 10);
    }
    assert(entries_with(q.query(), "Genres"@) == (if q.genres@.len() > 0 { seq![("Genres"@, join(texts(q.genres@), ","@))] } else { Seq::empty() })) by {
        broadcast use lemma_concat_empty;
        lemma_items_query_by_key_part0(q, "Genres"@);
        lemma_items_query_by_key_part1(q, "Genres"@);
        lemma_items_query_by_key_part2(q, "Genres"@);
        lemma_items_query_by_key_part3(q, "Genres"@);
        reveal_strlit("Genres");
        assert("Genres"@.len() == 6);
        reveal_strlit("ParentId");
        assert("ParentId"@.len() == 8);
        reveal_strlit("IncludeItemTypes");
        assert("IncludeItemTypes"@.len() == 16);
        reveal_strlit("ExcludeItemTypes");
        assert("ExcludeItemTypes"@.len() == 16);
        reveal_strlit("Recursive");
        assert("Recursive"@.len() == 9);
        reveal_strlit("SortBy");
        assert("SortBy"@.len() == 6);
        assert("SortBy"@[0] == 'S' && "Genres"@[0] == 'G');
        reveal_strlit("SortOrder");
        assert("SortOrder"@.len() == 9);
        reveal_strlit("Limit");
        assert("Limit"@.len() == 5);
        reveal_strlit("StartIndex");
        assert("StartIndex"@.len() == 10);
        reveal_strlit("SearchTerm");
        assert("SearchTerm"@.len() == 10);
        reveal_strlit("UserId");
        assert("UserId"@.len() == 6);
        assert("UserId"@[0] == 'U' && "Genres"@[0] == 'G');
        reveal_strlit("Fields");
        assert("Fields"@.len() == 6);
        assert("Fields"@[0] == 'F' && "Genres"@[0] == 'G');
        reveal_strlit("EnableImages");
        assert("EnableImages"@.len() == 12);
        reveal_strlit("ImageTypeLimit");
        assert("ImageTypeLimit"@.len() == 14);
        reveal_strlit("EnableUserData");
        assert("EnableUserData"@.len() == 14);
        reveal_strlit("EnableTotalRecordCount");
        assert("EnableTotalRecordCount"@.len() == 22);
        reveal_strlit("Years");
        assert("Years"@.len() == 5);
        reveal_strlit("IsPlayed");
        assert("IsPlayed"@.len() == 8);
        reveal_strlit("IsFavorite");
        assert("IsFavorite"@.len() == 10);
    }
    assert(entries_with(q.query(), "Years"@) == (if q.years@.len() > 0 { seq![("Years"@, join(u32_texts(q.years@), ","@))] } else { Seq::empty() })) by {
        broadcast use lemma_concat_empty;
        lemma_items_query_by_key_part0(q, "Years"@);
        lemma_items_query_by_key_part1(q, "Years"@);
        lemma_items_query_by_key_part2(q, "Years"@);
        lemma_items_query_by_key_part3(q, "Years"@);
        reveal_strlit("Years");
        assert("Years"@.len() == 5);
        reveal_strlit("ParentId");
        assert("ParentId"@.len() == 8);
        reveal_strlit("IncludeItemTypes");
        assert("IncludeItemTypes"@.len() == 16);
        reveal_strlit("ExcludeItemTypes");
        assert("ExcludeItemTypes"@.len() == 16);
        reveal_strlit("Recursive");
        assert("Recursive"@.len() == 9);
        reveal_strlit("SortBy");
        assert("SortBy"@.len() == 6);
        reveal_strlit("SortOrder");
        assert("SortOrder"@.len() == 9);
        reveal_strlit("Limit");
        assert("Limit"@.len() == 5);
        assert("Limit"@[0] == 'L' && "Years"@[0] == 'Y');
        reveal_strlit("StartIndex");
        assert("StartIndex"@.len() == 10);
        reveal_strlit("SearchTerm");
        assert("SearchTerm"@.len() == 10);
        reveal_strlit("UserId");
        assert("UserId"@.len() == 6);
        reveal_strlit("Fields");
        assert("Fields"@.len() == 6);
        reveal_strlit("EnableImages");
        assert("EnableImages"@.len() == 12);
        reveal_strlit("ImageTypeLimit");
        assert("ImageTypeLimit"@.len() == 14);
        reveal_strlit("EnableUserData");
        assert("EnableUserData"@.len() == 14);
        reveal_strlit("EnableTotalRecordCount");
        assert("EnableTotalRecordCount"@.len() == 22);
        reveal_strlit("Genres");
        assert("Genres"@.len() == 6);
        reveal_strlit("IsPlayed");
        assert("IsPlayed"@.len() == 8);
        reveal_strlit("IsFavorite");
        assert("IsFavorite"@.len() == 10);
    }
    assert(entries_with(q.query(), "IsPlayed"@) == (match q.is_played { Some(v) => seq![("IsPlayed"@, bool_text(v))], None => Seq::empty() })) by {
        broadcast use lemma_concat_empty;
        lemma_items_query_by_key_part0(q, "IsPlayed"@);
        lemma_items_query_by_key_part1(q, "IsPlayed"@);
        lemma_items_query_by_key_part2(q, "IsPlayed"@);
        lemma_items_query_by_key_part3(q, "IsPlayed"@);
        reveal_strlit("IsPlayed");
        assert("IsPlayed"@.len() == 8);
        reveal_strlit("ParentId");
        assert("ParentId"@.len() == 8);
        assert("ParentId"@[0] == 'P' && "IsPlayed"@[0] == 'I');
        reveal_strlit("IncludeItemTypes");
        assert("IncludeItemTypes"@.len() == 16);
        reveal_strlit("ExcludeItemTypes");
        assert("ExcludeItemTypes"@.len() == 16);
        reveal_strlit("Recursive");
        assert("Recursive"@.len() == 9);
        reveal_strlit("SortBy");
        assert("SortBy"@.len() == 6);
        reveal_strlit("SortOrder");
        assert("SortOrder"@.len() == 9);
        reveal_strlit("Limit");
        assert("Limit"@.len() == 5);
        reveal_strlit("StartIndex");
        assert("StartIndex"@.len() == 10);
        reveal_strlit("SearchTerm");
        assert("SearchTerm"@.len() == 10);
        reveal_strlit("UserId");
        assert("UserId"@.len() == 6);
        reveal_strlit("Fields");
        assert("Fields"@.len() == 6);
        reveal_strlit("EnableImages");
        assert("EnableImages"@.len() == 12);
        reveal_strlit("ImageTypeLimit");
        assert("ImageTypeLimit"@.len() == 14);
        reveal_strlit("EnableUserData");
        assert("EnableUserData"@.len() == 14);
        reveal_strlit("EnableTotalRecordCount");
        assert("EnableTotalRecordCount"@.len() == 22);
        reveal_strlit("Genres");
        assert("Genres"@.len() == 6);
        reveal_strlit("Years");
        assert("Years"@.len() == 5);
        reveal_strlit("IsFavorite");
        assert("IsFavorite"@.len() == 10);
    }
    assert(entries_with(q.query(), "IsFavorite"@) == (match q.is_favorite { Some(v) => seq![("IsFavorite"@, bool_text(v))], None => Seq::empty() })) by {
        broadcast use lemma_concat_empty;
        lemma_items_query_by_key_part0(q, "IsFavorite"@);
        lemma_items_query_by_key_part1(q, "IsFavorite"@);
        lemma_items_query_by_key_part2(q, "IsFavorite"@);
        lemma_items_query_by_key_part3(q, "IsFavorite"@);
        reveal_strlit("IsFavorite");
        assert("IsFavorite"@.len() == 10);
        reveal_strlit("ParentId");
        assert("ParentId"@.len() == 8);
        reveal_strlit("IncludeItemTypes");
        assert("IncludeItemTypes"@.len() == 16);
        reveal_strlit("ExcludeItemTypes");
        assert("ExcludeItemTypes"@.len() == 16);
        reveal_strlit("Recursive");
        assert("Recursive"@.len() == 9);
        reveal_strlit("SortBy");
        assert("SortBy"@.len() == 6);
        reveal_strlit("SortOrder");
        assert("SortOrder"@.len() == 9);
        reveal_strlit("Limit");
        assert("Limit"@.len() == 5);
        reveal_strlit("StartIndex");
        assert("StartIndex"@.len() == 10);
        assert("StartIndex"@[0] == 'S' && "IsFavorite"@[0] == 'I');
        reveal_strlit("SearchTerm");
        assert("SearchTerm"@.len() == 10);
        assert("SearchTerm"@[0] == 'S' && "IsFavorite"@[0] == 'I');
        reveal_strlit("UserId");
        assert("UserId"@.len() == 6);
        reveal_strlit("Fields");
        assert("Fields"@.len() == 6);
        reveal_strlit("EnableImages");
        assert("EnableImages"@.len() == 12);
        reveal_strlit("ImageTypeLimit");
        assert("ImageTypeLimit"@.len() == 14);
        reveal_strlit("EnableUserData");
        assert("EnableUserData"@.len() == 14);
        reveal_strlit("EnableTotalRecordCount");
        assert("EnableTotalRecordCount"@.len() == 22);
        reveal_strlit("Genres");
        assert("Genres"@.len() == 6);
        reveal_strlit("Years");
        assert("Years"@.len() == 5);
        reveal_strlit("IsPlayed");
        assert("IsPlayed"@.len() == 8);
    }
}



proof fn lemma_search_query_by_key_part0(q: SearchQuery, k: Seq<char>)
    ensures
        same_entries(entries_with(seq![("SearchTerm"@, q.search_term@)] + list_entry("IncludeItemTypes"@, texts(q.include_item_types@)) + list_entry("ExcludeItemTypes"@, texts(q.exclude_item_types@)) + opt_entry("ParentId"@, opt_text(q.parent_id)) + seq![("IncludePeople"@, bool_text(q.include_people))] + seq![("IncludeMedia"@, bool_text(q.include_media))], k), (if "SearchTerm"@ == k { seq![("SearchTerm"@, q.search_term@)] } else { Seq::empty() })
            + (if "IncludeItemTypes"@ == k { list_entry("IncludeItemTypes"@, texts(q.include_item_types@)) } else { Seq::empty() })
            + (if "ExcludeItemTypes"@ == k { list_entry("ExcludeItemTypes"@, texts(q.exclude_item_types@)) } else { Seq::empty() })
            + (if "ParentId"@ == k { opt_entry("ParentId"@, opt_text(q.parent_id)) } else { Seq::empty() })
            + (if "IncludePeople"@ == k { seq![("IncludePeople"@, bool_text(q.include_people))] } else { Seq::empty() })
            + (if "IncludeMedia"@ == k { seq![("IncludeMedia"@, bool_text(q.include_media))] } else { Seq::empty() })),
{
    lemma_entries_with_single(("SearchTerm"@, q.search_term@), k);
    lemma_entries_with_list("IncludeItemTypes"@, texts(q.include_item_types@), k);
    lemma_entries_with_list("ExcludeItemTypes"@, texts(q.exclude_item_types@), k);
    lemma_entries_with_opt("ParentId"@, opt_text(q.parent_id), k);
    lemma_entries_with_single(("IncludePeople"@, bool_text(q.include_people)), k);
    lemma_entries_with_single(("IncludeMedia"@, bool_text(q.include_media)), k);
    lemma_entries_with_concat(seq![("SearchTerm"@, q.search_term@)], list_entry("IncludeItemTypes"@, texts(q.include_item_types@)), k);
    lemma_entries_with_concat(seq![("SearchTerm"@, q.search_term@)] + list_entry("IncludeItemTypes"@, texts(q.include_item_types@)), list_entry("ExcludeItemTypes"@, texts(q.exclude_item_types@)), k);
    lemma_entries_with_concat(seq![("SearchTerm"@, q.search_term@)] + list_entry("IncludeItemTypes"@, texts(q.include_item_types@)) + list_entry("ExcludeItemTypes"@, texts(q.exclude_item_types@)), opt_entry("ParentId"@, opt_text(q.parent_id)), k);
    lemma_entries_with_concat(seq![("SearchTerm"@, q.search_term@)] + list_entry("IncludeItemTypes"@, texts(q.include_item_types@)) + list_entry("ExcludeItemTypes"@, texts(q.exclude_item_types@)) + opt_entry("ParentId"@, opt_text(q.parent_id)), seq![("IncludePeople"@, bool_text(q.include_people))], k);
    lemma_entries_with_concat(seq![("SearchTerm"@, q.search_term@)] + list_entry("IncludeItemTypes"@, texts(q.include_item_types@)) + list_entry("ExcludeItemTypes"@, texts(q.exclude_item_types@)) + opt_entry("ParentId"@, opt_text(q.parent_id)) + seq![("IncludePeople"@, bool_text(q.include_people))], seq![("IncludeMedia"@, bool_text(q.include_media))], k);
}

proof fn lemma_search_query_by_key_part1(q: SearchQuery, k: Seq<char>)
    ensures
        same_entries(entries_with(seq![("SearchTerm"@, q.search_term@)] + list_entry("IncludeItemTypes"@, texts(q.include_item_types@)) + list_entry("ExcludeItemTypes"@, texts(q.exclude_item_types@)) + opt_entry("ParentId"@, opt_text(q.parent_id)) + seq![("IncludePeople"@, bool_text(q.include_people))] + seq![("IncludeMedia"@, bool_text(q.include_media))] + seq![("IncludeGenres"@, bool_text(q.include_genres))] + seq![("IncludeStudios"@, bool_text(q.include_studios))] + seq![("IncludeArtists"@, bool_text(q.include_artists))] + opt_entry("Limit"@, opt_u32_text(q.limit)) + opt_entry("UserId"@, opt_text(q.user_id)), k), entries_with(seq![("SearchTerm"@, q.search_term@)] + list_entry("IncludeItemTypes"@, texts(q.include_item_types@)) + list_entry("ExcludeItemTypes"@, texts(q.exclude_item_types@)) + opt_entry("ParentId"@, opt_text(q.parent_id)) + seq![("IncludePeople"@, bool_text(q.include_people))] + seq![("IncludeMedia"@, bool_text(q.include_media))], k)
            + (if "IncludeGenres"@ == k { seq![("IncludeGenres"@, bool_text(q.include_genres))] } else { Seq::empty() })
            + (if "IncludeStudios"@ == k { seq![("IncludeStudios"@, bool_text(q.include_studios))] } else { Seq::empty() })
            + (if "IncludeArtists"@ == k { seq![("IncludeArtists"@, bool_text(q.include_artists))] } else { Seq::empty() })
            + (if "Limit"@ == k { opt_entry("Limit"@, opt_u32_text(q.limit)) } else { Seq::empty() })
            + (if "UserId"@ == k { opt_entry("UserId"@, opt_text(q.user_id)) } else { Seq::empty() })),
{
    lemma_entries_with_single(("IncludeGenres"@, bool_text(q.include_genres)), k);
    lemma_entries_with_single(("IncludeStudios"@, bool_text(q.include_studios)), k);
    lemma_entries_with_single(("IncludeArtists"@, bool_text(q.include_artists)), k);
    lemma_entries_with_opt("Limit"@, opt_u32_text(q.limit), k);
    lemma_entries_with_opt("UserId"@, opt_text(q.user_id), k);
    lemma_entries_with_concat(seq![("SearchTerm"@, q.search_term@)] + list_entry("IncludeItemTypes"@, texts(q.include_item_types@)) + list_entry("ExcludeItemTypes"@, texts(q.exclude_item_types@)) + opt_entry("ParentId"@, opt_text(q.parent_id)) + seq![("IncludePeople"@, bool_text(q.include_people))] + seq![("IncludeMedia"@, bool_text(q.include_media))], seq![("IncludeGenres"@, bool_text(q.include_genres))], k);
    lemma_entries_with_concat(seq![("SearchTerm"@, q.search_term@)] + list_entry("IncludeItemTypes"@, texts(q.include_item_types@)) + list_entry("ExcludeItemTypes"@, texts(q.exclude_item_types@)) + opt_entry("ParentId"@, opt_text(q.parent_id)) + seq![("IncludePeople"@, bool_text(q.include_people))] + seq![("IncludeMedia"@, bool_text(q.include_media))] + seq![("IncludeGenres"@, bool_text(q.include_genres))], seq![("IncludeStudios"@, bool_text(q.include_studios))], k);
    lemma_entries_with_concat(seq![("SearchTerm"@, q.search_term@)] + list_entry("IncludeItemTypes"@, texts(q.include_item_types@)) + list_entry("ExcludeItemTypes"@, texts(q.exclude_item_types@)) + opt_entry("ParentId"@, opt_text(q.parent_id)) + seq![("IncludePeople"@, bool_text(q.include_people))] + seq![("IncludeMedia"@, bool_text(q.include_media))] + seq![("IncludeGenres"@, bool_text(q.include_genres))] + seq![("IncludeStudios"@, bool_text(q.include_studios))], seq![("IncludeArtists"@, bool_text(q.include_artists))], k);
    lemma_entries_with_concat(seq![("SearchTerm"@, q.search_term@)] + list_entry("IncludeItemTypes"@, texts(q.include_item_types@)) + list_entry("ExcludeItemTypes"@, texts(q.exclude_item_types@)) + opt_entry("ParentId"@, opt_text(q.parent_id)) + seq![("IncludePeople"@, bool_text(q.include_people))] + seq![("IncludeMedia"@, bool_text(q.include_media))] + seq![("IncludeGenres"@, bool_text(q.include_genres))] + seq![("IncludeStudios"@, bool_text(q.include_studios))] + seq![("IncludeArtists"@, bool_text(q.include_artists))], opt_entry("Limit"@, opt_u32_text(q.limit)), k);
    lemma_entries_with_concat(seq![("SearchTerm"@, q.search_term@)] + list_entry("IncludeItemTypes"@, texts(q.include_item_types@)) + list_entry("ExcludeItemTypes"@, texts(q.exclude_item_types@)) + opt_entry("ParentId"@, opt_text(q.parent_id)) + seq![("IncludePeople"@, bool_text(q.include_people))] + seq![("IncludeMedia"@, bool_text(q.include_media))] + seq![("IncludeGenres"@, bool_text(q.include_genres))] + seq![("IncludeStudios"@, bool_text(q.include_studios))] + seq![("IncludeArtists"@, bool_text(q.include_artists))] + opt_entry("Limit"@, opt_u32_text(q.limit)), opt_entry("UserId"@, opt_text(q.user_id)), k);
}

/// A search gives its term, and every option of it that is set, exactly one parameter under its
/// Jellyfin key, holding its value (lists joined with commas); an option that is not set gives none.
#[verifier::rlimit(100)]
pub proof fn law_search_query_entries(q: SearchQuery)
    ensures
        entries_with(q.query(), "SearchTerm"@) == (seq![("SearchTerm"@, q.search_term@)]),
        entries_with(q.query(), "IncludeItemTypes"@) == (if q.include_item_types@.len() > 0 { seq![("IncludeItemTypes"@, join(texts(q.include_item_types@), ","@))] } else { Seq::empty() }),
        entries_with(q.query(), "ExcludeItemTypes"@) == (if q.exclude_item_types@.len() > 0 { seq![("ExcludeItemTypes"@, join(texts(q.exclude_item_types@), ","@))] } else { Seq::empty() }),
        entries_with(q.query(), "ParentId"@) == (match q.parent_id { Some(v) => seq![("ParentId"@, v@)], None => Seq::empty() }),
        entries_with(q.query(), "IncludePeople"@) == (seq![("IncludePeople"@, bool_text(q.include_people))]),
        entries_with(q.query(), "IncludeMedia"@) == (seq![("IncludeMedia"@, bool_text(q.include_media))]),
        entries_with(q.query(), "IncludeGenres"@) == (seq![("IncludeGenres"@, bool_text(q.include_genres))]),
        entries_with(q.query(), "IncludeStudios"@) == (seq![("IncludeStudios"@, bool_text(q.include_studios))]),
        entries_with(q.query(), "IncludeArtists"@) == (seq![("IncludeArtists"@, bool_text(q.include_artists))]),
        entries_with(q.query(), "Limit"@) == (match q.limit { Some(v) => seq![("Limit"@, decimal(v as nat))], None => Seq::empty() }),
        entries_with(q.query(), "UserId"@) == (match q.user_id { Some(v) => seq![("UserId"@, v@)], None => Seq::empty() }),
{
    assert(entries_with(q.query(), "SearchTerm"@) == (seq![("SearchTerm"@, q.search_term@)])) by {
        broadcast use lemma_concat_empty;
        lemma_search_query_by_key_part0(q, "SearchTerm"@);
        lemma_search_query_by_key_part1(q, "SearchTerm"@);
        reveal_strlit("SearchTerm");
        assert("SearchTerm"@.len() == 10);
        reveal_strlit("IncludeItemTypes");
        assert("IncludeItemTypes"@.len() == 16);
        reveal_strlit("ExcludeItemTypes");
        assert("ExcludeItemTypes"@.len() == 16);
        reveal_strlit("ParentId");
        assert("ParentId"@.len() == 8);
        reveal_strlit("IncludePeople");
        assert("IncludePeople"@.len() == 13);
        reveal_strlit("IncludeMedia");
        assert("IncludeMedia"@.len() == 12);
        reveal_strlit("IncludeGenres");
        assert("IncludeGenres"@.len() == 13);
        reveal_strlit("IncludeStudios");
        assert("IncludeStudios"@.len() == 14);
        reveal_strlit("IncludeArtists");
        assert("IncludeArtists"@.len() == 14);
        reveal_strlit("Limit");
        assert("Limit"@.len() == 5);
        reveal_strlit("UserId");
        assert("UserId"@.len() == 6);
    }
    assert(entries_with(q.query(), "IncludeItemTypes"@) == (if q.include_item_types@.len() > 0 { seq![("IncludeItemTypes"@, join(texts(q.include_item_types@), ","@))] } else { Seq::empty() })) by {
        broadcast use lemma_concat_empty;
        lemma_search_query_by_key_part0(q, "IncludeItemTypes"@);
        lemma_search_query_by_key_part1(q, "IncludeItemTypes"@);
        reveal_strlit("IncludeItemTypes");
        assert("IncludeItemTypes"@.len() == 16);
        reveal_strlit("SearchTerm");
        assert("SearchTerm"@.len() == 10);
        reveal_strlit("ExcludeItemTypes");
        assert("ExcludeItemTypes"@.len() == 16);
        assert("ExcludeItemTypes"@[0] == 'E' && "IncludeItemTypes"@[0] == 'I');
        reveal_strlit("ParentId");
        assert("ParentId"@.len() == 8);
        reveal_strlit("IncludePeople");
        assert("IncludePeople"@.len() == 13);
        reveal_strlit("IncludeMedia");
        assert("IncludeMedia"@.len() == 12);
        reveal_strlit("IncludeGenres");
        assert("IncludeGenres"@.len() == 13);
        reveal_strlit("IncludeStudios");
        assert("IncludeStudios"@.len() == 14);
        reveal_strlit("IncludeArtists");
        assert("IncludeArtists"@.len() == 14);
        reveal_strlit("Limit");
        assert("Limit"@.len() == 5);
        reveal_strlit("UserId");
        assert("UserId"@.len() == 6);
    }
    assert(entries_with(q.query(), "ExcludeItemTypes"@) == (if q.exclude_item_types@.len() > 0 { seq![("ExcludeItemTypes"@, join(texts(q.exclude_item_types@), ","@))] } else { Seq::empty() })) by {
        broadcast use lemma_concat_empty;
        lemma_search_query_by_key_part0(q, "ExcludeItemTypes"@);
        lemma_search_query_by_key_part1(q, "ExcludeItemTypes"@);
        reveal_strlit("ExcludeItemTypes");
        assert("ExcludeItemTypes"@.len() == 16);
        reveal_strlit("SearchTerm");
        assert("SearchTerm"@.len() == 10);
        reveal_strlit("IncludeItemTypes");
        assert("IncludeItemTypes"@.len() == 16);
        assert("IncludeItemTypes"@[0] == 'I' && "ExcludeItemTypes"@[0] == 'E');
        reveal_strlit("ParentId");
        assert("ParentId"@.len() == 8);
        reveal_strlit("IncludePeople");
        assert("IncludePeople"@.len() == 13);
        reveal_strlit("IncludeMedia");
        assert("IncludeMedia"@.len() == 12);
        reveal_strlit("IncludeGenres");
        assert("IncludeGenres"@.len() == 13);
        reveal_strlit("IncludeStudios");
        assert("IncludeStudios"@.len() == 14);
        reveal_strlit("IncludeArtists");
        assert("IncludeArtists"@.len() == 14);
        reveal_strlit("Limit");
        assert("Limit"@.len() == 5);
        reveal_strlit("UserId");
        assert("UserId"@.len() == 6);
    }
    assert(entries_with(q.query(), "ParentId"@) == (match q.parent_id { Some(v) => seq![("ParentId"@, v@)], None => Seq::empty() })) by {
        broadcast use lemma_concat_empty;
        lemma_search_query_by_key_part0(q, "ParentId"@);
        lemma_search_query_by_key_part1(q, "ParentId"@);
        reveal_strlit("ParentId");
        assert("ParentId"@.len() == 8);
        reveal_strlit("SearchTerm");
        assert("SearchTerm"@.len() == 10);
        reveal_strlit("IncludeItemTypes");
        assert("IncludeItemTypes"@.len() == 16);
        reveal_strlit("ExcludeItemTypes");
        assert("ExcludeItemTypes"@.len() == 16);
        reveal_strlit("IncludePeople");
        assert("IncludePeople"@.len() == 13);
        reveal_strlit("IncludeMedia");
        assert("IncludeMedia"@.len() == 12);
        reveal_strlit("IncludeGenres");
        assert("IncludeGenres"@.len() == 13);
        reveal_strlit("IncludeStudios");
        assert("IncludeStudios"@.len() == 14);
        reveal_strlit("IncludeArtists");
        assert("IncludeArtists"@.len() == 14);
        reveal_strlit("Limit");
        assert("Limit"@.len() == 5);
        reveal_strlit("UserId");
        assert("UserId"@.len() == 6);
    }
    assert(entries_with(q.query(), "IncludePeople"@) == (seq![("IncludePeople"@, bool_text(q.include_people))])) by {
        broadcast use lemma_concat_empty;
        lemma_search_query_by_key_part0(q, "IncludePeople"@);
        lemma_search_query_by_key_part1(q, "IncludePeople"@);
        reveal_strlit("IncludePeople");
        assert("IncludePeople"@.len() == 13);
        reveal_strlit("SearchTerm");
        assert("SearchTerm"@.len() == 10);
        reveal_strlit("IncludeItemTypes");
        assert("IncludeItemTypes"@.len() == 16);
        reveal_strlit("ExcludeItemTypes");
        assert("ExcludeItemTypes"@.len() == 16);
        reveal_strlit("ParentId");
        assert("ParentId"@.len() == 8);
        reveal_strlit("IncludeMedia");
        assert("IncludeMedia"@.len() == 12);
        reveal_strlit("IncludeGenres");
        assert("IncludeGenres"@.len() == 13);
        assert("IncludeGenres"@[7] == 'G' && "IncludePeople"@[7] == 'P');
        reveal_strlit("IncludeStudios");
        assert("IncludeStudios"@.len() == 14);
        reveal_strlit("IncludeArtists");
        assert("IncludeArtists"@.len() == 14);
        reveal_strlit("Limit");
        assert("Limit"@.len() == 5);
        reveal_strlit("UserId");
        assert("UserId"@.len() == 6);
    }
    assert(entries_with(q.query(), "IncludeMedia"@) == (seq![("IncludeMedia"@, bool_text(q.include_media))])) by {
        broadcast use lemma_concat_empty;
        lemma_search_query_by_key_part0(q, "IncludeMedia"@);
        lemma_search_query_by_key_part1(q, "IncludeMedia"@);
        reveal_strlit("IncludeMedia");
        assert("IncludeMedia"@.len() == 12);
        reveal_strlit("SearchTerm");
        assert("SearchTerm"@.len() == 10);
        reveal_strlit("IncludeItemTypes");
        assert("IncludeItemTypes"@.len() == 16);
        reveal_strlit("ExcludeItemTypes");
        assert("ExcludeItemTypes"@.len() == 16);
        reveal_strlit("ParentId");
        assert("ParentId"@.len() == 8);
        reveal_strlit("IncludePeople");
        assert("IncludePeople"@.len() == 13);
        reveal_strlit("IncludeGenres");
        assert("IncludeGenres"@.len() == 13);
        reveal_strlit("IncludeStudios");
        assert("IncludeStudios"@.len() == 14);
        reveal_strlit("IncludeArtists");
        assert("IncludeArtists"@.len() == 14);
        reveal_strlit("Limit");
        assert("Limit"@.len() == 5);
        reveal_strlit("UserId");
        assert("UserId"@.len() == 6);
    }
    assert(entries_with(q.query(), "IncludeGenres"@) == (seq![("IncludeGenres"@, bool_text(q.include_genres))])) by {
        broadcast use lemma_concat_empty;
        lemma_search_query_by_key_part0(q, "IncludeGenres"@);
        lemma_search_query_by_key_part1(q, "IncludeGenres"@);
        reveal_strlit("IncludeGenres");
        assert("IncludeGenres"@.len() == 13);
        reveal_strlit("SearchTerm");
        assert("SearchTerm"@.len() == 10);
        reveal_strlit("IncludeItemTypes");
        assert("IncludeItemTypes"@.len() == 16);
        reveal_strlit("ExcludeItemTypes");
        assert("ExcludeItemTypes"@.len() == 16);
        reveal_strlit("ParentId");
        assert("ParentId"@.len() == 8);
        reveal_strlit("IncludePeople");
        assert("IncludePeople"@.len() == 13);
        assert("IncludePeople"@[7] == 'P' && "IncludeGenres"@[7] == 'G');
        reveal_strlit("IncludeMedia");
        assert("IncludeMedia"@.len() == 12);
        reveal_strlit("IncludeStudios");
        assert("IncludeStudios"@.len() == 14);
        reveal_strlit("IncludeArtists");
        assert("IncludeArtists"@.len() == 14);
        reveal_strlit("Limit");
        assert("Limit"@.len() == 5);
        reveal_strlit("UserId");
        assert("UserId"@.len() == 6);
    }
    assert(entries_with(q.query(), "IncludeStudios"@) == (seq![("IncludeStudios"@, bool_text(q.include_studios))])) by {
        broadcast use lemma_concat_empty;
        lemma_search_query_by_key_part0(q, "IncludeStudios"@);
        lemma_search_query_by_key_part1(q, "IncludeStudios"@);
        reveal_strlit("IncludeStudios");
        assert("IncludeStudios"@.len() == 14);
        reveal_strlit("SearchTerm");
        assert("SearchTerm"@.len() == 10);
        reveal_strlit("IncludeItemTypes");
        assert("IncludeItemTypes"@.len() == 16);
        reveal_strlit("ExcludeItemTypes");
        assert("ExcludeItemTypes"@.len() == 16);
        reveal_strlit("ParentId");
        assert("ParentId"@.len() == 8);
        reveal_strlit("IncludePeople");
        assert("IncludePeople"@.len() == 13);
        reveal_strlit("IncludeMedia");
        assert("IncludeMedia"@.len() == 12);
        reveal_strlit("IncludeGenres");
        assert("IncludeGenres"@.len() == 13);
        reveal_strlit("IncludeArtists");
        assert("IncludeArtists"@.len() == 14);
        assert("IncludeArtists"@[7] == 'A' && "IncludeStudios"@[7] == 'S');
        reveal_strlit("Limit");
        assert("Limit"@.len() == 5);
        reveal_strlit("UserId");
        assert("UserId"@.len() == 6);
    }
    assert(entries_with(q.query(), "IncludeArtists"@) == (seq![("IncludeArtists"@, bool_text(q.include_artists))])) by {
        broadcast use lemma_concat_empty;
        lemma_search_query_by_key_part0(q, "IncludeArtists"@);
        lemma_search_query_by_key_part1(q, "IncludeArtists"@);
        reveal_strlit("IncludeArtists");
        assert("IncludeArtists"@.len() == 14);
        reveal_strlit("SearchTerm");
        assert("SearchTerm"@.len() == 10);
        reveal_strlit("IncludeItemTypes");
        assert("IncludeItemTypes"@.len() == 16);
        reveal_strlit("ExcludeItemTypes");
        assert("ExcludeItemTypes"@.len() == 16);
        reveal_strlit("ParentId");
        assert("ParentId"@.len() == 8);
        reveal_strlit("IncludePeople");
        assert("IncludePeople"@.len() == 13);
        reveal_strlit("IncludeMedia");
        assert("IncludeMedia"@.len() == 12);
        reveal_strlit("IncludeGenres");
        assert("IncludeGenres"@.len() == 13);
        reveal_strlit("IncludeStudios");
        assert("IncludeStudios"@.len() == 14);
        assert("IncludeStudios"@[7] == 'S' && "IncludeArtists"@[7] == 'A');
        reveal_strlit("Limit");
        assert("Limit"@.len() == 5);
        reveal_strlit("UserId");
        assert("UserId"@.len() == 6);
    }
    assert(entries_with(q.query(), "Limit"@) == (match q.limit { Some(v) => seq![("Limit"@, decimal(v as nat))], None => Seq::empty() })) by {
        broadcast use lemma_concat_empty;
        lemma_search_query_by_key_part0(q, "Limit"@);
        lemma_search_query_by_key_part1(q, "Limit"@);
        reveal_strlit("Limit");
        assert("Limit"@.len() == 5);
        reveal_strlit("SearchTerm");
        assert("SearchTerm"@.len() == 10);
        reveal_strlit("IncludeItemTypes");
        assert("IncludeItemTypes"@.len() == 16);
        reveal_strlit("ExcludeItemTypes");
        assert("ExcludeItemTypes"@.len() == 16);
        reveal_strlit("ParentId");
        assert("ParentId"@.len() == 8);
        reveal_strlit("IncludePeople");
        assert("IncludePeople"@.len() == 13);
        reveal_strlit("IncludeMedia");
        assert("IncludeMedia"@.len() == 12);
        reveal_strlit("IncludeGenres");
        assert("IncludeGenres"@.len() == 13);
        reveal_strlit("IncludeStudios");
        assert("IncludeStudios"@.len() == 14);
        reveal_strlit("IncludeArtists");
        assert("IncludeArtists"@.len() == 14);
        reveal_strlit("UserId");
        assert("UserId"@.len() == 6);
    }
    assert(entries_with(q.query(), "UserId"@) == (match q.user_id { Some(v) => seq![("UserId"@, v@)], None => Seq::empty() })) by {
        broadcast use lemma_concat_empty;
        lemma_search_query_by_key_part0(q, "UserId"@);
        lemma_search_query_by_key_part1(q, "UserId"@);
        reveal_strlit("UserId");
        assert("UserId"@.len() == 6);
        reveal_strlit("SearchTerm");
        assert("SearchTerm"@.len() == 10);
        reveal_strlit("IncludeItemTypes");
        assert("IncludeItemTypes"@.len() == 16);
        reveal_strlit("ExcludeItemTypes");
        assert("ExcludeItemTypes"@.len() == 16);
        reveal_strlit("ParentId");
        assert("ParentId"@.len() == 8);
        reveal_strlit("IncludePeople");
        assert("IncludePeople"@.len() == 13);
        reveal_strlit("IncludeMedia");
        assert("IncludeMedia"@.len() == 12);
        reveal_strlit("IncludeGenres");
        assert("IncludeGenres"@.len() == 13);
        reveal_strlit("IncludeStudios");
        assert("IncludeStudios"@.len() == 14);
        reveal_strlit("IncludeArtists");
        assert("IncludeArtists"@.len() == 14);
        reveal_strlit("Limit");
        assert("Limit"@.len() == 5);
    }
}


proof fn lemma_stream_params_by_key_part0(q: StreamParams, k: Seq<char>)
    ensures
        same_entries(entries_with(opt_entry("MaxStreamingBitrate"@, opt_u32_text(q.max_streaming_bitrate)) + opt_entry("Container"@, opt_text(q.container)) + opt_entry("AudioCodec"@, opt_text(q.audio_codec)) + opt_entry("VideoCodec"@, opt_text(q.video_codec)) + opt_entry("AudioBitrate"@, opt_u32_text(q.audio_bitrate)) + opt_entry("VideoBitrate"@, opt_u32_text(q.video_bitrate)), k), (if "MaxStreamingBitrate"@ == k { opt_entry("MaxStreamingBitrate"@, opt_u32_text(q.max_streaming_bitrate)) } else { Seq::empty() })
            + (if "Container"@ == k { opt_entry("Container"@, opt_text(q.container)) } else { Seq::empty() })
            + (if "AudioCodec"@ == k { opt_entry("AudioCodec"@, opt_text(q.audio_codec)) } else { Seq::empty() })
            + (if "VideoCodec"@ == k { opt_entry("VideoCodec"@, opt_text(q.video_codec)) } else { Seq::empty() })
            + (if "AudioBitrate"@ == k { opt_entry("AudioBitrate"@, opt_u32_text(q.audio_bitrate)) } else { Seq::empty() })
            + (if "VideoBitrate"@ == k { opt_entry("VideoBitrate"@, opt_u32_text(q.video_bitrate)) } else { Seq::empty() })),
{
    lemma_entries_with_opt("MaxStreamingBitrate"@, opt_u32_text(q.max_streaming_bitrate), k);
    lemma_entries_with_opt("Container"@, opt_text(q.container), k);
    lemma_entries_with_opt("AudioCodec"@, opt_text(q.audio_codec), k);
    lemma_entries_with_opt("VideoCodec"@, opt_text(q.video_codec), k);
    lemma_entries_with_opt("AudioBitrate"@, opt_u32_text(q.audio_bitrate), k);
    lemma_entries_with_opt("VideoBitrate"@, opt_u32_text(q.video_bitrate), k);
    lemma_entries_with_concat(opt_entry("MaxStreamingBitrate"@, opt_u32_text(q.max_streaming_bitrate)), opt_entry("Container"@, opt_text(q.container)), k);
    lemma_entries_with_concat(opt_entry("MaxStreamingBitrate"@, opt_u32_text(q.max_streaming_bitrate)) + opt_entry("Container"@, opt_text(q.container)), opt_entry("AudioCodec"@, opt_text(q.audio_codec)), k);
    lemma_entries_with_concat(opt_entry("MaxStreamingBitrate"@, opt_u32_text(q.max_streaming_bitrate)) + opt_entry("Container"@, opt_text(q.container)) + opt_entry("AudioCodec"@, opt_text(q.audio_codec)), opt_entry("VideoCodec"@, opt_text(q.video_codec)), k);
    lemma_entries_with_concat(opt_entry("MaxStreamingBitrate"@, opt_u32_text(q.max_streaming_bitrate)) + opt_entry("Container"@, opt_text(q.container)) + opt_entry("AudioCodec"@, opt_text(q.audio_codec)) + opt_entry("VideoCodec"@, opt_text(q.video_codec)), opt_entry("AudioBitrate"@, opt_u32_text(q.audio_bitrate)), k);
    lemma_entries_with_concat(opt_entry("MaxStreamingBitrate"@, opt_u32_text(q.max_streaming_bitrate)) + opt_entry("Container"@, opt_text(q.container)) + opt_entry("AudioCodec"@, opt_text(q.audio_codec)) + opt_entry("VideoCodec"@, opt_text(q.video_codec)) + opt_entry("AudioBitrate"@, opt_u32_text(q.audio_bitrate)), opt_entry("VideoBitrate"@, opt_u32_text(q.video_bitrate)), k);
}

proof fn lemma_stream_params_by_key_part1(q: StreamParams, k: Seq<char>)
    ensures
        same_entries(entries_with(opt_entry("MaxStreamingBitrate"@, opt_u32_text(q.max_streaming_bitrate)) + opt_entry("Container"@, opt_text(q.container)) + opt_entry("AudioCodec"@, opt_text(q.audio_codec)) + opt_entry("VideoCodec"@, opt_text(q.video_codec)) + opt_entry("AudioBitrate"@, opt_u32_text(q.audio_bitrate)) + opt_entry("VideoBitrate"@, opt_u32_text(q.video_bitrate)) + opt_entry("MaxAudioChannels"@, opt_u32_text(q.max_audio_channels)) + opt_entry("MaxWidth"@, opt_u32_text(q.max_width)) + opt_entry("MaxHeight"@, opt_u32_text(q.max_height)) + opt_entry("StartTimeTicks"@, opt_i64_text(q.start_time_ticks)) + opt_entry("DeviceId"@, opt_text(q.device_id)) + opt_entry("MediaSourceId"@, opt_text(q.media_source_id)), k), entries_with(opt_entry("MaxStreamingBitrate"@, opt_u32_text(q.max_streaming_bitrate)) + opt_entry("Container"@, opt_text(q.container)) + opt_entry("AudioCodec"@, opt_text(q.audio_codec)) + opt_entry("VideoCodec"@, opt_text(q.video_codec)) + opt_entry("AudioBitrate"@, opt_u32_text(q.audio_bitrate)) + opt_entry("VideoBitrate"@, opt_u32_text(q.video_bitrate)), k)
            + (if "MaxAudioChannels"@ == k { opt_entry("MaxAudioChannels"@, opt_u32_text(q.max_audio_channels)) } else { Seq::empty() })
            + (if "MaxWidth"@ == k { opt_entry("MaxWidth"@, opt_u32_text(q.max_width)) } else { Seq::empty() })
            + (if "MaxHeight"@ == k { opt_entry("MaxHeight"@, opt_u32_text(q.max_height)) } else { Seq::empty() })
            + (if "StartTimeTicks"@ == k { opt_entry("StartTimeTicks"@, opt_i64_text(q.start_time_ticks)) } else { Seq::empty() })
            + (if "DeviceId"@ == k { opt_entry("DeviceId"@, opt_text(q.device_id)) } else { Seq::empty() })
            + (if "MediaSourceId"@ == k { opt_entry("MediaSourceId"@, opt_text(q.media_source_id)) } else { Seq::empty() })),
{
    lemma_entries_with_opt("MaxAudioChannels"@, opt_u32_text(q.max_audio_channels), k);
    lemma_entries_with_opt("MaxWidth"@, opt_u32_text(q.max_width), k);
    lemma_entries_with_opt("MaxHeight"@, opt_u32_text(q.max_height), k);
    lemma_entries_with_opt("StartTimeTicks"@, opt_i64_text(q.start_time_ticks), k);
    lemma_entries_with_opt("DeviceId"@, opt_text(q.device_id), k);
    lemma_entries_with_opt("MediaSourceId"@, opt_text(q.media_source_id), k);
    lemma_entries_with_concat(opt_entry("MaxStreamingBitrate"@, opt_u32_text(q.max_streaming_bitrate)) + opt_entry("Container"@, opt_text(q.container)) + opt_entry("AudioCodec"@, opt_text(q.audio_codec)) + opt_entry("VideoCodec"@, opt_text(q.video_codec)) + opt_entry("AudioBitrate"@, opt_u32_text(q.audio_bitrate)) + opt_entry("VideoBitrate"@, opt_u32_text(q.video_bitrate)), opt_entry("MaxAudioChannels"@, opt_u32_text(q.max_audio_channels)), k);
    lemma_entries_with_concat(opt_entry("MaxStreamingBitrate"@, opt_u32_text(q.max_streaming_bitrate)) + opt_entry("Container"@, opt_text(q.container)) + opt_entry("AudioCodec"@, opt_text(q.audio_codec)) + opt_entry("VideoCodec"@, opt_text(q.video_codec)) + opt_entry("AudioBitrate"@, opt_u32_text(q.audio_bitrate)) + opt_entry("VideoBitrate"@, opt_u32_text(q.video_bitrate)) + opt_entry("MaxAudioChannels"@, opt_u32_text(q.max_audio_channels)), opt_entry("MaxWidth"@, opt_u32_text(q.max_width)), k);
    lemma_entries_with_concat(opt_entry("MaxStreamingBitrate"@, opt_u32_text(q.max_streaming_bitrate)) + opt_entry("Container"@, opt_text(q.container)) + opt_entry("AudioCodec"@, opt_text(q.audio_codec)) + opt_entry("VideoCodec"@, opt_text(q.video_codec)) + opt_entry("AudioBitrate"@, opt_u32_text(q.audio_bitrate)) + opt_entry("VideoBitrate"@, opt_u32_text(q.video_bitrate)) + opt_entry("MaxAudioChannels"@, opt_u32_text(q.max_audio_channels)) + opt_entry("MaxWidth"@, opt_u32_text(q.max_width)), opt_entry("MaxHeight"@, opt_u32_text(q.max_height)), k);
    lemma_entries_with_concat(opt_entry("MaxStreamingBitrate"@, opt_u32_text(q.max_streaming_bitrate)) + opt_entry("Container"@, opt_text(q.container)) + opt_entry("AudioCodec"@, opt_text(q.audio_codec)) + opt_entry("VideoCodec"@, opt_text(q.video_codec)) + opt_entry("AudioBitrate"@, opt_u32_text(q.audio_bitrate)) + opt_entry("VideoBitrate"@, opt_u32_text(q.video_bitrate)) + opt_entry("MaxAudioChannels"@, opt_u32_text(q.max_audio_channels)) + opt_entry("MaxWidth"@, opt_u32_text(q.max_width)) + opt_entry("MaxHeight"@, opt_u32_text(q.max_height)), opt_entry("StartTimeTicks"@, opt_i64_text(q.start_time_ticks)), k);
    lemma_entries_with_concat(opt_entry("MaxStreamingBitrate"@, opt_u32_text(q.max_streaming_bitrate)) + opt_entry("Container"@, opt_text(q.container)) + opt_entry("AudioCodec"@, opt_text(q.audio_codec)) + opt_entry("VideoCodec"@, opt_text(q.video_codec)) + opt_entry("AudioBitrate"@, opt_u32_text(q.audio_bitrate)) + opt_entry("VideoBitrate"@, opt_u32_text(q.video_bitrate)) + opt_entry("MaxAudioChannels"@, opt_u32_text(q.max_audio_channels)) + opt_entry("MaxWidth"@, opt_u32_text(q.max_width)) + opt_entry("MaxHeight"@, opt_u32_text(q.max_height)) + opt_entry("StartTimeTicks"@, opt_i64_text(q.start_time_ticks)), opt_entry("DeviceId"@, opt_text(q.device_id)), k);
    lemma_entries_with_concat(opt_entry("MaxStreamingBitrate"@, opt_u32_text(q.max_streaming_bitrate)) + opt_entry("Container"@, opt_text(q.container)) + opt_entry("AudioCodec"@, opt_text(q.audio_codec)) + opt_entry("VideoCodec"@, opt_text(q.video_codec)) + opt_entry("AudioBitrate"@, opt_u32_text(q.audio_bitrate)) + opt_entry("VideoBitrate"@, opt_u32_text(q.video_bitrate)) + opt_entry("MaxAudioChannels"@, opt_u32_text(q.max_audio_channels)) + opt_entry("MaxWidth"@, opt_u32_text(q.max_width)) + opt_entry("MaxHeight"@, opt_u32_text(q.max_height)) + opt_entry("StartTimeTicks"@, opt_i64_text(q.start_time_ticks)) + opt_entry("DeviceId"@, opt_text(q.device_id)), opt_entry("MediaSourceId"@, opt_text(q.media_source_id)), k);
}

proof fn lemma_stream_params_by_key_part2(q: StreamParams, k: Seq<char>)
    ensures
        same_entries(entries_with(opt_entry("MaxStreamingBitrate"@, opt_u32_text(q.max_streaming_bitrate)) + opt_entry("Container"@, opt_text(q.container)) + opt_entry("AudioCodec"@, opt_text(q.audio_codec)) + opt_entry("VideoCodec"@, opt_text(q.video_codec)) + opt_entry("AudioBitrate"@, opt_u32_text(q.audio_bitrate)) + opt_entry("VideoBitrate"@, opt_u32_text(q.video_bitrate)) + opt_entry("MaxAudioChannels"@, opt_u32_text(q.max_audio_channels)) + opt_entry("MaxWidth"@, opt_u32_text(q.max_width)) + opt_entry("MaxHeight"@, opt_u32_text(q.max_height)) + opt_entry("StartTimeTicks"@, opt_i64_text(q.start_time_ticks)) + opt_entry("DeviceId"@, opt_text(q.device_id)) + opt_entry("MediaSourceId"@, opt_text(q.media_source_id)) + opt_entry("PlaySessionId"@, opt_text(q.play_session_id)) + opt_entry("AudioStreamIndex"@, opt_i32_text(q.audio_stream_index)) + opt_entry("VideoStreamIndex"@, opt_i32_text(q.video_stream_index)) + opt_entry("SubtitleStreamIndex"@, opt_i32_text(q.subtitle_stream_index)) + opt_entry("EnableDirectPlay"@, opt_bool_text(q.enable_direct_play)) + opt_entry("EnableDirectStream"@, opt_bool_text(q.enable_direct_stream)), k), entries_with(opt_entry("MaxStreamingBitrate"@, opt_u32_text(q.max_streaming_bitrate)) + opt_entry("Container"@, opt_text(q.container)) + opt_entry("AudioCodec"@, opt_text(q.audio_codec)) + opt_entry("VideoCodec"@, opt_text(q.video_codec)) + opt_entry("AudioBitrate"@, opt_u32_text(q.audio_bitrate)) + opt_entry("VideoBitrate"@, opt_u32_text(q.video_bitrate)) + opt_entry("MaxAudioChannels"@, opt_u32_text(q.max_audio_channels)) + opt_entry("MaxWidth"@, opt_u32_text(q.max_width)) + opt_entry("MaxHeight"@, opt_u32_text(q.max_height)) + opt_entry("StartTimeTicks"@, opt_i64_text(q.start_time_ticks)) + opt_entry("DeviceId"@, opt_text(q.device_id)) + opt_entry("MediaSourceId"@, opt_text(q.media_source_id)), k)
            + (if "PlaySessionId"@ == k { opt_entry("PlaySessionId"@, opt_text(q.play_session_id)) } else { Seq::empty() })
            + (if "AudioStreamIndex"@ == k { opt_entry("AudioStreamIndex"@, opt_i32_text(q.audio_stream_index)) } else { Seq::empty() })
            + (if "VideoStreamIndex"@ == k { opt_entry("VideoStreamIndex"@, opt_i32_text(q.video_stream_index)) } else { Seq::empty() })
            + (if "SubtitleStreamIndex"@ == k { opt_entry("SubtitleStreamIndex"@, opt_i32_text(q.subtitle_stream_index)) } else { Seq::empty() })
            + (if "EnableDirectPlay"@ == k { opt_entry("EnableDirectPlay"@, opt_bool_text(q.enable_direct_play)) } else { Seq::empty() })
            + (if "EnableDirectStream"@ == k { opt_entry("EnableDirectStream"@, opt_bool_text(q.enable_direct_stream)) } else { Seq::empty() })),
{
    lemma_entries_with_opt("PlaySessionId"@, opt_text(q.play_session_id), k);
    lemma_entries_with_opt("AudioStreamIndex"@, opt_i32_text(q.audio_stream_index), k);
    lemma_entries_with_opt("VideoStreamIndex"@, opt_i32_text(q.video_stream_index), k);
    lemma_entries_with_opt("SubtitleStreamIndex"@, opt_i32_text(q.subtitle_stream_index), k);
    lemma_entries_with_opt("EnableDirectPlay"@, opt_bool_text(q.enable_direct_play), k);
    lemma_entries_with_opt("EnableDirectStream"@, opt_bool_text(q.enable_direct_stream), k);
    lemma_entries_with_concat(opt_entry("MaxStreamingBitrate"@, opt_u32_text(q.max_streaming_bitrate)) + opt_entry("Container"@, opt_text(q.container)) + opt_entry("AudioCodec"@, opt_text(q.audio_codec)) + opt_entry("VideoCodec"@, opt_text(q.video_codec)) + opt_entry("AudioBitrate"@, opt_u32_text(q.audio_bitrate)) + opt_entry("VideoBitrate"@, opt_u32_text(q.video_bitrate)) + opt_entry("MaxAudioChannels"@, opt_u32_text(q.max_audio_channels)) + opt_entry("MaxWidth"@, opt_u32_text(q.max_width)) + opt_entry("MaxHeight"@, opt_u32_text(q.max_height)) + opt_entry("StartTimeTicks"@, opt_i64_text(q.start_time_ticks)) + opt_entry("DeviceId"@, opt_text(q.device_id)) + opt_entry("MediaSourceId"@, opt_text(q.media_source_id)), opt_entry("PlaySessionId"@, opt_text(q.play_session_id)), k);
    lemma_entries_with_concat(opt_entry("MaxStreamingBitrate"@, opt_u32_text(q.max_streaming_bitrate)) + opt_entry("Container"@, opt_text(q.container)) + opt_entry("AudioCodec"@, opt_text(q.audio_codec)) + opt_entry("VideoCodec"@, opt_text(q.video_codec)) + opt_entry("AudioBitrate"@, opt_u32_text(q.audio_bitrate)) + opt_entry("VideoBitrate"@, opt_u32_text(q.video_bitrate)) + opt_entry("MaxAudioChannels"@, opt_u32_text(q.max_audio_channels)) + opt_entry("MaxWidth"@, opt_u32_text(q.max_width)) + opt_entry("MaxHeight"@, opt_u32_text(q.max_height)) + opt_entry("StartTimeTicks"@, opt_i64_text(q.start_time_ticks)) + opt_entry("DeviceId"@, opt_text(q.device_id)) + opt_entry("MediaSourceId"@, opt_text(q.media_source_id)) + opt_entry("PlaySessionId"@, opt_text(q.play_session_id)), opt_entry("AudioStreamIndex"@, opt_i32_text(q.audio_stream_index)), k);
    lemma_entries_with_concat(opt_entry("MaxStreamingBitrate"@, opt_u32_text(q.max_streaming_bitrate)) + opt_entry("Container"@, opt_text(q.container)) + opt_entry("AudioCodec"@, opt_text(q.audio_codec)) + opt_entry("VideoCodec"@, opt_text(q.video_codec)) + opt_entry("AudioBitrate"@, opt_u32_text(q.audio_bitrate)) + opt_entry("VideoBitrate"@, opt_u32_text(q.video_bitrate)) + opt_entry("MaxAudioChannels"@, opt_u32_text(q.max_audio_channels)) + opt_entry("MaxWidth"@, opt_u32_text(q.max_width)) + opt_entry("MaxHeight"@, opt_u32_text(q.max_height)) + opt_entry("StartTimeTicks"@, opt_i64_text(q.start_time_ticks)) + opt_entry("DeviceId"@, opt_text(q.device_id)) + opt_entry("MediaSourceId"@, opt_text(q.media_source_id)) + opt_entry("PlaySessionId"@, opt_text(q.play_session_id)) + opt_entry("AudioStreamIndex"@, opt_i32_text(q.audio_stream_index)), opt_entry("VideoStreamIndex"@, opt_i32_text(q.video_stream_index)), k);
    lemma_entries_with_concat(opt_entry("MaxStreamingBitrate"@, opt_u32_text(q.max_streaming_bitrate)) + opt_entry("Container"@, opt_text(q.container)) + opt_entry("AudioCodec"@, opt_text(q.audio_codec)) + opt_entry("VideoCodec"@, opt_text(q.video_codec)) + opt_entry("AudioBitrate"@, opt_u32_text(q.audio_bitrate)) + opt_entry("VideoBitrate"@, opt_u32_text(q.video_bitrate)) + opt_entry("MaxAudioChannels"@, opt_u32_text(q.max_audio_channels)) + opt_entry("MaxWidth"@, opt_u32_text(q.max_width)) + opt_entry("MaxHeight"@, opt_u32_text(q.max_height)) + opt_entry("StartTimeTicks"@, opt_i64_text(q.start_time_ticks)) + opt_entry("DeviceId"@, opt_text(q.device_id)) + opt_entry("MediaSourceId"@, opt_text(q.media_source_id)) + opt_entry("PlaySessionId"@, opt_text(q.play_session_id)) + opt_entry("AudioStreamIndex"@, opt_i32_text(q.audio_stream_index)) + opt_entry("VideoStreamIndex"@, opt_i32_text(q.video_stream_index)), opt_entry("SubtitleStreamIndex"@, opt_i32_text(q.subtitle_stream_index)), k);
    lemma_entries_with_concat(opt_entry("MaxStreamingBitrate"@, opt_u32_text(q.max_streaming_bitrate)) + opt_entry("Container"@, opt_text(q.container)) + opt_entry("AudioCodec"@, opt_text(q.audio_codec)) + opt_entry("VideoCodec"@, opt_text(q.video_codec)) + opt_entry("AudioBitrate"@, opt_u32_text(q.audio_bitrate)) + opt_entry("VideoBitrate"@, opt_u32_text(q.video_bitrate)) + opt_entry("MaxAudioChannels"@, opt_u32_text(q.max_audio_channels)) + opt_entry("MaxWidth"@, opt_u32_text(q.max_width)) + opt_entry("MaxHeight"@, opt_u32_text(q.max_height)) + opt_entry("StartTimeTicks"@, opt_i64_text(q.start_time_ticks)) + opt_entry("DeviceId"@, opt_text(q.device_id)) + opt_entry("MediaSourceId"@, opt_text(q.media_source_id)) + opt_entry("PlaySessionId"@, opt_text(q.play_session_id)) + opt_entry("AudioStreamIndex"@, opt_i32_text(q.audio_stream_index)) + opt_entry("VideoStreamIndex"@, opt_i32_text(q.video_stream_index)) + opt_entry("SubtitleStreamIndex"@, opt_i32_text(q.subtitle_stream_index)), opt_entry("EnableDirectPlay"@, opt_bool_text(q.enable_direct_play)), k);
    lemma_entries_with_concat(opt_entry("MaxStreamingBitrate"@, opt_u32_text(q.max_streaming_bitrate)) + opt_entry("Container"@, opt_text(q.container)) + opt_entry("AudioCodec"@, opt_text(q.audio_codec)) + opt_entry("VideoCodec"@, opt_text(q.video_codec)) + opt_entry("AudioBitrate"@, opt_u32_text(q.audio_bitrate)) + opt_entry("VideoBitrate"@, opt_u32_text(q.video_bitrate)) + opt_entry("MaxAudioChannels"@, opt_u32_text(q.max_audio_channels)) + opt_entry("MaxWidth"@, opt_u32_text(q.max_width)) + opt_entry("MaxHeight"@, opt_u32_text(q.max_height)) + opt_entry("StartTimeTicks"@, opt_i64_text(q.start_time_ticks)) + opt_entry("DeviceId"@, opt_text(q.device_id)) + opt_entry("MediaSourceId"@, opt_text(q.media_source_id)) + opt_entry("PlaySessionId"@, opt_text(q.play_session_id)) + opt_entry("AudioStreamIndex"@, opt_i32_text(q.audio_stream_index)) + opt_entry("VideoStreamIndex"@, opt_i32_text(q.video_stream_index)) + opt_entry("SubtitleStreamIndex"@, opt_i32_text(q.subtitle_stream_index)) + opt_entry("EnableDirectPlay"@, opt_bool_text(q.enable_direct_play)), opt_entry("EnableDirectStream"@, opt_bool_text(q.enable_direct_stream)), k);
}

proof fn lemma_stream_params_by_key_part3(q: StreamParams, k: Seq<char>)
    ensures
        same_entries(entries_with(opt_entry("MaxStreamingBitrate"@, opt_u32_text(q.max_streaming_bitrate)) + opt_entry("Container"@, opt_text(q.container)) + opt_entry("AudioCodec"@, opt_text(q.audio_codec)) + opt_entry("VideoCodec"@, opt_text(q.video_codec)) + opt_entry("AudioBitrate"@, opt_u32_text(q.audio_bitrate)) + opt_entry("VideoBitrate"@, opt_u32_text(q.video_bitrate)) + opt_entry("MaxAudioChannels"@, opt_u32_text(q.max_audio_channels)) + opt_entry("MaxWidth"@, opt_u32_text(q.max_width)) + opt_entry("MaxHeight"@, opt_u32_text(q.max_height)) + opt_entry("StartTimeTicks"@, opt_i64_text(q.start_time_ticks)) + opt_entry("DeviceId"@, opt_text(q.device_id)) + opt_entry("MediaSourceId"@, opt_text(q.media_source_id)) + opt_entry("PlaySessionId"@, opt_text(q.play_session_id)) + opt_entry("AudioStreamIndex"@, opt_i32_text(q.audio_stream_index)) + opt_entry("VideoStreamIndex"@, opt_i32_text(q.video_stream_index)) + opt_entry("SubtitleStreamIndex"@, opt_i32_text(q.subtitle_stream_index)) + opt_entry("EnableDirectPlay"@, opt_bool_text(q.enable_direct_play)) + opt_entry("EnableDirectStream"@, opt_bool_text(q.enable_direct_stream)) + opt_entry("EnableTranscoding"@, opt_bool_text(q.enable_transcoding)), k), entries_with(opt_entry("MaxStreamingBitrate"@, opt_u32_text(q.max_streaming_bitrate)) + opt_entry("Container"@, opt_text(q.container)) + opt_entry("AudioCodec"@, opt_text(q.audio_codec)) + opt_entry("VideoCodec"@, opt_text(q.video_codec)) + opt_entry("AudioBitrate"@, opt_u32_text(q.audio_bitrate)) + opt_entry("VideoBitrate"@, opt_u32_text(q.video_bitrate)) + opt_entry("MaxAudioChannels"@, opt_u32_text(q.max_audio_channels)) + opt_entry("MaxWidth"@, opt_u32_text(q.max_width)) + opt_entry("MaxHeight"@, opt_u32_text(q.max_height)) + opt_entry("StartTimeTicks"@, opt_i64_text(q.start_time_ticks)) + opt_entry("DeviceId"@, opt_text(q.device_id)) + opt_entry("MediaSourceId"@, opt_text(q.media_source_id)) + opt_entry("PlaySessionId"@, opt_text(q.play_session_id)) + opt_entry("AudioStreamIndex"@, opt_i32_text(q.audio_stream_index)) + opt_entry("VideoStreamIndex"@, opt_i32_text(q.video_stream_index)) + opt_entry("SubtitleStreamIndex"@, opt_i32_text(q.subtitle_stream_index)) + opt_entry("EnableDirectPlay"@, opt_bool_text(q.enable_direct_play)) + opt_entry("EnableDirectStream"@, opt_bool_text(q.enable_direct_stream)), k)
            + (if "EnableTranscoding"@ == k { opt_entry("EnableTranscoding"@, opt_bool_text(q.enable_transcoding)) } else { Seq::empty() })),
{
    lemma_entries_with_opt("EnableTranscoding"@, opt_bool_text(q.enable_transcoding), k);
    lemma_entries_with_concat(opt_entry("MaxStreamingBitrate"@, opt_u32_text(q.max_streaming_bitrate)) + opt_entry("Container"@, opt_text(q.container)) + opt_entry("AudioCodec"@, opt_text(q.audio_codec)) + opt_entry("VideoCodec"@, opt_text(q.video_codec)) + opt_entry("AudioBitrate"@, opt_u32_text(q.audio_bitrate)) + opt_entry("VideoBitrate"@, opt_u32_text(q.video_bitrate)) + opt_entry("MaxAudioChannels"@, opt_u32_text(q.max_audio_channels)) + opt_entry("MaxWidth"@, opt_u32_text(q.max_width)) + opt_entry("MaxHeight"@, opt_u32_text(q.max_height)) + opt_entry("StartTimeTicks"@, opt_i64_text(q.start_time_ticks)) + opt_entry("DeviceId"@, opt_text(q.device_id)) + opt_entry("MediaSourceId"@, opt_text(q.media_source_id)) + opt_entry("PlaySessionId"@, opt_text(q.play_session_id)) + opt_entry("AudioStreamIndex"@, opt_i32_text(q.audio_stream_index)) + opt_entry("VideoStreamIndex"@, opt_i32_text(q.video_stream_index)) + opt_entry("SubtitleStreamIndex"@, opt_i32_text(q.subtitle_stream_index)) + opt_entry("EnableDirectPlay"@, opt_bool_text(q.enable_direct_play)) + opt_entry("EnableDirectStream"@, opt_bool_text(q.enable_direct_stream)), opt_entry("EnableTranscoding"@, opt_bool_text(q.enable_transcoding)), k);
}

proof fn lemma_stream_params_by_key_key0(q: StreamParams)
    ensures
        entries_with(q.fixed_query(), "MaxStreamingBitrate"@) == (match q.max_streaming_bitrate { Some(v) => seq![("MaxStreamingBitrate"@, decimal(v as nat))], None => Seq::empty() }),
{
    assert(entries_with(q.fixed_query(), "MaxStreamingBitrate"@) == (match q.max_streaming_bitrate { Some(v) => seq![("MaxStreamingBitrate"@, decimal(v as nat))], None => Seq::empty() })) by {
        broadcast use lemma_concat_empty;
        lemma_stream_params_by_key_part0(q, "MaxStreamingBitrate"@);
        lemma_stream_params_by_key_part1(q, "MaxStreamingBitrate"@);
        lemma_stream_params_by_key_part2(q, "MaxStreamingBitrate"@);
        lemma_stream_params_by_key_part3(q, "MaxStreamingBitrate"@);
        reveal_strlit("MaxStreamingBitrate");
        assert("MaxStreamingBitrate"@.len() == 19);
        reveal_strlit("Container");
        assert("Container"@.len() == 9);
        reveal_strlit("AudioCodec");
        assert("AudioCodec"@.len() == 10);
        reveal_strlit("VideoCodec");
        assert("VideoCodec"@.len() == 10);
        reveal_strlit("AudioBitrate");
        assert("AudioBitrate"@.len() == 12);
        reveal_strlit("VideoBitrate");
        assert("VideoBitrate"@.len() == 12);
        reveal_strlit("MaxAudioChannels");
        assert("MaxAudioChannels"@.len() == 16);
        reveal_strlit("MaxWidth");
        assert("MaxWidth"@.len() == 8);
        reveal_strlit("MaxHeight");
        assert("MaxHeight"@.len() == 9);
        reveal_strlit("StartTimeTicks");
        assert("StartTimeTicks"@.len() == 14);
        reveal_strlit("DeviceId");
        assert("DeviceId"@.len() == 8);
        reveal_strlit("MediaSourceId");
        assert("MediaSourceId"@.len() == 13);
        reveal_strlit("PlaySessionId");
        assert("PlaySessionId"@.len() == 13);
        reveal_strlit("AudioStreamIndex");
        assert("AudioStreamIndex"@.len() == 16);
        reveal_strlit("VideoStreamIndex");
        assert("VideoStreamIndex"@.len() == 16);
        reveal_strlit("SubtitleStreamIndex");
        assert("SubtitleStreamIndex"@.len() == 19);
        assert("SubtitleStreamIndex"@[0] == 'S' && "MaxStreamingBitrate"@[0] == 'M');
        reveal_strlit("EnableDirectPlay");
        assert("EnableDirectPlay"@.len() == 16);
        reveal_strlit("EnableDirectStream");
        assert("EnableDirectStream"@.len() == 18);
        reveal_strlit("EnableTranscoding");
        assert("EnableTranscoding"@.len() == 17);
    }
}

proof fn lemma_stream_params_by_key_key1(q: StreamParams)
    ensures
        entries_with(q.fixed_query(), "Container"@) == (match q.container { Some(v) => seq![("Container"@, v@)], None => Seq::empty() }),
{
    assert(entries_with(q.fixed_query(), "Container"@) == (match q.container { Some(v) => seq![("Container"@, v@)], None => Seq::empty() })) by {
        broadcast use lemma_concat_empty;
        lemma_stream_params_by_key_part0(q, "Container"@);
        lemma_stream_params_by_key_part1(q, "Container"@);
        lemma_stream_params_by_key_part2(q, "Container"@);
        lemma_stream_params_by_key_part3(q, "Container"@);
        reveal_strlit("Container");
        assert("Container"@.len() == 9);
        reveal_strlit("MaxStreamingBitrate");
        assert("MaxStreamingBitrate"@.len() == 19);
        reveal_strlit("AudioCodec");
        assert("AudioCodec"@.len() == 10);
        reveal_strlit("VideoCodec");
        assert("VideoCodec"@.len() == 10);
        reveal_strlit("AudioBitrate");
        assert("AudioBitrate"@.len() == 12);
        reveal_strlit("VideoBitrate");
        assert("VideoBitrate"@.len() == 12);
        reveal_strlit("MaxAudioChannels");
        assert("MaxAudioChannels"@.len() == 16);
        reveal_strlit("MaxWidth");
        assert("MaxWidth"@.len() == 8);
        reveal_strlit("MaxHeight");
        assert("MaxHeight"@.len() == 9);
        assert("MaxHeight"@[0] == 'M' && "Container"@[0] == 'C');
        reveal_strlit("StartTimeTicks");
        assert("StartTimeTicks"@.len() == 14);
        reveal_strlit("DeviceId");
        assert("DeviceId"@.len() == 8);
        reveal_strlit("MediaSourceId");
        assert("MediaSourceId"@.len() == 13);
        reveal_strlit("PlaySessionId");
        assert("PlaySessionId"@.len() == 13);
        reveal_strlit("AudioStreamIndex");
        assert("AudioStreamIndex"@.len() == 16);
        reveal_strlit("VideoStreamIndex");
        assert("VideoStreamIndex"@.len() == 16);
        reveal_strlit("SubtitleStreamIndex");
        assert("SubtitleStreamIndex"@.len() == 19);
        reveal_strlit("EnableDirectPlay");
        assert("EnableDirectPlay"@.len() == 16);
        reveal_strlit("EnableDirectStream");
        assert("EnableDirectStream"@.len() == 18);
        reveal_strlit("EnableTranscoding");
        assert("EnableTranscoding"@.len() == 17);
    }
}

proof fn lemma_stream_params_by_key_key2(q: StreamParams)
    ensures
        entries_with(q.fixed_query(), "AudioCodec"@) == (match q.audio_codec { Some(v) => seq![("AudioCodec"@, v@)], None => Seq::empty() }),
{
    assert(entries_with(q.fixed_query(), "AudioCodec"@) == (match q.audio_codec { Some(v) => seq![("AudioCodec"@, v@)], None => Seq::empty() })) by {
        broadcast use lemma_concat_empty;
        lemma_stream_params_by_key_part0(q, "AudioCodec"@);
        lemma_stream_params_by_key_part1(q, "AudioCodec"@);
        lemma_stream_params_by_key_part2(q, "AudioCodec"@);
        lemma_stream_params_by_key_part3(q, "AudioCodec"@);
        reveal_strlit("AudioCodec");
        assert("AudioCodec"@.len() == 10);
        reveal_strlit("MaxStreamingBitrate");
        assert("MaxStreamingBitrate"@.len() == 19);
        reveal_strlit("Container");
        assert("Container"@.len() == 9);
        reveal_strlit("VideoCodec");
        assert("VideoCodec"@.len() == 10);
        assert("VideoCodec"@[0] == 'V' && "AudioCodec"@[0] == 'A');
        reveal_strlit("AudioBitrate");
        assert("AudioBitrate"@.len() == 12);
        reveal_strlit("VideoBitrate");
        assert("VideoBitrate"@.len() == 12);
        reveal_strlit("MaxAudioChannels");
        assert("MaxAudioChannels"@.len() == 16);
        reveal_strlit("MaxWidth");
        assert("MaxWidth"@.len() == 8);
        reveal_strlit("MaxHeight");
        assert("MaxHeight"@.len() == 9);
        reveal_strlit("StartTimeTicks");
        assert("StartTimeTicks"@.len() == 14);
        reveal_strlit("DeviceId");
        assert("DeviceId"@.len() == 8);
        reveal_strlit("MediaSourceId");
        assert("MediaSourceId"@.len() == 13);
        reveal_strlit("PlaySessionId");
        assert("PlaySessionId"@.len() == 13);
        reveal_strlit("AudioStreamIndex");
        assert("AudioStreamIndex"@.len() == 16);
        reveal_strlit("VideoStreamIndex");
        assert("VideoStreamIndex"@.len() == 16);
        reveal_strlit("SubtitleStreamIndex");
        assert("SubtitleStreamIndex"@.len() == 19);
        reveal_strlit("EnableDirectPlay");
        assert("EnableDirectPlay"@.len() == 16);
        reveal_strlit("EnableDirectStream");
        assert("EnableDirectStream"@.len() == 18);
        reveal_strlit("EnableTranscoding");
        assert("EnableTranscoding"@.len() == 17);
    }
}

proof fn lemma_stream_params_by_key_key3(q: StreamParams)
    ensures
        entries_with(q.fixed_query(), "VideoCodec"@) == (match q.video_codec { Some(v) => seq![("VideoCodec"@, v@)], None => Seq::empty() }),
{
    assert(entries_with(q.fixed_query(), "VideoCodec"@) == (match q.video_codec { Some(v) => seq![("VideoCodec"@, v@)], None => Seq::empty() })) by {
        broadcast use lemma_concat_empty;
        lemma_stream_params_by_key_part0(q, "VideoCodec"@);
        lemma_stream_params_by_key_part1(q, "VideoCodec"@);
        lemma_stream_params_by_key_part2(q, "VideoCodec"@);
        lemma_stream_params_by_key_part3(q, "VideoCodec"@);
        reveal_strlit("VideoCodec");
        assert("VideoCodec"@.len() == 10);
        reveal_strlit("MaxStreamingBitrate");
        assert("MaxStreamingBitrate"@.len() == 19);
        reveal_strlit("Container");
        assert("Container"@.len() == 9);
        reveal_strlit("AudioCodec");
        assert("AudioCodec"@.len() == 10);
        assert("AudioCodec"@[0] == 'A' && "VideoCodec"@[0] == 'V');
        reveal_strlit("AudioBitrate");
        assert("AudioBitrate"@.len() == 12);
        reveal_strlit("VideoBitrate");
        assert("VideoBitrate"@.len() == 12);
        reveal_strlit("MaxAudioChannels");
        assert("MaxAudioChannels"@.len() == 16);
        reveal_strlit("MaxWidth");
        assert("MaxWidth"@.len() == 8);
        reveal_strlit("MaxHeight");
        assert("MaxHeight"@.len() == 9);
        reveal_strlit("StartTimeTicks");
        assert("StartTimeTicks"@.len() == 14);
        reveal_strlit("DeviceId");
        assert("DeviceId"@.len() == 8);
        reveal_strlit("MediaSourceId");
        assert("MediaSourceId"@.len() == 13);
        reveal_strlit("PlaySessionId");
        assert("PlaySessionId"@.len() == 13);
        reveal_strlit("AudioStreamIndex");
        assert("AudioStreamIndex"@.len() == 16);
        reveal_strlit("VideoStreamIndex");
        assert("VideoStreamIndex"@.len() == 16);
        reveal_strlit("SubtitleStreamIndex");
        assert("SubtitleStreamIndex"@.len() == 19);
        reveal_strlit("EnableDirectPlay");
        assert("EnableDirectPlay"@.len() == 16);
        reveal_strlit("EnableDirectStream");
        assert("EnableDirectStream"@.len() == 18);
        reveal_strlit("EnableTranscoding");
        assert("EnableTranscoding"@.len() == 17);
    }
}

proof fn lemma_stream_params_by_key_key4(q: StreamParams)
    ensures
        entries_with(q.fixed_query(), "AudioBitrate"@) == (match q.audio_bitrate { Some(v) => seq![("AudioBitrate"@, decimal(v as nat))], None => Seq::empty() }),
{
    assert(entries_with(q.fixed_query(), "AudioBitrate"@) == (match q.audio_bitrate { Some(v) => seq![("AudioBitrate"@, decimal(v as nat))], None => Seq::empty() })) by {
        broadcast use lemma_concat_empty;
        lemma_stream_params_by_key_part0(q, "AudioBitrate"@);
        lemma_stream_params_by_key_part1(q, "AudioBitrate"@);
        lemma_stream_params_by_key_part2(q, "AudioBitrate"@);
        lemma_stream_params_by_key_part3(q, "AudioBitrate"@);
        reveal_strlit("AudioBitrate");
        assert("AudioBitrate"@.len() == 12);
        reveal_strlit("MaxStreamingBitrate");
        assert("MaxStreamingBitrate"@.len() == 19);
        reveal_strlit("Container");
        assert("Container"@.len() == 9);
        reveal_strlit("AudioCodec");
        assert("AudioCodec"@.len() == 10);
        reveal_strlit("VideoCodec");
        assert("VideoCodec"@.len() == 10);
        reveal_strlit("VideoBitrate");
        assert("VideoBitrate"@.len() == 12);
        assert("VideoBitrate"@[0] == 'V' && "AudioBitrate"@[0] == 'A');
        reveal_strlit("MaxAudioChannels");
        assert("MaxAudioChannels"@.len() == 16);
        reveal_strlit("MaxWidth");
        assert("MaxWidth"@.len() == 8);
        reveal_strlit("MaxHeight");
        assert("MaxHeight"@.len() == 9);
        reveal_strlit("StartTimeTicks");
        assert("StartTimeTicks"@.len() == 14);
        reveal_strlit("DeviceId");
        assert("DeviceId"@.len() == 8);
        reveal_strlit("MediaSourceId");
        assert("MediaSourceId"@.len() == 13);
        reveal_strlit("PlaySessionId");
        assert("PlaySessionId"@.len() == 13);
        reveal_strlit("AudioStreamIndex");
        assert("AudioStreamIndex"@.len() == 16);
        reveal_strlit("VideoStreamIndex");
        assert("VideoStreamIndex"@.len() == 16);
        reveal_strlit("SubtitleStreamIndex");
        assert("SubtitleStreamIndex"@.len() == 19);
        reveal_strlit("EnableDirectPlay");
        assert("EnableDirectPlay"@.len() == 16);
        reveal_strlit("EnableDirectStream");
        assert("EnableDirectStream"@.len() == 18);
        reveal_strlit("EnableTranscoding");
        assert("EnableTranscoding"@.len() == 17);
    }
}

proof fn lemma_stream_params_by_key_key5(q: StreamParams)
    ensures
        entries_with(q.fixed_query(), "VideoBitrate"@) == (match q.video_bitrate { Some(v) => seq![("VideoBitrate"@, decimal(v as nat))], None => Seq::empty() }),
{
    assert(entries_with(q.fixed_query(), "VideoBitrate"@) == (match q.video_bitrate { Some(v) => seq![("VideoBitrate"@, decimal(v as nat))], None => Seq::empty() })) by {
        broadcast use lemma_concat_empty;
        lemma_stream_params_by_key_part0(q, "VideoBitrate"@);
        lemma_stream_params_by_key_part1(q, "VideoBitrate"@);
        lemma_stream_params_by_key_part2(q, "VideoBitrate"@);
        lemma_stream_params_by_key_part3(q, "VideoBitrate"@);
        reveal_strlit("VideoBitrate");
        assert("VideoBitrate"@.len() == 12);
        reveal_strlit("MaxStreamingBitrate");
        assert("MaxStreamingBitrate"@.len() == 19);
        reveal_strlit("Container");
        assert("Container"@.len() == 9);
        reveal_strlit("AudioCodec");
        assert("AudioCodec"@.len() == 10);
        reveal_strlit("VideoCodec");
        assert("VideoCodec"@.len() == 10);
        reveal_strlit("AudioBitrate");
        assert("AudioBitrate"@.len() == 12);
        assert("AudioBitrate"@[0] == 'A' && "VideoBitrate"@[0] == 'V');
        reveal_strlit("MaxAudioChannels");
        assert("MaxAudioChannels"@.len() == 16);
        reveal_strlit("MaxWidth");
        assert("MaxWidth"@.len() == 8);
        reveal_strlit("MaxHeight");
        assert("MaxHeight"@.len() == 9);
        reveal_strlit("StartTimeTicks");
        assert("StartTimeTicks"@.len() == 14);
        reveal_strlit("DeviceId");
        assert("DeviceId"@.len() == 8);
        reveal_strlit("MediaSourceId");
        assert("MediaSourceId"@.len() == 13);
        reveal_strlit("PlaySessionId");
        assert("PlaySessionId"@.len() == 13);
        reveal_strlit("AudioStreamIndex");
        assert("AudioStreamIndex"@.len() == 16);
        reveal_strlit("VideoStreamIndex");
        assert("VideoStreamIndex"@.len() == 16);
        reveal_strlit("SubtitleStreamIndex");
        assert("SubtitleStreamIndex"@.len() == 19);
        reveal_strlit("EnableDirectPlay");
        assert("EnableDirectPlay"@.len() == 16);
        reveal_strlit("EnableDirectStream");
        assert("EnableDirectStream"@.len() == 18);
        reveal_strlit("EnableTranscoding");
        assert("EnableTranscoding"@.len() == 17);
    }
}

proof fn lemma_stream_params_by_key_key6(q: StreamParams)
    ensures
        entries_with(q.fixed_query(), "MaxAudioChannels"@) == (match q.max_audio_channels { Some(v) => seq![("MaxAudioChannels"@, decimal(v as nat))], None => Seq::empty() }),
{
    assert(entries_with(q.fixed_query(), "MaxAudioChannels"@) == (match q.max_audio_channels { Some(v) => seq![("MaxAudioChannels"@, decimal(v as nat))], None => Seq::empty() })) by {
        broadcast use lemma_concat_empty;
        lemma_stream_params_by_key_part0(q, "MaxAudioChannels"@);
        lemma_stream_params_by_key_part1(q, "MaxAudioChannels"@);
        lemma_stream_params_by_key_part2(q, "MaxAudioChannels"@);
        lemma_stream_params_by_key_part3(q, "MaxAudioChannels"@);
        reveal_strlit("MaxAudioChannels");
        assert("MaxAudioChannels"@.len() == 16);
        reveal_strlit("MaxStreamingBitrate");
        assert("MaxStreamingBitrate"@.len() == 19);
        reveal_strlit("Container");
        assert("Container"@.len() == 9);
        reveal_strlit("AudioCodec");
        assert("AudioCodec"@.len() == 10);
        reveal_strlit("VideoCodec");
        assert("VideoCodec"@.len() == 10);
        reveal_strlit("AudioBitrate");
        assert("AudioBitrate"@.len() == 12);
        reveal_strlit("VideoBitrate");
        assert("VideoBitrate"@.len() == 12);
        reveal_strlit("MaxWidth");
        assert("MaxWidth"@.len() == 8);
        reveal_strlit("MaxHeight");
        assert("MaxHeight"@.len() == 9);
        reveal_strlit("StartTimeTicks");
        assert("StartTimeTicks"@.len() == 14);
        reveal_strlit("DeviceId");
        assert("DeviceId"@.len() == 8);
        reveal_strlit("MediaSourceId");
        assert("MediaSourceId"@.len() == 13);
        reveal_strlit("PlaySessionId");
        assert("PlaySessionId"@.len() == 13);
        reveal_strlit("AudioStreamIndex");
        assert("AudioStreamIndex"@.len() == 16);
        assert("AudioStreamIndex"@[0] == 'A' && "MaxAudioChannels"@[0] == 'M');
        reveal_strlit("VideoStreamIndex");
        assert("VideoStreamIndex"@.len() == 16);
        assert("VideoStreamIndex"@[0] == 'V' && "MaxAudioChannels"@[0] == 'M');
        reveal_strlit("SubtitleStreamIndex");
        assert("SubtitleStreamIndex"@.len() == 19);
        reveal_strlit("EnableDirectPlay");
        assert("EnableDirectPlay"@.len() == 16);
        assert("EnableDirectPlay"@[0] == 'E' && "MaxAudioChannels"@[0] == 'M');
        reveal_strlit("EnableDirectStream");
        assert("EnableDirectStream"@.len() == 18);
        reveal_strlit("EnableTranscoding");
        assert("EnableTranscoding"@.len() == 17);
    }
}

proof fn lemma_stream_params_by_key_key7(q: StreamParams)
    ensures
        entries_with(q.fixed_query(), "MaxWidth"@) == (match q.max_width { Some(v) => seq![("MaxWidth"@, decimal(v as nat))], None => Seq::empty() }),
{
    assert(entries_with(q.fixed_query(), "MaxWidth"@) == (match q.max_width { Some(v) => seq![("MaxWidth"@, decimal(v as nat))], None => Seq::empty() })) by {
        broadcast use lemma_concat_empty;
        lemma_stream_params_by_key_part0(q, "MaxWidth"@);
        lemma_stream_params_by_key_part1(q, "MaxWidth"@);
        lemma_stream_params_by_key_part2(q, "MaxWidth"@);
        lemma_stream_params_by_key_part3(q, "MaxWidth"@);
        reveal_strlit("MaxWidth");
        assert("MaxWidth"@.len() == 8);
        reveal_strlit("MaxStreamingBitrate");
        assert("MaxStreamingBitrate"@.len() == 19);
        reveal_strlit("Container");
        assert("Container"@.len() == 9);
        reveal_strlit("AudioCodec");
        assert("AudioCodec"@.len() == 10);
        reveal_strlit("VideoCodec");
        assert("VideoCodec"@.len() == 10);
        reveal_strlit("AudioBitrate");
        assert("AudioBitrate"@.len() == 12);
        reveal_strlit("VideoBitrate");
        assert("VideoBitrate"@.len() == 12);
        reveal_strlit("MaxAudioChannels");
        assert("MaxAudioChannels"@.len() == 16);
        reveal_strlit("MaxHeight");
        assert("MaxHeight"@.len() == 9);
        reveal_strlit("StartTimeTicks");
        assert("StartTimeTicks"@.len() == 14);
        reveal_strlit("DeviceId");
        assert("DeviceId"@.len() == 8);
        assert("DeviceId"@[0] == 'D' && "MaxWidth"@[0] == 'M');
        reveal_strlit("MediaSourceId");
        assert("MediaSourceId"@.len() == 13);
        reveal_strlit("PlaySessionId");
        assert("PlaySessionId"@.len() == 13);
        reveal_strlit("AudioStreamIndex");
        assert("AudioStreamIndex"@.len() == 16);
        reveal_strlit("VideoStreamIndex");
        assert("VideoStreamIndex"@.len() == 16);
        reveal_strlit("SubtitleStreamIndex");
        assert("SubtitleStreamIndex"@.len() == 19);
        reveal_strlit("EnableDirectPlay");
        assert("EnableDirectPlay"@.len() == 16);
        reveal_strlit("EnableDirectStream");
        assert("EnableDirectStream"@.len() == 18);
        reveal_strlit("EnableTranscoding");
        assert("EnableTranscoding"@.len() == 17);
    }
}

proof fn lemma_stream_params_by_key_key8(q: StreamParams)
    ensures
        entries_with(q.fixed_query(), "MaxHeight"@) == (match q.max_height { Some(v) => seq![("MaxHeight"@, decimal(v as nat))], None => Seq::empty() }),
{
    assert(entries_with(q.fixed_query(), "MaxHeight"@) == (match q.max_height { Some(v) => seq![("MaxHeight"@, decimal(v as nat))], None => Seq::empty() })) by {
        broadcast use lemma_concat_empty;
        lemma_stream_params_by_key_part0(q, "MaxHeight"@);
        lemma_stream_params_by_key_part1(q, "MaxHeight"@);
        lemma_stream_params_by_key_part2(q, "MaxHeight"@);
        lemma_stream_params_by_key_part3(q, "MaxHeight"@);
        reveal_strlit("MaxHeight");
        assert("MaxHeight"@.len() == 9);
        reveal_strlit("MaxStreamingBitrate");
        assert("MaxStreamingBitrate"@.len() == 19);
        reveal_strlit("Container");
        assert("Container"@.len() == 9);
        assert("Container"@[0] == 'C' && "MaxHeight"@[0] == 'M');
        reveal_strlit("AudioCodec");
        assert("AudioCodec"@.len() == 10);
        reveal_strlit("VideoCodec");
        assert("VideoCodec"@.len() == 10);
        reveal_strlit("AudioBitrate");
        assert("AudioBitrate"@.len() == 12);
        reveal_strlit("VideoBitrate");
        assert("VideoBitrate"@.len() == 12);
        reveal_strlit("MaxAudioChannels");
        assert("MaxAudioChannels"@.len() == 16);
        reveal_strlit("MaxWidth");
        assert("MaxWidth"@.len() == 8);
        reveal_strlit("StartTimeTicks");
        assert("StartTimeTicks"@.len() == 14);
        reveal_strlit("DeviceId");
        assert("DeviceId"@.len() == 8);
        reveal_strlit("MediaSourceId");
        assert("MediaSourceId"@.len() == 13);
        reveal_strlit("PlaySessionId");
        assert("PlaySessionId"@.len() == 13);
        reveal_strlit("AudioStreamIndex");
        assert("AudioStreamIndex"@.len() == 16);
        reveal_strlit("VideoStreamIndex");
        assert("VideoStreamIndex"@.len() == 16);
        reveal_strlit("SubtitleStreamIndex");
        assert("SubtitleStreamIndex"@.len() == 19);
        reveal_strlit("EnableDirectPlay");
        assert("EnableDirectPlay"@.len() == 16);
        reveal_strlit("EnableDirectStream");
        assert("EnableDirectStream"@.len() == 18);
        reveal_strlit("EnableTranscoding");
        assert("EnableTranscoding"@.len() == 17);
    }
}

proof fn lemma_stream_params_by_key_key9(q: StreamParams)
    ensures
        entries_with(q.fixed_query(), "StartTimeTicks"@) == (match q.start_time_ticks { Some(v) => seq![("StartTimeTicks"@, signed_decimal(v as int))], None => Seq::empty() }),
{
    assert(entries_with(q.fixed_query(), "StartTimeTicks"@) == (match q.start_time_ticks { Some(v) => seq![("StartTimeTicks"@, signed_decimal(v as int))], None => Seq::empty() })) by {
        broadcast use lemma_concat_empty;
        lemma_stream_params_by_key_part0(q, "StartTimeTicks"@);
        lemma_stream_params_by_key_part1(q, "StartTimeTicks"@);
        lemma_stream_params_by_key_part2(q, "StartTimeTicks"@);
        lemma_stream_params_by_key_part3(q, "StartTimeTicks"@);
        reveal_strlit("StartTimeTicks");
        assert("StartTimeTicks"@.len() == 14);
        reveal_strlit("MaxStreamingBitrate");
        assert("MaxStreamingBitrate"@.len() == 19);
        reveal_strlit("Container");
        assert("Container"@.len() == 9);
        reveal_strlit("AudioCodec");
        assert("AudioCodec"@.len() == 10);
        reveal_strlit("VideoCodec");
        assert("VideoCodec"@.len() == 10);
        reveal_strlit("AudioBitrate");
        assert("AudioBitrate"@.len() == 12);
        reveal_strlit("VideoBitrate");
        assert("VideoBitrate"@.len() == 12);
        reveal_strlit("MaxAudioChannels");
        assert("MaxAudioChannels"@.len() == 16);
        reveal_strlit("MaxWidth");
        assert("MaxWidth"@.len() == 8);
        reveal_strlit("MaxHeight");
        assert("MaxHeight"@.len() == 9);
        reveal_strlit("DeviceId");
        assert("DeviceId"@.len() == 8);
        reveal_strlit("MediaSourceId");
        assert("MediaSourceId"@.len() == 13);
        reveal_strlit("PlaySessionId");
        assert("PlaySessionId"@.len() == 13);
        reveal_strlit("AudioStreamIndex");
        assert("AudioStreamIndex"@.len() == 16);
        reveal_strlit("VideoStreamIndex");
        assert("VideoStreamIndex"@.len() == 16);
        reveal_strlit("SubtitleStreamIndex");
        assert("SubtitleStreamIndex"@.len() == 19);
        reveal_strlit("EnableDirectPlay");
        assert("EnableDirectPlay"@.len() == 16);
        reveal_strlit("EnableDirectStream");
        assert("EnableDirectStream"@.len() == 18);
        reveal_strlit("EnableTranscoding");
        assert("EnableTranscoding"@.len() == 17);
    }
}

proof fn lemma_stream_params_by_key_key10(q: StreamParams)
    ensures
        entries_with(q.fixed_query(), "DeviceId"@) == (match q.device_id { Some(v) => seq![("DeviceId"@, v@)], None => Seq::empty() }),
{
    assert(entries_with(q.fixed_query(), "DeviceId"@) == (match q.device_id { Some(v) => seq![("DeviceId"@, v@)], None => Seq::empty() })) by {
        broadcast use lemma_concat_empty;
        lemma_stream_params_by_key_part0(q, "DeviceId"@);
        lemma_stream_params_by_key_part1(q, "DeviceId"@);
        lemma_stream_params_by_key_part2(q, "DeviceId"@);
        lemma_stream_params_by_key_part3(q, "DeviceId"@);
        reveal_strlit("DeviceId");
        assert("DeviceId"@.len() == 8);
        reveal_strlit("MaxStreamingBitrate");
        assert("MaxStreamingBitrate"@.len() == 19);
        reveal_strlit("Container");
        assert("Container"@.len() == 9);
        reveal_strlit("AudioCodec");
        assert("AudioCodec"@.len() == 10);
        reveal_strlit("VideoCodec");
        assert("VideoCodec"@.len() == 10);
        reveal_strlit("AudioBitrate");
        assert("AudioBitrate"@.len() == 12);
        reveal_strlit("VideoBitrate");
        assert("VideoBitrate"@.len() == 12);
        reveal_strlit("MaxAudioChannels");
        assert("MaxAudioChannels"@.len() == 16);
        reveal_strlit("MaxWidth");
        assert("MaxWidth"@.len() == 8);
        assert("MaxWidth"@[0] == 'M' && "DeviceId"@[0] == 'D');
        reveal_strlit("MaxHeight");
        assert("MaxHeight"@.len() == 9);
        reveal_strlit("StartTimeTicks");
        assert("StartTimeTicks"@.len() == 14);
        reveal_strlit("MediaSourceId");
        assert("MediaSourceId"@.len() == 13);
        reveal_strlit("PlaySessionId");
        assert("PlaySessionId"@.len() == 13);
        reveal_strlit("AudioStreamIndex");
        assert("AudioStreamIndex"@.len() == 16);
        reveal_strlit("VideoStreamIndex");
        assert("VideoStreamIndex"@.len() == 16);
        reveal_strlit("SubtitleStreamIndex");
        assert("SubtitleStreamIndex"@.len() == 19);
        reveal_strlit("EnableDirectPlay");
        assert("EnableDirectPlay"@.len() == 16);
        reveal_strlit("EnableDirectStream");
        assert("EnableDirectStream"@.len() == 18);
        reveal_strlit("EnableTranscoding");
        assert("EnableTranscoding"@.len() == 17);
    }
}

proof fn lemma_stream_params_by_key_key11(q: StreamParams)
    ensures
        entries_with(q.fixed_query(), "MediaSourceId"@) == (match q.media_source_id { Some(v) => seq![("MediaSourceId"@, v@)], None => Seq::empty() }),
{
    assert(entries_with(q.fixed_query(), "MediaSourceId"@) == (match q.media_source_id { Some(v) => seq![("MediaSourceId"@, v@)], None => Seq::empty() })) by {
        broadcast use lemma_concat_empty;
        lemma_stream_params_by_key_part0(q, "MediaSourceId"@);
        lemma_stream_params_by_key_part1(q, "MediaSourceId"@);
        lemma_stream_params_by_key_part2(q, "MediaSourceId"@);
        lemma_stream_params_by_key_part3(q, "MediaSourceId"@);
        reveal_strlit("MediaSourceId");
        assert("MediaSourceId"@.len() == 13);
        reveal_strlit("MaxStreamingBitrate");
        assert("MaxStreamingBitrate"@.len() == 19);
        reveal_strlit("Container");
        assert("Container"@.len() == 9);
        reveal_strlit("AudioCodec");
        assert("AudioCodec"@.len() == 10);
        reveal_strlit("VideoCodec");
        assert("VideoCodec"@.len() == 10);
        reveal_strlit("AudioBitrate");
        assert("AudioBitrate"@.len() == 12);
        reveal_strlit("VideoBitrate");
        assert("VideoBitrate"@.len() == 12);
        reveal_strlit("MaxAudioChannels");
        assert("MaxAudioChannels"@.len() == 16);
        reveal_strlit("MaxWidth");
        assert("MaxWidth"@.len() == 8);
        reveal_strlit("MaxHeight");
        assert("MaxHeight"@.len() == 9);
        reveal_strlit("StartTimeTicks");
        assert("StartTimeTicks"@.len() == 14);
        reveal_strlit("DeviceId");
        assert("DeviceId"@.len() == 8);
        reveal_strlit("PlaySessionId");
        assert("PlaySessionId"@.len() == 13);
        assert("PlaySessionId"@[0] == 'P' && "MediaSourceId"@[0] == 'M');
        reveal_strlit("AudioStreamIndex");
        assert("AudioStreamIndex"@.len() == 16);
        reveal_strlit("VideoStreamIndex");
        assert("VideoStreamIndex"@.len() == 16);
        reveal_strlit("SubtitleStreamIndex");
        assert("SubtitleStreamIndex"@.len() == 19);
        reveal_strlit("EnableDirectPlay");
        assert("EnableDirectPlay"@.len() == 16);
        reveal_strlit("EnableDirectStream");
        assert("EnableDirectStream"@.len() == 18);
        reveal_strlit("EnableTranscoding");
        assert("EnableTranscoding"@.len() == 17);
    }
}

proof fn lemma_stream_params_by_key_key12(q: StreamParams)
    ensures
        entries_with(q.fixed_query(), "PlaySessionId"@) == (match q.play_session_id { Some(v) => seq![("PlaySessionId"@, v@)], None => Seq::empty() }),
{
    assert(entries_with(q.fixed_query(), "PlaySessionId"@) == (match q.play_session_id { Some(v) => seq![("PlaySessionId"@, v@)], None => Seq::empty() })) by {
        broadcast use lemma_concat_empty;
        lemma_stream_params_by_key_part0(q, "PlaySessionId"@);
        lemma_stream_params_by_key_part1(q, "PlaySessionId"@);
        lemma_stream_params_by_key_part2(q, "PlaySessionId"@);
        lemma_stream_params_by_key_part3(q, "PlaySessionId"@);
        reveal_strlit("PlaySessionId");
        assert("PlaySessionId"@.len() == 13);
        reveal_strlit("MaxStreamingBitrate");
        assert("MaxStreamingBitrate"@.len() == 19);
        reveal_strlit("Container");
        assert("Container"@.len() == 9);
        reveal_strlit("AudioCodec");
        assert("AudioCodec"@.len() == 10);
        reveal_strlit("VideoCodec");
        assert("VideoCodec"@.len() == 10);
        reveal_strlit("AudioBitrate");
        assert("AudioBitrate"@.len() == 12);
        reveal_strlit("VideoBitrate");
        assert("VideoBitrate"@.len() == 12);
        reveal_strlit("MaxAudioChannels");
        assert("MaxAudioChannels"@.len() == 16);
        reveal_strlit("MaxWidth");
        assert("MaxWidth"@.len() == 8);
        reveal_strlit("MaxHeight");
        assert("MaxHeight"@.len() == 9);
        reveal_strlit("StartTimeTicks");
        assert("StartTimeTicks"@.len() == 14);
        reveal_strlit("DeviceId");
        assert("DeviceId"@.len() == 8);
        reveal_strlit("MediaSourceId");
        assert("MediaSourceId"@.len() == 13);
        assert("MediaSourceId"@[0] == 'M' && "PlaySessionId"@[0] == 'P');
        reveal_strlit("AudioStreamIndex");
        assert("AudioStreamIndex"@.len() == 16);
        reveal_strlit("VideoStreamIndex");
        assert("VideoStreamIndex"@.len() == 16);
        reveal_strlit("SubtitleStreamIndex");
        assert("SubtitleStreamIndex"@.len() == 19);
        reveal_strlit("EnableDirectPlay");
        assert("EnableDirectPlay"@.len() == 16);
        reveal_strlit("EnableDirectStream");
        assert("EnableDirectStream"@.len() == 18);
        reveal_strlit("EnableTranscoding");
        assert("EnableTranscoding"@.len() == 17);
    }
}

proof fn lemma_stream_params_by_key_key13(q: StreamParams)
    ensures
        entries_with(q.fixed_query(), "AudioStreamIndex"@) == (match q.audio_stream_index { Some(v) => seq![("AudioStreamIndex"@, signed_decimal(v as int))], None => Seq::empty() }),
{
    assert(entries_with(q.fixed_query(), "AudioStreamIndex"@) == (match q.audio_stream_index { Some(v) => seq![("AudioStreamIndex"@, signed_decimal(v as int))], None => Seq::empty() })) by {
        broadcast use lemma_concat_empty;
        lemma_stream_params_by_key_part0(q, "AudioStreamIndex"@);
        lemma_stream_params_by_key_part1(q, "AudioStreamIndex"@);
        lemma_stream_params_by_key_part2(q, "AudioStreamIndex"@);
        lemma_stream_params_by_key_part3(q, "AudioStreamIndex"@);
        reveal_strlit("AudioStreamIndex");
        assert("AudioStreamIndex"@.len() == 16);
        reveal_strlit("MaxStreamingBitrate");
        assert("MaxStreamingBitrate"@.len() == 19);
        reveal_strlit("Container");
        assert("Container"@.len() == 9);
        reveal_strlit("AudioCodec");
        assert("AudioCodec"@.len() == 10);
        reveal_strlit("VideoCodec");
        assert("VideoCodec"@.len() == 10);
        reveal_strlit("AudioBitrate");
        assert("AudioBitrate"@.len() == 12);
        reveal_strlit("VideoBitrate");
        assert("VideoBitrate"@.len() == 12);
        reveal_strlit("MaxAudioChannels");
        assert("MaxAudioChannels"@.len() == 16);
        assert("MaxAudioChannels"@[0] == 'M' && "AudioStreamIndex"@[0] == 'A');
        reveal_strlit("MaxWidth");
        assert("MaxWidth"@.len() == 8);
        reveal_strlit("MaxHeight");
        assert("MaxHeight"@.len() == 9);
        reveal_strlit("StartTimeTicks");
        assert("StartTimeTicks"@.len() == 14);
        reveal_strlit("DeviceId");
        assert("DeviceId"@.len() == 8);
        reveal_strlit("MediaSourceId");
        assert("MediaSourceId"@.len() == 13);
        reveal_strlit("PlaySessionId");
        assert("PlaySessionId"@.len() == 13);
        reveal_strlit("VideoStreamIndex");
        assert("VideoStreamIndex"@.len() == 16);
        assert("VideoStreamIndex"@[0] == 'V' && "AudioStreamIndex"@[0] == 'A');
        reveal_strlit("SubtitleStreamIndex");
        assert("SubtitleStreamIndex"@.len() == 19);
        reveal_strlit("EnableDirectPlay");
        assert("EnableDirectPlay"@.len() == 16);
        assert("EnableDirectPlay"@[0] == 'E' && "AudioStreamIndex"@[0] == 'A');
        reveal_strlit("EnableDirectStream");
        assert("EnableDirectStream"@.len() == 18);
        reveal_strlit("EnableTranscoding");
        assert("EnableTranscoding"@.len() == 17);
    }
}

proof fn lemma_stream_params_by_key_key14(q: StreamParams)
    ensures
        entries_with(q.fixed_query(), "VideoStreamIndex"@) == (match q.video_stream_index { Some(v) => seq![("VideoStreamIndex"@, signed_decimal(v as int))], None => Seq::empty() }),
{
    assert(entries_with(q.fixed_query(), "VideoStreamIndex"@) == (match q.video_stream_index { Some(v) => seq![("VideoStreamIndex"@, signed_decimal(v as int))], None => Seq::empty() })) by {
        broadcast use lemma_concat_empty;
        lemma_stream_params_by_key_part0(q, "VideoStreamIndex"@);
        lemma_stream_params_by_key_part1(q, "VideoStreamIndex"@);
        lemma_stream_params_by_key_part2(q, "VideoStreamIndex"@);
        lemma_stream_params_by_key_part3(q, "VideoStreamIndex"@);
        reveal_strlit("VideoStreamIndex");
        assert("VideoStreamIndex"@.len() == 16);
        reveal_strlit("MaxStreamingBitrate");
        assert("MaxStreamingBitrate"@.len() == 19);
        reveal_strlit("Container");
        assert("Container"@.len() == 9);
        reveal_strlit("AudioCodec");
        assert("AudioCodec"@.len() == 10);
        reveal_strlit("VideoCodec");
        assert("VideoCodec"@.len() == 10);
        reveal_strlit("AudioBitrate");
        assert("AudioBitrate"@.len() == 12);
        reveal_strlit("VideoBitrate");
        assert("VideoBitrate"@.len() == 12);
        reveal_strlit("MaxAudioChannels");
        assert("MaxAudioChannels"@.len() == 16);
        assert("MaxAudioChannels"@[0] == 'M' && "VideoStreamIndex"@[0] == 'V');
        reveal_strlit("MaxWidth");
        assert("MaxWidth"@.len() == 8);
        reveal_strlit("MaxHeight");
        assert("MaxHeight"@.len() == 9);
        reveal_strlit("StartTimeTicks");
        assert("StartTimeTicks"@.len() == 14);
        reveal_strlit("DeviceId");
        assert("DeviceId"@.len() == 8);
        reveal_strlit("MediaSourceId");
        assert("MediaSourceId"@.len() == 13);
        reveal_strlit("PlaySessionId");
        assert("PlaySessionId"@.len() == 13);
        reveal_strlit("AudioStreamIndex");
        assert("AudioStreamIndex"@.len() == 16);
        assert("AudioStreamIndex"@[0] == 'A' && "VideoStreamIndex"@[0] == 'V');
        reveal_strlit("SubtitleStreamIndex");
        assert("SubtitleStreamIndex"@.len() == 19);
        reveal_strlit("EnableDirectPlay");
        assert("EnableDirectPlay"@.len() == 16);
        assert("EnableDirectPlay"@[0] == 'E' && "VideoStreamIndex"@[0] == 'V');
        reveal_strlit("EnableDirectStream");
        assert("EnableDirectStream"@.len() == 18);
        reveal_strlit("EnableTranscoding");
        assert("EnableTranscoding"@.len() == 17);
    }
}

proof fn lemma_stream_params_by_key_key15(q: StreamParams)
    ensures
        entries_with(q.fixed_query(), "SubtitleStreamIndex"@) == (match q.subtitle_stream_index { Some(v) => seq![("SubtitleStreamIndex"@, signed_decimal(v as int))], None => Seq::empty() }),
{
    assert(entries_with(q.fixed_query(), "SubtitleStreamIndex"@) == (match q.subtitle_stream_index { Some(v) => seq![("SubtitleStreamIndex"@, signed_decimal(v as int))], None => Seq::empty() })) by {
        broadcast use lemma_concat_empty;
        lemma_stream_params_by_key_part0(q, "SubtitleStreamIndex"@);
        lemma_stream_params_by_key_part1(q, "SubtitleStreamIndex"@);
        lemma_stream_params_by_key_part2(q, "SubtitleStreamIndex"@);
        lemma_stream_params_by_key_part3(q, "SubtitleStreamIndex"@);
        reveal_strlit("SubtitleStreamIndex");
        assert("SubtitleStreamIndex"@.len() == 19);
        reveal_strlit("MaxStreamingBitrate");
        assert("MaxStreamingBitrate"@.len() == 19);
        assert("MaxStreamingBitrate"@[0] == 'M' && "SubtitleStreamIndex"@[0] == 'S');
        reveal_strlit("Container");
        assert("Container"@.len() == 9);
        reveal_strlit("AudioCodec");
        assert("AudioCodec"@.len() == 10);
        reveal_strlit("VideoCodec");
        assert("VideoCodec"@.len() == 10);
        reveal_strlit("AudioBitrate");
        assert("AudioBitrate"@.len() == 12);
        reveal_strlit("VideoBitrate");
        assert("VideoBitrate"@.len() == 12);
        reveal_strlit("MaxAudioChannels");
        assert("MaxAudioChannels"@.len() == 16);
        reveal_strlit("MaxWidth");
        assert("MaxWidth"@.len() == 8);
        reveal_strlit("MaxHeight");
        assert("MaxHeight"@.len() == 9);
        reveal_strlit("StartTimeTicks");
        assert("StartTimeTicks"@.len() == 14);
        reveal_strlit("DeviceId");
        assert("DeviceId"@.len() == 8);
        reveal_strlit("MediaSourceId");
        assert("MediaSourceId"@.len() == 13);
        reveal_strlit("PlaySessionId");
        assert("PlaySessionId"@.len() == 13);
        reveal_strlit("AudioStreamIndex");
        assert("AudioStreamIndex"@.len() == 16);
        reveal_strlit("VideoStreamIndex");
        assert("VideoStreamIndex"@.len() == 16);
        reveal_strlit("EnableDirectPlay");
        assert("EnableDirectPlay"@.len() == 16);
        reveal_strlit("EnableDirectStream");
        assert("EnableDirectStream"@.len() == 18);
        reveal_strlit("EnableTranscoding");
        assert("EnableTranscoding"@.len() == 17);
    }
}

proof fn lemma_stream_params_by_key_key16(q: StreamParams)
    ensures
        entries_with(q.fixed_query(), "EnableDirectPlay"@) == (match q.enable_direct_play { Some(v) => seq![("EnableDirectPlay"@, bool_text(v))], None => Seq::empty() }),
{
    assert(entries_with(q.fixed_query(), "EnableDirectPlay"@) == (match q.enable_direct_play { Some(v) => seq![("EnableDirectPlay"@, bool_text(v))], None => Seq::empty() })) by {
        broadcast use lemma_concat_empty;
        lemma_stream_params_by_key_part0(q, "EnableDirectPlay"@);
        lemma_stream_params_by_key_part1(q, "EnableDirectPlay"@);
        lemma_stream_params_by_key_part2(q, "EnableDirectPlay"@);
        lemma_stream_params_by_key_part3(q, "EnableDirectPlay"@);
        reveal_strlit("EnableDirectPlay");
        assert("EnableDirectPlay"@.len() == 16);
        reveal_strlit("MaxStreamingBitrate");
        assert("MaxStreamingBitrate"@.len() == 19);
        reveal_strlit("Container");
        assert("Container"@.len() == 9);
        reveal_strlit("AudioCodec");
        assert("AudioCodec"@.len() == 10);
        reveal_strlit("VideoCodec");
        assert("VideoCodec"@.len() == 10);
        reveal_strlit("AudioBitrate");
        assert("AudioBitrate"@.len() == 12);
        reveal_strlit("VideoBitrate");
        assert("VideoBitrate"@.len() == 12);
        reveal_strlit("MaxAudioChannels");
        assert("MaxAudioChannels"@.len() == 16);
        assert("MaxAudioChannels"@[0] == 'M' && "EnableDirectPlay"@[0] == 'E');
        reveal_strlit("MaxWidth");
        assert("MaxWidth"@.len() == 8);
        reveal_strlit("MaxHeight");
        assert("MaxHeight"@.len() == 9);
        reveal_strlit("StartTimeTicks");
        assert("StartTimeTicks"@.len() == 14);
        reveal_strlit("DeviceId");
        assert("DeviceId"@.len() == 8);
        reveal_strlit("MediaSourceId");
        assert("MediaSourceId"@.len() == 13);
        reveal_strlit("PlaySessionId");
        assert("PlaySessionId"@.len() == 13);
        reveal_strlit("AudioStreamIndex");
        assert("AudioStreamIndex"@.len() == 16);
        assert("AudioStreamIndex"@[0] == 'A' && "EnableDirectPlay"@[0] == 'E');
        reveal_strlit("VideoStreamIndex");
        assert("VideoStreamIndex"@.len() == 16);
        assert("VideoStreamIndex"@[0] == 'V' && "EnableDirectPlay"@[0] == 'E');
        reveal_strlit("SubtitleStreamIndex");
        assert("SubtitleStreamIndex"@.len() == 19);
        reveal_strlit("EnableDirectStream");
        assert("EnableDirectStream"@.len() == 18);
        reveal_strlit("EnableTranscoding");
        assert("EnableTranscoding"@.len() == 17);
    }
}

proof fn lemma_stream_params_by_key_key17(q: StreamParams)
    ensures
        entries_with(q.fixed_query(), "EnableDirectStream"@) == (match q.enable_direct_stream { Some(v) => seq![("EnableDirectStream"@, bool_text(v))], None => Seq::empty() }),
{
    assert(entries_with(q.fixed_query(), "EnableDirectStream"@) == (match q.enable_direct_stream { Some(v) => seq![("EnableDirectStream"@, bool_text(v))], None => Seq::empty() })) by {
        broadcast use lemma_concat_empty;
        lemma_stream_params_by_key_part0(q, "EnableDirectStream"@);
        lemma_stream_params_by_key_part1(q, "EnableDirectStream"@);
        lemma_stream_params_by_key_part2(q, "EnableDirectStream"@);
        lemma_stream_params_by_key_part3(q, "EnableDirectStream"@);
        reveal_strlit("EnableDirectStream");
        assert("EnableDirectStream"@.len() == 18);
        reveal_strlit("MaxStreamingBitrate");
        assert("MaxStreamingBitrate"@.len() == 19);
        reveal_strlit("Container");
        assert("Container"@.len() == 9);
        reveal_strlit("AudioCodec");
        assert("AudioCodec"@.len() == 10);
        reveal_strlit("VideoCodec");
        assert("VideoCodec"@.len() == 10);
        reveal_strlit("AudioBitrate");
        assert("AudioBitrate"@.len() == 12);
        reveal_strlit("VideoBitrate");
        assert("VideoBitrate"@.len() == 12);
        reveal_strlit("MaxAudioChannels");
        assert("MaxAudioChannels"@.len() == 16);
        reveal_strlit("MaxWidth");
        assert("MaxWidth"@.len() == 8);
        reveal_strlit("MaxHeight");
        assert("MaxHeight"@.len() == 9);
        reveal_strlit("StartTimeTicks");
        assert("StartTimeTicks"@.len() == 14);
        reveal_strlit("DeviceId");
        assert("DeviceId"@.len() == 8);
        reveal_strlit("MediaSourceId");
        assert("MediaSourceId"@.len() == 13);
        reveal_strlit("PlaySessionId");
        assert("PlaySessionId"@.len() == 13);
        reveal_strlit("AudioStreamIndex");
        assert("AudioStreamIndex"@.len() == 16);
        reveal_strlit("VideoStreamIndex");
        assert("VideoStreamIndex"@.len() == 16);
        reveal_strlit("SubtitleStreamIndex");
        assert("SubtitleStreamIndex"@.len() == 19);
        reveal_strlit("EnableDirectPlay");
        assert("EnableDirectPlay"@.len() == 16);
        reveal_strlit("EnableTranscoding");
        assert("EnableTranscoding"@.len() == 17);
    }
}

proof fn lemma_stream_params_by_key_key18(q: StreamParams)
    ensures
        entries_with(q.fixed_query(), "EnableTranscoding"@) == (match q.enable_transcoding { Some(v) => seq![("EnableTranscoding"@, bool_text(v))], None => Seq::empty() }),
{
    assert(entries_with(q.fixed_query(), "EnableTranscoding"@) == (match q.enable_transcoding { Some(v) => seq![("EnableTranscoding"@, bool_text(v))], None => Seq::empty() })) by {
        broadcast use lemma_concat_empty;
        lemma_stream_params_by_key_part0(q, "EnableTranscoding"@);
        lemma_stream_params_by_key_part1(q, "EnableTranscoding"@);
        lemma_stream_params_by_key_part2(q, "EnableTranscoding"@);
        lemma_stream_params_by_key_part3(q, "EnableTranscoding"@);
        reveal_strlit("EnableTranscoding");
        assert("EnableTranscoding"@.len() == 17);
        reveal_strlit("MaxStreamingBitrate");
        assert("MaxStreamingBitrate"@.len() == 19);
        reveal_strlit("Container");
        assert("Container"@.len() == 9);
        reveal_strlit("AudioCodec");
        assert("AudioCodec"@.len() == 10);
        reveal_strlit("VideoCodec");
        assert("VideoCodec"@.len() == 10);
        reveal_strlit("AudioBitrate");
        assert("AudioBitrate"@.len() == 12);
        reveal_strlit("VideoBitrate");
        assert("VideoBitrate"@.len() == 12);
        reveal_strlit("MaxAudioChannels");
        assert("MaxAudioChannels"@.len() == 16);
        reveal_strlit("MaxWidth");
        assert("MaxWidth"@.len() == 8);
        reveal_strlit("MaxHeight");
        assert("MaxHeight"@.len() == 9);
        reveal_strlit("StartTimeTicks");
        assert("StartTimeTicks"@.len() == 14);
        reveal_strlit("DeviceId");
        assert("DeviceId"@.len() == 8);
        reveal_strlit("MediaSourceId");
        assert("MediaSourceId"@.len() == 13);
        reveal_strlit("PlaySessionId");
        assert("PlaySessionId"@.len() == 13);
        reveal_strlit("AudioStreamIndex");
        assert("AudioStreamIndex"@.len() == 16);
        reveal_strlit("VideoStreamIndex");
        assert("VideoStreamIndex"@.len() == 16);
        reveal_strlit("SubtitleStreamIndex");
        assert("SubtitleStreamIndex"@.len() == 19);
        reveal_strlit("EnableDirectPlay");
        assert("EnableDirectPlay"@.len() == 16);
        reveal_strlit("EnableDirectStream");
        assert("EnableDirectStream"@.len() == 18);
    }
}

/// Every streaming option that is set gives exactly one parameter under its Jellyfin key, ahead of the
/// free-form stream options,
/// holding its value; an option that is not set gives none.
#[verifier::rlimit(100)]
pub proof fn law_stream_params_entries(q: StreamParams)
    ensures
        entries_with(q.fixed_query(), "MaxStreamingBitrate"@) == (match q.max_streaming_bitrate { Some(v) => seq![("MaxStreamingBitrate"@, decimal(v as nat))], None => Seq::empty() }),
        entries_with(q.fixed_query(), "Container"@) == (match q.container { Some(v) => seq![("Container"@, v@)], None => Seq::empty() }),
        entries_with(q.fixed_query(), "AudioCodec"@) == (match q.audio_codec { Some(v) => seq![("AudioCodec"@, v@)], None => Seq::empty() }),
        entries_with(q.fixed_query(), "VideoCodec"@) == (match q.video_codec { Some(v) => seq![("VideoCodec"@, v@)], None => Seq::empty() }),
        entries_with(q.fixed_query(), "AudioBitrate"@) == (match q.audio_bitrate { Some(v) => seq![("AudioBitrate"@, decimal(v as nat))], None => Seq::empty() }),
        entries_with(q.fixed_query(), "VideoBitrate"@) == (match q.video_bitrate { Some(v) => seq![("VideoBitrate"@, decimal(v as nat))], None => Seq::empty() }),
        entries_with(q.fixed_query(), "MaxAudioChannels"@) == (match q.max_audio_channels { Some(v) => seq![("MaxAudioChannels"@, decimal(v as nat))], None => Seq::empty() }),
        entries_with(q.fixed_query(), "MaxWidth"@) == (match q.max_width { Some(v) => seq![("MaxWidth"@, decimal(v as nat))], None => Seq::empty() }),
        entries_with(q.fixed_query(), "MaxHeight"@) == (match q.max_height { Some(v) => seq![("MaxHeight"@, decimal(v as nat))], None => Seq::empty() }),
        entries_with(q.fixed_query(), "StartTimeTicks"@) == (match q.start_time_ticks { Some(v) => seq![("StartTimeTicks"@, signed_decimal(v as int))], None => Seq::empty() }),
        entries_with(q.fixed_query(), "DeviceId"@) == (match q.device_id { Some(v) => seq![("DeviceId"@, v@)], None => Seq::empty() }),
        entries_with(q.fixed_query(), "MediaSourceId"@) == (match q.media_source_id { Some(v) => seq![("MediaSourceId"@, v@)], None => Seq::empty() }),
        entries_with(q.fixed_query(), "PlaySessionId"@) == (match q.play_session_id { Some(v) => seq![("PlaySessionId"@, v@)], None => Seq::empty() }),
        entries_with(q.fixed_query(), "AudioStreamIndex"@) == (match q.audio_stream_index { Some(v) => seq![("AudioStreamIndex"@, signed_decimal(v as int))], None => Seq::empty() }),
        entries_with(q.fixed_query(), "VideoStreamIndex"@) == (match q.video_stream_index { Some(v) => seq![("VideoStreamIndex"@, signed_decimal(v as int))], None => Seq::empty() }),
        entries_with(q.fixed_query(), "SubtitleStreamIndex"@) == (match q.subtitle_stream_index { Some(v) => seq![("SubtitleStreamIndex"@, signed_decimal(v as int))], None => Seq::empty() }),
        entries_with(q.fixed_query(), "EnableDirectPlay"@) == (match q.enable_direct_play { Some(v) => seq![("EnableDirectPlay"@, bool_text(v))], None => Seq::empty() }),
        entries_with(q.fixed_query(), "EnableDirectStream"@) == (match q.enable_direct_stream { Some(v) => seq![("EnableDirectStream"@, bool_text(v))], None => Seq::empty() }),
        entries_with(q.fixed_query(), "EnableTranscoding"@) == (match q.enable_transcoding { Some(v) => seq![("EnableTranscoding"@, bool_text(v))], None => Seq::empty() }),
{
    lemma_stream_params_by_key_key0(q);
    lemma_stream_params_by_key_key1(q);
    lemma_stream_params_by_key_key2(q);
    lemma_stream_params_by_key_key3(q);
    lemma_stream_params_by_key_key4(q);
    lemma_stream_params_by_key_key5(q);
    lemma_stream_params_by_key_key6(q);
    lemma_stream_params_by_key_key7(q);
    lemma_stream_params_by_key_key8(q);
    lemma_stream_params_by_key_key9(q);
    lemma_stream_params_by_key_key10(q);
    lemma_stream_params_by_key_key11(q);
    lemma_stream_params_by_key_key12(q);
    lemma_stream_params_by_key_key13(q);
    lemma_stream_params_by_key_key14(q);
    lemma_stream_params_by_key_key15(q);
    lemma_stream_params_by_key_key16(q);
    lemma_stream_params_by_key_key17(q);
    lemma_stream_params_by_key_key18(q);
}

} // verus!
