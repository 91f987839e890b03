//! Request parameters sent to Jellyfin: item and search queries, stream options,
//! authentication and playback reports.
//!
//! Rating and frame-rate values are floating-point numbers; the parts of the queries that
//! concern them are handled by the application layer, after the checks made here.
use vstd::prelude::*;
use crate::config::opt_text;
use crate::text::{bool_string, bool_text};
use super::query::{
    add_bool, add_entry, add_flag, add_i32_list, add_i64, add_i32, add_list, add_text, add_u32,
    i32_texts, list_entry, opt_bool_text, opt_entry, opt_i32_text, opt_i64_text, opt_u32_text,
    entries_with, lemma_concat_empty, lemma_entries_with_concat, lemma_entries_with_empty, lemma_entries_with_list, lemma_entries_with_opt, lemma_entries_with_single, params_view, same_entries, texts,
};
use crate::text::{decimal, join, signed_decimal};

verus! {

/// Sort order for query results.
#[derive(Debug, Clone, Copy, PartialEq, Eq)]
pub enum SortOrder {
    Ascending,
    Descending,
}

impl SortOrder {
    /// How the order is written in a query.
    pub open spec fn text(&self) -> Seq<char> {
        match self {
            SortOrder::Ascending => "Ascending"@,
            SortOrder::Descending => "Descending"@,
        }
    }

    /// How the order is written in a query.
    pub fn to_string(&self) -> (s: String)
        ensures
            s@ == self.text(),
    {
        match self {
            SortOrder::Ascending => String::from_str("Ascending"),
            SortOrder::Descending => String::from_str("Descending"),
        }
    }
}

impl Default for SortOrder {
    fn default() -> (r: Self)
        ensures
            r == SortOrder::Ascending,
    {
        SortOrder::Ascending
    }
}

/// The outcome of checking a value against a limit: `Ok`, or the message of the first
/// failed check.
pub open spec fn check(ok: bool, message: Seq<char>, rest: Result<(), Seq<char>>) -> Result<(), Seq<char>> {
    if ok { rest } else { Err(message) }
}

/// The characters of a check's outcome.
pub open spec fn outcome_text(r: Result<(), String>) -> Result<(), Seq<char>> {
    match r {
        Ok(()) => Ok(()),
        Err(m) => Err(m@),
    }
}

/// Query parameters for fetching items from the Jellyfin API. (`min_community_rating`
/// and `min_critic_rating`, which hold floating point, are kept by the application, which
/// checks and sends them along with these.)
#[derive(Debug, Clone)]
pub struct ItemsQuery {
    pub parent_id: Option<String>,
    pub include_item_types: Vec<String>,
    pub exclude_item_types: Vec<String>,
    pub recursive: bool,
    pub sort_by: Vec<String>,
    pub sort_order: SortOrder,
    pub limit: Option<u32>,
    pub start_index: Option<u32>,
    pub search_term: Option<String>,
    pub filters: Vec<String>,
    pub fields: Vec<String>,
    pub enable_images: Option<bool>,
    pub image_type_limit: Option<u32>,
    pub enable_image_types: Vec<String>,
    pub enable_user_data: Option<bool>,
    pub enable_total_record_count: Option<bool>,
    pub years: Vec<i32>,
    pub genres: Vec<String>,
    pub official_ratings: Vec<String>,
    pub tags: Vec<String>,
    pub studios: Vec<String>,
    pub artists: Vec<String>,
    pub albums: Vec<String>,
    pub person_ids: Vec<String>,
    pub person_types: Vec<String>,
    pub is_hd: Option<bool>,
    pub is_4k: Option<bool>,
    pub location_types: Vec<String>,
    pub exclude_location_types: Vec<String>,
    pub is_missing: Option<bool>,
    pub is_unaired: Option<bool>,
    pub min_premiere_date: Option<String>,
    pub min_date_last_saved: Option<String>,
    pub min_date_last_saved_for_user: Option<String>,
    pub max_premiere_date: Option<String>,
    pub has_overview: Option<bool>,
    pub has_imdb_id: Option<bool>,
    pub has_tmdb_id: Option<bool>,
    pub has_tvdb_id: Option<bool>,
    pub exclude_item_ids: Vec<String>,
    pub adjacent_to: Option<String>,
    pub min_index_number: Option<i32>,
    pub min_player_count: Option<i32>,
    pub max_player_count: Option<i32>,
    pub parent_index_number: Option<i32>,
    pub has_parental_rating: Option<bool>,
    pub is_hd_or_higher: Option<bool>,
    pub is_locked: Option<bool>,
    pub has_chapters: Option<bool>,
    pub has_subtitles: Option<bool>,
    pub has_special_feature: Option<bool>,
    pub has_trailer: Option<bool>,
    pub has_theme_song: Option<bool>,
    pub has_theme_video: Option<bool>,
    pub series_status: Vec<String>,
    pub name_starts_with_or_greater: Option<String>,
    pub name_starts_with: Option<String>,
    pub name_less_than: Option<String>,
    pub studio_ids: Vec<String>,
    pub genre_ids: Vec<String>,
    pub enable_total_record_count_bool: Option<bool>,
    pub enable_images_bool: Option<bool>,
}

impl ItemsQuery {
    /// A query with no filters.
    pub fn new() -> (r: ItemsQuery)
        ensures
            r.parent_id is None,
            r.include_item_types@.len() == 0,
            r.exclude_item_types@.len() == 0,
            !r.recursive,
            r.sort_by@.len() == 0,
            r.sort_order == SortOrder::Ascending,
            r.limit is None,
            r.start_index is None,
            r.search_term is None,
            r.filters@.len() == 0,
            r.fields@.len() == 0,
            r.enable_images is None,
            r.image_type_limit is None,
            r.enable_image_types@.len() == 0,
            r.enable_user_data is None,
            r.enable_total_record_count is None,
            r.years@.len() == 0,
            r.genres@.len() == 0,
            r.official_ratings@.len() == 0,
            r.tags@.len() == 0,
            r.studios@.len() == 0,
            r.artists@.len() == 0,
            r.albums@.len() == 0,
            r.person_ids@.len() == 0,
            r.person_types@.len() == 0,
            r.is_hd is None,
            r.is_4k is None,
            r.location_types@.len() == 0,
            r.exclude_location_types@.len() == 0,
            r.is_missing is None,
            r.is_unaired is None,
            r.min_premiere_date is None,
            r.min_date_last_saved is None,
            r.min_date_last_saved_for_user is None,
            r.max_premiere_date is None,
            r.has_overview is None,
            r.has_imdb_id is None,
            r.has_tmdb_id is None,
            r.has_tvdb_id is None,
            r.exclude_item_ids@.len() == 0,
            r.adjacent_to is None,
            r.min_index_number is None,
            r.min_player_count is None,
            r.max_player_count is None,
            r.parent_index_number is None,
            r.has_parental_rating is None,
            r.is_hd_or_higher is None,
            r.is_locked is None,
            r.has_chapters is None,
            r.has_subtitles is None,
            r.has_special_feature is None,
            r.has_trailer is None,
            r.has_theme_song is None,
            r.has_theme_video is None,
            r.series_status@.len() == 0,
            r.name_starts_with_or_greater is None,
            r.name_starts_with is None,
            r.name_less_than is None,
            r.studio_ids@.len() == 0,
            r.genre_ids@.len() == 0,
            r.enable_total_record_count_bool is None,
            r.enable_images_bool is None,
    {
        ItemsQuery {
            parent_id: None,
            include_item_types: Vec::new(),
            exclude_item_types: Vec::new(),
            recursive: false,
            sort_by: Vec::new(),
            sort_order: SortOrder::Ascending,
            limit: None,
            start_index: None,
            search_term: None,
            filters: Vec::new(),
            fields: Vec::new(),
            enable_images: None,
            image_type_limit: None,
            enable_image_types: Vec::new(),
            enable_user_data: None,
            enable_total_record_count: None,
            years: Vec::new(),
            genres: Vec::new(),
            official_ratings: Vec::new(),
            tags: Vec::new(),
            studios: Vec::new(),
            artists: Vec::new(),
            albums: Vec::new(),
            person_ids: Vec::new(),
            person_types: Vec::new(),
            is_hd: None,
            is_4k: None,
            location_types: Vec::new(),
            exclude_location_types: Vec::new(),
            is_missing: None,
            is_unaired: None,
            min_premiere_date: None,
            min_date_last_saved: None,
            min_date_last_saved_for_user: None,
            max_premiere_date: None,
            has_overview: None,
            has_imdb_id: None,
            has_tmdb_id: None,
            has_tvdb_id: None,
            exclude_item_ids: Vec::new(),
            adjacent_to: None,
            min_index_number: None,
            min_player_count: None,
            max_player_count: None,
            parent_index_number: None,
            has_parental_rating: None,
            is_hd_or_higher: None,
            is_locked: None,
            has_chapters: None,
            has_subtitles: None,
            has_special_feature: None,
            has_trailer: None,
            has_theme_song: None,
            has_theme_video: None,
            series_status: Vec::new(),
            name_starts_with_or_greater: None,
            name_starts_with: None,
            name_less_than: None,
            studio_ids: Vec::new(),
            genre_ids: Vec::new(),
            enable_total_record_count_bool: None,
            enable_images_bool: None,
        }
    }

    /// Sets the parent id.
    pub fn parent_id(self, value: String) -> (r: Self)
        ensures
            r == (Self { parent_id: Some(value), ..self }),
    {
        let mut r = self;
        r.parent_id = Some(value);
        r
    }

    /// Sets the include item types.
    pub fn include_item_types(self, value: Vec<String>) -> (r: Self)
        ensures
            r == (Self { include_item_types: value, ..self }),
    {
        let mut r = self;
        r.include_item_types = value;
        r
    }

    /// Adds one value to the include item types.
    pub fn include_item_type(self, value: String) -> (r: Self)
        ensures
            r.include_item_types@ == self.include_item_types@.push(value),
            r == (Self { include_item_types: r.include_item_types, ..self }),
    {
        let mut r = self;
        r.include_item_types.push(value);
        r
    }

    /// Sets the exclude item types.
    pub fn exclude_item_types(self, value: Vec<String>) -> (r: Self)
        ensures
            r == (Self { exclude_item_types: value, ..self }),
    {
        let mut r = self;
        r.exclude_item_types = value;
        r
    }

    /// Adds one value to the exclude item types.
    pub fn exclude_item_type(self, value: String) -> (r: Self)
        ensures
            r.exclude_item_types@ == self.exclude_item_types@.push(value),
            r == (Self { exclude_item_types: r.exclude_item_types, ..self }),
    {
        let mut r = self;
        r.exclude_item_types.push(value);
        r
    }

    /// Sets the recursive.
    pub fn recursive(self, value: bool) -> (r: Self)
        ensures
            r == (Self { recursive: value, ..self }),
    {
        let mut r = self;
        r.recursive = value;
        r
    }

    /// Sets the sort by.
    pub fn sort_by(self, value: Vec<String>) -> (r: Self)
        ensures
            r == (Self { sort_by: value, ..self }),
    {
        let mut r = self;
        r.sort_by = value;
        r
    }

    /// Adds one value to the sort by.
    pub fn add_sort_by(self, value: String) -> (r: Self)
        ensures
            r.sort_by@ == self.sort_by@.push(value),
            r == (Self { sort_by: r.sort_by, ..self }),
    {
        let mut r = self;
        r.sort_by.push(value);
        r
    }

    /// Sets the sort order.
    pub fn sort_order(self, value: SortOrder) -> (r: Self)
        ensures
            r == (Self { sort_order: value, ..self }),
    {
        let mut r = self;
        r.sort_order = value;
        r
    }

    /// Sets the limit.
    pub fn limit(self, value: u32) -> (r: Self)
        ensures
            r == (Self { limit: Some(value), ..self }),
    {
        let mut r = self;
        r.limit = Some(value);
        r
    }

    /// Sets the start index.
    pub fn start_index(self, value: u32) -> (r: Self)
        ensures
            r == (Self { start_index: Some(value), ..self }),
    {
        let mut r = self;
        r.start_index = Some(value);
        r
    }

    /// Sets the search term.
    pub fn search_term(self, value: String) -> (r: Self)
        ensures
            r == (Self { search_term: Some(value), ..self }),
    {
        let mut r = self;
        r.search_term = Some(value);
        r
    }

    /// Sets the filters.
    pub fn filters(self, value: Vec<String>) -> (r: Self)
        ensures
            r == (Self { filters: value, ..self }),
    {
        let mut r = self;
        r.filters = value;
        r
    }

    /// Adds one value to the filters.
    pub fn add_filter(self, value: String) -> (r: Self)
        ensures
            r.filters@ == self.filters@.push(value),
            r == (Self { filters: r.filters, ..self }),
    {
        let mut r = self;
        r.filters.push(value);
        r
    }

    /// Sets the fields.
    pub fn fields(self, value: Vec<String>) -> (r: Self)
        ensures
            r == (Self { fields: value, ..self }),
    {
        let mut r = self;
        r.fields = value;
        r
    }

    /// Adds one value to the fields.
    pub fn add_field(self, value: String) -> (r: Self)
        ensures
            r.fields@ == self.fields@.push(value),
            r == (Self { fields: r.fields, ..self }),
    {
        let mut r = self;
        r.fields.push(value);
        r
    }

    /// Sets the enable images.
    pub fn enable_images(self, value: bool) -> (r: Self)
        ensures
            r == (Self { enable_images: Some(value), ..self }),
    {
        let mut r = self;
        r.enable_images = Some(value);
        r
    }

    /// Sets the image type limit.
    pub fn image_type_limit(self, value: u32) -> (r: Self)
        ensures
            r == (Self { image_type_limit: Some(value), ..self }),
    {
        let mut r = self;
        r.image_type_limit = Some(value);
        r
    }

    /// Sets the enable image types.
    pub fn enable_image_types(self, value: Vec<String>) -> (r: Self)
        ensures
            r == (Self { enable_image_types: value, ..self }),
    {
        let mut r = self;
        r.enable_image_types = value;
        r
    }

    /// Sets the enable user data.
    pub fn enable_user_data(self, value: bool) -> (r: Self)
        ensures
            r == (Self { enable_user_data: Some(value), ..self }),
    {
        let mut r = self;
        r.enable_user_data = Some(value);
        r
    }

    /// Sets the enable total record count.
    pub fn enable_total_record_count(self, value: bool) -> (r: Self)
        ensures
            r == (Self { enable_total_record_count: Some(value), ..self }),
    {
        let mut r = self;
        r.enable_total_record_count = Some(value);
        r
    }

    /// Sets the years.
    pub fn years(self, value: Vec<i32>) -> (r: Self)
        ensures
            r == (Self { years: value, ..self }),
    {
        let mut r = self;
        r.years = value;
        r
    }

    /// Adds one value to the years.
    pub fn add_year(self, value: i32) -> (r: Self)
        ensures
            r.years@ == self.years@.push(value),
            r == (Self { years: r.years, ..self }),
    {
        let mut r = self;
        r.years.push(value);
        r
    }

    /// Sets the genres.
    pub fn genres(self, value: Vec<String>) -> (r: Self)
        ensures
            r == (Self { genres: value, ..self }),
    {
        let mut r = self;
        r.genres = value;
        r
    }

    /// Adds one value to the genres.
    pub fn add_genre(self, value: String) -> (r: Self)
        ensures
            r.genres@ == self.genres@.push(value),
            r == (Self { genres: r.genres, ..self }),
    {
        let mut r = self;
        r.genres.push(value);
        r
    }

    /// Sets the official ratings.
    pub fn official_ratings(self, value: Vec<String>) -> (r: Self)
        ensures
            r == (Self { official_ratings: value, ..self }),
    {
        let mut r = self;
        r.official_ratings = value;
        r
    }

    /// Sets the tags.
    pub fn tags(self, value: Vec<String>) -> (r: Self)
        ensures
            r == (Self { tags: value, ..self }),
    {
        let mut r = self;
        r.tags = value;
        r
    }

    /// Sets the studios.
    pub fn studios(self, value: Vec<String>) -> (r: Self)
        ensures
            r == (Self { studios: value, ..self }),
    {
        let mut r = self;
        r.studios = value;
        r
    }

    /// Sets the artists.
    pub fn artists(self, value: Vec<String>) -> (r: Self)
        ensures
            r == (Self { artists: value, ..self }),
    {
        let mut r = self;
        r.artists = value;
        r
    }

    /// Sets the albums.
    pub fn albums(self, value: Vec<String>) -> (r: Self)
        ensures
            r == (Self { albums: value, ..self }),
    {
        let mut r = self;
        r.albums = value;
        r
    }

    /// Sets the is hd.
    pub fn is_hd(self, value: bool) -> (r: Self)
        ensures
            r == (Self { is_hd: Some(value), ..self }),
    {
        let mut r = self;
        r.is_hd = Some(value);
        r
    }

    /// Sets the is 4k.
    pub fn is_4k(self, value: bool) -> (r: Self)
        ensures
            r == (Self { is_4k: Some(value), ..self }),
    {
        let mut r = self;
        r.is_4k = Some(value);
        r
    }

    /// Checks the limit: when set it must be between 1 and 10000.
    pub fn validate(&self) -> (r: Result<(), String>)
        ensures
            outcome_text(r) == match self.limit {
                Some(l) => check(l != 0, "Limit must be greater than 0"@,
                    check(l <= 10000, "Limit cannot exceed 10000"@, Ok(()))),
                None => Ok(()),
            },
    {
        if let Some(limit) = self.limit {
            if limit == 0 {
                return Err(String::from_str("Limit must be greater than 0"));
            }
            if limit > 10000 {
                return Err(String::from_str("Limit cannot exceed 10000"));
            }
        }
        Ok(())
    }

    /// The query parameters of this query, one per key, in a fixed order.
    pub open spec fn query(&self) -> Seq<(Seq<char>, Seq<char>)> {
        opt_entry("ParentId"@, opt_text(self.parent_id))
            + list_entry("IncludeItemTypes"@, texts(self.include_item_types@))
            + list_entry("ExcludeItemTypes"@, texts(self.exclude_item_types@))
            + (if self.recursive { seq![("Recursive"@, bool_text(true))] } else { Seq::empty() })
            + list_entry("SortBy"@, texts(self.sort_by@))
            + seq![("SortOrder"@, self.sort_order.text())]
            + opt_entry("Limit"@, opt_u32_text(self.limit))
            + opt_entry("StartIndex"@, opt_u32_text(self.start_index))
            + opt_entry("SearchTerm"@, opt_text(self.search_term))
            + list_entry("Filters"@, texts(self.filters@))
            + list_entry("Fields"@, texts(self.fields@))
            + opt_entry("EnableImages"@, opt_bool_text(self.enable_images))
            + opt_entry("ImageTypeLimit"@, opt_u32_text(self.image_type_limit))
            + list_entry("EnableImageTypes"@, texts(self.enable_image_types@))
            + opt_entry("EnableUserData"@, opt_bool_text(self.enable_user_data))
            + opt_entry("EnableTotalRecordCount"@, opt_bool_text(self.enable_total_record_count))
            + list_entry("Years"@, i32_texts(self.years@))
            + list_entry("Genres"@, texts(self.genres@))
            + list_entry("OfficialRatings"@, texts(self.official_ratings@))
            + list_entry("Tags"@, texts(self.tags@))
            + list_entry("Studios"@, texts(self.studios@))
            + list_entry("Artists"@, texts(self.artists@))
            + list_entry("Albums"@, texts(self.albums@))
            + opt_entry("IsHD"@, opt_bool_text(self.is_hd))
            + opt_entry("Is4K"@, opt_bool_text(self.is_4k))
    }

    /// The query parameters of this query: one entry per filter that is set.
    pub fn to_query_params(&self) -> (params: Vec<(String, String)>)
        ensures
            params_view(params@) == self.query(),
    {
        let mut params: Vec<(String, String)> = Vec::new();
        let ghost start = params_view(params@);
        add_text(&mut params, "ParentId", &self.parent_id);
        proof { assert(start =~= Seq::<(Seq<char>, Seq<char>)>::empty()); assert(params_view(params@) =~= opt_entry("ParentId"@, opt_text(self.parent_id))); }
        add_list(&mut params, "IncludeItemTypes", &self.include_item_types);
        add_list(&mut params, "ExcludeItemTypes", &self.exclude_item_types);
        add_flag(&mut params, "Recursive", self.recursive);
        add_list(&mut params, "SortBy", &self.sort_by);
        add_entry(&mut params, "SortOrder", self.sort_order.to_string());
        add_u32(&mut params, "Limit", self.limit);
        add_u32(&mut params, "StartIndex", self.start_index);
        add_text(&mut params, "SearchTerm", &self.search_term);
        add_list(&mut params, "Filters", &self.filters);
        add_list(&mut params, "Fields", &self.fields);
        add_bool(&mut params, "EnableImages", self.enable_images);
        add_u32(&mut params, "ImageTypeLimit", self.image_type_limit);
        add_list(&mut params, "EnableImageTypes", &self.enable_image_types);
        add_bool(&mut params, "EnableUserData", self.enable_user_data);
        add_bool(&mut params, "EnableTotalRecordCount", self.enable_total_record_count);
        add_i32_list(&mut params, "Years", &self.years);
        add_list(&mut params, "Genres", &self.genres);
        add_list(&mut params, "OfficialRatings", &self.official_ratings);
        add_list(&mut params, "Tags", &self.tags);
        add_list(&mut params, "Studios", &self.studios);
        add_list(&mut params, "Artists", &self.artists);
        add_list(&mut params, "Albums", &self.albums);
        add_bool(&mut params, "IsHD", self.is_hd);
        add_bool(&mut params, "Is4K", self.is_4k);
        params
    }

}

/// Parameters for streaming media content. (`framerate`, which holds floating point, is
/// kept by the application, which tells `validate` whether it is in range and sends it
/// along with these.)
#[derive(Debug, Clone)]
pub struct StreamParams {
    pub max_streaming_bitrate: Option<u32>,
    pub max_audio_channels: Option<u32>,
    pub container: Option<String>,
    pub audio_codec: Option<String>,
    pub video_codec: Option<String>,
    pub audio_sample_rate: Option<u32>,
    pub max_audio_bitrate: Option<u32>,
    pub max_video_bitrate: Option<u32>,
    pub profile: Option<String>,
    pub level: Option<String>,
    pub max_width: Option<u32>,
    pub max_height: Option<u32>,
    pub start_time_ticks: Option<i64>,
    pub width: Option<u32>,
    pub height: Option<u32>,
    pub video_bitrate: Option<u32>,
    pub audio_bitrate: Option<u32>,
    pub audio_channels: Option<u32>,
    pub device_id: Option<String>,
    pub play_session_id: Option<String>,
    pub live_stream_id: Option<String>,
    pub media_source_id: Option<String>,
    pub subtitle_stream_index: Option<i32>,
    pub audio_stream_index: Option<i32>,
    pub video_stream_index: Option<i32>,
    pub segment_container: Option<String>,
    pub segment_length: Option<u32>,
    pub min_segments: Option<u32>,
    pub break_on_non_key_frames: Option<bool>,
    pub require_avc: Option<bool>,
    pub de_interlace: Option<bool>,
    pub require_non_anamorphic: Option<bool>,
    pub transcoding_max_audio_channels: Option<u32>,
    pub cpu_core_limit: Option<u32>,
    pub enable_mpegts_m2ts_mode: Option<bool>,
    pub video_range: Option<String>,
    pub enable_subtitles_in_manifest: Option<bool>,
}

impl StreamParams {
    /// Parameters with no option set.
    pub fn new() -> (r: StreamParams)
        ensures
            r.max_streaming_bitrate is None,
            r.max_audio_channels is None,
            r.container is None,
            r.audio_codec is None,
            r.video_codec is None,
            r.audio_sample_rate is None,
            r.max_audio_bitrate is None,
            r.max_video_bitrate is None,
            r.profile is None,
            r.level is None,
            r.max_width is None,
            r.max_height is None,
            r.start_time_ticks is None,
            r.width is None,
            r.height is None,
            r.video_bitrate is None,
            r.audio_bitrate is None,
            r.audio_channels is None,
            r.device_id is None,
            r.play_session_id is None,
            r.live_stream_id is None,
            r.media_source_id is None,
            r.subtitle_stream_index is None,
            r.audio_stream_index is None,
            r.video_stream_index is None,
            r.segment_container is None,
            r.segment_length is None,
            r.min_segments is None,
            r.break_on_non_key_frames is None,
            r.require_avc is None,
            r.de_interlace is None,
            r.require_non_anamorphic is None,
            r.transcoding_max_audio_channels is None,
            r.cpu_core_limit is None,
            r.enable_mpegts_m2ts_mode is None,
            r.video_range is None,
            r.enable_subtitles_in_manifest is None,
    {
        StreamParams {
            max_streaming_bitrate: None,
            max_audio_channels: None,
            container: None,
            audio_codec: None,
            video_codec: None,
            audio_sample_rate: None,
            max_audio_bitrate: None,
            max_video_bitrate: None,
            profile: None,
            level: None,
            max_width: None,
            max_height: None,
            start_time_ticks: None,
            width: None,
            height: None,
            video_bitrate: None,
            audio_bitrate: None,
            audio_channels: None,
            device_id: None,
            play_session_id: None,
            live_stream_id: None,
            media_source_id: None,
            subtitle_stream_index: None,
            audio_stream_index: None,
            video_stream_index: None,
            segment_container: None,
            segment_length: None,
            min_segments: None,
            break_on_non_key_frames: None,
            require_avc: None,
            de_interlace: None,
            require_non_anamorphic: None,
            transcoding_max_audio_channels: None,
            cpu_core_limit: None,
            enable_mpegts_m2ts_mode: None,
            video_range: None,
            enable_subtitles_in_manifest: None,
        }
    }

    /// Sets the max streaming bitrate.
    pub fn max_streaming_bitrate(self, value: u32) -> (r: Self)
        ensures
            r == (Self { max_streaming_bitrate: Some(value), ..self }),
    {
        let mut r = self;
        r.max_streaming_bitrate = Some(value);
        r
    }

    /// Sets the max audio channels.
    pub fn max_audio_channels(self, value: u32) -> (r: Self)
        ensures
            r == (Self { max_audio_channels: Some(value), ..self }),
    {
        let mut r = self;
        r.max_audio_channels = Some(value);
        r
    }

    /// Sets the container.
    pub fn container(self, value: String) -> (r: Self)
        ensures
            r == (Self { container: Some(value), ..self }),
    {
        let mut r = self;
        r.container = Some(value);
        r
    }

    /// Sets the audio codec.
    pub fn audio_codec(self, value: String) -> (r: Self)
        ensures
            r == (Self { audio_codec: Some(value), ..self }),
    {
        let mut r = self;
        r.audio_codec = Some(value);
        r
    }

    /// Sets the video codec.
    pub fn video_codec(self, value: String) -> (r: Self)
        ensures
            r == (Self { video_codec: Some(value), ..self }),
    {
        let mut r = self;
        r.video_codec = Some(value);
        r
    }

    /// Sets the audio sample rate.
    pub fn audio_sample_rate(self, value: u32) -> (r: Self)
        ensures
            r == (Self { audio_sample_rate: Some(value), ..self }),
    {
        let mut r = self;
        r.audio_sample_rate = Some(value);
        r
    }

    /// Sets the max audio bitrate.
    pub fn max_audio_bitrate(self, value: u32) -> (r: Self)
        ensures
            r == (Self { max_audio_bitrate: Some(value), ..self }),
    {
        let mut r = self;
        r.max_audio_bitrate = Some(value);
        r
    }

    /// Sets the max video bitrate.
    pub fn max_video_bitrate(self, value: u32) -> (r: Self)
        ensures
            r == (Self { max_video_bitrate: Some(value), ..self }),
    {
        let mut r = self;
        r.max_video_bitrate = Some(value);
        r
    }

    /// Sets the profile.
    pub fn profile(self, value: String) -> (r: Self)
        ensures
            r == (Self { profile: Some(value), ..self }),
    {
        let mut r = self;
        r.profile = Some(value);
        r
    }

    /// Sets the level.
    pub fn level(self, value: String) -> (r: Self)
        ensures
            r == (Self { level: Some(value), ..self }),
    {
        let mut r = self;
        r.level = Some(value);
        r
    }

    /// Sets the max width.
    pub fn max_width(self, value: u32) -> (r: Self)
        ensures
            r == (Self { max_width: Some(value), ..self }),
    {
        let mut r = self;
        r.max_width = Some(value);
        r
    }

    /// Sets the max height.
    pub fn max_height(self, value: u32) -> (r: Self)
        ensures
            r == (Self { max_height: Some(value), ..self }),
    {
        let mut r = self;
        r.max_height = Some(value);
        r
    }

    /// Sets the start time ticks.
    pub fn start_time_ticks(self, value: i64) -> (r: Self)
        ensures
            r == (Self { start_time_ticks: Some(value), ..self }),
    {
        let mut r = self;
        r.start_time_ticks = Some(value);
        r
    }

    /// Sets the device id.
    pub fn device_id(self, value: String) -> (r: Self)
        ensures
            r == (Self { device_id: Some(value), ..self }),
    {
        let mut r = self;
        r.device_id = Some(value);
        r
    }

    /// Sets the play session id.
    pub fn play_session_id(self, value: String) -> (r: Self)
        ensures
            r == (Self { play_session_id: Some(value), ..self }),
    {
        let mut r = self;
        r.play_session_id = Some(value);
        r
    }

    /// Sets the media source id.
    pub fn media_source_id(self, value: String) -> (r: Self)
        ensures
            r == (Self { media_source_id: Some(value), ..self }),
    {
        let mut r = self;
        r.media_source_id = Some(value);
        r
    }

    /// Sets the subtitle stream index.
    pub fn subtitle_stream_index(self, value: i32) -> (r: Self)
        ensures
            r == (Self { subtitle_stream_index: Some(value), ..self }),
    {
        let mut r = self;
        r.subtitle_stream_index = Some(value);
        r
    }

    /// Sets the audio stream index.
    pub fn audio_stream_index(self, value: i32) -> (r: Self)
        ensures
            r == (Self { audio_stream_index: Some(value), ..self }),
    {
        let mut r = self;
        r.audio_stream_index = Some(value);
        r
    }

    /// Sets the video stream index.
    pub fn video_stream_index(self, value: i32) -> (r: Self)
        ensures
            r == (Self { video_stream_index: Some(value), ..self }),
    {
        let mut r = self;
        r.video_stream_index = Some(value);
        r
    }

    /// Checks the options in order: the streaming bitrate must not be 0, the audio channels
    /// must be between 1 and 8, the frame rate must be above 0 and at most 120 (given as
    /// `framerate_in_range` when a frame rate is set), the width between 1 and 7680 and
    /// the height between 1 and 4320.
    pub fn validate(&self, framerate_in_range: Option<bool>) -> (r: Result<(), String>)
        ensures
            outcome_text(r) ==
                check(!(self.max_streaming_bitrate matches Some(b) && b == 0),
                    "Max streaming bitrate must be greater than 0"@,
                check(!(self.max_audio_channels matches Some(c) && (c == 0 || c > 8)),
                    "Max audio channels must be between 1 and 8"@,
                check(!(framerate_in_range matches Some(ok) && !ok),
                    "Framerate must be between 0.0 and 120.0"@,
                check(!(self.max_width matches Some(w) && (w == 0 || w > 7680)),
                    "Max width must be between 1 and 7680"@,
                check(!(self.max_height matches Some(h) && (h == 0 || h > 4320)),
                    "Max height must be between 1 and 4320"@,
                Ok(())))))),
    {
        if let Some(bitrate) = self.max_streaming_bitrate {
            if bitrate == 0 {
                return Err(String::from_str("Max streaming bitrate must be greater than 0"));
            }
        }
        if let Some(channels) = self.max_audio_channels {
            if channels == 0 || channels > 8 {
                return Err(String::from_str("Max audio channels must be between 1 and 8"));
            }
        }
        if let Some(ok) = framerate_in_range {
            if !ok {
                return Err(String::from_str("Framerate must be between 0.0 and 120.0"));
            }
        }
        if let Some(width) = self.max_width {
            if width == 0 || width > 7680 {
                return Err(String::from_str("Max width must be between 1 and 7680"));
            }
        }
        if let Some(height) = self.max_height {
            if height == 0 || height > 4320 {
                return Err(String::from_str("Max height must be between 1 and 4320"));
            }
        }
        Ok(())
    }

    /// The query parameters of these options, one per key, in a fixed order.
    pub open spec fn query(&self) -> Seq<(Seq<char>, Seq<char>)> {
        opt_entry("MaxStreamingBitrate"@, opt_u32_text(self.max_streaming_bitrate))
            + opt_entry("MaxAudioChannels"@, opt_u32_text(self.max_audio_channels))
            + opt_entry("Container"@, opt_text(self.container))
            + opt_entry("AudioCodec"@, opt_text(self.audio_codec))
            + opt_entry("VideoCodec"@, opt_text(self.video_codec))
            + opt_entry("AudioSampleRate"@, opt_u32_text(self.audio_sample_rate))
            + opt_entry("MaxAudioBitrate"@, opt_u32_text(self.max_audio_bitrate))
            + opt_entry("MaxVideoBitrate"@, opt_u32_text(self.max_video_bitrate))
            + opt_entry("Profile"@, opt_text(self.profile))
            + opt_entry("Level"@, opt_text(self.level))
            + opt_entry("MaxWidth"@, opt_u32_text(self.max_width))
            + opt_entry("MaxHeight"@, opt_u32_text(self.max_height))
            + opt_entry("StartTimeTicks"@, opt_i64_text(self.start_time_ticks))
            + opt_entry("DeviceId"@, opt_text(self.device_id))
            + opt_entry("PlaySessionId"@, opt_text(self.play_session_id))
            + opt_entry("MediaSourceId"@, opt_text(self.media_source_id))
            + opt_entry("SubtitleStreamIndex"@, opt_i32_text(self.subtitle_stream_index))
            + opt_entry("AudioStreamIndex"@, opt_i32_text(self.audio_stream_index))
            + opt_entry("VideoStreamIndex"@, opt_i32_text(self.video_stream_index))
    }

    /// The query parameters of these options: one entry per option that is set.
    pub fn to_query_params(&self) -> (params: Vec<(String, String)>)
        ensures
            params_view(params@) == self.query(),
    {
        let mut params: Vec<(String, String)> = Vec::new();
        let ghost start = params_view(params@);
        add_u32(&mut params, "MaxStreamingBitrate", self.max_streaming_bitrate);
        proof { assert(start =~= Seq::<(Seq<char>, Seq<char>)>::empty()); assert(params_view(params@) =~= opt_entry("MaxStreamingBitrate"@, opt_u32_text(self.max_streaming_bitrate))); }
        add_u32(&mut params, "MaxAudioChannels", self.max_audio_channels);
        add_text(&mut params, "Container", &self.container);
        add_text(&mut params, "AudioCodec", &self.audio_codec);
        add_text(&mut params, "VideoCodec", &self.video_codec);
        add_u32(&mut params, "AudioSampleRate", self.audio_sample_rate);
        add_u32(&mut params, "MaxAudioBitrate", self.max_audio_bitrate);
        add_u32(&mut params, "MaxVideoBitrate", self.max_video_bitrate);
        add_text(&mut params, "Profile", &self.profile);
        add_text(&mut params, "Level", &self.level);
        add_u32(&mut params, "MaxWidth", self.max_width);
        add_u32(&mut params, "MaxHeight", self.max_height);
        add_i64(&mut params, "StartTimeTicks", self.start_time_ticks);
        add_text(&mut params, "DeviceId", &self.device_id);
        add_text(&mut params, "PlaySessionId", &self.play_session_id);
        add_text(&mut params, "MediaSourceId", &self.media_source_id);
        add_i32(&mut params, "SubtitleStreamIndex", self.subtitle_stream_index);
        add_i32(&mut params, "AudioStreamIndex", self.audio_stream_index);
        add_i32(&mut params, "VideoStreamIndex", self.video_stream_index);
        params
    }

}

/// Parameters for authentication requests.
#[derive(Debug, Clone)]
pub struct AuthRequest {
    pub username: String,
    pub password: String,
}

impl AuthRequest {
    /// A request for `username` with `password`.
    pub fn new(username: String, password: String) -> (r: AuthRequest)
        ensures
            r == (AuthRequest { username, password }),
    {
        AuthRequest { username, password }
    }
}

/// Parameters for playback reporting
#[derive(Debug, Clone)]
pub struct PlaybackStartInfo {
    pub item_id: String,
    pub session_id: Option<String>,
    pub media_source_id: Option<String>,
    pub audio_stream_index: Option<i32>,
    pub subtitle_stream_index: Option<i32>,
    pub play_method: String,
    pub live_stream_id: Option<String>,
    pub play_session_id: Option<String>,
    pub can_seek: bool,
}

/// Parameters for playback progress reporting
#[derive(Debug, Clone)]
pub struct PlaybackProgressInfo {
    pub item_id: String,
    pub session_id: Option<String>,
    pub media_source_id: Option<String>,
    pub position_ticks: i64,
    pub audio_stream_index: Option<i32>,
    pub subtitle_stream_index: Option<i32>,
    pub volume_level: Option<i32>,
    pub is_paused: bool,
    pub is_muted: bool,
    pub play_method: String,
    pub live_stream_id: Option<String>,
    pub play_session_id: Option<String>,
    pub repeat_mode: Option<String>,
    pub max_streaming_bitrate: Option<i64>,
}

/// Parameters for playback stop reporting
#[derive(Debug, Clone)]
pub struct PlaybackStopInfo {
    pub item_id: String,
    pub session_id: Option<String>,
    pub media_source_id: Option<String>,
    pub position_ticks: i64,
    pub live_stream_id: Option<String>,
    pub play_session_id: Option<String>,
    pub failed: Option<bool>,
    pub next_media_type: Option<String>,
    pub playlist_item_id: Option<String>,
    pub now_playing_queue: Option<Vec<String>>,
}

/// Search query parameters.
#[derive(Debug, Clone)]
pub struct SearchQuery {
    pub search_term: String,
    pub include_item_types: Vec<String>,
    pub exclude_item_types: Vec<String>,
    pub media_types: Vec<String>,
    pub parent_id: Option<String>,
    pub is_movie: Option<bool>,
    pub is_series: Option<bool>,
    pub is_news: Option<bool>,
    pub is_kids: Option<bool>,
    pub is_sports: Option<bool>,
    pub start_index: Option<u32>,
    pub limit: Option<u32>,
    pub user_id: Option<String>,
}

impl SearchQuery {
    /// A search for `search_term` with no other filter.
    pub fn new(search_term: String) -> (r: SearchQuery)
        ensures
            r.search_term == search_term,
            r.include_item_types@.len() == 0,
            r.exclude_item_types@.len() == 0,
            r.media_types@.len() == 0,
            r.parent_id is None,
            r.is_movie is None,
            r.is_series is None,
            r.is_news is None,
            r.is_kids is None,
            r.is_sports is None,
            r.start_index is None,
            r.limit is None,
            r.user_id is None,
    {
        SearchQuery {
            search_term,
            include_item_types: Vec::new(),
            exclude_item_types: Vec::new(),
            media_types: Vec::new(),
            parent_id: None,
            is_movie: None,
            is_series: None,
            is_news: None,
            is_kids: None,
            is_sports: None,
            start_index: None,
            limit: None,
            user_id: None,
        }
    }

    /// Sets the include item types.
    pub fn include_item_types(self, value: Vec<String>) -> (r: Self)
        ensures
            r == (Self { include_item_types: value, ..self }),
    {
        let mut r = self;
        r.include_item_types = value;
        r
    }

    /// Sets the exclude item types.
    pub fn exclude_item_types(self, value: Vec<String>) -> (r: Self)
        ensures
            r == (Self { exclude_item_types: value, ..self }),
    {
        let mut r = self;
        r.exclude_item_types = value;
        r
    }

    /// Sets the media types.
    pub fn media_types(self, value: Vec<String>) -> (r: Self)
        ensures
            r == (Self { media_types: value, ..self }),
    {
        let mut r = self;
        r.media_types = value;
        r
    }

    /// Sets the parent id.
    pub fn parent_id(self, value: String) -> (r: Self)
        ensures
            r == (Self { parent_id: Some(value), ..self }),
    {
        let mut r = self;
        r.parent_id = Some(value);
        r
    }

    /// Sets the limit.
    pub fn limit(self, value: u32) -> (r: Self)
        ensures
            r == (Self { limit: Some(value), ..self }),
    {
        let mut r = self;
        r.limit = Some(value);
        r
    }

    /// Sets the start index.
    pub fn start_index(self, value: u32) -> (r: Self)
        ensures
            r == (Self { start_index: Some(value), ..self }),
    {
        let mut r = self;
        r.start_index = Some(value);
        r
    }

    /// The query parameters of this search, one per key, in a fixed order.
    pub open spec fn query(&self) -> Seq<(Seq<char>, Seq<char>)> {
        seq![("SearchTerm"@, self.search_term@)]
            + list_entry("IncludeItemTypes"@, texts(self.include_item_types@))
            + list_entry("ExcludeItemTypes"@, texts(self.exclude_item_types@))
            + list_entry("MediaTypes"@, texts(self.media_types@))
            + opt_entry("ParentId"@, opt_text(self.parent_id))
            + opt_entry("Limit"@, opt_u32_text(self.limit))
            + opt_entry("StartIndex"@, opt_u32_text(self.start_index))
    }

    /// The query parameters of this search: the term and each filter that is set.
    pub fn to_query_params(&self) -> (params: Vec<(String, String)>)
        ensures
            params_view(params@) == self.query(),
    {
        let mut params: Vec<(String, String)> = Vec::new();
        let ghost start = params_view(params@);
        add_entry(&mut params, "SearchTerm", self.search_term.clone());
        proof { assert(start =~= Seq::<(Seq<char>, Seq<char>)>::empty()); assert(params_view(params@) =~= seq![("SearchTerm"@, self.search_term@)]); }
        add_list(&mut params, "IncludeItemTypes", &self.include_item_types);
        add_list(&mut params, "ExcludeItemTypes", &self.exclude_item_types);
        add_list(&mut params, "MediaTypes", &self.media_types);
        add_text(&mut params, "ParentId", &self.parent_id);
        add_u32(&mut params, "Limit", self.limit);
        add_u32(&mut params, "StartIndex", self.start_index);
        params
    }

}

impl Default for ItemsQuery {
    /// Every option unset: empty lists and texts, no optional values, flags off.
    fn default() -> (r: ItemsQuery)
        ensures
            r.parent_id is None,
            r.include_item_types@.len() == 0,
            r.exclude_item_types@.len() == 0,
            !r.recursive,
            r.sort_by@.len() == 0,
            r.sort_order == SortOrder::Ascending,
            r.limit is None,
            r.start_index is None,
            r.search_term is None,
            r.filters@.len() == 0,
            r.fields@.len() == 0,
            r.enable_images is None,
            r.image_type_limit is None,
            r.enable_image_types@.len() == 0,
            r.enable_user_data is None,
            r.enable_total_record_count is None,
            r.years@.len() == 0,
            r.genres@.len() == 0,
            r.official_ratings@.len() == 0,
            r.tags@.len() == 0,
            r.studios@.len() == 0,
            r.artists@.len() == 0,
            r.albums@.len() == 0,
            r.person_ids@.len() == 0,
            r.person_types@.len() == 0,
            r.is_hd is None,
            r.is_4k is None,
            r.location_types@.len() == 0,
            r.exclude_location_types@.len() == 0,
            r.is_missing is None,
            r.is_unaired is None,
            r.min_premiere_date is None,
            r.min_date_last_saved is None,
            r.min_date_last_saved_for_user is None,
            r.max_premiere_date is None,
            r.has_overview is None,
            r.has_imdb_id is None,
            r.has_tmdb_id is None,
            r.has_tvdb_id is None,
            r.exclude_item_ids@.len() == 0,
            r.adjacent_to is None,
            r.min_index_number is None,
            r.min_player_count is None,
            r.max_player_count is None,
            r.parent_index_number is None,
            r.has_parental_rating is None,
            r.is_hd_or_higher is None,
            r.is_locked is None,
            r.has_chapters is None,
            r.has_subtitles is None,
            r.has_special_feature is None,
            r.has_trailer is None,
            r.has_theme_song is None,
            r.has_theme_video is None,
            r.series_status@.len() == 0,
            r.name_starts_with_or_greater is None,
            r.name_starts_with is None,
            r.name_less_than is None,
            r.studio_ids@.len() == 0,
            r.genre_ids@.len() == 0,
            r.enable_total_record_count_bool is None,
            r.enable_images_bool is None,
    {
        ItemsQuery {
            parent_id: None,
            include_item_types: Vec::new(),
            exclude_item_types: Vec::new(),
            recursive: false,
            sort_by: Vec::new(),
            sort_order: SortOrder::Ascending,
            limit: None,
            start_index: None,
            search_term: None,
            filters: Vec::new(),
            fields: Vec::new(),
            enable_images: None,
            image_type_limit: None,
            enable_image_types: Vec::new(),
            enable_user_data: None,
            enable_total_record_count: None,
            years: Vec::new(),
            genres: Vec::new(),
            official_ratings: Vec::new(),
            tags: Vec::new(),
            studios: Vec::new(),
            artists: Vec::new(),
            albums: Vec::new(),
            person_ids: Vec::new(),
            person_types: Vec::new(),
            is_hd: None,
            is_4k: None,
            location_types: Vec::new(),
            exclude_location_types: Vec::new(),
            is_missing: None,
            is_unaired: None,
            min_premiere_date: None,
            min_date_last_saved: None,
            min_date_last_saved_for_user: None,
            max_premiere_date: None,
            has_overview: None,
            has_imdb_id: None,
            has_tmdb_id: None,
            has_tvdb_id: None,
            exclude_item_ids: Vec::new(),
            adjacent_to: None,
            min_index_number: None,
            min_player_count: None,
            max_player_count: None,
            parent_index_number: None,
            has_parental_rating: None,
            is_hd_or_higher: None,
            is_locked: None,
            has_chapters: None,
            has_subtitles: None,
            has_special_feature: None,
            has_trailer: None,
            has_theme_song: None,
            has_theme_video: None,
            series_status: Vec::new(),
            name_starts_with_or_greater: None,
            name_starts_with: None,
            name_less_than: None,
            studio_ids: Vec::new(),
            genre_ids: Vec::new(),
            enable_total_record_count_bool: None,
            enable_images_bool: None,
        }
    }
}

impl Default for StreamParams {
    /// Every option unset: empty lists and texts, no optional values, flags off.
    fn default() -> (r: StreamParams)
        ensures
            r.max_streaming_bitrate is None,
            r.max_audio_channels is None,
            r.container is None,
            r.audio_codec is None,
            r.video_codec is None,
            r.audio_sample_rate is None,
            r.max_audio_bitrate is None,
            r.max_video_bitrate is None,
            r.profile is None,
            r.level is None,
            r.max_width is None,
            r.max_height is None,
            r.start_time_ticks is None,
            r.width is None,
            r.height is None,
            r.video_bitrate is None,
            r.audio_bitrate is None,
            r.audio_channels is None,
            r.device_id is None,
            r.play_session_id is None,
            r.live_stream_id is None,
            r.media_source_id is None,
            r.subtitle_stream_index is None,
            r.audio_stream_index is None,
            r.video_stream_index is None,
            r.segment_container is None,
            r.segment_length is None,
            r.min_segments is None,
            r.break_on_non_key_frames is None,
            r.require_avc is None,
            r.de_interlace is None,
            r.require_non_anamorphic is None,
            r.transcoding_max_audio_channels is None,
            r.cpu_core_limit is None,
            r.enable_mpegts_m2ts_mode is None,
            r.video_range is None,
            r.enable_subtitles_in_manifest is None,
    {
        StreamParams {
            max_streaming_bitrate: None,
            max_audio_channels: None,
            container: None,
            audio_codec: None,
            video_codec: None,
            audio_sample_rate: None,
            max_audio_bitrate: None,
            max_video_bitrate: None,
            profile: None,
            level: None,
            max_width: None,
            max_height: None,
            start_time_ticks: None,
            width: None,
            height: None,
            video_bitrate: None,
            audio_bitrate: None,
            audio_channels: None,
            device_id: None,
            play_session_id: None,
            live_stream_id: None,
            media_source_id: None,
            subtitle_stream_index: None,
            audio_stream_index: None,
            video_stream_index: None,
            segment_container: None,
            segment_length: None,
            min_segments: None,
            break_on_non_key_frames: None,
            require_avc: None,
            de_interlace: None,
            require_non_anamorphic: None,
            transcoding_max_audio_channels: None,
            cpu_core_limit: None,
            enable_mpegts_m2ts_mode: None,
            video_range: None,
            enable_subtitles_in_manifest: None,
        }
    }
}

impl Default for SearchQuery {
    /// Every option unset: empty lists and texts, no optional values, flags off.
    fn default() -> (r: SearchQuery)
        ensures
            r.search_term@.len() == 0,
            r.include_item_types@.len() == 0,
            r.exclude_item_types@.len() == 0,
            r.media_types@.len() == 0,
            r.parent_id is None,
            r.is_movie is None,
            r.is_series is None,
            r.is_news is None,
            r.is_kids is None,
            r.is_sports is None,
            r.start_index is None,
            r.limit is None,
            r.user_id is None,
    {
        SearchQuery {
            search_term: String::new(),
            include_item_types: Vec::new(),
            exclude_item_types: Vec::new(),
            media_types: Vec::new(),
            parent_id: None,
            is_movie: None,
            is_series: None,
            is_news: None,
            is_kids: None,
            is_sports: None,
            start_index: None,
            limit: None,
            user_id: None,
        }
    }
}










proof fn lemma_items_query_by_key_part0(q: ItemsQuery, k: Seq<char>)
    ensures
        same_entries(entries_with(opt_entry("ParentId"@, opt_text(q.parent_id)) + list_entry("IncludeItemTypes"@, texts(q.include_item_types@)) + list_entry("ExcludeItemTypes"@, texts(q.exclude_item_types@)) + (if q.recursive { seq![("Recursive"@, bool_text(true))] } else { Seq::empty() }) + list_entry("SortBy"@, texts(q.sort_by@)) + seq![("SortOrder"@, q.sort_order.text())], k), (if "ParentId"@ == k { opt_entry("ParentId"@, opt_text(q.parent_id)) } else { Seq::empty() })
            + (if "IncludeItemTypes"@ == k { list_entry("IncludeItemTypes"@, texts(q.include_item_types@)) } else { Seq::empty() })
            + (if "ExcludeItemTypes"@ == k { list_entry("ExcludeItemTypes"@, texts(q.exclude_item_types@)) } else { Seq::empty() })
            + (if "Recursive"@ == k && q.recursive { seq![("Recursive"@, bool_text(true))] } else { Seq::empty() })
            + (if "SortBy"@ == k { list_entry("SortBy"@, texts(q.sort_by@)) } else { Seq::empty() })
            + (if "SortOrder"@ == k { seq![("SortOrder"@, q.sort_order.text())] } else { Seq::empty() })),
{
    lemma_entries_with_opt("ParentId"@, opt_text(q.parent_id), k);
    lemma_entries_with_list("IncludeItemTypes"@, texts(q.include_item_types@), k);
    lemma_entries_with_list("ExcludeItemTypes"@, texts(q.exclude_item_types@), k);
    if q.recursive {
        lemma_entries_with_single(("Recursive"@, bool_text(true)), k);
    } else {
        lemma_entries_with_empty(k);
    }
    lemma_entries_with_list("SortBy"@, texts(q.sort_by@), k);
    lemma_entries_with_single(("SortOrder"@, q.sort_order.text()), k);
    lemma_entries_with_concat(opt_entry("ParentId"@, opt_text(q.parent_id)), list_entry("IncludeItemTypes"@, texts(q.include_item_types@)), k);
    lemma_entries_with_concat(opt_entry("ParentId"@, opt_text(q.parent_id)) + list_entry("IncludeItemTypes"@, texts(q.include_item_types@)), list_entry("ExcludeItemTypes"@, texts(q.exclude_item_types@)), k);
    lemma_entries_with_concat(opt_entry("ParentId"@, opt_text(q.parent_id)) + list_entry("IncludeItemTypes"@, texts(q.include_item_types@)) + list_entry("ExcludeItemTypes"@, texts(q.exclude_item_types@)), (if q.recursive { seq![("Recursive"@, bool_text(true))] } else { Seq::empty() }), k);
    lemma_entries_with_concat(opt_entry("ParentId"@, opt_text(q.parent_id)) + list_entry("IncludeItemTypes"@, texts(q.include_item_types@)) + list_entry("ExcludeItemTypes"@, texts(q.exclude_item_types@)) + (if q.recursive { seq![("Recursive"@, bool_text(true))] } else { Seq::empty() }), list_entry("SortBy"@, texts(q.sort_by@)), k);
    lemma_entries_with_concat(opt_entry("ParentId"@, opt_text(q.parent_id)) + list_entry("IncludeItemTypes"@, texts(q.include_item_types@)) + list_entry("ExcludeItemTypes"@, texts(q.exclude_item_types@)) + (if q.recursive { seq![("Recursive"@, bool_text(true))] } else { Seq::empty() }) + list_entry("SortBy"@, texts(q.sort_by@)), seq![("SortOrder"@, q.sort_order.text())], k);
}

proof fn lemma_items_query_by_key_part1(q: ItemsQuery, k: Seq<char>)
    ensures
        same_entries(entries_with(opt_entry("ParentId"@, opt_text(q.parent_id)) + list_entry("IncludeItemTypes"@, texts(q.include_item_types@)) + list_entry("ExcludeItemTypes"@, texts(q.exclude_item_types@)) + (if q.recursive { seq![("Recursive"@, bool_text(true))] } else { Seq::empty() }) + list_entry("SortBy"@, texts(q.sort_by@)) + seq![("SortOrder"@, q.sort_order.text())] + opt_entry("Limit"@, opt_u32_text(q.limit)) + opt_entry("StartIndex"@, opt_u32_text(q.start_index)) + opt_entry("SearchTerm"@, opt_text(q.search_term)) + list_entry("Filters"@, texts(q.filters@)) + list_entry("Fields"@, texts(q.fields@)) + opt_entry("EnableImages"@, opt_bool_text(q.enable_images)), k), entries_with(opt_entry("ParentId"@, opt_text(q.parent_id)) + list_entry("IncludeItemTypes"@, texts(q.include_item_types@)) + list_entry("ExcludeItemTypes"@, texts(q.exclude_item_types@)) + (if q.recursive { seq![("Recursive"@, bool_text(true))] } else { Seq::empty() }) + list_entry("SortBy"@, texts(q.sort_by@)) + seq![("SortOrder"@, q.sort_order.text())], k)
            + (if "Limit"@ == k { opt_entry("Limit"@, opt_u32_text(q.limit)) } else { Seq::empty() })
            + (if "StartIndex"@ == k { opt_entry("StartIndex"@, opt_u32_text(q.start_index)) } else { Seq::empty() })
            + (if "SearchTerm"@ == k { opt_entry("SearchTerm"@, opt_text(q.search_term)) } else { Seq::empty() })
            + (if "Filters"@ == k { list_entry("Filters"@, texts(q.filters@)) } else { Seq::empty() })
            + (if "Fields"@ == k { list_entry("Fields"@, texts(q.fields@)) } else { Seq::empty() })
            + (if "EnableImages"@ == k { opt_entry("EnableImages"@, opt_bool_text(q.enable_images)) } else { Seq::empty() })),
{
    lemma_entries_with_opt("Limit"@, opt_u32_text(q.limit), k);
    lemma_entries_with_opt("StartIndex"@, opt_u32_text(q.start_index), k);
    lemma_entries_with_opt("SearchTerm"@, opt_text(q.search_term), k);
    lemma_entries_with_list("Filters"@, texts(q.filters@), k);
    lemma_entries_with_list("Fields"@, texts(q.fields@), k);
    lemma_entries_with_opt("EnableImages"@, opt_bool_text(q.enable_images), k);
    lemma_entries_with_concat(opt_entry("ParentId"@, opt_text(q.parent_id)) + list_entry("IncludeItemTypes"@, texts(q.include_item_types@)) + list_entry("ExcludeItemTypes"@, texts(q.exclude_item_types@)) + (if q.recursive { seq![("Recursive"@, bool_text(true))] } else { Seq::empty() }) + list_entry("SortBy"@, texts(q.sort_by@)) + seq![("SortOrder"@, q.sort_order.text())], opt_entry("Limit"@, opt_u32_text(q.limit)), k);
    lemma_entries_with_concat(opt_entry("ParentId"@, opt_text(q.parent_id)) + list_entry("IncludeItemTypes"@, texts(q.include_item_types@)) + list_entry("ExcludeItemTypes"@, texts(q.exclude_item_types@)) + (if q.recursive { seq![("Recursive"@, bool_text(true))] } else { Seq::empty() }) + list_entry("SortBy"@, texts(q.sort_by@)) + seq![("SortOrder"@, q.sort_order.text())] + opt_entry("Limit"@, opt_u32_text(q.limit)), opt_entry("StartIndex"@, opt_u32_text(q.start_index)), k);
    lemma_entries_with_concat(opt_entry("ParentId"@, opt_text(q.parent_id)) + list_entry("IncludeItemTypes"@, texts(q.include_item_types@)) + list_entry("ExcludeItemTypes"@, texts(q.exclude_item_types@)) + (if q.recursive { seq![("Recursive"@, bool_text(true))] } else { Seq::empty() }) + list_entry("SortBy"@, texts(q.sort_by@)) + seq![("SortOrder"@, q.sort_order.text())] + opt_entry("Limit"@, opt_u32_text(q.limit)) + opt_entry("StartIndex"@, opt_u32_text(q.start_index)), opt_entry("SearchTerm"@, opt_text(q.search_term)), k);
    lemma_entries_with_concat(opt_entry("ParentId"@, opt_text(q.parent_id)) + list_entry("IncludeItemTypes"@, texts(q.include_item_types@)) + list_entry("ExcludeItemTypes"@, texts(q.exclude_item_types@)) + (if q.recursive { seq![("Recursive"@, bool_text(true))] } else { Seq::empty() }) + list_entry("SortBy"@, texts(q.sort_by@)) + seq![("SortOrder"@, q.sort_order.text())] + opt_entry("Limit"@, opt_u32_text(q.limit)) + opt_entry("StartIndex"@, opt_u32_text(q.start_index)) + opt_entry("SearchTerm"@, opt_text(q.search_term)), list_entry("Filters"@, texts(q.filters@)), k);
    lemma_entries_with_concat(opt_entry("ParentId"@, opt_text(q.parent_id)) + list_entry("IncludeItemTypes"@, texts(q.include_item_types@)) + list_entry("ExcludeItemTypes"@, texts(q.exclude_item_types@)) + (if q.recursive { seq![("Recursive"@, bool_text(true))] } else { Seq::empty() }) + list_entry("SortBy"@, texts(q.sort_by@)) + seq![("SortOrder"@, q.sort_order.text())] + opt_entry("Limit"@, opt_u32_text(q.limit)) + opt_entry("StartIndex"@, opt_u32_text(q.start_index)) + opt_entry("SearchTerm"@, opt_text(q.search_term)) + list_entry("Filters"@, texts(q.filters@)), list_entry("Fields"@, texts(q.fields@)), k);
    lemma_entries_with_concat(opt_entry("ParentId"@, opt_text(q.parent_id)) + list_entry("IncludeItemTypes"@, texts(q.include_item_types@)) + list_entry("ExcludeItemTypes"@, texts(q.exclude_item_types@)) + (if q.recursive { seq![("Recursive"@, bool_text(true))] } else { Seq::empty() }) + list_entry("SortBy"@, texts(q.sort_by@)) + seq![("SortOrder"@, q.sort_order.text())] + opt_entry("Limit"@, opt_u32_text(q.limit)) + opt_entry("StartIndex"@, opt_u32_text(q.start_index)) + opt_entry("SearchTerm"@, opt_text(q.search_term)) + list_entry("Filters"@, texts(q.filters@)) + list_entry("Fields"@, texts(q.fields@)), opt_entry("EnableImages"@, opt_bool_text(q.enable_images)), k);
}

proof fn lemma_items_query_by_key_part2(q: ItemsQuery, k: Seq<char>)
    ensures
        same_entries(entries_with(opt_entry("ParentId"@, opt_text(q.parent_id)) + list_entry("IncludeItemTypes"@, texts(q.include_item_types@)) + list_entry("ExcludeItemTypes"@, texts(q.exclude_item_types@)) + (if q.recursive { seq![("Recursive"@, bool_text(true))] } else { Seq::empty() }) + list_entry("SortBy"@, texts(q.sort_by@)) + seq![("SortOrder"@, q.sort_order.text())] + opt_entry("Limit"@, opt_u32_text(q.limit)) + opt_entry("StartIndex"@, opt_u32_text(q.start_index)) + opt_entry("SearchTerm"@, opt_text(q.search_term)) + list_entry("Filters"@, texts(q.filters@)) + list_entry("Fields"@, texts(q.fields@)) + opt_entry("EnableImages"@, opt_bool_text(q.enable_images)) + opt_entry("ImageTypeLimit"@, opt_u32_text(q.image_type_limit)) + list_entry("EnableImageTypes"@, texts(q.enable_image_types@)) + opt_entry("EnableUserData"@, opt_bool_text(q.enable_user_data)) + opt_entry("EnableTotalRecordCount"@, opt_bool_text(q.enable_total_record_count)) + list_entry("Years"@, i32_texts(q.years@)) + list_entry("Genres"@, texts(q.genres@)), k), entries_with(opt_entry("ParentId"@, opt_text(q.parent_id)) + list_entry("IncludeItemTypes"@, texts(q.include_item_types@)) + list_entry("ExcludeItemTypes"@, texts(q.exclude_item_types@)) + (if q.recursive { seq![("Recursive"@, bool_text(true))] } else { Seq::empty() }) + list_entry("SortBy"@, texts(q.sort_by@)) + seq![("SortOrder"@, q.sort_order.text())] + opt_entry("Limit"@, opt_u32_text(q.limit)) + opt_entry("StartIndex"@, opt_u32_text(q.start_index)) + opt_entry("SearchTerm"@, opt_text(q.search_term)) + list_entry("Filters"@, texts(q.filters@)) + list_entry("Fields"@, texts(q.fields@)) + opt_entry("EnableImages"@, opt_bool_text(q.enable_images)), k)
            + (if "ImageTypeLimit"@ == k { opt_entry("ImageTypeLimit"@, opt_u32_text(q.image_type_limit)) } else { Seq::empty() })
            + (if "EnableImageTypes"@ == k { list_entry("EnableImageTypes"@, texts(q.enable_image_types@)) } else { Seq::empty() })
            + (if "EnableUserData"@ == k { opt_entry("EnableUserData"@, opt_bool_text(q.enable_user_data)) } else { Seq::empty() })
            + (if "EnableTotalRecordCount"@ == k { opt_entry("EnableTotalRecordCount"@, opt_bool_text(q.enable_total_record_count)) } else { Seq::empty() })
            + (if "Years"@ == k { list_entry("Years"@, i32_texts(q.years@)) } else { Seq::empty() })
            + (if "Genres"@ == k { list_entry("Genres"@, texts(q.genres@)) } else { Seq::empty() })),
{
    lemma_entries_with_opt("ImageTypeLimit"@, opt_u32_text(q.image_type_limit), k);
    lemma_entries_with_list("EnableImageTypes"@, texts(q.enable_image_types@), k);
    lemma_entries_with_opt("EnableUserData"@, opt_bool_text(q.enable_user_data), k);
    lemma_entries_with_opt("EnableTotalRecordCount"@, opt_bool_text(q.enable_total_record_count), k);
    lemma_entries_with_list("Years"@, i32_texts(q.years@), k);
    lemma_entries_with_list("Genres"@, texts(q.genres@), k);
    lemma_entries_with_concat(opt_entry("ParentId"@, opt_text(q.parent_id)) + list_entry("IncludeItemTypes"@, texts(q.include_item_types@)) + list_entry("ExcludeItemTypes"@, texts(q.exclude_item_types@)) + (if q.recursive { seq![("Recursive"@, bool_text(true))] } else { Seq::empty() }) + list_entry("SortBy"@, texts(q.sort_by@)) + seq![("SortOrder"@, q.sort_order.text())] + opt_entry("Limit"@, opt_u32_text(q.limit)) + opt_entry("StartIndex"@, opt_u32_text(q.start_index)) + opt_entry("SearchTerm"@, opt_text(q.search_term)) + list_entry("Filters"@, texts(q.filters@)) + list_entry("Fields"@, texts(q.fields@)) + opt_entry("EnableImages"@, opt_bool_text(q.enable_images)), opt_entry("ImageTypeLimit"@, opt_u32_text(q.image_type_limit)), k);
    lemma_entries_with_concat(opt_entry("ParentId"@, opt_text(q.parent_id)) + list_entry("IncludeItemTypes"@, texts(q.include_item_types@)) + list_entry("ExcludeItemTypes"@, texts(q.exclude_item_types@)) + (if q.recursive { seq![("Recursive"@, bool_text(true))] } else { Seq::empty() }) + list_entry("SortBy"@, texts(q.sort_by@)) + seq![("SortOrder"@, q.sort_order.text())] + opt_entry("Limit"@, opt_u32_text(q.limit)) + opt_entry("StartIndex"@, opt_u32_text(q.start_index)) + opt_entry("SearchTerm"@, opt_text(q.search_term)) + list_entry("Filters"@, texts(q.filters@)) + list_entry("Fields"@, texts(q.fields@)) + opt_entry("EnableImages"@, opt_bool_text(q.enable_images)) + opt_entry("ImageTypeLimit"@, opt_u32_text(q.image_type_limit)), list_entry("EnableImageTypes"@, texts(q.enable_image_types@)), k);
    lemma_entries_with_concat(opt_entry("ParentId"@, opt_text(q.parent_id)) + list_entry("IncludeItemTypes"@, texts(q.include_item_types@)) + list_entry("ExcludeItemTypes"@, texts(q.exclude_item_types@)) + (if q.recursive { seq![("Recursive"@, bool_text(true))] } else { Seq::empty() }) + list_entry("SortBy"@, texts(q.sort_by@)) + seq![("SortOrder"@, q.sort_order.text())] + opt_entry("Limit"@, opt_u32_text(q.limit)) + opt_entry("StartIndex"@, opt_u32_text(q.start_index)) + opt_entry("SearchTerm"@, opt_text(q.search_term)) + list_entry("Filters"@, texts(q.filters@)) + list_entry("Fields"@, texts(q.fields@)) + opt_entry("EnableImages"@, opt_bool_text(q.enable_images)) + opt_entry("ImageTypeLimit"@, opt_u32_text(q.image_type_limit)) + list_entry("EnableImageTypes"@, texts(q.enable_image_types@)), opt_entry("EnableUserData"@, opt_bool_text(q.enable_user_data)), k);
    lemma_entries_with_concat(opt_entry("ParentId"@, opt_text(q.parent_id)) + list_entry("IncludeItemTypes"@, texts(q.include_item_types@)) + list_entry("ExcludeItemTypes"@, texts(q.exclude_item_types@)) + (if q.recursive { seq![("Recursive"@, bool_text(true))] } else { Seq::empty() }) + list_entry("SortBy"@, texts(q.sort_by@)) + seq![("SortOrder"@, q.sort_order.text())] + opt_entry("Limit"@, opt_u32_text(q.limit)) + opt_entry("StartIndex"@, opt_u32_text(q.start_index)) + opt_entry("SearchTerm"@, opt_text(q.search_term)) + list_entry("Filters"@, texts(q.filters@)) + list_entry("Fields"@, texts(q.fields@)) + opt_entry("EnableImages"@, opt_bool_text(q.enable_images)) + opt_entry("ImageTypeLimit"@, opt_u32_text(q.image_type_limit)) + list_entry("EnableImageTypes"@, texts(q.enable_image_types@)) + opt_entry("EnableUserData"@, opt_bool_text(q.enable_user_data)), opt_entry("EnableTotalRecordCount"@, opt_bool_text(q.enable_total_record_count)), k);
    lemma_entries_with_concat(opt_entry("ParentId"@, opt_text(q.parent_id)) + list_entry("IncludeItemTypes"@, texts(q.include_item_types@)) + list_entry("ExcludeItemTypes"@, texts(q.exclude_item_types@)) + (if q.recursive { seq![("Recursive"@, bool_text(true))] } else { Seq::empty() }) + list_entry("SortBy"@, texts(q.sort_by@)) + seq![("SortOrder"@, q.sort_order.text())] + opt_entry("Limit"@, opt_u32_text(q.limit)) + opt_entry("StartIndex"@, opt_u32_text(q.start_index)) + opt_entry("SearchTerm"@, opt_text(q.search_term)) + list_entry("Filters"@, texts(q.filters@)) + list_entry("Fields"@, texts(q.fields@)) + opt_entry("EnableImages"@, opt_bool_text(q.enable_images)) + opt_entry("ImageTypeLimit"@, opt_u32_text(q.image_type_limit)) + list_entry("EnableImageTypes"@, texts(q.enable_image_types@)) + opt_entry("EnableUserData"@, opt_bool_text(q.enable_user_data)) + opt_entry("EnableTotalRecordCount"@, opt_bool_text(q.enable_total_record_count)), list_entry("Years"@, i32_texts(q.years@)), k);
    lemma_entries_with_concat(opt_entry("ParentId"@, opt_text(q.parent_id)) + list_entry("IncludeItemTypes"@, texts(q.include_item_types@)) + list_entry("ExcludeItemTypes"@, texts(q.exclude_item_types@)) + (if q.recursive { seq![("Recursive"@, bool_text(true))] } else { Seq::empty() }) + list_entry("SortBy"@, texts(q.sort_by@)) + seq![("SortOrder"@, q.sort_order.text())] + opt_entry("Limit"@, opt_u32_text(q.limit)) + opt_entry("StartIndex"@, opt_u32_text(q.start_index)) + opt_entry("SearchTerm"@, opt_text(q.search_term)) + list_entry("Filters"@, texts(q.filters@)) + list_entry("Fields"@, texts(q.fields@)) + opt_entry("EnableImages"@, opt_bool_text(q.enable_images)) + opt_entry("ImageTypeLimit"@, opt_u32_text(q.image_type_limit)) + list_entry("EnableImageTypes"@, texts(q.enable_image_types@)) + opt_entry("EnableUserData"@, opt_bool_text(q.enable_user_data)) + opt_entry("EnableTotalRecordCount"@, opt_bool_text(q.enable_total_record_count)) + list_entry("Years"@, i32_texts(q.years@)), list_entry("Genres"@, texts(q.genres@)), k);
}

proof fn lemma_items_query_by_key_part3(q: ItemsQuery, k: Seq<char>)
    ensures
        same_entries(entries_with(opt_entry("ParentId"@, opt_text(q.parent_id)) + list_entry("IncludeItemTypes"@, texts(q.include_item_types@)) + list_entry("ExcludeItemTypes"@, texts(q.exclude_item_types@)) + (if q.recursive { seq![("Recursive"@, bool_text(true))] } else { Seq::empty() }) + list_entry("SortBy"@, texts(q.sort_by@)) + seq![("SortOrder"@, q.sort_order.text())] + opt_entry("Limit"@, opt_u32_text(q.limit)) + opt_entry("StartIndex"@, opt_u32_text(q.start_index)) + opt_entry("SearchTerm"@, opt_text(q.search_term)) + list_entry("Filters"@, texts(q.filters@)) + list_entry("Fields"@, texts(q.fields@)) + opt_entry("EnableImages"@, opt_bool_text(q.enable_images)) + opt_entry("ImageTypeLimit"@, opt_u32_text(q.image_type_limit)) + list_entry("EnableImageTypes"@, texts(q.enable_image_types@)) + opt_entry("EnableUserData"@, opt_bool_text(q.enable_user_data)) + opt_entry("EnableTotalRecordCount"@, opt_bool_text(q.enable_total_record_count)) + list_entry("Years"@, i32_texts(q.years@)) + list_entry("Genres"@, texts(q.genres@)) + list_entry("OfficialRatings"@, texts(q.official_ratings@)) + list_entry("Tags"@, texts(q.tags@)) + list_entry("Studios"@, texts(q.studios@)) + list_entry("Artists"@, texts(q.artists@)) + list_entry("Albums"@, texts(q.albums@)) + opt_entry("IsHD"@, opt_bool_text(q.is_hd)), k), entries_with(opt_entry("ParentId"@, opt_text(q.parent_id)) + list_entry("IncludeItemTypes"@, texts(q.include_item_types@)) + list_entry("ExcludeItemTypes"@, texts(q.exclude_item_types@)) + (if q.recursive { seq![("Recursive"@, bool_text(true))] } else { Seq::empty() }) + list_entry("SortBy"@, texts(q.sort_by@)) + seq![("SortOrder"@, q.sort_order.text())] + opt_entry("Limit"@, opt_u32_text(q.limit)) + opt_entry("StartIndex"@, opt_u32_text(q.start_index)) + opt_entry("SearchTerm"@, opt_text(q.search_term)) + list_entry("Filters"@, texts(q.filters@)) + list_entry("Fields"@, texts(q.fields@)) + opt_entry("EnableImages"@, opt_bool_text(q.enable_images)) + opt_entry("ImageTypeLimit"@, opt_u32_text(q.image_type_limit)) + list_entry("EnableImageTypes"@, texts(q.enable_image_types@)) + opt_entry("EnableUserData"@, opt_bool_text(q.enable_user_data)) + opt_entry("EnableTotalRecordCount"@, opt_bool_text(q.enable_total_record_count)) + list_entry("Years"@, i32_texts(q.years@)) + list_entry("Genres"@, texts(q.genres@)), k)
            + (if "OfficialRatings"@ == k { list_entry("OfficialRatings"@, texts(q.official_ratings@)) } else { Seq::empty() })
            + (if "Tags"@ == k { list_entry("Tags"@, texts(q.tags@)) } else { Seq::empty() })
            + (if "Studios"@ == k { list_entry("Studios"@, texts(q.studios@)) } else { Seq::empty() })
            + (if "Artists"@ == k { list_entry("Artists"@, texts(q.artists@)) } else { Seq::empty() })
            + (if "Albums"@ == k { list_entry("Albums"@, texts(q.albums@)) } else { Seq::empty() })
            + (if "IsHD"@ == k { opt_entry("IsHD"@, opt_bool_text(q.is_hd)) } else { Seq::empty() })),
{
    lemma_entries_with_list("OfficialRatings"@, texts(q.official_ratings@), k);
    lemma_entries_with_list("Tags"@, texts(q.tags@), k);
    lemma_entries_with_list("Studios"@, texts(q.studios@), k);
    lemma_entries_with_list("Artists"@, texts(q.artists@), k);
    lemma_entries_with_list("Albums"@, texts(q.albums@), k);
    lemma_entries_with_opt("IsHD"@, opt_bool_text(q.is_hd), k);
    lemma_entries_with_concat(opt_entry("ParentId"@, opt_text(q.parent_id)) + list_entry("IncludeItemTypes"@, texts(q.include_item_types@)) + list_entry("ExcludeItemTypes"@, texts(q.exclude_item_types@)) + (if q.recursive { seq![("Recursive"@, bool_text(true))] } else { Seq::empty() }) + list_entry("SortBy"@, texts(q.sort_by@)) + seq![("SortOrder"@, q.sort_order.text())] + opt_entry("Limit"@, opt_u32_text(q.limit)) + opt_entry("StartIndex"@, opt_u32_text(q.start_index)) + opt_entry("SearchTerm"@, opt_text(q.search_term)) + list_entry("Filters"@, texts(q.filters@)) + list_entry("Fields"@, texts(q.fields@)) + opt_entry("EnableImages"@, opt_bool_text(q.enable_images)) + opt_entry("ImageTypeLimit"@, opt_u32_text(q.image_type_limit)) + list_entry("EnableImageTypes"@, texts(q.enable_image_types@)) + opt_entry("EnableUserData"@, opt_bool_text(q.enable_user_data)) + opt_entry("EnableTotalRecordCount"@, opt_bool_text(q.enable_total_record_count)) + list_entry("Years"@, i32_texts(q.years@)) + list_entry("Genres"@, texts(q.genres@)), list_entry("OfficialRatings"@, texts(q.official_ratings@)), k);
    lemma_entries_with_concat(opt_entry("ParentId"@, opt_text(q.parent_id)) + list_entry("IncludeItemTypes"@, texts(q.include_item_types@)) + list_entry("ExcludeItemTypes"@, texts(q.exclude_item_types@)) + (if q.recursive { seq![("Recursive"@, bool_text(true))] } else { Seq::empty() }) + list_entry("SortBy"@, texts(q.sort_by@)) + seq![("SortOrder"@, q.sort_order.text())] + opt_entry("Limit"@, opt_u32_text(q.limit)) + opt_entry("StartIndex"@, opt_u32_text(q.start_index)) + opt_entry("SearchTerm"@, opt_text(q.search_term)) + list_entry("Filters"@, texts(q.filters@)) + list_entry("Fields"@, texts(q.fields@)) + opt_entry("EnableImages"@, opt_bool_text(q.enable_images)) + opt_entry("ImageTypeLimit"@, opt_u32_text(q.image_type_limit)) + list_entry("EnableImageTypes"@, texts(q.enable_image_types@)) + opt_entry("EnableUserData"@, opt_bool_text(q.enable_user_data)) + opt_entry("EnableTotalRecordCount"@, opt_bool_text(q.enable_total_record_count)) + list_entry("Years"@, i32_texts(q.years@)) + list_entry("Genres"@, texts(q.genres@)) + list_entry("OfficialRatings"@, texts(q.official_ratings@)), list_entry("Tags"@, texts(q.tags@)), k);
    lemma_entries_with_concat(opt_entry("ParentId"@, opt_text(q.parent_id)) + list_entry("IncludeItemTypes"@, texts(q.include_item_types@)) + list_entry("ExcludeItemTypes"@, texts(q.exclude_item_types@)) + (if q.recursive { seq![("Recursive"@, bool_text(true))] } else { Seq::empty() }) + list_entry("SortBy"@, texts(q.sort_by@)) + seq![("SortOrder"@, q.sort_order.text())] + opt_entry("Limit"@, opt_u32_text(q.limit)) + opt_entry("StartIndex"@, opt_u32_text(q.start_index)) + opt_entry("SearchTerm"@, opt_text(q.search_term)) + list_entry("Filters"@, texts(q.filters@)) + list_entry("Fields"@, texts(q.fields@)) + opt_entry("EnableImages"@, opt_bool_text(q.enable_images)) + opt_entry("ImageTypeLimit"@, opt_u32_text(q.image_type_limit)) + list_entry("EnableImageTypes"@, texts(q.enable_image_types@)) + opt_entry("EnableUserData"@, opt_bool_text(q.enable_user_data)) + opt_entry("EnableTotalRecordCount"@, opt_bool_text(q.enable_total_record_count)) + list_entry("Years"@, i32_texts(q.years@)) + list_entry("Genres"@, texts(q.genres@)) + list_entry("OfficialRatings"@, texts(q.official_ratings@)) + list_entry("Tags"@, texts(q.tags@)), list_entry("Studios"@, texts(q.studios@)), k);
    lemma_entries_with_concat(opt_entry("ParentId"@, opt_text(q.parent_id)) + list_entry("IncludeItemTypes"@, texts(q.include_item_types@)) + list_entry("ExcludeItemTypes"@, texts(q.exclude_item_types@)) + (if q.recursive { seq![("Recursive"@, bool_text(true))] } else { Seq::empty() }) + list_entry("SortBy"@, texts(q.sort_by@)) + seq![("SortOrder"@, q.sort_order.text())] + opt_entry("Limit"@, opt_u32_text(q.limit)) + opt_entry("StartIndex"@, opt_u32_text(q.start_index)) + opt_entry("SearchTerm"@, opt_text(q.search_term)) + list_entry("Filters"@, texts(q.filters@)) + list_entry("Fields"@, texts(q.fields@)) + opt_entry("EnableImages"@, opt_bool_text(q.enable_images)) + opt_entry("ImageTypeLimit"@, opt_u32_text(q.image_type_limit)) + list_entry("EnableImageTypes"@, texts(q.enable_image_types@)) + opt_entry("EnableUserData"@, opt_bool_text(q.enable_user_data)) + opt_entry("EnableTotalRecordCount"@, opt_bool_text(q.enable_total_record_count)) + list_entry("Years"@, i32_texts(q.years@)) + list_entry("Genres"@, texts(q.genres@)) + list_entry("OfficialRatings"@, texts(q.official_ratings@)) + list_entry("Tags"@, texts(q.tags@)) + list_entry("Studios"@, texts(q.studios@)), list_entry("Artists"@, texts(q.artists@)), k);
    lemma_entries_with_concat(opt_entry("ParentId"@, opt_text(q.parent_id)) + list_entry("IncludeItemTypes"@, texts(q.include_item_types@)) + list_entry("ExcludeItemTypes"@, texts(q.exclude_item_types@)) + (if q.recursive { seq![("Recursive"@, bool_text(true))] } else { Seq::empty() }) + list_entry("SortBy"@, texts(q.sort_by@)) + seq![("SortOrder"@, q.sort_order.text())] + opt_entry("Limit"@, opt_u32_text(q.limit)) + opt_entry("StartIndex"@, opt_u32_text(q.start_index)) + opt_entry("SearchTerm"@, opt_text(q.search_term)) + list_entry("Filters"@, texts(q.filters@)) + list_entry("Fields"@, texts(q.fields@)) + opt_entry("EnableImages"@, opt_bool_text(q.enable_images)) + opt_entry("ImageTypeLimit"@, opt_u32_text(q.image_type_limit)) + list_entry("EnableImageTypes"@, texts(q.enable_image_types@)) + opt_entry("EnableUserData"@, opt_bool_text(q.enable_user_data)) + opt_entry("EnableTotalRecordCount"@, opt_bool_text(q.enable_total_record_count)) + list_entry("Years"@, i32_texts(q.years@)) + list_entry("Genres"@, texts(q.genres@)) + list_entry("OfficialRatings"@, texts(q.official_ratings@)) + list_entry("Tags"@, texts(q.tags@)) + list_entry("Studios"@, texts(q.studios@)) + list_entry("Artists"@, texts(q.artists@)), list_entry("Albums"@, texts(q.albums@)), k);
    lemma_entries_with_concat(opt_entry("ParentId"@, opt_text(q.parent_id)) + list_entry("IncludeItemTypes"@, texts(q.include_item_types@)) + list_entry("ExcludeItemTypes"@, texts(q.exclude_item_types@)) + (if q.recursive { seq![("Recursive"@, bool_text(true))] } else { Seq::empty() }) + list_entry("SortBy"@, texts(q.sort_by@)) + seq![("SortOrder"@, q.sort_order.text())] + opt_entry("Limit"@, opt_u32_text(q.limit)) + opt_entry("StartIndex"@, opt_u32_text(q.start_index)) + opt_entry("SearchTerm"@, opt_text(q.search_term)) + list_entry("Filters"@, texts(q.filters@)) + list_entry("Fields"@, texts(q.fields@)) + opt_entry("EnableImages"@, opt_bool_text(q.enable_images)) + opt_entry("ImageTypeLimit"@, opt_u32_text(q.image_type_limit)) + list_entry("EnableImageTypes"@, texts(q.enable_image_types@)) + opt_entry("EnableUserData"@, opt_bool_text(q.enable_user_data)) + opt_entry("EnableTotalRecordCount"@, opt_bool_text(q.enable_total_record_count)) + list_entry("Years"@, i32_texts(q.years@)) + list_entry("Genres"@, texts(q.genres@)) + list_entry("OfficialRatings"@, texts(q.official_ratings@)) + list_entry("Tags"@, texts(q.tags@)) + list_entry("Studios"@, texts(q.studios@)) + list_entry("Artists"@, texts(q.artists@)) + list_entry("Albums"@, texts(q.albums@)), opt_entry("IsHD"@, opt_bool_text(q.is_hd)), k);
}

proof fn lemma_items_query_by_key_part4(q: ItemsQuery, k: Seq<char>)
    ensures
        same_entries(entries_with(opt_entry("ParentId"@, opt_text(q.parent_id)) + list_entry("IncludeItemTypes"@, texts(q.include_item_types@)) + list_entry("ExcludeItemTypes"@, texts(q.exclude_item_types@)) + (if q.recursive { seq![("Recursive"@, bool_text(true))] } else { Seq::empty() }) + list_entry("SortBy"@, texts(q.sort_by@)) + seq![("SortOrder"@, q.sort_order.text())] + opt_entry("Limit"@, opt_u32_text(q.limit)) + opt_entry("StartIndex"@, opt_u32_text(q.start_index)) + opt_entry("SearchTerm"@, opt_text(q.search_term)) + list_entry("Filters"@, texts(q.filters@)) + list_entry("Fields"@, texts(q.fields@)) + opt_entry("EnableImages"@, opt_bool_text(q.enable_images)) + opt_entry("ImageTypeLimit"@, opt_u32_text(q.image_type_limit)) + list_entry("EnableImageTypes"@, texts(q.enable_image_types@)) + opt_entry("EnableUserData"@, opt_bool_text(q.enable_user_data)) + opt_entry("EnableTotalRecordCount"@, opt_bool_text(q.enable_total_record_count)) + list_entry("Years"@, i32_texts(q.years@)) + list_entry("Genres"@, texts(q.genres@)) + list_entry("OfficialRatings"@, texts(q.official_ratings@)) + list_entry("Tags"@, texts(q.tags@)) + list_entry("Studios"@, texts(q.studios@)) + list_entry("Artists"@, texts(q.artists@)) + list_entry("Albums"@, texts(q.albums@)) + opt_entry("IsHD"@, opt_bool_text(q.is_hd)) + opt_entry("Is4K"@, opt_bool_text(q.is_4k)), k), entries_with(opt_entry("ParentId"@, opt_text(q.parent_id)) + list_entry("IncludeItemTypes"@, texts(q.include_item_types@)) + list_entry("ExcludeItemTypes"@, texts(q.exclude_item_types@)) + (if q.recursive { seq![("Recursive"@, bool_text(true))] } else { Seq::empty() }) + list_entry("SortBy"@, texts(q.sort_by@)) + seq![("SortOrder"@, q.sort_order.text())] + opt_entry("Limit"@, opt_u32_text(q.limit)) + opt_entry("StartIndex"@, opt_u32_text(q.start_index)) + opt_entry("SearchTerm"@, opt_text(q.search_term)) + list_entry("Filters"@, texts(q.filters@)) + list_entry("Fields"@, texts(q.fields@)) + opt_entry("EnableImages"@, opt_bool_text(q.enable_images)) + opt_entry("ImageTypeLimit"@, opt_u32_text(q.image_type_limit)) + list_entry("EnableImageTypes"@, texts(q.enable_image_types@)) + opt_entry("EnableUserData"@, opt_bool_text(q.enable_user_data)) + opt_entry("EnableTotalRecordCount"@, opt_bool_text(q.enable_total_record_count)) + list_entry("Years"@, i32_texts(q.years@)) + list_entry("Genres"@, texts(q.genres@)) + list_entry("OfficialRatings"@, texts(q.official_ratings@)) + list_entry("Tags"@, texts(q.tags@)) + list_entry("Studios"@, texts(q.studios@)) + list_entry("Artists"@, texts(q.artists@)) + list_entry("Albums"@, texts(q.albums@)) + opt_entry("IsHD"@, opt_bool_text(q.is_hd)), k)
            + (if "Is4K"@ == k { opt_entry("Is4K"@, opt_bool_text(q.is_4k)) } else { Seq::empty() })),
{
    lemma_entries_with_opt("Is4K"@, opt_bool_text(q.is_4k), k);
    lemma_entries_with_concat(opt_entry("ParentId"@, opt_text(q.parent_id)) + list_entry("IncludeItemTypes"@, texts(q.include_item_types@)) + list_entry("ExcludeItemTypes"@, texts(q.exclude_item_types@)) + (if q.recursive { seq![("Recursive"@, bool_text(true))] } else { Seq::empty() }) + list_entry("SortBy"@, texts(q.sort_by@)) + seq![("SortOrder"@, q.sort_order.text())] + opt_entry("Limit"@, opt_u32_text(q.limit)) + opt_entry("StartIndex"@, opt_u32_text(q.start_index)) + opt_entry("SearchTerm"@, opt_text(q.search_term)) + list_entry("Filters"@, texts(q.filters@)) + list_entry("Fields"@, texts(q.fields@)) + opt_entry("EnableImages"@, opt_bool_text(q.enable_images)) + opt_entry("ImageTypeLimit"@, opt_u32_text(q.image_type_limit)) + list_entry("EnableImageTypes"@, texts(q.enable_image_types@)) + opt_entry("EnableUserData"@, opt_bool_text(q.enable_user_data)) + opt_entry("EnableTotalRecordCount"@, opt_bool_text(q.enable_total_record_count)) + list_entry("Years"@, i32_texts(q.years@)) + list_entry("Genres"@, texts(q.genres@)) + list_entry("OfficialRatings"@, texts(q.official_ratings@)) + list_entry("Tags"@, texts(q.tags@)) + list_entry("Studios"@, texts(q.studios@)) + list_entry("Artists"@, texts(q.artists@)) + list_entry("Albums"@, texts(q.albums@)) + opt_entry("IsHD"@, opt_bool_text(q.is_hd)), opt_entry("Is4K"@, opt_bool_text(q.is_4k)), k);
}

/// Every option of an items query that is set gives exactly one parameter under its Jellyfin key,
/// holding its value (lists joined with commas); an option that is not set gives none.
#[verifier::rlimit(100)]
pub proof fn law_items_query_entries(q: ItemsQuery)
    ensures
        entries_with(q.query(), "ParentId"@) == (match q.parent_id { Some(v) => seq![("ParentId"@, v@)], None => Seq::empty() }),
        entries_with(q.query(), "IncludeItemTypes"@) == (if q.include_item_types@.len() > 0 { seq![("IncludeItemTypes"@, join(texts(q.include_item_types@), ","@))] } else { Seq::empty() }),
        entries_with(q.query(), "ExcludeItemTypes"@) == (if q.exclude_item_types@.len() > 0 { seq![("ExcludeItemTypes"@, join(texts(q.exclude_item_types@), ","@))] } else { Seq::empty() }),
        entries_with(q.query(), "Recursive"@) == (if q.recursive { seq![("Recursive"@, bool_text(true))] } else { Seq::empty() }),
        entries_with(q.query(), "SortBy"@) == (if q.sort_by@.len() > 0 { seq![("SortBy"@, join(texts(q.sort_by@), ","@))] } else { Seq::empty() }),
        entries_with(q.query(), "SortOrder"@) == (seq![("SortOrder"@, q.sort_order.text())]),
        entries_with(q.query(), "Limit"@) == (match q.limit { Some(v) => seq![("Limit"@, decimal(v as nat))], None => Seq::empty() }),
        entries_with(q.query(), "StartIndex"@) == (match q.start_index { Some(v) => seq![("StartIndex"@, decimal(v as nat))], None => Seq::empty() }),
        entries_with(q.query(), "SearchTerm"@) == (match q.search_term { Some(v) => seq![("SearchTerm"@, v@)], None => Seq::empty() }),
        entries_with(q.query(), "Filters"@) == (if q.filters@.len() > 0 { seq![("Filters"@, join(texts(q.filters@), ","@))] } else { Seq::empty() }),
        entries_with(q.query(), "Fields"@) == (if q.fields@.len() > 0 { seq![("Fields"@, join(texts(q.fields@), ","@))] } else { Seq::empty() }),
        entries_with(q.query(), "EnableImages"@) == (match q.enable_images { Some(v) => seq![("EnableImages"@, bool_text(v))], None => Seq::empty() }),
        entries_with(q.query(), "ImageTypeLimit"@) == (match q.image_type_limit { Some(v) => seq![("ImageTypeLimit"@, decimal(v as nat))], None => Seq::empty() }),
        entries_with(q.query(), "EnableImageTypes"@) == (if q.enable_image_types@.len() > 0 { seq![("EnableImageTypes"@, join(texts(q.enable_image_types@), ","@))] } else { Seq::empty() }),
        entries_with(q.query(), "EnableUserData"@) == (match q.enable_user_data { Some(v) => seq![("EnableUserData"@, bool_text(v))], None => Seq::empty() }),
        entries_with(q.query(), "EnableTotalRecordCount"@) == (match q.enable_total_record_count { Some(v) => seq![("EnableTotalRecordCount"@, bool_text(v))], None => Seq::empty() }),
        entries_with(q.query(), "Years"@) == (if q.years@.len() > 0 { seq![("Years"@, join(i32_texts(q.years@), ","@))] } else { Seq::empty() }),
        entries_with(q.query(), "Genres"@) == (if q.genres@.len() > 0 { seq![("Genres"@, join(texts(q.genres@), ","@))] } else { Seq::empty() }),
        entries_with(q.query(), "OfficialRatings"@) == (if q.official_ratings@.len() > 0 { seq![("OfficialRatings"@, join(texts(q.official_ratings@), ","@))] } else { Seq::empty() }),
        entries_with(q.query(), "Tags"@) == (if q.tags@.len() > 0 { seq![("Tags"@, join(texts(q.tags@), ","@))] } else { Seq::empty() }),
        entries_with(q.query(), "Studios"@) == (if q.studios@.len() > 0 { seq![("Studios"@, join(texts(q.studios@), ","@))] } else { Seq::empty() }),
        entries_with(q.query(), "Artists"@) == (if q.artists@.len() > 0 { seq![("Artists"@, join(texts(q.artists@), ","@))] } else { Seq::empty() }),
        entries_with(q.query(), "Albums"@) == (if q.albums@.len() > 0 { seq![("Albums"@, join(texts(q.albums@), ","@))] } else { Seq::empty() }),
        entries_with(q.query(), "IsHD"@) == (match q.is_hd { Some(v) => seq![("IsHD"@, bool_text(v))], None => Seq::empty() }),
        entries_with(q.query(), "Is4K"@) == (match q.is_4k { Some(v) => seq![("Is4K"@, bool_text(v))], None => Seq::empty() }),
{
    assert(entries_with(q.query(), "ParentId"@) == (match q.parent_id { Some(v) => seq![("ParentId"@, v@)], None => Seq::empty() })) by {
        broadcast use lemma_concat_empty;
        lemma_items_query_by_key_part0(q, "ParentId"@);
        lemma_items_query_by_key_part1(q, "ParentId"@);
        lemma_items_query_by_key_part2(q, "ParentId"@);
        lemma_items_query_by_key_part3(q, "ParentId"@);
        lemma_items_query_by_key_part4(q, "ParentId"@);
        reveal_strlit("ParentId");
        assert("ParentId"@.len() == 8);
        reveal_strlit("IncludeItemTypes");
        assert("IncludeItemTypes"@.len() == 16);
        reveal_strlit("ExcludeItemTypes");
        assert("ExcludeItemTypes"@.len() == 16);
        reveal_strlit("Recursive");
        assert("Recursive"@.len() == 9);
        reveal_strlit("SortBy");
        assert("SortBy"@.len() == 6);
        reveal_strlit("SortOrder");
        assert("SortOrder"@.len() == 9);
        reveal_strlit("Limit");
        assert("Limit"@.len() == 5);
        reveal_strlit("StartIndex");
        assert("StartIndex"@.len() == 10);
        reveal_strlit("SearchTerm");
        assert("SearchTerm"@.len() == 10);
        reveal_strlit("Filters");
        assert("Filters"@.len() == 7);
        reveal_strlit("Fields");
        assert("Fields"@.len() == 6);
        reveal_strlit("EnableImages");
        assert("EnableImages"@.len() == 12);
        reveal_strlit("ImageTypeLimit");
        assert("ImageTypeLimit"@.len() == 14);
        reveal_strlit("EnableImageTypes");
        assert("EnableImageTypes"@.len() == 16);
        reveal_strlit("EnableUserData");
        assert("EnableUserData"@.len() == 14);
        reveal_strlit("EnableTotalRecordCount");
        assert("EnableTotalRecordCount"@.len() == 22);
        reveal_strlit("Years");
        assert("Years"@.len() == 5);
        reveal_strlit("Genres");
        assert("Genres"@.len() == 6);
        reveal_strlit("OfficialRatings");
        assert("OfficialRatings"@.len() == 15);
        reveal_strlit("Tags");
        assert("Tags"@.len() == 4);
        reveal_strlit("Studios");
        assert("Studios"@.len() == 7);
        reveal_strlit("Artists");
        assert("Artists"@.len() == 7);
        reveal_strlit("Albums");
        assert("Albums"@.len() == 6);
        reveal_strlit("IsHD");
        assert("IsHD"@.len() == 4);
        reveal_strlit("Is4K");
        assert("Is4K"@.len() == 4);
    }
    assert(entries_with(q.query(), "IncludeItemTypes"@) == (if q.include_item_types@.len() > 0 { seq![("IncludeItemTypes"@, join(texts(q.include_item_types@), ","@))] } else { Seq::empty() })) by {
        broadcast use lemma_concat_empty;
        lemma_items_query_by_key_part0(q, "IncludeItemTypes"@);
        lemma_items_query_by_key_part1(q, "IncludeItemTypes"@);
        lemma_items_query_by_key_part2(q, "IncludeItemTypes"@);
        lemma_items_query_by_key_part3(q, "IncludeItemTypes"@);
        lemma_items_query_by_key_part4(q, "IncludeItemTypes"@);
        reveal_strlit("IncludeItemTypes");
        assert("IncludeItemTypes"@.len() == 16);
        reveal_strlit("ParentId");
        assert("ParentId"@.len() == 8);
        reveal_strlit("ExcludeItemTypes");
        assert("ExcludeItemTypes"@.len() == 16);
        assert("ExcludeItemTypes"@[0] == 'E' && "IncludeItemTypes"@[0] == 'I');
        reveal_strlit("Recursive");
        assert("Recursive"@.len() == 9);
        reveal_strlit("SortBy");
        assert("SortBy"@.len() == 6);
        reveal_strlit("SortOrder");
        assert("SortOrder"@.len() == 9);
        reveal_strlit("Limit");
        assert("Limit"@.len() == 5);
        reveal_strlit("StartIndex");
        assert("StartIndex"@.len() == 10);
        reveal_strlit("SearchTerm");
        assert("SearchTerm"@.len() == 10);
        reveal_strlit("Filters");
        assert("Filters"@.len() == 7);
        reveal_strlit("Fields");
        assert("Fields"@.len() == 6);
        reveal_strlit("EnableImages");
        assert("EnableImages"@.len() == 12);
        reveal_strlit("ImageTypeLimit");
        assert("ImageTypeLimit"@.len() == 14);
        reveal_strlit("EnableImageTypes");
        assert("EnableImageTypes"@.len() == 16);
        assert("EnableImageTypes"@[0] == 'E' && "IncludeItemTypes"@[0] == 'I');
        reveal_strlit("EnableUserData");
        assert("EnableUserData"@.len() == 14);
        reveal_strlit("EnableTotalRecordCount");
        assert("EnableTotalRecordCount"@.len() == 22);
        reveal_strlit("Years");
        assert("Years"@.len() == 5);
        reveal_strlit("Genres");
        assert("Genres"@.len() == 6);
        reveal_strlit("OfficialRatings");
        assert("OfficialRatings"@.len() == 15);
        reveal_strlit("Tags");
        assert("Tags"@.len() == 4);
        reveal_strlit("Studios");
        assert("Studios"@.len() == 7);
        reveal_strlit("Artists");
        assert("Artists"@.len() == 7);
        reveal_strlit("Albums");
        assert("Albums"@.len() == 6);
        reveal_strlit("IsHD");
        assert("IsHD"@.len() == 4);
        reveal_strlit("Is4K");
        assert("Is4K"@.len() == 4);
    }
    assert(entries_with(q.query(), "ExcludeItemTypes"@) == (if q.exclude_item_types@.len() > 0 { seq![("ExcludeItemTypes"@, join(texts(q.exclude_item_types@), ","@))] } else { Seq::empty() })) by {
        broadcast use lemma_concat_empty;
        lemma_items_query_by_key_part0(q, "ExcludeItemTypes"@);
        lemma_items_query_by_key_part1(q, "ExcludeItemTypes"@);
        lemma_items_query_by_key_part2(q, "ExcludeItemTypes"@);
        lemma_items_query_by_key_part3(q, "ExcludeItemTypes"@);
        lemma_items_query_by_key_part4(q, "ExcludeItemTypes"@);
        reveal_strlit("ExcludeItemTypes");
        assert("ExcludeItemTypes"@.len() == 16);
        reveal_strlit("ParentId");
        assert("ParentId"@.len() == 8);
        reveal_strlit("IncludeItemTypes");
        assert("IncludeItemTypes"@.len() == 16);
        assert("IncludeItemTypes"@[0] == 'I' && "ExcludeItemTypes"@[0] == 'E');
        reveal_strlit("Recursive");
        assert("Recursive"@.len() == 9);
        reveal_strlit("SortBy");
        assert("SortBy"@.len() == 6);
        reveal_strlit("SortOrder");
        assert("SortOrder"@.len() == 9);
        reveal_strlit("Limit");
        assert("Limit"@.len() == 5);
        reveal_strlit("StartIndex");
        assert("StartIndex"@.len() == 10);
        reveal_strlit("SearchTerm");
        assert("SearchTerm"@.len() == 10);
        reveal_strlit("Filters");
        assert("Filters"@.len() == 7);
        reveal_strlit("Fields");
        assert("Fields"@.len() == 6);
        reveal_strlit("EnableImages");
        assert("EnableImages"@.len() == 12);
        reveal_strlit("ImageTypeLimit");
        assert("ImageTypeLimit"@.len() == 14);
        reveal_strlit("EnableImageTypes");
        assert("EnableImageTypes"@.len() == 16);
        assert("EnableImageTypes"@[1] == 'n' && "ExcludeItemTypes"@[1] == 'x');
        reveal_strlit("EnableUserData");
        assert("EnableUserData"@.len() == 14);
        reveal_strlit("EnableTotalRecordCount");
        assert("EnableTotalRecordCount"@.len() == 22);
        reveal_strlit("Years");
        assert("Years"@.len() == 5);
        reveal_strlit("Genres");
        assert("Genres"@.len() == 6);
        reveal_strlit("OfficialRatings");
        assert("OfficialRatings"@.len() == 15);
        reveal_strlit("Tags");
        assert("Tags"@.len() == 4);
        reveal_strlit("Studios");
        assert("Studios"@.len() == 7);
        reveal_strlit("Artists");
        assert("Artists"@.len() == 7);
        reveal_strlit("Albums");
        assert("Albums"@.len() == 6);
        reveal_strlit("IsHD");
        assert("IsHD"@.len() == 4);
        reveal_strlit("Is4K");
        assert("Is4K"@.len() == 4);
    }
    assert(entries_with(q.query(), "Recursive"@) == (if q.recursive { seq![("Recursive"@, bool_text(true))] } else { Seq::empty() })) by {
        broadcast use lemma_concat_empty;
        lemma_items_query_by_key_part0(q, "Recursive"@);
        lemma_items_query_by_key_part1(q, "Recursive"@);
        lemma_items_query_by_key_part2(q, "Recursive"@);
        lemma_items_query_by_key_part3(q, "Recursive"@);
        lemma_items_query_by_key_part4(q, "Recursive"@);
        reveal_strlit("Recursive");
        assert("Recursive"@.len() == 9);
        reveal_strlit("ParentId");
        assert("ParentId"@.len() == 8);
        reveal_strlit("IncludeItemTypes");
        assert("IncludeItemTypes"@.len() == 16);
        reveal_strlit("ExcludeItemTypes");
        assert("ExcludeItemTypes"@.len() == 16);
        reveal_strlit("SortBy");
        assert("SortBy"@.len() == 6);
        reveal_strlit("SortOrder");
        assert("SortOrder"@.len() == 9);
        assert("SortOrder"@[0] == 'S' && "Recursive"@[0] == 'R');
        reveal_strlit("Limit");
        assert("Limit"@.len() == 5);
        reveal_strlit("StartIndex");
        assert("StartIndex"@.len() == 10);
        reveal_strlit("SearchTerm");
        assert("SearchTerm"@.len() == 10);
        reveal_strlit("Filters");
        assert("Filters"@.len() == 7);
        reveal_strlit("Fields");
        assert("Fields"@.len() == 6);
        reveal_strlit("EnableImages");
        assert("EnableImages"@.len() == 12);
        reveal_strlit("ImageTypeLimit");
        assert("ImageTypeLimit"@.len() == 14);
        reveal_strlit("EnableImageTypes");
        assert("EnableImageTypes"@.len() == 16);
        reveal_strlit("EnableUserData");
        assert("EnableUserData"@.len() == 14);
        reveal_strlit("EnableTotalRecordCount");
        assert("EnableTotalRecordCount"@.len() == 22);
        reveal_strlit("Years");
        assert("Years"@.len() == 5);
        reveal_strlit("Genres");
        assert("Genres"@.len() == 6);
        reveal_strlit("OfficialRatings");
        assert("OfficialRatings"@.len() == 15);
        reveal_strlit("Tags");
        assert("Tags"@.len() == 4);
        reveal_strlit("Studios");
        assert("Studios"@.len() == 7);
        reveal_strlit("Artists");
        assert("Artists"@.len() == 7);
        reveal_strlit("Albums");
        assert("Albums"@.len() == 6);
        reveal_strlit("IsHD");
        assert("IsHD"@.len() == 4);
        reveal_strlit("Is4K");
        assert("Is4K"@.len() == 4);
    }
    assert(entries_with(q.query(), "SortBy"@) == (if q.sort_by@.len() > 0 { seq![("SortBy"@, join(texts(q.sort_by@), ","@))] } else { Seq::empty() })) by {
        broadcast use lemma_concat_empty;
        lemma_items_query_by_key_part0(q, "SortBy"@);
        lemma_items_query_by_key_part1(q, "SortBy"@);
        lemma_items_query_by_key_part2(q, "SortBy"@);
        lemma_items_query_by_key_part3(q, "SortBy"@);
        lemma_items_query_by_key_part4(q, "SortBy"@);
        reveal_strlit("SortBy");
        assert("SortBy"@.len() == 6);
        reveal_strlit("ParentId");
        assert("ParentId"@.len() == 8);
        reveal_strlit("IncludeItemTypes");
        assert("IncludeItemTypes"@.len() == 16);
        reveal_strlit("ExcludeItemTypes");
        assert("ExcludeItemTypes"@.len() == 16);
        reveal_strlit("Recursive");
        assert("Recursive"@.len() == 9);
        reveal_strlit("SortOrder");
        assert("SortOrder"@.len() == 9);
        reveal_strlit("Limit");
        assert("Limit"@.len() == 5);
        reveal_strlit("StartIndex");
        assert("StartIndex"@.len() == 10);
        reveal_strlit("SearchTerm");
        assert("SearchTerm"@.len() == 10);
        reveal_strlit("Filters");
        assert("Filters"@.len() == 7);
        reveal_strlit("Fields");
        assert("Fields"@.len() == 6);
        assert("Fields"@[0] == 'F' && "SortBy"@[0] == 'S');
        reveal_strlit("EnableImages");
        assert("EnableImages"@.len() == 12);
        reveal_strlit("ImageTypeLimit");
        assert("ImageTypeLimit"@.len() == 14);
        reveal_strlit("EnableImageTypes");
        assert("EnableImageTypes"@.len() == 16);
        reveal_strlit("EnableUserData");
        assert("EnableUserData"@.len() == 14);
        reveal_strlit("EnableTotalRecordCount");
        assert("EnableTotalRecordCount"@.len() == 22);
        reveal_strlit("Years");
        assert("Years"@.len() == 5);
        reveal_strlit("Genres");
        assert("Genres"@.len() == 6);
        assert("Genres"@[0] == 'G' && "SortBy"@[0] == 'S');
        reveal_strlit("OfficialRatings");
        assert("OfficialRatings"@.len() == 15);
        reveal_strlit("Tags");
        assert("Tags"@.len() == 4);
        reveal_strlit("Studios");
        assert("Studios"@.len() == 7);
        reveal_strlit("Artists");
        assert("Artists"@.len() == 7);
        reveal_strlit("Albums");
        assert("Albums"@.len() == 6);
        assert("Albums"@[0] == 'A' && "SortBy"@[0] == 'S');
        reveal_strlit("IsHD");
        assert("IsHD"@.len() == 4);
        reveal_strlit("Is4K");
        assert("Is4K"@.len() == 4);
    }
    assert(entries_with(q.query(), "SortOrder"@) == (seq![("SortOrder"@, q.sort_order.text())])) by {
        broadcast use lemma_concat_empty;
        lemma_items_query_by_key_part0(q, "SortOrder"@);
        lemma_items_query_by_key_part1(q, "SortOrder"@);
        lemma_items_query_by_key_part2(q, "SortOrder"@);
        lemma_items_query_by_key_part3(q, "SortOrder"@);
        lemma_items_query_by_key_part4(q, "SortOrder"@);
        reveal_strlit("SortOrder");
        assert("SortOrder"@.len() == 9);
        reveal_strlit("ParentId");
        assert("ParentId"@.len() == 8);
        reveal_strlit("IncludeItemTypes");
        assert("IncludeItemTypes"@.len() == 16);
        reveal_strlit("ExcludeItemTypes");
        assert("ExcludeItemTypes"@.len() == 16);
        reveal_strlit("Recursive");
        assert("Recursive"@.len() == 9);
        assert("Recursive"@[0] == 'R' && "SortOrder"@[0] == 'S');
        reveal_strlit("SortBy");
        assert("SortBy"@.len() == 6);
        reveal_strlit("Limit");
        assert("Limit"@.len() == 5);
        reveal_strlit("StartIndex");
        assert("StartIndex"@.len() == 10);
        reveal_strlit("SearchTerm");
        assert("SearchTerm"@.len() == 10);
        reveal_strlit("Filters");
        assert("Filters"@.len() == 7);
        reveal_strlit("Fields");
        assert("Fields"@.len() == 6);
        reveal_strlit("EnableImages");
        assert("EnableImages"@.len() == 12);
        reveal_strlit("ImageTypeLimit");
        assert("ImageTypeLimit"@.len() == 14);
        reveal_strlit("EnableImageTypes");
        assert("EnableImageTypes"@.len() == 16);
        reveal_strlit("EnableUserData");
        assert("EnableUserData"@.len() == 14);
        reveal_strlit("EnableTotalRecordCount");
        assert("EnableTotalRecordCount"@.len() == 22);
        reveal_strlit("Years");
        assert("Years"@.len() == 5);
        reveal_strlit("Genres");
        assert("Genres"@.len() == 6);
        reveal_strlit("OfficialRatings");
        assert("OfficialRatings"@.len() == 15);
        reveal_strlit("Tags");
        assert("Tags"@.len() == 4);
        reveal_strlit("Studios");
        assert("Studios"@.len() == 7);
        reveal_strlit("Artists");
        assert("Artists"@.len() == 7);
        reveal_strlit("Albums");
        assert("Albums"@.len() == 6);
        reveal_strlit("IsHD");
        assert("IsHD"@.len() == 4);
        reveal_strlit("Is4K");
        assert("Is4K"@.len() == 4);
    }
    assert(entries_with(q.query(), "Limit"@) == (match q.limit { Some(v) => seq![("Limit"@, decimal(v as nat))], None => Seq::empty() })) by {
        broadcast use lemma_concat_empty;
        lemma_items_query_by_key_part0(q, "Limit"@);
        lemma_items_query_by_key_part1(q, "Limit"@);
        lemma_items_query_by_key_part2(q, "Limit"@);
        lemma_items_query_by_key_part3(q, "Limit"@);
        lemma_items_query_by_key_part4(q, "Limit"@);
        reveal_strlit("Limit");
        assert("Limit"@.len() == 5);
        reveal_strlit("ParentId");
        assert("ParentId"@.len() == 8);
        reveal_strlit("IncludeItemTypes");
        assert("IncludeItemTypes"@.len() == 16);
        reveal_strlit("ExcludeItemTypes");
        assert("ExcludeItemTypes"@.len() == 16);
        reveal_strlit("Recursive");
        assert("Recursive"@.len() == 9);
        reveal_strlit("SortBy");
        assert("SortBy"@.len() == 6);
        reveal_strlit("SortOrder");
        assert("SortOrder"@.len() == 9);
        reveal_strlit("StartIndex");
        assert("StartIndex"@.len() == 10);
        reveal_strlit("SearchTerm");
        assert("SearchTerm"@.len() == 10);
        reveal_strlit("Filters");
        assert("Filters"@.len() == 7);
        reveal_strlit("Fields");
        assert("Fields"@.len() == 6);
        reveal_strlit("EnableImages");
        assert("EnableImages"@.len() == 12);
        reveal_strlit("ImageTypeLimit");
        assert("ImageTypeLimit"@.len() == 14);
        reveal_strlit("EnableImageTypes");
        assert("EnableImageTypes"@.len() == 16);
        reveal_strlit("EnableUserData");
        assert("EnableUserData"@.len() == 14);
        reveal_strlit("EnableTotalRecordCount");
        assert("EnableTotalRecordCount"@.len() == 22);
        reveal_strlit("Years");
        assert("Years"@.len() == 5);
        assert("Years"@[0] == 'Y' && "Limit"@[0] == 'L');
        reveal_strlit("Genres");
        assert("Genres"@.len() == 6);
        reveal_strlit("OfficialRatings");
        assert("OfficialRatings"@.len() == 15);
        reveal_strlit("Tags");
        assert("Tags"@.len() == 4);
        reveal_strlit("Studios");
        assert("Studios"@.len() == 7);
        reveal_strlit("Artists");
        assert("Artists"@.len() == 7);
        reveal_strlit("Albums");
        assert("Albums"@.len() == 6);
        reveal_strlit("IsHD");
        assert("IsHD"@.len() == 4);
        reveal_strlit("Is4K");
        assert("Is4K"@.len() == 4);
    }
    assert(entries_with(q.query(), "StartIndex"@) == (match q.start_index { Some(v) => seq![("StartIndex"@, decimal(v as nat))], None => Seq::empty() })) by {
        broadcast use lemma_concat_empty;
        lemma_items_query_by_key_part0(q, "StartIndex"@);
        lemma_items_query_by_key_part1(q, "StartIndex"@);
        lemma_items_query_by_key_part2(q, "StartIndex"@);
        lemma_items_query_by_key_part3(q, "StartIndex"@);
        lemma_items_query_by_key_part4(q, "StartIndex"@);
        reveal_strlit("StartIndex");
        assert("StartIndex"@.len() == 10);
        reveal_strlit("ParentId");
        assert("ParentId"@.len() == 8);
        reveal_strlit("IncludeItemTypes");
        assert("IncludeItemTypes"@.len() == 16);
        reveal_strlit("ExcludeItemTypes");
        assert("ExcludeItemTypes"@.len() == 16);
        reveal_strlit("Recursive");
        assert("Recursive"@.len() == 9);
        reveal_strlit("SortBy");
        assert("SortBy"@.len() == 6);
        reveal_strlit("SortOrder");
        assert("SortOrder"@.len() == 9);
        reveal_strlit("Limit");
        assert("Limit"@.len() == 5);
        reveal_strlit("SearchTerm");
        assert("SearchTerm"@.len() == 10);
        assert("SearchTerm"@[1] == 'e' && "StartIndex"@[1] == 't');
        reveal_strlit("Filters");
        assert("Filters"@.len() == 7);
        reveal_strlit("Fields");
        assert("Fields"@.len() == 6);
        reveal_strlit("EnableImages");
        assert("EnableImages"@.len() == 12);
        reveal_strlit("ImageTypeLimit");
        assert("ImageTypeLimit"@.len() == 14);
        reveal_strlit("EnableImageTypes");
        assert("EnableImageTypes"@.len() == 16);
        reveal_strlit("EnableUserData");
        assert("EnableUserData"@.len() == 14);
        reveal_strlit("EnableTotalRecordCount");
        assert("EnableTotalRecordCount"@.len() == 22);
        reveal_strlit("Years");
        assert("Years"@.len() == 5);
        reveal_strlit("Genres");
        assert("Genres"@.len() == 6);
        reveal_strlit("OfficialRatings");
        assert("OfficialRatings"@.len() == 15);
        reveal_strlit("Tags");
        assert("Tags"@.len() == 4);
        reveal_strlit("Studios");
        assert("Studios"@.len() == 7);
        reveal_strlit("Artists");
        assert("Artists"@.len() == 7);
        reveal_strlit("Albums");
        assert("Albums"@.len() == 6);
        reveal_strlit("IsHD");
        assert("IsHD"@.len() == 4);
        reveal_strlit("Is4K");
        assert("Is4K"@.len() == 4);
    }
    assert(entries_with(q.query(), "SearchTerm"@) == (match q.search_term { Some(v) => seq![("SearchTerm"@, v@)], None => Seq::empty() })) by {
        broadcast use lemma_concat_empty;
        lemma_items_query_by_key_part0(q, "SearchTerm"@);
        lemma_items_query_by_key_part1(q, "SearchTerm"@);
        lemma_items_query_by_key_part2(q, "SearchTerm"@);
        lemma_items_query_by_key_part3(q, "SearchTerm"@);
        lemma_items_query_by_key_part4(q, "SearchTerm"@);
        reveal_strlit("SearchTerm");
        assert("SearchTerm"@.len() == 10);
        reveal_strlit("ParentId");
        assert("ParentId"@.len() == 8);
        reveal_strlit("IncludeItemTypes");
        assert("IncludeItemTypes"@.len() == 16);
        reveal_strlit("ExcludeItemTypes");
        assert("ExcludeItemTypes"@.len() == 16);
        reveal_strlit("Recursive");
        assert("Recursive"@.len() == 9);
        reveal_strlit("SortBy");
        assert("SortBy"@.len() == 6);
        reveal_strlit("SortOrder");
        assert("SortOrder"@.len() == 9);
        reveal_strlit("Limit");
        assert("Limit"@.len() == 5);
        reveal_strlit("StartIndex");
        assert("StartIndex"@.len() == 10);
        assert("StartIndex"@[1] == 't' && "SearchTerm"@[1] == 'e');
        reveal_strlit("Filters");
        assert("Filters"@.len() == 7);
        reveal_strlit("Fields");
        assert("Fields"@.len() == 6);
        reveal_strlit("EnableImages");
        assert("EnableImages"@.len() == 12);
        reveal_strlit("ImageTypeLimit");
        assert("ImageTypeLimit"@.len() == 14);
        reveal_strlit("EnableImageTypes");
        assert("EnableImageTypes"@.len() == 16);
        reveal_strlit("EnableUserData");
        assert("EnableUserData"@.len() == 14);
        reveal_strlit("EnableTotalRecordCount");
        assert("EnableTotalRecordCount"@.len() == 22);
        reveal_strlit("Years");
        assert("Years"@.len() == 5);
        reveal_strlit("Genres");
        assert("Genres"@.len() == 6);
        reveal_strlit("OfficialRatings");
        assert("OfficialRatings"@.len() == 15);
        reveal_strlit("Tags");
        assert("Tags"@.len() == 4);
        reveal_strlit("Studios");
        assert("Studios"@.len() == 7);
        reveal_strlit("Artists");
        assert("Artists"@.len() == 7);
        reveal_strlit("Albums");
        assert("Albums"@.len() == 6);
        reveal_strlit("IsHD");
        assert("IsHD"@.len() == 4);
        reveal_strlit("Is4K");
        assert("Is4K"@.len() == 4);
    }
    assert(entries_with(q.query(), "Filters"@) == (if q.filters@.len() > 0 { seq![("Filters"@, join(texts(q.filters@), ","@))] } else { Seq::empty() })) by {
        broadcast use lemma_concat_empty;
        lemma_items_query_by_key_part0(q, "Filters"@);
        lemma_items_query_by_key_part1(q, "Filters"@);
        lemma_items_query_by_key_part2(q, "Filters"@);
        lemma_items_query_by_key_part3(q, "Filters"@);
        lemma_items_query_by_key_part4(q, "Filters"@);
        reveal_strlit("Filters");
        assert("Filters"@.len() == 7);
        reveal_strlit("ParentId");
        assert("ParentId"@.len() == 8);
        reveal_strlit("IncludeItemTypes");
        assert("IncludeItemTypes"@.len() == 16);
        reveal_strlit("ExcludeItemTypes");
        assert("ExcludeItemTypes"@.len() == 16);
        reveal_strlit("Recursive");
        assert("Recursive"@.len() == 9);
        reveal_strlit("SortBy");
        assert("SortBy"@.len() == 6);
        reveal_strlit("SortOrder");
        assert("SortOrder"@.len() == 9);
        reveal_strlit("Limit");
        assert("Limit"@.len() == 5);
        reveal_strlit("StartIndex");
        assert("StartIndex"@.len() == 10);
        reveal_strlit("SearchTerm");
        assert("SearchTerm"@.len() == 10);
        reveal_strlit("Fields");
        assert("Fields"@.len() == 6);
        reveal_strlit("EnableImages");
        assert("EnableImages"@.len() == 12);
        reveal_strlit("ImageTypeLimit");
        assert("ImageTypeLimit"@.len() == 14);
        reveal_strlit("EnableImageTypes");
        assert("EnableImageTypes"@.len() == 16);
        reveal_strlit("EnableUserData");
        assert("EnableUserData"@.len() == 14);
        reveal_strlit("EnableTotalRecordCount");
        assert("EnableTotalRecordCount"@.len() == 22);
        reveal_strlit("Years");
        assert("Years"@.len() == 5);
        reveal_strlit("Genres");
        assert("Genres"@.len() == 6);
        reveal_strlit("OfficialRatings");
        assert("OfficialRatings"@.len() == 15);
        reveal_strlit("Tags");
        assert("Tags"@.len() == 4);
        reveal_strlit("Studios");
        assert("Studios"@.len() == 7);
        assert("Studios"@[0] == 'S' && "Filters"@[0] == 'F');
        reveal_strlit("Artists");
        assert("Artists"@.len() == 7);
        assert("Artists"@[0] == 'A' && "Filters"@[0] == 'F');
        reveal_strlit("Albums");
        assert("Albums"@.len() == 6);
        reveal_strlit("IsHD");
        assert("IsHD"@.len() == 4);
        reveal_strlit("Is4K");
        assert("Is4K"@.len() == 4);
    }
    assert(entries_with(q.query(), "Fields"@) == (if q.fields@.len() > 0 { seq![("Fields"@, join(texts(q.fields@), ","@))] } else { Seq::empty() })) by {
        broadcast use lemma_concat_empty;
        lemma_items_query_by_key_part0(q, "Fields"@);
        lemma_items_query_by_key_part1(q, "Fields"@);
        lemma_items_query_by_key_part2(q, "Fields"@);
        lemma_items_query_by_key_part3(q, "Fields"@);
        lemma_items_query_by_key_part4(q, "Fields"@);
        reveal_strlit("Fields");
        assert("Fields"@.len() == 6);
        reveal_strlit("ParentId");
        assert("ParentId"@.len() == 8);
        reveal_strlit("IncludeItemTypes");
        assert("IncludeItemTypes"@.len() == 16);
        reveal_strlit("ExcludeItemTypes");
        assert("ExcludeItemTypes"@.len() == 16);
        reveal_strlit("Recursive");
        assert("Recursive"@.len() == 9);
        reveal_strlit("SortBy");
        assert("SortBy"@.len() == 6);
        assert("SortBy"@[0] == 'S' && "Fields"@[0] == 'F');
        reveal_strlit("SortOrder");
        assert("SortOrder"@.len() == 9);
        reveal_strlit("Limit");
        assert("Limit"@.len() == 5);
        reveal_strlit("StartIndex");
        assert("StartIndex"@.len() == 10);
        reveal_strlit("SearchTerm");
        assert("SearchTerm"@.len() == 10);
        reveal_strlit("Filters");
        assert("Filters"@.len() == 7);
        reveal_strlit("EnableImages");
        assert("EnableImages"@.len() == 12);
        reveal_strlit("ImageTypeLimit");
        assert("ImageTypeLimit"@.len() == 14);
        reveal_strlit("EnableImageTypes");
        assert("EnableImageTypes"@.len() == 16);
        reveal_strlit("EnableUserData");
        assert("EnableUserData"@.len() == 14);
        reveal_strlit("EnableTotalRecordCount");
        assert("EnableTotalRecordCount"@.len() == 22);
        reveal_strlit("Years");
        assert("Years"@.len() == 5);
        reveal_strlit("Genres");
        assert("Genres"@.len() == 6);
        assert("Genres"@[0] == 'G' && "Fields"@[0] == 'F');
        reveal_strlit("OfficialRatings");
        assert("OfficialRatings"@.len() == 15);
        reveal_strlit("Tags");
        assert("Tags"@.len() == 4);
        reveal_strlit("Studios");
        assert("Studios"@.len() == 7);
        reveal_strlit("Artists");
        assert("Artists"@.len() == 7);
        reveal_strlit("Albums");
        assert("Albums"@.len() == 6);
        assert("Albums"@[0] == 'A' && "Fields"@[0] == 'F');
        reveal_strlit("IsHD");
        assert("IsHD"@.len() == 4);
        reveal_strlit("Is4K");
        assert("Is4K"@.len() == 4);
    }
    assert(entries_with(q.query(), "EnableImages"@) == (match q.enable_images { Some(v) => seq![("EnableImages"@, bool_text(v))], None => Seq::empty() })) by {
        broadcast use lemma_concat_empty;
        lemma_items_query_by_key_part0(q, "EnableImages"@);
        lemma_items_query_by_key_part1(q, "EnableImages"@);
        lemma_items_query_by_key_part2(q, "EnableImages"@);
        lemma_items_query_by_key_part3(q, "EnableImages"@);
        lemma_items_query_by_key_part4(q, "EnableImages"@);
        reveal_strlit("EnableImages");
        assert("EnableImages"@.len() == 12);
        reveal_strlit("ParentId");
        assert("ParentId"@.len() == 8);
        reveal_strlit("IncludeItemTypes");
        assert("IncludeItemTypes"@.len() == 16);
        reveal_strlit("ExcludeItemTypes");
        assert("ExcludeItemTypes"@.len() == 16);
        reveal_strlit("Recursive");
        assert("Recursive"@.len() == 9);
        reveal_strlit("SortBy");
        assert("SortBy"@.len() == 6);
        reveal_strlit("SortOrder");
        assert("SortOrder"@.len() == 9);
        reveal_strlit("Limit");
        assert("Limit"@.len() == 5);
        reveal_strlit("StartIndex");
        assert("StartIndex"@.len() == 10);
        reveal_strlit("SearchTerm");
        assert("SearchTerm"@.len() == 10);
        reveal_strlit("Filters");
        assert("Filters"@.len() == 7);
        reveal_strlit("Fields");
        assert("Fields"@.len() == 6);
        reveal_strlit("ImageTypeLimit");
        assert("ImageTypeLimit"@.len() == 14);
        reveal_strlit("EnableImageTypes");
        assert("EnableImageTypes"@.len() == 16);
        reveal_strlit("EnableUserData");
        assert("EnableUserData"@.len() == 14);
        reveal_strlit("EnableTotalRecordCount");
        assert("EnableTotalRecordCount"@.len() == 22);
        reveal_strlit("Years");
        assert("Years"@.len() == 5);
        reveal_strlit("Genres");
        assert("Genres"@.len() == 6);
        reveal_strlit("OfficialRatings");
        assert("OfficialRatings"@.len() == 15);
        reveal_strlit("Tags");
        assert("Tags"@.len() == 4);
        reveal_strlit("Studios");
        assert("Studios"@.len() == 7);
        reveal_strlit("Artists");
        assert("Artists"@.len() == 7);
        reveal_strlit("Albums");
        assert("Albums"@.len() == 6);
        reveal_strlit("IsHD");
        assert("IsHD"@.len() == 4);
        reveal_strlit("Is4K");
        assert("Is4K"@.len() == 4);
    }
    assert(entries_with(q.query(), "ImageTypeLimit"@) == (match q.image_type_limit { Some(v) => seq![("ImageTypeLimit"@, decimal(v as nat))], None => Seq::empty() })) by {
        broadcast use lemma_concat_empty;
        lemma_items_query_by_key_part0(q, "ImageTypeLimit"@);
        lemma_items_query_by_key_part1(q, "ImageTypeLimit"@);
        lemma_items_query_by_key_part2(q, "ImageTypeLimit"@);
        lemma_items_query_by_key_part3(q, "ImageTypeLimit"@);
        lemma_items_query_by_key_part4(q, "ImageTypeLimit"@);
        reveal_strlit("ImageTypeLimit");
        assert("ImageTypeLimit"@.len() == 14);
        reveal_strlit("ParentId");
        assert("ParentId"@.len() == 8);
        reveal_strlit("IncludeItemTypes");
        assert("IncludeItemTypes"@.len() == 16);
        reveal_strlit("ExcludeItemTypes");
        assert("ExcludeItemTypes"@.len() == 16);
        reveal_strlit("Recursive");
        assert("Recursive"@.len() == 9);
        reveal_strlit("SortBy");
        assert("SortBy"@.len() == 6);
        reveal_strlit("SortOrder");
        assert("SortOrder"@.len() == 9);
        reveal_strlit("Limit");
        assert("Limit"@.len() == 5);
        reveal_strlit("StartIndex");
        assert("StartIndex"@.len() == 10);
        reveal_strlit("SearchTerm");
        assert("SearchTerm"@.len() == 10);
        reveal_strlit("Filters");
        assert("Filters"@.len() == 7);
        reveal_strlit("Fields");
        assert("Fields"@.len() == 6);
        reveal_strlit("EnableImages");
        assert("EnableImages"@.len() == 12);
        reveal_strlit("EnableImageTypes");
        assert("EnableImageTypes"@.len() == 16);
        reveal_strlit("EnableUserData");
        assert("EnableUserData"@.len() == 14);
        assert("EnableUserData"@[0] == 'E' && "ImageTypeLimit"@[0] == 'I');
        reveal_strlit("EnableTotalRecordCount");
        assert("EnableTotalRecordCount"@.len() == 22);
        reveal_strlit("Years");
        assert("Years"@.len() == 5);
        reveal_strlit("Genres");
        assert("Genres"@.len() == 6);
        reveal_strlit("OfficialRatings");
        assert("OfficialRatings"@.len() == 15);
        reveal_strlit("Tags");
        assert("Tags"@.len() == 4);
        reveal_strlit("Studios");
        assert("Studios"@.len() == 7);
        reveal_strlit("Artists");
        assert("Artists"@.len() == 7);
        reveal_strlit("Albums");
        assert("Albums"@.len() == 6);
        reveal_strlit("IsHD");
        assert("IsHD"@.len() == 4);
        reveal_strlit("Is4K");
        assert("Is4K"@.len() == 4);
    }
    assert(entries_with(q.query(), "EnableImageTypes"@) == (if q.enable_image_types@.len() > 0 { seq![("EnableImageTypes"@, join(texts(q.enable_image_types@), ","@))] } else { Seq::empty() })) by {
        broadcast use lemma_concat_empty;
        lemma_items_query_by_key_part0(q, "EnableImageTypes"@);
        lemma_items_query_by_key_part1(q, "EnableImageTypes"@);
        lemma_items_query_by_key_part2(q, "EnableImageTypes"@);
        lemma_items_query_by_key_part3(q, "EnableImageTypes"@);
        lemma_items_query_by_key_part4(q, "EnableImageTypes"@);
        reveal_strlit("EnableImageTypes");
        assert("EnableImageTypes"@.len() == 16);
        reveal_strlit("ParentId");
        assert("ParentId"@.len() == 8);
        reveal_strlit("IncludeItemTypes");
        assert("IncludeItemTypes"@.len() == 16);
        assert("IncludeItemTypes"@[0] == 'I' && "EnableImageTypes"@[0] == 'E');
        reveal_strlit("ExcludeItemTypes");
        assert("ExcludeItemTypes"@.len() == 16);
        assert("ExcludeItemTypes"@[1] == 'x' && "EnableImageTypes"@[1] == 'n');
        reveal_strlit("Recursive");
        assert("Recursive"@.len() == 9);
        reveal_strlit("SortBy");
        assert("SortBy"@.len() == 6);
        reveal_strlit("SortOrder");
        assert("SortOrder"@.len() == 9);
        reveal_strlit("Limit");
        assert("Limit"@.len() == 5);
        reveal_strlit("StartIndex");
        assert("StartIndex"@.len() == 10);
        reveal_strlit("SearchTerm");
        assert("SearchTerm"@.len() == 10);
        reveal_strlit("Filters");
        assert("Filters"@.len() == 7);
        reveal_strlit("Fields");
        assert("Fields"@.len() == 6);
        reveal_strlit("EnableImages");
        assert("EnableImages"@.len() == 12);
        reveal_strlit("ImageTypeLimit");
        assert("ImageTypeLimit"@.len() == 14);
        reveal_strlit("EnableUserData");
        assert("EnableUserData"@.len() == 14);
        reveal_strlit("EnableTotalRecordCount");
        assert("EnableTotalRecordCount"@.len() == 22);
        reveal_strlit("Years");
        assert("Years"@.len() == 5);
        reveal_strlit("Genres");
        assert("Genres"@.len() == 6);
        reveal_strlit("OfficialRatings");
        assert("OfficialRatings"@.len() == 15);
        reveal_strlit("Tags");
        assert("Tags"@.len() == 4);
        reveal_strlit("Studios");
        assert("Studios"@.len() == 7);
        reveal_strlit("Artists");
        assert("Artists"@.len() == 7);
        reveal_strlit("Albums");
        assert("Albums"@.len() == 6);
        reveal_strlit("IsHD");
        assert("IsHD"@.len() == 4);
        reveal_strlit("Is4K");
        assert("Is4K"@.len() == 4);
    }
    assert(entries_with(q.query(), "EnableUserData"@) == (match q.enable_user_data { Some(v) => seq![("EnableUserData"@, bool_text(v))], None => Seq::empty() })) by {
        broadcast use lemma_concat_empty;
        lemma_items_query_by_key_part0(q, "EnableUserData"@);
        lemma_items_query_by_key_part1(q, "EnableUserData"@);
        lemma_items_query_by_key_part2(q, "EnableUserData"@);
        lemma_items_query_by_key_part3(q, "EnableUserData"@);
        lemma_items_query_by_key_part4(q, "EnableUserData"@);
        reveal_strlit("EnableUserData");
        assert("EnableUserData"@.len() == 14);
        reveal_strlit("ParentId");
        assert("ParentId"@.len() == 8);
        reveal_strlit("IncludeItemTypes");
        assert("IncludeItemTypes"@.len() == 16);
        reveal_strlit("ExcludeItemTypes");
        assert("ExcludeItemTypes"@.len() == 16);
        reveal_strlit("Recursive");
        assert("Recursive"@.len() == 9);
        reveal_strlit("SortBy");
        assert("SortBy"@.len() == 6);
        reveal_strlit("SortOrder");
        assert("SortOrder"@.len() == 9);
        reveal_strlit("Limit");
        assert("Limit"@.len() == 5);
        reveal_strlit("StartIndex");
        assert("StartIndex"@.len() == 10);
        reveal_strlit("SearchTerm");
        assert("SearchTerm"@.len() == 10);
        reveal_strlit("Filters");
        assert("Filters"@.len() == 7);
        reveal_strlit("Fields");
        assert("Fields"@.len() == 6);
        reveal_strlit("EnableImages");
        assert("EnableImages"@.len() == 12);
        reveal_strlit("ImageTypeLimit");
        assert("ImageTypeLimit"@.len() == 14);
        assert("ImageTypeLimit"@[0] == 'I' && "EnableUserData"@[0] == 'E');
        reveal_strlit("EnableImageTypes");
        assert("EnableImageTypes"@.len() == 16);
        reveal_strlit("EnableTotalRecordCount");
        assert("EnableTotalRecordCount"@.len() == 22);
        reveal_strlit("Years");
        assert("Years"@.len() == 5);
        reveal_strlit("Genres");
        assert("Genres"@.len() == 6);
        reveal_strlit("OfficialRatings");
        assert("OfficialRatings"@.len() == 15);
        reveal_strlit("Tags");
        assert("Tags"@.len() == 4);
        reveal_strlit("Studios");
        assert("Studios"@.len() == 7);
        reveal_strlit("Artists");
        assert("Artists"@.len() == 7);
        reveal_strlit("Albums");
        assert("Albums"@.len() == 6);
        reveal_strlit("IsHD");
        assert("IsHD"@.len() == 4);
        reveal_strlit("Is4K");
        assert("Is4K"@.len() == 4);
    }
    assert(entries_with(q.query(), "EnableTotalRecordCount"@) == (match q.enable_total_record_count { Some(v) => seq![("EnableTotalRecordCount"@, bool_text(v))], None => Seq::empty() })) by {
        broadcast use lemma_concat_empty;
        lemma_items_query_by_key_part0(q, "EnableTotalRecordCount"@);
        lemma_items_query_by_key_part1(q, "EnableTotalRecordCount"@);
        lemma_items_query_by_key_part2(q, "EnableTotalRecordCount"@);
        lemma_items_query_by_key_part3(q, "EnableTotalRecordCount"@);
        lemma_items_query_by_key_part4(q, "EnableTotalRecordCount"@);
        reveal_strlit("EnableTotalRecordCount");
        assert("EnableTotalRecordCount"@.len() == 22);
        reveal_strlit("ParentId");
        assert("ParentId"@.len() == 8);
        reveal_strlit("IncludeItemTypes");
        assert("IncludeItemTypes"@.len() == 16);
        reveal_strlit("ExcludeItemTypes");
        assert("ExcludeItemTypes"@.len() == 16);
        reveal_strlit("Recursive");
        assert("Recursive"@.len() == 9);
        reveal_strlit("SortBy");
        assert("SortBy"@.len() == 6);
        reveal_strlit("SortOrder");
        assert("SortOrder"@.len() == 9);
        reveal_strlit("Limit");
        assert("Limit"@.len() == 5);
        reveal_strlit("StartIndex");
        assert("StartIndex"@.len() == 10);
        reveal_strlit("SearchTerm");
        assert("SearchTerm"@.len() == 10);
        reveal_strlit("Filters");
        assert("Filters"@.len() == 7);
        reveal_strlit("Fields");
        assert("Fields"@.len() == 6);
        reveal_strlit("EnableImages");
        assert("EnableImages"@.len() == 12);
        reveal_strlit("ImageTypeLimit");
        assert("ImageTypeLimit"@.len() == 14);
        reveal_strlit("EnableImageTypes");
        assert("EnableImageTypes"@.len() == 16);
        reveal_strlit("EnableUserData");
        assert("EnableUserData"@.len() == 14);
        reveal_strlit("Years");
        assert("Years"@.len() == 5);
        reveal_strlit("Genres");
        assert("Genres"@.len() == 6);
        reveal_strlit("OfficialRatings");
        assert("OfficialRatings"@.len() == 15);
        reveal_strlit("Tags");
        assert("Tags"@.len() == 4);
        reveal_strlit("Studios");
        assert("Studios"@.len() == 7);
        reveal_strlit("Artists");
        assert("Artists"@.len() == 7);
        reveal_strlit("Albums");
        assert("Albums"@.len() == 6);
        reveal_strlit("IsHD");
        assert("IsHD"@.len() == 4);
        reveal_strlit("Is4K");
        assert("Is4K"@.len() == 4);
    }
    assert(entries_with(q.query(), "Years"@) == (if q.years@.len() > 0 { seq![("Years"@, join(i32_texts(q.years@), ","@))] } else { Seq::empty() })) by {
        broadcast use lemma_concat_empty;
        lemma_items_query_by_key_part0(q, "Years"@);
        lemma_items_query_by_key_part1(q, "Years"@);
        lemma_items_query_by_key_part2(q, "Years"@);
        lemma_items_query_by_key_part3(q, "Years"@);
        lemma_items_query_by_key_part4(q, "Years"@);
        reveal_strlit("Years");
        assert("Years"@.len() == 5);
        reveal_strlit("ParentId");
        assert("ParentId"@.len() == 8);
        reveal_strlit("IncludeItemTypes");
        assert("IncludeItemTypes"@.len() == 16);
        reveal_strlit("ExcludeItemTypes");
        assert("ExcludeItemTypes"@.len() == 16);
        reveal_strlit("Recursive");
        assert("Recursive"@.len() == 9);
        reveal_strlit("SortBy");
        assert("SortBy"@.len() == 6);
        reveal_strlit("SortOrder");
        assert("SortOrder"@.len() == 9);
        reveal_strlit("Limit");
        assert("Limit"@.len() == 5);
        assert("Limit"@[0] == 'L' && "Years"@[0] == 'Y');
        reveal_strlit("StartIndex");
        assert("StartIndex"@.len() == 10);
        reveal_strlit("SearchTerm");
        assert("SearchTerm"@.len() == 10);
        reveal_strlit("Filters");
        assert("Filters"@.len() == 7);
        reveal_strlit("Fields");
        assert("Fields"@.len() == 6);
        reveal_strlit("EnableImages");
        assert("EnableImages"@.len() == 12);
        reveal_strlit("ImageTypeLimit");
        assert("ImageTypeLimit"@.len() == 14);
        reveal_strlit("EnableImageTypes");
        assert("EnableImageTypes"@.len() == 16);
        reveal_strlit("EnableUserData");
        assert("EnableUserData"@.len() == 14);
        reveal_strlit("EnableTotalRecordCount");
        assert("EnableTotalRecordCount"@.len() == 22);
        reveal_strlit("Genres");
        assert("Genres"@.len() == 6);
        reveal_strlit("OfficialRatings");
        assert("OfficialRatings"@.len() == 15);
        reveal_strlit("Tags");
        assert("Tags"@.len() == 4);
        reveal_strlit("Studios");
        assert("Studios"@.len() == 7);
        reveal_strlit("Artists");
        assert("Artists"@.len() == 7);
        reveal_strlit("Albums");
        assert("Albums"@.len() == 6);
        reveal_strlit("IsHD");
        assert("IsHD"@.len() == 4);
        reveal_strlit("Is4K");
        assert("Is4K"@.len() == 4);
    }
    assert(entries_with(q.query(), "Genres"@) == (if q.genres@.len() > 0 { seq![("Genres"@, join(texts(q.genres@), ","@))] } else { Seq::empty() })) by {
        broadcast use lemma_concat_empty;
        lemma_items_query_by_key_part0(q, "Genres"@);
        lemma_items_query_by_key_part1(q, "Genres"@);
        lemma_items_query_by_key_part2(q, "Genres"@);
        lemma_items_query_by_key_part3(q, "Genres"@);
        lemma_items_query_by_key_part4(q, "Genres"@);
        reveal_strlit("Genres");
        assert("Genres"@.len() == 6);
        reveal_strlit("ParentId");
        assert("ParentId"@.len() == 8);
        reveal_strlit("IncludeItemTypes");
        assert("IncludeItemTypes"@.len() == 16);
        reveal_strlit("ExcludeItemTypes");
        assert("ExcludeItemTypes"@.len() == 16);
        reveal_strlit("Recursive");
        assert("Recursive"@.len() == 9);
        reveal_strlit("SortBy");
        assert("SortBy"@.len() == 6);
        assert("SortBy"@[0] == 'S' && "Genres"@[0] == 'G');
        reveal_strlit("SortOrder");
        assert("SortOrder"@.len() == 9);
        reveal_strlit("Limit");
        assert("Limit"@.len() == 5);
        reveal_strlit("StartIndex");
        assert("StartIndex"@.len() == 10);
        reveal_strlit("SearchTerm");
        assert("SearchTerm"@.len() == 10);
        reveal_strlit("Filters");
        assert("Filters"@.len() == 7);
        reveal_strlit("Fields");
        assert("Fields"@.len() == 6);
        assert("Fields"@[0] == 'F' && "Genres"@[0] == 'G');
        reveal_strlit("EnableImages");
        assert("EnableImages"@.len() == 12);
        reveal_strlit("ImageTypeLimit");
        assert("ImageTypeLimit"@.len() == 14);
        reveal_strlit("EnableImageTypes");
        assert("EnableImageTypes"@.len() == 16);
        reveal_strlit("EnableUserData");
        assert("EnableUserData"@.len() == 14);
        reveal_strlit("EnableTotalRecordCount");
        assert("EnableTotalRecordCount"@.len() == 22);
        reveal_strlit("Years");
        assert("Years"@.len() == 5);
        reveal_strlit("OfficialRatings");
        assert("OfficialRatings"@.len() == 15);
        reveal_strlit("Tags");
        assert("Tags"@.len() == 4);
        reveal_strlit("Studios");
        assert("Studios"@.len() == 7);
        reveal_strlit("Artists");
        assert("Artists"@.len() == 7);
        reveal_strlit("Albums");
        assert("Albums"@.len() == 6);
        assert("Albums"@[0] == 'A' && "Genres"@[0] == 'G');
        reveal_strlit("IsHD");
        assert("IsHD"@.len() == 4);
        reveal_strlit("Is4K");
        assert("Is4K"@.len() == 4);
    }
    assert(entries_with(q.query(), "OfficialRatings"@) == (if q.official_ratings@.len() > 0 { seq![("OfficialRatings"@, join(texts(q.official_ratings@), ","@))] } else { Seq::empty() })) by {
        broadcast use lemma_concat_empty;
        lemma_items_query_by_key_part0(q, "OfficialRatings"@);
        lemma_items_query_by_key_part1(q, "OfficialRatings"@);
        lemma_items_query_by_key_part2(q, "OfficialRatings"@);
        lemma_items_query_by_key_part3(q, "OfficialRatings"@);
        lemma_items_query_by_key_part4(q, "OfficialRatings"@);
        reveal_strlit("OfficialRatings");
        assert("OfficialRatings"@.len() == 15);
        reveal_strlit("ParentId");
        assert("ParentId"@.len() == 8);
        reveal_strlit("IncludeItemTypes");
        assert("IncludeItemTypes"@.len() == 16);
        reveal_strlit("ExcludeItemTypes");
        assert("ExcludeItemTypes"@.len() == 16);
        reveal_strlit("Recursive");
        assert("Recursive"@.len() == 9);
        reveal_strlit("SortBy");
        assert("SortBy"@.len() == 6);
        reveal_strlit("SortOrder");
        assert("SortOrder"@.len() == 9);
        reveal_strlit("Limit");
        assert("Limit"@.len() == 5);
        reveal_strlit("StartIndex");
        assert("StartIndex"@.len() == 10);
        reveal_strlit("SearchTerm");
        assert("SearchTerm"@.len() == 10);
        reveal_strlit("Filters");
        assert("Filters"@.len() == 7);
        reveal_strlit("Fields");
        assert("Fields"@.len() == 6);
        reveal_strlit("EnableImages");
        assert("EnableImages"@.len() == 12);
        reveal_strlit("ImageTypeLimit");
        assert("ImageTypeLimit"@.len() == 14);
        reveal_strlit("EnableImageTypes");
        assert("EnableImageTypes"@.len() == 16);
        reveal_strlit("EnableUserData");
        assert("EnableUserData"@.len() == 14);
        reveal_strlit("EnableTotalRecordCount");
        assert("EnableTotalRecordCount"@.len() == 22);
        reveal_strlit("Years");
        assert("Years"@.len() == 5);
        reveal_strlit("Genres");
        assert("Genres"@.len() == 6);
        reveal_strlit("Tags");
        assert("Tags"@.len() == 4);
        reveal_strlit("Studios");
        assert("Studios"@.len() == 7);
        reveal_strlit("Artists");
        assert("Artists"@.len() == 7);
        reveal_strlit("Albums");
        assert("Albums"@.len() == 6);
        reveal_strlit("IsHD");
        assert("IsHD"@.len() == 4);
        reveal_strlit("Is4K");
        assert("Is4K"@.len() == 4);
    }
    assert(entries_with(q.query(), "Tags"@) == (if q.tags@.len() > 0 { seq![("Tags"@, join(texts(q.tags@), ","@))] } else { Seq::empty() })) by {
        broadcast use lemma_concat_empty;
        lemma_items_query_by_key_part0(q, "Tags"@);
        lemma_items_query_by_key_part1(q, "Tags"@);
        lemma_items_query_by_key_part2(q, "Tags"@);
        lemma_items_query_by_key_part3(q, "Tags"@);
        lemma_items_query_by_key_part4(q, "Tags"@);
        reveal_strlit("Tags");
        assert("Tags"@.len() == 4);
        reveal_strlit("ParentId");
        assert("ParentId"@.len() == 8);
        reveal_strlit("IncludeItemTypes");
        assert("IncludeItemTypes"@.len() == 16);
        reveal_strlit("ExcludeItemTypes");
        assert("ExcludeItemTypes"@.len() == 16);
        reveal_strlit("Recursive");
        assert("Recursive"@.len() == 9);
        reveal_strlit("SortBy");
        assert("SortBy"@.len() == 6);
        reveal_strlit("SortOrder");
        assert("SortOrder"@.len() == 9);
        reveal_strlit("Limit");
        assert("Limit"@.len() == 5);
        reveal_strlit("StartIndex");
        assert("StartIndex"@.len() == 10);
        reveal_strlit("SearchTerm");
        assert("SearchTerm"@.len() == 10);
        reveal_strlit("Filters");
        assert("Filters"@.len() == 7);
        reveal_strlit("Fields");
        assert("Fields"@.len() == 6);
        reveal_strlit("EnableImages");
        assert("EnableImages"@.len() == 12);
        reveal_strlit("ImageTypeLimit");
        assert("ImageTypeLimit"@.len() == 14);
        reveal_strlit("EnableImageTypes");
        assert("EnableImageTypes"@.len() == 16);
        reveal_strlit("EnableUserData");
        assert("EnableUserData"@.len() == 14);
        reveal_strlit("EnableTotalRecordCount");
        assert("EnableTotalRecordCount"@.len() == 22);
        reveal_strlit("Years");
        assert("Years"@.len() == 5);
        reveal_strlit("Genres");
        assert("Genres"@.len() == 6);
        reveal_strlit("OfficialRatings");
        assert("OfficialRatings"@.len() == 15);
        reveal_strlit("Studios");
        assert("Studios"@.len() == 7);
        reveal_strlit("Artists");
        assert("Artists"@.len() == 7);
        reveal_strlit("Albums");
        assert("Albums"@.len() == 6);
        reveal_strlit("IsHD");
        assert("IsHD"@.len() == 4);
        assert("IsHD"@[0] == 'I' && "Tags"@[0] == 'T');
        reveal_strlit("Is4K");
        assert("Is4K"@.len() == 4);
        assert("Is4K"@[0] == 'I' && "Tags"@[0] == 'T');
    }
    assert(entries_with(q.query(), "Studios"@) == (if q.studios@.len() > 0 { seq![("Studios"@, join(texts(q.studios@), ","@))] } else { Seq::empty() })) by {
        broadcast use lemma_concat_empty;
        lemma_items_query_by_key_part0(q, "Studios"@);
        lemma_items_query_by_key_part1(q, "Studios"@);
        lemma_items_query_by_key_part2(q, "Studios"@);
        lemma_items_query_by_key_part3(q, "Studios"@);
        lemma_items_query_by_key_part4(q, "Studios"@);
        reveal_strlit("Studios");
        assert("Studios"@.len() == 7);
        reveal_strlit("ParentId");
        assert("ParentId"@.len() == 8);
        reveal_strlit("IncludeItemTypes");
        assert("IncludeItemTypes"@.len() == 16);
        reveal_strlit("ExcludeItemTypes");
        assert("ExcludeItemTypes"@.len() == 16);
        reveal_strlit("Recursive");
        assert("Recursive"@.len() == 9);
        reveal_strlit("SortBy");
        assert("SortBy"@.len() == 6);
        reveal_strlit("SortOrder");
        assert("SortOrder"@.len() == 9);
        reveal_strlit("Limit");
        assert("Limit"@.len() == 5);
        reveal_strlit("StartIndex");
        assert("StartIndex"@.len() == 10);
        reveal_strlit("SearchTerm");
        assert("SearchTerm"@.len() == 10);
        reveal_strlit("Filters");
        assert("Filters"@.len() == 7);
        assert("Filters"@[0] == 'F' && "Studios"@[0] == 'S');
        reveal_strlit("Fields");
        assert("Fields"@.len() == 6);
        reveal_strlit("EnableImages");
        assert("EnableImages"@.len() == 12);
        reveal_strlit("ImageTypeLimit");
        assert("ImageTypeLimit"@.len() == 14);
        reveal_strlit("EnableImageTypes");
        assert("EnableImageTypes"@.len() == 16);
        reveal_strlit("EnableUserData");
        assert("EnableUserData"@.len() == 14);
        reveal_strlit("EnableTotalRecordCount");
        assert("EnableTotalRecordCount"@.len() == 22);
        reveal_strlit("Years");
        assert("Years"@.len() == 5);
        reveal_strlit("Genres");
        assert("Genres"@.len() == 6);
        reveal_strlit("OfficialRatings");
        assert("OfficialRatings"@.len() == 15);
        reveal_strlit("Tags");
        assert("Tags"@.len() == 4);
        reveal_strlit("Artists");
        assert("Artists"@.len() == 7);
        assert("Artists"@[0] == 'A' && "Studios"@[0] == 'S');
        reveal_strlit("Albums");
        assert("Albums"@.len() == 6);
        reveal_strlit("IsHD");
        assert("IsHD"@.len() == 4);
        reveal_strlit("Is4K");
        assert("Is4K"@.len() == 4);
    }
    assert(entries_with(q.query(), "Artists"@) == (if q.artists@.len() > 0 { seq![("Artists"@, join(texts(q.artists@), ","@))] } else { Seq::empty() })) by {
        broadcast use lemma_concat_empty;
        lemma_items_query_by_key_part0(q, "Artists"@);
        lemma_items_query_by_key_part1(q, "Artists"@);
        lemma_items_query_by_key_part2(q, "Artists"@);
        lemma_items_query_by_key_part3(q, "Artists"@);
        lemma_items_query_by_key_part4(q, "Artists"@);
        reveal_strlit("Artists");
        assert("Artists"@.len() == 7);
        reveal_strlit("ParentId");
        assert("ParentId"@.len() == 8);
        reveal_strlit("IncludeItemTypes");
        assert("IncludeItemTypes"@.len() == 16);
        reveal_strlit("ExcludeItemTypes");
        assert("ExcludeItemTypes"@.len() == 16);
        reveal_strlit("Recursive");
        assert("Recursive"@.len() == 9);
        reveal_strlit("SortBy");
        assert("SortBy"@.len() == 6);
        reveal_strlit("SortOrder");
        assert("SortOrder"@.len() == 9);
        reveal_strlit("Limit");
        assert("Limit"@.len() == 5);
        reveal_strlit("StartIndex");
        assert("StartIndex"@.len() == 10);
        reveal_strlit("SearchTerm");
        assert("SearchTerm"@.len() == 10);
        reveal_strlit("Filters");
        assert("Filters"@.len() == 7);
        assert("Filters"@[0] == 'F' && "Artists"@[0] == 'A');
        reveal_strlit("Fields");
        assert("Fields"@.len() == 6);
        reveal_strlit("EnableImages");
        assert("EnableImages"@.len() == 12);
        reveal_strlit("ImageTypeLimit");
        assert("ImageTypeLimit"@.len() == 14);
        reveal_strlit("EnableImageTypes");
        assert("EnableImageTypes"@.len() == 16);
        reveal_strlit("EnableUserData");
        assert("EnableUserData"@.len() == 14);
        reveal_strlit("EnableTotalRecordCount");
        assert("EnableTotalRecordCount"@.len() == 22);
        reveal_strlit("Years");
        assert("Years"@.len() == 5);
        reveal_strlit("Genres");
        assert("Genres"@.len() == 6);
        reveal_strlit("OfficialRatings");
        assert("OfficialRatings"@.len() == 15);
        reveal_strlit("Tags");
        assert("Tags"@.len() == 4);
        reveal_strlit("Studios");
        assert("Studios"@.len() == 7);
        assert("Studios"@[0] == 'S' && "Artists"@[0] == 'A');
        reveal_strlit("Albums");
        assert("Albums"@.len() == 6);
        reveal_strlit("IsHD");
        assert("IsHD"@.len() == 4);
        reveal_strlit("Is4K");
        assert("Is4K"@.len() == 4);
    }
    assert(entries_with(q.query(), "Albums"@) == (if q.albums@.len() > 0 { seq![("Albums"@, join(texts(q.albums@), ","@))] } else { Seq::empty() })) by {
        broadcast use lemma_concat_empty;
        lemma_items_query_by_key_part0(q, "Albums"@);
        lemma_items_query_by_key_part1(q, "Albums"@);
        lemma_items_query_by_key_part2(q, "Albums"@);
        lemma_items_query_by_key_part3(q, "Albums"@);
        lemma_items_query_by_key_part4(q, "Albums"@);
        reveal_strlit("Albums");
        assert("Albums"@.len() == 6);
        reveal_strlit("ParentId");
        assert("ParentId"@.len() == 8);
        reveal_strlit("IncludeItemTypes");
        assert("IncludeItemTypes"@.len() == 16);
        reveal_strlit("ExcludeItemTypes");
        assert("ExcludeItemTypes"@.len() == 16);
        reveal_strlit("Recursive");
        assert("Recursive"@.len() == 9);
        reveal_strlit("SortBy");
        assert("SortBy"@.len() == 6);
        assert("SortBy"@[0] == 'S' && "Albums"@[0] == 'A');
        reveal_strlit("SortOrder");
        assert("SortOrder"@.len() == 9);
        reveal_strlit("Limit");
        assert("Limit"@.len() == 5);
        reveal_strlit("StartIndex");
        assert("StartIndex"@.len() == 10);
        reveal_strlit("SearchTerm");
        assert("SearchTerm"@.len() == 10);
        reveal_strlit("Filters");
        assert("Filters"@.len() == 7);
        reveal_strlit("Fields");
        assert("Fields"@.len() == 6);
        assert("Fields"@[0] == 'F' && "Albums"@[0] == 'A');
        reveal_strlit("EnableImages");
        assert("EnableImages"@.len() == 12);
        reveal_strlit("ImageTypeLimit");
        assert("ImageTypeLimit"@.len() == 14);
        reveal_strlit("EnableImageTypes");
        assert("EnableImageTypes"@.len() == 16);
        reveal_strlit("EnableUserData");
        assert("EnableUserData"@.len() == 14);
        reveal_strlit("EnableTotalRecordCount");
        assert("EnableTotalRecordCount"@.len() == 22);
        reveal_strlit("Years");
        assert("Years"@.len() == 5);
        reveal_strlit("Genres");
        assert("Genres"@.len() == 6);
        assert("Genres"@[0] == 'G' && "Albums"@[0] == 'A');
        reveal_strlit("OfficialRatings");
        assert("OfficialRatings"@.len() == 15);
        reveal_strlit("Tags");
        assert("Tags"@.len() == 4);
        reveal_strlit("Studios");
        assert("Studios"@.len() == 7);
        reveal_strlit("Artists");
        assert("Artists"@.len() == 7);
        reveal_strlit("IsHD");
        assert("IsHD"@.len() == 4);
        reveal_strlit("Is4K");
        assert("Is4K"@.len() == 4);
    }
    assert(entries_with(q.query(), "IsHD"@) == (match q.is_hd { Some(v) => seq![("IsHD"@, bool_text(v))], None => Seq::empty() })) by {
        broadcast use lemma_concat_empty;
        lemma_items_query_by_key_part0(q, "IsHD"@);
        lemma_items_query_by_key_part1(q, "IsHD"@);
        lemma_items_query_by_key_part2(q, "IsHD"@);
        lemma_items_query_by_key_part3(q, "IsHD"@);
        lemma_items_query_by_key_part4(q, "IsHD"@);
        reveal_strlit("IsHD");
        assert("IsHD"@.len() == 4);
        reveal_strlit("ParentId");
        assert("ParentId"@.len() == 8);
        reveal_strlit("IncludeItemTypes");
        assert("IncludeItemTypes"@.len() == 16);
        reveal_strlit("ExcludeItemTypes");
        assert("ExcludeItemTypes"@.len() == 16);
        reveal_strlit("Recursive");
        assert("Recursive"@.len() == 9);
        reveal_strlit("SortBy");
        assert("SortBy"@.len() == 6);
        reveal_strlit("SortOrder");
        assert("SortOrder"@.len() == 9);
        reveal_strlit("Limit");
        assert("Limit"@.len() == 5);
        reveal_strlit("StartIndex");
        assert("StartIndex"@.len() == 10);
        reveal_strlit("SearchTerm");
        assert("SearchTerm"@.len() == 10);
        reveal_strlit("Filters");
        assert("Filters"@.len() == 7);
        reveal_strlit("Fields");
        assert("Fields"@.len() == 6);
        reveal_strlit("EnableImages");
        assert("EnableImages"@.len() == 12);
        reveal_strlit("ImageTypeLimit");
        assert("ImageTypeLimit"@.len() == 14);
        reveal_strlit("EnableImageTypes");
        assert("EnableImageTypes"@.len() == 16);
        reveal_strlit("EnableUserData");
        assert("EnableUserData"@.len() == 14);
        reveal_strlit("EnableTotalRecordCount");
        assert("EnableTotalRecordCount"@.len() == 22);
        reveal_strlit("Years");
        assert("Years"@.len() == 5);
        reveal_strlit("Genres");
        assert("Genres"@.len() == 6);
        reveal_strlit("OfficialRatings");
        assert("OfficialRatings"@.len() == 15);
        reveal_strlit("Tags");
        assert("Tags"@.len() == 4);
        assert("Tags"@[0] == 'T' && "IsHD"@[0] == 'I');
        reveal_strlit("Studios");
        assert("Studios"@.len() == 7);
        reveal_strlit("Artists");
        assert("Artists"@.len() == 7);
        reveal_strlit("Albums");
        assert("Albums"@.len() == 6);
        reveal_strlit("Is4K");
        assert("Is4K"@.len() == 4);
        assert("Is4K"@[2] == '4' && "IsHD"@[2] == 'H');
    }
    assert(entries_with(q.query(), "Is4K"@) == (match q.is_4k { Some(v) => seq![("Is4K"@, bool_text(v))], None => Seq::empty() })) by {
        broadcast use lemma_concat_empty;
        lemma_items_query_by_key_part0(q, "Is4K"@);
        lemma_items_query_by_key_part1(q, "Is4K"@);
        lemma_items_query_by_key_part2(q, "Is4K"@);
        lemma_items_query_by_key_part3(q, "Is4K"@);
        lemma_items_query_by_key_part4(q, "Is4K"@);
        reveal_strlit("Is4K");
        assert("Is4K"@.len() == 4);
        reveal_strlit("ParentId");
        assert("ParentId"@.len() == 8);
        reveal_strlit("IncludeItemTypes");
        assert("IncludeItemTypes"@.len() == 16);
        reveal_strlit("ExcludeItemTypes");
        assert("ExcludeItemTypes"@.len() == 16);
        reveal_strlit("Recursive");
        assert("Recursive"@.len() == 9);
        reveal_strlit("SortBy");
        assert("SortBy"@.len() == 6);
        reveal_strlit("SortOrder");
        assert("SortOrder"@.len() == 9);
        reveal_strlit("Limit");
        assert("Limit"@.len() == 5);
        reveal_strlit("StartIndex");
        assert("StartIndex"@.len() == 10);
        reveal_strlit("SearchTerm");
        assert("SearchTerm"@.len() == 10);
        reveal_strlit("Filters");
        assert("Filters"@.len() == 7);
        reveal_strlit("Fields");
        assert("Fields"@.len() == 6);
        reveal_strlit("EnableImages");
        assert("EnableImages"@.len() == 12);
        reveal_strlit("ImageTypeLimit");
        assert("ImageTypeLimit"@.len() == 14);
        reveal_strlit("EnableImageTypes");
        assert("EnableImageTypes"@.len() == 16);
        reveal_strlit("EnableUserData");
        assert("EnableUserData"@.len() == 14);
        reveal_strlit("EnableTotalRecordCount");
        assert("EnableTotalRecordCount"@.len() == 22);
        reveal_strlit("Years");
        assert("Years"@.len() == 5);
        reveal_strlit("Genres");
        assert("Genres"@.len() == 6);
        reveal_strlit("OfficialRatings");
        assert("OfficialRatings"@.len() == 15);
        reveal_strlit("Tags");
        assert("Tags"@.len() == 4);
        assert("Tags"@[0] == 'T' && "Is4K"@[0] == 'I');
        reveal_strlit("Studios");
        assert("Studios"@.len() == 7);
        reveal_strlit("Artists");
        assert("Artists"@.len() == 7);
        reveal_strlit("Albums");
        assert("Albums"@.len() == 6);
        reveal_strlit("IsHD");
        assert("IsHD"@.len() == 4);
        assert("IsHD"@[2] == 'H' && "Is4K"@[2] == '4');
    }
}



proof fn lemma_search_query_by_key_part0(q: SearchQuery, k: Seq<char>)
    ensures
        same_entries(entries_with(seq![("SearchTerm"@, q.search_term@)] + list_entry("IncludeItemTypes"@, texts(q.include_item_types@)) + list_entry("ExcludeItemTypes"@, texts(q.exclude_item_types@)) + list_entry("MediaTypes"@, texts(q.media_types@)) + opt_entry("ParentId"@, opt_text(q.parent_id)) + opt_entry("Limit"@, opt_u32_text(q.limit)), k), (if "SearchTerm"@ == k { seq![("SearchTerm"@, q.search_term@)] } else { Seq::empty() })
            + (if "IncludeItemTypes"@ == k { list_entry("IncludeItemTypes"@, texts(q.include_item_types@)) } else { Seq::empty() })
            + (if "ExcludeItemTypes"@ == k { list_entry("ExcludeItemTypes"@, texts(q.exclude_item_types@)) } else { Seq::empty() })
            + (if "MediaTypes"@ == k { list_entry("MediaTypes"@, texts(q.media_types@)) } else { Seq::empty() })
            + (if "ParentId"@ == k { opt_entry("ParentId"@, opt_text(q.parent_id)) } else { Seq::empty() })
            + (if "Limit"@ == k { opt_entry("Limit"@, opt_u32_text(q.limit)) } else { Seq::empty() })),
{
    lemma_entries_with_single(("SearchTerm"@, q.search_term@), k);
    lemma_entries_with_list("IncludeItemTypes"@, texts(q.include_item_types@), k);
    lemma_entries_with_list("ExcludeItemTypes"@, texts(q.exclude_item_types@), k);
    lemma_entries_with_list("MediaTypes"@, texts(q.media_types@), k);
    lemma_entries_with_opt("ParentId"@, opt_text(q.parent_id), k);
    lemma_entries_with_opt("Limit"@, opt_u32_text(q.limit), k);
    lemma_entries_with_concat(seq![("SearchTerm"@, q.search_term@)], list_entry("IncludeItemTypes"@, texts(q.include_item_types@)), k);
    lemma_entries_with_concat(seq![("SearchTerm"@, q.search_term@)] + list_entry("IncludeItemTypes"@, texts(q.include_item_types@)), list_entry("ExcludeItemTypes"@, texts(q.exclude_item_types@)), k);
    lemma_entries_with_concat(seq![("SearchTerm"@, q.search_term@)] + list_entry("IncludeItemTypes"@, texts(q.include_item_types@)) + list_entry("ExcludeItemTypes"@, texts(q.exclude_item_types@)), list_entry("MediaTypes"@, texts(q.media_types@)), k);
    lemma_entries_with_concat(seq![("SearchTerm"@, q.search_term@)] + list_entry("IncludeItemTypes"@, texts(q.include_item_types@)) + list_entry("ExcludeItemTypes"@, texts(q.exclude_item_types@)) + list_entry("MediaTypes"@, texts(q.media_types@)), opt_entry("ParentId"@, opt_text(q.parent_id)), k);
    lemma_entries_with_concat(seq![("SearchTerm"@, q.search_term@)] + list_entry("IncludeItemTypes"@, texts(q.include_item_types@)) + list_entry("ExcludeItemTypes"@, texts(q.exclude_item_types@)) + list_entry("MediaTypes"@, texts(q.media_types@)) + opt_entry("ParentId"@, opt_text(q.parent_id)), opt_entry("Limit"@, opt_u32_text(q.limit)), k);
}

proof fn lemma_search_query_by_key_part1(q: SearchQuery, k: Seq<char>)
    ensures
        same_entries(entries_with(seq![("SearchTerm"@, q.search_term@)] + list_entry("IncludeItemTypes"@, texts(q.include_item_types@)) + list_entry("ExcludeItemTypes"@, texts(q.exclude_item_types@)) + list_entry("MediaTypes"@, texts(q.media_types@)) + opt_entry("ParentId"@, opt_text(q.parent_id)) + opt_entry("Limit"@, opt_u32_text(q.limit)) + opt_entry("StartIndex"@, opt_u32_text(q.start_index)), k), entries_with(seq![("SearchTerm"@, q.search_term@)] + list_entry("IncludeItemTypes"@, texts(q.include_item_types@)) + list_entry("ExcludeItemTypes"@, texts(q.exclude_item_types@)) + list_entry("MediaTypes"@, texts(q.media_types@)) + opt_entry("ParentId"@, opt_text(q.parent_id)) + opt_entry("Limit"@, opt_u32_text(q.limit)), k)
            + (if "StartIndex"@ == k { opt_entry("StartIndex"@, opt_u32_text(q.start_index)) } else { Seq::empty() })),
{
    lemma_entries_with_opt("StartIndex"@, opt_u32_text(q.start_index), k);
    lemma_entries_with_concat(seq![("SearchTerm"@, q.search_term@)] + list_entry("IncludeItemTypes"@, texts(q.include_item_types@)) + list_entry("ExcludeItemTypes"@, texts(q.exclude_item_types@)) + list_entry("MediaTypes"@, texts(q.media_types@)) + opt_entry("ParentId"@, opt_text(q.parent_id)) + opt_entry("Limit"@, opt_u32_text(q.limit)), opt_entry("StartIndex"@, opt_u32_text(q.start_index)), k);
}

/// A search gives its term, and every option of it that is set, exactly one parameter under its
/// Jellyfin key, holding its value (lists joined with commas); an option that is not set gives none.
#[verifier::rlimit(100)]
pub proof fn law_search_query_entries(q: SearchQuery)
    ensures
        entries_with(q.query(), "SearchTerm"@) == (seq![("SearchTerm"@, q.search_term@)]),
        entries_with(q.query(), "IncludeItemTypes"@) == (if q.include_item_types@.len() > 0 { seq![("IncludeItemTypes"@, join(texts(q.include_item_types@), ","@))] } else { Seq::empty() }),
        entries_with(q.query(), "ExcludeItemTypes"@) == (if q.exclude_item_types@.len() > 0 { seq![("ExcludeItemTypes"@, join(texts(q.exclude_item_types@), ","@))] } else { Seq::empty() }),
        entries_with(q.query(), "MediaTypes"@) == (if q.media_types@.len() > 0 { seq![("MediaTypes"@, join(texts(q.media_types@), ","@))] } else { Seq::empty() }),
        entries_with(q.query(), "ParentId"@) == (match q.parent_id { Some(v) => seq![("ParentId"@, v@)], None => Seq::empty() }),
        entries_with(q.query(), "Limit"@) == (match q.limit { Some(v) => seq![("Limit"@, decimal(v as nat))], None => Seq::empty() }),
        entries_with(q.query(), "StartIndex"@) == (match q.start_index { Some(v) => seq![("StartIndex"@, decimal(v as nat))], None => Seq::empty() }),
{
    assert(entries_with(q.query(), "SearchTerm"@) == (seq![("SearchTerm"@, q.search_term@)])) by {
        broadcast use lemma_concat_empty;
        lemma_search_query_by_key_part0(q, "SearchTerm"@);
        lemma_search_query_by_key_part1(q, "SearchTerm"@);
        reveal_strlit("SearchTerm");
        assert("SearchTerm"@.len() == 10);
        reveal_strlit("IncludeItemTypes");
        assert("IncludeItemTypes"@.len() == 16);
        reveal_strlit("ExcludeItemTypes");
        assert("ExcludeItemTypes"@.len() == 16);
        reveal_strlit("MediaTypes");
        assert("MediaTypes"@.len() == 10);
        assert("MediaTypes"@[0] == 'M' && "SearchTerm"@[0] == 'S');
        reveal_strlit("ParentId");
        assert("ParentId"@.len() == 8);
        reveal_strlit("Limit");
        assert("Limit"@.len() == 5);
        reveal_strlit("StartIndex");
        assert("StartIndex"@.len() == 10);
        assert("StartIndex"@[1] == 't' && "SearchTerm"@[1] == 'e');
    }
    assert(entries_with(q.query(), "IncludeItemTypes"@) == (if q.include_item_types@.len() > 0 { seq![("IncludeItemTypes"@, join(texts(q.include_item_types@), ","@))] } else { Seq::empty() })) by {
        broadcast use lemma_concat_empty;
        lemma_search_query_by_key_part0(q, "IncludeItemTypes"@);
        lemma_search_query_by_key_part1(q, "IncludeItemTypes"@);
        reveal_strlit("IncludeItemTypes");
        assert("IncludeItemTypes"@.len() == 16);
        reveal_strlit("SearchTerm");
        assert("SearchTerm"@.len() == 10);
        reveal_strlit("ExcludeItemTypes");
        assert("ExcludeItemTypes"@.len() == 16);
        assert("ExcludeItemTypes"@[0] == 'E' && "IncludeItemTypes"@[0] == 'I');
        reveal_strlit("MediaTypes");
        assert("MediaTypes"@.len() == 10);
        reveal_strlit("ParentId");
        assert("ParentId"@.len() == 8);
        reveal_strlit("Limit");
        assert("Limit"@.len() == 5);
        reveal_strlit("StartIndex");
        assert("StartIndex"@.len() == 10);
    }
    assert(entries_with(q.query(), "ExcludeItemTypes"@) == (if q.exclude_item_types@.len() > 0 { seq![("ExcludeItemTypes"@, join(texts(q.exclude_item_types@), ","@))] } else { Seq::empty() })) by {
        broadcast use lemma_concat_empty;
        lemma_search_query_by_key_part0(q, "ExcludeItemTypes"@);
        lemma_search_query_by_key_part1(q, "ExcludeItemTypes"@);
        reveal_strlit("ExcludeItemTypes");
        assert("ExcludeItemTypes"@.len() == 16);
        reveal_strlit("SearchTerm");
        assert("SearchTerm"@.len() == 10);
        reveal_strlit("IncludeItemTypes");
        assert("IncludeItemTypes"@.len() == 16);
        assert("IncludeItemTypes"@[0] == 'I' && "ExcludeItemTypes"@[0] == 'E');
        reveal_strlit("MediaTypes");
        assert("MediaTypes"@.len() == 10);
        reveal_strlit("ParentId");
        assert("ParentId"@.len() == 8);
        reveal_strlit("Limit");
        assert("Limit"@.len() == 5);
        reveal_strlit("StartIndex");
        assert("StartIndex"@.len() == 10);
    }
    assert(entries_with(q.query(), "MediaTypes"@) == (if q.media_types@.len() > 0 { seq![("MediaTypes"@, join(texts(q.media_types@), ","@))] } else { Seq::empty() })) by {
        broadcast use lemma_concat_empty;
        lemma_search_query_by_key_part0(q, "MediaTypes"@);
        lemma_search_query_by_key_part1(q, "MediaTypes"@);
        reveal_strlit("MediaTypes");
        assert("MediaTypes"@.len() == 10);
        reveal_strlit("SearchTerm");
        assert("SearchTerm"@.len() == 10);
        assert("SearchTerm"@[0] == 'S' && "MediaTypes"@[0] == 'M');
        reveal_strlit("IncludeItemTypes");
        assert("IncludeItemTypes"@.len() == 16);
        reveal_strlit("ExcludeItemTypes");
        assert("ExcludeItemTypes"@.len() == 16);
        reveal_strlit("ParentId");
        assert("ParentId"@.len() == 8);
        reveal_strlit("Limit");
        assert("Limit"@.len() == 5);
        reveal_strlit("StartIndex");
        assert("StartIndex"@.len() == 10);
        assert("StartIndex"@[0] == 'S' && "MediaTypes"@[0] == 'M');
    }
    assert(entries_with(q.query(), "ParentId"@) == (match q.parent_id { Some(v) => seq![("ParentId"@, v@)], None => Seq::empty() })) by {
        broadcast use lemma_concat_empty;
        lemma_search_query_by_key_part0(q, "ParentId"@);
        lemma_search_query_by_key_part1(q, "ParentId"@);
        reveal_strlit("ParentId");
        assert("ParentId"@.len() == 8);
        reveal_strlit("SearchTerm");
        assert("SearchTerm"@.len() == 10);
        reveal_strlit("IncludeItemTypes");
        assert("IncludeItemTypes"@.len() == 16);
        reveal_strlit("ExcludeItemTypes");
        assert("ExcludeItemTypes"@.len() == 16);
        reveal_strlit("MediaTypes");
        assert("MediaTypes"@.len() == 10);
        reveal_strlit("Limit");
        assert("Limit"@.len() == 5);
        reveal_strlit("StartIndex");
        assert("StartIndex"@.len() == 10);
    }
    assert(entries_with(q.query(), "Limit"@) == (match q.limit { Some(v) => seq![("Limit"@, decimal(v as nat))], None => Seq::empty() })) by {
        broadcast use lemma_concat_empty;
        lemma_search_query_by_key_part0(q, "Limit"@);
        lemma_search_query_by_key_part1(q, "Limit"@);
        reveal_strlit("Limit");
        assert("Limit"@.len() == 5);
        reveal_strlit("SearchTerm");
        assert("SearchTerm"@.len() == 10);
        reveal_strlit("IncludeItemTypes");
        assert("IncludeItemTypes"@.len() == 16);
        reveal_strlit("ExcludeItemTypes");
        assert("ExcludeItemTypes"@.len() == 16);
        reveal_strlit("MediaTypes");
        assert("MediaTypes"@.len() == 10);
        reveal_strlit("ParentId");
        assert("ParentId"@.len() == 8);
        reveal_strlit("StartIndex");
        assert("StartIndex"@.len() == 10);
    }
    assert(entries_with(q.query(), "StartIndex"@) == (match q.start_index { Some(v) => seq![("StartIndex"@, decimal(v as nat))], None => Seq::empty() })) by {
        broadcast use lemma_concat_empty;
        lemma_search_query_by_key_part0(q, "StartIndex"@);
        lemma_search_query_by_key_part1(q, "StartIndex"@);
        reveal_strlit("StartIndex");
        assert("StartIndex"@.len() == 10);
        reveal_strlit("SearchTerm");
        assert("SearchTerm"@.len() == 10);
        assert("SearchTerm"@[1] == 'e' && "StartIndex"@[1] == 't');
        reveal_strlit("IncludeItemTypes");
        assert("IncludeItemTypes"@.len() == 16);
        reveal_strlit("ExcludeItemTypes");
        assert("ExcludeItemTypes"@.len() == 16);
        reveal_strlit("MediaTypes");
        assert("MediaTypes"@.len() == 10);
        assert("MediaTypes"@[0] == 'M' && "StartIndex"@[0] == 'S');
        reveal_strlit("ParentId");
        assert("ParentId"@.len() == 8);
        reveal_strlit("Limit");
        assert("Limit"@.len() == 5);
    }
}


proof fn lemma_stream_params_by_key_part0(q: StreamParams, k: Seq<char>)
    ensures
        same_entries(entries_with(opt_entry("MaxStreamingBitrate"@, opt_u32_text(q.max_streaming_bitrate)) + opt_entry("MaxAudioChannels"@, opt_u32_text(q.max_audio_channels)) + opt_entry("Container"@, opt_text(q.container)) + opt_entry("AudioCodec"@, opt_text(q.audio_codec)) + opt_entry("VideoCodec"@, opt_text(q.video_codec)) + opt_entry("AudioSampleRate"@, opt_u32_text(q.audio_sample_rate)), k), (if "MaxStreamingBitrate"@ == k { opt_entry("MaxStreamingBitrate"@, opt_u32_text(q.max_streaming_bitrate)) } else { Seq::empty() })
            + (if "MaxAudioChannels"@ == k { opt_entry("MaxAudioChannels"@, opt_u32_text(q.max_audio_channels)) } else { Seq::empty() })
            + (if "Container"@ == k { opt_entry("Container"@, opt_text(q.container)) } else { Seq::empty() })
            + (if "AudioCodec"@ == k { opt_entry("AudioCodec"@, opt_text(q.audio_codec)) } else { Seq::empty() })
            + (if "VideoCodec"@ == k { opt_entry("VideoCodec"@, opt_text(q.video_codec)) } else { Seq::empty() })
            + (if "AudioSampleRate"@ == k { opt_entry("AudioSampleRate"@, opt_u32_text(q.audio_sample_rate)) } else { Seq::empty() })),
{
    lemma_entries_with_opt("MaxStreamingBitrate"@, opt_u32_text(q.max_streaming_bitrate), k);
    lemma_entries_with_opt("MaxAudioChannels"@, opt_u32_text(q.max_audio_channels), k);
    lemma_entries_with_opt("Container"@, opt_text(q.container), k);
    lemma_entries_with_opt("AudioCodec"@, opt_text(q.audio_codec), k);
    lemma_entries_with_opt("VideoCodec"@, opt_text(q.video_codec), k);
    lemma_entries_with_opt("AudioSampleRate"@, opt_u32_text(q.audio_sample_rate), k);
    lemma_entries_with_concat(opt_entry("MaxStreamingBitrate"@, opt_u32_text(q.max_streaming_bitrate)), opt_entry("MaxAudioChannels"@, opt_u32_text(q.max_audio_channels)), k);
    lemma_entries_with_concat(opt_entry("MaxStreamingBitrate"@, opt_u32_text(q.max_streaming_bitrate)) + opt_entry("MaxAudioChannels"@, opt_u32_text(q.max_audio_channels)), opt_entry("Container"@, opt_text(q.container)), k);
    lemma_entries_with_concat(opt_entry("MaxStreamingBitrate"@, opt_u32_text(q.max_streaming_bitrate)) + opt_entry("MaxAudioChannels"@, opt_u32_text(q.max_audio_channels)) + opt_entry("Container"@, opt_text(q.container)), opt_entry("AudioCodec"@, opt_text(q.audio_codec)), k);
    lemma_entries_with_concat(opt_entry("MaxStreamingBitrate"@, opt_u32_text(q.max_streaming_bitrate)) + opt_entry("MaxAudioChannels"@, opt_u32_text(q.max_audio_channels)) + opt_entry("Container"@, opt_text(q.container)) + opt_entry("AudioCodec"@, opt_text(q.audio_codec)), opt_entry("VideoCodec"@, opt_text(q.video_codec)), k);
    lemma_entries_with_concat(opt_entry("MaxStreamingBitrate"@, opt_u32_text(q.max_streaming_bitrate)) + opt_entry("MaxAudioChannels"@, opt_u32_text(q.max_audio_channels)) + opt_entry("Container"@, opt_text(q.container)) + opt_entry("AudioCodec"@, opt_text(q.audio_codec)) + opt_entry("VideoCodec"@, opt_text(q.video_codec)), opt_entry("AudioSampleRate"@, opt_u32_text(q.audio_sample_rate)), k);
}

proof fn lemma_stream_params_by_key_part1(q: StreamParams, k: Seq<char>)
    ensures
        same_entries(entries_with(opt_entry("MaxStreamingBitrate"@, opt_u32_text(q.max_streaming_bitrate)) + opt_entry("MaxAudioChannels"@, opt_u32_text(q.max_audio_channels)) + opt_entry("Container"@, opt_text(q.container)) + opt_entry("AudioCodec"@, opt_text(q.audio_codec)) + opt_entry("VideoCodec"@, opt_text(q.video_codec)) + opt_entry("AudioSampleRate"@, opt_u32_text(q.audio_sample_rate)) + opt_entry("MaxAudioBitrate"@, opt_u32_text(q.max_audio_bitrate)) + opt_entry("MaxVideoBitrate"@, opt_u32_text(q.max_video_bitrate)) + opt_entry("Profile"@, opt_text(q.profile)) + opt_entry("Level"@, opt_text(q.level)) + opt_entry("MaxWidth"@, opt_u32_text(q.max_width)) + opt_entry("MaxHeight"@, opt_u32_text(q.max_height)), k), entries_with(opt_entry("MaxStreamingBitrate"@, opt_u32_text(q.max_streaming_bitrate)) + opt_entry("MaxAudioChannels"@, opt_u32_text(q.max_audio_channels)) + opt_entry("Container"@, opt_text(q.container)) + opt_entry("AudioCodec"@, opt_text(q.audio_codec)) + opt_entry("VideoCodec"@, opt_text(q.video_codec)) + opt_entry("AudioSampleRate"@, opt_u32_text(q.audio_sample_rate)), k)
            + (if "MaxAudioBitrate"@ == k { opt_entry("MaxAudioBitrate"@, opt_u32_text(q.max_audio_bitrate)) } else { Seq::empty() })
            + (if "MaxVideoBitrate"@ == k { opt_entry("MaxVideoBitrate"@, opt_u32_text(q.max_video_bitrate)) } else { Seq::empty() })
            + (if "Profile"@ == k { opt_entry("Profile"@, opt_text(q.profile)) } else { Seq::empty() })
            + (if "Level"@ == k { opt_entry("Level"@, opt_text(q.level)) } else { Seq::empty() })
            + (if "MaxWidth"@ == k { opt_entry("MaxWidth"@, opt_u32_text(q.max_width)) } else { Seq::empty() })
            + (if "MaxHeight"@ == k { opt_entry("MaxHeight"@, opt_u32_text(q.max_height)) } else { Seq::empty() })),
{
    lemma_entries_with_opt("MaxAudioBitrate"@, opt_u32_text(q.max_audio_bitrate), k);
    lemma_entries_with_opt("MaxVideoBitrate"@, opt_u32_text(q.max_video_bitrate), k);
    lemma_entries_with_opt("Profile"@, opt_text(q.profile), k);
    lemma_entries_with_opt("Level"@, opt_text(q.level), k);
    lemma_entries_with_opt("MaxWidth"@, opt_u32_text(q.max_width), k);
    lemma_entries_with_opt("MaxHeight"@, opt_u32_text(q.max_height), k);
    lemma_entries_with_concat(opt_entry("MaxStreamingBitrate"@, opt_u32_text(q.max_streaming_bitrate)) + opt_entry("MaxAudioChannels"@, opt_u32_text(q.max_audio_channels)) + opt_entry("Container"@, opt_text(q.container)) + opt_entry("AudioCodec"@, opt_text(q.audio_codec)) + opt_entry("VideoCodec"@, opt_text(q.video_codec)) + opt_entry("AudioSampleRate"@, opt_u32_text(q.audio_sample_rate)), opt_entry("MaxAudioBitrate"@, opt_u32_text(q.max_audio_bitrate)), k);
    lemma_entries_with_concat(opt_entry("MaxStreamingBitrate"@, opt_u32_text(q.max_streaming_bitrate)) + opt_entry("MaxAudioChannels"@, opt_u32_text(q.max_audio_channels)) + opt_entry("Container"@, opt_text(q.container)) + opt_entry("AudioCodec"@, opt_text(q.audio_codec)) + opt_entry("VideoCodec"@, opt_text(q.video_codec)) + opt_entry("AudioSampleRate"@, opt_u32_text(q.audio_sample_rate)) + opt_entry("MaxAudioBitrate"@, opt_u32_text(q.max_audio_bitrate)), opt_entry("MaxVideoBitrate"@, opt_u32_text(q.max_video_bitrate)), k);
    lemma_entries_with_concat(opt_entry("MaxStreamingBitrate"@, opt_u32_text(q.max_streaming_bitrate)) + opt_entry("MaxAudioChannels"@, opt_u32_text(q.max_audio_channels)) + opt_entry("Container"@, opt_text(q.container)) + opt_entry("AudioCodec"@, opt_text(q.audio_codec)) + opt_entry("VideoCodec"@, opt_text(q.video_codec)) + opt_entry("AudioSampleRate"@, opt_u32_text(q.audio_sample_rate)) + opt_entry("MaxAudioBitrate"@, opt_u32_text(q.max_audio_bitrate)) + opt_entry("MaxVideoBitrate"@, opt_u32_text(q.max_video_bitrate)), opt_entry("Profile"@, opt_text(q.profile)), k);
    lemma_entries_with_concat(opt_entry("MaxStreamingBitrate"@, opt_u32_text(q.max_streaming_bitrate)) + opt_entry("MaxAudioChannels"@, opt_u32_text(q.max_audio_channels)) + opt_entry("Container"@, opt_text(q.container)) + opt_entry("AudioCodec"@, opt_text(q.audio_codec)) + opt_entry("VideoCodec"@, opt_text(q.video_codec)) + opt_entry("AudioSampleRate"@, opt_u32_text(q.audio_sample_rate)) + opt_entry("MaxAudioBitrate"@, opt_u32_text(q.max_audio_bitrate)) + opt_entry("MaxVideoBitrate"@, opt_u32_text(q.max_video_bitrate)) + opt_entry("Profile"@, opt_text(q.profile)), opt_entry("Level"@, opt_text(q.level)), k);
    lemma_entries_with_concat(opt_entry("MaxStreamingBitrate"@, opt_u32_text(q.max_streaming_bitrate)) + opt_entry("MaxAudioChannels"@, opt_u32_text(q.max_audio_channels)) + opt_entry("Container"@, opt_text(q.container)) + opt_entry("AudioCodec"@, opt_text(q.audio_codec)) + opt_entry("VideoCodec"@, opt_text(q.video_codec)) + opt_entry("AudioSampleRate"@, opt_u32_text(q.audio_sample_rate)) + opt_entry("MaxAudioBitrate"@, opt_u32_text(q.max_audio_bitrate)) + opt_entry("MaxVideoBitrate"@, opt_u32_text(q.max_video_bitrate)) + opt_entry("Profile"@, opt_text(q.profile)) + opt_entry("Level"@, opt_text(q.level)), opt_entry("MaxWidth"@, opt_u32_text(q.max_width)), k);
    lemma_entries_with_concat(opt_entry("MaxStreamingBitrate"@, opt_u32_text(q.max_streaming_bitrate)) + opt_entry("MaxAudioChannels"@, opt_u32_text(q.max_audio_channels)) + opt_entry("Container"@, opt_text(q.container)) + opt_entry("AudioCodec"@, opt_text(q.audio_codec)) + opt_entry("VideoCodec"@, opt_text(q.video_codec)) + opt_entry("AudioSampleRate"@, opt_u32_text(q.audio_sample_rate)) + opt_entry("MaxAudioBitrate"@, opt_u32_text(q.max_audio_bitrate)) + opt_entry("MaxVideoBitrate"@, opt_u32_text(q.max_video_bitrate)) + opt_entry("Profile"@, opt_text(q.profile)) + opt_entry("Level"@, opt_text(q.level)) + opt_entry("MaxWidth"@, opt_u32_text(q.max_width)), opt_entry("MaxHeight"@, opt_u32_text(q.max_height)), k);
}

proof fn lemma_stream_params_by_key_part2(q: StreamParams, k: Seq<char>)
    ensures
        same_entries(entries_with(opt_entry("MaxStreamingBitrate"@, opt_u32_text(q.max_streaming_bitrate)) + opt_entry("MaxAudioChannels"@, opt_u32_text(q.max_audio_channels)) + opt_entry("Container"@, opt_text(q.container)) + opt_entry("AudioCodec"@, opt_text(q.audio_codec)) + opt_entry("VideoCodec"@, opt_text(q.video_codec)) + opt_entry("AudioSampleRate"@, opt_u32_text(q.audio_sample_rate)) + opt_entry("MaxAudioBitrate"@, opt_u32_text(q.max_audio_bitrate)) + opt_entry("MaxVideoBitrate"@, opt_u32_text(q.max_video_bitrate)) + opt_entry("Profile"@, opt_text(q.profile)) + opt_entry("Level"@, opt_text(q.level)) + opt_entry("MaxWidth"@, opt_u32_text(q.max_width)) + opt_entry("MaxHeight"@, opt_u32_text(q.max_height)) + opt_entry("StartTimeTicks"@, opt_i64_text(q.start_time_ticks)) + opt_entry("DeviceId"@, opt_text(q.device_id)) + opt_entry("PlaySessionId"@, opt_text(q.play_session_id)) + opt_entry("MediaSourceId"@, opt_text(q.media_source_id)) + opt_entry("SubtitleStreamIndex"@, opt_i32_text(q.subtitle_stream_index)) + opt_entry("AudioStreamIndex"@, opt_i32_text(q.audio_stream_index)), k), entries_with(opt_entry("MaxStreamingBitrate"@, opt_u32_text(q.max_streaming_bitrate)) + opt_entry("MaxAudioChannels"@, opt_u32_text(q.max_audio_channels)) + opt_entry("Container"@, opt_text(q.container)) + opt_entry("AudioCodec"@, opt_text(q.audio_codec)) + opt_entry("VideoCodec"@, opt_text(q.video_codec)) + opt_entry("AudioSampleRate"@, opt_u32_text(q.audio_sample_rate)) + opt_entry("MaxAudioBitrate"@, opt_u32_text(q.max_audio_bitrate)) + opt_entry("MaxVideoBitrate"@, opt_u32_text(q.max_video_bitrate)) + opt_entry("Profile"@, opt_text(q.profile)) + opt_entry("Level"@, opt_text(q.level)) + opt_entry("MaxWidth"@, opt_u32_text(q.max_width)) + opt_entry("MaxHeight"@, opt_u32_text(q.max_height)), k)
            + (if "StartTimeTicks"@ == k { opt_entry("StartTimeTicks"@, opt_i64_text(q.start_time_ticks)) } else { Seq::empty() })
            + (if "DeviceId"@ == k { opt_entry("DeviceId"@, opt_text(q.device_id)) } else { Seq::empty() })
            + (if "PlaySessionId"@ == k { opt_entry("PlaySessionId"@, opt_text(q.play_session_id)) } else { Seq::empty() })
            + (if "MediaSourceId"@ == k { opt_entry("MediaSourceId"@, opt_text(q.media_source_id)) } else { Seq::empty() })
            + (if "SubtitleStreamIndex"@ == k { opt_entry("SubtitleStreamIndex"@, opt_i32_text(q.subtitle_stream_index)) } else { Seq::empty() })
            + (if "AudioStreamIndex"@ == k { opt_entry("AudioStreamIndex"@, opt_i32_text(q.audio_stream_index)) } else { Seq::empty() })),
{
    lemma_entries_with_opt("StartTimeTicks"@, opt_i64_text(q.start_time_ticks), k);
    lemma_entries_with_opt("DeviceId"@, opt_text(q.device_id), k);
    lemma_entries_with_opt("PlaySessionId"@, opt_text(q.play_session_id), k);
    lemma_entries_with_opt("MediaSourceId"@, opt_text(q.media_source_id), k);
    lemma_entries_with_opt("SubtitleStreamIndex"@, opt_i32_text(q.subtitle_stream_index), k);
    lemma_entries_with_opt("AudioStreamIndex"@, opt_i32_text(q.audio_stream_index), k);
    lemma_entries_with_concat(opt_entry("MaxStreamingBitrate"@, opt_u32_text(q.max_streaming_bitrate)) + opt_entry("MaxAudioChannels"@, opt_u32_text(q.max_audio_channels)) + opt_entry("Container"@, opt_text(q.container)) + opt_entry("AudioCodec"@, opt_text(q.audio_codec)) + opt_entry("VideoCodec"@, opt_text(q.video_codec)) + opt_entry("AudioSampleRate"@, opt_u32_text(q.audio_sample_rate)) + opt_entry("MaxAudioBitrate"@, opt_u32_text(q.max_audio_bitrate)) + opt_entry("MaxVideoBitrate"@, opt_u32_text(q.max_video_bitrate)) + opt_entry("Profile"@, opt_text(q.profile)) + opt_entry("Level"@, opt_text(q.level)) + opt_entry("MaxWidth"@, opt_u32_text(q.max_width)) + opt_entry("MaxHeight"@, opt_u32_text(q.max_height)), opt_entry("StartTimeTicks"@, opt_i64_text(q.start_time_ticks)), k);
    lemma_entries_with_concat(opt_entry("MaxStreamingBitrate"@, opt_u32_text(q.max_streaming_bitrate)) + opt_entry("MaxAudioChannels"@, opt_u32_text(q.max_audio_channels)) + opt_entry("Container"@, opt_text(q.container)) + opt_entry("AudioCodec"@, opt_text(q.audio_codec)) + opt_entry("VideoCodec"@, opt_text(q.video_codec)) + opt_entry("AudioSampleRate"@, opt_u32_text(q.audio_sample_rate)) + opt_entry("MaxAudioBitrate"@, opt_u32_text(q.max_audio_bitrate)) + opt_entry("MaxVideoBitrate"@, opt_u32_text(q.max_video_bitrate)) + opt_entry("Profile"@, opt_text(q.profile)) + opt_entry("Level"@, opt_text(q.level)) + opt_entry("MaxWidth"@, opt_u32_text(q.max_width)) + opt_entry("MaxHeight"@, opt_u32_text(q.max_height)) + opt_entry("StartTimeTicks"@, opt_i64_text(q.start_time_ticks)), opt_entry("DeviceId"@, opt_text(q.device_id)), k);
    lemma_entries_with_concat(opt_entry("MaxStreamingBitrate"@, opt_u32_text(q.max_streaming_bitrate)) + opt_entry("MaxAudioChannels"@, opt_u32_text(q.max_audio_channels)) + opt_entry("Container"@, opt_text(q.container)) + opt_entry("AudioCodec"@, opt_text(q.audio_codec)) + opt_entry("VideoCodec"@, opt_text(q.video_codec)) + opt_entry("AudioSampleRate"@, opt_u32_text(q.audio_sample_rate)) + opt_entry("MaxAudioBitrate"@, opt_u32_text(q.max_audio_bitrate)) + opt_entry("MaxVideoBitrate"@, opt_u32_text(q.max_video_bitrate)) + opt_entry("Profile"@, opt_text(q.profile)) + opt_entry("Level"@, opt_text(q.level)) + opt_entry("MaxWidth"@, opt_u32_text(q.max_width)) + opt_entry("MaxHeight"@, opt_u32_text(q.max_height)) + opt_entry("StartTimeTicks"@, opt_i64_text(q.start_time_ticks)) + opt_entry("DeviceId"@, opt_text(q.device_id)), opt_entry("PlaySessionId"@, opt_text(q.play_session_id)), k);
    lemma_entries_with_concat(opt_entry("MaxStreamingBitrate"@, opt_u32_text(q.max_streaming_bitrate)) + opt_entry("MaxAudioChannels"@, opt_u32_text(q.max_audio_channels)) + opt_entry("Container"@, opt_text(q.container)) + opt_entry("AudioCodec"@, opt_text(q.audio_codec)) + opt_entry("VideoCodec"@, opt_text(q.video_codec)) + opt_entry("AudioSampleRate"@, opt_u32_text(q.audio_sample_rate)) + opt_entry("MaxAudioBitrate"@, opt_u32_text(q.max_audio_bitrate)) + opt_entry("MaxVideoBitrate"@, opt_u32_text(q.max_video_bitrate)) + opt_entry("Profile"@, opt_text(q.profile)) + opt_entry("Level"@, opt_text(q.level)) + opt_entry("MaxWidth"@, opt_u32_text(q.max_width)) + opt_entry("MaxHeight"@, opt_u32_text(q.max_height)) + opt_entry("StartTimeTicks"@, opt_i64_text(q.start_time_ticks)) + opt_entry("DeviceId"@, opt_text(q.device_id)) + opt_entry("PlaySessionId"@, opt_text(q.play_session_id)), opt_entry("MediaSourceId"@, opt_text(q.media_source_id)), k);
    lemma_entries_with_concat(opt_entry("MaxStreamingBitrate"@, opt_u32_text(q.max_streaming_bitrate)) + opt_entry("MaxAudioChannels"@, opt_u32_text(q.max_audio_channels)) + opt_entry("Container"@, opt_text(q.container)) + opt_entry("AudioCodec"@, opt_text(q.audio_codec)) + opt_entry("VideoCodec"@, opt_text(q.video_codec)) + opt_entry("AudioSampleRate"@, opt_u32_text(q.audio_sample_rate)) + opt_entry("MaxAudioBitrate"@, opt_u32_text(q.max_audio_bitrate)) + opt_entry("MaxVideoBitrate"@, opt_u32_text(q.max_video_bitrate)) + opt_entry("Profile"@, opt_text(q.profile)) + opt_entry("Level"@, opt_text(q.level)) + opt_entry("MaxWidth"@, opt_u32_text(q.max_width)) + opt_entry("MaxHeight"@, opt_u32_text(q.max_height)) + opt_entry("StartTimeTicks"@, opt_i64_text(q.start_time_ticks)) + opt_entry("DeviceId"@, opt_text(q.device_id)) + opt_entry("PlaySessionId"@, opt_text(q.play_session_id)) + opt_entry("MediaSourceId"@, opt_text(q.media_source_id)), opt_entry("SubtitleStreamIndex"@, opt_i32_text(q.subtitle_stream_index)), k);
    lemma_entries_with_concat(opt_entry("MaxStreamingBitrate"@, opt_u32_text(q.max_streaming_bitrate)) + opt_entry("MaxAudioChannels"@, opt_u32_text(q.max_audio_channels)) + opt_entry("Container"@, opt_text(q.container)) + opt_entry("AudioCodec"@, opt_text(q.audio_codec)) + opt_entry("VideoCodec"@, opt_text(q.video_codec)) + opt_entry("AudioSampleRate"@, opt_u32_text(q.audio_sample_rate)) + opt_entry("MaxAudioBitrate"@, opt_u32_text(q.max_audio_bitrate)) + opt_entry("MaxVideoBitrate"@, opt_u32_text(q.max_video_bitrate)) + opt_entry("Profile"@, opt_text(q.profile)) + opt_entry("Level"@, opt_text(q.level)) + opt_entry("MaxWidth"@, opt_u32_text(q.max_width)) + opt_entry("MaxHeight"@, opt_u32_text(q.max_height)) + opt_entry("StartTimeTicks"@, opt_i64_text(q.start_time_ticks)) + opt_entry("DeviceId"@, opt_text(q.device_id)) + opt_entry("PlaySessionId"@, opt_text(q.play_session_id)) + opt_entry("MediaSourceId"@, opt_text(q.media_source_id)) + opt_entry("SubtitleStreamIndex"@, opt_i32_text(q.subtitle_stream_index)), opt_entry("AudioStreamIndex"@, opt_i32_text(q.audio_stream_index)), k);
}

proof fn lemma_stream_params_by_key_part3(q: StreamParams, k: Seq<char>)
    ensures
        same_entries(entries_with(opt_entry("MaxStreamingBitrate"@, opt_u32_text(q.max_streaming_bitrate)) + opt_entry("MaxAudioChannels"@, opt_u32_text(q.max_audio_channels)) + opt_entry("Container"@, opt_text(q.container)) + opt_entry("AudioCodec"@, opt_text(q.audio_codec)) + opt_entry("VideoCodec"@, opt_text(q.video_codec)) + opt_entry("AudioSampleRate"@, opt_u32_text(q.audio_sample_rate)) + opt_entry("MaxAudioBitrate"@, opt_u32_text(q.max_audio_bitrate)) + opt_entry("MaxVideoBitrate"@, opt_u32_text(q.max_video_bitrate)) + opt_entry("Profile"@, opt_text(q.profile)) + opt_entry("Level"@, opt_text(q.level)) + opt_entry("MaxWidth"@, opt_u32_text(q.max_width)) + opt_entry("MaxHeight"@, opt_u32_text(q.max_height)) + opt_entry("StartTimeTicks"@, opt_i64_text(q.start_time_ticks)) + opt_entry("DeviceId"@, opt_text(q.device_id)) + opt_entry("PlaySessionId"@, opt_text(q.play_session_id)) + opt_entry("MediaSourceId"@, opt_text(q.media_source_id)) + opt_entry("SubtitleStreamIndex"@, opt_i32_text(q.subtitle_stream_index)) + opt_entry("AudioStreamIndex"@, opt_i32_text(q.audio_stream_index)) + opt_entry("VideoStreamIndex"@, opt_i32_text(q.video_stream_index)), k), entries_with(opt_entry("MaxStreamingBitrate"@, opt_u32_text(q.max_streaming_bitrate)) + opt_entry("MaxAudioChannels"@, opt_u32_text(q.max_audio_channels)) + opt_entry("Container"@, opt_text(q.container)) + opt_entry("AudioCodec"@, opt_text(q.audio_codec)) + opt_entry("VideoCodec"@, opt_text(q.video_codec)) + opt_entry("AudioSampleRate"@, opt_u32_text(q.audio_sample_rate)) + opt_entry("MaxAudioBitrate"@, opt_u32_text(q.max_audio_bitrate)) + opt_entry("MaxVideoBitrate"@, opt_u32_text(q.max_video_bitrate)) + opt_entry("Profile"@, opt_text(q.profile)) + opt_entry("Level"@, opt_text(q.level)) + opt_entry("MaxWidth"@, opt_u32_text(q.max_width)) + opt_entry("MaxHeight"@, opt_u32_text(q.max_height)) + opt_entry("StartTimeTicks"@, opt_i64_text(q.start_time_ticks)) + opt_entry("DeviceId"@, opt_text(q.device_id)) + opt_entry("PlaySessionId"@, opt_text(q.play_session_id)) + opt_entry("MediaSourceId"@, opt_text(q.media_source_id)) + opt_entry("SubtitleStreamIndex"@, opt_i32_text(q.subtitle_stream_index)) + opt_entry("AudioStreamIndex"@, opt_i32_text(q.audio_stream_index)), k)
            + (if "VideoStreamIndex"@ == k { opt_entry("VideoStreamIndex"@, opt_i32_text(q.video_stream_index)) } else { Seq::empty() })),
{
    lemma_entries_with_opt("VideoStreamIndex"@, opt_i32_text(q.video_stream_index), k);
    lemma_entries_with_concat(opt_entry("MaxStreamingBitrate"@, opt_u32_text(q.max_streaming_bitrate)) + opt_entry("MaxAudioChannels"@, opt_u32_text(q.max_audio_channels)) + opt_entry("Container"@, opt_text(q.container)) + opt_entry("AudioCodec"@, opt_text(q.audio_codec)) + opt_entry("VideoCodec"@, opt_text(q.video_codec)) + opt_entry("AudioSampleRate"@, opt_u32_text(q.audio_sample_rate)) + opt_entry("MaxAudioBitrate"@, opt_u32_text(q.max_audio_bitrate)) + opt_entry("MaxVideoBitrate"@, opt_u32_text(q.max_video_bitrate)) + opt_entry("Profile"@, opt_text(q.profile)) + opt_entry("Level"@, opt_text(q.level)) + opt_entry("MaxWidth"@, opt_u32_text(q.max_width)) + opt_entry("MaxHeight"@, opt_u32_text(q.max_height)) + opt_entry("StartTimeTicks"@, opt_i64_text(q.start_time_ticks)) + opt_entry("DeviceId"@, opt_text(q.device_id)) + opt_entry("PlaySessionId"@, opt_text(q.play_session_id)) + opt_entry("MediaSourceId"@, opt_text(q.media_source_id)) + opt_entry("SubtitleStreamIndex"@, opt_i32_text(q.subtitle_stream_index)) + opt_entry("AudioStreamIndex"@, opt_i32_text(q.audio_stream_index)), opt_entry("VideoStreamIndex"@, opt_i32_text(q.video_stream_index)), k);
}

proof fn lemma_stream_params_by_key_key0(q: StreamParams)
    ensures
        entries_with(q.query(), "MaxStreamingBitrate"@) == (match q.max_streaming_bitrate { Some(v) => seq![("MaxStreamingBitrate"@, decimal(v as nat))], None => Seq::empty() }),
{
    assert(entries_with(q.query(), "MaxStreamingBitrate"@) == (match q.max_streaming_bitrate { Some(v) => seq![("MaxStreamingBitrate"@, decimal(v as nat))], None => Seq::empty() })) by {
        broadcast use lemma_concat_empty;
        lemma_stream_params_by_key_part0(q, "MaxStreamingBitrate"@);
        lemma_stream_params_by_key_part1(q, "MaxStreamingBitrate"@);
        lemma_stream_params_by_key_part2(q, "MaxStreamingBitrate"@);
        lemma_stream_params_by_key_part3(q, "MaxStreamingBitrate"@);
        reveal_strlit("MaxStreamingBitrate");
        assert("MaxStreamingBitrate"@.len() == 19);
        reveal_strlit("MaxAudioChannels");
        assert("MaxAudioChannels"@.len() == 16);
        reveal_strlit("Container");
        assert("Container"@.len() == 9);
        reveal_strlit("AudioCodec");
        assert("AudioCodec"@.len() == 10);
        reveal_strlit("VideoCodec");
        assert("VideoCodec"@.len() == 10);
        reveal_strlit("AudioSampleRate");
        assert("AudioSampleRate"@.len() == 15);
        reveal_strlit("MaxAudioBitrate");
        assert("MaxAudioBitrate"@.len() == 15);
        reveal_strlit("MaxVideoBitrate");
        assert("MaxVideoBitrate"@.len() == 15);
        reveal_strlit("Profile");
        assert("Profile"@.len() == 7);
        reveal_strlit("Level");
        assert("Level"@.len() == 5);
        reveal_strlit("MaxWidth");
        assert("MaxWidth"@.len() == 8);
        reveal_strlit("MaxHeight");
        assert("MaxHeight"@.len() == 9);
        reveal_strlit("StartTimeTicks");
        assert("StartTimeTicks"@.len() == 14);
        reveal_strlit("DeviceId");
        assert("DeviceId"@.len() == 8);
        reveal_strlit("PlaySessionId");
        assert("PlaySessionId"@.len() == 13);
        reveal_strlit("MediaSourceId");
        assert("MediaSourceId"@.len() == 13);
        reveal_strlit("SubtitleStreamIndex");
        assert("SubtitleStreamIndex"@.len() == 19);
        assert("SubtitleStreamIndex"@[0] == 'S' && "MaxStreamingBitrate"@[0] == 'M');
        reveal_strlit("AudioStreamIndex");
        assert("AudioStreamIndex"@.len() == 16);
        reveal_strlit("VideoStreamIndex");
        assert("VideoStreamIndex"@.len() == 16);
    }
}

proof fn lemma_stream_params_by_key_key1(q: StreamParams)
    ensures
        entries_with(q.query(), "MaxAudioChannels"@) == (match q.max_audio_channels { Some(v) => seq![("MaxAudioChannels"@, decimal(v as nat))], None => Seq::empty() }),
{
    assert(entries_with(q.query(), "MaxAudioChannels"@) == (match q.max_audio_channels { Some(v) => seq![("MaxAudioChannels"@, decimal(v as nat))], None => Seq::empty() })) by {
        broadcast use lemma_concat_empty;
        lemma_stream_params_by_key_part0(q, "MaxAudioChannels"@);
        lemma_stream_params_by_key_part1(q, "MaxAudioChannels"@);
        lemma_stream_params_by_key_part2(q, "MaxAudioChannels"@);
        lemma_stream_params_by_key_part3(q, "MaxAudioChannels"@);
        reveal_strlit("MaxAudioChannels");
        assert("MaxAudioChannels"@.len() == 16);
        reveal_strlit("MaxStreamingBitrate");
        assert("MaxStreamingBitrate"@.len() == 19);
        reveal_strlit("Container");
        assert("Container"@.len() == 9);
        reveal_strlit("AudioCodec");
        assert("AudioCodec"@.len() == 10);
        reveal_strlit("VideoCodec");
        assert("VideoCodec"@.len() == 10);
        reveal_strlit("AudioSampleRate");
        assert("AudioSampleRate"@.len() == 15);
        reveal_strlit("MaxAudioBitrate");
        assert("MaxAudioBitrate"@.len() == 15);
        reveal_strlit("MaxVideoBitrate");
        assert("MaxVideoBitrate"@.len() == 15);
        reveal_strlit("Profile");
        assert("Profile"@.len() == 7);
        reveal_strlit("Level");
        assert("Level"@.len() == 5);
        reveal_strlit("MaxWidth");
        assert("MaxWidth"@.len() == 8);
        reveal_strlit("MaxHeight");
        assert("MaxHeight"@.len() == 9);
        reveal_strlit("StartTimeTicks");
        assert("StartTimeTicks"@.len() == 14);
        reveal_strlit("DeviceId");
        assert("DeviceId"@.len() == 8);
        reveal_strlit("PlaySessionId");
        assert("PlaySessionId"@.len() == 13);
        reveal_strlit("MediaSourceId");
        assert("MediaSourceId"@.len() == 13);
        reveal_strlit("SubtitleStreamIndex");
        assert("SubtitleStreamIndex"@.len() == 19);
        reveal_strlit("AudioStreamIndex");
        assert("AudioStreamIndex"@.len() == 16);
        assert("AudioStreamIndex"@[0] == 'A' && "MaxAudioChannels"@[0] == 'M');
        reveal_strlit("VideoStreamIndex");
        assert("VideoStreamIndex"@.len() == 16);
        assert("VideoStreamIndex"@[0] == 'V' && "MaxAudioChannels"@[0] == 'M');
    }
}

proof fn lemma_stream_params_by_key_key2(q: StreamParams)
    ensures
        entries_with(q.query(), "Container"@) == (match q.container { Some(v) => seq![("Container"@, v@)], None => Seq::empty() }),
{
    assert(entries_with(q.query(), "Container"@) == (match q.container { Some(v) => seq![("Container"@, v@)], None => Seq::empty() })) by {
        broadcast use lemma_concat_empty;
        lemma_stream_params_by_key_part0(q, "Container"@);
        lemma_stream_params_by_key_part1(q, "Container"@);
        lemma_stream_params_by_key_part2(q, "Container"@);
        lemma_stream_params_by_key_part3(q, "Container"@);
        reveal_strlit("Container");
        assert("Container"@.len() == 9);
        reveal_strlit("MaxStreamingBitrate");
        assert("MaxStreamingBitrate"@.len() == 19);
        reveal_strlit("MaxAudioChannels");
        assert("MaxAudioChannels"@.len() == 16);
        reveal_strlit("AudioCodec");
        assert("AudioCodec"@.len() == 10);
        reveal_strlit("VideoCodec");
        assert("VideoCodec"@.len() == 10);
        reveal_strlit("AudioSampleRate");
        assert("AudioSampleRate"@.len() == 15);
        reveal_strlit("MaxAudioBitrate");
        assert("MaxAudioBitrate"@.len() == 15);
        reveal_strlit("MaxVideoBitrate");
        assert("MaxVideoBitrate"@.len() == 15);
        reveal_strlit("Profile");
        assert("Profile"@.len() == 7);
        reveal_strlit("Level");
        assert("Level"@.len() == 5);
        reveal_strlit("MaxWidth");
        assert("MaxWidth"@.len() == 8);
        reveal_strlit("MaxHeight");
        assert("MaxHeight"@.len() == 9);
        assert("MaxHeight"@[0] == 'M' && "Container"@[0] == 'C');
        reveal_strlit("StartTimeTicks");
        assert("StartTimeTicks"@.len() == 14);
        reveal_strlit("DeviceId");
        assert("DeviceId"@.len() == 8);
        reveal_strlit("PlaySessionId");
        assert("PlaySessionId"@.len() == 13);
        reveal_strlit("MediaSourceId");
        assert("MediaSourceId"@.len() == 13);
        reveal_strlit("SubtitleStreamIndex");
        assert("SubtitleStreamIndex"@.len() == 19);
        reveal_strlit("AudioStreamIndex");
        assert("AudioStreamIndex"@.len() == 16);
        reveal_strlit("VideoStreamIndex");
        assert("VideoStreamIndex"@.len() == 16);
    }
}

proof fn lemma_stream_params_by_key_key3(q: StreamParams)
    ensures
        entries_with(q.query(), "AudioCodec"@) == (match q.audio_codec { Some(v) => seq![("AudioCodec"@, v@)], None => Seq::empty() }),
{
    assert(entries_with(q.query(), "AudioCodec"@) == (match q.audio_codec { Some(v) => seq![("AudioCodec"@, v@)], None => Seq::empty() })) by {
        broadcast use lemma_concat_empty;
        lemma_stream_params_by_key_part0(q, "AudioCodec"@);
        lemma_stream_params_by_key_part1(q, "AudioCodec"@);
        lemma_stream_params_by_key_part2(q, "AudioCodec"@);
        lemma_stream_params_by_key_part3(q, "AudioCodec"@);
        reveal_strlit("AudioCodec");
        assert("AudioCodec"@.len() == 10);
        reveal_strlit("MaxStreamingBitrate");
        assert("MaxStreamingBitrate"@.len() == 19);
        reveal_strlit("MaxAudioChannels");
        assert("MaxAudioChannels"@.len() == 16);
        reveal_strlit("Container");
        assert("Container"@.len() == 9);
        reveal_strlit("VideoCodec");
        assert("VideoCodec"@.len() == 10);
        assert("VideoCodec"@[0] == 'V' && "AudioCodec"@[0] == 'A');
        reveal_strlit("AudioSampleRate");
        assert("AudioSampleRate"@.len() == 15);
        reveal_strlit("MaxAudioBitrate");
        assert("MaxAudioBitrate"@.len() == 15);
        reveal_strlit("MaxVideoBitrate");
        assert("MaxVideoBitrate"@.len() == 15);
        reveal_strlit("Profile");
        assert("Profile"@.len() == 7);
        reveal_strlit("Level");
        assert("Level"@.len() == 5);
        reveal_strlit("MaxWidth");
        assert("MaxWidth"@.len() == 8);
        reveal_strlit("MaxHeight");
        assert("MaxHeight"@.len() == 9);
        reveal_strlit("StartTimeTicks");
        assert("StartTimeTicks"@.len() == 14);
        reveal_strlit("DeviceId");
        assert("DeviceId"@.len() == 8);
        reveal_strlit("PlaySessionId");
        assert("PlaySessionId"@.len() == 13);
        reveal_strlit("MediaSourceId");
        assert("MediaSourceId"@.len() == 13);
        reveal_strlit("SubtitleStreamIndex");
        assert("SubtitleStreamIndex"@.len() == 19);
        reveal_strlit("AudioStreamIndex");
        assert("AudioStreamIndex"@.len() == 16);
        reveal_strlit("VideoStreamIndex");
        assert("VideoStreamIndex"@.len() == 16);
    }
}

proof fn lemma_stream_params_by_key_key4(q: StreamParams)
    ensures
        entries_with(q.query(), "VideoCodec"@) == (match q.video_codec { Some(v) => seq![("VideoCodec"@, v@)], None => Seq::empty() }),
{
    assert(entries_with(q.query(), "VideoCodec"@) == (match q.video_codec { Some(v) => seq![("VideoCodec"@, v@)], None => Seq::empty() })) by {
        broadcast use lemma_concat_empty;
        lemma_stream_params_by_key_part0(q, "VideoCodec"@);
        lemma_stream_params_by_key_part1(q, "VideoCodec"@);
        lemma_stream_params_by_key_part2(q, "VideoCodec"@);
        lemma_stream_params_by_key_part3(q, "VideoCodec"@);
        reveal_strlit("VideoCodec");
        assert("VideoCodec"@.len() == 10);
        reveal_strlit("MaxStreamingBitrate");
        assert("MaxStreamingBitrate"@.len() == 19);
        reveal_strlit("MaxAudioChannels");
        assert("MaxAudioChannels"@.len() == 16);
        reveal_strlit("Container");
        assert("Container"@.len() == 9);
        reveal_strlit("AudioCodec");
        assert("AudioCodec"@.len() == 10);
        assert("AudioCodec"@[0] == 'A' && "VideoCodec"@[0] == 'V');
        reveal_strlit("AudioSampleRate");
        assert("AudioSampleRate"@.len() == 15);
        reveal_strlit("MaxAudioBitrate");
        assert("MaxAudioBitrate"@.len() == 15);
        reveal_strlit("MaxVideoBitrate");
        assert("MaxVideoBitrate"@.len() == 15);
        reveal_strlit("Profile");
        assert("Profile"@.len() == 7);
        reveal_strlit("Level");
        assert("Level"@.len() == 5);
        reveal_strlit("MaxWidth");
        assert("MaxWidth"@.len() == 8);
        reveal_strlit("MaxHeight");
        assert("MaxHeight"@.len() == 9);
        reveal_strlit("StartTimeTicks");
        assert("StartTimeTicks"@.len() == 14);
        reveal_strlit("DeviceId");
        assert("DeviceId"@.len() == 8);
        reveal_strlit("PlaySessionId");
        assert("PlaySessionId"@.len() == 13);
        reveal_strlit("MediaSourceId");
        assert("MediaSourceId"@.len() == 13);
        reveal_strlit("SubtitleStreamIndex");
        assert("SubtitleStreamIndex"@.len() == 19);
        reveal_strlit("AudioStreamIndex");
        assert("AudioStreamIndex"@.len() == 16);
        reveal_strlit("VideoStreamIndex");
        assert("VideoStreamIndex"@.len() == 16);
    }
}

proof fn lemma_stream_params_by_key_key5(q: StreamParams)
    ensures
        entries_with(q.query(), "AudioSampleRate"@) == (match q.audio_sample_rate { Some(v) => seq![("AudioSampleRate"@, decimal(v as nat))], None => Seq::empty() }),
{
    assert(entries_with(q.query(), "AudioSampleRate"@) == (match q.audio_sample_rate { Some(v) => seq![("AudioSampleRate"@, decimal(v as nat))], None => Seq::empty() })) by {
        broadcast use lemma_concat_empty;
        lemma_stream_params_by_key_part0(q, "AudioSampleRate"@);
        lemma_stream_params_by_key_part1(q, "AudioSampleRate"@);
        lemma_stream_params_by_key_part2(q, "AudioSampleRate"@);
        lemma_stream_params_by_key_part3(q, "AudioSampleRate"@);
        reveal_strlit("AudioSampleRate");
        assert("AudioSampleRate"@.len() == 15);
        reveal_strlit("MaxStreamingBitrate");
        assert("MaxStreamingBitrate"@.len() == 19);
        reveal_strlit("MaxAudioChannels");
        assert("MaxAudioChannels"@.len() == 16);
        reveal_strlit("Container");
        assert("Container"@.len() == 9);
        reveal_strlit("AudioCodec");
        assert("AudioCodec"@.len() == 10);
        reveal_strlit("VideoCodec");
        assert("VideoCodec"@.len() == 10);
        reveal_strlit("MaxAudioBitrate");
        assert("MaxAudioBitrate"@.len() == 15);
        assert("MaxAudioBitrate"@[0] == 'M' && "AudioSampleRate"@[0] == 'A');
        reveal_strlit("MaxVideoBitrate");
        assert("MaxVideoBitrate"@.len() == 15);
        assert("MaxVideoBitrate"@[0] == 'M' && "AudioSampleRate"@[0] == 'A');
        reveal_strlit("Profile");
        assert("Profile"@.len() == 7);
        reveal_strlit("Level");
        assert("Level"@.len() == 5);
        reveal_strlit("MaxWidth");
        assert("MaxWidth"@.len() == 8);
        reveal_strlit("MaxHeight");
        assert("MaxHeight"@.len() == 9);
        reveal_strlit("StartTimeTicks");
        assert("StartTimeTicks"@.len() == 14);
        reveal_strlit("DeviceId");
        assert("DeviceId"@.len() == 8);
        reveal_strlit("PlaySessionId");
        assert("PlaySessionId"@.len() == 13);
        reveal_strlit("MediaSourceId");
        assert("MediaSourceId"@.len() == 13);
        reveal_strlit("SubtitleStreamIndex");
        assert("SubtitleStreamIndex"@.len() == 19);
        reveal_strlit("AudioStreamIndex");
        assert("AudioStreamIndex"@.len() == 16);
        reveal_strlit("VideoStreamIndex");
        assert("VideoStreamIndex"@.len() == 16);
    }
}

proof fn lemma_stream_params_by_key_key6(q: StreamParams)
    ensures
        entries_with(q.query(), "MaxAudioBitrate"@) == (match q.max_audio_bitrate { Some(v) => seq![("MaxAudioBitrate"@, decimal(v as nat))], None => Seq::empty() }),
{
    assert(entries_with(q.query(), "MaxAudioBitrate"@) == (match q.max_audio_bitrate { Some(v) => seq![("MaxAudioBitrate"@, decimal(v as nat))], None => Seq::empty() })) by {
        broadcast use lemma_concat_empty;
        lemma_stream_params_by_key_part0(q, "MaxAudioBitrate"@);
        lemma_stream_params_by_key_part1(q, "MaxAudioBitrate"@);
        lemma_stream_params_by_key_part2(q, "MaxAudioBitrate"@);
        lemma_stream_params_by_key_part3(q, "MaxAudioBitrate"@);
        reveal_strlit("MaxAudioBitrate");
        assert("MaxAudioBitrate"@.len() == 15);
        reveal_strlit("MaxStreamingBitrate");
        assert("MaxStreamingBitrate"@.len() == 19);
        reveal_strlit("MaxAudioChannels");
        assert("MaxAudioChannels"@.len() == 16);
        reveal_strlit("Container");
        assert("Container"@.len() == 9);
        reveal_strlit("AudioCodec");
        assert("AudioCodec"@.len() == 10);
        reveal_strlit("VideoCodec");
        assert("VideoCodec"@.len() == 10);
        reveal_strlit("AudioSampleRate");
        assert("AudioSampleRate"@.len() == 15);
        assert("AudioSampleRate"@[0] == 'A' && "MaxAudioBitrate"@[0] == 'M');
        reveal_strlit("MaxVideoBitrate");
        assert("MaxVideoBitrate"@.len() == 15);
        assert("MaxVideoBitrate"@[3] == 'V' && "MaxAudioBitrate"@[3] == 'A');
        reveal_strlit("Profile");
        assert("Profile"@.len() == 7);
        reveal_strlit("Level");
        assert("Level"@.len() == 5);
        reveal_strlit("MaxWidth");
        assert("MaxWidth"@.len() == 8);
        reveal_strlit("MaxHeight");
        assert("MaxHeight"@.len() == 9);
        reveal_strlit("StartTimeTicks");
        assert("StartTimeTicks"@.len() == 14);
        reveal_strlit("DeviceId");
        assert("DeviceId"@.len() == 8);
        reveal_strlit("PlaySessionId");
        assert("PlaySessionId"@.len() == 13);
        reveal_strlit("MediaSourceId");
        assert("MediaSourceId"@.len() == 13);
        reveal_strlit("SubtitleStreamIndex");
        assert("SubtitleStreamIndex"@.len() == 19);
        reveal_strlit("AudioStreamIndex");
        assert("AudioStreamIndex"@.len() == 16);
        reveal_strlit("VideoStreamIndex");
        assert("VideoStreamIndex"@.len() == 16);
    }
}

proof fn lemma_stream_params_by_key_key7(q: StreamParams)
    ensures
        entries_with(q.query(), "MaxVideoBitrate"@) == (match q.max_video_bitrate { Some(v) => seq![("MaxVideoBitrate"@, decimal(v as nat))], None => Seq::empty() }),
{
    assert(entries_with(q.query(), "MaxVideoBitrate"@) == (match q.max_video_bitrate { Some(v) => seq![("MaxVideoBitrate"@, decimal(v as nat))], None => Seq::empty() })) by {
        broadcast use lemma_concat_empty;
        lemma_stream_params_by_key_part0(q, "MaxVideoBitrate"@);
        lemma_stream_params_by_key_part1(q, "MaxVideoBitrate"@);
        lemma_stream_params_by_key_part2(q, "MaxVideoBitrate"@);
        lemma_stream_params_by_key_part3(q, "MaxVideoBitrate"@);
        reveal_strlit("MaxVideoBitrate");
        assert("MaxVideoBitrate"@.len() == 15);
        reveal_strlit("MaxStreamingBitrate");
        assert("MaxStreamingBitrate"@.len() == 19);
        reveal_strlit("MaxAudioChannels");
        assert("MaxAudioChannels"@.len() == 16);
        reveal_strlit("Container");
        assert("Container"@.len() == 9);
        reveal_strlit("AudioCodec");
        assert("AudioCodec"@.len() == 10);
        reveal_strlit("VideoCodec");
        assert("VideoCodec"@.len() == 10);
        reveal_strlit("AudioSampleRate");
        assert("AudioSampleRate"@.len() == 15);
        assert("AudioSampleRate"@[0] == 'A' && "MaxVideoBitrate"@[0] == 'M');
        reveal_strlit("MaxAudioBitrate");
        assert("MaxAudioBitrate"@.len() == 15);
        assert("MaxAudioBitrate"@[3] == 'A' && "MaxVideoBitrate"@[3] == 'V');
        reveal_strlit("Profile");
        assert("Profile"@.len() == 7);
        reveal_strlit("Level");
        assert("Level"@.len() == 5);
        reveal_strlit("MaxWidth");
        assert("MaxWidth"@.len() == 8);
        reveal_strlit("MaxHeight");
        assert("MaxHeight"@.len() == 9);
        reveal_strlit("StartTimeTicks");
        assert("StartTimeTicks"@.len() == 14);
        reveal_strlit("DeviceId");
        assert("DeviceId"@.len() == 8);
        reveal_strlit("PlaySessionId");
        assert("PlaySessionId"@.len() == 13);
        reveal_strlit("MediaSourceId");
        assert("MediaSourceId"@.len() == 13);
        reveal_strlit("SubtitleStreamIndex");
        assert("SubtitleStreamIndex"@.len() == 19);
        reveal_strlit("AudioStreamIndex");
        assert("AudioStreamIndex"@.len() == 16);
        reveal_strlit("VideoStreamIndex");
        assert("VideoStreamIndex"@.len() == 16);
    }
}

proof fn lemma_stream_params_by_key_key8(q: StreamParams)
    ensures
        entries_with(q.query(), "Profile"@) == (match q.profile { Some(v) => seq![("Profile"@, v@)], None => Seq::empty() }),
{
    assert(entries_with(q.query(), "Profile"@) == (match q.profile { Some(v) => seq![("Profile"@, v@)], None => Seq::empty() })) by {
        broadcast use lemma_concat_empty;
        lemma_stream_params_by_key_part0(q, "Profile"@);
        lemma_stream_params_by_key_part1(q, "Profile"@);
        lemma_stream_params_by_key_part2(q, "Profile"@);
        lemma_stream_params_by_key_part3(q, "Profile"@);
        reveal_strlit("Profile");
        assert("Profile"@.len() == 7);
        reveal_strlit("MaxStreamingBitrate");
        assert("MaxStreamingBitrate"@.len() == 19);
        reveal_strlit("MaxAudioChannels");
        assert("MaxAudioChannels"@.len() == 16);
        reveal_strlit("Container");
        assert("Container"@.len() == 9);
        reveal_strlit("AudioCodec");
        assert("AudioCodec"@.len() == 10);
        reveal_strlit("VideoCodec");
        assert("VideoCodec"@.len() == 10);
        reveal_strlit("AudioSampleRate");
        assert("AudioSampleRate"@.len() == 15);
        reveal_strlit("MaxAudioBitrate");
        assert("MaxAudioBitrate"@.len() == 15);
        reveal_strlit("MaxVideoBitrate");
        assert("MaxVideoBitrate"@.len() == 15);
        reveal_strlit("Level");
        assert("Level"@.len() == 5);
        reveal_strlit("MaxWidth");
        assert("MaxWidth"@.len() == 8);
        reveal_strlit("MaxHeight");
        assert("MaxHeight"@.len() == 9);
        reveal_strlit("StartTimeTicks");
        assert("StartTimeTicks"@.len() == 14);
        reveal_strlit("DeviceId");
        assert("DeviceId"@.len() == 8);
        reveal_strlit("PlaySessionId");
        assert("PlaySessionId"@.len() == 13);
        reveal_strlit("MediaSourceId");
        assert("MediaSourceId"@.len() == 13);
        reveal_strlit("SubtitleStreamIndex");
        assert("SubtitleStreamIndex"@.len() == 19);
        reveal_strlit("AudioStreamIndex");
        assert("AudioStreamIndex"@.len() == 16);
        reveal_strlit("VideoStreamIndex");
        assert("VideoStreamIndex"@.len() == 16);
    }
}

proof fn lemma_stream_params_by_key_key9(q: StreamParams)
    ensures
        entries_with(q.query(), "Level"@) == (match q.level { Some(v) => seq![("Level"@, v@)], None => Seq::empty() }),
{
    assert(entries_with(q.query(), "Level"@) == (match q.level { Some(v) => seq![("Level"@, v@)], None => Seq::empty() })) by {
        broadcast use lemma_concat_empty;
        lemma_stream_params_by_key_part0(q, "Level"@);
        lemma_stream_params_by_key_part1(q, "Level"@);
        lemma_stream_params_by_key_part2(q, "Level"@);
        lemma_stream_params_by_key_part3(q, "Level"@);
        reveal_strlit("Level");
        assert("Level"@.len() == 5);
        reveal_strlit("MaxStreamingBitrate");
        assert("MaxStreamingBitrate"@.len() == 19);
        reveal_strlit("MaxAudioChannels");
        assert("MaxAudioChannels"@.len() == 16);
        reveal_strlit("Container");
        assert("Container"@.len() == 9);
        reveal_strlit("AudioCodec");
        assert("AudioCodec"@.len() == 10);
        reveal_strlit("VideoCodec");
        assert("VideoCodec"@.len() == 10);
        reveal_strlit("AudioSampleRate");
        assert("AudioSampleRate"@.len() == 15);
        reveal_strlit("MaxAudioBitrate");
        assert("MaxAudioBitrate"@.len() == 15);
        reveal_strlit("MaxVideoBitrate");
        assert("MaxVideoBitrate"@.len() == 15);
        reveal_strlit("Profile");
        assert("Profile"@.len() == 7);
        reveal_strlit("MaxWidth");
        assert("MaxWidth"@.len() == 8);
        reveal_strlit("MaxHeight");
        assert("MaxHeight"@.len() == 9);
        reveal_strlit("StartTimeTicks");
        assert("StartTimeTicks"@.len() == 14);
        reveal_strlit("DeviceId");
        assert("DeviceId"@.len() == 8);
        reveal_strlit("PlaySessionId");
        assert("PlaySessionId"@.len() == 13);
        reveal_strlit("MediaSourceId");
        assert("MediaSourceId"@.len() == 13);
        reveal_strlit("SubtitleStreamIndex");
        assert("SubtitleStreamIndex"@.len() == 19);
        reveal_strlit("AudioStreamIndex");
        assert("AudioStreamIndex"@.len() == 16);
        reveal_strlit("VideoStreamIndex");
        assert("VideoStreamIndex"@.len() == 16);
    }
}

proof fn lemma_stream_params_by_key_key10(q: StreamParams)
    ensures
        entries_with(q.query(), "MaxWidth"@) == (match q.max_width { Some(v) => seq![("MaxWidth"@, decimal(v as nat))], None => Seq::empty() }),
{
    assert(entries_with(q.query(), "MaxWidth"@) == (match q.max_width { Some(v) => seq![("MaxWidth"@, decimal(v as nat))], None => Seq::empty() })) by {
        broadcast use lemma_concat_empty;
        lemma_stream_params_by_key_part0(q, "MaxWidth"@);
        lemma_stream_params_by_key_part1(q, "MaxWidth"@);
        lemma_stream_params_by_key_part2(q, "MaxWidth"@);
        lemma_stream_params_by_key_part3(q, "MaxWidth"@);
        reveal_strlit("MaxWidth");
        assert("MaxWidth"@.len() == 8);
        reveal_strlit("MaxStreamingBitrate");
        assert("MaxStreamingBitrate"@.len() == 19);
        reveal_strlit("MaxAudioChannels");
        assert("MaxAudioChannels"@.len() == 16);
        reveal_strlit("Container");
        assert("Container"@.len() == 9);
        reveal_strlit("AudioCodec");
        assert("AudioCodec"@.len() == 10);
        reveal_strlit("VideoCodec");
        assert("VideoCodec"@.len() == 10);
        reveal_strlit("AudioSampleRate");
        assert("AudioSampleRate"@.len() == 15);
        reveal_strlit("MaxAudioBitrate");
        assert("MaxAudioBitrate"@.len() == 15);
        reveal_strlit("MaxVideoBitrate");
        assert("MaxVideoBitrate"@.len() == 15);
        reveal_strlit("Profile");
        assert("Profile"@.len() == 7);
        reveal_strlit("Level");
        assert("Level"@.len() == 5);
        reveal_strlit("MaxHeight");
        assert("MaxHeight"@.len() == 9);
        reveal_strlit("StartTimeTicks");
        assert("StartTimeTicks"@.len() == 14);
        reveal_strlit("DeviceId");
        assert("DeviceId"@.len() == 8);
        assert("DeviceId"@[0] == 'D' && "MaxWidth"@[0] == 'M');
        reveal_strlit("PlaySessionId");
        assert("PlaySessionId"@.len() == 13);
        reveal_strlit("MediaSourceId");
        assert("MediaSourceId"@.len() == 13);
        reveal_strlit("SubtitleStreamIndex");
        assert("SubtitleStreamIndex"@.len() == 19);
        reveal_strlit("AudioStreamIndex");
        assert("AudioStreamIndex"@.len() == 16);
        reveal_strlit("VideoStreamIndex");
        assert("VideoStreamIndex"@.len() == 16);
    }
}

proof fn lemma_stream_params_by_key_key11(q: StreamParams)
    ensures
        entries_with(q.query(), "MaxHeight"@) == (match q.max_height { Some(v) => seq![("MaxHeight"@, decimal(v as nat))], None => Seq::empty() }),
{
    assert(entries_with(q.query(), "MaxHeight"@) == (match q.max_height { Some(v) => seq![("MaxHeight"@, decimal(v as nat))], None => Seq::empty() })) by {
        broadcast use lemma_concat_empty;
        lemma_stream_params_by_key_part0(q, "MaxHeight"@);
        lemma_stream_params_by_key_part1(q, "MaxHeight"@);
        lemma_stream_params_by_key_part2(q, "MaxHeight"@);
        lemma_stream_params_by_key_part3(q, "MaxHeight"@);
        reveal_strlit("MaxHeight");
        assert("MaxHeight"@.len() == 9);
        reveal_strlit("MaxStreamingBitrate");
        assert("MaxStreamingBitrate"@.len() == 19);
        reveal_strlit("MaxAudioChannels");
        assert("MaxAudioChannels"@.len() == 16);
        reveal_strlit("Container");
        assert("Container"@.len() == 9);
        assert("Container"@[0] == 'C' && "MaxHeight"@[0] == 'M');
        reveal_strlit("AudioCodec");
        assert("AudioCodec"@.len() == 10);
        reveal_strlit("VideoCodec");
        assert("VideoCodec"@.len() == 10);
        reveal_strlit("AudioSampleRate");
        assert("AudioSampleRate"@.len() == 15);
        reveal_strlit("MaxAudioBitrate");
        assert("MaxAudioBitrate"@.len() == 15);
        reveal_strlit("MaxVideoBitrate");
        assert("MaxVideoBitrate"@.len() == 15);
        reveal_strlit("Profile");
        assert("Profile"@.len() == 7);
        reveal_strlit("Level");
        assert("Level"@.len() == 5);
        reveal_strlit("MaxWidth");
        assert("MaxWidth"@.len() == 8);
        reveal_strlit("StartTimeTicks");
        assert("StartTimeTicks"@.len() == 14);
        reveal_strlit("DeviceId");
        assert("DeviceId"@.len() == 8);
        reveal_strlit("PlaySessionId");
        assert("PlaySessionId"@.len() == 13);
        reveal_strlit("MediaSourceId");
        assert("MediaSourceId"@.len() == 13);
        reveal_strlit("SubtitleStreamIndex");
        assert("SubtitleStreamIndex"@.len() == 19);
        reveal_strlit("AudioStreamIndex");
        assert("AudioStreamIndex"@.len() == 16);
        reveal_strlit("VideoStreamIndex");
        assert("VideoStreamIndex"@.len() == 16);
    }
}

proof fn lemma_stream_params_by_key_key12(q: StreamParams)
    ensures
        entries_with(q.query(), "StartTimeTicks"@) == (match q.start_time_ticks { Some(v) => seq![("StartTimeTicks"@, signed_decimal(v as int))], None => Seq::empty() }),
{
    assert(entries_with(q.query(), "StartTimeTicks"@) == (match q.start_time_ticks { Some(v) => seq![("StartTimeTicks"@, signed_decimal(v as int))], None => Seq::empty() })) by {
        broadcast use lemma_concat_empty;
        lemma_stream_params_by_key_part0(q, "StartTimeTicks"@);
        lemma_stream_params_by_key_part1(q, "StartTimeTicks"@);
        lemma_stream_params_by_key_part2(q, "StartTimeTicks"@);
        lemma_stream_params_by_key_part3(q, "StartTimeTicks"@);
        reveal_strlit("StartTimeTicks");
        assert("StartTimeTicks"@.len() == 14);
        reveal_strlit("MaxStreamingBitrate");
        assert("MaxStreamingBitrate"@.len() == 19);
        reveal_strlit("MaxAudioChannels");
        assert("MaxAudioChannels"@.len() == 16);
        reveal_strlit("Container");
        assert("Container"@.len() == 9);
        reveal_strlit("AudioCodec");
        assert("AudioCodec"@.len() == 10);
        reveal_strlit("VideoCodec");
        assert("VideoCodec"@.len() == 10);
        reveal_strlit("AudioSampleRate");
        assert("AudioSampleRate"@.len() == 15);
        reveal_strlit("MaxAudioBitrate");
        assert("MaxAudioBitrate"@.len() == 15);
        reveal_strlit("MaxVideoBitrate");
        assert("MaxVideoBitrate"@.len() == 15);
        reveal_strlit("Profile");
        assert("Profile"@.len() == 7);
        reveal_strlit("Level");
        assert("Level"@.len() == 5);
        reveal_strlit("MaxWidth");
        assert("MaxWidth"@.len() == 8);
        reveal_strlit("MaxHeight");
        assert("MaxHeight"@.len() == 9);
        reveal_strlit("DeviceId");
        assert("DeviceId"@.len() == 8);
        reveal_strlit("PlaySessionId");
        assert("PlaySessionId"@.len() == 13);
        reveal_strlit("MediaSourceId");
        assert("MediaSourceId"@.len() == 13);
        reveal_strlit("SubtitleStreamIndex");
        assert("SubtitleStreamIndex"@.len() == 19);
        reveal_strlit("AudioStreamIndex");
        assert("AudioStreamIndex"@.len() == 16);
        reveal_strlit("VideoStreamIndex");
        assert("VideoStreamIndex"@.len() == 16);
    }
}

proof fn lemma_stream_params_by_key_key13(q: StreamParams)
    ensures
        entries_with(q.query(), "DeviceId"@) == (match q.device_id { Some(v) => seq![("DeviceId"@, v@)], None => Seq::empty() }),
{
    assert(entries_with(q.query(), "DeviceId"@) == (match q.device_id { Some(v) => seq![("DeviceId"@, v@)], None => Seq::empty() })) by {
        broadcast use lemma_concat_empty;
        lemma_stream_params_by_key_part0(q, "DeviceId"@);
        lemma_stream_params_by_key_part1(q, "DeviceId"@);
        lemma_stream_params_by_key_part2(q, "DeviceId"@);
        lemma_stream_params_by_key_part3(q, "DeviceId"@);
        reveal_strlit("DeviceId");
        assert("DeviceId"@.len() == 8);
        reveal_strlit("MaxStreamingBitrate");
        assert("MaxStreamingBitrate"@.len() == 19);
        reveal_strlit("MaxAudioChannels");
        assert("MaxAudioChannels"@.len() == 16);
        reveal_strlit("Container");
        assert("Container"@.len() == 9);
        reveal_strlit("AudioCodec");
        assert("AudioCodec"@.len() == 10);
        reveal_strlit("VideoCodec");
        assert("VideoCodec"@.len() == 10);
        reveal_strlit("AudioSampleRate");
        assert("AudioSampleRate"@.len() == 15);
        reveal_strlit("MaxAudioBitrate");
        assert("MaxAudioBitrate"@.len() == 15);
        reveal_strlit("MaxVideoBitrate");
        assert("MaxVideoBitrate"@.len() == 15);
        reveal_strlit("Profile");
        assert("Profile"@.len() == 7);
        reveal_strlit("Level");
        assert("Level"@.len() == 5);
        reveal_strlit("MaxWidth");
        assert("MaxWidth"@.len() == 8);
        assert("MaxWidth"@[0] == 'M' && "DeviceId"@[0] == 'D');
        reveal_strlit("MaxHeight");
        assert("MaxHeight"@.len() == 9);
        reveal_strlit("StartTimeTicks");
        assert("StartTimeTicks"@.len() == 14);
        reveal_strlit("PlaySessionId");
        assert("PlaySessionId"@.len() == 13);
        reveal_strlit("MediaSourceId");
        assert("MediaSourceId"@.len() == 13);
        reveal_strlit("SubtitleStreamIndex");
        assert("SubtitleStreamIndex"@.len() == 19);
        reveal_strlit("AudioStreamIndex");
        assert("AudioStreamIndex"@.len() == 16);
        reveal_strlit("VideoStreamIndex");
        assert("VideoStreamIndex"@.len() == 16);
    }
}

proof fn lemma_stream_params_by_key_key14(q: StreamParams)
    ensures
        entries_with(q.query(), "PlaySessionId"@) == (match q.play_session_id { Some(v) => seq![("PlaySessionId"@, v@)], None => Seq::empty() }),
{
    assert(entries_with(q.query(), "PlaySessionId"@) == (match q.play_session_id { Some(v) => seq![("PlaySessionId"@, v@)], None => Seq::empty() })) by {
        broadcast use lemma_concat_empty;
        lemma_stream_params_by_key_part0(q, "PlaySessionId"@);
        lemma_stream_params_by_key_part1(q, "PlaySessionId"@);
        lemma_stream_params_by_key_part2(q, "PlaySessionId"@);
        lemma_stream_params_by_key_part3(q, "PlaySessionId"@);
        reveal_strlit("PlaySessionId");
        assert("PlaySessionId"@.len() == 13);
        reveal_strlit("MaxStreamingBitrate");
        assert("MaxStreamingBitrate"@.len() == 19);
        reveal_strlit("MaxAudioChannels");
        assert("MaxAudioChannels"@.len() == 16);
        reveal_strlit("Container");
        assert("Container"@.len() == 9);
        reveal_strlit("AudioCodec");
        assert("AudioCodec"@.len() == 10);
        reveal_strlit("VideoCodec");
        assert("VideoCodec"@.len() == 10);
        reveal_strlit("AudioSampleRate");
        assert("AudioSampleRate"@.len() == 15);
        reveal_strlit("MaxAudioBitrate");
        assert("MaxAudioBitrate"@.len() == 15);
        reveal_strlit("MaxVideoBitrate");
        assert("MaxVideoBitrate"@.len() == 15);
        reveal_strlit("Profile");
        assert("Profile"@.len() == 7);
        reveal_strlit("Level");
        assert("Level"@.len() == 5);
        reveal_strlit("MaxWidth");
        assert("MaxWidth"@.len() == 8);
        reveal_strlit("MaxHeight");
        assert("MaxHeight"@.len() == 9);
        reveal_strlit("StartTimeTicks");
        assert("StartTimeTicks"@.len() == 14);
        reveal_strlit("DeviceId");
        assert("DeviceId"@.len() == 8);
        reveal_strlit("MediaSourceId");
        assert("MediaSourceId"@.len() == 13);
        assert("MediaSourceId"@[0] == 'M' && "PlaySessionId"@[0] == 'P');
        reveal_strlit("SubtitleStreamIndex");
        assert("SubtitleStreamIndex"@.len() == 19);
        reveal_strlit("AudioStreamIndex");
        assert("AudioStreamIndex"@.len() == 16);
        reveal_strlit("VideoStreamIndex");
        assert("VideoStreamIndex"@.len() == 16);
    }
}

proof fn lemma_stream_params_by_key_key15(q: StreamParams)
    ensures
        entries_with(q.query(), "MediaSourceId"@) == (match q.media_source_id { Some(v) => seq![("MediaSourceId"@, v@)], None => Seq::empty() }),
{
    assert(entries_with(q.query(), "MediaSourceId"@) == (match q.media_source_id { Some(v) => seq![("MediaSourceId"@, v@)], None => Seq::empty() })) by {
        broadcast use lemma_concat_empty;
        lemma_stream_params_by_key_part0(q, "MediaSourceId"@);
        lemma_stream_params_by_key_part1(q, "MediaSourceId"@);
        lemma_stream_params_by_key_part2(q, "MediaSourceId"@);
        lemma_stream_params_by_key_part3(q, "MediaSourceId"@);
        reveal_strlit("MediaSourceId");
        assert("MediaSourceId"@.len() == 13);
        reveal_strlit("MaxStreamingBitrate");
        assert("MaxStreamingBitrate"@.len() == 19);
        reveal_strlit("MaxAudioChannels");
        assert("MaxAudioChannels"@.len() == 16);
        reveal_strlit("Container");
        assert("Container"@.len() == 9);
        reveal_strlit("AudioCodec");
        assert("AudioCodec"@.len() == 10);
        reveal_strlit("VideoCodec");
        assert("VideoCodec"@.len() == 10);
        reveal_strlit("AudioSampleRate");
        assert("AudioSampleRate"@.len() == 15);
        reveal_strlit("MaxAudioBitrate");
        assert("MaxAudioBitrate"@.len() == 15);
        reveal_strlit("MaxVideoBitrate");
        assert("MaxVideoBitrate"@.len() == 15);
        reveal_strlit("Profile");
        assert("Profile"@.len() == 7);
        reveal_strlit("Level");
        assert("Level"@.len() == 5);
        reveal_strlit("MaxWidth");
        assert("MaxWidth"@.len() == 8);
        reveal_strlit("MaxHeight");
        assert("MaxHeight"@.len() == 9);
        reveal_strlit("StartTimeTicks");
        assert("StartTimeTicks"@.len() == 14);
        reveal_strlit("DeviceId");
        assert("DeviceId"@.len() == 8);
        reveal_strlit("PlaySessionId");
        assert("PlaySessionId"@.len() == 13);
        assert("PlaySessionId"@[0] == 'P' && "MediaSourceId"@[0] == 'M');
        reveal_strlit("SubtitleStreamIndex");
        assert("SubtitleStreamIndex"@.len() == 19);
        reveal_strlit("AudioStreamIndex");
        assert("AudioStreamIndex"@.len() == 16);
        reveal_strlit("VideoStreamIndex");
        assert("VideoStreamIndex"@.len() == 16);
    }
}

proof fn lemma_stream_params_by_key_key16(q: StreamParams)
    ensures
        entries_with(q.query(), "SubtitleStreamIndex"@) == (match q.subtitle_stream_index { Some(v) => seq![("SubtitleStreamIndex"@, signed_decimal(v as int))], None => Seq::empty() }),
{
    assert(entries_with(q.query(), "SubtitleStreamIndex"@) == (match q.subtitle_stream_index { Some(v) => seq![("SubtitleStreamIndex"@, signed_decimal(v as int))], None => Seq::empty() })) by {
        broadcast use lemma_concat_empty;
        lemma_stream_params_by_key_part0(q, "SubtitleStreamIndex"@);
        lemma_stream_params_by_key_part1(q, "SubtitleStreamIndex"@);
        lemma_stream_params_by_key_part2(q, "SubtitleStreamIndex"@);
        lemma_stream_params_by_key_part3(q, "SubtitleStreamIndex"@);
        reveal_strlit("SubtitleStreamIndex");
        assert("SubtitleStreamIndex"@.len() == 19);
        reveal_strlit("MaxStreamingBitrate");
        assert("MaxStreamingBitrate"@.len() == 19);
        assert("MaxStreamingBitrate"@[0] == 'M' && "SubtitleStreamIndex"@[0] == 'S');
        reveal_strlit("MaxAudioChannels");
        assert("MaxAudioChannels"@.len() == 16);
        reveal_strlit("Container");
        assert("Container"@.len() == 9);
        reveal_strlit("AudioCodec");
        assert("AudioCodec"@.len() == 10);
        reveal_strlit("VideoCodec");
        assert("VideoCodec"@.len() == 10);
        reveal_strlit("AudioSampleRate");
        assert("AudioSampleRate"@.len() == 15);
        reveal_strlit("MaxAudioBitrate");
        assert("MaxAudioBitrate"@.len() == 15);
        reveal_strlit("MaxVideoBitrate");
        assert("MaxVideoBitrate"@.len() == 15);
        reveal_strlit("Profile");
        assert("Profile"@.len() == 7);
        reveal_strlit("Level");
        assert("Level"@.len() == 5);
        reveal_strlit("MaxWidth");
        assert("MaxWidth"@.len() == 8);
        reveal_strlit("MaxHeight");
        assert("MaxHeight"@.len() == 9);
        reveal_strlit("StartTimeTicks");
        assert("StartTimeTicks"@.len() == 14);
        reveal_strlit("DeviceId");
        assert("DeviceId"@.len() == 8);
        reveal_strlit("PlaySessionId");
        assert("PlaySessionId"@.len() == 13);
        reveal_strlit("MediaSourceId");
        assert("MediaSourceId"@.len() == 13);
        reveal_strlit("AudioStreamIndex");
        assert("AudioStreamIndex"@.len() == 16);
        reveal_strlit("VideoStreamIndex");
        assert("VideoStreamIndex"@.len() == 16);
    }
}

proof fn lemma_stream_params_by_key_key17(q: StreamParams)
    ensures
        entries_with(q.query(), "AudioStreamIndex"@) == (match q.audio_stream_index { Some(v) => seq![("AudioStreamIndex"@, signed_decimal(v as int))], None => Seq::empty() }),
{
    assert(entries_with(q.query(), "AudioStreamIndex"@) == (match q.audio_stream_index { Some(v) => seq![("AudioStreamIndex"@, signed_decimal(v as int))], None => Seq::empty() })) by {
        broadcast use lemma_concat_empty;
        lemma_stream_params_by_key_part0(q, "AudioStreamIndex"@);
        lemma_stream_params_by_key_part1(q, "AudioStreamIndex"@);
        lemma_stream_params_by_key_part2(q, "AudioStreamIndex"@);
        lemma_stream_params_by_key_part3(q, "AudioStreamIndex"@);
        reveal_strlit("AudioStreamIndex");
        assert("AudioStreamIndex"@.len() == 16);
        reveal_strlit("MaxStreamingBitrate");
        assert("MaxStreamingBitrate"@.len() == 19);
        reveal_strlit("MaxAudioChannels");
        assert("MaxAudioChannels"@.len() == 16);
        assert("MaxAudioChannels"@[0] == 'M' && "AudioStreamIndex"@[0] == 'A');
        reveal_strlit("Container");
        assert("Container"@.len() == 9);
        reveal_strlit("AudioCodec");
        assert("AudioCodec"@.len() == 10);
        reveal_strlit("VideoCodec");
        assert("VideoCodec"@.len() == 10);
        reveal_strlit("AudioSampleRate");
        assert("AudioSampleRate"@.len() == 15);
        reveal_strlit("MaxAudioBitrate");
        assert("MaxAudioBitrate"@.len() == 15);
        reveal_strlit("MaxVideoBitrate");
        assert("MaxVideoBitrate"@.len() == 15);
        reveal_strlit("Profile");
        assert("Profile"@.len() == 7);
        reveal_strlit("Level");
        assert("Level"@.len() == 5);
        reveal_strlit("MaxWidth");
        assert("MaxWidth"@.len() == 8);
        reveal_strlit("MaxHeight");
        assert("MaxHeight"@.len() == 9);
        reveal_strlit("StartTimeTicks");
        assert("StartTimeTicks"@.len() == 14);
        reveal_strlit("DeviceId");
        assert("DeviceId"@.len() == 8);
        reveal_strlit("PlaySessionId");
        assert("PlaySessionId"@.len() == 13);
        reveal_strlit("MediaSourceId");
        assert("MediaSourceId"@.len() == 13);
        reveal_strlit("SubtitleStreamIndex");
        assert("SubtitleStreamIndex"@.len() == 19);
        reveal_strlit("VideoStreamIndex");
        assert("VideoStreamIndex"@.len() == 16);
        assert("VideoStreamIndex"@[0] == 'V' && "AudioStreamIndex"@[0] == 'A');
    }
}

proof fn lemma_stream_params_by_key_key18(q: StreamParams)
    ensures
        entries_with(q.query(), "VideoStreamIndex"@) == (match q.video_stream_index { Some(v) => seq![("VideoStreamIndex"@, signed_decimal(v as int))], None => Seq::empty() }),
{
    assert(entries_with(q.query(), "VideoStreamIndex"@) == (match q.video_stream_index { Some(v) => seq![("VideoStreamIndex"@, signed_decimal(v as int))], None => Seq::empty() })) by {
        broadcast use lemma_concat_empty;
        lemma_stream_params_by_key_part0(q, "VideoStreamIndex"@);
        lemma_stream_params_by_key_part1(q, "VideoStreamIndex"@);
        lemma_stream_params_by_key_part2(q, "VideoStreamIndex"@);
        lemma_stream_params_by_key_part3(q, "VideoStreamIndex"@);
        reveal_strlit("VideoStreamIndex");
        assert("VideoStreamIndex"@.len() == 16);
        reveal_strlit("MaxStreamingBitrate");
        assert("MaxStreamingBitrate"@.len() == 19);
        reveal_strlit("MaxAudioChannels");
        assert("MaxAudioChannels"@.len() == 16);
        assert("MaxAudioChannels"@[0] == 'M' && "VideoStreamIndex"@[0] == 'V');
        reveal_strlit("Container");
        assert("Container"@.len() == 9);
        reveal_strlit("AudioCodec");
        assert("AudioCodec"@.len() == 10);
        reveal_strlit("VideoCodec");
        assert("VideoCodec"@.len() == 10);
        reveal_strlit("AudioSampleRate");
        assert("AudioSampleRate"@.len() == 15);
        reveal_strlit("MaxAudioBitrate");
        assert("MaxAudioBitrate"@.len() == 15);
        reveal_strlit("MaxVideoBitrate");
        assert("MaxVideoBitrate"@.len() == 15);
        reveal_strlit("Profile");
        assert("Profile"@.len() == 7);
        reveal_strlit("Level");
        assert("Level"@.len() == 5);
        reveal_strlit("MaxWidth");
        assert("MaxWidth"@.len() == 8);
        reveal_strlit("MaxHeight");
        assert("MaxHeight"@.len() == 9);
        reveal_strlit("StartTimeTicks");
        assert("StartTimeTicks"@.len() == 14);
        reveal_strlit("DeviceId");
        assert("DeviceId"@.len() == 8);
        reveal_strlit("PlaySessionId");
        assert("PlaySessionId"@.len() == 13);
        reveal_strlit("MediaSourceId");
        assert("MediaSourceId"@.len() == 13);
        reveal_strlit("SubtitleStreamIndex");
        assert("SubtitleStreamIndex"@.len() == 19);
        reveal_strlit("AudioStreamIndex");
        assert("AudioStreamIndex"@.len() == 16);
        assert("AudioStreamIndex"@[0] == 'A' && "VideoStreamIndex"@[0] == 'V');
    }
}

/// Every streaming option that is set gives exactly one parameter under its Jellyfin key,
/// holding its value; an option that is not set gives none.
#[verifier::rlimit(100)]
pub proof fn law_stream_params_entries(q: StreamParams)
    ensures
        entries_with(q.query(), "MaxStreamingBitrate"@) == (match q.max_streaming_bitrate { Some(v) => seq![("MaxStreamingBitrate"@, decimal(v as nat))], None => Seq::empty() }),
        entries_with(q.query(), "MaxAudioChannels"@) == (match q.max_audio_channels { Some(v) => seq![("MaxAudioChannels"@, decimal(v as nat))], None => Seq::empty() }),
        entries_with(q.query(), "Container"@) == (match q.container { Some(v) => seq![("Container"@, v@)], None => Seq::empty() }),
        entries_with(q.query(), "AudioCodec"@) == (match q.audio_codec { Some(v) => seq![("AudioCodec"@, v@)], None => Seq::empty() }),
        entries_with(q.query(), "VideoCodec"@) == (match q.video_codec { Some(v) => seq![("VideoCodec"@, v@)], None => Seq::empty() }),
        entries_with(q.query(), "AudioSampleRate"@) == (match q.audio_sample_rate { Some(v) => seq![("AudioSampleRate"@, decimal(v as nat))], None => Seq::empty() }),
        entries_with(q.query(), "MaxAudioBitrate"@) == (match q.max_audio_bitrate { Some(v) => seq![("MaxAudioBitrate"@, decimal(v as nat))], None => Seq::empty() }),
        entries_with(q.query(), "MaxVideoBitrate"@) == (match q.max_video_bitrate { Some(v) => seq![("MaxVideoBitrate"@, decimal(v as nat))], None => Seq::empty() }),
        entries_with(q.query(), "Profile"@) == (match q.profile { Some(v) => seq![("Profile"@, v@)], None => Seq::empty() }),
        entries_with(q.query(), "Level"@) == (match q.level { Some(v) => seq![("Level"@, v@)], None => Seq::empty() }),
        entries_with(q.query(), "MaxWidth"@) == (match q.max_width { Some(v) => seq![("MaxWidth"@, decimal(v as nat))], None => Seq::empty() }),
        entries_with(q.query(), "MaxHeight"@) == (match q.max_height { Some(v) => seq![("MaxHeight"@, decimal(v as nat))], None => Seq::empty() }),
        entries_with(q.query(), "StartTimeTicks"@) == (match q.start_time_ticks { Some(v) => seq![("StartTimeTicks"@, signed_decimal(v as int))], None => Seq::empty() }),
        entries_with(q.query(), "DeviceId"@) == (match q.device_id { Some(v) => seq![("DeviceId"@, v@)], None => Seq::empty() }),
        entries_with(q.query(), "PlaySessionId"@) == (match q.play_session_id { Some(v) => seq![("PlaySessionId"@, v@)], None => Seq::empty() }),
        entries_with(q.query(), "MediaSourceId"@) == (match q.media_source_id { Some(v) => seq![("MediaSourceId"@, v@)], None => Seq::empty() }),
        entries_with(q.query(), "SubtitleStreamIndex"@) == (match q.subtitle_stream_index { Some(v) => seq![("SubtitleStreamIndex"@, signed_decimal(v as int))], None => Seq::empty() }),
        entries_with(q.query(), "AudioStreamIndex"@) == (match q.audio_stream_index { Some(v) => seq![("AudioStreamIndex"@, signed_decimal(v as int))], None => Seq::empty() }),
        entries_with(q.query(), "VideoStreamIndex"@) == (match q.video_stream_index { Some(v) => seq![("VideoStreamIndex"@, signed_decimal(v as int))], None => Seq::empty() }),
{
    lemma_stream_params_by_key_key0(q);
    lemma_stream_params_by_key_key1(q);
    lemma_stream_params_by_key_key2(q);
    lemma_stream_params_by_key_key3(q);
    lemma_stream_params_by_key_key4(q);
    lemma_stream_params_by_key_key5(q);
    lemma_stream_params_by_key_key6(q);
    lemma_stream_params_by_key_key7(q);
    lemma_stream_params_by_key_key8(q);
    lemma_stream_params_by_key_key9(q);
    lemma_stream_params_by_key_key10(q);
    lemma_stream_params_by_key_key11(q);
    lemma_stream_params_by_key_key12(q);
    lemma_stream_params_by_key_key13(q);
    lemma_stream_params_by_key_key14(q);
    lemma_stream_params_by_key_key15(q);
    lemma_stream_params_by_key_key16(q);
    lemma_stream_params_by_key_key17(q);
    lemma_stream_params_by_key_key18(q);
}

} // verus!
