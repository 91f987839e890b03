//! Jellyfin API payloads: server and user descriptions, client capabilities and device
//! profiles, queue entries, people, links, attachments and chapters.
use vstd::prelude::*;
use std::collections::HashMap;

verus! {

/// Server information response from Jellyfin API
#[derive(Debug, Clone)]
pub struct ServerInfo {
    pub id: String,
    pub name: String,
    pub version: String,
    pub operating_system: String,
    pub local_address: Option<String>,
    pub wan_address: Option<String>,
    pub server_name: Option<String>,
    pub product_name: Option<String>,
    pub startup_wizard_completed: Option<bool>,
}

/// Public server information (available without authentication)
#[derive(Debug, Clone)]
pub struct PublicServerInfo {
    pub id: String,
    pub name: String,
    pub version: String,
    pub product_name: String,
    pub operating_system: String,
    pub local_address: Option<String>,
    pub wan_address: Option<String>,
    pub startup_wizard_completed: bool,
}

/// User configuration settings
#[derive(Debug, Clone)]
pub struct UserConfiguration {
    pub play_default_audio_track: bool,
    pub subtitle_language_preference: Option<String>,
    pub display_missing_episodes: bool,
    pub grouped_folders: Vec<String>,
    pub subtitle_mode: String,
    pub display_collections_view: bool,
    pub enable_local_password: bool,
    pub ordered_views: Vec<String>,
    pub latest_items_excludes: Vec<String>,
    pub my_media_excludes: Vec<String>,
    pub hide_played_in_latest: bool,
    pub remember_audio_selections: bool,
    pub remember_subtitle_selections: bool,
    pub enable_next_episode_auto_play: bool,
}

/// Play state information
#[derive(Debug, Clone)]
pub struct PlayState {
    pub can_seek: bool,
    pub is_paused: bool,
    pub is_muted: bool,
    pub repeat_mode: String,
    pub max_streaming_bitrate: Option<i64>,
    pub position_ticks: Option<i64>,
    pub playback_start_time_ticks: Option<i64>,
    pub volume_level: Option<i32>,
    pub brightness: Option<i32>,
    pub aspect_ratio: Option<String>,
    pub play_method: String,
    pub live_stream_id: Option<String>,
    pub play_session_id: Option<String>,
    pub playlist_item_id: Option<String>,
    pub media_source_id: Option<String>,
    pub audio_stream_index: Option<i32>,
    pub subtitle_stream_index: Option<i32>,
}

/// Session user information
#[derive(Debug, Clone)]
pub struct SessionUser {
    pub user_id: String,
    pub user_name: String,
}

/// Client capabilities
#[derive(Debug, Clone)]
pub struct ClientCapabilities {
    pub playable_media_types: Vec<String>,
    pub supported_commands: Vec<String>,
    pub supports_media_control: bool,
    pub supports_content_uploading: bool,
    pub message_callback_url: Option<String>,
    pub supports_persistent_identifier: bool,
    pub supports_sync: bool,
    pub device_profile: Option<DeviceProfile>,
    pub app_store_url: Option<String>,
    pub icon_url: Option<String>,
}

/// Device profile for transcoding capabilities
#[derive(Debug, Clone)]
pub struct DeviceProfile {
    pub name: Option<String>,
    pub id: Option<String>,
    pub identification: Option<DeviceIdentification>,
    pub friendly_name: Option<String>,
    pub manufacturer: Option<String>,
    pub manufacturer_url: Option<String>,
    pub model_name: Option<String>,
    pub model_description: Option<String>,
    pub model_number: Option<String>,
    pub model_url: Option<String>,
    pub serial_number: Option<String>,
    pub enable_album_art_in_didl: bool,
    pub enable_single_album_art_limit: bool,
    pub enable_single_subtitle_limit: bool,
    pub supported_media_types: String,
    pub user_id: Option<String>,
    pub album_art_pn: Option<String>,
    pub max_album_art_width: Option<i32>,
    pub max_album_art_height: Option<i32>,
    pub max_icon_width: Option<i32>,
    pub max_icon_height: Option<i32>,
    pub max_streaming_bitrate: Option<i64>,
    pub max_static_bitrate: Option<i64>,
    pub music_streaming_transcoding_bitrate: Option<i32>,
    pub max_static_music_bitrate: Option<i32>,
    pub sony_aggregation_flags: Option<String>,
    pub protocol_info: Option<String>,
    pub timeline_offset_seconds: i32,
    pub requires_plain_video_items: bool,
    pub requires_plain_folders: bool,
    pub enable_ms_media_receiver_registrar: bool,
    pub ignore_transcode_byte_range_requests: bool,
    pub xml_root_attributes: Vec<XmlAttribute>,
    pub direct_play_profiles: Vec<DirectPlayProfile>,
    pub transcoding_profiles: Vec<TranscodingProfile>,
    pub container_profiles: Vec<ContainerProfile>,
    pub codec_profiles: Vec<CodecProfile>,
    pub response_profiles: Vec<ResponseProfile>,
    pub subtitle_profiles: Vec<SubtitleProfile>,
}

/// Device identification information
#[derive(Debug, Clone)]
pub struct DeviceIdentification {
    pub friendly_name: Option<String>,
    pub model_number: Option<String>,
    pub serial_number: Option<String>,
    pub model_name: Option<String>,
    pub model_description: Option<String>,
    pub model_url: Option<String>,
    pub manufacturer: Option<String>,
    pub manufacturer_url: Option<String>,
    pub headers: Vec<HttpHeaderInfo>,
}

/// HTTP header information for device identification
#[derive(Debug, Clone)]
pub struct HttpHeaderInfo {
    pub name: String,
    pub value: String,
    pub match_type: String,
}

/// XML attribute for device profiles
#[derive(Debug, Clone)]
pub struct XmlAttribute {
    pub name: String,
    pub value: String,
}

/// Direct play profile
#[derive(Debug, Clone)]
pub struct DirectPlayProfile {
    pub container: String,
    pub audio_codec: Option<String>,
    pub video_codec: Option<String>,
    pub profile_type: String,
}

/// Transcoding profile
#[derive(Debug, Clone)]
pub struct TranscodingProfile {
    pub container: String,
    pub profile_type: String,
    pub video_codec: Option<String>,
    pub audio_codec: String,
    pub protocol: Option<String>,
    pub estimate_content_length: bool,
    pub enable_mpegts_m2ts_mode: bool,
    pub transcode_seek_info: String,
    pub copy_timestamps: bool,
    pub context: String,
    pub enable_subtitles_in_manifest: bool,
    pub max_audio_channels: Option<String>,
    pub min_segments: i32,
    pub segment_length: i32,
    pub break_on_non_key_frames: bool,
}

/// Container profile
#[derive(Debug, Clone)]
pub struct ContainerProfile {
    pub profile_type: String,
    pub conditions: Vec<ProfileCondition>,
    pub container: String,
}

/// Codec profile
#[derive(Debug, Clone)]
pub struct CodecProfile {
    pub profile_type: String,
    pub conditions: Vec<ProfileCondition>,
    pub apply_conditions: Vec<ProfileCondition>,
    pub codec: String,
    pub container: Option<String>,
}

/// Response profile
#[derive(Debug, Clone)]
pub struct ResponseProfile {
    pub container: String,
    pub audio_codec: Option<String>,
    pub video_codec: Option<String>,
    pub profile_type: String,
    pub org_pn: Option<String>,
    pub mime_type: Option<String>,
    pub conditions: Vec<ProfileCondition>,
}

/// Subtitle profile
#[derive(Debug, Clone)]
pub struct SubtitleProfile {
    pub format: String,
    pub method: String,
    pub didl_mode: Option<String>,
    pub language: Option<String>,
    pub container: Option<String>,
}

/// Profile condition
#[derive(Debug, Clone)]
pub struct ProfileCondition {
    pub condition: String,
    pub property: String,
    pub value: Option<String>,
    pub is_required: bool,
}

/// Queue item for now playing queue
#[derive(Debug, Clone)]
pub struct QueueItem {
    pub id: String,
    pub playlist_item_id: String,
}

/// External URL information
#[derive(Debug, Clone)]
pub struct ExternalUrl {
    pub name: String,
    pub url: String,
}

/// Media URL information
#[derive(Debug, Clone)]
pub struct MediaUrl {
    pub url: String,
    pub name: Option<String>,
}

/// Person information for media items
#[derive(Debug, Clone)]
pub struct BaseItemPerson {
    pub name: String,
    pub id: String,
    pub role: Option<String>,
    pub person_type: String,
    pub primary_image_tag: Option<String>,
    pub image_blur_hashes: Option<HashMap<String, HashMap<String, String>>>,
}

/// Name and GUID pair for various entities
#[derive(Debug, Clone)]
pub struct NameGuidPair {
    pub name: String,
    pub id: String,
}

/// Media attachment information
#[derive(Debug, Clone)]
pub struct MediaAttachment {
    pub codec: Option<String>,
    pub codec_tag: Option<String>,
    pub comment: Option<String>,
    pub index: i32,
    pub file_name: Option<String>,
    pub mime_type: Option<String>,
    pub delivery_url: Option<String>,
}

/// Chapter information
#[derive(Debug, Clone)]
pub struct ChapterInfo {
    pub start_position_ticks: i64,
    pub name: Option<String>,
    pub image_path: Option<String>,
    pub image_date_modified: Option<String>,
    pub image_tag: Option<String>,
}

/// Authentication response from login endpoint
#[derive(Debug, Clone)]
pub struct AuthResponse {
    pub access_token: String,
    pub server_id: String,
    pub user: UserInfo,
    pub session_info: SessionInfo,
}

/// User information from authentication or user endpoints
#[derive(Debug, Clone)]
pub struct UserInfo {
    pub id: String,
    pub name: String,
    pub server_id: String,
    pub has_password: bool,
    pub has_configured_password: bool,
    pub has_configured_easy_password: bool,
    pub enable_auto_login: Option<bool>,
    pub last_login_date: Option<String>,
    pub last_activity_date: Option<String>,
    pub configuration: Option<UserConfiguration>,
    pub policy: Option<UserPolicy>,
}

/// User policy and permissions
#[derive(Debug, Clone)]
pub struct UserPolicy {
    pub is_administrator: bool,
    pub is_hidden: bool,
    pub is_disabled: bool,
    pub max_parental_rating: Option<i32>,
    pub blocked_tags: Vec<String>,
    pub enable_user_preference_access: bool,
    pub access_schedules: Vec<AccessSchedule>,
    pub block_unrated_items: Vec<String>,
    pub enable_remote_control_of_other_users: bool,
    pub enable_shared_device_control: bool,
    pub enable_remote_access: bool,
    pub enable_live_tv_management: bool,
    pub enable_live_tv_access: bool,
    pub enable_media_playback: bool,
    pub enable_audio_playback_transcoding: bool,
    pub enable_video_playback_transcoding: bool,
    pub enable_playback_remuxing: bool,
    pub force_remote_source_transcoding: bool,
    pub enable_content_deletion: bool,
    pub enable_content_deletion_from_folders: Vec<String>,
    pub enable_content_downloading: bool,
    pub enable_sync_transcoding: bool,
    pub enable_media_conversion: bool,
    pub enabled_devices: Vec<String>,
    pub enable_all_devices: bool,
    pub enabled_channels: Vec<String>,
    pub enable_all_channels: bool,
    pub enabled_folders: Vec<String>,
    pub enable_all_folders: bool,
    pub invalid_login_attempt_count: i32,
    pub login_attempts_before_lockout: i32,
    pub max_active_sessions: i32,
    pub enable_public_sharing: bool,
    pub blocked_media_folders: Vec<String>,
    pub blocked_channels: Vec<String>,
    pub remote_client_bitrate_limit: i32,
    pub authentication_provider_id: String,
    pub password_reset_provider_id: String,
    pub sync_play_access: String,
}

/// Access schedule for user policy
/// (`start_hour`, `end_hour`, which hold floating point, are left out of this type.)
#[derive(Debug, Clone)]
pub struct AccessSchedule {
    pub id: i32,
    pub user_id: String,
    pub day_of_week: String,
}

/// Session information from authentication
#[derive(Debug, Clone)]
pub struct SessionInfo {
    pub play_state: Option<PlayState>,
    pub additional_users: Vec<SessionUser>,
    pub capabilities: Option<ClientCapabilities>,
    pub remote_end_point: Option<String>,
    pub playable_media_types: Vec<String>,
    pub id: String,
    pub user_id: String,
    pub user_name: String,
    pub client: String,
    pub last_activity_date: String,
    pub last_playback_check_in: String,
    pub device_name: String,
    pub device_type: Option<String>,
    pub now_playing_item: Option<BaseItem>,
    pub full_now_playing_item: Option<BaseItem>,
    pub now_viewing_item: Option<BaseItem>,
    pub device_id: String,
    pub application_version: String,
    pub transcoding_info: Option<TranscodingInfo>,
    pub is_active: bool,
    pub supports_media_control: bool,
    pub supports_remote_control: bool,
    pub now_playing_queue: Vec<QueueItem>,
    pub has_custom_device_name: bool,
    pub playlist_item_id: Option<String>,
    pub server_id: String,
    pub user_primary_image_tag: Option<String>,
    pub supported_commands: Vec<String>,
}

/// Transcoding information
/// (`framerate`, `completion_percentage`, which hold floating point, are left out of this type.)
#[derive(Debug, Clone)]
pub struct TranscodingInfo {
    pub audio_codec: Option<String>,
    pub video_codec: Option<String>,
    pub container: Option<String>,
    pub is_video_direct: bool,
    pub is_audio_direct: bool,
    pub bitrate: Option<i32>,
    pub width: Option<i32>,
    pub height: Option<i32>,
    pub audio_channels: Option<i32>,
    pub hardware_acceleration_type: Option<String>,
    pub transcode_reasons: Vec<String>,
}

/// Base item representing any media item in Jellyfin
/// (`critic_rating`, `community_rating`, `primary_image_aspect_ratio`, `exposure_time`, `focal_length`, `aperture`, `shutter_speed`, `latitude`, `longitude`, `altitude`, `completion_percentage`, which hold floating point, are left out of this type.)
#[derive(Debug)]
pub struct BaseItem {
    pub id: String,
    pub name: String,
    pub original_title: Option<String>,
    pub server_id: String,
    pub etag: Option<String>,
    pub source_type: Option<String>,
    pub playlist_item_id: Option<String>,
    pub date_created: Option<String>,
    pub date_last_media_added: Option<String>,
    pub extra_type: Option<String>,
    pub airs_before_season_number: Option<i32>,
    pub airs_after_season_number: Option<i32>,
    pub airs_before_episode_number: Option<i32>,
    pub can_delete: Option<bool>,
    pub can_download: Option<bool>,
    pub has_subtitles: Option<bool>,
    pub preferred_metadata_language: Option<String>,
    pub preferred_metadata_country_code: Option<String>,
    pub supports_sync: Option<bool>,
    pub container: Option<String>,
    pub sort_name: Option<String>,
    pub forced_sort_name: Option<String>,
    pub video_3d_format: Option<String>,
    pub premiere_date: Option<String>,
    pub external_urls: Vec<ExternalUrl>,
    pub media_sources: Vec<MediaSourceInfo>,
    pub production_locations: Vec<String>,
    pub path: Option<String>,
    pub enable_media_source_display: Option<bool>,
    pub official_rating: Option<String>,
    pub custom_rating: Option<String>,
    pub channel_id: Option<String>,
    pub channel_name: Option<String>,
    pub overview: Option<String>,
    pub taglines: Vec<String>,
    pub genres: Vec<String>,
    pub cumulative_run_time_ticks: Option<i64>,
    pub runtime_ticks: Option<i64>,
    pub play_access: Option<String>,
    pub aspect_ratio: Option<String>,
    pub production_year: Option<i32>,
    pub is_place_holder: Option<bool>,
    pub number: Option<String>,
    pub channel_number: Option<String>,
    pub index_number: Option<i32>,
    pub index_number_end: Option<i32>,
    pub parent_index_number: Option<i32>,
    pub remote_trailers: Vec<MediaUrl>,
    pub provider_ids: HashMap<String, String>,
    pub is_hd: Option<bool>,
    pub is_folder: Option<bool>,
    pub parent_id: Option<String>,
    pub item_type: String,
    pub people: Vec<BaseItemPerson>,
    pub studios: Vec<NameGuidPair>,
    pub genre_items: Vec<NameGuidPair>,
    pub parent_logo_item_id: Option<String>,
    pub parent_backdrop_item_id: Option<String>,
    pub parent_backdrop_image_tags: Vec<String>,
    pub local_trailer_count: Option<i32>,
    pub user_data: Option<UserItemData>,
    pub recursive_item_count: Option<i32>,
    pub child_count: Option<i32>,
    pub series_name: Option<String>,
    pub series_id: Option<String>,
    pub season_id: Option<String>,
    pub special_feature_count: Option<i32>,
    pub display_preferences_id: Option<String>,
    pub status: Option<String>,
    pub air_time: Option<String>,
    pub air_days: Vec<String>,
    pub tags: Vec<String>,
    pub artists: Vec<String>,
    pub artist_items: Vec<NameGuidPair>,
    pub album: Option<String>,
    pub collection_type: Option<String>,
    pub display_order: Option<String>,
    pub album_id: Option<String>,
    pub album_primary_image_tag: Option<String>,
    pub series_primary_image_tag: Option<String>,
    pub album_artist: Option<String>,
    pub album_artists: Vec<NameGuidPair>,
    pub season_name: Option<String>,
    pub media_streams: Vec<MediaStream>,
    pub video_type: Option<String>,
    pub part_count: Option<i32>,
    pub media_source_count: Option<i32>,
    pub image_tags: HashMap<String, String>,
    pub backdrop_image_tags: Vec<String>,
    pub screenshot_image_tags: Vec<String>,
    pub parent_logo_image_tag: Option<String>,
    pub parent_art_item_id: Option<String>,
    pub parent_art_image_tag: Option<String>,
    pub series_thumb_image_tag: Option<String>,
    pub image_blur_hashes: HashMap<String, HashMap<String, String>>,
    pub series_studio: Option<String>,
    pub parent_thumb_item_id: Option<String>,
    pub parent_thumb_image_tag: Option<String>,
    pub parent_primary_image_item_id: Option<String>,
    pub parent_primary_image_tag: Option<String>,
    pub chapters: Vec<ChapterInfo>,
    pub location_type: Option<String>,
    pub iso_type: Option<String>,
    pub media_type: Option<String>,
    pub end_date: Option<String>,
    pub locked_fields: Vec<String>,
    pub trailer_count: Option<i32>,
    pub movie_count: Option<i32>,
    pub series_count: Option<i32>,
    pub program_count: Option<i32>,
    pub episode_count: Option<i32>,
    pub song_count: Option<i32>,
    pub album_count: Option<i32>,
    pub artist_count: Option<i32>,
    pub music_video_count: Option<i32>,
    pub lock_data: Option<bool>,
    pub width: Option<i32>,
    pub height: Option<i32>,
    pub camera_make: Option<String>,
    pub camera_model: Option<String>,
    pub software: Option<String>,
    pub image_orientation: Option<String>,
    pub iso_speed_rating: Option<i32>,
    pub series_timer_id: Option<String>,
    pub program_id: Option<String>,
    pub channel_primary_image_tag: Option<String>,
    pub start_date: Option<String>,
    pub is_repeat: Option<bool>,
    pub episode_title: Option<String>,
    pub channel_type: Option<String>,
    pub audio: Option<String>,
    pub is_movie: Option<bool>,
    pub is_sports: Option<bool>,
    pub is_series: Option<bool>,
    pub is_live: Option<bool>,
    pub is_news: Option<bool>,
    pub is_kids: Option<bool>,
    pub is_premiere: Option<bool>,
    pub timer_id: Option<String>,
    pub current_program: Option<Box<BaseItem>>,
}

/// User item data (watch status, ratings, etc.)
/// (`rating`, `played_percentage`, which hold floating point, are left out of this type.)
#[derive(Debug, Clone)]
pub struct UserItemData {
    pub unplayed_item_count: Option<i32>,
    pub playback_position_ticks: i64,
    pub play_count: i32,
    pub is_favorite: bool,
    pub likes: Option<bool>,
    pub last_played_date: Option<String>,
    pub played: bool,
    pub key: Option<String>,
    pub item_id: String,
}

/// Media stream information
/// (`average_frame_rate`, `real_frame_rate`, `level`, which hold floating point, are left out of this type.)
#[derive(Debug, Clone)]
pub struct MediaStream {
    pub codec: Option<String>,
    pub codec_tag: Option<String>,
    pub language: Option<String>,
    pub color_range: Option<String>,
    pub color_space: Option<String>,
    pub color_transfer: Option<String>,
    pub color_primaries: Option<String>,
    pub dv_version_major: Option<i32>,
    pub dv_version_minor: Option<i32>,
    pub dv_profile: Option<i32>,
    pub dv_level: Option<i32>,
    pub rpu_present_flag: Option<i32>,
    pub el_present_flag: Option<i32>,
    pub bl_present_flag: Option<i32>,
    pub dv_bl_signal_compatibility_id: Option<i32>,
    pub comment: Option<String>,
    pub time_base: Option<String>,
    pub codec_time_base: Option<String>,
    pub title: Option<String>,
    pub video_range: Option<String>,
    pub video_range_type: Option<String>,
    pub video_do_vi_title: Option<String>,
    pub localized_undefined: Option<String>,
    pub localized_default: Option<String>,
    pub localized_forced: Option<String>,
    pub localized_external: Option<String>,
    pub display_title: Option<String>,
    pub nal_length_size: Option<String>,
    pub is_interlaced: bool,
    pub is_avc: Option<bool>,
    pub channel_layout: Option<String>,
    pub bit_rate: Option<i32>,
    pub bit_depth: Option<i32>,
    pub ref_frames: Option<i32>,
    pub packet_length: Option<i32>,
    pub channels: Option<i32>,
    pub sample_rate: Option<i32>,
    pub is_default: bool,
    pub is_forced: bool,
    pub height: Option<i32>,
    pub width: Option<i32>,
    pub profile: Option<String>,
    pub stream_type: String,
    pub aspect_ratio: Option<String>,
    pub index: i32,
    pub score: Option<i32>,
    pub is_external: bool,
    pub delivery_method: Option<String>,
    pub delivery_url: Option<String>,
    pub is_external_url: Option<bool>,
    pub is_text_subtitle_stream: bool,
    pub supports_external_stream: bool,
    pub path: Option<String>,
    pub pixel_format: Option<String>,
    pub is_anamorphic: Option<bool>,
}

/// Media source information
#[derive(Debug, Clone)]
pub struct MediaSourceInfo {
    pub protocol: String,
    pub id: String,
    pub path: Option<String>,
    pub encoder_path: Option<String>,
    pub encoder_protocol: Option<String>,
    pub source_type: String,
    pub container: Option<String>,
    pub size: Option<i64>,
    pub name: Option<String>,
    pub is_remote: bool,
    pub etag: Option<String>,
    pub runtime_ticks: Option<i64>,
    pub read_at_native_framerate: bool,
    pub ignore_dts: bool,
    pub ignore_index: bool,
    pub gen_pts_input: bool,
    pub supports_transcoding: bool,
    pub supports_direct_stream: bool,
    pub supports_direct_play: bool,
    pub is_infinite_stream: bool,
    pub requires_opening: bool,
    pub open_token: Option<String>,
    pub requires_closing: bool,
    pub live_stream_id: Option<String>,
    pub buffer_ms: Option<i32>,
    pub requires_looping: bool,
    pub supports_probing: bool,
    pub video_type: Option<String>,
    pub iso_type: Option<String>,
    pub video_3d_format: Option<String>,
    pub media_streams: Vec<MediaStream>,
    pub media_attachments: Vec<MediaAttachment>,
    pub formats: Vec<String>,
    pub bitrate: Option<i32>,
    pub timestamp: Option<String>,
    pub required_http_headers: HashMap<String, String>,
    pub transcoding_url: Option<String>,
    pub transcoding_sub_protocol: Option<String>,
    pub transcoding_container: Option<String>,
    pub analyze_duration_ms: Option<i32>,
    pub default_audio_stream_index: Option<i32>,
    pub default_subtitle_stream_index: Option<i32>,
}

impl Clone for BaseItem {
    fn clone(&self) -> (r: Self)
        decreases self,
    {
        BaseItem {
            id: self.id.clone(),
            name: self.name.clone(),
            original_title: self.original_title.clone(),
            server_id: self.server_id.clone(),
            etag: self.etag.clone(),
            source_type: self.source_type.clone(),
            playlist_item_id: self.playlist_item_id.clone(),
            date_created: self.date_created.clone(),
            date_last_media_added: self.date_last_media_added.clone(),
            extra_type: self.extra_type.clone(),
            airs_before_season_number: self.airs_before_season_number.clone(),
            airs_after_season_number: self.airs_after_season_number.clone(),
            airs_before_episode_number: self.airs_before_episode_number.clone(),
            can_delete: self.can_delete.clone(),
            can_download: self.can_download.clone(),
            has_subtitles: self.has_subtitles.clone(),
            preferred_metadata_language: self.preferred_metadata_language.clone(),
            preferred_metadata_country_code: self.preferred_metadata_country_code.clone(),
            supports_sync: self.supports_sync.clone(),
            container: self.container.clone(),
            sort_name: self.sort_name.clone(),
            forced_sort_name: self.forced_sort_name.clone(),
            video_3d_format: self.video_3d_format.clone(),
            premiere_date: self.premiere_date.clone(),
            external_urls: self.external_urls.clone(),
            media_sources: self.media_sources.clone(),
            production_locations: self.production_locations.clone(),
            path: self.path.clone(),
            enable_media_source_display: self.enable_media_source_display.clone(),
            official_rating: self.official_rating.clone(),
            custom_rating: self.custom_rating.clone(),
            channel_id: self.channel_id.clone(),
            channel_name: self.channel_name.clone(),
            overview: self.overview.clone(),
            taglines: self.taglines.clone(),
            genres: self.genres.clone(),
            cumulative_run_time_ticks: self.cumulative_run_time_ticks.clone(),
            runtime_ticks: self.runtime_ticks.clone(),
            play_access: self.play_access.clone(),
            aspect_ratio: self.aspect_ratio.clone(),
            production_year: self.production_year.clone(),
            is_place_holder: self.is_place_holder.clone(),
            number: self.number.clone(),
            channel_number: self.channel_number.clone(),
            index_number: self.index_number.clone(),
            index_number_end: self.index_number_end.clone(),
            parent_index_number: self.parent_index_number.clone(),
            remote_trailers: self.remote_trailers.clone(),
            provider_ids: self.provider_ids.clone(),
            is_hd: self.is_hd.clone(),
            is_folder: self.is_folder.clone(),
            parent_id: self.parent_id.clone(),
            item_type: self.item_type.clone(),
            people: self.people.clone(),
            studios: self.studios.clone(),
            genre_items: self.genre_items.clone(),
            parent_logo_item_id: self.parent_logo_item_id.clone(),
            parent_backdrop_item_id: self.parent_backdrop_item_id.clone(),
            parent_backdrop_image_tags: self.parent_backdrop_image_tags.clone(),
            local_trailer_count: self.local_trailer_count.clone(),
            user_data: self.user_data.clone(),
            recursive_item_count: self.recursive_item_count.clone(),
            child_count: self.child_count.clone(),
            series_name: self.series_name.clone(),
            series_id: self.series_id.clone(),
            season_id: self.season_id.clone(),
            special_feature_count: self.special_feature_count.clone(),
            display_preferences_id: self.display_preferences_id.clone(),
            status: self.status.clone(),
            air_time: self.air_time.clone(),
            air_days: self.air_days.clone(),
            tags: self.tags.clone(),
            artists: self.artists.clone(),
            artist_items: self.artist_items.clone(),
            album: self.album.clone(),
            collection_type: self.collection_type.clone(),
            display_order: self.display_order.clone(),
            album_id: self.album_id.clone(),
            album_primary_image_tag: self.album_primary_image_tag.clone(),
            series_primary_image_tag: self.series_primary_image_tag.clone(),
            album_artist: self.album_artist.clone(),
            album_artists: self.album_artists.clone(),
            season_name: self.season_name.clone(),
            media_streams: self.media_streams.clone(),
            video_type: self.video_type.clone(),
            part_count: self.part_count.clone(),
            media_source_count: self.media_source_count.clone(),
            image_tags: self.image_tags.clone(),
            backdrop_image_tags: self.backdrop_image_tags.clone(),
            screenshot_image_tags: self.screenshot_image_tags.clone(),
            parent_logo_image_tag: self.parent_logo_image_tag.clone(),
            parent_art_item_id: self.parent_art_item_id.clone(),
            parent_art_image_tag: self.parent_art_image_tag.clone(),
            series_thumb_image_tag: self.series_thumb_image_tag.clone(),
            image_blur_hashes: self.image_blur_hashes.clone(),
            series_studio: self.series_studio.clone(),
            parent_thumb_item_id: self.parent_thumb_item_id.clone(),
            parent_thumb_image_tag: self.parent_thumb_image_tag.clone(),
            parent_primary_image_item_id: self.parent_primary_image_item_id.clone(),
            parent_primary_image_tag: self.parent_primary_image_tag.clone(),
            chapters: self.chapters.clone(),
            location_type: self.location_type.clone(),
            iso_type: self.iso_type.clone(),
            media_type: self.media_type.clone(),
            end_date: self.end_date.clone(),
            locked_fields: self.locked_fields.clone(),
            trailer_count: self.trailer_count.clone(),
            movie_count: self.movie_count.clone(),
            series_count: self.series_count.clone(),
            program_count: self.program_count.clone(),
            episode_count: self.episode_count.clone(),
            song_count: self.song_count.clone(),
            album_count: self.album_count.clone(),
            artist_count: self.artist_count.clone(),
            music_video_count: self.music_video_count.clone(),
            lock_data: self.lock_data.clone(),
            width: self.width.clone(),
            height: self.height.clone(),
            camera_make: self.camera_make.clone(),
            camera_model: self.camera_model.clone(),
            software: self.software.clone(),
            image_orientation: self.image_orientation.clone(),
            iso_speed_rating: self.iso_speed_rating.clone(),
            series_timer_id: self.series_timer_id.clone(),
            program_id: self.program_id.clone(),
            channel_primary_image_tag: self.channel_primary_image_tag.clone(),
            start_date: self.start_date.clone(),
            is_repeat: self.is_repeat.clone(),
            episode_title: self.episode_title.clone(),
            channel_type: self.channel_type.clone(),
            audio: self.audio.clone(),
            is_movie: self.is_movie.clone(),
            is_sports: self.is_sports.clone(),
            is_series: self.is_series.clone(),
            is_live: self.is_live.clone(),
            is_news: self.is_news.clone(),
            is_kids: self.is_kids.clone(),
            is_premiere: self.is_premiere.clone(),
            timer_id: self.timer_id.clone(),
            current_program: match &self.current_program {
                Some(b) => Some(Box::new((&**b).clone())),
                None => None,
            },
        }
    }
}

} // verus!
