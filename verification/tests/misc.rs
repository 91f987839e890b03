use crabfin::api::{auth_header_for, authenticate_url, server_info_url};
use crabfin::credentials::get_token_key;
use crabfin::error::{AppError, ErrorHandler, NetworkError, UserFriendlyError};
use crabfin::keyed::{get_value, insert_value, key_list, remove_value};
use crabfin::models::media::{MediaItem, MediaType, UserData};
use crabfin::utils::error::{handle_error, AppError as GeneralError, ErrorContext};
use crabfin::utils::{
    app_cache_dir_from, app_data_dir_from, file_size_unit, file_size_unit_name, format_duration, format_seconds, is_valid_url, join_path, normalize_url,
    sanitize_filename,
};
use std::time::Duration;

#[test]
fn keyed_lists_act_as_maps() {
    let mut s: Vec<(String, u32)> = Vec::new();
    assert_eq!(insert_value(&mut s, "a".to_string(), 1), None);
    assert_eq!(insert_value(&mut s, "b".to_string(), 2), None);
    assert_eq!(insert_value(&mut s, "a".to_string(), 3), Some(1));
    assert_eq!(get_value(&s, "a"), Some(&3));
    assert_eq!(get_value(&s, "c"), None);
    assert_eq!(key_list(&s), vec!["a".to_string(), "b".to_string()]);
    assert_eq!(remove_value(&mut s, "a"), Some(3));
    assert_eq!(remove_value(&mut s, "a"), None);
    assert_eq!(s.len(), 1);
}

fn item(ticks: Option<u64>, user_data: Option<UserData>) -> MediaItem {
    MediaItem {
        id: "i".to_string(),
        name: "n".to_string(),
        media_type: MediaType::Movie,
        overview: None,
        premiere_date: None,
        runtime_ticks: ticks,
        official_rating: None,
        production_year: None,
        genres: Vec::new(),
        studios: Vec::new(),
        people: Vec::new(),
        image_tags: Vec::new(),
        is_played: true,
        play_count: None,
        user_data,
    }
}

#[test]
fn media_runtime_and_flags() {
    assert_eq!(item(Some(600_000_000 * 125), None).runtime_formatted(), Some("2h 5m".to_string()));
    assert_eq!(item(Some(600_000_000 * 42 + 5), None).runtime_formatted(), Some("42m".to_string()));
    assert_eq!(item(None, None).runtime_formatted(), None);
    assert!(item(None, None).is_watched());
    assert!(!item(None, None).is_favorite());
    let data = UserData {
        is_favorite: true,
        playback_position_ticks: None,
        last_played_date: None,
        played: false,
        play_count: 0,
    };
    let with_data = item(None, Some(data));
    assert!(!with_data.is_watched());
    assert!(with_data.is_favorite());
}

#[test]
fn user_messages() {
    let e = AppError::Network(NetworkError::Timeout("slow".to_string()));
    assert_eq!(
        ErrorHandler::handle_error(Some(&e)),
        "The request timed out. Please check your network connection and try again."
    );
    assert_eq!(ErrorHandler::handle_error(None), "An unexpected error occurred. Please try again.");
    let ctx = ErrorHandler::network_error(NetworkError::Timeout("slow".to_string()), "loading items");
    assert_eq!(ctx.context, "loading items");
    assert_eq!(ctx.user_message(), ErrorHandler::format_user_message(&e));
}

#[test]
fn general_errors() {
    let e = GeneralError::network("down".to_string());
    assert_eq!(e.to_string(), "Network error: down");
    assert_eq!(handle_error(&e), "Network connection error. Please check your internet connection.");
    assert!(e.is_recoverable());
    assert!(!GeneralError::initialization("x".to_string()).is_recoverable());
    assert_eq!(GeneralError::generic("as is".to_string()).user_message(), "as is");
    let r: Result<u8, GeneralError> = Err(GeneralError::ui("bad".to_string()));
    match r.context("drawing") {
        Err(GeneralError::Generic(m)) => assert_eq!(m, "drawing: UI error: bad"),
        _ => panic!("expected a generic error"),
    }
    let ok: Result<u8, GeneralError> = Ok(3);
    assert_eq!(ok.with_context(|| "unused".to_string()).ok(), Some(3));
}

#[test]
fn urls_and_keys() {
    assert_eq!(server_info_url("http://h/"), "http://h/System/Info/Public");
    assert_eq!(authenticate_url("http://h"), "http://h/Users/AuthenticateByName");
    assert_eq!(get_token_key("http://h", "u1"), "http://h::u1");
    assert!(auth_header_for("dev", Some("tok")).ends_with(", Token=\"tok\""));
    assert_eq!(normalize_url("http://h///"), "http://h");
    assert!(is_valid_url("https://x"));
    assert!(!is_valid_url("ftp://x"));
    assert_eq!(sanitize_filename("a<b>:c"), "a_b__c");
}

#[test]
fn durations() {
    assert_eq!(format_seconds(3723), "1h 2m 3s");
    assert_eq!(format_seconds(65), "1m 5s");
    assert_eq!(format_seconds(5), "5s");
    assert_eq!(format_duration(Duration::from_millis(61_900)), "1m 1s");
}

#[test]
fn clock_reads_the_present() {
    assert!(crabfin::utils::current_timestamp() > 1_600_000_000);
}

#[test]
fn url_check_outcomes() {
    let ok = crabfin::client::client::url_check_result("http://h".to_string(), Ok(()));
    assert_eq!(ok.ok(), Some("http://h".to_string()));
    let bad = crabfin::client::client::url_check_result("http://h h".to_string(), Err("invalid domain character".to_string()));
    assert_eq!(bad.err().map(|e| e.to_string()), Some("Invalid server URL: Invalid URL format: invalid domain character".to_string()));
}

#[test]
fn data_dir_prefers_xdg_then_home_then_working_directory() {
    assert_eq!(app_data_dir_from(Some("/xdg/data"), Some("/home/ann")), "/xdg/data/crabfin");
    assert_eq!(app_data_dir_from(None, Some("/home/ann")), "/home/ann/.local/share/crabfin");
    assert_eq!(app_data_dir_from(None, Some("/home/ann/")), "/home/ann/.local/share/crabfin");
    assert_eq!(app_data_dir_from(None, None), "./crabfin");
    assert_eq!(app_data_dir_from(Some(""), None), "crabfin");
}

#[test]
fn cache_dir_prefers_xdg_then_home_then_working_directory() {
    assert_eq!(app_cache_dir_from(Some("/xdg/cache/"), Some("/home/ann")), "/xdg/cache/crabfin");
    assert_eq!(app_cache_dir_from(None, Some("/home/ann")), "/home/ann/.cache/crabfin");
    assert_eq!(app_cache_dir_from(None, None), "./crabfin/cache");
}

#[test]
fn join_path_puts_one_separator() {
    assert_eq!(join_path("a", "b"), "a/b");
    assert_eq!(join_path("a/", "b"), "a/b");
    assert_eq!(join_path("", "b"), "b");
}

#[test]
fn file_size_units_step_at_powers_of_1024() {
    assert_eq!(file_size_unit(0), 0);
    assert_eq!(file_size_unit(1023), 0);
    assert_eq!(file_size_unit(1024), 1);
    assert_eq!(file_size_unit(1024 * 1024 - 1), 1);
    assert_eq!(file_size_unit(1024 * 1024), 2);
    assert_eq!(file_size_unit(1024 * 1024 * 1024), 3);
    assert_eq!(file_size_unit(1u64 << 40), 4);
    assert_eq!(file_size_unit(u64::MAX), 4);
    assert_eq!(file_size_unit_name(0), "B");
    assert_eq!(file_size_unit_name(3), "GB");
    assert_eq!(file_size_unit_name(4), "TB");
}

#[test]
fn auth_header_carries_a_device_id_and_token() {
    let header = crabfin::api::get_auth_header(Some("tok")).unwrap();
    assert!(header.starts_with("MediaBrowser Client=\"Crabfin\""));
    assert!(header.contains("DeviceId=\""));
    assert!(header.ends_with("Token=\"tok\""));
}

#[test]
fn timestamps_of_clock_offsets() {
    assert_eq!(crabfin::utils::timestamp_of(Ok(Duration::new(1_700_000_000, 999_999_999))), 1_700_000_000);
    assert_eq!(crabfin::utils::timestamp_of(Err(Duration::from_secs(5))), 0);
}
