use crabfin::ui::theme::color::{hex_to_rgb8, rgb8_to_hex, ColorError};
use crabfin::ui::theme::extractor::{
    gnome_wallpaper_path, kde_wallpaper_candidates, nitrogen_wallpaper_path, split_lines, ColorExtractor,
};
use crabfin::ui::theme::material_colors::{argb_channels, pack_argb, MaterialColorsError};
use crabfin::ui::theme::settings::{ThemeMode, ThemeSettings, ThemeSource};
use crabfin::ui::theme::manager::ThemeManager;
use crabfin::ui::{AddServerView, AuthView, ConnectClick, LoginClick, UiState};
use crabfin::ui::theme::wallpaper_monitor::WallpaperMonitor;
use std::time::Duration;

#[test]
fn test_hex_conversion() {
    let (r, g, b) = hex_to_rgb8("#FF0000").unwrap();
    assert_eq!(r as f32 / 255.0, 1.0);
    assert_eq!(g as f32 / 255.0, 0.0);
    assert_eq!(b as f32 / 255.0, 0.0);
    assert_eq!(rgb8_to_hex(r, g, b), "#FF0000");
}

#[test]
fn hex_reading_rules() {
    assert_eq!(hex_to_rgb8("00ff7f"), Ok((0, 255, 127)));
    assert_eq!(hex_to_rgb8("##0a0B0c"), Ok((10, 11, 12)));
    assert_eq!(hex_to_rgb8("+F+F+F"), Ok((15, 15, 15)));
    assert_eq!(hex_to_rgb8("#FFF"), Err(ColorError::InvalidHexFormat));
    assert_eq!(hex_to_rgb8("#GG0000"), Err(ColorError::InvalidHexFormat));
    assert_eq!(hex_to_rgb8("é1234"), Err(ColorError::InvalidHexFormat));
    assert_eq!(ColorError::InvalidHexFormat.to_string(), "Invalid hex color format");
}

#[test]
fn hex_round_trip() {
    for (r, g, b) in [(0u8, 0u8, 0u8), (255, 255, 255), (18, 52, 86), (103, 80, 164)] {
        assert_eq!(hex_to_rgb8(&rgb8_to_hex(r, g, b)), Ok((r, g, b)));
    }
    assert_eq!(rgb8_to_hex(103, 80, 164), "#6750A4");
}

#[test]
fn test_wallpaper_monitor_creation() {
    let monitor = WallpaperMonitor::new();
    assert!(!monitor.is_monitoring());
}

#[test]
fn test_custom_debounce_duration() {
    let monitor = WallpaperMonitor::new().with_debounce_duration(Duration::from_millis(100));
    assert!(!monitor.is_monitoring());
}

#[test]
fn debounce_decisions() {
    let mut monitor = WallpaperMonitor::new().with_debounce_nanos(1_000);
    assert!(monitor.should_report(5_000));
    assert!(!monitor.should_report(5_500));
    assert!(monitor.should_report(6_000));
    assert!(!monitor.should_report(4_000));
    monitor.start();
    assert!(monitor.is_monitoring());
    monitor.stop();
    assert!(!monitor.is_monitoring());
}

#[test]
fn theme_mode_resolution() {
    assert!(!ThemeMode::Light.resolve(true));
    assert!(ThemeMode::Dark.resolve(false));
    assert!(ThemeMode::System.resolve(true));
    assert!(!ThemeMode::System.resolve(false));
    assert_eq!(ThemeMode::default(), ThemeMode::System);
}

#[test]
fn lines_like_str_lines() {
    for text in ["", "a", "a\n", "a\n\n", "a\r\nb", "\n", "x\ry\n", "one\ntwo\r\n", "last\r"] {
        let expected: Vec<String> = text.lines().map(|l| l.to_string()).collect();
        assert_eq!(split_lines(text), expected);
    }
}

#[test]
fn gnome_picture_uri() {
    assert_eq!(
        gnome_wallpaper_path("'file:///home/u/Pictures/a.png'\n"),
        Some("/home/u/Pictures/a.png".to_string())
    );
    assert_eq!(gnome_wallpaper_path("\"file:///x.jpg\""), Some("/x.jpg".to_string()));
    assert_eq!(gnome_wallpaper_path("'https://example.com/a.png'"), None);
    assert_eq!(gnome_wallpaper_path(""), None);
}

#[test]
fn kde_image_lines() {
    let config = "[Containments][1]\nImage= /a/b.jpg \nfoo=bar\nImage=\nImage=file:///c.png\r\n";
    assert_eq!(
        kde_wallpaper_candidates(config),
        vec!["/a/b.jpg".to_string(), "file:///c.png".to_string()]
    );
    assert_eq!(kde_wallpaper_candidates("xImage=one Image=two"), vec!["one".to_string()]);
}

#[test]
fn nitrogen_saved_background() {
    assert_eq!(
        nitrogen_wallpaper_path("[xin_-1]\nfile=/w/p.jpg\nmode=5\nfile=/other.jpg"),
        Some("/w/p.jpg".to_string())
    );
    assert_eq!(nitrogen_wallpaper_path("[xin_-1]\nmode=5\n"), None);
    let _ = ColorExtractor::new();
}

#[test]
fn material_error_texts() {
    assert_eq!(
        MaterialColorsError::InvalidColor("zz".to_string()).to_string(),
        "Invalid color format: zz"
    );
}

#[test]
fn theme_settings_rules() {
    let mut settings: ThemeSettings<u32> = ThemeSettings::new();
    assert!(settings.dynamic_enabled && settings.is_valid());
    assert_eq!(settings.transition_duration_ms, 300);
    settings.set_custom_color(7);
    assert!(!settings.dynamic_enabled);
    assert_eq!(settings.custom_color, Some(7));
    settings.set_dynamic_enabled(true);
    assert_eq!(settings.custom_color, None);
    settings.set_transition_duration(5000);
    settings.validate_and_fix();
    assert_eq!(settings.transition_duration_ms, 2000);
    settings.set_transition_duration(10);
    settings.validate_and_fix();
    assert_eq!(settings.transition_duration_ms, 50);
    settings.set_dynamic_enabled(false);
    settings.clear_custom_color();
    assert!(!settings.is_valid());
    assert!(settings.has_wallpaper_changed(&Some("/a.png".to_string())));
    settings.update_wallpaper_path(Some("/a.png".to_string()));
    assert!(!settings.has_wallpaper_changed(&Some("/a.png".to_string())));
    assert!(settings.has_wallpaper_changed(&None));
    assert_eq!(settings.get_transition_duration(), Duration::from_millis(50));
    settings.reset_to_defaults();
    assert_eq!(settings.transition_duration_ms, 300);
    assert!(ThemeSource::<u32>::default().requires_wallpaper_monitoring());
    assert_eq!(ThemeSource::Custom(3u32).get_source_color(), Some(3));
    assert_eq!(ThemeSource::<u32>::Default.get_source_color(), None);
}

#[test]
fn ui_state_rules() {
    let mut state = UiState::default();
    state.set_error("boom".to_string());
    assert_eq!(state.error_message.as_deref(), Some("boom"));
    assert!(!state.loading);
    state.set_loading(true);
    assert!(state.loading);
    assert!(state.error_message.is_none());
    state.set_error("again".to_string());
    state.set_loading(false);
    assert_eq!(state.error_message.as_deref(), Some("again"));
    state.clear_error();
    assert!(state.error_message.is_none());
}

#[test]
fn debounce_from_a_duration() {
    let mut monitor = WallpaperMonitor::new().with_debounce_duration(Duration::from_micros(1));
    assert!(monitor.should_report(10_000));
    assert!(!monitor.should_report(10_999));
    assert!(monitor.should_report(11_000));
}

#[test]
fn test_settings_validation() {
    let mut settings: ThemeSettings<(u8, u8, u8)> = ThemeSettings::default();
    settings.transition_duration_ms = 5000; // Too high
    settings.validate_and_fix();
    assert!(settings.transition_duration_ms <= 2000);
}

#[test]
fn argb_words_pack_and_unpack() {
    assert_eq!(pack_argb(0xFF, 0x67, 0x50, 0xA4), 0xFF6750A4);
    assert_eq!(pack_argb(0, 0, 0, 0), 0);
    assert_eq!(argb_channels(0xFF6750A4), (0xFF, 0x67, 0x50, 0xA4));
    assert_eq!(argb_channels(0x01020304), (1, 2, 3, 4));
    for (a, r, g, b) in [(255u8, 255u8, 255u8, 255u8), (1, 0, 255, 7), (128, 64, 32, 16)] {
        assert_eq!(argb_channels(pack_argb(a, r, g, b)), (a, r, g, b));
    }
}

#[test]
fn debounce_duration_sets_the_debounce_time() {
    let mut monitor = WallpaperMonitor::new().with_debounce_duration(Duration::from_millis(100));
    assert!(monitor.should_report(0));
    assert!(!monitor.should_report(99_999_999));
    assert!(monitor.should_report(100_000_000));
}

#[test]
fn test_theme_manager_creation() {
    let manager: ThemeManager<(u8, u8, u8)> = ThemeManager::new();
    assert!(!manager.is_active());
    assert!(!manager.is_dynamic_mode_enabled()); // Default should be dynamic enabled
}

#[test]
fn test_custom_color_setting() {
    let manager: ThemeManager<(u8, u8, u8)> = ThemeManager::new();
    let _test_color = hex_to_rgb8("#FF0000").unwrap();
    assert_eq!(manager.get_custom_color(), None);
}

#[test]
fn theme_manager_shutdown_keeps_settings() {
    let mut manager: ThemeManager<u32> = ThemeManager::default();
    manager.shutdown();
    assert!(!manager.is_active());
    assert_eq!(manager.get_settings().transition_duration_ms, 300);
}

#[test]
fn sign_in_button_rules() {
    let mut view = AuthView::new("Home".to_string());
    assert!(view.remember_me);
    assert_eq!(view.login_button_label(), "Login");
    assert_eq!(view.login_clicked("", "pw", true), LoginClick::Refused);
    assert_eq!(view.error_message.as_deref(), Some("Username and password are required"));
    assert_eq!(view.login_clicked("ann", "pw", false), LoginClick::Ignored);
    assert_eq!(view.login_clicked("ann", "pw", true), LoginClick::Submit);
    assert!(view.is_authenticating);
    assert!(view.error_message.is_none());
    assert_eq!(view.login_button_label(), "Logging in...");
    assert_eq!(view.login_clicked("ann", "pw", true), LoginClick::Ignored);
    view.set_error("Login failed".to_string());
    assert!(!view.is_authenticating);
    view.set_authenticating(true);
    assert!(view.is_authenticating);
}

#[test]
fn connect_button_rules() {
    let mut view = AddServerView::new();
    assert_eq!(view.connect_button_label(), "Connect");
    assert_eq!(view.connect_clicked(false), ConnectClick::Ignored);
    assert!(!view.is_connecting);
    view.set_error("bad".to_string());
    assert_eq!(view.connect_clicked(true), ConnectClick::Submit);
    assert!(view.is_connecting);
    assert!(view.error_message.is_none());
    assert_eq!(view.connect_button_label(), "Connecting...");
    assert_eq!(view.connect_clicked(true), ConnectClick::Ignored);
    view.set_connecting(false);
    assert!(!view.is_connecting);
}
