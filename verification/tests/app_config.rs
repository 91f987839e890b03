use crabfin::api::PublicServerInfo;
use crabfin::config::{Config, SavedUser, Server};
use crabfin::models::config::{AppConfig, AppPreferences, ConnectionStatus};
use crabfin::models::server::ServerConfig;
use crabfin::models::user::UserSession;
use crabfin::services::library::LibraryService;
use crabfin::services::playback::{PlaybackService, PlaybackState};
use crabfin::services::settings::{SettingsError, SettingsService};
use crabfin::state::{add_validated_server, back_from_login, record_login, remove_server_by_url, start_view, AppState, Screen, StartView};

fn server(id: &str, url: &str) -> Server {
    Server { id: id.to_string(), name: format!("{id} name"), url: url.to_string(), saved_users: Vec::new() }
}

#[test]
fn saved_users_are_added_once_and_removed() {
    let mut config = Config::new();
    config.add_server(server("a", "http://a"));
    config.add_saved_user("a", "alice".to_string(), "u1".to_string());
    config.add_saved_user("a", "alice again".to_string(), "u1".to_string());
    config.add_saved_user("missing", "bob".to_string(), "u2".to_string());
    let users = config.get_saved_users("a");
    assert_eq!(users.len(), 1);
    assert_eq!(users[0].username, "alice");
    config.remove_saved_user("a", "u1");
    assert!(config.get_saved_users("a").is_empty());
    assert!(config.get_saved_users("missing").is_empty());
}

#[test]
fn active_server_selection() {
    let mut config = Config::new();
    assert!(config.get_active_server().is_none());
    config.add_server(server("a", "http://a"));
    config.add_server(server("b", "http://b"));
    config.set_active_server("b".to_string());
    assert_eq!(config.get_active_server().unwrap().url, "http://b");
    config.clear_active_server();
    assert!(config.get_active_server().is_none());
    assert_eq!(config.find_server("a"), Some(0));
}

#[test]
fn start_screen_follows_configuration() {
    let config = Config::new();
    assert!(matches!(start_view(&config), StartView::AddServer));
    assert_eq!(AppState::from_config(config).screen, Screen::AddServer);

    let mut config = Config::new();
    config.add_server(server("a", "http://a"));
    assert!(matches!(start_view(&config), StartView::ServerList));
    config.set_active_server("a".to_string());
    config.add_saved_user("a", "alice".to_string(), "u1".to_string());
    config.set_last_connected_user("u1".to_string());
    match start_view(&config) {
        StartView::UserSelection { server, auto_login } => {
            assert_eq!(server.id, "a");
            assert_eq!(auto_login.map(|u: SavedUser| u.user_id), Some("u1".to_string()));
        },
        _ => panic!("expected the user selection"),
    }
    assert_eq!(back_from_login(&config), Screen::ServerList);
}

#[test]
fn validated_servers_and_logins() {
    let mut config = Config::new();
    let info = PublicServerInfo { id: "srv".to_string(), server_name: "Home".to_string(), version: "10.9".to_string() };
    assert!(add_validated_server(&mut config, &info, "http://h").is_ok());
    assert!(add_validated_server(&mut config, &info, "http://h").is_err());
    let logged = record_login(&mut config, "http://h", "alice".to_string(), "u1".to_string(), true);
    assert!(logged.is_some());
    assert_eq!(config.get_saved_users("srv").len(), 1);
    remove_server_by_url(&mut config, "http://h");
    assert!(config.servers.is_empty());
}

fn session(server_id: &str, token: &str) -> UserSession {
    UserSession::new(server_id.to_string(), "u".to_string(), "name".to_string(), token.to_string())
}

#[test]
fn settings_servers() {
    let mut settings = SettingsService::new(AppConfig::default(), "/tmp/crabfin/config.json".to_string());
    assert_eq!(settings.config_path(), "/tmp/crabfin/config.json");
    let a = ServerConfig::new("a".to_string(), "A".to_string(), "http://a".to_string());
    assert!(settings.add_server(a.clone()).is_ok());
    assert_eq!(settings.add_server(a), Err(SettingsError::ServerExists));
    assert_eq!(SettingsError::ServerExists.to_string(), "Server already exists");
    assert_eq!(settings.set_active_server("zz".to_string()), Err(SettingsError::ServerNotFound));
    assert_eq!(SettingsError::ServerNotFound.to_string(), "Server not found");
    assert!(settings.set_active_server("a".to_string()).is_ok());
    assert_eq!(settings.get_active_server().unwrap().url, "http://a");
    settings.remove_server("a");
    assert!(settings.get_config().servers.is_empty());
    assert!(settings.get_config().active_server_id.is_none());
    assert!(settings.get_active_server().is_none());
}

#[test]
fn settings_sessions() {
    let mut settings = SettingsService::new(AppConfig::default(), "c.json".to_string());
    settings.save_session("a".to_string(), session("a", "t1"));
    settings.save_session("b".to_string(), session("b", "t2"));
    settings.save_session("a".to_string(), session("a", "t3"));
    assert_eq!(settings.get_config().sessions.len(), 2);
    assert_eq!(settings.get_session("a").unwrap().access_token, "t3");
    assert!(settings.get_active_session().is_none());
    settings.add_server(ServerConfig::new("b".to_string(), "B".to_string(), "http://b".to_string())).unwrap();
    settings.set_active_server("b".to_string()).unwrap();
    assert_eq!(settings.get_active_session().unwrap().access_token, "t2");
    settings.clear_session("b");
    assert!(settings.get_session("b").is_none());
    assert!(settings.get_active_session().is_none());
}

#[test]
fn preferences_and_status() {
    let p = AppPreferences::default();
    assert!(p.auto_connect && !p.remember_credentials && p.hardware_acceleration);
    let failed = ConnectionStatus::Failed("x".to_string());
    assert!(failed.same_as(&ConnectionStatus::Failed("x".to_string())));
    assert!(!failed.same_as(&ConnectionStatus::Failed("y".to_string())));
    assert!(ConnectionStatus::Connected.same_as(&ConnectionStatus::Connected));
    assert!(!ConnectionStatus::Connected.same_as(&ConnectionStatus::Connecting));
}

#[test]
fn playback_states() {
    let mut playback = PlaybackService::new(());
    assert_eq!(*playback.get_state(), PlaybackState::Stopped);
    playback.play("item");
    assert_eq!(*playback.get_state(), PlaybackState::Playing);
    playback.pause();
    assert_eq!(*playback.get_state(), PlaybackState::Paused);
    playback.stop();
    assert_eq!(*playback.get_state(), PlaybackState::Stopped);
}

#[test]
fn library_is_empty_for_now() {
    let library = LibraryService::new(5u8);
    let stats = library.get_library_stats();
    assert_eq!(stats.movie_count + stats.show_count + stats.episode_count + stats.album_count + stats.song_count, 0);
    assert!(library.search("anything").is_empty());
}
