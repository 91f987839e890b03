use crabfin::client::client::{is_header_safe, JellyfinClient};
use crabfin::client::http::{ApiError, HttpClient};
use crabfin::client::manager::{ClientManager, ClientManagerEvent};
use crabfin::models::server::ServerConfig;
use std::time::Duration;

#[test]
fn client_starts_unconnected() {
    let client = JellyfinClient::new().unwrap();
    assert_eq!(client.client_name(), "Crabfin");
    assert_eq!(client.client_version(), "0.1.0");
    assert!(!client.is_connected());
    assert!(!client.is_authenticated());
    assert!(!client.device_id().is_empty());
    let other = JellyfinClient::new().unwrap();
    assert_ne!(client.device_id(), other.device_id());
}

#[test]
fn server_urls_are_normalized() {
    let mut client = JellyfinClient::with_config("App".to_string(), "2.0".to_string(), Duration::from_secs(5)).unwrap();
    assert_eq!(client.normalize_server_url("  demo.example.org:8096/ ").unwrap(), "http://demo.example.org:8096");
    assert_eq!(client.normalize_server_url("https://x.org//").unwrap(), "https://x.org");
    assert!(client.normalize_server_url("   ").is_err());
    assert!(client.normalize_server_url("http://exa mple.com").is_err());
    assert!(client.build_api_url("/System/Info").is_err());
    client.set_server_url("media.local/").unwrap();
    assert_eq!(client.server_url(), Some("http://media.local"));
    assert_eq!(client.build_api_url("//System/Info").unwrap(), "http://media.local/System/Info");
}

#[test]
fn headers_identify_the_client() {
    let mut client = JellyfinClient::with_config("App".to_string(), "2.0".to_string(), Duration::from_secs(5)).unwrap();
    let device = client.device_id().to_string();
    let headers = client.create_headers();
    assert_eq!(headers.len(), 4);
    assert_eq!(headers[0], ("X-Emby-Device-Id".to_string(), device.clone()));
    assert_eq!(headers[1], ("X-Emby-Device-Name".to_string(), "App".to_string()));
    assert_eq!(headers[2], ("X-Emby-Client-Version".to_string(), "2.0".to_string()));
    assert_eq!(
        headers[3].1,
        format!("MediaBrowser Client=\"App\", Device=\"App\", DeviceId=\"{device}\", Version=\"2.0\"")
    );
    client.set_auth_token("tok".to_string());
    assert!(client.is_authenticated());
    assert!(client.create_headers()[3].1.ends_with(", Token=\"tok\""));
    client.clear_auth_token();
    assert_eq!(client.auth_token(), None);
    assert!(is_header_safe("a b\tc"));
    assert!(!is_header_safe("a\nb"));
}

#[test]
fn http_client_urls() {
    let http = HttpClient::new("http://host:8096///".to_string()).unwrap();
    assert_eq!(http.base_url(), "http://host:8096");
    assert_eq!(http.timeout(), Duration::from_secs(30));
    assert_eq!(http.build_url("/Users/Me"), "http://host:8096/Users/Me");
    assert_eq!(http.build_url("Items"), "http://host:8096/Items");
    let custom = HttpClient::with_timeout("h".to_string(), Duration::from_secs(3)).unwrap();
    assert_eq!(custom.timeout(), Duration::from_secs(3));
    let e = ApiError { message: "boom".to_string(), code: None, details: None };
    assert_eq!(e.to_string(), "API Error: boom");
}

fn config(id: &str, name: &str) -> ServerConfig {
    ServerConfig::new(id.to_string(), name.to_string(), format!("http://{id}"))
}

#[test]
fn manager_pool() {
    let mut manager = ClientManager::new();
    assert!(manager.add_server(config("a", "Alpha")).is_ok());
    assert!(manager.add_server(config("b", "Beta")).is_ok());
    assert!(manager.add_server(config("a", "Again")).is_err());
    assert!(manager.set_active_server("a").is_err());
    assert!(manager.connect_server("a").is_ok());
    assert!(manager.set_active_server("a").is_ok());
    assert_eq!(manager.get_active_server_id(), Some("a".to_string()));
    assert!(manager.is_server_active("a"));
    assert!(manager.is_server_connected("a"));
    let stats = manager.get_pool_stats();
    assert_eq!((stats.total_servers, stats.connected_servers, stats.active_servers), (2, 1, 1));
    assert_eq!(manager.get_connected_servers().len(), 1);
    assert_eq!(manager.get_disconnected_servers().len(), 1);
    assert_eq!(manager.find_servers_by_name("ALP").len(), 1);
    assert_eq!(manager.get_active_client().unwrap().id, "a");
    assert!(manager.remove_server("a").is_ok());
    assert!(manager.get_active_server_id().is_none());
    assert!(manager.get_client("a").is_err());
    manager.disconnect_all();
    assert_eq!(manager.get_pool_stats().connected_servers, 0);
}

#[test]
fn manager_queues_events_in_order() {
    let mut manager = ClientManager::new();
    assert!(manager.take_events().is_empty());
    manager.add_server(config("a", "Alpha")).unwrap();
    manager.add_server(config("b", "Beta")).unwrap();
    assert!(manager.add_server(config("a", "Again")).is_err());
    manager.connect_server("a").unwrap();
    manager.connect_server("b").unwrap();
    manager.set_active_server("a").unwrap();
    manager.set_active_server("b").unwrap();
    let events = manager.take_events();
    assert_eq!(events.len(), 4);
    assert!(matches!(&events[0], ClientManagerEvent::ServerAdded { server_id, server_config } if server_id == "a" && server_config.name == "Alpha"));
    assert!(matches!(&events[1], ClientManagerEvent::ServerAdded { server_id, .. } if server_id == "b"));
    assert!(matches!(&events[2], ClientManagerEvent::ActiveServerChanged { old_server_id: None, new_server_id: Some(n) } if n == "a"));
    assert!(matches!(&events[3], ClientManagerEvent::ActiveServerChanged { old_server_id: Some(o), new_server_id: Some(n) } if o == "a" && n == "b"));
    assert!(manager.take_events().is_empty());

    manager.remove_server("b").unwrap();
    let events = manager.take_events();
    assert_eq!(events.len(), 2);
    assert!(matches!(&events[0], ClientManagerEvent::ActiveServerChanged { old_server_id: Some(o), new_server_id: None } if o == "b"));
    assert!(matches!(&events[1], ClientManagerEvent::ServerRemoved { server_id } if server_id == "b"));

    manager.set_active_server("a").unwrap();
    manager.take_events();
    manager.disconnect_server("a").unwrap();
    let events = manager.take_events();
    assert_eq!(events.len(), 1);
    assert!(matches!(&events[0], ClientManagerEvent::ActiveServerChanged { old_server_id: Some(o), new_server_id: None } if o == "a"));
    assert!(manager.remove_server("zzz").is_err());
    manager.disconnect_all();
    assert!(manager.take_events().is_empty());
}

#[test]
fn transports_carry_their_timeout_and_user_agent() {
    let http = HttpClient::new("http://host".to_string()).unwrap();
    assert_eq!(http.user_agent(), "Crabfin/0.1.0");
    let custom = HttpClient::with_timeout("h".to_string(), Duration::from_secs(3)).unwrap();
    assert_eq!(custom.user_agent(), "Crabfin/0.1.0");
    let client = JellyfinClient::new().unwrap();
    assert_eq!(client.user_agent(), "Crabfin/0.1.0");
    assert_eq!(client.timeout(), Duration::from_secs(30));
    let other = JellyfinClient::with_config("App".to_string(), "2.0".to_string(), Duration::from_secs(5)).unwrap();
    assert_eq!(other.user_agent(), "App/2.0");
    assert_eq!(other.timeout(), Duration::from_secs(5));
}
