use crabfin::auth::session::{SessionManager, UserSession};
use crabfin::auth::token::{TokenError, TokenInfo, TokenManager};
use crabfin::auth::{ServerConfig, UserConfig};
use crabfin::utils::time::UtcTime;

fn at(seconds: i64) -> UtcTime {
    UtcTime { seconds, nanos: 0 }
}

#[test]
fn add_user_replaces_same_id() {
    let mut server = ServerConfig::new("s1".to_string(), "Home".to_string(), "http://h".to_string());
    server.add_user(UserConfig::new("u1".to_string(), "alice".to_string(), "s1".to_string()));
    server.add_user(UserConfig::new("u2".to_string(), "bob".to_string(), "s1".to_string()));
    let mut again = UserConfig::new("u1".to_string(), "alice2".to_string(), "s1".to_string());
    again.update_last_login_at(at(10));
    server.add_user(again);
    let names: Vec<&str> = server.users.iter().map(|u| u.name.as_str()).collect();
    assert_eq!(names, vec!["bob", "alice2"]);
    assert_eq!(server.get_user("u1").unwrap().last_login, Some(at(10)));
    assert!(server.get_user("u3").is_none());
    let removed = server.remove_user("u2").unwrap();
    assert_eq!(removed.name, "bob");
    assert!(server.remove_user("u2").is_none());
    assert_eq!(server.users.len(), 1);
}

#[test]
fn server_last_used() {
    let mut server = ServerConfig::new("s".to_string(), "n".to_string(), "u".to_string());
    assert!(server.last_used.is_none());
    server.update_last_used_at(at(42));
    assert_eq!(server.last_used, Some(at(42)));
    server.update_last_used();
    assert!(server.last_used.unwrap().seconds > 1_600_000_000);
}

#[test]
fn token_expiry_and_refresh() {
    let token = TokenInfo::new_at("abc".to_string(), at(1_000)).with_expires_in(600);
    assert_eq!(token.token_type, "Bearer");
    assert_eq!(token.expires_at(), Some(at(1_600)));
    assert!(!token.is_expired_at(at(1_600)));
    assert!(token.is_expired_at(UtcTime { seconds: 1_600, nanos: 1 }));
    assert!(!token.needs_refresh_at(at(1_300)));
    assert!(token.needs_refresh_at(UtcTime { seconds: 1_300, nanos: 1 }));
    assert!(token.needs_refresh_at(at(2_000)));
    let forever = TokenInfo::new_at("x".to_string(), at(0));
    assert_eq!(forever.expires_at(), None);
    assert!(!forever.is_expired_at(at(i64::MAX / 2_000_000)));
    assert!(!forever.needs_refresh_at(at(5)));
    let with_refresh = forever.with_refresh_token("r".to_string());
    assert_eq!(with_refresh.refresh_token, Some("r".to_string()));
}

#[test]
fn token_store() {
    let mut tokens = TokenManager::new();
    assert_eq!(tokens.token_count(), 0);
    tokens.store_token("a".to_string(), TokenInfo::new_at("t1".to_string(), at(0)).with_expires_in(100));
    tokens.store_token("b".to_string(), TokenInfo::new_at("t2".to_string(), at(0)).with_expires_in(10_000));
    tokens.store_token("a".to_string(), TokenInfo::new_at("t3".to_string(), at(0)).with_expires_in(100));
    assert_eq!(tokens.token_count(), 2);
    assert_eq!(tokens.get_token("a").unwrap().access_token, "t3");
    assert!(tokens.expiries_ok());
    assert!(tokens.has_valid_token_at("a", at(50)));
    assert!(!tokens.has_valid_token_at("a", at(101)));
    assert!(tokens.get_valid_token_at("a", at(101)).is_none());
    assert_eq!(tokens.get_servers_needing_refresh_at(at(0)), vec!["a".to_string()]);
    let mut ids = tokens.get_server_ids();
    ids.sort();
    assert_eq!(ids, vec!["a".to_string(), "b".to_string()]);
    assert!(tokens.update_token_at("b", "t4".to_string(), at(5)).is_ok());
    assert_eq!(tokens.get_token("b").unwrap().created_at, at(5));
    match tokens.update_token_at("zz", "t".to_string(), at(5)) {
        Err(e) => assert_eq!(e.to_string(), "No token found for server: zz"),
        Ok(()) => panic!("updated a missing token"),
    }
    assert!(matches!(tokens.update_token("zz", "t".to_string()), Err(TokenError::NotFound { .. })));
    assert_eq!(tokens.remove_token("a").unwrap().access_token, "t3");
    assert!(tokens.remove_token("a").is_none());
    tokens.clear_all();
    assert_eq!(tokens.token_count(), 0);
}

#[test]
fn sessions_and_servers() {
    let mut manager = SessionManager::new();
    manager.add_server(ServerConfig::new("s1".to_string(), "Home".to_string(), "http://h".to_string()));
    let session = manager.record_authentication("s1", "u1".to_string(), "alice".to_string(), "tok".to_string(), at(7));
    assert_eq!(session.server_name, "Home");
    assert_eq!(session.server_url, "http://h");
    assert!(session.is_active);
    assert_eq!(manager.get_session("s1").unwrap().access_token, "tok");
    assert!(manager.is_session_valid_at("s1", at(8)));
    assert!(!manager.is_session_valid_at("s2", at(8)));
    let server = manager.get_server("s1").unwrap();
    assert_eq!(server.last_used, Some(at(7)));
    assert_eq!(server.users.len(), 1);
    assert_eq!(server.users[0].last_login, Some(at(7)));
    assert_eq!(manager.get_all_sessions().len(), 1);
    let removed = manager.remove_server("s1").unwrap();
    assert_eq!(removed.id, "s1");
    assert!(manager.get_session("s1").is_none());
    assert!(manager.get_servers().is_empty());
}

#[test]
fn user_session_validity() {
    let mut s = UserSession::new_at(
        "s".to_string(), "u".to_string(), "n".to_string(), "t".to_string(), "S".to_string(), "url".to_string(), at(0),
    );
    assert!(s.is_valid_at(at(1)));
    s.expires_at = Some(at(10));
    assert!(!s.is_expired_at(at(10)));
    assert!(s.is_expired_at(at(11)));
    assert!(!s.is_valid_at(at(11)));
    s.update_token("t2".to_string());
    assert_eq!(s.access_token, "t2");
    s.deactivate();
    assert!(!s.is_valid_at(at(1)));
}
