//! Signed-in sessions and the servers they belong to.
use vstd::prelude::*;
use crate::keyed::{get_value, insert_value, keyed_map, keys_distinct, remove_value};
use crate::utils::time::{now_utc, UtcTime};
use super::{other_user, ServerConfig, UserConfig};

verus! {

/// User session containing authentication information.
#[derive(Debug, PartialEq, Eq)]
pub struct UserSession {
    pub server_id: String,
    pub user_id: String,
    pub username: String,
    pub access_token: String,
    pub server_name: String,
    pub server_url: String,
    pub created_at: UtcTime,
    pub expires_at: Option<UtcTime>,
    pub is_active: bool,
}

impl Clone for UserSession {
    fn clone(&self) -> (r: Self)
        ensures
            r == *self,
    {
        UserSession {
            server_id: self.server_id.clone(),
            user_id: self.user_id.clone(),
            username: self.username.clone(),
            access_token: self.access_token.clone(),
            server_name: self.server_name.clone(),
            server_url: self.server_url.clone(),
            created_at: self.created_at,
            expires_at: self.expires_at,
            is_active: self.is_active,
        }
    }
}

impl UserSession {
    /// Whether the session has expired at `now`: it has an expiry and `now` is past it.
    pub open spec fn expired_at(self, now: UtcTime) -> bool {
        self.expires_at matches Some(t) && now.later(t)
    }

    /// Whether the session is valid at `now`: active and not expired.
    pub open spec fn valid_at(self, now: UtcTime) -> bool {
        self.is_active && !self.expired_at(now)
    }

    /// An active session created at `now` that does not expire.
    pub fn new_at(
        server_id: String,
        user_id: String,
        username: String,
        access_token: String,
        server_name: String,
        server_url: String,
        now: UtcTime,
    ) -> (s: UserSession)
        ensures
            s == (UserSession {
                server_id,
                user_id,
                username,
                access_token,
                server_name,
                server_url,
                created_at: now,
                expires_at: None,
                is_active: true,
            }),
    {
        UserSession {
            server_id,
            user_id,
            username,
            access_token,
            server_name,
            server_url,
            created_at: now,
            expires_at: None,
            is_active: true,
        }
    }

    /// An active session created now (by the system clock) that does not expire.
    pub fn new(
        server_id: String,
        user_id: String,
        username: String,
        access_token: String,
        server_name: String,
        server_url: String,
    ) -> (s: UserSession)
        ensures
            s.created_at.valid(),
            s == (UserSession {
                server_id,
                user_id,
                username,
                access_token,
                server_name,
                server_url,
                created_at: s.created_at,
                expires_at: None,
                is_active: true,
            }),
    {
        Self::new_at(server_id, user_id, username, access_token, server_name, server_url, now_utc())
    }

    /// Whether the session has expired at `now`.
    pub fn is_expired_at(&self, now: UtcTime) -> (b: bool)
        ensures
            b == self.expired_at(now),
    {
        match &self.expires_at {
            Some(t) => now.is_after(t),
            None => false,
        }
    }

    /// Whether the session has expired, by the system clock.
    pub fn is_expired(&self) -> (b: bool)
        ensures
            self.expires_at is None ==> !b,
            exists|now: UtcTime| now.valid() && b == self.expired_at(now),
    {
        self.is_expired_at(now_utc())
    }

    /// Whether the session is valid at `now`.
    pub fn is_valid_at(&self, now: UtcTime) -> (b: bool)
        ensures
            b == self.valid_at(now),
    {
        self.is_active && !self.is_expired_at(now)
    }

    /// Whether the session is valid, by the system clock.
    pub fn is_valid(&self) -> (b: bool)
        ensures
            b ==> self.is_active,
            self.is_active && self.expires_at is None ==> b,
            exists|now: UtcTime| now.valid() && b == self.valid_at(now),
    {
        self.is_valid_at(now_utc())
    }

    /// Deactivates the session.
    pub fn deactivate(&mut self)
        ensures
            *final(self) == (UserSession { is_active: false, ..*old(self) }),
    {
        self.is_active = false;
    }

    /// Replaces the access token.
    pub fn update_token(&mut self, new_token: String)
        ensures
            *final(self) == (UserSession { access_token: new_token, ..*old(self) }),
    {
        self.access_token = new_token;
    }
}

/// Whether `after` is the server record `before` once `user` signed in at `now`: used at
/// `now`, with the user in place of any user with the same id, and otherwise unchanged.
pub open spec fn signed_in_server(before: ServerConfig, after: ServerConfig, user: UserConfig, now: UtcTime) -> bool {
    &&& after.id == before.id
    &&& after.name == before.name
    &&& after.url == before.url
    &&& after.last_used == Some(now)
    &&& after.users@ == before.users@.filter(other_user(user.id@)).push(user)
}

/// Sessions and server configurations, each keyed by server id.
#[derive(Debug)]
pub struct SessionManager {
    sessions: Vec<(String, UserSession)>,
    servers: Vec<(String, ServerConfig)>,
}

impl SessionManager {
    /// The sessions, by server id.
    pub closed spec fn sessions_view(&self) -> Map<Seq<char>, UserSession> {
        keyed_map(self.sessions@)
    }

    /// The server configurations, by server id.
    pub closed spec fn servers_view(&self) -> Map<Seq<char>, ServerConfig> {
        keyed_map(self.servers@)
    }

    /// The manager's invariant: one session and one configuration per server id.
    pub closed spec fn wf(&self) -> bool {
        keys_distinct(self.sessions@) && keys_distinct(self.servers@)
    }

    /// A manager with no servers and no sessions.
    pub fn new() -> (m: SessionManager)
        ensures
            m.wf(),
            m.sessions_view() == Map::<Seq<char>, UserSession>::empty(),
            m.servers_view() == Map::<Seq<char>, ServerConfig>::empty(),
    {
        let m = SessionManager { sessions: Vec::new(), servers: Vec::new() };
        proof {
            assert(m.sessions_view() =~= Map::<Seq<char>, UserSession>::empty());
            assert(m.servers_view() =~= Map::<Seq<char>, ServerConfig>::empty());
        }
        m
    }

    /// Adds a server configuration under its id, replacing the one stored there.
    pub fn add_server(&mut self, server: ServerConfig)
        requires
            old(self).wf(),
        ensures
            final(self).wf(),
            final(self).servers_view() == old(self).servers_view().insert(server.id@, server),
            final(self).sessions_view() == old(self).sessions_view(),
    {
        let id = server.id.clone();
        insert_value(&mut self.servers, id, server);
    }

    /// The configuration of a server, if any.
    pub fn get_server(&self, server_id: &str) -> (r: Option<&ServerConfig>)
        requires
            self.wf(),
        ensures
            match r {
                Some(s) => self.servers_view().contains_key(server_id@) && *s == self.servers_view()[server_id@],
                None => !self.servers_view().contains_key(server_id@),
            },
    {
        get_value(&self.servers, server_id)
    }

    /// All server configurations, as (server id, configuration) entries.
    pub fn get_servers(&self) -> (r: &Vec<(String, ServerConfig)>)
        ensures
            keyed_map(r@) == self.servers_view(),
            self.wf() ==> keys_distinct(r@),
    {
        &self.servers
    }

    /// Removes a server configuration and the session for it, handing back the
    /// configuration.
    pub fn remove_server(&mut self, server_id: &str) -> (r: Option<ServerConfig>)
        requires
            old(self).wf(),
        ensures
            final(self).wf(),
            final(self).servers_view() == old(self).servers_view().remove(server_id@),
            final(self).sessions_view() == old(self).sessions_view().remove(server_id@),
            r == (if old(self).servers_view().contains_key(server_id@) {
                Some(old(self).servers_view()[server_id@])
            } else {
                None
            }),
    {
        remove_value(&mut self.sessions, server_id);
        remove_value(&mut self.servers, server_id)
    }

    /// Records that a server was used at `now`; nothing changes for an unknown server.
    pub fn update_server_last_used_at(&mut self, server_id: &str, now: UtcTime)
        requires
            old(self).wf(),
        ensures
            final(self).wf(),
            final(self).sessions_view() == old(self).sessions_view(),
            final(self).servers_view() == if old(self).servers_view().contains_key(server_id@) {
                old(self).servers_view().insert(
                    server_id@,
                    ServerConfig { last_used: Some(now), ..old(self).servers_view()[server_id@] },
                )
            } else {
                old(self).servers_view()
            },
    {
        let ghost before = self.servers_view();
        match remove_value(&mut self.servers, server_id) {
            Some(mut server) => {
                server.update_last_used_at(now);
                insert_value(&mut self.servers, server_id.to_string(), server);
                proof {
                    assert(self.servers_view() =~= before.insert(
                        server_id@,
                        ServerConfig { last_used: Some(now), ..before[server_id@] },
                    ));
                }
            },
            None => {},
        }
    }

    /// Records that a server was used now, by the system clock.
    pub fn update_server_last_used(&mut self, server_id: &str)
        requires
            old(self).wf(),
        ensures
            final(self).wf(),
            final(self).sessions_view() == old(self).sessions_view(),
            exists|now: UtcTime|
                now.valid() && final(self).servers_view() == if old(self).servers_view().contains_key(server_id@) {
                    old(self).servers_view().insert(
                        server_id@,
                        ServerConfig { last_used: Some(now), ..old(self).servers_view()[server_id@] },
                    )
                } else {
                    old(self).servers_view()
                },
    {
        self.update_server_last_used_at(server_id, now_utc());
    }

    /// The session for a server, if any.
    pub fn get_session(&self, server_id: &str) -> (r: Option<&UserSession>)
        requires
            self.wf(),
        ensures
            match r {
                Some(s) => self.sessions_view().contains_key(server_id@) && *s == self.sessions_view()[server_id@],
                None => !self.sessions_view().contains_key(server_id@),
            },
    {
        get_value(&self.sessions, server_id)
    }

    /// All sessions, as (server id, session) entries.
    pub fn get_all_sessions(&self) -> (r: &Vec<(String, UserSession)>)
        ensures
            keyed_map(r@) == self.sessions_view(),
            self.wf() ==> keys_distinct(r@),
    {
        &self.sessions
    }

    /// Removes the session for a server, handing it back.
    pub fn remove_session(&mut self, server_id: &str) -> (r: Option<UserSession>)
        requires
            old(self).wf(),
        ensures
            final(self).wf(),
            final(self).sessions_view() == old(self).sessions_view().remove(server_id@),
            final(self).servers_view() == old(self).servers_view(),
            r == (if old(self).sessions_view().contains_key(server_id@) {
                Some(old(self).sessions_view()[server_id@])
            } else {
                None
            }),
    {
        remove_value(&mut self.sessions, server_id)
    }

    /// Whether the server has a session that is valid at `now`.
    pub fn is_session_valid_at(&self, server_id: &str, now: UtcTime) -> (b: bool)
        requires
            self.wf(),
        ensures
            b == (self.sessions_view().contains_key(server_id@) && self.sessions_view()[server_id@].valid_at(now)),
    {
        match self.get_session(server_id) {
            Some(s) => s.is_valid_at(now),
            None => false,
        }
    }

    /// Whether the server has a session that is valid, by the system clock.
    pub fn is_session_valid(&self, server_id: &str) -> (b: bool)
        requires
            self.wf(),
        ensures
            exists|now: UtcTime|
                now.valid() && b == (self.sessions_view().contains_key(server_id@)
                    && self.sessions_view()[server_id@].valid_at(now)),
    {
        self.is_session_valid_at(server_id, now_utc())
    }

    /// Records a successful sign-in to a known server at `now`: a new session for the
    /// server (replacing its old one), the server marked as used, and the user (logged in
    /// at `now`) in place of any user of the server with the same id. Hands back the
    /// session.
    pub fn record_authentication(
        &mut self,
        server_id: &str,
        user_id: String,
        user_name: String,
        access_token: String,
        now: UtcTime,
    ) -> (s: UserSession)
        requires
            old(self).wf(),
            old(self).servers_view().contains_key(server_id@),
        ensures
            final(self).wf(),
            ({
                let server = old(self).servers_view()[server_id@];
                &&& s == (UserSession {
                    server_id: s.server_id,
                    user_id,
                    username: user_name,
                    access_token,
                    server_name: server.name,
                    server_url: server.url,
                    created_at: now,
                    expires_at: None,
                    is_active: true,
                })
                &&& s.server_id@ == server_id@
                &&& final(self).sessions_view() == old(self).sessions_view().insert(server_id@, s)
                &&& final(self).servers_view() == old(self).servers_view().insert(
                    server_id@,
                    final(self).servers_view()[server_id@],
                )
                &&& signed_in_server(
                    server,
                    final(self).servers_view()[server_id@],
                    UserConfig {
                        id: user_id,
                        name: user_name,
                        server_id: s.server_id,
                        remember_login: false,
                        last_login: Some(now),
                    },
                    now,
                )
            }),
    {
        let ghost old_servers = self.servers_view();
        let ghost old_sessions = self.sessions_view();
        let mut server = remove_value(&mut self.servers, server_id).unwrap();
        let sid = server_id.to_string();
        let session = UserSession::new_at(
            sid.clone(),
            user_id.clone(),
            user_name.clone(),
            access_token,
            server.name.clone(),
            server.url.clone(),
            now,
        );
        let stored = session.clone();
        insert_value(&mut self.sessions, server_id.to_string(), stored);
        server.update_last_used_at(now);
        let mut user = UserConfig::new(user_id, user_name, sid);
        user.update_last_login_at(now);
        server.add_user(user);
        insert_value(&mut self.servers, server_id.to_string(), server);
        proof {
            assert(self.servers_view() =~= old_servers.insert(server_id@, self.servers_view()[server_id@]));
        }
        session
    }
}

impl Default for SessionManager {
    /// A manager with no servers and no sessions.
    fn default() -> (m: SessionManager)
        ensures
            m.wf(),
            m.sessions_view() == Map::<Seq<char>, UserSession>::empty(),
            m.servers_view() == Map::<Seq<char>, ServerConfig>::empty(),
    {
        SessionManager::new()
    }
}


/// A session just recorded is valid at any time: it is active and does not expire.
pub proof fn law_new_session_is_valid(s: UserSession, now: UtcTime)
    requires
        s.is_active,
        s.expires_at is None,
    ensures
        s.valid_at(now),
{
}
} // verus!
