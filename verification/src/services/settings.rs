//! The application settings: the configuration the application runs with, and the rules
//! by which servers, the active server and sessions change in it.
//!
//! Reading and writing the configuration file is the application's part; it saves the
//! configuration after each change made here.
use vstd::prelude::*;
use crate::keyed::{get_value, insert_value, keys_distinct, remove_value};
use crate::models::config::AppConfig;
use crate::models::server::ServerConfig;
use crate::models::user::UserSession;
use crate::text::same_text;

verus! {

/// The name of the application's configuration directory.
pub const APP_NAME: &'static str = "crabfin";

/// The name of the configuration file in that directory.
pub const CONFIG_FILE: &'static str = "config.json";

/// Why a change to the settings was refused.
#[derive(Debug, Clone, Copy, PartialEq, Eq, Structural)]
pub enum SettingsError {
    /// A server with the same id is already configured.
    ServerExists,
    /// No server with the given id is configured.
    ServerNotFound,
}

impl SettingsError {
    /// The text of the error.
    pub open spec fn text(self) -> Seq<char> {
        match self {
            SettingsError::ServerExists => "Server already exists"@,
            SettingsError::ServerNotFound => "Server not found"@,
        }
    }

    /// The text of the error.
    pub fn to_string(&self) -> (s: String)
        ensures
            s@ == self.text(),
    {
        match self {
            SettingsError::ServerExists => String::from_str("Server already exists"),
            SettingsError::ServerNotFound => String::from_str("Server not found"),
        }
    }
}

/// Whether some server has the id `id`.
pub open spec fn has_server(servers: Seq<ServerConfig>, id: Seq<char>) -> bool {
    exists|i: int| 0 <= i < servers.len() && #[trigger] servers[i].id@ == id
}

/// Whether a server is not the one with id `id`.
pub open spec fn other_server(id: Seq<char>) -> spec_fn(ServerConfig) -> bool {
    |s: ServerConfig| s.id@ != id
}

/// The first position of a server with id `id`, if any.
pub open spec fn first_server_with(servers: Seq<ServerConfig>, id: Seq<char>) -> Option<int> {
    if has_server(servers, id) {
        Some(
            choose|i: int|
                0 <= i < servers.len() && #[trigger] servers[i].id@ == id && forall|j: int|
                    0 <= j < i ==> #[trigger] servers[j].id@ != id,
        )
    } else {
        None
    }
}

/// Whether `a` is a copy of `b`.
pub open spec fn same_server(a: ServerConfig, b: ServerConfig) -> bool {
    a.id == b.id && a.name == b.name && a.url == b.url && a.users@ == b.users@ && a.is_active == b.is_active
}

/// The first position of a server with id `id`, if any.
fn find_server(servers: &Vec<ServerConfig>, id: &str) -> (r: Option<usize>)
    ensures
        match r {
            Some(i) => i < servers@.len() && servers@[i as int].id@ == id@ && first_server_with(servers@, id@) == Some(i as int),
            None => first_server_with(servers@, id@) is None,
        },
{
    let mut i: usize = 0;
    while i < servers.len()
        invariant
            i <= servers@.len(),
            forall|j: int| 0 <= j < i ==> #[trigger] servers@[j].id@ != id@,
        decreases servers@.len() - i,
    {
        if same_text(servers[i].id.as_str(), id) {
            proof {
                assert(has_server(servers@, id@));
                let c = choose|c: int|
                    0 <= c < servers@.len() && #[trigger] servers@[c].id@ == id@ && forall|j: int|
                        0 <= j < c ==> #[trigger] servers@[j].id@ != id@;
                if c > i {
                    assert(servers@[i as int].id@ != id@);
                }
            }
            return Some(i);
        }
        i = i + 1;
    }
    None
}

/// Service for managing application settings: the configuration and the path of the file
/// it is saved to.
pub struct SettingsService {
    config: AppConfig,
    config_path: String,
}

impl SettingsService {
    /// The current configuration.
    pub closed spec fn config_view(&self) -> AppConfig {
        self.config
    }

    /// The path of the configuration file.
    pub closed spec fn path_view(&self) -> Seq<char> {
        self.config_path@
    }

    /// A settings service that starts from `default_config` and saves to `config_path`.
    pub fn new(default_config: AppConfig, config_path: String) -> (s: SettingsService)
        ensures
            s.config_view() == default_config,
            s.path_view() == config_path@,
    {
        SettingsService { config: default_config, config_path }
    }

    /// The path of the configuration file.
    pub fn config_path(&self) -> (p: &str)
        ensures
            p@ == self.path_view(),
    {
        self.config_path.as_str()
    }

    /// The current configuration.
    pub fn get_config(&self) -> (c: &AppConfig)
        ensures
            *c == self.config_view(),
    {
        &self.config
    }

    /// Replaces the configuration.
    pub fn update_config(&mut self, new_config: AppConfig)
        ensures
            final(self).config_view() == new_config,
            final(self).path_view() == old(self).path_view(),
    {
        self.config = new_config;
    }

    /// Adds a server; refused, with nothing changed, when a server with its id is already
    /// configured.
    pub fn add_server(&mut self, server: ServerConfig) -> (r: Result<(), SettingsError>)
        ensures
            final(self).path_view() == old(self).path_view(),
            final(self).config_view().active_server_id == old(self).config_view().active_server_id,
            final(self).config_view().sessions == old(self).config_view().sessions,
            final(self).config_view().preferences == old(self).config_view().preferences,
            match r {
                Ok(()) => !has_server(old(self).config_view().servers@, server.id@) && final(self).config_view().servers@
                    == old(self).config_view().servers@.push(server),
                Err(e) => e == SettingsError::ServerExists && has_server(old(self).config_view().servers@, server.id@)
                    && final(self).config_view().servers@ == old(self).config_view().servers@,
            },
    {
        match find_server(&self.config.servers, server.id.as_str()) {
            Some(_) => Err(SettingsError::ServerExists),
            None => {
                self.config.servers.push(server);
                Ok(())
            },
        }
    }

    /// Removes every server with id `server_id`, and clears the active server when it was
    /// that one.
    pub fn remove_server(&mut self, server_id: &str)
        ensures
            final(self).path_view() == old(self).path_view(),
            final(self).config_view().servers@ == old(self).config_view().servers@.filter(other_server(server_id@)),
            final(self).config_view().active_server_id == (match old(self).config_view().active_server_id {
                Some(a) => if a@ == server_id@ {
                    None
                } else {
                    Some(a)
                },
                None => None,
            }),
            final(self).config_view().sessions == old(self).config_view().sessions,
            final(self).config_view().preferences == old(self).config_view().preferences,
    {
        let ghost before = self.config.servers@;
        let ghost keep = other_server(server_id@);
        let mut kept: Vec<ServerConfig> = Vec::new();
        let mut servers: Vec<ServerConfig> = Vec::new();
        std::mem::swap(&mut servers, &mut self.config.servers);
        while servers.len() > 0
            invariant
                servers@.len() <= before.len(),
                servers@ == before.skip(before.len() - servers@.len()),
                keep == other_server(server_id@),
                kept@ == before.take(before.len() - servers@.len()).filter(keep),
            decreases servers@.len(),
        {
            let ghost i = before.len() - servers@.len();
            proof {
                assert(servers@[0] == before[i]);
                assert(before.take(i + 1).drop_last() =~= before.take(i));
                assert(before.take(i + 1).last() == before[i]);
                reveal_with_fuel(Seq::filter, 1);
                assert(before.take(i + 1).filter(keep) == if keep(before[i]) {
                    before.take(i).filter(keep).push(before[i])
                } else {
                    before.take(i).filter(keep)
                });
            }
            let s = servers.remove(0);
            proof {
                assert(servers@ =~= before.skip(i + 1));
            }
            if !same_text(s.id.as_str(), server_id) {
                kept.push(s);
            }
        }
        proof {
            assert(before.take(before.len() as int) =~= before);
        }
        self.config.servers = kept;
        let clear = match &self.config.active_server_id {
            Some(a) => same_text(a.as_str(), server_id),
            None => false,
        };
        if clear {
            self.config.active_server_id = None;
        }
    }

    /// Makes the server `server_id` the active one; refused, with nothing changed, when no
    /// server has that id.
    pub fn set_active_server(&mut self, server_id: String) -> (r: Result<(), SettingsError>)
        ensures
            final(self).path_view() == old(self).path_view(),
            final(self).config_view().servers == old(self).config_view().servers,
            final(self).config_view().sessions == old(self).config_view().sessions,
            final(self).config_view().preferences == old(self).config_view().preferences,
            match r {
                Ok(()) => has_server(old(self).config_view().servers@, server_id@)
                    && final(self).config_view().active_server_id == Some(server_id),
                Err(e) => e == SettingsError::ServerNotFound && !has_server(old(self).config_view().servers@, server_id@)
                    && final(self).config_view().active_server_id == old(self).config_view().active_server_id,
            },
    {
        match find_server(&self.config.servers, server_id.as_str()) {
            Some(i) => {
                proof {
                    assert(self.config.servers@[i as int].id@ == server_id@);
                }
                self.config.active_server_id = Some(server_id);
                Ok(())
            },
            None => Err(SettingsError::ServerNotFound),
        }
    }

    /// A copy of the first server whose id is the active server id, if there is an active
    /// server and such a server.
    pub fn get_active_server(&self) -> (r: Option<ServerConfig>)
        ensures
            match self.config_view().active_server_id {
                Some(a) => match first_server_with(self.config_view().servers@, a@) {
                    Some(i) => r matches Some(s) && same_server(s, self.config_view().servers@[i]),
                    None => r is None,
                },
                None => r is None,
            },
    {
        match &self.config.active_server_id {
            Some(a) => match find_server(&self.config.servers, a.as_str()) {
                Some(i) => Some(self.config.servers[i].clone()),
                None => None,
            },
            None => None,
        }
    }

    /// Keeps a session for a server, in place of the one kept before.
    pub fn save_session(&mut self, server_id: String, session: UserSession)
        requires
            old(self).config_view().wf(),
        ensures
            final(self).config_view().wf(),
            final(self).config_view().sessions_view() == old(self).config_view().sessions_view().insert(
                server_id@,
                session,
            ),
            final(self).config_view().servers == old(self).config_view().servers,
            final(self).config_view().active_server_id == old(self).config_view().active_server_id,
            final(self).config_view().preferences == old(self).config_view().preferences,
            final(self).path_view() == old(self).path_view(),
    {
        insert_value(&mut self.config.sessions, server_id, session);
    }

    /// A copy of the session kept for a server, if any.
    pub fn get_session(&self, server_id: &str) -> (r: Option<UserSession>)
        requires
            self.config_view().wf(),
        ensures
            r == (if self.config_view().sessions_view().contains_key(server_id@) {
                Some(self.config_view().sessions_view()[server_id@])
            } else {
                None
            }),
    {
        match get_value(&self.config.sessions, server_id) {
            Some(s) => Some(s.clone()),
            None => None,
        }
    }

    /// A copy of the session kept for the active server, if there is an active server and
    /// a session for it.
    pub fn get_active_session(&self) -> (r: Option<UserSession>)
        requires
            self.config_view().wf(),
        ensures
            r == match self.config_view().active_server_id {
                Some(a) => if self.config_view().sessions_view().contains_key(a@) {
                    Some(self.config_view().sessions_view()[a@])
                } else {
                    None
                },
                None => None,
            },
    {
        match &self.config.active_server_id {
            Some(a) => self.get_session(a.as_str()),
            None => None,
        }
    }

    /// Forgets the session kept for a server (signing out).
    pub fn clear_session(&mut self, server_id: &str)
        requires
            old(self).config_view().wf(),
        ensures
            final(self).config_view().wf(),
            final(self).config_view().sessions_view() == old(self).config_view().sessions_view().remove(server_id@),
            final(self).config_view().servers == old(self).config_view().servers,
            final(self).config_view().active_server_id == old(self).config_view().active_server_id,
            final(self).config_view().preferences == old(self).config_view().preferences,
            final(self).path_view() == old(self).path_view(),
    {
        remove_value(&mut self.config.sessions, server_id);
    }
}

/// Whether no two servers share an id.
pub open spec fn server_ids_distinct(servers: Seq<ServerConfig>) -> bool {
    forall|i: int, j: int|
        #![trigger servers[i], servers[j]]
        0 <= i < servers.len() && 0 <= j < servers.len() && i != j ==> servers[i].id@ != servers[j].id@
}

proof fn lemma_first_server_exists(servers: Seq<ServerConfig>, id: Seq<char>, i: int)
    requires
        0 <= i < servers.len(),
        servers[i].id@ == id,
    ensures
        first_server_with(servers, id) matches Some(k) && 0 <= k < servers.len() && servers[k].id@ == id,
    decreases i,
{
    if exists|j: int| 0 <= j < i && #[trigger] servers[j].id@ == id {
        let j = choose|j: int| 0 <= j < i && #[trigger] servers[j].id@ == id;
        lemma_first_server_exists(servers, id, j);
    } else {
        assert(forall|j: int| 0 <= j < i ==> #[trigger] servers[j].id@ != id);
        assert(has_server(servers, id));
    }
}

/// Once a server is made the active one, the active server is found: it is the first
/// server with that id.
pub proof fn law_set_active_is_found(servers: Seq<ServerConfig>, server_id: Seq<char>)
    requires
        has_server(servers, server_id),
    ensures
        first_server_with(servers, server_id) matches Some(k) && 0 <= k < servers.len() && servers[k].id@
            == server_id,
{
    let i = choose|i: int| 0 <= i < servers.len() && #[trigger] servers[i].id@ == server_id;
    lemma_first_server_exists(servers, server_id, i);
}

/// After a server is removed, no server has its id.
pub proof fn law_removed_server_is_gone(servers: Seq<ServerConfig>, server_id: Seq<char>)
    ensures
        !has_server(servers.filter(other_server(server_id)), server_id),
{
    let f = servers.filter(other_server(server_id));
    if has_server(f, server_id) {
        let i = choose|i: int| 0 <= i < f.len() && #[trigger] f[i].id@ == server_id;
        servers.lemma_filter_pred(other_server(server_id), i);
    }
}

/// Adding servers keeps their ids distinct: a server whose id is taken is refused.
pub proof fn law_add_server_keeps_ids_distinct(servers: Seq<ServerConfig>, server: ServerConfig)
    requires
        server_ids_distinct(servers),
        !has_server(servers, server.id@),
    ensures
        server_ids_distinct(servers.push(server)),
{
    let t = servers.push(server);
    assert forall|i: int, j: int| 0 <= i < t.len() && 0 <= j < t.len() && i != j implies #[trigger] t[i].id@
        != #[trigger] t[j].id@ by {
        if i < servers.len() && j < servers.len() {
            assert(t[i] == servers[i] && t[j] == servers[j]);
        } else if i < servers.len() {
            assert(t[i] == servers[i]);
        } else {
            assert(t[j] == servers[j]);
        }
    }
}

} // verus!
