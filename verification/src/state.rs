//! Which screen the application shows, and the decisions that move between screens.
use vstd::prelude::*;
use crate::api::PublicServerInfo;
use crate::config::{Config, ConfigView, SavedUser, Server, ServerView, SavedUserView, has_user,
    server_position, users_view};
use crate::text::same_text;

verus! {

/// The screen shown.
#[derive(Debug, Clone, PartialEq, Eq)]
pub enum Screen {
    ServerList,
    AddServer,
    Login(String),
}

/// The application state: the configuration and the screen shown.
pub struct AppState {
    pub config: Config,
    pub screen: Screen,
}

impl AppState {
    /// The state for a loaded configuration: the list of servers, or the screen for adding
    /// one when there is none.
    pub fn from_config(config: Config) -> (s: AppState)
        ensures
            s.config == config,
            s.screen == (if config@.servers.len() == 0 { Screen::AddServer } else { Screen::ServerList }),
    {
        let screen = if config.servers.len() == 0 { Screen::AddServer } else { Screen::ServerList };
        AppState { config, screen }
    }
}

/// The view the application opens with.
#[derive(Debug)]
pub enum StartView {
    /// Choose a user of the active server; sign `auto_login` in directly when its token is found.
    UserSelection { server: Server, auto_login: Option<SavedUser> },
    /// No server is known yet.
    AddServer,
    /// Choose one of the known servers.
    ServerList,
}

/// `i` is the first position of `users` whose id is `user_id`.
pub open spec fn is_first_user(users: Seq<SavedUserView>, user_id: Seq<char>, i: int) -> bool {
    &&& 0 <= i < users.len()
    &&& users[i].user_id == user_id
    &&& forall|j: int| 0 <= j < i ==> users[j].user_id != user_id
}

/// The view that a configuration opens with, described abstractly: the active server with
/// the last user when it is saved there, else adding a server when none is known, else
/// the server list.
pub open spec fn start_view_matches(c: ConfigView, v: StartView) -> bool {
    match c.active_server() {
        Some(s) => v matches StartView::UserSelection { server, auto_login } && server@ == s && match c.last_connected_user_id {
            Some(uid) => if has_user(s.saved_users, uid) {
                auto_login matches Some(u) && (exists|i: int| is_first_user(s.saved_users, uid, i) && u@ == s.saved_users[i])
            } else {
                auto_login is None
            },
            None => auto_login is None,
        },
        None => if c.servers.len() == 0 { v is AddServer } else { v is ServerList },
    }
}

/// Decides the view the application opens with.
pub fn start_view(config: &Config) -> (v: StartView)
    ensures
        start_view_matches(config@, v),
{
    match config.get_active_server() {
        Some(server) => {
            let mut auto_login: Option<SavedUser> = None;
            match &config.last_connected_user_id {
                Some(uid) => {
                    let mut i: usize = 0;
                    while i < server.saved_users.len()
                        invariant
                            i <= server.saved_users.len(),
                            auto_login is None,
                            config@.active_server() == Some(server@),
                            config@.last_connected_user_id == Some(uid@),
                            forall|j: int| 0 <= j < i ==> server.saved_users@[j].user_id@ != uid@,
                        decreases server.saved_users.len() - i,
                    {
                        if server.saved_users[i].user_id == *uid {
                            let u = server.saved_users[i].clone();
                            proof {
                                assert(server@.saved_users[i as int] == server.saved_users@[i as int]@);
                                assert(u@ == server@.saved_users[i as int]);
                                assert forall|j: int| 0 <= j < i implies server@.saved_users[j].user_id != uid@ by {
                                    assert(server@.saved_users[j] == server.saved_users@[j]@);
                                }
                                assert(is_first_user(server@.saved_users, uid@, i as int));
                                assert(has_user(server@.saved_users, uid@));
                            }
                            let v = StartView::UserSelection { server: server.duplicate(), auto_login: Some(u) };
                            proof {
                                assert(config@.active_server() == Some(server@));
                                assert(config@.last_connected_user_id == Some(uid@));
                            }
                            return v;
                        }
                        i = i + 1;
                    }
                    proof {
                        assert forall|k: int| 0 <= k < server@.saved_users.len() implies server@.saved_users[k].user_id != uid@ by {
                            assert(server@.saved_users[k] == server.saved_users@[k]@);
                        }
                    }
                },
                None => {},
            }
            StartView::UserSelection { server: server.duplicate(), auto_login }
        },
        None => {
            if config.servers.len() == 0 {
                StartView::AddServer
            } else {
                StartView::ServerList
            }
        },
    }
}

/// Where to go back to from the sign-in view: the server list, or adding a server when no
/// server is known.
pub fn back_from_login(config: &Config) -> (s: Screen)
    ensures
        s == (if config@.servers.len() == 0 { Screen::AddServer } else { Screen::ServerList }),
{
    if config.servers.len() == 0 { Screen::AddServer } else { Screen::ServerList }
}

/// Whether some server has the URL `url`.
pub open spec fn has_url(servers: Seq<ServerView>, url: Seq<char>) -> bool {
    exists|i: int| 0 <= i < servers.len() && servers[i].url == url
}

/// `i` is the first position of `servers` whose URL is `url`.
pub open spec fn is_first_url(servers: Seq<ServerView>, url: Seq<char>, i: int) -> bool {
    &&& 0 <= i < servers.len()
    &&& servers[i].url == url
    &&& forall|j: int| 0 <= j < i ==> servers[j].url != url
}

/// The position of the first server with URL `url`.
pub fn find_server_by_url(config: &Config, url: &str) -> (r: Option<usize>)
    ensures
        match r {
            Some(i) => is_first_url(config@.servers, url@, i as int),
            None => !has_url(config@.servers, url@),
        },
{
    let mut i: usize = 0;
    while i < config.servers.len()
        invariant
            i <= config.servers.len(),
            forall|j: int| 0 <= j < i ==> config@.servers[j].url != url@,
        decreases config.servers.len() - i,
    {
        if same_text(config.servers[i].url.as_str(), url) {
            return Some(i);
        }
        i = i + 1;
    }
    None
}

/// Records a server whose public information was read from `url`: refused with "Server
/// already exists" when a server with that URL is known, else a server with the reported
/// id and name, that URL and no saved users is added at the end.
pub fn add_validated_server(config: &mut Config, info: &PublicServerInfo, url: &str) -> (r: Result<(), String>)
    ensures
        r is Err <==> has_url(old(config)@.servers, url@),
        r matches Err(m) ==> m@ == "Server already exists"@ && final(config)@ == old(config)@,
        r is Ok ==> final(config)@ == (ConfigView {
            servers: old(config)@.servers.push(ServerView {
                id: info.id@, name: info.server_name@, url: url@, saved_users: Seq::empty(),
            }),
            ..old(config)@
        }),
{
    match find_server_by_url(config, url) {
        Some(_) => Err(String::from_str("Server already exists")),
        None => {
            let server = Server {
                id: info.id.clone(),
                name: info.server_name.clone(),
                url: String::from_str(url),
                saved_users: Vec::new(),
            };
            proof {
                assert(users_view(server.saved_users@) =~= Seq::<SavedUserView>::empty());
            }
            config.add_server(server);
            Ok(())
        },
    }
}

/// After a successful sign-in at `url`: the server with that URL, after remembering the
/// user for it when `remember_me` is set; `None` (and nothing changed) when no server has
/// that URL.
pub fn record_login(config: &mut Config, url: &str, username: String, user_id: String, remember_me: bool) -> (r: Option<Server>)
    ensures
        !has_url(old(config)@.servers, url@) ==> r is None && final(config)@ == old(config)@,
        has_url(old(config)@.servers, url@) ==> exists|i: int| is_first_url(old(config)@.servers, url@, i) && {
            let id = old(config)@.servers[i].id;
            &&& final(config)@ == (if remember_me { old(config)@.add_saved_user(id, username@, user_id@) } else { old(config)@ })
            &&& r matches Some(s) && s@ == old(config)@.servers[i]
        },
{
    match find_server_by_url(config, url) {
        None => None,
        Some(i) => {
            let server = config.servers[i].duplicate();
            if remember_me {
                let id = config.servers[i].id.clone();
                config.add_saved_user(id.as_str(), username, user_id);
            }
            Some(server)
        },
    }
}

/// Forgets the first server with URL `url`; nothing changes when no server has it.
pub fn remove_server_by_url(config: &mut Config, url: &str)
    ensures
        !has_url(old(config)@.servers, url@) ==> final(config)@ == old(config)@,
        has_url(old(config)@.servers, url@) ==> exists|i: int| is_first_url(old(config)@.servers, url@, i)
            && final(config)@ == (ConfigView { servers: old(config)@.servers.remove(i), ..old(config)@ }),
{
    match find_server_by_url(config, url) {
        None => {},
        Some(i) => {
            let ghost before = config@;
            config.servers.remove(i);
            proof {
                assert(config@.servers =~= before.servers.remove(i as int));
            }
        },
    }
}

} // verus!
