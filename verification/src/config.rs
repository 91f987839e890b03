//! Saved servers, saved users and the active selection, as stored in the
//! client's configuration file.
use vstd::prelude::*;

verus! {

/// A user whose login is remembered for a server.
#[derive(Debug, PartialEq, Eq)]
pub struct SavedUser {
    pub username: String,
    pub user_id: String,
}

/// A Jellyfin server the client knows about.
#[derive(Debug, Clone, PartialEq, Eq)]
pub struct Server {
    pub id: String,
    pub name: String,
    pub url: String,
    pub saved_users: Vec<SavedUser>,
}

/// The client's persistent configuration.
#[derive(Debug, Clone)]
pub struct Config {
    pub servers: Vec<Server>,
    pub active_server_id: Option<String>,
    pub last_connected_user_id: Option<String>,
}

/// The abstract value of a [`SavedUser`].
pub struct SavedUserView {
    pub username: Seq<char>,
    pub user_id: Seq<char>,
}

/// The abstract value of a [`Server`].
pub struct ServerView {
    pub id: Seq<char>,
    pub name: Seq<char>,
    pub url: Seq<char>,
    pub saved_users: Seq<SavedUserView>,
}

/// The abstract value of a [`Config`].
pub struct ConfigView {
    pub servers: Seq<ServerView>,
    pub active_server_id: Option<Seq<char>>,
    pub last_connected_user_id: Option<Seq<char>>,
}

/// The characters of an optional string.
pub open spec fn opt_text(o: Option<String>) -> Option<Seq<char>> {
    match o {
        Some(s) => Some(s@),
        None => None,
    }
}

impl View for SavedUser {
    type V = SavedUserView;

    open spec fn view(&self) -> SavedUserView {
        SavedUserView { username: self.username@, user_id: self.user_id@ }
    }
}

/// The abstract values of a sequence of saved users.
pub open spec fn users_view(users: Seq<SavedUser>) -> Seq<SavedUserView> {
    users.map_values(|u: SavedUser| u@)
}

impl View for Server {
    type V = ServerView;

    open spec fn view(&self) -> ServerView {
        ServerView {
            id: self.id@,
            name: self.name@,
            url: self.url@,
            saved_users: users_view(self.saved_users@),
        }
    }
}

/// The abstract values of a sequence of servers.
pub open spec fn servers_view(servers: Seq<Server>) -> Seq<ServerView> {
    servers.map_values(|s: Server| s@)
}

impl View for Config {
    type V = ConfigView;

    open spec fn view(&self) -> ConfigView {
        ConfigView {
            servers: servers_view(self.servers@),
            active_server_id: opt_text(self.active_server_id),
            last_connected_user_id: opt_text(self.last_connected_user_id),
        }
    }
}

/// `i` is the first position of `servers` whose id is `id`.
pub open spec fn is_first_server(servers: Seq<ServerView>, id: Seq<char>, i: int) -> bool {
    &&& 0 <= i < servers.len()
    &&& servers[i].id == id
    &&& forall|j: int| 0 <= j < i ==> servers[j].id != id
}

/// The position of the first server whose id is `id`, if any.
pub open spec fn server_position(servers: Seq<ServerView>, id: Seq<char>) -> Option<int> {
    if exists|i: int| is_first_server(servers, id, i) {
        Some(choose|i: int| is_first_server(servers, id, i))
    } else {
        None
    }
}

/// Whether some user in `users` has the id `user_id`.
pub open spec fn has_user(users: Seq<SavedUserView>, user_id: Seq<char>) -> bool {
    exists|k: int| 0 <= k < users.len() && users[k].user_id == user_id
}

/// `users` without those whose id is `user_id`, in their order.
pub open spec fn without_user(users: Seq<SavedUserView>, user_id: Seq<char>) -> Seq<SavedUserView>
    decreases users.len(),
{
    if users.len() == 0 {
        users
    } else {
        let rest = without_user(users.drop_last(), user_id);
        if users.last().user_id == user_id {
            rest
        } else {
            rest.push(users.last())
        }
    }
}

/// No two users in `users` share an id.
pub open spec fn distinct_user_ids(users: Seq<SavedUserView>) -> bool {
    forall|a: int, b: int|
        0 <= a < users.len() && 0 <= b < users.len() && a != b ==> users[a].user_id != users[b].user_id
}

impl ServerView {
    /// This server with `users` in place of its saved users.
    pub open spec fn with_users(self, users: Seq<SavedUserView>) -> ServerView {
        ServerView { saved_users: users, ..self }
    }
}

impl ConfigView {
    /// The configuration in which every field is empty.
    pub open spec fn empty() -> ConfigView {
        ConfigView { servers: Seq::empty(), active_server_id: None, last_connected_user_id: None }
    }

    /// The server that `active_server_id` names, if it is in the list.
    pub open spec fn active_server(self) -> Option<ServerView> {
        match self.active_server_id {
            None => None,
            Some(id) => match server_position(self.servers, id) {
                Some(i) => Some(self.servers[i]),
                None => None,
            },
        }
    }

    /// The configuration after remembering `username`/`user_id` for the server `server_id`.
    pub open spec fn add_saved_user(self, server_id: Seq<char>, username: Seq<char>, user_id: Seq<char>) -> ConfigView {
        match server_position(self.servers, server_id) {
            None => self,
            Some(i) => if has_user(self.servers[i].saved_users, user_id) {
                self
            } else {
                ConfigView {
                    servers: self.servers.update(i, self.servers[i].with_users(
                        self.servers[i].saved_users.push(SavedUserView { username, user_id }),
                    )),
                    ..self
                }
            },
        }
    }

    /// The configuration after forgetting the user `user_id` of the server `server_id`.
    pub open spec fn remove_saved_user(self, server_id: Seq<char>, user_id: Seq<char>) -> ConfigView {
        match server_position(self.servers, server_id) {
            None => self,
            Some(i) => ConfigView {
                servers: self.servers.update(i, self.servers[i].with_users(
                    without_user(self.servers[i].saved_users, user_id),
                )),
                ..self
            },
        }
    }

    /// The users remembered for the server `server_id` (none when it is unknown).
    pub open spec fn saved_users_of(self, server_id: Seq<char>) -> Seq<SavedUserView> {
        match server_position(self.servers, server_id) {
            None => Seq::empty(),
            Some(i) => self.servers[i].saved_users,
        }
    }
}

proof fn lemma_first_unique(servers: Seq<ServerView>, id: Seq<char>, i: int)
    requires
        is_first_server(servers, id, i),
    ensures
        server_position(servers, id) == Some(i),
{
    let c = choose|k: int| is_first_server(servers, id, k);
    assert(is_first_server(servers, id, c));
    if c < i {
        assert(servers[c].id != id);
    }
    if i < c {
        assert(servers[i].id != id);
    }
}

proof fn lemma_no_match(servers: Seq<ServerView>, id: Seq<char>)
    requires
        forall|j: int| 0 <= j < servers.len() ==> servers[j].id != id,
    ensures
        server_position(servers, id) is None,
{
}

proof fn lemma_position_after_update(servers: Seq<ServerView>, id: Seq<char>, i: int, s: ServerView)
    requires
        0 <= i < servers.len(),
        s.id == servers[i].id,
    ensures
        server_position(servers.update(i, s), id) == server_position(servers, id),
{
    let t = servers.update(i, s);
    assert forall|j: int| 0 <= j < servers.len() implies t[j].id == servers[j].id by {}
    if exists|k: int| is_first_server(servers, id, k) {
        let k = choose|k: int| is_first_server(servers, id, k);
        assert(is_first_server(t, id, k));
        lemma_first_unique(t, id, k);
    } else {
        if exists|k: int| is_first_server(t, id, k) {
            let k = choose|k: int| is_first_server(t, id, k);
            assert(is_first_server(servers, id, k));
        }
    }
}

proof fn lemma_without_absent(users: Seq<SavedUserView>, user_id: Seq<char>)
    requires
        !has_user(users, user_id),
    ensures
        without_user(users, user_id) == users,
    decreases users.len(),
{
    if users.len() > 0 {
        assert(!has_user(users.drop_last(), user_id)) by {
            if has_user(users.drop_last(), user_id) {
                let k = choose|k: int| 0 <= k < users.drop_last().len() && users.drop_last()[k].user_id == user_id;
                assert(users[k].user_id == user_id);
            }
        }
        lemma_without_absent(users.drop_last(), user_id);
        assert(users.last().user_id != user_id) by {
            if users.last().user_id == user_id {
                assert(users[users.len() - 1].user_id == user_id);
            }
        }
        assert(users.drop_last().push(users.last()) =~= users);
    }
}

proof fn lemma_without_has_none(users: Seq<SavedUserView>, user_id: Seq<char>)
    ensures
        !has_user(without_user(users, user_id), user_id),
    decreases users.len(),
{
    if users.len() > 0 {
        lemma_without_has_none(users.drop_last(), user_id);
        let rest = without_user(users.drop_last(), user_id);
        if users.last().user_id != user_id {
            if has_user(rest.push(users.last()), user_id) {
                let k = choose|k: int| 0 <= k < rest.push(users.last()).len() && rest.push(users.last())[k].user_id == user_id;
                if k < rest.len() {
                    assert(rest[k].user_id == user_id);
                }
            }
        }
    }
}

/// Remembering a user that is already remembered for a server changes nothing: adding
/// the same user id twice gives the configuration that adding it once gives.
pub proof fn law_add_saved_user_idempotent(
    c: ConfigView,
    server_id: Seq<char>,
    username: Seq<char>,
    again_name: Seq<char>,
    user_id: Seq<char>,
)
    ensures
        c.add_saved_user(server_id, username, user_id).add_saved_user(server_id, again_name, user_id)
            == c.add_saved_user(server_id, username, user_id),
{
    let once = c.add_saved_user(server_id, username, user_id);
    match server_position(c.servers, server_id) {
        None => {},
        Some(i) => {
            if !has_user(c.servers[i].saved_users, user_id) {
                let s = c.servers[i].with_users(c.servers[i].saved_users.push(SavedUserView { username, user_id }));
                lemma_position_after_update(c.servers, server_id, i, s);
                let us = once.servers[i].saved_users;
                assert(us[us.len() - 1].user_id == user_id);
            }
        },
    }
}

/// After a user is remembered for a known server, that server's saved users hold a user
/// with that id.
pub proof fn law_saved_user_present_after_add(
    c: ConfigView,
    server_id: Seq<char>,
    username: Seq<char>,
    user_id: Seq<char>,
)
    requires
        server_position(c.servers, server_id) is Some,
    ensures
        has_user(c.add_saved_user(server_id, username, user_id).saved_users_of(server_id), user_id),
{
    let i = server_position(c.servers, server_id)->0;
    if !has_user(c.servers[i].saved_users, user_id) {
        let s = c.servers[i].with_users(c.servers[i].saved_users.push(SavedUserView { username, user_id }));
        lemma_position_after_update(c.servers, server_id, i, s);
        let us = s.saved_users;
        assert(us[us.len() - 1].user_id == user_id);
    }
}

/// After a user is forgotten for a server, no saved user of that server has its id.
pub proof fn law_removed_user_absent(c: ConfigView, server_id: Seq<char>, user_id: Seq<char>)
    ensures
        !has_user(c.remove_saved_user(server_id, user_id).saved_users_of(server_id), user_id),
{
    match server_position(c.servers, server_id) {
        None => {},
        Some(i) => {
            let s = c.servers[i].with_users(without_user(c.servers[i].saved_users, user_id));
            lemma_position_after_update(c.servers, server_id, i, s);
            lemma_without_has_none(c.servers[i].saved_users, user_id);
        },
    }
}

/// Forgetting a user that was just remembered, and was not remembered before, gives back
/// the configuration one started from.
pub proof fn law_remove_undoes_add(c: ConfigView, server_id: Seq<char>, username: Seq<char>, user_id: Seq<char>)
    requires
        !has_user(c.saved_users_of(server_id), user_id),
    ensures
        c.add_saved_user(server_id, username, user_id).remove_saved_user(server_id, user_id) == c,
{
    match server_position(c.servers, server_id) {
        None => {},
        Some(i) => {
            let old_users = c.servers[i].saved_users;
            let new_users = old_users.push(SavedUserView { username, user_id });
            let s = c.servers[i].with_users(new_users);
            lemma_position_after_update(c.servers, server_id, i, s);
            let once = c.add_saved_user(server_id, username, user_id);
            assert(new_users.drop_last() =~= old_users);
            lemma_without_absent(old_users, user_id);
            assert(without_user(new_users, user_id) == old_users);
            let back = once.remove_saved_user(server_id, user_id);
            assert(back.servers =~= c.servers);
        },
    }
}

/// Remembering users never makes two saved users of a server share an id.
pub proof fn law_add_keeps_user_ids_distinct(
    c: ConfigView,
    server_id: Seq<char>,
    username: Seq<char>,
    user_id: Seq<char>,
    other_id: Seq<char>,
)
    requires
        distinct_user_ids(c.saved_users_of(other_id)),
    ensures
        distinct_user_ids(c.add_saved_user(server_id, username, user_id).saved_users_of(other_id)),
{
    match server_position(c.servers, server_id) {
        None => {},
        Some(i) => {
            if !has_user(c.servers[i].saved_users, user_id) {
                let old_users = c.servers[i].saved_users;
                let new_users = old_users.push(SavedUserView { username, user_id });
                let s = c.servers[i].with_users(new_users);
                lemma_position_after_update(c.servers, server_id, i, s);
                lemma_position_after_update(c.servers, other_id, i, s);
                if server_position(c.servers, other_id) == Some(i) {
                    assert forall|a: int, b: int|
                        0 <= a < new_users.len() && 0 <= b < new_users.len() && a != b
                        implies new_users[a].user_id != new_users[b].user_id by {
                        if a < old_users.len() && b < old_users.len() {
                        } else if a == old_users.len() {
                            assert(old_users[b].user_id != user_id);
                        } else {
                            assert(old_users[a].user_id != user_id);
                        }
                    }
                }
            }
        },
    }
}

/// Clearing the active server leaves no active server.
pub proof fn law_clear_leaves_no_active_server(c: ConfigView)
    ensures
        (ConfigView { active_server_id: None, last_connected_user_id: None, ..c }).active_server() is None,
{
}

/// Making a known server active makes it the server that the configuration reports as
/// active (the first one with that id).
pub proof fn law_set_active_selects_server(c: ConfigView, server_id: Seq<char>)
    requires
        server_position(c.servers, server_id) is Some,
    ensures
        (ConfigView { active_server_id: Some(server_id), ..c }).active_server()
            == Some(c.servers[server_position(c.servers, server_id)->0]),
        (ConfigView { active_server_id: Some(server_id), ..c }).active_server()->0.id == server_id,
{
    let i = server_position(c.servers, server_id)->0;
    let k = choose|k: int| is_first_server(c.servers, server_id, k);
    assert(is_first_server(c.servers, server_id, k));
}

impl Clone for SavedUser {
    fn clone(&self) -> (r: Self)
        ensures
            r == *self,
    {
        SavedUser { username: self.username.clone(), user_id: self.user_id.clone() }
    }
}

impl Server {
    /// A copy of this server with the same value.
    pub fn duplicate(&self) -> (r: Server)
        ensures
            r@ == self@,
    {
        Server {
            id: self.id.clone(),
            name: self.name.clone(),
            url: self.url.clone(),
            saved_users: copy_users(&self.saved_users),
        }
    }
}

/// A copy of a list of saved users.
fn copy_users(users: &Vec<SavedUser>) -> (r: Vec<SavedUser>)
    ensures
        users_view(r@) == users_view(users@),
{
    let mut r: Vec<SavedUser> = Vec::new();
    let mut i: usize = 0;
    while i < users.len()
        invariant
            i <= users.len(),
            r@ == users@.take(i as int),
        decreases users.len() - i,
    {
        r.push(users[i].clone());
        proof {
            assert(r@ =~= users@.take(i + 1));
        }
        i = i + 1;
    }
    proof {
        assert(users@.take(users.len() as int) =~= users@);
    }
    r
}

impl Config {
    /// An empty configuration: no servers, nothing active.
    pub fn new() -> (c: Config)
        ensures
            c@ == ConfigView::empty(),
    {
        let c = Config { servers: Vec::new(), active_server_id: None, last_connected_user_id: None };
        proof {
            assert(c@.servers =~= Seq::<ServerView>::empty());
        }
        c
    }

    /// The position of the first server whose id is `id`.
    pub fn find_server(&self, id: &str) -> (r: Option<usize>)
        ensures
            match r {
                Some(i) => server_position(self@.servers, id@) == Some(i as int),
                None => server_position(self@.servers, id@) is None,
            },
    {
        let mut i: usize = 0;
        while i < self.servers.len()
            invariant
                i <= self.servers.len(),
                forall|j: int| 0 <= j < i ==> self@.servers[j].id != id@,
            decreases self.servers.len() - i,
        {
            if crate::text::same_text(self.servers[i].id.as_str(), id) {
                proof {
                    lemma_first_unique(self@.servers, id@, i as int);
                }
                return Some(i);
            }
            i = i + 1;
        }
        proof {
            lemma_no_match(self@.servers, id@);
        }
        None
    }

    /// Adds a server at the end of the list.
    pub fn add_server(&mut self, server: Server)
        ensures
            final(self)@ == (ConfigView { servers: old(self)@.servers.push(server@), ..old(self)@ }),
    {
        self.servers.push(server);
        proof {
            assert(final(self)@.servers =~= old(self)@.servers.push(server@));
        }
    }

    /// The server that the active id names, if it is in the list.
    pub fn get_active_server(&self) -> (r: Option<&Server>)
        ensures
            match r {
                Some(s) => self@.active_server() == Some(s@),
                None => self@.active_server() is None,
            },
    {
        match &self.active_server_id {
            None => None,
            Some(id) => match self.find_server(id.as_str()) {
                Some(i) => Some(&self.servers[i]),
                None => None,
            },
        }
    }

    /// Makes `server_id` the active server.
    pub fn set_active_server(&mut self, server_id: String)
        ensures
            final(self)@ == (ConfigView { active_server_id: Some(server_id@), ..old(self)@ }),
    {
        self.active_server_id = Some(server_id);
    }

    /// Records the user that connected last.
    pub fn set_last_connected_user(&mut self, user_id: String)
        ensures
            final(self)@ == (ConfigView { last_connected_user_id: Some(user_id@), ..old(self)@ }),
    {
        self.last_connected_user_id = Some(user_id);
    }

    /// Forgets the active server and the user that connected last.
    pub fn clear_active_server(&mut self)
        ensures
            final(self)@ == (ConfigView { active_server_id: None, last_connected_user_id: None, ..old(self)@ }),
    {
        self.active_server_id = None;
        self.last_connected_user_id = None;
    }

    /// Forgets the user that connected last.
    pub fn clear_last_connected_user(&mut self)
        ensures
            final(self)@ == (ConfigView { last_connected_user_id: None, ..old(self)@ }),
    {
        self.last_connected_user_id = None;
    }

    /// Remembers a user for the first server whose id is `server_id`, unless a user with
    /// that id is already remembered there; does nothing when no server has that id.
    pub fn add_saved_user(&mut self, server_id: &str, username: String, user_id: String)
        ensures
            final(self)@ == old(self)@.add_saved_user(server_id@, username@, user_id@),
    {
        match self.find_server(server_id) {
            None => {},
            Some(i) => {
                let mut found = false;
                let mut k: usize = 0;
                while k < self.servers[i].saved_users.len()
                    invariant
                        i < self.servers.len(),
                        k <= self.servers[i as int].saved_users.len(),
                        found == (exists|m: int|
                            0 <= m < k && self.servers[i as int].saved_users@[m].user_id@ == user_id@),
                    decreases self.servers[i as int].saved_users.len() - k,
                {
                    if self.servers[i].saved_users[k].user_id == user_id {
                        found = true;
                    }
                    k = k + 1;
                }
                let ghost before = self@;
                proof {
                    let us = before.servers[i as int].saved_users;
                    if found {
                        let m = choose|m: int|
                            0 <= m < k && self.servers[i as int].saved_users@[m].user_id@ == user_id@;
                        assert(us[m].user_id == user_id@);
                    } else {
                        assert forall|m: int| 0 <= m < us.len() implies us[m].user_id != user_id@ by {
                            assert(us[m] == self.servers[i as int].saved_users@[m]@);
                        }
                    }
                }
                if !found {
                    let ghost uname = username@;
                    let ghost uid = user_id@;
                    self.servers[i].saved_users.push(SavedUser { username, user_id });
                    proof {
                        let after = self@;
                        let expected = before.add_saved_user(server_id@, uname, uid);
                        assert(after.servers[i as int].saved_users
                            =~= before.servers[i as int].saved_users.push(SavedUserView { username: uname, user_id: uid }));
                        assert(after.servers =~= expected.servers);
                    }
                }
            },
        }
    }

    /// Forgets every user with id `user_id` of the first server whose id is `server_id`.
    pub fn remove_saved_user(&mut self, server_id: &str, user_id: &str)
        ensures
            final(self)@ == old(self)@.remove_saved_user(server_id@, user_id@),
    {
        match self.find_server(server_id) {
            None => {},
            Some(i) => {
                let ghost before = self@;
                let mut kept: Vec<SavedUser> = Vec::new();
                let mut k: usize = 0;
                while k < self.servers[i].saved_users.len()
                    invariant
                        i < self.servers.len(),
                        self@ == before,
                        k <= self.servers[i as int].saved_users.len(),
                        users_view(kept@) == without_user(users_view(self.servers[i as int].saved_users@.take(k as int)), user_id@),
                    decreases self.servers[i as int].saved_users.len() - k,
                {
                    let ghost us = self.servers[i as int].saved_users@;
                    proof {
                        assert(us.take(k + 1).drop_last() =~= us.take(k as int));
                        assert(users_view(us.take(k + 1)).drop_last() =~= users_view(us.take(k as int)));
                        assert(users_view(us.take(k + 1)).last() == us[k as int]@);
                    }
                    if !crate::text::same_text(self.servers[i].saved_users[k].user_id.as_str(), user_id) {
                        kept.push(self.servers[i].saved_users[k].clone());
                        proof {
                            assert(users_view(kept@) =~= without_user(users_view(us.take(k as int)), user_id@).push(us[k as int]@));
                        }
                    }
                    k = k + 1;
                }
                proof {
                    let us = self.servers[i as int].saved_users@;
                    assert(us.take(us.len() as int) =~= us);
                }
                self.servers[i].saved_users = kept;
                proof {
                    let expected = before.remove_saved_user(server_id@, user_id@);
                    assert(self@.servers =~= expected.servers);
                }
            },
        }
    }

    /// Copies of the users remembered for the first server whose id is `server_id`.
    pub fn get_saved_users(&self, server_id: &str) -> (r: Vec<SavedUser>)
        ensures
            users_view(r@) == self@.saved_users_of(server_id@),
    {
        match self.find_server(server_id) {
            None => {
                let r: Vec<SavedUser> = Vec::new();
                proof {
                    assert(users_view(r@) =~= Seq::<SavedUserView>::empty());
                }
                r
            },
            Some(i) => copy_users(&self.servers[i].saved_users),
        }
    }
}

impl Default for Config {
    /// The configuration with no servers, no active server and no last user.
    fn default() -> (c: Config)
        ensures
            c@ == ConfigView::empty(),
    {
        Config::new()
    }
}

} // verus!
