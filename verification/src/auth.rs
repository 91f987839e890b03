//! Authentication and session management: the servers a user has signed in to, the
//! users known for each, their sessions and their access tokens.
use vstd::prelude::*;
use crate::utils::time::{now_utc, UtcTime};

pub mod session;
pub mod token;

verus! {

/// User configuration for a specific server.
#[derive(Debug, Clone)]
pub struct UserConfig {
    pub id: String,
    pub name: String,
    pub server_id: String,
    pub remember_login: bool,
    pub last_login: Option<UtcTime>,
}

/// Server configuration for authentication.
#[derive(Debug, Clone)]
pub struct ServerConfig {
    pub id: String,
    pub name: String,
    pub url: String,
    pub users: Vec<UserConfig>,
    pub last_used: Option<UtcTime>,
}

/// Whether a user is not the one with id `id`.
pub open spec fn other_user(id: Seq<char>) -> spec_fn(UserConfig) -> bool {
    |u: UserConfig| u.id@ != id
}

/// Whether user `u` has the id `id`.
pub open spec fn user_has_id(u: UserConfig, id: Seq<char>) -> bool {
    u.id@ == id
}

/// The first position of a user with id `id`, if any.
pub open spec fn first_user_with(users: Seq<UserConfig>, id: Seq<char>) -> Option<int> {
    if exists|i: int| 0 <= i < users.len() && #[trigger] user_has_id(users[i], id) {
        Some(
            choose|i: int|
                0 <= i < users.len() && #[trigger] user_has_id(users[i], id) && forall|j: int|
                    0 <= j < i ==> !#[trigger] user_has_id(users[j], id),
        )
    } else {
        None
    }
}

/// A user's clone is the same user.
fn copy_user(u: &UserConfig) -> (r: UserConfig)
    ensures
        r == *u,
{
    UserConfig {
        id: u.id.clone(),
        name: u.name.clone(),
        server_id: u.server_id.clone(),
        remember_login: u.remember_login,
        last_login: u.last_login,
    }
}

/// The first position of a user with id `id`, if any.
fn find_user(users: &Vec<UserConfig>, id: &str) -> (r: Option<usize>)
    ensures
        match r {
            Some(i) => i < users@.len() && users@[i as int].id@ == id@ && first_user_with(users@, id@) == Some(i as int),
            None => first_user_with(users@, id@) is None,
        },
{
    let mut i: usize = 0;
    while i < users.len()
        invariant
            i <= users@.len(),
            forall|j: int| 0 <= j < i ==> !#[trigger] user_has_id(users@[j], id@),
        decreases users@.len() - i,
    {
        if crate::text::same_text(users[i].id.as_str(), id) {
            proof {
                assert(user_has_id(users@[i as int], id@));
                let c = choose|c: int|
                    0 <= c < users@.len() && #[trigger] user_has_id(users@[c], id@) && forall|j: int|
                        0 <= j < c ==> !#[trigger] user_has_id(users@[j], id@);
                if c < i {
                } else if c > i {
                    assert(!user_has_id(users@[i as int], id@));
                }
            }
            return Some(i);
        }
        i = i + 1;
    }
    None
}

impl ServerConfig {
    /// A server with no users that has not been used yet.
    pub fn new(id: String, name: String, url: String) -> (r: ServerConfig)
        ensures
            r.id == id,
            r.name == name,
            r.url == url,
            r.users@.len() == 0,
            r.last_used is None,
    {
        ServerConfig { id, name, url, users: Vec::new(), last_used: None }
    }

    /// Adds a user, replacing any user with the same id: the others keep their order and
    /// the new user comes last.
    pub fn add_user(&mut self, user: UserConfig)
        ensures
            final(self).users@ == old(self).users@.filter(other_user(user.id@)).push(user),
            final(self).id == old(self).id,
            final(self).name == old(self).name,
            final(self).url == old(self).url,
            final(self).last_used == old(self).last_used,
    {
        let ghost before = self.users@;
        let ghost keep = other_user(user.id@);
        let mut kept: Vec<UserConfig> = Vec::new();
        let mut i: usize = 0;
        while i < self.users.len()
            invariant
                i <= self.users@.len(),
                self.users@ == before,
                keep == other_user(user.id@),
                kept@ == before.take(i as int).filter(keep),
            decreases self.users@.len() - i,
        {
            proof {
                assert(before.take(i + 1).drop_last() =~= before.take(i as int));
                assert(before.take(i + 1).last() == before[i as int]);
                reveal_with_fuel(Seq::filter, 1);
                assert(before.take(i + 1).filter(keep) == if keep(before[i as int]) {
                    before.take(i as int).filter(keep).push(before[i as int])
                } else {
                    before.take(i as int).filter(keep)
                });
            }
            if !crate::text::same_text(self.users[i].id.as_str(), user.id.as_str()) {
                let u = copy_user(&self.users[i]);
                kept.push(u);
            }
            i = i + 1;
        }
        proof {
            assert(before.take(before.len() as int) =~= before);
        }
        kept.push(user);
        self.users = kept;
    }

    /// The first user with id `user_id`, if any.
    pub fn get_user(&self, user_id: &str) -> (r: Option<&UserConfig>)
        ensures
            match first_user_with(self.users@, user_id@) {
                Some(i) => r == Some(&self.users@[i]),
                None => r is None,
            },
    {
        match find_user(&self.users, user_id) {
            Some(i) => Some(&self.users[i]),
            None => None,
        }
    }

    /// Takes out the first user with id `user_id`, if any, and hands it back.
    pub fn remove_user(&mut self, user_id: &str) -> (r: Option<UserConfig>)
        ensures
            match first_user_with(old(self).users@, user_id@) {
                Some(i) => r == Some(old(self).users@[i]) && final(self).users@ == old(self).users@.remove(i),
                None => r is None && final(self).users@ == old(self).users@,
            },
            final(self).id == old(self).id,
            final(self).last_used == old(self).last_used,
    {
        match find_user(&self.users, user_id) {
            Some(i) => Some(self.users.remove(i)),
            None => None,
        }
    }

    /// Records that the server was used at `now`.
    pub fn update_last_used_at(&mut self, now: UtcTime)
        ensures
            *final(self) == (ServerConfig { last_used: Some(now), ..*old(self) }),
    {
        self.last_used = Some(now);
    }

    /// Records that the server was used now, by the system clock.
    pub fn update_last_used(&mut self)
        ensures
            final(self).last_used matches Some(t) && t.valid(),
            *final(self) == (ServerConfig { last_used: final(self).last_used, ..*old(self) }),
    {
        let now = now_utc();
        self.update_last_used_at(now);
    }
}

impl UserConfig {
    /// A user who does not ask to be remembered and has not logged in yet.
    pub fn new(id: String, name: String, server_id: String) -> (r: UserConfig)
        ensures
            r == (UserConfig { id, name, server_id, remember_login: false, last_login: None }),
    {
        UserConfig { id, name, server_id, remember_login: false, last_login: None }
    }

    /// Records a login at `now`.
    pub fn update_last_login_at(&mut self, now: UtcTime)
        ensures
            *final(self) == (UserConfig { last_login: Some(now), ..*old(self) }),
    {
        self.last_login = Some(now);
    }

    /// Records a login now, by the system clock.
    pub fn update_last_login(&mut self)
        ensures
            final(self).last_login matches Some(t) && t.valid(),
            *final(self) == (UserConfig { last_login: final(self).last_login, ..*old(self) }),
    {
        let now = now_utc();
        self.update_last_login_at(now);
    }
}

/// Adding a user leaves exactly one user with its id, the added one, at the end; every
/// other user stays, in order.
pub proof fn law_add_user_replaces(users: Seq<UserConfig>, user: UserConfig)
    ensures
        ({
            let after = users.filter(other_user(user.id@)).push(user);
            &&& after.last() == user
            &&& forall|i: int| 0 <= i < after.len() - 1 ==> #[trigger] after[i].id@ != user.id@
            &&& forall|i: int|
                0 <= i < users.len() && users[i].id@ != user.id@ ==> after.contains(#[trigger] users[i])
        }),
{
    let kept = users.filter(other_user(user.id@));
    let after = kept.push(user);
    assert forall|i: int| 0 <= i < after.len() - 1 implies #[trigger] after[i].id@ != user.id@ by {
        assert(after[i] == kept[i]);
        users.lemma_filter_pred(other_user(user.id@), i);
    }
    assert forall|i: int| 0 <= i < users.len() && users[i].id@ != user.id@ implies after.contains(
        #[trigger] users[i],
    ) by {
        users.lemma_filter_contains(other_user(user.id@), i);
        let j = choose|j: int| 0 <= j < kept.len() && kept[j] == users[i];
        assert(after[j] == users[i]);
    }
}

} // verus!
