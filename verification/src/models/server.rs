//! The client's record of a Jellyfin server and of the users configured for it.
use vstd::prelude::*;

verus! {

/// User configuration for a specific server.
#[derive(Debug)]
pub struct UserConfig {
    /// User ID on the server
    pub user_id: String,
    /// Username
    pub username: String,
    /// Whether to remember this user
    pub remember: bool,
}

/// Jellyfin server configuration.
#[derive(Debug)]
pub struct ServerConfig {
    /// Unique server identifier
    pub id: String,
    /// Server display name
    pub name: String,
    /// Server URL
    pub url: String,
    /// List of users configured for this server
    pub users: Vec<UserConfig>,
    /// Whether this server is currently active
    pub is_active: bool,
}

impl Clone for UserConfig {
    fn clone(&self) -> (r: Self)
        ensures
            r == *self,
    {
        UserConfig { user_id: self.user_id.clone(), username: self.username.clone(), remember: self.remember }
    }
}

impl Clone for ServerConfig {
    fn clone(&self) -> (r: Self)
        ensures
            r.id == self.id, r.name == self.name, r.url == self.url, r.users@ == self.users@,
            r.is_active == self.is_active,
    {
        let mut users: Vec<UserConfig> = Vec::new();
        let mut i: usize = 0;
        while i < self.users.len()
            invariant
                i <= self.users.len(),
                users@ == self.users@.take(i as int),
            decreases self.users.len() - i,
        {
            users.push(self.users[i].clone());
            proof {
                assert(users@ =~= self.users@.take(i + 1));
            }
            i = i + 1;
        }
        proof {
            assert(self.users@.take(self.users.len() as int) =~= self.users@);
        }
        ServerConfig {
            id: self.id.clone(),
            name: self.name.clone(),
            url: self.url.clone(),
            users,
            is_active: self.is_active,
        }
    }
}

impl ServerConfig {
    /// A server with no users that is not active.
    pub fn new(id: String, name: String, url: String) -> (r: ServerConfig)
        ensures
            r.id == id, r.name == name, r.url == url, r.users@.len() == 0, !r.is_active,
    {
        ServerConfig { id, name, url, users: Vec::new(), is_active: false }
    }
}

} // verus!
