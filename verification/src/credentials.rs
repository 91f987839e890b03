//! Where a user's access token is kept in the system keyring.
use vstd::prelude::*;

verus! {

/// The label of the keyring items that hold access tokens.
pub const KEYRING_LABEL: &'static str = "crabfin-jellyfin-token";

/// The keyring key of the token of user `user_id` on the server at `server_url`.
pub fn get_token_key(server_url: &str, user_id: &str) -> (k: String)
    ensures
        k@ == server_url@ + "::"@ + user_id@,
{
    crate::text::concat3(server_url, "::", user_id)
}

} // verus!
