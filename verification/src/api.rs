//! The two requests the client makes before it has a session: reading a server's public
//! information and signing a user in.
use vstd::prelude::*;
use crate::text::{concat, ends_with_char};

verus! {

/// Public information about a server, as it answers before sign-in.
#[derive(Debug, Clone)]
pub struct PublicServerInfo {
    pub id: String,
    pub server_name: String,
    pub version: String,
}

/// A user as the server describes it.
#[derive(Debug, Clone)]
pub struct User {
    pub id: String,
    pub name: String,
}

/// The answer to a successful sign-in.
#[derive(Debug, Clone)]
pub struct AuthResponse {
    pub user: User,
    pub access_token: String,
}

/// `base` followed by `path`, with a slash between them unless `base` already ends with one.
pub open spec fn endpoint(base: Seq<char>, path: Seq<char>) -> Seq<char> {
    if base.len() > 0 && base.last() == '/' { base + path } else { base + "/"@ + path }
}

fn endpoint_url(base: &str, path: &str) -> (s: String)
    ensures
        s@ == endpoint(base@, path@),
{
    if ends_with_char(base, '/') {
        concat(base, path)
    } else {
        crate::text::concat3(base, "/", path)
    }
}

/// The URL of a server's public information endpoint.
pub fn server_info_url(url: &str) -> (s: String)
    ensures
        s@ == endpoint(url@, "System/Info/Public"@),
{
    endpoint_url(url, "System/Info/Public")
}

/// The URL of a server's sign-in endpoint.
pub fn authenticate_url(url: &str) -> (s: String)
    ensures
        s@ == endpoint(url@, "Users/AuthenticateByName"@),
{
    endpoint_url(url, "Users/AuthenticateByName")
}

/// The authorization header of the client with device id `device_id`, with the access
/// token when there is one.
pub open spec fn auth_header_text(device_id: Seq<char>, access_token: Option<Seq<char>>) -> Seq<char> {
    let base = "MediaBrowser Client=\"Crabfin\", Device=\"Crabfin Client\", DeviceId=\""@ + device_id
        + "\", Version=\"0.1.0\""@;
    match access_token {
        Some(t) => base + ", Token=\""@ + t + "\""@,
        None => base,
    }
}

/// The characters of an optional text.
pub open spec fn opt_str(o: Option<&str>) -> Option<Seq<char>> {
    match o {
        Some(t) => Some(t@),
        None => None,
    }
}

/// The authorization header for a device id and an optional access token.
pub fn auth_header_for(device_id: &str, access_token: Option<&str>) -> (s: String)
    ensures
        s@ == auth_header_text(device_id@, opt_str(access_token)),
{
    let mut auth = concat("MediaBrowser Client=\"Crabfin\", Device=\"Crabfin Client\", DeviceId=\"", device_id);
    auth.append("\", Version=\"0.1.0\"");
    match access_token {
        Some(t) => {
            auth.append(", Token=\"");
            auth.append(t);
            auth.append("\"");
        },
        None => {},
    }
    auth
}

/// The authorization header for a fresh device id and an optional access token; `None`
/// when the system clock reads before 1970, where no device id can be made.
pub fn get_auth_header(access_token: Option<&str>) -> (s: Option<String>)
    ensures
        s matches Some(h) ==> exists|device_id: Seq<char>|
            h@ == #[trigger] auth_header_text(device_id, opt_str(access_token)),
{
    match crate::client::client::fresh_device_id() {
        Some(device_id) => Some(auth_header_for(device_id.as_str(), access_token)),
        None => None,
    }
}

} // verus!
