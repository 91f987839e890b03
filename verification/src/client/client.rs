//! A Jellyfin client's identity and connection settings: its device id, the server URL it
//! talks to, its access token, and the URLs and headers of its requests.
//!
//! Sending the requests is the application's part: it uses the client's HTTP transport
//! with the URLs and headers built here.
use vstd::prelude::*;
use crate::config::opt_text;
use crate::text::{concat, concat3, has_prefix, starts_with, trim, trim_end_char, trim_end_matches_char,
    trim_start_char, trim_start_matches_char, trim_white};
use super::error::CrabfinError;
use super::http::{build_http_client, DEFAULT_TIMEOUT_SECS};

verus! {

/// The result of parsing a text as a URL: `None` when it parses, else the parser's
/// description of the problem.
pub uninterp spec fn url_parse_error(s: Seq<char>) -> Option<Seq<char>>;

/// Parses a text as a URL (`reqwest::Url::parse`) and reports whether it is one.
#[verifier::external_body]
fn check_url(s: &str) -> (r: Result<(), String>)
    ensures
        match r {
            Ok(()) => url_parse_error(s@) is None,
            Err(m) => url_parse_error(s@) == Some(m@),
        },
{
    match reqwest::Url::parse(s) {
        Ok(_) => Ok(()),
        Err(e) => Err(e.to_string()),
    }
}

/// The outcome of normalizing an address, given the normalized text and what the URL
/// parser made of it: the text when it parsed, else an invalid-URL error that carries the
/// parser's description.
pub fn url_check_result(normalized: String, parsed: Result<(), String>) -> (r: Result<String, CrabfinError>)
    ensures
        match parsed {
            Ok(()) => r matches Ok(u) && u@ == normalized@,
            Err(e) => r matches Err(CrabfinError::InvalidUrl(m)) && m@ == "Invalid URL format: "@ + e@,
        },
{
    match parsed {
        Ok(()) => Ok(normalized),
        Err(e) => Err(CrabfinError::InvalidUrl(concat("Invalid URL format: ", e.as_str()))),
    }
}

/// A fresh collision-resistant identifier (`cuid2::create_id`).
///
/// `create_id` reads the system clock itself and panics when it reads before 1970; the
/// library calls it only from `fresh_device_id`, right after it has found the clock at or
/// after the epoch.
#[verifier::external_body]
fn new_device_id() -> (id: String) {
    cuid2::create_id()
}

/// A fresh device id, or `None` when the system clock reads before 1970, where no id can
/// be made. Nothing is stated of the id, which is random.
pub(crate) fn fresh_device_id() -> Option<String> {
    let now = crate::utils::system_time_now();
    match crate::utils::offset_from_epoch(&now) {
        Ok(_) => Some(new_device_id()),
        Err(_) => None,
    }
}

/// The message of the error for a system clock set before 1970.
pub open spec fn clock_error_text() -> Seq<char> {
    "System clock is set before 1970"@
}

/// Whether a character may appear in an HTTP header value: visible characters, space,
/// tab, and any character outside ASCII.
pub open spec fn header_char(c: char) -> bool {
    (c >= ' ' && c != '\u{7f}') || c == '\t'
}

/// Whether a text may be an HTTP header value.
pub open spec fn header_safe(s: Seq<char>) -> bool {
    forall|i: int| 0 <= i < s.len() ==> header_char(#[trigger] s[i])
}

/// Whether a text may be an HTTP header value (the rule of `HeaderValue::from_str`).
pub fn is_header_safe(s: &str) -> (b: bool)
    ensures
        b == header_safe(s@),
{
    let n = s.unicode_len();
    let mut i: usize = 0;
    while i < n
        invariant
            n == s@.len(),
            i <= n,
            forall|j: int| 0 <= j < i ==> header_char(#[trigger] s@[j]),
        decreases n - i,
    {
        let c = s.get_char(i);
        if !((c >= ' ' && c != '\u{7f}') || c == '\t') {
            return false;
        }
        i = i + 1;
    }
    true
}

/// The URL a server address stands for: trimmed, given `http://` when it has no
/// `http://` or `https://` scheme, and without trailing slashes.
pub open spec fn normalized_url(url: Seq<char>) -> Seq<char> {
    let t = trim_white(url);
    let with_scheme = if has_prefix(t, "http://"@) || has_prefix(t, "https://"@) { t } else { "http://"@ + t };
    trim_end_char(with_scheme, '/')
}

/// The identification value of the authorization header, with the token when there is one.
pub open spec fn authorization_text(name: Seq<char>, device_id: Seq<char>, version: Seq<char>, token: Option<Seq<char>>) -> Seq<char> {
    let base = "MediaBrowser Client=\""@ + name + "\", Device=\""@ + name + "\", DeviceId=\""@ + device_id
        + "\", Version=\""@ + version + "\""@;
    match token {
        Some(t) => base + ", Token=\""@ + t + "\""@,
        None => base,
    }
}

/// The header entry `(name, value)` when the value may be a header value, else none.
pub open spec fn header_entry(name: Seq<char>, value: Seq<char>) -> Seq<(Seq<char>, Seq<char>)> {
    if header_safe(value) { seq![(name, value)] } else { Seq::empty() }
}

/// The name the client identifies itself with.
pub open spec fn client_name_text() -> Seq<char> {
    "Crabfin"@
}

/// The version the client identifies itself with.
pub open spec fn client_version_text() -> Seq<char> {
    "0.1.0"@
}

/// A client's identity and connection settings.
#[derive(Debug, Clone)]
pub struct JellyfinClient {
    /// The underlying HTTP client
    http_client: reqwest::Client,
    /// Current server URL (None if not connected)
    server_url: Option<String>,
    /// Authentication token (None if not authenticated)
    auth_token: Option<String>,
    /// Unique device identifier
    device_id: String,
    /// Client name for identification
    client_name: String,
    /// Client version for identification
    client_version: String,
    /// The request timeout the transport was built with
    timeout: std::time::Duration,
    /// The user agent the transport was built with
    user_agent: String,
}

impl JellyfinClient {
    /// The request timeout the transport was built with.
    pub closed spec fn timeout_view(&self) -> std::time::Duration {
        self.timeout
    }

    /// The user agent the transport was built with.
    pub closed spec fn agent_view(&self) -> Seq<char> {
        self.user_agent@
    }

    /// The server URL.
    pub closed spec fn url_view(&self) -> Option<Seq<char>> {
        opt_text(self.server_url)
    }

    /// The access token.
    pub closed spec fn token_view(&self) -> Option<Seq<char>> {
        opt_text(self.auth_token)
    }

    /// The device id.
    pub closed spec fn device_view(&self) -> Seq<char> {
        self.device_id@
    }

    /// The client name.
    pub closed spec fn name_view(&self) -> Seq<char> {
        self.client_name@
    }

    /// The client version.
    pub closed spec fn version_view(&self) -> Seq<char> {
        self.client_version@
    }

    /// A client named `Crabfin`, version `0.1.0`, with a fresh device id, no server and no
    /// token, whose requests time out after thirty seconds; fails only when the HTTP
    /// transport cannot be built or the system clock reads before 1970.
    pub fn new() -> (r: Result<JellyfinClient, CrabfinError>)
        ensures
            match r {
                Ok(c) => c.url_view() is None && c.token_view() is None && c.name_view()
                    == client_name_text() && c.version_view() == client_version_text()
                    && crate::ui::theme::wallpaper_monitor::duration_nanos_of(c.timeout_view())
                    == DEFAULT_TIMEOUT_SECS * 1_000_000_000
                    && c.agent_view() == client_name_text() + "/"@ + client_version_text(),
                Err(e) => e is Network || (e matches CrabfinError::Configuration(m) && m@ == clock_error_text()),
            },
    {
        let timeout = std::time::Duration::from_secs(DEFAULT_TIMEOUT_SECS);
        Self::with_config(String::from_str("Crabfin"), String::from_str("0.1.0"), timeout)
    }

    /// A client with the given name and version, a fresh device id, no server and no
    /// token, whose requests time out after `timeout` and name `name/version` as their
    /// user agent; fails only when the HTTP transport cannot be built (a network error) or
    /// the system clock reads before 1970 (a configuration error).
    pub fn with_config(client_name: String, client_version: String, timeout: std::time::Duration) -> (r: Result<
        JellyfinClient,
        CrabfinError,
    >)
        ensures
            match r {
                Ok(c) => c.url_view() is None && c.token_view() is None && c.name_view() == client_name@
                    && c.version_view() == client_version@ && c.timeout_view() == timeout
                    && c.agent_view() == client_name@ + "/"@ + client_version@,
                Err(e) => e is Network || (e matches CrabfinError::Configuration(m) && m@ == clock_error_text()),
            },
    {
        let user_agent = concat3(client_name.as_str(), "/", client_version.as_str());
        match build_http_client(timeout, user_agent.as_str()) {
            Ok((http_client, built_timeout, built_agent)) => match fresh_device_id() {
                Some(device_id) => Ok(
                    JellyfinClient {
                        http_client,
                        server_url: None,
                        auth_token: None,
                        device_id,
                        client_name,
                        client_version,
                        timeout: built_timeout,
                        user_agent: built_agent,
                    },
                ),
                None => Err(CrabfinError::Configuration(String::from_str("System clock is set before 1970"))),
            },
            Err(failure) => Err(CrabfinError::Network(failure)),
        }
    }

    /// The user agent the client's transport sends.
    pub fn user_agent(&self) -> (r: &str)
        ensures
            r@ == self.agent_view(),
    {
        self.user_agent.as_str()
    }

    /// The timeout the client's transport was built with.
    pub fn timeout(&self) -> (r: std::time::Duration)
        ensures
            r == self.timeout_view(),
    {
        self.timeout
    }

    /// The HTTP transport the client's requests go through.
    pub fn http_client(&self) -> &reqwest::Client {
        &self.http_client
    }

    /// The current server URL.
    pub fn server_url(&self) -> (r: Option<&str>)
        ensures
            match r {
                Some(u) => self.url_view() == Some(u@),
                None => self.url_view() is None,
            },
    {
        match &self.server_url {
            Some(u) => Some(u.as_str()),
            None => None,
        }
    }

    /// The current access token.
    pub fn auth_token(&self) -> (r: Option<&str>)
        ensures
            match r {
                Some(t) => self.token_view() == Some(t@),
                None => self.token_view() is None,
            },
    {
        match &self.auth_token {
            Some(t) => Some(t.as_str()),
            None => None,
        }
    }

    /// The device id.
    pub fn device_id(&self) -> (r: &str)
        ensures
            r@ == self.device_view(),
    {
        self.device_id.as_str()
    }

    /// The client name.
    pub fn client_name(&self) -> (r: &str)
        ensures
            r@ == self.name_view(),
    {
        self.client_name.as_str()
    }

    /// The client version.
    pub fn client_version(&self) -> (r: &str)
        ensures
            r@ == self.version_view(),
    {
        self.client_version.as_str()
    }

    /// Whether a server URL is set.
    pub fn is_connected(&self) -> (b: bool)
        ensures
            b == self.url_view() is Some,
    {
        self.server_url.is_some()
    }

    /// Whether an access token is set.
    pub fn is_authenticated(&self) -> (b: bool)
        ensures
            b == self.token_view() is Some,
    {
        self.auth_token.is_some()
    }

    /// Normalizes a server address: trims it, adds `http://` when it has no scheme, drops
    /// trailing slashes, and checks that the result is a URL. Refused when the trimmed
    /// address is empty or the result does not parse.
    pub fn normalize_server_url(&self, url: &str) -> (r: Result<String, CrabfinError>)
        ensures
            trim_white(url@).len() == 0 ==> (r matches Err(CrabfinError::InvalidUrl(m)) && m@ == "URL cannot be empty"@),
            trim_white(url@).len() > 0 ==> match url_parse_error(normalized_url(url@)) {
                None => r matches Ok(u) && u@ == normalized_url(url@),
                Some(e) => r matches Err(CrabfinError::InvalidUrl(m)) && m@ == "Invalid URL format: "@ + e,
            },
    {
        let trimmed = trim(url);
        if trimmed.as_str().unicode_len() == 0 {
            return Err(CrabfinError::InvalidUrl(String::from_str("URL cannot be empty")));
        }
        let with_scheme = if !starts_with(trimmed.as_str(), "http://") && !starts_with(trimmed.as_str(), "https://") {
            concat("http://", trimmed.as_str())
        } else {
            trimmed
        };
        let normalized = trim_end_matches_char(with_scheme.as_str(), '/');
        let parsed = check_url(normalized.as_str());
        url_check_result(normalized, parsed)
    }

    /// Sets the server URL to the normalized form of `url`; on refusal the client is
    /// unchanged.
    pub fn set_server_url(&mut self, url: &str) -> (r: Result<(), CrabfinError>)
        ensures
            r is Ok <==> (trim_white(url@).len() > 0 && url_parse_error(normalized_url(url@)) is None),
            r is Ok ==> final(self).url_view() == Some(normalized_url(url@)),
            r is Err ==> final(self).url_view() == old(self).url_view(),
            final(self).token_view() == old(self).token_view(),
            final(self).device_view() == old(self).device_view(),
            final(self).name_view() == old(self).name_view(),
            final(self).version_view() == old(self).version_view(),
    {
        let normalized = self.normalize_server_url(url)?;
        self.server_url = Some(normalized);
        Ok(())
    }

    /// Sets the access token.
    pub fn set_auth_token(&mut self, token: String)
        ensures
            final(self).token_view() == Some(token@),
            final(self).url_view() == old(self).url_view(),
            final(self).device_view() == old(self).device_view(),
            final(self).name_view() == old(self).name_view(),
            final(self).version_view() == old(self).version_view(),
    {
        self.auth_token = Some(token);
    }

    /// Clears the access token.
    pub fn clear_auth_token(&mut self)
        ensures
            final(self).token_view() is None,
            final(self).url_view() == old(self).url_view(),
            final(self).device_view() == old(self).device_view(),
            final(self).name_view() == old(self).name_view(),
            final(self).version_view() == old(self).version_view(),
    {
        self.auth_token = None;
    }

    /// The full URL of an API path: the server URL, a slash, and the path without its
    /// leading slashes. Refused when no server URL is set.
    pub fn build_api_url(&self, path: &str) -> (r: Result<String, CrabfinError>)
        ensures
            match self.url_view() {
                Some(u) => r matches Ok(s) && s@ == u + "/"@ + trim_start_char(path@, '/'),
                None => r matches Err(CrabfinError::InvalidUrl(m)) && m@ == "No server URL set"@,
            },
    {
        match &self.server_url {
            None => Err(CrabfinError::InvalidUrl(String::from_str("No server URL set"))),
            Some(u) => {
                let p = trim_start_matches_char(path, '/');
                Ok(concat3(u.as_str(), "/", p.as_str()))
            },
        }
    }

    /// The identification headers of a request: device id, device name, client version and
    /// the authorization value (with the token when there is one), each only when it may be
    /// a header value.
    pub open spec fn headers(&self) -> Seq<(Seq<char>, Seq<char>)> {
        header_entry("X-Emby-Device-Id"@, self.device_view())
            + header_entry("X-Emby-Device-Name"@, self.name_view())
            + header_entry("X-Emby-Client-Version"@, self.version_view())
            + header_entry("X-Emby-Authorization"@,
                authorization_text(self.name_view(), self.device_view(), self.version_view(), self.token_view()))
    }

    /// The identification headers of a request, as `(name, value)` pairs.
    pub fn create_headers(&self) -> (h: Vec<(String, String)>)
        ensures
            crate::models::query::params_view(h@) == self.headers(),
    {
        let mut h: Vec<(String, String)> = Vec::new();
        if is_header_safe(self.device_id.as_str()) {
            crate::models::query::add_entry(&mut h, "X-Emby-Device-Id", self.device_id.clone());
        }
        let ghost first = crate::models::query::params_view(h@);
        proof {
            assert(first =~= header_entry("X-Emby-Device-Id"@, self.device_view()));
        }
        if is_header_safe(self.client_name.as_str()) {
            crate::models::query::add_entry(&mut h, "X-Emby-Device-Name", self.client_name.clone());
        }
        let ghost second = crate::models::query::params_view(h@);
        proof {
            assert(second =~= first + header_entry("X-Emby-Device-Name"@, self.name_view()));
        }
        if is_header_safe(self.client_version.as_str()) {
            crate::models::query::add_entry(&mut h, "X-Emby-Client-Version", self.client_version.clone());
        }
        let ghost third = crate::models::query::params_view(h@);
        proof {
            assert(third =~= second + header_entry("X-Emby-Client-Version"@, self.version_view()));
        }
        let mut auth = concat3("MediaBrowser Client=\"", self.client_name.as_str(), "\", Device=\"");
        auth.append(self.client_name.as_str());
        auth.append("\", DeviceId=\"");
        auth.append(self.device_id.as_str());
        auth.append("\", Version=\"");
        auth.append(self.client_version.as_str());
        auth.append("\"");
        match &self.auth_token {
            Some(t) => {
                auth.append(", Token=\"");
                auth.append(t.as_str());
                auth.append("\"");
            },
            None => {},
        }
        proof {
            assert(auth@ =~= authorization_text(self.name_view(), self.device_view(), self.version_view(), self.token_view()));
        }
        if is_header_safe(auth.as_str()) {
            crate::models::query::add_entry(&mut h, "X-Emby-Authorization", auth);
        }
        proof {
            assert(crate::models::query::params_view(h@) =~= self.headers());
        }
        h
    }
}

} // verus!
