//! Access tokens: when they expire, when they should be refreshed, and the store of one
//! token per server.
use vstd::prelude::*;
use crate::keyed::{find_key, get_value, has_key, insert_value, key_list, keyed_map, keys_distinct,
    keys_of, lemma_entry_in_map, lemma_filter_keys_distinct, lemma_map_size, remove_value};
use crate::text::concat;
use crate::utils::time::{now_utc, UtcTime};

verus! {

/// Seconds before its expiry from which a token should be refreshed.
pub const REFRESH_MARGIN_SECONDS: i64 = 300;

/// Token information structure.
#[derive(Debug, Clone)]
pub struct TokenInfo {
    pub access_token: String,
    pub token_type: String,
    pub expires_in: Option<u64>,
    pub refresh_token: Option<String>,
    pub scope: Option<String>,
    pub created_at: UtcTime,
}

impl TokenInfo {
    /// The seconds until expiry as a signed number, as the token's expiry computes it
    /// (`expires_in as i64`, which wraps above `i64::MAX`).
    pub open spec fn lifetime(e: u64) -> int {
        (e as i64) as int
    }

    /// Whether the token's expiry can be computed: its creation time is valid and its
    /// lifetime can be added to it.
    pub open spec fn expiry_ok(self) -> bool {
        &&& self.created_at.valid()
        &&& match self.expires_in {
            Some(e) => self.created_at.can_shift(Self::lifetime(e)),
            None => true,
        }
    }

    /// When the token expires: its creation time plus its lifetime, if it has one.
    pub open spec fn expiry(self) -> Option<UtcTime> {
        match self.expires_in {
            Some(e) => Some(self.created_at.shifted(Self::lifetime(e))),
            None => None,
        }
    }

    /// Whether the token has expired at `now`: it has an expiry and `now` is past it.
    pub open spec fn expired_at(self, now: UtcTime) -> bool {
        match self.expiry() {
            Some(t) => now.later(t),
            None => false,
        }
    }

    /// Whether the token should be refreshed at `now`: it has an expiry that comes before
    /// `now` plus five minutes.
    pub open spec fn refresh_due_at(self, now: UtcTime) -> bool {
        match self.expiry() {
            Some(t) => now.seconds + REFRESH_MARGIN_SECONDS > t.seconds || (now.seconds + REFRESH_MARGIN_SECONDS
                == t.seconds && now.nanos > t.nanos),
            None => false,
        }
    }

    /// A bearer token created at `now`, without lifetime, refresh token or scope.
    pub fn new_at(access_token: String, now: UtcTime) -> (t: TokenInfo)
        ensures
            t.access_token == access_token,
            t.token_type@ == "Bearer"@,
            t.expires_in is None,
            t.refresh_token is None,
            t.scope is None,
            t.created_at == now,
    {
        TokenInfo {
            access_token,
            token_type: String::from_str("Bearer"),
            expires_in: None,
            refresh_token: None,
            scope: None,
            created_at: now,
        }
    }

    /// A bearer token created now (by the system clock), without lifetime, refresh token
    /// or scope.
    pub fn new(access_token: String) -> (t: TokenInfo)
        ensures
            t.access_token == access_token,
            t.token_type@ == "Bearer"@,
            t.expires_in is None,
            t.refresh_token is None,
            t.scope is None,
            t.created_at.valid(),
            t.expiry_ok(),
    {
        proof {
            reveal_strlit("Bearer");
        }
        Self::new_at(access_token, now_utc())
    }

    /// The token with a refresh token.
    pub fn with_refresh_token(self, refresh_token: String) -> (t: TokenInfo)
        ensures
            t == (TokenInfo { refresh_token: Some(refresh_token), ..self }),
    {
        TokenInfo { refresh_token: Some(refresh_token), ..self }
    }

    /// The token with a lifetime in seconds.
    pub fn with_expires_in(self, expires_in: u64) -> (t: TokenInfo)
        ensures
            t == (TokenInfo { expires_in: Some(expires_in), ..self }),
    {
        TokenInfo { expires_in: Some(expires_in), ..self }
    }

    /// When the token expires, if it has a lifetime.
    pub fn expires_at(&self) -> (r: Option<UtcTime>)
        requires
            self.expiry_ok(),
        ensures
            r == self.expiry(),
    {
        match self.expires_in {
            Some(e) => Some(self.created_at.plus_seconds(e as i64)),
            None => None,
        }
    }

    /// Whether the token has expired at `now`.
    pub fn is_expired_at(&self, now: UtcTime) -> (b: bool)
        requires
            self.expiry_ok(),
        ensures
            b == self.expired_at(now),
    {
        match self.expires_at() {
            Some(t) => now.is_after(&t),
            None => false,
        }
    }

    /// Whether the token has expired, by the system clock.
    pub fn is_expired(&self) -> (b: bool)
        requires
            self.expiry_ok(),
        ensures
            self.expires_in is None ==> !b,
            exists|now: UtcTime| now.valid() && b == self.expired_at(now),
    {
        let now = now_utc();
        self.is_expired_at(now)
    }

    /// Whether the token should be refreshed at `now` (it expires within five minutes).
    pub fn needs_refresh_at(&self, now: UtcTime) -> (b: bool)
        requires
            self.expiry_ok(),
        ensures
            b == self.refresh_due_at(now),
    {
        match self.expires_at() {
            Some(t) => {
                let threshold = t.seconds - REFRESH_MARGIN_SECONDS;
                now.seconds > threshold || (now.seconds == threshold && now.nanos > t.nanos)
            },
            None => false,
        }
    }

    /// Whether the token should be refreshed, by the system clock.
    pub fn needs_refresh(&self) -> (b: bool)
        requires
            self.expiry_ok(),
        ensures
            self.expires_in is None ==> !b,
            exists|now: UtcTime| now.valid() && b == self.refresh_due_at(now),
    {
        let now = now_utc();
        self.needs_refresh_at(now)
    }
}

/// A token that has expired is one that needs a refresh.
pub proof fn law_expired_needs_refresh(token: TokenInfo, now: UtcTime)
    requires
        token.expiry_ok(),
    ensures
        token.expired_at(now) ==> token.refresh_due_at(now),
{
}

/// Whether the token of an entry should be refreshed at `now`.
pub open spec fn refresh_due(now: UtcTime) -> spec_fn((String, TokenInfo)) -> bool {
    |e: (String, TokenInfo)| e.1.refresh_due_at(now)
}

/// Whether the expiry of every token of the map can be computed.
pub open spec fn all_expiries_ok(m: Map<Seq<char>, TokenInfo>) -> bool {
    forall|k: Seq<char>| #[trigger] m.contains_key(k) ==> m[k].expiry_ok()
}

/// The token stored for `server_id` if there is one and it has not expired at `now`.
pub open spec fn valid_token_at(m: Map<Seq<char>, TokenInfo>, server_id: Seq<char>, now: UtcTime) -> Option<
    TokenInfo,
> {
    if m.contains_key(server_id) && !m[server_id].expired_at(now) {
        Some(m[server_id])
    } else {
        None
    }
}

/// The error of updating the token of a server that has none.
#[derive(Debug, Clone)]
pub enum TokenError {
    NotFound { server_id: String },
}

impl TokenError {
    /// The text of the error.
    pub open spec fn text(&self) -> Seq<char> {
        match self {
            TokenError::NotFound { server_id } => "No token found for server: "@ + server_id@,
        }
    }

    /// The text of the error.
    pub fn to_string(&self) -> (s: String)
        ensures
            s@ == self.text(),
    {
        match self {
            TokenError::NotFound { server_id } => concat("No token found for server: ", server_id.as_str()),
        }
    }
}

/// Token manager for handling the tokens of several servers, one per server.
#[derive(Debug)]
pub struct TokenManager {
    tokens: Vec<(String, TokenInfo)>,
}

impl TokenManager {
    /// The store's invariant: one token per server.
    pub closed spec fn wf(&self) -> bool {
        keys_distinct(self.tokens@)
    }

    /// An empty store.
    pub fn new() -> (m: TokenManager)
        ensures
            m.wf(),
            m@ == Map::<Seq<char>, TokenInfo>::empty(),
    {
        let m = TokenManager { tokens: Vec::new() };
        proof {
            assert(m@ =~= Map::<Seq<char>, TokenInfo>::empty());
        }
        m
    }

    /// Stores the token of a server, replacing the one it had.
    pub fn store_token(&mut self, server_id: String, token: TokenInfo)
        requires
            old(self).wf(),
        ensures
            final(self).wf(),
            final(self)@ == old(self)@.insert(server_id@, token),
    {
        insert_value(&mut self.tokens, server_id, token);
    }

    /// The token of a server, if any.
    pub fn get_token(&self, server_id: &str) -> (r: Option<&TokenInfo>)
        requires
            self.wf(),
        ensures
            match r {
                Some(t) => self@.contains_key(server_id@) && *t == self@[server_id@],
                None => !self@.contains_key(server_id@),
            },
    {
        get_value(&self.tokens, server_id)
    }

    /// Whether the expiry of every stored token can be computed.
    pub fn expiries_ok(&self) -> (b: bool)
        requires
            self.wf(),
        ensures
            b == all_expiries_ok(self@),
    {
        let mut i: usize = 0;
        while i < self.tokens.len()
            invariant
                self.wf(),
                i <= self.tokens@.len(),
                forall|j: int| 0 <= j < i ==> (#[trigger] self.tokens@[j]).1.expiry_ok(),
            decreases self.tokens@.len() - i,
        {
            let t = &self.tokens[i].1;
            let ok = t.created_at.seconds >= crate::utils::time::MIN_UTC_SECONDS && t.created_at.seconds
                <= crate::utils::time::MAX_UTC_SECONDS && t.created_at.nanos < 1_000_000_000 && match t.expires_in {
                Some(e) => {
                    let d = e as i64;
                    -crate::utils::time::MAX_DELTA_SECONDS <= d && d <= crate::utils::time::MAX_DELTA_SECONDS
                        && (t.created_at.seconds as i128) + (d as i128) >= crate::utils::time::MIN_UTC_SECONDS as i128
                        && (t.created_at.seconds as i128) + (d as i128) <= crate::utils::time::MAX_UTC_SECONDS as i128
                },
                None => true,
            };
            if !ok {
                proof {
                    lemma_entry_in_map(self.tokens@, i as int);
                    assert(self@.contains_key(self.tokens@[i as int].0@));
                }
                return false;
            }
            i = i + 1;
        }
        proof {
            assert forall|k: Seq<char>| #[trigger] self@.contains_key(k) implies self@[k].expiry_ok() by {
                let j = crate::keyed::key_index(self.tokens@, k);
                lemma_entry_in_map(self.tokens@, j);
            }
        }
        true
    }

    /// The token of a server if it has not expired at `now`.
    pub fn get_valid_token_at(&self, server_id: &str, now: UtcTime) -> (r: Option<&TokenInfo>)
        requires
            self.wf(),
            all_expiries_ok(self@),
        ensures
            match valid_token_at(self@, server_id@, now) {
                Some(t) => r matches Some(x) && *x == t,
                None => r is None,
            },
    {
        match self.get_token(server_id) {
            Some(t) => if t.is_expired_at(now) {
                None
            } else {
                Some(t)
            },
            None => None,
        }
    }

    /// The token of a server if it has not expired, by the system clock.
    pub fn get_valid_token(&self, server_id: &str) -> (r: Option<&TokenInfo>)
        requires
            self.wf(),
            all_expiries_ok(self@),
        ensures
            exists|now: UtcTime|
                now.valid() && match valid_token_at(self@, server_id@, now) {
                    Some(t) => r matches Some(x) && *x == t,
                    None => r is None,
                },
    {
        let now = now_utc();
        self.get_valid_token_at(server_id, now)
    }

    /// Takes out the token of a server, handing it back.
    pub fn remove_token(&mut self, server_id: &str) -> (r: Option<TokenInfo>)
        requires
            old(self).wf(),
        ensures
            final(self).wf(),
            final(self)@ == old(self)@.remove(server_id@),
            r == (if old(self)@.contains_key(server_id@) {
                Some(old(self)@[server_id@])
            } else {
                None
            }),
    {
        remove_value(&mut self.tokens, server_id)
    }

    /// Whether a server has a token that has not expired at `now`.
    pub fn has_valid_token_at(&self, server_id: &str, now: UtcTime) -> (b: bool)
        requires
            self.wf(),
            all_expiries_ok(self@),
        ensures
            b == valid_token_at(self@, server_id@, now) is Some,
    {
        self.get_valid_token_at(server_id, now).is_some()
    }

    /// Whether a server has a token that has not expired, by the system clock.
    pub fn has_valid_token(&self, server_id: &str) -> (b: bool)
        requires
            self.wf(),
            all_expiries_ok(self@),
        ensures
            exists|now: UtcTime| now.valid() && b == valid_token_at(self@, server_id@, now) is Some,
    {
        let now = now_utc();
        self.has_valid_token_at(server_id, now)
    }

    /// The servers whose tokens should be refreshed at `now`, each once.
    pub fn get_servers_needing_refresh_at(&self, now: UtcTime) -> (r: Vec<String>)
        requires
            self.wf(),
            all_expiries_ok(self@),
        ensures
            forall|i: int|
                0 <= i < r@.len() ==> self@.contains_key(#[trigger] r@[i]@) && self@[r@[i]@].refresh_due_at(now),
            forall|k: Seq<char>|
                #[trigger] self@.contains_key(k) && self@[k].refresh_due_at(now) ==> exists|i: int|
                    0 <= i < r@.len() && r@[i]@ == k,
            forall|i: int, j: int| 0 <= i < j < r@.len() ==> r@[i]@ != r@[j]@,
    {
        let ghost s = self.tokens@;
        let ghost p = refresh_due(now);
        let mut r: Vec<String> = Vec::new();
        let mut i: usize = 0;
        while i < self.tokens.len()
            invariant
                self.wf(),
                all_expiries_ok(self@),
                s == self.tokens@,
                p == refresh_due(now),
                i <= s.len(),
                r@.map_values(|t: String| t@) == keys_of(s.take(i as int).filter(p)),
            decreases s.len() - i,
        {
            proof {
                lemma_entry_in_map(s, i as int);
                assert(s.take(i + 1).drop_last() =~= s.take(i as int));
                assert(s.take(i + 1).last() == s[i as int]);
                reveal_with_fuel(Seq::filter, 1);
                assert(s.take(i + 1).filter(p) == if p(s[i as int]) {
                    s.take(i as int).filter(p).push(s[i as int])
                } else {
                    s.take(i as int).filter(p)
                });
            }
            if self.tokens[i].1.needs_refresh_at(now) {
                let key = self.tokens[i].0.clone();
                let ghost before = r@;
                r.push(key);
                proof {
                    assert(r@.map_values(|t: String| t@) =~= before.map_values(|t: String| t@).push(s[i as int].0@));
                    assert(keys_of(s.take(i + 1).filter(p)) =~= keys_of(s.take(i as int).filter(p)).push(s[i as int].0@));
                }
            }
            i = i + 1;
        }
        proof {
            assert(s.take(s.len() as int) =~= s);
            let f = s.filter(p);
            assert(r@.map_values(|t: String| t@).len() == r@.len());
            lemma_filter_keys_distinct(s, p);
            assert forall|j: int| 0 <= j < r@.len() implies self@.contains_key(#[trigger] r@[j]@) && self@[r@[j]@].refresh_due_at(
                now,
            ) by {
                assert(r@[j]@ == r@.map_values(|t: String| t@)[j]);
                s.lemma_filter_pred(p, j);
                s.lemma_filter_contains_rev(p, f[j]);
                let a = choose|a: int| 0 <= a < s.len() && s[a] == f[j];
                lemma_entry_in_map(s, a);
            }
            assert forall|k: Seq<char>| #[trigger] self@.contains_key(k) && self@[k].refresh_due_at(now) implies exists|
                j: int,
            | 0 <= j < r@.len() && r@[j]@ == k by {
                let a = crate::keyed::key_index(s, k);
                lemma_entry_in_map(s, a);
                s.lemma_filter_contains(p, a);
                let j = choose|j: int| 0 <= j < f.len() && f[j] == s[a];
                assert(r@[j]@ == r@.map_values(|t: String| t@)[j]);
            }
            assert forall|x: int, y: int| 0 <= x < y < r@.len() implies r@[x]@ != r@[y]@ by {
                assert(r@[x]@ == r@.map_values(|t: String| t@)[x]);
                assert(r@[y]@ == r@.map_values(|t: String| t@)[y]);
                assert(f[x].0@ != f[y].0@);
            }
        }
        r
    }

    /// The servers whose tokens should be refreshed, by the system clock, each once.
    pub fn get_servers_needing_refresh(&self) -> (r: Vec<String>)
        requires
            self.wf(),
            all_expiries_ok(self@),
        ensures
            exists|now: UtcTime|
                now.valid() && (forall|i: int|
                    0 <= i < r@.len() ==> self@.contains_key(#[trigger] r@[i]@) && self@[r@[i]@].refresh_due_at(now))
                    && (forall|k: Seq<char>|
                    #[trigger] self@.contains_key(k) && self@[k].refresh_due_at(now) ==> exists|i: int|
                        0 <= i < r@.len() && r@[i]@ == k),
            forall|i: int, j: int| 0 <= i < j < r@.len() ==> r@[i]@ != r@[j]@,
    {
        let now = now_utc();
        self.get_servers_needing_refresh_at(now)
    }

    /// Gives the token of a server a new access value, created at `now`; fails when the
    /// server has no token.
    pub fn update_token_at(&mut self, server_id: &str, new_access_token: String, now: UtcTime) -> (r: Result<
        (),
        TokenError,
    >)
        requires
            old(self).wf(),
        ensures
            final(self).wf(),
            match r {
                Ok(()) => old(self)@.contains_key(server_id@) && final(self)@ == old(self)@.insert(
                    server_id@,
                    TokenInfo { access_token: new_access_token, created_at: now, ..old(self)@[server_id@] },
                ),
                Err(e) => !old(self)@.contains_key(server_id@) && final(self)@ == old(self)@ && e->server_id@
                    == server_id@,
            },
    {
        match find_key(&self.tokens, server_id) {
            Some(i) => {
                proof {
                    lemma_entry_in_map(self.tokens@, i as int);
                }
                let old_token = &self.tokens[i].1;
                let token = TokenInfo {
                    access_token: new_access_token,
                    token_type: old_token.token_type.clone(),
                    expires_in: old_token.expires_in,
                    refresh_token: old_token.refresh_token.clone(),
                    scope: old_token.scope.clone(),
                    created_at: now,
                };
                let key = self.tokens[i].0.clone();
                insert_value(&mut self.tokens, key, token);
                Ok(())
            },
            None => {
                proof {
                    assert(!self@.contains_key(server_id@));
                }
                Err(TokenError::NotFound { server_id: server_id.to_string() })
            },
        }
    }

    /// Gives the token of a server a new access value, created now by the system clock;
    /// fails when the server has no token.
    pub fn update_token(&mut self, server_id: &str, new_access_token: String) -> (r: Result<(), TokenError>)
        requires
            old(self).wf(),
        ensures
            final(self).wf(),
            match r {
                Ok(()) => old(self)@.contains_key(server_id@) && exists|now: UtcTime|
                    now.valid() && final(self)@ == old(self)@.insert(
                        server_id@,
                        TokenInfo { access_token: new_access_token, created_at: now, ..old(self)@[server_id@] },
                    ),
                Err(e) => !old(self)@.contains_key(server_id@) && final(self)@ == old(self)@ && e->server_id@
                    == server_id@,
            },
    {
        let now = now_utc();
        self.update_token_at(server_id, new_access_token, now)
    }

    /// Removes every token.
    pub fn clear_all(&mut self)
        ensures
            final(self).wf(),
            final(self)@ == Map::<Seq<char>, TokenInfo>::empty(),
    {
        self.tokens.clear();
        proof {
            assert(self@ =~= Map::<Seq<char>, TokenInfo>::empty());
        }
    }

    /// The ids of the servers that have a token, each once.
    pub fn get_server_ids(&self) -> (r: Vec<String>)
        requires
            self.wf(),
        ensures
            r@.map_values(|t: String| t@).to_set() == self@.dom(),
            r@.len() == self@.dom().len(),
    {
        proof {
            lemma_map_size(self.tokens@);
        }
        let r = key_list(&self.tokens);
        proof {
            assert(r@.map_values(|t: String| t@).len() == r@.len());
        }
        r
    }

    /// The number of tokens.
    pub fn token_count(&self) -> (n: usize)
        requires
            self.wf(),
        ensures
            n == self@.dom().len(),
    {
        proof {
            lemma_map_size(self.tokens@);
        }
        self.tokens.len()
    }
}

impl Default for TokenManager {
    /// An empty store.
    fn default() -> (m: TokenManager)
        ensures
            m.wf(),
            m@ == Map::<Seq<char>, TokenInfo>::empty(),
    {
        TokenManager::new()
    }
}

impl View for TokenManager {
    type V = Map<Seq<char>, TokenInfo>;

    /// The tokens, by server id.
    closed spec fn view(&self) -> Map<Seq<char>, TokenInfo> {
        keyed_map(self.tokens@)
    }
}

} // verus!
