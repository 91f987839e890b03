//! The pool of known servers: which are connected, which one is active, and the
//! bookkeeping rules that adding, removing, connecting, disconnecting and switching
//! servers follow.
//!
//! The pool decides; the application performs the network work (connecting a client,
//! closing it) and reports the outcome back. Each change that listeners hear of is queued
//! as an event, in order, for the application to hand to them.
use vstd::prelude::*;
use crate::config::opt_text;
use crate::models::api::PublicServerInfo;
use crate::models::server::ServerConfig;
use crate::text::{concat3, same_text};
use super::error::CrabfinError;

verus! {

/// A server in the pool with its connection state.
#[derive(Debug)]
pub struct PoolEntry {
    /// Server configuration
    pub config: ServerConfig,
    /// Whether the server's client is connected
    pub connected: bool,
    /// Whether this server is the active one
    pub is_active: bool,
}

/// Connection pool statistics.
#[derive(Debug, Clone, Copy)]
pub struct PoolStats {
    /// Total number of servers in the pool
    pub total_servers: usize,
    /// Number of connected servers
    pub connected_servers: usize,
    /// Number of active servers (0 or 1)
    pub active_servers: usize,
}

/// Client manager events.
#[derive(Debug, Clone)]
pub enum ClientManagerEvent {
    /// A server was added to the pool
    ServerAdded { server_id: String, server_config: ServerConfig },
    /// A server was removed from the pool
    ServerRemoved { server_id: String },
    /// Active server was switched
    ActiveServerChanged { old_server_id: Option<String>, new_server_id: Option<String> },
    /// Connection established to a server
    ServerConnected { server_id: String, server_info: PublicServerInfo },
    /// Connection lost to a server
    ServerDisconnected { server_id: String, reason: String },
    /// Error occurred with a server
    ServerError { server_id: String, error: String },
}

/// Multi-server connection bookkeeping.
#[derive(Debug)]
pub struct ClientManager {
    entries: Vec<PoolEntry>,
    active_server_id: Option<String>,
    events: Vec<ClientManagerEvent>,
}

/// `after` is `before` with `n` more events at its end.
pub open spec fn extends_by(before: Seq<ClientManagerEvent>, after: Seq<ClientManagerEvent>, n: nat) -> bool {
    after.len() == before.len() + n && after.take(before.len() as int) == before
}

proof fn lemma_push_extends(before: Seq<ClientManagerEvent>, e: ClientManagerEvent)
    ensures
        extends_by(before, before.push(e), 1),
        before.push(e).last() == e,
{
    assert(before.push(e).take(before.len() as int) =~= before);
}

proof fn lemma_push_twice_extends(before: Seq<ClientManagerEvent>, e1: ClientManagerEvent, e2: ClientManagerEvent)
    ensures
        extends_by(before, before.push(e1).push(e2), 2),
        before.push(e1).push(e2)[before.len() as int] == e1,
        before.push(e1).push(e2).last() == e2,
{
    assert(before.push(e1).push(e2).take(before.len() as int) =~= before);
}

/// The event announces that the server `config` was added.
pub open spec fn announces_added(e: ClientManagerEvent, config: ServerConfig) -> bool {
    e matches ClientManagerEvent::ServerAdded { server_id, server_config } && server_id@ == config.id@
        && same_config(server_config, config)
}

/// The event announces that the server `id` was removed.
pub open spec fn announces_removed(e: ClientManagerEvent, id: Seq<char>) -> bool {
    e matches ClientManagerEvent::ServerRemoved { server_id } && server_id@ == id
}

/// The event announces that the active server changed from `from` to `to`.
pub open spec fn announces_switch(e: ClientManagerEvent, from: Option<Seq<char>>, to: Option<Seq<char>>) -> bool {
    e matches ClientManagerEvent::ActiveServerChanged { old_server_id, new_server_id } && opt_text(old_server_id)
        == from && opt_text(new_server_id) == to
}

/// The abstract state of a pool: its entries in order, and the active server's id.
pub struct PoolView {
    pub entries: Seq<PoolEntry>,
    pub active: Option<Seq<char>>,
}

/// Whether some entry has the id `id`.
pub open spec fn has_id(entries: Seq<PoolEntry>, id: Seq<char>) -> bool {
    exists|i: int| 0 <= i < entries.len() && entries[i].config.id@ == id
}

/// The position of the entry with id `id` (meaningful when there is one).
pub open spec fn position(entries: Seq<PoolEntry>, id: Seq<char>) -> int {
    choose|i: int| 0 <= i < entries.len() && entries[i].config.id@ == id
}

/// No two entries share an id.
pub open spec fn distinct_ids(entries: Seq<PoolEntry>) -> bool {
    forall|a: int, b: int|
        0 <= a < entries.len() && 0 <= b < entries.len() && a != b ==> entries[a].config.id@ != entries[b].config.id@
}

/// Number of connected entries.
pub open spec fn count_connected(entries: Seq<PoolEntry>) -> nat
    decreases entries.len(),
{
    if entries.len() == 0 {
        0
    } else {
        count_connected(entries.drop_last()) + if entries.last().connected { 1nat } else { 0nat }
    }
}

/// Number of active entries.
pub open spec fn count_active(entries: Seq<PoolEntry>) -> nat
    decreases entries.len(),
{
    if entries.len() == 0 {
        0
    } else {
        count_active(entries.drop_last()) + if entries.last().is_active { 1nat } else { 0nat }
    }
}

impl PoolView {
    /// The pool's rules: ids are distinct; an active id names a connected entry marked
    /// active; and only the entry the active id names is marked active.
    pub open spec fn wf(self) -> bool {
        &&& distinct_ids(self.entries)
        &&& match self.active {
            Some(a) => has_id(self.entries, a) && self.entries[position(self.entries, a)].is_active
                && self.entries[position(self.entries, a)].connected,
            None => true,
        }
        &&& forall|i: int| 0 <= i < self.entries.len() && #[trigger] self.entries[i].is_active
            ==> self.active == Some(self.entries[i].config.id@)
    }
}

/// The error for an id that is not in the pool.
pub open spec fn not_in_pool(id: Seq<char>) -> Seq<char> {
    "Server with ID '"@ + id + "' not found in pool"@
}

/// `e` is a configuration error with message `m`.
pub open spec fn is_config_error(e: CrabfinError, m: Seq<char>) -> bool {
    e matches CrabfinError::Configuration(t) && t@ == m
}

proof fn lemma_position(entries: Seq<PoolEntry>, id: Seq<char>, i: int)
    requires
        distinct_ids(entries),
        0 <= i < entries.len(),
        entries[i].config.id@ == id,
    ensures
        has_id(entries, id),
        position(entries, id) == i,
{
    let p = position(entries, id);
    assert(0 <= p < entries.len() && entries[p].config.id@ == id);
}

proof fn lemma_count_active_zero(entries: Seq<PoolEntry>)
    requires
        forall|i: int| 0 <= i < entries.len() ==> !(#[trigger] entries[i].is_active),
    ensures
        count_active(entries) == 0,
    decreases entries.len(),
{
    if entries.len() > 0 {
        lemma_count_active_zero(entries.drop_last());
    }
}

proof fn lemma_count_active_one(entries: Seq<PoolEntry>, k: int)
    requires
        0 <= k < entries.len(),
        forall|i: int| 0 <= i < entries.len() && i != k ==> !(#[trigger] entries[i].is_active),
    ensures
        count_active(entries) <= 1,
    decreases entries.len(),
{
    if entries.len() > 0 {
        if k == entries.len() - 1 {
            lemma_count_active_zero(entries.drop_last());
        } else {
            lemma_count_active_one(entries.drop_last(), k);
        }
    }
}

proof fn lemma_count_bound(entries: Seq<PoolEntry>)
    ensures
        count_connected(entries) <= entries.len(),
        count_active(entries) <= entries.len(),
    decreases entries.len(),
{
    if entries.len() > 0 {
        lemma_count_bound(entries.drop_last());
    }
}

/// At most one server of a well-formed pool is active.
pub proof fn law_at_most_one_active(p: PoolView)
    requires
        p.wf(),
    ensures
        count_active(p.entries) <= 1,
{
    match p.active {
        None => {
            lemma_count_active_zero(p.entries);
        },
        Some(a) => {
            let k = position(p.entries, a);
            assert forall|i: int| 0 <= i < p.entries.len() && i != k implies !(#[trigger] p.entries[i].is_active) by {
                if p.entries[i].is_active {
                    assert(p.entries[i].config.id@ == a);
                }
            }
            lemma_count_active_one(p.entries, k);
        },
    }
}

/// Removing a server that was just added gives back the pool one started from.
pub proof fn law_remove_undoes_add(p: PoolView, config: ServerConfig)
    requires
        p.wf(),
        !has_id(p.entries, config.id@),
    ensures
        ({
            let added = PoolView {
                entries: p.entries.push(PoolEntry { config, connected: false, is_active: false }),
                active: p.active,
            };
            &&& has_id(added.entries, config.id@)
            &&& (PoolView {
                entries: added.entries.remove(position(added.entries, config.id@)),
                active: if added.active == Some(config.id@) { None } else { added.active },
            }) == p
        }),
{
    let es = p.entries.push(PoolEntry { config, connected: false, is_active: false });
    assert forall|a: int, b: int|
        0 <= a < es.len() && 0 <= b < es.len() && a != b implies es[a].config.id@ != es[b].config.id@ by {
        if a < p.entries.len() && b < p.entries.len() {
        } else if a == p.entries.len() {
            assert(es[b] == p.entries[b]);
        } else {
            assert(es[a] == p.entries[a]);
        }
    }
    lemma_position(es, config.id@, p.entries.len() as int);
    assert(es.remove(p.entries.len() as int) =~= p.entries);
    if p.active == Some(config.id@) {
        assert(has_id(p.entries, config.id@));
    }
}

/// After a server is made active, it is the active server and the only entry marked active.
pub proof fn law_set_active_selects(p: PoolView, id: Seq<char>, q: PoolView)
    requires
        p.wf(),
        q.wf(),
        q.active == Some(id),
    ensures
        has_id(q.entries, id),
        q.entries[position(q.entries, id)].is_active,
        q.entries[position(q.entries, id)].connected,
        forall|j: int| 0 <= j < q.entries.len() && j != position(q.entries, id) ==> !(#[trigger] q.entries[j].is_active),
{
    let k = position(q.entries, id);
    assert forall|j: int| 0 <= j < q.entries.len() && j != k implies !(#[trigger] q.entries[j].is_active) by {
        if q.entries[j].is_active {
            assert(q.entries[j].config.id@ == id);
        }
    }
}

/// Which servers a listing selects.
pub enum Selection {
    Connected,
    Disconnected,
    NameContains(String),
}

/// Whether an entry is selected.
pub open spec fn wanted(e: PoolEntry, want: Selection) -> bool {
    match want {
        Selection::Connected => e.connected,
        Selection::Disconnected => !e.connected,
        Selection::NameContains(p) => crate::text::has_infix(lowercase(e.config.name@), lowercase(p@)),
    }
}

/// The configurations of the selected entries, in order.
pub open spec fn selected(entries: Seq<PoolEntry>, want: Selection) -> Seq<ServerConfig>
    decreases entries.len(),
{
    if entries.len() == 0 {
        Seq::empty()
    } else {
        let rest = selected(entries.drop_last(), want);
        if wanted(entries.last(), want) { rest.push(entries.last().config) } else { rest }
    }
}

/// The configurations of the entries whose name contains `pattern`, ignoring case.
pub open spec fn selected_by_name(entries: Seq<PoolEntry>, pattern: Seq<char>) -> Seq<ServerConfig>
    decreases entries.len(),
{
    if entries.len() == 0 {
        Seq::empty()
    } else {
        let rest = selected_by_name(entries.drop_last(), pattern);
        if crate::text::has_infix(lowercase(entries.last().config.name@), lowercase(pattern)) {
            rest.push(entries.last().config)
        } else {
            rest
        }
    }
}

proof fn lemma_selected_by_name(entries: Seq<PoolEntry>, want: Selection, pattern: Seq<char>)
    requires
        want matches Selection::NameContains(p) && p@ == pattern,
    ensures
        selected(entries, want) == selected_by_name(entries, pattern),
    decreases entries.len(),
{
    if entries.len() > 0 {
        lemma_selected_by_name(entries.drop_last(), want, pattern);
    }
}

/// The `k`-th server found by a name search is a server of the pool whose lower-cased
/// name holds the lower-cased pattern at some position.
pub open spec fn found_by_name(entries: Seq<PoolEntry>, pattern: Seq<char>, k: int) -> bool {
    exists|j: int, i: int|
        0 <= j < entries.len() && entries[j].config == selected_by_name(entries, pattern)[k]
            && #[trigger] crate::text::occurs_at(lowercase(entries[j].config.name@), lowercase(pattern), i)
}

proof fn lemma_found_has_infix(entries: Seq<PoolEntry>, pattern: Seq<char>, k: int)
    requires
        0 <= k < selected_by_name(entries, pattern).len(),
    ensures
        found_by_name(entries, pattern, k),
    decreases entries.len(),
{
    let rest = entries.drop_last();
    let sel_rest = selected_by_name(rest, pattern);
    let last = entries.last();
    let n = entries.len() - 1;
    if crate::text::has_infix(lowercase(last.config.name@), lowercase(pattern)) && k == sel_rest.len() {
        let i = choose|i: int| crate::text::occurs_at(lowercase(last.config.name@), lowercase(pattern), i);
        assert(entries[n] == last);
        assert(crate::text::occurs_at(lowercase(entries[n].config.name@), lowercase(pattern), i));
    } else {
        lemma_found_has_infix(rest, pattern, k);
        assert(sel_rest[k] == selected_by_name(entries, pattern)[k]);
        let (j, i) = choose|j: int, i: int|
            0 <= j < rest.len() && rest[j].config == sel_rest[k]
                && #[trigger] crate::text::occurs_at(lowercase(rest[j].config.name@), lowercase(pattern), i);
        assert(entries[j] == rest[j]);
        assert(crate::text::occurs_at(lowercase(entries[j].config.name@), lowercase(pattern), i));
    }
}

proof fn lemma_infix_is_found(entries: Seq<PoolEntry>, pattern: Seq<char>, j: int, i: int)
    requires
        0 <= j < entries.len(),
        crate::text::occurs_at(lowercase(entries[j].config.name@), lowercase(pattern), i),
    ensures
        selected_by_name(entries, pattern).contains(entries[j].config),
    decreases entries.len(),
{
    let rest = entries.drop_last();
    let sel = selected_by_name(entries, pattern);
    let sel_rest = selected_by_name(rest, pattern);
    let last = entries.last();
    let n = entries.len() - 1;
    if j < n {
        assert(entries[j] == rest[j]);
        lemma_infix_is_found(rest, pattern, j, i);
        let w = choose|w: int| 0 <= w < sel_rest.len() && sel_rest[w] == rest[j].config;
        if crate::text::has_infix(lowercase(last.config.name@), lowercase(pattern)) {
            assert(sel[w] == sel_rest[w]);
        } else {
            assert(sel == sel_rest);
        }
    } else {
        assert(entries[j] == last);
        assert(crate::text::has_infix(lowercase(last.config.name@), lowercase(pattern)));
        assert(sel[sel_rest.len() as int] == last.config);
    }
}

/// The name search finds a server exactly when its lower-cased name contains the
/// lower-cased pattern at some position: every server whose name holds the pattern
/// anywhere is found, and every server found has a name that holds it.
pub proof fn law_name_search_finds_infix(entries: Seq<PoolEntry>, pattern: Seq<char>)
    ensures
        forall|j: int, i: int|
            0 <= j < entries.len() && #[trigger] crate::text::occurs_at(lowercase(entries[j].config.name@), lowercase(pattern), i)
                ==> selected_by_name(entries, pattern).contains(entries[j].config),
        forall|k: int| 0 <= k < selected_by_name(entries, pattern).len() ==> #[trigger] found_by_name(entries, pattern, k),
{
    assert forall|j: int, i: int|
        0 <= j < entries.len() && #[trigger] crate::text::occurs_at(lowercase(entries[j].config.name@), lowercase(pattern), i)
            implies selected_by_name(entries, pattern).contains(entries[j].config) by {
        lemma_infix_is_found(entries, pattern, j, i);
    }
    assert forall|k: int| 0 <= k < selected_by_name(entries, pattern).len() implies #[trigger] found_by_name(entries, pattern, k) by {
        lemma_found_has_infix(entries, pattern, k);
    }
}

/// Two configurations hold the same values.
pub open spec fn same_config(a: ServerConfig, b: ServerConfig) -> bool {
    a.id == b.id && a.name == b.name && a.url == b.url && a.users@ == b.users@ && a.is_active == b.is_active
}

/// The characters of a text in lower case, as the standard library lowers them.
pub uninterp spec fn lowercase(s: Seq<char>) -> Seq<char>;

/// The text in lower case (`str::to_lowercase`).
#[verifier::external_body]
fn to_lowercase(s: &str) -> (r: String)
    ensures
        r@ == lowercase(s@),
{
    s.to_lowercase()
}

impl ClientManager {
    /// The abstract state of this pool.
    pub closed spec fn view_pool(&self) -> PoolView {
        PoolView { entries: self.entries@, active: opt_text(self.active_server_id) }
    }

    /// The events queued for listeners, oldest first.
    pub closed spec fn view_events(&self) -> Seq<ClientManagerEvent> {
        self.events@
    }

    /// Whether this pool follows its rules.
    pub open spec fn wf(&self) -> bool {
        self.view_pool().wf()
    }

    /// An empty pool.
    pub fn new() -> (m: ClientManager)
        ensures
            m.wf(),
            m.view_pool().entries.len() == 0,
            m.view_pool().active is None,
            m.view_events().len() == 0,
    {
        ClientManager { entries: Vec::new(), active_server_id: None, events: Vec::new() }
    }

    /// Hands over the queued events, oldest first, and empties the queue.
    pub fn take_events(&mut self) -> (r: Vec<ClientManagerEvent>)
        ensures
            r@ == old(self).view_events(),
            final(self).view_events().len() == 0,
            final(self).view_pool() == old(self).view_pool(),
    {
        let mut taken: Vec<ClientManagerEvent> = Vec::new();
        std::mem::swap(&mut taken, &mut self.events);
        taken
    }

    fn find(&self, id: &str) -> (r: Option<usize>)
        requires
            self.wf(),
        ensures
            match r {
                Some(i) => i < self.view_pool().entries.len() && has_id(self.view_pool().entries, id@)
                    && position(self.view_pool().entries, id@) == i,
                None => !has_id(self.view_pool().entries, id@),
            },
    {
        let mut i: usize = 0;
        while i < self.entries.len()
            invariant
                i <= self.entries.len(),
                self.wf(),
                forall|j: int| 0 <= j < i ==> self.entries@[j].config.id@ != id@,
            decreases self.entries.len() - i,
        {
            if same_text(self.entries[i].config.id.as_str(), id) {
                proof {
                    lemma_position(self.entries@, id@, i as int);
                }
                return Some(i);
            }
            i = i + 1;
        }
        None
    }

    /// Adds a server, not connected and not active; refused when its id is already in the
    /// pool.
    pub fn add_server(&mut self, server_config: ServerConfig) -> (r: Result<(), CrabfinError>)
        requires
            old(self).wf(),
        ensures
            final(self).wf(),
            r is Ok <==> !has_id(old(self).view_pool().entries, server_config.id@),
            r is Ok ==> final(self).view_pool() == (PoolView {
                entries: old(self).view_pool().entries.push(PoolEntry { config: server_config, connected: false, is_active: false }),
                active: old(self).view_pool().active,
            }),
            r matches Err(e) ==> final(self).view_pool() == old(self).view_pool()
                && is_config_error(e, "Server with ID '"@ + server_config.id@ + "' already exists"@),
            r is Ok ==> extends_by(old(self).view_events(), final(self).view_events(), 1)
                && announces_added(final(self).view_events().last(), server_config),
            r is Err ==> final(self).view_events() == old(self).view_events(),
    {
        match self.find(server_config.id.as_str()) {
            Some(_) => {
                Err(CrabfinError::Configuration(concat3("Server with ID '", server_config.id.as_str(), "' already exists")))
            },
            None => {
                let ghost before = self.entries@;
                let ghost entry = PoolEntry { config: server_config, connected: false, is_active: false };
                let ghost ev0 = self.events@;
                let event = ClientManagerEvent::ServerAdded {
                    server_id: server_config.id.clone(),
                    server_config: server_config.clone(),
                };
                let ghost e = event;
                self.events.push(event);
                proof {
                    lemma_push_extends(ev0, e);
                }
                self.entries.push(PoolEntry { config: server_config, connected: false, is_active: false });
                proof {
                    let es = self.entries@;
                    assert(es == before.push(entry));
                    assert forall|a: int, b: int|
                        0 <= a < es.len() && 0 <= b < es.len() && a != b implies es[a].config.id@ != es[b].config.id@ by {
                        if a < before.len() && b < before.len() {
                        } else if a == before.len() {
                            assert(es[b] == before[b]);
                        } else {
                            assert(es[a] == before[a]);
                        }
                    }
                    match opt_text(self.active_server_id) {
                        Some(x) => {
                            let k = position(before, x);
                            assert(es[k] == before[k]);
                            lemma_position(es, x, k);
                        },
                        None => {},
                    }
                }
                Ok(())
            },
        }
    }

    /// Removes a server; when it was the active one no server is active afterwards.
    /// Refused when the id is not in the pool.
    pub fn remove_server(&mut self, server_id: &str) -> (r: Result<(), CrabfinError>)
        requires
            old(self).wf(),
        ensures
            final(self).wf(),
            r is Ok <==> has_id(old(self).view_pool().entries, server_id@),
            r is Ok ==> final(self).view_pool() == (PoolView {
                entries: old(self).view_pool().entries.remove(position(old(self).view_pool().entries, server_id@)),
                active: if old(self).view_pool().active == Some(server_id@) { None } else { old(self).view_pool().active },
            }),
            r matches Err(e) ==> final(self).view_pool() == old(self).view_pool()
                && is_config_error(e, "Server with ID '"@ + server_id@ + "' not found"@),
            r is Ok && old(self).view_pool().active == Some(server_id@) ==>
                extends_by(old(self).view_events(), final(self).view_events(), 2)
                && announces_switch(final(self).view_events()[old(self).view_events().len() as int], Some(server_id@), None)
                && announces_removed(final(self).view_events().last(), server_id@),
            r is Ok && old(self).view_pool().active != Some(server_id@) ==>
                extends_by(old(self).view_events(), final(self).view_events(), 1)
                && announces_removed(final(self).view_events().last(), server_id@),
            r is Err ==> final(self).view_events() == old(self).view_events(),
    {
        match self.find(server_id) {
            None => Err(CrabfinError::Configuration(concat3("Server with ID '", server_id, "' not found"))),
            Some(i) => {
                let ghost before = self.entries@;
                let ghost was_active = opt_text(self.active_server_id);
                let was = match &self.active_server_id {
                    Some(a) => same_text(a.as_str(), server_id),
                    None => false,
                };
                let ghost ev0 = self.events@;
                self.entries.remove(i);
                let switched = ClientManagerEvent::ActiveServerChanged {
                    old_server_id: Some(String::from_str(server_id)),
                    new_server_id: None,
                };
                let ghost e1 = switched;
                if was {
                    self.active_server_id = None;
                    self.events.push(switched);
                }
                let removed = ClientManagerEvent::ServerRemoved { server_id: String::from_str(server_id) };
                let ghost e2 = removed;
                self.events.push(removed);
                proof {
                    if was {
                        lemma_push_twice_extends(ev0, e1, e2);
                    } else {
                        lemma_push_extends(ev0, e2);
                    }
                }
                proof {
                    let es = self.entries@;
                    assert(es == before.remove(i as int));
                    assert forall|a: int, b: int|
                        0 <= a < es.len() && 0 <= b < es.len() && a != b implies es[a].config.id@ != es[b].config.id@ by {
                        let a0 = if a < i { a } else { a + 1 };
                        let b0 = if b < i { b } else { b + 1 };
                        assert(es[a] == before[a0]);
                        assert(es[b] == before[b0]);
                    }
                    match opt_text(self.active_server_id) {
                        Some(x) => {
                            let k = position(before, x);
                            assert(k != i);
                            let k2 = if k < i { k } else { k - 1 };
                            assert(es[k2] == before[k]);
                            lemma_position(es, x, k2);
                        },
                        None => {},
                    }
                    assert forall|j: int| 0 <= j < es.len() && #[trigger] es[j].is_active
                        implies opt_text(self.active_server_id) == Some(es[j].config.id@) by {
                        let j0 = if j < i { j } else { j + 1 };
                        assert(es[j] == before[j0]);
                        assert(was_active == Some(before[j0].config.id@));
                        assert(before[j0].config.id@ != server_id@);
                    }
                }
                Ok(())
            },
        }
    }

    /// Records that the server's client connected. Refused when the id is not in the pool.
    pub fn connect_server(&mut self, server_id: &str) -> (r: Result<(), CrabfinError>)
        requires
            old(self).wf(),
        ensures
            final(self).wf(),
            r is Ok <==> has_id(old(self).view_pool().entries, server_id@),
            r is Ok ==> final(self).view_pool() == (PoolView {
                entries: old(self).view_pool().entries.update(
                    position(old(self).view_pool().entries, server_id@),
                    PoolEntry { connected: true, ..old(self).view_pool().entries[position(old(self).view_pool().entries, server_id@)] },
                ),
                active: old(self).view_pool().active,
            }),
            r matches Err(e) ==> final(self).view_pool() == old(self).view_pool()
                && is_config_error(e, not_in_pool(server_id@)),
            final(self).view_events() == old(self).view_events(),
    {
        match self.find(server_id) {
            None => Err(CrabfinError::Configuration(concat3("Server with ID '", server_id, "' not found in pool"))),
            Some(i) => {
                let ghost before = self.entries@;
                self.entries[i].connected = true;
                proof {
                    let es = self.entries@;
                    assert forall|a: int, b: int|
                        0 <= a < es.len() && 0 <= b < es.len() && a != b implies es[a].config.id@ != es[b].config.id@ by {
                        assert(es[a].config == before[a].config);
                        assert(es[b].config == before[b].config);
                    }
                    match opt_text(self.active_server_id) {
                        Some(x) => {
                            let k = position(before, x);
                            assert(es[k].config == before[k].config);
                            lemma_position(es, x, k);
                        },
                        None => {},
                    }
                    assert forall|j: int| 0 <= j < es.len() && #[trigger] es[j].is_active
                        implies opt_text(self.active_server_id) == Some(es[j].config.id@) by {
                        assert(before[j].is_active);
                    }
                }
                Ok(())
            },
        }
    }

    /// Records that the server's client disconnected; it is no longer active, and when it
    /// was the active server no server is active afterwards. Refused when the id is not in
    /// the pool.
    pub fn disconnect_server(&mut self, server_id: &str) -> (r: Result<(), CrabfinError>)
        requires
            old(self).wf(),
        ensures
            final(self).wf(),
            r is Ok <==> has_id(old(self).view_pool().entries, server_id@),
            r is Ok ==> final(self).view_pool() == (PoolView {
                entries: old(self).view_pool().entries.update(
                    position(old(self).view_pool().entries, server_id@),
                    PoolEntry { connected: false, is_active: false, ..old(self).view_pool().entries[position(old(self).view_pool().entries, server_id@)] },
                ),
                active: if old(self).view_pool().active == Some(server_id@) { None } else { old(self).view_pool().active },
            }),
            r matches Err(e) ==> final(self).view_pool() == old(self).view_pool()
                && is_config_error(e, not_in_pool(server_id@)),
            r is Ok && old(self).view_pool().active == Some(server_id@) ==>
                extends_by(old(self).view_events(), final(self).view_events(), 1)
                && announces_switch(final(self).view_events().last(), Some(server_id@), None),
            !(r is Ok && old(self).view_pool().active == Some(server_id@)) ==>
                final(self).view_events() == old(self).view_events(),
    {
        match self.find(server_id) {
            None => Err(CrabfinError::Configuration(concat3("Server with ID '", server_id, "' not found in pool"))),
            Some(i) => {
                let ghost before = self.entries@;
                let ghost was_active = opt_text(self.active_server_id);
                let was = match &self.active_server_id {
                    Some(a) => same_text(a.as_str(), server_id),
                    None => false,
                };
                let ghost ev0 = self.events@;
                self.entries[i].connected = false;
                self.entries[i].is_active = false;
                if was {
                    self.active_server_id = None;
                    let switched = ClientManagerEvent::ActiveServerChanged {
                        old_server_id: Some(String::from_str(server_id)),
                        new_server_id: None,
                    };
                    let ghost e = switched;
                    self.events.push(switched);
                    proof {
                        lemma_push_extends(ev0, e);
                    }
                }
                proof {
                    let es = self.entries@;
                    assert(es =~= before.update(i as int, PoolEntry { connected: false, is_active: false, ..before[i as int] }));
                    assert forall|a: int, b: int|
                        0 <= a < es.len() && 0 <= b < es.len() && a != b implies es[a].config.id@ != es[b].config.id@ by {
                        assert(es[a].config == before[a].config);
                        assert(es[b].config == before[b].config);
                    }
                    match opt_text(self.active_server_id) {
                        Some(x) => {
                            let k = position(before, x);
                            assert(k != i);
                            assert(es[k] == before[k]);
                            lemma_position(es, x, k);
                        },
                        None => {},
                    }
                    assert forall|j: int| 0 <= j < es.len() && #[trigger] es[j].is_active
                        implies opt_text(self.active_server_id) == Some(es[j].config.id@) by {
                        assert(j != i);
                        assert(before[j].is_active);
                        assert(was_active == Some(before[j].config.id@));
                    }
                }
                Ok(())
            },
        }
    }

    /// Makes a connected server the active one; the previously active server is no longer
    /// active. Refused when the id is not in the pool, or names a server that is not
    /// connected.
    pub fn set_active_server(&mut self, server_id: &str) -> (r: Result<(), CrabfinError>)
        requires
            old(self).wf(),
        ensures
            final(self).wf(),
            r is Ok <==> (has_id(old(self).view_pool().entries, server_id@)
                && old(self).view_pool().entries[position(old(self).view_pool().entries, server_id@)].connected),
            r is Ok ==> final(self).view_pool().active == Some(server_id@)
                && final(self).view_pool().entries.len() == old(self).view_pool().entries.len()
                && forall|j: int| 0 <= j < old(self).view_pool().entries.len() ==>
                    (#[trigger] final(self).view_pool().entries[j]) == (PoolEntry {
                        is_active: old(self).view_pool().entries[j].config.id@ == server_id@,
                        ..old(self).view_pool().entries[j]
                    }),
            r matches Err(e) ==> final(self).view_pool() == old(self).view_pool() && (
                if has_id(old(self).view_pool().entries, server_id@) {
                    is_config_error(e, "Server '"@ + server_id@ + "' is not connected"@)
                } else {
                    is_config_error(e, not_in_pool(server_id@))
                }),
            r is Ok ==> extends_by(old(self).view_events(), final(self).view_events(), 1)
                && announces_switch(final(self).view_events().last(), old(self).view_pool().active, Some(server_id@)),
            r is Err ==> final(self).view_events() == old(self).view_events(),
    {
        let i = match self.find(server_id) {
            None => {
                return Err(CrabfinError::Configuration(concat3("Server with ID '", server_id, "' not found in pool")));
            },
            Some(i) => i,
        };
        if !self.entries[i].connected {
            return Err(CrabfinError::Configuration(concat3("Server '", server_id, "' is not connected")));
        }
        let ghost before = self.entries@;
        let ghost old_active = opt_text(self.active_server_id);
        let old_position = match &self.active_server_id {
            Some(a) => self.find(a.as_str()),
            None => None,
        };
        if let Some(k) = old_position {
            self.entries[k].is_active = false;
        }
        self.entries[i].is_active = true;
        let previous = match &self.active_server_id {
            Some(a) => Some(a.clone()),
            None => None,
        };
        self.active_server_id = Some(String::from_str(server_id));
        let ghost ev0 = self.events@;
        let switched = ClientManagerEvent::ActiveServerChanged {
            old_server_id: previous,
            new_server_id: Some(String::from_str(server_id)),
        };
        let ghost e = switched;
        self.events.push(switched);
        proof {
            lemma_push_extends(ev0, e);
        }
        proof {
            let es = self.entries@;
            assert forall|j: int| 0 <= j < before.len() implies (#[trigger] es[j]) == (PoolEntry {
                is_active: before[j].config.id@ == server_id@,
                ..before[j]
            }) by {
                if j == i {
                } else {
                    lemma_position(before, before[j].config.id@, j);
                    if before[j].is_active {
                        assert(old_active == Some(before[j].config.id@));
                    }
                }
            }
            assert forall|a: int, b: int|
                0 <= a < es.len() && 0 <= b < es.len() && a != b implies es[a].config.id@ != es[b].config.id@ by {
                assert(es[a].config == before[a].config);
                assert(es[b].config == before[b].config);
            }
            lemma_position(es, server_id@, i as int);
        }
        Ok(())
    }

    /// The id of the active server.
    pub fn get_active_server_id(&self) -> (r: Option<String>)
        ensures
            opt_text(r) == self.view_pool().active,
    {
        match &self.active_server_id {
            Some(a) => Some(a.clone()),
            None => None,
        }
    }

    /// The configuration of a server of the pool; refused when the id is not in the pool.
    pub fn get_client(&self, server_id: &str) -> (r: Result<&ServerConfig, CrabfinError>)
        requires
            self.wf(),
        ensures
            r is Ok <==> has_id(self.view_pool().entries, server_id@),
            r matches Ok(c) ==> *c == self.view_pool().entries[position(self.view_pool().entries, server_id@)].config,
            r matches Err(e) ==> is_config_error(e, not_in_pool(server_id@)),
    {
        match self.find(server_id) {
            Some(i) => Ok(&self.entries[i].config),
            None => Err(CrabfinError::Configuration(concat3("Server with ID '", server_id, "' not found in pool"))),
        }
    }

    /// A copy of the configuration of a server of the pool, if it is there.
    pub fn get_server_config(&self, server_id: &str) -> (r: Option<ServerConfig>)
        requires
            self.wf(),
        ensures
            r is Some <==> has_id(self.view_pool().entries, server_id@),
            r matches Some(c) ==> ({
                let e = self.view_pool().entries[position(self.view_pool().entries, server_id@)].config;
                c.id == e.id && c.name == e.name && c.url == e.url && c.users@ == e.users@ && c.is_active
                    == e.is_active
            }),
    {
        match self.find(server_id) {
            Some(i) => Some(self.entries[i].config.clone()),
            None => None,
        }
    }

    /// The configuration of the active server; refused when no server is active.
    pub fn get_active_client(&self) -> (r: Result<&ServerConfig, CrabfinError>)
        requires
            self.wf(),
        ensures
            r is Ok <==> self.view_pool().active is Some,
            r matches Ok(c) ==> c.id@ == self.view_pool().active->0
                && *c == self.view_pool().entries[position(self.view_pool().entries, self.view_pool().active->0)].config,
            r matches Err(e) ==> is_config_error(e, "No active server set"@),
    {
        match &self.active_server_id {
            Some(a) => self.get_client(a.as_str()),
            None => Err(CrabfinError::Configuration(String::from_str("No active server set"))),
        }
    }

    /// Copies of the configurations of all servers, in the pool's order.
    pub fn list_servers(&self) -> (r: Vec<ServerConfig>)
        ensures
            r@.len() == self.view_pool().entries.len(),
            forall|j: int| 0 <= j < r@.len() ==> (#[trigger] r@[j]).id == self.view_pool().entries[j].config.id
                && r@[j].name == self.view_pool().entries[j].config.name
                && r@[j].url == self.view_pool().entries[j].config.url
                && r@[j].users@ == self.view_pool().entries[j].config.users@
                && r@[j].is_active == self.view_pool().entries[j].config.is_active,
    {
        let mut r: Vec<ServerConfig> = Vec::new();
        let mut i: usize = 0;
        while i < self.entries.len()
            invariant
                i <= self.entries.len(),
                r@.len() == i,
                forall|j: int| 0 <= j < i ==> (#[trigger] r@[j]).id == self.entries@[j].config.id
                    && r@[j].name == self.entries@[j].config.name
                    && r@[j].url == self.entries@[j].config.url
                    && r@[j].users@ == self.entries@[j].config.users@
                    && r@[j].is_active == self.entries@[j].config.is_active,
            decreases self.entries.len() - i,
        {
            r.push(self.entries[i].config.clone());
            i = i + 1;
        }
        r
    }

    /// Whether the server is in the pool and connected.
    pub fn is_server_connected(&self, server_id: &str) -> (b: bool)
        requires
            self.wf(),
        ensures
            b == (has_id(self.view_pool().entries, server_id@)
                && self.view_pool().entries[position(self.view_pool().entries, server_id@)].connected),
    {
        match self.find(server_id) {
            Some(i) => self.entries[i].connected,
            None => false,
        }
    }

    /// Whether the server is in the pool and active.
    pub fn is_server_active(&self, server_id: &str) -> (b: bool)
        requires
            self.wf(),
        ensures
            b == (has_id(self.view_pool().entries, server_id@)
                && self.view_pool().entries[position(self.view_pool().entries, server_id@)].is_active),
    {
        match self.find(server_id) {
            Some(i) => self.entries[i].is_active,
            None => false,
        }
    }

    fn select(&self, want: Selection) -> (r: Vec<ServerConfig>)
        ensures
            r@.len() == selected(self.view_pool().entries, want).len(),
            forall|j: int| 0 <= j < r@.len() ==> same_config(#[trigger] r@[j], selected(self.view_pool().entries, want)[j]),
    {
        let mut r: Vec<ServerConfig> = Vec::new();
        let lowered: Option<String> = match &want {
            Selection::NameContains(p) => Some(to_lowercase(p.as_str())),
            _ => None,
        };
        let mut i: usize = 0;
        while i < self.entries.len()
            invariant
                i <= self.entries.len(),
                match want {
                    Selection::NameContains(p) => lowered matches Some(l) && l@ == lowercase(p@),
                    _ => true,
                },
                r@.len() == selected(self.entries@.take(i as int), want).len(),
                forall|j: int| 0 <= j < r@.len() ==> same_config(#[trigger] r@[j], selected(self.entries@.take(i as int), want)[j]),
            decreases self.entries.len() - i,
        {
            proof {
                assert(self.entries@.take(i + 1).drop_last() =~= self.entries@.take(i as int));
            }
            let keep = match &want {
                Selection::Connected => self.entries[i].connected,
                Selection::Disconnected => !self.entries[i].connected,
                Selection::NameContains(_) => match &lowered {
                    Some(l) => crate::text::contains(to_lowercase(self.entries[i].config.name.as_str()).as_str(), l.as_str()),
                    None => false,
                },
            };
            if keep {
                r.push(self.entries[i].config.clone());
            }
            i = i + 1;
        }
        proof {
            assert(self.entries@.take(self.entries.len() as int) =~= self.entries@);
        }
        r
    }

    /// Copies of the configurations of the connected servers, in the pool's order.
    pub fn get_connected_servers(&self) -> (r: Vec<ServerConfig>)
        ensures
            r@.len() == selected(self.view_pool().entries, Selection::Connected).len(),
            forall|j: int| 0 <= j < r@.len() ==>
                same_config(#[trigger] r@[j], selected(self.view_pool().entries, Selection::Connected)[j]),
    {
        self.select(Selection::Connected)
    }

    /// Copies of the configurations of the servers that are not connected, in the pool's order.
    pub fn get_disconnected_servers(&self) -> (r: Vec<ServerConfig>)
        ensures
            r@.len() == selected(self.view_pool().entries, Selection::Disconnected).len(),
            forall|j: int| 0 <= j < r@.len() ==>
                same_config(#[trigger] r@[j], selected(self.view_pool().entries, Selection::Disconnected)[j]),
    {
        self.select(Selection::Disconnected)
    }

    /// Copies of the configurations of the servers whose name contains `name_pattern`,
    /// ignoring case, in the pool's order.
    pub fn find_servers_by_name(&self, name_pattern: &str) -> (r: Vec<ServerConfig>)
        ensures
            r@.len() == selected_by_name(self.view_pool().entries, name_pattern@).len(),
            forall|j: int| 0 <= j < r@.len() ==>
                same_config(#[trigger] r@[j], selected_by_name(self.view_pool().entries, name_pattern@)[j]),
    {
        let want = Selection::NameContains(String::from_str(name_pattern));
        proof {
            lemma_selected_by_name(self.view_pool().entries, want, name_pattern@);
        }
        self.select(want)
    }

    /// Disconnects every server and leaves none active.
    pub fn disconnect_all(&mut self)
        requires
            old(self).wf(),
        ensures
            final(self).wf(),
            final(self).view_pool().active is None,
            final(self).view_pool().entries.len() == old(self).view_pool().entries.len(),
            forall|j: int| 0 <= j < old(self).view_pool().entries.len() ==>
                (#[trigger] final(self).view_pool().entries[j]) == (PoolEntry {
                    connected: false, is_active: false, ..old(self).view_pool().entries[j]
                }),
            old(self).view_pool().active is Some ==> extends_by(old(self).view_events(), final(self).view_events(), 1)
                && announces_switch(final(self).view_events().last(), old(self).view_pool().active, None),
            old(self).view_pool().active is None ==> final(self).view_events() == old(self).view_events(),
    {
        let ghost before = self.entries@;
        let ghost ev0 = self.events@;
        let ghost active0 = self.active_server_id;
        let mut i: usize = 0;
        while i < self.entries.len()
            invariant
                i <= self.entries.len(),
                self.events@ == ev0,
                self.active_server_id == active0,
                self.entries@.len() == before.len(),
                forall|j: int| 0 <= j < i ==> (#[trigger] self.entries@[j]) == (PoolEntry {
                    connected: false, is_active: false, ..before[j]
                }),
                forall|j: int| i <= j < before.len() ==> (#[trigger] self.entries@[j]) == before[j],
            decreases self.entries.len() - i,
        {
            self.entries[i].connected = false;
            self.entries[i].is_active = false;
            i = i + 1;
        }
        let previous = match &self.active_server_id {
            Some(a) => Some(a.clone()),
            None => None,
        };
        if previous.is_some() {
            let switched = ClientManagerEvent::ActiveServerChanged { old_server_id: previous, new_server_id: None };
            let ghost e = switched;
            self.events.push(switched);
            proof {
                lemma_push_extends(ev0, e);
            }
        }
        self.active_server_id = None;
        proof {
            let es = self.entries@;
            assert forall|a: int, b: int|
                0 <= a < es.len() && 0 <= b < es.len() && a != b implies es[a].config.id@ != es[b].config.id@ by {
                assert(es[a].config == before[a].config);
                assert(es[b].config == before[b].config);
            }
        }
    }

    /// Counts of all, connected and active servers.
    pub fn get_pool_stats(&self) -> (s: PoolStats)
        requires
            self.wf(),
        ensures
            s.total_servers == self.view_pool().entries.len(),
            s.connected_servers == count_connected(self.view_pool().entries),
            s.active_servers == count_active(self.view_pool().entries),
            s.active_servers <= 1,
    {
        let mut connected: usize = 0;
        let mut active: usize = 0;
        let mut i: usize = 0;
        while i < self.entries.len()
            invariant
                i <= self.entries.len(),
                connected == count_connected(self.entries@.take(i as int)),
                active == count_active(self.entries@.take(i as int)),
            decreases self.entries.len() - i,
        {
            proof {
                assert(self.entries@.take(i + 1).drop_last() =~= self.entries@.take(i as int));
                lemma_count_bound(self.entries@.take(i as int));
            }
            if self.entries[i].connected {
                connected = connected + 1;
            }
            if self.entries[i].is_active {
                active = active + 1;
            }
            i = i + 1;
        }
        proof {
            assert(self.entries@.take(self.entries.len() as int) =~= self.entries@);
            law_at_most_one_active(self.view_pool());
        }
        PoolStats { total_servers: self.entries.len(), connected_servers: connected, active_servers: active }
    }
}

impl Default for ClientManager {
    /// An empty pool.
    fn default() -> (m: ClientManager)
        ensures
            m.wf(),
            m.view_pool().entries.len() == 0,
            m.view_pool().active is None,
            m.view_events().len() == 0,
    {
        ClientManager::new()
    }
}

} // verus!
