//! The MCP servers that a session can use: those that are configured, those that a client
//! asks for, and those that the runtime attaches.
use vstd::prelude::*;

use crate::text::str_eq;

verus! {

/// A name with a value: a header of a request, or a variable of an environment.
#[derive(Debug, PartialEq, Eq)]
pub struct NamedValue {
    pub name: String,
    pub value: String,
}

/// A server that is started as a process.
#[derive(Debug, PartialEq, Eq)]
pub struct McpServerStdio {
    pub name: String,
    pub command: String,
    pub args: Vec<String>,
    pub env: Vec<NamedValue>,
}

/// A server that is reached over HTTP.
#[derive(Debug, PartialEq, Eq)]
pub struct McpServerHttp {
    pub name: String,
    pub url: String,
    pub headers: Vec<NamedValue>,
}

/// An MCP server.
#[derive(Debug, PartialEq, Eq)]
pub enum McpServer {
    Stdio(McpServerStdio),
    Http(McpServerHttp),
    /// A server that is reached in a way that is not supported.
    Unsupported,
}

/// The name of a server. A server that is not supported has none.
pub open spec fn server_name(server: McpServer) -> Option<Seq<char>> {
    match server {
        McpServer::Stdio(server) => Some(server.name@),
        McpServer::Http(server) => Some(server.name@),
        McpServer::Unsupported => None,
    }
}

impl McpServer {
    /// The name of the server. A server that is not supported has none.
    pub fn name(&self) -> (name: Option<&str>)
        ensures
            match name {
                Some(name) => server_name(*self) == Some(name@),
                None => server_name(*self) is None,
            },
    {
        match self {
            McpServer::Stdio(server) => Some(server.name.as_str()),
            McpServer::Http(server) => Some(server.name.as_str()),
            McpServer::Unsupported => None,
        }
    }
}

/// A peer that is already connected.
#[derive(Debug, PartialEq, Eq)]
pub struct ConnectedMcpPeer {
    pub server_name: String,
    /// Tells the connection from others.
    pub peer: u64,
}

/// What the runtime attaches to a session.
#[derive(Debug, PartialEq, Eq)]
pub enum SessionMcpAttachment {
    ConnectedPeer(ConnectedMcpPeer),
    ServerConfig(McpServer),
}

/// Why a session is set up.
#[derive(Debug, Clone, Copy, PartialEq, Eq, Structural)]
pub enum SessionMaterializationKind {
    New,
    Load,
    Resume,
    Fork,
    RemoteCreate,
    RemoteResume,
}

/// What a source of attachments is told about a session.
#[derive(Debug, PartialEq, Eq)]
pub struct SessionMcpAttachmentContext {
    pub session_id: String,
    pub cwd: Option<String>,
    pub kind: SessionMaterializationKind,
}

/// A source that has nothing to attach.
#[derive(Debug, Clone, Copy, PartialEq, Eq, Structural)]
pub struct NoopSessionMcpAttachmentSource;

impl NoopSessionMcpAttachmentSource {
    /// What is attached to a session: nothing.
    pub fn attachments(&self, context: &SessionMcpAttachmentContext) -> (attached: Vec<
        SessionMcpAttachment,
    >)
        ensures
            attached@.len() == 0,
    {
        Vec::new()
    }
}

/// The servers among some attachments, in their order.
pub open spec fn servers_of(attachments: Seq<SessionMcpAttachment>) -> Seq<McpServer>
    decreases attachments.len(),
{
    if attachments.len() == 0 {
        Seq::empty()
    } else {
        let before = servers_of(attachments.drop_last());
        match attachments.last() {
            SessionMcpAttachment::ServerConfig(server) => before.push(server),
            SessionMcpAttachment::ConnectedPeer(_) => before,
        }
    }
}

/// The connected peers among some attachments, in their order.
pub open spec fn peers_of(attachments: Seq<SessionMcpAttachment>) -> Seq<ConnectedMcpPeer>
    decreases attachments.len(),
{
    if attachments.len() == 0 {
        Seq::empty()
    } else {
        let before = peers_of(attachments.drop_last());
        match attachments.last() {
            SessionMcpAttachment::ServerConfig(_) => before,
            SessionMcpAttachment::ConnectedPeer(peer) => before.push(peer),
        }
    }
}

/// Splits attachments into servers and connected peers.
pub fn split_attachments(attachments: Vec<SessionMcpAttachment>) -> (split: (
    Vec<McpServer>,
    Vec<ConnectedMcpPeer>,
))
    ensures
        split.0@ == servers_of(attachments@),
        split.1@ == peers_of(attachments@),
{
    let ghost all = attachments@;
    let mut servers: Vec<McpServer> = Vec::new();
    let mut peers: Vec<ConnectedMcpPeer> = Vec::new();
    let mut rest = attachments;
    let total: usize = rest.len();
    let mut taken: usize = 0;
    assert(all.subrange(0, total as int) =~= all);
    while taken < total
        invariant
            taken <= total,
            total == all.len(),
            rest@ == all.subrange(taken as int, total as int),
            servers@ == servers_of(all.subrange(0, taken as int)),
            peers@ == peers_of(all.subrange(0, taken as int)),
        decreases total - taken,
    {
        let ghost longer = all.subrange(0, taken + 1);
        assert(longer.drop_last() =~= all.subrange(0, taken as int));
        assert(longer.last() == all[taken as int]);
        let attachment = rest.remove(0);
        assert(attachment == all[taken as int]);
        assert(rest@ =~= all.subrange(taken + 1, total as int));
        match attachment {
            SessionMcpAttachment::ServerConfig(server) => servers.push(server),
            SessionMcpAttachment::ConnectedPeer(peer) => peers.push(peer),
        }
        taken = taken + 1;
    }
    (servers, peers)
}

/// A server with the name `name` is among `servers`.
pub open spec fn has_server(servers: Seq<McpServer>, name: Seq<char>) -> bool {
    exists|i: int| 0 <= i < servers.len() && server_name(#[trigger] servers[i]) == Some(name)
}

/// The place of the first server with the name `name`.
pub open spec fn first_named(servers: Seq<McpServer>, name: Seq<char>, at: int) -> bool {
    &&& 0 <= at < servers.len()
    &&& server_name(servers[at]) == Some(name)
    &&& forall|i: int| 0 <= i < at ==> server_name(#[trigger] servers[i]) != Some(name)
}

/// `after` is `before` with one more server: in the place of the first server of the same
/// name, or at the end. A server without a name is left out.
pub open spec fn overrides(before: Seq<McpServer>, server: McpServer, after: Seq<McpServer>) -> bool {
    match server_name(server) {
        None => after == before,
        Some(name) => if has_server(before, name) {
            exists|at: int| #[trigger] first_named(before, name, at) && after == before.update(
                at,
                server,
            )
        } else {
            after == before.push(server)
        },
    }
}

/// The servers of `base`, overridden by those of `over` one after the other.
pub open spec fn overridden(base: Seq<McpServer>, over: Seq<McpServer>) -> Seq<McpServer>
    decreases over.len(),
{
    if over.len() == 0 {
        base
    } else {
        let before = overridden(base, over.drop_last());
        let server = over.last();
        match server_name(server) {
            None => before,
            Some(name) => if has_server(before, name) {
                before.update(choose|at: int| first_named(before, name, at), server)
            } else {
                before.push(server)
            },
        }
    }
}

/// There is at most one place where a name comes first.
proof fn lemma_first_is_unique(servers: Seq<McpServer>, name: Seq<char>, a: int, b: int)
    requires
        first_named(servers, name, a),
        first_named(servers, name, b),
    ensures
        a == b,
{
}

fn find_server(servers: &Vec<McpServer>, name: &str) -> (at: Option<usize>)
    ensures
        match at {
            Some(at) => first_named(servers@, name@, at as int) && has_server(servers@, name@),
            None => !has_server(servers@, name@),
        },
{
    let mut i: usize = 0;
    while i < servers.len()
        invariant
            i <= servers@.len(),
            forall|j: int| 0 <= j < i ==> server_name(#[trigger] servers@[j]) != Some(name@),
        decreases servers@.len() - i,
    {
        if let Some(found) = servers[i].name() {
            if str_eq(found, name) {
                return Some(i);
            }
        }
        i = i + 1;
    }
    None
}

/// The servers of `base`, overridden by those of `over`: a server of `over` takes the place
/// of the one with the same name, or comes to the end.
pub fn override_servers(base: Vec<McpServer>, over: Vec<McpServer>) -> (merged: Vec<McpServer>)
    ensures
        merged@ == overridden(base@, over@),
{
    let ghost all = over@;
    let ghost start = base@;
    let mut merged = base;
    let mut rest = over;
    let total: usize = rest.len();
    let mut taken: usize = 0;
    assert(all.subrange(0, total as int) =~= all);
    while taken < total
        invariant
            taken <= total,
            total == all.len(),
            rest@ == all.subrange(taken as int, total as int),
            merged@ == overridden(start, all.subrange(0, taken as int)),
        decreases total - taken,
    {
        let ghost longer = all.subrange(0, taken + 1);
        let ghost before = merged@;
        assert(longer.drop_last() =~= all.subrange(0, taken as int));
        assert(longer.last() == all[taken as int]);
        let server = rest.remove(0);
        assert(server == all[taken as int]);
        assert(rest@ =~= all.subrange(taken + 1, total as int));
        let found = match server.name() {
            Some(name) => Some(find_server(&merged, name)),
            None => None,
        };
        match found {
            Some(Some(at)) => {
                proof {
                    let name = server_name(server)->Some_0;
                    assert(first_named(before, name, at as int));
                    let first = choose|k: int| first_named(before, name, k);
                    lemma_first_is_unique(before, name, first, at as int);
                }
                merged.set(at, server);
            },
            Some(None) => {
                merged.push(server);
            },
            None => {},
        }
        taken = taken + 1;
    }
    merged
}

/// The servers of `base`, and those of `more` whose names are not yet there.
pub open spec fn supplemented(base: Seq<McpServer>, more: Seq<McpServer>) -> Seq<McpServer>
    decreases more.len(),
{
    if more.len() == 0 {
        base
    } else {
        let before = supplemented(base, more.drop_last());
        match server_name(more.last()) {
            None => before,
            Some(name) => if has_server(before, name) {
                before
            } else {
                before.push(more.last())
            },
        }
    }
}

/// The servers of `base`, and those of `more` whose names are not yet there.
pub fn supplement_servers(base: Vec<McpServer>, more: Vec<McpServer>) -> (merged: Vec<McpServer>)
    ensures
        merged@ == supplemented(base@, more@),
{
    let ghost all = more@;
    let ghost start = base@;
    let mut merged = base;
    let mut rest = more;
    let total: usize = rest.len();
    let mut taken: usize = 0;
    assert(all.subrange(0, total as int) =~= all);
    while taken < total
        invariant
            taken <= total,
            total == all.len(),
            rest@ == all.subrange(taken as int, total as int),
            merged@ == supplemented(start, all.subrange(0, taken as int)),
        decreases total - taken,
    {
        let ghost longer = all.subrange(0, taken + 1);
        assert(longer.drop_last() =~= all.subrange(0, taken as int));
        assert(longer.last() == all[taken as int]);
        let server = rest.remove(0);
        assert(server == all[taken as int]);
        assert(rest@ =~= all.subrange(taken + 1, total as int));
        let is_new = match server.name() {
            Some(name) => find_server(&merged, name).is_none(),
            None => false,
        };
        if is_new {
            merged.push(server);
        }
        taken = taken + 1;
    }
    merged
}

/// No two servers have the same name.
pub open spec fn distinct_servers(servers: Seq<McpServer>) -> bool {
    forall|i: int, j: int|
        0 <= i < j < servers.len() && server_name(#[trigger] servers[i]) is Some ==> server_name(
            servers[i],
        ) != server_name(#[trigger] servers[j])
}

proof fn lemma_overridden_step(base: Seq<McpServer>, over: Seq<McpServer>)
    requires
        over.len() > 0,
    ensures
        overrides(overridden(base, over.drop_last()), over.last(), overridden(base, over)),
{
    let before = overridden(base, over.drop_last());
    match server_name(over.last()) {
        None => {},
        Some(name) => {
            if has_server(before, name) {
                lemma_first_exists(before, name);
                let at = choose|at: int| first_named(before, name, at);
                assert(first_named(before, name, at));
            }
        },
    }
}

proof fn lemma_first_exists(servers: Seq<McpServer>, name: Seq<char>)
    requires
        has_server(servers, name),
    ensures
        exists|at: int| first_named(servers, name, at),
    decreases servers.len(),
{
    let last = servers.len() - 1;
    let before = servers.drop_last();
    if has_server(before, name) {
        lemma_first_exists(before, name);
        let at = choose|at: int| first_named(before, name, at);
        assert(first_named(servers, name, at)) by {
            assert forall|i: int| 0 <= i < at implies server_name(#[trigger] servers[i]) != Some(
                name,
            ) by {
                assert(before[i] == servers[i]);
            }
        }
    } else {
        assert(first_named(servers, name, last)) by {
            let i = choose|i: int|
                0 <= i < servers.len() && server_name(#[trigger] servers[i]) == Some(name);
            assert forall|i: int| 0 <= i < last implies server_name(#[trigger] servers[i]) != Some(
                name,
            ) by {
                assert(before[i] == servers[i]);
            }
            assert(i == last);
        }
    }
}

/// Servers whose names all differ stay so when they are overridden: no name is there twice.
pub proof fn law_overriding_keeps_names_distinct(base: Seq<McpServer>, over: Seq<McpServer>)
    requires
        distinct_servers(base),
    ensures
        distinct_servers(overridden(base, over)),
    decreases over.len(),
{
    if over.len() > 0 {
        let before = overridden(base, over.drop_last());
        let after = overridden(base, over);
        law_overriding_keeps_names_distinct(base, over.drop_last());
        lemma_overridden_step(base, over);
        if server_name(over.last()) is Some {
            let name = server_name(over.last())->Some_0;
            if has_server(before, name) {
                let at = choose|at: int| #[trigger]
                    first_named(before, name, at) && after == before.update(at, over.last());
                assert forall|i: int, j: int|
                    0 <= i < j < after.len() && server_name(#[trigger] after[i]) is Some implies
                    server_name(after[i]) != server_name(#[trigger] after[j]) by {
                    assert(server_name(after[i]) == server_name(before[i]));
                    assert(server_name(after[j]) == server_name(before[j]));
                }
            } else {
                assert forall|i: int, j: int|
                    0 <= i < j < after.len() && server_name(#[trigger] after[i]) is Some implies
                    server_name(after[i]) != server_name(#[trigger] after[j]) by {
                    if j == before.len() {
                        assert(after[i] == before[i]);
                    } else {
                        assert(after[i] == before[i] && after[j] == before[j]);
                    }
                }
            }
        }
    }
}

/// A server that is configured keeps its place unless a server of the same name is asked
/// for.
pub proof fn law_other_servers_stay(base: Seq<McpServer>, over: Seq<McpServer>, i: int)
    requires
        0 <= i < base.len(),
        server_name(base[i]) matches Some(name) ==> !has_server(over, name),
    ensures
        i < overridden(base, over).len(),
        overridden(base, over)[i] == base[i],
    decreases over.len(),
{
    if over.len() > 0 {
        let shorter = over.drop_last();
        let before = overridden(base, shorter);
        let after = overridden(base, over);
        assert(server_name(base[i]) matches Some(name) ==> !has_server(shorter, name)) by {
            if server_name(base[i]) is Some {
                let name = server_name(base[i])->Some_0;
                assert forall|k: int| 0 <= k < shorter.len() implies server_name(
                    #[trigger] shorter[k],
                ) != Some(name) by {
                    assert(shorter[k] == over[k]);
                }
            }
        }
        law_other_servers_stay(base, shorter, i);
        lemma_overridden_step(base, over);
        assert(server_name(over.last()) is Some && server_name(base[i]) is Some ==> server_name(
            over.last(),
        ) != server_name(base[i])) by {
            assert(over[over.len() - 1] == over.last());
        }
        if server_name(over.last()) is Some && has_server(before, server_name(over.last())->Some_0) {
            let name = server_name(over.last())->Some_0;
            let at = choose|at: int| #[trigger]
                first_named(before, name, at) && after == before.update(at, over.last());
            assert(at != i);
        }
    }
}

/// The last server of a name that is asked for is the one that is used under that name.
pub proof fn law_request_wins(base: Seq<McpServer>, over: Seq<McpServer>)
    requires
        over.len() > 0,
        server_name(over.last()) is Some,
        distinct_servers(base),
    ensures
        overridden(base, over).contains(over.last()),
        forall|i: int|
            0 <= i < overridden(base, over).len() && server_name(
                #[trigger] overridden(base, over)[i],
            ) == server_name(over.last()) ==> overridden(base, over)[i] == over.last(),
{
    let before = overridden(base, over.drop_last());
    let after = overridden(base, over);
    let name = server_name(over.last())->Some_0;
    lemma_overridden_step(base, over);
    law_overriding_keeps_names_distinct(base, over);
    let at = if has_server(before, name) {
        choose|at: int| #[trigger]
            first_named(before, name, at) && after == before.update(at, over.last())
    } else {
        before.len() as int
    };
    assert(after[at] == over.last());
    assert forall|i: int|
        0 <= i < after.len() && server_name(#[trigger] after[i]) == server_name(
            over.last(),
        ) implies after[i] == over.last() by {
        if i < at {
            assert(server_name(after[i]) != server_name(after[at]));
        } else if at < i {
            assert(server_name(after[at]) != server_name(after[i]));
        }
    }
}

/// Servers that are attached never take the place of others.
pub proof fn law_attached_servers_override_nothing(base: Seq<McpServer>, more: Seq<McpServer>, i: int)
    requires
        0 <= i < base.len(),
    ensures
        i < supplemented(base, more).len(),
        supplemented(base, more)[i] == base[i],
    decreases more.len(),
{
    if more.len() > 0 {
        law_attached_servers_override_nothing(base, more.drop_last(), i);
    }
}

/// A server has the name that its configuration gives it, and one that cannot be reached has
/// none.
pub proof fn law_servers_have_their_names(server: McpServer)
    ensures
        server matches McpServer::Stdio(config) ==> server_name(server) == Some(config.name@),
        server matches McpServer::Http(config) ==> server_name(server) == Some(config.name@),
        server is Unsupported ==> server_name(server) is None,
{
}

/// What is attached is parted into configurations and connections, each in order and none
/// lost.
pub proof fn law_attachments_are_parted_in_order(
    attachments: Seq<SessionMcpAttachment>,
    attachment: SessionMcpAttachment,
)
    ensures
        servers_of(Seq::empty()).len() == 0,
        peers_of(Seq::empty()).len() == 0,
        attachment matches SessionMcpAttachment::ServerConfig(server) ==> servers_of(
            attachments.push(attachment),
        ) == servers_of(attachments).push(server) && peers_of(attachments.push(attachment))
            == peers_of(attachments),
        attachment matches SessionMcpAttachment::ConnectedPeer(peer) ==> peers_of(
            attachments.push(attachment),
        ) == peers_of(attachments).push(peer) && servers_of(attachments.push(attachment))
            == servers_of(attachments),
{
    assert(attachments.push(attachment).drop_last() =~= attachments);
}

/// One more server of a request takes the place of the first server of its name, and goes to
/// the end where there is none of its name; one without a name is left out.
pub proof fn law_requested_servers_take_the_place_of_their_name(
    base: Seq<McpServer>,
    over: Seq<McpServer>,
    server: McpServer,
    at: int,
)
    ensures
        overridden(base, Seq::empty()) == base,
        ({
            let before = overridden(base, over);
            let after = overridden(base, over.push(server));
            &&& server_name(server) is None ==> after == before
            &&& server_name(server) is Some && 0 <= at < before.len() && server_name(before[at])
                == server_name(server) && (forall|i: int|
                0 <= i < at ==> server_name(#[trigger] before[i]) != server_name(server)) ==> after
                == before.update(at, server)
            &&& server_name(server) is Some && (forall|i: int|
                0 <= i < before.len() ==> server_name(#[trigger] before[i]) != server_name(server))
                ==> after == before.push(server)
        }),
{
    let before = overridden(base, over);
    assert(over.push(server).drop_last() =~= over);
    if server_name(server) is Some && 0 <= at < before.len() && server_name(before[at])
        == server_name(server) && (forall|i: int|
        0 <= i < at ==> server_name(#[trigger] before[i]) != server_name(server)) {
        let name = server_name(server)->Some_0;
        assert(has_server(before, name));
        assert(first_named(before, name, at));
        let chosen = choose|k: int| first_named(before, name, k);
        assert(server_name(before[chosen]) == Some(name));
        assert(chosen == at);
    }
}

/// One more attached server goes to the end where its name is new, and changes nothing
/// otherwise.
pub proof fn law_attached_servers_are_added_under_new_names(
    base: Seq<McpServer>,
    more: Seq<McpServer>,
    server: McpServer,
)
    ensures
        supplemented(base, Seq::empty()) == base,
        ({
            let before = supplemented(base, more);
            let after = supplemented(base, more.push(server));
            &&& server_name(server) is None ==> after == before
            &&& server_name(server) is Some && (forall|i: int|
                0 <= i < before.len() ==> server_name(#[trigger] before[i]) != server_name(server))
                ==> after == before.push(server)
            &&& server_name(server) is Some && (exists|i: int|
                0 <= i < before.len() && server_name(#[trigger] before[i]) == server_name(server))
                ==> after == before
        }),
{
    let before = supplemented(base, more);
    assert(more.push(server).drop_last() =~= more);
    if server_name(server) is Some && (exists|i: int|
        0 <= i < before.len() && server_name(#[trigger] before[i]) == server_name(server)) {
        assert(has_server(before, server_name(server)->Some_0));
    }
}

} // verus!
