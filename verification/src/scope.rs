//! Mesh scopes and the names under which actors are published in them.
//!
//! A scope is a namespace: it decides the prefix of the keys under which remote actors
//! are registered and looked up. The LAN scope has no prefix.
use vstd::prelude::*;

use crate::text::str_eq;

verus! {

/// A namespace of the mesh.
///
/// Scoped names keep lookups of one scope apart from those of another. They are no access
/// control: who knows a scope's id can query its keys.
#[derive(Debug, PartialEq, Eq, Hash)]
pub enum MeshScopeId {
    /// The ambient LAN scope.
    Lan,
    /// An Iroh mesh, by its id.
    Iroh { mesh_id: String },
}

impl Clone for MeshScopeId {
    fn clone(&self) -> (copy: Self)
        ensures
            copy == *self,
    {
        match self {
            MeshScopeId::Lan => MeshScopeId::Lan,
            MeshScopeId::Iroh { mesh_id } => MeshScopeId::Iroh { mesh_id: mesh_id.clone() },
        }
    }
}

impl View for MeshScopeId {
    type V = Option<Seq<char>>;

    /// The id of an Iroh mesh; nothing for the LAN.
    open spec fn view(&self) -> Option<Seq<char>> {
        match self {
            MeshScopeId::Lan => None,
            MeshScopeId::Iroh { mesh_id } => Some(mesh_id@),
        }
    }
}

/// The key prefix of a scope: nothing for the LAN, `scope::{mesh_id}::` for an Iroh mesh.
pub open spec fn prefix(scope: Option<Seq<char>>) -> Seq<char> {
    match scope {
        None => Seq::empty(),
        Some(mesh_id) => "scope::"@ + mesh_id + "::"@,
    }
}

/// A scope in words.
pub open spec fn scope_label(scope: Option<Seq<char>>) -> Seq<char> {
    match scope {
        None => "lan"@,
        Some(mesh_id) => "iroh:"@ + mesh_id,
    }
}

impl MeshScopeId {
    /// The scope of the local network.
    pub fn lan_default() -> (scope: Self)
        ensures
            scope == MeshScopeId::Lan,
    {
        MeshScopeId::Lan
    }

    /// The key prefix of the scope.
    pub fn dht_prefix(&self) -> (out: String)
        ensures
            out@ == prefix(self@),
    {
        match self {
            MeshScopeId::Lan => String::new(),
            MeshScopeId::Iroh { mesh_id } => {
                let mut out = "scope::".to_string();
                out.append(mesh_id.as_str());
                out.append("::");
                out
            },
        }
    }

    /// Whether this is the LAN scope.
    pub fn is_lan(&self) -> (yes: bool)
        ensures
            yes == (self@ is None),
    {
        match self {
            MeshScopeId::Lan => true,
            MeshScopeId::Iroh { .. } => false,
        }
    }

    /// Whether this is the scope of an Iroh mesh.
    pub fn is_iroh(&self) -> (yes: bool)
        ensures
            yes == (self@ is Some),
    {
        match self {
            MeshScopeId::Lan => false,
            MeshScopeId::Iroh { .. } => true,
        }
    }

    /// The id of the Iroh mesh, if this is the scope of one.
    pub fn iroh_mesh_id(&self) -> (id: Option<&str>)
        ensures
            match id {
                Some(id) => self@ == Some(id@),
                None => self@ is None,
            },
    {
        match self {
            MeshScopeId::Lan => None,
            MeshScopeId::Iroh { mesh_id } => Some(mesh_id.as_str()),
        }
    }

    /// The scope in words.
    pub fn label(&self) -> (out: String)
        ensures
            out@ == scope_label(self@),
    {
        match self {
            MeshScopeId::Lan => "lan".to_string(),
            MeshScopeId::Iroh { mesh_id } => {
                let mut out = "iroh:".to_string();
                out.append(mesh_id.as_str());
                out
            },
        }
    }

    /// Whether two scopes are the same.
    pub fn same_as(&self, other: &MeshScopeId) -> (yes: bool)
        ensures
            yes == (self@ == other@),
    {
        match (self, other) {
            (MeshScopeId::Lan, MeshScopeId::Lan) => true,
            (MeshScopeId::Iroh { mesh_id: a }, MeshScopeId::Iroh { mesh_id: b }) => str_eq(
                a.as_str(),
                b.as_str(),
            ),
            _ => false,
        }
    }
}

/// How a peer is reached.
#[derive(Clone, Copy, Debug, PartialEq, Eq, Hash, Structural)]
pub enum MeshTransportKind {
    /// The local network.
    Lan,
    /// Iroh, over the internet.
    Iroh,
}

impl MeshTransportKind {
    /// The transport in words.
    pub fn label(&self) -> (out: &'static str)
        ensures
            out@ == match self {
                MeshTransportKind::Lan => "lan"@,
                MeshTransportKind::Iroh => "iroh"@,
            },
    {
        match self {
            MeshTransportKind::Lan => "lan",
            MeshTransportKind::Iroh => "iroh",
        }
    }
}

/// The unscoped name of the node manager of a peer.
pub open spec fn node_manager_for_peer_name(peer: Seq<char>) -> Seq<char> {
    "node_manager::peer::"@ + peer
}

/// The unscoped name of the provider host of a peer.
pub open spec fn provider_host_name(peer: Seq<char>) -> Seq<char> {
    "provider_host::peer::"@ + peer
}

/// The unscoped name of a session.
pub open spec fn session_name(session: Seq<char>) -> Seq<char> {
    "session::"@ + session
}

/// The unscoped name of the event relay of a session on a peer.
pub open spec fn event_relay_name(session: Seq<char>, peer: Seq<char>) -> Seq<char> {
    "event_relay::"@ + session + "::"@ + peer
}

fn prefixed(scope: &MeshScopeId, head: &str, tail: &str) -> (out: String)
    ensures
        out@ == prefix(scope@) + (head@ + tail@),
{
    let mut out = scope.dht_prefix();
    out.append(head);
    out.append(tail);
    assert(out@ =~= prefix(scope@) + (head@ + tail@));
    out
}

/// The name of the node manager of a scope.
pub fn scoped_node_manager(scope: &MeshScopeId) -> (out: String)
    ensures
        out@ == prefix(scope@) + "node_manager"@,
{
    let mut out = scope.dht_prefix();
    out.append("node_manager");
    out
}

/// The name of the node manager of a peer in a scope.
pub fn scoped_node_manager_for_peer(scope: &MeshScopeId, peer_id: &str) -> (out: String)
    ensures
        out@ == prefix(scope@) + node_manager_for_peer_name(peer_id@),
{
    prefixed(scope, "node_manager::peer::", peer_id)
}

/// The name of the provider host of a peer in a scope.
pub fn scoped_provider_host(scope: &MeshScopeId, peer_id: &str) -> (out: String)
    ensures
        out@ == prefix(scope@) + provider_host_name(peer_id@),
{
    prefixed(scope, "provider_host::peer::", peer_id)
}

/// The name of the provider host of a peer without a scope.
pub fn unscoped_provider_host(peer_id: &str) -> (out: String)
    ensures
        out@ == provider_host_name(peer_id@),
{
    let mut out = "provider_host::peer::".to_string();
    out.append(peer_id);
    out
}

/// The name of a session without a scope.
pub fn unscoped_session(session_id: &str) -> (out: String)
    ensures
        out@ == session_name(session_id@),
{
    let mut out = "session::".to_string();
    out.append(session_id);
    out
}

/// The name of a session in a scope.
pub fn scoped_session(scope: &MeshScopeId, session_id: &str) -> (out: String)
    ensures
        out@ == prefix(scope@) + session_name(session_id@),
{
    prefixed(scope, "session::", session_id)
}

/// The name of the event relay of a session on a peer in a scope.
pub fn scoped_event_relay(scope: &MeshScopeId, session_id: &str, peer_id: &str) -> (out: String)
    ensures
        out@ == prefix(scope@) + event_relay_name(session_id@, peer_id@),
{
    let mut out = prefixed(scope, "event_relay::", session_id);
    out.append("::");
    out.append(peer_id);
    assert(out@ =~= prefix(scope@) + event_relay_name(session_id@, peer_id@));
    out
}

/// A name that is published in a mesh, before its scope is put in front.
pub open spec fn is_plain_name(name: Seq<char>) -> bool {
    ||| name == "node_manager"@
    ||| exists|peer: Seq<char>| name == #[trigger] node_manager_for_peer_name(peer)
    ||| exists|peer: Seq<char>| name == #[trigger] provider_host_name(peer)
    ||| exists|session: Seq<char>| name == #[trigger] session_name(session)
    ||| exists|session: Seq<char>, peer: Seq<char>|
        name == #[trigger] event_relay_name(session, peer)
}

/// In the LAN scope a name is what it is without a scope.
pub proof fn law_lan_names_are_unscoped(name: Seq<char>)
    ensures
        prefix(None) + name == name,
{
    assert(prefix(None) + name =~= name);
}

/// The same name is published under different keys in different scopes.
pub proof fn law_scopes_do_not_collide(
    a: Option<Seq<char>>,
    b: Option<Seq<char>>,
    name: Seq<char>,
)
    requires
        a != b,
    ensures
        prefix(a) + name != prefix(b) + name,
{
    if prefix(a) + name == prefix(b) + name {
        let left = prefix(a) + name;
        let right = prefix(b) + name;
        assert(left.len() == right.len());
        assert(prefix(a) =~= left.subrange(0, prefix(a).len() as int));
        assert(prefix(b) =~= right.subrange(0, prefix(b).len() as int));
        reveal_strlit("scope::");
        reveal_strlit("::");
        match (a, b) {
            (Some(x), Some(y)) => {
                assert(x =~= prefix(a).subrange(7, 7int + x.len()));
                assert(y =~= prefix(b).subrange(7, 7int + y.len()));
            },
            _ => {},
        }
    }
}

/// No name of the LAN scope is a name of an Iroh scope.
pub proof fn law_lan_and_iroh_names_are_apart(
    mesh_id: Seq<char>,
    lan_name: Seq<char>,
    iroh_name: Seq<char>,
)
    requires
        is_plain_name(lan_name),
    ensures
        prefix(None) + lan_name != prefix(Some(mesh_id)) + iroh_name,
{
    reveal_strlit("scope::");
    reveal_strlit("node_manager");
    reveal_strlit("node_manager::peer::");
    reveal_strlit("provider_host::peer::");
    reveal_strlit("session::");
    reveal_strlit("event_relay::");
    law_lan_names_are_unscoped(lan_name);
    let scoped = prefix(Some(mesh_id)) + iroh_name;
    assert(scoped[0] == 's' && scoped[1] == 'c');
    assert(lan_name.len() > 1 && (lan_name[0] != 's' || lan_name[1] != 'c'));
}

/// A text without a colon.
pub open spec fn colonless(text: Seq<char>) -> bool {
    forall|i: int| 0 <= i < text.len() ==> #[trigger] text[i] != ':'
}

/// With ids that hold no colon, no name of one Iroh scope is a name of another, whatever
/// the two names are.
pub proof fn law_iroh_names_are_apart(
    a: Seq<char>,
    b: Seq<char>,
    name_a: Seq<char>,
    name_b: Seq<char>,
)
    requires
        a != b,
        colonless(a),
        colonless(b),
    ensures
        prefix(Some(a)) + name_a != prefix(Some(b)) + name_b,
{
    reveal_strlit("scope::");
    reveal_strlit("::");
    let left = prefix(Some(a)) + name_a;
    let right = prefix(Some(b)) + name_b;
    if left == right {
        assert(left[7int + a.len()] == ':');
        assert(right[7int + b.len()] == ':');
        if a.len() < b.len() {
            assert(right[7int + a.len()] == b[a.len() as int]);
        } else if b.len() < a.len() {
            assert(left[7int + b.len()] == a[b.len() as int]);
        } else {
            assert forall|i: int| 0 <= i < a.len() implies a[i] == b[i] by {
                assert(left[7 + i] == a[i]);
                assert(right[7 + i] == b[i]);
            }
            assert(a =~= b);
        }
    }
}

/// Different scopes have different labels.
pub proof fn law_scope_labels_differ(a: Option<Seq<char>>, b: Option<Seq<char>>)
    requires
        scope_label(a) == scope_label(b),
    ensures
        a == b,
{
    reveal_strlit("lan");
    reveal_strlit("iroh:");
    assert("lan"@[0] == 'l');
    match (a, b) {
        (Some(x), Some(y)) => {
            assert(scope_label(a).len() == 5 + x.len() && scope_label(b).len() == 5 + y.len());
            assert(x =~= scope_label(a).subrange(5, 5int + x.len()));
            assert(y =~= scope_label(b).subrange(5, 5int + y.len()));
        },
        (Some(x), None) => {
            assert(scope_label(a)[0] == 'i');
        },
        (None, Some(y)) => {
            assert(scope_label(b)[0] == 'i');
        },
        _ => {},
    }
}

/// The names under which a node registers: what it is, then whose it is; those of a mesh
/// carry the mesh before them.
pub proof fn law_names_tell_what_and_whose(
    mesh_id: Seq<char>,
    peer: Seq<char>,
    session: Seq<char>,
)
    ensures
        prefix(None).len() == 0,
        prefix(Some(mesh_id)) == "scope::"@ + mesh_id + "::"@,
        scope_label(None) == "lan"@,
        scope_label(Some(mesh_id)) == "iroh:"@ + mesh_id,
        node_manager_for_peer_name(peer) == "node_manager::peer::"@ + peer,
        provider_host_name(peer) == "provider_host::peer::"@ + peer,
        session_name(session) == "session::"@ + session,
        event_relay_name(session, peer) == "event_relay::"@ + session + "::"@ + peer,
{
}

/// Two peers have different names for what they run, and two sessions have different names.
pub proof fn law_names_of_different_owners_differ(a: Seq<char>, b: Seq<char>)
    requires
        a != b,
    ensures
        node_manager_for_peer_name(a) != node_manager_for_peer_name(b),
        provider_host_name(a) != provider_host_name(b),
        session_name(a) != session_name(b),
{
    let heads = seq!["node_manager::peer::"@, "provider_host::peer::"@, "session::"@];
    assert forall|k: int| 0 <= k < 3 implies #[trigger] heads[k] + a != heads[k] + b by {
        let head = heads[k];
        if head + a == head + b {
            assert((head + a).skip(head.len() as int) =~= a);
            assert((head + b).skip(head.len() as int) =~= b);
        }
    }
    assert(heads[0] + a != heads[0] + b);
    assert(heads[1] + a != heads[1] + b);
    assert(heads[2] + a != heads[2] + b);
}

/// A scope is known by its mesh, and the local network by none.
pub proof fn law_scopes_are_known_by_their_mesh(scope: MeshScopeId)
    ensures
        scope is Lan ==> scope@ is None,
        scope matches MeshScopeId::Iroh { mesh_id } ==> scope@ == Some(mesh_id@),
{
}

} // verus!
