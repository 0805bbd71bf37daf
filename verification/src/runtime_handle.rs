//! Handles to the mesh: of a whole node, and of one scope of it.
use vstd::prelude::*;

use crate::mesh::{MeshHandle, MeshLookup, MeshTransportMode, NameTable, Publication};
use crate::scope;
use crate::scope::{
    scoped_event_relay, scoped_node_manager, scoped_node_manager_for_peer, scoped_provider_host,
    scoped_session, MeshScopeId, MeshTransportKind,
};
use crate::string_map::without;
use crate::tools;
use std::sync::Arc;

verus! {

/// `lookup` asks for the actor under `name`.
pub open spec fn asks_for_one(lookup: MeshLookup, name: Seq<char>, retry: bool) -> bool {
    lookup matches MeshLookup::One { name: asked, retry: again } && asked@ == name && again
        == retry
}

/// `lookup` asks for all actors under `name`.
pub open spec fn asks_for_all(lookup: MeshLookup, name: Seq<char>) -> bool {
    lookup matches MeshLookup::All { name: asked } && asked@ == name
}

/// A handle to a node, shared by all that use it.
#[derive(Debug)]
pub struct MeshRuntimeHandle {
    pub inner: Arc<MeshHandle>,
}

impl Clone for MeshRuntimeHandle {
    fn clone(&self) -> (copy: Self)
        ensures
            copy == *self,
    {
        MeshRuntimeHandle { inner: self.inner.clone() }
    }
}

/// The transports of a mode, in order of preference.
pub open spec fn transports(mode: MeshTransportMode) -> Seq<MeshTransportKind> {
    match mode {
        MeshTransportMode::Lan => seq![MeshTransportKind::Lan],
        MeshTransportMode::Iroh => seq![MeshTransportKind::Iroh],
        MeshTransportMode::Composite => seq![MeshTransportKind::Lan, MeshTransportKind::Iroh],
    }
}

/// A name as it is published in a scope.
fn scoped_name(scope: &MeshScopeId, name: &str) -> (out: String)
    ensures
        out@ == scope::prefix(scope@) + name@,
{
    let mut out = scope.dht_prefix();
    out.append(name);
    out
}

/// The transports of a mode, in order of preference.
pub fn transports_of(mode: MeshTransportMode) -> (kinds: Vec<MeshTransportKind>)
    ensures
        kinds@ == transports(mode),
{
    let mut kinds: Vec<MeshTransportKind> = Vec::new();
    match mode {
        MeshTransportMode::Lan => {
            kinds.push(MeshTransportKind::Lan);
        },
        MeshTransportMode::Iroh => {
            kinds.push(MeshTransportKind::Iroh);
        },
        MeshTransportMode::Composite => {
            kinds.push(MeshTransportKind::Lan);
            kinds.push(MeshTransportKind::Iroh);
        },
    }
    kinds
}

impl MeshRuntimeHandle {
    /// A handle to the given node.
    pub fn new(handle: MeshHandle) -> (runtime: Self)
        ensures
            *runtime.inner == handle,
    {
        MeshRuntimeHandle { inner: Arc::new(handle) }
    }

    /// The node.
    pub fn as_mesh_handle(&self) -> (handle: &MeshHandle)
        ensures
            *handle == *self.inner,
    {
        &self.inner
    }

    /// The id of the node.
    pub fn peer_id(&self) -> (id: &str)
        ensures
            id@ == self.inner.peer_id@,
    {
        self.inner.peer_id()
    }

    /// The name of the host that the node runs on.
    pub fn local_hostname(&self) -> (name: &str)
        ensures
            name@ == self.inner.hostname@,
    {
        self.inner.local_hostname()
    }

    /// Whether a peer is known to be alive.
    pub fn is_peer_alive(&self, peer_id: &str) -> (yes: bool)
        ensures
            yes == tools::lists(self.inner.alive_peers@, peer_id@),
    {
        self.inner.is_peer_alive(peer_id)
    }

    /// How long a stream waits for its receiver to come back, in milliseconds.
    pub fn stream_reconnect_grace(&self) -> (millis: u64)
        ensures
            millis == self.inner.stream_reconnect_grace_ms,
    {
        self.inner.stream_reconnect_grace_ms
    }

    /// The peers that are known to be alive.
    pub fn known_peer_ids(&self) -> (peers: Vec<String>)
        ensures
            peers@ == self.inner.alive_peers@,
    {
        self.inner.known_peer_ids()
    }

    /// The scopes that the node takes part in.
    pub fn active_scopes(&self) -> (scopes: Vec<MeshScopeId>)
        ensures
            scopes@ == self.inner.active_scopes@,
    {
        self.inner.active_scopes.clone()
    }

    /// The Iroh scopes that the node has joined.
    pub fn joined_iroh_scopes(&self) -> (scopes: Vec<MeshScopeId>)
        ensures
            scopes@ == self.inner.joined_iroh_scopes@,
    {
        self.inner.joined_iroh_scopes.clone()
    }

    /// Publishes an actor under a name, now and whenever the node rejoins.
    pub fn register_actor(&self, table: &mut NameTable, actor: u64, name: String) -> (publication:
        Publication)
        requires
            old(table).wf(),
        ensures
            final(table).wf(),
            publication.name@ == name@,
            publication.actor == actor,
            final(table)@ == old(table)@.insert(name@, actor),
            final(table).order() == old(table).order_with(name@),
    {
        table.register_actor(name, actor)
    }

    /// Asks the mesh for the actor under a name, again for a while where it is not known.
    pub fn lookup_actor(&self, name: String) -> (lookup: MeshLookup)
        ensures
            lookup == (MeshLookup::One { name, retry: true }),
    {
        MeshLookup::One { name, retry: true }
    }

    /// Asks the mesh once for the actor under a name.
    pub fn lookup_actor_no_retry(&self, name: String) -> (lookup: MeshLookup)
        ensures
            lookup == (MeshLookup::One { name, retry: false }),
    {
        MeshLookup::One { name, retry: false }
    }

    /// Asks the mesh for all actors under a name.
    pub fn lookup_all_actors(&self, name: String) -> (lookup: MeshLookup)
        ensures
            lookup == (MeshLookup::All { name }),
    {
        MeshLookup::All { name }
    }

    /// No longer publishes a name again. What the mesh knows of it stays.
    pub fn deregister_actor(&self, table: &mut NameTable, name: &str)
        requires
            old(table).wf(),
        ensures
            final(table).wf(),
            final(table)@ == old(table)@.remove(name@),
            final(table).order() == without(old(table).order(), name@),
    {
        table.deregister_actor(name);
    }

    /// How many names are published again when the node rejoins.
    pub fn re_register_fns_count(&self, table: &NameTable) -> (n: usize)
        requires
            table.wf(),
        ensures
            n == table.order().len(),
    {
        table.re_register_fns_count()
    }

    /// Whether a name is published again when the node rejoins.
    pub fn has_re_register_fn(&self, table: &NameTable, name: &str) -> (yes: bool)
        requires
            table.wf(),
        ensures
            yes == table@.dom().contains(name@),
    {
        table.has_re_register_fn(name)
    }

    /// A handle to one scope of the node.
    pub fn scope(&self, scope: MeshScopeId) -> (handle: MeshScopeHandle)
        ensures
            handle.runtime == *self,
            handle.scope == scope,
    {
        MeshScopeHandle { runtime: self.clone(), scope }
    }

    /// Publishes an actor under a name in a scope, now and whenever the node rejoins.
    pub fn register_actor_scoped(
        &self,
        table: &mut NameTable,
        actor: u64,
        scope: &MeshScopeId,
        name: &str,
    ) -> (publication: Publication)
        requires
            old(table).wf(),
        ensures
            final(table).wf(),
            publication.name@ == scope::prefix(scope@) + name@,
            publication.actor == actor,
            final(table)@ == old(table)@.insert(scope::prefix(scope@) + name@, actor),
            final(table).order() == old(table).order_with(scope::prefix(scope@) + name@),
    {
        table.register_actor(scoped_name(scope, name), actor)
    }

    /// Asks the mesh for the actor under a name in a scope, again for a while where it is not
    /// known.
    pub fn lookup_actor_scoped(&self, scope: &MeshScopeId, name: &str) -> (lookup: MeshLookup)
        ensures
            asks_for_one(lookup, scope::prefix(scope@) + name@, true),
    {
        self.lookup_actor(scoped_name(scope, name))
    }

    /// Asks the mesh once for the actor under a name in a scope.
    pub fn lookup_actor_scoped_no_retry(&self, scope: &MeshScopeId, name: &str) -> (lookup:
        MeshLookup)
        ensures
            asks_for_one(lookup, scope::prefix(scope@) + name@, false),
    {
        self.lookup_actor_no_retry(scoped_name(scope, name))
    }

    /// Asks the mesh for all actors under a name in a scope.
    pub fn lookup_all_actors_scoped(&self, scope: &MeshScopeId, name: &str) -> (lookup: MeshLookup)
        ensures
            asks_for_all(lookup, scope::prefix(scope@) + name@),
    {
        self.lookup_all_actors(scoped_name(scope, name))
    }

    /// No longer publishes a name in a scope again. What the mesh knows of it stays.
    pub fn deregister_actor_scoped(&self, table: &mut NameTable, scope: &MeshScopeId, name: &str)
        requires
            old(table).wf(),
        ensures
            final(table).wf(),
            final(table)@ == old(table)@.remove(scope::prefix(scope@) + name@),
            final(table).order() == without(
                old(table).order(),
                scope::prefix(scope@) + name@,
            ),
    {
        let key = scoped_name(scope, name);
        table.deregister_actor(key.as_str());
    }

    /// The transports of the node, in order of preference.
    pub fn enabled_transports(&self) -> (kinds: Vec<MeshTransportKind>)
        ensures
            kinds@ == transports(self.inner.mode),
    {
        transports_of(self.inner.mode)
    }

    /// Whether the node has a transport.
    pub fn has_transport(&self, kind: MeshTransportKind) -> (yes: bool)
        ensures
            yes == transports(self.inner.mode).contains(kind),
    {
        let kinds = self.enabled_transports();
        let mut i: usize = 0;
        while i < kinds.len()
            invariant
                kinds@ == transports(self.inner.mode),
                i <= kinds@.len(),
                forall|j: int| 0 <= j < i ==> kinds@[j] != kind,
            decreases kinds@.len() - i,
        {
            if kinds[i] == kind {
                assert(kinds@[i as int] == kind);
                return true;
            }
            i = i + 1;
        }
        false
    }
}

/// A handle to one scope of a node.
#[derive(Debug)]
pub struct MeshScopeHandle {
    pub runtime: MeshRuntimeHandle,
    pub scope: MeshScopeId,
}

impl MeshScopeHandle {
    /// The scope.
    pub fn scope_id(&self) -> (scope: &MeshScopeId)
        ensures
            *scope == self.scope,
    {
        &self.scope
    }

    /// The handle to the node.
    pub fn runtime(&self) -> (runtime: &MeshRuntimeHandle)
        ensures
            *runtime == self.runtime,
    {
        &self.runtime
    }

    /// The id of the node.
    pub fn peer_id(&self) -> (id: &str)
        ensures
            id@ == self.runtime.inner.peer_id@,
    {
        self.runtime.peer_id()
    }

    /// The name of the host that the node runs on.
    pub fn local_hostname(&self) -> (name: &str)
        ensures
            name@ == self.runtime.inner.hostname@,
    {
        self.runtime.local_hostname()
    }

    /// Whether a peer is known to be alive.
    pub fn is_peer_alive(&self, peer_id: &str) -> (yes: bool)
        ensures
            yes == tools::lists(self.runtime.inner.alive_peers@, peer_id@),
    {
        self.runtime.is_peer_alive(peer_id)
    }

    /// Publishes an actor under a name in the scope, now and whenever the node rejoins.
    pub fn register_actor(&self, table: &mut NameTable, actor: u64, name: &str) -> (publication:
        Publication)
        requires
            old(table).wf(),
        ensures
            final(table).wf(),
            publication.name@ == scope::prefix(self.scope@) + name@,
            publication.actor == actor,
            final(table)@ == old(table)@.insert(scope::prefix(self.scope@) + name@, actor),
            final(table).order() == old(table).order_with(scope::prefix(self.scope@) + name@),
    {
        self.runtime.register_actor_scoped(table, actor, &self.scope, name)
    }

    /// Asks the mesh for the actor under a name in the scope, again for a while where it is
    /// not known.
    pub fn lookup_actor(&self, name: &str) -> (lookup: MeshLookup)
        ensures
            asks_for_one(lookup, scope::prefix(self.scope@) + name@, true),
    {
        self.runtime.lookup_actor_scoped(&self.scope, name)
    }

    /// Asks the mesh once for the actor under a name in the scope.
    pub fn lookup_actor_no_retry(&self, name: &str) -> (lookup: MeshLookup)
        ensures
            asks_for_one(lookup, scope::prefix(self.scope@) + name@, false),
    {
        self.runtime.lookup_actor_scoped_no_retry(&self.scope, name)
    }

    /// Asks the mesh for all actors under a name in the scope.
    pub fn lookup_all_actors(&self, name: &str) -> (lookup: MeshLookup)
        ensures
            asks_for_all(lookup, scope::prefix(self.scope@) + name@),
    {
        self.runtime.lookup_all_actors_scoped(&self.scope, name)
    }

    /// No longer publishes a name in the scope again. What the mesh knows of it stays.
    pub fn deregister_actor(&self, table: &mut NameTable, name: &str)
        requires
            old(table).wf(),
        ensures
            final(table).wf(),
            final(table)@ == old(table)@.remove(scope::prefix(self.scope@) + name@),
            final(table).order() == without(
                old(table).order(),
                scope::prefix(self.scope@) + name@,
            ),
    {
        self.runtime.deregister_actor_scoped(table, &self.scope, name);
    }

    /// The name of the node manager of the scope.
    pub fn node_manager_name(&self) -> (name: String)
        ensures
            name@ == scope::prefix(self.scope@) + "node_manager"@,
    {
        scoped_node_manager(&self.scope)
    }

    /// The name of the node manager of a peer in the scope.
    pub fn node_manager_for_peer_name(&self, peer_id: &str) -> (name: String)
        ensures
            name@ == scope::prefix(self.scope@) + scope::node_manager_for_peer_name(peer_id@),
    {
        scoped_node_manager_for_peer(&self.scope, peer_id)
    }

    /// The name of the provider host of a peer in the scope.
    pub fn provider_host_name(&self, peer_id: &str) -> (name: String)
        ensures
            name@ == scope::prefix(self.scope@) + scope::provider_host_name(peer_id@),
    {
        scoped_provider_host(&self.scope, peer_id)
    }

    /// The name of a session in the scope.
    pub fn session_name(&self, session_id: &str) -> (name: String)
        ensures
            name@ == scope::prefix(self.scope@) + scope::session_name(session_id@),
    {
        scoped_session(&self.scope, session_id)
    }

    /// The name of the event relay of a session on a peer in the scope.
    pub fn event_relay_name(&self, session_id: &str, peer_id: &str) -> (name: String)
        ensures
            name@ == scope::prefix(self.scope@) + scope::event_relay_name(session_id@, peer_id@),
    {
        scoped_event_relay(&self.scope, session_id, peer_id)
    }
}

/// A name that is published in one scope is published there again, and publishing it
/// changes nothing for the same name in another scope.
pub proof fn law_registration_is_scoped(
    table: Map<Seq<char>, u64>,
    here: Option<Seq<char>>,
    there: Option<Seq<char>>,
    name: Seq<char>,
    actor: u64,
)
    requires
        here != there,
    ensures
        ({
            let after = table.insert(scope::prefix(here) + name, actor);
            &&& after.dom().contains(scope::prefix(here) + name)
            &&& after[scope::prefix(here) + name] == actor
            &&& after.dom().contains(scope::prefix(there) + name) == table.dom().contains(
                scope::prefix(there) + name,
            )
            &&& table.dom().contains(scope::prefix(there) + name) ==> after[scope::prefix(there)
                + name] == table[scope::prefix(there) + name]
        }),
{
    scope::law_scopes_do_not_collide(here, there, name);
}

/// Publishing a name that was free and no longer publishing it again leaves the table as it
/// was.
pub proof fn law_deregistration_undoes_registration(
    table: Map<Seq<char>, u64>,
    name: Seq<char>,
    actor: u64,
)
    requires
        !table.dom().contains(name),
    ensures
        table.insert(name, actor).remove(name) == table,
{
    assert(table.insert(name, actor).remove(name) =~= table);
}

/// A lookup asks for the name, and asks again where that is wanted.
pub proof fn law_lookups_ask_for_the_name(lookup: MeshLookup, name: Seq<char>, retry: bool)
    ensures
        asks_for_one(lookup, name, retry) ==> lookup is One && lookup->One_name@ == name
            && lookup->One_retry == retry,
        asks_for_all(lookup, name) ==> lookup is All && lookup->All_name@ == name,
{
}

/// The transports of a node are those of its mode, the local network first.
pub proof fn law_transports_are_those_of_the_mode()
    ensures
        transports(MeshTransportMode::Lan).len() == 1,
        transports(MeshTransportMode::Lan)[0] == MeshTransportKind::Lan,
        transports(MeshTransportMode::Iroh).len() == 1,
        transports(MeshTransportMode::Iroh)[0] == MeshTransportKind::Iroh,
        transports(MeshTransportMode::Composite).len() == 2,
        transports(MeshTransportMode::Composite)[0] == MeshTransportKind::Lan,
        transports(MeshTransportMode::Composite)[1] == MeshTransportKind::Iroh,
{
}

} // verus!
