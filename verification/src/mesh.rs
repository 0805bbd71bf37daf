//! A node of the mesh: what it is, which peers it knows and which names it publishes.
use vstd::prelude::*;

use crate::scope::MeshScopeId;
use crate::string_map::{with_key, without, StringMap};
use crate::tools;
use crate::tools::contains_name;

verus! {

/// The transports that a node was started with.
#[derive(Debug, Clone, Copy, PartialEq, Eq, Structural)]
pub enum MeshTransportMode {
    Lan,
    Iroh,
    Composite,
}

/// A node of the mesh. The names that it publishes are kept apart, in a `NameTable`.
#[derive(Debug)]
pub struct MeshHandle {
    pub peer_id: String,
    pub hostname: String,
    pub mode: MeshTransportMode,
    /// How long a stream waits for its receiver to come back, in milliseconds.
    pub stream_reconnect_grace_ms: u64,
    /// The peers that are known to be alive.
    pub alive_peers: Vec<String>,
    pub active_scopes: Vec<MeshScopeId>,
    /// The Iroh scopes among them.
    pub joined_iroh_scopes: Vec<MeshScopeId>,
}

impl MeshHandle {
    /// The id of the node.
    pub fn peer_id(&self) -> (id: &str)
        ensures
            id@ == self.peer_id@,
    {
        self.peer_id.as_str()
    }

    /// The name of the host that the node runs on.
    pub fn local_hostname(&self) -> (name: &str)
        ensures
            name@ == self.hostname@,
    {
        self.hostname.as_str()
    }

    /// Whether a peer is known to be alive.
    pub fn is_peer_alive(&self, peer_id: &str) -> (yes: bool)
        ensures
            yes == tools::lists(self.alive_peers@, peer_id@),
    {
        contains_name(&self.alive_peers, peer_id)
    }

    /// The peers that are known to be alive.
    pub fn known_peer_ids(&self) -> (peers: Vec<String>)
        ensures
            peers@ == self.alive_peers@,
    {
        self.alive_peers.clone()
    }
}

/// What is asked of the mesh. Any node may answer.
#[derive(Debug, PartialEq, Eq)]
pub enum MeshLookup {
    /// The actor that is published under a name; with `retry`, the mesh is asked again for
    /// a while where it does not know the name.
    One { name: String, retry: bool },
    /// All actors that are published under a name.
    All { name: String },
}

/// An actor that is to be published in the mesh under a name.
#[derive(Debug, PartialEq, Eq)]
pub struct Publication {
    pub name: String,
    pub actor: u64,
}

/// The names that a node publishes again whenever it rejoins the mesh, and the actor that it
/// publishes under each. These are the node's own: what the mesh knows is asked of the mesh.
#[derive(Debug)]
pub struct NameTable {
    names: StringMap<u64>,
}

impl View for NameTable {
    type V = Map<Seq<char>, u64>;

    closed spec fn view(&self) -> Map<Seq<char>, u64> {
        self.names@
    }
}

impl NameTable {
    /// Every name is for one actor.
    pub closed spec fn wf(&self) -> bool {
        self.names.wf()
    }

    /// The names, in order.
    pub closed spec fn order(&self) -> Seq<Seq<char>> {
        self.names.key_order()
    }

    /// The names, in order, once `name` is one of them.
    pub open spec fn order_with(&self, name: Seq<char>) -> Seq<Seq<char>> {
        with_key(self.order(), name, self@.dom().contains(name))
    }

    /// A table without names.
    pub fn new() -> (table: Self)
        ensures
            table.wf(),
            table@ == Map::<Seq<char>, u64>::empty(),
            table.order() == Seq::<Seq<char>>::empty(),
    {
        NameTable { names: StringMap::new() }
    }

    /// Publishes an actor under a name, now and whenever the node rejoins. The name is then
    /// published again for no other actor.
    pub fn register_actor(&mut self, name: String, actor: u64) -> (publication: Publication)
        requires
            old(self).wf(),
        ensures
            final(self).wf(),
            publication.name@ == name@,
            publication.actor == actor,
            final(self)@ == old(self)@.insert(name@, actor),
            final(self).order() == old(self).order_with(name@),
    {
        let published = name.clone();
        let _before = self.names.insert(name, actor);
        Publication { name: published, actor }
    }

    /// The actor that is published again under a name, if one is.
    pub fn re_registered(&self, name: &str) -> (actor: Option<u64>)
        requires
            self.wf(),
        ensures
            actor == if self@.dom().contains(name@) {
                Some(self@[name@])
            } else {
                None
            },
    {
        match self.names.get(name) {
            Some(actor) => Some(*actor),
            None => None,
        }
    }

    /// No longer publishes a name again. What the mesh knows of it stays, and the other names
    /// stay in their order.
    pub fn deregister_actor(&mut self, name: &str)
        requires
            old(self).wf(),
        ensures
            final(self).wf(),
            final(self)@ == old(self)@.remove(name@),
            final(self).order() == without(old(self).order(), name@),
    {
        let _before = self.names.remove(name);
    }

    /// How many names are published again when the node rejoins.
    pub fn re_register_fns_count(&self) -> (n: usize)
        requires
            self.wf(),
        ensures
            n == self.order().len(),
    {
        self.names.len()
    }

    /// Whether a name is published again when the node rejoins.
    pub fn has_re_register_fn(&self, name: &str) -> (yes: bool)
        requires
            self.wf(),
        ensures
            yes == self@.dom().contains(name@),
    {
        self.names.contains_key(name)
    }
}

/// A name that is registered again keeps its place among the names, and a new one comes last.
pub proof fn law_registered_names_keep_their_places(table: NameTable, name: Seq<char>)
    ensures
        table@.dom().contains(name) ==> table.order_with(name) == table.order(),
        !table@.dom().contains(name) ==> table.order_with(name) == table.order().push(name),
{
}

} // verus!
