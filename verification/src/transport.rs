//! A transport over which the actors of the mesh are published and found.
use vstd::prelude::*;

use crate::mesh::{MeshHandle, MeshLookup, NameTable, Publication};
use crate::tools;
use std::sync::Arc;

verus! {

/// A transport that stands on a node of the mesh.
#[derive(Debug)]
pub struct DynMeshTransport {
    pub inner: Arc<MeshHandle>,
}

impl DynMeshTransport {
    /// A transport over the given node.
    pub fn new(handle: MeshHandle) -> (transport: Self)
        ensures
            *transport.inner == handle,
    {
        DynMeshTransport { inner: Arc::new(handle) }
    }

    /// The node.
    pub fn handle(&self) -> (handle: &MeshHandle)
        ensures
            *handle == *self.inner,
    {
        &self.inner
    }

    /// The id of the node.
    pub fn peer_id(&self) -> (id: &str)
        ensures
            id@ == self.inner.peer_id@,
    {
        self.inner.peer_id()
    }

    /// The name of the host that the node runs on.
    pub fn local_hostname(&self) -> (name: &str)
        ensures
            name@ == self.inner.hostname@,
    {
        self.inner.local_hostname()
    }

    /// Whether a peer is known to be alive.
    pub fn is_peer_alive(&self, peer_id: &str) -> (yes: bool)
        ensures
            yes == tools::lists(self.inner.alive_peers@, peer_id@),
    {
        self.inner.is_peer_alive(peer_id)
    }

    /// Publishes an actor under a name, now and whenever the node rejoins.
    pub fn register_actor(&self, table: &mut NameTable, actor: u64, name: String) -> (publication:
        Publication)
        requires
            old(table).wf(),
        ensures
            final(table).wf(),
            publication.name@ == name@,
            publication.actor == actor,
            final(table)@ == old(table)@.insert(name@, actor),
            final(table).order() == old(table).order_with(name@),
    {
        table.register_actor(name, actor)
    }

    /// Asks the mesh for the actor under a name, again for a while where it is not known.
    pub fn lookup_actor(&self, name: String) -> (lookup: MeshLookup)
        ensures
            lookup == (MeshLookup::One { name, retry: true }),
    {
        MeshLookup::One { name, retry: true }
    }

    /// Asks the mesh for all actors under a name.
    pub fn lookup_all_actors(&self, name: String) -> (lookup: MeshLookup)
        ensures
            lookup == (MeshLookup::All { name }),
    {
        MeshLookup::All { name }
    }
}

} // verus!
