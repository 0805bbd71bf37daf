//! The sessions of a node: which there are, where their actors are, and how they are found
//! in the mesh.
use vstd::prelude::*;

use crate::error::AgentError;
use crate::runtime_handle::MeshRuntimeHandle;
use crate::scope;
use crate::scope::{scoped_event_relay, scoped_session, MeshScopeId};
use crate::session_mcp;
use crate::session_mcp::{override_servers, McpServer};
use crate::string_map::StringMap;
use crate::text;
use crate::text::{decimal_string, parse_usize};
use time::format_description::well_known::Rfc3339;

verus! {

/// The most sessions that are listed at once.
pub const PAGE_SIZE: usize = 100;

/// `wanted` is among `scopes`.
pub open spec fn has_scope(scopes: Seq<MeshScopeId>, wanted: Option<Seq<char>>) -> bool {
    exists|i: int| 0 <= i < scopes.len() && (#[trigger] scopes[i])@ == wanted
}

/// The scope in which the events of a session are relayed: the preferred one if it is
/// active, or else the first that is, or else the local network.
pub open spec fn relay_scope(
    active: Seq<MeshScopeId>,
    preferred: Option<MeshScopeId>,
) -> MeshScopeId {
    match preferred {
        Some(wanted) if has_scope(active, wanted@) => wanted,
        _ => if active.len() > 0 {
            active[0]
        } else {
            MeshScopeId::Lan
        },
    }
}

/// The scope in which the events of a session are relayed.
#[verifier::loop_isolation(false)]
pub fn select_relay_scope(
    active_scopes: &Vec<MeshScopeId>,
    preferred_scope: Option<MeshScopeId>,
) -> (selected: MeshScopeId)
    ensures
        selected == relay_scope(active_scopes@, preferred_scope),
{
    if let Some(wanted) = preferred_scope {
        let mut i: usize = 0;
        while i < active_scopes.len()
            invariant
                i <= active_scopes@.len(),
                forall|j: int| 0 <= j < i ==> (#[trigger] active_scopes@[j])@ != wanted@,
            decreases active_scopes@.len() - i,
        {
            if active_scopes[i].same_as(&wanted) {
                return wanted;
            }
            i = i + 1;
        }
    }
    if active_scopes.len() > 0 {
        active_scopes[0].clone()
    } else {
        MeshScopeId::lan_default()
    }
}

/// The names of a session in some scopes.
pub open spec fn session_names(scopes: Seq<MeshScopeId>, session: Seq<char>) -> Seq<Seq<char>> {
    Seq::new(
        scopes.len(),
        |i: int| scope::prefix(scopes[i]@) + scope::session_name(session),
    )
}

/// The names of a session in some scopes.
pub fn scoped_session_names(scopes: &Vec<MeshScopeId>, session_id: &str) -> (names: Vec<String>)
    ensures
        text::texts(names@) == session_names(scopes@, session_id@),
{
    let mut names: Vec<String> = Vec::new();
    let mut i: usize = 0;
    while i < scopes.len()
        invariant
            i <= scopes@.len(),
            names@.len() == i,
            forall|j: int|
                0 <= j < i ==> (#[trigger] names@[j])@ == session_names(scopes@, session_id@)[j],
        decreases scopes@.len() - i,
    {
        names.push(scoped_session(&scopes[i], session_id));
        i = i + 1;
    }
    assert(text::texts(names@) =~= session_names(scopes@, session_id@));
    names
}

/// How a session that was set up becomes part of the mesh.
#[derive(Debug, Clone, Copy, PartialEq, Eq, Structural)]
pub struct SessionMaterializationOptions {
    pub attach_mesh_handle: bool,
    pub register_in_dht: bool,
}

/// The actor of a session. Numbers tell actors apart.
#[derive(Debug, PartialEq, Eq)]
pub enum SessionActorRef {
    Local(u64),
    Remote { actor_id: u64, peer_label: String, remote_node_id: Option<String> },
}

impl Clone for SessionActorRef {
    fn clone(&self) -> (copy: Self)
        ensures
            copy == *self,
    {
        match self {
            SessionActorRef::Local(actor) => SessionActorRef::Local(*actor),
            SessionActorRef::Remote { actor_id, peer_label, remote_node_id } => {
                SessionActorRef::Remote {
                    actor_id: *actor_id,
                    peer_label: peer_label.clone(),
                    remote_node_id: remote_node_id.clone(),
                }
            },
        }
    }
}

impl SessionActorRef {
    /// Whether the actor is on another node.
    pub fn is_remote(&self) -> (yes: bool)
        ensures
            yes == (*self is Remote),
    {
        match self {
            SessionActorRef::Local(_) => false,
            SessionActorRef::Remote { .. } => true,
        }
    }
}

/// The number of the actor on the other node, or 0 for an actor on this one.
pub open spec fn remote_id(session: SessionActorRef) -> u64 {
    match session {
        SessionActorRef::Local(_) => 0,
        SessionActorRef::Remote { actor_id, .. } => actor_id,
    }
}

/// The relay that forwards the events of a remote session.
#[derive(Debug, PartialEq, Eq)]
pub struct RemoteRelayRegistration {
    /// The number of the relay's actor, which tells one attachment from the next.
    pub relay_actor_id: u64,
    pub relay_dht_name: String,
    /// The names under which the relay was published.
    pub registered_relay_names: Vec<String>,
    pub linked: bool,
    /// The relay was published in a mesh.
    pub in_mesh: bool,
    pub matched_scope: Option<MeshScopeId>,
}

/// What is known of the attachment of a remote session.
#[derive(Debug, PartialEq, Eq)]
pub struct RemoteAttachmentSnapshot {
    pub session_ref: SessionActorRef,
    pub attachment_id: u64,
    pub remote_actor_id: u64,
    pub node_id: Option<String>,
    pub peer_label: String,
    pub matched_scope: Option<MeshScopeId>,
}

/// A remote session and its relay, ready to be installed.
#[derive(Debug, PartialEq, Eq)]
pub struct PreparedRemoteAttachment {
    pub session_id: String,
    pub session_ref: SessionActorRef,
    pub relay: RemoteRelayRegistration,
}

/// A remote session and its relay that were installed, and are no more.
#[derive(Debug, PartialEq, Eq)]
pub struct InstalledRemoteAttachment {
    pub session_id: String,
    pub session_ref: SessionActorRef,
    pub remote_actor_id: u64,
    pub relay: RemoteRelayRegistration,
}

/// Why a prepared attachment was not installed: another one is current.
#[derive(Debug, Clone, Copy, PartialEq, Eq, Structural)]
pub struct RemoteAttachmentInstallConflict {
    pub expected_attachment_id: Option<u64>,
    pub current_attachment_id: Option<u64>,
}

/// A local session and the names under which it is to be published.
#[derive(Debug, PartialEq, Eq)]
pub struct SessionAnnouncement {
    pub actor: u64,
    pub names: Vec<String>,
}

/// What is to be done about a session that was removed.
#[derive(Debug, PartialEq, Eq)]
pub struct RemovedSession {
    pub session: Option<SessionActorRef>,
    /// The names that are to be taken out of the mesh.
    pub names: Vec<String>,
}

/// A session that was set up.
#[derive(Debug, PartialEq, Eq)]
pub struct SessionMaterialization {
    pub actor: u64,
    /// The names under which the session is to be published.
    pub names: Vec<String>,
}

/// A remote session, as it is listed.
#[derive(Debug, PartialEq, Eq)]
pub struct RemoteSessionEntry {
    pub session_id: String,
    pub peer_label: String,
    pub remote_node_id: Option<String>,
}

/// The sessions of a node.
#[derive(Debug)]
pub struct SessionRegistry {
    pub sessions: StringMap<SessionActorRef>,
    /// The actors of the sessions that were set up on this node.
    pub local_actor_refs: StringMap<u64>,
    /// The relays of remote sessions.
    pub relays: StringMap<RemoteRelayRegistration>,
    pub mesh: Option<MeshRuntimeHandle>,
    /// There is a connection to a client.
    pub has_bridge: bool,
}

/// `listed` are the remote sessions of a registry, in the order in which the sessions came.
pub open spec fn remote_entries(
    order: Seq<Seq<char>>,
    sessions: Map<Seq<char>, SessionActorRef>,
) -> Seq<(Seq<char>, SessionActorRef)>
    decreases order.len(),
{
    if order.len() == 0 {
        Seq::empty()
    } else {
        let before = remote_entries(order.drop_last(), sessions);
        let session = sessions[order.last()];
        if session is Remote {
            before.push((order.last(), session))
        } else {
            before
        }
    }
}

/// `entry` is the entry of a remote session.
pub open spec fn is_entry(entry: RemoteSessionEntry, of: (Seq<char>, SessionActorRef)) -> bool {
    &&& entry.session_id@ == of.0
    &&& of.1 matches SessionActorRef::Remote { peer_label, remote_node_id, .. } && entry.peer_label
        == peer_label && entry.remote_node_id == remote_node_id
}

impl SessionRegistry {
    /// No session is there twice, and a local actor is that of the session itself.
    pub open spec fn wf(&self) -> bool {
        &&& self.sessions.wf()
        &&& self.local_actor_refs.wf()
        &&& self.relays.wf()
        &&& forall|id: Seq<char>| #[trigger]
            self.local_actor_refs@.dom().contains(id) ==> self.sessions@.dom().contains(id)
                && self.sessions@[id] == SessionActorRef::Local(self.local_actor_refs@[id])
    }

    /// The attachment of a session that is current.
    pub open spec fn attachment(&self, id: Seq<char>) -> Option<u64> {
        if self.relays@.dom().contains(id) {
            Some(self.relays@[id].relay_actor_id)
        } else {
            None
        }
    }

    /// The names of a session in the mesh.
    pub open spec fn mesh_names(&self, id: Seq<char>) -> Seq<Seq<char>> {
        match self.mesh {
            Some(mesh) => session_names(mesh.inner.active_scopes@, id),
            None => Seq::empty(),
        }
    }

    /// A registry without sessions.
    pub fn new() -> (registry: Self)
        ensures
            registry.wf(),
            registry.sessions@ == Map::<Seq<char>, SessionActorRef>::empty(),
            registry.local_actor_refs@ == Map::<Seq<char>, u64>::empty(),
            registry.relays@ == Map::<Seq<char>, RemoteRelayRegistration>::empty(),
            registry.sessions.key_order() == Seq::<Seq<char>>::empty(),
            registry.local_actor_refs.key_order() == Seq::<Seq<char>>::empty(),
            registry.relays.key_order() == Seq::<Seq<char>>::empty(),
            registry.mesh is None,
            !registry.has_bridge,
    {
        SessionRegistry {
            sessions: StringMap::new(),
            local_actor_refs: StringMap::new(),
            relays: StringMap::new(),
            mesh: None,
            has_bridge: false,
        }
    }

    /// A client has connected.
    pub fn set_bridge(&mut self)
        ensures
            *final(self) == (SessionRegistry { has_bridge: true, ..*old(self) }),
    {
        self.has_bridge = true;
    }

    /// The node has joined a mesh, or left it. The local sessions that there are are to be
    /// published in every scope of the mesh.
    pub fn set_mesh(&mut self, mesh: Option<MeshRuntimeHandle>) -> (announcements: Vec<
        SessionAnnouncement,
    >)
        requires
            old(self).wf(),
        ensures
            final(self).wf(),
            *final(self) == (SessionRegistry { mesh, ..*old(self) }),
            mesh is None ==> announcements@.len() == 0,
            mesh is Some ==> {
                let order = old(self).local_actor_refs.key_order();
                &&& announcements@.len() == order.len()
                &&& forall|i: int|
                    0 <= i < order.len() ==> {
                        &&& (#[trigger] announcements@[i]).actor
                            == old(self).local_actor_refs@[order[i]]
                        &&& text::texts(announcements@[i].names@) == session_names(
                            mesh->Some_0.inner.active_scopes@,
                            order[i],
                        )
                    }
            },
    {
        let mut announcements: Vec<SessionAnnouncement> = Vec::new();
        if let Some(handle) = &mesh {
            let scopes = handle.active_scopes();
            let mut i: usize = 0;
            let total: usize = self.local_actor_refs.len();
            let ghost order = self.local_actor_refs.key_order();
            while i < total
                invariant
                    self.wf(),
                    order == self.local_actor_refs.key_order(),
                    total == order.len(),
                    i <= total,
                    announcements@.len() == i,
                    scopes@ == handle.inner.active_scopes@,
                    forall|j: int|
                        0 <= j < i ==> {
                            &&& (#[trigger] announcements@[j]).actor
                                == self.local_actor_refs@[order[j]]
                            &&& text::texts(announcements@[j].names@) == session_names(
                                handle.inner.active_scopes@,
                                order[j],
                            )
                        },
                decreases total - i,
            {
                let names = scoped_session_names(&scopes, self.local_actor_refs.key_at(i).as_str());
                let actor: u64 = *self.local_actor_refs.value_at(i);
                announcements.push(SessionAnnouncement { actor, names });
                i = i + 1;
            }
        }
        self.mesh = mesh;
        announcements
    }

    /// The MCP servers of a session: the configured ones, overridden by those that the
    /// client asks for.
    pub fn merged_mcp_servers(
        config_servers: Vec<McpServer>,
        req_servers: Vec<McpServer>,
    ) -> (merged: Vec<McpServer>)
        ensures
            merged@ == session_mcp::overridden(config_servers@, req_servers@),
    {
        override_servers(config_servers, req_servers)
    }

    /// The actor of a session.
    pub fn get(&self, session_id: &str) -> (session: Option<&SessionActorRef>)
        requires
            self.wf(),
        ensures
            match session {
                Some(session) => self.sessions@.dom().contains(session_id@) && *session
                    == self.sessions@[session_id@],
                None => !self.sessions@.dom().contains(session_id@),
            },
    {
        self.sessions.get(session_id)
    }

    /// The actors of those of the given sessions that there are.
    pub fn get_many(&self, session_ids: &Vec<String>) -> (found: StringMap<SessionActorRef>)
        requires
            self.wf(),
        ensures
            found.wf(),
            forall|id: Seq<char>| #[trigger]
                found@.dom().contains(id) <==> text::texts(session_ids@).contains(id)
                    && self.sessions@.dom().contains(id),
            forall|id: Seq<char>| #[trigger]
                found@.dom().contains(id) ==> found@[id] == self.sessions@[id],
    {
        let mut found: StringMap<SessionActorRef> = StringMap::new();
        let mut i: usize = 0;
        while i < session_ids.len()
            invariant
                self.wf(),
                found.wf(),
                i <= session_ids@.len(),
                forall|id: Seq<char>| #[trigger]
                    found@.dom().contains(id) <==> text::texts(
                        session_ids@.subrange(0, i as int),
                    ).contains(id) && self.sessions@.dom().contains(id),
                forall|id: Seq<char>| #[trigger]
                    found@.dom().contains(id) ==> found@[id] == self.sessions@[id],
            decreases session_ids@.len() - i,
        {
            let ghost shorter = text::texts(session_ids@.subrange(0, i as int));
            let ghost longer = text::texts(session_ids@.subrange(0, i + 1));
            let ghost this = session_ids@[i as int]@;
            proof {
                assert(longer =~= shorter.push(this));
                assert forall|id: Seq<char>| #[trigger] longer.contains(id) <==> shorter.contains(
                    id,
                ) || id == this by {
                    if shorter.contains(id) {
                        let k = choose|k: int| 0 <= k < shorter.len() && shorter[k] == id;
                        assert(longer[k] == id);
                    }
                    if id == this {
                        assert(longer[i as int] == id);
                    }
                }
            }
            if let Some(session) = self.sessions.get(session_ids[i].as_str()) {
                found.insert(session_ids[i].clone(), session.clone());
            }
            i = i + 1;
        }
        assert(session_ids@.subrange(0, session_ids@.len() as int) =~= session_ids@);
        found
    }

    /// Puts in the actor of a session. It is not taken to have been set up here.
    pub fn insert(&mut self, session_id: String, session: SessionActorRef)
        requires
            old(self).wf(),
        ensures
            final(self).wf(),
            final(self).sessions@ == old(self).sessions@.insert(session_id@, session),
            final(self).local_actor_refs@ == old(self).local_actor_refs@.remove(session_id@),
            final(self).relays == old(self).relays,
            final(self).mesh == old(self).mesh,
            final(self).has_bridge == old(self).has_bridge,
    {
        self.local_actor_refs.remove(session_id.as_str());
        self.sessions.insert(session_id, session);
    }

    /// Puts in a session that was set up here.
    pub fn register_prepared_session(&mut self, session_id: &str, actor: u64) -> (session:
        SessionActorRef)
        requires
            old(self).wf(),
        ensures
            final(self).wf(),
            session == SessionActorRef::Local(actor),
            final(self).sessions@ == old(self).sessions@.insert(session_id@, session),
            final(self).local_actor_refs@ == old(self).local_actor_refs@.insert(
                session_id@,
                actor,
            ),
            final(self).relays == old(self).relays,
            final(self).mesh == old(self).mesh,
            final(self).has_bridge == old(self).has_bridge,
    {
        let session = SessionActorRef::Local(actor);
        self.sessions.insert(session_id.to_owned(), session.clone());
        self.local_actor_refs.insert(session_id.to_owned(), actor);
        session
    }

    /// The actor of a session that was set up here.
    pub fn local_actor_ref(&self, session_id: &str) -> (actor: Option<u64>)
        requires
            self.wf(),
        ensures
            actor == if self.local_actor_refs@.dom().contains(session_id@) {
                Some(self.local_actor_refs@[session_id@])
            } else {
                None
            },
    {
        match self.local_actor_refs.get(session_id) {
            Some(actor) => Some(*actor),
            None => None,
        }
    }

    /// The mesh that a session is set up with.
    pub fn mesh_for(&self, options: &SessionMaterializationOptions) -> (mesh: Option<
        MeshRuntimeHandle,
    >)
        ensures
            mesh == if options.attach_mesh_handle {
                self.mesh
            } else {
                None
            },
    {
        if options.attach_mesh_handle {
            match &self.mesh {
                Some(mesh) => Some(mesh.clone()),
                None => None,
            }
        } else {
            None
        }
    }

    fn names_in_mesh(&self, session_id: &str) -> (names: Vec<String>)
        ensures
            text::texts(names@) == self.mesh_names(session_id@),
    {
        match &self.mesh {
            Some(mesh) => {
                let scopes = mesh.active_scopes();
                scoped_session_names(&scopes, session_id)
            },
            None => {
                let names: Vec<String> = Vec::new();
                assert(text::texts(names@) =~= Seq::<Seq<char>>::empty());
                names
            },
        }
    }

    /// Puts in a session whose actor was just started, and says what is left to be done
    /// about it.
    pub fn materialize_session_actor(
        &mut self,
        session_id: &str,
        actor: u64,
        options: &SessionMaterializationOptions,
    ) -> (left: SessionMaterialization)
        requires
            old(self).wf(),
        ensures
            final(self).wf(),
            final(self).sessions@ == old(self).sessions@.insert(
                session_id@,
                SessionActorRef::Local(actor),
            ),
            final(self).local_actor_refs@ == old(self).local_actor_refs@.insert(
                session_id@,
                actor,
            ),
            final(self).relays == old(self).relays,
            final(self).mesh == old(self).mesh,
            final(self).has_bridge == old(self).has_bridge,
            left.actor == actor,
            text::texts(left.names@) == if options.register_in_dht {
                old(self).mesh_names(session_id@)
            } else {
                Seq::empty()
            },
    {
        self.register_prepared_session(session_id, actor);
        let names = if options.register_in_dht {
            self.names_in_mesh(session_id)
        } else {
            Vec::new()
        };
        SessionMaterialization { actor, names }
    }

    /// Takes out a session. Its names are to be taken out of the mesh.
    pub fn remove(&mut self, session_id: &str) -> (removed: RemovedSession)
        requires
            old(self).wf(),
        ensures
            final(self).wf(),
            final(self).sessions@ == old(self).sessions@.remove(session_id@),
            final(self).local_actor_refs@ == old(self).local_actor_refs@.remove(session_id@),
            final(self).relays == old(self).relays,
            final(self).mesh == old(self).mesh,
            final(self).has_bridge == old(self).has_bridge,
            removed.session == if old(self).sessions@.dom().contains(session_id@) {
                Some(old(self).sessions@[session_id@])
            } else {
                None
            },
            text::texts(removed.names@) == old(self).mesh_names(session_id@),
    {
        let names = self.names_in_mesh(session_id);
        self.local_actor_refs.remove(session_id);
        let session = self.sessions.remove(session_id);
        RemovedSession { session, names }
    }

    /// The ids of the sessions.
    pub fn session_ids(&self) -> (ids: Vec<String>)
        requires
            self.wf(),
        ensures
            text::texts(ids@) == self.sessions.key_order(),
            text::texts(ids@).no_duplicates(),
            forall|id: Seq<char>|
                text::texts(ids@).contains(id) <==> self.sessions@.dom().contains(id),
    {
        let ids = self.sessions.keys();
        proof {
            self.sessions.lemma_key_order();
            assert(text::texts(ids@) =~= self.sessions.key_order());
        }
        ids
    }

    /// How many sessions there are.
    pub fn len(&self) -> (n: usize)
        requires
            self.wf(),
        ensures
            n == self.sessions.key_order().len(),
    {
        self.sessions.len()
    }

    /// Whether there are no sessions.
    pub fn is_empty(&self) -> (yes: bool)
        requires
            self.wf(),
        ensures
            yes == (self.sessions@ == Map::<Seq<char>, SessionActorRef>::empty()),
            yes == (self.sessions.key_order().len() == 0),
    {
        self.sessions.is_empty()
    }

    /// The sessions whose actors are on other nodes.
    pub fn remote_sessions(&self) -> (listed: Vec<RemoteSessionEntry>)
        requires
            self.wf(),
        ensures
            ({
                let entries = remote_entries(self.sessions.key_order(), self.sessions@);
                &&& listed@.len() == entries.len()
                &&& forall|i: int|
                    0 <= i < entries.len() ==> is_entry(#[trigger] listed@[i], entries[i])
            }),
    {
        let mut listed: Vec<RemoteSessionEntry> = Vec::new();
        let total: usize = self.sessions.len();
        let ghost order = self.sessions.key_order();
        let mut i: usize = 0;
        while i < total
            invariant
                self.wf(),
                order == self.sessions.key_order(),
                total == order.len(),
                i <= total,
                listed@.len() == remote_entries(
                    order.subrange(0, i as int),
                    self.sessions@,
                ).len(),
                forall|j: int|
                    0 <= j < listed@.len() ==> is_entry(
                        #[trigger] listed@[j],
                        remote_entries(order.subrange(0, i as int), self.sessions@)[j],
                    ),
            decreases total - i,
        {
            let ghost longer = order.subrange(0, i + 1);
            assert(longer.drop_last() =~= order.subrange(0, i as int));
            assert(longer.last() == order[i as int]);
            if let SessionActorRef::Remote { peer_label, remote_node_id, .. } =
                self.sessions.value_at(i) {
                listed.push(
                    RemoteSessionEntry {
                        session_id: self.sessions.key_at(i).clone(),
                        peer_label: peer_label.clone(),
                        remote_node_id: remote_node_id.clone(),
                    },
                );
            }
            i = i + 1;
        }
        assert(order.subrange(0, order.len() as int) =~= order);
        listed
    }

    /// The attachment of a session that is current.
    pub fn remote_attachment_id(&self, session_id: &str) -> (id: Option<u64>)
        requires
            self.wf(),
        ensures
            id == self.attachment(session_id@),
    {
        match self.relays.get(session_id) {
            Some(relay) => Some(relay.relay_actor_id),
            None => None,
        }
    }

    /// What is known of the attachment of a remote session.
    pub fn remote_attachment(&self, session_id: &str) -> (found: Option<RemoteAttachmentSnapshot>)
        requires
            self.wf(),
        ensures
            ({
                let id = session_id@;
                let there = self.sessions@.dom().contains(id) && self.relays@.dom().contains(id)
                    && self.sessions@[id] is Remote;
                match found {
                    None => !there,
                    Some(snapshot) => {
                        &&& there
                        &&& snapshot.session_ref == self.sessions@[id]
                        &&& snapshot.attachment_id == self.relays@[id].relay_actor_id
                        &&& snapshot.matched_scope == self.relays@[id].matched_scope
                        &&& snapshot.session_ref == (SessionActorRef::Remote {
                            actor_id: snapshot.remote_actor_id,
                            peer_label: snapshot.peer_label,
                            remote_node_id: snapshot.node_id,
                        })
                    },
                }
            }),
    {
        match (self.sessions.get(session_id), self.relays.get(session_id)) {
            (Some(session), Some(relay)) => match session {
                SessionActorRef::Remote { actor_id, peer_label, remote_node_id } => {
                    let matched_scope = match &relay.matched_scope {
                        Some(scope) => Some(scope.clone()),
                        None => None,
                    };
                    Some(
                        RemoteAttachmentSnapshot {
                            session_ref: session.clone(),
                            attachment_id: relay.relay_actor_id,
                            remote_actor_id: *actor_id,
                            node_id: remote_node_id.clone(),
                            peer_label: peer_label.clone(),
                            matched_scope,
                        },
                    )
                },
                SessionActorRef::Local(_) => None,
            },
            _ => None,
        }
    }

    /// A prepared attachment cannot be installed: another attachment is current than the
    /// one that was expected, or the session is a local one.
    pub open spec fn conflicts(&self, id: Seq<char>, expected: Option<u64>) -> bool {
        ||| self.attachment(id) != expected
        ||| self.sessions@.dom().contains(id) && !(self.sessions@[id] is Remote)
    }

    /// Installs a prepared attachment in the place of the one that is expected, which is
    /// returned. Nothing is changed if another one is current.
    pub fn install_remote_attachment(
        &mut self,
        prepared: PreparedRemoteAttachment,
        expected_attachment_id: Option<u64>,
    ) -> (installed: Result<
        Option<InstalledRemoteAttachment>,
        (PreparedRemoteAttachment, RemoteAttachmentInstallConflict),
    >)
        requires
            old(self).wf(),
        ensures
            final(self).wf(),
            ({
                let id = prepared.session_id@;
                match installed {
                    Err((given_back, conflict)) => {
                        &&& old(self).conflicts(id, expected_attachment_id)
                        &&& *final(self) == *old(self)
                        &&& given_back == prepared
                        &&& conflict.expected_attachment_id == expected_attachment_id
                        &&& conflict.current_attachment_id == old(self).attachment(id)
                    },
                    Ok(before) => {
                        &&& !old(self).conflicts(id, expected_attachment_id)
                        &&& old(self).installed(prepared, *final(self))
                        &&& old(self).taken(id, expected_attachment_id, before)
                    },
                }
            }),
    {
        let current_attachment_id = self.remote_attachment_id(prepared.session_id.as_str());
        let is_local = match self.sessions.get(prepared.session_id.as_str()) {
            Some(session) => !session.is_remote(),
            None => false,
        };
        if !same_id(current_attachment_id, expected_attachment_id) || is_local {
            let conflict = RemoteAttachmentInstallConflict {
                expected_attachment_id,
                current_attachment_id,
            };
            return Err((prepared, conflict));
        }
        let before = self.take_remote_attachment_if_current(
            prepared.session_id.as_str(),
            expected_attachment_id,
        );
        self.local_actor_refs.remove(prepared.session_id.as_str());
        self.sessions.insert(prepared.session_id.clone(), prepared.session_ref);
        self.relays.insert(prepared.session_id, prepared.relay);
        proof {
            let id = prepared.session_id@;
            assert(self.sessions@ =~= old(self).sessions@.insert(id, prepared.session_ref));
            assert(self.local_actor_refs@ =~= old(self).local_actor_refs@.remove(id));
            assert(self.relays@ =~= old(self).relays@.insert(id, prepared.relay));
        }
        Ok(before)
    }

    /// `after` is with the attachment installed.
    pub open spec fn installed(
        &self,
        prepared: PreparedRemoteAttachment,
        after: SessionRegistry,
    ) -> bool {
        let id = prepared.session_id@;
        &&& after.sessions@ == self.sessions@.insert(id, prepared.session_ref)
        &&& after.local_actor_refs@ == self.local_actor_refs@.remove(id)
        &&& after.relays@ == self.relays@.insert(id, prepared.relay)
        &&& after.mesh == self.mesh
        &&& after.has_bridge == self.has_bridge
    }

    /// `after` is without the session and its attachment.
    pub open spec fn detached(&self, id: Seq<char>, after: SessionRegistry) -> bool {
        &&& after.sessions@ == self.sessions@.remove(id)
        &&& after.local_actor_refs@ == self.local_actor_refs@.remove(id)
        &&& after.relays@ == self.relays@.remove(id)
        &&& after.mesh == self.mesh
        &&& after.has_bridge == self.has_bridge
    }

    /// `taken` is the attachment with the expected number, if it is current.
    pub open spec fn taken(
        &self,
        id: Seq<char>,
        expected: Option<u64>,
        taken: Option<InstalledRemoteAttachment>,
    ) -> bool {
        if self.attachment(id) == expected && self.sessions@.dom().contains(id)
            && self.relays@.dom().contains(id) {
            taken matches Some(attachment) && attachment.session_id@ == id
                && attachment.session_ref == self.sessions@[id] && attachment.relay
                == self.relays@[id] && attachment.remote_actor_id == remote_id(self.sessions@[id])
        } else {
            taken is None
        }
    }

    /// Takes out the attachment of a session if it is the given one.
    pub fn invalidate_remote_attachment_if_current(
        &mut self,
        session_id: &str,
        attachment_id: u64,
    ) -> (taken: Option<InstalledRemoteAttachment>)
        requires
            old(self).wf(),
        ensures
            final(self).wf(),
            old(self).taken(session_id@, Some(attachment_id), taken),
            taken is None ==> *final(self) == *old(self),
            taken is Some ==> old(self).detached(session_id@, *final(self)),
    {
        self.take_remote_attachment_if_current(session_id, Some(attachment_id))
    }

    /// Takes out the attachment of a session.
    pub fn take_remote_attachment(&mut self, session_id: &str) -> (taken: Option<
        InstalledRemoteAttachment,
    >)
        requires
            old(self).wf(),
        ensures
            final(self).wf(),
            old(self).attachment(session_id@) is None ==> taken is None,
            old(self).taken(session_id@, old(self).attachment(session_id@), taken),
            taken is None ==> *final(self) == *old(self),
            taken is Some ==> old(self).detached(session_id@, *final(self)),
    {
        match self.remote_attachment_id(session_id) {
            Some(attachment_id) => self.take_remote_attachment_if_current(
                session_id,
                Some(attachment_id),
            ),
            None => None,
        }
    }

    fn take_remote_attachment_if_current(
        &mut self,
        session_id: &str,
        expected_attachment_id: Option<u64>,
    ) -> (taken: Option<InstalledRemoteAttachment>)
        requires
            old(self).wf(),
        ensures
            final(self).wf(),
            old(self).taken(session_id@, expected_attachment_id, taken),
            taken is None ==> *final(self) == *old(self),
            taken is Some ==> old(self).detached(session_id@, *final(self)),
    {
        if !same_id(self.remote_attachment_id(session_id), expected_attachment_id) {
            return None;
        }
        let session_ref = match self.sessions.get(session_id) {
            Some(session) => session.clone(),
            None => return None,
        };
        if !self.relays.contains_key(session_id) {
            return None;
        }
        let remote_actor_id: u64 = match &session_ref {
            SessionActorRef::Remote { actor_id, .. } => *actor_id,
            SessionActorRef::Local(_) => 0,
        };
        match self.relays.remove(session_id) {
            Some(relay) => {
                self.sessions.remove(session_id);
                self.local_actor_refs.remove(session_id);
                Some(
                    InstalledRemoteAttachment {
                        session_id: session_id.to_owned(),
                        session_ref,
                        remote_actor_id,
                        relay,
                    },
                )
            },
            None => None,
        }
    }
}

fn same_id(a: Option<u64>, b: Option<u64>) -> (same: bool)
    ensures
        same == (a == b),
{
    match (a, b) {
        (Some(a), Some(b)) => a == b,
        (None, None) => true,
        _ => false,
    }
}

/// The name of a relay in a scope. The number at its end is that of the attachment, so that
/// an old attachment can be cleaned up without touching the one that replaced it.
pub open spec fn relay_name(
    scope: Option<Seq<char>>,
    session: Seq<char>,
    peer: Seq<char>,
    attachment: u64,
) -> Seq<char> {
    scope::prefix(scope) + scope::event_relay_name(session, peer) + "::"@ + text::decimal(
        attachment as nat,
    )
}

/// The name of a relay that is not in a mesh.
pub open spec fn local_relay_name(session: Seq<char>, attachment: u64) -> Seq<char> {
    "event_relay::"@ + session + "::local::"@ + text::decimal(attachment as nat)
}

fn scoped_relay(scope: &MeshScopeId, session_id: &str, peer_id: &str, attachment: u64) -> (name:
    String)
    ensures
        name@ == relay_name(scope@, session_id@, peer_id@, attachment),
{
    let mut name = scoped_event_relay(scope, session_id, peer_id);
    name.append("::");
    let number = decimal_string(attachment);
    name.append(number.as_str());
    name
}

/// `relay` is the relay of a session that is about to be attached.
pub open spec fn is_relay(
    session: Seq<char>,
    relay_actor_id: u64,
    mesh: Option<MeshRuntimeHandle>,
    preferred_scope: Option<MeshScopeId>,
    relay: RemoteRelayRegistration,
) -> bool {
    &&& relay.relay_actor_id == relay_actor_id
    &&& !relay.linked
    &&& match mesh {
        None => {
            &&& relay.relay_dht_name@ == local_relay_name(session, relay_actor_id)
            &&& relay.registered_relay_names@.len() == 0
            &&& !relay.in_mesh
            &&& relay.matched_scope is None
        },
        Some(mesh) => {
            let scopes = mesh.inner.active_scopes@;
            let peer = mesh.inner.peer_id@;
            let selected = relay_scope(scopes, preferred_scope);
            &&& relay.relay_dht_name@ == relay_name(selected@, session, peer, relay_actor_id)
            &&& relay.in_mesh
            &&& relay.matched_scope == Some(selected)
            &&& relay.registered_relay_names@.len() == scopes.len()
            &&& forall|i: int|
                0 <= i < scopes.len() ==> (#[trigger] relay.registered_relay_names@[i])@
                    == relay_name(scopes[i]@, session, peer, relay_actor_id)
        },
    }
}

/// The relay of a session that is about to be attached, under the names that it has in each
/// scope of the mesh. Its own name is the one in the scope that was selected.
pub fn prepare_relay(
    session_id: &str,
    relay_actor_id: u64,
    mesh: Option<&MeshRuntimeHandle>,
    preferred_scope: Option<MeshScopeId>,
) -> (relay: RemoteRelayRegistration)
    ensures
        is_relay(
            session_id@,
            relay_actor_id,
            match mesh {
                Some(mesh) => Some(*mesh),
                None => None,
            },
            preferred_scope,
            relay,
        ),
{
    match mesh {
        None => {
            let mut relay_dht_name = "event_relay::".to_string();
            relay_dht_name.append(session_id);
            relay_dht_name.append("::local::");
            let number = decimal_string(relay_actor_id);
            relay_dht_name.append(number.as_str());
            RemoteRelayRegistration {
                relay_actor_id,
                relay_dht_name,
                registered_relay_names: Vec::new(),
                linked: false,
                in_mesh: false,
                matched_scope: None,
            }
        },
        Some(mesh) => {
            let scopes = mesh.active_scopes();
            let selected = select_relay_scope(&scopes, preferred_scope);
            let relay_dht_name = scoped_relay(
                &selected,
                session_id,
                mesh.peer_id(),
                relay_actor_id,
            );
            let mut names: Vec<String> = Vec::new();
            let mut i: usize = 0;
            while i < scopes.len()
                invariant
                    i <= scopes@.len(),
                    names@.len() == i,
                    forall|j: int|
                        0 <= j < i ==> (#[trigger] names@[j])@ == relay_name(
                            scopes@[j]@,
                            session_id@,
                            mesh.inner.peer_id@,
                            relay_actor_id,
                        ),
                decreases scopes@.len() - i,
            {
                names.push(scoped_relay(&scopes[i], session_id, mesh.peer_id(), relay_actor_id));
                i = i + 1;
            }
            RemoteRelayRegistration {
                relay_actor_id,
                relay_dht_name,
                registered_relay_names: names,
                linked: false,
                in_mesh: true,
                matched_scope: Some(selected),
            }
        },
    }
}

/// What was tried with a prepared attachment.
#[derive(Debug, Clone, Copy, PartialEq, Eq, Structural)]
pub enum AttachStep {
    /// The relay is linked to the remote session.
    Link,
    /// The relay is subscribed to the session's events.
    Subscribe,
}

/// How the attaching of a session goes on.
#[derive(Debug)]
pub enum AttachOutcome {
    /// The relay is linked and is to be subscribed.
    Subscribe(PreparedRemoteAttachment),
    /// The attachment is ready to be installed.
    Ready(PreparedRemoteAttachment),
    /// The attachment is to be cleaned up, and the error reported.
    Abort(PreparedRemoteAttachment, AgentError),
}

/// `error` is a failure on the other node, in these words.
pub open spec fn remote_failure(error: AgentError, words: Seq<char>) -> bool {
    error matches AgentError::RemoteActor(message) && message@ == words
}

/// How the attaching of a session goes on after a step. A relay that was linked is unlinked
/// when the attachment is cleaned up.
pub fn after_attach_step(
    prepared: PreparedRemoteAttachment,
    step: AttachStep,
    outcome: Result<(), String>,
) -> (next: AttachOutcome)
    ensures
        match (step, outcome) {
            (AttachStep::Link, Ok(_)) => next == AttachOutcome::Subscribe(
                PreparedRemoteAttachment {
                    relay: (RemoteRelayRegistration { linked: true, ..prepared.relay }),
                    ..prepared
                },
            ),
            (AttachStep::Link, Err(reason)) => next matches AttachOutcome::Abort(given_back, error)
                && given_back == prepared && remote_failure(
                error,
                "failed to link event relay to remote session: "@ + reason@,
            ),
            (AttachStep::Subscribe, Ok(_)) => next == AttachOutcome::Ready(prepared),
            (AttachStep::Subscribe, Err(reason)) => next matches AttachOutcome::Abort(
                given_back,
                error,
            ) && given_back == prepared && remote_failure(
                error,
                "failed to subscribe remote session events: "@ + reason@,
            ),
        },
{
    match (step, outcome) {
        (AttachStep::Link, Ok(_)) => {
            let mut prepared = prepared;
            prepared.relay.linked = true;
            AttachOutcome::Subscribe(prepared)
        },
        (AttachStep::Link, Err(reason)) => {
            let mut words = "failed to link event relay to remote session: ".to_string();
            words.append(reason.as_str());
            AttachOutcome::Abort(prepared, AgentError::RemoteActor(words))
        },
        (AttachStep::Subscribe, Ok(_)) => AttachOutcome::Ready(prepared),
        (AttachStep::Subscribe, Err(reason)) => {
            let mut words = "failed to subscribe remote session events: ".to_string();
            words.append(reason.as_str());
            AttachOutcome::Abort(prepared, AgentError::RemoteActor(words))
        },
    }
}

/// A step in the cleaning up of an attachment.
#[derive(Debug, PartialEq, Eq)]
pub enum CleanupStep {
    /// The remote session no longer sends events to the relay.
    Unsubscribe { attachment_id: u64, relay_dht_name: String },
    Unlink,
    /// A name of the relay is taken out of the mesh.
    Deregister { name: String },
    KillRelay,
}

/// The steps before the names are taken out of the mesh.
pub open spec fn notices(
    session: SessionActorRef,
    relay: RemoteRelayRegistration,
    notify_remote: bool,
) -> nat {
    if !notify_remote {
        0
    } else if relay.linked && session is Remote {
        2
    } else {
        1
    }
}

/// How many names are taken out of the mesh.
pub open spec fn deregistrations(relay: RemoteRelayRegistration) -> nat {
    if relay.in_mesh {
        relay.registered_relay_names@.len()
    } else {
        0
    }
}

/// `steps` are those in which an attachment is cleaned up: the remote session is told first,
/// if it can still be reached; the relay is ended last.
pub open spec fn is_cleanup(
    session: SessionActorRef,
    relay: RemoteRelayRegistration,
    notify_remote: bool,
    steps: Seq<CleanupStep>,
) -> bool {
    let told = notices(session, relay, notify_remote) as int;
    let names = deregistrations(relay) as int;
    &&& steps.len() == told + names + 1
    &&& told > 0 ==> (steps[0] matches CleanupStep::Unsubscribe { attachment_id, relay_dht_name }
        && attachment_id == relay.relay_actor_id && relay_dht_name@ == relay.relay_dht_name@)
    &&& told == 2 ==> steps[1] == CleanupStep::Unlink
    &&& forall|i: int|
        0 <= i < names ==> (#[trigger] steps[told + i] matches CleanupStep::Deregister { name }
            && name@ == relay.registered_relay_names@[i]@)
    &&& steps[told + names] == CleanupStep::KillRelay
}

/// The steps in which an attachment is cleaned up.
pub fn cleanup_steps(
    session_ref: &SessionActorRef,
    relay: &RemoteRelayRegistration,
    notify_remote: bool,
) -> (steps: Vec<CleanupStep>)
    ensures
        is_cleanup(*session_ref, *relay, notify_remote, steps@),
{
    let mut steps: Vec<CleanupStep> = Vec::new();
    if notify_remote {
        steps.push(
            CleanupStep::Unsubscribe {
                attachment_id: relay.relay_actor_id,
                relay_dht_name: relay.relay_dht_name.clone(),
            },
        );
        if relay.linked && session_ref.is_remote() {
            steps.push(CleanupStep::Unlink);
        }
    }
    let ghost told = notices(*session_ref, *relay, notify_remote) as int;
    if relay.in_mesh {
        let mut i: usize = 0;
        while i < relay.registered_relay_names.len()
            invariant
                i <= relay.registered_relay_names@.len(),
                told == notices(*session_ref, *relay, notify_remote),
                steps@.len() == told + i,
                told > 0 ==> (steps@[0] matches CleanupStep::Unsubscribe {
                    attachment_id,
                    relay_dht_name,
                } && attachment_id == relay.relay_actor_id && relay_dht_name@
                    == relay.relay_dht_name@),
                told == 2 ==> steps@[1] == CleanupStep::Unlink,
                forall|j: int|
                    0 <= j < i ==> (#[trigger] steps@[told + j] matches CleanupStep::Deregister {
                        name,
                    } && name@ == relay.registered_relay_names@[j]@),
            decreases relay.registered_relay_names@.len() - i,
        {
            steps.push(CleanupStep::Deregister { name: relay.registered_relay_names[i].clone() });
            i = i + 1;
        }
    }
    steps.push(CleanupStep::KillRelay);
    steps
}

/// Why a request about a session was refused.
#[derive(Debug, PartialEq, Eq)]
pub enum SessionRequestError {
    /// A parameter of the request is wrong: what is wrong, and with which value.
    InvalidParams { message: String, value: String },
    Internal(String),
    EmptySessionFork,
}

/// The words of an error about a parameter.
pub open spec fn invalid(error: SessionRequestError, words: Seq<char>, value: Seq<char>) -> bool {
    error matches SessionRequestError::InvalidParams { message, value: given } && message@ == words
        && given@ == value
}

/// The working directory that a request names. An empty path names none, and any other has
/// to be absolute.
pub fn checked_cwd(cwd: &str, is_absolute: bool) -> (checked: Result<
    Option<String>,
    SessionRequestError,
>)
    ensures
        match checked {
            Ok(None) => cwd@.len() == 0,
            Ok(Some(path)) => cwd@.len() > 0 && is_absolute && path@ == cwd@,
            Err(error) => cwd@.len() > 0 && !is_absolute && invalid(
                error,
                "cwd must be an absolute path"@,
                cwd@,
            ),
        },
{
    if cwd.is_empty() {
        return Ok(None);
    }
    if !is_absolute {
        return Err(
            SessionRequestError::InvalidParams {
                message: "cwd must be an absolute path".to_string(),
                value: cwd.to_owned(),
            },
        );
    }
    Ok(Some(cwd.to_owned()))
}

/// How a session is resumed.
#[derive(Debug, PartialEq, Eq)]
pub enum ResumePlan {
    /// The session is there already.
    Reuse,
    /// The session is set up anew, with its working directory, and its creation told.
    Materialize { cwd: Option<String>, options: SessionMaterializationOptions },
}

/// `plan` is how a session is resumed: a request about a session that is not there, or with
/// a relative path, is refused, and a session that was set up here is not set up again.
pub open spec fn is_resume_plan(
    session_id: Seq<char>,
    exists: bool,
    cwd: Seq<char>,
    cwd_is_absolute: bool,
    already_materialized: bool,
    plan: Result<ResumePlan, SessionRequestError>,
) -> bool {
    match plan {
        Err(error) => if !exists {
            invalid(error, "session not found"@, session_id)
        } else {
            cwd.len() > 0 && !cwd_is_absolute && invalid(
                error,
                "cwd must be an absolute path"@,
                cwd,
            )
        },
        Ok(plan) => {
            &&& exists
            &&& cwd.len() == 0 || cwd_is_absolute
            &&& match plan {
                ResumePlan::Reuse => already_materialized,
                ResumePlan::Materialize { cwd: directory, options } => {
                    &&& !already_materialized
                    &&& options.attach_mesh_handle && options.register_in_dht
                    &&& match directory {
                        None => cwd.len() == 0,
                        Some(path) => cwd.len() > 0 && path@ == cwd,
                    }
                },
            }
        },
    }
}

/// How a session is resumed. A session that was set up here is not set up again.
pub fn resume_plan(
    session_id: &str,
    exists: bool,
    cwd: &str,
    cwd_is_absolute: bool,
    already_materialized: bool,
) -> (plan: Result<ResumePlan, SessionRequestError>)
    ensures
        is_resume_plan(
            session_id@,
            exists,
            cwd@,
            cwd_is_absolute,
            already_materialized,
            plan,
        ),
{
    if !exists {
        return Err(
            SessionRequestError::InvalidParams {
                message: "session not found".to_string(),
                value: session_id.to_owned(),
            },
        );
    }
    match checked_cwd(cwd, cwd_is_absolute) {
        Err(error) => Err(error),
        Ok(directory) => if already_materialized {
            Ok(ResumePlan::Reuse)
        } else {
            Ok(
                ResumePlan::Materialize {
                    cwd: directory,
                    options: SessionMaterializationOptions {
                        attach_mesh_handle: true,
                        register_in_dht: true,
                    },
                },
            )
        },
    }
}

/// A point in time: the nanoseconds since the epoch, and the offset of the local time.
#[derive(Debug, Clone, Copy, PartialEq, Eq, Structural)]
pub struct Timestamp {
    pub unix_nanos: i128,
    pub offset_seconds: i32,
}

/// A session as it is stored.
#[derive(Debug, PartialEq, Eq)]
pub struct StoredSession {
    pub public_id: String,
    pub name: Option<String>,
    pub updated_at: Option<Timestamp>,
}

/// A session as it is listed.
#[derive(Debug, PartialEq, Eq)]
pub struct SessionInfo {
    pub session_id: String,
    pub title: Option<String>,
    pub updated_at: Option<String>,
}

/// A part of the list of sessions, and where the rest begins.
#[derive(Debug, PartialEq, Eq)]
pub struct SessionPage {
    pub sessions: Vec<SessionInfo>,
    pub next_cursor: Option<String>,
}

/// A point in time in the notation of RFC 3339, if it has one.
pub uninterp spec fn rfc3339_text(unix_nanos: int, offset_seconds: int) -> Option<Seq<char>>;

/// Calls `OffsetDateTime::format` with the format `Rfc3339`: the notation of a point in time
/// that is given by the nanoseconds since the epoch and the offset of the local time. It is
/// a function of the two. There is none for a time that `OffsetDateTime` cannot hold or that
/// the notation cannot express.
#[verifier::external_body]
fn format_rfc3339(at: Timestamp) -> (formatted: Option<String>)
    ensures
        match formatted {
            Some(formatted) => rfc3339_text(at.unix_nanos as int, at.offset_seconds as int)
                == Some(formatted@),
            None => rfc3339_text(at.unix_nanos as int, at.offset_seconds as int) is None,
        },
{
    let offset = time::UtcOffset::from_whole_seconds(at.offset_seconds).ok()?;
    let utc = time::OffsetDateTime::from_unix_timestamp_nanos(at.unix_nanos).ok()?;
    utc.checked_to_offset(offset)?.format(&Rfc3339).ok()
}

/// `text` stands for a point in time that has this notation. Where it has none, the text is
/// empty.
pub open spec fn shows(text: Option<String>, notation: Option<Seq<char>>) -> bool {
    text matches Some(text) && text@ == match notation {
        Some(notation) => notation,
        None => Seq::empty(),
    }
}

/// A session as it is listed, with the notation of its last change, if it has one. A
/// notation that is missing is shown as empty.
pub fn session_info(
    public_id: String,
    name: Option<String>,
    updated_at: Option<Option<String>>,
) -> (info: SessionInfo)
    ensures
        info.session_id == public_id,
        info.title == name,
        match updated_at {
            None => info.updated_at is None,
            Some(None) => shows(info.updated_at, None),
            Some(Some(notation)) => shows(info.updated_at, Some(notation@)),
        },
{
    let updated_at = match updated_at {
        None => None,
        Some(Some(notation)) => Some(notation),
        Some(None) => {
            let empty = String::new();
            assert(empty@ =~= Seq::<char>::empty());
            Some(empty)
        },
    };
    SessionInfo { session_id: public_id, title: name, updated_at }
}

/// `info` is how a stored session is listed.
pub open spec fn lists_as(stored: StoredSession, info: SessionInfo) -> bool {
    &&& info.session_id == stored.public_id
    &&& info.title == stored.name
    &&& match stored.updated_at {
        None => info.updated_at is None,
        Some(at) => shows(
            info.updated_at,
            rfc3339_text(at.unix_nanos as int, at.offset_seconds as int),
        ),
    }
}

/// The place at which a list goes on. A cursor that is no number is taken as the start.
pub open spec fn start_of(cursor: Option<Seq<char>>) -> nat {
    match cursor {
        None => 0,
        Some(cursor) => match text::parsed_usize(cursor) {
            Some(start) => start as nat,
            None => 0,
        },
    }
}

/// Where a page of a list of `len` sessions ends.
pub open spec fn end_of(start: nat, len: nat) -> nat {
    if start + PAGE_SIZE as nat <= len {
        start + PAGE_SIZE as nat
    } else {
        len
    }
}

/// The text of a cursor.
pub open spec fn cursor_text(cursor: Option<String>) -> Option<Seq<char>> {
    match cursor {
        Some(cursor) => Some(cursor@),
        None => None,
    }
}

/// Lists the sessions from the cursor on.
pub fn list_sessions(sessions: Vec<StoredSession>, cursor: Option<&str>) -> (page: SessionPage)
    requires
        start_of(
            match cursor {
                Some(cursor) => Some(cursor@),
                None => None,
            },
        ) <= sessions@.len(),
    ensures
        ({
            let start = start_of(
                match cursor {
                    Some(cursor) => Some(cursor@),
                    None => None,
                },
            );
            let end = end_of(start, sessions@.len());
            &&& page.sessions@.len() == end - start
            &&& forall|i: int|
                0 <= i < end - start ==> lists_as(
                    sessions@[start + i],
                    #[trigger] page.sessions@[i],
                )
            &&& cursor_text(page.next_cursor) == next_cursor(start, sessions@.len())
        }),
{
    let start: usize = match cursor {
        Some(cursor) => match parse_usize(cursor) {
            Some(start) => start,
            None => 0,
        },
        None => 0,
    };
    let len: usize = sessions.len();
    let end: usize = if len - start >= PAGE_SIZE {
        start + PAGE_SIZE
    } else {
        len
    };
    let mut listed: Vec<SessionInfo> = Vec::new();
    let mut i: usize = start;
    while i < end
        invariant
            start <= i <= end <= sessions@.len(),
            listed@.len() == i - start,
            forall|j: int|
                0 <= j < i - start ==> lists_as(sessions@[start + j], #[trigger] listed@[j]),
        decreases end - i,
    {
        let stored = &sessions[i];
        let updated_at = match stored.updated_at {
            Some(at) => Some(format_rfc3339(at)),
            None => None,
        };
        listed.push(session_info(stored.public_id.clone(), stored.name.clone(), updated_at));
        assert(lists_as(sessions@[start + (i - start)], listed@[i - start]));
        i = i + 1;
    }
    let next_cursor = if end < len {
        Some(decimal_string(end as u64))
    } else {
        None
    };
    SessionPage { sessions: listed, next_cursor }
}

/// The cursor that a page which begins at `start` gives.
pub open spec fn next_cursor(start: nat, len: nat) -> Option<Seq<char>> {
    if end_of(start, len) < len {
        Some(text::decimal(end_of(start, len)))
    } else {
        None
    }
}

/// What the pages list that are asked for one after the other, each with the cursor of the
/// one before, beginning with `cursor`; at most `pages` of them.
pub open spec fn listed<T>(sessions: Seq<T>, cursor: Option<Seq<char>>, pages: nat) -> Seq<T>
    decreases pages,
{
    let start = start_of(cursor);
    if pages == 0 {
        Seq::empty()
    } else {
        let page = sessions.subrange(start as int, end_of(start, sessions.len()) as int);
        match next_cursor(start, sessions.len()) {
            None => page,
            next => page + listed(sessions, next, (pages - 1) as nat),
        }
    }
}

proof fn lemma_pages_list_the_rest<T>(sessions: Seq<T>, cursor: Option<Seq<char>>, pages: nat)
    requires
        start_of(cursor) <= sessions.len() <= usize::MAX,
        sessions.len() - start_of(cursor) <= pages * PAGE_SIZE as nat,
        pages > 0,
    ensures
        listed(sessions, cursor, pages) == sessions.subrange(
            start_of(cursor) as int,
            sessions.len() as int,
        ),
    decreases pages,
{
    let len = sessions.len();
    let start = start_of(cursor);
    let end = end_of(start, len);
    if end < len {
        text::law_decimal_reads_back(end as usize);
        let next = Some(text::decimal(end));
        assert(start_of(next) == end);
        assert(pages * PAGE_SIZE as nat == (pages - 1) * PAGE_SIZE as nat + PAGE_SIZE as nat)
            by (nonlinear_arith);
        assert(pages - 1 > 0) by {
            if pages == 1 {
                assert(len - start <= PAGE_SIZE as nat);
            }
        }
        lemma_pages_list_the_rest(sessions, next, (pages - 1) as nat);
        assert(sessions.subrange(start as int, end as int) + sessions.subrange(
            end as int,
            len as int,
        ) =~= sessions.subrange(start as int, len as int));
    }
}

/// Following the cursors from the first page on lists every session, in order, and none
/// twice, once there are pages enough.
pub proof fn law_pages_list_every_session<T>(sessions: Seq<T>, pages: nat)
    requires
        sessions.len() <= usize::MAX,
        sessions.len() <= pages * PAGE_SIZE as nat,
        pages > 0,
    ensures
        listed(sessions, None, pages) == sessions,
{
    lemma_pages_list_the_rest(sessions, None, pages);
    assert(sessions.subrange(0, sessions.len() as int) =~= sessions);
}

/// Attaching a session to a node and taking the attachment out again leaves the session
/// unknown, and the other sessions as they were.
pub proof fn law_taking_undoes_installing(
    before: SessionRegistry,
    installed: SessionRegistry,
    after: SessionRegistry,
    prepared: PreparedRemoteAttachment,
    other: Seq<char>,
)
    requires
        before.installed(prepared, installed),
        installed.detached(prepared.session_id@, after),
    ensures
        !after.sessions@.dom().contains(prepared.session_id@),
        after.attachment(prepared.session_id@) is None,
        other != prepared.session_id@ ==> after.attachment(other) == before.attachment(other)
            && after.sessions@.dom().contains(other) == before.sessions@.dom().contains(other)
            && (before.sessions@.dom().contains(other) ==> after.sessions@[other]
            == before.sessions@[other]),
{
}

/// An attachment that was replaced cannot be taken out any more: only the one that is
/// current can.
pub proof fn law_stale_attachments_are_ignored(
    registry: SessionRegistry,
    id: Seq<char>,
    stale: u64,
    taken: Option<InstalledRemoteAttachment>,
)
    requires
        registry.attachment(id) != Some(stale),
        registry.taken(id, Some(stale), taken),
    ensures
        taken is None,
{
}

/// The relays of two attachments of a session have different names, so that cleaning up the
/// one leaves the other alone.
pub proof fn law_relay_names_differ(
    scope: Option<Seq<char>>,
    session: Seq<char>,
    peer: Seq<char>,
    a: u64,
    b: u64,
)
    requires
        relay_name(scope, session, peer, a) == relay_name(scope, session, peer, b),
    ensures
        a == b,
{
    let head = scope::prefix(scope) + scope::event_relay_name(session, peer) + "::"@;
    let x = text::decimal(a as nat);
    let y = text::decimal(b as nat);
    assert((head + x).len() == (head + y).len());
    assert forall|i: int| 0 <= i < x.len() implies x[i] == y[i] by {
        assert((head + x)[head.len() + i] == x[i]);
        assert((head + y)[head.len() + i] == y[i]);
    }
    assert(x =~= y);
    text::law_decimal_is_injective(a as nat, b as nat);
}

/// A relay goes to the scope that is preferred where it is active, to the first active scope
/// otherwise, and to the local network where none is.
pub proof fn law_relays_go_to_an_active_scope(
    active: Seq<MeshScopeId>,
    preferred: Option<MeshScopeId>,
    i: int,
)
    ensures
        preferred matches Some(wanted) ==> 0 <= i < active.len() && active[i]@ == wanted@
            ==> relay_scope(active, preferred) == wanted,
        preferred is None && active.len() > 0 ==> relay_scope(active, preferred) == active[0],
        preferred matches Some(wanted) ==> active.len() > 0 && (forall|k: int|
            0 <= k < active.len() ==> (#[trigger] active[k])@ != wanted@) ==> relay_scope(
            active,
            preferred,
        ) == active[0],
        active.len() == 0 ==> relay_scope(active, preferred) == MeshScopeId::Lan,
{
}

/// A session has one name in each scope, in the order of the scopes.
pub proof fn law_sessions_have_a_name_in_each_scope(
    scopes: Seq<MeshScopeId>,
    session: Seq<char>,
    i: int,
)
    requires
        0 <= i < scopes.len(),
    ensures
        session_names(scopes, session).len() == scopes.len(),
        scopes[i] is Lan ==> session_names(scopes, session)[i] == "session::"@ + session,
        scopes[i] matches MeshScopeId::Iroh { mesh_id } ==> session_names(scopes, session)[i]
            == "scope::"@ + mesh_id@ + "::"@ + ("session::"@ + session),
{
    scope::law_lan_names_are_unscoped("session::"@ + session);
}

/// A session that is registered is announced under its names in the mesh, and under none
/// where there is no mesh.
pub proof fn law_names_are_those_of_the_mesh(registry: SessionRegistry, id: Seq<char>)
    ensures
        registry.mesh matches Some(mesh) ==> registry.mesh_names(id) == session_names(
            mesh.inner.active_scopes@,
            id,
        ),
        registry.mesh is None ==> registry.mesh_names(id).len() == 0,
        registry.relays@.dom().contains(id) ==> registry.attachment(id) == Some(
            registry.relays@[id].relay_actor_id,
        ),
        !registry.relays@.dom().contains(id) ==> registry.attachment(id) is None,
{
}

/// Only remote sessions are listed as such, each once and in order.
pub proof fn law_remote_sessions_are_listed_in_order(
    order: Seq<Seq<char>>,
    sessions: Map<Seq<char>, SessionActorRef>,
    id: Seq<char>,
    entry: RemoteSessionEntry,
)
    ensures
        remote_entries(Seq::empty(), sessions).len() == 0,
        sessions[id] is Remote ==> remote_entries(order.push(id), sessions) == remote_entries(
            order,
            sessions,
        ).push((id, sessions[id])),
        sessions[id] is Local ==> remote_entries(order.push(id), sessions) == remote_entries(
            order,
            sessions,
        ),
        is_entry(entry, (id, sessions[id])) ==> entry.session_id@ == id && (
        sessions[id] matches SessionActorRef::Remote { peer_label, remote_node_id, .. }
            && entry.peer_label == peer_label && entry.remote_node_id == remote_node_id),
{
    assert(order.push(id).drop_last() =~= order);
}

/// An attachment is installed only in the place of the one that was expected there, and never
/// over a session of this node.
pub proof fn law_attachments_replace_only_what_was_expected(
    registry: SessionRegistry,
    id: Seq<char>,
    expected: Option<u64>,
)
    ensures
        registry.relays@.dom().contains(id) && expected != Some(
            registry.relays@[id].relay_actor_id,
        ) ==> registry.conflicts(id, expected),
        !registry.relays@.dom().contains(id) && expected is Some ==> registry.conflicts(
            id,
            expected,
        ),
        registry.sessions@.dom().contains(id) && registry.sessions@[id] is Local
            ==> registry.conflicts(id, expected),
        !registry.relays@.dom().contains(id) && expected is None && !(
        registry.sessions@.dom().contains(id) && registry.sessions@[id] is Local)
            ==> !registry.conflicts(id, expected),
        registry.relays@.dom().contains(id) && expected == Some(registry.relays@[id].relay_actor_id)
            && !(registry.sessions@.dom().contains(id) && registry.sessions@[id] is Local)
            ==> !registry.conflicts(id, expected),
{
}

/// An installed attachment is found under its session, with its relay; other sessions are
/// left alone.
pub proof fn law_installed_attachments_are_found(
    before: SessionRegistry,
    prepared: PreparedRemoteAttachment,
    after: SessionRegistry,
    other: Seq<char>,
)
    requires
        before.installed(prepared, after),
    ensures
        after.sessions@.dom().contains(prepared.session_id@),
        after.sessions@[prepared.session_id@] == prepared.session_ref,
        after.relays@.dom().contains(prepared.session_id@),
        after.relays@[prepared.session_id@] == prepared.relay,
        !after.local_actor_refs@.dom().contains(prepared.session_id@),
        other != prepared.session_id@ ==> (after.sessions@.dom().contains(other)
            <==> before.sessions@.dom().contains(other)) && (after.relays@.dom().contains(other)
            <==> before.relays@.dom().contains(other)) && (after.local_actor_refs@.dom().contains(
            other,
        ) <==> before.local_actor_refs@.dom().contains(other)),
        other != prepared.session_id@ && before.sessions@.dom().contains(other)
            ==> after.sessions@[other] == before.sessions@[other],
        other != prepared.session_id@ && before.relays@.dom().contains(other)
            ==> after.relays@[other] == before.relays@[other],
        after.mesh == before.mesh,
        after.has_bridge == before.has_bridge,
{
}

/// An attachment that is taken is handed over whole: its session, its relay and the number of
/// the remote actor.
pub proof fn law_taken_attachments_are_whole(
    registry: SessionRegistry,
    id: Seq<char>,
    expected: u64,
    taken: Option<InstalledRemoteAttachment>,
)
    requires
        registry.taken(id, Some(expected), taken),
        registry.sessions@.dom().contains(id),
        registry.relays@.dom().contains(id),
        registry.relays@[id].relay_actor_id == expected,
    ensures
        taken matches Some(attachment) && attachment.session_id@ == id && attachment.session_ref
            == registry.sessions@[id] && attachment.relay == registry.relays@[id] && (
        registry.sessions@[id] matches SessionActorRef::Remote { actor_id, .. }
            ==> attachment.remote_actor_id == actor_id),
{
}

/// A relay is named after its session, the peer and its own number, in every active scope
/// where there is a mesh; without one it has a local name and is published nowhere.
pub proof fn law_relays_are_named_in_every_scope(
    session: Seq<char>,
    relay_actor_id: u64,
    mesh: Option<MeshRuntimeHandle>,
    preferred_scope: Option<MeshScopeId>,
    relay: RemoteRelayRegistration,
    i: int,
)
    requires
        is_relay(session, relay_actor_id, mesh, preferred_scope, relay),
    ensures
        relay.relay_actor_id == relay_actor_id,
        !relay.linked,
        relay.in_mesh <==> mesh is Some,
        mesh is None ==> relay.registered_relay_names@.len() == 0 && relay.matched_scope is None
            && relay.relay_dht_name@ == "event_relay::"@ + session + "::local::"@ + text::decimal(
            relay_actor_id as nat,
        ),
        mesh matches Some(mesh) ==> {
            let scopes = mesh.inner.active_scopes@;
            let tail = "event_relay::"@ + session + "::"@ + mesh.inner.peer_id@;
            &&& relay.registered_relay_names@.len() == scopes.len()
            &&& 0 <= i < scopes.len() ==> relay.registered_relay_names@[i]@ == scope::prefix(
                scopes[i]@,
            ) + tail + "::"@ + text::decimal(relay_actor_id as nat)
            &&& relay.matched_scope == Some(relay_scope(scopes, preferred_scope))
            &&& relay.relay_dht_name@ == scope::prefix(relay.matched_scope->Some_0@) + tail
                + "::"@ + text::decimal(relay_actor_id as nat)
        },
{
}

/// A cleaned-up attachment: the remote side is told first where it is to be told, unlinked
/// where it was linked, every published name is taken back in order, and the relay is ended
/// last.
pub proof fn law_attachments_are_cleaned_up_in_order(
    session: SessionActorRef,
    relay: RemoteRelayRegistration,
    notify_remote: bool,
    steps: Seq<CleanupStep>,
    i: int,
)
    requires
        is_cleanup(session, relay, notify_remote, steps),
    ensures
        ({
            let unlinks = notify_remote && relay.linked && session is Remote;
            let told: int = if unlinks {
                2
            } else if notify_remote {
                1
            } else {
                0
            };
            let names: int = if relay.in_mesh {
                relay.registered_relay_names@.len() as int
            } else {
                0
            };
            &&& steps.len() == told + names + 1
            &&& notify_remote ==> (steps[0] matches CleanupStep::Unsubscribe {
                attachment_id,
                relay_dht_name,
            } && attachment_id == relay.relay_actor_id && relay_dht_name@
                == relay.relay_dht_name@)
            &&& unlinks ==> steps[1] == CleanupStep::Unlink
            &&& 0 <= i < names ==> (steps[told + i] matches CleanupStep::Deregister { name }
                && name@ == relay.registered_relay_names@[i]@)
            &&& steps.last() == CleanupStep::KillRelay
        }),
{
    let told = notices(session, relay, notify_remote) as int;
    if 0 <= i < deregistrations(relay) {
        assert(steps[told + i] is Deregister);
    }
}

/// What is wrong with a request is told with the value that is wrong.
pub proof fn law_invalid_requests_name_the_value(
    error: SessionRequestError,
    words: Seq<char>,
    value: Seq<char>,
    remote: AgentError,
)
    ensures
        invalid(error, words, value) ==> error is InvalidParams && error->InvalidParams_message@
            == words && error->InvalidParams_value@ == value,
        remote_failure(remote, words) ==> (remote matches AgentError::RemoteActor(message)
            && message@ == words),
{
}

/// A session is resumed where it exists and its directory is absolute: it is reused where it
/// is there already, and set up in that directory, in the mesh, where it is not.
pub proof fn law_existing_sessions_are_resumed(
    session_id: Seq<char>,
    exists: bool,
    cwd: Seq<char>,
    cwd_is_absolute: bool,
    already_materialized: bool,
    plan: Result<ResumePlan, SessionRequestError>,
)
    requires
        is_resume_plan(session_id, exists, cwd, cwd_is_absolute, already_materialized, plan),
    ensures
        plan is Ok <==> exists && (cwd.len() == 0 || cwd_is_absolute),
        !exists ==> (plan matches Err(SessionRequestError::InvalidParams { message, value })
            && message@ == "session not found"@ && value@ == session_id),
        exists && cwd.len() > 0 && !cwd_is_absolute ==> (plan matches Err(
            SessionRequestError::InvalidParams { message, value },
        ) && message@ == "cwd must be an absolute path"@ && value@ == cwd),
        plan is Ok ==> (plan->Ok_0 is Reuse <==> already_materialized),
        plan matches Ok(ResumePlan::Materialize { cwd: directory, options })
            ==> options.attach_mesh_handle && options.register_in_dht && (cwd.len() == 0
            ==> directory is None) && (cwd.len() > 0 ==> (directory matches Some(path) && path@
            == cwd)),
{
}

/// A stored session is listed under its id and its name, with the time of its last change in
/// text where it has one.
pub proof fn law_sessions_are_listed_as_they_are_stored(stored: StoredSession, info: SessionInfo)
    requires
        lists_as(stored, info),
    ensures
        info.session_id == stored.public_id,
        info.title == stored.name,
        info.updated_at is Some <==> stored.updated_at is Some,
        stored.updated_at matches Some(at) ==> (rfc3339_text(
            at.unix_nanos as int,
            at.offset_seconds as int,
        ) matches Some(notation) ==> info.updated_at->Some_0@ == notation),
        stored.updated_at matches Some(at) ==> (rfc3339_text(
            at.unix_nanos as int,
            at.offset_seconds as int,
        ) is None ==> info.updated_at->Some_0@.len() == 0),
{
}

/// A page starts where the cursor says, at the start where it says nothing that can be read,
/// and holds at most a hundred sessions; the next cursor is where it ends.
pub proof fn law_pages_start_at_the_cursor(start: usize, len: nat, other: Seq<char>)
    requires
        start <= len,
    ensures
        PAGE_SIZE == 100,
        start_of(None) == 0,
        start_of(Some(text::decimal(start as nat))) == start,
        text::parsed_usize(other) is None ==> start_of(Some(other)) == 0,
        start + 100 <= len ==> end_of(start as nat, len) == start + 100,
        start + 100 > len ==> end_of(start as nat, len) == len,
        start + 100 < len ==> next_cursor(start as nat, len) == Some(
            text::decimal((start + 100) as nat),
        ),
        start + 100 >= len ==> next_cursor(start as nat, len) is None,
{
    text::law_decimal_reads_back(start);
}

/// A registry that lets go of an attachment knows nothing of its session any more.
pub proof fn law_detached_sessions_are_gone(
    before: SessionRegistry,
    id: Seq<char>,
    after: SessionRegistry,
    other: Seq<char>,
)
    requires
        before.detached(id, after),
    ensures
        !after.sessions@.dom().contains(id),
        !after.local_actor_refs@.dom().contains(id),
        !after.relays@.dom().contains(id),
        other != id ==> (after.sessions@.dom().contains(other)
            <==> before.sessions@.dom().contains(other)) && (after.relays@.dom().contains(other)
            <==> before.relays@.dom().contains(other)),
        other != id && before.relays@.dom().contains(other) ==> after.relays@[other]
            == before.relays@[other],
        after.mesh == before.mesh,
        after.has_bridge == before.has_bridge,
{
}

/// A session of this node is registered as its own, with its actor.
pub proof fn law_local_actors_belong_to_their_sessions(registry: SessionRegistry, id: Seq<char>)
    requires
        registry.wf(),
        registry.local_actor_refs@.dom().contains(id),
    ensures
        registry.sessions@.dom().contains(id),
        registry.sessions@[id] == SessionActorRef::Local(registry.local_actor_refs@[id]),
{
}

} // verus!
