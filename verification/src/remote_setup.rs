//! Publishing a node's actors in the mesh, and registering the agents of other nodes that
//! are configured.
use vstd::prelude::*;

use crate::mesh::Publication;
use crate::runtime_handle::MeshRuntimeHandle;
use crate::scope;
use crate::scope::{
    scoped_node_manager, scoped_node_manager_for_peer, scoped_provider_host, MeshScopeId,
};
use crate::text::str_eq;

verus! {

/// How long a lookup of a peer may take, in seconds.
pub const LOOKUP_TIMEOUT_SECS: u64 = 5;

/// The actors of a node that serve its peers. Numbers tell actors apart.
#[derive(Debug, Clone, Copy, PartialEq, Eq, Structural)]
pub struct LocalMeshActorRefs {
    pub node_manager: u64,
    pub provider_host: u64,
}

/// What a publication says.
pub open spec fn says(publication: Publication) -> (Seq<char>, u64) {
    (publication.name@, publication.actor)
}

/// What a node publishes in a scope: its manager under the name of the scope and under its
/// own, and its provider host.
pub open spec fn scope_publications(
    peer: Seq<char>,
    actors: LocalMeshActorRefs,
    scope: Option<Seq<char>>,
) -> Seq<(Seq<char>, u64)> {
    seq![
        (scope::prefix(scope) + "node_manager"@, actors.node_manager),
        (scope::prefix(scope) + scope::node_manager_for_peer_name(peer), actors.node_manager),
        (scope::prefix(scope) + scope::provider_host_name(peer), actors.provider_host),
    ]
}

/// What a node publishes in a scope.
pub fn register_local_mesh_actor_scope(
    peer_id: &str,
    actors: &LocalMeshActorRefs,
    scope: &MeshScopeId,
) -> (published: Vec<Publication>)
    ensures
        published@.map_values(|publication: Publication| says(publication)) == scope_publications(
            peer_id@,
            *actors,
            scope@,
        ),
{
    let mut published: Vec<Publication> = Vec::new();
    published.push(Publication { name: scoped_node_manager(scope), actor: actors.node_manager });
    published.push(
        Publication {
            name: scoped_node_manager_for_peer(scope, peer_id),
            actor: actors.node_manager,
        },
    );
    published.push(
        Publication { name: scoped_provider_host(scope, peer_id), actor: actors.provider_host },
    );
    published
}

/// What a node publishes in some scopes, one after the other.
pub open spec fn all_publications(
    peer: Seq<char>,
    actors: LocalMeshActorRefs,
    scopes: Seq<MeshScopeId>,
) -> Seq<(Seq<char>, u64)>
    decreases scopes.len(),
{
    if scopes.len() == 0 {
        Seq::empty()
    } else {
        all_publications(peer, actors, scopes.drop_last()) + scope_publications(
            peer,
            actors,
            scopes.last()@,
        )
    }
}

/// What a node publishes in all the scopes that it takes part in.
pub fn local_mesh_publications(mesh: &MeshRuntimeHandle, actors: &LocalMeshActorRefs) -> (published:
    Vec<Publication>)
    ensures
        published@.map_values(|publication: Publication| says(publication)) == all_publications(
            mesh.inner.peer_id@,
            *actors,
            mesh.inner.active_scopes@,
        ),
{
    let scopes = mesh.active_scopes();
    let mut published: Vec<Publication> = Vec::new();
    let mut i: usize = 0;
    while i < scopes.len()
        invariant
            i <= scopes@.len(),
            published@.map_values(|publication: Publication| says(publication))
                == all_publications(
                mesh.inner.peer_id@,
                *actors,
                scopes@.subrange(0, i as int),
            ),
        decreases scopes@.len() - i,
    {
        let ghost longer = scopes@.subrange(0, i + 1);
        let ghost before = published@;
        assert(longer.drop_last() =~= scopes@.subrange(0, i as int));
        assert(longer.last() == scopes@[i as int]);
        let mut more = register_local_mesh_actor_scope(mesh.peer_id(), actors, &scopes[i]);
        let ghost added = more@;
        published.append(&mut more);
        assert(published@.map_values(|publication: Publication| says(publication))
            =~= before.map_values(|publication: Publication| says(publication))
            + added.map_values(|publication: Publication| says(publication)));
        i = i + 1;
    }
    assert(scopes@.subrange(0, scopes@.len() as int) =~= scopes@);
    published
}

/// A peer that is configured.
#[derive(Debug, PartialEq, Eq)]
pub struct MeshPeerConfig {
    pub name: String,
    pub addr: String,
}

/// An agent of a peer that is configured.
#[derive(Debug, PartialEq, Eq)]
pub struct RemoteAgentConfig {
    pub id: String,
    pub name: String,
    pub description: String,
    pub peer: String,
    pub capabilities: Vec<String>,
}

/// What is known of an agent of a peer.
#[derive(Debug, PartialEq, Eq)]
pub struct RemoteAgentInfo {
    pub id: String,
    pub name: String,
    pub description: String,
    pub capabilities: Vec<String>,
    pub required_capabilities: Vec<String>,
    pub peer: String,
    pub node_id: Option<String>,
}

/// A peer with the name `name` is configured.
pub open spec fn knows_peer(peers: Seq<MeshPeerConfig>, name: Seq<char>) -> bool {
    exists|i: int| 0 <= i < peers.len() && (#[trigger] peers[i]).name@ == name
}

fn has_peer(peers: &Vec<MeshPeerConfig>, name: &str) -> (yes: bool)
    ensures
        yes == knows_peer(peers@, name@),
{
    let mut i: usize = 0;
    while i < peers.len()
        invariant
            i <= peers@.len(),
            forall|j: int| 0 <= j < i ==> (#[trigger] peers@[j]).name@ != name@,
        decreases peers@.len() - i,
    {
        if str_eq(peers[i].name.as_str(), name) {
            return true;
        }
        i = i + 1;
    }
    false
}

/// The agents whose peers are configured, by their places among the agents.
pub open spec fn reachable(
    remotes: Seq<RemoteAgentConfig>,
    peers: Seq<MeshPeerConfig>,
) -> Seq<int>
    decreases remotes.len(),
{
    if remotes.len() == 0 {
        Seq::empty()
    } else {
        let before = reachable(remotes.drop_last(), peers);
        if knows_peer(peers, remotes.last().peer@) {
            before.push(remotes.len() - 1)
        } else {
            before
        }
    }
}

/// The agents that are to be registered: those whose peers are configured. The others are
/// passed over.
pub fn remote_agents_to_register(
    remotes: &Vec<RemoteAgentConfig>,
    peers: &Vec<MeshPeerConfig>,
) -> (places: Vec<usize>)
    ensures
        places@.map_values(|place: usize| place as int) == reachable(remotes@, peers@),
{
    let mut places: Vec<usize> = Vec::new();
    let mut i: usize = 0;
    assert(places@.map_values(|place: usize| place as int) =~= Seq::<int>::empty());
    while i < remotes.len()
        invariant
            i <= remotes@.len(),
            places@.map_values(|place: usize| place as int) == reachable(
                remotes@.subrange(0, i as int),
                peers@,
            ),
        decreases remotes@.len() - i,
    {
        let ghost longer = remotes@.subrange(0, i + 1);
        let ghost before = places@;
        assert(longer.drop_last() =~= remotes@.subrange(0, i as int));
        assert(longer.last() == remotes@[i as int]);
        if has_peer(peers, remotes[i].peer.as_str()) {
            places.push(i);
            assert(places@.map_values(|place: usize| place as int) =~= before.map_values(
                |place: usize| place as int,
            ).push(i as int));
        }
        i = i + 1;
    }
    assert(remotes@.subrange(0, remotes@.len() as int) =~= remotes@);
    places
}

/// What is known of an agent whose peer was looked up. A peer that answered says itself which
/// node it is; one that did not is taken to be the node that its name stands for, and is
/// registered all the same.
pub fn register_remote_agent(
    remote: &RemoteAgentConfig,
    resolved_node_id: Option<String>,
    answered_node_id: Option<String>,
) -> (info: RemoteAgentInfo)
    ensures
        is_info(
            *remote,
            match answered_node_id {
                Some(node_id) => Some(node_id),
                None => resolved_node_id,
            },
            info,
        ),
{
    let node_id = match answered_node_id {
        Some(node_id) => Some(node_id),
        None => resolved_node_id,
    };
    RemoteAgentInfo {
        id: remote.id.clone(),
        name: remote.name.clone(),
        description: remote.description.clone(),
        capabilities: remote.capabilities.clone(),
        required_capabilities: Vec::new(),
        peer: remote.peer.clone(),
        node_id,
    }
}

/// Where the registration of an agent stands, that is, what it waits for.
#[derive(Debug, Clone, Copy, PartialEq, Eq, Structural)]
pub enum RegisterStage {
    Resolving,
    LookingUp,
    AskingNode,
    Finished,
}

/// What the registration of an agent is told.
#[derive(Debug)]
pub enum RegisterEvent {
    /// The node that the peer's name stands for, if it is known.
    Resolved(Option<String>),
    /// Whether the peer's manager was found in time.
    LookedUp { found: bool },
    /// The node that the peer says it is, if it answered.
    Answered(Option<String>),
}

/// What the registration of an agent asks for.
#[derive(Debug)]
pub enum RegisterAction {
    Resolve { peer: String },
    /// Looks up the peer's manager under this name.
    LookUp { name: String, timeout_secs: u64 },
    /// Asks the peer's manager which node it is.
    AskNode,
    Register(RemoteAgentInfo),
    /// The event does not belong to the stage; nothing is to be done.
    Ignore,
}

/// The registration of one agent.
#[derive(Debug)]
pub struct RegisterRun {
    pub remote: RemoteAgentConfig,
    pub scopes: Vec<MeshScopeId>,
    pub stage: RegisterStage,
    pub resolved: Option<String>,
    /// How many scopes were looked through.
    pub looked: usize,
}

/// What is known of an agent on this node.
pub open spec fn is_info(remote: RemoteAgentConfig, node: Option<String>, info: RemoteAgentInfo) -> bool {
    &&& info.id@ == remote.id@
    &&& info.name@ == remote.name@
    &&& info.description@ == remote.description@
    &&& info.capabilities@ == remote.capabilities@
    &&& info.required_capabilities@.len() == 0
    &&& info.peer@ == remote.peer@
    &&& info.node_id == node
}

/// The next scope is looked through, or, where none is left, the agent is registered with
/// the node that its peer's name stands for.
pub open spec fn looks_on(run: RegisterRun, after: RegisterRun, action: RegisterAction) -> bool {
    if run.looked < run.scopes@.len() {
        &&& after == (RegisterRun { stage: RegisterStage::LookingUp, ..run })
        &&& action matches RegisterAction::LookUp { name, timeout_secs }
        &&& name@ == scope::prefix(run.scopes@[run.looked as int]@)
            + scope::node_manager_for_peer_name(run.resolved->Some_0@)
        &&& timeout_secs == LOOKUP_TIMEOUT_SECS
    } else {
        &&& after.stage == RegisterStage::Finished
        &&& after.remote == run.remote
        &&& action matches RegisterAction::Register(info) && is_info(
            run.remote,
            run.resolved,
            info,
        )
    }
}

/// What the registration of an agent becomes and asks for on `event`.
pub open spec fn is_register_step(
    run: RegisterRun,
    event: RegisterEvent,
    after: RegisterRun,
    action: RegisterAction,
) -> bool {
    match (run.stage, event) {
        (RegisterStage::Resolving, RegisterEvent::Resolved(node)) => match node {
            Some(node) => looks_on(
                RegisterRun { resolved: Some(node), ..run },
                after,
                action,
            ),
            None => {
                &&& after.stage == RegisterStage::Finished
                &&& after.remote == run.remote
                &&& action matches RegisterAction::Register(info) && is_info(
                    run.remote,
                    None,
                    info,
                )
            },
        },
        (RegisterStage::LookingUp, RegisterEvent::LookedUp { found }) => if found {
            &&& after == (RegisterRun { stage: RegisterStage::AskingNode, ..run })
            &&& action is AskNode
        } else {
            looks_on(RegisterRun { looked: (run.looked + 1) as usize, ..run }, after, action)
        },
        (RegisterStage::AskingNode, RegisterEvent::Answered(node)) => {
            &&& after.stage == RegisterStage::Finished
            &&& after.remote == run.remote
            &&& action matches RegisterAction::Register(info) && is_info(
                run.remote,
                match node {
                    Some(node) => Some(node),
                    None => run.resolved,
                },
                info,
            )
        },
        _ => after == run && action is Ignore,
    }
}

impl RegisterRun {
    /// While scopes are looked through one is left, and the peer's node is known.
    pub open spec fn wf(&self) -> bool {
        &&& self.looked <= self.scopes@.len()
        &&& self.stage == RegisterStage::LookingUp ==> self.looked < self.scopes@.len()
            && self.resolved is Some
    }

    /// The registration of an agent in a mesh with these scopes, and the first thing to do.
    pub fn start(remote: RemoteAgentConfig, scopes: Vec<MeshScopeId>) -> (begun: (
        RegisterRun,
        RegisterAction,
    ))
        ensures
            begun.0.wf(),
            begun.0 == (RegisterRun {
                remote,
                scopes,
                stage: RegisterStage::Resolving,
                resolved: None,
                looked: 0,
            }),
            begun.1 matches RegisterAction::Resolve { peer } && peer == remote.peer,
    {
        let peer = remote.peer.clone();
        let run = RegisterRun {
            remote,
            scopes,
            stage: RegisterStage::Resolving,
            resolved: None,
            looked: 0,
        };
        (run, RegisterAction::Resolve { peer })
    }

    fn register(&mut self, answered: Option<String>) -> (action: RegisterAction)
        ensures
            final(self).stage == RegisterStage::Finished,
            final(self).remote == old(self).remote,
            final(self).scopes == old(self).scopes,
            final(self).looked == old(self).looked,
            action matches RegisterAction::Register(info) && is_info(
                old(self).remote,
                match answered {
                    Some(node) => Some(node),
                    None => old(self).resolved,
                },
                info,
            ),
    {
        self.stage = RegisterStage::Finished;
        let resolved = self.resolved.take();
        RegisterAction::Register(register_remote_agent(&self.remote, resolved, answered))
    }

    fn look_on(&mut self) -> (action: RegisterAction)
        requires
            old(self).resolved is Some,
            old(self).looked <= old(self).scopes@.len(),
        ensures
            final(self).wf(),
            looks_on(*old(self), *final(self), action),
    {
        if self.looked < self.scopes.len() {
            self.stage = RegisterStage::LookingUp;
            let name = scoped_node_manager_for_peer(
                &self.scopes[self.looked],
                self.resolved.as_ref().unwrap().as_str(),
            );
            RegisterAction::LookUp { name, timeout_secs: LOOKUP_TIMEOUT_SECS }
        } else {
            self.register(None)
        }
    }

    /// Goes on after `event`. An event that the registration does not wait for changes
    /// nothing.
    pub fn on_event(&mut self, event: RegisterEvent) -> (action: RegisterAction)
        requires
            old(self).wf(),
        ensures
            final(self).wf(),
            is_register_step(*old(self), event, *final(self), action),
    {
        match (self.stage, event) {
            (RegisterStage::Resolving, RegisterEvent::Resolved(node)) => {
                self.resolved = node;
                if self.resolved.is_some() {
                    self.look_on()
                } else {
                    self.register(None)
                }
            },
            (RegisterStage::LookingUp, RegisterEvent::LookedUp { found }) => {
                if found {
                    self.stage = RegisterStage::AskingNode;
                    RegisterAction::AskNode
                } else {
                    let total: usize = self.scopes.len();
                    assert(self.looked < total);
                    self.looked = self.looked + 1;
                    self.look_on()
                }
            },
            (RegisterStage::AskingNode, RegisterEvent::Answered(node)) => self.register(node),
            _ => RegisterAction::Ignore,
        }
    }
}

/// An agent of a configured peer is registered whatever its peer answers, if it answers at
/// all.
pub proof fn law_silent_peers_are_registered(
    run: RegisterRun,
    event: RegisterEvent,
    after: RegisterRun,
    action: RegisterAction,
)
    requires
        run.wf(),
        is_register_step(run, event, after, action),
        after.stage == RegisterStage::Finished,
        run.stage != RegisterStage::Finished,
    ensures
        action matches RegisterAction::Register(info) && info.id@ == run.remote.id@,
{
}

/// Three names are published in each scope.
pub proof fn law_three_names_in_each_scope(
    peer: Seq<char>,
    actors: LocalMeshActorRefs,
    scopes: Seq<MeshScopeId>,
)
    ensures
        all_publications(peer, actors, scopes).len() == 3 * scopes.len(),
    decreases scopes.len(),
{
    if scopes.len() > 0 {
        law_three_names_in_each_scope(peer, actors, scopes.drop_last());
    }
}

/// An agent is registered exactly if its peer is configured.
pub proof fn law_agents_of_known_peers_are_registered(
    remotes: Seq<RemoteAgentConfig>,
    peers: Seq<MeshPeerConfig>,
    i: int,
)
    requires
        0 <= i < remotes.len(),
    ensures
        reachable(remotes, peers).contains(i) <==> knows_peer(peers, remotes[i].peer@),
    decreases remotes.len(),
{
    let shorter = remotes.drop_last();
    let before = reachable(shorter, peers);
    let after = reachable(remotes, peers);
    lemma_places_are_in_range(shorter, peers);
    if i == remotes.len() - 1 {
        if knows_peer(peers, remotes[i].peer@) {
            assert(after[before.len() as int] == i);
        } else if after.contains(i) {
            let k = choose|k: int| 0 <= k < after.len() && after[k] == i;
            assert(0 <= before[k] < shorter.len());
        }
    } else {
        law_agents_of_known_peers_are_registered(shorter, peers, i);
        assert(shorter[i] == remotes[i]);
        if before.contains(i) {
            let k = choose|k: int| 0 <= k < before.len() && before[k] == i;
            assert(after[k] == i);
        }
        if after.contains(i) {
            let k = choose|k: int| 0 <= k < after.len() && after[k] == i;
            assert(k < before.len());
            assert(before[k] == i);
        }
    }
}

proof fn lemma_places_are_in_range(remotes: Seq<RemoteAgentConfig>, peers: Seq<MeshPeerConfig>)
    ensures
        forall|k: int|
            0 <= k < reachable(remotes, peers).len() ==> 0 <= #[trigger] reachable(
                remotes,
                peers,
            )[k] < remotes.len(),
    decreases remotes.len(),
{
    if remotes.len() > 0 {
        let before = reachable(remotes.drop_last(), peers);
        let after = reachable(remotes, peers);
        lemma_places_are_in_range(remotes.drop_last(), peers);
        assert forall|k: int| 0 <= k < after.len() implies 0 <= #[trigger] after[k] < remotes.len() by {
            if k < before.len() {
                assert(after[k] == before[k]);
            }
        }
    }
}

/// In each scope a node publishes its manager under the common name and under its own, and
/// its provider host under its own.
pub proof fn law_nodes_publish_manager_and_host(
    peer: Seq<char>,
    actors: LocalMeshActorRefs,
    scope: Option<Seq<char>>,
    publication: Publication,
)
    ensures
        ({
            let published = scope_publications(peer, actors, scope);
            &&& published.len() == 3
            &&& published[0].0 == scope::prefix(scope) + "node_manager"@
            &&& published[0].1 == actors.node_manager
            &&& published[1].0 == scope::prefix(scope) + ("node_manager::peer::"@ + peer)
            &&& published[1].1 == actors.node_manager
            &&& published[2].0 == scope::prefix(scope) + ("provider_host::peer::"@ + peer)
            &&& published[2].1 == actors.provider_host
        }),
        says(publication).0 == publication.name@,
        says(publication).1 == publication.actor,
{
}

/// What a node publishes it publishes in every scope, scope by scope.
pub proof fn law_scopes_are_published_in_order(
    peer: Seq<char>,
    actors: LocalMeshActorRefs,
    scopes: Seq<MeshScopeId>,
    more: MeshScopeId,
)
    ensures
        all_publications(peer, actors, Seq::empty()).len() == 0,
        all_publications(peer, actors, scopes.push(more)) == all_publications(peer, actors, scopes)
            + scope_publications(peer, actors, more@),
{
    assert(scopes.push(more).drop_last() =~= scopes);
}

/// The agents that are registered are those of the peers that are configured, in order: one
/// more agent is registered exactly where its peer is known.
pub proof fn law_agents_are_registered_in_order(
    remotes: Seq<RemoteAgentConfig>,
    peers: Seq<MeshPeerConfig>,
    remote: RemoteAgentConfig,
)
    ensures
        reachable(Seq::empty(), peers).len() == 0,
        peers.map_values(|peer: MeshPeerConfig| peer.name@).contains(remote.peer@) ==> reachable(
            remotes.push(remote),
            peers,
        ) == reachable(remotes, peers).push(remotes.len() as int),
        !peers.map_values(|peer: MeshPeerConfig| peer.name@).contains(remote.peer@) ==> reachable(
            remotes.push(remote),
            peers,
        ) == reachable(remotes, peers),
{
    assert(remotes.push(remote).drop_last() =~= remotes);
    let names = peers.map_values(|peer: MeshPeerConfig| peer.name@);
    if names.contains(remote.peer@) {
        let i = choose|i: int| 0 <= i < names.len() && names[i] == remote.peer@;
        assert(peers[i].name@ == remote.peer@);
    }
    if knows_peer(peers, remote.peer@) {
        let i = choose|i: int| 0 <= i < peers.len() && (#[trigger] peers[i]).name@ == remote.peer@;
        assert(names[i] == remote.peer@);
    }
}

/// An agent is registered as it is configured, with the node that is known of it.
pub proof fn law_agents_are_registered_as_configured(
    remote: RemoteAgentConfig,
    node: Option<String>,
    info: RemoteAgentInfo,
)
    requires
        is_info(remote, node, info),
    ensures
        info.id@ == remote.id@,
        info.name@ == remote.name@,
        info.description@ == remote.description@,
        info.capabilities@ == remote.capabilities@,
        info.required_capabilities@.len() == 0,
        info.peer@ == remote.peer@,
        info.node_id == node,
{
}

/// A peer that stands for a node is looked up in one scope after the other, for five seconds
/// each; the first that is found is asked which node it is, and what it answers counts before
/// what was known.
pub proof fn law_peers_are_looked_up_in_each_scope(
    run: RegisterRun,
    event: RegisterEvent,
    after: RegisterRun,
    action: RegisterAction,
)
    requires
        run.wf(),
        is_register_step(run, event, after, action),
    ensures
        after.remote == run.remote,
        run.stage == RegisterStage::Resolving ==> (event matches RegisterEvent::Resolved(Some(node))
            ==> (run.looked < run.scopes@.len() ==> after.stage == RegisterStage::LookingUp
            && after.resolved == Some(node) && (action matches RegisterAction::LookUp {
            name,
            timeout_secs,
        } && name@ == scope::prefix(run.scopes@[run.looked as int]@) + ("node_manager::peer::"@
            + node@) && timeout_secs == 5)) && (run.looked == run.scopes@.len() ==> (
        action matches RegisterAction::Register(info) && info.node_id == Some(node)))),
        run.stage == RegisterStage::Resolving ==> (event matches RegisterEvent::Resolved(None) ==> (
        action matches RegisterAction::Register(info) && info.node_id is None)),
        run.stage == RegisterStage::LookingUp ==> (event matches RegisterEvent::LookedUp {
            found: true,
        } ==> after.stage == RegisterStage::AskingNode && after.resolved == run.resolved
            && action is AskNode),
        run.stage == RegisterStage::LookingUp ==> (event matches RegisterEvent::LookedUp {
            found: false,
        } ==> (run.looked + 1 < run.scopes@.len() ==> after.stage == RegisterStage::LookingUp
            && after.looked == run.looked + 1 && (action matches RegisterAction::LookUp {
            name,
            timeout_secs,
        } && name@ == scope::prefix(run.scopes@[run.looked + 1]@) + ("node_manager::peer::"@
            + run.resolved->Some_0@) && timeout_secs == 5)) && (run.looked + 1 == run.scopes@.len()
            ==> (action matches RegisterAction::Register(info) && info.node_id == run.resolved))),
        run.stage == RegisterStage::AskingNode ==> (event matches RegisterEvent::Answered(Some(node))
            ==> (action matches RegisterAction::Register(info) && info.node_id == Some(node))),
        run.stage == RegisterStage::AskingNode ==> (event matches RegisterEvent::Answered(None) ==> (
        action matches RegisterAction::Register(info) && info.node_id == run.resolved)),
        !(run.stage == RegisterStage::Resolving && event is Resolved) && !(run.stage
            == RegisterStage::LookingUp && event is LookedUp) && !(run.stage
            == RegisterStage::AskingNode && event is Answered) ==> after == run
            && action is Ignore,
{
    assert(run.scopes.len() == run.scopes@.len());
}

/// An agent is registered at the end of its registration, and only there.
pub proof fn law_registrations_end_with_the_agent(
    run: RegisterRun,
    event: RegisterEvent,
    after: RegisterRun,
    action: RegisterAction,
)
    requires
        run.wf(),
        is_register_step(run, event, after, action),
        run.stage != RegisterStage::Finished,
    ensures
        action is Register <==> after.stage == RegisterStage::Finished,
        action matches RegisterAction::Register(info) ==> info.id@ == run.remote.id@ && info.name@
            == run.remote.name@ && info.description@ == run.remote.description@
            && info.capabilities@ == run.remote.capabilities@ && info.peer@ == run.remote.peer@,
{
}

} // verus!
