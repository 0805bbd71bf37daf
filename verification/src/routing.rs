//! The routing table: where each agent's sessions and model calls go.
//!
//! The table has one writer. After every change it publishes a snapshot, which readers
//! look at when they decide.
use vstd::prelude::*;

use crate::string_map::{with_key, without, StringMap};
use crate::text::str_eq;

verus! {

/// Where work goes.
#[derive(Debug, PartialEq, Eq)]
pub enum RouteTarget {
    /// This node.
    Local,
    /// A peer, by the name it has in the configuration.
    Peer(String),
}

impl View for RouteTarget {
    type V = Option<Seq<char>>;

    /// The name of the peer; nothing for this node.
    open spec fn view(&self) -> Option<Seq<char>> {
        match self {
            RouteTarget::Local => None,
            RouteTarget::Peer(name) => Some(name@),
        }
    }
}

impl Clone for RouteTarget {
    fn clone(&self) -> (copy: Self)
        ensures
            copy == *self,
    {
        match self {
            RouteTarget::Local => RouteTarget::Local,
            RouteTarget::Peer(name) => RouteTarget::Peer(name.clone()),
        }
    }
}

impl RouteTarget {
    /// Whether two targets are the same.
    pub fn same_as(&self, other: &RouteTarget) -> (yes: bool)
        ensures
            yes == (self@ == other@),
    {
        match (self, other) {
            (RouteTarget::Local, RouteTarget::Local) => true,
            (RouteTarget::Peer(a), RouteTarget::Peer(b)) => str_eq(a.as_str(), b.as_str()),
            _ => false,
        }
    }

    /// Whether the target is the peer `name`.
    pub fn is_peer(&self, name: &str) -> (yes: bool)
        ensures
            yes == (self@ == Some(name@)),
    {
        match self {
            RouteTarget::Local => false,
            RouteTarget::Peer(peer) => str_eq(peer.as_str(), name),
        }
    }
}

/// The routing policy of one agent.
#[derive(Debug, PartialEq, Eq)]
pub struct RoutingPolicy {
    /// Where delegated sessions run.
    pub session_target: RouteTarget,
    /// Whose model is used by sessions that run here.
    pub provider_target: RouteTarget,
    /// The node that the provider's peer was found on; nothing while the peer is not
    /// known, or where the provider is local.
    pub resolved_provider_node_id: Option<String>,
}

impl Clone for RoutingPolicy {
    fn clone(&self) -> (copy: Self)
        ensures
            copy == *self,
    {
        RoutingPolicy {
            session_target: self.session_target.clone(),
            provider_target: self.provider_target.clone(),
            resolved_provider_node_id: self.resolved_provider_node_id.clone(),
        }
    }
}

/// A routing policy as the contracts see it.
pub ghost struct Policy {
    pub session: Option<Seq<char>>,
    pub provider: Option<Seq<char>>,
    pub node: Option<Seq<char>>,
}

impl View for RoutingPolicy {
    type V = Policy;

    open spec fn view(&self) -> Policy {
        Policy {
            session: self.session_target@,
            provider: self.provider_target@,
            node: match self.resolved_provider_node_id {
                Some(node) => Some(node@),
                None => None,
            },
        }
    }
}

/// The policy of an agent that has no other: everything runs here.
pub open spec fn local_policy() -> Policy {
    Policy { session: None, provider: None, node: None }
}

/// A resolved node belongs to a peer: a local provider has none.
pub open spec fn consistent(policy: Policy) -> bool {
    policy.node is Some ==> policy.provider is Some
}

/// `policy` with another provider. A resolution of the old one is dropped.
pub open spec fn with_provider(policy: Policy, provider: Option<Seq<char>>) -> Policy {
    Policy {
        provider,
        node: if policy.provider == provider {
            policy.node
        } else {
            None
        },
        ..policy
    }
}

/// `policy` waits for the peer `name`.
pub open spec fn awaits(policy: Policy, name: Seq<char>) -> bool {
    policy.provider == Some(name) && policy.node is None
}

/// `policy` once the peer `name` was found on `node`.
pub open spec fn resolved(policy: Policy, name: Seq<char>, node: Seq<char>) -> Policy {
    if awaits(policy, name) {
        Policy { node: Some(node), ..policy }
    } else {
        policy
    }
}

/// `policy` once `node` is gone.
pub open spec fn unresolved(policy: Policy, node: Seq<char>) -> Policy {
    if policy.node == Some(node) {
        Policy { node: None, ..policy }
    } else {
        policy
    }
}

impl RoutingPolicy {
    /// The policy under which everything runs here.
    pub fn local() -> (policy: Self)
        ensures
            policy@ == local_policy(),
    {
        RoutingPolicy {
            session_target: RouteTarget::Local,
            provider_target: RouteTarget::Local,
            resolved_provider_node_id: None,
        }
    }

    /// The policy under which the model of a peer is used.
    pub fn with_provider_peer(peer_name: String) -> (policy: Self)
        ensures
            policy@ == (Policy { session: None, provider: Some(peer_name@), node: None }),
    {
        RoutingPolicy {
            session_target: RouteTarget::Local,
            provider_target: RouteTarget::Peer(peer_name),
            resolved_provider_node_id: None,
        }
    }

    /// The policy under which sessions run on a peer.
    pub fn with_session_peer(peer_name: String) -> (policy: Self)
        ensures
            policy@ == (Policy { session: Some(peer_name@), provider: None, node: None }),
    {
        RoutingPolicy {
            session_target: RouteTarget::Peer(peer_name),
            provider_target: RouteTarget::Local,
            resolved_provider_node_id: None,
        }
    }
}

/// The routes as the contracts see them.
pub type Routes = Map<Seq<char>, Policy>;

/// The policies of a table.
pub open spec fn policies(routes: Map<Seq<char>, RoutingPolicy>) -> Routes {
    routes.map_values(|policy: RoutingPolicy| policy@)
}

/// A snapshot of the routing table.
#[derive(Debug)]
pub struct RoutingSnapshot {
    routes: StringMap<RoutingPolicy>,
}

impl View for RoutingSnapshot {
    type V = Routes;

    closed spec fn view(&self) -> Routes {
        policies(self.routes@)
    }
}

impl RoutingSnapshot {
    /// Every agent has one route.
    pub closed spec fn wf(&self) -> bool {
        self.routes.wf()
    }

    /// The agents in the order in which their routes came in.
    pub closed spec fn agents(&self) -> Seq<Seq<char>> {
        self.routes.key_order()
    }

    /// The snapshot of an empty table.
    pub fn empty() -> (snapshot: Self)
        ensures
            snapshot.wf(),
            snapshot@ == Map::<Seq<char>, Policy>::empty(),
            snapshot.agents() == Seq::<Seq<char>>::empty(),
    {
        let snapshot = RoutingSnapshot { routes: StringMap::new() };
        assert(snapshot@ =~= Map::<Seq<char>, Policy>::empty());
        snapshot
    }

    /// The policy of an agent, if it has one.
    pub fn get(&self, agent_id: &str) -> (policy: Option<&RoutingPolicy>)
        requires
            self.wf(),
        ensures
            match policy {
                Some(policy) => self@.dom().contains(agent_id@) && policy@ == self@[agent_id@],
                None => !self@.dom().contains(agent_id@),
            },
    {
        self.routes.get(agent_id)
    }

    /// All routes.
    pub fn iter(&self) -> (routes: Vec<(String, RoutingPolicy)>)
        requires
            self.wf(),
        ensures
            routes@.len() == self.agents().len(),
            forall|i: int|
                0 <= i < routes@.len() ==> (#[trigger] routes@[i]).0@ == self.agents()[i]
                    && self@.dom().contains(routes@[i].0@) && routes@[i].1@
                    == self@[routes@[i].0@],
            forall|agent: Seq<char>| #[trigger]
                self@.dom().contains(agent) <==> self.agents().contains(agent),
            self.agents().no_duplicates(),
    {
        let mut routes: Vec<(String, RoutingPolicy)> = Vec::new();
        let count: usize = self.routes.len();
        let mut i: usize = 0;
        proof {
            self.routes.lemma_key_order();
        }
        while i < count
            invariant
                self.wf(),
                count == self.routes.key_order().len(),
                i <= count,
                routes@.len() == i,
                forall|j: int|
                    0 <= j < i ==> (#[trigger] routes@[j]).0@ == self.routes.key_order()[j]
                        && self@.dom().contains(routes@[j].0@) && routes@[j].1@
                        == self@[routes@[j].0@],
            decreases count - i,
        {
            let agent = self.routes.key_at(i).clone();
            let policy = self.routes.value_at(i).clone();
            routes.push((agent, policy));
            i = i + 1;
        }
        routes
    }

    /// The number of routes.
    pub fn len(&self) -> (n: usize)
        requires
            self.wf(),
        ensures
            n == self.agents().len(),
    {
        self.routes.len()
    }

    /// Whether there are no routes.
    pub fn is_empty(&self) -> (yes: bool)
        requires
            self.wf(),
        ensures
            yes == (self@ == Map::<Seq<char>, Policy>::empty()),
    {
        proof {
            self.routes.lemma_key_order();
            if self.routes.key_order().len() == 0 {
                assert forall|agent: Seq<char>| !self@.dom().contains(agent) by {
                    assert(!self.routes.key_order().contains(agent));
                }
                assert(self@ =~= Map::<Seq<char>, Policy>::empty());
            } else {
                assert(self.routes.key_order().contains(self.routes.key_order()[0]));
                assert(self@.dom().contains(self.routes.key_order()[0]));
            }
        }
        self.routes.is_empty()
    }
}

impl Clone for RoutingSnapshot {
    fn clone(&self) -> (copy: Self)
        ensures
            self.wf() ==> copy.wf() && copy@ == self@ && copy.agents() == self.agents(),
    {
        let copy = RoutingSnapshot { routes: self.routes.clone() };
        assert(self.wf() ==> copy@ =~= self@);
        copy
    }
}

impl Default for RoutingSnapshot {
    fn default() -> (snapshot: Self)
        ensures
            snapshot.wf(),
            snapshot@ == Map::<Seq<char>, Policy>::empty(),
    {
        RoutingSnapshot::empty()
    }
}

/// Sets where the sessions of an agent run.
#[derive(Debug)]
pub struct SetSessionTarget {
    pub agent_id: String,
    pub target: RouteTarget,
}

/// Sets whose model the sessions of an agent use.
#[derive(Debug)]
pub struct SetProviderTarget {
    pub agent_id: String,
    pub target: RouteTarget,
}

/// Removes the route of an agent.
#[derive(Debug)]
pub struct ClearRoute {
    pub agent_id: String,
}

/// Asks for the published snapshot.
#[derive(Debug, Clone, Copy)]
pub struct ListRoutes;

/// Tells that a peer was found on a node.
#[derive(Debug)]
pub struct ResolvePeer {
    pub peer_name: String,
    pub node_id: String,
}

/// Tells that a node is gone.
#[derive(Debug)]
pub struct UnresolvePeer {
    pub node_id: String,
}

/// What the table is told or asked.
#[derive(Debug)]
pub enum RoutingMessage {
    SetSessionTarget(SetSessionTarget),
    SetProviderTarget(SetProviderTarget),
    ClearRoute(ClearRoute),
    ListRoutes(ListRoutes),
    ResolvePeer(ResolvePeer),
    UnresolvePeer(UnresolvePeer),
}

/// What a change of a route is confirmed with.
#[derive(Debug, PartialEq, Eq)]
pub struct RouteConfirmation {
    pub agent_id: String,
    pub policy: Option<RoutingPolicy>,
}

/// What a message is answered with.
#[derive(Debug)]
pub enum RoutingReply {
    Confirmed(RouteConfirmation),
    Routes(RoutingSnapshot),
    /// How many routes changed.
    Changed(usize),
}

/// The number of agents in `agents` whose route awaits the peer `name`.
pub open spec fn awaiting(agents: Seq<Seq<char>>, routes: Routes, name: Seq<char>) -> nat
    decreases agents.len(),
{
    if agents.len() == 0 {
        0
    } else {
        awaiting(agents.drop_last(), routes, name) + if awaits(routes[agents.last()], name) {
            1nat
        } else {
            0nat
        }
    }
}

/// The number of agents in `agents` whose provider was found on `node`.
pub open spec fn resolved_to(agents: Seq<Seq<char>>, routes: Routes, node: Seq<char>) -> nat
    decreases agents.len(),
{
    if agents.len() == 0 {
        0
    } else {
        resolved_to(agents.drop_last(), routes, node) + if routes[agents.last()].node == Some(
            node,
        ) {
            1nat
        } else {
            0nat
        }
    }
}

proof fn lemma_none_awaiting(agents: Seq<Seq<char>>, routes: Routes, name: Seq<char>)
    requires
        awaiting(agents, routes, name) == 0,
    ensures
        forall|agent: Seq<char>| #[trigger]
            agents.contains(agent) ==> !awaits(routes[agent], name),
    decreases agents.len(),
{
    if agents.len() > 0 {
        lemma_none_awaiting(agents.drop_last(), routes, name);
        assert forall|agent: Seq<char>| #[trigger] agents.contains(agent) implies !awaits(
            routes[agent],
            name,
        ) by {
            let i = choose|i: int| 0 <= i < agents.len() && agents[i] == agent;
            if i < agents.len() - 1 {
                assert(agents.drop_last()[i] == agent);
                assert(agents.drop_last().contains(agent));
            }
        }
    }
}

proof fn lemma_none_resolved_to(agents: Seq<Seq<char>>, routes: Routes, node: Seq<char>)
    requires
        resolved_to(agents, routes, node) == 0,
    ensures
        forall|agent: Seq<char>| #[trigger]
            agents.contains(agent) ==> routes[agent].node != Some(node),
    decreases agents.len(),
{
    if agents.len() > 0 {
        lemma_none_resolved_to(agents.drop_last(), routes, node);
        assert forall|agent: Seq<char>| #[trigger] agents.contains(agent) implies routes[agent].node
            != Some(node) by {
            let i = choose|i: int| 0 <= i < agents.len() && agents[i] == agent;
            if i < agents.len() - 1 {
                assert(agents.drop_last()[i] == agent);
                assert(agents.drop_last().contains(agent));
            }
        }
    }
}

/// The routes after the peer `name` was found on `node`.
pub open spec fn all_resolved(routes: Routes, name: Seq<char>, node: Seq<char>) -> Routes {
    routes.map_values(|policy: Policy| resolved(policy, name, node))
}

/// The routes after `node` was gone.
pub open spec fn all_unresolved(routes: Routes, node: Seq<char>) -> Routes {
    routes.map_values(|policy: Policy| unresolved(policy, node))
}

/// The policy of `agent`, or the local one where it has none.
pub open spec fn policy_or_local(routes: Routes, agent: Seq<char>) -> Policy {
    if routes.dom().contains(agent) {
        routes[agent]
    } else {
        local_policy()
    }
}

/// The one writer of the routing table.
#[derive(Debug)]
pub struct RoutingActor {
    routes: StringMap<RoutingPolicy>,
    published: RoutingSnapshot,
}

impl View for RoutingActor {
    type V = Routes;

    closed spec fn view(&self) -> Routes {
        policies(self.routes@)
    }
}

impl RoutingActor {
    /// The published snapshot is the table, and every route is consistent.
    pub closed spec fn wf(&self) -> bool {
        &&& self.routes.wf()
        &&& self.published.wf()
        &&& self.published@ == self@
        &&& self.published.agents() == self.agents()
        &&& forall|agent: Seq<char>| #[trigger]
            self@.dom().contains(agent) ==> consistent(self@[agent])
    }

    /// The agents in the order in which their routes came in.
    pub closed spec fn agents(&self) -> Seq<Seq<char>> {
        self.routes.key_order()
    }

    /// What readers see.
    pub closed spec fn snapshot(&self) -> Routes {
        self.published@
    }

    /// Readers see the table as it is, and no local provider is resolved to a node.
    pub proof fn law_snapshot_is_the_table(&self)
        requires
            self.wf(),
        ensures
            self.snapshot() == self@,
            forall|agent: Seq<char>| #[trigger]
                self@.dom().contains(agent) ==> consistent(self@[agent]),
    {
    }

    /// The agents of the table are its routes, each once.
    pub proof fn law_each_agent_is_listed_once(&self)
        requires
            self.wf(),
        ensures
            self.agents().no_duplicates(),
            forall|agent: Seq<char>| #[trigger]
                self.agents().contains(agent) <==> self@.dom().contains(agent),
    {
        self.routes.lemma_key_order();
    }

    /// An empty table.
    pub fn new() -> (actor: Self)
        ensures
            actor.wf(),
            actor@ == Map::<Seq<char>, Policy>::empty(),
            actor.agents() == Seq::<Seq<char>>::empty(),
            actor.snapshot() == Map::<Seq<char>, Policy>::empty(),
    {
        let actor = RoutingActor {
            routes: StringMap::new(),
            published: RoutingSnapshot::empty(),
        };
        assert(actor@ =~= Map::<Seq<char>, Policy>::empty());
        actor
    }

    /// Makes the table as it is the published snapshot.
    fn publish_snapshot(&mut self)
        requires
            old(self).routes.wf(),
        ensures
            final(self).routes == old(self).routes,
            final(self).published.wf(),
            final(self).published@ == final(self)@,
            final(self).published.agents() == final(self).agents(),
    {
        self.published = RoutingSnapshot { routes: self.routes.clone() };
        assert(self.published@ =~= self@);
    }

    /// Makes sure that an agent has a route.
    fn ensure_policy(&mut self, agent_id: &String)
        requires
            old(self).wf(),
        ensures
            final(self).routes.wf(),
            final(self).routes@.dom().contains(agent_id@),
            final(self)@ == old(self)@.insert(
                agent_id@,
                policy_or_local(old(self)@, agent_id@),
            ),
            final(self).agents() == with_key(
                old(self).agents(),
                agent_id@,
                old(self)@.dom().contains(agent_id@),
            ),
    {
        if !self.routes.contains_key(agent_id.as_str()) {
            let _none = self.routes.insert(agent_id.clone(), RoutingPolicy::local());
        }
        assert(self@ =~= old(self)@.insert(agent_id@, policy_or_local(old(self)@, agent_id@)));
    }

    /// Sets where the sessions of an agent run.
    pub fn set_session_target(&mut self, msg: SetSessionTarget) -> (confirmation: RouteConfirmation)
        requires
            old(self).wf(),
        ensures
            final(self).wf(),
            final(self)@ == old(self)@.insert(
                msg.agent_id@,
                (Policy {
                    session: msg.target@,
                    ..policy_or_local(old(self)@, msg.agent_id@)
                }),
            ),
            final(self).agents() == with_key(
                old(self).agents(),
                msg.agent_id@,
                old(self)@.dom().contains(msg.agent_id@),
            ),
            confirmation.agent_id == msg.agent_id,
            confirmation.policy matches Some(policy) && policy@ == final(self)@[msg.agent_id@],
    {
        self.ensure_policy(&msg.agent_id);
        let ghost mid = self.routes@;
        let mut confirmed: Option<RoutingPolicy> = None;
        match self.routes.get_mut(msg.agent_id.as_str()) {
            Some(policy) => {
                policy.session_target = msg.target;
                confirmed = Some(policy.clone());
            },
            None => {},
        }
        assert(self.routes@ == mid.insert(msg.agent_id@, self.routes@[msg.agent_id@]));
        assert(policies(mid) == old(self)@.insert(
            msg.agent_id@,
            policy_or_local(old(self)@, msg.agent_id@),
        ));
        assert(policies(mid)[msg.agent_id@] == mid[msg.agent_id@]@);
        assert(self@ =~= policies(mid).insert(msg.agent_id@, self.routes@[msg.agent_id@]@));
        assert(self@ =~= old(self)@.insert(
            msg.agent_id@,
            (Policy { session: msg.target@, ..policy_or_local(old(self)@, msg.agent_id@) }),
        ));
        self.publish_snapshot();
        RouteConfirmation { agent_id: msg.agent_id, policy: confirmed }
    }

    /// Sets whose model the sessions of an agent use. When that changes, the node that was
    /// found for the old peer is forgotten.
    pub fn set_provider_target(&mut self, msg: SetProviderTarget) -> (confirmation:
        RouteConfirmation)
        requires
            old(self).wf(),
        ensures
            final(self).wf(),
            final(self)@ == old(self)@.insert(
                msg.agent_id@,
                with_provider(policy_or_local(old(self)@, msg.agent_id@), msg.target@),
            ),
            final(self).agents() == with_key(
                old(self).agents(),
                msg.agent_id@,
                old(self)@.dom().contains(msg.agent_id@),
            ),
            confirmation.agent_id == msg.agent_id,
            confirmation.policy matches Some(policy) && policy@ == final(self)@[msg.agent_id@],
    {
        self.ensure_policy(&msg.agent_id);
        let ghost mid = self.routes@;
        let mut confirmed: Option<RoutingPolicy> = None;
        match self.routes.get_mut(msg.agent_id.as_str()) {
            Some(policy) => {
                if !policy.provider_target.same_as(&msg.target) {
                    policy.resolved_provider_node_id = None;
                }
                policy.provider_target = msg.target;
                confirmed = Some(policy.clone());
            },
            None => {},
        }
        assert(self.routes@ == mid.insert(msg.agent_id@, self.routes@[msg.agent_id@]));
        assert(policies(mid) == old(self)@.insert(
            msg.agent_id@,
            policy_or_local(old(self)@, msg.agent_id@),
        ));
        assert(policies(mid)[msg.agent_id@] == mid[msg.agent_id@]@);
        assert(self@ =~= policies(mid).insert(msg.agent_id@, self.routes@[msg.agent_id@]@));
        assert(self@ =~= old(self)@.insert(
            msg.agent_id@,
            with_provider(policy_or_local(old(self)@, msg.agent_id@), msg.target@),
        ));
        self.publish_snapshot();
        RouteConfirmation { agent_id: msg.agent_id, policy: confirmed }
    }

    /// Removes the route of an agent.
    pub fn clear_route(&mut self, msg: ClearRoute) -> (confirmation: RouteConfirmation)
        requires
            old(self).wf(),
        ensures
            final(self).wf(),
            final(self)@ == old(self)@.remove(msg.agent_id@),
            final(self).agents() == without(old(self).agents(), msg.agent_id@),
            confirmation.agent_id == msg.agent_id,
            confirmation.policy is None,
    {
        let _removed = self.routes.remove(msg.agent_id.as_str());
        assert(self@ =~= old(self)@.remove(msg.agent_id@));
        self.publish_snapshot();
        RouteConfirmation { agent_id: msg.agent_id, policy: None }
    }

    /// The published snapshot.
    pub fn list_routes(&self) -> (snapshot: RoutingSnapshot)
        requires
            self.wf(),
        ensures
            snapshot.wf(),
            snapshot@ == self@,
            snapshot.agents() == self.agents(),
    {
        self.published.clone()
    }

    /// Notes that a peer was found on a node, in every route that waits for it, and returns
    /// how many there were. A route that is resolved already stays as it is.
    pub fn resolve_peer(&mut self, msg: ResolvePeer) -> (count: usize)
        requires
            old(self).wf(),
        ensures
            final(self).wf(),
            final(self)@ == all_resolved(old(self)@, msg.peer_name@, msg.node_id@),
            final(self).agents() == old(self).agents(),
            count == awaiting(old(self).agents(), old(self)@, msg.peer_name@),
    {
        let ghost before = self@;
        let ghost agents = self.agents();
        let name = msg.peer_name.as_str();
        let total: usize = self.routes.len();
        let mut count: usize = 0;
        let mut i: usize = 0;
        proof {
            self.routes.lemma_key_order();
        }
        assert(agents.subrange(0, 0) =~= Seq::empty());
        while i < total
            invariant
                self.routes.wf(),
                self.routes.key_order() == agents,
                agents.no_duplicates(),
                total == agents.len(),
                i <= total,
                name@ == msg.peer_name@,
                self@.dom() == before.dom(),
                forall|agent: Seq<char>| #[trigger]
                    before.dom().contains(agent) <==> agents.contains(agent),
                forall|j: int|
                    0 <= j < i ==> self@[#[trigger] agents[j]] == resolved(
                        before[agents[j]],
                        name@,
                        msg.node_id@,
                    ),
                forall|j: int| i <= j < total ==> self@[#[trigger] agents[j]] == before[agents[j]],
                count == awaiting(agents.subrange(0, i as int), before, name@),
                count <= i,
                self.published == old(self).published,
            decreases total - i,
        {
            proof {
                let longer = agents.subrange(0, i + 1);
                assert(longer.drop_last() =~= agents.subrange(0, i as int));
                assert(longer.last() == agents[i as int]);
                assert(agents.contains(agents[i as int]));
                assert(before.dom().contains(agents[i as int]));
                assert(self@[agents[i as int]] == before[agents[i as int]]);
            }
            let ghost routes_before = self.routes@;
            let policy = self.routes.value_at_mut(i);
            if policy.provider_target.is_peer(name) && policy.resolved_provider_node_id.is_none() {
                policy.resolved_provider_node_id = Some(msg.node_id.clone());
                count = count + 1;
            }
            assert(self@.dom() =~= before.dom());
            i = i + 1;
        }
        assert(agents.subrange(0, i as int) =~= agents);
        proof {
            let after = all_resolved(before, name@, msg.node_id@);
            assert forall|agent: Seq<char>| self@.dom().contains(agent) implies self@[agent]
                == after[agent] by {
                assert(before.dom().contains(agent));
                assert(agents.contains(agent));
                let j = choose|j: int| 0 <= j < agents.len() && agents[j] == agent;
                assert(self@[agents[j]] == resolved(before[agents[j]], name@, msg.node_id@));
            }
            assert(self@ =~= after);
            if count == 0 {
                lemma_none_awaiting(agents, before, name@);
                assert(self@ =~= before);
            }
            assert forall|agent: Seq<char>| #[trigger] self@.dom().contains(agent) implies consistent(
                self@[agent],
            ) by {
                assert(consistent(before[agent]));
            }
        }
        if count > 0 {
            self.publish_snapshot();
        }
        count
    }

    /// Notes that a node is gone, in every route that was resolved to it, and returns how
    /// many there were.
    pub fn unresolve_peer(&mut self, msg: UnresolvePeer) -> (count: usize)
        requires
            old(self).wf(),
        ensures
            final(self).wf(),
            final(self)@ == all_unresolved(old(self)@, msg.node_id@),
            final(self).agents() == old(self).agents(),
            count == resolved_to(old(self).agents(), old(self)@, msg.node_id@),
    {
        let ghost before = self@;
        let ghost agents = self.agents();
        let total: usize = self.routes.len();
        let mut count: usize = 0;
        let mut i: usize = 0;
        proof {
            self.routes.lemma_key_order();
        }
        assert(agents.subrange(0, 0) =~= Seq::empty());
        while i < total
            invariant
                self.routes.wf(),
                self.routes.key_order() == agents,
                agents.no_duplicates(),
                total == agents.len(),
                i <= total,
                self@.dom() == before.dom(),
                forall|agent: Seq<char>| #[trigger]
                    before.dom().contains(agent) <==> agents.contains(agent),
                forall|j: int|
                    0 <= j < i ==> self@[#[trigger] agents[j]] == unresolved(
                        before[agents[j]],
                        msg.node_id@,
                    ),
                forall|j: int| i <= j < total ==> self@[#[trigger] agents[j]] == before[agents[j]],
                count == resolved_to(agents.subrange(0, i as int), before, msg.node_id@),
                count <= i,
                self.published == old(self).published,
            decreases total - i,
        {
            proof {
                let longer = agents.subrange(0, i + 1);
                assert(longer.drop_last() =~= agents.subrange(0, i as int));
                assert(longer.last() == agents[i as int]);
                assert(agents.contains(agents[i as int]));
                assert(before.dom().contains(agents[i as int]));
                assert(self@[agents[i as int]] == before[agents[i as int]]);
            }
            let policy = self.routes.value_at_mut(i);
            let gone = match &policy.resolved_provider_node_id {
                Some(node) => str_eq(node.as_str(), msg.node_id.as_str()),
                None => false,
            };
            if gone {
                policy.resolved_provider_node_id = None;
                count = count + 1;
            }
            assert(self@.dom() =~= before.dom());
            i = i + 1;
        }
        assert(agents.subrange(0, i as int) =~= agents);
        proof {
            let after = all_unresolved(before, msg.node_id@);
            assert forall|agent: Seq<char>| self@.dom().contains(agent) implies self@[agent]
                == after[agent] by {
                assert(before.dom().contains(agent));
                assert(agents.contains(agent));
                let j = choose|j: int| 0 <= j < agents.len() && agents[j] == agent;
                assert(self@[agents[j]] == unresolved(before[agents[j]], msg.node_id@));
            }
            assert(self@ =~= after);
            if count == 0 {
                lemma_none_resolved_to(agents, before, msg.node_id@);
                assert(self@ =~= before);
            }
            assert forall|agent: Seq<char>| #[trigger] self@.dom().contains(agent) implies consistent(
                self@[agent],
            ) by {
                assert(consistent(before[agent]));
            }
        }
        if count > 0 {
            self.publish_snapshot();
        }
        count
    }
}

/// The routes once `message` was handled.
pub open spec fn routes_after(routes: Routes, message: RoutingMessage) -> Routes {
    match message {
        RoutingMessage::SetSessionTarget(msg) => routes.insert(
            msg.agent_id@,
            Policy { session: msg.target@, ..policy_or_local(routes, msg.agent_id@) },
        ),
        RoutingMessage::SetProviderTarget(msg) => routes.insert(
            msg.agent_id@,
            with_provider(policy_or_local(routes, msg.agent_id@), msg.target@),
        ),
        RoutingMessage::ClearRoute(msg) => routes.remove(msg.agent_id@),
        RoutingMessage::ListRoutes(_) => routes,
        RoutingMessage::ResolvePeer(msg) => all_resolved(routes, msg.peer_name@, msg.node_id@),
        RoutingMessage::UnresolvePeer(msg) => all_unresolved(routes, msg.node_id@),
    }
}

/// The agents, in order, once `message` was handled.
pub open spec fn agents_after(
    agents: Seq<Seq<char>>,
    routes: Routes,
    message: RoutingMessage,
) -> Seq<Seq<char>> {
    match message {
        RoutingMessage::SetSessionTarget(msg) => with_key(
            agents,
            msg.agent_id@,
            routes.dom().contains(msg.agent_id@),
        ),
        RoutingMessage::SetProviderTarget(msg) => with_key(
            agents,
            msg.agent_id@,
            routes.dom().contains(msg.agent_id@),
        ),
        RoutingMessage::ClearRoute(msg) => without(agents, msg.agent_id@),
        _ => agents,
    }
}

/// `reply` is what `message` is answered with by a table that was `before` and is `after`.
pub open spec fn answers(
    before: RoutingActor,
    message: RoutingMessage,
    after: RoutingActor,
    reply: RoutingReply,
) -> bool {
    match message {
        RoutingMessage::SetSessionTarget(msg) => confirms(msg.agent_id, after, reply),
        RoutingMessage::SetProviderTarget(msg) => confirms(msg.agent_id, after, reply),
        RoutingMessage::ClearRoute(msg) => {
            &&& reply matches RoutingReply::Confirmed(confirmation)
            &&& confirmation.agent_id == msg.agent_id
            &&& confirmation.policy is None
        },
        RoutingMessage::ListRoutes(_) => {
            &&& reply matches RoutingReply::Routes(snapshot)
            &&& snapshot.wf()
            &&& snapshot@ == before@
            &&& snapshot.agents() == before.agents()
        },
        RoutingMessage::ResolvePeer(msg) => {
            &&& reply matches RoutingReply::Changed(count)
            &&& count == awaiting(before.agents(), before@, msg.peer_name@)
        },
        RoutingMessage::UnresolvePeer(msg) => {
            &&& reply matches RoutingReply::Changed(count)
            &&& count == resolved_to(before.agents(), before@, msg.node_id@)
        },
    }
}

/// `reply` confirms the route that `agent_id` has in the table `after`.
pub open spec fn confirms(agent_id: String, after: RoutingActor, reply: RoutingReply) -> bool {
    &&& reply matches RoutingReply::Confirmed(confirmation)
    &&& confirmation.agent_id == agent_id
    &&& confirmation.policy matches Some(policy)
    &&& policy@ == after@[agent_id@]
}

/// `after` is the table `before` once it has handled `message`.
pub open spec fn handled(before: RoutingActor, message: RoutingMessage, after: RoutingActor) -> bool {
    &&& after.wf()
    &&& after@ == routes_after(before@, message)
    &&& after.agents() == agents_after(before.agents(), before@, message)
}

impl RoutingActor {
    /// Handles a message. What readers see is the table as it is then.
    pub fn handle(&mut self, message: RoutingMessage) -> (reply: RoutingReply)
        requires
            old(self).wf(),
        ensures
            handled(*old(self), message, *final(self)),
            answers(*old(self), message, *final(self), reply),
            final(self).snapshot() == final(self)@,
    {
        match message {
            RoutingMessage::SetSessionTarget(msg) => RoutingReply::Confirmed(
                self.set_session_target(msg),
            ),
            RoutingMessage::SetProviderTarget(msg) => RoutingReply::Confirmed(
                self.set_provider_target(msg),
            ),
            RoutingMessage::ClearRoute(msg) => RoutingReply::Confirmed(self.clear_route(msg)),
            RoutingMessage::ListRoutes(_) => RoutingReply::Routes(self.list_routes()),
            RoutingMessage::ResolvePeer(msg) => RoutingReply::Changed(self.resolve_peer(msg)),
            RoutingMessage::UnresolvePeer(msg) => RoutingReply::Changed(self.unresolve_peer(msg)),
        }
    }
}

/// The routes of a table that was empty, once `messages` were handled one after the other.
pub open spec fn routes_after_all(messages: Seq<RoutingMessage>) -> Routes
    decreases messages.len(),
{
    if messages.len() == 0 {
        Map::empty()
    } else {
        routes_after(routes_after_all(messages.drop_last()), messages.last())
    }
}

/// Whatever messages a table handles, a route that is resolved to a node has a peer for its
/// provider.
pub proof fn law_resolved_routes_have_a_peer(messages: Seq<RoutingMessage>)
    ensures
        forall|agent: Seq<char>| #[trigger]
            routes_after_all(messages).dom().contains(agent) ==> consistent(
                routes_after_all(messages)[agent],
            ),
    decreases messages.len(),
{
    if messages.len() > 0 {
        law_resolved_routes_have_a_peer(messages.drop_last());
        let before = routes_after_all(messages.drop_last());
        let after = routes_after_all(messages);
        assert forall|agent: Seq<char>| #[trigger] after.dom().contains(agent) implies consistent(
            after[agent],
        ) by {
            if before.dom().contains(agent) {
                assert(consistent(before[agent]));
            }
        }
    }
}

/// Whatever messages a new table handles, at every moment readers see the table as it is,
/// and it holds what those messages make of it. `tables[i]` is the table after the first
/// `i` messages.
pub proof fn law_readers_see_every_change(
    tables: Seq<RoutingActor>,
    messages: Seq<RoutingMessage>,
    i: int,
)
    requires
        tables.len() == messages.len() + 1,
        tables[0].wf(),
        tables[0]@ == Map::<Seq<char>, Policy>::empty(),
        forall|k: int|
            0 <= k < messages.len() ==> handled(
                #[trigger] tables[k],
                messages[k],
                tables[k + 1],
            ),
        0 <= i <= messages.len(),
    ensures
        tables[i]@ == routes_after_all(messages.take(i)),
        tables[i].snapshot() == tables[i]@,
        forall|agent: Seq<char>| #[trigger]
            tables[i].snapshot().dom().contains(agent) && tables[i].snapshot()[agent].node is Some
                ==> tables[i].snapshot()[agent].provider is Some,
    decreases i,
{
    if i > 0 {
        law_readers_see_every_change(tables, messages, i - 1);
        assert(handled(tables[i - 1], messages[i - 1], tables[i]));
        assert(messages.take(i).drop_last() =~= messages.take(i - 1));
        assert(messages.take(i).last() == messages[i - 1]);
    }
    law_resolved_routes_have_a_peer(messages.take(i));
    assert forall|agent: Seq<char>| #[trigger]
        tables[i].snapshot().dom().contains(agent) && tables[i].snapshot()[agent].node is Some
        implies tables[i].snapshot()[agent].provider is Some by {
        assert(routes_after_all(messages.take(i)).dom().contains(agent));
    }
}

/// A peer that comes back on the same node after it was gone is found again: for a route
/// that was not resolved before, losing the peer undoes its resolution, and finding it
/// again restores it.
pub proof fn law_peer_comes_back(policy: Policy, name: Seq<char>, node: Seq<char>)
    requires
        policy.node is None,
    ensures
        resolved(unresolved(resolved(policy, name, node), node), name, node) == resolved(
            policy,
            name,
            node,
        ),
        unresolved(resolved(policy, name, node), node) == policy,
{
}

/// A resolution is never overwritten by another one.
pub proof fn law_resolution_is_kept(
    policy: Policy,
    name: Seq<char>,
    first: Seq<char>,
    second: Seq<char>,
)
    ensures
        resolved(resolved(policy, name, first), name, second) == resolved(policy, name, first),
{
}

/// Setting the same provider again keeps its resolution; setting another one drops it.
pub proof fn law_resolution_follows_the_provider(policy: Policy, provider: Option<Seq<char>>)
    ensures
        provider == policy.provider ==> with_provider(policy, provider) == policy,
        provider != policy.provider ==> with_provider(policy, provider).node is None,
        consistent(policy) ==> consistent(with_provider(policy, provider)),
{
}

/// A node is put down for exactly the routes that wait for that peer, and taken from exactly
/// those that go to that node; where a route leads otherwise stays as it is.
pub proof fn law_peers_are_resolved_where_they_are_awaited(
    policy: Policy,
    name: Seq<char>,
    node: Seq<char>,
    provider: Option<Seq<char>>,
)
    ensures
        policy.provider == Some(name) && policy.node is None ==> resolved(policy, name, node) == (
        Policy { session: policy.session, provider: policy.provider, node: Some(node) }),
        policy.provider != Some(name) || policy.node is Some ==> resolved(policy, name, node)
            == policy,
        policy.node == Some(node) ==> unresolved(policy, node) == (Policy {
            session: policy.session,
            provider: policy.provider,
            node: None,
        }),
        policy.node != Some(node) ==> unresolved(policy, node) == policy,
        with_provider(policy, provider).session == policy.session,
        with_provider(policy, provider).provider == provider,
        awaits(policy, name) <==> policy.provider == Some(name) && policy.node is None,
        consistent(policy) <==> !(policy.node is Some && policy.provider is None),
        local_policy().session is None,
        local_policy().provider is None,
        local_policy().node is None,
{
}

/// What each message makes of a route: the one it names is set or cleared, a peer that comes
/// or goes changes every route that it concerns, and no other route is touched.
pub proof fn law_messages_change_the_routes_they_name(
    routes: Routes,
    message: RoutingMessage,
    agent: Seq<char>,
)
    ensures
        ({
            let after = routes_after(routes, message);
            let known = routes.dom().contains(agent);
            &&& message matches RoutingMessage::SetSessionTarget(msg) ==> {
                &&& after.dom().contains(agent) <==> known || agent == msg.agent_id@
                &&& agent == msg.agent_id@ ==> after[agent].session == msg.target@
                &&& agent == msg.agent_id@ && known ==> after[agent].provider
                    == routes[agent].provider && after[agent].node == routes[agent].node
                &&& agent == msg.agent_id@ && !known ==> after[agent].provider is None
                    && after[agent].node is None
                &&& agent != msg.agent_id@ && known ==> after[agent] == routes[agent]
            }
            &&& message matches RoutingMessage::SetProviderTarget(msg) ==> {
                &&& after.dom().contains(agent) <==> known || agent == msg.agent_id@
                &&& agent == msg.agent_id@ ==> after[agent].provider == msg.target@
                &&& agent == msg.agent_id@ && known ==> after[agent].session
                    == routes[agent].session
                &&& agent == msg.agent_id@ && known && routes[agent].provider == msg.target@
                    ==> after[agent].node == routes[agent].node
                &&& agent == msg.agent_id@ && known && routes[agent].provider != msg.target@
                    ==> after[agent].node is None
                &&& agent == msg.agent_id@ && !known ==> after[agent].session is None
                    && after[agent].node is None
                &&& agent != msg.agent_id@ && known ==> after[agent] == routes[agent]
            }
            &&& message matches RoutingMessage::ClearRoute(msg) ==> {
                &&& after.dom().contains(agent) <==> known && agent != msg.agent_id@
                &&& agent != msg.agent_id@ && known ==> after[agent] == routes[agent]
            }
            &&& message is ListRoutes ==> after == routes
            &&& message matches RoutingMessage::ResolvePeer(msg) ==> {
                &&& after.dom().contains(agent) <==> known
                &&& known && routes[agent].provider == Some(msg.peer_name@)
                    && routes[agent].node is None ==> after[agent].node == Some(msg.node_id@)
                    && after[agent].provider == routes[agent].provider && after[agent].session
                    == routes[agent].session
                &&& known && !(routes[agent].provider == Some(msg.peer_name@)
                    && routes[agent].node is None) ==> after[agent] == routes[agent]
            }
            &&& message matches RoutingMessage::UnresolvePeer(msg) ==> {
                &&& after.dom().contains(agent) <==> known
                &&& known && routes[agent].node == Some(msg.node_id@) ==> after[agent].node is None
                    && after[agent].provider == routes[agent].provider && after[agent].session
                    == routes[agent].session
                &&& known && routes[agent].node != Some(msg.node_id@) ==> after[agent]
                    == routes[agent]
            }
        }),
{
}

/// Agents are listed in the order in which their routes were set first.
pub proof fn law_agents_are_listed_in_order(
    agents: Seq<Seq<char>>,
    routes: Routes,
    message: RoutingMessage,
)
    ensures
        message matches RoutingMessage::SetSessionTarget(msg) ==> agents_after(
            agents,
            routes,
            message,
        ) == if routes.dom().contains(msg.agent_id@) {
            agents
        } else {
            agents.push(msg.agent_id@)
        },
        message matches RoutingMessage::SetProviderTarget(msg) ==> agents_after(
            agents,
            routes,
            message,
        ) == if routes.dom().contains(msg.agent_id@) {
            agents
        } else {
            agents.push(msg.agent_id@)
        },
        message matches RoutingMessage::ClearRoute(msg) ==> !agents_after(
            agents,
            routes,
            message,
        ).contains(msg.agent_id@),
        message is ListRoutes || message is ResolvePeer || message is UnresolvePeer ==> agents_after(
            agents,
            routes,
            message,
        ) == agents,
{
    if let RoutingMessage::ClearRoute(msg) = message {
        crate::string_map::law_removed_keys_are_gone(agents, msg.agent_id@, msg.agent_id@);
    }
}

/// The reply to a message tells what became of it: the route as it is now, the table, or how
/// many routes changed, each of which counts once.
pub proof fn law_replies_tell_what_changed(
    before: RoutingActor,
    message: RoutingMessage,
    after: RoutingActor,
    reply: RoutingReply,
    agents: Seq<Seq<char>>,
    agent: Seq<char>,
    routes: Routes,
    name: Seq<char>,
)
    requires
        answers(before, message, after, reply),
    ensures
        message matches RoutingMessage::SetSessionTarget(msg) ==> (reply matches
            RoutingReply::Confirmed(told) && told.agent_id == msg.agent_id && (
        told.policy matches Some(policy) && policy@ == after@[msg.agent_id@])),
        message matches RoutingMessage::SetProviderTarget(msg) ==> (reply matches
            RoutingReply::Confirmed(told) && told.agent_id == msg.agent_id && (
        told.policy matches Some(policy) && policy@ == after@[msg.agent_id@])),
        message matches RoutingMessage::ClearRoute(msg) ==> (reply matches
            RoutingReply::Confirmed(told) && told.agent_id == msg.agent_id
            && told.policy is None),
        message is ListRoutes ==> (reply matches RoutingReply::Routes(snapshot) && snapshot@
            == before@ && snapshot.agents() == before.agents()),
        message is ResolvePeer || message is UnresolvePeer ==> reply is Changed,
        awaiting(Seq::empty(), routes, name) == 0,
        awaiting(agents.push(agent), routes, name) == awaiting(agents, routes, name) + if
            routes[agent].provider == Some(name) && routes[agent].node is None {
            1int
        } else {
            0
        },
        resolved_to(Seq::empty(), routes, name) == 0,
        resolved_to(agents.push(agent), routes, name) == resolved_to(agents, routes, name) + if
            routes[agent].node == Some(name) {
            1int
        } else {
            0
        },
{
    assert(agents.push(agent).drop_last() =~= agents);
}

/// A policy is read as where its sessions run, whose model is used, and on which node.
pub proof fn law_policies_are_read_as_they_are(policy: RoutingPolicy)
    ensures
        policy.session_target is Local ==> policy@.session is None,
        policy.session_target matches RouteTarget::Peer(name) ==> policy@.session == Some(name@),
        policy.provider_target is Local ==> policy@.provider is None,
        policy.provider_target matches RouteTarget::Peer(name) ==> policy@.provider == Some(name@),
        policy.resolved_provider_node_id matches Some(node) ==> policy@.node == Some(node@),
        policy.resolved_provider_node_id is None ==> policy@.node is None,
{
}

/// A peer that comes is answered with how many routes waited for it, and one that goes with
/// how many led to it.
pub proof fn law_peers_are_answered_with_their_routes(
    before: RoutingActor,
    message: RoutingMessage,
    after: RoutingActor,
    reply: RoutingReply,
)
    requires
        answers(before, message, after, reply),
    ensures
        message matches RoutingMessage::ResolvePeer(msg) ==> (reply matches RoutingReply::Changed(n)
            && n == awaiting(before.agents(), before@, msg.peer_name@)),
        message matches RoutingMessage::UnresolvePeer(msg) ==> (reply matches
            RoutingReply::Changed(n) && n == resolved_to(before.agents(), before@, msg.node_id@)),
{
}

/// A message that was handled has changed the table and the order of its agents, and the
/// published table is the table.
pub proof fn law_handled_messages_change_table_and_order(
    before: RoutingActor,
    message: RoutingMessage,
    after: RoutingActor,
)
    requires
        handled(before, message, after),
    ensures
        after@ == routes_after(before@, message),
        after.agents() == agents_after(before.agents(), before@, message),
        after.snapshot() == after@,
{
    after.law_snapshot_is_the_table();
}

} // verus!
