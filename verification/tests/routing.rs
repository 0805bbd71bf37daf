use querymt_agent::routing::{
    ClearRoute, ListRoutes, ResolvePeer, RouteTarget, RoutingActor, RoutingMessage, RoutingPolicy,
    RoutingReply, RoutingSnapshot, SetProviderTarget, SetSessionTarget, UnresolvePeer,
};

fn peer(name: &str) -> RouteTarget {
    RouteTarget::Peer(name.to_string())
}

fn set_provider(actor: &mut RoutingActor, agent: &str, target: RouteTarget) {
    actor.set_provider_target(SetProviderTarget { agent_id: agent.to_string(), target });
}

fn resolve(actor: &mut RoutingActor, peer_name: &str, node_id: &str) -> usize {
    actor.resolve_peer(ResolvePeer {
        peer_name: peer_name.to_string(),
        node_id: node_id.to_string(),
    })
}

fn node_of(actor: &RoutingActor, agent: &str) -> Option<String> {
    actor.list_routes().get(agent).unwrap().resolved_provider_node_id.clone()
}

#[test]
fn snapshot_starts_empty() {
    assert!(RoutingActor::new().list_routes().is_empty());
    assert!(RoutingSnapshot::empty().is_empty());
}

#[test]
fn set_provider_target_creates_entry_and_updates_snapshot() {
    let mut actor = RoutingActor::new();
    let confirmation = actor.set_provider_target(SetProviderTarget {
        agent_id: "coder".into(),
        target: peer("gpu-box"),
    });
    assert_eq!(confirmation.agent_id, "coder");
    let policy = confirmation.policy.expect("policy should exist");
    assert_eq!(policy.provider_target, peer("gpu-box"));
    assert_eq!(policy.session_target, RouteTarget::Local);
    let snap = actor.list_routes();
    let entry = snap.get("coder").expect("snapshot should have 'coder'");
    assert_eq!(entry.provider_target, peer("gpu-box"));
}

#[test]
fn set_session_target_creates_entry_and_updates_snapshot() {
    let mut actor = RoutingActor::new();
    let confirmation = actor.set_session_target(SetSessionTarget {
        agent_id: "critic".into(),
        target: peer("nas-node"),
    });
    assert_eq!(confirmation.agent_id, "critic");
    let policy = confirmation.policy.expect("policy should exist");
    assert_eq!(policy.session_target, peer("nas-node"));
    let snap = actor.list_routes();
    let entry = snap.get("critic").expect("snapshot should have 'critic'");
    assert_eq!(entry.session_target, peer("nas-node"));
}

#[test]
fn clear_route_removes_entry() {
    let mut actor = RoutingActor::new();
    set_provider(&mut actor, "coder", peer("gpu"));
    assert!(!actor.list_routes().is_empty());
    let confirmation = actor.clear_route(ClearRoute { agent_id: "coder".into() });
    assert_eq!(confirmation.agent_id, "coder");
    assert!(confirmation.policy.is_none());
    assert!(actor.list_routes().is_empty(), "snapshot should be empty after ClearRoute");
}

#[test]
fn list_routes_returns_current_snapshot() {
    let mut actor = RoutingActor::new();
    set_provider(&mut actor, "a", peer("p1"));
    actor.set_session_target(SetSessionTarget { agent_id: "b".into(), target: peer("p2") });
    let snap = actor.list_routes();
    assert_eq!(snap.len(), 2);
    assert!(snap.get("a").is_some());
    assert!(snap.get("b").is_some());
    assert_eq!(snap.iter().len(), 2);
}

#[test]
fn resolve_peer_resolves_matching_routes() {
    let mut actor = RoutingActor::new();
    set_provider(&mut actor, "coder", peer("gpu-box"));
    set_provider(&mut actor, "critic", peer("gpu-box"));
    set_provider(&mut actor, "tester", peer("other"));
    assert_eq!(resolve(&mut actor, "gpu-box", "12D3KooWGPU"), 2);
    assert_eq!(node_of(&actor, "coder"), Some("12D3KooWGPU".into()));
    assert_eq!(node_of(&actor, "critic"), Some("12D3KooWGPU".into()));
    assert_eq!(node_of(&actor, "tester"), None, "unrelated route should not be resolved");
}

#[test]
fn resolve_peer_skips_already_resolved() {
    let mut actor = RoutingActor::new();
    set_provider(&mut actor, "coder", peer("gpu-box"));
    resolve(&mut actor, "gpu-box", "node-1");
    assert_eq!(resolve(&mut actor, "gpu-box", "node-2"), 0);
    assert_eq!(node_of(&actor, "coder"), Some("node-1".into()));
}

#[test]
fn unresolve_peer_degrades_matching_routes() {
    let mut actor = RoutingActor::new();
    set_provider(&mut actor, "coder", peer("gpu-box"));
    set_provider(&mut actor, "critic", peer("gpu-box"));
    resolve(&mut actor, "gpu-box", "12D3KooWGPU");
    assert!(node_of(&actor, "coder").is_some());
    let count = actor.unresolve_peer(UnresolvePeer { node_id: "12D3KooWGPU".into() });
    assert_eq!(count, 2, "should degrade exactly 2 routes");
    assert_eq!(node_of(&actor, "coder"), None);
    assert_eq!(node_of(&actor, "critic"), None);
}

#[test]
fn peer_lifecycle_resolve_unresolve_reresolve() {
    let mut actor = RoutingActor::new();
    set_provider(&mut actor, "coder", peer("gpu-box"));
    resolve(&mut actor, "gpu-box", "node-A");
    assert_eq!(node_of(&actor, "coder"), Some("node-A".into()));
    actor.unresolve_peer(UnresolvePeer { node_id: "node-A".into() });
    assert_eq!(node_of(&actor, "coder"), None);
    resolve(&mut actor, "gpu-box", "node-B");
    assert_eq!(node_of(&actor, "coder"), Some("node-B".into()));
}

#[test]
fn set_provider_target_to_local_clears_resolution() {
    let mut actor = RoutingActor::new();
    set_provider(&mut actor, "coder", peer("gpu-box"));
    resolve(&mut actor, "gpu-box", "node-A");
    set_provider(&mut actor, "coder", RouteTarget::Local);
    assert_eq!(node_of(&actor, "coder"), None);
}

#[test]
fn policies_point_where_they_say() {
    assert_eq!(RoutingPolicy::local().provider_target, RouteTarget::Local);
    assert_eq!(
        RoutingPolicy::with_provider_peer("p".to_string()).provider_target,
        peer("p")
    );
    assert_eq!(RoutingPolicy::with_session_peer("p".to_string()).session_target, peer("p"));
    assert!(peer("p").is_peer("p"));
    assert!(!peer("p").same_as(&RouteTarget::Local));
}

#[test]
fn multiple_agents_independent_routing() {
    let mut actor = RoutingActor::new();
    set_provider(&mut actor, "coder", peer("gpu-box"));
    actor.set_session_target(SetSessionTarget { agent_id: "critic".into(), target: peer("nas") });
    set_provider(&mut actor, "tester", RouteTarget::Local);
    let snap = actor.list_routes();
    assert_eq!(snap.len(), 3);
    let coder = snap.get("coder").unwrap();
    assert_eq!(coder.provider_target, peer("gpu-box"));
    assert_eq!(coder.session_target, RouteTarget::Local);
    let critic = snap.get("critic").unwrap();
    assert_eq!(critic.session_target, peer("nas"));
    assert_eq!(critic.provider_target, RouteTarget::Local);
    let tester = snap.get("tester").unwrap();
    assert_eq!(tester.provider_target, RouteTarget::Local);
    assert_eq!(tester.session_target, RouteTarget::Local);
}

#[test]
fn set_provider_target_overwrites_previous() {
    let mut actor = RoutingActor::new();
    set_provider(&mut actor, "coder", peer("gpu-1"));
    set_provider(&mut actor, "coder", peer("gpu-2"));
    assert_eq!(
        actor.list_routes().get("coder").unwrap().provider_target,
        peer("gpu-2"),
        "second SetProviderTarget should overwrite the first"
    );
}

fn set_session(agent: &str, peer: &str) -> RoutingMessage {
    RoutingMessage::SetSessionTarget(SetSessionTarget {
        agent_id: agent.to_string(),
        target: RouteTarget::Peer(peer.to_string()),
    })
}

#[test]
fn messages_are_handled_one_after_the_other() {
    let mut actor = RoutingActor::new();
    assert!(matches!(
        actor.handle(set_session("b", "p")),
        RoutingReply::Confirmed(confirmation)
            if confirmation.agent_id == "b" && confirmation.policy.is_some()
    ));
    let provider = SetProviderTarget {
        agent_id: "a".to_string(),
        target: RouteTarget::Peer("p".to_string()),
    };
    actor.handle(RoutingMessage::SetProviderTarget(provider));
    let found = ResolvePeer { peer_name: "p".to_string(), node_id: "n".to_string() };
    assert!(matches!(
        actor.handle(RoutingMessage::ResolvePeer(found)),
        RoutingReply::Changed(1)
    ));
    assert_eq!(node_of(&actor, "a").as_deref(), Some("n"));
    let gone = UnresolvePeer { node_id: "n".to_string() };
    assert!(matches!(
        actor.handle(RoutingMessage::UnresolvePeer(gone)),
        RoutingReply::Changed(1)
    ));
    assert_eq!(node_of(&actor, "a"), None);
    assert!(matches!(
        actor.handle(RoutingMessage::ClearRoute(ClearRoute { agent_id: "b".to_string() })),
        RoutingReply::Confirmed(confirmation) if confirmation.policy.is_none()
    ));
    assert!(matches!(
        actor.handle(RoutingMessage::ListRoutes(ListRoutes)),
        RoutingReply::Routes(snapshot) if snapshot.len() == 1
    ));
}
