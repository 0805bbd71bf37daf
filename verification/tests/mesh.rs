use querymt_agent::mesh::{MeshHandle, MeshLookup, MeshTransportMode, NameTable};
use querymt_agent::registry_exchange::{
    NotifyRegistration, RegistrationEntry, RegistryExchangeActor,
};
use querymt_agent::runtime_handle::{transports_of, MeshRuntimeHandle};
use querymt_agent::scope::{
    scoped_event_relay, scoped_node_manager, scoped_node_manager_for_peer, scoped_provider_host,
    scoped_session, MeshScopeId, MeshTransportKind,
};
use querymt_agent::transport::DynMeshTransport;

fn iroh(mesh_id: &str) -> MeshScopeId {
    MeshScopeId::Iroh { mesh_id: mesh_id.to_string() }
}

fn node(mode: MeshTransportMode) -> MeshHandle {
    MeshHandle {
        peer_id: "12D3KooWABC".to_string(),
        hostname: "box".to_string(),
        mode,
        stream_reconnect_grace_ms: 30_000,
        alive_peers: vec!["12D3KooWDEF".to_string()],
        active_scopes: vec![MeshScopeId::Lan, iroh("team-a")],
        joined_iroh_scopes: vec![iroh("team-a")],
    }
}

#[test]
fn lan_dht_prefix_is_empty() {
    assert_eq!(MeshScopeId::Lan.dht_prefix(), "");
}

#[test]
fn iroh_dht_prefix_is_scoped() {
    assert_eq!(iroh("personal").dht_prefix(), "scope::personal::");
}

#[test]
fn lan_is_lan() {
    assert!(MeshScopeId::Lan.is_lan());
    assert!(!MeshScopeId::Lan.is_iroh());
}

#[test]
fn iroh_is_iroh() {
    let scope = iroh("test");
    assert!(scope.is_iroh());
    assert!(!scope.is_lan());
}

#[test]
fn iroh_mesh_id_returns_id() {
    assert_eq!(iroh("my-mesh").iroh_mesh_id(), Some("my-mesh"));
    assert_eq!(MeshScopeId::Lan.iroh_mesh_id(), None);
}

#[test]
fn display_lan() {
    assert_eq!(MeshScopeId::Lan.label(), "lan");
}

#[test]
fn display_iroh() {
    assert_eq!(iroh("personal").label(), "iroh:personal");
}

#[test]
fn scoped_node_manager_lan_equals_unscoped() {
    assert_eq!(scoped_node_manager(&MeshScopeId::Lan), "node_manager");
}

#[test]
fn scoped_node_manager_for_peer_lan_equals_unscoped() {
    let peer_id = "12D3KooWABC";
    assert_eq!(
        scoped_node_manager_for_peer(&MeshScopeId::Lan, peer_id),
        format!("node_manager::peer::{peer_id}")
    );
}

#[test]
fn scoped_provider_host_lan_equals_unscoped() {
    let peer_id = "12D3KooWABC";
    assert_eq!(
        scoped_provider_host(&MeshScopeId::Lan, peer_id),
        format!("provider_host::peer::{peer_id}")
    );
}

#[test]
fn scoped_session_lan_equals_unscoped() {
    let sid = "abc-123";
    assert_eq!(scoped_session(&MeshScopeId::Lan, sid), format!("session::{sid}"));
}

#[test]
fn scoped_event_relay_lan_equals_unscoped() {
    let sid = "abc-123";
    let peer_id = "12D3KooWABC";
    assert_eq!(
        scoped_event_relay(&MeshScopeId::Lan, sid, peer_id),
        format!("event_relay::{sid}::{peer_id}")
    );
}

#[test]
fn iroh_node_manager_is_prefixed() {
    assert_eq!(scoped_node_manager(&iroh("team-a")), "scope::team-a::node_manager");
}

#[test]
fn iroh_node_manager_for_peer_is_prefixed() {
    assert_eq!(
        scoped_node_manager_for_peer(&iroh("team-a"), "12D3KooWABC"),
        "scope::team-a::node_manager::peer::12D3KooWABC"
    );
}

#[test]
fn iroh_provider_host_is_prefixed() {
    assert_eq!(
        scoped_provider_host(&iroh("team-a"), "12D3KooWABC"),
        "scope::team-a::provider_host::peer::12D3KooWABC"
    );
}

#[test]
fn iroh_session_is_prefixed() {
    assert_eq!(scoped_session(&iroh("team-a"), "sess-1"), "scope::team-a::session::sess-1");
}

#[test]
fn iroh_event_relay_is_prefixed() {
    assert_eq!(
        scoped_event_relay(&iroh("team-a"), "sess-1", "12D3KooWABC"),
        "scope::team-a::event_relay::sess-1::12D3KooWABC"
    );
}

#[test]
fn different_iroh_scopes_dont_collide() {
    let scope_a = iroh("team-a");
    let scope_b = iroh("team-b");
    assert_ne!(scoped_node_manager(&scope_a), scoped_node_manager(&scope_b));
    assert_ne!(scoped_session(&scope_a, "sess-1"), scoped_session(&scope_b, "sess-1"));
    assert_ne!(
        scoped_provider_host(&scope_a, "12D3KooWABC"),
        scoped_provider_host(&scope_b, "12D3KooWABC")
    );
}

#[test]
fn lan_and_iroh_scopes_dont_collide() {
    let iroh_scope = iroh("team-a");
    assert_ne!(scoped_node_manager(&MeshScopeId::Lan), scoped_node_manager(&iroh_scope));
    assert_ne!(
        scoped_session(&MeshScopeId::Lan, "sess-1"),
        scoped_session(&iroh_scope, "sess-1")
    );
    assert_ne!(
        scoped_provider_host(&MeshScopeId::Lan, "12D3KooWABC"),
        scoped_provider_host(&iroh_scope, "12D3KooWABC")
    );
    assert_ne!(
        scoped_event_relay(&MeshScopeId::Lan, "sess-1", "12D3KooWABC"),
        scoped_event_relay(&iroh_scope, "sess-1", "12D3KooWABC")
    );
}

#[test]
fn same_name_different_scope_no_collision_node_manager_for_peer() {
    let peer_id = "12D3KooWABC";
    let scope_a = iroh("mesh-1");
    let scope_b = iroh("mesh-2");
    assert_ne!(
        scoped_node_manager_for_peer(&scope_a, peer_id),
        scoped_node_manager_for_peer(&scope_b, peer_id)
    );
    assert_ne!(
        scoped_node_manager_for_peer(&MeshScopeId::Lan, peer_id),
        scoped_node_manager_for_peer(&scope_a, peer_id)
    );
}

#[test]
fn transport_kind_display() {
    assert_eq!(MeshTransportKind::Lan.label(), "lan");
    assert_eq!(MeshTransportKind::Iroh.label(), "iroh");
}

#[test]
fn runtime_handle_enabled_transports_matches_transport_mode() {
    assert_eq!(transports_of(MeshTransportMode::Lan), vec![MeshTransportKind::Lan]);
    assert_eq!(transports_of(MeshTransportMode::Iroh), vec![MeshTransportKind::Iroh]);
    assert_eq!(
        transports_of(MeshTransportMode::Composite),
        vec![MeshTransportKind::Lan, MeshTransportKind::Iroh]
    );

    let runtime = MeshRuntimeHandle::new(node(MeshTransportMode::Composite));
    assert_eq!(
        runtime.enabled_transports(),
        vec![MeshTransportKind::Lan, MeshTransportKind::Iroh]
    );
    assert!(runtime.has_transport(MeshTransportKind::Iroh));
    let lan_only = MeshRuntimeHandle::new(node(MeshTransportMode::Lan));
    assert!(!lan_only.has_transport(MeshTransportKind::Iroh));
}

#[test]
fn scope_handle_dht_names_match_scoped_helpers() {
    let scope = iroh("test-mesh");
    let peer_id = "12D3KooWABC";
    assert_eq!(scoped_node_manager(&scope), "scope::test-mesh::node_manager");
    assert_eq!(
        scoped_node_manager_for_peer(&scope, peer_id),
        "scope::test-mesh::node_manager::peer::12D3KooWABC"
    );

    let runtime = MeshRuntimeHandle::new(node(MeshTransportMode::Composite));
    let handle = runtime.scope(scope);
    assert_eq!(handle.node_manager_name(), "scope::test-mesh::node_manager");
    assert_eq!(
        handle.node_manager_for_peer_name(peer_id),
        "scope::test-mesh::node_manager::peer::12D3KooWABC"
    );
    assert_eq!(
        handle.provider_host_name(peer_id),
        "scope::test-mesh::provider_host::peer::12D3KooWABC"
    );
    assert_eq!(handle.session_name("s"), "scope::test-mesh::session::s");
    assert_eq!(
        handle.event_relay_name("s", peer_id),
        "scope::test-mesh::event_relay::s::12D3KooWABC"
    );
    assert_eq!(handle.peer_id(), "12D3KooWABC");
    assert_eq!(handle.scope_id().label(), "iroh:test-mesh");
}

#[test]
fn mesh_scope_id_display_roundtrip() {
    assert_eq!(MeshScopeId::Lan.label(), "lan");
    assert_eq!(iroh("team-a").label(), "iroh:team-a");
}

#[test]
fn handle_reports_its_node() {
    let runtime = MeshRuntimeHandle::new(node(MeshTransportMode::Lan));
    assert_eq!(runtime.peer_id(), "12D3KooWABC");
    assert_eq!(runtime.local_hostname(), "box");
    assert_eq!(runtime.stream_reconnect_grace(), 30_000);
    assert!(runtime.is_peer_alive("12D3KooWDEF"));
    assert!(!runtime.is_peer_alive("nobody"));
    assert_eq!(runtime.known_peer_ids(), vec!["12D3KooWDEF".to_string()]);
    assert_eq!(runtime.active_scopes().len(), 2);
    assert_eq!(runtime.joined_iroh_scopes(), vec![iroh("team-a")]);
    assert_eq!(runtime.as_mesh_handle().peer_id(), "12D3KooWABC");
}

#[test]
fn registration_is_scoped_and_undone_by_deregistration() {
    let runtime = MeshRuntimeHandle::new(node(MeshTransportMode::Composite));
    let mut table = NameTable::new();
    let publication =
        runtime.register_actor_scoped(&mut table, 7, &iroh("team-a"), "session::s");
    assert_eq!(publication.name, "scope::team-a::session::s");
    assert_eq!(publication.actor, 7);
    assert_eq!(table.re_registered("scope::team-a::session::s"), Some(7));
    assert_eq!(table.re_registered("scope::team-b::session::s"), None);
    assert_eq!(table.re_registered("session::s"), None);
    assert_eq!(runtime.re_register_fns_count(&table), 1);
    assert!(runtime.has_re_register_fn(&table, "scope::team-a::session::s"));
    runtime.deregister_actor_scoped(&mut table, &iroh("team-a"), "session::s");
    assert_eq!(runtime.re_register_fns_count(&table), 0);
    assert_eq!(table.re_registered("scope::team-a::session::s"), None);

    let scoped = runtime.scope(MeshScopeId::Lan);
    assert_eq!(scoped.register_actor(&mut table, 9, "node_manager").name, "node_manager");
    assert_eq!(table.re_registered("node_manager"), Some(9));
    scoped.deregister_actor(&mut table, "node_manager");
    assert_eq!(table.re_registered("node_manager"), None);
}

#[test]
fn lookups_are_asked_of_the_mesh() {
    let runtime = MeshRuntimeHandle::new(node(MeshTransportMode::Composite));
    let one = |name: &str, retry| MeshLookup::One { name: name.to_string(), retry };
    let all = |name: &str| MeshLookup::All { name: name.to_string() };
    assert_eq!(runtime.lookup_actor("s".to_string()), one("s", true));
    assert_eq!(runtime.lookup_actor_no_retry("s".to_string()), one("s", false));
    assert_eq!(runtime.lookup_all_actors("s".to_string()), all("s"));
    let team = iroh("team-a");
    assert_eq!(runtime.lookup_actor_scoped(&team, "s"), one("scope::team-a::s", true));
    assert_eq!(runtime.lookup_actor_scoped_no_retry(&team, "s"), one("scope::team-a::s", false));
    assert_eq!(runtime.lookup_all_actors_scoped(&team, "s"), all("scope::team-a::s"));
    let scoped = runtime.scope(team);
    assert_eq!(scoped.lookup_actor("s"), one("scope::team-a::s", true));
    assert_eq!(scoped.lookup_actor_no_retry("s"), one("scope::team-a::s", false));
    assert_eq!(scoped.lookup_all_actors("s"), all("scope::team-a::s"));
}

#[test]
fn transport_forwards_to_its_node() {
    let transport = DynMeshTransport::new(node(MeshTransportMode::Lan));
    let mut table = NameTable::new();
    let publication = transport.register_actor(&mut table, 3, "node_manager".to_string());
    assert_eq!(publication.actor, 3);
    assert_eq!(table.re_registered("node_manager"), Some(3));
    assert_eq!(
        transport.lookup_actor("other".to_string()),
        MeshLookup::One { name: "other".to_string(), retry: true }
    );
    assert_eq!(
        transport.lookup_all_actors("other".to_string()),
        MeshLookup::All { name: "other".to_string() }
    );
    assert_eq!(transport.peer_id(), "12D3KooWABC");
    assert_eq!(transport.local_hostname(), "box");
    assert!(transport.is_peer_alive("12D3KooWDEF"));
    assert_eq!(transport.handle().peer_id(), "12D3KooWABC");
}

fn entry(name: &str, id: u64) -> RegistrationEntry {
    RegistrationEntry { dht_name: name.to_string(), actor_sequence_id: id }
}

#[test]
fn repeated_registration_is_kept_once() {
    let mut actor = RegistryExchangeActor::new(vec![entry("a", 1)]);
    actor.notify_registration(NotifyRegistration { entry: entry("b", 2) });
    actor.notify_registration(NotifyRegistration { entry: entry("b", 2) });
    assert_eq!(actor.get_registrations(), vec![entry("a", 1), entry("b", 2)]);
    assert_eq!(RegistryExchangeActor::dht_name("peer"), "registry_exchange::peer::peer");
}

#[test]
fn scoped_names_collide_only_for_ids_with_colons() {
    let odd = iroh("a::session::b");
    let plain = iroh("a");
    assert_eq!(
        scoped_node_manager(&odd),
        scoped_session(&plain, "b::node_manager")
    );
}

#[test]
fn names_that_are_taken_back_are_not_published_again() {
    let mut table = NameTable::new();
    for (name, actor) in [("a", 1), ("b", 2), ("c", 3)] {
        table.register_actor(name.to_string(), actor);
    }
    table.deregister_actor("b");
    table.deregister_actor("unknown");
    assert_eq!(table.re_register_fns_count(), 2);
    assert!(!table.has_re_register_fn("b"));
    assert_eq!(table.re_registered("c"), Some(3));
}
