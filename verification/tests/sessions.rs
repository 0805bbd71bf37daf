use querymt_agent::chat::ReasoningEffort;
use querymt_agent::error::AgentError;
use querymt_agent::events::AgentEventKind;
use querymt_agent::mesh::{MeshHandle, MeshTransportMode};
use querymt_agent::model::{AgentMessage, AgentMode, ChatRole};
use querymt_agent::runtime_handle::MeshRuntimeHandle;
use querymt_agent::scope::MeshScopeId;
use querymt_agent::session_config::{
    all_session_modes, config_options, config_options_with_profiles, mode_state, ProfileMetadata,
    SessionConfigOptionCategory,
};
use querymt_agent::session_control::{
    SessionControlState, SessionModelBinding,
};
use querymt_agent::session_mcp::{
    split_attachments, ConnectedMcpPeer, McpServer, McpServerHttp, McpServerStdio,
    NoopSessionMcpAttachmentSource, SessionMaterializationKind, SessionMcpAttachment,
    SessionMcpAttachmentContext,
};
use querymt_agent::session_registry::{
    after_attach_step, checked_cwd, cleanup_steps, list_sessions, prepare_relay,
    resume_plan, select_relay_scope, session_info, AttachOutcome, AttachStep, CleanupStep,
    PreparedRemoteAttachment, RemoteRelayRegistration, ResumePlan, SessionActorRef,
    SessionMaterializationOptions, SessionRegistry, SessionRequestError, StoredSession, Timestamp,
};
use querymt_agent::session_requests::{
    ForkAction, ForkEvent, ForkRun, MaterializeAction, MaterializeEvent, MaterializeRun,
    ResumeAction, ResumeEvent, ResumeRun,
};
use querymt_agent::string_map::StringMap;

fn iroh(mesh_id: &str) -> MeshScopeId {
    MeshScopeId::Iroh { mesh_id: mesh_id.to_string() }
}

fn mesh() -> MeshRuntimeHandle {
    MeshRuntimeHandle::new(MeshHandle {
        peer_id: "me".to_string(),
        hostname: "box".to_string(),
        mode: MeshTransportMode::Composite,
        stream_reconnect_grace_ms: 0,
        alive_peers: vec![],
        active_scopes: vec![MeshScopeId::lan_default(), iroh("team-a")],
        joined_iroh_scopes: vec![iroh("team-a")],
    })
}

fn http(name: &str, url: &str) -> McpServer {
    McpServer::Http(McpServerHttp {
        name: name.to_string(),
        url: url.to_string(),
        headers: vec![],
    })
}

fn stdio(name: &str) -> McpServer {
    McpServer::Stdio(McpServerStdio {
        name: name.to_string(),
        command: "run".to_string(),
        args: vec![],
        env: vec![],
    })
}

fn message(id: &str) -> AgentMessage {
    AgentMessage {
        id: id.to_string(),
        session_id: "s".to_string(),
        role: ChatRole::User,
        parts: vec![],
        created_at: 0,
        parent_message_id: None,
    }
}

fn remote(actor_id: u64) -> SessionActorRef {
    SessionActorRef::Remote {
        actor_id,
        peer_label: "peer".to_string(),
        remote_node_id: Some("node".to_string()),
    }
}

fn relay(relay_actor_id: u64) -> RemoteRelayRegistration {
    RemoteRelayRegistration {
        relay_actor_id,
        relay_dht_name: format!("relay::{relay_actor_id}"),
        registered_relay_names: vec![],
        linked: false,
        in_mesh: false,
        matched_scope: None,
    }
}

fn prepared(session_id: &str, actor_id: u64, relay_actor_id: u64) -> PreparedRemoteAttachment {
    PreparedRemoteAttachment {
        session_id: session_id.to_string(),
        session_ref: remote(actor_id),
        relay: relay(relay_actor_id),
    }
}

#[test]
fn test_new_registry_is_empty() {
    let registry = SessionRegistry::new();
    assert!(registry.is_empty());
    assert_eq!(registry.len(), 0);
    assert!(registry.session_ids().is_empty());
}

#[test]
fn test_mode_state_contains_all_supported_modes() {
    let state = mode_state(AgentMode::Build);
    assert_eq!(state.current_mode_id.as_str(), "build");
    assert_eq!(state.available_modes.len(), 3);
}

#[test]
fn test_config_options_include_mode_selector() {
    let options = config_options(AgentMode::Review, None);
    assert_eq!(options.len(), 2);
    assert_eq!(options[0].id.as_str(), "mode");
    assert_eq!(options[0].current_value.as_str(), "review");
    assert_eq!(options[1].id.as_str(), "reasoning_effort");
    assert_eq!(options[1].category, Some(SessionConfigOptionCategory::ThoughtLevel));
}

#[test]
fn modes_are_described() {
    let modes = all_session_modes();
    let ids: Vec<&str> = modes.iter().map(|mode| mode.id.as_str()).collect();
    assert_eq!(ids, vec!["build", "plan", "review"]);
    assert_eq!(modes[1].name, "Plan");
    assert_eq!(modes[2].description.as_deref(), Some("Read-only review mode"));
}

#[test]
fn profiles_come_first() {
    let profiles = vec![
        ProfileMetadata {
            id: "fast".to_string(),
            name: "Fast".to_string(),
            description: Some("quick".to_string()),
        },
        ProfileMetadata { id: "deep".to_string(), name: "Deep".to_string(), description: None },
    ];
    let options = config_options_with_profiles(
        AgentMode::Build,
        Some(ReasoningEffort::High),
        None,
        &profiles,
    );
    assert_eq!(options.len(), 3);
    assert_eq!(options[0].id, "profile");
    assert_eq!(options[0].current_value, "fast");
    assert_eq!(options[0].options.len(), 2);
    assert_eq!(options[0].options[0].description.as_deref(), Some("quick"));
    assert_eq!(options[0].options[1].description, None);
    assert_eq!(options[2].current_value, "high");
    let values: Vec<&str> = options[2].options.iter().map(|o| o.value.as_str()).collect();
    assert_eq!(values, vec!["auto", "low", "medium", "high", "max"]);

    let chosen = config_options_with_profiles(AgentMode::Build, None, Some("deep"), &profiles);
    assert_eq!(chosen[0].current_value, "deep");
    assert_eq!(chosen[2].current_value, "auto");
}

#[test]
fn bindings_are_kept_for_each_mode() {
    let binding = |model: &str| SessionModelBinding {
        model_id: format!("p/{model}"),
        provider: "p".to_string(),
        model: model.to_string(),
        llm_config_id: 1,
        provider_node_id: None,
    };
    let mut state = SessionControlState {
        revision: 0,
        active_mode: AgentMode::Build,
        reasoning_effort: None,
        effective_model: binding("base"),
        mode_models: StringMap::new(),
    };
    assert!(state.binding_for(AgentMode::Plan).is_none());
    state.set_binding(AgentMode::Plan, binding("planner"));
    state.set_binding(AgentMode::Build, binding("builder"));
    assert_eq!(state.binding_for(AgentMode::Plan).unwrap().model, "planner");
    assert_eq!(state.binding_for(AgentMode::Build).unwrap().model, "builder");
    assert!(state.binding_for(AgentMode::Review).is_none());
    assert_eq!(SessionModelBinding::mode_key(AgentMode::Plan), "plan");
}

#[test]
fn test_get_nonexistent_session_returns_none() {
    assert!(SessionRegistry::new().get("no-such-session").is_none());
}

#[test]
fn test_insert_and_get_session() {
    let mut registry = SessionRegistry::new();
    registry.insert("sess-1".to_string(), SessionActorRef::Local(1));
    assert!(!registry.is_empty());
    assert_eq!(registry.len(), 1);
    assert!(registry.get("sess-1").is_some());
    assert!(registry.get("sess-2").is_none());
}

#[test]
fn test_insert_multiple_sessions() {
    let mut registry = SessionRegistry::new();
    for i in 0..5 {
        registry.insert(format!("sess-{i}"), SessionActorRef::Local(i));
    }
    assert_eq!(registry.len(), 5);
    let ids = registry.session_ids();
    assert_eq!(ids.len(), 5);
    for i in 0..5 {
        assert!(ids.contains(&format!("sess-{i}")));
    }
}

#[test]
fn test_remove_existing_session() {
    let mut registry = SessionRegistry::new();
    registry.insert("sess-1".to_string(), SessionActorRef::Local(1));
    assert_eq!(registry.len(), 1);
    let removed = registry.remove("sess-1");
    assert!(removed.session.is_some());
    assert!(registry.is_empty());
}

#[test]
fn test_remove_nonexistent_session_returns_none() {
    let mut registry = SessionRegistry::new();
    let removed = registry.remove("no-such-session");
    assert!(removed.session.is_none());
    assert!(registry.is_empty());
}

#[test]
fn test_overwrite_existing_session_id() {
    let mut registry = SessionRegistry::new();
    registry.insert("sess-1".to_string(), SessionActorRef::Local(1));
    registry.insert("sess-1".to_string(), SessionActorRef::Local(2));
    assert_eq!(registry.len(), 1);
    assert_eq!(registry.get("sess-1"), Some(&SessionActorRef::Local(2)));
}

#[test]
fn test_session_ids_reflects_inserts_and_removes() {
    let mut registry = SessionRegistry::new();
    registry.insert("alpha".to_string(), SessionActorRef::Local(1));
    registry.insert("beta".to_string(), SessionActorRef::Local(2));
    let ids = registry.session_ids();
    assert!(ids.contains(&"alpha".to_string()));
    assert!(ids.contains(&"beta".to_string()));
    registry.remove("alpha");
    let ids = registry.session_ids();
    assert!(!ids.contains(&"alpha".to_string()));
    assert!(ids.contains(&"beta".to_string()));
}

#[test]
fn several_sessions_can_be_looked_up_at_once() {
    let mut registry = SessionRegistry::new();
    registry.insert("alpha".to_string(), SessionActorRef::Local(1));
    registry.insert("beta".to_string(), SessionActorRef::Local(2));
    let found =
        registry.get_many(&vec!["beta".to_string(), "gamma".to_string(), "beta".to_string()]);
    assert_eq!(found.len(), 1);
    assert_eq!(found.get("beta"), Some(&SessionActorRef::Local(2)));
}

#[test]
fn test_list_sessions_empty_store() {
    let page = list_sessions(vec![], None);
    assert!(page.sessions.is_empty());
    assert!(page.next_cursor.is_none());
}

fn stored(n: usize) -> Vec<StoredSession> {
    (0..n)
        .map(|i| StoredSession {
            public_id: format!("s{i}"),
            name: if i == 0 { Some("first".to_string()) } else { None },
            updated_at: None,
        })
        .collect()
}

#[test]
fn pages_follow_each_other() {
    let first = list_sessions(stored(230), None);
    assert_eq!(first.sessions.len(), 100);
    assert_eq!(first.sessions[0].title.as_deref(), Some("first"));
    assert_eq!(first.next_cursor.as_deref(), Some("100"));
    let second = list_sessions(stored(230), first.next_cursor.as_deref());
    assert_eq!(second.sessions[0].session_id, "s100");
    let third = list_sessions(stored(230), second.next_cursor.as_deref());
    assert_eq!(third.sessions.len(), 30);
    assert_eq!(third.sessions[29].session_id, "s229");
    assert!(third.next_cursor.is_none());
    assert_eq!(list_sessions(stored(3), Some("junk")).sessions.len(), 3);
    assert!(list_sessions(stored(3), Some("3")).sessions.is_empty());
    assert!(list_sessions(stored(100), None).next_cursor.is_none());
}

#[test]
fn changes_are_listed_in_rfc3339() {
    let at = |unix_nanos: i128, offset_seconds: i32| {
        let sessions = vec![StoredSession {
            public_id: "s".to_string(),
            name: None,
            updated_at: Some(Timestamp { unix_nanos, offset_seconds }),
        }];
        list_sessions(sessions, None).sessions[0].updated_at.clone()
    };
    assert_eq!(at(0, 0).as_deref(), Some("1970-01-01T00:00:00Z"));
    assert_eq!(at(1_546_300_800_500_000_000, 3600).as_deref(), Some("2019-01-01T01:00:00.5+01:00"));
    assert_eq!(at(i128::MAX, 0).as_deref(), Some(""));
    let info = session_info("s".to_string(), None, Some(None));
    assert_eq!(info.updated_at.as_deref(), Some(""));
    assert_eq!(session_info("s".to_string(), None, None).updated_at, None);
}

#[test]
fn test_fork_session_empty_history_fails() {
    let (mut run, _) = ForkRun::fork_session("source-session".to_string());
    run.on_event(ForkEvent::SessionFound(Ok(true)));
    match run.on_event(ForkEvent::HistoryLoaded(Ok(vec![]))) {
        ForkAction::Respond(response) => {
            assert_eq!(response, Err(SessionRequestError::EmptySessionFork))
        }
        other => panic!("unexpected {other:?}"),
    }
}

#[test]
fn forks_are_made_at_the_last_message() {
    let (mut run, _) = ForkRun::fork_session("s".to_string());
    run.on_event(ForkEvent::SessionFound(Ok(true)));
    let history = vec![message("msg-1"), message("msg-2")];
    match run.on_event(ForkEvent::HistoryLoaded(Ok(history))) {
        ForkAction::Fork { session_id, message_id, .. } => {
            assert_eq!(session_id, "s");
            assert_eq!(message_id, "msg-2");
        }
        other => panic!("unexpected {other:?}"),
    }
    match run.on_event(ForkEvent::Forked(Err("full".to_string()))) {
        ForkAction::Respond(response) => {
            assert_eq!(response, Err(SessionRequestError::Internal("full".to_string())))
        }
        other => panic!("unexpected {other:?}"),
    }
}

#[test]
fn merged_mcp_servers_no_config_no_request() {
    assert!(SessionRegistry::merged_mcp_servers(vec![], vec![]).is_empty());
}

#[test]
fn merged_mcp_servers_config_only() {
    let merged = SessionRegistry::merged_mcp_servers(
        vec![http("config-server", "https://mcp.example.com/mcp")],
        vec![],
    );
    assert_eq!(merged.len(), 1);
    assert!(matches!(&merged[0], McpServer::Http(s) if s.name == "config-server"));
}

#[test]
fn merged_mcp_servers_request_only() {
    let merged = SessionRegistry::merged_mcp_servers(
        vec![],
        vec![http("req-server", "https://req.example.com/mcp")],
    );
    assert_eq!(merged.len(), 1);
    assert!(matches!(&merged[0], McpServer::Http(s) if s.name == "req-server"));
}

#[test]
fn merged_mcp_servers_request_overrides_config_by_name() {
    let merged = SessionRegistry::merged_mcp_servers(
        vec![http("shared-name", "https://config.example.com/mcp")],
        vec![http("shared-name", "https://override.example.com/mcp")],
    );
    assert_eq!(merged.len(), 1);
    assert!(
        matches!(&merged[0], McpServer::Http(s) if s.url == "https://override.example.com/mcp")
    );
}

#[test]
fn merged_mcp_servers_both_different_names() {
    let merged = SessionRegistry::merged_mcp_servers(
        vec![http("config-server", "https://config.example.com/mcp")],
        vec![http("req-server", "https://req.example.com/mcp")],
    );
    assert_eq!(merged.len(), 2);
    let names: Vec<Option<&str>> = merged.iter().map(|s| s.name()).collect();
    assert!(names.contains(&Some("config-server")));
    assert!(names.contains(&Some("req-server")));
}

#[test]
fn overriding_keeps_the_place_and_skips_unsupported_servers() {
    let merged = SessionRegistry::merged_mcp_servers(
        vec![stdio("a"), stdio("b")],
        vec![McpServer::Unsupported, http("a", "u"), stdio("c")],
    );
    assert_eq!(merged, vec![http("a", "u"), stdio("b"), stdio("c")]);
}

#[test]
fn attachments_are_split() {
    let peer = |n: u64| ConnectedMcpPeer { server_name: format!("p{n}"), peer: n };
    let (servers, peers) = split_attachments(vec![
        SessionMcpAttachment::ConnectedPeer(peer(1)),
        SessionMcpAttachment::ServerConfig(stdio("a")),
        SessionMcpAttachment::ConnectedPeer(peer(2)),
    ]);
    assert_eq!(servers, vec![stdio("a")]);
    assert_eq!(peers, vec![peer(1), peer(2)]);
    let context = SessionMcpAttachmentContext {
        session_id: "s".to_string(),
        cwd: None,
        kind: SessionMaterializationKind::RemoteCreate,
    };
    assert!(NoopSessionMcpAttachmentSource.attachments(&context).is_empty());
}

#[test]
fn select_relay_scope_uses_preferred_scope_when_present() {
    let scopes = vec![MeshScopeId::lan_default(), iroh("team-a")];
    let selected = select_relay_scope(&scopes, Some(iroh("team-a")));
    assert_eq!(selected, iroh("team-a"));
}

#[test]
fn select_relay_scope_falls_back_to_first_scope_when_preferred_missing() {
    let scopes = vec![MeshScopeId::lan_default(), iroh("team-a")];
    let selected = select_relay_scope(&scopes, Some(iroh("other")));
    assert_eq!(selected, MeshScopeId::lan_default());
}

#[test]
fn select_relay_scope_without_scopes_is_the_lan() {
    assert_eq!(select_relay_scope(&vec![], Some(iroh("x"))), MeshScopeId::Lan);
    assert_eq!(select_relay_scope(&vec![iroh("y")], None), iroh("y"));
}

#[test]
fn invalidate_remote_attachment_ignores_stale_generation() {
    let mut registry = SessionRegistry::new();
    registry.install_remote_attachment(prepared("remote-session", 1, 7), None).unwrap();
    let current = registry.remote_attachment_id("remote-session").unwrap();
    let invalidated =
        registry.invalidate_remote_attachment_if_current("remote-session", current + 1);
    assert!(invalidated.is_none());
    assert_eq!(registry.remote_attachment_id("remote-session"), Some(current));
}

#[test]
fn invalidate_remote_attachment_removes_matching_generation_atomically() {
    let mut registry = SessionRegistry::new();
    registry.install_remote_attachment(prepared("remote-session", 1, 7), None).unwrap();
    let current = registry.remote_attachment_id("remote-session").unwrap();
    let invalidated = registry
        .invalidate_remote_attachment_if_current("remote-session", current)
        .expect("matching generation should be removed");
    assert_eq!(invalidated.relay.relay_actor_id, current);
    assert_eq!(invalidated.remote_actor_id, 1);
    assert!(registry.get("remote-session").is_none());
    assert!(registry.remote_attachment_id("remote-session").is_none());
}

#[test]
fn attachments_replace_only_the_expected_one() {
    let mut registry = SessionRegistry::new();
    assert!(registry.install_remote_attachment(prepared("s", 1, 7), None).unwrap().is_none());
    let (given_back, conflict) =
        registry.install_remote_attachment(prepared("s", 2, 8), None).unwrap_err();
    assert_eq!(given_back, prepared("s", 2, 8));
    assert_eq!(conflict.current_attachment_id, Some(7));
    let before =
        registry.install_remote_attachment(prepared("s", 2, 8), Some(7)).unwrap().unwrap();
    assert_eq!(before.relay.relay_actor_id, 7);
    let snapshot = registry.remote_attachment("s").unwrap();
    assert_eq!(snapshot.attachment_id, 8);
    assert_eq!(snapshot.remote_actor_id, 2);
    assert_eq!(snapshot.peer_label, "peer");
    assert_eq!(snapshot.node_id.as_deref(), Some("node"));
    let listed = registry.remote_sessions();
    assert_eq!(listed.len(), 1);
    assert_eq!(listed[0].session_id, "s");
    assert!(registry.take_remote_attachment("s").is_some());
    assert!(registry.take_remote_attachment("s").is_none());

    registry.register_prepared_session("local", 4);
    assert!(registry.install_remote_attachment(prepared("local", 5, 9), None).is_err());
    assert!(registry.remote_attachment("local").is_none());
}

#[test]
fn local_sessions_are_published_in_every_scope() {
    let mut registry = SessionRegistry::new();
    assert_eq!(registry.register_prepared_session("a", 11), SessionActorRef::Local(11));
    registry.insert("b".to_string(), remote(5));
    let announcements = registry.set_mesh(Some(mesh()));
    assert_eq!(announcements.len(), 1);
    assert_eq!(announcements[0].actor, 11);
    assert_eq!(announcements[0].names, vec!["session::a", "scope::team-a::session::a"]);

    let options = SessionMaterializationOptions { attach_mesh_handle: true, register_in_dht: true };
    assert!(registry.mesh_for(&options).is_some());
    registry.set_bridge();
    let left = registry.materialize_session_actor("c", 12, &options);
    assert_eq!(left.actor, 12);
    assert_eq!(left.names, vec!["session::c", "scope::team-a::session::c"]);
    assert_eq!(registry.local_actor_ref("c"), Some(12));
    let quiet = SessionMaterializationOptions { attach_mesh_handle: false, register_in_dht: false };
    assert!(registry.mesh_for(&quiet).is_none());
    assert!(registry.materialize_session_actor("d", 13, &quiet).names.is_empty());

    let removed = registry.remove("c");
    assert_eq!(removed.names, vec!["session::c", "scope::team-a::session::c"]);
    assert!(registry.set_mesh(None).is_empty());
    assert!(registry.remove("a").names.is_empty());
}

#[test]
fn relays_are_named_after_their_attachment() {
    let handle = mesh();
    let relay = prepare_relay("s", 42, Some(&handle), Some(iroh("team-a")));
    assert_eq!(relay.relay_dht_name, "scope::team-a::event_relay::s::me::42");
    assert_eq!(
        relay.registered_relay_names,
        vec!["event_relay::s::me::42", "scope::team-a::event_relay::s::me::42"]
    );
    assert_eq!(relay.matched_scope, Some(iroh("team-a")));
    let alone = prepare_relay("s", 42, None, None);
    assert_eq!(alone.relay_dht_name, "event_relay::s::local::42");
    assert!(alone.registered_relay_names.is_empty());
}

#[test]
fn attaching_links_and_then_subscribes() {
    match after_attach_step(prepared("s", 1, 7), AttachStep::Link, Ok(())) {
        AttachOutcome::Subscribe(attachment) => assert!(attachment.relay.linked),
        other => panic!("unexpected {other:?}"),
    }
    match after_attach_step(prepared("s", 1, 7), AttachStep::Link, Err("x".to_string())) {
        AttachOutcome::Abort(_, error) => assert_eq!(
            error,
            AgentError::RemoteActor(
                "failed to link event relay to remote session: x".to_string()
            )
        ),
        other => panic!("unexpected {other:?}"),
    }
    assert!(matches!(
        after_attach_step(prepared("s", 1, 7), AttachStep::Subscribe, Ok(())),
        AttachOutcome::Ready(_)
    ));
    match after_attach_step(prepared("s", 1, 7), AttachStep::Subscribe, Err("y".to_string())) {
        AttachOutcome::Abort(_, error) => assert_eq!(
            error,
            AgentError::RemoteActor("failed to subscribe remote session events: y".to_string())
        ),
        other => panic!("unexpected {other:?}"),
    }
}

#[test]
fn attachments_are_cleaned_up_in_order() {
    let handle = mesh();
    let mut relay = prepare_relay("s", 7, Some(&handle), None);
    relay.linked = true;
    let steps = cleanup_steps(&remote(1), &relay, true);
    assert_eq!(
        steps,
        vec![
            CleanupStep::Unsubscribe {
                attachment_id: 7,
                relay_dht_name: "event_relay::s::me::7".to_string(),
            },
            CleanupStep::Unlink,
            CleanupStep::Deregister { name: "event_relay::s::me::7".to_string() },
            CleanupStep::Deregister { name: "scope::team-a::event_relay::s::me::7".to_string() },
            CleanupStep::KillRelay,
        ]
    );
    assert_eq!(cleanup_steps(&remote(1), &relay, false).len(), 3);
    let alone = prepare_relay("s", 7, None, None);
    assert_eq!(cleanup_steps(&SessionActorRef::Local(1), &alone, true).len(), 2);
}

#[test]
fn working_directories_have_to_be_absolute() {
    assert_eq!(checked_cwd("", false), Ok(None));
    assert_eq!(checked_cwd("/w", true), Ok(Some("/w".to_string())));
    assert_eq!(
        checked_cwd("w", false),
        Err(SessionRequestError::InvalidParams {
            message: "cwd must be an absolute path".to_string(),
            value: "w".to_string(),
        })
    );
}

#[test]
fn resuming_reuses_what_is_there() {
    assert_eq!(resume_plan("s", true, "/w", true, true), Ok(ResumePlan::Reuse));
    match resume_plan("s", true, "/w", true, false) {
        Ok(ResumePlan::Materialize { cwd, options }) => {
            assert_eq!(cwd.as_deref(), Some("/w"));
            assert!(options.attach_mesh_handle && options.register_in_dht);
        }
        other => panic!("unexpected {other:?}"),
    }
    assert!(resume_plan("s", true, "w", false, true).is_err());
    assert_eq!(
        resume_plan("s", false, "", false, false),
        Err(SessionRequestError::InvalidParams {
            message: "session not found".to_string(),
            value: "s".to_string(),
        })
    );
}

#[test]
fn test_registry_initially_empty() {
    let registry = SessionRegistry::new();
    assert!(registry.is_empty());
    assert_eq!(registry.len(), 0);
    assert!(registry.session_ids().is_empty());
}

#[test]
fn test_registry_insert_and_get() {
    let mut registry = SessionRegistry::new();
    registry.insert("reg-1".to_string(), SessionActorRef::Local(1));
    assert_eq!(registry.len(), 1);
    assert!(!registry.is_empty());
    assert!(registry.get("reg-1").is_some());
    assert!(registry.get("reg-nonexistent").is_none());
}

#[test]
fn test_registry_insert_and_remove() {
    let mut registry = SessionRegistry::new();
    registry.insert("reg-2".to_string(), SessionActorRef::Local(1));
    assert_eq!(registry.len(), 1);
    assert!(registry.remove("reg-2").session.is_some());
    assert_eq!(registry.len(), 0);
    assert!(registry.get("reg-2").is_none());
}

#[test]
fn test_registry_remove_nonexistent() {
    assert!(SessionRegistry::new().remove("does-not-exist").session.is_none());
}

#[test]
fn test_registry_session_ids() {
    let mut registry = SessionRegistry::new();
    registry.insert("id-a".to_string(), SessionActorRef::Local(1));
    registry.insert("id-b".to_string(), SessionActorRef::Local(2));
    registry.insert("id-c".to_string(), SessionActorRef::Local(3));
    let mut ids = registry.session_ids();
    ids.sort();
    assert_eq!(ids, vec!["id-a", "id-b", "id-c"]);
}

#[test]
fn test_registry_overwrite() {
    let mut registry = SessionRegistry::new();
    registry.insert("ow-1".to_string(), SessionActorRef::Local(1));
    assert_eq!(registry.len(), 1);
    registry.insert("ow-1".to_string(), SessionActorRef::Local(2));
    assert_eq!(registry.len(), 1);
    assert_eq!(registry.get("ow-1"), Some(&SessionActorRef::Local(2)));
}

#[test]
fn sessions_are_set_up_step_by_step() {
    let mut registry = SessionRegistry::new();
    registry.set_mesh(Some(mesh()));
    registry.set_bridge();
    let options = SessionMaterializationOptions { attach_mesh_handle: true, register_in_dht: true };
    let (mut run, action) = MaterializeRun::start(
        "s".to_string(),
        Some("/w".to_string()),
        vec![stdio("a"), stdio("b")],
        vec![http("b", "http://b")],
        true,
        options,
    );
    match action {
        MaterializeAction::BuildMcp(servers) => {
            let names: Vec<Option<&str>> = servers.iter().map(|server| server.name()).collect();
            assert_eq!(names, vec![Some("a"), Some("b")]);
            assert_eq!(servers[1], http("b", "http://b"));
        }
        other => panic!("unexpected {other:?}"),
    }
    let action = run.on_event(&mut registry, MaterializeEvent::McpBuilt(Ok(())));
    assert!(matches!(action, MaterializeAction::InitializeFork));
    match run.on_event(&mut registry, MaterializeEvent::ForkInitialized(Ok(()))) {
        MaterializeAction::StartActor { cwd, mesh } => {
            assert_eq!(cwd.as_deref(), Some("/w"));
            assert!(mesh.is_some());
        }
        other => panic!("unexpected {other:?}"),
    }
    let action = run.on_event(&mut registry, MaterializeEvent::ActorStarted { actor: 5 });
    assert!(matches!(action, MaterializeAction::SetBridge { actor: 5 }));
    assert!(registry.get("s").is_none());
    match run.on_event(&mut registry, MaterializeEvent::BridgeSet) {
        MaterializeAction::Done(done) => {
            assert_eq!(done.actor, 5);
            assert_eq!(done.names, vec!["session::s", "scope::team-a::session::s"]);
        }
        other => panic!("unexpected {other:?}"),
    }
    assert_eq!(registry.local_actor_ref("s"), Some(5));

    let quiet = SessionMaterializationOptions { attach_mesh_handle: false, register_in_dht: false };
    let (mut run, _) =
        MaterializeRun::start("t".to_string(), None, vec![], vec![], true, quiet);
    run.on_event(&mut registry, MaterializeEvent::McpBuilt(Ok(())));
    let failed = MaterializeEvent::ForkInitialized(Err("lost".to_string()));
    match run.on_event(&mut registry, failed) {
        MaterializeAction::Fail(error) => {
            assert_eq!(error, SessionRequestError::Internal("lost".to_string()))
        }
        other => panic!("unexpected {other:?}"),
    }
    assert!(registry.get("t").is_none());
}

fn resuming(cwd: &str) -> ResumeRun {
    let (run, action) = ResumeRun::resume_session(
        "s".to_string(),
        cwd.to_string(),
        cwd.starts_with('/'),
        vec![stdio("a")],
        vec![],
        Some(ReasoningEffort::High),
    );
    assert!(matches!(action, ResumeAction::FindSession));
    run
}

#[test]
fn resuming_sets_up_a_session_that_is_not_there() {
    let mut registry = SessionRegistry::new();
    let mut run = resuming("/w");
    let action = run.on_event(&mut registry, ResumeEvent::SessionFound(Ok(true)));
    assert!(matches!(action, ResumeAction::Materialize(MaterializeAction::BuildMcp(_))));
    let built = ResumeEvent::Materialize(MaterializeEvent::McpBuilt(Ok(())));
    let action = run.on_event(&mut registry, built);
    assert!(matches!(
        action,
        ResumeAction::Materialize(MaterializeAction::StartActor { mesh: None, .. })
    ));
    let started = ResumeEvent::Materialize(MaterializeEvent::ActorStarted { actor: 8 });
    match run.on_event(&mut registry, started) {
        ResumeAction::ReadMode { session, names, event } => {
            assert_eq!(session, SessionActorRef::Local(8));
            assert!(names.is_empty());
            assert_eq!(event, Some(AgentEventKind::SessionCreated));
        }
        other => panic!("unexpected {other:?}"),
    }
    assert_eq!(registry.local_actor_ref("s"), Some(8));
    let action = run.on_event(&mut registry, ResumeEvent::ModeRead(Ok(AgentMode::Plan)));
    assert!(matches!(action, ResumeAction::ReadEffort { session: SessionActorRef::Local(8) }));
    let failed = ResumeEvent::EffortRead(Err("busy".to_string()));
    match run.on_event(&mut registry, failed) {
        ResumeAction::Respond(Ok((modes, options))) => {
            assert_eq!(modes.current_mode_id, "plan");
            assert_eq!(options, config_options(AgentMode::Plan, Some(ReasoningEffort::High)));
        }
        other => panic!("unexpected {other:?}"),
    }
}

#[test]
fn resuming_asks_the_session_that_is_there() {
    let mut registry = SessionRegistry::new();
    registry.register_prepared_session("s", 4);
    let mut run = resuming("");
    match run.on_event(&mut registry, ResumeEvent::SessionFound(Ok(true))) {
        ResumeAction::ReadMode { session, names, event } => {
            assert_eq!(session, SessionActorRef::Local(4));
            assert!(names.is_empty());
            assert!(event.is_none());
        }
        other => panic!("unexpected {other:?}"),
    }
    let gone = SessionRequestError::Internal("gone".to_string());
    match run.on_event(&mut registry, ResumeEvent::ModeRead(Err(gone))) {
        ResumeAction::Respond(Err(error)) => {
            assert_eq!(error, SessionRequestError::Internal("gone".to_string()))
        }
        other => panic!("unexpected {other:?}"),
    }

    let mut run = resuming("w");
    match run.on_event(&mut registry, ResumeEvent::SessionFound(Ok(true))) {
        ResumeAction::Respond(Err(error)) => assert_eq!(
            error,
            SessionRequestError::InvalidParams {
                message: "cwd must be an absolute path".to_string(),
                value: "w".to_string(),
            }
        ),
        other => panic!("unexpected {other:?}"),
    }
    let mut run = resuming("/w");
    match run.on_event(&mut registry, ResumeEvent::SessionFound(Ok(false))) {
        ResumeAction::Respond(Err(error)) => assert_eq!(
            error,
            SessionRequestError::InvalidParams {
                message: "session not found".to_string(),
                value: "s".to_string(),
            }
        ),
        other => panic!("unexpected {other:?}"),
    }
}

#[test]
fn test_registry_get_returns_working_ref() {
    let mut registry = SessionRegistry::new();
    registry.insert("reg-work-1".to_string(), SessionActorRef::Local(1));
    assert_eq!(registry.get("reg-work-1"), Some(&SessionActorRef::Local(1)));
}

#[test]
fn test_registry_insert_via_actor_ref() {
    let mut registry = SessionRegistry::new();
    registry.insert("raw-actor".to_string(), SessionActorRef::Local(1));
    let stored = registry.get("raw-actor").expect("should exist");
    assert!(!stored.is_remote());
}

#[test]
fn test_session_actor_ref_clone() {
    let session = remote(3);
    assert_eq!(session.clone(), session);
    assert!(session.is_remote());
}
