use querymt_agent::error::AgentError;
use querymt_agent::mesh::{MeshHandle, MeshTransportMode};
use querymt_agent::model::AgentMode;
use querymt_agent::prompt_run::StopReason;
use querymt_agent::qr::{render_modules, render_to_terminal, QrModules};
use querymt_agent::remote_attach::{AttachAction, AttachEvent, AttachRun};
use querymt_agent::remote_handle::{
    CreateAction, CreateEvent, CreateStep, RemoteAgentError, RemoteAgentHandle, SessionHandoff,
    SessionLookup,
};
use querymt_agent::remote_prompt::{
    CancelProviderStream, RemotePromptAction, RemotePromptEvent, RemotePromptStage,
};
use querymt_agent::remote_setup::{
    local_mesh_publications, register_local_mesh_actor_scope, register_remote_agent,
    remote_agents_to_register, LocalMeshActorRefs, MeshPeerConfig, RegisterAction,
    RegisterEvent, RegisterRun, RemoteAgentConfig,
};
use querymt_agent::runtime_handle::MeshRuntimeHandle;
use querymt_agent::scope::MeshScopeId;
use querymt_agent::session_registry::{CleanupStep, SessionActorRef};
use querymt_agent::text::{contains, decimal_string, parse_usize, str_eq, trim, trim_start};
use querymt_agent::worker_manager::{
    after_address_poll, after_registration_lookup, supervisor_socket_name, worker_binary_path,
    AddressStep, ModeSwitch, RegistrationStep, WorkerError, WorkerManager,
};
use querymt_agent::worker_spawn::{BindFailure, SpawnAction, SpawnEvent, SpawnRun};

fn mesh() -> MeshRuntimeHandle {
    MeshRuntimeHandle::new(MeshHandle {
        peer_id: "me".to_string(),
        hostname: "box".to_string(),
        mode: MeshTransportMode::Composite,
        stream_reconnect_grace_ms: 0,
        alive_peers: vec![],
        active_scopes: vec![
            MeshScopeId::Lan,
            MeshScopeId::Iroh { mesh_id: "team".to_string() },
        ],
        joined_iroh_scopes: vec![],
    })
}

#[test]
fn test_new_manager_is_empty() {
    let mgr = WorkerManager::new(None);
    assert!(mgr.is_empty());
    assert_eq!(mgr.len(), 0);
    assert!(mgr.session_ids().is_empty());
}

#[test]
fn test_has_worker_returns_false_for_unknown() {
    let mgr = WorkerManager::new(None);
    assert!(!mgr.has_worker("nonexistent"));
}

#[test]
fn worker_manager_lifecycle() {
    let mgr = WorkerManager::new(None);
    assert!(mgr.is_empty());
    assert_eq!(mgr.len(), 0);
    assert!(!mgr.has_worker("sess-1"));
    assert!(mgr.session_ids().is_empty());
}

#[test]
fn test_destroy_nonexistent_worker_is_ok() {
    let mut mgr = WorkerManager::new(None);
    assert!(mgr.destroy_worker("nonexistent").is_none());
}

#[test]
fn test_destroy_all_empty() {
    let mut mgr = WorkerManager::new(None);
    assert!(mgr.destroy_all().is_empty());
    assert!(mgr.is_empty());
}

#[test]
fn worker_manager_switch_mode_nonexistent_errors() {
    let mut mgr = WorkerManager::new(None);
    let result = mgr.switch_mode("nonexistent", AgentMode::Plan);
    assert!(matches!(result, Err(WorkerError::NotFound(_))));
}

fn add(mgr: &mut WorkerManager, id: &str, supervised: bool) {
    mgr.insert_worker(
        id,
        1,
        SessionActorRef::Local(4),
        "/w".to_string(),
        AgentMode::Build,
        supervised,
    );
}

#[test]
fn write_access_follows_the_mode() {
    let mut mgr = WorkerManager::new(None);
    add(&mut mgr, "a", true);
    add(&mut mgr, "b", false);
    let allowed = |mgr: &WorkerManager, id: &str| mgr.workers.get(id).unwrap().allow_write;
    assert_eq!(allowed(&mgr, "a"), Some(true));
    assert_eq!(allowed(&mgr, "b"), None);
    assert_eq!(mgr.switch_mode("a", AgentMode::Build), Ok(ModeSwitch::Unchanged));
    assert_eq!(
        mgr.switch_mode("a", AgentMode::Plan),
        Ok(ModeSwitch::Forward { session_ref: SessionActorRef::Local(4) })
    );
    assert_eq!(allowed(&mgr, "a"), Some(false));
    assert_eq!(mgr.worker_current_mode("a"), AgentMode::Build);
    assert_eq!(
        mgr.finish_switch_mode("a", AgentMode::Plan, Err("gone".to_string())),
        Err(WorkerError::ModeSwitchFailed("gone".to_string()))
    );
    assert_eq!(mgr.worker_current_mode("a"), AgentMode::Build);
    assert_eq!(mgr.finish_switch_mode("a", AgentMode::Plan, Ok(())), Ok(()));
    assert_eq!(mgr.worker_current_mode("a"), AgentMode::Plan);
    let ended = mgr.destroy_all();
    assert_eq!(ended.len(), 2);
    assert_eq!(ended[0].session_id, "a");
    assert!(mgr.is_empty());
}

#[test]
fn workers_are_started_with_their_arguments() {
    let mut mgr = WorkerManager::new(None);
    assert_eq!(
        mgr.check_mesh().unwrap_err().message(),
        "Failed to spawn worker process: mesh handle not set on WorkerManager; \
         cannot pass --mesh-peer to worker"
    );
    mgr.set_mesh(mesh());
    assert!(mgr.check_mesh().is_ok());
    assert!(mgr.mesh_handle().is_some());
    let args = |mgr: &WorkerManager| {
        mgr.worker_arguments("s", "/w", AgentMode::Plan, "/ip4/1", Some("/run/sup-s.sock"))
    };
    assert_eq!(
        args(&mgr),
        Err(WorkerError::SpawnFailed(
            "db_path not set on WorkerManager; cannot pass --db-path to worker".to_string()
        ))
    );
    mgr.set_db_path("/db".to_string());
    assert_eq!(
        args(&mgr).unwrap(),
        vec![
            "--cwd",
            "/w",
            "--mode",
            "plan",
            "--session-id",
            "s",
            "--db-path",
            "/db",
            "--mesh-peer",
            "/ip4/1",
            "--supervisor-socket",
            "/run/sup-s.sock",
        ]
    );
    assert_eq!(supervisor_socket_name("s"), "sup-s.sock");
    assert_eq!(worker_binary_path(None), "querymt-worker");
    assert_eq!(worker_binary_path(Some("/x/querymt-worker".to_string())), "/x/querymt-worker");
    mgr.set_worker_binary("/y".to_string());
    assert_eq!(mgr.worker_binary, "/y");
    let other = WorkerManager::with_mesh_and_db(mesh(), "/db".to_string(), None);
    assert_eq!(other.db_path.as_deref(), Some("/db"));
}

#[test]
fn addresses_are_polled_for_a_while() {
    assert_eq!(
        after_address_poll(1, Some("a".to_string())),
        AddressStep::Found("a".to_string())
    );
    assert_eq!(after_address_poll(19, None), AddressStep::Retry { delay_ms: 10 });
    assert_eq!(
        after_address_poll(20, None),
        AddressStep::Fail(WorkerError::SpawnFailed(
            "mesh listen address not available after 200ms; \
             is bootstrap_mesh() fully initialised?"
                .to_string()
        ))
    );
}

#[test]
fn sessions_of_workers_are_looked_up_with_growing_waits() {
    let mut waits = vec![];
    for attempt in 0..7 {
        match after_registration_lookup("s", attempt, None) {
            RegistrationStep::Retry { delay_ms } => waits.push(delay_ms),
            other => panic!("unexpected {other:?}"),
        }
    }
    assert_eq!(waits, vec![250, 500, 1000, 2000, 4000, 8000, 8000]);
    match after_registration_lookup("s", 7, None) {
        RegistrationStep::GiveUp { delay_ms, error } => {
            assert_eq!(delay_ms, 8000);
            assert_eq!(
                error,
                WorkerError::RegistrationTimeout(
                    "Worker registration timeout for session: session s not found in DHT after 30s"
                        .to_string()
                )
            );
        }
        other => panic!("unexpected {other:?}"),
    }
    match after_registration_lookup("s", 0, Some(5)) {
        RegistrationStep::Registered(SessionActorRef::Remote { actor_id, peer_label, .. }) => {
            assert_eq!(actor_id, 5);
            assert_eq!(peer_label, "worker");
        }
        other => panic!("unexpected {other:?}"),
    }
    assert_eq!(WorkerError::Io("x".to_string()).message(), "IO error: x");
    assert_eq!(
        WorkerError::NotFound("x".to_string()).message(),
        "Worker not found for session: x"
    );
    assert_eq!(WorkerError::ModeSwitchFailed("x".to_string()).message(), "Mode switch failed: x");
}

#[test]
fn remote_sessions_are_looked_up_four_times() {
    let handle = RemoteAgentHandle::new("peer".to_string());
    assert_eq!(
        handle.on_created("s", SessionHandoff::LookupOnly),
        CreateStep::LookUp { name: "session::s".to_string(), delay_ms: 0 }
    );
    let mut lookup = SessionLookup::new("s".to_string());
    for delay_ms in [120, 300, 700] {
        assert_eq!(
            lookup.on_result("peer", Ok(None)),
            CreateStep::LookUp { name: "session::s".to_string(), delay_ms }
        );
    }
    assert_eq!(
        lookup.on_result("peer", Ok(None)),
        CreateStep::Fail(RemoteAgentError::Agent(AgentError::RemoteSessionNotFound {
            details: "remote session s created but not yet discoverable via lookup".to_string(),
        }))
    );
    let mut lookup = SessionLookup::new("s".to_string());
    lookup.on_result("peer", Err("first".to_string()));
    lookup.on_result("peer", Err("second".to_string()));
    lookup.on_result("peer", Ok(None));
    assert_eq!(
        lookup.on_result("peer", Ok(None)),
        CreateStep::Fail(RemoteAgentError::Agent(AgentError::SwarmLookupFailed {
            key: "session::s".to_string(),
            reason: "second".to_string(),
        }))
    );
    let found = CreateStep::Created(SessionActorRef::Remote {
        actor_id: 3,
        peer_label: "peer".to_string(),
        remote_node_id: None,
    });
    assert_eq!(SessionLookup::new("s".to_string()).on_result("peer", Ok(Some(3))), found);
    assert_eq!(handle.on_created("s", SessionHandoff::DirectRemote { actor_id: 3 }), found);
    assert_eq!(
        handle.on_created("s", SessionHandoff::NoAttachPath),
        CreateStep::Fail(RemoteAgentError::Agent(AgentError::RemoteSessionNotFound {
            details: "remote session s was created but the remote node cannot provide a direct \
                      or lookup attach path"
                .to_string(),
        }))
    );
}

#[test]
fn remote_agents_keep_their_sessions() {
    let mut handle = RemoteAgentHandle::new("peer".to_string());
    assert!(handle.session_for("s").is_none());
    handle.store_session("s".to_string(), SessionActorRef::Local(2));
    assert_eq!(handle.session_for("s"), Some(SessionActorRef::Local(2)));
    assert!(handle.check_node(Ok(true)).is_ok());
    assert_eq!(
        handle.check_node(Ok(false)),
        Err(RemoteAgentError::Protocol {
            code: -32001,
            message: "Remote peer 'peer' not found in DHT (is the mesh running on that machine?)"
                .to_string(),
        })
    );
    assert_eq!(
        handle.check_node(Err("x".to_string())),
        Err(RemoteAgentError::Agent(AgentError::SwarmLookupFailed {
            key: "node_manager".to_string(),
            reason: "x".to_string(),
        }))
    );
}

#[test]
fn nodes_publish_three_names_in_each_scope() {
    let actors = LocalMeshActorRefs { node_manager: 1, provider_host: 2 };
    let published = register_local_mesh_actor_scope("me", &actors, &MeshScopeId::Lan);
    let names: Vec<(&str, u64)> = published.iter().map(|p| (p.name.as_str(), p.actor)).collect();
    assert_eq!(
        names,
        vec![
            ("node_manager", 1),
            ("node_manager::peer::me", 1),
            ("provider_host::peer::me", 2)
        ]
    );
    let all = local_mesh_publications(&mesh(), &actors);
    assert_eq!(all.len(), 6);
    assert_eq!(all[5].name, "scope::team::provider_host::peer::me");
}

#[test]
fn agents_of_unknown_peers_are_passed_over() {
    let remote = |id: &str, peer: &str| RemoteAgentConfig {
        id: id.to_string(),
        name: id.to_string(),
        description: "d".to_string(),
        peer: peer.to_string(),
        capabilities: vec!["x".to_string()],
    };
    let peers = vec![MeshPeerConfig { name: "gpu".to_string(), addr: "a".to_string() }];
    let remotes = vec![remote("1", "gpu"), remote("2", "nobody"), remote("3", "gpu")];
    assert_eq!(remote_agents_to_register(&remotes, &peers), vec![0, 2]);
    let info = register_remote_agent(&remotes[0], Some("by-name".to_string()), None);
    assert_eq!(info.node_id.as_deref(), Some("by-name"));
    assert_eq!(info.capabilities, vec!["x".to_string()]);
    let info = register_remote_agent(
        &remotes[0],
        Some("by-name".to_string()),
        Some("answered".to_string()),
    );
    assert_eq!(info.node_id.as_deref(), Some("answered"));
    assert_eq!(register_remote_agent(&remotes[0], None, None).node_id, None);
}

#[test]
fn modules_are_shown_two_by_two() {
    let code = QrModules {
        width: 2,
        dark: vec![true, false, true, true, false, true],
    };
    assert_eq!(render_modules(&code), " \u{2588}\u{2584}\n  \u{2580}\n");
}

#[test]
fn codes_are_shown_as_squares() {
    let shown = render_to_terminal("hello").expect("short texts have a code");
    let lines: Vec<&str> = shown.lines().collect();
    assert_eq!(lines.len(), 11);
    for line in &lines {
        assert_eq!(line.chars().count(), 22);
        assert!(line.starts_with(' '));
    }
    // The pattern in the corner: a dark row above a row with one dark module.
    assert!(lines[0].starts_with(" \u{2588}\u{2580}\u{2580}\u{2580}\u{2580}\u{2580}\u{2588}"));
    assert_ne!(Some(shown), render_to_terminal("world"));
    assert!(render_to_terminal(&"x".repeat(5000)).is_none());
}

#[test]
fn texts_are_compared_and_cut() {
    assert!(str_eq("é", "é"));
    assert!(!str_eq("a", "b"));
    assert!(contains("abc", "bc"));
    assert!(!contains("abc", "cb"));
    assert_eq!(trim_start("  a "), "a ");
    assert_eq!(trim("  a\n"), "a");
    assert_eq!(decimal_string(0), "0");
    assert_eq!(decimal_string(u64::MAX), "18446744073709551615");
    assert_eq!(parse_usize("+17"), Some(17));
    assert_eq!(parse_usize("17x"), None);
    assert_eq!(parse_usize("99999999999999999999999"), None);
    assert_eq!(parse_usize(""), None);
}

fn remote_config() -> RemoteAgentConfig {
    RemoteAgentConfig {
        id: "coder".to_string(),
        name: "Coder".to_string(),
        description: "writes".to_string(),
        peer: "gpu".to_string(),
        capabilities: vec![],
    }
}

#[test]
fn peers_are_looked_up_scope_by_scope() {
    let begin = || RegisterRun::start(remote_config(), mesh().active_scopes());
    let (mut run, action) = begin();
    assert!(matches!(action, RegisterAction::Resolve { peer } if peer == "gpu"));
    let name = |action| match action {
        RegisterAction::LookUp { name, timeout_secs } => {
            assert_eq!(timeout_secs, 5);
            name
        }
        other => panic!("unexpected {other:?}"),
    };
    let info = |action| match action {
        RegisterAction::Register(info) => info,
        other => panic!("unexpected {other:?}"),
    };
    let action = run.on_event(RegisterEvent::Resolved(Some("n".to_string())));
    assert_eq!(name(action), "node_manager::peer::n");
    let action = run.on_event(RegisterEvent::LookedUp { found: false });
    assert_eq!(name(action), "scope::team::node_manager::peer::n");
    assert!(matches!(
        run.on_event(RegisterEvent::LookedUp { found: true }),
        RegisterAction::AskNode
    ));
    let found = info(run.on_event(RegisterEvent::Answered(Some("m".to_string()))));
    assert_eq!(found.node_id.as_deref(), Some("m"));
    assert!(matches!(run.on_event(RegisterEvent::Answered(None)), RegisterAction::Ignore));

    // A peer that cannot be found is registered all the same.
    let (mut run, _) = begin();
    assert_eq!(info(run.on_event(RegisterEvent::Resolved(None))).node_id, None);
    let (mut run, _) = begin();
    run.on_event(RegisterEvent::Resolved(Some("n".to_string())));
    run.on_event(RegisterEvent::LookedUp { found: false });
    let silent = info(run.on_event(RegisterEvent::LookedUp { found: false }));
    assert_eq!(silent.node_id.as_deref(), Some("n"));
    assert_eq!(silent.id, "coder");
}

#[test]
fn remote_sessions_are_created_and_kept() {
    let mut handle = RemoteAgentHandle::new("peer".to_string());
    let (mut run, action) = handle.create_remote_session(Some("/w".to_string()));
    assert!(matches!(action, CreateAction::FindNode));
    assert!(matches!(
        run.on_event(&mut handle, CreateEvent::NodeFound(Ok(true))),
        CreateAction::CreateSession { cwd: Some(cwd) } if cwd == "/w"
    ));
    let created = CreateEvent::SessionCreated(Ok(("s".to_string(), SessionHandoff::LookupOnly)));
    assert!(matches!(
        run.on_event(&mut handle, created),
        CreateAction::LookUp { name, delay_ms: 0 } if name == "session::s"
    ));
    assert!(matches!(
        run.on_event(&mut handle, CreateEvent::LookedUp(Ok(None))),
        CreateAction::LookUp { delay_ms: 120, .. }
    ));
    match run.on_event(&mut handle, CreateEvent::LookedUp(Ok(Some(7)))) {
        CreateAction::Respond(Ok((id, session))) => {
            assert_eq!(id, "s");
            assert_eq!(handle.session_for("s"), Some(session));
        }
        other => panic!("unexpected {other:?}"),
    }

    let (mut run, _) = handle.create_remote_session(None);
    run.on_event(&mut handle, CreateEvent::NodeFound(Ok(true)));
    match run.on_event(&mut handle, CreateEvent::SessionCreated(Err("down".to_string()))) {
        CreateAction::Respond(Err(error)) => assert_eq!(
            error,
            RemoteAgentError::Agent(AgentError::RemoteActor("down".to_string()))
        ),
        other => panic!("unexpected {other:?}"),
    }
}

fn attaching() -> AttachRun {
    let session = SessionActorRef::Remote {
        actor_id: 3,
        peer_label: "peer".to_string(),
        remote_node_id: None,
    };
    let (run, action) = AttachRun::prepare_remote_attachment(
        "s".to_string(),
        session,
        42,
        Some(&mesh()),
        None,
    );
    match action {
        AttachAction::Publish { names } => assert_eq!(
            names,
            vec!["event_relay::s::me::42", "scope::team::event_relay::s::me::42"]
        ),
        other => panic!("unexpected {other:?}"),
    }
    run
}

#[test]
fn attachments_are_linked_before_they_are_ready() {
    let mut run = attaching();
    assert!(matches!(run.on_event(AttachEvent::Published), AttachAction::Link));
    assert!(matches!(
        run.on_event(AttachEvent::Linked(Ok(()))),
        AttachAction::Subscribe { relay_actor_id: 42, relay_dht_name }
            if relay_dht_name == "event_relay::s::me::42"
    ));
    match run.on_event(AttachEvent::Subscribed(Ok(()))) {
        AttachAction::Ready(prepared) => {
            assert!(prepared.relay.linked);
            assert_eq!(prepared.relay.matched_scope, Some(MeshScopeId::Lan));
        }
        other => panic!("unexpected {other:?}"),
    }
}

#[test]
fn failed_attachings_are_taken_back() {
    let mut run = attaching();
    run.on_event(AttachEvent::Published);
    match run.on_event(AttachEvent::Linked(Err("gone".to_string()))) {
        AttachAction::Abort { steps, error } => {
            assert_eq!(
                error,
                AgentError::RemoteActor(
                    "failed to link event relay to remote session: gone".to_string()
                )
            );
            assert_eq!(steps.len(), 4);
            assert!(matches!(steps[0], CleanupStep::Unsubscribe { attachment_id: 42, .. }));
            assert_eq!(steps[3], CleanupStep::KillRelay);
        }
        other => panic!("unexpected {other:?}"),
    }
    let mut run = attaching();
    run.on_event(AttachEvent::Published);
    run.on_event(AttachEvent::Linked(Ok(())));
    match run.on_event(AttachEvent::Subscribed(Err("gone".to_string()))) {
        AttachAction::Abort { steps, error } => {
            assert_eq!(
                error,
                AgentError::RemoteActor(
                    "failed to subscribe remote session events: gone".to_string()
                )
            );
            assert_eq!(steps[1], CleanupStep::Unlink);
        }
        other => panic!("unexpected {other:?}"),
    }
    assert!(matches!(run.on_event(AttachEvent::Published), AttachAction::Ignore));
}

fn spawning(mgr: &WorkerManager) -> SpawnRun {
    let (run, action) = mgr.spawn_worker("s", "/w".to_string(), AgentMode::Plan);
    assert_eq!(action, SpawnAction::BindSocket { name: "sup-s.sock".to_string() });
    run
}

fn reason(action: SpawnAction) -> String {
    match action {
        SpawnAction::Respond { result: Err(error), .. } => error.message(),
        other => panic!("unexpected {other:?}"),
    }
}

fn bound() -> SpawnEvent {
    SpawnEvent::SocketBound(Ok("/run/sup-s.sock".to_string()))
}

#[test]
fn workers_are_supervised_before_they_are_looked_up() {
    let mut mgr = WorkerManager::with_mesh_and_db(mesh(), "/db".to_string(), None);
    let mut run = spawning(&mgr);
    assert_eq!(run.on_event(&mut mgr, bound()), SpawnAction::PollAddress { after_ms: 0 });
    assert_eq!(
        run.on_event(&mut mgr, SpawnEvent::AddressPolled(None)),
        SpawnAction::PollAddress { after_ms: 10 }
    );
    match run.on_event(&mut mgr, SpawnEvent::AddressPolled(Some("/ip4/1".to_string()))) {
        SpawnAction::Spawn { program, args } => {
            assert_eq!(program, "querymt-worker");
            assert_eq!(args[11], "/run/sup-s.sock");
        }
        other => panic!("unexpected {other:?}"),
    }
    assert_eq!(
        run.on_event(&mut mgr, SpawnEvent::Spawned(Ok(17))),
        SpawnAction::Supervise { cwd: "/w".to_string(), allow_write: false }
    );
    assert_eq!(
        run.on_event(&mut mgr, SpawnEvent::Accepted { supervised: true }),
        SpawnAction::LookUp { name: "session::s".to_string(), after_ms: 0 }
    );
    assert_eq!(
        run.on_event(&mut mgr, SpawnEvent::LookedUp(None)),
        SpawnAction::LookUp { name: "session::s".to_string(), after_ms: 250 }
    );
    assert!(!mgr.has_worker("s"));
    assert!(matches!(
        run.on_event(&mut mgr, SpawnEvent::LookedUp(Some(5))),
        SpawnAction::Respond { result: Ok(_), after_ms: 0 }
    ));
    assert!(mgr.has_worker("s"));
    assert_eq!(mgr.workers.get("s").unwrap().process, 17);
    assert_eq!(mgr.workers.get("s").unwrap().allow_write, Some(false));
}

#[test]
fn workers_that_cannot_be_started_say_why() {
    let mut mgr = WorkerManager::new(None);
    let refused = BindFailure::Refused { path: "/p".to_string(), reason: "busy".to_string() };
    let mut run = spawning(&mgr);
    assert_eq!(
        reason(run.on_event(&mut mgr, SpawnEvent::SocketBound(Err(refused)))),
        "Failed to spawn worker process: Failed to bind supervisor socket at /p: busy"
    );
    let mut run = spawning(&mgr);
    assert!(reason(run.on_event(&mut mgr, bound())).contains("mesh handle not set"));
    mgr.set_mesh(mesh());
    let mut run = spawning(&mgr);
    run.on_event(&mut mgr, bound());
    for _ in 0..19 {
        run.on_event(&mut mgr, SpawnEvent::AddressPolled(None));
    }
    assert!(reason(run.on_event(&mut mgr, SpawnEvent::AddressPolled(None)))
        .contains("not available after 200ms"));
    let mut run = spawning(&mgr);
    run.on_event(&mut mgr, bound());
    let address = || SpawnEvent::AddressPolled(Some("/ip4/1".to_string()));
    assert!(reason(run.on_event(&mut mgr, address())).contains("db_path not set"));
    mgr.set_db_path("/db".to_string());
    let mut run = spawning(&mgr);
    run.on_event(&mut mgr, bound());
    run.on_event(&mut mgr, address());
    assert_eq!(
        reason(run.on_event(&mut mgr, SpawnEvent::Spawned(Err("no program".to_string())))),
        "Failed to spawn worker process: no program"
    );
    let mut run = spawning(&mgr);
    run.on_event(&mut mgr, bound());
    run.on_event(&mut mgr, address());
    run.on_event(&mut mgr, SpawnEvent::Spawned(Ok(1)));
    run.on_event(&mut mgr, SpawnEvent::Accepted { supervised: false });
    for _ in 0..7 {
        run.on_event(&mut mgr, SpawnEvent::LookedUp(None));
    }
    match run.on_event(&mut mgr, SpawnEvent::LookedUp(None)) {
        SpawnAction::Respond { result: Err(error), after_ms } => {
            assert_eq!(after_ms, 8000);
            assert!(matches!(error, WorkerError::RegistrationTimeout(_)));
        }
        other => panic!("unexpected {other:?}"),
    }
    assert!(mgr.is_empty());
}

#[test]
fn worker_manager_destroy_nonexistent_is_ok() {
    let mut mgr = WorkerManager::new(None);
    assert!(mgr.destroy_worker("nonexistent").is_none());
    assert!(mgr.is_empty());
}

fn remote_session(actor_id: u64) -> SessionActorRef {
    SessionActorRef::Remote { actor_id, peer_label: "peer".to_string(), remote_node_id: None }
}

#[test]
fn prompts_create_a_session_where_there_is_none() {
    let mut handle = RemoteAgentHandle::new("peer".to_string());
    let (mut run, action) = handle.prompt("mine".to_string());
    assert!(matches!(action, RemotePromptAction::Create(CreateAction::FindNode)));
    let found = RemotePromptEvent::Create(CreateEvent::NodeFound(Ok(true)));
    let action = run.on_event(&mut handle, found);
    assert!(matches!(
        action,
        RemotePromptAction::Create(CreateAction::CreateSession { cwd: None })
    ));
    let created = CreateEvent::SessionCreated(Ok((
        "s".to_string(),
        SessionHandoff::DirectRemote { actor_id: 7 },
    )));
    match run.on_event(&mut handle, RemotePromptEvent::Create(created)) {
        RemotePromptAction::Prompt { session } => assert_eq!(session, remote_session(7)),
        other => panic!("unexpected {other:?}"),
    }
    assert_eq!(handle.session_for("s"), Some(remote_session(7)));
    match run.on_event(&mut handle, RemotePromptEvent::Prompted(Ok(StopReason::EndTurn))) {
        RemotePromptAction::Respond(response) => assert_eq!(response, Ok(StopReason::EndTurn)),
        other => panic!("unexpected {other:?}"),
    }
    let (run, action) = handle.prompt("s".to_string());
    assert_eq!(run.stage, RemotePromptStage::Prompting);
    assert!(matches!(action, RemotePromptAction::Prompt { .. }));
}

#[test]
fn prompts_are_refused_where_no_session_can_be_created() {
    let mut handle = RemoteAgentHandle::new("peer".to_string());
    let (mut run, _) = handle.prompt("mine".to_string());
    let ignored = run.on_event(&mut handle, RemotePromptEvent::Cancelled);
    assert!(matches!(ignored, RemotePromptAction::Ignore));
    let gone = RemotePromptEvent::Create(CreateEvent::NodeFound(Ok(false)));
    match run.on_event(&mut handle, gone) {
        RemotePromptAction::Respond(Err(RemoteAgentError::Protocol { code, .. })) => {
            assert_eq!(code, -32001)
        }
        other => panic!("unexpected {other:?}"),
    }
}

#[test]
fn failed_prompts_are_cancelled_on_the_other_node() {
    let mut handle = RemoteAgentHandle::new("peer".to_string());
    handle.store_session("s".to_string(), remote_session(7));
    let failure = || RemoteAgentError::Agent(AgentError::RemoteActor("gone".to_string()));
    let (mut run, _) = handle.prompt("s".to_string());
    let action = run.on_event(&mut handle, RemotePromptEvent::Prompted(Err(failure())));
    assert!(matches!(action, RemotePromptAction::ResolvePeer));
    let resolved = RemotePromptEvent::PeerResolved(Some("node-1".to_string()));
    match run.on_event(&mut handle, resolved) {
        RemotePromptAction::FindHost { name } => assert_eq!(name, "provider_host::peer::node-1"),
        other => panic!("unexpected {other:?}"),
    }
    let action = run.on_event(&mut handle, RemotePromptEvent::HostFound(Some(9)));
    assert!(matches!(action, RemotePromptAction::ReadStatus { host: 9 }));
    let status = RemotePromptEvent::StatusRead(Some("r-1".to_string()));
    match run.on_event(&mut handle, status) {
        RemotePromptAction::Cancel { host, request } => {
            assert_eq!(host, 9);
            assert_eq!(
                request,
                CancelProviderStream {
                    session_id: "s".to_string(),
                    request_id: Some("r-1".to_string()),
                    reason: "remote prompt request failed".to_string(),
                }
            );
        }
        other => panic!("unexpected {other:?}"),
    }
    match run.on_event(&mut handle, RemotePromptEvent::Cancelled) {
        RemotePromptAction::Respond(response) => assert_eq!(response, Err(failure())),
        other => panic!("unexpected {other:?}"),
    }

    let (mut run, _) = handle.prompt("s".to_string());
    run.on_event(&mut handle, RemotePromptEvent::Prompted(Err(failure())));
    match run.on_event(&mut handle, RemotePromptEvent::PeerResolved(None)) {
        RemotePromptAction::Respond(response) => assert_eq!(response, Err(failure())),
        other => panic!("unexpected {other:?}"),
    }
}

#[test]
fn test_handle_prompt_returns_error_without_live_peer() {
    let mut handle = RemoteAgentHandle::new("dead-peer".to_string());
    let (mut run, _) = handle.prompt("s-c2".to_string());
    let gone = RemotePromptEvent::Create(CreateEvent::NodeFound(Ok(false)));
    let action = run.on_event(&mut handle, gone);
    assert!(
        matches!(action, RemotePromptAction::Respond(Err(_))),
        "prompt to a non-existent peer should return Err"
    );
}

#[test]
fn test_handle_cancel_on_idle_session_is_noop() {
    let handle = RemoteAgentHandle::new("peer-c3".to_string());
    assert!(handle.session_for("idle-c3").is_none());
}

#[test]
fn workers_are_started_by_the_program_beside_this_one() {
    let beside = || Some("/opt/bin/querymt-worker".to_string());
    assert_eq!(WorkerManager::new(beside()).worker_binary, "/opt/bin/querymt-worker");
    assert_eq!(WorkerManager::new(None).worker_binary, "querymt-worker");
    let manager = WorkerManager::with_mesh_and_db(mesh(), "/db".to_string(), beside());
    assert_eq!(manager.worker_binary, "/opt/bin/querymt-worker");
    assert!(manager.is_empty());
}
