use querymt_agent::events::AgentEventKind;
use querymt_agent::json::{JsonMember, JsonValue};
use querymt_agent::mesh::{MeshHandle, MeshTransportMode};
use querymt_agent::model::{AgentMessage, AgentMode, ChatRole};
use querymt_agent::runtime_handle::MeshRuntimeHandle;
use querymt_agent::scope::MeshScopeId;
use querymt_agent::session_materializer::{
    fork_message_id_from_meta, parent_session_id_from_meta, resolve_mcp_inputs,
    BackgroundTask, FinalizeAction, FinalizeEvent, FinalizeRun, FinalizeStage, HookNotice,
    InflightSessions, LlmConfig, PrepareAction, PrepareEvent, PrepareRun, PrepareStage,
    PreparedSession, SessionMaterializer, SessionStartRequest,
};
use querymt_agent::session_mcp::{
    ConnectedMcpPeer, McpServer, McpServerStdio, SessionMaterializationKind, SessionMcpAttachment,
};
use querymt_agent::session_registry::{SessionActorRef, SessionRequestError};
use querymt_agent::session_requests::{ForkAction, ForkEvent, ForkOrigin, ForkRun};

fn text(value: &str) -> JsonValue {
    JsonValue::Str(value.to_string())
}

fn object(members: Vec<(&str, JsonValue)>) -> JsonValue {
    JsonValue::Object(
        members
            .into_iter()
            .map(|(name, value)| JsonMember { name: name.to_string(), value })
            .collect(),
    )
}

fn message(id: &str) -> AgentMessage {
    AgentMessage {
        id: id.to_string(),
        session_id: "source-session".to_string(),
        role: ChatRole::User,
        parts: vec![],
        created_at: 0,
        parent_message_id: None,
    }
}

fn stdio(name: &str, command: &str) -> McpServer {
    McpServer::Stdio(McpServerStdio {
        name: name.to_string(),
        command: command.to_string(),
        args: vec![],
        env: vec![],
    })
}

#[test]
fn fork_message_id_from_meta_accepts_snake_and_camel_case() {
    let snake = object(vec![("querymt", object(vec![("message_id", text("msg-1"))]))]);
    assert_eq!(fork_message_id_from_meta(Some(&snake)).as_deref(), Some("msg-1"));

    let camel = object(vec![("querymt", object(vec![("messageId", text("msg-2"))]))]);
    assert_eq!(fork_message_id_from_meta(Some(&camel)).as_deref(), Some("msg-2"));
}

#[test]
fn metadata_without_a_message_names_none() {
    assert!(fork_message_id_from_meta(None).is_none());
    assert!(fork_message_id_from_meta(Some(&object(vec![]))).is_none());
    let blank = object(vec![("querymt", object(vec![("message_id", text(""))]))]);
    assert!(fork_message_id_from_meta(Some(&blank)).is_none());
    let shadowed = object(vec![(
        "querymt",
        object(vec![("message_id", JsonValue::Other), ("messageId", text("msg-2"))]),
    )]);
    assert!(fork_message_id_from_meta(Some(&shadowed)).is_none());
    let parent = object(vec![("parent_session_id", text("p"))]);
    assert_eq!(parent_session_id_from_meta(Some(&parent)).as_deref(), Some("p"));
    assert!(parent_session_id_from_meta(None).is_none());
}

/// Forks `source-session`, and gives the message at which it is forked and the answer.
fn fork(meta: Option<&JsonValue>, history: Vec<AgentMessage>) -> (String, String) {
    let (mut run, action) = ForkRun::prepare_fork_session("source-session".to_string(), meta);
    assert!(matches!(action, ForkAction::FindSession));
    let action = run.on_event(ForkEvent::SessionFound(Ok(true)));
    assert!(matches!(action, ForkAction::LoadHistory));
    let target = match run.on_event(ForkEvent::HistoryLoaded(Ok(history))) {
        ForkAction::Fork { session_id, message_id, origin: ForkOrigin::User } => {
            assert_eq!(session_id, "source-session");
            message_id
        }
        other => panic!("unexpected {other:?}"),
    };
    match run.on_event(ForkEvent::Forked(Ok("forked-session".to_string()))) {
        ForkAction::Respond(Ok(session_id)) => (target, session_id),
        other => panic!("unexpected {other:?}"),
    }
}

#[test]
fn prepare_fork_session_uses_querymt_message_id_meta() {
    let meta = object(vec![("querymt", object(vec![("message_id", text("msg-1"))]))]);
    let (target, session_id) = fork(Some(&meta), vec![message("msg-1"), message("msg-2")]);
    assert_eq!(target, "msg-1");
    assert_eq!(session_id, "forked-session");
}

#[test]
fn prepare_fork_session_without_meta_uses_latest_message() {
    let (target, session_id) = fork(None, vec![message("msg-1"), message("msg-2")]);
    assert_eq!(target, "msg-2");
    assert_eq!(session_id, "forked-session");
}

#[test]
fn forks_of_missing_sessions_are_refused() {
    let (mut run, _) = ForkRun::prepare_fork_session("gone".to_string(), None);
    match run.on_event(ForkEvent::SessionFound(Ok(false))) {
        ForkAction::Respond(response) => assert_eq!(
            response,
            Err(SessionRequestError::InvalidParams {
                message: "source session not found".to_string(),
                value: "gone".to_string(),
            })
        ),
        other => panic!("unexpected {other:?}"),
    }
    let ignored = run.on_event(ForkEvent::SessionFound(Ok(true)));
    assert!(matches!(ignored, ForkAction::Ignore));

    let (mut run, _) = ForkRun::prepare_fork_session("s".to_string(), None);
    run.on_event(ForkEvent::SessionFound(Ok(true)));
    match run.on_event(ForkEvent::HistoryLoaded(Err("disk".to_string()))) {
        ForkAction::Respond(response) => {
            assert_eq!(response, Err(SessionRequestError::Internal("disk".to_string())))
        }
        other => panic!("unexpected {other:?}"),
    }
}

#[test]
fn attached_servers_come_last_and_override_nothing() {
    let peer = ConnectedMcpPeer { server_name: "pipe".to_string(), peer: 1 };
    let resolved = resolve_mcp_inputs(
        vec![stdio("a", "config"), stdio("b", "config")],
        vec![stdio("b", "request"), stdio("c", "request")],
        vec![
            SessionMcpAttachment::ServerConfig(stdio("a", "attached")),
            SessionMcpAttachment::ConnectedPeer(ConnectedMcpPeer {
                server_name: "pipe".to_string(),
                peer: 1,
            }),
            SessionMcpAttachment::ServerConfig(stdio("d", "attached")),
            SessionMcpAttachment::ServerConfig(McpServer::Unsupported),
        ],
    );
    assert_eq!(
        resolved.server_configs,
        vec![
            stdio("a", "config"),
            stdio("b", "request"),
            stdio("c", "request"),
            stdio("d", "attached"),
        ]
    );
    assert_eq!(resolved.connected_peers, vec![peer]);
}

#[test]
fn callers_of_a_session_wait_for_each_other() {
    let mut inflight = InflightSessions::new();
    assert!(!inflight.enter("s"));
    assert!(inflight.enter("s"));
    assert!(!inflight.enter("t"));
    inflight.leave("s");
    assert!(inflight.enter("s"));
    inflight.leave("s");
    inflight.leave("s");
    assert!(!inflight.enter("s"));
}

#[test]
fn sessions_are_published_under_a_name_in_each_scope() {
    let mut materializer = SessionMaterializer::new();
    assert!(materializer.publication_names("s").is_empty());
    materializer.set_mesh(MeshRuntimeHandle::new(MeshHandle {
        peer_id: "me".to_string(),
        hostname: "box".to_string(),
        mode: MeshTransportMode::Lan,
        stream_reconnect_grace_ms: 0,
        alive_peers: vec![],
        active_scopes: vec![MeshScopeId::Lan, MeshScopeId::Iroh { mesh_id: "m".to_string() }],
        joined_iroh_scopes: vec![],
    }));
    assert!(materializer.mesh().is_some());
    assert_eq!(materializer.publication_names("s"), vec!["session::s", "scope::m::session::s"]);
    materializer.clear_mesh();
    assert!(materializer.mesh().is_none());
}

#[test]
fn new_sessions_with_a_parent_are_forks() {
    let (mut run, action) = PrepareRun::prepare_new_session(
        "/w".to_string(),
        true,
        Some("p".to_string()),
        vec![stdio("a", "config")],
        vec![],
    );
    match action {
        PrepareAction::CreateSession { cwd, parent_session_id } => {
            assert_eq!(cwd.as_deref(), Some("/w"));
            assert_eq!(parent_session_id.as_deref(), Some("p"));
        }
        other => panic!("unexpected {other:?}"),
    }
    match run.on_event(PrepareEvent::Created(Ok("s".to_string()))) {
        PrepareAction::RequestAttachments(context) => {
            assert_eq!(context.session_id, "s");
            assert_eq!(context.kind, SessionMaterializationKind::New);
            assert_eq!(context.cwd.as_deref(), Some("/w"));
        }
        other => panic!("unexpected {other:?}"),
    }
    assert!(matches!(run.on_event(PrepareEvent::Attached(Ok(vec![]))), PrepareAction::BuildMcp));
    assert!(matches!(
        run.on_event(PrepareEvent::McpBuilt(Ok(()))),
        PrepareAction::InitializeFork { .. }
    ));
    // An event that is not waited for changes nothing.
    assert!(matches!(run.on_event(PrepareEvent::Locked), PrepareAction::Ignore));
    assert_eq!(run.stage, PrepareStage::InitializingFork);
    assert!(matches!(
        run.on_event(PrepareEvent::ForkInitialized(Ok(()))),
        PrepareAction::SpawnActor { attach_mesh_handle: true }
    ));
    assert!(matches!(
        run.on_event(PrepareEvent::Spawned { actor: 5 }),
        PrepareAction::MergePeers
    ));
    match run.on_event(PrepareEvent::PeersMerged(Ok(()))) {
        PrepareAction::Prepared(prepared) => assert_eq!(
            prepared,
            PreparedSession {
                session_id: "s".to_string(),
                actor: 5,
                mcp_servers: vec![stdio("a", "config")],
                cwd: Some("/w".to_string()),
                register_in_dht: true,
                holds_lock: false,
            }
        ),
        other => panic!("unexpected {other:?}"),
    }
    assert_eq!(run.stage, PrepareStage::Finished);
}

#[test]
fn new_sessions_need_an_absolute_directory() {
    let (run, action) =
        PrepareRun::prepare_new_session("w".to_string(), false, None, vec![], vec![]);
    assert_eq!(run.stage, PrepareStage::Finished);
    assert!(matches!(
        action,
        PrepareAction::Fail(SessionRequestError::InvalidParams { message, .. })
            if message == "cwd must be an absolute path"
    ));
}

fn load(has_registry: bool, cwd: &str, absolute: bool) -> PrepareRun {
    PrepareRun::prepare_load_session(
        "s".to_string(),
        cwd.to_string(),
        absolute,
        has_registry,
        vec![],
        vec![],
    )
    .0
}

#[test]
fn loading_prefers_the_stored_directory() {
    let mut run = load(true, "/asked", true);
    assert!(matches!(run.on_event(PrepareEvent::Locked), PrepareAction::LookUp { .. }));
    assert!(matches!(
        run.on_event(PrepareEvent::LookedUp(None)),
        PrepareAction::LoadSession { .. }
    ));
    match run.on_event(PrepareEvent::Loaded(Ok(Some(Some("/stored".to_string()))))) {
        PrepareAction::RequestAttachments(context) => {
            assert_eq!(context.cwd.as_deref(), Some("/stored"));
            assert_eq!(context.kind, SessionMaterializationKind::Load);
        }
        other => panic!("unexpected {other:?}"),
    }

    let mut run = load(false, "/asked", true);
    assert!(matches!(run.on_event(PrepareEvent::Locked), PrepareAction::LoadSession { .. }));
    run.on_event(PrepareEvent::Loaded(Ok(Some(None))));
    assert_eq!(run.cwd.as_deref(), Some("/asked"));
}

#[test]
fn resuming_uses_the_requested_directory() {
    let (mut run, _) = PrepareRun::prepare_resume_session(
        "s".to_string(),
        "/asked".to_string(),
        true,
        false,
        vec![],
        vec![],
    );
    run.on_event(PrepareEvent::Locked);
    run.on_event(PrepareEvent::Loaded(Ok(Some(Some("/stored".to_string())))));
    assert_eq!(run.cwd.as_deref(), Some("/asked"));
}

#[test]
fn registered_sessions_are_not_set_up_again() {
    let mut run = load(true, "", false);
    run.on_event(PrepareEvent::Locked);
    match run.on_event(PrepareEvent::LookedUp(Some(SessionActorRef::Local(9)))) {
        PrepareAction::AlreadyRegistered(found) => assert_eq!(found, SessionActorRef::Local(9)),
        other => panic!("unexpected {other:?}"),
    }
    assert_eq!(run.stage, PrepareStage::Finished);
}

#[test]
fn sessions_that_cannot_be_loaded_are_refused() {
    let mut run = load(false, "", false);
    run.on_event(PrepareEvent::Locked);
    assert!(matches!(
        run.on_event(PrepareEvent::Loaded(Ok(None))),
        PrepareAction::Fail(SessionRequestError::InvalidParams { message, value })
            if message == "session not found" && value == "s"
    ));
    let mut run = load(false, "w", false);
    run.on_event(PrepareEvent::Locked);
    assert!(matches!(
        run.on_event(PrepareEvent::Loaded(Ok(Some(Some("/stored".to_string()))))),
        PrepareAction::Fail(SessionRequestError::InvalidParams { .. })
    ));
    let mut run = load(false, "", false);
    run.on_event(PrepareEvent::Locked);
    assert!(matches!(
        run.on_event(PrepareEvent::Loaded(Err("disk".to_string()))),
        PrepareAction::Fail(SessionRequestError::Internal(reason)) if reason == "disk"
    ));
}

fn prepared_session() -> PreparedSession {
    PreparedSession {
        session_id: "s".to_string(),
        actor: 5,
        mcp_servers: vec![stdio("a", "config")],
        cwd: Some("/w".to_string()),
        register_in_dht: true,
        holds_lock: false,
    }
}

fn config() -> LlmConfig {
    LlmConfig { id: 3, provider: "p".to_string(), model: "m".to_string() }
}

fn loaded(config: Option<LlmConfig>) -> FinalizeEvent {
    FinalizeEvent::ConfigLoaded { config, mode: AgentMode::Plan }
}

#[test]
fn finalizing_goes_through_every_stage() {
    let names = vec!["session::s".to_string()];
    let (mut run, step) = FinalizeRun::start(prepared_session(), names, true, true);
    assert_eq!(run.session_id, "s");
    assert_eq!(step.action, FinalizeAction::SetBridge);
    let step = run.on_event(FinalizeEvent::BridgeSet);
    assert_eq!(step.action, FinalizeAction::EmitCreated);
    assert_eq!(
        step.background,
        vec![BackgroundTask::Publish { names: vec!["session::s".to_string()] }]
    );
    let step = run.on_event(FinalizeEvent::CreatedEmitted(Ok(())));
    assert_eq!(step.action, FinalizeAction::LoadConfig);
    let step = run.on_event(loaded(Some(config())));
    assert_eq!(
        step.action,
        FinalizeAction::RunStartHooks(SessionStartRequest {
            session_id: "s".to_string(),
            cwd: Some("/w".to_string()),
            model: "m".to_string(),
            mode: AgentMode::Plan,
            source: "new_session".to_string(),
        })
    );
    let notice = HookNotice {
        event_name: "start".to_string(),
        message: "hello".to_string(),
        is_error: false,
    };
    let step = run.on_event(FinalizeEvent::HooksRun(Ok(vec![notice])));
    assert_eq!(
        step.emit,
        vec![AgentEventKind::HookNotice {
            event_name: "start".to_string(),
            message: "hello".to_string(),
            is_error: false,
        }]
    );
    let step = run.on_event(FinalizeEvent::ConfigReloaded {
        config: Some(config()),
        context_limit: Some(1000),
        cwd_exists: true,
        limits: Some("{}".to_string()),
    });
    assert_eq!(step.action, FinalizeAction::Done);
    assert_eq!(step.emit.len(), 2);
    assert_eq!(
        step.emit[0],
        AgentEventKind::ProviderChanged {
            provider: "p".to_string(),
            model: "m".to_string(),
            config_id: 3,
            context_limit: Some(1000),
            provider_node_id: None,
        }
    );
    assert_eq!(
        step.emit[1],
        AgentEventKind::SessionConfigured {
            cwd: Some("/w".to_string()),
            mcp_servers: vec![stdio("a", "config")],
            limits: Some("{}".to_string()),
        }
    );
    assert_eq!(
        step.background,
        vec![
            BackgroundTask::IndexWorkspace { cwd: "/w".to_string() },
            BackgroundTask::PublishCommands
        ]
    );
    assert_eq!(run.stage, FinalizeStage::Finished);
}

#[test]
fn finalizing_without_bridge_or_config_is_short() {
    let (mut run, step) = FinalizeRun::start(prepared_session(), vec![], false, true);
    assert_eq!(step.action, FinalizeAction::EmitCreated);
    assert!(step.background.is_empty());
    run.on_event(FinalizeEvent::CreatedEmitted(Ok(())));
    let step = run.on_event(loaded(None));
    assert_eq!(step.action, FinalizeAction::ReloadConfig);
    let step = run.on_event(FinalizeEvent::ConfigReloaded {
        config: None,
        context_limit: None,
        cwd_exists: false,
        limits: None,
    });
    assert_eq!(step.emit.len(), 1);
    assert!(step.background.is_empty());
}

#[test]
fn finalizing_stops_where_it_cannot_go_on() {
    let (mut run, _) = FinalizeRun::start(prepared_session(), vec![], false, false);
    let step = run.on_event(FinalizeEvent::CreatedEmitted(Err("disk".to_string())));
    assert_eq!(step.action, FinalizeAction::Fail("disk".to_string()));
    let (mut run, _) = FinalizeRun::start(prepared_session(), vec![], false, false);
    run.on_event(FinalizeEvent::CreatedEmitted(Ok(())));
    run.on_event(loaded(Some(config())));
    let step = run.on_event(FinalizeEvent::HooksRun(Err("hook".to_string())));
    assert_eq!(step.action, FinalizeAction::Fail("hook".to_string()));
    assert_eq!(run.on_event(FinalizeEvent::BridgeSet).action, FinalizeAction::Ignore);
}
