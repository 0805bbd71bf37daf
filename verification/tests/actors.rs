use querymt_agent::error::AgentError;
use querymt_agent::events::AgentEventKind;
use querymt_agent::file_proxy::{
    file_content, rendered_text, requested_path, within_workspace, FileContent, FileProxyError,
    ReadRemoteFileResponse, RequestedPath,
};
use querymt_agent::json::{JsonMember, JsonValue};
use querymt_agent::model::{AgentMessage, AgentMode, ChatRole, ContentBlock, MessagePart};
use querymt_agent::prompt_run::{
    CycleOutcome, PermitOutcome, PromptAction, PromptEvent, PromptRun, PromptStage, StopReason,
    TurnSnapshot,
};
use querymt_agent::session_actor::{
    checked_provider, ensure_pre_turn_snapshot_ready, resolve_model_id, session_system_prompt,
    snapshot_start_error, with_planning_context, PreTurnSnapshot, RelayLookup, SessionActor,
    TokenChoice, TurnState,
};
use querymt_agent::tools::{ToolConfig, ToolPolicy};
use querymt_agent::undo::{
    cleanup_revert_on_prompt, plan_undo, redo_frame, redo_step, revert_state, undo_result,
    ChildHistory, JournalEvent, RedoStep, RevertStack, UndoError,
};
use querymt_agent::chat::ReasoningEffort;
use querymt_agent::model_change::{
    CurrentConfig, ModelAction, ModelEvent, ModelRun,
};
use querymt_agent::session_config::resume_response;
use querymt_agent::session_materializer::LlmConfig;
use querymt_agent::undo_run::{
    CleanupAction, CleanupEvent, CleanupRun, CleanupStage, RedoAction, RedoEvent, RedoRun,
    RedoStage, UndoAction, UndoEvent, UndoRun, UndoStage,
};
use tokio_util::sync::CancellationToken;

fn actor() -> SessionActor {
    let config = ToolConfig {
        policy: ToolPolicy::ProviderOnly,
        allowlist: None,
        denylist: vec![],
    };
    SessionActor::new("s".to_string(), Some("/w".to_string()), true, AgentMode::Build, &config)
}

#[test]
fn stale_prompt_finished_generation_is_ignored() {
    let mut turn_state = TurnState::new();
    turn_state.generation = 4;
    let running_token = turn_state.token.clone();
    let stale_generation = 3;
    assert!(!turn_state.settle(stale_generation, CancellationToken::new()));
    turn_state.token.cancel();
    assert!(
        running_token.is_cancelled(),
        "Stale PromptFinished must not replace the current turn token"
    );
}

#[test]
fn cancel_flag_allows_new_prompt_while_old_task_winds_down() {
    let mut actor = actor();
    let running = actor.accept_prompt();
    assert!(actor.prompt_running);
    assert!(!running.token.is_cancelled());

    assert_eq!(actor.cancel().event, AgentEventKind::Cancelled);
    assert!(running.token.is_cancelled(), "Cancel must reach the running task's token clone");

    let next = actor.accept_prompt();
    assert!(!next.token.is_cancelled(), "New prompt's cancel_token should start clean");
    assert!(next.generation > running.generation);

    actor.prompt_finished(running.generation);
    assert!(actor.prompt_running);
    actor.prompt_finished(next.generation);
    assert!(!actor.prompt_running);
    assert!(!actor.turn_state.token.is_cancelled());
}

#[test]
fn cancel_reaches_running_task_when_second_prompt_queued() {
    let mut actor = actor();
    let running = actor.accept_prompt();
    let queued = actor.accept_prompt();
    assert!(!running.token.is_cancelled());
    actor.cancel();
    assert!(
        running.token.is_cancelled(),
        "Cancel must reach the first task even after a second Prompt was queued"
    );
    actor.prompt_finished(queued.generation);
    assert!(!actor.turn_state.token.is_cancelled(), "Token reset after PromptFinished");
}

#[test]
fn test_set_and_get_mode() {
    let mut actor = actor();
    assert_eq!(actor.get_mode(), AgentMode::Build);
    assert_eq!(
        actor.set_mode(AgentMode::Plan),
        AgentEventKind::SessionModeChanged { mode: AgentMode::Plan }
    );
    assert_eq!(actor.get_mode(), AgentMode::Plan);
}

#[test]
fn tool_settings_are_those_of_the_session() {
    let mut actor = actor();
    actor.set_tool_policy(ToolPolicy::BuiltInOnly);
    assert_eq!(actor.tool_config.policy, ToolPolicy::BuiltInOnly);
    actor.set_allowed_tools(vec!["shell".to_string()]);
    assert_eq!(actor.tool_config.allowlist, Some(vec!["shell".to_string()]));
    actor.clear_allowed_tools();
    assert_eq!(actor.tool_config.allowlist, None);
    actor.set_denied_tools(vec!["shell".to_string()]);
    assert_eq!(actor.tool_config.denylist, vec!["shell".to_string()]);
    actor.clear_denied_tools();
    assert!(actor.tool_config.denylist.is_empty());
}

#[test]
fn events_are_forwarded_once_for_each_relay() {
    let mut actor = actor();
    assert_eq!(actor.subscribe_events(1, RelayLookup::Found { task: 10 }), None);
    assert_eq!(actor.subscribe_events(1, RelayLookup::Found { task: 11 }), Some(10));
    assert_eq!(actor.unsubscribe_events(1), Some(11));
    assert_eq!(actor.unsubscribe_events(1), None);
    assert_eq!(actor.subscribe_events(2, RelayLookup::NoMesh), None);
    assert_eq!(actor.unsubscribe_events(2), None);
}

#[test]
fn undo_needs_a_backend_and_a_directory() {
    assert_eq!(actor().undo_worktree(), Ok("/w".to_string()));
    let config =
        ToolConfig { policy: ToolPolicy::ProviderOnly, allowlist: None, denylist: vec![] };
    let no_backend = SessionActor::new(
        "s".to_string(),
        Some("/w".to_string()),
        false,
        AgentMode::Build,
        &config,
    );
    assert_eq!(no_backend.undo_worktree(), Err(UndoError::NoSnapshotBackend));
    let no_cwd = SessionActor::new("s".to_string(), None, true, AgentMode::Build, &config);
    assert_eq!(no_cwd.undo_worktree(), Err(UndoError::NoWorkingDirectory));
    assert!(no_cwd.with_mesh(None).mesh.is_none());
}

#[test]
fn model_ids_name_provider_and_model() {
    let names = |id: &str, current: Option<&str>| {
        resolve_model_id(id, current.map(|c| c.to_string()))
    };
    assert_eq!(names("openai/gpt", None), ("openai".to_string(), "gpt".to_string()));
    assert_eq!(names("a/b/c", None), ("a".to_string(), "b/c".to_string()));
    assert_eq!(names("gpt", Some("mock")), ("mock".to_string(), "gpt".to_string()));
    assert_eq!(names("gpt", None), ("anthropic".to_string(), "gpt".to_string()));
    assert_eq!(checked_provider(None, true), Err(AgentError::ProviderRequired));
    assert_eq!(
        checked_provider(Some("x".to_string()), false),
        Err(AgentError::UnknownProvider { name: "x".to_string() })
    );
    assert_eq!(checked_provider(Some("x".to_string()), true), Ok("x".to_string()));
}

#[test]
fn system_prompts_come_from_the_session_first() {
    let params = Some(JsonValue::Object(vec![JsonMember {
        name: "system".to_string(),
        value: JsonValue::Array(vec![JsonValue::Str("mine".to_string())]),
    }]));
    let initial = vec!["default".to_string()];
    assert_eq!(session_system_prompt(&params, &initial), vec!["mine".to_string()]);
    assert_eq!(session_system_prompt(&None, &initial), initial);
    assert_eq!(
        with_planning_context(vec!["a".to_string()], "plan".to_string()).len(),
        2
    );
}

#[test]
fn snapshots_before_turns_are_stored_when_they_are_ready() {
    let ready = PreTurnSnapshot::Ready(TurnSnapshot {
        turn_id: "t".to_string(),
        snapshot_id: "c0ffee".to_string(),
    });
    let (turn, message) =
        ensure_pre_turn_snapshot_ready(ready, "s", "m".to_string(), 7).unwrap();
    assert_eq!(turn.snapshot_id, "c0ffee");
    assert_eq!(
        message.parts,
        vec![MessagePart::TurnSnapshotStart {
            turn_id: "t".to_string(),
            snapshot_id: "c0ffee".to_string(),
        }]
    );
    assert!(ensure_pre_turn_snapshot_ready(PreTurnSnapshot::NoTask, "s", "m".to_string(), 7)
        .is_none());
    assert_eq!(
        snapshot_start_error("disk"),
        AgentError::Internal("Failed to store turn snapshot start: disk".to_string())
    );
}

fn run(snapshots: bool) -> PromptRun {
    let (run, step) = PromptRun::start(
        "s".to_string(),
        60,
        vec![ContentBlock::Text("hello".to_string())],
        "m1".to_string(),
        7,
        false,
        snapshots,
    );
    assert!(matches!(step.action, PromptAction::AcquirePermit { wait_ms: 100 }));
    run
}

fn until_turn(run: &mut PromptRun) {
    assert!(matches!(
        run.on_event(PromptEvent::Permit(PermitOutcome::Acquired)).action,
        PromptAction::CleanUpRevert
    ));
    assert!(matches!(run.on_event(PromptEvent::CleanedUp).action, PromptAction::LoadSession));
    assert!(matches!(
        run.on_event(PromptEvent::SessionLoaded(Ok(()))).action,
        PromptAction::LoadContext
    ));
    let step = run.on_event(PromptEvent::ContextLoaded { result: Ok(()), cancelled: false });
    assert!(matches!(
        step.action,
        PromptAction::UpdateIntent { user_text } if user_text == "hello"
    ));
    let step = run.on_event(PromptEvent::IntentUpdated(Ok(())));
    assert!(matches!(step.action, PromptAction::StoreMessage(message) if message.id == "m1"));
    let step = run.on_event(PromptEvent::MessageStored(Ok(())));
    assert!(matches!(step.action, PromptAction::RunTurn { .. }));
}

#[test]
fn prompts_run_from_permit_to_answer() {
    let mut run = run(true);
    until_turn(&mut run);
    assert!(matches!(
        run.on_event(PromptEvent::TurnEnded(Ok(CycleOutcome::Completed))).action,
        PromptAction::ResolveSnapshot
    ));
    let turn = TurnSnapshot { turn_id: "t".to_string(), snapshot_id: "before".to_string() };
    assert!(matches!(
        run.on_event(PromptEvent::SnapshotResolved(Some(turn))).action,
        PromptAction::TrackWorkTree
    ));
    assert!(matches!(
        run.on_event(PromptEvent::TreeRecorded(Ok("after".to_string()))).action,
        PromptAction::DiffWorkTree { .. }
    ));
    let step = run.on_event(PromptEvent::Diffed {
        changed: Ok(vec!["a.txt".to_string()]),
        message_id: "m2".to_string(),
        created_at: 8,
    });
    match step.action {
        PromptAction::StoreMessage(message) => assert_eq!(
            message.parts,
            vec![MessagePart::TurnSnapshotPatch {
                turn_id: "t".to_string(),
                snapshot_id: "after".to_string(),
                changed_paths: vec!["a.txt".to_string()],
            }]
        ),
        other => panic!("unexpected {other:?}"),
    }
    assert!(matches!(run.on_event(PromptEvent::PatchStored).action, PromptAction::CollectGarbage));
    assert!(matches!(
        run.on_event(PromptEvent::GarbageCollected).action,
        PromptAction::Respond(Ok(StopReason::EndTurn))
    ));
    assert_eq!(run.stage, PromptStage::Finished);
}

#[test]
fn prompts_that_cannot_run_are_answered_with_an_error() {
    let mut queued = run(false);
    let step = queued.on_event(PromptEvent::Permit(PermitOutcome::TimedOut));
    assert_eq!(
        step.emit,
        vec![AgentEventKind::SessionQueued {
            reason: "waiting for previous operation to complete".to_string(),
        }]
    );
    match queued.on_event(PromptEvent::Permit(PermitOutcome::TimedOut)).action {
        PromptAction::Respond(Err(AgentError::SessionTimeout { details })) => {
            assert_eq!(details, "session_id=s, timeout=60s")
        }
        other => panic!("unexpected {other:?}"),
    }
    assert!(matches!(
        run(false).on_event(PromptEvent::Permit(PermitOutcome::Closed)).action,
        PromptAction::Respond(Err(AgentError::SessionSemaphoreClosed))
    ));
    let mut failing = run(false);
    until_turn(&mut failing);
    let step = failing.on_event(PromptEvent::TurnEnded(Err("broken".to_string())));
    assert_eq!(step.emit, vec![AgentEventKind::Error { message: "broken".to_string() }]);
    assert!(matches!(
        step.action,
        PromptAction::Respond(Err(AgentError::Internal(message))) if message == "broken"
    ));
}

fn message(id: &str, parts: Vec<MessagePart>) -> AgentMessage {
    AgentMessage {
        id: id.to_string(),
        session_id: "s".to_string(),
        role: ChatRole::Assistant,
        parts,
        created_at: 0,
        parent_message_id: None,
    }
}

fn turn(turn_id: &str, before: &str, after: &str, paths: &[&str]) -> Vec<MessagePart> {
    vec![
        MessagePart::TurnSnapshotStart {
            turn_id: turn_id.to_string(),
            snapshot_id: before.to_string(),
        },
        MessagePart::TurnSnapshotPatch {
            turn_id: turn_id.to_string(),
            snapshot_id: after.to_string(),
            changed_paths: paths.iter().map(|p| p.to_string()).collect(),
        },
    ]
}

#[test]
fn test_undo_single_agent_with_file_changes() {
    let history = vec![
        message("user", vec![]),
        message("turn", turn("t1", "c0", "c1", &["test.txt"])),
    ];
    let plan = plan_undo("s", &history, "user", &vec![]).unwrap();
    assert_eq!(plan.restores.len(), 1);
    assert_eq!(plan.restores[0].snapshot_id, "c0");
    assert_eq!(plan.restores[0].paths, vec!["test.txt".to_string()]);
    let result = undo_result(&plan, &vec![true], &vec![], "user");
    assert_eq!(result.reverted_files, vec!["test.txt".to_string()]);
    assert_eq!(result.message_id, "user");
}

#[test]
fn test_undo_cross_session_delegation() {
    let history = vec![message("user", vec![])];
    let children = vec![
        ChildHistory {
            session_id: "child".to_string(),
            history: Some(vec![message("c", turn("t1", "c0", "c1", &["test.txt"]))]),
        },
        ChildHistory { session_id: "lost".to_string(), history: None },
    ];
    let plan = plan_undo("s", &history, "user", &children).unwrap();
    let result = undo_result(&plan, &vec![true], &vec![], "user");
    assert_eq!(result.reverted_files.len(), 1);
    assert!(result.reverted_files.contains(&"test.txt".to_string()));
}

#[test]
fn undo_goes_back_turn_by_turn() {
    let history = vec![
        message("user", vec![]),
        message("a", turn("t1", "c0", "c1", &["one"])),
        message("b", turn("t2", "c1", "c2", &["two"])),
    ];
    let plan = plan_undo("s", &history, "user", &vec![]).unwrap();
    let order: Vec<&str> = plan.restores.iter().map(|r| r.snapshot_id.as_str()).collect();
    assert_eq!(order, vec!["c1", "c0"]);
    // What could not be restored is not reported.
    assert_eq!(
        undo_result(&plan, &vec![false, true], &vec![], "user").reverted_files,
        vec!["one".to_string()]
    );
    assert_eq!(
        plan_undo("s", &history, "nowhere", &vec![]).unwrap_err(),
        UndoError::MessageNotFound { message_id: "nowhere".to_string() }
    );
    // Without later changes the state at the message itself is restored.
    let plan = plan_undo("s", &history, "b", &vec![]).unwrap();
    assert!(plan.restores.is_empty());
    assert_eq!(plan.fallback.as_deref(), Some("c2"));
    assert_eq!(
        undo_result(&plan, &vec![], &vec!["two".to_string()], "b").reverted_files,
        vec!["two".to_string()]
    );
}

#[test]
fn test_redo_with_no_revert_state_fails() {
    let error = redo_frame(None).unwrap_err();
    assert_eq!(error, UndoError::NothingToRedo);
    assert_eq!(error.message().as_deref(), Some("Nothing to redo"));
    assert_eq!(RevertStack::new().pop().unwrap_err(), UndoError::NothingToRedo);
}

#[test]
fn test_undo_twice_then_redo_once_restores_latest_undone_step() {
    let frame = |id: &str, snapshot: &str| {
        revert_state(id.to_string(), "s", "m", snapshot.to_string(), 0)
    };
    let mut stack = RevertStack::new();
    stack.push(frame("1", "before-first"));
    stack.push(frame("2", "before-second"));
    let newest = stack.pop().unwrap();
    assert_eq!(newest.snapshot_id, "before-second");
    assert_eq!(newest.backend_id, "git");
    match redo_step(&newest, vec!["a".to_string()]) {
        RedoStep::RestoreThenPop { snapshot_id, paths } => {
            assert_eq!(snapshot_id, "before-second");
            assert_eq!(paths, vec!["a".to_string()]);
        }
        other => panic!("unexpected {other:?}"),
    }
    assert!(!matches!(redo_step(&newest, vec![]), RedoStep::RestoreThenPop { .. }));
    assert_eq!(stack.pop().unwrap().snapshot_id, "before-first");
}

#[test]
fn test_cleanup_revert_removes_undone_messages_from_history() {
    let mut history = vec![message("a", vec![]), message("b", vec![]), message("c", vec![])];
    let mut journal = vec![
        JournalEvent { stream_seq: 1, prompt_message_id: Some("a".to_string()) },
        JournalEvent { stream_seq: 2, prompt_message_id: None },
        JournalEvent { stream_seq: 3, prompt_message_id: Some("b".to_string()) },
        JournalEvent { stream_seq: 4, prompt_message_id: None },
    ];
    let mut frames = RevertStack::new();
    assert!(!cleanup_revert_on_prompt(&mut frames, &mut history, &mut journal));
    assert_eq!(history.len(), 3);
    assert_eq!(journal.len(), 4);
    frames.push(revert_state("q".to_string(), "s", "c", "w".to_string(), 0));
    frames.push(revert_state("r".to_string(), "s", "b", "x".to_string(), 1));
    assert!(cleanup_revert_on_prompt(&mut frames, &mut history, &mut journal));
    let left: Vec<&str> = history.iter().map(|m| m.id.as_str()).collect();
    assert_eq!(left, vec!["a"]);
    let left: Vec<i64> = journal.iter().map(|e| e.stream_seq).collect();
    assert_eq!(left, vec![1, 2]);
    assert!(frames.frames.is_empty(), "no frame is left to redo");
}

#[test]
fn files_are_sent_as_they_are() {
    let cwd = Some("/w".to_string());
    assert_eq!(
        requested_path(&cwd, "a.txt", false),
        Ok(RequestedPath::Within { cwd: "/w".to_string(), path: "a.txt".to_string() })
    );
    assert_eq!(
        requested_path(&cwd, "/x", true),
        Ok(RequestedPath::Absolute("/x".to_string()))
    );
    assert_eq!(requested_path(&None, "a", false), Err(FileProxyError::NoWorkingDirectory));
    assert_eq!(within_workspace("/w/a".to_string(), true), Ok("/w/a".to_string()));
    assert_eq!(
        within_workspace("/etc".to_string(), false),
        Err(FileProxyError::PathOutsideWorkspace("/etc".to_string()))
    );
    assert_eq!(
        file_content(false, &b"Man".to_vec(), Some("image/png".to_string())),
        FileContent::Ready(ReadRemoteFileResponse::Image {
            mime_type: "image/png".to_string(),
            base64_data: "TWFu".to_string(),
        })
    );
    assert_eq!(file_content(false, &b"text".to_vec(), None), FileContent::RenderText);
    assert_eq!(
        file_content(false, &vec![0xff, 0xfe], None),
        FileContent::Ready(ReadRemoteFileResponse::Binary)
    );
    assert_eq!(file_content(true, &vec![], None), FileContent::RenderText);
    assert_eq!(
        rendered_text(Err("x".to_string())),
        Err(FileProxyError::ReadError("x".to_string()))
    );
    assert_eq!(
        rendered_text(Ok("x".to_string())),
        Ok(ReadRemoteFileResponse::Text("x".to_string()))
    );
}

fn stored_config() -> LlmConfig {
    LlmConfig { id: 9, provider: "openai".to_string(), model: "gpt".to_string() }
}

#[test]
fn models_are_configured_stored_and_announced() {
    let (mut run, step) = ModelRun::configure(
        "s".to_string(),
        Some("openai".to_string()),
        Some("gpt".to_string()),
        vec!["be kind".to_string()],
        Some(r#"{"temperature":1}"#.to_string()),
    );
    assert!(matches!(step.action, ModelAction::CheckProvider { name } if name == "openai"));
    match run.on_event(ModelEvent::ProviderChecked { installed: true }).action {
        ModelAction::CreateConfig(params) => {
            assert_eq!(params.provider, "openai");
            assert_eq!(params.system, vec!["be kind".to_string()]);
            assert_eq!(params.others.as_deref(), Some(r#"{"temperature":1}"#));
        }
        other => panic!("unexpected {other:?}"),
    }
    assert!(matches!(
        run.on_event(ModelEvent::ConfigCreated(Ok(stored_config()))).action,
        ModelAction::AssignConfig { config_id: 9 }
    ));
    let step = run.on_event(ModelEvent::ConfigAssigned {
        result: Ok(()),
        context_limit: Some(128),
    });
    assert_eq!(
        step.emit,
        Some(AgentEventKind::ProviderChanged {
            provider: "openai".to_string(),
            model: "gpt".to_string(),
            config_id: 9,
            context_limit: Some(128),
            provider_node_id: None,
        })
    );
    assert!(matches!(step.action, ModelAction::Respond(Ok(()))));
}

#[test]
fn test_set_provider_unknown_fails() {
    let (mut run, _) =
        ModelRun::configure("s".to_string(), Some("nonexistent".to_string()), None, vec![], None);
    assert!(matches!(
        run.on_event(ModelEvent::ProviderChecked { installed: false }).action,
        ModelAction::Respond(Err(AgentError::UnknownProvider { name })) if name == "nonexistent"
    ));
    let (_, step) = ModelRun::configure("s".to_string(), None, None, vec![], None);
    assert!(matches!(
        step.action,
        ModelAction::Respond(Err(AgentError::ProviderRequired))
    ));
}

fn selecting(model_id: &str) -> ModelRun {
    let (mut run, step) = ModelRun::select(
        "s".to_string(),
        "own".to_string(),
        model_id.to_string(),
        Some("node".to_string()),
        vec!["initial".to_string()],
    );
    assert!(matches!(step.action, ModelAction::FindSession));
    let read = if model_id.contains('/') { "own" } else { "s" };
    assert!(matches!(
        run.on_event(ModelEvent::SessionFound(Ok(true))).action,
        ModelAction::ReadCurrent { session_id } if session_id == read
    ));
    run
}

fn system_params(parts: &[&str]) -> Option<JsonValue> {
    let parts = parts.iter().map(|part| JsonValue::Str(part.to_string())).collect();
    let system = JsonMember { name: "system".to_string(), value: JsonValue::Array(parts) };
    Some(JsonValue::Object(vec![system]))
}

#[test]
fn selected_models_are_found_by_their_ids() {
    let current = || {
        Ok(Some(CurrentConfig {
            provider: "mock".to_string(),
            model: "old".to_string(),
            params: system_params(&["of the other session"]),
        }))
    };
    let mut run = selecting("gpt");
    assert!(matches!(
        run.on_event(ModelEvent::CurrentRead(current())).action,
        ModelAction::ReadCurrent { session_id } if session_id == "own"
    ));
    let own = CurrentConfig {
        provider: "another".to_string(),
        model: "old".to_string(),
        params: system_params(&["of the own session"]),
    };
    match run.on_event(ModelEvent::CurrentRead(Ok(Some(own)))).action {
        ModelAction::CreateConfig(params) => {
            assert_eq!(params.provider, "mock");
            assert_eq!(params.model.as_deref(), Some("gpt"));
            assert_eq!(params.system, vec!["of the own session".to_string()]);
        }
        other => panic!("unexpected {other:?}"),
    }
    run.on_event(ModelEvent::ConfigCreated(Ok(stored_config())));
    let step = run.on_event(ModelEvent::ConfigAssigned { result: Ok(()), context_limit: None });
    assert_eq!(step.emit, None);
    assert!(matches!(
        step.action,
        ModelAction::AssignNode { provider_node_id: Some(node) } if node == "node"
    ));
    let step = run.on_event(ModelEvent::NodeAssigned { context_limit: None });
    assert!(matches!(
        step.emit,
        Some(AgentEventKind::ProviderChanged { provider_node_id: Some(node), .. }) if node == "node"
    ));

    // An id that names its provider does not need the current configuration.
    let failed = || ModelEvent::CurrentRead(Err("locked".to_string()));
    assert!(matches!(
        selecting("openai/gpt").on_event(failed()).action,
        ModelAction::CreateConfig(params)
            if params.provider == "openai" && params.system == vec!["initial".to_string()]
    ));
    assert!(matches!(
        selecting("gpt").on_event(failed()).action,
        ModelAction::Respond(Err(AgentError::Internal(reason))) if reason == "locked"
    ));
    let (mut run, _) = ModelRun::select(
        "s".to_string(),
        "own".to_string(),
        "m".to_string(),
        None,
        vec![],
    );
    assert!(matches!(
        run.on_event(ModelEvent::SessionFound(Ok(false))).action,
        ModelAction::Respond(Err(AgentError::SessionNotFound { session_id })) if session_id == "s"
    ));
}

#[test]
fn planning_summaries_join_the_system_prompt() {
    let begin = || {
        ModelRun::add_context("s".to_string(), "plan".to_string(), vec!["initial".to_string()]).0
    };
    let mut run = begin();
    let current = CurrentConfig {
        provider: "mock".to_string(),
        model: "m".to_string(),
        params: None,
    };
    assert!(matches!(
        run.on_event(ModelEvent::CurrentRead(Err("locked".to_string()))).action,
        ModelAction::ReadCurrent { session_id } if session_id == "s"
    ));
    match run.on_event(ModelEvent::CurrentRead(Ok(Some(current)))).action {
        ModelAction::CreateConfig(params) => {
            assert_eq!(params.provider, "mock");
            assert_eq!(params.system, vec!["initial".to_string(), "plan".to_string()])
        }
        other => panic!("unexpected {other:?}"),
    }
    run.on_event(ModelEvent::ConfigCreated(Ok(stored_config())));
    let step = run.on_event(ModelEvent::ConfigAssigned { result: Ok(()), context_limit: None });
    assert_eq!(step.emit, None);
    let mut run = begin();
    run.on_event(ModelEvent::CurrentRead(Ok(None)));
    assert!(matches!(
        run.on_event(ModelEvent::CurrentRead(Ok(None))).action,
        ModelAction::Respond(Ok(()))
    ));
    let mut run = begin();
    run.on_event(ModelEvent::CurrentRead(Ok(None)));
    assert!(matches!(
        run.on_event(ModelEvent::CurrentRead(Err("locked".to_string()))).action,
        ModelAction::Respond(Err(AgentError::Internal(reason))) if reason == "locked"
    ));
}

#[test]
fn resumed_sessions_show_their_options() {
    let (modes, options) = resume_response(
        AgentMode::Plan,
        Err("no answer".to_string()),
        Some(ReasoningEffort::High),
    );
    assert_eq!(modes.current_mode_id, "plan");
    assert_eq!(modes.available_modes.len(), 3);
    assert_eq!(options.len(), 2);
    assert_eq!(options[1].current_value, "high");
}

fn tree(id: &str) -> UndoEvent {
    UndoEvent::TreeRecorded(Ok(id.to_string()))
}

fn undoing(history: Vec<AgentMessage>, children: Vec<ChildHistory>) -> (UndoRun, UndoAction) {
    let (mut run, action) = UndoRun::start("s".to_string(), "user".to_string());
    assert!(matches!(action, UndoAction::Track));
    assert!(matches!(run.on_event(tree("now")), UndoAction::LoadHistory));
    assert!(matches!(
        run.on_event(UndoEvent::HistoryLoaded(Ok(history))),
        UndoAction::LoadChildren
    ));
    let action = run.on_event(UndoEvent::ChildrenLoaded(Ok(children)));
    (run, action)
}

#[test]
fn undo_restores_and_then_stores_the_frame() {
    let history = vec![
        message("user", vec![]),
        message("a", turn("t1", "c0", "c1", &["one"])),
        message("b", turn("t2", "c1", "c2", &["two"])),
    ];
    let (mut run, action) = undoing(history, vec![]);
    assert!(matches!(
        action,
        UndoAction::Restore { snapshot_id, .. } if snapshot_id == "c1"
    ));
    assert!(matches!(
        run.on_event(UndoEvent::Restored(Err("locked".to_string()))),
        UndoAction::Restore { snapshot_id, .. } if snapshot_id == "c0"
    ));
    assert!(matches!(
        run.on_event(UndoEvent::Restored(Ok(()))),
        UndoAction::StoreFrame { session_id, message_id, snapshot_id }
            if session_id == "s" && message_id == "user" && snapshot_id == "now"
    ));
    match run.on_event(UndoEvent::FrameStored(Ok(()))) {
        UndoAction::Respond(Ok(result)) => {
            assert_eq!(result.reverted_files, vec!["one".to_string()]);
            assert_eq!(result.message_id, "user");
        }
        other => panic!("unexpected {other:?}"),
    }
    assert_eq!(run.stage, UndoStage::Finished);
}

#[test]
fn undo_falls_back_to_the_state_at_the_message() {
    let history = || vec![message("user", turn("t1", "c0", "c1", &["one"]))];
    let (mut run, action) = undoing(history(), vec![]);
    assert!(matches!(action, UndoAction::Track));
    assert!(matches!(
        run.on_event(tree("current")),
        UndoAction::Diff { from, to } if from == "current" && to == "c1"
    ));
    let changed = vec!["x".to_string()];
    assert!(matches!(
        run.on_event(UndoEvent::Diffed(Ok(changed.clone()))),
        UndoAction::Restore { snapshot_id, paths } if snapshot_id == "c1" && paths == changed
    ));
    assert!(matches!(
        run.on_event(UndoEvent::Restored(Ok(()))),
        UndoAction::StoreFrame { .. }
    ));
    match run.on_event(UndoEvent::FrameStored(Ok(()))) {
        UndoAction::Respond(Ok(result)) => assert_eq!(result.reverted_files, changed),
        other => panic!("unexpected {other:?}"),
    }
    // Nothing differs: nothing is restored.
    let (mut run, _) = undoing(history(), vec![]);
    run.on_event(tree("current"));
    assert!(matches!(
        run.on_event(UndoEvent::Diffed(Ok(vec![]))),
        UndoAction::StoreFrame { .. }
    ));
}

#[test]
fn failed_undos_say_why() {
    let words = |action| match action {
        UndoAction::Respond(Err(error)) => error.message().unwrap(),
        other => panic!("unexpected {other:?}"),
    };
    let begin = || UndoRun::start("s".to_string(), "user".to_string()).0;
    let mut run = begin();
    assert_eq!(words(run.on_event(UndoEvent::TreeRecorded(Err("git".to_string())))), "git");
    let mut run = begin();
    run.on_event(tree("now"));
    assert_eq!(
        words(run.on_event(UndoEvent::HistoryLoaded(Err("x".to_string())))),
        "Failed to get history: x"
    );
    let mut run = begin();
    run.on_event(tree("now"));
    assert_eq!(
        words(run.on_event(UndoEvent::HistoryLoaded(Ok(vec![])))),
        "Message not found: user"
    );
    let (mut run, _) = undoing(vec![message("user", vec![])], vec![]);
    assert_eq!(
        words(run.on_event(UndoEvent::FrameStored(Err("x".to_string())))),
        "Failed to store revert state: x"
    );
    assert!(matches!(run.on_event(tree("late")), UndoAction::Ignore));
}

#[test]
fn redo_restores_and_then_drops_the_frame() {
    let frame = || revert_state("r".to_string(), "s", "m", "before".to_string(), 0);
    let (mut run, action) = RedoRun::start();
    assert!(matches!(action, RedoAction::ReadFrame));
    assert!(matches!(
        run.on_event(RedoEvent::FrameRead(Ok(Some(frame())))),
        RedoAction::Track
    ));
    assert!(matches!(
        run.on_event(RedoEvent::TreeRecorded(Ok("now".to_string()))),
        RedoAction::Diff { from, to } if from == "now" && to == "before"
    ));
    assert!(matches!(
        run.on_event(RedoEvent::Diffed(Ok(vec!["a".to_string()]))),
        RedoAction::Restore { snapshot_id, .. } if snapshot_id == "before"
    ));
    assert!(matches!(run.on_event(RedoEvent::Restored(Ok(()))), RedoAction::DropFrame));
    assert!(matches!(
        run.on_event(RedoEvent::FrameDropped(Ok(()))),
        RedoAction::Respond(Ok(result)) if result.restored
    ));
    assert_eq!(run.stage, RedoStage::Finished);

    let (mut run, _) = RedoRun::start();
    assert!(matches!(
        run.on_event(RedoEvent::FrameRead(Ok(None))),
        RedoAction::Respond(Err(UndoError::NothingToRedo))
    ));
    let (mut run, _) = RedoRun::start();
    run.on_event(RedoEvent::FrameRead(Ok(Some(frame()))));
    run.on_event(RedoEvent::TreeRecorded(Ok("now".to_string())));
    assert!(matches!(run.on_event(RedoEvent::Diffed(Ok(vec![]))), RedoAction::DropFrame));
    assert!(matches!(
        run.on_event(RedoEvent::FrameDropped(Err("x".to_string()))),
        RedoAction::Respond(Err(UndoError::Backend(words)))
            if words == "Failed to update revert state: x"
    ));
}

#[test]
fn test_cancel_emits_event() {
    let mut actor = actor();
    let step = actor.cancel();
    assert_eq!(step.event, AgentEventKind::Cancelled);
}

#[test]
fn test_set_mode_emits_event() {
    assert!(matches!(
        actor().set_mode(AgentMode::Plan),
        AgentEventKind::SessionModeChanged { mode: AgentMode::Plan }
    ));
}

#[test]
fn test_prompt_finished_resets_state() {
    let mut actor = actor();
    let accepted = actor.accept_prompt();
    actor.cancel();
    actor.prompt_finished(accepted.generation);
    assert!(!actor.prompt_running);
    assert!(!actor.turn_state.token.is_cancelled());
}

#[test]
fn test_undo_multiple_files() {
    let history = vec![
        message("user", vec![]),
        message("turn", turn("t1", "c0", "c1", &["a.txt", "b.txt"])),
    ];
    let (mut run, action) = undoing(history, vec![]);
    assert!(matches!(action, UndoAction::Restore { paths, .. } if paths.len() == 2));
    run.on_event(UndoEvent::Restored(Ok(())));
    assert!(matches!(
        run.on_event(UndoEvent::FrameStored(Ok(()))),
        UndoAction::Respond(Ok(result)) if result.reverted_files.len() == 2
    ));
}

#[test]
fn test_undo_multiple_child_sessions() {
    let child = |id: &str, turn_id: &str, before: &str, after: &str, path: &str| ChildHistory {
        session_id: id.to_string(),
        history: Some(vec![message("c", turn(turn_id, before, after, &[path]))]),
    };
    let children = vec![
        child("child-1", "t1", "c0", "c1", "a.txt"),
        child("child-2", "t2", "c1", "c2", "b.txt"),
    ];
    let (mut run, action) = undoing(vec![message("user", vec![])], children);
    assert!(matches!(action, UndoAction::Restore { snapshot_id, .. } if snapshot_id == "c1"));
    run.on_event(UndoEvent::Restored(Ok(())));
    run.on_event(UndoEvent::Restored(Ok(())));
    match run.on_event(UndoEvent::FrameStored(Ok(()))) {
        UndoAction::Respond(Ok(result)) => {
            assert_eq!(result.reverted_files, vec!["b.txt".to_string(), "a.txt".to_string()])
        }
        other => panic!("unexpected {other:?}"),
    }
}

#[test]
fn test_cleanup_revert_prunes_event_journal() {
    let mut history = vec![message("msg1", vec![]), message("msg2", vec![])];
    let event = |stream_seq: i64, prompt: Option<&str>| JournalEvent {
        stream_seq,
        prompt_message_id: prompt.map(|p| p.to_string()),
    };
    let mut journal = vec![
        event(1, Some("msg1")),
        event(2, None),
        event(3, Some("msg2")),
        event(4, None),
        event(5, None),
    ];
    let mut frames = RevertStack::new();
    frames.push(revert_state("r".to_string(), "s", "msg2", "x".to_string(), 0));
    assert!(cleanup_revert_on_prompt(&mut frames, &mut history, &mut journal));
    let after: Vec<i64> = journal.iter().map(|e| e.stream_seq).collect();
    assert_eq!(after, vec![1, 2]);
}

#[test]
fn test_set_tool_policy() {
    let mut session = actor();
    session.set_tool_policy(ToolPolicy::BuiltInOnly);
    session.set_allowed_tools(vec!["shell".to_string(), "read_tool".to_string()]);
    assert_eq!(session.tool_config.policy, ToolPolicy::BuiltInOnly);
    assert_eq!(
        session.tool_config.allowlist,
        Some(vec!["shell".to_string(), "read_tool".to_string()])
    );
    session.clear_allowed_tools();
    assert_eq!(session.tool_config.allowlist, None);
}

#[test]
fn test_set_denied_tools() {
    let mut session = actor();
    session.set_denied_tools(vec!["shell".to_string()]);
    assert_eq!(session.tool_config.denylist, vec!["shell".to_string()]);
    session.clear_denied_tools();
    assert!(session.tool_config.denylist.is_empty());
}

#[test]
fn test_multiple_sessions_independent() {
    let mut f1 = actor();
    let f2 = actor();
    f1.set_mode(AgentMode::Plan);
    assert_eq!(f1.get_mode(), AgentMode::Plan);
    assert_eq!(f2.get_mode(), AgentMode::Build, "f2 should not be affected by f1's mode change");
}

#[test]
fn test_subscribe_unsubscribe_events_no_panic() {
    let mut session = actor();
    assert_eq!(session.subscribe_events(42, RelayLookup::NoMesh), None);
    assert_eq!(session.unsubscribe_events(42), None);
}

#[test]
fn test_local_ref_get_mode_default_is_build() {
    assert_eq!(actor().get_mode(), AgentMode::Build);
}

#[test]
fn test_local_ref_set_mode_roundtrip() {
    let mut session = actor();
    session.set_mode(AgentMode::Plan);
    assert_eq!(session.get_mode(), AgentMode::Plan);
    session.set_mode(AgentMode::Build);
    assert_eq!(session.get_mode(), AgentMode::Build);
}

#[test]
fn cancels_are_shown_by_what_they_reached() {
    let mut actor = actor();
    let running = actor.accept_prompt();
    assert!(matches!(running.choice, TokenChoice::Kept(_)));
    let _reached = actor.cancel().cancellation;
    assert!(running.token.is_cancelled());
    let next = actor.accept_prompt();
    assert!(matches!(next.choice, TokenChoice::Renewed(_)));
    assert!(!next.token.is_cancelled());
    let third = actor.accept_prompt();
    assert!(matches!(third.choice, TokenChoice::Kept(_)));
    next.token.cancel();
    let fourth = actor.accept_prompt();
    assert!(matches!(fourth.choice, TokenChoice::Renewed(_)));
    assert!(actor.prompt_finished(running.generation).is_none());
    assert!(actor.prompt_finished(next.generation).is_none());
    actor.cancel();
    assert!(actor.prompt_finished(fourth.generation).is_some());
    let fifth = actor.accept_prompt();
    assert!(matches!(fifth.choice, TokenChoice::Kept(_)));
    assert!(!fifth.token.is_cancelled());
}

fn cleaning_up(message_id: &str) -> CleanupRun {
    let (mut run, action) = CleanupRun::start();
    assert!(matches!(action, CleanupAction::ReadFrame));
    let frame = revert_state("r".to_string(), "s", message_id, "x".to_string(), 0);
    assert!(matches!(
        run.on_event(CleanupEvent::FrameRead(Ok(Some(frame)))),
        CleanupAction::DeleteMessagesFrom { message_id: from } if from == message_id
    ));
    run
}

#[test]
fn cleaning_up_ends_with_the_frames() {
    let mut run = cleaning_up("m");
    assert!(matches!(
        run.on_event(CleanupEvent::MessagesDeleted(Ok(()))),
        CleanupAction::ReadJournal
    ));
    let journal = vec![
        JournalEvent { stream_seq: 4, prompt_message_id: None },
        JournalEvent { stream_seq: 5, prompt_message_id: Some("m".to_string()) },
    ];
    assert!(matches!(
        run.on_event(CleanupEvent::JournalRead(Ok(journal))),
        CleanupAction::PruneJournalFrom { stream_seq: 5 }
    ));
    assert!(matches!(
        run.on_event(CleanupEvent::JournalPruned(Ok(()))),
        CleanupAction::ClearFrames
    ));
    assert!(matches!(
        run.on_event(CleanupEvent::FramesCleared(Ok(()))),
        CleanupAction::Respond(Ok(()))
    ));
    assert_eq!(run.stage, CleanupStage::Finished);
    assert!(matches!(
        run.on_event(CleanupEvent::FramesCleared(Ok(()))),
        CleanupAction::Ignore
    ));
}

#[test]
fn without_a_frame_nothing_is_cleaned_up() {
    let (mut run, _) = CleanupRun::start();
    assert!(matches!(
        run.on_event(CleanupEvent::FrameRead(Ok(None))),
        CleanupAction::Respond(Ok(()))
    ));
    // A journal without the prompt is kept.
    let mut run = cleaning_up("m");
    run.on_event(CleanupEvent::MessagesDeleted(Ok(())));
    assert!(matches!(
        run.on_event(CleanupEvent::JournalRead(Ok(vec![]))),
        CleanupAction::ClearFrames
    ));
}

#[test]
fn providers_are_set_with_the_initial_instructions() {
    let (mut run, step) = ModelRun::set_provider(
        "s".to_string(),
        "openai".to_string(),
        "gpt".to_string(),
        vec!["initial".to_string()],
    );
    assert!(matches!(
        step.action,
        ModelAction::ReadCurrent { session_id } if session_id == "s"
    ));
    assert!(matches!(
        run.on_event(ModelEvent::CurrentRead(Ok(None))).action,
        ModelAction::CheckProvider { name } if name == "openai"
    ));
    match run.on_event(ModelEvent::ProviderChecked { installed: true }).action {
        ModelAction::CreateConfig(params) => {
            assert_eq!(params.provider, "openai");
            assert_eq!(params.model, Some("gpt".to_string()));
            assert_eq!(params.system, vec!["initial".to_string()]);
        }
        other => panic!("unexpected {other:?}"),
    }
}
