use querymt_agent::chat::{FinishReason, FunctionCall, StreamChunk, ToolCall, Usage};
use querymt_agent::events::AgentEventKind;
use querymt_agent::llm_call::{CallAction, CallEvent, CallStage, LlmCallRun};
use querymt_agent::model::{CacheHint, ChatMessage, ChatRole, MessagePart};
use querymt_agent::snapshots::{
    directory_figures, snapshot_metadata, FileMetadata, SnapshotPolicy, SnapshotSettings,
    SnapshotState,
};
use querymt_agent::tool_execution::{
    after_results, result_message, side_effect, side_effect_of, tool_route, CappedOutput,
    RecordedArguments, SideEffect, ToolAction, ToolEvent, ToolRoute, ToolRun, ToolSources,
    ToolStage, ToolTarget,
};
use querymt_agent::stamps::{fresh_id, MessageStamp};
use querymt_agent::tool_results::{StoreAction, StoreEvent, StoreRun};
use querymt_agent::transitions::{
    after_llm, apply_cache_breakpoints, assistant_message, before_llm_call, begin_llm_call,
    calculate_rate_limit_wait, collect_results, end_llm_call, extract_rate_limit_info, llm_path,
    match_wait_event, on_wait_signal, processing_step, progress_description, request_failure,
    resume_after_wait, updated_stats, wait_closed, wait_message, AgentStats, CollectFailure,
    CollectedTools, ConversationContext, DelegationOutcome, ExecutionState, LlmCall, LlmPath, LlmResponse, RetryLoop, RetryStep,
    StopType, StreamStep, StreamedAnswer, ToolResult, ToolStep, WaitCondition, WaitSignal,
    WaitStep,
};
use querymt_agent::turn_steps::{
    AnswerEvent, AnswerRun, TurnAction, TurnStep, WaitEvent, WaitRun,
};

fn chat(content: &str) -> ChatMessage {
    ChatMessage { role: ChatRole::User, content: content.to_string(), cache: None }
}

fn stats() -> AgentStats {
    AgentStats {
        total_input_tokens: 100,
        total_output_tokens: 50,
        reasoning_tokens: 5,
        cache_read_tokens: 3,
        cache_write_tokens: 2,
        context_tokens: 70,
        steps: 4,
        turns: 1,
    }
}

fn context() -> ConversationContext {
    ConversationContext {
        session_id: "s".to_string(),
        messages: vec![chat("hi")],
        stats: stats(),
        provider: "p".to_string(),
        model: "m".to_string(),
    }
}

fn usage() -> Usage {
    Usage { input_tokens: 10, output_tokens: 7, reasoning_tokens: 1, cache_read: 4, cache_write: 6 }
}

fn call(id: &str, name: &str) -> ToolCall {
    ToolCall {
        id: id.to_string(),
        call_type: "function".to_string(),
        function: FunctionCall { name: name.to_string(), arguments: "{}".to_string() },
    }
}

fn response(reason: Option<FinishReason>, calls: Vec<ToolCall>) -> LlmResponse {
    LlmResponse {
        content: "answer".to_string(),
        tool_calls: calls,
        usage: Some(usage()),
        finish_reason: reason,
    }
}

fn result(id: &str) -> ToolResult {
    ToolResult {
        call_id: id.to_string(),
        content: "done".to_string(),
        is_error: false,
        tool_name: Some("shell".to_string()),
        tool_arguments: Some("{}".to_string()),
        snapshot_part: None,
    }
}

#[test]
fn the_last_two_messages_are_cached() {
    let hint = Some(CacheHint::Ephemeral { ttl_seconds: None });
    let marked = apply_cache_breakpoints(&vec![chat("a"), chat("b"), chat("c")]);
    assert_eq!(marked[0].cache, None);
    assert_eq!(marked[1].cache, hint);
    assert_eq!(marked[2].cache, hint);
    assert_eq!(marked[2].content, "c");
    assert_eq!(apply_cache_breakpoints(&vec![chat("a")])[0].cache, None);
    assert!(apply_cache_breakpoints(&vec![]).is_empty());
}

#[test]
fn tools_are_announced_when_they_change() {
    let collected = |hash| {
        Ok(CollectedTools { tools: vec![r#"{"name":"shell"}"#.to_string()], hash })
    };
    let mut announced = None;
    let step = before_llm_call(false, context(), &mut announced, collected(7)).unwrap();
    assert!(matches!(step.next, ExecutionState::CallLlm { tools, .. } if tools.len() == 1));
    assert_eq!(
        step.announce_tools,
        Some(AgentEventKind::ToolsAvailable {
            tools: vec![r#"{"name":"shell"}"#.to_string()],
            tools_hash: 7,
        })
    );
    let step = before_llm_call(false, context(), &mut announced, collected(7)).unwrap();
    assert_eq!(step.announce_tools, None);
    let step = before_llm_call(false, context(), &mut announced, collected(8)).unwrap();
    assert!(step.announce_tools.is_some());
    let step = before_llm_call(true, context(), &mut announced, collected(9)).unwrap();
    assert!(matches!(step.next, ExecutionState::Cancelled));
    assert_eq!(
        before_llm_call(
            false,
            context(),
            &mut announced,
            Err(CollectFailure::Provider("no key".to_string())),
        )
        .unwrap_err(),
        "Failed to build provider: no key"
    );
    assert_eq!(
        before_llm_call(false, context(), &mut announced, Err(CollectFailure::Serialization))
            .unwrap_err(),
        "Failed to serialize tools for hash computation"
    );
    assert_eq!(announced, Some(8));
}

#[test]
fn models_are_called_in_three_ways() {
    assert_eq!(llm_path(false, "codex"), LlmPath::Plain);
    assert_eq!(llm_path(true, "codex"), LlmPath::Streaming);
    assert_eq!(llm_path(true, "other"), LlmPath::WithTools);
    assert_eq!(request_failure(LlmPath::Plain, "x"), "LLM request failed: x");
    assert_eq!(request_failure(LlmPath::WithTools, "x"), "LLM request with tools failed: x");
    match begin_llm_call(false, &context(), true) {
        LlmCall::Call { event, messages, path } => {
            assert_eq!(event, AgentEventKind::LlmRequestStart { message_count: 1 });
            assert_eq!(messages.len(), 1);
            assert_eq!(path, LlmPath::WithTools);
        }
        other => panic!("unexpected {other:?}"),
    }
    assert!(matches!(begin_llm_call(true, &context(), true), LlmCall::Cancelled));
}

#[test]
fn streams_are_put_together() {
    let mut answer = StreamedAnswer::new();
    let ok = |chunk| Ok::<StreamChunk, String>(chunk);
    assert_eq!(answer.take_item(false, ok(StreamChunk::Text("a".to_string()))), StreamStep::More);
    answer.take_item(false, ok(StreamChunk::Thinking("no".to_string())));
    answer.take_item(false, ok(StreamChunk::Text("b".to_string())));
    for _ in 0..2 {
        answer.take_item(
            false,
            ok(StreamChunk::ToolUseComplete { index: 0, tool_call: call("1", "shell") }),
        );
    }
    answer.take_item(false, ok(StreamChunk::Usage(usage())));
    let end = StreamChunk::Done { finish_reason: FinishReason::Length };
    assert_eq!(answer.take_chunk(end), StreamStep::End);
    let response = answer.finish();
    assert_eq!(response.content, "ab");
    assert_eq!(response.tool_calls.len(), 1);
    assert_eq!(response.usage, Some(usage()));
    assert_eq!(response.finish_reason, Some(FinishReason::ToolCalls));
    assert_eq!(StreamedAnswer::new().finish().finish_reason, Some(FinishReason::Stop));

    let mut answer = StreamedAnswer::new();
    assert_eq!(
        answer.take_item(false, Err("gone".to_string())),
        StreamStep::Failed("LLM streaming request with tools failed: gone".to_string())
    );
    assert_eq!(
        answer.take_item(true, ok(StreamChunk::Text("x".to_string()))),
        StreamStep::Cancelled
    );
}

#[test]
fn calls_end_with_their_figures() {
    let received = LlmResponse::received(None, None, Some(usage()), None);
    assert_eq!(received.content, "");
    assert!(!received.has_tool_calls());
    let (event, next) = end_llm_call(received, context(), 90);
    assert_eq!(
        event,
        AgentEventKind::LlmRequestEnd {
            usage: Some(usage()),
            tool_calls: 0,
            finish_reason: None,
            context_tokens: 90,
            steps: 5,
            turns: 1,
        }
    );
    assert!(matches!(next, ExecutionState::AfterLlm { .. }));
}

#[test]
fn answers_are_stored_with_their_calls() {
    let answer = response(None, vec![call("1", "shell"), call("2", "mdq")]);
    assert_eq!(progress_description(&answer), "Received response with 2 tool call(s)");
    let message = assistant_message(&answer, "s", "id".to_string(), 5);
    assert_eq!(message.parts.len(), 3);
    assert_eq!(message.parts[0], MessagePart::Text { content: "answer".to_string() });
    assert!(matches!(&message.parts[2], MessagePart::ToolUse(stored) if stored.id == "2"));
    let silent = LlmResponse::received(None, None, None, None);
    assert_eq!(progress_description(&silent), "Received response from LLM");
    assert!(assistant_message(&silent, "s", "id".to_string(), 5).parts.is_empty());
}

#[test]
fn figures_add_up() {
    let after = updated_stats(&stats(), Some(usage()), 90);
    assert_eq!(after.total_input_tokens, 110);
    assert_eq!(after.total_output_tokens, 57);
    assert_eq!(after.reasoning_tokens, 6);
    assert_eq!(after.cache_read_tokens, 7);
    assert_eq!(after.cache_write_tokens, 8);
    assert_eq!(after.context_tokens, 90);
    assert_eq!(after.steps, 5);
    assert_eq!(updated_stats(&stats(), None, 90), stats());
}

#[test]
fn finish_reasons_decide_what_follows() {
    let go = |reason, calls| {
        after_llm(false, response(reason, calls), context(), chat("answer"), 90, true)
    };
    for reason in [Some(FinishReason::ToolCalls), Some(FinishReason::Unknown), None] {
        match go(reason, vec![call("1", "shell")]).next {
            ExecutionState::ProcessingToolCalls { remaining_calls, results, context } => {
                assert_eq!(remaining_calls.len(), 1);
                assert!(results.is_empty());
                assert_eq!(context.messages.len(), 2);
                assert_eq!(context.stats.steps, 5);
            }
            other => panic!("unexpected {other:?}"),
        }
        assert!(matches!(go(reason, vec![]).next, ExecutionState::Complete));
    }
    let stopped = go(Some(FinishReason::Stop), vec![call("1", "shell")]);
    assert!(matches!(stopped.next, ExecutionState::Complete));
    assert!(stopped.completes_task);
    match go(Some(FinishReason::Length), vec![]).next {
        ExecutionState::Stopped { message, stop_type, context } => {
            assert_eq!(message, "Model hit token limit");
            assert_eq!(stop_type, StopType::ModelTokenLimit);
            assert!(context.is_some());
        }
        other => panic!("unexpected {other:?}"),
    }
    match go(Some(FinishReason::ContentFilter), vec![]).next {
        ExecutionState::Stopped { message, stop_type, .. } => {
            assert_eq!(message, "Response blocked by content filter");
            assert_eq!(stop_type, StopType::ContentFilter);
        }
        other => panic!("unexpected {other:?}"),
    }
    assert!(matches!(
        after_llm(true, response(None, vec![]), context(), chat("a"), 0, true).next,
        ExecutionState::Cancelled
    ));
}

#[test]
fn tool_calls_are_run_and_then_stored() {
    assert_eq!(processing_step(true, 3), ToolStep::Cancelled);
    assert_eq!(processing_step(false, 3), ToolStep::RunAll);
    assert_eq!(processing_step(false, 0), ToolStep::StoreResults);
    match collect_results(vec![result("1")], vec![Ok(result("2")), Ok(result("3"))], context()) {
        Ok(ExecutionState::ProcessingToolCalls { remaining_calls, results, .. }) => {
            assert!(remaining_calls.is_empty());
            let ids: Vec<&str> = results.iter().map(|r| r.call_id.as_str()).collect();
            assert_eq!(ids, vec!["1", "2", "3"]);
        }
        other => panic!("unexpected {other:?}"),
    }
    let failed = collect_results(
        vec![],
        vec![Ok(result("1")), Err("first".to_string()), Err("second".to_string())],
        context(),
    );
    assert_eq!(failed.unwrap_err(), "first");
}

fn wait_for(ids: &[&str]) -> WaitCondition {
    WaitCondition { correlation_ids: ids.iter().map(|id| id.to_string()).collect() }
}

fn completed(id: &str, summary: Option<&str>) -> AgentEventKind {
    AgentEventKind::DelegationCompleted {
        delegation_id: id.to_string(),
        summary: summary.map(|s| s.to_string()),
    }
}

#[test]
fn turns_wait_for_their_delegations() {
    let wait = wait_for(&["d1"]);
    assert_eq!(
        match_wait_event(&wait, &completed("d1", None)),
        Some(DelegationOutcome::Completed {
            delegation_id: "d1".to_string(),
            summary: "No summary provided.".to_string(),
        })
    );
    assert_eq!(match_wait_event(&wait, &completed("d2", Some("x"))), None);
    assert!(match_wait_event(&wait_for(&[]), &completed("d2", Some("x"))).is_some());
    let failed = AgentEventKind::DelegationFailed {
        delegation_id: "d1".to_string(),
        error: "bad".to_string(),
    };
    assert_eq!(
        match_wait_event(&wait, &failed),
        Some(DelegationOutcome::Failed {
            delegation_id: "d1".to_string(),
            error: "bad".to_string(),
        })
    );
    assert_eq!(match_wait_event(&wait, &AgentEventKind::SessionCreated), None);

    let event = |session: &str| WaitSignal::Event {
        session_id: session.to_string(),
        kind: completed("d1", Some("ok")),
    };
    assert!(matches!(on_wait_signal(&wait, "s", &event("s")), WaitStep::Resume(_)));
    assert!(matches!(on_wait_signal(&wait, "s", &event("t")), WaitStep::KeepWaiting));
    assert!(matches!(on_wait_signal(&wait, "s", &WaitSignal::Lagged), WaitStep::KeepWaiting));
    assert!(matches!(on_wait_signal(&wait, "s", &WaitSignal::Closed), WaitStep::Closed));
    assert!(matches!(
        on_wait_signal(&wait, "s", &WaitSignal::CancelFlag(true)),
        WaitStep::Cancelled
    ));
    assert!(matches!(
        on_wait_signal(&wait, "s", &WaitSignal::CancelFlag(false)),
        WaitStep::KeepWaiting
    ));
    match wait_closed(context()) {
        ExecutionState::Stopped { message, .. } => {
            assert_eq!(message, "Event stream closed while waiting")
        }
        other => panic!("unexpected {other:?}"),
    }
    match resume_after_wait(context(), chat("news")) {
        ExecutionState::BeforeLlmCall { context } => assert_eq!(context.messages.len(), 2),
        other => panic!("unexpected {other:?}"),
    }
    let stored = wait_message("news".to_string(), "s", "id".to_string(), 3);
    assert_eq!(stored.role, ChatRole::User);
    assert_eq!(stored.parts, vec![MessagePart::Text { content: "news".to_string() }]);
}

#[test]
fn rate_limits_are_recognised() {
    for message in ["HTTP 429", "Rate Limit reached", "Too Many Requests"] {
        assert_eq!(
            extract_rate_limit_info(message),
            Some((message.to_string(), None)),
            "{message}"
        );
    }
    assert_eq!(extract_rate_limit_info("no route to host"), None);
    assert_eq!(calculate_rate_limit_wait(Some(9), 2), 9);
    assert_eq!(calculate_rate_limit_wait(None, 2), 2);
}

#[test]
fn rate_limited_calls_are_made_again() {
    let mut attempts = RetryLoop::new(2);
    assert!(attempts.begin(false).is_ok());
    assert_eq!(
        attempts.after_failure("RATE LIMIT"),
        RetryStep::Wait { message: "RATE LIMIT".to_string(), retry_after: None }
    );
    assert_eq!(
        attempts.waiting_event("RATE LIMIT", 4, 100),
        AgentEventKind::RateLimited {
            message: "RATE LIMIT".to_string(),
            wait_secs: 4,
            started_at: 100,
            attempt: 1,
            max_attempts: 2,
        }
    );
    assert_eq!(attempts.resume(false), Ok(AgentEventKind::RateLimitResume { attempt: 2 }));
    assert_eq!(attempts.resume(true), Err("Cancelled during rate limit wait".to_string()));
    assert!(attempts.begin(false).is_ok());
    assert_eq!(
        attempts.after_failure("429"),
        RetryStep::Fail("Rate limit exceeded after 2 attempts: 429".to_string())
    );
    assert_eq!(
        RetryLoop::new(2).after_failure("broken"),
        RetryStep::Fail("broken".to_string())
    );
    assert_eq!(RetryLoop::new(2).begin(true), Err("Cancelled".to_string()));
}

fn sources(allowed: bool, registry: bool, runtime: bool, mcp: bool) -> ToolSources {
    ToolSources { allowed, in_registry: registry, has_runtime: runtime, in_mcp: mcp }
}

#[test]
fn tools_are_found_in_order() {
    assert_eq!(tool_route(sources(false, true, true, true)), ToolRoute::NotAllowed);
    assert_eq!(tool_route(sources(true, true, true, true)), ToolRoute::Call(ToolTarget::Registry));
    assert_eq!(tool_route(sources(true, false, true, true)), ToolRoute::Call(ToolTarget::Mcp));
    assert_eq!(tool_route(sources(true, false, true, false)), ToolRoute::AskPermission);
    assert_eq!(
        tool_route(sources(true, false, false, false)),
        ToolRoute::Call(ToolTarget::Provider)
    );
}

fn settings(policy: SnapshotPolicy) -> SnapshotSettings {
    SnapshotSettings {
        policy,
        root: Some("/w".to_string()),
        mutating_tools: vec!["write_file".to_string()],
        all_tools_mutate: false,
    }
}

#[test]
fn calls_are_surrounded_by_snapshots() {
    let (mut run, step) = ToolRun::start(call("1", "write_file"), &settings(SnapshotPolicy::Diff));
    assert_eq!(step.emit.len(), 2);
    assert_eq!(step.emit[1], AgentEventKind::SnapshotStart { policy: SnapshotPolicy::Diff });
    assert!(matches!(
        step.action,
        ToolAction::ScanTree { root } if root == "/w"
    ));
    assert!(matches!(
        run.on_event(ToolEvent::ProgressRecorded(Ok(6))).action,
        ToolAction::Ignore
    ));
    assert_eq!(run.stage, ToolStage::ScanningTree);
    let step = run.on_event(ToolEvent::TreeScanned);
    assert!(matches!(
        step.action,
        ToolAction::RecordProgress { description, arguments }
            if description == "Calling tool: write_file" && arguments == run.call.function.arguments
    ));
    let step = run.on_event(ToolEvent::ProgressRecorded(Ok(6)));
    assert_eq!(step.emit, vec![AgentEventKind::ProgressRecorded { entry: 6 }]);
    assert!(matches!(step.action, ToolAction::FindTool));
    assert!(matches!(
        run.on_event(ToolEvent::ToolFound(Ok(sources(true, false, true, false)))).action,
        ToolAction::AskPermission { arguments } if arguments == "{}"
    ));
    assert!(matches!(
        run.on_event(ToolEvent::PermissionChecked(Ok(true))).action,
        ToolAction::CallTool { target: ToolTarget::Provider, arguments } if arguments == "{}"
    ));
    assert!(matches!(
        run.on_event(ToolEvent::Returned(Ok("long output".to_string()))).action,
        ToolAction::CapOutput
    ));
    let capped = CappedOutput { content: "long".to_string(), note: "[cut]".to_string() };
    let step = run.on_event(ToolEvent::OutputCapped(Some(capped)));
    assert_eq!(
        step.emit,
        vec![AgentEventKind::ToolCallEnd {
            tool_call_id: "1".to_string(),
            tool_name: "write_file".to_string(),
            is_error: false,
            result: "long[cut]".to_string(),
        }]
    );
    assert!(matches!(
        step.action,
        ToolAction::TakeSnapshot { root, policy: SnapshotPolicy::Diff } if root == "/w"
    ));
    let step = run.on_event(ToolEvent::SnapshotTaken {
        root_hash: 9,
        changed_paths: Some(vec!["a.txt".to_string()]),
        summary: "1 file".to_string(),
    });
    assert_eq!(
        step.emit,
        vec![AgentEventKind::SnapshotEnd { summary: Some("1 file".to_string()) }]
    );
    match step.action {
        ToolAction::Finish(result) => {
            assert_eq!(result.content, "long[cut]");
            assert_eq!(
                result.snapshot_part,
                Some(MessagePart::Snapshot {
                    root_hash: 9,
                    changed_paths: Some(vec!["a.txt".to_string()]),
                    diff_summary: None,
                })
            );
        }
        other => panic!("unexpected {other:?}"),
    }
    assert_eq!(run.stage, ToolStage::Finished);
    assert!(matches!(
        run.on_event(ToolEvent::PermissionChecked(Ok(true))).action,
        ToolAction::Ignore
    ));
}

fn at_lookup() -> ToolRun {
    let (mut run, step) = ToolRun::start(call("1", "shell"), &settings(SnapshotPolicy::Diff));
    assert_eq!(step.emit.len(), 1);
    run.on_event(ToolEvent::ProgressRecorded(Ok(1)));
    run
}

fn finished(action: ToolAction) -> ToolResult {
    match action {
        ToolAction::Finish(result) => result,
        other => panic!("unexpected {other:?}"),
    }
}

#[test]
fn failed_calls_say_why() {
    let mut run = at_lookup();
    let step = run.on_event(ToolEvent::ToolFound(Ok(sources(false, true, true, true))));
    let result = finished(step.action);
    assert_eq!(result.content, "Error: tool 'shell' is not allowed");
    assert!(result.is_error);

    let mut run = at_lookup();
    run.on_event(ToolEvent::ToolFound(Ok(sources(true, false, true, false))));
    let step = run.on_event(ToolEvent::PermissionChecked(Ok(false)));
    assert_eq!(finished(step.action).content, "Error: permission denied");

    let mut run = at_lookup();
    run.on_event(ToolEvent::ToolFound(Ok(sources(true, true, true, false))));
    let step = run.on_event(ToolEvent::Returned(Err("no such file".to_string())));
    assert_eq!(finished(step.action).content, "Error: no such file");

    let mut run = at_lookup();
    run.on_event(ToolEvent::ToolFound(Ok(sources(true, true, true, false))));
    run.on_event(ToolEvent::Returned(Ok("short".to_string())));
    let result = finished(run.on_event(ToolEvent::OutputCapped(None)).action);
    assert_eq!(result.content, "short");
    assert!(!result.is_error);

    let fails = |action| match action {
        ToolAction::Fail(words) => words,
        other => panic!("unexpected {other:?}"),
    };
    let (mut run, _) = ToolRun::start(call("1", "shell"), &settings(SnapshotPolicy::Off));
    let step = run.on_event(ToolEvent::ProgressRecorded(Err("x".to_string())));
    assert_eq!(fails(step.action), "Failed to record progress: x");
    let step = at_lookup().on_event(ToolEvent::ToolFound(Err("x".to_string())));
    assert_eq!(fails(step.action), "Failed to get provider context: x");
    let mut run = at_lookup();
    run.on_event(ToolEvent::ToolFound(Ok(sources(true, false, true, false))));
    let step = run.on_event(ToolEvent::PermissionChecked(Err("x".to_string())));
    assert_eq!(fails(step.action), "Permission check failed: x");
}

fn tool_result(name: &str, arguments: Option<&str>, is_error: bool) -> ToolResult {
    ToolResult {
        call_id: "1".to_string(),
        content: "ok".to_string(),
        is_error,
        tool_name: Some(name.to_string()),
        tool_arguments: arguments.map(|a| a.to_string()),
        snapshot_part: None,
    }
}

#[test]
fn tools_leave_files_and_delegations() {
    match side_effect(&tool_result("write_file", Some(r#"{"path":"/a"}"#), false)) {
        SideEffect::Artifact { kind, path, summary } => {
            assert_eq!(kind, "file");
            assert_eq!(path.as_deref(), Some("/a"));
            assert_eq!(summary, "Produced by write_file");
        }
        other => panic!("unexpected {other:?}"),
    }
    let arguments = r#"{"target_agent_id":"coder","objective":"do","context":"c","constraints":1}"#;
    match side_effect(&tool_result("delegate", Some(arguments), false)) {
        SideEffect::Delegation {
            target_agent_id,
            objective,
            context,
            constraints,
            expected_output,
        } => {
            assert_eq!(target_agent_id, "coder");
            assert_eq!(objective, "do");
            assert_eq!(context.as_deref(), Some("c"));
            assert_eq!(constraints, None);
            assert_eq!(expected_output, None);
        }
        other => panic!("unexpected {other:?}"),
    }
    match side_effect(&tool_result("delegate", None, false)) {
        SideEffect::Delegation { target_agent_id, .. } => assert_eq!(target_agent_id, ""),
        other => panic!("unexpected {other:?}"),
    }
    assert!(matches!(
        side_effect(&tool_result("write_file", Some("{}"), true)),
        SideEffect::Nothing
    ));
    assert!(matches!(side_effect(&tool_result("shell", None, false)), SideEffect::Nothing));
    let read = RecordedArguments::read("not json");
    assert!(matches!(side_effect_of(false, &None, read), SideEffect::Nothing));
}

#[test]
fn results_enter_the_conversation() {
    let mut with_snapshot = result("1");
    with_snapshot.snapshot_part =
        Some(MessagePart::Snapshot { root_hash: 1, changed_paths: None, diff_summary: None });
    let message = result_message(with_snapshot, "s", "id".to_string(), 4);
    assert_eq!(message.parts.len(), 2);
    assert!(matches!(
        &message.parts[0],
        MessagePart::ToolResult { call_id, compacted_at: None, .. } if call_id == "1"
    ));
    assert_eq!(result_message(result("2"), "s", "id".to_string(), 4).parts.len(), 1);

    match after_results(context(), vec![chat("r1"), chat("r2")], vec![]) {
        ExecutionState::BeforeTurn { context } => assert_eq!(context.messages.len(), 3),
        other => panic!("unexpected {other:?}"),
    }
    let waits = vec![
        WaitCondition::delegation("d1".to_string()),
        WaitCondition::delegation("d2".to_string()),
    ];
    match after_results(context(), vec![chat("r1")], waits) {
        ExecutionState::WaitingForEvent { context, wait } => {
            assert_eq!(context.messages.len(), 2);
            assert_eq!(wait.correlation_ids, vec!["d1", "d2"]);
        }
        other => panic!("unexpected {other:?}"),
    }
    assert!(WaitCondition::merge(vec![]).is_none());
}

#[test]
fn snapshots_are_taken_where_they_are_wanted() {
    let on = settings(SnapshotPolicy::Metadata);
    assert!(on.should_snapshot_tool("write_file"));
    assert!(!on.should_snapshot_tool("shell"));
    assert_eq!(on.prepare_snapshot(), Some(("/w".to_string(), SnapshotPolicy::Metadata)));
    assert_eq!(on.snapshot_for("shell"), None);
    assert_eq!(settings(SnapshotPolicy::Off).prepare_snapshot(), None);
    let rootless = SnapshotSettings { root: None, ..settings(SnapshotPolicy::Diff) };
    assert_eq!(rootless.snapshot_for("write_file"), None);
    let all = SnapshotSettings { all_tools_mutate: true, ..settings(SnapshotPolicy::Diff) };
    assert!(all.snapshot_for("shell").is_some());
    let begun: SnapshotState<u64> = SnapshotState::Diff { pre_tree: 1, root: "/w".to_string() };
    assert!(matches!(begun, SnapshotState::Diff { pre_tree: 1, .. }));
}

#[test]
fn test_snapshot_metadata() {
    let files = vec![FileMetadata { len: 11, modified_secs: Some(1_700_000_000) }];
    let figures = directory_figures(&files);
    let (part, summary) = snapshot_metadata(&figures, 99);
    match part {
        MessagePart::Snapshot { root_hash, changed_paths, diff_summary } => {
            assert_eq!(changed_paths, None);
            assert_ne!(root_hash, 0);
            let summary = diff_summary.unwrap();
            assert!(summary.contains("Files: 1"));
            assert!(summary.contains("Bytes: 11"));
        }
        other => panic!("unexpected {other:?}"),
    }
    assert!(summary.is_some());
    assert_eq!(figures.key(), "files=1,bytes=11,mtime=1700000000");
}

#[test]
fn figures_of_directories_are_sums_and_maxima() {
    let files = vec![
        FileMetadata { len: 5, modified_secs: Some(30) },
        FileMetadata { len: 7, modified_secs: None },
        FileMetadata { len: 1, modified_secs: Some(20) },
    ];
    let figures = directory_figures(&files);
    assert_eq!(figures.summary(), "Files: 3, Bytes: 13, Latest mtime: 30");
    assert_eq!(directory_figures(&vec![]).key(), "files=0,bytes=0,mtime=0");
}

fn one_tool() -> Vec<String> {
    vec![r#"{"name":"shell"}"#.to_string()]
}

fn failed_call(reason: &str) -> CallEvent {
    CallEvent::CallFailed { reason: reason.to_string(), backoff_secs: 2, started_at: 50 }
}

#[test]
fn plain_calls_are_made_again_after_a_rate_limit() {
    let (mut run, step) = LlmCallRun::start(context(), &vec![], 2, false);
    assert_eq!(step.emit, vec![AgentEventKind::LlmRequestStart { message_count: 1 }]);
    assert!(matches!(step.action, CallAction::CallModel { with_tools: false }));
    let step = run.on_event(failed_call("HTTP 429"));
    assert!(matches!(
        &step.emit[0],
        AgentEventKind::RateLimited { message, wait_secs: 2, started_at: 50, attempt: 1, .. }
            if message == "LLM request failed: HTTP 429"
    ));
    assert!(matches!(step.action, CallAction::Wait { secs: 2 }));
    let step = run.on_event(CallEvent::WaitOver { interrupted: false, cancelled: false });
    assert_eq!(step.emit, vec![AgentEventKind::RateLimitResume { attempt: 2 }]);
    assert!(matches!(step.action, CallAction::CallModel { .. }));
    assert!(matches!(
        run.on_event(failed_call("HTTP 429")).action,
        CallAction::Fail(words)
            if words == "Rate limit exceeded after 2 attempts: LLM request failed: HTTP 429"
    ));
    assert_eq!(run.stage, CallStage::Finished);
}

#[test]
fn calls_with_tools_end_with_their_figures() {
    let (mut run, step) = LlmCallRun::start(context(), &one_tool(), 3, false);
    assert!(matches!(step.action, CallAction::BuildProvider));
    let built = CallEvent::ProviderBuilt { result: Ok(()), cancelled: false };
    assert!(matches!(
        run.on_event(built).action,
        CallAction::CallModel { with_tools: true }
    ));
    let answer = response(Some(FinishReason::Stop), vec![]);
    assert!(matches!(
        run.on_event(CallEvent::Answered(answer)).action,
        CallAction::CountTokens { usage: Some(_) }
    ));
    let step = run.on_event(CallEvent::TokensCounted(90));
    assert!(matches!(
        step.emit[0],
        AgentEventKind::LlmRequestEnd { context_tokens: 90, steps: 5, turns: 1, .. }
    ));
    assert!(matches!(
        step.action,
        CallAction::Next(ExecutionState::AfterLlm { response, .. }) if response.content == "answer"
    ));
}

#[test]
fn one_provider_is_called_as_a_stream() {
    let codex = ConversationContext { provider: "codex".to_string(), ..context() };
    let (mut run, _) = LlmCallRun::start(codex, &one_tool(), 3, false);
    let built = CallEvent::ProviderBuilt { result: Ok(()), cancelled: false };
    assert!(matches!(run.on_event(built).action, CallAction::OpenStream));
    assert!(matches!(
        run.on_event(CallEvent::StreamOpened(Ok(()))).action,
        CallAction::ReadStream
    ));
    let item = |chunk| CallEvent::StreamItem { item: Some(Ok(chunk)), cancelled: false };
    run.on_event(item(StreamChunk::Text("a".to_string())));
    assert!(matches!(
        run.on_event(CallEvent::StreamItem { item: None, cancelled: true }).action,
        CallAction::CountTokens { usage: None }
    ));
    assert!(matches!(
        run.on_event(CallEvent::TokensCounted(1)).action,
        CallAction::Next(ExecutionState::AfterLlm { response, .. })
            if response.content == "a" && response.finish_reason == Some(FinishReason::Stop)
    ));
}

#[test]
fn calls_that_fail_or_are_cancelled_say_so() {
    let words = |action| match action {
        CallAction::Fail(words) => words,
        other => panic!("unexpected {other:?}"),
    };
    let (_, step) = LlmCallRun::start(context(), &vec![], 3, true);
    assert!(step.emit.is_empty());
    assert!(matches!(step.action, CallAction::Next(ExecutionState::Cancelled)));
    let plain = || LlmCallRun::start(context(), &vec![], 3, false).0;
    assert_eq!(words(plain().on_event(CallEvent::CallCancelled).action), "Cancelled");
    assert_eq!(words(plain().on_event(failed_call("down")).action), "LLM request failed: down");
    let mut run = plain();
    run.on_event(failed_call("too many requests"));
    let over = CallEvent::WaitOver { interrupted: true, cancelled: true };
    assert_eq!(words(run.on_event(over).action), "Cancelled during rate limit wait");
    let mut run = plain();
    run.on_event(failed_call("rate limit"));
    let step = run.on_event(CallEvent::WaitOver { interrupted: false, cancelled: true });
    assert_eq!(step.emit.len(), 1);
    assert_eq!(words(step.action), "Cancelled");
    let (mut run, _) = LlmCallRun::start(context(), &one_tool(), 3, false);
    let built = CallEvent::ProviderBuilt { result: Err("x".to_string()), cancelled: false };
    assert_eq!(words(run.on_event(built).action), "Failed to build provider: x");
}

fn progressed(result: Result<u64, String>) -> AnswerEvent {
    AnswerEvent::ProgressRecorded { result, message_id: "m".to_string(), created_at: 5 }
}

fn stored(result: Result<(), String>, has_active_task: bool) -> AnswerEvent {
    AnswerEvent::MessageStored {
        result,
        answer: chat("answer"),
        context_tokens: 90,
        has_active_task,
    }
}

#[test]
fn answers_are_recorded_stored_and_followed() {
    let begin = |reason| AnswerRun::start("s".to_string(), false, response(reason, vec![]), context());
    let (mut run, step) = begin(Some(FinishReason::Stop));
    assert!(matches!(
        step.action,
        TurnAction::RecordProgress { description } if description == "Received response from LLM"
    ));
    let step = run.on_event(progressed(Ok(8)));
    assert_eq!(step.emit, Some(AgentEventKind::ProgressRecorded { entry: 8 }));
    match step.action {
        TurnAction::StoreMessage { show, message } => {
            assert_eq!(show.as_deref(), Some("answer"));
            assert_eq!(message.id, "m");
            assert_eq!(message.session_id, "s");
        }
        other => panic!("unexpected {other:?}"),
    }
    let step = run.on_event(stored(Ok(()), true));
    assert_eq!(
        step.emit,
        Some(AgentEventKind::AssistantMessageStored {
            content: "answer".to_string(),
            message_id: Some("m".to_string()),
        })
    );
    assert!(matches!(step.action, TurnAction::CompleteTask));
    let step = run.on_event(AnswerEvent::TaskCompleted { task: Some(3) });
    assert_eq!(step.emit, Some(AgentEventKind::TaskStatusChanged { task: 3 }));
    assert!(matches!(step.action, TurnAction::Next(ExecutionState::Complete)));

    let (mut run, _) = begin(Some(FinishReason::Length));
    run.on_event(progressed(Ok(8)));
    assert!(matches!(
        run.on_event(stored(Ok(()), true)).action,
        TurnAction::Next(ExecutionState::Stopped { .. })
    ));
    let words = |step: TurnStep| match step.action {
        TurnAction::Fail(words) => words,
        other => panic!("unexpected {other:?}"),
    };
    let (mut run, _) = begin(None);
    assert_eq!(
        words(run.on_event(progressed(Err("x".to_string())))),
        "Failed to record progress: x"
    );
    let (mut run, _) = begin(None);
    run.on_event(progressed(Ok(8)));
    assert_eq!(
        words(run.on_event(stored(Err("x".to_string()), false))),
        "Failed to store assistant message: x"
    );
    let (_, step) = AnswerRun::start("s".to_string(), true, response(None, vec![]), context());
    assert!(matches!(step.action, TurnAction::Next(ExecutionState::Cancelled)));
}

#[test]
fn waits_end_when_the_news_is_stored() {
    let (mut run, step) = WaitRun::start("s".to_string(), false, wait_for(&["d1"]), context());
    assert!(matches!(step.action, TurnAction::AwaitSignal));
    let event = |session: &str, id: &str| {
        WaitEvent::Signal(WaitSignal::Event {
            session_id: session.to_string(),
            kind: completed(id, Some("ok")),
        })
    };
    assert!(matches!(run.on_event(event("t", "d1")).action, TurnAction::AwaitSignal));
    assert!(matches!(run.on_event(event("s", "d2")).action, TurnAction::AwaitSignal));
    assert!(matches!(run.on_event(event("s", "d1")).action, TurnAction::TellNews(_)));
    let told = WaitEvent::NewsTold {
        content: "d1 is done".to_string(),
        message_id: "m".to_string(),
        created_at: 1,
    };
    assert!(matches!(
        run.on_event(told).action,
        TurnAction::StoreMessage { show: None, message } if message.role == ChatRole::User
    ));
    let step = run.on_event(WaitEvent::NewsStored { result: Ok(()), news: chat("news") });
    assert_eq!(
        step.emit,
        Some(AgentEventKind::UserMessageStored { content: "d1 is done".to_string() })
    );
    assert!(matches!(
        step.action,
        TurnAction::Next(ExecutionState::BeforeLlmCall { context }) if context.messages.len() == 2
    ));

    let (mut run, _) = WaitRun::start("s".to_string(), false, wait_for(&[]), context());
    assert!(matches!(
        run.on_event(WaitEvent::Signal(WaitSignal::Closed)).action,
        TurnAction::Next(ExecutionState::Stopped { .. })
    ));
    let (mut run, _) = WaitRun::start("s".to_string(), false, wait_for(&[]), context());
    assert!(matches!(
        run.on_event(WaitEvent::Signal(WaitSignal::CancelFlag(true))).action,
        TurnAction::Next(ExecutionState::Cancelled)
    ));
    let (_, step) = WaitRun::start("s".to_string(), true, wait_for(&[]), context());
    assert!(matches!(step.action, TurnAction::Next(ExecutionState::Cancelled)));
}

fn stamp(id: &str) -> MessageStamp {
    MessageStamp { message_id: id.to_string(), created_at: 3 }
}

#[test]
fn results_are_stored_one_after_the_other() {
    let results = vec![
        tool_result("write_file", Some(r#"{"path":"/a"}"#), false),
        tool_result("delegate", Some(r#"{"target_agent_id":"coder"}"#), false),
        tool_result("shell", None, false),
    ];
    let (mut run, action) = StoreRun::start("s".to_string(), results, context());
    assert!(matches!(action, StoreAction::GetProvider));
    assert!(matches!(
        run.on_event(StoreEvent::ProviderReady(Ok(())), stamp("m1")).action,
        StoreAction::StoreResult(message) if message.id == "m1"
    ));
    let ok = || StoreEvent::ResultStored { result: Ok(()), message: chat("r") };
    assert!(matches!(
        run.on_event(ok(), stamp("-")).action,
        StoreAction::RecordArtifact(SideEffect::Artifact { path: Some(path), .. }) if path == "/a"
    ));
    let step = run.on_event(StoreEvent::ArtifactRecorded(Ok(4)), stamp("m2"));
    assert_eq!(step.emit, Some(AgentEventKind::ArtifactRecorded { artifact: 4 }));
    assert!(matches!(step.action, StoreAction::StoreResult(message) if message.id == "m2"));
    assert!(matches!(
        run.on_event(ok(), stamp("-")).action,
        StoreAction::RecordDelegation(SideEffect::Delegation { .. })
    ));
    let recorded = StoreEvent::DelegationRecorded(Ok("d1".to_string()));
    let step = run.on_event(recorded, stamp("m3"));
    assert_eq!(
        step.emit,
        Some(AgentEventKind::DelegationRequested { delegation_id: "d1".to_string() })
    );
    assert!(matches!(step.action, StoreAction::StoreResult(message) if message.id == "m3"));
    match run.on_event(ok(), stamp("-")).action {
        StoreAction::Next(ExecutionState::WaitingForEvent { context, wait }) => {
            assert_eq!(context.messages.len(), 4);
            assert_eq!(wait.correlation_ids, vec!["d1"]);
        }
        other => panic!("unexpected {other:?}"),
    }
    let (mut run, _) = StoreRun::start("s".to_string(), vec![result("1")], context());
    assert!(matches!(
        run.on_event(StoreEvent::ProviderReady(Err("x".to_string())), stamp("-")).action,
        StoreAction::Fail(words) if words == "Failed to get provider context: x"
    ));
    let (mut run, _) = StoreRun::start("s".to_string(), vec![result("1")], context());
    run.on_event(StoreEvent::ProviderReady(Ok(())), stamp("m"));
    let failed = StoreEvent::ResultStored { result: Err("x".to_string()), message: chat("r") };
    assert!(matches!(
        run.on_event(failed, stamp("-")).action,
        StoreAction::Fail(words) if words == "Failed to store tool result: x"
    ));
    let (mut run, _) = StoreRun::start("s".to_string(), vec![], context());
    assert!(matches!(
        run.on_event(StoreEvent::ProviderReady(Ok(())), stamp("-")).action,
        StoreAction::Next(ExecutionState::BeforeTurn { .. })
    ));
}

fn assert_is_fresh_id(id: &str) {
    let parts: Vec<&str> = id.split('-').collect();
    let lengths: Vec<usize> = parts.iter().map(|part| part.len()).collect();
    assert_eq!(lengths, vec![8, 4, 4, 4, 12]);
    assert!(id.chars().all(|c| c == '-' || c.is_ascii_digit() || ('a'..='f').contains(&c)));
    assert!(parts[2].starts_with('4'));
    assert!(parts[3].starts_with(['8', '9', 'a', 'b']));
}

#[test]
fn fresh_ids_are_random_uuids() {
    let first = fresh_id();
    let second = fresh_id();
    assert_is_fresh_id(&first);
    assert_is_fresh_id(&second);
    assert_ne!(first, second);
}

#[test]
fn stamps_carry_an_id_and_the_time() {
    let stamp = MessageStamp::fresh();
    assert_is_fresh_id(&stamp.message_id);
    assert!(stamp.created_at > 1_600_000_000);
}

#[test]
fn malformed_arguments_become_an_empty_object() {
    let mut malformed = call("1", "write_file");
    malformed.function.arguments = "{not json".to_string();
    let (mut run, step) = ToolRun::start(malformed, &settings(SnapshotPolicy::Metadata));
    assert!(matches!(
        step.action,
        ToolAction::RecordProgress { arguments, .. } if arguments == "null"
    ));
    run.on_event(ToolEvent::ProgressRecorded(Ok(1)));
    assert!(matches!(
        run.on_event(ToolEvent::ToolFound(Ok(sources(true, true, false, false)))).action,
        ToolAction::CallTool { arguments, .. } if arguments == "{}"
    ));
    run.on_event(ToolEvent::Returned(Ok("short".to_string())));
    run.on_event(ToolEvent::OutputCapped(None));
    let step = run.on_event(ToolEvent::SnapshotTaken {
        root_hash: 9,
        changed_paths: None,
        summary: "Files: 1".to_string(),
    });
    assert_eq!(
        finished(step.action).snapshot_part,
        Some(MessagePart::Snapshot {
            root_hash: 9,
            changed_paths: None,
            diff_summary: Some("Files: 1".to_string()),
        })
    );
}

#[test]
fn well_formed_arguments_are_handed_on() {
    let mut well_formed = call("1", "shell");
    well_formed.function.arguments = r#"{"command":"ls"}"#.to_string();
    let (mut run, step) = ToolRun::start(well_formed, &settings(SnapshotPolicy::Off));
    assert!(matches!(
        step.action,
        ToolAction::RecordProgress { arguments, .. } if arguments == r#"{"command":"ls"}"#
    ));
    run.on_event(ToolEvent::ProgressRecorded(Ok(1)));
    assert!(matches!(
        run.on_event(ToolEvent::ToolFound(Ok(sources(true, true, false, false)))).action,
        ToolAction::CallTool { arguments, .. } if arguments == r#"{"command":"ls"}"#
    ));
}
