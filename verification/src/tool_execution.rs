//! The calls of tools: how a tool is found, called and reported, what it leaves behind, and
//! how its results enter the conversation.
use vstd::prelude::*;

use crate::chat::ToolCall;
use crate::events::AgentEventKind;
use crate::model::{AgentMessage, ChatMessage, ChatRole, MessagePart};
use crate::snapshots::{SnapshotPolicy, SnapshotSettings};
use crate::text::str_eq;
use crate::transitions::{ConversationContext, ExecutionState, ToolResult, WaitCondition};
use crate::utils;
use crate::utils::{is_json, read_json_string};

verus! {

/// Where a tool can be found.
#[derive(Debug, Clone, Copy, PartialEq, Eq, Structural)]
pub struct ToolSources {
    /// The agent may call the tool.
    pub allowed: bool,
    /// The agent has the tool itself.
    pub in_registry: bool,
    /// The session has a runtime.
    pub has_runtime: bool,
    /// One of the runtime's servers has the tool.
    pub in_mcp: bool,
}

/// Who is called.
#[derive(Debug, Clone, Copy, PartialEq, Eq, Structural)]
pub enum ToolTarget {
    Registry,
    Mcp,
    Provider,
}

/// How a call goes on once it is known where its tool can be found.
#[derive(Debug, Clone, Copy, PartialEq, Eq, Structural)]
pub enum ToolRoute {
    NotAllowed,
    Call(ToolTarget),
    /// The user is asked first; the provider is called if the user agrees.
    AskPermission,
}

/// How a call goes on. The agent's own tools come first, the runtime's servers next and the
/// provider last, and with a runtime the provider is called only with permission.
pub open spec fn route(sources: ToolSources) -> ToolRoute {
    if !sources.allowed {
        ToolRoute::NotAllowed
    } else if sources.in_registry {
        ToolRoute::Call(ToolTarget::Registry)
    } else if !sources.has_runtime {
        ToolRoute::Call(ToolTarget::Provider)
    } else if sources.in_mcp {
        ToolRoute::Call(ToolTarget::Mcp)
    } else {
        ToolRoute::AskPermission
    }
}

/// How a call goes on once it is known where its tool can be found.
pub fn tool_route(sources: ToolSources) -> (chosen: ToolRoute)
    ensures
        chosen == route(sources),
{
    if !sources.allowed {
        ToolRoute::NotAllowed
    } else if sources.in_registry {
        ToolRoute::Call(ToolTarget::Registry)
    } else if sources.has_runtime {
        if sources.in_mcp {
            ToolRoute::Call(ToolTarget::Mcp)
        } else {
            ToolRoute::AskPermission
        }
    } else {
        ToolRoute::Call(ToolTarget::Provider)
    }
}

/// Output that was too long: what is kept of it, and the note about the rest.
#[derive(Debug, PartialEq, Eq)]
pub struct CappedOutput {
    pub content: String,
    pub note: String,
}

/// Where a call stands, that is, what it waits for.
#[derive(Debug, Clone, Copy, PartialEq, Eq, Structural)]
pub enum ToolStage {
    ScanningTree,
    RecordingProgress,
    FindingTool,
    AskingPermission,
    Calling,
    CappingOutput,
    TakingSnapshot,
    Finished,
}

/// What a call is told.
#[derive(Debug)]
pub enum ToolEvent {
    /// The directory was scanned as it is before the call.
    TreeScanned,
    ProgressRecorded(Result<u64, String>),
    ToolFound(Result<ToolSources, String>),
    PermissionChecked(Result<bool, String>),
    Returned(Result<String, String>),
    /// The output as it is capped, if it was too long.
    OutputCapped(Option<CappedOutput>),
    /// The snapshot after the call: the hash of the directory, the paths that changed where
    /// they were compared, and a summary.
    SnapshotTaken { root_hash: u64, changed_paths: Option<Vec<String>>, summary: String },
}

/// What a call asks for.
#[derive(Debug)]
pub enum ToolAction {
    /// Scans the directory before the call, to compare it with what the call makes of it.
    ScanTree { root: String },
    /// Records that the tool is called, with the arguments of the call as JSON text.
    RecordProgress { description: String, arguments: String },
    FindTool,
    /// Asks whether the tool may be called with these arguments.
    AskPermission { arguments: String },
    /// Calls the tool with these arguments.
    CallTool { target: ToolTarget, arguments: String },
    CapOutput,
    TakeSnapshot { root: String, policy: SnapshotPolicy },
    Finish(ToolResult),
    Fail(String),
    /// The event does not belong to the stage; nothing is to be done.
    Ignore,
}

/// What a call does on an event: the events that it emits, and what it asks for then.
#[derive(Debug)]
pub struct ToolStep {
    pub emit: Vec<AgentEventKind>,
    pub action: ToolAction,
}

/// The course of one tool call.
#[derive(Debug)]
pub struct ToolRun {
    pub call: ToolCall,
    /// The arguments that are recorded, as JSON text.
    pub recorded: String,
    /// The arguments with which the tool is called, as JSON text.
    pub arguments: String,
    /// The snapshot that was begun before the call: of which directory, and how.
    pub snapshot: Option<(String, SnapshotPolicy)>,
    pub stage: ToolStage,
    /// What the tool returned, or why there is no result.
    pub content: String,
    pub is_error: bool,
}

/// The arguments of a call, or `fallback` where they are no JSON.
pub open spec fn arguments_or(
    arguments: Seq<char>,
    is_json: bool,
    fallback: Seq<char>,
) -> Seq<char> {
    if is_json {
        arguments
    } else {
        fallback
    }
}

fn given_or(arguments: &str, is_json: bool, fallback: &str) -> (chosen: String)
    ensures
        chosen@ == arguments_or(arguments@, is_json, fallback@),
{
    if is_json {
        arguments.to_owned()
    } else {
        fallback.to_owned()
    }
}

/// `action` calls this tool with the arguments of the call.
pub open spec fn calls(run: ToolRun, target: ToolTarget, action: ToolAction) -> bool {
    action matches ToolAction::CallTool { target: called, arguments } && called == target
        && arguments@ == run.arguments@
}

/// `action` records that the tool is called.
pub open spec fn records(run: ToolRun, action: ToolAction) -> bool {
    &&& action matches ToolAction::RecordProgress { description, arguments }
    &&& description@ == "Calling tool: "@ + run.call.function.name@
    &&& arguments@ == run.recorded@
}

/// The place of a stage in the course of a call.
pub open spec fn rank(stage: ToolStage) -> nat {
    match stage {
        ToolStage::ScanningTree => 0,
        ToolStage::RecordingProgress => 1,
        ToolStage::FindingTool => 2,
        ToolStage::AskingPermission => 3,
        ToolStage::Calling => 4,
        ToolStage::CappingOutput => 5,
        ToolStage::TakingSnapshot => 6,
        ToolStage::Finished => 7,
    }
}

/// `event` is what a call in `stage` waits for.
pub open spec fn expected(stage: ToolStage, event: ToolEvent) -> bool {
    match stage {
        ToolStage::ScanningTree => event is TreeScanned,
        ToolStage::RecordingProgress => event is ProgressRecorded,
        ToolStage::FindingTool => event is ToolFound,
        ToolStage::AskingPermission => event is PermissionChecked,
        ToolStage::Calling => event is Returned,
        ToolStage::CappingOutput => event is OutputCapped,
        ToolStage::TakingSnapshot => event is SnapshotTaken,
        ToolStage::Finished => false,
    }
}

/// The stage of a call that has its result.
pub open spec fn ended(run: ToolRun) -> ToolStage {
    if run.snapshot is Some {
        ToolStage::TakingSnapshot
    } else {
        ToolStage::Finished
    }
}

/// The stage that follows `event`.
pub open spec fn next_stage(run: ToolRun, event: ToolEvent) -> ToolStage {
    if !expected(run.stage, event) {
        run.stage
    } else {
        match event {
            ToolEvent::TreeScanned => ToolStage::RecordingProgress,
            ToolEvent::ProgressRecorded(result) => if result is Ok {
                ToolStage::FindingTool
            } else {
                ToolStage::Finished
            },
            ToolEvent::ToolFound(Ok(sources)) => match route(sources) {
                ToolRoute::NotAllowed => ended(run),
                ToolRoute::Call(_) => ToolStage::Calling,
                ToolRoute::AskPermission => ToolStage::AskingPermission,
            },
            ToolEvent::ToolFound(Err(_)) => ToolStage::Finished,
            ToolEvent::PermissionChecked(Ok(granted)) => if granted {
                ToolStage::Calling
            } else {
                ended(run)
            },
            ToolEvent::PermissionChecked(Err(_)) => ToolStage::Finished,
            ToolEvent::Returned(result) => if result is Ok {
                ToolStage::CappingOutput
            } else {
                ended(run)
            },
            ToolEvent::OutputCapped(_) => ended(run),
            ToolEvent::SnapshotTaken { .. } => ToolStage::Finished,
        }
    }
}

/// What the call has to show after `event`, and whether that is an error. An output that was
/// too long is shown as it was capped, with the note; an error is never capped.
pub open spec fn next_content(run: ToolRun, event: ToolEvent) -> (Seq<char>, bool) {
    if !expected(run.stage, event) {
        (run.content@, run.is_error)
    } else {
        match event {
            ToolEvent::ToolFound(Ok(sources)) => if route(sources) == ToolRoute::NotAllowed {
                ("Error: tool '"@ + run.call.function.name@ + "' is not allowed"@, true)
            } else {
                (run.content@, run.is_error)
            },
            ToolEvent::PermissionChecked(Ok(false)) => ("Error: permission denied"@, true),
            ToolEvent::Returned(Ok(output)) => (output@, false),
            ToolEvent::Returned(Err(reason)) => ("Error: "@ + reason@, true),
            ToolEvent::OutputCapped(Some(capped)) => (capped.content@ + capped.note@, false),
            ToolEvent::OutputCapped(None) => (run.content@, false),
            _ => (run.content@, run.is_error),
        }
    }
}

/// The result of a call.
pub open spec fn is_result(
    run: ToolRun,
    content: Seq<char>,
    is_error: bool,
    result: ToolResult,
) -> bool {
    &&& result.call_id@ == run.call.id@
    &&& result.content@ == content
    &&& result.is_error == is_error
    &&& result.tool_name is Some
    &&& result.tool_name->Some_0@ == run.call.function.name@
    &&& result.tool_arguments is Some
    &&& result.tool_arguments->Some_0@ == run.call.function.arguments@
}

/// The step of a call that has its result: it tells that the call has ended, and takes the
/// snapshot that was begun or finishes.
pub open spec fn is_end(run: ToolRun, content: Seq<char>, is_error: bool, step: ToolStep) -> bool {
    &&& step.emit@.len() == 1
    &&& step.emit@[0] matches AgentEventKind::ToolCallEnd {
        tool_call_id,
        tool_name,
        is_error: failed,
        result,
    } && tool_call_id@ == run.call.id@ && tool_name@ == run.call.function.name@ && failed
        == is_error && result@ == content
    &&& match run.snapshot {
        Some((root, policy)) => step.action matches ToolAction::TakeSnapshot {
            root: directory,
            policy: how,
        } && directory@ == root@ && how == policy,
        None => step.action matches ToolAction::Finish(result) && is_result(
            run,
            content,
            is_error,
            result,
        ) && result.snapshot_part is None,
    }
}

/// The step of a call that cannot go on.
pub open spec fn is_failure(step: ToolStep, message: Seq<char>) -> bool {
    &&& step.emit@.len() == 0
    &&& step.action matches ToolAction::Fail(words) && words@ == message
}

/// `step` is what a call does on `event`, when the event is what it waits for.
pub open spec fn is_step(run: ToolRun, event: ToolEvent, step: ToolStep) -> bool {
    let (content, is_error) = next_content(run, event);
    match event {
        ToolEvent::TreeScanned => records(run, step.action) && step.emit@.len() == 0,
        ToolEvent::ProgressRecorded(Ok(entry)) => step.action is FindTool && step.emit@ == seq![
            AgentEventKind::ProgressRecorded { entry },
        ],
        ToolEvent::ProgressRecorded(Err(reason)) => is_failure(
            step,
            "Failed to record progress: "@ + reason@,
        ),
        ToolEvent::ToolFound(Ok(sources)) => match route(sources) {
            ToolRoute::NotAllowed => is_end(run, content, is_error, step),
            ToolRoute::Call(target) => calls(run, target, step.action) && step.emit@.len() == 0,
            ToolRoute::AskPermission => {
                &&& step.action matches ToolAction::AskPermission { arguments }
                &&& arguments@ == run.arguments@
                &&& step.emit@.len() == 0
            },
        },
        ToolEvent::ToolFound(Err(reason)) => is_failure(
            step,
            "Failed to get provider context: "@ + reason@,
        ),
        ToolEvent::PermissionChecked(Ok(granted)) => if granted {
            calls(run, ToolTarget::Provider, step.action) && step.emit@.len() == 0
        } else {
            is_end(run, content, is_error, step)
        },
        ToolEvent::PermissionChecked(Err(reason)) => is_failure(
            step,
            "Permission check failed: "@ + reason@,
        ),
        ToolEvent::Returned(Ok(_)) => step.action is CapOutput && step.emit@.len() == 0,
        ToolEvent::Returned(Err(_)) => is_end(run, content, is_error, step),
        ToolEvent::OutputCapped(_) => is_end(run, content, is_error, step),
        ToolEvent::SnapshotTaken { root_hash, changed_paths, summary } => {
            &&& step.emit@.len() == 1
            &&& step.emit@[0] matches AgentEventKind::SnapshotEnd { summary: told } && told
                is Some && told->Some_0@ == summary@
            &&& step.action matches ToolAction::Finish(result)
            &&& is_result(run, content, is_error, result)
            &&& result.snapshot_part matches Some(part)
            &&& part matches MessagePart::Snapshot {
                root_hash: hash,
                changed_paths: changed,
                diff_summary,
            }
            &&& hash == root_hash
            &&& changed == changed_paths
            &&& match changed_paths {
                Some(_) => diff_summary is None,
                None => diff_summary is Some && diff_summary->Some_0@ == summary@,
            }
        },
    }
}

fn quiet(action: ToolAction) -> (step: ToolStep)
    ensures
        step.action == action,
        step.emit@.len() == 0,
{
    ToolStep { emit: Vec::new(), action }
}

fn loud(event: AgentEventKind, action: ToolAction) -> (step: ToolStep)
    ensures
        step.action == action,
        step.emit@ == seq![event],
{
    let mut emit: Vec<AgentEventKind> = Vec::new();
    emit.push(event);
    ToolStep { emit, action }
}

fn fail(words: &str, reason: &str) -> (step: ToolStep)
    ensures
        is_failure(step, words@ + reason@),
{
    let mut message = words.to_owned();
    message.append(reason);
    quiet(ToolAction::Fail(message))
}

/// The call compares the directory before it with the directory after it.
pub open spec fn compares(run: ToolRun) -> bool {
    run.snapshot matches Some((_, policy)) && policy == SnapshotPolicy::Diff
}

/// A call as it begins: it is announced, and so is the snapshot where one is taken. First
/// the directory is scanned, where it is to be compared; else the call is recorded.
/// Arguments that are no JSON are recorded as nothing, and the tool is called without any.
pub open spec fn begins(
    call: ToolCall,
    settings: SnapshotSettings,
    is_json: bool,
    run: ToolRun,
    step: ToolStep,
) -> bool {
    &&& run.call == call
    &&& run.arguments@ == arguments_or(call.function.arguments@, is_json, "{}"@)
    &&& run.recorded@ == arguments_or(call.function.arguments@, is_json, "null"@)
    &&& run.content@ == Seq::<char>::empty()
    &&& !run.is_error
    &&& match run.snapshot {
        Some((root, policy)) => settings.covers(call.function.name@) && settings.enabled()
            && root@ == settings.root->Some_0@ && policy == settings.policy,
        None => !(settings.covers(call.function.name@) && settings.enabled()),
    }
    &&& if compares(run) {
        &&& run.stage == ToolStage::ScanningTree
        &&& step.action matches ToolAction::ScanTree { root }
        &&& root@ == settings.root->Some_0@
    } else {
        &&& run.stage == ToolStage::RecordingProgress
        &&& records(run, step.action)
    }
    &&& step.emit@.len() == if run.snapshot is Some {
        2nat
    } else {
        1nat
    }
    &&& step.emit@[0] matches AgentEventKind::ToolCallStart {
        tool_call_id,
        tool_name,
        arguments: told,
    }
    &&& tool_call_id@ == call.id@
    &&& tool_name@ == call.function.name@
    &&& told@ == call.function.arguments@
    &&& run.snapshot matches Some((_, policy)) ==> step.emit@[1]
        == (AgentEventKind::SnapshotStart { policy })
}

impl ToolRun {
    /// A call as it begins, and the first thing to do. The call is announced, and so is the
    /// snapshot where one is taken. A tool whose arguments are no JSON is called without any.
    pub fn start(call: ToolCall, settings: &SnapshotSettings) -> (result: (ToolRun, ToolStep))
        ensures
            begins(
                call,
                *settings,
                utils::json_is_valid(call.function.arguments@),
                result.0,
                result.1,
            ),
    {
        let valid = is_json(call.function.arguments.as_str());
        ToolRun::start_with(call, settings, valid)
    }

    /// A call as it begins, where it is known whether its arguments are JSON.
    pub fn start_with(call: ToolCall, settings: &SnapshotSettings, is_json: bool) -> (result: (
        ToolRun,
        ToolStep,
    ))
        ensures
            begins(call, *settings, is_json, result.0, result.1),
    {
        let mut emit: Vec<AgentEventKind> = Vec::new();
        emit.push(
            AgentEventKind::ToolCallStart {
                tool_call_id: call.id.clone(),
                tool_name: call.function.name.clone(),
                arguments: call.function.arguments.clone(),
            },
        );
        let snapshot = settings.snapshot_for(call.function.name.as_str());
        if let Some((_, policy)) = &snapshot {
            emit.push(AgentEventKind::SnapshotStart { policy: *policy });
        }
        let recorded = given_or(call.function.arguments.as_str(), is_json, "null");
        let arguments = given_or(call.function.arguments.as_str(), is_json, "{}");
        let content = String::new();
        assert(content@ =~= Seq::<char>::empty());
        let scanned = match &snapshot {
            Some((root, policy)) => match policy {
                SnapshotPolicy::Diff => Some(root.clone()),
                _ => None,
            },
            None => None,
        };
        let mut run = ToolRun {
            call,
            recorded,
            arguments,
            snapshot,
            stage: ToolStage::ScanningTree,
            content,
            is_error: false,
        };
        let action = match scanned {
            Some(root) => ToolAction::ScanTree { root },
            None => {
                run.stage = ToolStage::RecordingProgress;
                run.record()
            },
        };
        (run, ToolStep { emit, action })
    }

    fn record(&self) -> (action: ToolAction)
        ensures
            records(*self, action),
    {
        let mut description = "Calling tool: ".to_string();
        description.append(self.call.function.name.as_str());
        ToolAction::RecordProgress { description, arguments: self.recorded.clone() }
    }

    fn result(&self, snapshot_part: Option<MessagePart>) -> (result: ToolResult)
        ensures
            is_result(*self, self.content@, self.is_error, result),
            result.snapshot_part == snapshot_part,
    {
        ToolResult {
            call_id: self.call.id.clone(),
            content: self.content.clone(),
            is_error: self.is_error,
            tool_name: Some(self.call.function.name.clone()),
            tool_arguments: Some(self.call.function.arguments.clone()),
            snapshot_part,
        }
    }

    fn end(&mut self, content: String, is_error: bool) -> (step: ToolStep)
        ensures
            is_end(*old(self), content@, is_error, step),
            *final(self) == (ToolRun { stage: ended(*old(self)), content, is_error, ..*old(self) }),
    {
        let event = AgentEventKind::ToolCallEnd {
            tool_call_id: self.call.id.clone(),
            tool_name: self.call.function.name.clone(),
            is_error,
            result: content.clone(),
        };
        self.content = content;
        self.is_error = is_error;
        let begun = match &self.snapshot {
            Some((root, policy)) => Some((root.clone(), *policy)),
            None => None,
        };
        match begun {
            Some((root, policy)) => {
                self.stage = ToolStage::TakingSnapshot;
                loud(event, ToolAction::TakeSnapshot { root, policy })
            },
            None => {
                self.stage = ToolStage::Finished;
                loud(event, ToolAction::Finish(self.result(None)))
            },
        }
    }

    fn route_call(&mut self, sources: ToolSources) -> (step: ToolStep)
        requires
            old(self).stage == ToolStage::FindingTool,
        ensures
            is_step(*old(self), ToolEvent::ToolFound(Ok(sources)), step),
            final(self).stage == next_stage(*old(self), ToolEvent::ToolFound(Ok(sources))),
            (final(self).content@, final(self).is_error) == next_content(
                *old(self),
                ToolEvent::ToolFound(Ok(sources)),
            ),
            final(self).call == old(self).call,
            final(self).recorded == old(self).recorded,
            final(self).arguments == old(self).arguments,
            final(self).snapshot == old(self).snapshot,
    {
        match tool_route(sources) {
            ToolRoute::NotAllowed => {
                let mut content = "Error: tool '".to_string();
                content.append(self.call.function.name.as_str());
                content.append("' is not allowed");
                self.end(content, true)
            },
            ToolRoute::Call(target) => {
                self.stage = ToolStage::Calling;
                quiet(ToolAction::CallTool { target, arguments: self.arguments.clone() })
            },
            ToolRoute::AskPermission => {
                self.stage = ToolStage::AskingPermission;
                quiet(ToolAction::AskPermission { arguments: self.arguments.clone() })
            },
        }
    }

    /// Goes on after `event`. An event that the call does not wait for changes nothing.
    pub fn on_event(&mut self, event: ToolEvent) -> (step: ToolStep)
        ensures
            final(self).stage == next_stage(*old(self), event),
            (final(self).content@, final(self).is_error) == next_content(*old(self), event),
            final(self).call == old(self).call,
            final(self).recorded == old(self).recorded,
            final(self).arguments == old(self).arguments,
            final(self).snapshot == old(self).snapshot,
            if expected(old(self).stage, event) {
                is_step(*old(self), event, step)
            } else {
                step.action is Ignore && step.emit@.len() == 0
            },
    {
        match self.stage {
            ToolStage::ScanningTree => {
                if let ToolEvent::TreeScanned = event {
                    self.stage = ToolStage::RecordingProgress;
                    return quiet(self.record());
                }
            },
            ToolStage::RecordingProgress => {
                if let ToolEvent::ProgressRecorded(result) = event {
                    return match result {
                        Ok(entry) => {
                            self.stage = ToolStage::FindingTool;
                            loud(AgentEventKind::ProgressRecorded { entry }, ToolAction::FindTool)
                        },
                        Err(reason) => {
                            self.stage = ToolStage::Finished;
                            fail("Failed to record progress: ", reason.as_str())
                        },
                    };
                }
            },
            ToolStage::FindingTool => {
                if let ToolEvent::ToolFound(result) = event {
                    return match result {
                        Ok(sources) => self.route_call(sources),
                        Err(reason) => {
                            self.stage = ToolStage::Finished;
                            fail("Failed to get provider context: ", reason.as_str())
                        },
                    };
                }
            },
            ToolStage::AskingPermission => {
                if let ToolEvent::PermissionChecked(result) = event {
                    return match result {
                        Ok(granted) => if granted {
                            self.stage = ToolStage::Calling;
                            quiet(
                                ToolAction::CallTool {
                                    target: ToolTarget::Provider,
                                    arguments: self.arguments.clone(),
                                },
                            )
                        } else {
                            self.end("Error: permission denied".to_string(), true)
                        },
                        Err(reason) => {
                            self.stage = ToolStage::Finished;
                            fail("Permission check failed: ", reason.as_str())
                        },
                    };
                }
            },
            ToolStage::Calling => {
                if let ToolEvent::Returned(result) = event {
                    return match result {
                        Ok(output) => {
                            self.stage = ToolStage::CappingOutput;
                            self.content = output;
                            self.is_error = false;
                            quiet(ToolAction::CapOutput)
                        },
                        Err(reason) => {
                            let mut content = "Error: ".to_string();
                            content.append(reason.as_str());
                            self.end(content, true)
                        },
                    };
                }
            },
            ToolStage::CappingOutput => {
                if let ToolEvent::OutputCapped(capped) = event {
                    let content = match capped {
                        Some(capped) => {
                            let mut content = capped.content;
                            content.append(capped.note.as_str());
                            content
                        },
                        None => self.content.clone(),
                    };
                    return self.end(content, false);
                }
            },
            ToolStage::TakingSnapshot => {
                if let ToolEvent::SnapshotTaken { root_hash, changed_paths, summary } = event {
                    self.stage = ToolStage::Finished;
                    let diff_summary = if changed_paths.is_some() {
                        None
                    } else {
                        Some(summary.clone())
                    };
                    let part = MessagePart::Snapshot { root_hash, changed_paths, diff_summary };
                    let result = self.result(Some(part));
                    return loud(
                        AgentEventKind::SnapshotEnd { summary: Some(summary) },
                        ToolAction::Finish(result),
                    );
                }
            },
            ToolStage::Finished => {},
        }
        quiet(ToolAction::Ignore)
    }
}

/// The arguments of a tool call that matter for what the call leaves behind, where they are
/// given as strings.
#[derive(Debug)]
pub struct RecordedArguments {
    pub path: Option<String>,
    pub target_agent_id: Option<String>,
    pub objective: Option<String>,
    pub context: Option<String>,
    pub constraints: Option<String>,
    pub expected_output: Option<String>,
}

/// `value` is the string member `key` of the arguments.
pub open spec fn is_argument(arguments: Seq<char>, key: Seq<char>, value: Option<String>) -> bool {
    match value {
        Some(value) => utils::json_string_member(arguments, key) == Some(value@),
        None => utils::json_string_member(arguments, key) is None,
    }
}

impl RecordedArguments {
    /// Reads the arguments from their JSON text. What is no JSON object has none.
    pub fn read(arguments: &str) -> (read: Self)
        ensures
            is_argument(arguments@, "path"@, read.path),
            is_argument(arguments@, "target_agent_id"@, read.target_agent_id),
            is_argument(arguments@, "objective"@, read.objective),
            is_argument(arguments@, "context"@, read.context),
            is_argument(arguments@, "constraints"@, read.constraints),
            is_argument(arguments@, "expected_output"@, read.expected_output),
    {
        RecordedArguments {
            path: read_json_string(arguments, "path"),
            target_agent_id: read_json_string(arguments, "target_agent_id"),
            objective: read_json_string(arguments, "objective"),
            context: read_json_string(arguments, "context"),
            constraints: read_json_string(arguments, "constraints"),
            expected_output: read_json_string(arguments, "expected_output"),
        }
    }
}

/// What a tool call leaves behind.
#[derive(Debug)]
pub enum SideEffect {
    Nothing,
    /// A file, at `path` where it is known.
    Artifact { kind: String, path: Option<String>, summary: String },
    /// Work that another agent is to do.
    Delegation {
        target_agent_id: String,
        objective: String,
        context: Option<String>,
        constraints: Option<String>,
        expected_output: Option<String>,
    },
}

/// The text of an argument, which is empty where the argument was not given.
pub open spec fn given(value: Option<String>) -> Seq<char> {
    match value {
        Some(value) => value@,
        None => Seq::empty(),
    }
}

/// `effect` is what a call leaves behind that had these arguments. A call that failed leaves
/// nothing behind.
pub open spec fn is_effect(
    is_error: bool,
    tool: Option<String>,
    arguments: RecordedArguments,
    effect: SideEffect,
) -> bool {
    if is_error || tool is None {
        effect is Nothing
    } else if tool->Some_0@ == "write_file"@ || tool->Some_0@ == "apply_patch"@ {
        effect matches SideEffect::Artifact { kind, path, summary } && kind@ == "file"@ && path
            == arguments.path && summary@ == "Produced by "@ + tool->Some_0@
    } else if tool->Some_0@ == "delegate"@ {
        effect matches SideEffect::Delegation {
            target_agent_id,
            objective,
            context,
            constraints,
            expected_output,
        } && target_agent_id@ == given(arguments.target_agent_id) && objective@ == given(
            arguments.objective,
        ) && context == arguments.context && constraints == arguments.constraints
            && expected_output == arguments.expected_output
    } else {
        effect is Nothing
    }
}

fn or_empty(value: Option<String>) -> (out: String)
    ensures
        out@ == given(value),
{
    match value {
        Some(value) => value,
        None => {
            let out = String::new();
            assert(out@ =~= Seq::<char>::empty());
            out
        },
    }
}

/// What a call leaves behind that had these arguments.
pub fn side_effect_of(
    is_error: bool,
    tool: &Option<String>,
    arguments: RecordedArguments,
) -> (effect: SideEffect)
    ensures
        is_effect(is_error, *tool, arguments, effect),
{
    if is_error {
        return SideEffect::Nothing;
    }
    match tool {
        None => SideEffect::Nothing,
        Some(tool) => {
            let name = tool.as_str();
            if str_eq(name, "write_file") || str_eq(name, "apply_patch") {
                let mut summary = "Produced by ".to_string();
                summary.append(name);
                SideEffect::Artifact { kind: "file".to_string(), path: arguments.path, summary }
            } else if str_eq(name, "delegate") {
                SideEffect::Delegation {
                    target_agent_id: or_empty(arguments.target_agent_id),
                    objective: or_empty(arguments.objective),
                    context: arguments.context,
                    constraints: arguments.constraints,
                    expected_output: arguments.expected_output,
                }
            } else {
                SideEffect::Nothing
            }
        },
    }
}

/// The arguments of a call as text. A call without arguments has an empty object.
pub open spec fn arguments_text(result: ToolResult) -> Seq<char> {
    match result.tool_arguments {
        Some(arguments) => arguments@,
        None => "{}"@,
    }
}

/// `effect` is what the call with this result leaves behind.
pub open spec fn leaves(result: ToolResult, effect: SideEffect) -> bool {
    exists|arguments: RecordedArguments|
        {
            &&& #[trigger] is_effect(result.is_error, result.tool_name, arguments, effect)
            &&& is_argument(arguments_text(result), "path"@, arguments.path)
            &&& is_argument(arguments_text(result), "target_agent_id"@, arguments.target_agent_id)
            &&& is_argument(arguments_text(result), "objective"@, arguments.objective)
            &&& is_argument(arguments_text(result), "context"@, arguments.context)
            &&& is_argument(arguments_text(result), "constraints"@, arguments.constraints)
            &&& is_argument(arguments_text(result), "expected_output"@, arguments.expected_output)
        }
}

/// What a tool call leaves behind.
pub fn side_effect(result: &ToolResult) -> (effect: SideEffect)
    ensures
        leaves(*result, effect),
{
    let arguments = match &result.tool_arguments {
        Some(arguments) => RecordedArguments::read(arguments.as_str()),
        None => RecordedArguments::read("{}"),
    };
    let ghost read = arguments;
    let effect = side_effect_of(result.is_error, &result.tool_name, arguments);
    assert(is_effect(result.is_error, result.tool_name, read, effect));
    effect
}

/// `message` is how the result of a tool call is stored: the result, and the snapshot where
/// one was taken.
pub open spec fn is_result_message(
    result: ToolResult,
    session_id: Seq<char>,
    message_id: String,
    created_at: i64,
    message: AgentMessage,
) -> bool {
    &&& message.id == message_id
    &&& message.session_id@ == session_id
    &&& message.role == ChatRole::User
    &&& message.created_at == created_at
    &&& message.parent_message_id is None
    &&& message.parts@ == {
        let stored = MessagePart::ToolResult {
            call_id: result.call_id,
            content: result.content,
            is_error: result.is_error,
            tool_name: result.tool_name,
            tool_arguments: result.tool_arguments,
            compacted_at: None,
        };
        match result.snapshot_part {
            Some(part) => seq![stored, part],
            None => seq![stored],
        }
    }
}

/// The message as which the result of a tool call is stored.
pub fn result_message(
    result: ToolResult,
    session_id: &str,
    message_id: String,
    created_at: i64,
) -> (message: AgentMessage)
    ensures
        is_result_message(result, session_id@, message_id, created_at, message),
{
    let stored = MessagePart::ToolResult {
        call_id: result.call_id,
        content: result.content,
        is_error: result.is_error,
        tool_name: result.tool_name,
        tool_arguments: result.tool_arguments,
        compacted_at: None,
    };
    let mut parts: Vec<MessagePart> = Vec::new();
    let ghost first = stored;
    parts.push(stored);
    assert(parts@ =~= seq![first]);
    if let Some(part) = result.snapshot_part {
        parts.push(part);
        assert(parts@ =~= seq![first, part]);
    }
    AgentMessage {
        id: message_id,
        session_id: session_id.to_owned(),
        role: ChatRole::User,
        parts,
        created_at,
        parent_message_id: None,
    }
}

/// The delegations that some waits are for.
pub open spec fn all_ids(waits: Seq<WaitCondition>) -> Seq<String>
    decreases waits.len(),
{
    if waits.len() == 0 {
        Seq::empty()
    } else {
        all_ids(waits.drop_last()) + waits.last().correlation_ids@
    }
}

impl WaitCondition {
    /// A wait for one delegation.
    pub fn delegation(id: String) -> (wait: Self)
        ensures
            wait.correlation_ids@ == seq![id],
    {
        let mut correlation_ids: Vec<String> = Vec::new();
        correlation_ids.push(id);
        WaitCondition { correlation_ids }
    }

    /// A wait for all that the given waits are for. Without a wait there is nothing to wait
    /// for.
    pub fn merge(waits: Vec<WaitCondition>) -> (merged: Option<Self>)
        ensures
            match merged {
                Some(wait) => waits@.len() > 0 && wait.correlation_ids@ == all_ids(waits@),
                None => waits@.len() == 0,
            },
    {
        if waits.len() == 0 {
            return None;
        }
        let mut correlation_ids: Vec<String> = Vec::new();
        let mut i: usize = 0;
        while i < waits.len()
            invariant
                i <= waits@.len(),
                correlation_ids@ == all_ids(waits@.subrange(0, i as int)),
            decreases waits@.len() - i,
        {
            let ghost longer = waits@.subrange(0, i + 1);
            assert(longer.drop_last() =~= waits@.subrange(0, i as int));
            assert(longer.last() == waits@[i as int]);
            let mut ids = waits[i].correlation_ids.clone();
            correlation_ids.append(&mut ids);
            i = i + 1;
        }
        assert(waits@.subrange(0, waits@.len() as int) =~= waits@);
        Some(WaitCondition { correlation_ids })
    }
}

/// `next` is the state of a turn whose results are stored: the results are the last messages
/// of the conversation, and the turn waits for the delegations that they began, or begins
/// anew.
pub open spec fn follows_results(
    context: ConversationContext,
    messages: Seq<ChatMessage>,
    waits: Seq<WaitCondition>,
    next: ExecutionState,
) -> bool {
    match next {
        ExecutionState::WaitingForEvent { context: after, wait } => {
            &&& waits.len() > 0
            &&& wait.correlation_ids@ == all_ids(waits)
            &&& after == (ConversationContext { messages: after.messages, ..context })
            &&& after.messages@ == context.messages@ + messages
        },
        ExecutionState::BeforeTurn { context: after } => {
            &&& waits.len() == 0
            &&& after == (ConversationContext { messages: after.messages, ..context })
            &&& after.messages@ == context.messages@ + messages
        },
        _ => false,
    }
}

/// Goes on once the results are stored.
pub fn after_results(
    context: ConversationContext,
    messages: Vec<ChatMessage>,
    waits: Vec<WaitCondition>,
) -> (next: ExecutionState)
    ensures
        follows_results(context, messages@, waits@, next),
{
    let mut context = context;
    let mut messages = messages;
    context.messages.append(&mut messages);
    match WaitCondition::merge(waits) {
        Some(wait) => ExecutionState::WaitingForEvent { context, wait },
        None => ExecutionState::BeforeTurn { context },
    }
}

/// A call only moves forward, and ends: an event that it waits for takes it to a later
/// stage.
pub proof fn law_call_moves_forward(run: ToolRun, event: ToolEvent)
    requires
        expected(run.stage, event),
    ensures
        rank(next_stage(run, event)) > rank(run.stage),
{
}

/// A call whose directory is compared has it scanned first, and goes no further before that
/// is done; so the tool is called on a directory of which it is known what it was.
pub proof fn law_directory_is_scanned_before_the_call(
    call: ToolCall,
    settings: SnapshotSettings,
    is_json: bool,
    run: ToolRun,
    step: ToolStep,
    event: ToolEvent,
)
    requires
        begins(call, settings, is_json, run, step),
        compares(run),
    ensures
        step.action is ScanTree,
        next_stage(run, event) != run.stage <==> event is TreeScanned,
        rank(next_stage(run, event)) < rank(ToolStage::Calling),
{
}

/// A tool that is not allowed is never called, whoever has it.
pub proof fn law_forbidden_tools_are_not_called(sources: ToolSources, target: ToolTarget)
    requires
        !sources.allowed,
    ensures
        route(sources) != ToolRoute::Call(target),
        route(sources) != ToolRoute::AskPermission,
{
}

/// With a runtime the provider is called only after the user has agreed.
pub proof fn law_provider_needs_permission(run: ToolRun, event: ToolEvent, step: ToolStep)
    requires
        expected(run.stage, event),
        is_step(run, event, step),
        calls(run, ToolTarget::Provider, step.action),
    ensures
        event == ToolEvent::PermissionChecked(Ok(true)) || (event matches ToolEvent::ToolFound(
            Ok(sources),
        ) && !sources.has_runtime),
{
}

/// A call that failed leaves nothing behind, and nothing is waited for because of it.
pub proof fn law_failed_calls_leave_nothing(
    tool: Option<String>,
    arguments: RecordedArguments,
    effect: SideEffect,
)
    requires
        is_effect(true, tool, arguments, effect),
    ensures
        effect is Nothing,
{
}

/// A merged wait is for each of the delegations that a wait was for.
pub proof fn law_merged_wait_keeps_every_id(waits: Seq<WaitCondition>, k: int, j: int)
    requires
        0 <= k < waits.len(),
        0 <= j < waits[k].correlation_ids@.len(),
    ensures
        all_ids(waits).contains(waits[k].correlation_ids@[j]),
    decreases waits.len(),
{
    let before = all_ids(waits.drop_last());
    let ids = waits.last().correlation_ids@;
    if k == waits.len() - 1 {
        assert(all_ids(waits)[before.len() + j] == ids[j]);
    } else {
        law_merged_wait_keeps_every_id(waits.drop_last(), k, j);
        let i = choose|i: int| 0 <= i < before.len() && before[i] == waits[k].correlation_ids@[j];
        assert(all_ids(waits)[i] == before[i]);
    }
}

/// Where a tool is called: by the agent itself where it has the tool, by the provider where
/// there is no runtime, by a server of the runtime that has it, and by the provider after the
/// user was asked where none has it.
pub proof fn law_tools_are_looked_for_in_order(sources: ToolSources)
    ensures
        route(sources) == ToolRoute::NotAllowed <==> !sources.allowed,
        sources.allowed && sources.in_registry ==> route(sources) == ToolRoute::Call(
            ToolTarget::Registry,
        ),
        sources.allowed && !sources.in_registry && !sources.has_runtime ==> route(sources)
            == ToolRoute::Call(ToolTarget::Provider),
        sources.allowed && !sources.in_registry && sources.has_runtime && sources.in_mcp ==> route(
            sources,
        ) == ToolRoute::Call(ToolTarget::Mcp),
        sources.allowed && !sources.in_registry && sources.has_runtime && !sources.in_mcp ==> route(
            sources,
        ) == ToolRoute::AskPermission,
{
}

/// A call begins by telling of itself with its id, its name and its arguments as they are.
pub proof fn law_calls_are_announced(
    call: ToolCall,
    settings: SnapshotSettings,
    is_json: bool,
    run: ToolRun,
    step: ToolStep,
)
    requires
        begins(call, settings, is_json, run, step),
    ensures
        run.call == call,
        step.emit@.len() >= 1,
        step.emit@[0] matches AgentEventKind::ToolCallStart { tool_call_id, tool_name, arguments }
            && tool_call_id@ == call.id@ && tool_name@ == call.function.name@ && arguments@
            == call.function.arguments@,
        is_json ==> run.arguments@ == call.function.arguments@ && run.recorded@
            == call.function.arguments@,
        !is_json ==> run.arguments@ == "{}"@ && run.recorded@ == "null"@,
        !(run.snapshot matches Some((_, SnapshotPolicy::Diff))) ==> (step.action matches
            ToolAction::RecordProgress { description, arguments } && description@
            == "Calling tool: "@ + call.function.name@ && arguments@ == run.recorded@),
        run.snapshot matches Some((root, SnapshotPolicy::Diff)) ==> (step.action matches
            ToolAction::ScanTree { root: scanned } && scanned@ == root@),
{
}

/// A snapshot goes with exactly the calls of tools that change files, where the session takes
/// snapshots and knows its directory; it is of that directory, and is announced.
pub proof fn law_changing_calls_take_a_snapshot(
    call: ToolCall,
    settings: SnapshotSettings,
    is_json: bool,
    run: ToolRun,
    step: ToolStep,
)
    requires
        begins(call, settings, is_json, run, step),
    ensures
        run.snapshot is Some <==> settings.covers(call.function.name@) && settings.policy
            != SnapshotPolicy::Off && settings.root is Some,
        run.snapshot matches Some((root, policy)) ==> root@ == settings.root->Some_0@ && policy
            == settings.policy && step.emit@.len() == 2 && step.emit@[1]
            == (AgentEventKind::SnapshotStart { policy: settings.policy }),
        run.snapshot is None ==> step.emit@.len() == 1,
{
}

/// Each stage of a call waits for the outcome of what was asked for in it.
pub proof fn law_each_stage_of_a_call_has_its_outcome(stage: ToolStage, event: ToolEvent)
    ensures
        expected(stage, event) <==> {
            ||| stage == ToolStage::ScanningTree && event is TreeScanned
            ||| stage == ToolStage::RecordingProgress && event is ProgressRecorded
            ||| stage == ToolStage::FindingTool && event is ToolFound
            ||| stage == ToolStage::AskingPermission && event is PermissionChecked
            ||| stage == ToolStage::Calling && event is Returned
            ||| stage == ToolStage::CappingOutput && event is OutputCapped
            ||| stage == ToolStage::TakingSnapshot && event is SnapshotTaken
        },
{
}

/// A tool that may be called is called with the arguments of the call, by the one who has it.
pub proof fn law_tools_are_called_with_their_arguments(
    run: ToolRun,
    sources: ToolSources,
    granted: Result<bool, String>,
    found: ToolStep,
    checked: ToolStep,
)
    requires
        is_step(run, ToolEvent::ToolFound(Ok(sources)), found),
        is_step(run, ToolEvent::PermissionChecked(granted), checked),
    ensures
        sources.allowed && sources.in_registry ==> (found.action matches ToolAction::CallTool {
            target,
            arguments,
        } && target == ToolTarget::Registry && arguments@ == run.arguments@),
        sources.allowed && !sources.in_registry && !sources.has_runtime ==> (found.action matches
            ToolAction::CallTool { target, arguments } && target == ToolTarget::Provider
            && arguments@ == run.arguments@),
        sources.allowed && !sources.in_registry && sources.has_runtime && sources.in_mcp ==> (
        found.action matches ToolAction::CallTool { target, arguments } && target
            == ToolTarget::Mcp && arguments@ == run.arguments@),
        sources.allowed && !sources.in_registry && sources.has_runtime && !sources.in_mcp ==> (
        found.action matches ToolAction::AskPermission { arguments } && arguments@
            == run.arguments@),
        sources.allowed ==> found.emit@.len() == 0,
        granted == Ok::<bool, String>(true) ==> checked.emit@.len() == 0 && (
        checked.action matches ToolAction::CallTool { target, arguments } && target
            == ToolTarget::Provider && arguments@ == run.arguments@),
{
}

/// What a call comes to is told in its own words: what the tool returned as it is, with the
/// note behind it where it was cut, and an error that says what went wrong otherwise.
pub proof fn law_results_are_what_the_tool_returned(
    run: ToolRun,
    sources: ToolSources,
    output: Result<String, String>,
    capped: Option<CappedOutput>,
)
    ensures
        run.stage == ToolStage::Calling ==> next_content(run, ToolEvent::Returned(output))
            == match output {
            Ok(text) => (text@, false),
            Err(reason) => ("Error: "@ + reason@, true),
        },
        run.stage == ToolStage::CappingOutput ==> next_content(run, ToolEvent::OutputCapped(capped))
            == match capped {
            Some(cut) => (cut.content@ + cut.note@, false),
            None => (run.content@, false),
        },
        run.stage == ToolStage::FindingTool && !sources.allowed ==> next_content(
            run,
            ToolEvent::ToolFound(Ok(sources)),
        ) == ("Error: tool '"@ + run.call.function.name@ + "' is not allowed"@, true),
        run.stage == ToolStage::FindingTool && sources.allowed ==> next_content(
            run,
            ToolEvent::ToolFound(Ok(sources)),
        ) == (run.content@, run.is_error),
        run.stage == ToolStage::AskingPermission ==> next_content(
            run,
            ToolEvent::PermissionChecked(Ok(false)),
        ) == ("Error: permission denied"@, true),
{
}

/// No snapshot, no scan and no record changes what a call came to.
pub proof fn law_results_are_kept(run: ToolRun, event: ToolEvent)
    requires
        event is TreeScanned || event is ProgressRecorded || event is SnapshotTaken || (
        event matches ToolEvent::ToolFound(Err(_))) || (event matches ToolEvent::PermissionChecked(
            Err(_),
        )) || (event == ToolEvent::PermissionChecked(Ok(true))),
    ensures
        next_content(run, event) == (run.content@, run.is_error),
{
}

/// How a call goes on: through every stage in turn, and past those that are not due.
pub proof fn law_calls_go_through_their_stages(run: ToolRun, event: ToolEvent)
    requires
        expected(run.stage, event),
    ensures
        ({
            let end = if run.snapshot is Some {
                ToolStage::TakingSnapshot
            } else {
                ToolStage::Finished
            };
            let next = next_stage(run, event);
            &&& event is TreeScanned ==> next == ToolStage::RecordingProgress
            &&& event matches ToolEvent::ProgressRecorded(Ok(_)) ==> next == ToolStage::FindingTool
            &&& event matches ToolEvent::ProgressRecorded(Err(_)) ==> next == ToolStage::Finished
            &&& event matches ToolEvent::ToolFound(Err(_)) ==> next == ToolStage::Finished
            &&& event matches ToolEvent::PermissionChecked(Err(_)) ==> next == ToolStage::Finished
            &&& event == ToolEvent::PermissionChecked(Ok(true)) ==> next == ToolStage::Calling
            &&& event == ToolEvent::PermissionChecked(Ok(false)) ==> next == end
            &&& event matches ToolEvent::Returned(Ok(_)) ==> next == ToolStage::CappingOutput
            &&& event matches ToolEvent::Returned(Err(_)) ==> next == end
            &&& event is OutputCapped ==> next == end
            &&& event is SnapshotTaken ==> next == ToolStage::Finished
            &&& event matches ToolEvent::ToolFound(Ok(sources)) ==> {
                &&& !sources.allowed ==> next == end
                &&& sources.allowed && !sources.in_registry && sources.has_runtime
                    && !sources.in_mcp ==> next == ToolStage::AskingPermission
                &&& sources.allowed && (sources.in_registry || !sources.has_runtime
                    || sources.in_mcp) ==> next == ToolStage::Calling
            }
        }),
{
}

/// A call that cannot go on fails the turn and says why.
pub proof fn law_broken_calls_say_why(run: ToolRun, event: ToolEvent, step: ToolStep, reason: String)
    requires
        is_step(run, event, step),
        event == ToolEvent::ProgressRecorded(Err(reason)) || event == ToolEvent::ToolFound(
            Err(reason),
        ) || event == ToolEvent::PermissionChecked(Err(reason)),
    ensures
        step.emit@.len() == 0,
        step.action matches ToolAction::Fail(message) && message@ == (
        if event is ProgressRecorded {
            "Failed to record progress: "@
        } else if event is ToolFound {
            "Failed to get provider context: "@
        } else {
            "Permission check failed: "@
        }) + reason@,
{
}

/// A call ends by telling of its result under its own id and name; the result then goes to
/// the turn, or a snapshot is taken first where one was begun.
pub proof fn law_calls_end_with_their_result(
    run: ToolRun,
    content: Seq<char>,
    is_error: bool,
    step: ToolStep,
)
    requires
        is_end(run, content, is_error, step),
    ensures
        step.emit@.len() == 1,
        step.emit@[0] matches AgentEventKind::ToolCallEnd {
            tool_call_id,
            tool_name,
            is_error: failed,
            result,
        } && tool_call_id@ == run.call.id@ && tool_name@ == run.call.function.name@ && failed
            == is_error && result@ == content,
        run.snapshot matches Some((root, policy)) ==> (step.action matches
            ToolAction::TakeSnapshot { root: directory, policy: how } && directory@ == root@ && how
            == policy),
        run.snapshot is None ==> (step.action matches ToolAction::Finish(result)
            && result.call_id@ == run.call.id@ && result.content@ == content && result.is_error
            == is_error && result.snapshot_part is None && (result.tool_name matches Some(name)
            && name@ == run.call.function.name@) && (result.tool_arguments matches Some(arguments)
            && arguments@ == run.call.function.arguments@)),
{
}

/// The calls that come to an end: those that are not allowed or not permitted, those that
/// failed, and those whose output has been cut to size.
pub proof fn law_which_calls_end(run: ToolRun, event: ToolEvent, step: ToolStep)
    requires
        expected(run.stage, event),
        is_step(run, event, step),
    ensures
        (event == ToolEvent::PermissionChecked(Ok(false)) || event matches ToolEvent::Returned(
            Err(_),
        )) ==> is_end(run, next_content(run, event).0, true, step),
        event is OutputCapped ==> is_end(run, next_content(run, event).0, false, step),
        (event matches ToolEvent::ToolFound(Ok(sources)) && !sources.allowed) ==> is_end(
            run,
            next_content(run, event).0,
            true,
            step,
        ),
        event matches ToolEvent::Returned(Ok(_)) ==> step.action is CapOutput && step.emit@.len()
            == 0,
        event matches ToolEvent::ProgressRecorded(Ok(entry)) ==> step.action is FindTool
            && step.emit@.len() == 1 && step.emit@[0] == (AgentEventKind::ProgressRecorded {
            entry,
        }),
        event is TreeScanned ==> step.emit@.len() == 0 && (step.action matches
            ToolAction::RecordProgress { description, arguments } && description@
            == "Calling tool: "@ + run.call.function.name@ && arguments@ == run.recorded@),
{
}

/// A call with a snapshot hands over its result with the snapshot: the hash, and the paths
/// that changed where they were compared, or else the summary.
pub proof fn law_snapshots_go_with_the_result(
    run: ToolRun,
    root_hash: u64,
    changed_paths: Option<Vec<String>>,
    summary: String,
    step: ToolStep,
)
    requires
        run.stage == ToolStage::TakingSnapshot,
        is_step(run, ToolEvent::SnapshotTaken { root_hash, changed_paths, summary }, step),
    ensures
        step.emit@.len() == 1,
        step.emit@[0] matches AgentEventKind::SnapshotEnd { summary: Some(told) } && told@
            == summary@,
        step.action matches ToolAction::Finish(result) && result.call_id@ == run.call.id@
            && result.content@ == run.content@ && result.is_error == run.is_error && (
        result.tool_name matches Some(name) && name@ == run.call.function.name@) && (
        result.tool_arguments matches Some(arguments) && arguments@
            == run.call.function.arguments@) && (result.snapshot_part matches Some(
            MessagePart::Snapshot { root_hash: hash, changed_paths: changed, diff_summary },
        ) && hash == root_hash && changed == changed_paths && (diff_summary is Some
            <==> changed_paths is None) && (diff_summary matches Some(text) ==> text@
            == summary@)),
{
}

/// A file that a tool wrote becomes an artifact of the session, with its path and the tool
/// that wrote it.
pub proof fn law_written_files_become_artifacts(
    tool: Option<String>,
    arguments: RecordedArguments,
    effect: SideEffect,
)
    requires
        is_effect(false, tool, arguments, effect),
        tool matches Some(name) && (name@ == "write_file"@ || name@ == "apply_patch"@),
    ensures
        effect matches SideEffect::Artifact { kind, path, summary } && kind@ == "file"@ && path
            == arguments.path && summary@ == "Produced by "@ + tool->Some_0@,
{
}

/// A call of the delegation tool becomes a delegation to the agent that it names, with all
/// that the call says of the work; no other tool leaves anything.
pub proof fn law_delegate_calls_become_delegations(
    tool: Option<String>,
    arguments: RecordedArguments,
    effect: SideEffect,
)
    requires
        is_effect(false, tool, arguments, effect),
    ensures
        tool is None ==> effect is Nothing,
        tool matches Some(name) && name@ == "delegate"@ ==> (effect matches
            SideEffect::Delegation {
                target_agent_id,
                objective,
                context,
                constraints,
                expected_output,
            } && (arguments.target_agent_id matches Some(id) ==> target_agent_id@ == id@) && (
        arguments.target_agent_id is None ==> target_agent_id@.len() == 0) && (
        arguments.objective matches Some(text) ==> objective@ == text@) && (
        arguments.objective is None ==> objective@.len() == 0) && context == arguments.context
            && constraints == arguments.constraints && expected_output
            == arguments.expected_output),
        tool matches Some(name) && name@ != "delegate"@ && name@ != "write_file"@ && name@
            != "apply_patch"@ ==> effect is Nothing,
{
    reveal_strlit("delegate");
    reveal_strlit("write_file");
    reveal_strlit("apply_patch");
}

/// What a result leaves is read from its own arguments, each from the member of its name,
/// and from an empty object where there are none.
pub proof fn law_side_effects_are_read_from_the_arguments(result: ToolResult, effect: SideEffect)
    requires
        leaves(result, effect),
        !result.is_error,
        result.tool_name is Some,
    ensures
        ({
            let text = match result.tool_arguments {
                Some(arguments) => arguments@,
                None => "{}"@,
            };
            &&& effect matches SideEffect::Delegation {
                target_agent_id,
                objective,
                context,
                constraints,
                expected_output,
            } ==> {
                &&& utils::json_string_member(text, "target_agent_id"@) matches Some(id)
                    ==> target_agent_id@ == id
                &&& utils::json_string_member(text, "objective"@) matches Some(words)
                    ==> objective@ == words
                &&& (context matches Some(given) && utils::json_string_member(text, "context"@)
                    == Some(given@)) || (context is None && utils::json_string_member(
                    text,
                    "context"@,
                ) is None)
                &&& (constraints matches Some(given) && utils::json_string_member(
                    text,
                    "constraints"@,
                ) == Some(given@)) || (constraints is None && utils::json_string_member(
                    text,
                    "constraints"@,
                ) is None)
                &&& (expected_output matches Some(given) && utils::json_string_member(
                    text,
                    "expected_output"@,
                ) == Some(given@)) || (expected_output is None && utils::json_string_member(
                    text,
                    "expected_output"@,
                ) is None)
            }
            &&& effect matches SideEffect::Artifact { path, .. } ==> (path matches Some(given)
                && utils::json_string_member(text, "path"@) == Some(given@)) || (path is None
                && utils::json_string_member(text, "path"@) is None)
        }),
{
}

/// A result is stored as the user's, whole, with its snapshot behind it where it has one.
pub proof fn law_results_are_stored_whole(
    result: ToolResult,
    session_id: Seq<char>,
    message_id: String,
    created_at: i64,
    message: AgentMessage,
)
    requires
        is_result_message(result, session_id, message_id, created_at, message),
    ensures
        message.id == message_id,
        message.session_id@ == session_id,
        message.role == ChatRole::User,
        message.created_at == created_at,
        message.parent_message_id is None,
        message.parts@.len() > 0,
        message.parts@[0] matches MessagePart::ToolResult {
            call_id,
            content,
            is_error,
            tool_name,
            tool_arguments,
            compacted_at,
        } && call_id == result.call_id && content == result.content && is_error == result.is_error
            && tool_name == result.tool_name && tool_arguments == result.tool_arguments
            && compacted_at is None,
        result.snapshot_part matches Some(part) ==> message.parts@.len() == 2 && message.parts@[1]
            == part,
        result.snapshot_part is None ==> message.parts@.len() == 1,
{
}

/// A turn goes on from its results with all of them at the end of the conversation; it waits
/// first where a result is to be waited for.
pub proof fn law_turns_go_on_from_their_results(
    context: ConversationContext,
    messages: Seq<ChatMessage>,
    waits: Seq<WaitCondition>,
    next: ExecutionState,
)
    requires
        follows_results(context, messages, waits, next),
    ensures
        waits.len() == 0 ==> next is BeforeTurn,
        waits.len() > 0 ==> next is WaitingForEvent,
        ({
            let after = if waits.len() == 0 {
                next->BeforeTurn_context
            } else {
                next->WaitingForEvent_context
            };
            &&& after.session_id == context.session_id
            &&& after.provider == context.provider
            &&& after.model == context.model
            &&& after.stats == context.stats
            &&& after.messages@ == context.messages@ + messages
        }),
{
}

/// A turn that waits after its tool calls hears of each of their delegations: where the
/// delegation that is number `j` of wait `k` completes or fails, the turn is resumed with it.
pub proof fn law_every_delegation_resumes_the_turn(
    context: ConversationContext,
    messages: Seq<ChatMessage>,
    waits: Seq<WaitCondition>,
    wait: WaitCondition,
    after: ConversationContext,
    k: int,
    j: int,
    event: AgentEventKind,
    outcome: Option<crate::transitions::DelegationOutcome>,
)
    requires
        follows_results(
            context,
            messages,
            waits,
            (ExecutionState::WaitingForEvent { context: after, wait }),
        ),
        0 <= k < waits.len(),
        0 <= j < waits[k].correlation_ids@.len(),
        crate::transitions::wait_outcome(wait, event, outcome),
        ({
            ||| event matches AgentEventKind::DelegationCompleted { delegation_id, .. }
                && delegation_id@ == waits[k].correlation_ids@[j]@
            ||| event matches AgentEventKind::DelegationFailed { delegation_id, .. }
                && delegation_id@ == waits[k].correlation_ids@[j]@
        }),
    ensures
        event is DelegationCompleted ==> (outcome matches Some(crate::transitions::DelegationOutcome::Completed {
            delegation_id,
            ..
        }) && delegation_id@ == waits[k].correlation_ids@[j]@),
        event matches AgentEventKind::DelegationFailed { error: told, .. } ==> (outcome matches
            Some(crate::transitions::DelegationOutcome::Failed { delegation_id, error }) && delegation_id@
            == waits[k].correlation_ids@[j]@ && error@ == told@),
{
    law_merged_wait_keeps_every_id(waits, k, j);
    let i = choose|i: int|
        0 <= i < all_ids(waits).len() && all_ids(waits)[i] == waits[k].correlation_ids@[j];
    assert(wait.correlation_ids@[i] == waits[k].correlation_ids@[j]);
    crate::transitions::law_waits_hear_of_every_delegation(wait, i, event, outcome);
}

/// A merged wait is for no delegation but those that a wait was for.
pub proof fn law_merged_wait_adds_no_id(waits: Seq<WaitCondition>, i: int) -> (at: (int, int))
    requires
        0 <= i < all_ids(waits).len(),
    ensures
        0 <= at.0 < waits.len(),
        0 <= at.1 < waits[at.0].correlation_ids@.len(),
        waits[at.0].correlation_ids@[at.1] == all_ids(waits)[i],
    decreases waits.len(),
{
    let before = all_ids(waits.drop_last());
    if i < before.len() {
        law_merged_wait_adds_no_id(waits.drop_last(), i)
    } else {
        (waits.len() - 1, i - before.len())
    }
}

/// A call begins with no result and no error, at the scan of its directory where that is
/// compared and at the record of its progress otherwise.
pub proof fn law_calls_begin_without_a_result(
    call: ToolCall,
    settings: SnapshotSettings,
    is_json: bool,
    run: ToolRun,
    step: ToolStep,
)
    requires
        begins(call, settings, is_json, run, step),
    ensures
        run.content@.len() == 0,
        !run.is_error,
        run.stage == ToolStage::ScanningTree <==> (run.snapshot matches Some((
            _,
            SnapshotPolicy::Diff,
        ))),
        run.stage == ToolStage::ScanningTree || run.stage == ToolStage::RecordingProgress,
{
}

} // verus!
