//! The course of one prompt: what a session does from the moment a prompt was accepted
//! until it is answered.
//!
//! A run is a state machine. It says what is to be done next, is told how that went, and
//! goes on from there. It takes the execution permit, removes what an earlier undo left
//! behind, loads the session, shows and stores the user's message, runs the turn, records
//! what the turn changed in the work tree, and answers.
use vstd::prelude::*;

use crate::error::AgentError;
use crate::events::AgentEventKind;
use crate::model::{AgentMessage, ChatRole, ContentBlock, MessagePart};
use crate::text;
use crate::text::{decimal_string, str_eq};
use crate::utils;
use crate::utils::{format_prompt_user_text_only, render_prompt_for_display};

verus! {

/// How long a prompt waits for the permit before it says that it is queued, in
/// milliseconds.
pub const FIRST_PERMIT_WAIT_MS: u64 = 100;

/// Why a turn ended.
#[derive(Debug, Clone, Copy, PartialEq, Eq, Structural)]
pub enum StopReason {
    EndTurn,
    MaxTokens,
    MaxTurnRequests,
    Refusal,
    Cancelled,
}

/// How the execution of a turn came out.
#[derive(Debug, Clone, Copy, PartialEq, Eq, Structural)]
pub enum CycleOutcome {
    Completed,
    Cancelled,
    Stopped(StopReason),
}

/// The state of the work tree before a turn.
#[derive(Debug, PartialEq, Eq)]
pub struct TurnSnapshot {
    pub turn_id: String,
    pub snapshot_id: String,
}

/// Where a run stands, that is, what it waits for.
#[derive(Debug, Clone, Copy, PartialEq, Eq, Structural)]
pub enum PromptStage {
    AwaitingPermit,
    AwaitingQueuedPermit,
    CleaningUp,
    LoadingSession,
    LoadingContext,
    Notifying,
    UpdatingIntent,
    StoringMessage,
    RunningTurn,
    ResolvingSnapshot,
    Tracking,
    Diffing,
    StoringPatch,
    CollectingGarbage,
    Finished,
}

/// How the wait for the permit came out.
#[derive(Debug, Clone, Copy, PartialEq, Eq, Structural)]
pub enum PermitOutcome {
    Acquired,
    Closed,
    TimedOut,
}

/// What a run is told.
#[derive(Debug)]
pub enum PromptEvent {
    Permit(PermitOutcome),
    /// What an undo had left behind was removed, or could not be; either way the run goes
    /// on.
    CleanedUp,
    SessionLoaded(Result<(), String>),
    ContextLoaded { result: Result<(), String>, cancelled: bool },
    BlockShown { cancelled: bool },
    IntentUpdated(Result<(), String>),
    MessageStored(Result<(), String>),
    TurnEnded(Result<CycleOutcome, String>),
    /// The snapshot before the turn, if one was taken.
    SnapshotResolved(Option<TurnSnapshot>),
    TreeRecorded(Result<String, String>),
    Diffed { changed: Result<Vec<String>, String>, message_id: String, created_at: i64 },
    /// The record of the turn's changes was stored, or could not be; either way the run
    /// goes on.
    PatchStored,
    GarbageCollected,
}

/// What a run asks for.
#[derive(Debug)]
pub enum PromptAction {
    AcquirePermit { wait_ms: u64 },
    /// Waits for the permit for as long as a turn may take, in seconds.
    AcquirePermitFor { wait_secs: u64 },
    CleanUpRevert,
    LoadSession,
    LoadContext,
    ShowBlock { index: usize },
    UpdateIntent { user_text: String },
    StoreMessage(AgentMessage),
    /// Runs the turn, after a snapshot of the work tree was begun where one is wanted.
    RunTurn { take_snapshot: bool },
    ResolveSnapshot,
    TrackWorkTree,
    DiffWorkTree { from: String, to: String },
    CollectGarbage,
    Respond(Result<StopReason, AgentError>),
    /// The event does not belong to the stage; nothing is to be done.
    Ignore,
}

/// What a run does on an event: the events that it emits, and what it asks for then.
#[derive(Debug)]
pub struct PromptStep {
    pub emit: Vec<AgentEventKind>,
    pub action: PromptAction,
}

/// The course of one prompt.
#[derive(Debug)]
pub struct PromptRun {
    pub session_id: String,
    pub execution_timeout_secs: u64,
    /// The prompt, until it is stored.
    pub prompt: Vec<ContentBlock>,
    /// The id under which the prompt is stored.
    pub message_id: String,
    /// The prompt as users see it, once it is to be stored.
    pub display: String,
    pub created_at: i64,
    /// A client is there to be shown the prompt.
    pub has_bridge: bool,
    /// The work tree can be tracked.
    pub has_snapshots: bool,
    pub stage: PromptStage,
    /// The block that is being shown.
    pub shown: usize,
    pub outcome: Option<Result<CycleOutcome, String>>,
    pub turn: Option<TurnSnapshot>,
    pub post_snapshot: Option<String>,
}

/// The place of a stage in the course of a run.
pub open spec fn rank(stage: PromptStage) -> nat {
    match stage {
        PromptStage::AwaitingPermit => 0,
        PromptStage::AwaitingQueuedPermit => 1,
        PromptStage::CleaningUp => 2,
        PromptStage::LoadingSession => 3,
        PromptStage::LoadingContext => 4,
        PromptStage::Notifying => 5,
        PromptStage::UpdatingIntent => 6,
        PromptStage::StoringMessage => 7,
        PromptStage::RunningTurn => 8,
        PromptStage::ResolvingSnapshot => 9,
        PromptStage::Tracking => 10,
        PromptStage::Diffing => 11,
        PromptStage::StoringPatch => 12,
        PromptStage::CollectingGarbage => 13,
        PromptStage::Finished => 14,
    }
}

/// `event` is what a run in `stage` waits for.
pub open spec fn expected(stage: PromptStage, event: PromptEvent) -> bool {
    match stage {
        PromptStage::AwaitingPermit => event is Permit,
        PromptStage::AwaitingQueuedPermit => event is Permit,
        PromptStage::CleaningUp => event is CleanedUp,
        PromptStage::LoadingSession => event is SessionLoaded,
        PromptStage::LoadingContext => event is ContextLoaded,
        PromptStage::Notifying => event is BlockShown,
        PromptStage::UpdatingIntent => event is IntentUpdated,
        PromptStage::StoringMessage => event is MessageStored,
        PromptStage::RunningTurn => event is TurnEnded,
        PromptStage::ResolvingSnapshot => event is SnapshotResolved,
        PromptStage::Tracking => event is TreeRecorded,
        PromptStage::Diffing => event is Diffed,
        PromptStage::StoringPatch => event is PatchStored,
        PromptStage::CollectingGarbage => event is GarbageCollected,
        PromptStage::Finished => false,
    }
}

/// The stage that follows `event`.
pub open spec fn next_stage(run: PromptRun, event: PromptEvent) -> PromptStage {
    if !expected(run.stage, event) {
        run.stage
    } else {
        match event {
            PromptEvent::Permit(PermitOutcome::Acquired) => PromptStage::CleaningUp,
            PromptEvent::Permit(PermitOutcome::Closed) => PromptStage::Finished,
            PromptEvent::Permit(PermitOutcome::TimedOut) => if run.stage
                == PromptStage::AwaitingPermit {
                PromptStage::AwaitingQueuedPermit
            } else {
                PromptStage::Finished
            },
            PromptEvent::CleanedUp => PromptStage::LoadingSession,
            PromptEvent::SessionLoaded(result) => if result is Ok {
                PromptStage::LoadingContext
            } else {
                PromptStage::Finished
            },
            PromptEvent::ContextLoaded { result, cancelled } => if result is Err {
                PromptStage::Finished
            } else if run.has_bridge && !cancelled && run.prompt@.len() > 0 {
                PromptStage::Notifying
            } else {
                PromptStage::UpdatingIntent
            },
            PromptEvent::BlockShown { cancelled } => if !cancelled && run.shown + 1
                < run.prompt@.len() {
                PromptStage::Notifying
            } else {
                PromptStage::UpdatingIntent
            },
            PromptEvent::IntentUpdated(result) => if result is Ok {
                PromptStage::StoringMessage
            } else {
                PromptStage::Finished
            },
            PromptEvent::MessageStored(result) => if result is Ok {
                PromptStage::RunningTurn
            } else {
                PromptStage::Finished
            },
            PromptEvent::TurnEnded(_) => if run.has_snapshots {
                PromptStage::ResolvingSnapshot
            } else {
                PromptStage::Finished
            },
            PromptEvent::SnapshotResolved(turn) => if turn is Some {
                PromptStage::Tracking
            } else {
                PromptStage::Finished
            },
            PromptEvent::TreeRecorded(Ok(post)) => if run.turn->Some_0.snapshot_id@ != post@ {
                PromptStage::Diffing
            } else {
                PromptStage::CollectingGarbage
            },
            PromptEvent::TreeRecorded(Err(_)) => PromptStage::CollectingGarbage,
            PromptEvent::Diffed { changed, .. } => if changed matches Ok(paths) && paths@.len() > 0 {
                PromptStage::StoringPatch
            } else {
                PromptStage::CollectingGarbage
            },
            PromptEvent::PatchStored => PromptStage::CollectingGarbage,
            PromptEvent::GarbageCollected => PromptStage::Finished,
        }
    }
}

/// `after` is the run that `run` becomes on `event`, when the event is what it waits for.
/// The prompt moves into the message as which it is stored, and the outcome of the turn
/// into the answer.
pub open spec fn is_next(run: PromptRun, event: PromptEvent, after: PromptRun) -> bool {
    &&& after.session_id == run.session_id
    &&& after.execution_timeout_secs == run.execution_timeout_secs
    &&& after.message_id == run.message_id
    &&& after.created_at == run.created_at
    &&& after.has_bridge == run.has_bridge
    &&& after.has_snapshots == run.has_snapshots
    &&& after.stage == next_stage(run, event)
    &&& match event {
        PromptEvent::IntentUpdated(Ok(_)) => after.prompt@.len() == 0 && after.display@
            == utils::display_text(run.prompt@),
        _ => after.prompt == run.prompt && after.display == run.display,
    }
    &&& after.shown == if event is BlockShown && after.stage == PromptStage::Notifying {
        run.shown + 1
    } else {
        run.shown as int
    }
    &&& after.outcome == match event {
        PromptEvent::TurnEnded(outcome) => if run.has_snapshots {
            Some(outcome)
        } else {
            run.outcome
        },
        PromptEvent::SnapshotResolved(None) => None,
        PromptEvent::GarbageCollected => None,
        _ => run.outcome,
    }
    &&& after.turn == match event {
        PromptEvent::SnapshotResolved(turn) => turn,
        _ => run.turn,
    }
    &&& after.post_snapshot == match event {
        PromptEvent::TreeRecorded(Ok(post)) => Some(post),
        _ => run.post_snapshot,
    }
}

/// `error` is an internal error with the words `message`.
pub open spec fn internal(error: AgentError, message: Seq<char>) -> bool {
    error is Internal && error->Internal_0@ == message
}

/// The answer that a turn's outcome gives.
pub open spec fn answers(
    outcome: Result<CycleOutcome, String>,
    response: Result<StopReason, AgentError>,
) -> bool {
    match outcome {
        Ok(CycleOutcome::Completed) => response == Ok::<StopReason, AgentError>(
            StopReason::EndTurn,
        ),
        Ok(CycleOutcome::Cancelled) => response == Ok::<StopReason, AgentError>(
            StopReason::Cancelled,
        ),
        Ok(CycleOutcome::Stopped(reason)) => response == Ok::<StopReason, AgentError>(reason),
        Err(message) => response matches Err(error) && internal(error, message@),
    }
}

/// `emit` is the one event that tells of an error.
pub open spec fn tells_error(emit: Seq<AgentEventKind>, message: Seq<char>) -> bool {
    emit.len() == 1 && emit[0] is Error && emit[0]->Error_message@ == message
}

/// The step with which a run that has its outcome ends: it answers, after it has told of
/// an error if the turn failed.
pub open spec fn is_answer(outcome: Result<CycleOutcome, String>, step: PromptStep) -> bool {
    &&& step.action matches PromptAction::Respond(response)
    &&& answers(outcome, response)
    &&& match outcome {
        Err(message) => tells_error(step.emit@, message@),
        Ok(_) => step.emit@.len() == 0,
    }
}

/// The step with which a run ends before its turn: it answers with an error.
pub open spec fn is_failure(step: PromptStep, message: Seq<char>) -> bool {
    &&& step.action matches PromptAction::Respond(Err(error))
    &&& internal(error, message)
}

/// The message as which the prompt is stored.
pub open spec fn is_user_message(run: PromptRun, message: AgentMessage) -> bool {
    &&& message.id@ == run.message_id@
    &&& message.session_id@ == run.session_id@
    &&& message.role == ChatRole::User
    &&& message.created_at == run.created_at
    &&& message.parent_message_id is None
    &&& message.parts@.len() == 1
    &&& message.parts@[0] matches MessagePart::Prompt { blocks } && blocks@ == run.prompt@
}

/// The message that records what a turn changed.
pub open spec fn is_patch_message(
    run: PromptRun,
    message: AgentMessage,
    message_id: String,
    changed: Seq<String>,
    created_at: i64,
) -> bool {
    &&& message.id == message_id
    &&& message.session_id@ == run.session_id@
    &&& message.role == ChatRole::Assistant
    &&& message.created_at == created_at
    &&& message.parent_message_id is None
    &&& message.parts@.len() == 1
    &&& message.parts@[0] matches MessagePart::TurnSnapshotPatch {
        turn_id,
        snapshot_id,
        changed_paths,
    } && turn_id@ == run.turn->Some_0.turn_id@ && snapshot_id@ == run.post_snapshot->Some_0@
        && changed_paths@ == changed
}

/// The step that shows the user's prompt to the rest of the system and asks for the
/// session's intent to be updated.
pub open spec fn is_prompt_received(run: PromptRun, step: PromptStep) -> bool {
    &&& step.emit@.len() == 1
    &&& step.emit@[0] matches AgentEventKind::PromptReceived { content, message_id }
        && content@ == utils::display_text(run.prompt@) && message_id is Some
        && message_id->Some_0@ == run.message_id@
    &&& step.action matches PromptAction::UpdateIntent { user_text } && user_text@
        == utils::user_text(run.prompt@)
}

/// `step` is what a run does on `event`, when the event is what it waits for.
pub open spec fn is_step(run: PromptRun, event: PromptEvent, step: PromptStep) -> bool {
    match event {
        PromptEvent::Permit(PermitOutcome::Acquired) => step.action is CleanUpRevert
            && step.emit@.len() == 0,
        PromptEvent::Permit(PermitOutcome::Closed) => step.emit@.len() == 0 && step.action
            == PromptAction::Respond(Err(AgentError::SessionSemaphoreClosed)),
        PromptEvent::Permit(PermitOutcome::TimedOut) => if run.stage
            == PromptStage::AwaitingPermit {
            &&& step.emit@.len() == 1
            &&& step.emit@[0] matches AgentEventKind::SessionQueued { reason } && reason@
                == "waiting for previous operation to complete"@
            &&& step.action == (PromptAction::AcquirePermitFor {
                wait_secs: run.execution_timeout_secs,
            })
        } else {
            &&& step.emit@.len() == 0
            &&& step.action matches PromptAction::Respond(Err(error))
            &&& error matches AgentError::SessionTimeout { details } && details@
                == "session_id="@ + run.session_id@ + ", timeout="@ + text::decimal(
                run.execution_timeout_secs as nat,
            ) + "s"@
        },
        PromptEvent::CleanedUp => step.action is LoadSession && step.emit@.len() == 0,
        PromptEvent::SessionLoaded(Ok(_)) => step.action is LoadContext && step.emit@.len() == 0,
        PromptEvent::SessionLoaded(Err(message)) => is_failure(step, message@) && step.emit@.len()
            == 0,
        PromptEvent::ContextLoaded { result, cancelled } => match result {
            Err(message) => is_failure(step, message@) && step.emit@.len() == 0,
            Ok(_) => if run.has_bridge && !cancelled && run.prompt@.len() > 0 {
                step.action == (PromptAction::ShowBlock { index: 0 }) && step.emit@.len() == 0
            } else {
                is_prompt_received(run, step)
            },
        },
        PromptEvent::BlockShown { cancelled } => if !cancelled && run.shown + 1
            < run.prompt@.len() {
            step.action == (PromptAction::ShowBlock { index: (run.shown + 1) as usize })
                && step.emit@.len() == 0
        } else {
            is_prompt_received(run, step)
        },
        PromptEvent::IntentUpdated(Ok(_)) => {
            &&& step.emit@.len() == 0
            &&& step.action matches PromptAction::StoreMessage(message)
            &&& is_user_message(run, message)
        },
        PromptEvent::IntentUpdated(Err(message)) => is_failure(step, message@)
            && step.emit@.len() == 0,
        PromptEvent::MessageStored(Ok(_)) => {
            &&& step.emit@.len() == 1
            &&& step.emit@[0] matches AgentEventKind::UserMessageStored { content } && content@
                == run.display@
            &&& step.action == (PromptAction::RunTurn { take_snapshot: run.has_snapshots })
        },
        PromptEvent::MessageStored(Err(message)) => is_failure(step, message@) && tells_error(
            step.emit@,
            message@,
        ),
        PromptEvent::TurnEnded(outcome) => if run.has_snapshots {
            step.action is ResolveSnapshot && step.emit@.len() == 0
        } else {
            is_answer(outcome, step)
        },
        PromptEvent::SnapshotResolved(turn) => if turn is Some {
            step.action is TrackWorkTree && step.emit@.len() == 0
        } else {
            is_answer(run.outcome->Some_0, step)
        },
        PromptEvent::TreeRecorded(result) => {
            &&& step.emit@.len() == 0
            &&& if next_stage(run, event) == PromptStage::Diffing {
                step.action matches PromptAction::DiffWorkTree { from, to } && from@
                    == run.turn->Some_0.snapshot_id@ && to@ == result->Ok_0@
            } else {
                step.action is CollectGarbage
            }
        },
        PromptEvent::Diffed { changed, message_id, created_at } => {
            &&& step.emit@.len() == 0
            &&& if next_stage(run, event) == PromptStage::StoringPatch {
                step.action matches PromptAction::StoreMessage(message) && is_patch_message(
                    run,
                    message,
                    message_id,
                    changed->Ok_0@,
                    created_at,
                )
            } else {
                step.action is CollectGarbage
            }
        },
        PromptEvent::PatchStored => step.action is CollectGarbage && step.emit@.len() == 0,
        PromptEvent::GarbageCollected => is_answer(run.outcome->Some_0, step),
    }
}

fn quiet(action: PromptAction) -> (step: PromptStep)
    ensures
        step.action == action,
        step.emit@.len() == 0,
{
    PromptStep { emit: Vec::new(), action }
}

fn loud(event: AgentEventKind, action: PromptAction) -> (step: PromptStep)
    ensures
        step.action == action,
        step.emit@ == seq![event],
{
    let mut emit: Vec<AgentEventKind> = Vec::new();
    emit.push(event);
    PromptStep { emit, action }
}

fn fail(message: String) -> (step: PromptStep)
    ensures
        is_failure(step, message@),
        step.emit@.len() == 0,
{
    quiet(PromptAction::Respond(Err(AgentError::Internal(message))))
}

fn answer(outcome: Result<CycleOutcome, String>) -> (step: PromptStep)
    ensures
        is_answer(outcome, step),
{
    match outcome {
        Ok(CycleOutcome::Completed) => quiet(PromptAction::Respond(Ok(StopReason::EndTurn))),
        Ok(CycleOutcome::Cancelled) => quiet(PromptAction::Respond(Ok(StopReason::Cancelled))),
        Ok(CycleOutcome::Stopped(reason)) => quiet(PromptAction::Respond(Ok(reason))),
        Err(message) => loud(
            AgentEventKind::Error { message: message.clone() },
            PromptAction::Respond(Err(AgentError::Internal(message))),
        ),
    }
}

fn one_part(part: MessagePart) -> (parts: Vec<MessagePart>)
    ensures
        parts@ == seq![part],
{
    let mut parts: Vec<MessagePart> = Vec::new();
    parts.push(part);
    parts
}

impl PromptRun {
    /// A run shows the blocks from the first one on, and only while one is left. One that
    /// is past its turn knows how the turn came out, and one that compares work trees
    /// knows the trees.
    pub open spec fn wf(&self) -> bool {
        &&& rank(self.stage) < rank(PromptStage::Notifying) ==> self.shown == 0
        &&& self.stage == PromptStage::Notifying ==> self.shown < self.prompt@.len()
        &&& rank(PromptStage::RunningTurn) < rank(self.stage) < rank(PromptStage::Finished)
            ==> self.outcome is Some
        &&& rank(PromptStage::ResolvingSnapshot) < rank(self.stage) < rank(PromptStage::Finished)
            ==> self.turn is Some
        &&& self.stage == PromptStage::Diffing ==> self.post_snapshot is Some
    }

    /// A run for a prompt that was accepted, and the first thing to do.
    pub fn start(
        session_id: String,
        execution_timeout_secs: u64,
        prompt: Vec<ContentBlock>,
        message_id: String,
        created_at: i64,
        has_bridge: bool,
        has_snapshots: bool,
    ) -> (result: (PromptRun, PromptStep))
        ensures
            result.0.wf(),
            result.0.session_id == session_id,
            result.0.execution_timeout_secs == execution_timeout_secs,
            result.0.prompt == prompt,
            result.0.message_id == message_id,
            result.0.created_at == created_at,
            result.0.has_bridge == has_bridge,
            result.0.has_snapshots == has_snapshots,
            result.0.stage == PromptStage::AwaitingPermit,
            result.0.shown == 0,
            result.0.outcome is None,
            result.0.turn is None,
            result.0.post_snapshot is None,
            result.1.emit@.len() == 0,
            result.1.action == (PromptAction::AcquirePermit { wait_ms: FIRST_PERMIT_WAIT_MS }),
    {
        let run = PromptRun {
            session_id,
            execution_timeout_secs,
            prompt,
            message_id,
            display: String::new(),
            created_at,
            has_bridge,
            has_snapshots,
            stage: PromptStage::AwaitingPermit,
            shown: 0,
            outcome: None,
            turn: None,
            post_snapshot: None,
        };
        (run, quiet(PromptAction::AcquirePermit { wait_ms: FIRST_PERMIT_WAIT_MS }))
    }

    fn receive_prompt(&self) -> (step: PromptStep)
        ensures
            is_prompt_received(*self, step),
    {
        let content = render_prompt_for_display(&self.prompt);
        let user_text = format_prompt_user_text_only(&self.prompt);
        loud(
            AgentEventKind::PromptReceived { content, message_id: Some(self.message_id.clone()) },
            PromptAction::UpdateIntent { user_text },
        )
    }

    fn permit(&mut self, outcome: PermitOutcome) -> (step: PromptStep)
        requires
            old(self).stage == PromptStage::AwaitingPermit || old(self).stage
                == PromptStage::AwaitingQueuedPermit,
        ensures
            is_step(*old(self), PromptEvent::Permit(outcome), step),
            *final(self) == (PromptRun {
                stage: next_stage(*old(self), PromptEvent::Permit(outcome)),
                ..*old(self)
            }),
    {
        match outcome {
            PermitOutcome::Acquired => {
                self.stage = PromptStage::CleaningUp;
                quiet(PromptAction::CleanUpRevert)
            },
            PermitOutcome::Closed => {
                self.stage = PromptStage::Finished;
                quiet(PromptAction::Respond(Err(AgentError::SessionSemaphoreClosed)))
            },
            PermitOutcome::TimedOut => {
                if self.stage == PromptStage::AwaitingPermit {
                    self.stage = PromptStage::AwaitingQueuedPermit;
                    loud(
                        AgentEventKind::SessionQueued {
                            reason: "waiting for previous operation to complete".to_string(),
                        },
                        PromptAction::AcquirePermitFor { wait_secs: self.execution_timeout_secs },
                    )
                } else {
                    self.stage = PromptStage::Finished;
                    let mut details = "session_id=".to_string();
                    details.append(self.session_id.as_str());
                    details.append(", timeout=");
                    let secs = decimal_string(self.execution_timeout_secs);
                    details.append(secs.as_str());
                    details.append("s");
                    quiet(PromptAction::Respond(Err(AgentError::SessionTimeout { details })))
                }
            },
        }
    }

    /// Goes on after `event`. An event that the run does not wait for changes nothing.
    pub fn on_event(&mut self, event: PromptEvent) -> (step: PromptStep)
        requires
            old(self).wf(),
        ensures
            final(self).wf(),
            if expected(old(self).stage, event) {
                is_step(*old(self), event, step) && is_next(*old(self), event, *final(self))
            } else {
                step.action is Ignore && step.emit@.len() == 0 && *final(self) == *old(self)
            },
    {
        match event {
            PromptEvent::Permit(outcome) => {
                if self.stage == PromptStage::AwaitingPermit || self.stage
                    == PromptStage::AwaitingQueuedPermit {
                    return self.permit(outcome);
                }
            },
            PromptEvent::CleanedUp => {
                if self.stage == PromptStage::CleaningUp {
                    self.stage = PromptStage::LoadingSession;
                    return quiet(PromptAction::LoadSession);
                }
            },
            PromptEvent::SessionLoaded(result) => {
                if self.stage == PromptStage::LoadingSession {
                    return match result {
                        Ok(_) => {
                            self.stage = PromptStage::LoadingContext;
                            quiet(PromptAction::LoadContext)
                        },
                        Err(message) => {
                            self.stage = PromptStage::Finished;
                            fail(message)
                        },
                    };
                }
            },
            PromptEvent::ContextLoaded { result, cancelled } => {
                if self.stage == PromptStage::LoadingContext {
                    return match result {
                        Ok(_) => {
                            if self.has_bridge && !cancelled && self.prompt.len() > 0 {
                                self.stage = PromptStage::Notifying;
                                quiet(PromptAction::ShowBlock { index: 0 })
                            } else {
                                let step = self.receive_prompt();
                                self.stage = PromptStage::UpdatingIntent;
                                step
                            }
                        },
                        Err(message) => {
                            self.stage = PromptStage::Finished;
                            fail(message)
                        },
                    };
                }
            },
            PromptEvent::BlockShown { cancelled } => {
                if self.stage == PromptStage::Notifying {
                    let count: usize = self.prompt.len();
                    if !cancelled && self.shown + 1 < count {
                        self.shown = self.shown + 1;
                        return quiet(PromptAction::ShowBlock { index: self.shown });
                    }
                    let step = self.receive_prompt();
                    self.stage = PromptStage::UpdatingIntent;
                    return step;
                }
            },
            PromptEvent::IntentUpdated(result) => {
                if self.stage == PromptStage::UpdatingIntent {
                    return match result {
                        Ok(_) => {
                            self.display = render_prompt_for_display(&self.prompt);
                            let mut blocks: Vec<ContentBlock> = Vec::new();
                            std::mem::swap(&mut blocks, &mut self.prompt);
                            self.stage = PromptStage::StoringMessage;
                            let message = AgentMessage {
                                id: self.message_id.clone(),
                                session_id: self.session_id.clone(),
                                role: ChatRole::User,
                                parts: one_part(MessagePart::Prompt { blocks }),
                                created_at: self.created_at,
                                parent_message_id: None,
                            };
                            quiet(PromptAction::StoreMessage(message))
                        },
                        Err(message) => {
                            self.stage = PromptStage::Finished;
                            fail(message)
                        },
                    };
                }
            },
            PromptEvent::MessageStored(result) => {
                if self.stage == PromptStage::StoringMessage {
                    return match result {
                        Ok(_) => {
                            self.stage = PromptStage::RunningTurn;
                            loud(
                                AgentEventKind::UserMessageStored { content: self.display.clone() },
                                PromptAction::RunTurn { take_snapshot: self.has_snapshots },
                            )
                        },
                        Err(message) => {
                            self.stage = PromptStage::Finished;
                            loud(
                                AgentEventKind::Error { message: message.clone() },
                                PromptAction::Respond(Err(AgentError::Internal(message))),
                            )
                        },
                    };
                }
            },
            PromptEvent::TurnEnded(outcome) => {
                if self.stage == PromptStage::RunningTurn {
                    if self.has_snapshots {
                        self.outcome = Some(outcome);
                        self.stage = PromptStage::ResolvingSnapshot;
                        return quiet(PromptAction::ResolveSnapshot);
                    }
                    self.stage = PromptStage::Finished;
                    return answer(outcome);
                }
            },
            PromptEvent::SnapshotResolved(turn) => {
                if self.stage == PromptStage::ResolvingSnapshot {
                    if turn.is_some() {
                        self.turn = turn;
                        self.stage = PromptStage::Tracking;
                        return quiet(PromptAction::TrackWorkTree);
                    }
                    self.turn = None;
                    self.stage = PromptStage::Finished;
                    return answer(self.outcome.take().unwrap());
                }
            },
            PromptEvent::TreeRecorded(result) => {
                if self.stage == PromptStage::Tracking {
                    return match result {
                        Ok(post) => {
                            let from = self.turn.as_ref().unwrap().snapshot_id.clone();
                            let to = post.clone();
                            self.post_snapshot = Some(post);
                            if str_eq(from.as_str(), to.as_str()) {
                                self.stage = PromptStage::CollectingGarbage;
                                quiet(PromptAction::CollectGarbage)
                            } else {
                                self.stage = PromptStage::Diffing;
                                quiet(PromptAction::DiffWorkTree { from, to })
                            }
                        },
                        Err(_) => {
                            self.stage = PromptStage::CollectingGarbage;
                            quiet(PromptAction::CollectGarbage)
                        },
                    };
                }
            },
            PromptEvent::Diffed { changed, message_id, created_at } => {
                if self.stage == PromptStage::Diffing {
                    if let Ok(paths) = changed {
                        if paths.len() > 0 {
                            let part = MessagePart::TurnSnapshotPatch {
                                turn_id: self.turn.as_ref().unwrap().turn_id.clone(),
                                snapshot_id: self.post_snapshot.as_ref().unwrap().clone(),
                                changed_paths: paths,
                            };
                            let message = AgentMessage {
                                id: message_id,
                                session_id: self.session_id.clone(),
                                role: ChatRole::Assistant,
                                parts: one_part(part),
                                created_at,
                                parent_message_id: None,
                            };
                            self.stage = PromptStage::StoringPatch;
                            return quiet(PromptAction::StoreMessage(message));
                        }
                    }
                    self.stage = PromptStage::CollectingGarbage;
                    return quiet(PromptAction::CollectGarbage);
                }
            },
            PromptEvent::PatchStored => {
                if self.stage == PromptStage::StoringPatch {
                    self.stage = PromptStage::CollectingGarbage;
                    return quiet(PromptAction::CollectGarbage);
                }
            },
            PromptEvent::GarbageCollected => {
                if self.stage == PromptStage::CollectingGarbage {
                    self.stage = PromptStage::Finished;
                    return answer(self.outcome.take().unwrap());
                }
            },
        }
        quiet(PromptAction::Ignore)
    }
}

/// A run always moves forward: what it waits for takes it to a later stage, or to the next
/// block of the prompt. A run that is finished waits for nothing.
pub proof fn law_run_moves_forward(run: PromptRun, event: PromptEvent)
    ensures
        expected(run.stage, event) ==> rank(next_stage(run, event)) > rank(run.stage) || (event
            is BlockShown && run.shown + 1 < run.prompt@.len()),
        run.stage == PromptStage::Finished ==> !expected(run.stage, event),
{
}

/// A prompt is answered once: a run answers on the event that finishes it, and on no other.
pub proof fn law_runs_answer_once(run: PromptRun, event: PromptEvent, step: PromptStep)
    requires
        run.wf(),
        expected(run.stage, event),
        is_step(run, event, step),
    ensures
        step.action is Respond <==> next_stage(run, event) == PromptStage::Finished,
{
}

/// The session is loaded only after what an undo left behind was removed, and that only
/// with the permit in hand.
pub proof fn law_cleanup_comes_before_loading(run: PromptRun, event: PromptEvent)
    requires
        expected(run.stage, event),
    ensures
        next_stage(run, event) == PromptStage::LoadingSession ==> run.stage
            == PromptStage::CleaningUp,
        next_stage(run, event) == PromptStage::CleaningUp ==> event == PromptEvent::Permit(
            PermitOutcome::Acquired,
        ),
{
}

/// The turn runs only after the user's message was stored.
pub proof fn law_turn_runs_after_the_message_is_stored(run: PromptRun, event: PromptEvent)
    requires
        expected(run.stage, event),
        next_stage(run, event) == PromptStage::RunningTurn,
    ensures
        event matches PromptEvent::MessageStored(result) && result is Ok,
{
}

/// A turn's changes are recorded only where the work tree is not what it was before the
/// turn and some path differs.
pub proof fn law_patch_only_for_changes(run: PromptRun, event: PromptEvent)
    requires
        expected(run.stage, event),
    ensures
        next_stage(run, event) == PromptStage::Diffing ==> (event matches PromptEvent::TreeRecorded(
            result,
        ) && result is Ok && run.turn->Some_0.snapshot_id@ != result->Ok_0@),
        next_stage(run, event) == PromptStage::StoringPatch ==> (event matches PromptEvent::Diffed {
            changed,
            ..
        } && changed is Ok && changed->Ok_0@.len() > 0),
{
}

/// What the user said is stored as said by the user: one message of the user, under the
/// run's id and in its session, that holds the prompt and nothing else.
pub proof fn law_prompts_are_stored_as_the_users(run: PromptRun, event: PromptEvent, step: PromptStep)
    requires
        is_step(run, event, step),
        event matches PromptEvent::IntentUpdated(result) && result is Ok,
    ensures
        step.action matches PromptAction::StoreMessage(message) && {
            &&& message.role == ChatRole::User
            &&& message.id@ == run.message_id@
            &&& message.session_id@ == run.session_id@
            &&& message.created_at == run.created_at
            &&& message.parent_message_id is None
            &&& message.parts@.len() == 1
            &&& message.parts@[0] is Prompt
            &&& message.parts@[0]->blocks@ == run.prompt@
        },
        step.emit@.len() == 0,
{
}

/// What a turn changed is stored with the turn it belongs to: the paths that differ, and the
/// state of the work tree after the turn. Where nothing differs nothing is stored.
pub proof fn law_changes_are_stored_with_their_turn(
    run: PromptRun,
    event: PromptEvent,
    step: PromptStep,
    changed: Result<Vec<String>, String>,
    message_id: String,
    created_at: i64,
)
    requires
        is_step(run, event, step),
        run.stage == PromptStage::Diffing,
        event == (PromptEvent::Diffed { changed, message_id, created_at }),
    ensures
        step.emit@.len() == 0,
        (changed matches Ok(paths) && paths@.len() > 0) ==> (step.action matches
            PromptAction::StoreMessage(message) && {
            &&& message.id == message_id
            &&& message.session_id@ == run.session_id@
            &&& message.role == ChatRole::Assistant
            &&& message.created_at == created_at
            &&& message.parent_message_id is None
            &&& message.parts@.len() == 1
            &&& message.parts@[0] matches MessagePart::TurnSnapshotPatch {
                turn_id,
                snapshot_id,
                changed_paths,
            }
            &&& turn_id@ == run.turn->Some_0.turn_id@
            &&& snapshot_id@ == run.post_snapshot->Some_0@
            &&& changed_paths@ == changed->Ok_0@
        }),
        !(changed matches Ok(paths) && paths@.len() > 0) ==> step.action is CollectGarbage,
{
}

/// The work trees before and after a turn are compared where they are not the same one.
pub proof fn law_work_trees_are_compared(run: PromptRun, event: PromptEvent, step: PromptStep)
    requires
        is_step(run, event, step),
        run.stage == PromptStage::Tracking,
        event is TreeRecorded,
    ensures
        step.emit@.len() == 0,
        event matches PromptEvent::TreeRecorded(Ok(post)) ==> if post@
            == run.turn->Some_0.snapshot_id@ {
            step.action is CollectGarbage
        } else {
            step.action matches PromptAction::DiffWorkTree { from, to } && from@
                == run.turn->Some_0.snapshot_id@ && to@ == post@
        },
        event matches PromptEvent::TreeRecorded(Err(_)) ==> step.action is CollectGarbage,
{
}

/// A prompt is answered as its turn ended. A turn that failed is answered with its own
/// words, and those are told too; of any other turn nothing more is told.
pub proof fn law_answers_say_how_the_turn_ended(
    run: PromptRun,
    event: PromptEvent,
    step: PromptStep,
    outcome: Result<CycleOutcome, String>,
)
    requires
        is_step(run, event, step),
        ({
            ||| event == PromptEvent::TurnEnded(outcome) && !run.has_snapshots
            ||| event == PromptEvent::SnapshotResolved(None) && run.outcome == Some(outcome)
            ||| event == PromptEvent::GarbageCollected && run.outcome == Some(outcome)
        }),
    ensures
        step.action matches PromptAction::Respond(response) && match outcome {
            Ok(CycleOutcome::Completed) => response == Ok::<StopReason, AgentError>(
                StopReason::EndTurn,
            ),
            Ok(CycleOutcome::Cancelled) => response == Ok::<StopReason, AgentError>(
                StopReason::Cancelled,
            ),
            Ok(CycleOutcome::Stopped(reason)) => response == Ok::<StopReason, AgentError>(reason),
            Err(words) => response matches Err(AgentError::Internal(told)) && told@ == words@,
        },
        outcome is Ok ==> step.emit@.len() == 0,
        outcome matches Err(words) ==> {
            &&& step.emit@.len() == 1
            &&& step.emit@[0] matches AgentEventKind::Error { message }
            &&& message@ == words@
        },
{
}

/// What goes wrong before the turn is answered in its own words. Only that the user's
/// message could not be stored is told as well.
pub proof fn law_failures_are_answered_in_their_words(
    run: PromptRun,
    event: PromptEvent,
    step: PromptStep,
    words: String,
)
    requires
        is_step(run, event, step),
        ({
            ||| event == PromptEvent::SessionLoaded(Err(words))
            ||| event matches PromptEvent::ContextLoaded { result, .. } && result
                == Err::<(), String>(words)
            ||| event == PromptEvent::IntentUpdated(Err(words))
            ||| event == PromptEvent::MessageStored(Err(words))
        }),
    ensures
        step.action matches PromptAction::Respond(Err(AgentError::Internal(told))) && told@
            == words@,
        event is MessageStored ==> step.emit@.len() == 1 && (step.emit@[0] matches
            AgentEventKind::Error { message } && message@ == words@),
        !(event is MessageStored) ==> step.emit@.len() == 0,
{
}

/// A prompt that finds its session busy says that it is queued and waits for as long as a
/// turn may take; a second wait in vain, or a session that is closed, ends it.
pub proof fn law_busy_sessions_queue_once(run: PromptRun, event: PromptEvent, step: PromptStep)
    requires
        is_step(run, event, step),
        event is Permit,
    ensures
        event == PromptEvent::Permit(PermitOutcome::Acquired) ==> step.action is CleanUpRevert
            && step.emit@.len() == 0,
        event == PromptEvent::Permit(PermitOutcome::Closed) ==> step.action
            == PromptAction::Respond(Err(AgentError::SessionSemaphoreClosed)) && step.emit@.len()
            == 0,
        event == PromptEvent::Permit(PermitOutcome::TimedOut) && run.stage
            == PromptStage::AwaitingPermit ==> step.action == (PromptAction::AcquirePermitFor {
            wait_secs: run.execution_timeout_secs,
        }) && step.emit@.len() == 1 && (step.emit@[0] matches AgentEventKind::SessionQueued {
            reason,
        } && reason@ == "waiting for previous operation to complete"@),
        event == PromptEvent::Permit(PermitOutcome::TimedOut) && run.stage
            == PromptStage::AwaitingQueuedPermit ==> step.emit@.len() == 0 && (step.action matches
            PromptAction::Respond(Err(AgentError::SessionTimeout { details })) && details@
            == "session_id="@ + run.session_id@ + ", timeout="@ + text::decimal(
            run.execution_timeout_secs as nat,
        ) + "s"@),
{
}

/// A client is shown every block of the prompt, in order, unless the prompt is cancelled in
/// between. Then the prompt is announced under its id, and the intent is updated with what the
/// user wrote.
pub proof fn law_blocks_are_shown_in_order(run: PromptRun, event: PromptEvent, step: PromptStep)
    requires
        is_step(run, event, step),
        event matches PromptEvent::ContextLoaded { result, .. } && result is Ok
            || event is BlockShown,
    ensures
        ({
            let (next, cancelled) = match event {
                PromptEvent::ContextLoaded { cancelled, .. } => (0int, cancelled || !run.has_bridge),
                PromptEvent::BlockShown { cancelled } => (run.shown + 1, cancelled),
                _ => (0int, true),
            };
            if !cancelled && next < run.prompt.len() {
                &&& step.action matches PromptAction::ShowBlock { index }
                &&& index == next
                &&& step.emit@.len() == 0
            } else {
                &&& step.action matches PromptAction::UpdateIntent { user_text }
                &&& user_text@ == utils::user_text(run.prompt@)
                &&& step.emit@.len() == 1
                &&& step.emit@[0] matches AgentEventKind::PromptReceived { content, message_id }
                &&& content@ == utils::display_text(run.prompt@)
                &&& message_id is Some
                &&& message_id->Some_0@ == run.message_id@
            }
        }),
{
}

/// The turn is run once the prompt is stored, with a snapshot where the work tree can be
/// tracked, and the message is told as users see it.
pub proof fn law_stored_prompts_are_run(run: PromptRun, event: PromptEvent, step: PromptStep)
    requires
        is_step(run, event, step),
        event matches PromptEvent::MessageStored(result) && result is Ok,
    ensures
        step.action == (PromptAction::RunTurn { take_snapshot: run.has_snapshots }),
        step.emit@.len() == 1,
        step.emit@[0] matches AgentEventKind::UserMessageStored { content } && content@
            == run.display@,
{
}

/// What a run asks for in between: the session and its context are loaded after the
/// clean-up, and after the turn its snapshot is resolved and the work tree recorded, where it
/// can be tracked. Garbage is collected last.
pub proof fn law_steps_follow_each_other(run: PromptRun, event: PromptEvent, step: PromptStep)
    requires
        is_step(run, event, step),
    ensures
        event is CleanedUp ==> step.action is LoadSession && step.emit@.len() == 0,
        (event matches PromptEvent::SessionLoaded(Ok(_))) ==> step.action is LoadContext
            && step.emit@.len() == 0,
        event is TurnEnded && run.has_snapshots ==> step.action is ResolveSnapshot
            && step.emit@.len() == 0,
        (event matches PromptEvent::SnapshotResolved(Some(_))) ==> step.action is TrackWorkTree
            && step.emit@.len() == 0,
        event is PatchStored ==> step.action is CollectGarbage && step.emit@.len() == 0,
{
}

/// A run waits in each stage for the outcome of what it asked for, and for nothing else.
pub proof fn law_each_stage_waits_for_its_outcome(stage: PromptStage, event: PromptEvent)
    ensures
        expected(stage, event) <==> match event {
            PromptEvent::Permit(_) => stage == PromptStage::AwaitingPermit || stage
                == PromptStage::AwaitingQueuedPermit,
            PromptEvent::CleanedUp => stage == PromptStage::CleaningUp,
            PromptEvent::SessionLoaded(_) => stage == PromptStage::LoadingSession,
            PromptEvent::ContextLoaded { .. } => stage == PromptStage::LoadingContext,
            PromptEvent::BlockShown { .. } => stage == PromptStage::Notifying,
            PromptEvent::IntentUpdated(_) => stage == PromptStage::UpdatingIntent,
            PromptEvent::MessageStored(_) => stage == PromptStage::StoringMessage,
            PromptEvent::TurnEnded(_) => stage == PromptStage::RunningTurn,
            PromptEvent::SnapshotResolved(_) => stage == PromptStage::ResolvingSnapshot,
            PromptEvent::TreeRecorded(_) => stage == PromptStage::Tracking,
            PromptEvent::Diffed { .. } => stage == PromptStage::Diffing,
            PromptEvent::PatchStored => stage == PromptStage::StoringPatch,
            PromptEvent::GarbageCollected => stage == PromptStage::CollectingGarbage,
        },
{
}

/// The stage of a run is the one that waits for what the run asked for, and a run that has
/// answered is finished.
pub proof fn law_stages_fit_the_actions(
    run: PromptRun,
    event: PromptEvent,
    after: PromptRun,
    step: PromptStep,
)
    requires
        run.wf(),
        expected(run.stage, event),
        is_step(run, event, step),
        is_next(run, event, after),
    ensures
        match step.action {
            PromptAction::AcquirePermit { .. } => false,
            PromptAction::AcquirePermitFor { .. } => after.stage
                == PromptStage::AwaitingQueuedPermit,
            PromptAction::CleanUpRevert => after.stage == PromptStage::CleaningUp,
            PromptAction::LoadSession => after.stage == PromptStage::LoadingSession,
            PromptAction::LoadContext => after.stage == PromptStage::LoadingContext,
            PromptAction::ShowBlock { index } => after.stage == PromptStage::Notifying && index
                == after.shown,
            PromptAction::UpdateIntent { .. } => after.stage == PromptStage::UpdatingIntent,
            PromptAction::StoreMessage(_) => after.stage == if run.stage
                == PromptStage::UpdatingIntent {
                PromptStage::StoringMessage
            } else {
                PromptStage::StoringPatch
            },
            PromptAction::RunTurn { .. } => after.stage == PromptStage::RunningTurn,
            PromptAction::ResolveSnapshot => after.stage == PromptStage::ResolvingSnapshot,
            PromptAction::TrackWorkTree => after.stage == PromptStage::Tracking,
            PromptAction::DiffWorkTree { .. } => after.stage == PromptStage::Diffing,
            PromptAction::CollectGarbage => after.stage == PromptStage::CollectingGarbage,
            PromptAction::Respond(_) => after.stage == PromptStage::Finished,
            PromptAction::Ignore => false,
        },
{
}

/// A run keeps what it was asked, and what it has learned until it has used it: the prompt
/// until it is stored, the turn's outcome until it is answered, the turn's snapshot and the
/// state after the turn.
pub proof fn law_runs_keep_what_they_know(run: PromptRun, event: PromptEvent, after: PromptRun)
    requires
        is_next(run, event, after),
    ensures
        after.session_id == run.session_id,
        after.execution_timeout_secs == run.execution_timeout_secs,
        after.message_id == run.message_id,
        after.created_at == run.created_at,
        after.has_bridge == run.has_bridge,
        after.has_snapshots == run.has_snapshots,
        !(event is IntentUpdated) ==> after.prompt == run.prompt && after.display == run.display,
        (event matches PromptEvent::IntentUpdated(Err(_))) ==> after.prompt == run.prompt,
        (event matches PromptEvent::IntentUpdated(Ok(_))) ==> after.display@
            == utils::display_text(run.prompt@),
        event matches PromptEvent::TurnEnded(outcome) ==> (run.has_snapshots ==> after.outcome
            == Some(outcome)),
        event is TreeRecorded || event is Diffed || event is PatchStored || (event matches
            PromptEvent::SnapshotResolved(Some(_))) ==> after.outcome == run.outcome,
        event matches PromptEvent::SnapshotResolved(turn) ==> after.turn == turn,
        !(event is SnapshotResolved) ==> after.turn == run.turn,
        event matches PromptEvent::TreeRecorded(Ok(post)) ==> after.post_snapshot == Some(post),
        !(event is TreeRecorded) ==> after.post_snapshot == run.post_snapshot,
{
}

} // verus!
