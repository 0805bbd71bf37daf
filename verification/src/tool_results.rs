//! How the results of a turn's tool calls are stored, one after the other, together with
//! what the calls leave behind.
//!
//! The storing is a state machine that says what is to be done next and is told how that
//! went.
use vstd::prelude::*;

use crate::events::AgentEventKind;
use crate::model::{AgentMessage, ChatMessage};
use crate::stamps::MessageStamp;
use crate::tool_execution;
use crate::tool_execution::{after_results, result_message, side_effect, SideEffect};
use crate::transitions::{ConversationContext, ExecutionState, ToolResult, WaitCondition};

verus! {

/// Where the storing stands, that is, what it waits for.
#[derive(Debug, Clone, Copy, PartialEq, Eq, Structural)]
pub enum StoreStage {
    GettingProvider,
    StoringResult,
    RecordingArtifact,
    RecordingDelegation,
    Finished,
}

/// What the storing is told.
#[derive(Debug)]
pub enum StoreEvent {
    ProviderReady(Result<(), String>),
    /// The result was stored, or was not. `message` is the result as the model sees it.
    ResultStored { result: Result<(), String>, message: ChatMessage },
    /// The file was recorded under this number, or could not be; either way the storing goes
    /// on.
    ArtifactRecorded(Result<u64, String>),
    /// The delegation was recorded under this id, or could not be; either way the storing
    /// goes on.
    DelegationRecorded(Result<String, String>),
}

/// What the storing asks for.
#[derive(Debug)]
pub enum StoreAction {
    GetProvider,
    StoreResult(AgentMessage),
    /// Records a file that a tool produced.
    RecordArtifact(SideEffect),
    /// Records the work that another agent is to do.
    RecordDelegation(SideEffect),
    /// The turn goes on from here.
    Next(ExecutionState),
    /// The turn fails.
    Fail(String),
    /// The event does not belong to the stage; nothing is to be done.
    Ignore,
}

/// What the storing does on an event: the event that it emits, if any, and what it asks for
/// then.
#[derive(Debug)]
pub struct StoreStep {
    pub emit: Option<AgentEventKind>,
    pub action: StoreAction,
}

/// The storing of a turn's results.
#[derive(Debug)]
pub struct StoreRun {
    /// The session of the turn.
    pub session_id: String,
    pub stage: StoreStage,
    /// The results that are not stored yet.
    pub remaining: Vec<ToolResult>,
    /// The conversation, until the turn goes on.
    pub context: Option<ConversationContext>,
    /// The results that were stored, as the model sees them.
    pub messages: Vec<ChatMessage>,
    /// What the turn has to wait for.
    pub waits: Vec<WaitCondition>,
    /// What the call leaves behind whose result is being stored.
    pub effect: SideEffect,
}

/// `action` fails with these words.
pub open spec fn fails(action: StoreAction, words: Seq<char>) -> bool {
    action matches StoreAction::Fail(message) && message@ == words
}

/// The next result is stored, or the turn goes on where none is left.
pub open spec fn goes_on(
    run: StoreRun,
    messages: Seq<ChatMessage>,
    waits: Seq<WaitCondition>,
    stamp: MessageStamp,
    after: StoreRun,
    action: StoreAction,
) -> bool {
    let context = run.context->Some_0;
    &&& after.session_id == run.session_id
    &&& if run.remaining@.len() == 0 {
        &&& after.stage == StoreStage::Finished
        &&& after.context is None
        &&& action matches StoreAction::Next(next) && tool_execution::follows_results(
            context,
            messages,
            waits,
            next,
        )
    } else {
        &&& after.stage == StoreStage::StoringResult
        &&& after.context == run.context
        &&& after.remaining@ == run.remaining@.drop_first()
        &&& after.messages@ == messages
        &&& after.waits@ == waits
        &&& tool_execution::leaves(run.remaining@.first(), after.effect)
        &&& action matches StoreAction::StoreResult(message) && tool_execution::is_result_message(
            run.remaining@.first(),
            run.session_id@,
            stamp.message_id,
            stamp.created_at,
            message,
        )
    }
}

/// What the storing tells on `event`: that something was recorded.
pub open spec fn tells(stage: StoreStage, event: StoreEvent) -> Option<AgentEventKind> {
    match (stage, event) {
        (StoreStage::RecordingArtifact, StoreEvent::ArtifactRecorded(Ok(artifact))) => Some(
            AgentEventKind::ArtifactRecorded { artifact },
        ),
        (StoreStage::RecordingDelegation, StoreEvent::DelegationRecorded(Ok(id))) => Some(
            AgentEventKind::DelegationRequested { delegation_id: id },
        ),
        _ => None,
    }
}

/// What the storing becomes and asks for on `event`.
pub open spec fn is_step(
    run: StoreRun,
    event: StoreEvent,
    stamp: MessageStamp,
    after: StoreRun,
    action: StoreAction,
) -> bool {
    let failed = StoreRun { stage: StoreStage::Finished, ..run };
    match (run.stage, event) {
        (StoreStage::GettingProvider, StoreEvent::ProviderReady(result)) => match result {
            Err(reason) => {
                &&& after == failed
                &&& fails(action, "Failed to get provider context: "@ + reason@)
            },
            Ok(_) => goes_on(run, run.messages@, run.waits@, stamp, after, action),
        },
        (StoreStage::StoringResult, StoreEvent::ResultStored { result, message }) => match result {
            Err(reason) => {
                &&& after == failed
                &&& fails(action, "Failed to store tool result: "@ + reason@)
            },
            Ok(_) => match run.effect {
                SideEffect::Nothing => goes_on(
                    run,
                    run.messages@.push(message),
                    run.waits@,
                    stamp,
                    after,
                    action,
                ),
                SideEffect::Artifact { .. } => {
                    &&& after.messages@ == run.messages@.push(message)
                    &&& after == (StoreRun {
                        stage: StoreStage::RecordingArtifact,
                        messages: after.messages,
                        effect: SideEffect::Nothing,
                        ..run
                    })
                    &&& action == StoreAction::RecordArtifact(run.effect)
                },
                SideEffect::Delegation { .. } => {
                    &&& after.messages@ == run.messages@.push(message)
                    &&& after == (StoreRun {
                        stage: StoreStage::RecordingDelegation,
                        messages: after.messages,
                        effect: SideEffect::Nothing,
                        ..run
                    })
                    &&& action == StoreAction::RecordDelegation(run.effect)
                },
            },
        },
        (StoreStage::RecordingArtifact, StoreEvent::ArtifactRecorded(_)) => goes_on(
            run,
            run.messages@,
            run.waits@,
            stamp,
            after,
            action,
        ),
        (StoreStage::RecordingDelegation, StoreEvent::DelegationRecorded(recorded)) => {
            match recorded {
                Ok(id) => exists|wait: WaitCondition|
                    wait.correlation_ids@ == seq![id] && #[trigger] goes_on(
                        run,
                        run.messages@,
                        run.waits@.push(wait),
                        stamp,
                        after,
                        action,
                    ),
                Err(_) => goes_on(run, run.messages@, run.waits@, stamp, after, action),
            }
        },
        _ => after == run && action is Ignore,
    }
}

fn described(what: &str, reason: String) -> (action: StoreAction)
    ensures
        fails(action, what@ + reason@),
{
    let mut message = what.to_owned();
    message.append(reason.as_str());
    StoreAction::Fail(message)
}

impl StoreRun {
    /// The storing knows the conversation until the turn goes on.
    pub open spec fn wf(&self) -> bool {
        self.stage != StoreStage::Finished ==> self.context is Some
    }

    /// The storing of these results, and the first thing to do.
    pub fn start(
        session_id: String,
        results: Vec<ToolResult>,
        context: ConversationContext,
    ) -> (result: (StoreRun, StoreAction))
        ensures
            result.0.wf(),
            result.0.session_id == session_id,
            result.0.stage == StoreStage::GettingProvider,
            result.0.remaining == results,
            result.0.context == Some(context),
            result.0.messages@.len() == 0,
            result.0.waits@.len() == 0,
            result.1 is GetProvider,
    {
        let run = StoreRun {
            session_id,
            stage: StoreStage::GettingProvider,
            remaining: results,
            context: Some(context),
            messages: Vec::new(),
            waits: Vec::new(),
            effect: SideEffect::Nothing,
        };
        (run, StoreAction::GetProvider)
    }

    fn go_on(&mut self, stamp: MessageStamp) -> (action: StoreAction)
        requires
            old(self).context is Some,
        ensures
            final(self).wf(),
            goes_on(
                *old(self),
                old(self).messages@,
                old(self).waits@,
                stamp,
                *final(self),
                action,
            ),
    {
        if self.remaining.len() == 0 {
            self.stage = StoreStage::Finished;
            let context = self.context.take().unwrap();
            let mut messages: Vec<ChatMessage> = Vec::new();
            std::mem::swap(&mut messages, &mut self.messages);
            let mut waits: Vec<WaitCondition> = Vec::new();
            std::mem::swap(&mut waits, &mut self.waits);
            return StoreAction::Next(after_results(context, messages, waits));
        }
        let ghost waiting = self.remaining@;
        let result = self.remaining.remove(0);
        assert(self.remaining@ =~= waiting.drop_first());
        self.effect = side_effect(&result);
        self.stage = StoreStage::StoringResult;
        let message = result_message(
            result,
            self.session_id.as_str(),
            stamp.message_id,
            stamp.created_at,
        );
        StoreAction::StoreResult(message)
    }

    fn stored(&mut self, stamp: MessageStamp) -> (action: StoreAction)
        requires
            old(self).context is Some,
            old(self).stage == StoreStage::StoringResult,
        ensures
            final(self).wf(),
            match old(self).effect {
                SideEffect::Nothing => goes_on(
                    *old(self),
                    old(self).messages@,
                    old(self).waits@,
                    stamp,
                    *final(self),
                    action,
                ),
                SideEffect::Artifact { .. } => {
                    &&& *final(self) == (StoreRun {
                        stage: StoreStage::RecordingArtifact,
                        effect: SideEffect::Nothing,
                        ..*old(self)
                    })
                    &&& action == StoreAction::RecordArtifact(old(self).effect)
                },
                SideEffect::Delegation { .. } => {
                    &&& *final(self) == (StoreRun {
                        stage: StoreStage::RecordingDelegation,
                        effect: SideEffect::Nothing,
                        ..*old(self)
                    })
                    &&& action == StoreAction::RecordDelegation(old(self).effect)
                },
            },
    {
        let mut effect = SideEffect::Nothing;
        std::mem::swap(&mut effect, &mut self.effect);
        match effect {
            SideEffect::Nothing => self.go_on(stamp),
            SideEffect::Artifact { kind, path, summary } => {
                self.stage = StoreStage::RecordingArtifact;
                StoreAction::RecordArtifact(SideEffect::Artifact { kind, path, summary })
            },
            effect => {
                self.stage = StoreStage::RecordingDelegation;
                StoreAction::RecordDelegation(effect)
            },
        }
    }

    /// Goes on after `event`. An event that the storing does not wait for changes nothing.
    pub fn on_event(&mut self, event: StoreEvent, stamp: MessageStamp) -> (step: StoreStep)
        requires
            old(self).wf(),
        ensures
            final(self).wf(),
            is_step(*old(self), event, stamp, *final(self), step.action),
            step.emit == tells(old(self).stage, event),
    {
        let emit = match (self.stage, &event) {
            (StoreStage::RecordingArtifact, StoreEvent::ArtifactRecorded(Ok(artifact))) => Some(
                AgentEventKind::ArtifactRecorded { artifact: *artifact },
            ),
            (StoreStage::RecordingDelegation, StoreEvent::DelegationRecorded(Ok(id))) => Some(
                AgentEventKind::DelegationRequested { delegation_id: id.clone() },
            ),
            _ => None,
        };
        let action = self.advance(event, stamp);
        StoreStep { emit, action }
    }

    fn advance(&mut self, event: StoreEvent, stamp: MessageStamp) -> (action: StoreAction)
        requires
            old(self).wf(),
        ensures
            final(self).wf(),
            is_step(*old(self), event, stamp, *final(self), action),
    {
        match (self.stage, event) {
            (StoreStage::GettingProvider, StoreEvent::ProviderReady(result)) => match result {
                Err(reason) => {
                    self.stage = StoreStage::Finished;
                    described("Failed to get provider context: ", reason)
                },
                Ok(_) => self.go_on(stamp),
            },
            (StoreStage::StoringResult, StoreEvent::ResultStored { result, message }) => {
                match result {
                    Err(reason) => {
                        self.stage = StoreStage::Finished;
                        described("Failed to store tool result: ", reason)
                    },
                    Ok(_) => {
                        self.messages.push(message);
                        self.stored(stamp)
                    },
                }
            },
            (StoreStage::RecordingArtifact, StoreEvent::ArtifactRecorded(_)) => self.go_on(stamp),
            (StoreStage::RecordingDelegation, StoreEvent::DelegationRecorded(recorded)) => {
                match recorded {
                    Ok(id) => {
                        let wait = WaitCondition::delegation(id);
                        let ghost begun = wait;
                        self.waits.push(wait);
                        let action = self.go_on(stamp);
                        assert(goes_on(
                            *old(self),
                            old(self).messages@,
                            old(self).waits@.push(begun),
                            stamp,
                            *self,
                            action,
                        ));
                        action
                    },
                    Err(_) => self.go_on(stamp),
                }
            },
            _ => StoreAction::Ignore,
        }
    }
}

/// The results of a turn are stored one after the other, first to last: the next one is
/// stored in the turn's own session, and when none is left the turn goes on with all of them.
pub proof fn law_results_are_stored_in_order(
    run: StoreRun,
    messages: Seq<ChatMessage>,
    waits: Seq<WaitCondition>,
    stamp: MessageStamp,
    after: StoreRun,
    action: StoreAction,
)
    requires
        goes_on(run, messages, waits, stamp, after, action),
        run.context is Some,
    ensures
        after.session_id == run.session_id,
        run.remaining@.len() > 0 ==> {
            &&& after.stage == StoreStage::StoringResult
            &&& after.context == run.context
            &&& after.remaining@ == run.remaining@.subrange(1, run.remaining@.len() as int)
            &&& after.messages@ == messages
            &&& after.waits@ == waits
            &&& tool_execution::leaves(run.remaining@[0], after.effect)
            &&& action matches StoreAction::StoreResult(message)
            &&& message.id == stamp.message_id
            &&& message.created_at == stamp.created_at
            &&& message.session_id@ == run.session_id@
            &&& message.role == crate::model::ChatRole::User
            &&& message.parts@[0] matches crate::model::MessagePart::ToolResult {
                call_id,
                content,
                is_error,
                ..
            }
            &&& call_id == run.remaining@[0].call_id
            &&& content == run.remaining@[0].content
            &&& is_error == run.remaining@[0].is_error
        },
        run.remaining@.len() == 0 ==> {
            &&& after.stage == StoreStage::Finished
            &&& action matches StoreAction::Next(next)
            &&& waits.len() == 0 ==> (next matches ExecutionState::BeforeTurn { context }
                && context.messages@ == run.context->Some_0.messages@ + messages)
            &&& waits.len() > 0 ==> (next matches ExecutionState::WaitingForEvent { context, .. }
                && context.messages@ == run.context->Some_0.messages@ + messages)
        },
{
    assert(run.remaining@.len() > 0 ==> run.remaining@.drop_first() =~= run.remaining@.subrange(
        1,
        run.remaining@.len() as int,
    ));
}

/// What a stored result leaves is recorded before the next result is stored: a file as an
/// artifact, work for another agent as a delegation.
pub proof fn law_side_effects_are_recorded(
    run: StoreRun,
    result: Result<(), String>,
    message: ChatMessage,
    stamp: MessageStamp,
    after: StoreRun,
    action: StoreAction,
)
    requires
        run.stage == StoreStage::StoringResult,
        is_step(run, StoreEvent::ResultStored { result, message }, stamp, after, action),
    ensures
        result matches Err(reason) ==> after.stage == StoreStage::Finished && (action matches
            StoreAction::Fail(words) && words@ == "Failed to store tool result: "@ + reason@),
        result is Ok && run.effect is Artifact ==> after.stage == StoreStage::RecordingArtifact
            && action == StoreAction::RecordArtifact(run.effect),
        result is Ok && run.effect is Delegation ==> after.stage == StoreStage::RecordingDelegation
            && action == StoreAction::RecordDelegation(run.effect),
        result is Ok && !(run.effect is Nothing) ==> after.messages@ == run.messages@.push(message)
            && after.remaining == run.remaining && after.waits == run.waits && after.context
            == run.context && after.effect is Nothing,
        result is Ok && run.effect is Nothing ==> goes_on(
            run,
            run.messages@.push(message),
            run.waits@,
            stamp,
            after,
            action,
        ),
{
}

/// A turn waits for exactly the delegations that could be recorded: a recorded one is added
/// to what it waits for, and nothing else is.
pub proof fn law_recorded_delegations_are_waited_for(
    run: StoreRun,
    recorded: Result<String, String>,
    stamp: MessageStamp,
    after: StoreRun,
    action: StoreAction,
)
    requires
        run.stage == StoreStage::RecordingDelegation,
        is_step(run, StoreEvent::DelegationRecorded(recorded), stamp, after, action),
        run.remaining@.len() > 0,
    ensures
        recorded matches Ok(id) ==> after.waits@.len() == run.waits@.len() + 1
            && after.waits@.drop_last() == run.waits@ && after.waits@.last().correlation_ids@.len()
            == 1 && after.waits@.last().correlation_ids@[0] == id,
        recorded is Err ==> after.waits@ == run.waits@,
        after.messages@ == run.messages@,
{
    if let Ok(id) = recorded {
        let wait = choose|wait: WaitCondition|
            wait.correlation_ids@ == seq![id] && #[trigger] goes_on(
                run,
                run.messages@,
                run.waits@.push(wait),
                stamp,
                after,
                action,
            );
        assert(after.waits@ == run.waits@.push(wait));
        assert(after.waits@.drop_last() =~= run.waits@);
    }
}

/// The last result's delegation is waited for too, where it was recorded.
pub proof fn law_the_last_delegation_is_waited_for(
    run: StoreRun,
    id: String,
    stamp: MessageStamp,
    after: StoreRun,
    action: StoreAction,
)
    requires
        run.stage == StoreStage::RecordingDelegation,
        is_step(run, StoreEvent::DelegationRecorded(Ok(id)), stamp, after, action),
        run.remaining@.len() == 0,
    ensures
        action matches StoreAction::Next(ExecutionState::WaitingForEvent { wait, .. })
            && wait.correlation_ids@.len() > 0 && wait.correlation_ids@.last() == id,
{
    let wait = choose|wait: WaitCondition|
        wait.correlation_ids@ == seq![id] && #[trigger] goes_on(
            run,
            run.messages@,
            run.waits@.push(wait),
            stamp,
            after,
            action,
        );
    let waits = run.waits@.push(wait);
    assert(waits.drop_last() =~= run.waits@);
    assert(tool_execution::all_ids(waits) == tool_execution::all_ids(run.waits@) + seq![id]);
}

/// Whatever came of the record of a file, the storing goes on with what it has; a provider
/// that cannot be had fails the turn.
pub proof fn law_storing_goes_on_after_a_record(
    run: StoreRun,
    recorded: Result<u64, String>,
    ready: Result<(), String>,
    stamp: MessageStamp,
    after: StoreRun,
    action: StoreAction,
)
    ensures
        run.stage == StoreStage::RecordingArtifact && is_step(
            run,
            StoreEvent::ArtifactRecorded(recorded),
            stamp,
            after,
            action,
        ) ==> goes_on(run, run.messages@, run.waits@, stamp, after, action),
        run.stage == StoreStage::GettingProvider && is_step(
            run,
            StoreEvent::ProviderReady(ready),
            stamp,
            after,
            action,
        ) ==> match ready {
            Ok(_) => goes_on(run, run.messages@, run.waits@, stamp, after, action),
            Err(reason) => after.stage == StoreStage::Finished && (action matches
                StoreAction::Fail(words) && words@ == "Failed to get provider context: "@
                + reason@),
        },
{
}

/// Exactly what was recorded is announced, under the number or the id that it got.
pub proof fn law_records_are_announced(stage: StoreStage, event: StoreEvent)
    ensures
        stage == StoreStage::RecordingArtifact && (event matches StoreEvent::ArtifactRecorded(
            Ok(_),
        )) ==> tells(stage, event) == Some(
            AgentEventKind::ArtifactRecorded { artifact: event->ArtifactRecorded_0->Ok_0 },
        ),
        stage == StoreStage::RecordingDelegation && (event matches StoreEvent::DelegationRecorded(
            Ok(_),
        )) ==> tells(stage, event) == Some(
            AgentEventKind::DelegationRequested {
                delegation_id: event->DelegationRecorded_0->Ok_0,
            },
        ),
        tells(stage, event) is Some ==> (stage == StoreStage::RecordingArtifact
            && event is ArtifactRecorded) || (stage == StoreStage::RecordingDelegation
            && event is DelegationRecorded),
{
}

/// An event that does not belong to the stage changes nothing.
pub proof fn law_other_events_store_nothing(
    run: StoreRun,
    event: StoreEvent,
    stamp: MessageStamp,
    after: StoreRun,
    action: StoreAction,
)
    requires
        is_step(run, event, stamp, after, action),
        !(run.stage == StoreStage::GettingProvider && event is ProviderReady),
        !(run.stage == StoreStage::StoringResult && event is ResultStored),
        !(run.stage == StoreStage::RecordingArtifact && event is ArtifactRecorded),
        !(run.stage == StoreStage::RecordingDelegation && event is DelegationRecorded),
    ensures
        after == run,
        action is Ignore,
{
}

/// A turn that goes on takes the conversation with it: the storing has none left.
pub proof fn law_finished_storing_keeps_no_conversation(
    run: StoreRun,
    messages: Seq<ChatMessage>,
    waits: Seq<WaitCondition>,
    stamp: MessageStamp,
    after: StoreRun,
    action: StoreAction,
)
    requires
        goes_on(run, messages, waits, stamp, after, action),
    ensures
        action is Next <==> run.remaining@.len() == 0,
        action is Next ==> after.context is None,
        action is StoreResult ==> after.context == run.context,
{
}

} // verus!
