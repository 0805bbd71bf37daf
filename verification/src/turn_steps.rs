//! What a turn does with a model's answer, and while it waits for a delegation.
//!
//! Both are state machines that say what is to be done next and are told how that went.
use vstd::prelude::*;

use crate::events::AgentEventKind;
use crate::model::{AgentMessage, ChatMessage, ChatRole, MessagePart};
use crate::text;
use crate::transitions;
use crate::transitions::{
    after_llm, assistant_message, on_wait_signal, progress_description, resume_after_wait,
    wait_closed, wait_message, AfterLlm, ConversationContext, DelegationOutcome, ExecutionState,
    LlmResponse, WaitCondition, WaitSignal, WaitStep,
};

verus! {

fn described(what: &str, reason: String) -> (message: String)
    ensures
        message@ == what@ + reason@,
{
    let mut message = what.to_owned();
    message.append(reason.as_str());
    message
}

/// What a turn asks for.
#[derive(Debug)]
pub enum TurnAction {
    RecordProgress { description: String },
    /// Shows the text to the client, where there is some, and stores the message.
    StoreMessage { show: Option<String>, message: AgentMessage },
    /// Marks the task that the turn worked on as done.
    CompleteTask,
    /// Waits for the next event or for a cancellation.
    AwaitSignal,
    /// Puts the news of a delegation into words.
    TellNews(DelegationOutcome),
    /// The turn goes on from here.
    Next(ExecutionState),
    /// The turn fails.
    Fail(String),
    /// The event does not belong to the stage; nothing is to be done.
    Ignore,
}

/// What a turn does on an event: the event that it emits, if any, and what it asks for
/// then.
#[derive(Debug)]
pub struct TurnStep {
    pub emit: Option<AgentEventKind>,
    pub action: TurnAction,
}

/// The step emits nothing and asks for `action`.
pub open spec fn quietly(step: TurnStep, action: TurnAction) -> bool {
    step == (TurnStep { emit: None, action })
}

/// The step fails with these words.
pub open spec fn fails(step: TurnStep, words: Seq<char>) -> bool {
    step.emit is None && (step.action matches TurnAction::Fail(message) && message@ == words)
}

fn quiet(action: TurnAction) -> (step: TurnStep)
    ensures
        quietly(step, action),
{
    TurnStep { emit: None, action }
}

fn fail(message: String) -> (step: TurnStep)
    ensures
        fails(step, message@),
{
    TurnStep { emit: None, action: TurnAction::Fail(message) }
}

/// Where a turn stands with an answer, that is, what it waits for.
#[derive(Debug, Clone, Copy, PartialEq, Eq, Structural)]
pub enum AnswerStage {
    RecordingProgress,
    StoringMessage,
    CompletingTask,
    Finished,
}

/// What a turn with an answer is told.
#[derive(Debug)]
pub enum AnswerEvent {
    ProgressRecorded { result: Result<u64, String>, message_id: String, created_at: i64 },
    /// The answer was stored, or was not. `answer` is the answer as it is shown to the
    /// model from now on, and `context_tokens` the size of the context that its usage
    /// tells.
    MessageStored {
        result: Result<(), String>,
        answer: ChatMessage,
        context_tokens: usize,
        has_active_task: bool,
    },
    /// The task that was marked, if it could be; either way the turn goes on.
    TaskCompleted { task: Option<u64> },
}

/// What becomes of one answer.
#[derive(Debug)]
pub struct AnswerRun {
    /// The session of the turn.
    pub session_id: String,
    pub stage: AnswerStage,
    /// The answer, until it is stored.
    pub response: Option<LlmResponse>,
    /// The conversation, until the answer is stored.
    pub context: Option<ConversationContext>,
    /// The id under which the answer is stored.
    pub message_id: String,
    /// The state that follows once the task is marked.
    pub pending: Option<ExecutionState>,
}

/// The words in which the progress of a turn with an answer is recorded.
pub open spec fn progress_text(response: LlmResponse) -> Seq<char> {
    if response.tool_calls@.len() > 0 {
        "Received response with "@ + text::decimal(response.tool_calls@.len())
            + " tool call(s)"@
    } else {
        "Received response from LLM"@
    }
}

/// The message as which the answer is stored.
pub open spec fn is_answer_message(
    run: AnswerRun,
    message_id: String,
    created_at: i64,
    message: AgentMessage,
) -> bool {
    &&& message.id@ == message_id@
    &&& message.session_id@ == run.session_id@
    &&& message.role == ChatRole::Assistant
    &&& message.created_at == created_at
    &&& message.parent_message_id is None
    &&& transitions::stored_answer(message.parts@, run.response->Some_0)
}

/// What a turn with an answer becomes and does on `event`.
pub open spec fn is_answer_step(
    run: AnswerRun,
    event: AnswerEvent,
    after: AnswerRun,
    step: TurnStep,
) -> bool {
    let finished = AnswerRun { stage: AnswerStage::Finished, ..run };
    match (run.stage, event) {
        (
            AnswerStage::RecordingProgress,
            AnswerEvent::ProgressRecorded { result, message_id, created_at },
        ) => match result {
            Err(reason) => {
                &&& after == finished
                &&& fails(step, "Failed to record progress: "@ + reason@)
            },
            Ok(entry) => {
                &&& after == (AnswerRun { stage: AnswerStage::StoringMessage, message_id, ..run })
                &&& step.emit == Some(AgentEventKind::ProgressRecorded { entry })
                &&& step.action matches TurnAction::StoreMessage { show, message }
                &&& is_answer_message(run, message_id, created_at, message)
                &&& match show {
                    Some(text) => text@ == run.response->Some_0.content@ && text@.len() > 0,
                    None => run.response->Some_0.content@.len() == 0,
                }
            },
        },
        (
            AnswerStage::StoringMessage,
            AnswerEvent::MessageStored { result, answer, context_tokens, has_active_task },
        ) => match result {
            Err(reason) => {
                &&& after == finished
                &&& fails(step, "Failed to store assistant message: "@ + reason@)
            },
            Ok(_) => is_stored_step(run, answer, context_tokens, has_active_task, after, step),
        },
        (AnswerStage::CompletingTask, AnswerEvent::TaskCompleted { task }) => {
            &&& after == (AnswerRun { stage: AnswerStage::Finished, pending: None, ..run })
            &&& step.action == TurnAction::Next(run.pending->Some_0)
            &&& step.emit == match task {
                Some(task) => Some(AgentEventKind::TaskStatusChanged { task }),
                None => None,
            }
        },
        _ => after == run && quietly(step, TurnAction::Ignore),
    }
}

/// What a turn does once the answer is stored: it tells so, marks its task as done where
/// the model is done, and goes on as the answer says.
pub open spec fn is_stored_step(
    run: AnswerRun,
    answer: ChatMessage,
    context_tokens: usize,
    has_active_task: bool,
    after: AnswerRun,
    step: TurnStep,
) -> bool {
    let response = run.response->Some_0;
    &&& after.session_id == run.session_id
    &&& after.message_id == run.message_id
    &&& after.response is None
    &&& after.context is None
    &&& step.emit matches Some(AgentEventKind::AssistantMessageStored { content, message_id })
        && content@ == response.content@ && message_id == Some(run.message_id)
    &&& if response.finish_reason == Some(crate::chat::FinishReason::Stop) && has_active_task {
        &&& after.stage == AnswerStage::CompletingTask
        &&& step.action is CompleteTask
        &&& after.pending matches Some(next) && transitions::follows_answer(
            response,
            run.context->Some_0,
            answer,
            context_tokens,
            has_active_task,
            AfterLlm { next, completes_task: true },
        )
    } else {
        &&& after.stage == AnswerStage::Finished
        &&& after.pending == run.pending
        &&& step.action matches TurnAction::Next(next) && transitions::follows_answer(
            response,
            run.context->Some_0,
            answer,
            context_tokens,
            has_active_task,
            AfterLlm { next, completes_task: false },
        )
    }
}

impl AnswerRun {
    /// A turn knows the answer and the conversation until the answer is stored, and the
    /// figures of the conversation can take the answer in.
    pub open spec fn wf(&self) -> bool {
        &&& self.stage == AnswerStage::RecordingProgress || self.stage
            == AnswerStage::StoringMessage ==> {
            &&& self.response is Some
            &&& self.context is Some
            &&& self.response->Some_0.usage matches Some(usage) ==> transitions::has_room(
                self.context->Some_0.stats,
                usage,
            )
        }
        &&& self.stage == AnswerStage::CompletingTask ==> self.pending is Some
    }

    /// A turn that got an answer, and the first thing to do with it, unless the turn was
    /// cancelled.
    pub fn start(
        session_id: String,
        cancelled: bool,
        response: LlmResponse,
        context: ConversationContext,
    ) -> (result: (AnswerRun, TurnStep))
        requires
            response.usage matches Some(usage) ==> transitions::has_room(context.stats, usage),
        ensures
            result.0.wf(),
            result.0.session_id == session_id,
            result.0.response == Some(response),
            result.0.context == Some(context),
            result.0.pending is None,
            if cancelled {
                &&& result.0.stage == AnswerStage::Finished
                &&& quietly(result.1, TurnAction::Next(ExecutionState::Cancelled))
            } else {
                &&& result.0.stage == AnswerStage::RecordingProgress
                &&& result.1.emit is None
                &&& result.1.action matches TurnAction::RecordProgress { description }
                    && description@ == progress_text(response)
            },
    {
        let description = progress_description(&response);
        let mut run = AnswerRun {
            session_id,
            stage: AnswerStage::RecordingProgress,
            response: Some(response),
            context: Some(context),
            message_id: String::new(),
            pending: None,
        };
        if cancelled {
            run.stage = AnswerStage::Finished;
            return (run, quiet(TurnAction::Next(ExecutionState::Cancelled)));
        }
        (run, quiet(TurnAction::RecordProgress { description }))
    }

    fn store(&mut self, entry: u64, message_id: String, created_at: i64) -> (step: TurnStep)
        requires
            old(self).wf(),
            old(self).stage == AnswerStage::RecordingProgress,
        ensures
            final(self).wf(),
            *final(self) == (AnswerRun {
                stage: AnswerStage::StoringMessage,
                message_id,
                ..*old(self)
            }),
            step.emit == Some(AgentEventKind::ProgressRecorded { entry }),
            step.action matches TurnAction::StoreMessage { show, message } && is_answer_message(
                *old(self),
                message_id,
                created_at,
                message,
            ) && match show {
                Some(text) => text@ == old(self).response->Some_0.content@ && text@.len() > 0,
                None => old(self).response->Some_0.content@.len() == 0,
            },
    {
        let response = self.response.as_ref().unwrap();
        let show = if response.content.as_str().is_empty() {
            None
        } else {
            Some(response.content.clone())
        };
        let id = message_id.clone();
        let message = assistant_message(response, self.session_id.as_str(), id, created_at);
        self.message_id = message_id;
        self.stage = AnswerStage::StoringMessage;
        TurnStep {
            emit: Some(AgentEventKind::ProgressRecorded { entry }),
            action: TurnAction::StoreMessage { show, message },
        }
    }

    /// Goes on after `event`. An event that the turn does not wait for changes nothing.
    pub fn on_event(&mut self, event: AnswerEvent) -> (step: TurnStep)
        requires
            old(self).wf(),
        ensures
            final(self).wf(),
            is_answer_step(*old(self), event, *final(self), step),
    {
        match (self.stage, event) {
            (
                AnswerStage::RecordingProgress,
                AnswerEvent::ProgressRecorded { result, message_id, created_at },
            ) => match result {
                Err(reason) => {
                    self.stage = AnswerStage::Finished;
                    fail(described("Failed to record progress: ", reason))
                },
                Ok(entry) => self.store(entry, message_id, created_at),
            },
            (
                AnswerStage::StoringMessage,
                AnswerEvent::MessageStored { result, answer, context_tokens, has_active_task },
            ) => match result {
                Err(reason) => {
                    self.stage = AnswerStage::Finished;
                    fail(described("Failed to store assistant message: ", reason))
                },
                Ok(_) => {
                    let response = self.response.take().unwrap();
                    let context = self.context.take().unwrap();
                    let emit = Some(
                        AgentEventKind::AssistantMessageStored {
                            content: response.content.clone(),
                            message_id: Some(self.message_id.clone()),
                        },
                    );
                    let follow = after_llm(
                        false,
                        response,
                        context,
                        answer,
                        context_tokens,
                        has_active_task,
                    );
                    if follow.completes_task {
                        self.pending = Some(follow.next);
                        self.stage = AnswerStage::CompletingTask;
                        TurnStep { emit, action: TurnAction::CompleteTask }
                    } else {
                        self.stage = AnswerStage::Finished;
                        TurnStep { emit, action: TurnAction::Next(follow.next) }
                    }
                },
            },
            (AnswerStage::CompletingTask, AnswerEvent::TaskCompleted { task }) => {
                self.stage = AnswerStage::Finished;
                let emit = match task {
                    Some(task) => Some(AgentEventKind::TaskStatusChanged { task }),
                    None => None,
                };
                TurnStep { emit, action: TurnAction::Next(self.pending.take().unwrap()) }
            },
            _ => quiet(TurnAction::Ignore),
        }
    }
}

/// Where a turn that waits stands.
#[derive(Debug, Clone, Copy, PartialEq, Eq, Structural)]
pub enum WaitStage {
    Waiting,
    TellingNews,
    StoringNews,
    Finished,
}

/// What a turn that waits is told.
#[derive(Debug)]
pub enum WaitEvent {
    Signal(WaitSignal),
    /// The news in words.
    NewsTold { content: String, message_id: String, created_at: i64 },
    /// The news was stored, or was not. `news` is the message as the model sees it.
    NewsStored { result: Result<(), String>, news: ChatMessage },
}

/// A turn that waits for a delegation.
#[derive(Debug)]
pub struct WaitRun {
    /// The session of the turn.
    pub session_id: String,
    pub stage: WaitStage,
    pub wait: WaitCondition,
    /// The conversation, until the turn goes on.
    pub context: Option<ConversationContext>,
    /// The news in words, once they are known.
    pub content: String,
}

/// What a turn that waits does on a signal.
pub open spec fn is_signal_step(
    run: WaitRun,
    signal: WaitSignal,
    after: WaitRun,
    step: TurnStep,
) -> bool {
    let context = run.context->Some_0;
    let over = WaitRun { stage: WaitStage::Finished, context: None, ..run };
    match signal {
        WaitSignal::CancelFlag(true) => {
            &&& after == over
            &&& quietly(step, TurnAction::Next(ExecutionState::Cancelled))
        },
        WaitSignal::CancelFlag(false) => after == run && quietly(step, TurnAction::AwaitSignal),
        WaitSignal::Lagged => after == run && quietly(step, TurnAction::AwaitSignal),
        WaitSignal::Closed => {
            &&& after == over
            &&& step.emit is None
            &&& step.action matches TurnAction::Next(next)
            &&& next matches ExecutionState::Stopped { message, stop_type, context: kept }
                && message@ == "Event stream closed while waiting"@ && stop_type
                == transitions::StopType::Other && kept == Some(context)
        },
        WaitSignal::Event { session_id, kind } => if session_id@ == run.session_id@
            && !transitions::wait_outcome(run.wait, kind, None) {
            &&& after == (WaitRun { stage: WaitStage::TellingNews, ..run })
            &&& step.emit is None
            &&& step.action matches TurnAction::TellNews(outcome) && transitions::wait_outcome(
                run.wait,
                kind,
                Some(outcome),
            )
        } else {
            after == run && quietly(step, TurnAction::AwaitSignal)
        },
    }
}

/// What a turn that waits becomes and does on `event`.
pub open spec fn is_wait_step(run: WaitRun, event: WaitEvent, after: WaitRun, step: TurnStep) -> bool {
    let over = WaitRun { stage: WaitStage::Finished, context: None, ..run };
    match (run.stage, event) {
        (WaitStage::Waiting, WaitEvent::Signal(signal)) => is_signal_step(run, signal, after, step),
        (WaitStage::TellingNews, WaitEvent::NewsTold { content, message_id, created_at }) => {
            &&& after == (WaitRun { stage: WaitStage::StoringNews, content, ..run })
            &&& step.emit is None
            &&& step.action matches TurnAction::StoreMessage { show, message }
            &&& show is None
            &&& message.id == message_id
            &&& message.session_id@ == run.session_id@
            &&& message.role == ChatRole::User
            &&& message.parts@ == seq![MessagePart::Text { content }]
            &&& message.created_at == created_at
            &&& message.parent_message_id is None
        },
        (WaitStage::StoringNews, WaitEvent::NewsStored { result, news }) => match result {
            Err(reason) => {
                &&& after == over
                &&& fails(step, "Failed to store wait message: "@ + reason@)
            },
            Ok(_) => {
                &&& after == over
                &&& step.emit == Some(AgentEventKind::UserMessageStored { content: run.content })
                &&& step.action matches TurnAction::Next(next)
                &&& next matches ExecutionState::BeforeLlmCall { context } && transitions::extended(
                    run.context->Some_0,
                    news,
                    run.context->Some_0.stats,
                    context,
                )
            },
        },
        _ => after == run && quietly(step, TurnAction::Ignore),
    }
}

impl WaitRun {
    /// A turn knows its conversation until it goes on.
    pub open spec fn wf(&self) -> bool {
        self.stage != WaitStage::Finished ==> self.context is Some
    }

    /// A turn that has to wait, and the first thing to do, unless it was cancelled.
    pub fn start(
        session_id: String,
        cancelled: bool,
        wait: WaitCondition,
        context: ConversationContext,
    ) -> (result: (WaitRun, TurnStep))
        ensures
            result.0.wf(),
            result.0.session_id == session_id,
            result.0.wait == wait,
            result.0.context == Some(context),
            if cancelled {
                &&& result.0.stage == WaitStage::Finished
                &&& quietly(result.1, TurnAction::Next(ExecutionState::Cancelled))
            } else {
                &&& result.0.stage == WaitStage::Waiting
                &&& quietly(result.1, TurnAction::AwaitSignal)
            },
    {
        let mut run = WaitRun {
            session_id,
            stage: WaitStage::Waiting,
            wait,
            context: Some(context),
            content: String::new(),
        };
        if cancelled {
            run.stage = WaitStage::Finished;
            return (run, quiet(TurnAction::Next(ExecutionState::Cancelled)));
        }
        (run, quiet(TurnAction::AwaitSignal))
    }

    fn on_signal(&mut self, signal: WaitSignal) -> (step: TurnStep)
        requires
            old(self).wf(),
            old(self).stage == WaitStage::Waiting,
        ensures
            final(self).wf(),
            is_signal_step(*old(self), signal, *final(self), step),
    {
        let decided = on_wait_signal(&self.wait, self.session_id.as_str(), &signal);
        match decided {
            WaitStep::KeepWaiting => quiet(TurnAction::AwaitSignal),
            WaitStep::Cancelled => {
                self.stage = WaitStage::Finished;
                self.context = None;
                quiet(TurnAction::Next(ExecutionState::Cancelled))
            },
            WaitStep::Closed => {
                self.stage = WaitStage::Finished;
                quiet(TurnAction::Next(wait_closed(self.context.take().unwrap())))
            },
            WaitStep::Resume(outcome) => {
                self.stage = WaitStage::TellingNews;
                quiet(TurnAction::TellNews(outcome))
            },
        }
    }

    /// Goes on after `event`. An event that the turn does not wait for changes nothing.
    pub fn on_event(&mut self, event: WaitEvent) -> (step: TurnStep)
        requires
            old(self).wf(),
        ensures
            final(self).wf(),
            is_wait_step(*old(self), event, *final(self), step),
    {
        match (self.stage, event) {
            (WaitStage::Waiting, WaitEvent::Signal(signal)) => self.on_signal(signal),
            (WaitStage::TellingNews, WaitEvent::NewsTold { content, message_id, created_at }) => {
                let message = wait_message(
                    content.clone(),
                    self.session_id.as_str(),
                    message_id,
                    created_at,
                );
                self.content = content;
                self.stage = WaitStage::StoringNews;
                quiet(TurnAction::StoreMessage { show: None, message })
            },
            (WaitStage::StoringNews, WaitEvent::NewsStored { result, news }) => {
                self.stage = WaitStage::Finished;
                match result {
                    Err(reason) => {
                        self.context = None;
                        fail(described("Failed to store wait message: ", reason))
                    },
                    Ok(_) => TurnStep {
                        emit: Some(
                            AgentEventKind::UserMessageStored { content: self.content.clone() },
                        ),
                        action: TurnAction::Next(
                            resume_after_wait(self.context.take().unwrap(), news),
                        ),
                    },
                }
            },
            _ => quiet(TurnAction::Ignore),
        }
    }
}

/// A turn that waits goes on with the model only when the news of a delegation is stored.
pub proof fn law_waits_end_with_news(run: WaitRun, event: WaitEvent, after: WaitRun, step: TurnStep)
    requires
        is_wait_step(run, event, after, step),
        step.action matches TurnAction::Next(next) && next is BeforeLlmCall,
    ensures
        run.stage == WaitStage::StoringNews,
        event matches WaitEvent::NewsStored { result, .. } && result is Ok,
{
}

/// News is told only of a delegation that the turn waits for, and only when an event of the
/// turn's own session says that the delegation has come to its end.
pub proof fn law_news_is_waited_for(run: WaitRun, event: WaitEvent, after: WaitRun, step: TurnStep)
    requires
        run.wf(),
        is_wait_step(run, event, after, step),
        step.action is TellNews,
    ensures
        run.stage == WaitStage::Waiting,
        event matches WaitEvent::Signal(WaitSignal::Event { session_id, kind }) && session_id@
            == run.session_id@ && match kind {
            AgentEventKind::DelegationCompleted { delegation_id, .. } => transitions::waits_for(
                run.wait,
                delegation_id@,
            ),
            AgentEventKind::DelegationFailed { delegation_id, .. } => transitions::waits_for(
                run.wait,
                delegation_id@,
            ),
            _ => false,
        },
{
}

/// The turn goes on from an answer only when the answer is stored.
pub proof fn law_answers_are_stored_first(
    run: AnswerRun,
    event: AnswerEvent,
    after: AnswerRun,
    step: TurnStep,
)
    requires
        is_answer_step(run, event, after, step),
        step.action is Next,
    ensures
        run.stage == AnswerStage::CompletingTask || (run.stage == AnswerStage::StoringMessage && (
        event matches AnswerEvent::MessageStored { result, .. } && result is Ok)),
{
}

/// An answer is announced by how many tool calls it asks for.
pub proof fn law_answers_are_announced_by_their_calls(response: LlmResponse)
    ensures
        response.tool_calls@.len() == 0 ==> progress_text(response)
            == "Received response from LLM"@,
        response.tool_calls@.len() > 0 ==> progress_text(response) == "Received response with "@
            + text::decimal(response.tool_calls@.len()) + " tool call(s)"@,
{
}

/// Once its progress is recorded, an answer is stored as the assistant's in the turn's own
/// session, under the id that was given, and its text is shown where there is some.
pub proof fn law_answers_are_stored_as_the_assistants(
    run: AnswerRun,
    result: Result<u64, String>,
    message_id: String,
    created_at: i64,
    after: AnswerRun,
    step: TurnStep,
)
    requires
        run.wf(),
        run.stage == AnswerStage::RecordingProgress,
        is_answer_step(
            run,
            AnswerEvent::ProgressRecorded { result, message_id, created_at },
            after,
            step,
        ),
    ensures
        after.session_id == run.session_id,
        after.response == run.response,
        after.context == run.context,
        result matches Err(reason) ==> after.stage == AnswerStage::Finished && step.emit is None
            && (step.action matches TurnAction::Fail(message) && message@
            == "Failed to record progress: "@ + reason@),
        result matches Ok(entry) ==> {
            &&& after.stage == AnswerStage::StoringMessage
            &&& after.message_id == message_id
            &&& step.emit == Some(AgentEventKind::ProgressRecorded { entry })
            &&& step.action matches TurnAction::StoreMessage { show, message }
            &&& message.id@ == message_id@
            &&& message.session_id@ == run.session_id@
            &&& message.role == ChatRole::Assistant
            &&& message.created_at == created_at
            &&& message.parent_message_id is None
            &&& transitions::stored_answer(message.parts@, run.response->Some_0)
            &&& show is Some <==> run.response->Some_0.content@.len() > 0
            &&& show matches Some(text) ==> text@ == run.response->Some_0.content@
        },
{
}

/// A stored answer is announced with its text and its id, and the turn goes on from it as the
/// answer says; the turn's task is marked first where the model is done with it.
pub proof fn law_turns_go_on_from_stored_answers(
    run: AnswerRun,
    result: Result<(), String>,
    answer: ChatMessage,
    context_tokens: usize,
    has_active_task: bool,
    after: AnswerRun,
    step: TurnStep,
)
    requires
        run.wf(),
        run.stage == AnswerStage::StoringMessage,
        is_answer_step(
            run,
            AnswerEvent::MessageStored { result, answer, context_tokens, has_active_task },
            after,
            step,
        ),
    ensures
        after.session_id == run.session_id,
        result matches Err(reason) ==> after.stage == AnswerStage::Finished && step.emit is None
            && (step.action matches TurnAction::Fail(message) && message@
            == "Failed to store assistant message: "@ + reason@),
        result is Ok ==> (step.emit matches Some(AgentEventKind::AssistantMessageStored {
            content,
            message_id,
        }) && content@ == run.response->Some_0.content@ && message_id == Some(run.message_id)),
        result is Ok && has_active_task && run.response->Some_0.finish_reason == Some(
            crate::chat::FinishReason::Stop,
        ) ==> after.stage == AnswerStage::CompletingTask && step.action is CompleteTask
            && after.pending == Some(ExecutionState::Complete),
        result is Ok && !(has_active_task && run.response->Some_0.finish_reason == Some(
            crate::chat::FinishReason::Stop,
        )) ==> after.stage == AnswerStage::Finished && (step.action matches TurnAction::Next(next)
            && transitions::follows_answer(
            run.response->Some_0,
            run.context->Some_0,
            answer,
            context_tokens,
            has_active_task,
            AfterLlm { next, completes_task: false },
        )),
{
}

/// Once the task is marked the turn goes on with what was pending, and tells of the task
/// where it could be marked.
pub proof fn law_marked_tasks_are_announced(
    run: AnswerRun,
    task: Option<u64>,
    after: AnswerRun,
    step: TurnStep,
)
    requires
        run.wf(),
        run.stage == AnswerStage::CompletingTask,
        is_answer_step(run, AnswerEvent::TaskCompleted { task }, after, step),
    ensures
        after.stage == AnswerStage::Finished,
        run.pending is Some,
        step.action == TurnAction::Next(run.pending->Some_0),
        task matches Some(task) ==> step.emit == Some(AgentEventKind::TaskStatusChanged { task }),
        task is None ==> step.emit is None,
{
}

/// An event that does not belong to the stage changes nothing.
pub proof fn law_other_events_leave_the_turn_alone(
    run: AnswerRun,
    event: AnswerEvent,
    after: AnswerRun,
    step: TurnStep,
    waiting: WaitRun,
    signal: WaitEvent,
    waiting_after: WaitRun,
    waiting_step: TurnStep,
)
    requires
        is_answer_step(run, event, after, step),
        !(run.stage == AnswerStage::RecordingProgress && event is ProgressRecorded),
        !(run.stage == AnswerStage::StoringMessage && event is MessageStored),
        !(run.stage == AnswerStage::CompletingTask && event is TaskCompleted),
        is_wait_step(waiting, signal, waiting_after, waiting_step),
        !(waiting.stage == WaitStage::Waiting && signal is Signal),
        !(waiting.stage == WaitStage::TellingNews && signal is NewsTold),
        !(waiting.stage == WaitStage::StoringNews && signal is NewsStored),
    ensures
        after == run,
        step.emit is None,
        step.action is Ignore,
        waiting_after == waiting,
        waiting_step.emit is None,
        waiting_step.action is Ignore,
{
}

/// A turn that waits is resumed by news of a delegation that it waits for, in its own
/// session: it tells the news, which is what the event says. `i` is the delegation's place in
/// the list of those that are waited for.
pub proof fn law_news_of_delegations_resume_the_turn(
    run: WaitRun,
    session_id: String,
    kind: AgentEventKind,
    i: int,
    after: WaitRun,
    step: TurnStep,
)
    requires
        run.stage == WaitStage::Waiting,
        is_wait_step(run, WaitEvent::Signal(WaitSignal::Event { session_id, kind }), after, step),
        session_id@ == run.session_id@,
        0 <= i < run.wait.correlation_ids@.len(),
        ({
            ||| kind matches AgentEventKind::DelegationCompleted { delegation_id, .. }
                && delegation_id@ == run.wait.correlation_ids@[i]@
            ||| kind matches AgentEventKind::DelegationFailed { delegation_id, .. }
                && delegation_id@ == run.wait.correlation_ids@[i]@
        }),
    ensures
        after.stage == WaitStage::TellingNews,
        after.wait == run.wait,
        after.context == run.context,
        after.session_id == run.session_id,
        step.emit is None,
        kind matches AgentEventKind::DelegationCompleted { summary: told, .. } ==> (
        step.action matches TurnAction::TellNews(DelegationOutcome::Completed {
            delegation_id,
            summary,
        }) && delegation_id@ == run.wait.correlation_ids@[i]@ && (told matches Some(words)
            ==> summary@ == words@)),
        kind matches AgentEventKind::DelegationFailed { error: told, .. } ==> (step.action matches
            TurnAction::TellNews(DelegationOutcome::Failed { delegation_id, error })
            && delegation_id@ == run.wait.correlation_ids@[i]@ && error@ == told@),
{
    if transitions::wait_outcome(run.wait, kind, None) {
        transitions::law_waits_hear_of_every_delegation(run.wait, i, kind, None);
        assert(false);
    }
    let outcome = step.action->TellNews_0;
    transitions::law_waits_hear_of_every_delegation(run.wait, i, kind, Some(outcome));
}

/// A turn that waits goes on waiting on every other event, and ends where it is cancelled or
/// no event can come any more.
pub proof fn law_waits_end_with_their_turn(
    run: WaitRun,
    signal: WaitSignal,
    after: WaitRun,
    step: TurnStep,
)
    requires
        run.wf(),
        run.stage == WaitStage::Waiting,
        is_wait_step(run, WaitEvent::Signal(signal), after, step),
    ensures
        signal == WaitSignal::CancelFlag(true) ==> after.stage == WaitStage::Finished && step.action
            == TurnAction::Next(ExecutionState::Cancelled),
        signal == WaitSignal::CancelFlag(false) || signal is Lagged ==> after == run
            && step.action is AwaitSignal,
        signal is Closed ==> after.stage == WaitStage::Finished && (step.action matches
            TurnAction::Next(ExecutionState::Stopped { message, stop_type, context }) && message@
            == "Event stream closed while waiting"@ && stop_type == transitions::StopType::Other
            && context == run.context),
        signal matches WaitSignal::Event { session_id, .. } ==> session_id@ != run.session_id@
            ==> after == run && step.action is AwaitSignal,
        signal matches WaitSignal::Event { kind, .. } ==> !(kind is DelegationCompleted) && !(
        kind is DelegationFailed) ==> after == run && step.action is AwaitSignal,
        step.emit is None,
{
}

/// News of a delegation are stored as the user's words in the turn's own session, and the
/// turn goes on with them at the end of the conversation.
pub proof fn law_news_are_stored_and_the_turn_goes_on(
    run: WaitRun,
    content: String,
    message_id: String,
    created_at: i64,
    after: WaitRun,
    step: TurnStep,
    stored: WaitRun,
    result: Result<(), String>,
    news: ChatMessage,
    last: WaitRun,
    last_step: TurnStep,
)
    requires
        run.wf(),
        run.stage == WaitStage::TellingNews,
        is_wait_step(run, WaitEvent::NewsTold { content, message_id, created_at }, after, step),
        stored.wf(),
        stored.stage == WaitStage::StoringNews,
        is_wait_step(stored, WaitEvent::NewsStored { result, news }, last, last_step),
    ensures
        after.stage == WaitStage::StoringNews,
        after.content == content,
        after.context == run.context,
        step.emit is None,
        step.action matches TurnAction::StoreMessage { show, message } && show is None
            && message.id == message_id && message.session_id@ == run.session_id@ && message.role
            == ChatRole::User && message.parts@.len() == 1 && message.parts@[0] == (
        MessagePart::Text { content }) && message.created_at == created_at,
        last.stage == WaitStage::Finished,
        result matches Err(reason) ==> last_step.emit is None && (last_step.action matches
            TurnAction::Fail(message) && message@ == "Failed to store wait message: "@ + reason@),
        result is Ok ==> last_step.emit == Some(AgentEventKind::UserMessageStored {
            content: stored.content,
        }) && (last_step.action matches TurnAction::Next(ExecutionState::BeforeLlmCall { context })
            && context.messages@ == stored.context->Some_0.messages@.push(news) && context.stats
            == stored.context->Some_0.stats && context.provider@
            == stored.context->Some_0.provider@ && context.model@
            == stored.context->Some_0.model@),
{
}

/// An answer is handed on once: it is no longer kept when it is stored, under the id that it
/// has; and news of a delegation have no parent.
pub proof fn law_answers_are_handed_on_once(
    run: AnswerRun,
    answer: ChatMessage,
    context_tokens: usize,
    has_active_task: bool,
    after: AnswerRun,
    step: TurnStep,
    waiting: WaitRun,
    content: String,
    message_id: String,
    created_at: i64,
    told: WaitRun,
    telling: TurnStep,
)
    requires
        run.stage == AnswerStage::StoringMessage,
        is_answer_step(
            run,
            AnswerEvent::MessageStored {
                result: Ok(()),
                answer,
                context_tokens,
                has_active_task,
            },
            after,
            step,
        ),
        waiting.stage == WaitStage::TellingNews,
        is_wait_step(
            waiting,
            WaitEvent::NewsTold { content, message_id, created_at },
            told,
            telling,
        ),
    ensures
        after.response is None,
        after.context is None,
        after.message_id == run.message_id,
        step.action is Next ==> after.pending == run.pending,
        telling.action matches TurnAction::StoreMessage { message, .. }
            && message.parent_message_id is None,
        told.wait == waiting.wait,
        told.session_id == waiting.session_id,
{
}

/// A turn that is not marked as done goes on as its answer says, without a task.
pub proof fn law_unfinished_turns_complete_no_task(
    run: AnswerRun,
    answer: ChatMessage,
    context_tokens: usize,
    has_active_task: bool,
    after: AnswerRun,
    step: TurnStep,
)
    requires
        run.wf(),
        is_stored_step(run, answer, context_tokens, has_active_task, after, step),
    ensures
        run.response->Some_0.finish_reason == Some(crate::chat::FinishReason::Length) ==> (
        step.action matches TurnAction::Next(ExecutionState::Stopped { stop_type, .. })
            && stop_type == transitions::StopType::ModelTokenLimit),
        run.response->Some_0.finish_reason == Some(crate::chat::FinishReason::Stop)
            && !has_active_task ==> step.action == TurnAction::Next(ExecutionState::Complete),
        run.response->Some_0.finish_reason == Some(crate::chat::FinishReason::ToolCalls)
            && run.response->Some_0.tool_calls@.len() > 0 ==> (step.action matches
            TurnAction::Next(ExecutionState::ProcessingToolCalls { remaining_calls, .. })
            && remaining_calls@ == run.response->Some_0.tool_calls@),
{
}

} // verus!
