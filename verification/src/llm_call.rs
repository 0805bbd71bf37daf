//! The course of one model call, from the conversation that is sent to the answer that
//! comes back.
//!
//! A call is a state machine that says what is to be done next and is told how that went.
//! It chooses how the model is called, puts a streamed answer together, and calls again
//! after a rate limit.
use vstd::prelude::*;

use crate::chat::{FinishReason, StreamChunk, Usage};
use crate::events::AgentEventKind;
use crate::model::ChatMessage;
use crate::text;
use crate::transitions;
use crate::transitions::{
    begin_llm_call, calculate_rate_limit_wait, end_llm_call, request_failure, ConversationContext,
    ExecutionState, LlmCall, LlmPath, LlmResponse, RetryLoop, RetryStep, StreamStep,
    StreamedAnswer,
};

verus! {

/// Where a call stands, that is, what it waits for.
#[derive(Debug, Clone, Copy, PartialEq, Eq, Structural)]
pub enum CallStage {
    BuildingProvider,
    OpeningStream,
    Streaming,
    Calling,
    Waiting,
    Counting,
    Finished,
}

/// What a call is told. The turn may have been cancelled meanwhile.
#[derive(Debug)]
pub enum CallEvent {
    ProviderBuilt { result: Result<(), String>, cancelled: bool },
    StreamOpened(Result<(), String>),
    /// What the stream gave; nothing where it is at its end.
    StreamItem { item: Option<Result<StreamChunk, String>>, cancelled: bool },
    Answered(LlmResponse),
    /// The model could not be called. `backoff_secs` is how long the configuration says to
    /// wait after this attempt.
    CallFailed { reason: String, backoff_secs: u64, started_at: i64 },
    /// The turn was cancelled before the model answered.
    CallCancelled,
    /// A wait came to its end, or was interrupted by a cancellation.
    WaitOver { interrupted: bool, cancelled: bool },
    /// The size of the context, as the usage tells it.
    TokensCounted(u64),
}

/// What a call asks for.
#[derive(Debug)]
pub enum CallAction {
    BuildProvider,
    OpenStream,
    ReadStream,
    CallModel { with_tools: bool },
    Wait { secs: u64 },
    CountTokens { usage: Option<Usage> },
    /// The call is over, and the turn goes on from here.
    Next(ExecutionState),
    /// The call failed, and the turn with it.
    Fail(String),
    /// The event does not belong to the stage; nothing is to be done.
    Ignore,
}

/// What a call does on an event: the events that it emits, and what it asks for then.
#[derive(Debug)]
pub struct CallStep {
    pub emit: Vec<AgentEventKind>,
    pub action: CallAction,
}

/// The course of one model call.
#[derive(Debug)]
pub struct LlmCallRun {
    /// The conversation, until the call is over.
    pub context: Option<ConversationContext>,
    /// The messages as they are sent.
    pub messages: Vec<ChatMessage>,
    pub path: LlmPath,
    pub stage: CallStage,
    pub attempts: RetryLoop,
    /// What of a streamed answer has come.
    pub answer: StreamedAnswer,
    /// The answer, once it is complete.
    pub response: Option<LlmResponse>,
}

/// Everything but the stage is as it was.
pub open spec fn moved(run: LlmCallRun, stage: CallStage, after: LlmCallRun) -> bool {
    after == (LlmCallRun { stage, ..run })
}

/// The step emits nothing and asks for `action`.
pub open spec fn quietly(step: CallStep, action: CallAction) -> bool {
    step.emit@.len() == 0 && step.action == action
}

/// The step emits nothing and fails with these words.
pub open spec fn fails(step: CallStep, words: Seq<char>) -> bool {
    step.emit@.len() == 0 && failed_with(step, words)
}

/// The step fails with these words.
pub open spec fn failed_with(step: CallStep, words: Seq<char>) -> bool {
    step.action matches CallAction::Fail(message) && message@ == words
}

/// Another attempt at the call is begun, unless the turn was cancelled.
pub open spec fn begins(run: LlmCallRun, cancelled: bool, after: LlmCallRun, step: CallStep) -> bool {
    &&& after.context == run.context
    &&& after.messages == run.messages
    &&& after.path == run.path
    &&& after.attempts.attempt == run.attempts.attempt + 1
    &&& after.attempts.max_retries == run.attempts.max_retries
    &&& after.answer == run.answer
    &&& after.response == run.response
    &&& if cancelled {
        after.stage == CallStage::Finished && failed_with(step, "Cancelled"@)
    } else {
        after.stage == CallStage::Calling && step.action == (CallAction::CallModel {
            with_tools: run.path != LlmPath::Plain,
        })
    }
}

/// A streamed answer is complete.
pub open spec fn completes(run: LlmCallRun, after: LlmCallRun, step: CallStep) -> bool {
    &&& after == (LlmCallRun {
        stage: CallStage::Counting,
        answer: after.answer,
        response: after.response,
        ..run
    })
    &&& after.answer@ == transitions::streamed(Seq::empty())
    &&& after.response matches Some(response)
    &&& response.content@ == run.answer.text@
    &&& response.tool_calls@ == run.answer.tool_calls@
    &&& response.usage == run.answer.usage
    &&& response.finish_reason == Some(
        if run.answer.tool_calls@.len() == 0 {
            FinishReason::Stop
        } else {
            FinishReason::ToolCalls
        },
    )
    &&& quietly(step, CallAction::CountTokens { usage: run.answer.usage })
}

/// What a call does on an item of its stream.
pub open spec fn is_stream_step(
    run: LlmCallRun,
    item: Option<Result<StreamChunk, String>>,
    cancelled: bool,
    after: LlmCallRun,
    step: CallStep,
) -> bool {
    match item {
        None => completes(run, after, step),
        Some(item) => if cancelled {
            &&& moved(run, CallStage::Finished, after)
            &&& quietly(step, CallAction::Next(ExecutionState::Cancelled))
        } else {
            match item {
                Err(reason) => {
                    &&& moved(run, CallStage::Finished, after)
                    &&& fails(step, transitions::failure_text(LlmPath::Streaming, reason@))
                },
                Ok(chunk) => if chunk is Done {
                    completes(run, after, step)
                } else {
                    &&& after == (LlmCallRun { answer: after.answer, ..run })
                    &&& after.answer@ == transitions::with_chunk(run.answer@, chunk)
                    &&& quietly(step, CallAction::ReadStream)
                },
            }
        },
    }
}

/// What a call does when the model could not be called: it waits where the words speak of
/// a rate limit and attempts are left, and fails otherwise.
pub open spec fn is_failure_step(
    run: LlmCallRun,
    reason: Seq<char>,
    backoff_secs: u64,
    started_at: i64,
    after: LlmCallRun,
    step: CallStep,
) -> bool {
    let words = transitions::failure_text(run.path, reason);
    if !transitions::speaks_of_rate_limit(words) {
        moved(run, CallStage::Finished, after) && fails(step, words)
    } else if run.attempts.attempt >= run.attempts.max_retries {
        &&& moved(run, CallStage::Finished, after)
        &&& fails(
            step,
            "Rate limit exceeded after "@ + text::decimal(run.attempts.max_retries as nat)
                + " attempts: "@ + words,
        )
    } else {
        &&& moved(run, CallStage::Waiting, after)
        &&& step.emit@.len() == 1
        &&& step.emit@[0] matches AgentEventKind::RateLimited {
            message,
            wait_secs,
            started_at: at,
            attempt,
            max_attempts,
        } && message@ == words && wait_secs == backoff_secs && at == started_at && attempt
            == run.attempts.attempt && max_attempts == run.attempts.max_retries
        &&& step.action == (CallAction::Wait { secs: backoff_secs })
    }
}

/// What a call becomes and does on `event`.
pub open spec fn is_step(run: LlmCallRun, event: CallEvent, after: LlmCallRun, step: CallStep) -> bool {
    match (run.stage, event) {
        (CallStage::BuildingProvider, CallEvent::ProviderBuilt { result, cancelled }) => {
            match result {
                Err(reason) => {
                    &&& moved(run, CallStage::Finished, after)
                    &&& fails(step, "Failed to build provider: "@ + reason@)
                },
                Ok(_) => if run.path == LlmPath::Streaming {
                    &&& moved(run, CallStage::OpeningStream, after)
                    &&& quietly(step, CallAction::OpenStream)
                } else {
                    step.emit@.len() == 0 && begins(run, cancelled, after, step)
                },
            }
        },
        (CallStage::OpeningStream, CallEvent::StreamOpened(result)) => match result {
            Err(reason) => {
                &&& moved(run, CallStage::Finished, after)
                &&& fails(step, transitions::failure_text(LlmPath::Streaming, reason@))
            },
            Ok(_) => {
                &&& moved(run, CallStage::Streaming, after)
                &&& quietly(step, CallAction::ReadStream)
            },
        },
        (CallStage::Streaming, CallEvent::StreamItem { item, cancelled }) => is_stream_step(
            run,
            item,
            cancelled,
            after,
            step,
        ),
        (CallStage::Calling, CallEvent::Answered(response)) => {
            &&& after == (LlmCallRun {
                stage: CallStage::Counting,
                response: Some(response),
                ..run
            })
            &&& quietly(step, CallAction::CountTokens { usage: response.usage })
        },
        (
            CallStage::Calling,
            CallEvent::CallFailed { reason, backoff_secs, started_at },
        ) => is_failure_step(run, reason@, backoff_secs, started_at, after, step),
        (CallStage::Calling, CallEvent::CallCancelled) => {
            &&& moved(run, CallStage::Finished, after)
            &&& fails(step, "Cancelled"@)
        },
        (CallStage::Waiting, CallEvent::WaitOver { interrupted, cancelled }) => if interrupted {
            &&& moved(run, CallStage::Finished, after)
            &&& fails(step, "Cancelled during rate limit wait"@)
        } else {
            &&& step.emit@ == seq![
                AgentEventKind::RateLimitResume { attempt: (run.attempts.attempt + 1) as usize },
            ]
            &&& begins(run, cancelled, after, step)
        },
        (CallStage::Counting, CallEvent::TokensCounted(context_tokens)) => {
            let context = run.context->Some_0;
            let response = run.response->Some_0;
            &&& after == (LlmCallRun {
                stage: CallStage::Finished,
                context: None,
                response: None,
                ..run
            })
            &&& step.emit@ == seq![
                AgentEventKind::LlmRequestEnd {
                    usage: response.usage,
                    tool_calls: response.tool_calls.len(),
                    finish_reason: response.finish_reason,
                    context_tokens,
                    steps: (context.stats.steps + 1) as usize,
                    turns: context.stats.turns,
                },
            ]
            &&& step.action == CallAction::Next(ExecutionState::AfterLlm { response, context })
        },
        _ => after == run && quietly(step, CallAction::Ignore),
    }
}

fn quiet(action: CallAction) -> (step: CallStep)
    ensures
        quietly(step, action),
{
    CallStep { emit: Vec::new(), action }
}

fn loud(event: AgentEventKind, action: CallAction) -> (step: CallStep)
    ensures
        step.emit@ == seq![event],
        step.action == action,
{
    let mut emit: Vec<AgentEventKind> = Vec::new();
    emit.push(event);
    CallStep { emit, action }
}

impl LlmCallRun {
    /// A call that is not over knows its conversation, whose steps can be counted on; no
    /// more attempts are begun than allowed; an answer is complete when its size is taken.
    pub open spec fn wf(&self) -> bool {
        &&& self.stage != CallStage::Finished ==> self.context is Some
        &&& self.context matches Some(context) ==> context.stats.steps < usize::MAX
        &&& self.attempts.wf()
        &&& self.stage == CallStage::BuildingProvider || self.stage == CallStage::Waiting
            ==> self.attempts.can_begin()
        &&& self.stage == CallStage::Counting ==> self.response is Some
    }

    /// Sets up a call with the conversation and the tools that the model may call, unless the turn was cancelled. The model is
    /// tried at most `max_retries` times, but once in any case.
    pub fn start(
        context: ConversationContext,
        tools: &Vec<String>,
        max_retries: usize,
        cancelled: bool,
    ) -> (result: (LlmCallRun, CallStep))
        requires
            context.stats.steps < usize::MAX,
        ensures
            result.0.wf(),
            result.0.attempts.max_retries == max_retries,
            result.0.answer@ == transitions::streamed(Seq::empty()),
            result.0.response is None,
            if cancelled {
                &&& result.0.stage == CallStage::Finished
                &&& quietly(result.1, CallAction::Next(ExecutionState::Cancelled))
            } else {
                &&& result.0.context == Some(context)
                &&& result.0.messages@ == transitions::with_breakpoints(context.messages@)
                &&& result.0.path == transitions::chosen_path(tools@.len() > 0, context.provider@)
                &&& result.1.emit@ == seq![
                    AgentEventKind::LlmRequestStart { message_count: context.messages.len() },
                ]
                &&& if tools@.len() > 0 {
                    &&& result.0.stage == CallStage::BuildingProvider
                    &&& result.0.attempts.attempt == 0
                    &&& result.1.action == CallAction::BuildProvider
                } else {
                    &&& result.0.stage == CallStage::Calling
                    &&& result.0.attempts.attempt == 1
                    &&& result.1.action == (CallAction::CallModel { with_tools: false })
                }
            },
    {
        let has_tools = tools.len() > 0;
        let mut attempts = RetryLoop::new(max_retries);
        match begin_llm_call(cancelled, &context, has_tools) {
            LlmCall::Cancelled => {
                let run = LlmCallRun {
                    context: None,
                    messages: Vec::new(),
                    path: LlmPath::Plain,
                    stage: CallStage::Finished,
                    attempts,
                    answer: StreamedAnswer::new(),
                    response: None,
                };
                (run, quiet(CallAction::Next(ExecutionState::Cancelled)))
            },
            LlmCall::Call { event, messages, path } => {
                let (stage, action) = if has_tools {
                    (CallStage::BuildingProvider, CallAction::BuildProvider)
                } else {
                    let _begun = attempts.begin(false);
                    (CallStage::Calling, CallAction::CallModel { with_tools: false })
                };
                let run = LlmCallRun {
                    context: Some(context),
                    messages,
                    path,
                    stage,
                    attempts,
                    answer: StreamedAnswer::new(),
                    response: None,
                };
                (run, loud(event, action))
            },
        }
    }

    fn fail(&mut self, message: String) -> (step: CallStep)
        ensures
            moved(*old(self), CallStage::Finished, *final(self)),
            fails(step, message@),
    {
        self.stage = CallStage::Finished;
        quiet(CallAction::Fail(message))
    }

    fn begin(&mut self, cancelled: bool) -> (action: CallAction)
        requires
            old(self).wf(),
            old(self).attempts.can_begin(),
            old(self).context is Some,
        ensures
            final(self).wf(),
            forall|step: CallStep| #[trigger]
                step.action == action ==> begins(*old(self), cancelled, *final(self), step),
    {
        match self.attempts.begin(cancelled) {
            Ok(_) => {
                self.stage = CallStage::Calling;
                CallAction::CallModel { with_tools: self.path != LlmPath::Plain }
            },
            Err(reason) => {
                self.stage = CallStage::Finished;
                CallAction::Fail(reason)
            },
        }
    }

    fn complete(&mut self) -> (step: CallStep)
        ensures
            completes(*old(self), *final(self), step),
    {
        let mut answer = StreamedAnswer::new();
        std::mem::swap(&mut answer, &mut self.answer);
        let response = answer.finish();
        let usage = response.usage;
        self.response = Some(response);
        self.stage = CallStage::Counting;
        quiet(CallAction::CountTokens { usage })
    }

    fn take_item(&mut self, item: Option<Result<StreamChunk, String>>, cancelled: bool) -> (step:
        CallStep)
        requires
            old(self).stage == CallStage::Streaming,
        ensures
            is_stream_step(*old(self), item, cancelled, *final(self), step),
    {
        match item {
            None => self.complete(),
            Some(item) => {
                let mut answer = StreamedAnswer::new();
                std::mem::swap(&mut answer, &mut self.answer);
                let taken = answer.take_item(cancelled, item);
                self.answer = answer;
                match taken {
                    StreamStep::More => quiet(CallAction::ReadStream),
                    StreamStep::End => self.complete(),
                    StreamStep::Cancelled => {
                        self.stage = CallStage::Finished;
                        quiet(CallAction::Next(ExecutionState::Cancelled))
                    },
                    StreamStep::Failed(message) => self.fail(message),
                }
            },
        }
    }

    fn call_failed(&mut self, reason: String, backoff_secs: u64, started_at: i64) -> (step: CallStep)
        requires
            old(self).wf(),
            old(self).stage == CallStage::Calling,
        ensures
            final(self).wf(),
            is_failure_step(*old(self), reason@, backoff_secs, started_at, *final(self), step),
    {
        let words = request_failure(self.path, reason.as_str());
        match self.attempts.after_failure(words.as_str()) {
            RetryStep::Fail(message) => self.fail(message),
            RetryStep::Wait { message, retry_after } => {
                let secs: u64 = calculate_rate_limit_wait(retry_after, backoff_secs);
                let event = self.attempts.waiting_event(message.as_str(), secs, started_at);
                self.stage = CallStage::Waiting;
                loud(event, CallAction::Wait { secs })
            },
        }
    }

    /// Goes on after `event`. An event that the call does not wait for changes nothing.
    pub fn on_event(&mut self, event: CallEvent) -> (step: CallStep)
        requires
            old(self).wf(),
        ensures
            final(self).wf(),
            is_step(*old(self), event, *final(self), step),
    {
        match (self.stage, event) {
            (CallStage::BuildingProvider, CallEvent::ProviderBuilt { result, cancelled }) => {
                match result {
                    Err(reason) => {
                        let mut message = "Failed to build provider: ".to_string();
                        message.append(reason.as_str());
                        self.fail(message)
                    },
                    Ok(_) => {
                        if self.path == LlmPath::Streaming {
                            self.stage = CallStage::OpeningStream;
                            quiet(CallAction::OpenStream)
                        } else {
                            quiet(self.begin(cancelled))
                        }
                    },
                }
            },
            (CallStage::OpeningStream, CallEvent::StreamOpened(result)) => match result {
                Err(reason) => {
                    let message = request_failure(LlmPath::Streaming, reason.as_str());
                    self.fail(message)
                },
                Ok(_) => {
                    self.stage = CallStage::Streaming;
                    quiet(CallAction::ReadStream)
                },
            },
            (CallStage::Streaming, CallEvent::StreamItem { item, cancelled }) => self.take_item(
                item,
                cancelled,
            ),
            (CallStage::Calling, CallEvent::Answered(response)) => {
                let usage = response.usage;
                self.response = Some(response);
                self.stage = CallStage::Counting;
                quiet(CallAction::CountTokens { usage })
            },
            (
                CallStage::Calling,
                CallEvent::CallFailed { reason, backoff_secs, started_at },
            ) => self.call_failed(reason, backoff_secs, started_at),
            (CallStage::Calling, CallEvent::CallCancelled) => self.fail("Cancelled".to_string()),
            (CallStage::Waiting, CallEvent::WaitOver { interrupted, cancelled }) => {
                match self.attempts.resume(interrupted) {
                    Err(message) => self.fail(message),
                    Ok(event) => {
                        let action = self.begin(cancelled);
                        loud(event, action)
                    },
                }
            },
            (CallStage::Counting, CallEvent::TokensCounted(context_tokens)) => {
                self.stage = CallStage::Finished;
                let response = self.response.take().unwrap();
                let context = self.context.take().unwrap();
                let (event, next) = end_llm_call(response, context, context_tokens);
                loud(event, CallAction::Next(next))
            },
            _ => quiet(CallAction::Ignore),
        }
    }
}

/// A model is called at most as often as allowed, but once in any case, and again only
/// after a wait.
pub proof fn law_calls_are_bounded(
    run: LlmCallRun,
    event: CallEvent,
    after: LlmCallRun,
    step: CallStep,
)
    requires
        run.wf(),
        is_step(run, event, after, step),
        step.action is CallModel,
    ensures
        after.attempts.attempt == run.attempts.attempt + 1,
        after.attempts.attempt <= 1 || after.attempts.attempt <= after.attempts.max_retries,
        run.stage == CallStage::BuildingProvider || run.stage == CallStage::Waiting,
{
}

/// A stage takes notice only of the outcome of what was asked for in it.
pub proof fn law_other_events_leave_the_call_alone(
    run: LlmCallRun,
    event: CallEvent,
    after: LlmCallRun,
    step: CallStep,
)
    requires
        is_step(run, event, after, step),
        !(run.stage == CallStage::BuildingProvider && event is ProviderBuilt),
        !(run.stage == CallStage::OpeningStream && event is StreamOpened),
        !(run.stage == CallStage::Streaming && event is StreamItem),
        !(run.stage == CallStage::Calling && (event is Answered || event is CallFailed
            || event is CallCancelled)),
        !(run.stage == CallStage::Waiting && event is WaitOver),
        !(run.stage == CallStage::Counting && event is TokensCounted),
    ensures
        after == run,
        step.emit@.len() == 0,
        step.action is Ignore,
{
}

/// Where a provider cannot be built the call fails and says why; where it can, the model is
/// called in the way that was chosen.
pub proof fn law_built_providers_are_called(
    run: LlmCallRun,
    result: Result<(), String>,
    cancelled: bool,
    after: LlmCallRun,
    step: CallStep,
)
    requires
        run.stage == CallStage::BuildingProvider,
        is_step(run, CallEvent::ProviderBuilt { result, cancelled }, after, step),
    ensures
        step.emit@.len() == 0,
        after.context == run.context,
        after.messages == run.messages,
        after.path == run.path,
        after.response == run.response,
        result matches Err(reason) ==> after.stage == CallStage::Finished && (
        step.action matches CallAction::Fail(message) && message@ == "Failed to build provider: "@
            + reason@),
        result is Ok && run.path == LlmPath::Streaming ==> after.stage == CallStage::OpeningStream
            && step.action is OpenStream,
        result is Ok && run.path != LlmPath::Streaming && !cancelled ==> after.stage
            == CallStage::Calling && after.attempts.attempt == run.attempts.attempt + 1
            && step.action == (CallAction::CallModel { with_tools: run.path == LlmPath::WithTools }),
        result is Ok && run.path != LlmPath::Streaming && cancelled ==> after.stage
            == CallStage::Finished && (step.action matches CallAction::Fail(message) && message@
            == "Cancelled"@),
{
}

/// A stream is read until it is at its end, unless the call is cancelled or the stream fails.
pub proof fn law_streams_are_read_to_their_end(
    run: LlmCallRun,
    item: Option<Result<StreamChunk, String>>,
    cancelled: bool,
    after: LlmCallRun,
    step: CallStep,
)
    requires
        run.stage == CallStage::Streaming,
        is_step(run, CallEvent::StreamItem { item, cancelled }, after, step),
    ensures
        step.emit@.len() == 0,
        after.context == run.context,
        after.messages == run.messages,
        after.path == run.path,
        after.attempts == run.attempts,
        item is Some && cancelled ==> after.stage == CallStage::Finished && step.action
            == CallAction::Next(ExecutionState::Cancelled) && after.response == run.response,
        item matches Some(Err(reason)) ==> !cancelled ==> after.stage == CallStage::Finished && (
        step.action matches CallAction::Fail(message) && message@
            == "LLM streaming request with tools failed: "@ + reason@),
        item matches Some(Ok(chunk)) ==> !cancelled && !(chunk is Done) ==> after.stage
            == CallStage::Streaming && step.action is ReadStream && after.answer@
            == transitions::with_chunk(run.answer@, chunk) && after.response == run.response,
        item is None || (!cancelled && (item matches Some(Ok(StreamChunk::Done { .. }))))
            ==> after.stage == CallStage::Counting && (after.response matches Some(response)
            && response.content@ == run.answer.text@ && response.tool_calls@
            == run.answer.tool_calls@ && response.usage == run.answer.usage && (
        response.tool_calls@.len() == 0 ==> response.finish_reason == Some(FinishReason::Stop))
            && (response.tool_calls@.len() > 0 ==> response.finish_reason == Some(
            FinishReason::ToolCalls,
        ))) && step.action == (CallAction::CountTokens { usage: run.answer.usage }),
{
}

/// A stream that was opened is read, and one that was not fails the call.
pub proof fn law_opened_streams_are_read(
    run: LlmCallRun,
    result: Result<(), String>,
    after: LlmCallRun,
    step: CallStep,
)
    requires
        run.stage == CallStage::OpeningStream,
        is_step(run, CallEvent::StreamOpened(result), after, step),
    ensures
        step.emit@.len() == 0,
        after.context == run.context,
        after.answer == run.answer,
        result is Ok ==> after.stage == CallStage::Streaming && step.action is ReadStream,
        result matches Err(reason) ==> after.stage == CallStage::Finished && (
        step.action matches CallAction::Fail(message) && message@
            == "LLM streaming request with tools failed: "@ + reason@),
{
}

/// An answer of the model is kept as it is, and its usage is counted next; a cancelled call
/// fails.
pub proof fn law_answers_are_kept_and_counted(
    run: LlmCallRun,
    response: LlmResponse,
    after: LlmCallRun,
    step: CallStep,
    cancelled_after: LlmCallRun,
    cancelled_step: CallStep,
)
    requires
        run.stage == CallStage::Calling,
        is_step(run, CallEvent::Answered(response), after, step),
        is_step(run, CallEvent::CallCancelled, cancelled_after, cancelled_step),
    ensures
        after.stage == CallStage::Counting,
        after.response == Some(response),
        after.context == run.context,
        after.attempts == run.attempts,
        step.emit@.len() == 0,
        step.action == (CallAction::CountTokens { usage: response.usage }),
        cancelled_after.stage == CallStage::Finished,
        cancelled_step.emit@.len() == 0,
        cancelled_step.action matches CallAction::Fail(message) && message@ == "Cancelled"@,
{
}

/// A call that failed is made again only where a rate limit was the reason and attempts are
/// left; the wait is as long as the configuration says, and is announced with its attempt.
pub proof fn law_only_rate_limits_are_waited_for(
    run: LlmCallRun,
    reason: String,
    backoff_secs: u64,
    started_at: i64,
    after: LlmCallRun,
    step: CallStep,
)
    requires
        run.stage == CallStage::Calling,
        is_step(run, CallEvent::CallFailed { reason, backoff_secs, started_at }, after, step),
    ensures
        ({
            let words = transitions::failure_text(run.path, reason@);
            let limited = transitions::speaks_of_rate_limit(words);
            let left = run.attempts.attempt < run.attempts.max_retries;
            &&& after.context == run.context
            &&& after.attempts == run.attempts
            &&& after.path == run.path
            &&& after.messages == run.messages
            &&& !limited ==> after.stage == CallStage::Finished && step.emit@.len() == 0 && (
            step.action matches CallAction::Fail(message) && message@ == words)
            &&& limited && !left ==> after.stage == CallStage::Finished && step.emit@.len() == 0
                && (step.action matches CallAction::Fail(message) && message@
                == "Rate limit exceeded after "@ + text::decimal(run.attempts.max_retries as nat)
                + " attempts: "@ + words)
            &&& limited && left ==> after.stage == CallStage::Waiting && step.action
                == (CallAction::Wait { secs: backoff_secs }) && step.emit@.len() == 1 && (
            step.emit@[0] matches AgentEventKind::RateLimited {
                message,
                wait_secs,
                started_at: at,
                attempt,
                max_attempts,
            } && message@ == words && wait_secs == backoff_secs && at == started_at && attempt
                == run.attempts.attempt && max_attempts == run.attempts.max_retries)
        }),
{
}

/// After a wait the model is called once more, as before, and this is announced; an
/// interrupted wait fails the call.
pub proof fn law_calls_are_resumed_after_a_wait(
    run: LlmCallRun,
    interrupted: bool,
    cancelled: bool,
    after: LlmCallRun,
    step: CallStep,
)
    requires
        run.stage == CallStage::Waiting,
        run.attempts.attempt < usize::MAX,
        is_step(run, CallEvent::WaitOver { interrupted, cancelled }, after, step),
    ensures
        after.context == run.context,
        after.path == run.path,
        after.messages == run.messages,
        interrupted ==> after.stage == CallStage::Finished && step.emit@.len() == 0 && (
        step.action matches CallAction::Fail(message) && message@
            == "Cancelled during rate limit wait"@),
        !interrupted ==> after.attempts.attempt == run.attempts.attempt + 1 && step.emit@.len()
            == 1 && (step.emit@[0] matches AgentEventKind::RateLimitResume { attempt } && attempt
            == run.attempts.attempt + 1),
        !interrupted && !cancelled ==> after.stage == CallStage::Calling && step.action == (
        CallAction::CallModel { with_tools: run.path != LlmPath::Plain }),
        !interrupted && cancelled ==> after.stage == CallStage::Finished && (
        step.action matches CallAction::Fail(message) && message@ == "Cancelled"@),
{
}

/// A call ends by telling what it used and how often the model was asked, and the turn goes
/// on from the answer and the conversation.
pub proof fn law_calls_end_with_the_answer(
    run: LlmCallRun,
    context_tokens: u64,
    after: LlmCallRun,
    step: CallStep,
)
    requires
        run.wf(),
        run.stage == CallStage::Counting,
        is_step(run, CallEvent::TokensCounted(context_tokens), after, step),
    ensures
        run.context is Some,
        run.response is Some,
        after.stage == CallStage::Finished,
        step.action == CallAction::Next(
            ExecutionState::AfterLlm {
                response: run.response->Some_0,
                context: run.context->Some_0,
            },
        ),
        step.emit@.len() == 1,
        step.emit@[0] matches AgentEventKind::LlmRequestEnd {
            usage,
            tool_calls,
            finish_reason,
            context_tokens: size,
            steps,
            turns,
        } && usage == run.response->Some_0.usage && tool_calls
            == run.response->Some_0.tool_calls@.len() && finish_reason
            == run.response->Some_0.finish_reason && size == context_tokens && steps
            == run.context->Some_0.stats.steps + 1 && turns == run.context->Some_0.stats.turns,
{
}

/// An attempt to call the model leaves all but the attempt alone, and a stream that is put
/// together leaves nothing of it behind.
pub proof fn law_attempts_leave_the_rest_alone(
    run: LlmCallRun,
    cancelled: bool,
    after: LlmCallRun,
    step: CallStep,
    completed: LlmCallRun,
    completing: CallStep,
)
    requires
        begins(run, cancelled, after, step),
        completes(run, completed, completing),
    ensures
        after.answer == run.answer,
        after.response == run.response,
        after.attempts.max_retries == run.attempts.max_retries,
        completed.answer.text@.len() == 0,
        completed.answer.tool_calls@.len() == 0,
        completed.answer.usage is None,
        completed.context == run.context,
        completed.attempts == run.attempts,
        completed.path == run.path,
{
}

} // verus!
