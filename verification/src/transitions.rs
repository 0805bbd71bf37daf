//! How a turn goes from one state to the next: before, during and after a model call, while
//! tools run, and while it waits for a delegation.
use vstd::prelude::*;

use crate::chat::{FinishReason, FunctionCall, StreamChunk, ToolCall, Usage};
use crate::events::AgentEventKind;
use crate::model::{AgentMessage, CacheHint, ChatMessage, ChatRole, MessagePart};
use crate::text;
use crate::text::{contains, decimal_string, str_eq, to_lowercase};
use crate::tools;
use crate::tools::contains_name;

verus! {

/// The figures of a conversation.
#[derive(Debug, Clone, Copy, PartialEq, Eq, Structural)]
pub struct AgentStats {
    pub total_input_tokens: u64,
    pub total_output_tokens: u64,
    pub reasoning_tokens: u64,
    pub cache_read_tokens: u64,
    pub cache_write_tokens: u64,
    pub context_tokens: usize,
    pub steps: usize,
    pub turns: usize,
}

/// A conversation with a model.
#[derive(Debug)]
pub struct ConversationContext {
    pub session_id: String,
    pub messages: Vec<ChatMessage>,
    pub stats: AgentStats,
    pub provider: String,
    pub model: String,
}

/// What a model answered.
#[derive(Debug)]
pub struct LlmResponse {
    pub content: String,
    pub tool_calls: Vec<ToolCall>,
    pub usage: Option<Usage>,
    pub finish_reason: Option<FinishReason>,
}

/// What a tool returned.
#[derive(Debug)]
pub struct ToolResult {
    pub call_id: String,
    pub content: String,
    pub is_error: bool,
    pub tool_name: Option<String>,
    pub tool_arguments: Option<String>,
    pub snapshot_part: Option<MessagePart>,
}

/// Why a turn stopped before it was complete.
#[derive(Debug, Clone, Copy, PartialEq, Eq, Structural)]
pub enum StopType {
    ModelTokenLimit,
    ContentFilter,
    Other,
}

/// What a turn waits for: events about any of these delegations, or about any delegation
/// where none is named.
#[derive(Debug)]
pub struct WaitCondition {
    pub correlation_ids: Vec<String>,
}

/// Where a turn stands.
#[derive(Debug)]
pub enum ExecutionState {
    BeforeTurn { context: ConversationContext },
    BeforeLlmCall { context: ConversationContext },
    /// `tools` are those that the model may call, each as JSON text.
    CallLlm { context: ConversationContext, tools: Vec<String> },
    AfterLlm { response: LlmResponse, context: ConversationContext },
    ProcessingToolCalls {
        remaining_calls: Vec<ToolCall>,
        results: Vec<ToolResult>,
        context: ConversationContext,
    },
    WaitingForEvent { context: ConversationContext, wait: WaitCondition },
    Stopped { message: String, stop_type: StopType, context: Option<ConversationContext> },
    Complete,
    Cancelled,
}

/// The messages with a cache hint on the last two. A conversation of fewer than two
/// messages gets none.
pub open spec fn with_breakpoints(messages: Seq<ChatMessage>) -> Seq<ChatMessage> {
    Seq::new(
        messages.len(),
        |i: int|
            if messages.len() >= 2 && i >= messages.len() - 2 {
                ChatMessage {
                    cache: Some(CacheHint::Ephemeral { ttl_seconds: None }),
                    ..messages[i]
                }
            } else {
                messages[i]
            },
    )
}

/// Puts a cache hint on the last two messages of a conversation, for providers that cache
/// prompts.
pub fn apply_cache_breakpoints(messages: &Vec<ChatMessage>) -> (marked: Vec<ChatMessage>)
    ensures
        marked@ == with_breakpoints(messages@),
{
    let len: usize = messages.len();
    let mut marked: Vec<ChatMessage> = Vec::new();
    let mut i: usize = 0;
    while i < len
        invariant
            len == messages@.len(),
            i <= len,
            marked@ == with_breakpoints(messages@).subrange(0, i as int),
        decreases len - i,
    {
        let cache = if len >= 2 && i >= len - 2 {
            Some(CacheHint::Ephemeral { ttl_seconds: None })
        } else {
            messages[i].cache
        };
        marked.push(
            ChatMessage { role: messages[i].role, content: messages[i].content.clone(), cache },
        );
        assert(marked@ =~= with_breakpoints(messages@).subrange(0, i + 1));
        i = i + 1;
    }
    assert(marked@ =~= with_breakpoints(messages@));
    marked
}

/// What a turn does before a model call.
#[derive(Debug)]
pub struct BeforeLlmCall {
    pub next: ExecutionState,
    /// The tools are not the ones that were announced last, and are to be announced.
    pub announce_tools: Option<AgentEventKind>,
}

/// The tools that a model may call.
#[derive(Debug)]
pub struct CollectedTools {
    /// Each tool as JSON text.
    pub tools: Vec<String>,
    /// The hash of all of them.
    pub hash: u64,
}

/// Why the tools that a model may call could not be collected.
#[derive(Debug)]
pub enum CollectFailure {
    /// The provider could not be built.
    Provider(String),
    /// The tools could not be written as JSON, and so not be hashed.
    Serialization,
}

/// The words in which a turn tells of `failure`.
pub open spec fn collect_failure_text(failure: CollectFailure) -> Seq<char> {
    match failure {
        CollectFailure::Provider(reason) => "Failed to build provider: "@ + reason@,
        CollectFailure::Serialization => "Failed to serialize tools for hash computation"@,
    }
}

/// `step` is how a turn that is not cancelled goes on to its model call with `collected`,
/// where the tools with the hash `before` were announced last.
pub open spec fn goes_on_with(
    context: ConversationContext,
    collected: CollectedTools,
    before: Option<u64>,
    step: BeforeLlmCall,
) -> bool {
    &&& step.next == (ExecutionState::CallLlm { context, tools: collected.tools })
    &&& if before == Some(collected.hash) {
        step.announce_tools is None
    } else {
        &&& step.announce_tools matches Some(AgentEventKind::ToolsAvailable { tools, tools_hash })
        &&& tools@ == collected.tools@
        &&& tools_hash == collected.hash
    }
}

/// Goes on to the model call. The tools are announced when their hash is new. Where they could
/// not be collected the turn fails.
pub fn before_llm_call(
    cancelled: bool,
    context: ConversationContext,
    announced: &mut Option<u64>,
    collected: Result<CollectedTools, CollectFailure>,
) -> (step: Result<BeforeLlmCall, String>)
    ensures
        cancelled ==> {
            &&& step matches Ok(step)
            &&& step.next is Cancelled
            &&& step.announce_tools is None
            &&& *final(announced) == *old(announced)
        },
        !cancelled ==> match collected {
            Ok(collected) => {
                &&& step matches Ok(step)
                &&& goes_on_with(context, collected, *old(announced), step)
                &&& *final(announced) == Some(collected.hash)
            },
            Err(failure) => {
                &&& step matches Err(message)
                &&& message@ == collect_failure_text(failure)
                &&& *final(announced) == *old(announced)
            },
        },
{
    if cancelled {
        return Ok(BeforeLlmCall { next: ExecutionState::Cancelled, announce_tools: None });
    }
    let collected = match collected {
        Ok(collected) => collected,
        Err(CollectFailure::Provider(reason)) => {
            let mut message = "Failed to build provider: ".to_string();
            message.append(reason.as_str());
            return Err(message);
        },
        Err(CollectFailure::Serialization) => {
            return Err("Failed to serialize tools for hash computation".to_string());
        },
    };
    let changed = match *announced {
        Some(hash) => hash != collected.hash,
        None => true,
    };
    let announce_tools = if changed {
        *announced = Some(collected.hash);
        let tools = collected.tools.clone();
        assert(tools@ =~= collected.tools@);
        Some(AgentEventKind::ToolsAvailable { tools, tools_hash: collected.hash })
    } else {
        None
    };
    Ok(
        BeforeLlmCall {
            next: ExecutionState::CallLlm { context, tools: collected.tools },
            announce_tools,
        },
    )
}

/// How a model is called.
#[derive(Debug, Clone, Copy, PartialEq, Eq, Structural)]
pub enum LlmPath {
    /// Without tools, and again after a rate limit.
    Plain,
    /// With tools, as a stream, once.
    Streaming,
    /// With tools, and again after a rate limit.
    WithTools,
}

/// How a model is called: one provider answers calls with tools only as a stream.
pub open spec fn chosen_path(has_tools: bool, provider: Seq<char>) -> LlmPath {
    if !has_tools {
        LlmPath::Plain
    } else if provider == "codex"@ {
        LlmPath::Streaming
    } else {
        LlmPath::WithTools
    }
}

/// How a model is called.
pub fn llm_path(has_tools: bool, provider: &str) -> (path: LlmPath)
    ensures
        path == chosen_path(has_tools, provider@),
{
    if !has_tools {
        LlmPath::Plain
    } else if str_eq(provider, "codex") {
        LlmPath::Streaming
    } else {
        LlmPath::WithTools
    }
}

/// A streamed answer so far.
#[derive(Debug)]
pub struct StreamedAnswer {
    pub text: String,
    pub tool_calls: Vec<ToolCall>,
    pub usage: Option<Usage>,
}

/// What a streamed answer holds.
pub ghost struct AnswerView {
    pub text: Seq<char>,
    pub tool_calls: Seq<ToolCall>,
    pub usage: Option<Usage>,
}

/// What comes after a piece of a stream.
#[derive(Debug, PartialEq, Eq)]
pub enum StreamStep {
    /// The next piece.
    More,
    /// The stream is at its end.
    End,
    /// The turn was cancelled.
    Cancelled,
    /// The stream failed.
    Failed(String),
}

/// A call with the id `id` is among `calls`.
pub open spec fn has_call(calls: Seq<ToolCall>, id: Seq<char>) -> bool {
    exists|i: int| 0 <= i < calls.len() && (#[trigger] calls[i]).id@ == id
}

/// No two calls have the same id.
pub open spec fn distinct_calls(calls: Seq<ToolCall>) -> bool {
    forall|i: int, j: int|
        0 <= i < j < calls.len() ==> (#[trigger] calls[i]).id@ != (#[trigger] calls[j]).id@
}

/// An answer with one more piece in it. Text is put together, a tool call that came before
/// is passed over, and the last usage counts. Nothing else is kept.
pub open spec fn with_chunk(answer: AnswerView, chunk: StreamChunk) -> AnswerView {
    match chunk {
        StreamChunk::Text(delta) => AnswerView { text: answer.text + delta@, ..answer },
        StreamChunk::ToolUseComplete { tool_call, .. } => if has_call(
            answer.tool_calls,
            tool_call.id@,
        ) {
            answer
        } else {
            AnswerView { tool_calls: answer.tool_calls.push(tool_call), ..answer }
        },
        StreamChunk::Usage(usage) => AnswerView { usage: Some(usage), ..answer },
        _ => answer,
    }
}

/// The answer that some pieces make.
pub open spec fn streamed(chunks: Seq<StreamChunk>) -> AnswerView
    decreases chunks.len(),
{
    if chunks.len() == 0 {
        AnswerView { text: Seq::empty(), tool_calls: Seq::empty(), usage: None }
    } else {
        with_chunk(streamed(chunks.drop_last()), chunks.last())
    }
}

fn contains_call(calls: &Vec<ToolCall>, id: &str) -> (yes: bool)
    ensures
        yes == has_call(calls@, id@),
{
    let mut i: usize = 0;
    while i < calls.len()
        invariant
            i <= calls@.len(),
            forall|j: int| 0 <= j < i ==> (#[trigger] calls@[j]).id@ != id@,
        decreases calls@.len() - i,
    {
        if str_eq(calls[i].id.as_str(), id) {
            return true;
        }
        i = i + 1;
    }
    false
}

impl StreamedAnswer {
    /// What the answer holds.
    pub open spec fn view(&self) -> AnswerView {
        AnswerView { text: self.text@, tool_calls: self.tool_calls@, usage: self.usage }
    }

    /// An answer of which nothing has come yet.
    pub fn new() -> (answer: Self)
        ensures
            answer@ == streamed(Seq::empty()),
    {
        let answer = StreamedAnswer { text: String::new(), tool_calls: Vec::new(), usage: None };
        assert(answer.text@ =~= Seq::<char>::empty());
        answer
    }

    /// Takes in a piece of the stream.
    pub fn take_chunk(&mut self, chunk: StreamChunk) -> (step: StreamStep)
        ensures
            step == if chunk is Done {
                StreamStep::End
            } else {
                StreamStep::More
            },
            final(self)@ == with_chunk(old(self)@, chunk),
    {
        match chunk {
            StreamChunk::Text(delta) => {
                self.text.append(delta.as_str());
            },
            StreamChunk::ToolUseComplete { tool_call, .. } => {
                if !contains_call(&self.tool_calls, tool_call.id.as_str()) {
                    self.tool_calls.push(tool_call);
                }
            },
            StreamChunk::Usage(usage) => {
                self.usage = Some(usage);
            },
            StreamChunk::Done { .. } => {
                return StreamStep::End;
            },
            _ => {},
        }
        StreamStep::More
    }

    /// Takes in what the stream gave. A cancelled turn takes nothing more, and a stream that
    /// fails ends the turn.
    pub fn take_item(&mut self, cancelled: bool, item: Result<StreamChunk, String>) -> (step:
        StreamStep)
        ensures
            cancelled ==> step is Cancelled && *final(self) == *old(self),
            !cancelled ==> match item {
                Err(reason) => {
                    &&& *final(self) == *old(self)
                    &&& step matches StreamStep::Failed(message) && message@ == failure_text(
                        LlmPath::Streaming,
                        reason@,
                    )
                },
                Ok(chunk) => {
                    &&& final(self)@ == with_chunk(old(self)@, chunk)
                    &&& step == if chunk is Done {
                        StreamStep::End
                    } else {
                        StreamStep::More
                    }
                },
            },
    {
        if cancelled {
            return StreamStep::Cancelled;
        }
        match item {
            Err(reason) => StreamStep::Failed(request_failure(LlmPath::Streaming, reason.as_str())),
            Ok(chunk) => self.take_chunk(chunk),
        }
    }

    /// The answer once the stream is at its end. With tool calls the model asks for them;
    /// without, it is done.
    pub fn finish(self) -> (response: LlmResponse)
        ensures
            response.content == self.text,
            response.tool_calls == self.tool_calls,
            response.usage == self.usage,
            response.finish_reason == Some(
                if self.tool_calls@.len() == 0 {
                    FinishReason::Stop
                } else {
                    FinishReason::ToolCalls
                },
            ),
    {
        let finish_reason = if self.tool_calls.len() == 0 {
            FinishReason::Stop
        } else {
            FinishReason::ToolCalls
        };
        LlmResponse {
            content: self.text,
            tool_calls: self.tool_calls,
            usage: self.usage,
            finish_reason: Some(finish_reason),
        }
    }
}

/// The words in which a failed model call is reported.
pub open spec fn failure_text(path: LlmPath, reason: Seq<char>) -> Seq<char> {
    match path {
        LlmPath::Plain => "LLM request failed: "@ + reason,
        LlmPath::Streaming => "LLM streaming request with tools failed: "@ + reason,
        LlmPath::WithTools => "LLM request with tools failed: "@ + reason,
    }
}

/// The words in which a failed model call is reported.
pub fn request_failure(path: LlmPath, reason: &str) -> (message: String)
    ensures
        message@ == failure_text(path, reason@),
{
    let mut message = match path {
        LlmPath::Plain => "LLM request failed: ".to_string(),
        LlmPath::Streaming => "LLM streaming request with tools failed: ".to_string(),
        LlmPath::WithTools => "LLM request with tools failed: ".to_string(),
    };
    message.append(reason);
    message
}

/// A model call as it is to be made.
#[derive(Debug)]
pub enum LlmCall {
    Cancelled,
    Call {
        /// Tells that the call is made.
        event: AgentEventKind,
        messages: Vec<ChatMessage>,
        path: LlmPath,
    },
}

/// Sets up a model call, unless the turn was cancelled: the conversation with its cache
/// hints, and how the model is called.
pub fn begin_llm_call(cancelled: bool, context: &ConversationContext, has_tools: bool) -> (call:
    LlmCall)
    ensures
        match call {
            LlmCall::Cancelled => cancelled,
            LlmCall::Call { event, messages, path } => {
                &&& !cancelled
                &&& event == (AgentEventKind::LlmRequestStart {
                    message_count: context.messages.len(),
                })
                &&& messages@ == with_breakpoints(context.messages@)
                &&& path == chosen_path(has_tools, context.provider@)
            },
        },
{
    if cancelled {
        return LlmCall::Cancelled;
    }
    LlmCall::Call {
        event: AgentEventKind::LlmRequestStart { message_count: context.messages.len() },
        messages: apply_cache_breakpoints(&context.messages),
        path: llm_path(has_tools, context.provider.as_str()),
    }
}

impl LlmResponse {
    /// The answer as a provider gave it. What it left out is empty.
    pub fn received(
        content: Option<String>,
        tool_calls: Option<Vec<ToolCall>>,
        usage: Option<Usage>,
        finish_reason: Option<FinishReason>,
    ) -> (response: Self)
        ensures
            response.content@ == match content {
                Some(content) => content@,
                None => Seq::empty(),
            },
            response.tool_calls@ == match tool_calls {
                Some(calls) => calls@,
                None => Seq::empty(),
            },
            response.usage == usage,
            response.finish_reason == finish_reason,
    {
        let content = match content {
            Some(content) => content,
            None => {
                let empty = String::new();
                assert(empty@ =~= Seq::<char>::empty());
                empty
            },
        };
        let tool_calls = match tool_calls {
            Some(calls) => calls,
            None => Vec::new(),
        };
        LlmResponse { content, tool_calls, usage, finish_reason }
    }

    /// The model asks for tools.
    pub fn has_tool_calls(&self) -> (yes: bool)
        ensures
            yes == (self.tool_calls@.len() > 0),
    {
        self.tool_calls.len() > 0
    }
}

/// Ends a model call: the event that tells how it came out, and the state that follows.
pub fn end_llm_call(
    response: LlmResponse,
    context: ConversationContext,
    context_tokens: u64,
) -> (ended: (AgentEventKind, ExecutionState))
    requires
        context.stats.steps < usize::MAX,
    ensures
        ended.0 == (AgentEventKind::LlmRequestEnd {
            usage: response.usage,
            tool_calls: response.tool_calls.len(),
            finish_reason: response.finish_reason,
            context_tokens,
            steps: (context.stats.steps + 1) as usize,
            turns: context.stats.turns,
        }),
        ended.1 == (ExecutionState::AfterLlm { response, context }),
{
    let event = AgentEventKind::LlmRequestEnd {
        usage: response.usage,
        tool_calls: response.tool_calls.len(),
        finish_reason: response.finish_reason,
        context_tokens,
        steps: context.stats.steps + 1,
        turns: context.stats.turns,
    };
    (event, ExecutionState::AfterLlm { response, context })
}

/// The words in which the progress of a model call is recorded.
pub fn progress_description(response: &LlmResponse) -> (out: String)
    ensures
        out@ == if response.tool_calls@.len() > 0 {
            "Received response with "@ + text::decimal(response.tool_calls@.len())
                + " tool call(s)"@
        } else {
            "Received response from LLM"@
        },
{
    let calls: usize = response.tool_calls.len();
    if calls > 0 {
        let mut out = "Received response with ".to_string();
        let count = decimal_string(calls as u64);
        out.append(count.as_str());
        out.append(" tool call(s)");
        out
    } else {
        "Received response from LLM".to_string()
    }
}

/// A tool call as it is stored.
pub open spec fn stored_call(part: MessagePart, call: ToolCall) -> bool {
    part matches MessagePart::ToolUse(stored) && stored.id@ == call.id@ && stored.call_type@
        == "function"@ && stored.function.name@ == call.function.name@
        && stored.function.arguments@ == call.function.arguments@
}

/// The parts as which an answer is stored: its text, where it has some, then its tool calls.
pub open spec fn stored_answer(parts: Seq<MessagePart>, response: LlmResponse) -> bool {
    let lead: int = if response.content@.len() > 0 {
        1
    } else {
        0
    };
    &&& parts.len() == lead + response.tool_calls@.len()
    &&& lead == 1 ==> (parts[0] matches MessagePart::Text { content } && content@
        == response.content@)
    &&& forall|i: int|
        lead <= i < parts.len() ==> stored_call(
            #[trigger] parts[i],
            response.tool_calls@[i - lead],
        )
}

/// The message as which an answer is stored.
pub fn assistant_message(
    response: &LlmResponse,
    session_id: &str,
    message_id: String,
    created_at: i64,
) -> (message: AgentMessage)
    ensures
        message.id == message_id,
        message.session_id@ == session_id@,
        message.role == ChatRole::Assistant,
        message.created_at == created_at,
        message.parent_message_id is None,
        stored_answer(message.parts@, *response),
{
    let mut parts: Vec<MessagePart> = Vec::new();
    if !response.content.as_str().is_empty() {
        parts.push(MessagePart::Text { content: response.content.clone() });
    }
    let ghost lead: int = parts@.len() as int;
    let mut i: usize = 0;
    while i < response.tool_calls.len()
        invariant
            i <= response.tool_calls@.len(),
            lead == if response.content@.len() > 0 {
                1int
            } else {
                0int
            },
            parts@.len() == lead + i,
            lead == 1 ==> (parts@[0] matches MessagePart::Text { content } && content@
                == response.content@),
            forall|j: int|
                lead <= j < parts@.len() ==> stored_call(
                    #[trigger] parts@[j],
                    response.tool_calls@[j - lead],
                ),
        decreases response.tool_calls@.len() - i,
    {
        let call = &response.tool_calls[i];
        parts.push(
            MessagePart::ToolUse(
                ToolCall {
                    id: call.id.clone(),
                    call_type: "function".to_string(),
                    function: FunctionCall {
                        name: call.function.name.clone(),
                        arguments: call.function.arguments.clone(),
                    },
                },
            ),
        );
        i = i + 1;
    }
    AgentMessage {
        id: message_id,
        session_id: session_id.to_owned(),
        role: ChatRole::Assistant,
        parts,
        created_at,
        parent_message_id: None,
    }
}

/// The figures can take in another answer.
pub open spec fn has_room(stats: AgentStats, usage: Usage) -> bool {
    &&& stats.total_input_tokens + usage.input_tokens <= u64::MAX
    &&& stats.total_output_tokens + usage.output_tokens <= u64::MAX
    &&& stats.reasoning_tokens + usage.reasoning_tokens <= u64::MAX
    &&& stats.cache_read_tokens + usage.cache_read <= u64::MAX
    &&& stats.cache_write_tokens + usage.cache_write <= u64::MAX
    &&& stats.steps < usize::MAX
}

/// The figures after an answer with the given usage.
pub open spec fn updated(stats: AgentStats, usage: Usage, context_tokens: usize) -> AgentStats {
    AgentStats {
        total_input_tokens: (stats.total_input_tokens + usage.input_tokens) as u64,
        total_output_tokens: (stats.total_output_tokens + usage.output_tokens) as u64,
        reasoning_tokens: (stats.reasoning_tokens + usage.reasoning_tokens) as u64,
        cache_read_tokens: (stats.cache_read_tokens + usage.cache_read) as u64,
        cache_write_tokens: (stats.cache_write_tokens + usage.cache_write) as u64,
        context_tokens,
        steps: (stats.steps + 1) as usize,
        turns: stats.turns,
    }
}

/// The figures after an answer. An answer without usage changes nothing.
pub fn updated_stats(stats: &AgentStats, usage: Option<Usage>, context_tokens: usize) -> (out:
    AgentStats)
    requires
        usage matches Some(usage) ==> has_room(*stats, usage),
    ensures
        out == match usage {
            Some(usage) => updated(*stats, usage, context_tokens),
            None => *stats,
        },
{
    match usage {
        None => *stats,
        Some(usage) => AgentStats {
            total_input_tokens: stats.total_input_tokens + usage.input_tokens as u64,
            total_output_tokens: stats.total_output_tokens + usage.output_tokens as u64,
            reasoning_tokens: stats.reasoning_tokens + usage.reasoning_tokens as u64,
            cache_read_tokens: stats.cache_read_tokens + usage.cache_read as u64,
            cache_write_tokens: stats.cache_write_tokens + usage.cache_write as u64,
            context_tokens,
            steps: stats.steps + 1,
            turns: stats.turns,
        },
    }
}

/// What follows an answer, as its finish reason says.
pub ghost enum AfterAnswer {
    /// The tools are run.
    Tools,
    /// The turn is complete.
    Complete,
    /// The turn stops.
    Stop(Seq<char>, StopType),
}

/// What follows an answer. The finish reason decides; where it says nothing, the tool calls
/// do.
pub open spec fn after_answer(reason: Option<FinishReason>, has_calls: bool) -> AfterAnswer {
    match reason {
        Some(FinishReason::Stop) => AfterAnswer::Complete,
        Some(FinishReason::Length) => AfterAnswer::Stop(
            "Model hit token limit"@,
            StopType::ModelTokenLimit,
        ),
        Some(FinishReason::ContentFilter) => AfterAnswer::Stop(
            "Response blocked by content filter"@,
            StopType::ContentFilter,
        ),
        _ => if has_calls {
            AfterAnswer::Tools
        } else {
            AfterAnswer::Complete
        },
    }
}

/// What a turn does after an answer was stored.
#[derive(Debug)]
pub struct AfterLlm {
    pub next: ExecutionState,
    /// The task that the turn worked on is to be marked as done.
    pub completes_task: bool,
}

/// The conversation with the answer in it.
pub open spec fn extended(
    before: ConversationContext,
    answer: ChatMessage,
    stats: AgentStats,
    after: ConversationContext,
) -> bool {
    &&& after.session_id == before.session_id
    &&& after.messages@ == before.messages@.push(answer)
    &&& after.stats == stats
    &&& after.provider == before.provider
    &&& after.model == before.model
}

/// `step` follows the answer `response` in the conversation `context`.
pub open spec fn follows_answer(
    response: LlmResponse,
    context: ConversationContext,
    answer: ChatMessage,
    context_tokens: usize,
    has_active_task: bool,
    step: AfterLlm,
) -> bool {
    let stats = match response.usage {
        Some(usage) => updated(context.stats, usage, context_tokens),
        None => context.stats,
    };
    &&& step.completes_task == (response.finish_reason == Some(FinishReason::Stop)
        && has_active_task)
    &&& match after_answer(response.finish_reason, response.tool_calls@.len() > 0) {
        AfterAnswer::Complete => step.next is Complete,
        AfterAnswer::Tools => step.next matches ExecutionState::ProcessingToolCalls {
            remaining_calls,
            results,
            context: after,
        } && remaining_calls == response.tool_calls && results@.len() == 0 && extended(
            context,
            answer,
            stats,
            after,
        ),
        AfterAnswer::Stop(words, kind) => step.next matches ExecutionState::Stopped {
            message,
            stop_type,
            context: after,
        } && message@ == words && stop_type == kind && after is Some && extended(
            context,
            answer,
            stats,
            after->Some_0,
        ),
    }
}

/// Goes on after an answer: to the tools that it asks for, or to the end of the turn.
/// `answer` is the answer as it is shown to the model from now on.
pub fn after_llm(
    cancelled: bool,
    response: LlmResponse,
    context: ConversationContext,
    answer: ChatMessage,
    context_tokens: usize,
    has_active_task: bool,
) -> (step: AfterLlm)
    requires
        !cancelled ==> (response.usage matches Some(usage) ==> has_room(context.stats, usage)),
    ensures
        cancelled ==> step.next is Cancelled && !step.completes_task,
        !cancelled ==> follows_answer(
            response,
            context,
            answer,
            context_tokens,
            has_active_task,
            step,
        ),
{
    if cancelled {
        return AfterLlm { next: ExecutionState::Cancelled, completes_task: false };
    }
    let stats = updated_stats(&context.stats, response.usage, context_tokens);
    let mut context = context;
    context.messages.push(answer);
    context.stats = stats;
    let mut completes_task = false;
    let next = match response.finish_reason {
        Some(FinishReason::Stop) => {
            completes_task = has_active_task;
            ExecutionState::Complete
        },
        Some(FinishReason::Length) => ExecutionState::Stopped {
            message: "Model hit token limit".to_string(),
            stop_type: StopType::ModelTokenLimit,
            context: Some(context),
        },
        Some(FinishReason::ContentFilter) => ExecutionState::Stopped {
            message: "Response blocked by content filter".to_string(),
            stop_type: StopType::ContentFilter,
            context: Some(context),
        },
        _ => {
            if response.tool_calls.len() > 0 {
                ExecutionState::ProcessingToolCalls {
                    remaining_calls: response.tool_calls,
                    results: Vec::new(),
                    context,
                }
            } else {
                ExecutionState::Complete
            }
        },
    };
    AfterLlm { next, completes_task }
}

/// What a turn with tool calls does next.
#[derive(Debug, Clone, Copy, PartialEq, Eq, Structural)]
pub enum ToolStep {
    Cancelled,
    /// Every call has its result: they are stored.
    StoreResults,
    /// All the calls that remain are run side by side.
    RunAll,
}

/// What a turn with tool calls does next.
pub fn processing_step(cancelled: bool, remaining: usize) -> (step: ToolStep)
    ensures
        step == if cancelled {
            ToolStep::Cancelled
        } else if remaining == 0 {
            ToolStep::StoreResults
        } else {
            ToolStep::RunAll
        },
{
    if cancelled {
        ToolStep::Cancelled
    } else if remaining == 0 {
        ToolStep::StoreResults
    } else {
        ToolStep::RunAll
    }
}

/// The first failure among the outcomes of tool calls.
pub open spec fn first_failure(outcomes: Seq<Result<ToolResult, String>>) -> Option<String>
    decreases outcomes.len(),
{
    if outcomes.len() == 0 {
        None
    } else {
        match outcomes.first() {
            Err(reason) => Some(reason),
            Ok(_) => first_failure(outcomes.drop_first()),
        }
    }
}

/// Collects the results of the tool calls that were run, after those that were there. The
/// first call that failed fails the turn.
#[verifier::loop_isolation(false)]
pub fn collect_results(
    results: Vec<ToolResult>,
    outcomes: Vec<Result<ToolResult, String>>,
    context: ConversationContext,
) -> (next: Result<ExecutionState, String>)
    ensures
        match next {
            Err(reason) => first_failure(outcomes@) == Some(reason),
            Ok(state) => {
                &&& first_failure(outcomes@) is None
                &&& state matches ExecutionState::ProcessingToolCalls {
                    remaining_calls,
                    results: all,
                    context: after,
                } && remaining_calls@.len() == 0 && after == context && all@.len()
                    == results@.len() + outcomes@.len() && all@.subrange(
                    0,
                    results@.len() as int,
                ) == results@ && forall|i: int|
                    0 <= i < outcomes@.len() ==> Ok::<ToolResult, String>(
                        #[trigger] all@[results@.len() + i],
                    ) == outcomes@[i]
            },
        },
{
    let ghost before = results@;
    let ghost total = outcomes@;
    let mut all = results;
    let mut outcomes = outcomes;
    let count: usize = outcomes.len();
    let mut taken: usize = 0;
    assert(total.subrange(0, total.len() as int) =~= total);
    while taken < count
        invariant
            taken <= count,
            count == total.len(),
            outcomes@ == total.subrange(taken as int, count as int),
            first_failure(total) == first_failure(outcomes@),
            all@.len() == before.len() + taken,
            all@.subrange(0, before.len() as int) == before,
            forall|i: int|
                0 <= i < taken ==> Ok::<ToolResult, String>(#[trigger] all@[before.len() + i])
                    == total[i],
        decreases count - taken,
    {
        let ghost rest = outcomes@;
        let outcome = outcomes.remove(0);
        assert(rest.first() == total[taken as int]);
        assert(outcomes@ =~= rest.drop_first());
        assert(outcomes@ =~= total.subrange(taken + 1, count as int));
        match outcome {
            Ok(result) => {
                let ghost so_far = all@;
                all.push(result);
                assert(all@.subrange(0, before.len() as int) =~= so_far.subrange(
                    0,
                    before.len() as int,
                ));
            },
            Err(reason) => {
                return Err(reason);
            },
        }
        taken = taken + 1;
    }
    Ok(ExecutionState::ProcessingToolCalls { remaining_calls: Vec::new(), results: all, context })
}

/// What a delegation that a turn waits for came to.
#[derive(Debug, PartialEq, Eq)]
pub enum DelegationOutcome {
    Completed { delegation_id: String, summary: String },
    Failed { delegation_id: String, error: String },
}

/// A wait that names no delegation is for any of them.
pub open spec fn waits_for(wait: WaitCondition, delegation: Seq<char>) -> bool {
    wait.correlation_ids@.len() == 0 || tools::lists(wait.correlation_ids@, delegation)
}

/// What an event means to a turn that waits, if it means anything.
pub open spec fn wait_outcome(
    wait: WaitCondition,
    event: AgentEventKind,
    outcome: Option<DelegationOutcome>,
) -> bool {
    match event {
        AgentEventKind::DelegationCompleted { delegation_id: id, summary: given } => if waits_for(
            wait,
            id@,
        ) {
            outcome matches Some(DelegationOutcome::Completed { delegation_id, summary })
                && delegation_id@ == id@ && summary@ == match given {
                Some(text) => text@,
                None => "No summary provided."@,
            }
        } else {
            outcome is None
        },
        AgentEventKind::DelegationFailed { delegation_id: id, error: given } => if waits_for(
            wait,
            id@,
        ) {
            outcome matches Some(DelegationOutcome::Failed { delegation_id, error })
                && delegation_id@ == id@ && error@ == given@
        } else {
            outcome is None
        },
        _ => outcome is None,
    }
}

/// What an event means to a turn that waits: the end of a delegation that it waits for, or
/// nothing.
pub fn match_wait_event(wait: &WaitCondition, event: &AgentEventKind) -> (outcome: Option<
    DelegationOutcome,
>)
    ensures
        wait_outcome(*wait, *event, outcome),
{
    match event {
        AgentEventKind::DelegationCompleted { delegation_id, summary } => {
            if wait.correlation_ids.len() > 0 && !contains_name(
                &wait.correlation_ids,
                delegation_id.as_str(),
            ) {
                return None;
            }
            let summary = match summary {
                Some(text) => text.clone(),
                None => "No summary provided.".to_string(),
            };
            Some(DelegationOutcome::Completed { delegation_id: delegation_id.clone(), summary })
        },
        AgentEventKind::DelegationFailed { delegation_id, error } => {
            if wait.correlation_ids.len() > 0 && !contains_name(
                &wait.correlation_ids,
                delegation_id.as_str(),
            ) {
                return None;
            }
            Some(
                DelegationOutcome::Failed {
                    delegation_id: delegation_id.clone(),
                    error: error.clone(),
                },
            )
        },
        _ => None,
    }
}

/// What reaches a turn that waits.
#[derive(Debug)]
pub enum WaitSignal {
    /// The cancellation flag changed, to this value.
    CancelFlag(bool),
    /// Events were missed.
    Lagged,
    /// There will be no more events.
    Closed,
    Event { session_id: String, kind: AgentEventKind },
}

/// What a turn that waits does on a signal.
#[derive(Debug)]
pub enum WaitStep {
    KeepWaiting,
    Cancelled,
    /// There is nothing to wait for any more: the turn stops.
    Closed,
    /// The turn goes on with this news.
    Resume(DelegationOutcome),
}

/// What a turn that waits does on a signal. Events of other sessions mean nothing to it.
pub fn on_wait_signal(wait: &WaitCondition, session_id: &str, signal: &WaitSignal) -> (step:
    WaitStep)
    ensures
        match *signal {
            WaitSignal::CancelFlag(cancelled) => if cancelled {
                step is Cancelled
            } else {
                step is KeepWaiting
            },
            WaitSignal::Lagged => step is KeepWaiting,
            WaitSignal::Closed => step is Closed,
            WaitSignal::Event { session_id: from, kind } => if from@ != session_id@ {
                step is KeepWaiting
            } else {
                match step {
                    WaitStep::Resume(outcome) => wait_outcome(*wait, kind, Some(outcome)),
                    WaitStep::KeepWaiting => wait_outcome(*wait, kind, None),
                    _ => false,
                }
            },
        },
{
    match signal {
        WaitSignal::CancelFlag(cancelled) => if *cancelled {
            WaitStep::Cancelled
        } else {
            WaitStep::KeepWaiting
        },
        WaitSignal::Lagged => WaitStep::KeepWaiting,
        WaitSignal::Closed => WaitStep::Closed,
        WaitSignal::Event { session_id: from, kind } => {
            if !str_eq(from.as_str(), session_id) {
                return WaitStep::KeepWaiting;
            }
            match match_wait_event(wait, kind) {
                Some(outcome) => WaitStep::Resume(outcome),
                None => WaitStep::KeepWaiting,
            }
        },
    }
}

/// The message as which news of a delegation is stored.
pub fn wait_message(
    content: String,
    session_id: &str,
    message_id: String,
    created_at: i64,
) -> (message: AgentMessage)
    ensures
        message.id == message_id,
        message.session_id@ == session_id@,
        message.role == ChatRole::User,
        message.parts@ == seq![MessagePart::Text { content }],
        message.created_at == created_at,
        message.parent_message_id is None,
{
    let mut parts: Vec<MessagePart> = Vec::new();
    parts.push(MessagePart::Text { content });
    AgentMessage {
        id: message_id,
        session_id: session_id.to_owned(),
        role: ChatRole::User,
        parts,
        created_at,
        parent_message_id: None,
    }
}

/// The state of a turn for which no event can come any more.
pub fn wait_closed(context: ConversationContext) -> (next: ExecutionState)
    ensures
        next matches ExecutionState::Stopped { message, stop_type, context: kept } && message@
            == "Event stream closed while waiting"@ && stop_type == StopType::Other && kept
            == Some(context),
{
    ExecutionState::Stopped {
        message: "Event stream closed while waiting".to_string(),
        stop_type: StopType::Other,
        context: Some(context),
    }
}

/// Goes on after a wait, with the news as the last message of the conversation.
pub fn resume_after_wait(context: ConversationContext, news: ChatMessage) -> (next:
    ExecutionState)
    ensures
        next matches ExecutionState::BeforeLlmCall { context: after } && extended(
            context,
            news,
            context.stats,
            after,
        ),
{
    let mut context = context;
    context.messages.push(news);
    ExecutionState::BeforeLlmCall { context }
}

/// The words of an error speak of a rate limit.
pub open spec fn speaks_of_rate_limit(message: Seq<char>) -> bool {
    let lower = text::unicode_lowercase(message);
    text::contains_text(lower, "rate limit"@) || text::contains_text(message, "429"@)
        || text::contains_text(lower, "too many requests"@)
}

/// Whether an error, given in its own words and in lower case, speaks of a rate limit.
pub fn is_rate_limit(message: &str, lower: &str) -> (yes: bool)
    ensures
        yes == (text::contains_text(lower@, "rate limit"@) || text::contains_text(
            message@,
            "429"@,
        ) || text::contains_text(lower@, "too many requests"@)),
{
    contains(lower, "rate limit") || contains(message, "429") || contains(
        lower,
        "too many requests",
    )
}

/// The words of an error that speaks of a rate limit, and how long to wait where the error
/// says so, which none does.
pub fn extract_rate_limit_info(message: &str) -> (info: Option<(String, Option<u64>)>)
    ensures
        match info {
            Some((words, retry_after)) => speaks_of_rate_limit(message@) && words@ == message@
                && retry_after is None,
            None => !speaks_of_rate_limit(message@),
        },
{
    let lower = to_lowercase(message);
    if is_rate_limit(message, lower.as_str()) {
        Some((message.to_owned(), None))
    } else {
        None
    }
}

/// How long to wait after a rate limit: as long as the provider says, or as the backoff
/// says.
pub fn calculate_rate_limit_wait(retry_after: Option<u64>, backoff_secs: u64) -> (secs: u64)
    ensures
        secs == match retry_after {
            Some(secs) => secs,
            None => backoff_secs,
        },
{
    match retry_after {
        Some(secs) => secs,
        None => backoff_secs,
    }
}

/// The attempts at a model call.
#[derive(Debug)]
pub struct RetryLoop {
    /// The attempts that were begun.
    pub attempt: usize,
    pub max_retries: usize,
}

/// What follows a model call that failed.
#[derive(Debug, PartialEq, Eq)]
pub enum RetryStep {
    /// The call fails for good.
    Fail(String),
    /// The call is made again after a wait.
    Wait { message: String, retry_after: Option<u64> },
}

impl RetryLoop {
    /// No more attempts are begun than allowed, except for the first one.
    pub open spec fn wf(&self) -> bool {
        self.attempt <= self.max_retries || self.attempt <= 1
    }

    /// Another attempt can be begun.
    pub open spec fn can_begin(&self) -> bool {
        self.attempt == 0 || self.attempt < self.max_retries
    }

    /// A loop in which nothing was tried.
    pub fn new(max_retries: usize) -> (attempts: Self)
        ensures
            attempts.attempt == 0,
            attempts.max_retries == max_retries,
            attempts.wf(),
            attempts.can_begin(),
    {
        RetryLoop { attempt: 0, max_retries }
    }

    /// Begins an attempt, unless the turn was cancelled.
    pub fn begin(&mut self, cancelled: bool) -> (begun: Result<(), String>)
        requires
            old(self).wf(),
            old(self).can_begin(),
        ensures
            final(self).wf(),
            final(self).attempt == old(self).attempt + 1,
            final(self).max_retries == old(self).max_retries,
            match begun {
                Ok(_) => !cancelled,
                Err(reason) => cancelled && reason@ == "Cancelled"@,
            },
    {
        self.attempt = self.attempt + 1;
        if cancelled {
            return Err("Cancelled".to_string());
        }
        Ok(())
    }

    /// What follows a failed attempt, given in the words of its error, and in those words in
    /// lower case. Only a rate limit is waited for, and only as long as attempts are left.
    pub fn after_failure_in(&self, message: &str, lower: &str) -> (step: RetryStep)
        requires
            self.wf(),
        ensures
            ({
                let limited = text::contains_text(lower@, "rate limit"@) || text::contains_text(
                    message@,
                    "429"@,
                ) || text::contains_text(lower@, "too many requests"@);
                match step {
                    RetryStep::Wait { message: words, retry_after } => limited && self.attempt
                        < self.max_retries && words@ == message@ && retry_after is None
                        && self.can_begin(),
                    RetryStep::Fail(words) => if limited {
                        self.attempt >= self.max_retries && words@
                            == "Rate limit exceeded after "@ + text::decimal(
                            self.max_retries as nat,
                        ) + " attempts: "@ + message@
                    } else {
                        words@ == message@
                    },
                }
            }),
    {
        if is_rate_limit(message, lower) {
            if self.attempt >= self.max_retries {
                let mut words = "Rate limit exceeded after ".to_string();
                let count = decimal_string(self.max_retries as u64);
                words.append(count.as_str());
                words.append(" attempts: ");
                words.append(message);
                return RetryStep::Fail(words);
            }
            RetryStep::Wait { message: message.to_owned(), retry_after: None }
        } else {
            RetryStep::Fail(message.to_owned())
        }
    }

    /// What follows a failed attempt. Only a rate limit is waited for, and only as long as
    /// attempts are left.
    pub fn after_failure(&self, message: &str) -> (step: RetryStep)
        requires
            self.wf(),
        ensures
            match step {
                RetryStep::Wait { message: words, retry_after } => speaks_of_rate_limit(message@)
                    && self.attempt < self.max_retries && words@ == message@
                    && retry_after is None && self.can_begin(),
                RetryStep::Fail(words) => if speaks_of_rate_limit(message@) {
                    self.attempt >= self.max_retries && words@ == "Rate limit exceeded after "@
                        + text::decimal(self.max_retries as nat) + " attempts: "@ + message@
                } else {
                    words@ == message@
                },
            },
    {
        let lower = to_lowercase(message);
        self.after_failure_in(message, lower.as_str())
    }

    /// The event that tells of a wait.
    pub fn waiting_event(&self, message: &str, wait_secs: u64, started_at: i64) -> (event:
        AgentEventKind)
        ensures
            event matches AgentEventKind::RateLimited {
                message: words,
                wait_secs: secs,
                started_at: at,
                attempt,
                max_attempts,
            } && words@ == message@ && secs == wait_secs && at == started_at && attempt
                == self.attempt && max_attempts == self.max_retries,
    {
        AgentEventKind::RateLimited {
            message: message.to_owned(),
            wait_secs,
            started_at,
            attempt: self.attempt,
            max_attempts: self.max_retries,
        }
    }

    /// Goes on after a wait, unless the turn was cancelled meanwhile.
    pub fn resume(&self, cancelled: bool) -> (resumed: Result<AgentEventKind, String>)
        requires
            self.wf(),
            self.can_begin(),
        ensures
            match resumed {
                Ok(event) => !cancelled && event == (AgentEventKind::RateLimitResume {
                    attempt: (self.attempt + 1) as usize,
                }),
                Err(reason) => cancelled && reason@ == "Cancelled during rate limit wait"@,
            },
    {
        if cancelled {
            return Err("Cancelled during rate limit wait".to_string());
        }
        Ok(AgentEventKind::RateLimitResume { attempt: self.attempt + 1 })
    }
}

/// Cache hints change nothing else: the conversation is the same, message for message.
pub proof fn law_breakpoints_keep_the_conversation(messages: Seq<ChatMessage>, i: int)
    requires
        0 <= i < messages.len(),
    ensures
        with_breakpoints(messages).len() == messages.len(),
        with_breakpoints(messages)[i].role == messages[i].role,
        with_breakpoints(messages)[i].content == messages[i].content,
        i < messages.len() - 2 || messages.len() < 2 ==> with_breakpoints(messages)[i]
            == messages[i],
{
}

/// A streamed answer asks for no tool twice, however often the stream names it.
pub proof fn law_streamed_calls_are_distinct(chunks: Seq<StreamChunk>)
    ensures
        distinct_calls(streamed(chunks).tool_calls),
    decreases chunks.len(),
{
    if chunks.len() > 0 {
        law_streamed_calls_are_distinct(chunks.drop_last());
    }
}

/// A tool call that a stream names is asked for, and one that it does not name is not.
pub proof fn law_streamed_calls_are_complete(chunks: Seq<StreamChunk>, id: Seq<char>)
    ensures
        has_call(streamed(chunks).tool_calls, id) <==> exists|i: int|
            0 <= i < chunks.len() && names_call(#[trigger] chunks[i], id),
    decreases chunks.len(),
{
    if chunks.len() > 0 {
        let before = chunks.drop_last();
        law_streamed_calls_are_complete(before, id);
        let calls = streamed(before).tool_calls;
        assert(streamed(chunks) == with_chunk(streamed(before), chunks.last()));
        if has_call(streamed(chunks).tool_calls, id) {
            if has_call(calls, id) {
                let i = choose|i: int| 0 <= i < before.len() && names_call(#[trigger] before[i], id);
                assert(names_call(chunks[i], id));
            } else {
                assert(names_call(chunks[chunks.len() - 1], id));
            }
        }
        if exists|i: int| 0 <= i < chunks.len() && names_call(#[trigger] chunks[i], id) {
            let i = choose|i: int| 0 <= i < chunks.len() && names_call(#[trigger] chunks[i], id);
            if i < before.len() {
                assert(names_call(before[i], id));
                let k = choose|k: int| 0 <= k < calls.len() && (#[trigger] calls[k]).id@ == id;
                assert(streamed(chunks).tool_calls[k].id@ == id);
            } else if !has_call(calls, id) {
                assert(streamed(chunks).tool_calls[calls.len() as int].id@ == id);
            }
        }
    }
}

/// The piece of a stream is a tool call with this id.
pub open spec fn names_call(chunk: StreamChunk, id: Seq<char>) -> bool {
    chunk matches StreamChunk::ToolUseComplete { tool_call, .. } && tool_call.id@ == id
}

/// Tool calls that a model asked for are never dropped: unless the model says that it is
/// done or was cut off, they are run.
pub proof fn law_tool_calls_are_run(reason: Option<FinishReason>)
    requires
        reason != Some(FinishReason::Stop),
        reason != Some(FinishReason::Length),
        reason != Some(FinishReason::ContentFilter),
    ensures
        after_answer(reason, true) == AfterAnswer::Tools,
        after_answer(reason, false) == AfterAnswer::Complete,
{
}

/// The figures of a conversation never go down, but for the size of its context.
pub proof fn law_stats_never_go_down(stats: AgentStats, usage: Usage, context_tokens: usize)
    requires
        has_room(stats, usage),
    ensures
        ({
            let after = updated(stats, usage, context_tokens);
            &&& after.total_input_tokens >= stats.total_input_tokens
            &&& after.total_output_tokens >= stats.total_output_tokens
            &&& after.reasoning_tokens >= stats.reasoning_tokens
            &&& after.cache_read_tokens >= stats.cache_read_tokens
            &&& after.cache_write_tokens >= stats.cache_write_tokens
            &&& after.steps == stats.steps + 1
        }),
{
}

/// The last two messages of a conversation carry a cache hint, and a single message none.
pub proof fn law_the_last_two_messages_are_marked(messages: Seq<ChatMessage>, i: int)
    requires
        0 <= i < messages.len(),
    ensures
        messages.len() >= 2 && i + 2 >= messages.len() ==> with_breakpoints(messages)[i].cache
            == Some(CacheHint::Ephemeral { ttl_seconds: None }),
        messages.len() == 1 ==> with_breakpoints(messages)[0] == messages[0],
{
}

/// A stream is put together piece by piece: what it gives in two stretches is what it gives
/// in one.
proof fn lemma_streamed_prefix(chunks: Seq<StreamChunk>, n: int)
    requires
        0 <= n <= chunks.len(),
    ensures
        streamed(chunks.take(n)).tool_calls.len() <= streamed(chunks).tool_calls.len(),
        streamed(chunks.take(n)).tool_calls == streamed(chunks).tool_calls.take(
            streamed(chunks.take(n)).tool_calls.len() as int,
        ),
    decreases chunks.len(),
{
    if n == chunks.len() {
        assert(chunks.take(n) =~= chunks);
        assert(streamed(chunks).tool_calls.take(streamed(chunks).tool_calls.len() as int)
            =~= streamed(chunks).tool_calls);
    } else {
        let before = chunks.drop_last();
        assert(before.take(n) =~= chunks.take(n));
        lemma_streamed_prefix(before, n);
        let calls = streamed(before).tool_calls;
        let first = streamed(chunks.take(n)).tool_calls;
        assert(streamed(chunks).tool_calls.take(first.len() as int) =~= calls.take(
            first.len() as int,
        ));
    }
}

/// The text of a streamed answer is what the text pieces say, one after the other: each adds
/// its own at the end, and no other piece adds any.
pub proof fn law_streamed_text_is_the_pieces_in_order(chunks: Seq<StreamChunk>, chunk: StreamChunk)
    ensures
        streamed(Seq::<StreamChunk>::empty()).text == Seq::<char>::empty(),
        chunk matches StreamChunk::Text(delta) ==> streamed(chunks.push(chunk)).text == streamed(
            chunks,
        ).text + delta@,
        !(chunk is Text) ==> streamed(chunks.push(chunk)).text == streamed(chunks).text,
{
    assert(chunks.push(chunk).drop_last() =~= chunks);
}

/// A tool call is kept as the stream gave it, as a whole: where the stream names an id for
/// the first time, that very call is the next one of the answer.
pub proof fn law_streamed_calls_are_kept_as_given(chunks: Seq<StreamChunk>, i: int)
    requires
        0 <= i < chunks.len(),
        chunks[i] is ToolUseComplete,
        forall|j: int|
            0 <= j < i && (#[trigger] chunks[j]) is ToolUseComplete
                ==> chunks[j]->ToolUseComplete_tool_call.id@
                != chunks[i]->ToolUseComplete_tool_call.id@,
    ensures
        ({
            let at = streamed(chunks.take(i)).tool_calls.len() as int;
            &&& at < streamed(chunks).tool_calls.len()
            &&& streamed(chunks).tool_calls[at] == chunks[i]->ToolUseComplete_tool_call
        }),
{
    let before = chunks.take(i);
    let upto = chunks.take(i + 1);
    let id = chunks[i]->ToolUseComplete_tool_call.id@;
    assert(upto.drop_last() =~= before);
    assert(upto.last() == chunks[i]);
    law_streamed_calls_are_complete(before, id);
    if has_call(streamed(before).tool_calls, id) {
        let j = choose|j: int| 0 <= j < before.len() && names_call(#[trigger] before[j], id);
        assert(chunks[j] == before[j]);
        assert(false);
    }
    lemma_streamed_prefix(chunks, i + 1);
    let calls = streamed(upto).tool_calls;
    let at = streamed(before).tool_calls.len() as int;
    assert(calls[at] == chunks[i]->ToolUseComplete_tool_call);
    assert(calls[at] == streamed(chunks).tool_calls.take(calls.len() as int)[at]);
}

/// A streamed answer has no call but those of its stream: each is, as a whole, one that the
/// stream gave, and the first with its id.
pub proof fn law_streamed_calls_come_from_the_stream(chunks: Seq<StreamChunk>, k: int)
    requires
        0 <= k < streamed(chunks).tool_calls.len(),
    ensures
        exists|i: int|
            {
                &&& 0 <= i < chunks.len()
                &&& (#[trigger] chunks[i]) is ToolUseComplete
                &&& chunks[i]->ToolUseComplete_tool_call == streamed(chunks).tool_calls[k]
                &&& streamed(chunks.take(i)).tool_calls.len() == k
            },
    decreases chunks.len(),
{
    let before = chunks.drop_last();
    let calls = streamed(before).tool_calls;
    assert(streamed(chunks) == with_chunk(streamed(before), chunks.last()));
    if k < calls.len() {
        law_streamed_calls_come_from_the_stream(before, k);
        let i = choose|i: int|
            {
                &&& 0 <= i < before.len()
                &&& (#[trigger] before[i]) is ToolUseComplete
                &&& before[i]->ToolUseComplete_tool_call == calls[k]
                &&& streamed(before.take(i)).tool_calls.len() == k
            };
        assert(before.take(i) =~= chunks.take(i));
        assert(chunks[i] == before[i]);
    } else {
        let last = chunks.len() - 1;
        assert(chunks.take(last) =~= before);
        assert(chunks[last] is ToolUseComplete);
    }
}

/// The usage of a streamed answer is what the stream told last of it.
pub proof fn law_streamed_usage_is_the_last_one(chunks: Seq<StreamChunk>, chunk: StreamChunk)
    ensures
        streamed(Seq::<StreamChunk>::empty()).usage is None,
        chunk matches StreamChunk::Usage(usage) ==> streamed(chunks.push(chunk)).usage == Some(
            usage,
        ),
        !(chunk is Usage) ==> streamed(chunks.push(chunk)).usage == streamed(chunks).usage,
        !(chunk is ToolUseComplete) ==> streamed(chunks.push(chunk)).tool_calls == streamed(
            chunks,
        ).tool_calls,
{
    assert(chunks.push(chunk).drop_last() =~= chunks);
}

/// A model is streamed exactly where it has tools and its provider only streams.
pub proof fn law_codex_is_streamed(has_tools: bool, provider: Seq<char>)
    ensures
        chosen_path(has_tools, provider) == LlmPath::Streaming <==> has_tools && provider
            == "codex"@,
        chosen_path(has_tools, provider) == LlmPath::Plain <==> !has_tools,
        chosen_path(has_tools, provider) == LlmPath::WithTools <==> has_tools && provider
            != "codex"@,
{
}

/// A failed call is told in the words of the failure, behind words that tell how the model
/// was called.
pub proof fn law_failures_keep_their_words(path: LlmPath, reason: Seq<char>)
    ensures
        path == LlmPath::Plain ==> failure_text(path, reason) == "LLM request failed: "@ + reason,
        path == LlmPath::Streaming ==> failure_text(path, reason)
            == "LLM streaming request with tools failed: "@ + reason,
        path == LlmPath::WithTools ==> failure_text(path, reason)
            == "LLM request with tools failed: "@ + reason,
{
}

/// A turn that cannot collect its tools says why.
pub proof fn law_collect_failures_say_why(failure: CollectFailure)
    ensures
        failure matches CollectFailure::Provider(reason) ==> collect_failure_text(failure)
            == "Failed to build provider: "@ + reason@,
        failure is Serialization ==> collect_failure_text(failure)
            == "Failed to serialize tools for hash computation"@,
{
}

/// The model is called with the conversation as it is and with the tools that were collected;
/// they are announced exactly when their hash is another than the one announced last.
pub proof fn law_collected_tools_are_used(
    context: ConversationContext,
    collected: CollectedTools,
    before: Option<u64>,
    step: BeforeLlmCall,
)
    requires
        goes_on_with(context, collected, before, step),
    ensures
        step.next matches ExecutionState::CallLlm { context: with, tools } && with == context
            && tools@ == collected.tools@,
        before == Some(collected.hash) ==> step.announce_tools is None,
        before != Some(collected.hash) ==> (step.announce_tools matches Some(
            AgentEventKind::ToolsAvailable { tools, tools_hash },
        ) && tools@ == collected.tools@ && tools_hash == collected.hash),
{
}

/// An answer is stored whole: its text first, where it has any, and every tool call behind it
/// in order, with its id, name and arguments.
pub proof fn law_answers_are_stored_whole(parts: Seq<MessagePart>, response: LlmResponse, k: int)
    requires
        stored_answer(parts, response),
        0 <= k < response.tool_calls@.len(),
    ensures
        response.content@.len() > 0 ==> parts.len() == response.tool_calls@.len() + 1 && (
        parts[0] matches MessagePart::Text { content } && content@ == response.content@),
        response.content@.len() == 0 ==> parts.len() == response.tool_calls@.len(),
        ({
            let at = k + parts.len() - response.tool_calls@.len();
            let call = response.tool_calls@[k];
            &&& parts[at] matches MessagePart::ToolUse(stored)
            &&& stored.id@ == call.id@
            &&& stored.call_type@ == "function"@
            &&& stored.function.name@ == call.function.name@
            &&& stored.function.arguments@ == call.function.arguments@
        }),
{
    let lead: int = if response.content@.len() > 0 {
        1
    } else {
        0
    };
    let at = lead + k;
    assert(stored_call(parts[at], response.tool_calls@[at - lead]));
}

/// An answer without tool calls is stored as its text alone.
pub proof fn law_plain_answers_are_stored_as_text(parts: Seq<MessagePart>, response: LlmResponse)
    requires
        stored_answer(parts, response),
        response.tool_calls@.len() == 0,
    ensures
        response.content@.len() == 0 ==> parts.len() == 0,
        response.content@.len() > 0 ==> parts.len() == 1 && (parts[0] matches MessagePart::Text {
            content,
        } && content@ == response.content@),
{
}

/// Each figure of a conversation grows by what the answer used, and the context is as large
/// as the answer says.
pub proof fn law_usage_is_added_up(stats: AgentStats, usage: Usage, context_tokens: usize)
    requires
        stats.total_input_tokens + usage.input_tokens <= u64::MAX,
        stats.total_output_tokens + usage.output_tokens <= u64::MAX,
        stats.reasoning_tokens + usage.reasoning_tokens <= u64::MAX,
        stats.cache_read_tokens + usage.cache_read <= u64::MAX,
        stats.cache_write_tokens + usage.cache_write <= u64::MAX,
        stats.steps < usize::MAX,
    ensures
        has_room(stats, usage),
        ({
            let after = updated(stats, usage, context_tokens);
            &&& after.total_input_tokens - stats.total_input_tokens == usage.input_tokens
            &&& after.total_output_tokens - stats.total_output_tokens == usage.output_tokens
            &&& after.reasoning_tokens - stats.reasoning_tokens == usage.reasoning_tokens
            &&& after.cache_read_tokens - stats.cache_read_tokens == usage.cache_read
            &&& after.cache_write_tokens - stats.cache_write_tokens == usage.cache_write
            &&& after.context_tokens == context_tokens
            &&& after.steps == stats.steps + 1
            &&& after.turns == stats.turns
        }),
{
}

/// The finish reason decides how a turn goes on: a model that is done completes it, one that
/// was cut off or filtered stops it, and otherwise the calls that it asked for are run, every
/// one of them, on the conversation with the answer at its end.
pub proof fn law_finish_reasons_decide(
    response: LlmResponse,
    context: ConversationContext,
    answer: ChatMessage,
    context_tokens: usize,
    has_active_task: bool,
    step: AfterLlm,
)
    requires
        follows_answer(response, context, answer, context_tokens, has_active_task, step),
    ensures
        response.finish_reason == Some(FinishReason::Stop) ==> step.next is Complete,
        step.completes_task <==> response.finish_reason == Some(FinishReason::Stop)
            && has_active_task,
        response.finish_reason == Some(FinishReason::Length) ==> (step.next matches
            ExecutionState::Stopped { message, stop_type, context: after } && message@
            == "Model hit token limit"@ && stop_type == StopType::ModelTokenLimit && after is Some
            && after->Some_0.messages@ == context.messages@.push(answer)),
        response.finish_reason == Some(FinishReason::ContentFilter) ==> (step.next matches
            ExecutionState::Stopped { message, stop_type, context: after } && message@
            == "Response blocked by content filter"@ && stop_type == StopType::ContentFilter
            && after is Some && after->Some_0.messages@ == context.messages@.push(answer)),
        response.finish_reason != Some(FinishReason::Stop) && response.finish_reason != Some(
            FinishReason::Length,
        ) && response.finish_reason != Some(FinishReason::ContentFilter) ==> if
            response.tool_calls@.len() == 0 {
            step.next is Complete
        } else {
            step.next matches ExecutionState::ProcessingToolCalls {
                remaining_calls,
                results,
                context: after,
            } && remaining_calls@ == response.tool_calls@ && results@.len() == 0
                && after.messages@ == context.messages@.push(answer)
        },
{
}

/// The conversation goes on with one more message at its end, under the same session, provider
/// and model.
pub proof fn law_conversations_are_extended(
    before: ConversationContext,
    answer: ChatMessage,
    stats: AgentStats,
    after: ConversationContext,
)
    requires
        extended(before, answer, stats, after),
    ensures
        after.session_id@ == before.session_id@,
        after.provider@ == before.provider@,
        after.model@ == before.model@,
        after.stats == stats,
        after.messages@.len() == before.messages@.len() + 1,
        after.messages@.last() == answer,
        after.messages@.drop_last() == before.messages@,
{
    assert(after.messages@.drop_last() =~= before.messages@);
}

/// The figures with which a turn goes on from an answer are those of the conversation with the
/// answer's usage in them, and those of the conversation where the answer tells none.
pub proof fn law_turns_go_on_with_their_figures(
    response: LlmResponse,
    context: ConversationContext,
    answer: ChatMessage,
    context_tokens: usize,
    has_active_task: bool,
    step: AfterLlm,
    after: ConversationContext,
)
    requires
        follows_answer(response, context, answer, context_tokens, has_active_task, step),
        ({
            ||| step.next matches ExecutionState::ProcessingToolCalls { context: c, .. } && c == after
            ||| step.next matches ExecutionState::Stopped { context: c, .. } && c == Some(after)
        }),
    ensures
        after.session_id == context.session_id,
        after.provider == context.provider,
        after.model == context.model,
        response.usage is None ==> after.stats == context.stats,
        response.usage matches Some(usage) ==> after.stats == updated(
            context.stats,
            usage,
            context_tokens,
        ),
{
}

/// A turn fails with the first of its tool calls that failed, and only where one did.
pub proof fn law_the_first_failure_fails_the_turn(outcomes: Seq<Result<ToolResult, String>>, i: int)
    requires
        0 <= i < outcomes.len(),
        forall|j: int| 0 <= j < i ==> (#[trigger] outcomes[j]) is Ok,
    ensures
        outcomes[i] matches Err(reason) ==> first_failure(outcomes) == Some(reason),
        first_failure(outcomes) is None ==> outcomes[i] is Ok,
    decreases outcomes.len(),
{
    if i > 0 {
        let rest = outcomes.drop_first();
        assert forall|j: int| 0 <= j < i - 1 implies (#[trigger] rest[j]) is Ok by {
            assert(outcomes[j + 1] is Ok);
        }
        law_the_first_failure_fails_the_turn(rest, i - 1);
    }
}

/// Where every tool call has a result, none fails the turn.
pub proof fn law_results_do_not_fail_the_turn(outcomes: Seq<Result<ToolResult, String>>)
    requires
        forall|j: int| 0 <= j < outcomes.len() ==> (#[trigger] outcomes[j]) is Ok,
    ensures
        first_failure(outcomes) is None,
    decreases outcomes.len(),
{
    if outcomes.len() > 0 {
        let rest = outcomes.drop_first();
        assert forall|j: int| 0 <= j < rest.len() implies (#[trigger] rest[j]) is Ok by {
            assert(outcomes[j + 1] is Ok);
        }
        law_results_do_not_fail_the_turn(rest);
    }
}

/// A turn hears of every delegation that it waits for: what completed with its summary, and
/// what failed with its error. `i` is the place of the delegation in the list of those that
/// are waited for.
pub proof fn law_waits_hear_of_every_delegation(
    wait: WaitCondition,
    i: int,
    event: AgentEventKind,
    outcome: Option<DelegationOutcome>,
)
    requires
        0 <= i < wait.correlation_ids@.len(),
        wait_outcome(wait, event, outcome),
        ({
            ||| event matches AgentEventKind::DelegationCompleted { delegation_id, .. }
                && delegation_id@ == wait.correlation_ids@[i]@
            ||| event matches AgentEventKind::DelegationFailed { delegation_id, .. }
                && delegation_id@ == wait.correlation_ids@[i]@
        }),
    ensures
        event matches AgentEventKind::DelegationCompleted { summary: given, .. } ==> (
        outcome matches Some(DelegationOutcome::Completed { delegation_id, summary })
            && delegation_id@ == wait.correlation_ids@[i]@ && (given matches Some(text)
            ==> summary@ == text@) && (given is None ==> summary@ == "No summary provided."@)),
        event matches AgentEventKind::DelegationFailed { error: given, .. } ==> (outcome matches
            Some(DelegationOutcome::Failed { delegation_id, error }) && delegation_id@
            == wait.correlation_ids@[i]@ && error@ == given@),
{
    assert(wait.correlation_ids@[i]@ == wait.correlation_ids@[i]@);
}

/// A turn that names no delegation hears of all of them.
pub proof fn law_open_waits_hear_of_all(
    wait: WaitCondition,
    event: AgentEventKind,
    outcome: Option<DelegationOutcome>,
)
    requires
        wait.correlation_ids@.len() == 0,
        wait_outcome(wait, event, outcome),
    ensures
        event is DelegationCompleted ==> (outcome matches Some(DelegationOutcome::Completed {
            delegation_id,
            ..
        }) && delegation_id@ == event->DelegationCompleted_delegation_id@),
        event is DelegationFailed ==> (outcome matches Some(DelegationOutcome::Failed {
            delegation_id,
            error,
        }) && delegation_id@ == event->DelegationFailed_delegation_id@ && error@
            == event->DelegationFailed_error@),
{
}

/// A turn takes no notice of a delegation that it does not wait for, nor of any other event.
pub proof fn law_other_events_are_not_news(
    wait: WaitCondition,
    event: AgentEventKind,
    outcome: Option<DelegationOutcome>,
)
    requires
        wait_outcome(wait, event, outcome),
        ({
            ||| !(event is DelegationCompleted) && !(event is DelegationFailed)
            ||| wait.correlation_ids@.len() > 0 && forall|i: int|
                0 <= i < wait.correlation_ids@.len() ==> {
                    &&& event is DelegationCompleted ==> (
                    #[trigger] wait.correlation_ids@[i])@
                        != event->DelegationCompleted_delegation_id@
                    &&& event is DelegationFailed ==> wait.correlation_ids@[i]@
                        != event->DelegationFailed_delegation_id@
                }
        }),
    ensures
        outcome is None,
{
}

/// A failure speaks of a rate limit exactly where its words hold the number of that answer,
/// or, in small letters, one of the two phrases for it.
pub proof fn law_rate_limits_are_told_by_their_words(message: Seq<char>)
    ensures
        speaks_of_rate_limit(message) <==> {
            ||| text::contains_text(message, seq!['4', '2', '9'])
            ||| text::contains_text(text::unicode_lowercase(message), "rate limit"@)
            ||| text::contains_text(text::unicode_lowercase(message), "too many requests"@)
        },
{
    reveal_strlit("429");
    assert("429"@ =~= seq!['4', '2', '9']);
}

/// A call may be made once in any case, and again as long as attempts are left.
pub proof fn law_attempts_are_bounded(attempts: RetryLoop)
    ensures
        attempts.attempt == 0 ==> attempts.can_begin(),
        attempts.attempt > 0 ==> (attempts.can_begin() <==> attempts.attempt
            < attempts.max_retries),
        attempts.wf() ==> attempts.attempt <= 1 || attempts.attempt <= attempts.max_retries,
{
}

/// A streamed answer is read as its fields say.
pub proof fn law_streamed_answers_are_read_as_they_are(answer: StreamedAnswer)
    ensures
        answer@.text == answer.text@,
        answer@.tool_calls == answer.tool_calls@,
        answer@.usage == answer.usage,
{
}

} // verus!
