//! Chat data: tool calls, usage figures, finish reasons and stream chunks.
use vstd::prelude::*;

verus! {

/// How deeply a model is to think.
#[derive(Debug, Clone, Copy, PartialEq, Eq, Structural)]
pub enum ReasoningEffort {
    Low,
    Medium,
    High,
    Max,
}

/// Why a model stopped.
#[derive(Debug, Clone, Copy, PartialEq, Eq, Structural)]
pub enum FinishReason {
    Stop,
    Length,
    ContentFilter,
    ToolCalls,
    Error,
    Other,
    Unknown,
}

/// The function that a tool call names, with its arguments as JSON text.
#[derive(Debug, PartialEq, Eq)]
pub struct FunctionCall {
    pub name: String,
    pub arguments: String,
}

impl Clone for FunctionCall {
    fn clone(&self) -> (copy: Self)
        ensures
            copy == *self,
    {
        FunctionCall { name: self.name.clone(), arguments: self.arguments.clone() }
    }
}

/// A tool call that a model asks for.
#[derive(Debug, PartialEq, Eq)]
pub struct ToolCall {
    pub id: String,
    pub call_type: String,
    pub function: FunctionCall,
}

impl Clone for ToolCall {
    fn clone(&self) -> (copy: Self)
        ensures
            copy == *self,
    {
        ToolCall {
            id: self.id.clone(),
            call_type: self.call_type.clone(),
            function: self.function.clone(),
        }
    }
}

/// Token counts of one model request.
#[derive(Debug, Clone, Copy, PartialEq, Eq, Structural)]
pub struct Usage {
    pub input_tokens: u32,
    pub output_tokens: u32,
    pub reasoning_tokens: u32,
    pub cache_read: u32,
    pub cache_write: u32,
}

/// One piece of a streamed model response.
#[derive(Debug, PartialEq, Eq)]
pub enum StreamChunk {
    Text(String),
    Thinking(String),
    ToolUseComplete { index: usize, tool_call: ToolCall },
    Usage(Usage),
    Done { finish_reason: FinishReason },
    /// A chunk that carries no content of its own, such as the start of a tool call.
    Other,
}

/// `chunks` holds a chunk that ends the stream.
pub open spec fn has_done(chunks: Seq<StreamChunk>) -> bool {
    exists|i: int| 0 <= i < chunks.len() && (#[trigger] chunks[i]) is Done
}

/// Whether `chunks` holds a chunk that ends the stream.
pub fn any_done(chunks: &Vec<StreamChunk>) -> (yes: bool)
    ensures
        yes == has_done(chunks@),
{
    let mut i: usize = 0;
    while i < chunks.len()
        invariant
            i <= chunks@.len(),
            forall|j: int| 0 <= j < i ==> !((#[trigger] chunks@[j]) is Done),
        decreases chunks@.len() - i,
    {
        match &chunks[i] {
            StreamChunk::Done { .. } => {
                assert(chunks@[i as int] is Done);
                return true;
            },
            _ => {},
        }
        i = i + 1;
    }
    false
}

/// A batch holds the end of a stream exactly where one of its pieces is the last one.
pub proof fn law_batches_end_with_any_last_piece(chunks: Seq<StreamChunk>, chunk: StreamChunk)
    ensures
        !has_done(Seq::empty()),
        has_done(chunks.push(chunk)) <==> has_done(chunks) || chunk is Done,
{
    let longer = chunks.push(chunk);
    if has_done(chunks) {
        let i = choose|i: int| 0 <= i < chunks.len() && (#[trigger] chunks[i]) is Done;
        assert(longer[i] is Done);
    }
    if chunk is Done {
        assert(longer[chunks.len() as int] is Done);
    }
    if has_done(longer) && !(chunk is Done) {
        let i = choose|i: int| 0 <= i < longer.len() && (#[trigger] longer[i]) is Done;
        assert(chunks[i] is Done);
    }
}

} // verus!
