//! The events that sessions emit.
use vstd::prelude::*;

use crate::chat::{FinishReason, Usage};
use crate::model::AgentMode;
use crate::session_mcp::McpServer;
use crate::snapshots::SnapshotPolicy;

verus! {

/// What happened in a session. Numbers tell the entries, artifacts and tasks apart that were
/// stored.
#[derive(Debug, PartialEq, Eq)]
pub enum AgentEventKind {
    SessionCreated,
    Cancelled,
    SessionModeChanged { mode: AgentMode },
    ProviderChanged {
        provider: String,
        model: String,
        config_id: i64,
        context_limit: Option<u64>,
        provider_node_id: Option<String>,
    },
    SessionQueued { reason: String },
    PromptReceived { content: String, message_id: Option<String> },
    UserMessageStored { content: String },
    AssistantMessageStored { content: String, message_id: Option<String> },
    Error { message: String },
    LlmRequestStart { message_count: usize },
    LlmRequestEnd {
        usage: Option<Usage>,
        tool_calls: usize,
        finish_reason: Option<FinishReason>,
        context_tokens: u64,
        steps: usize,
        turns: usize,
    },
    RateLimited {
        message: String,
        wait_secs: u64,
        started_at: i64,
        attempt: usize,
        max_attempts: usize,
    },
    RateLimitResume { attempt: usize },
    /// `tools` are those that the model may call, each as JSON text.
    ToolsAvailable { tools: Vec<String>, tools_hash: u64 },
    ToolCallStart { tool_call_id: String, tool_name: String, arguments: String },
    ToolCallEnd { tool_call_id: String, tool_name: String, is_error: bool, result: String },
    SnapshotStart { policy: SnapshotPolicy },
    SnapshotEnd { summary: Option<String> },
    ProgressRecorded { entry: u64 },
    ArtifactRecorded { artifact: u64 },
    TaskStatusChanged { task: u64 },
    DelegationRequested { delegation_id: String },
    DelegationCompleted { delegation_id: String, summary: Option<String> },
    DelegationFailed { delegation_id: String, error: String },
    HookNotice { event_name: String, message: String, is_error: bool },
    /// `limits` are those of the session, as JSON text, if it has any.
    SessionConfigured {
        cwd: Option<String>,
        mcp_servers: Vec<McpServer>,
        limits: Option<String>,
    },
    /// Any other event.
    Other,
}

} // verus!
