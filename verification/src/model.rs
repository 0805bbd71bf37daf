//! The data that sessions are made of: modes, prompt content and stored messages.
use vstd::prelude::*;

use crate::chat::ToolCall;

verus! {

/// What an agent may do in a session.
#[derive(Debug, Clone, Copy, PartialEq, Eq, Structural)]
pub enum AgentMode {
    Build,
    Plan,
    Review,
}

/// The id of a mode.
pub open spec fn mode_id(mode: AgentMode) -> Seq<char> {
    match mode {
        AgentMode::Build => "build"@,
        AgentMode::Plan => "plan"@,
        AgentMode::Review => "review"@,
    }
}

impl AgentMode {
    /// The id of the mode.
    pub fn as_str(&self) -> (id: &'static str)
        ensures
            id@ == mode_id(*self),
    {
        match self {
            AgentMode::Build => "build",
            AgentMode::Plan => "plan",
            AgentMode::Review => "review",
        }
    }

    /// Whether the mode forbids writing.
    pub fn is_read_only(&self) -> (yes: bool)
        ensures
            yes == (*self != AgentMode::Build),
    {
        match self {
            AgentMode::Build => false,
            AgentMode::Plan => true,
            AgentMode::Review => true,
        }
    }
}

/// Different modes have different ids.
pub proof fn law_mode_ids_differ(a: AgentMode, b: AgentMode)
    requires
        mode_id(a) == mode_id(b),
    ensures
        a == b,
{
    reveal_strlit("build");
    reveal_strlit("plan");
    reveal_strlit("review");
    assert("build"@.len() == 5 && "plan"@.len() == 4 && "review"@.len() == 6);
}

/// A resource that a prompt refers to without holding it.
#[derive(Debug, PartialEq, Eq)]
pub struct ResourceLink {
    pub name: String,
    pub uri: String,
    pub description: Option<String>,
}

/// A resource that a prompt holds.
#[derive(Debug, PartialEq, Eq)]
pub enum EmbeddedResource {
    Text { uri: String, text: String },
    Blob { uri: String, blob: String },
    Unsupported,
}

/// Encoded media in a prompt.
#[derive(Debug, PartialEq, Eq)]
pub struct Media {
    pub data: String,
    pub mime_type: String,
}

/// One block of a prompt.
#[derive(Debug, PartialEq, Eq)]
pub enum ContentBlock {
    Text(String),
    Image(Media),
    Audio(Media),
    ResourceLink(ResourceLink),
    Resource(EmbeddedResource),
    Unsupported,
}

/// Who a message is from.
#[derive(Debug, Clone, Copy, PartialEq, Eq, Structural)]
pub enum ChatRole {
    User,
    Assistant,
}

/// A hint that a provider may keep the conversation up to a message in its cache.
#[derive(Debug, Clone, Copy, PartialEq, Eq, Structural)]
pub enum CacheHint {
    Ephemeral { ttl_seconds: Option<u64> },
}

/// A message of a conversation as it is sent to a model.
#[derive(Debug, PartialEq, Eq)]
pub struct ChatMessage {
    pub role: ChatRole,
    pub content: String,
    pub cache: Option<CacheHint>,
}

/// A part of a stored message.
#[derive(Debug, PartialEq, Eq)]
pub enum MessagePart {
    Text { content: String },
    Prompt { blocks: Vec<ContentBlock> },
    ToolUse(ToolCall),
    ToolResult {
        call_id: String,
        content: String,
        is_error: bool,
        tool_name: Option<String>,
        tool_arguments: Option<String>,
        compacted_at: Option<i64>,
    },
    /// A snapshot around a tool call: the paths that the tool changed, or a summary where only
    /// the figures of the directory were taken.
    Snapshot {
        root_hash: u64,
        changed_paths: Option<Vec<String>>,
        diff_summary: Option<String>,
    },
    /// The state of the work tree before a turn.
    TurnSnapshotStart { turn_id: String, snapshot_id: String },
    /// The state of the work tree after a turn, and the paths that the turn changed.
    TurnSnapshotPatch { turn_id: String, snapshot_id: String, changed_paths: Vec<String> },
}

/// A message of a session's history.
#[derive(Debug, PartialEq, Eq)]
pub struct AgentMessage {
    pub id: String,
    pub session_id: String,
    pub role: ChatRole,
    pub parts: Vec<MessagePart>,
    pub created_at: i64,
    pub parent_message_id: Option<String>,
}

/// Every mode has its own name.
pub proof fn law_modes_have_their_names()
    ensures
        mode_id(AgentMode::Build) == "build"@,
        mode_id(AgentMode::Plan) == "plan"@,
        mode_id(AgentMode::Review) == "review"@,
{
}

} // verus!
