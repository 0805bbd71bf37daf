//! What a provider host sends over the mesh: chat responses and relay messages.
use vstd::prelude::*;

use crate::chat::{any_done, FinishReason, StreamChunk, ToolCall, Usage};
use crate::chat;
use crate::string_map::StringMap;
use crate::text::str_eq;

verus! {

/// A chat response as it travels between nodes.
#[derive(Debug)]
pub struct ProviderChatResponse {
    pub text: Option<String>,
    pub thinking: Option<String>,
    pub tool_calls: Vec<ToolCall>,
    pub usage: Option<Usage>,
    /// The finish reason by name.
    pub finish_reason: Option<String>,
}

/// The finish reason that a name stands for; an unrecognised name is `Unknown`.
pub open spec fn finish_reason_of(name: Seq<char>) -> FinishReason {
    if name == "Stop"@ {
        FinishReason::Stop
    } else if name == "Length"@ {
        FinishReason::Length
    } else if name == "ContentFilter"@ {
        FinishReason::ContentFilter
    } else if name == "ToolCalls"@ {
        FinishReason::ToolCalls
    } else if name == "Error"@ {
        FinishReason::Error
    } else if name == "Other"@ {
        FinishReason::Other
    } else {
        FinishReason::Unknown
    }
}

/// The name under which a finish reason travels.
pub open spec fn finish_reason_text(reason: FinishReason) -> Seq<char> {
    match reason {
        FinishReason::Stop => "Stop"@,
        FinishReason::Length => "Length"@,
        FinishReason::ContentFilter => "ContentFilter"@,
        FinishReason::ToolCalls => "ToolCalls"@,
        FinishReason::Error => "Error"@,
        FinishReason::Other => "Other"@,
        FinishReason::Unknown => "Unknown"@,
    }
}

/// The name under which a finish reason travels.
pub fn finish_reason_name(reason: FinishReason) -> (name: &'static str)
    ensures
        name@ == finish_reason_text(reason),
{
    match reason {
        FinishReason::Stop => "Stop",
        FinishReason::Length => "Length",
        FinishReason::ContentFilter => "ContentFilter",
        FinishReason::ToolCalls => "ToolCalls",
        FinishReason::Error => "Error",
        FinishReason::Other => "Other",
        FinishReason::Unknown => "Unknown",
    }
}

/// Naming a finish reason and reading the name back gives the same reason.
pub proof fn law_finish_reason_round_trip(reason: FinishReason)
    ensures
        finish_reason_of(finish_reason_text(reason)) == reason,
{
    reveal_strlit("Stop");
    reveal_strlit("Length");
    reveal_strlit("ContentFilter");
    reveal_strlit("ToolCalls");
    reveal_strlit("Error");
    reveal_strlit("Other");
    reveal_strlit("Unknown");
    assert("Stop"@.len() == 4 && "Length"@.len() == 6 && "ContentFilter"@.len() == 13);
    assert("ToolCalls"@.len() == 9 && "Error"@.len() == 5 && "Other"@.len() == 5);
    assert("Unknown"@.len() == 7);
    assert("Error"@[0] != "Other"@[0]);
}

impl ProviderChatResponse {
    /// The text of the response.
    pub fn text(&self) -> (out: Option<String>)
        ensures
            out == self.text,
    {
        self.text.clone()
    }

    /// The reasoning of the response.
    pub fn thinking(&self) -> (out: Option<String>)
        ensures
            out == self.thinking,
    {
        self.thinking.clone()
    }

    /// The tool calls, or nothing when there are none.
    pub fn tool_calls(&self) -> (out: Option<Vec<ToolCall>>)
        ensures
            match out {
                Some(calls) => calls@.len() > 0 && calls@ == self.tool_calls@,
                None => self.tool_calls@.len() == 0,
            },
    {
        if self.tool_calls.is_empty() {
            None
        } else {
            Some(self.tool_calls.clone())
        }
    }

    /// The token counts of the request.
    pub fn usage(&self) -> (out: Option<Usage>)
        ensures
            out == self.usage,
    {
        match self.usage {
            Some(usage) => Some(usage),
            None => None,
        }
    }

    /// The finish reason that the name in the response stands for.
    pub fn finish_reason(&self) -> (out: Option<FinishReason>)
        ensures
            out == match self.finish_reason {
                Some(name) => Some(finish_reason_of(name@)),
                None => None,
            },
    {
        match &self.finish_reason {
            None => None,
            Some(name) => {
                let name = name.as_str();
                Some(
                    if str_eq(name, "Stop") {
                        FinishReason::Stop
                    } else if str_eq(name, "Length") {
                        FinishReason::Length
                    } else if str_eq(name, "ContentFilter") {
                        FinishReason::ContentFilter
                    } else if str_eq(name, "ToolCalls") {
                        FinishReason::ToolCalls
                    } else if str_eq(name, "Error") {
                        FinishReason::Error
                    } else if str_eq(name, "Other") {
                        FinishReason::Other
                    } else {
                        FinishReason::Unknown
                    },
                )
            },
        }
    }

    /// The response as one line: its text, or a placeholder when it has none.
    pub fn display(&self) -> (out: String)
        ensures
            out@ == match self.text {
                Some(text) => text@,
                None => "[no text]"@,
            },
    {
        match &self.text {
            Some(text) => text.clone(),
            None => "[no text]".to_string(),
        }
    }
}

/// Where a provider stream stands.
#[derive(Debug, Clone, Copy, PartialEq, Eq, Structural)]
pub enum ProviderStreamPhase {
    OpeningUpstream,
    WaitingFirstChunk,
    Streaming,
    ReceiverDisconnected,
    GraceExpired,
    LeaseExpired,
    Cancelling,
    Completed,
    Failed,
}

/// A message that a provider host relays to the requester of a stream.
#[derive(Debug, PartialEq, Eq)]
pub enum StreamRelayMessage {
    Chunk(StreamChunk),
    ChunkBatch(Vec<StreamChunk>),
    Heartbeat { phase: ProviderStreamPhase, elapsed_ms: u64, idle_ms: u64, chunk_count: u64 },
    ProviderError { error: String },
    TransportDisconnected { reason: String },
    TransportReconnected { buffered_chunks: usize },
    TransportFailed { error: String },
}

/// The stream ends with this message: a final chunk, a batch that holds one, or an error.
pub open spec fn is_terminal_message(message: StreamRelayMessage) -> bool {
    match message {
        StreamRelayMessage::Chunk(chunk) => chunk is Done,
        StreamRelayMessage::ChunkBatch(chunks) => chat::has_done(chunks@),
        StreamRelayMessage::ProviderError { .. } => true,
        StreamRelayMessage::TransportFailed { .. } => true,
        _ => false,
    }
}

/// Whether the stream ends with this message.
pub fn relay_message_is_terminal(message: &StreamRelayMessage) -> (yes: bool)
    ensures
        yes == is_terminal_message(*message),
{
    match message {
        StreamRelayMessage::Chunk(StreamChunk::Done { .. }) => true,
        StreamRelayMessage::ChunkBatch(chunks) => any_done(chunks),
        StreamRelayMessage::ProviderError { .. } => true,
        StreamRelayMessage::TransportFailed { .. } => true,
        _ => false,
    }
}

/// A message that is kept for replay: content and errors, but no health or transport signals.
pub open spec fn is_replayable(message: StreamRelayMessage) -> bool {
    !(message is Heartbeat || message is TransportDisconnected || message is TransportReconnected)
}

/// Whether a message is kept for replay after a reconnect.
pub fn keep_stream_message_buffered(message: &StreamRelayMessage) -> (yes: bool)
    ensures
        yes == is_replayable(*message),
{
    match message {
        StreamRelayMessage::Heartbeat { .. } => false,
        StreamRelayMessage::TransportDisconnected { .. } => false,
        StreamRelayMessage::TransportReconnected { .. } => false,
        _ => true,
    }
}

/// Whether a relay message asks for an acknowledgement. Content is acknowledged once
/// `batch_window` messages or `time_window_ms` have gone by since the last one; every
/// other message, and every message that ends the stream, is acknowledged at once.
pub fn should_ack_relay_message(
    message: &StreamRelayMessage,
    unacked: usize,
    since_last_ack_ms: u64,
    batch_window: usize,
    time_window_ms: u64,
) -> (yes: bool)
    ensures
        yes == (is_terminal_message(*message) || !(message is Chunk || message is ChunkBatch)
            || unacked >= batch_window || since_last_ack_ms >= time_window_ms),
{
    if relay_message_is_terminal(message) {
        return true;
    }
    match message {
        StreamRelayMessage::Chunk(_) => unacked >= batch_window || since_last_ack_ms
            >= time_window_ms,
        StreamRelayMessage::ChunkBatch(_) => unacked >= batch_window || since_last_ack_ms
            >= time_window_ms,
        _ => true,
    }
}

/// A parameter that a request cannot pass on: the key of the caller, and what only the
/// transport is concerned with.
pub open spec fn is_stripped(name: Seq<char>) -> bool {
    name == "api_key"@ || name == "_remote_session_id"@
}

/// The parameters of a host with those of a request put over them. Values are JSON texts.
pub open spec fn merged(
    request: Map<Seq<char>, String>,
    host: Map<Seq<char>, String>,
) -> Map<Seq<char>, String> {
    Map::new(
        |name: Seq<char>|
            host.dom().contains(name) || request.dom().contains(name) && !is_stripped(name),
        |name: Seq<char>|
            if request.dom().contains(name) && !is_stripped(name) {
                request[name]
            } else {
                host[name]
            },
    )
}

/// The entries of a map, where there is one.
pub open spec fn entries(params: Option<&StringMap<String>>) -> Map<Seq<char>, String> {
    match params {
        Some(params) => params@,
        None => Map::empty(),
    }
}

/// The parameters that a provider is built with: those of the host, with those of the
/// request put over them. Values are JSON texts.
pub fn merge_params(request: Option<&StringMap<String>>, host: Option<&StringMap<String>>) -> (params:
    Option<StringMap<String>>)
    requires
        request matches Some(request) ==> request.wf(),
        host matches Some(host) ==> host.wf(),
    ensures
        match params {
            Some(params) => (request is Some || host is Some) && params.wf() && params@ == merged(
                entries(request),
                entries(host),
            ),
            None => request is None && host is None,
        },
{
    let mut params = match host {
        Some(host) => {
            let copy = host.clone();
            assert(copy@ =~= host@);
            copy
        },
        None => StringMap::new(),
    };
    let request = match request {
        Some(request) => request,
        None => {
            assert(entries(host) =~= merged(Map::empty(), entries(host)));
            return match host {
                Some(_) => Some(params),
                None => None,
            };
        },
    };
    let ghost base = params@;
    let ghost order = request.key_order();
    let total: usize = request.len();
    let mut i: usize = 0;
    proof {
        request.lemma_key_order();
    }
    while i < total
        invariant
            request.wf(),
            params.wf(),
            order == request.key_order(),
            order.no_duplicates(),
            total == order.len(),
            i <= total,
            forall|name: Seq<char>| #[trigger]
                params@.dom().contains(name) <==> base.dom().contains(name) || order.subrange(
                    0,
                    i as int,
                ).contains(name) && !is_stripped(name),
            forall|name: Seq<char>| #[trigger]
                params@.dom().contains(name) ==> params@[name] == if order.subrange(
                    0,
                    i as int,
                ).contains(name) && !is_stripped(name) {
                    request@[name]
                } else {
                    base[name]
                },
        decreases total - i,
    {
        let ghost shorter = order.subrange(0, i as int);
        let ghost longer = order.subrange(0, i + 1);
        let ghost this = order[i as int];
        proof {
            assert(longer =~= shorter.push(this));
            assert forall|name: Seq<char>| #[trigger] longer.contains(name) <==> shorter.contains(
                name,
            ) || name == this by {
                if shorter.contains(name) {
                    let k = choose|k: int| 0 <= k < shorter.len() && shorter[k] == name;
                    assert(longer[k] == name);
                }
                if name == this {
                    assert(longer[i as int] == name);
                }
            }
        }
        let name = request.key_at(i);
        if !str_eq(name.as_str(), "api_key") && !str_eq(name.as_str(), "_remote_session_id") {
            params.insert(name.clone(), request.value_at(i).clone());
        }
        i = i + 1;
    }
    proof {
        assert(order.subrange(0, order.len() as int) =~= order);
        assert(params@ =~= merged(request@, base));
    }
    Some(params)
}

/// The parameters that go with a request to another node: all but the key, and but those
/// that the request names in fields of its own.
pub open spec fn forwarded(params: Map<Seq<char>, String>) -> Map<Seq<char>, String> {
    params.remove("provider"@).remove("model"@).remove("name"@).remove("api_key"@)
}

/// The parameters of a model that go with a request to another node, if there are any.
/// Values are JSON texts.
pub fn params_for_remote_provider(params: &StringMap<String>) -> (sent: Option<StringMap<String>>)
    requires
        params.wf(),
    ensures
        match sent {
            Some(sent) => sent.wf() && sent@ == forwarded(params@) && sent@ != Map::<
                Seq<char>,
                String,
            >::empty(),
            None => forwarded(params@) == Map::<Seq<char>, String>::empty(),
        },
{
    let mut sent = params.clone();
    assert(sent@ =~= params@);
    sent.remove("provider");
    sent.remove("model");
    sent.remove("name");
    sent.remove("api_key");
    if sent.is_empty() {
        None
    } else {
        Some(sent)
    }
}

/// The key of a caller never leaves its node.
pub proof fn law_keys_are_never_sent(params: Map<Seq<char>, String>)
    ensures
        !forwarded(params).dom().contains("api_key"@),
{
}

/// A provider never sees the key of a caller on another node: it has the host's or none.
pub proof fn law_request_keys_are_never_used(
    request: Map<Seq<char>, String>,
    host: Map<Seq<char>, String>,
)
    ensures
        merged(request, host).dom().contains("api_key"@) <==> host.dom().contains("api_key"@),
        host.dom().contains("api_key"@) ==> merged(request, host)["api_key"@] == host["api_key"@],
{
}

/// What a request says otherwise goes before what the host says, and nothing of the host is
/// lost.
pub proof fn law_request_overrides_host(
    request: Map<Seq<char>, String>,
    host: Map<Seq<char>, String>,
    name: Seq<char>,
)
    ensures
        host.dom().contains(name) ==> merged(request, host).dom().contains(name),
        request.dom().contains(name) && !is_stripped(name) ==> merged(request, host).dom().contains(
            name,
        ) && merged(request, host)[name] == request[name],
{
}

/// A message that ends the stream is always kept for replay.
pub proof fn law_terminal_messages_are_replayable(message: StreamRelayMessage)
    requires
        is_terminal_message(message),
    ensures
        is_replayable(message),
{
}

/// A stream is over with a final piece, alone or in a batch, and with an error of the
/// provider or of the transport; nothing else ends it.
pub proof fn law_which_messages_end_a_stream(message: StreamRelayMessage)
    ensures
        message matches StreamRelayMessage::Chunk(chunk) ==> (is_terminal_message(message)
            <==> chunk is Done),
        message matches StreamRelayMessage::ChunkBatch(chunks) ==> (is_terminal_message(message)
            <==> exists|i: int| 0 <= i < chunks@.len() && (#[trigger] chunks@[i]) is Done),
        message is ProviderError || message is TransportFailed ==> is_terminal_message(message),
        message is Heartbeat || message is TransportDisconnected || message is TransportReconnected
            ==> !is_terminal_message(message),
{
}

/// Everything is replayed to a consumer that comes late but what tells of the connection at
/// the time.
pub proof fn law_which_messages_are_replayed(message: StreamRelayMessage)
    ensures
        is_replayable(message) <==> message is Chunk || message is ChunkBatch
            || message is ProviderError || message is TransportFailed,
{
}

/// A finish reason has the name of its variant, and a name that is none is unknown.
pub proof fn law_finish_reasons_have_their_names(name: Seq<char>)
    ensures
        finish_reason_text(FinishReason::Stop) == "Stop"@,
        finish_reason_text(FinishReason::Length) == "Length"@,
        finish_reason_text(FinishReason::ContentFilter) == "ContentFilter"@,
        finish_reason_text(FinishReason::ToolCalls) == "ToolCalls"@,
        finish_reason_text(FinishReason::Error) == "Error"@,
        finish_reason_text(FinishReason::Other) == "Other"@,
        finish_reason_text(FinishReason::Unknown) == "Unknown"@,
        name != "Stop"@ && name != "Length"@ && name != "ContentFilter"@ && name != "ToolCalls"@
            && name != "Error"@ && name != "Other"@ ==> finish_reason_of(name)
            == FinishReason::Unknown,
{
}

/// The parameters of a provider: what the request asks for before what the host has, but
/// never the request's key nor its mark of the session.
pub proof fn law_parameters_are_merged_by_name(
    request: Map<Seq<char>, String>,
    host: Map<Seq<char>, String>,
    name: Seq<char>,
)
    ensures
        ({
            let asked = request.dom().contains(name) && name != "api_key"@ && name
                != "_remote_session_id"@;
            let both = merged(request, host);
            &&& both.dom().contains(name) <==> asked || host.dom().contains(name)
            &&& asked ==> both[name] == request[name]
            &&& !asked && host.dom().contains(name) ==> both[name] == host[name]
        }),
{
}

/// A remote provider is sent every parameter but its own name, the model, the name and the
/// key.
pub proof fn law_remote_providers_are_sent_the_rest(
    params: Map<Seq<char>, String>,
    name: Seq<char>,
)
    ensures
        forwarded(params).dom().contains(name) <==> params.dom().contains(name) && name
            != "provider"@ && name != "model"@ && name != "name"@ && name != "api_key"@,
        forwarded(params).dom().contains(name) ==> forwarded(params)[name] == params[name],
{
}

/// Parameters that are not given are none.
pub proof fn law_missing_parameters_are_none(params: Option<&StringMap<String>>)
    ensures
        params matches Some(given) ==> entries(params) == given@,
        params is None ==> entries(params).dom() == Set::<Seq<char>>::empty(),
{
}

} // verus!
