//! A stable per-session router from provider streams to local consumers.
//!
//! Messages of a request go to the consumer that is attached to it. While none is
//! attached, or the attached one does not keep up, they are kept in a bounded replay
//! buffer and handed to the next consumer that attaches.
use vstd::prelude::*;

use crate::delivery;
use crate::delivery::{Delivery, Offer, SendOutcome};
use crate::error::AgentError;
use crate::provider_host;
use crate::provider_host::{relay_message_is_terminal, StreamRelayMessage};
use crate::string_map::StringMap;
use std::collections::VecDeque;
use tokio::sync::mpsc;

verus! {

/// Messages kept per request while no consumer is attached, by default.
pub const DEFAULT_REPLAY_BUFFER_SIZE: usize = 1000;

/// Seconds that a finished request is kept, by default.
pub const DEFAULT_REQUEST_TTL_SECS: u64 = 300;

const NANOS_PER_SEC: u128 = 1_000_000_000;

const NANOS_PER_MILLI: u64 = 1_000_000;

/// A relay message together with the request it belongs to.
#[derive(Debug)]
pub struct RoutedStreamRelayMessage {
    pub request_id: String,
    pub message: StreamRelayMessage,
}

/// Attaches a consumer to a request.
#[derive(Debug)]
pub struct AttachStreamConsumer {
    pub request_id: String,
    pub consumer_tx: mpsc::Sender<StreamRelayMessage>,
}

/// Detaches the consumer of a request. Messages are buffered from then on.
#[derive(Debug, Clone)]
pub struct DetachStreamConsumer {
    pub request_id: String,
}

/// Asks for the status of one request, or of all of them.
#[derive(Debug, Clone)]
pub struct GetRouterStatus {
    pub request_id: Option<String>,
}

/// Where a routed request stands.
#[derive(Debug, Clone, Copy, PartialEq, Eq, Structural)]
pub enum RequestPhase {
    /// No content has arrived yet.
    AwaitingStream,
    /// Content is arriving.
    Streaming,
    /// The consumer is gone or does not keep up; messages are buffered.
    ConsumerDisconnected,
    /// The stream ended normally.
    Completed,
    /// The stream ended with an error.
    Failed,
    /// The request was cancelled.
    Cancelled,
}

/// The name of a phase.
pub open spec fn phase_name(phase: RequestPhase) -> Seq<char> {
    match phase {
        RequestPhase::AwaitingStream => "awaiting_stream"@,
        RequestPhase::Streaming => "streaming"@,
        RequestPhase::ConsumerDisconnected => "consumer_disconnected"@,
        RequestPhase::Completed => "completed"@,
        RequestPhase::Failed => "failed"@,
        RequestPhase::Cancelled => "cancelled"@,
    }
}

impl RequestPhase {
    /// The name of the phase.
    pub fn as_str(&self) -> (name: &'static str)
        ensures
            name@ == phase_name(*self),
    {
        match self {
            RequestPhase::AwaitingStream => "awaiting_stream",
            RequestPhase::Streaming => "streaming",
            RequestPhase::ConsumerDisconnected => "consumer_disconnected",
            RequestPhase::Completed => "completed",
            RequestPhase::Failed => "failed",
            RequestPhase::Cancelled => "cancelled",
        }
    }
}

/// The request has ended.
pub open spec fn is_terminal_phase(phase: RequestPhase) -> bool {
    phase == RequestPhase::Completed || phase == RequestPhase::Failed || phase
        == RequestPhase::Cancelled
}

/// The phase that a message ends its request with, if it ends it.
pub open spec fn ending_phase(message: StreamRelayMessage) -> Option<RequestPhase> {
    if !provider_host::is_terminal_message(message) {
        None
    } else if message is Chunk || message is ChunkBatch {
        Some(RequestPhase::Completed)
    } else {
        Some(RequestPhase::Failed)
    }
}

/// The phase that a message ends its request with: completed for a final chunk or a
/// batch that holds one, failed for an error, nothing for any other message.
pub fn terminal_request_phase(message: &StreamRelayMessage) -> (phase: Option<RequestPhase>)
    ensures
        phase == ending_phase(*message),
{
    if !relay_message_is_terminal(message) {
        return None;
    }
    match message {
        StreamRelayMessage::Chunk(_) => Some(RequestPhase::Completed),
        StreamRelayMessage::ChunkBatch(_) => Some(RequestPhase::Completed),
        _ => Some(RequestPhase::Failed),
    }
}

/// The kind of a relay message, by name.
pub open spec fn message_kind(message: StreamRelayMessage) -> Seq<char> {
    match message {
        StreamRelayMessage::Chunk(_) => "chunk"@,
        StreamRelayMessage::ChunkBatch(_) => "chunk_batch"@,
        StreamRelayMessage::Heartbeat { .. } => "heartbeat"@,
        StreamRelayMessage::ProviderError { .. } => "provider_error"@,
        StreamRelayMessage::TransportDisconnected { .. } => "transport_disconnected"@,
        StreamRelayMessage::TransportReconnected { .. } => "transport_reconnected"@,
        StreamRelayMessage::TransportFailed { .. } => "transport_failed"@,
    }
}

/// The kind of a relay message, by name, as it is recorded in traces.
pub fn message_type(message: &StreamRelayMessage) -> (name: &'static str)
    ensures
        name@ == message_kind(*message),
{
    match message {
        StreamRelayMessage::Chunk(_) => "chunk",
        StreamRelayMessage::ChunkBatch(_) => "chunk_batch",
        StreamRelayMessage::Heartbeat { .. } => "heartbeat",
        StreamRelayMessage::ProviderError { .. } => "provider_error",
        StreamRelayMessage::TransportDisconnected { .. } => "transport_disconnected",
        StreamRelayMessage::TransportReconnected { .. } => "transport_reconnected",
        StreamRelayMessage::TransportFailed { .. } => "transport_failed",
    }
}

/// The status of one request.
#[derive(Debug, Clone, PartialEq, Eq)]
pub struct RoutedRequestStatus {
    pub request_id: String,
    pub has_consumer: bool,
    pub buffered_messages: usize,
    pub phase: RequestPhase,
    pub created_at_elapsed_ms: u64,
    pub last_message_at_elapsed_ms: u64,
}

/// `buffer` after `message` came in: the oldest message makes room when the buffer
/// already holds `limit` messages or more.
pub open spec fn replay_push(
    buffer: Seq<StreamRelayMessage>,
    limit: nat,
    message: StreamRelayMessage,
) -> Seq<StreamRelayMessage> {
    if buffer.len() >= limit && buffer.len() > 0 {
        buffer.drop_first().push(message)
    } else {
        buffer.push(message)
    }
}

/// The abstract state of a routed request. Times are readings of a monotonic clock
/// in nanoseconds.
pub ghost struct RequestState {
    pub request_id: Seq<char>,
    pub phase: RequestPhase,
    pub created_at: nat,
    pub last_message_at: nat,
    pub consumer: Option<mpsc::Sender<StreamRelayMessage>>,
    pub buffer: Seq<StreamRelayMessage>,
    pub limit: nat,
}

/// A request that was just opened at time `now`.
pub open spec fn opened(request_id: Seq<char>, limit: nat, now: nat) -> RequestState {
    RequestState {
        request_id,
        phase: RequestPhase::AwaitingStream,
        created_at: now,
        last_message_at: now,
        consumer: None,
        buffer: Seq::empty(),
        limit,
    }
}

/// The phase once a message has arrived and before it is offered to a consumer.
pub open spec fn arrival_phase(phase: RequestPhase, message: StreamRelayMessage) -> RequestPhase {
    if (message is Chunk || message is ChunkBatch) && phase == RequestPhase::AwaitingStream {
        RequestPhase::Streaming
    } else if message is ProviderError || message is TransportFailed {
        RequestPhase::Failed
    } else {
        phase
    }
}

/// A request after `message` arrived at time `now`, where `delivery` is what became of it.
pub open spec fn after_message(
    before: RequestState,
    message: StreamRelayMessage,
    delivery: Delivery,
    now: nat,
) -> RequestState {
    let undelivered = !(delivery is Delivered);
    RequestState {
        last_message_at: now,
        phase: match ending_phase(message) {
            Some(phase) => phase,
            None => if (delivery is Full || delivery is Closed) && !is_terminal_phase(before.phase) {
                RequestPhase::ConsumerDisconnected
            } else {
                arrival_phase(before.phase, message)
            },
        },
        consumer: if delivery is Closed || (delivery is Delivered
            && provider_host::is_terminal_message(message)) {
            None
        } else {
            before.consumer
        },
        buffer: if undelivered {
            replay_push(before.buffer, before.limit, message)
        } else {
            before.buffer
        },
        ..before
    }
}

/// A request after a consumer was attached: the buffer is handed out, and a request
/// that had content to hand out, or had lost its consumer, is in flow again. One that is
/// finished stays so.
pub open spec fn after_attach(
    before: RequestState,
    consumer: mpsc::Sender<StreamRelayMessage>,
) -> RequestState {
    RequestState {
        consumer: Some(consumer),
        buffer: Seq::empty(),
        phase: if is_terminal_phase(before.phase) {
            before.phase
        } else if before.buffer.len() > 0 {
            RequestPhase::Streaming
        } else if before.phase == RequestPhase::ConsumerDisconnected {
            RequestPhase::AwaitingStream
        } else {
            before.phase
        },
        ..before
    }
}

/// A request after its consumer was detached.
pub open spec fn after_detach(before: RequestState) -> RequestState {
    RequestState {
        consumer: None,
        phase: if is_terminal_phase(before.phase) {
            before.phase
        } else {
            RequestPhase::ConsumerDisconnected
        },
        ..before
    }
}

/// A request after the messages handed out on attach were sent, or could not all be. One
/// that is finished stays so.
pub open spec fn after_replay(
    before: RequestState,
    ends_stream: bool,
    all_sent: bool,
) -> RequestState {
    if !all_sent {
        after_detach(before)
    } else if ends_stream {
        RequestState { consumer: None, ..before }
    } else {
        before
    }
}

/// Nanoseconds from `then` to `now`, zero when `then` is later.
pub open spec fn elapsed(now: nat, then: nat) -> nat {
    if now >= then {
        (now - then) as nat
    } else {
        0
    }
}

/// A finished request whose last message is at least `ttl_secs` seconds old.
pub open spec fn is_expired(state: RequestState, ttl_secs: nat, now: nat) -> bool {
    is_terminal_phase(state.phase) && elapsed(now, state.last_message_at) >= ttl_secs
        * 1_000_000_000
}

/// `after` is `before` once `message` came in at time `now`. Where a consumer is attached, the
/// message was sent to it: the consumer has it, or did not take it. A message that no
/// consumer has is kept for replay.
pub open spec fn delivered_or_kept(
    before: RequestState,
    message: StreamRelayMessage,
    now: nat,
    delivery: Delivery,
    after: RequestState,
) -> bool {
    &&& delivery::delivers(delivery, before.consumer, message)
    &&& after == after_message(before, message, delivery, now)
}

/// A request and the messages that wait for its consumer.
#[derive(Debug)]
pub struct RoutedRequest {
    pub request_id: String,
    pub phase: RequestPhase,
    pub created_at: u64,
    pub last_message_at: u64,
    pub consumer_tx: Option<mpsc::Sender<StreamRelayMessage>>,
    pub replay_buffer: VecDeque<StreamRelayMessage>,
    pub replay_buffer_size: usize,
}

impl View for RoutedRequest {
    type V = RequestState;

    open spec fn view(&self) -> RequestState {
        RequestState {
            request_id: self.request_id@,
            phase: self.phase,
            created_at: self.created_at as nat,
            last_message_at: self.last_message_at as nat,
            consumer: self.consumer_tx,
            buffer: self.replay_buffer@,
            limit: self.replay_buffer_size as nat,
        }
    }
}

/// The status that describes `state` at time `now`.
pub open spec fn describes(status: RoutedRequestStatus, state: RequestState, now: nat) -> bool {
    &&& status.request_id@ == state.request_id
    &&& status.has_consumer == (state.consumer is Some)
    &&& status.buffered_messages == state.buffer.len()
    &&& status.phase == state.phase
    &&& status.created_at_elapsed_ms == elapsed(now, state.created_at) / 1_000_000
    &&& status.last_message_at_elapsed_ms == elapsed(now, state.last_message_at) / 1_000_000
}

impl RoutedRequest {
    /// A request that waits for its first message.
    pub fn new(request_id: String, replay_buffer_size: usize, now: u64) -> (request: Self)
        ensures
            request@ == opened(request_id@, replay_buffer_size as nat, now as nat),
    {
        RoutedRequest {
            request_id,
            phase: RequestPhase::AwaitingStream,
            created_at: now,
            last_message_at: now,
            consumer_tx: None,
            replay_buffer: VecDeque::with_capacity(
                if replay_buffer_size < 64 {
                    replay_buffer_size
                } else {
                    64
                },
            ),
            replay_buffer_size,
        }
    }

    /// The status of the request at time `now`.
    pub fn status(&self, now: u64) -> (status: RoutedRequestStatus)
        ensures
            describes(status, self@, now as nat),
    {
        RoutedRequestStatus {
            request_id: self.request_id.clone(),
            has_consumer: self.consumer_tx.is_some(),
            buffered_messages: self.replay_buffer.len(),
            phase: self.phase,
            created_at_elapsed_ms: now.saturating_sub(self.created_at) / NANOS_PER_MILLI,
            last_message_at_elapsed_ms: now.saturating_sub(self.last_message_at) / NANOS_PER_MILLI,
        }
    }

    /// Whether the request has ended.
    pub fn is_terminal(&self) -> (yes: bool)
        ensures
            yes == is_terminal_phase(self@.phase),
    {
        match self.phase {
            RequestPhase::Completed => true,
            RequestPhase::Failed => true,
            RequestPhase::Cancelled => true,
            _ => false,
        }
    }

    /// Notes that `message` arrived at time `now`.
    fn note_arrival(&mut self, message: &StreamRelayMessage, now: u64)
        ensures
            final(self)@ == (RequestState {
                last_message_at: now as nat,
                phase: arrival_phase(old(self)@.phase, *message),
                ..old(self)@
            }),
    {
        self.last_message_at = now;
        match message {
            StreamRelayMessage::Chunk(_) => {
                if self.phase == RequestPhase::AwaitingStream {
                    self.phase = RequestPhase::Streaming;
                }
            },
            StreamRelayMessage::ChunkBatch(_) => {
                if self.phase == RequestPhase::AwaitingStream {
                    self.phase = RequestPhase::Streaming;
                }
            },
            StreamRelayMessage::ProviderError { .. } => {
                self.phase = RequestPhase::Failed;
            },
            StreamRelayMessage::TransportFailed { .. } => {
                self.phase = RequestPhase::Failed;
            },
            _ => {},
        }
    }

    /// Keeps `message` for replay.
    fn buffer(&mut self, message: StreamRelayMessage)
        ensures
            final(self)@ == (RequestState {
                buffer: replay_push(old(self)@.buffer, old(self)@.limit, message),
                ..old(self)@
            }),
    {
        if self.replay_buffer.len() >= self.replay_buffer_size {
            let _oldest = self.replay_buffer.pop_front();
        }
        self.replay_buffer.push_back(message);
    }

    /// Settles a message whose arrival was noted, once it was offered to the consumer.
    /// `ending` is the phase that the message ends the request with, if it does.
    /// Tells what became of the message.
    fn settle(&mut self, outcome: SendOutcome, ending: Option<RequestPhase>) -> (result: Delivery)
        ensures
            result == delivery::delivery_of(outcome),
            ({
                let before = old(self)@;
                let after = final(self)@;
                let phase = match ending {
                    Some(phase) => phase,
                    None => if (outcome is Full || outcome is Closed) && !is_terminal_phase(
                        before.phase,
                    ) {
                        RequestPhase::ConsumerDisconnected
                    } else {
                        before.phase
                    },
                };
                after == match outcome {
                    SendOutcome::Delivered(_) => (RequestState {
                        phase,
                        consumer: if ending is Some {
                            None
                        } else {
                            before.consumer
                        },
                        ..before
                    }),
                    SendOutcome::NoConsumer(m) => (RequestState {
                        phase,
                        buffer: replay_push(before.buffer, before.limit, m),
                        ..before
                    }),
                    SendOutcome::Full(m, _) => (RequestState {
                        phase,
                        buffer: replay_push(before.buffer, before.limit, m),
                        ..before
                    }),
                    SendOutcome::Closed(m, _) => (RequestState {
                        phase,
                        consumer: None,
                        buffer: replay_push(before.buffer, before.limit, m),
                        ..before
                    }),
                }
            }),
    {
        let result = match outcome {
            SendOutcome::Delivered(receipt) => {
                if ending.is_some() {
                    // Without its sender the receiver sees the end of the stream.
                    self.consumer_tx = None;
                }
                Delivery::Delivered(receipt)
            },
            SendOutcome::NoConsumer(message) => {
                self.buffer(message);
                Delivery::NoConsumer
            },
            SendOutcome::Full(message, refusal) => {
                if !self.is_terminal() {
                    self.phase = RequestPhase::ConsumerDisconnected;
                }
                self.buffer(message);
                Delivery::Full(refusal)
            },
            SendOutcome::Closed(message, refusal) => {
                self.consumer_tx = None;
                if !self.is_terminal() {
                    self.phase = RequestPhase::ConsumerDisconnected;
                }
                self.buffer(message);
                Delivery::Closed(refusal)
            },
        };
        if let Some(phase) = ending {
            self.phase = phase;
        }
        result
    }

    /// Takes in a message that was already offered to the consumer, with the given
    /// outcome.
    pub fn accept(&mut self, message: &StreamRelayMessage, outcome: SendOutcome, now: u64) -> (
    result: Delivery)
        requires
            delivery::settles(outcome, old(self)@.consumer, *message),
        ensures
            result == delivery::delivery_of(outcome),
            delivered_or_kept(old(self)@, *message, now as nat, result, final(self)@),
    {
        let ending = terminal_request_phase(message);
        self.note_arrival(message, now);
        self.settle(outcome, ending)
    }

    /// What is handed to the attached consumer: the message itself. Where none is attached the
    /// message comes back.
    pub fn offer(&self, message: StreamRelayMessage) -> (offer: Result<
        Offer<'_>,
        StreamRelayMessage,
    >)
        ensures
            match offer {
                Ok(offer) => self@.consumer == Some(*offer.consumer) && offer.message == message,
                Err(back) => self@.consumer is None && back == message,
            },
    {
        match &self.consumer_tx {
            Some(consumer) => Ok(Offer { consumer, message }),
            None => Err(message),
        }
    }

    /// Sends a message to the attached consumer, or keeps it for replay where there is
    /// none or it cannot take it. A message that ends the stream closes the consumer. Tells
    /// what became of the message.
    pub fn deliver_or_buffer(&mut self, message: StreamRelayMessage, now: u64) -> (result: Delivery)
        ensures
            delivered_or_kept(old(self)@, message, now as nat, result, final(self)@),
    {
        let ending = terminal_request_phase(&message);
        let ghost offered = message;
        self.note_arrival(&message, now);
        let outcome = match self.offer(message) {
            Ok(offer) => offer.send(),
            Err(message) => SendOutcome::NoConsumer(message),
        };
        let result = self.settle(outcome, ending);
        assert(self@ == after_message(old(self)@, offered, result, now as nat));
        result
    }

    /// Attaches a consumer and hands out the messages that wait for it.
    pub fn attach(&mut self, consumer_tx: mpsc::Sender<StreamRelayMessage>) -> (waiting: Vec<
        StreamRelayMessage,
    >)
        ensures
            final(self)@ == after_attach(old(self)@, consumer_tx),
            waiting@ == old(self)@.buffer,
    {
        self.consumer_tx = Some(consumer_tx);
        let mut waiting: Vec<StreamRelayMessage> = Vec::new();
        let ghost all = self.replay_buffer@;
        let ghost before = old(self)@;
        if self.phase == RequestPhase::ConsumerDisconnected {
            self.phase = RequestPhase::AwaitingStream;
        }
        if self.replay_buffer.len() > 0 && !self.is_terminal() {
            self.phase = RequestPhase::Streaming;
        }
        while self.replay_buffer.len() > 0
            invariant
                waiting@ + self.replay_buffer@ == all,
                self@ == (RequestState {
                    buffer: self.replay_buffer@,
                    ..after_attach(before, consumer_tx)
                }),
            decreases self.replay_buffer@.len(),
        {
            let ghost left = self.replay_buffer@;
            match self.replay_buffer.pop_front() {
                Some(message) => {
                    waiting.push(message);
                    proof {
                        assert(waiting@ + self.replay_buffer@ =~= all);
                    }
                },
                None => {},
            }
        }
        assert(self.replay_buffer@ =~= Seq::empty());
        assert(waiting@ =~= all);
        waiting
    }

    /// Detaches the consumer.
    pub fn detach(&mut self)
        ensures
            final(self)@ == after_detach(old(self)@),
    {
        self.consumer_tx = None;
        if !self.is_terminal() {
            self.phase = RequestPhase::ConsumerDisconnected;
        }
    }
}

/// The messages that a new consumer is owed, in order.
#[derive(Debug)]
pub struct Replay {
    pub messages: Vec<StreamRelayMessage>,
    /// The last of them ends the stream.
    pub ends_stream: bool,
}

/// `messages` is not empty and its last message ends the stream.
pub open spec fn ends_stream(messages: Seq<StreamRelayMessage>) -> bool {
    messages.len() > 0 && provider_host::is_terminal_message(messages.last())
}

/// Routes the stream messages of a session to its local consumers.
#[derive(Debug)]
pub struct SessionStreamRouterActor {
    pub requests: StringMap<RoutedRequest>,
    pub replay_buffer_size: usize,
    pub request_ttl_secs: u64,
}

impl SessionStreamRouterActor {
    /// Every request stands under its own id.
    pub open spec fn wf(&self) -> bool {
        &&& self.requests.wf()
        &&& forall|id: Seq<char>| #[trigger]
            self.requests@.dom().contains(id) ==> self.requests@[id]@.request_id == id
    }

    /// The state of the request `id`: what is known of it, or a fresh one.
    pub open spec fn state_or_new(&self, id: Seq<char>, now: nat) -> RequestState {
        if self.requests@.dom().contains(id) {
            self.requests@[id]@
        } else {
            opened(id, self.replay_buffer_size as nat, now)
        }
    }

    /// `self` differs from `before` in the request `id` at most, which now is in `state`.
    pub open spec fn only_changed(&self, before: Self, id: Seq<char>, state: RequestState) -> bool {
        &&& self.requests@.dom() == before.requests@.dom().insert(id)
        &&& self.requests@[id]@ == state
        &&& forall|other: Seq<char>|
            other != id && #[trigger] before.requests@.dom().contains(other) ==> self.requests@[other]
                == before.requests@[other]
        &&& self.replay_buffer_size == before.replay_buffer_size
        &&& self.request_ttl_secs == before.request_ttl_secs
    }

    /// `self` is `before` without the requests that are expired at time `now`.
    pub open spec fn cleaned(&self, before: Self, now: nat) -> bool {
        &&& self.replay_buffer_size == before.replay_buffer_size
        &&& self.request_ttl_secs == before.request_ttl_secs
        &&& forall|id: Seq<char>| #[trigger]
            self.requests@.dom().contains(id) <==> before.requests@.dom().contains(id)
                && !is_expired(before.requests@[id]@, before.request_ttl_secs as nat, now)
        &&& forall|id: Seq<char>| #[trigger]
            self.requests@.dom().contains(id) ==> self.requests@[id] == before.requests@[id]
    }

    /// `self` is `before` after `message` came in for the request `id`, where `delivery` is what
    /// became of it.
    pub open spec fn relayed(
        &self,
        before: Self,
        id: Seq<char>,
        message: StreamRelayMessage,
        now: nat,
        delivery: Delivery,
    ) -> bool {
        let after = self.requests@[id]@;
        &&& self.only_changed(before, id, after)
        &&& delivered_or_kept(before.state_or_new(id, now), message, now, delivery, after)
    }

    /// A router without requests.
    pub fn new(replay_buffer_size: Option<usize>, request_ttl_secs: Option<u64>) -> (router: Self)
        ensures
            router.wf(),
            router.requests@ == Map::<Seq<char>, RoutedRequest>::empty(),
            router.replay_buffer_size == match replay_buffer_size {
                Some(size) => size,
                None => DEFAULT_REPLAY_BUFFER_SIZE,
            },
            router.request_ttl_secs == match request_ttl_secs {
                Some(secs) => secs,
                None => DEFAULT_REQUEST_TTL_SECS,
            },
    {
        SessionStreamRouterActor {
            requests: StringMap::new(),
            replay_buffer_size: replay_buffer_size.unwrap_or(DEFAULT_REPLAY_BUFFER_SIZE),
            request_ttl_secs: request_ttl_secs.unwrap_or(DEFAULT_REQUEST_TTL_SECS),
        }
    }

    /// Opens a request ahead of its first message. A request with the same id is replaced.
    pub fn register_request(&mut self, request_id: String, now: u64)
        requires
            old(self).wf(),
        ensures
            final(self).wf(),
            final(self).only_changed(
                *old(self),
                request_id@,
                opened(request_id@, old(self).replay_buffer_size as nat, now as nat),
            ),
    {
        let request = RoutedRequest::new(request_id.clone(), self.replay_buffer_size, now);
        let _replaced = self.requests.insert(request_id, request);
    }

    /// Makes sure that the request `request_id` exists.
    fn ensure_request(&mut self, request_id: &String, now: u64)
        requires
            old(self).wf(),
        ensures
            final(self).wf(),
            final(self).only_changed(
                *old(self),
                request_id@,
                old(self).state_or_new(request_id@, now as nat),
            ),
    {
        if !self.requests.contains_key(request_id.as_str()) {
            self.register_request(request_id.clone(), now);
        } else {
            assert(self.requests@.dom() =~= old(self).requests@.dom().insert(request_id@));
        }
    }

    /// Drops finished requests whose last message is older than the time to live.
    pub fn cleanup_expired_requests(&mut self, now: u64)
        requires
            old(self).wf(),
        ensures
            final(self).wf(),
            final(self).cleaned(*old(self), now as nat),
    {
        let mut kept: StringMap<RoutedRequest> = StringMap::new();
        let ttl: u128 = self.request_ttl_secs as u128 * NANOS_PER_SEC;
        let keys = self.requests.keys();
        let ghost order = self.requests.key_order();
        let ghost before = *old(self);
        proof {
            self.requests.lemma_key_order();
            assert forall|j: int| 0 <= j < order.len() implies self.requests@.dom().contains(
                #[trigger] order[j],
            ) by {
                assert(order.contains(order[j]));
            }
        }
        let mut i: usize = 0;
        while i < keys.len()
            invariant
                before.wf(),
                self.requests.wf(),
                kept.wf(),
                i <= keys@.len(),
                keys@.map_values(|k: String| k@) == order,
                order.no_duplicates(),
                forall|id: Seq<char>| order.contains(id) <==> before.requests@.dom().contains(id),
                self.replay_buffer_size == before.replay_buffer_size,
                self.request_ttl_secs == before.request_ttl_secs,
                ttl == self.request_ttl_secs * 1_000_000_000,
                forall|j: int| i <= j < order.len() ==> self.requests@.dom().contains(
                    #[trigger] order[j],
                ),
                forall|id: Seq<char>| #[trigger]
                    self.requests@.dom().contains(id) ==> before.requests@.dom().contains(id)
                        && self.requests@[id] == before.requests@[id],
                forall|id: Seq<char>| #[trigger]
                    kept@.dom().contains(id) ==> before.requests@.dom().contains(id) && kept@[id]
                        == before.requests@[id] && !is_expired(
                        before.requests@[id]@,
                        before.request_ttl_secs as nat,
                        now as nat,
                    ),
                forall|j: int|
                    0 <= j < i ==> (kept@.dom().contains(#[trigger] order[j]) <==> !is_expired(
                        before.requests@[order[j]]@,
                        before.request_ttl_secs as nat,
                        now as nat,
                    )),
            decreases keys@.len() - i,
        {
            let ghost id = order[i as int];
            assert(keys@.map_values(|k: String| k@)[i as int] == keys@[i as int]@);
            assert(self.requests@.dom().contains(id));
            match self.requests.remove(keys[i].as_str()) {
                Some(request) => {
                    let elapsed: u64 = now.saturating_sub(request.last_message_at);
                    if !request.is_terminal() || (elapsed as u128) < ttl {
                        let _none = kept.insert(keys[i].clone(), request);
                    }
                },
                None => {},
            }
            i = i + 1;
        }
        self.requests = kept;
        proof {
            assert forall|id: Seq<char>| #[trigger] self.requests@.dom().contains(id)
                <==> before.requests@.dom().contains(id) && !is_expired(
                before.requests@[id]@,
                before.request_ttl_secs as nat,
                now as nat,
            ) by {
                if before.requests@.dom().contains(id) {
                    assert(order.contains(id));
                    let j = choose|j: int| 0 <= j < order.len() && order[j] == id;
                    assert(kept@.dom().contains(order[j]) <==> !is_expired(
                        before.requests@[order[j]]@,
                        before.request_ttl_secs as nat,
                        now as nat,
                    ));
                }
            }
        }
    }

    /// The status of the request `request_id`, or of every request.
    pub fn get_status(&self, request_id: Option<&str>, now: u64) -> (statuses: Vec<
        RoutedRequestStatus,
    >)
        requires
            self.wf(),
        ensures
            match request_id {
                Some(id) => if self.requests@.dom().contains(id@) {
                    statuses@.len() == 1 && describes(
                        statuses@[0],
                        self.requests@[id@]@,
                        now as nat,
                    )
                } else {
                    statuses@.len() == 0
                },
                None => {
                    &&& statuses@.len() == self.requests.key_order().len()
                    &&& forall|i: int|
                        0 <= i < statuses@.len() ==> describes(
                            #[trigger] statuses@[i],
                            self.requests@[self.requests.key_order()[i]]@,
                            now as nat,
                        )
                },
            },
    {
        let mut statuses: Vec<RoutedRequestStatus> = Vec::new();
        match request_id {
            Some(id) => {
                match self.requests.get(id) {
                    Some(request) => {
                        statuses.push(request.status(now));
                    },
                    None => {},
                }
            },
            None => {
                let count: usize = self.requests.len();
                let mut i: usize = 0;
                while i < count
                    invariant
                        self.wf(),
                        i <= count,
                        count == self.requests.key_order().len(),
                        statuses@.len() == i,
                        forall|j: int|
                            0 <= j < i ==> describes(
                                #[trigger] statuses@[j],
                                self.requests@[self.requests.key_order()[j]]@,
                                now as nat,
                            ),
                    decreases count - i,
                {
                    statuses.push(self.requests.value_at(i).status(now));
                    i = i + 1;
                }
            },
        }
        statuses
    }

    /// Routes a message to its request, which is opened where it is not known yet. Tells what
    /// became of the message.
    pub fn relay(&mut self, msg: RoutedStreamRelayMessage, now: u64) -> (result: Delivery)
        requires
            old(self).wf(),
        ensures
            final(self).wf(),
            final(self).relayed(
                *old(self),
                msg.request_id@,
                msg.message,
                now as nat,
                result,
            ),
    {
        self.ensure_request(&msg.request_id, now);
        let result = match self.requests.get_mut(msg.request_id.as_str()) {
            Some(request) => request.deliver_or_buffer(msg.message, now),
            None => Delivery::NoConsumer,
        };
        assert(self.requests@.dom() =~= old(self).requests@.dom().insert(msg.request_id@));
        result
    }

    /// Attaches a consumer to a request, which is opened where it is not known yet, and
    /// hands out the messages that wait for it. Expired requests are dropped first.
    /// `finish_attach` settles the request once the messages were sent.
    pub fn attach(&mut self, msg: AttachStreamConsumer, now: u64) -> (replay: Replay)
        requires
            old(self).wf(),
        ensures
            final(self).wf(),
            exists|cleaned: Self|
                {
                    let before = cleaned.state_or_new(msg.request_id@, now as nat);
                    &&& #[trigger] cleaned.cleaned(*old(self), now as nat)
                    &&& final(self).only_changed(
                        cleaned,
                        msg.request_id@,
                        after_attach(before, msg.consumer_tx),
                    )
                    &&& replay.messages@ == before.buffer
                    &&& replay.ends_stream == ends_stream(before.buffer)
                },
    {
        self.cleanup_expired_requests(now);
        let ghost cleaned = *self;
        self.ensure_request(&msg.request_id, now);
        let mut messages: Vec<StreamRelayMessage> = Vec::new();
        match self.requests.get_mut(msg.request_id.as_str()) {
            Some(request) => {
                messages = request.attach(msg.consumer_tx);
            },
            None => {},
        }
        let n: usize = messages.len();
        let ends = n > 0 && relay_message_is_terminal(&messages[n - 1]);
        assert(self.requests@.dom() =~= cleaned.requests@.dom().insert(msg.request_id@));
        proof {
            assert(cleaned.cleaned(*old(self), now as nat));
        }
        Replay { messages, ends_stream: ends }
    }

    /// Settles a request after the messages handed out by `attach` were sent. When one
    /// could not be sent the consumer is given up; when the last one ended the stream
    /// the consumer is closed.
    pub fn finish_attach(&mut self, request_id: &str, ends_stream: bool, all_sent: bool) -> (result:
        Result<(), AgentError>)
        requires
            old(self).wf(),
        ensures
            final(self).wf(),
            result is Ok <==> all_sent,
            result matches Err(error) ==> error is Internal && error->Internal_0@
                == "consumer dropped during attach"@,
            if old(self).requests@.dom().contains(request_id@) {
                final(self).only_changed(
                    *old(self),
                    request_id@,
                    after_replay(old(self).requests@[request_id@]@, ends_stream, all_sent),
                )
            } else {
                *final(self) == *old(self)
            },
    {
        if !all_sent || ends_stream {
            match self.requests.get_mut(request_id) {
                Some(request) => {
                    request.consumer_tx = None;
                    if !all_sent && !request.is_terminal() {
                        request.phase = RequestPhase::ConsumerDisconnected;
                    }
                },
                None => {},
            }
        }
        assert(old(self).requests@.dom().contains(request_id@) ==> self.requests@.dom()
            =~= old(self).requests@.dom().insert(request_id@));
        if all_sent {
            Ok(())
        } else {
            Err(AgentError::Internal("consumer dropped during attach".to_string()))
        }
    }

    /// Detaches the consumer of a request, if the request is known. Expired requests are
    /// dropped first.
    pub fn detach(&mut self, msg: DetachStreamConsumer, now: u64)
        requires
            old(self).wf(),
        ensures
            final(self).wf(),
            exists|cleaned: Self|
                {
                    &&& #[trigger] cleaned.cleaned(*old(self), now as nat)
                    &&& if cleaned.requests@.dom().contains(msg.request_id@) {
                        final(self).only_changed(
                            cleaned,
                            msg.request_id@,
                            after_detach(cleaned.requests@[msg.request_id@]@),
                        )
                    } else {
                        *final(self) == cleaned
                    }
                },
    {
        self.cleanup_expired_requests(now);
        let ghost cleaned = *self;
        match self.requests.get_mut(msg.request_id.as_str()) {
            Some(request) => {
                request.detach();
            },
            None => {},
        }
        assert(cleaned.requests@.dom().contains(msg.request_id@) ==> self.requests@.dom()
            =~= cleaned.requests@.dom().insert(msg.request_id@));
        proof {
            assert(cleaned.cleaned(*old(self), now as nat));
        }
    }
}

/// A replay buffer never holds more messages than its limit, or one where the limit is zero.
pub open spec fn within_limit(state: RequestState) -> bool {
    state.buffer.len() <= if state.limit > 0 {
        state.limit
    } else {
        1
    }
}

/// Every step of a request keeps its replay buffer within the limit.
pub proof fn law_buffer_stays_within_limit(
    before: RequestState,
    message: StreamRelayMessage,
    delivery: Delivery,
    now: nat,
    consumer: mpsc::Sender<StreamRelayMessage>,
    ended: bool,
    all_sent: bool,
)
    requires
        within_limit(before),
    ensures
        within_limit(opened(before.request_id, before.limit, now)),
        within_limit(after_message(before, message, delivery, now)),
        within_limit(after_attach(before, consumer)),
        within_limit(after_detach(before)),
        within_limit(after_replay(before, ended, all_sent)),
{
}

/// A message is never lost on arrival: either the consumer has it, or it is the last one
/// in the replay buffer.
pub proof fn law_no_message_is_lost(
    before: RequestState,
    message: StreamRelayMessage,
    delivery: Delivery,
    now: nat,
)
    ensures
        delivery is Delivered || ({
            let after = after_message(before, message, delivery, now);
            after.buffer.len() > 0 && after.buffer.last() == message
        }),
{
}

/// A message that ends the stream ends its request, whatever became of the message, and a
/// consumer that has it is closed.
pub proof fn law_terminal_message_ends_the_request(
    before: RequestState,
    message: StreamRelayMessage,
    delivery: Delivery,
    now: nat,
)
    requires
        provider_host::is_terminal_message(message),
    ensures
        is_terminal_phase(after_message(before, message, delivery, now).phase),
        delivery is Delivered ==> after_message(before, message, delivery, now).consumer is None,
{
}

/// A request that is finished stays so, whatever comes in and whoever attaches or leaves. So
/// it is dropped once its time to live is over.
pub proof fn law_finished_requests_stay_finished(
    before: RequestState,
    message: StreamRelayMessage,
    delivery: Delivery,
    now: nat,
    consumer: mpsc::Sender<StreamRelayMessage>,
    ended: bool,
    all_sent: bool,
)
    requires
        is_terminal_phase(before.phase),
    ensures
        is_terminal_phase(after_message(before, message, delivery, now).phase),
        after_attach(before, consumer).phase == before.phase,
        after_detach(before).phase == before.phase,
        after_replay(after_attach(before, consumer), ended, all_sent).phase == before.phase,
{
}

/// A stream that ended while no consumer was attached is replayed to the next one without
/// coming to life again: the request is dropped once the time to live is over since its last
/// message.
pub proof fn law_replayed_requests_expire(
    before: RequestState,
    message: StreamRelayMessage,
    at: nat,
    consumer: mpsc::Sender<StreamRelayMessage>,
    ended: bool,
    all_sent: bool,
    ttl_secs: nat,
    now: nat,
)
    requires
        provider_host::is_terminal_message(message),
        now >= at + ttl_secs * 1_000_000_000,
    ensures
        is_expired(
            after_replay(
                after_attach(
                    after_message(before, message, Delivery::NoConsumer, at),
                    consumer,
                ),
                ended,
                all_sent,
            ),
            ttl_secs,
            now,
        ),
{
}

/// A request after `messages` came in one after the other, at the given times, while no
/// consumer was attached.
pub open spec fn after_unheard(
    before: RequestState,
    messages: Seq<StreamRelayMessage>,
    times: Seq<nat>,
) -> RequestState
    decreases messages.len(),
{
    if messages.len() == 0 {
        before
    } else {
        after_message(
            after_unheard(before, messages.drop_last(), times),
            messages.last(),
            Delivery::NoConsumer,
            times[messages.len() - 1],
        )
    }
}

/// A consumer that attaches after another one left gets every message that came in between,
/// in order, behind those that waited before; where they are more than the buffer holds, the
/// newest of them.
pub proof fn law_reattach_replays_what_was_missed(
    before: RequestState,
    messages: Seq<StreamRelayMessage>,
    times: Seq<nat>,
)
    requires
        before.buffer.len() <= before.limit,
        before.limit > 0,
    ensures
        ({
            let after = after_unheard(after_detach(before), messages, times);
            let all = before.buffer + messages;
            &&& after.consumer is None
            &&& after.limit == before.limit
            &&& after.buffer == if all.len() <= before.limit {
                all
            } else {
                all.subrange(all.len() - before.limit, all.len() as int)
            }
        }),
    decreases messages.len(),
{
    let all = before.buffer + messages;
    if messages.len() == 0 {
        assert(all =~= before.buffer);
    } else {
        let shorter = messages.drop_last();
        law_reattach_replays_what_was_missed(before, shorter, times);
        let heard = before.buffer + shorter;
        let kept = after_unheard(after_detach(before), shorter, times).buffer;
        assert(heard.push(messages.last()) =~= all);
        if all.len() <= before.limit {
            assert(kept.push(messages.last()) =~= all);
        } else {
            assert(kept.drop_first().push(messages.last()) =~= all.subrange(
                all.len() - before.limit,
                all.len() as int,
            ));
        }
    }
}

/// Every phase and every kind of message has a name of its own.
pub proof fn law_phases_and_messages_have_names(phase: RequestPhase, message: StreamRelayMessage)
    ensures
        phase == RequestPhase::AwaitingStream ==> phase_name(phase) == "awaiting_stream"@,
        phase == RequestPhase::Streaming ==> phase_name(phase) == "streaming"@,
        phase == RequestPhase::ConsumerDisconnected ==> phase_name(phase)
            == "consumer_disconnected"@,
        phase == RequestPhase::Completed ==> phase_name(phase) == "completed"@,
        phase == RequestPhase::Failed ==> phase_name(phase) == "failed"@,
        phase == RequestPhase::Cancelled ==> phase_name(phase) == "cancelled"@,
        message is Chunk ==> message_kind(message) == "chunk"@,
        message is ChunkBatch ==> message_kind(message) == "chunk_batch"@,
        message is Heartbeat ==> message_kind(message) == "heartbeat"@,
        message is ProviderError ==> message_kind(message) == "provider_error"@,
        message is TransportDisconnected ==> message_kind(message) == "transport_disconnected"@,
        message is TransportReconnected ==> message_kind(message) == "transport_reconnected"@,
        message is TransportFailed ==> message_kind(message) == "transport_failed"@,
{
}

/// A request is over once it completed, failed or was cancelled, and only then.
pub proof fn law_over_is_completed_failed_or_cancelled(phase: RequestPhase)
    ensures
        is_terminal_phase(phase) <==> !(phase == RequestPhase::AwaitingStream || phase
            == RequestPhase::Streaming || phase == RequestPhase::ConsumerDisconnected),
{
}

/// A request completes with the last of its content, and fails with an error of its provider
/// or its transport; nothing else ends it.
pub proof fn law_content_completes_and_errors_fail(message: StreamRelayMessage)
    ensures
        ending_phase(message) == Some(RequestPhase::Failed) <==> message is ProviderError
            || message is TransportFailed,
        ending_phase(message) == Some(RequestPhase::Completed) <==> (message is Chunk
            || message is ChunkBatch) && provider_host::is_terminal_message(message),
        message is Heartbeat || message is TransportDisconnected || message is TransportReconnected
            ==> ending_phase(message) is None,
{
}

/// A message that ends nothing: content makes a request stream that waited for it, a consumer
/// that does not take it leaves the request without one, and nothing else moves the phase.
pub proof fn law_messages_move_the_phase(
    before: RequestState,
    message: StreamRelayMessage,
    delivery: Delivery,
    now: nat,
)
    requires
        ending_phase(message) is None,
    ensures
        ({
            let after = after_message(before, message, delivery, now).phase;
            let over = before.phase == RequestPhase::Completed || before.phase
                == RequestPhase::Failed || before.phase == RequestPhase::Cancelled;
            &&& (delivery is Full || delivery is Closed) && !over ==> after
                == RequestPhase::ConsumerDisconnected
            &&& delivery is Delivered || delivery is NoConsumer ==> if before.phase
                == RequestPhase::AwaitingStream && (message is Chunk || message is ChunkBatch) {
                after == RequestPhase::Streaming
            } else {
                after == before.phase
            }
            &&& over ==> after == before.phase
        }),
{
}

/// What a message leaves of a request: one that was delivered is not kept, one that was not
/// waits behind the others, and a consumer is let go of when it is closed or has had the last
/// message.
pub proof fn law_messages_are_delivered_or_wait(
    before: RequestState,
    message: StreamRelayMessage,
    delivery: Delivery,
    now: nat,
)
    ensures
        ({
            let after = after_message(before, message, delivery, now);
            &&& after.request_id == before.request_id
            &&& after.created_at == before.created_at
            &&& after.limit == before.limit
            &&& after.last_message_at == now
            &&& delivery is Delivered ==> after.buffer == before.buffer
            &&& !(delivery is Delivered) && before.buffer.len() < before.limit ==> after.buffer
                == before.buffer.push(message)
            &&& !(delivery is Delivered) && before.buffer.len() > 0 && before.buffer.len()
                >= before.limit ==> after.buffer == before.buffer.subrange(
                1,
                before.buffer.len() as int,
            ).push(message)
            &&& delivery is Closed ==> after.consumer is None
            &&& delivery is Full || delivery is NoConsumer ==> after.consumer == before.consumer
            &&& delivery is Delivered && ending_phase(message) is None ==> after.consumer
                == before.consumer
            &&& delivery is Delivered && ending_phase(message) is Some ==> after.consumer is None
        }),
{
    if before.buffer.len() > 0 {
        assert(before.buffer.drop_first() =~= before.buffer.subrange(
            1,
            before.buffer.len() as int,
        ));
    }
}

/// A consumer that is attached takes over all that waited; a request that had content for it
/// streams, one whose consumer was gone waits again, and one that is over stays so.
pub proof fn law_consumers_take_over(
    before: RequestState,
    consumer: mpsc::Sender<StreamRelayMessage>,
)
    ensures
        ({
            let after = after_attach(before, consumer);
            &&& after.consumer == Some(consumer)
            &&& after.buffer.len() == 0
            &&& after.request_id == before.request_id
            &&& after.created_at == before.created_at
            &&& after.last_message_at == before.last_message_at
            &&& after.limit == before.limit
            &&& !is_terminal_phase(before.phase) && before.buffer.len() > 0 ==> after.phase
                == RequestPhase::Streaming
            &&& before.phase == RequestPhase::ConsumerDisconnected && before.buffer.len() == 0
                ==> after.phase == RequestPhase::AwaitingStream
            &&& before.phase == RequestPhase::AwaitingStream && before.buffer.len() == 0
                ==> after.phase == RequestPhase::AwaitingStream
            &&& before.phase == RequestPhase::Streaming ==> after.phase == RequestPhase::Streaming
        }),
{
}

/// A consumer that is detached is gone, and what waits goes on waiting.
pub proof fn law_detached_consumers_are_gone(before: RequestState)
    ensures
        after_detach(before).consumer is None,
        after_detach(before).buffer == before.buffer,
        after_detach(before).request_id == before.request_id,
        after_detach(before).created_at == before.created_at,
        after_detach(before).last_message_at == before.last_message_at,
        after_detach(before).limit == before.limit,
        !is_terminal_phase(before.phase) ==> after_detach(before).phase
            == RequestPhase::ConsumerDisconnected,
{
}

/// After a replay the consumer stays, unless it did not take all of it or the stream is at
/// its end.
pub proof fn law_consumers_stay_after_a_replay(before: RequestState, ended: bool, all_sent: bool)
    ensures
        all_sent && !ended ==> after_replay(before, ended, all_sent) == before,
        all_sent && ended ==> after_replay(before, ended, all_sent).consumer is None
            && after_replay(before, ended, all_sent).phase == before.phase && after_replay(
            before,
            ended,
            all_sent,
        ).buffer == before.buffer,
        !all_sent ==> after_replay(before, ended, all_sent).consumer is None,
        !all_sent && !is_terminal_phase(before.phase) ==> after_replay(
            before,
            ended,
            all_sent,
        ).phase == RequestPhase::ConsumerDisconnected,
{
}

/// A new request waits for its stream, has no consumer and nothing that waits.
pub proof fn law_new_requests_wait(request_id: Seq<char>, limit: nat, now: nat)
    ensures
        opened(request_id, limit, now).request_id == request_id,
        opened(request_id, limit, now).phase == RequestPhase::AwaitingStream,
        opened(request_id, limit, now).created_at == now,
        opened(request_id, limit, now).last_message_at == now,
        opened(request_id, limit, now).consumer is None,
        opened(request_id, limit, now).buffer.len() == 0,
        opened(request_id, limit, now).limit == limit,
{
}

/// Exactly the requests are forgotten that are over and have been silent for as many seconds
/// as they are kept; every other is left as it is.
pub proof fn law_only_old_requests_are_forgotten(
    before: SessionStreamRouterActor,
    after: SessionStreamRouterActor,
    now: nat,
    id: Seq<char>,
)
    requires
        after.cleaned(before, now),
        before.requests@.dom().contains(id),
    ensures
        ({
            let request = before.requests@[id];
            let over = request.phase == RequestPhase::Completed || request.phase
                == RequestPhase::Failed || request.phase == RequestPhase::Cancelled;
            let silent = now >= request.last_message_at && now - request.last_message_at
                >= before.request_ttl_secs * 1_000_000_000 || before.request_ttl_secs == 0;
            &&& !after.requests@.dom().contains(id) <==> over && silent
            &&& after.requests@.dom().contains(id) ==> after.requests@[id] == request
        }),
{
    let ttl = before.request_ttl_secs as nat;
    assert(ttl == 0 ==> ttl * 1_000_000_000 == 0);
    assert(after.requests@.dom().contains(id) <==> before.requests@.dom().contains(id)
        && !is_expired(before.requests@[id]@, ttl, now));
}

/// A message for one request touches no other.
pub proof fn law_messages_touch_one_request(
    before: SessionStreamRouterActor,
    after: SessionStreamRouterActor,
    id: Seq<char>,
    message: StreamRelayMessage,
    now: nat,
    delivery: Delivery,
    other: Seq<char>,
)
    requires
        after.relayed(before, id, message, now, delivery),
        other != id,
    ensures
        after.requests@.dom().contains(id),
        after.requests@.dom().contains(other) <==> before.requests@.dom().contains(other),
        before.requests@.dom().contains(other) ==> after.requests@[other] == before.requests@[other],
        after.replay_buffer_size == before.replay_buffer_size,
        after.request_ttl_secs == before.request_ttl_secs,
        after.requests@[id].last_message_at == now,
        before.requests@.dom().contains(id) ==> delivery::delivers(
            delivery,
            before.requests@[id].consumer_tx,
            message,
        ),
        !before.requests@.dom().contains(id) ==> delivery::delivers(delivery, None, message),
{
}

/// A status tells of a request what it is and how long ago, in milliseconds, it began and was
/// last heard of.
pub proof fn law_statuses_tell_the_request(
    status: RoutedRequestStatus,
    state: RequestState,
    now: nat,
)
    requires
        describes(status, state, now),
    ensures
        status.request_id@ == state.request_id,
        status.has_consumer <==> state.consumer is Some,
        status.buffered_messages == state.buffer.len(),
        status.phase == state.phase,
        now >= state.created_at ==> status.created_at_elapsed_ms == (now - state.created_at)
            / 1_000_000,
        now >= state.last_message_at ==> status.last_message_at_elapsed_ms == (now
            - state.last_message_at) / 1_000_000,
        now < state.created_at ==> status.created_at_elapsed_ms == 0,
        now < state.last_message_at ==> status.last_message_at_elapsed_ms == 0,
{
}

/// The sizes and times of a router that is told none.
pub proof fn law_routers_keep_a_thousand_messages_for_five_minutes()
    ensures
        DEFAULT_REPLAY_BUFFER_SIZE == 1000,
        DEFAULT_REQUEST_TTL_SECS == 5 * 60,
{
}

/// A router keeps each request under its own id, and reads it as it is.
pub proof fn law_requests_are_kept_under_their_ids(
    router: SessionStreamRouterActor,
    id: Seq<char>,
    now: nat,
)
    requires
        router.wf(),
    ensures
        router.requests@.dom().contains(id) ==> router.requests@[id].request_id@ == id
            && router.state_or_new(id, now) == router.requests@[id]@,
        !router.requests@.dom().contains(id) ==> router.state_or_new(id, now).request_id == id
            && router.state_or_new(id, now).limit == router.replay_buffer_size
            && router.state_or_new(id, now).buffer.len() == 0 && router.state_or_new(
            id,
            now,
        ).consumer is None,
{
}

/// A request is read as its fields say.
pub proof fn law_requests_are_read_as_they_are(request: RoutedRequest)
    ensures
        request@.request_id == request.request_id@,
        request@.phase == request.phase,
        request@.created_at == request.created_at,
        request@.last_message_at == request.last_message_at,
        request@.consumer == request.consumer_tx,
        request@.buffer == request.replay_buffer@,
        request@.limit == request.replay_buffer_size,
{
}

/// A replay ends the stream exactly where its last message does.
pub proof fn law_replays_end_with_their_last_message(messages: Seq<StreamRelayMessage>)
    ensures
        messages.len() == 0 ==> !ends_stream(messages),
        messages.len() > 0 ==> (ends_stream(messages) <==> ending_phase(messages.last()) is Some),
{
}

/// On arrival content makes a request stream that waited for it, and an error makes it fail.
pub proof fn law_arrivals_move_the_phase(phase: RequestPhase, message: StreamRelayMessage)
    ensures
        (message is Chunk || message is ChunkBatch) && phase == RequestPhase::AwaitingStream
            ==> arrival_phase(phase, message) == RequestPhase::Streaming,
        message is ProviderError || message is TransportFailed ==> arrival_phase(phase, message)
            == RequestPhase::Failed,
        (message is Chunk || message is ChunkBatch) && phase != RequestPhase::AwaitingStream
            ==> arrival_phase(phase, message) == phase,
        message is Heartbeat || message is TransportDisconnected || message is TransportReconnected
            ==> arrival_phase(phase, message) == phase,
{
}

/// A router keeps its sizes and times, and a change of one request is a change of that
/// request alone.
pub proof fn law_routers_keep_their_settings(
    before: SessionStreamRouterActor,
    after: SessionStreamRouterActor,
    now: nat,
    id: Seq<char>,
    state: RequestState,
    other: Seq<char>,
)
    ensures
        after.cleaned(before, now) || after.only_changed(before, id, state)
            ==> after.replay_buffer_size == before.replay_buffer_size && after.request_ttl_secs
            == before.request_ttl_secs,
        after.only_changed(before, id, state) ==> after.requests@.dom().contains(id)
            && after.requests@[id]@ == state,
        after.only_changed(before, id, state) && other != id ==> (after.requests@.dom().contains(
            other,
        ) <==> before.requests@.dom().contains(other)),
        after.only_changed(before, id, state) && other != id && before.requests@.dom().contains(
            other,
        ) ==> after.requests@[other] == before.requests@[other],
{
}

/// What becomes of a message: it is offered to the consumer of its request, and the request
/// moves on with what came of that.
pub proof fn law_requests_move_on_with_the_delivery(
    before: RequestState,
    message: StreamRelayMessage,
    now: nat,
    delivery: Delivery,
    after: RequestState,
)
    requires
        delivered_or_kept(before, message, now, delivery, after),
    ensures
        delivery is NoConsumer <==> before.consumer is None,
        delivery matches Delivery::Delivered(receipt) ==> before.consumer == Some(
            receipt.consumer(),
        ) && receipt.message() == message && after.buffer == before.buffer,
        !(delivery is Delivered) ==> after.buffer.len() > 0 && after.buffer.last() == message,
        after.request_id == before.request_id,
        after.last_message_at == now,
{
}

} // verus!
