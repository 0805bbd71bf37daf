use querymt_agent::chat::{FinishReason, StreamChunk};
use querymt_agent::delivery::{Delivery, SendOutcome};
use querymt_agent::provider_host::StreamRelayMessage;
use querymt_agent::session_stream_router::{
    message_type, terminal_request_phase, AttachStreamConsumer, DetachStreamConsumer, RequestPhase,
    RoutedRequest, RoutedStreamRelayMessage, SessionStreamRouterActor,
};
use tokio::sync::mpsc;

/// A millisecond, in nanoseconds.
const MS: u64 = 1_000_000;

fn router() -> SessionStreamRouterActor {
    SessionStreamRouterActor::new(Some(10), Some(60))
}

fn text(value: &str) -> StreamRelayMessage {
    StreamRelayMessage::Chunk(StreamChunk::Text(value.to_string()))
}

fn done() -> StreamRelayMessage {
    StreamRelayMessage::Chunk(StreamChunk::Done { finish_reason: FinishReason::Stop })
}

fn relay(router: &mut SessionStreamRouterActor, id: &str, message: StreamRelayMessage) {
    router.relay(RoutedStreamRelayMessage { request_id: id.to_string(), message }, 0);
}

/// Attaches a consumer and sends it what it has missed.
fn attach(
    router: &mut SessionStreamRouterActor,
    id: &str,
    tx: mpsc::Sender<StreamRelayMessage>,
) {
    let sender = tx.clone();
    let replay =
        router.attach(AttachStreamConsumer { request_id: id.to_string(), consumer_tx: tx }, 0);
    let mut all_sent = true;
    for message in replay.messages {
        all_sent = sender.try_send(message).is_ok() && all_sent;
    }
    router.finish_attach(id, replay.ends_stream, all_sent).unwrap();
}

fn is_text(message: &StreamRelayMessage, expected: &str) -> bool {
    matches!(message, StreamRelayMessage::Chunk(StreamChunk::Text(content)) if content == expected)
}

#[test]
fn test_register_request_creates_entry() {
    let mut router = router();
    router.register_request("test-request-1".to_string(), 0);
    let status = router.get_status(Some("test-request-1"), 0);
    assert_eq!(status.len(), 1);
    assert_eq!(status[0].request_id, "test-request-1");
    assert_eq!(status[0].phase, RequestPhase::AwaitingStream);
    assert!(!status[0].has_consumer);
    assert_eq!(status[0].buffered_messages, 0);
}

#[test]
fn test_attach_consumer_to_registered_request() {
    let mut router = router();
    router.register_request("test-request-2".to_string(), 0);
    let (tx, _rx) = mpsc::channel(100);
    attach(&mut router, "test-request-2", tx);
    assert!(router.get_status(Some("test-request-2"), 0)[0].has_consumer);
}

#[test]
fn test_attach_creates_request_if_not_registered() {
    let mut router = router();
    let (tx, mut rx) = mpsc::channel(100);
    attach(&mut router, "test-request-3", tx);
    relay(&mut router, "test-request-3", text("test"));
    assert!(is_text(&rx.try_recv().unwrap(), "test"));
}

#[test]
fn test_buffer_message_when_no_consumer() {
    let mut router = router();
    router.register_request("test-request-4".to_string(), 0);
    relay(&mut router, "test-request-4", text("buffered"));
    let status = router.get_status(Some("test-request-4"), 0);
    assert_eq!(status[0].buffered_messages, 1);
    assert_eq!(status[0].phase, RequestPhase::Streaming);
}

#[test]
fn test_buffer_overflow_evicts_oldest() {
    let mut router = SessionStreamRouterActor::new(Some(3), Some(60));
    router.register_request("test-request-5".to_string(), 0);
    for i in 0..3 {
        relay(&mut router, "test-request-5", text(&format!("msg-{i}")));
    }
    assert_eq!(router.get_status(Some("test-request-5"), 0)[0].buffered_messages, 3);
    relay(&mut router, "test-request-5", text("msg-3"));
    assert_eq!(router.get_status(Some("test-request-5"), 0)[0].buffered_messages, 3);

    let (tx, mut rx) = mpsc::channel(100);
    attach(&mut router, "test-request-5", tx);
    assert!(is_text(&rx.try_recv().unwrap(), "msg-1"));
    assert!(is_text(&rx.try_recv().unwrap(), "msg-2"));
    assert!(is_text(&rx.try_recv().unwrap(), "msg-3"));
}

#[test]
fn test_terminal_message_sets_completed_phase() {
    let mut router = router();
    router.register_request("test-request-6".to_string(), 0);
    relay(&mut router, "test-request-6", done());
    assert_eq!(router.get_status(Some("test-request-6"), 0)[0].phase, RequestPhase::Completed);
}

#[test]
fn test_error_message_sets_failed_phase() {
    let mut router = router();
    router.register_request("test-request-7".to_string(), 0);
    let error = StreamRelayMessage::ProviderError { error: "test error message".to_string() };
    relay(&mut router, "test-request-7", error);
    assert_eq!(router.get_status(Some("test-request-7"), 0)[0].phase, RequestPhase::Failed);
}

#[test]
fn test_detach_sets_consumer_disconnected_phase() {
    let mut router = router();
    router.register_request("test-request-8".to_string(), 0);
    let (tx, _rx) = mpsc::channel(100);
    attach(&mut router, "test-request-8", tx);
    router.detach(DetachStreamConsumer { request_id: "test-request-8".to_string() }, 0);
    let status = router.get_status(Some("test-request-8"), 0);
    assert_eq!(status[0].phase, RequestPhase::ConsumerDisconnected);
    assert!(!status[0].has_consumer);
}

#[test]
fn test_cleanup_removes_expired_terminal_requests() {
    let mut router = SessionStreamRouterActor::new(Some(10), Some(0));
    router.register_request("test-request-9".to_string(), 0);
    relay(&mut router, "test-request-9", done());
    router.cleanup_expired_requests(10 * MS);
    assert_eq!(router.get_status(Some("test-request-9"), 10 * MS).len(), 0);
}

#[test]
fn test_cleanup_preserves_non_terminal_requests() {
    let mut router = SessionStreamRouterActor::new(Some(10), Some(0));
    router.register_request("test-request-10".to_string(), 0);
    router.cleanup_expired_requests(10 * MS);
    assert_eq!(router.get_status(Some("test-request-10"), 10 * MS).len(), 1);
}

#[test]
fn test_consumer_slow_sets_consumer_disconnected() {
    let mut router = router();
    router.register_request("test-request-11".to_string(), 0);
    let (tx, _rx) = mpsc::channel(1);
    attach(&mut router, "test-request-11", tx);
    relay(&mut router, "test-request-11", text("first"));
    relay(&mut router, "test-request-11", text("second"));
    let status = router.get_status(Some("test-request-11"), 0);
    assert_eq!(status[0].phase, RequestPhase::ConsumerDisconnected);
    assert_eq!(status[0].buffered_messages, 1);
}

#[test]
fn test_get_status_returns_all_requests() {
    let mut router = router();
    for id in ["req-1", "req-2", "req-3"] {
        router.register_request(id.to_string(), 0);
    }
    assert_eq!(router.get_status(None, 0).len(), 3);
}

#[test]
fn test_request_phase_transitions() {
    let mut router = router();
    let id = "test-request-12";
    router.register_request(id.to_string(), 0);
    assert_eq!(router.get_status(Some(id), 0)[0].phase, RequestPhase::AwaitingStream);
    relay(&mut router, id, text("chunk"));
    assert_eq!(router.get_status(Some(id), 0)[0].phase, RequestPhase::Streaming);
    relay(&mut router, id, done());
    assert_eq!(router.get_status(Some(id), 0)[0].phase, RequestPhase::Completed);
}

#[test]
fn test_terminal_chunk_direct_delivery_closes_consumer() {
    let mut router = SessionStreamRouterActor::new(None, None);
    let (tx, mut rx) = mpsc::channel(8);
    attach(&mut router, "req-terminal-chunk", tx);
    relay(&mut router, "req-terminal-chunk", done());
    assert!(matches!(
        rx.try_recv().expect("should receive terminal message"),
        StreamRelayMessage::Chunk(StreamChunk::Done { finish_reason: FinishReason::Stop })
    ));
    assert_eq!(rx.try_recv(), Err(mpsc::error::TryRecvError::Disconnected));
}

#[test]
fn test_terminal_chunk_batch_direct_delivery_closes_consumer() {
    let mut router = SessionStreamRouterActor::new(None, None);
    let (tx, mut rx) = mpsc::channel(8);
    attach(&mut router, "req-terminal-batch", tx);
    let batch = StreamRelayMessage::ChunkBatch(vec![
        StreamChunk::Text("thinking...".to_string()),
        StreamChunk::Done { finish_reason: FinishReason::ToolCalls },
    ]);
    relay(&mut router, "req-terminal-batch", batch);
    assert!(matches!(
        rx.try_recv().expect("should receive batch"),
        StreamRelayMessage::ChunkBatch(chunks) if chunks.len() == 2
    ));
    assert_eq!(rx.try_recv(), Err(mpsc::error::TryRecvError::Disconnected));
}

#[test]
fn test_terminal_chunk_batch_sets_completed_not_failed() {
    let mut router = router();
    let id = "req-batch-phase";
    router.register_request(id.to_string(), 0);
    let (tx, mut rx) = mpsc::channel(8);
    attach(&mut router, id, tx);
    let batch = StreamRelayMessage::ChunkBatch(vec![
        StreamChunk::Text("hello".to_string()),
        StreamChunk::Done { finish_reason: FinishReason::Stop },
    ]);
    relay(&mut router, id, batch);
    let status = router.get_status(Some(id), 0);
    assert_eq!(status[0].phase, RequestPhase::Completed);
    assert!(!status[0].has_consumer);
    let _ = rx.try_recv();
    assert!(rx.try_recv().is_err(), "channel should be closed");
}

#[test]
fn test_terminal_buffered_replay_closes_consumer() {
    let mut router = SessionStreamRouterActor::new(None, None);
    let id = "req-buffered-terminal";
    relay(&mut router, id, text("hello"));
    relay(&mut router, id, done());
    let (tx, mut rx) = mpsc::channel(8);
    attach(&mut router, id, tx);
    assert!(is_text(&rx.try_recv().expect("should receive text chunk"), "hello"));
    assert!(matches!(
        rx.try_recv().expect("should receive Done"),
        StreamRelayMessage::Chunk(StreamChunk::Done { .. })
    ));
    assert_eq!(rx.try_recv(), Err(mpsc::error::TryRecvError::Disconnected));
}

#[test]
fn requests_tell_how_they_stand() {
    let mut request = RoutedRequest::new("r".to_string(), 2, 5 * MS);
    assert!(!request.is_terminal());
    request.deliver_or_buffer(text("x"), 7 * MS);
    let status = request.status(9 * MS);
    assert_eq!(status.created_at_elapsed_ms, 4);
    assert_eq!(status.last_message_at_elapsed_ms, 2);
    let (tx, rx) = mpsc::channel(1);
    assert_eq!(request.attach(tx).len(), 1);
    drop(rx);
    request.deliver_or_buffer(text("y"), 9 * MS);
    assert_eq!(request.status(9 * MS).buffered_messages, 1);
    assert!(!request.status(9 * MS).has_consumer);
    request.detach();
    assert_eq!(request.status(9 * MS).phase, RequestPhase::ConsumerDisconnected);
}

#[test]
fn messages_are_told_apart() {
    assert_eq!(terminal_request_phase(&done()), Some(RequestPhase::Completed));
    assert_eq!(terminal_request_phase(&text("x")), None);
    assert_ne!(message_type(&text("x")), "");
    assert_eq!(RequestPhase::Completed.as_str(), "completed");
}

#[test]
fn finished_requests_stay_finished_and_expire() {
    let mut router = SessionStreamRouterActor::new(Some(10), Some(1));
    let id = "req-finished";
    relay(&mut router, id, text("hello"));
    relay(&mut router, id, done());
    let (tx, mut rx) = mpsc::channel(8);
    attach(&mut router, id, tx);
    let status = router.get_status(Some(id), 0);
    assert_eq!(status[0].phase, RequestPhase::Completed);
    assert_eq!(status[0].buffered_messages, 0);
    assert!(is_text(&rx.try_recv().unwrap(), "hello"));
    router.cleanup_expired_requests(500 * MS);
    assert_eq!(router.get_status(Some(id), 500 * MS).len(), 1);
    router.cleanup_expired_requests(2000 * MS);
    assert_eq!(router.get_status(Some(id), 2000 * MS).len(), 0);
}

#[test]
fn a_replay_that_breaks_off_leaves_a_finished_request_finished() {
    let mut router = router();
    let id = "req-broken";
    relay(&mut router, id, done());
    let (tx, _rx) = mpsc::channel(8);
    let replay =
        router.attach(AttachStreamConsumer { request_id: id.to_string(), consumer_tx: tx }, 0);
    assert_eq!(replay.messages.len(), 1);
    assert!(router.finish_attach(id, replay.ends_stream, false).is_err());
    let status = router.get_status(Some(id), 0);
    assert_eq!(status[0].phase, RequestPhase::Completed);
    assert!(!status[0].has_consumer);
}

#[test]
fn receipts_come_with_delivery_alone() {
    let mut request = RoutedRequest::new("r".to_string(), 2, 0);
    assert!(matches!(request.deliver_or_buffer(text("kept"), 0), Delivery::NoConsumer));
    assert!(request.offer(text("nobody")).is_err());
    let (tx, mut rx) = mpsc::channel(1);
    assert_eq!(request.attach(tx).len(), 1);
    assert!(request.offer(text("somebody")).is_ok());
    assert!(matches!(request.deliver_or_buffer(text("taken"), 0), Delivery::Delivered(_)));
    assert!(matches!(request.deliver_or_buffer(text("no room"), 0), Delivery::Full(_)));
    assert!(is_text(&rx.try_recv().unwrap(), "taken"));
    assert!(rx.try_recv().is_err());
    drop(rx);
    assert!(matches!(request.deliver_or_buffer(text("gone"), 0), Delivery::Closed(_)));
    assert!(matches!(request.deliver_or_buffer(text("kept"), 0), Delivery::NoConsumer));
}

#[test]
fn offers_are_sent_or_handed_back() {
    let mut request = RoutedRequest::new("r".to_string(), 2, 0);
    let (tx, mut rx) = mpsc::channel(1);
    request.attach(tx);
    let offer = |m: &str| request.offer(text(m)).unwrap().send();
    assert!(matches!(offer("first"), SendOutcome::Delivered(_)));
    assert!(matches!(offer("second"), SendOutcome::Full(m, _) if is_text(&m, "second")));
    assert!(is_text(&rx.try_recv().unwrap(), "first"));
    drop(rx);
    assert!(matches!(offer("third"), SendOutcome::Closed(m, _) if is_text(&m, "third")));
}
