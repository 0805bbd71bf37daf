use querymt_agent::chat::{FinishReason, FunctionCall, StreamChunk, ToolCall, Usage};
use querymt_agent::provider_host::{
    finish_reason_name, keep_stream_message_buffered, merge_params, params_for_remote_provider,
    relay_message_is_terminal,
    should_ack_relay_message, ProviderChatResponse, ProviderStreamPhase, StreamRelayMessage,
};
use querymt_agent::string_map::StringMap;

fn empty() -> ProviderChatResponse {
    ProviderChatResponse {
        text: None,
        thinking: None,
        tool_calls: vec![],
        usage: None,
        finish_reason: None,
    }
}

#[test]
fn test_provider_chat_response_text_roundtrip() {
    let resp = ProviderChatResponse {
        text: Some("hello world".to_string()),
        finish_reason: Some("Stop".to_string()),
        ..empty()
    };
    assert_eq!(resp.text(), Some("hello world".to_string()));
}

#[test]
fn test_provider_chat_response_tool_calls_empty_is_none() {
    assert!(empty().tool_calls().is_none(), "empty tool_calls vec should yield None");
}

#[test]
fn test_provider_chat_response_finish_reason_all_variants() {
    let cases: &[(FinishReason, &str)] = &[
        (FinishReason::Stop, "Stop"),
        (FinishReason::Length, "Length"),
        (FinishReason::ContentFilter, "ContentFilter"),
        (FinishReason::ToolCalls, "ToolCalls"),
        (FinishReason::Error, "Error"),
        (FinishReason::Other, "Other"),
    ];
    for (variant, expected_str) in cases {
        let serialized = format!("{:?}", variant);
        assert_eq!(&serialized, expected_str);
        assert_eq!(finish_reason_name(*variant), *expected_str);
        let resp = ProviderChatResponse {
            finish_reason: Some(expected_str.to_string()),
            ..empty()
        };
        let roundtripped = resp.finish_reason().expect("should be Some");
        assert_eq!(format!("{:?}", roundtripped), format!("{:?}", variant));
    }
}

#[test]
fn test_provider_chat_response_unknown_finish_reason() {
    let resp = ProviderChatResponse {
        finish_reason: Some("GibberishReason".to_string()),
        ..empty()
    };
    let reason = resp.finish_reason().expect("should be Some");
    assert_eq!(format!("{:?}", reason), format!("{:?}", FinishReason::Unknown));
}

#[test]
fn test_provider_chat_response_display_impl() {
    let with_text = ProviderChatResponse { text: Some("my response".to_string()), ..empty() };
    assert_eq!(with_text.display(), "my response");
    assert_eq!(empty().display(), "[no text]");
}

#[test]
fn test_provider_chat_response_tool_calls_nonempty_is_some() {
    let tc = ToolCall {
        id: "call-1".to_string(),
        call_type: "function".to_string(),
        function: FunctionCall { name: "my_tool".to_string(), arguments: "{}".to_string() },
    };
    let resp = ProviderChatResponse { tool_calls: vec![tc.clone()], ..empty() };
    let returned = resp.tool_calls().expect("should be Some");
    assert_eq!(returned.len(), 1);
    assert_eq!(returned[0].function.name, "my_tool");
}

#[test]
fn responses_hand_out_thinking_and_usage() {
    let usage = Usage {
        input_tokens: 10,
        output_tokens: 5,
        reasoning_tokens: 0,
        cache_read: 0,
        cache_write: 0,
    };
    let resp = ProviderChatResponse {
        thinking: Some("some thought".to_string()),
        usage: Some(usage),
        ..empty()
    };
    assert_eq!(resp.thinking(), Some("some thought".to_string()));
    assert_eq!(resp.usage().map(|u| u.input_tokens), Some(10));
    assert!(resp.finish_reason().is_none());
}

#[test]
fn test_should_ack_relay_message_uses_window_for_chunk_batches() {
    let chunk = StreamRelayMessage::Chunk(StreamChunk::Text("hello".to_string()));
    assert!(!should_ack_relay_message(&chunk, 0, 5, 8, 40));
    assert!(should_ack_relay_message(&chunk, 8, 5, 8, 40));
    assert!(should_ack_relay_message(&chunk, 0, 40, 8, 40));

    let done =
        StreamRelayMessage::Chunk(StreamChunk::Done { finish_reason: FinishReason::Stop });
    assert!(should_ack_relay_message(&done, 0, 0, 8, 40));

    let heartbeat = StreamRelayMessage::Heartbeat {
        phase: ProviderStreamPhase::Streaming,
        elapsed_ms: 100,
        idle_ms: 10,
        chunk_count: 2,
    };
    assert!(should_ack_relay_message(&heartbeat, 0, 0, 8, 40));
}

#[test]
fn test_keep_stream_message_buffered_excludes_reconnect_signals() {
    assert!(!keep_stream_message_buffered(&StreamRelayMessage::Heartbeat {
        phase: ProviderStreamPhase::Streaming,
        elapsed_ms: 100,
        idle_ms: 50,
        chunk_count: 5,
    }));
    assert!(!keep_stream_message_buffered(&StreamRelayMessage::TransportDisconnected {
        reason: "test".to_string(),
    }));
    assert!(!keep_stream_message_buffered(&StreamRelayMessage::TransportReconnected {
        buffered_chunks: 3
    }));
    assert!(keep_stream_message_buffered(&StreamRelayMessage::Chunk(StreamChunk::Text(
        "hi".to_string()
    ))));
    assert!(keep_stream_message_buffered(&StreamRelayMessage::ProviderError {
        error: "fail".to_string(),
    }));
    assert!(keep_stream_message_buffered(&StreamRelayMessage::TransportFailed {
        error: "grace expired".to_string(),
    }));
}

#[test]
fn test_relay_message_is_terminal_includes_transport_failed() {
    let msg = StreamRelayMessage::TransportFailed { error: "reconnect grace expired".to_string() };
    assert!(relay_message_is_terminal(&msg));
}

fn params(entries: &[(&str, &str)]) -> StringMap<String> {
    let mut map = StringMap::new();
    for (name, value) in entries {
        map.insert(name.to_string(), value.to_string());
    }
    map
}

#[test]
fn test_params_for_remote_provider_includes_system_prompt() {
    let llm = params(&[
        ("provider", "\"llama_cpp\""),
        ("model", "\"test-model\""),
        ("system", "[\"You are a code expert.\"]"),
        ("n_ctx", "32768"),
    ]);
    let obj = params_for_remote_provider(&llm).expect("params should not be empty");
    assert_eq!(
        obj.get("system").map(|v| v.as_str()),
        Some("[\"You are a code expert.\"]")
    );
    assert_eq!(obj.get("n_ctx").map(|v| v.as_str()), Some("32768"));
    assert!(!obj.contains_key("provider"), "provider must be excluded");
    assert!(!obj.contains_key("model"), "model must be excluded");
    assert!(!obj.contains_key("api_key"), "api_key must be excluded");
    assert!(!obj.contains_key("name"), "name must be excluded");
}

#[test]
fn test_params_for_remote_provider_empty_when_no_extra_fields() {
    let llm = params(&[("provider", "\"openai\""), ("model", "\"gpt-4\"")]);
    assert!(
        params_for_remote_provider(&llm).is_none(),
        "params should be None when only provider/model are set"
    );
}

#[test]
fn test_params_for_remote_provider_strips_api_key() {
    let llm = params(&[
        ("provider", "\"anthropic\""),
        ("model", "\"sonnet-4-20250514\""),
        ("api_key", "\"sk-secret-123\""),
        ("system", "[\"Be helpful.\"]"),
    ]);
    let obj = params_for_remote_provider(&llm).expect("params should not be empty");
    assert!(!obj.contains_key("api_key"), "api_key must never be forwarded");
    assert!(obj.contains_key("system"), "system should be present");
}

#[test]
fn test_merge_params_request_overrides_host_defaults() {
    let host = params(&[
        ("n_ctx", "32768"),
        ("temperature", "0.7"),
        ("model", "\"hf:owner/repo:model.gguf\""),
    ]);
    let request = params(&[("system", "[\"You are a delegate.\"]"), ("temperature", "0.3")]);

    let merged = merge_params(Some(&request), Some(&host)).expect("should merge");
    assert_eq!(merged.get("temperature").map(|v| v.as_str()), Some("0.3"));
    assert_eq!(merged.get("n_ctx").map(|v| v.as_str()), Some("32768"));
    assert!(merged.contains_key("system"));
    assert!(merged.contains_key("model"));
}

#[test]
fn test_merge_params_strips_api_key_from_request() {
    let request = params(&[("api_key", "\"sk-secret-123\""), ("system", "[\"prompt\"]")]);
    let merged = merge_params(Some(&request), None).expect("should merge");
    assert!(!merged.contains_key("api_key"));
    assert!(merged.contains_key("system"));
}

#[test]
fn test_merge_params_strips_remote_transport_metadata_from_request() {
    let request = params(&[("_remote_session_id", "\"session-123\""), ("temperature", "0.2")]);
    let merged = merge_params(Some(&request), None).expect("should merge");
    assert!(!merged.contains_key("_remote_session_id"));
    assert_eq!(merged.get("temperature").map(|v| v.as_str()), Some("0.2"));
}

#[test]
fn test_merge_params_both_none_returns_none() {
    assert!(merge_params(None, None).is_none());
}

#[test]
fn test_merge_params_host_only() {
    let host = params(&[("n_ctx", "32768")]);
    let merged = merge_params(None, Some(&host)).expect("should return host defaults");
    assert_eq!(merged.len(), 1);
    assert_eq!(merged.get("n_ctx").map(|v| v.as_str()), Some("32768"));
}

#[test]
fn hosts_keep_their_own_key() {
    let host = params(&[("api_key", "\"host-key\"")]);
    let request = params(&[("api_key", "\"caller-key\"")]);
    let merged = merge_params(Some(&request), Some(&host)).expect("should merge");
    assert_eq!(merged.get("api_key").map(|v| v.as_str()), Some("\"host-key\""));
}
