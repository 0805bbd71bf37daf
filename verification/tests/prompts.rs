use querymt_agent::model::{
    AgentMode, ChatMessage, ChatRole, ContentBlock, EmbeddedResource, Media, ResourceLink,
};
use querymt_agent::turn_control::{
    now_ms, stored_millis, SteeringInbox, TurnControlError, MAX_STEERING_BYTES,
    MAX_STEERING_INPUT_BYTES, MAX_STEERING_MESSAGES,
};
use querymt_agent::utils::{
    approximate_token_count, extract_locations, format_prompt_user_text_only, len_bytes,
    locations_from, render_prompt_for_display, render_prompt_for_llm, tool_kind_for_tool,
    truncate_to_bytes, ToolKind,
};

fn text(value: &str) -> Vec<ContentBlock> {
    vec![ContentBlock::Text(value.to_string())]
}

#[test]
fn render_prompt_for_display_prefers_user_text() {
    let blocks = vec![
        ContentBlock::Text("hello".to_string()),
        ContentBlock::Text("[file: x]".to_string()),
    ];
    assert_eq!(render_prompt_for_display(&blocks), "hello");
    assert_eq!(format_prompt_user_text_only(&blocks), "hello");
}

#[test]
fn render_prompt_for_display_uses_attachment_placeholder() {
    let blocks = vec![
        ContentBlock::Text("".to_string()),
        ContentBlock::Text("[file: x]".to_string()),
    ];
    assert_eq!(render_prompt_for_display(&blocks), "(attachments included)");
}

#[test]
fn truncation_cuts_between_characters() {
    assert_eq!(truncate_to_bytes("hello", 10), "hello");
    let long = "é".repeat(40);
    let cut = truncate_to_bytes(&long, 41);
    assert!(cut.len() <= 41);
    assert_eq!(truncate_to_bytes(&cut, 41), cut);
    assert_eq!(len_bytes("é"), 2);
}

#[test]
fn prompts_for_the_model_hold_every_block() {
    let blocks = vec![
        ContentBlock::Text("look".to_string()),
        ContentBlock::ResourceLink(ResourceLink {
            name: "notes".to_string(),
            uri: "file:///notes".to_string(),
            description: Some("some notes".to_string()),
        }),
        ContentBlock::Resource(EmbeddedResource::Text {
            uri: "file:///a".to_string(),
            text: "body".to_string(),
        }),
        ContentBlock::Image(Media { data: "abcd".to_string(), mime_type: "image/png".to_string() }),
    ];
    let rendered = render_prompt_for_llm(&blocks, None);
    assert!(rendered.contains("look"));
    assert!(rendered.contains("[Resource: notes] file:///notes\nsome notes"));
    assert!(rendered.contains("[Embedded Resource: file:///a]\nbody"));
    assert!(rendered.contains("[Image] mime=image/png, bytes=4"));
    assert_eq!(render_prompt_for_llm(&text("one"), Some(100)), "one");
}

#[test]
fn four_bytes_are_about_one_token() {
    let messages = vec![
        ChatMessage { role: ChatRole::User, content: "12345678".to_string(), cache: None },
        ChatMessage { role: ChatRole::Assistant, content: "1234".to_string(), cache: None },
    ];
    assert_eq!(approximate_token_count(&messages), 3);
    assert_eq!(approximate_token_count(&Vec::new()), 1);
}

#[test]
fn tools_have_kinds() {
    assert_eq!(tool_kind_for_tool("mdq"), ToolKind::Search);
    assert_eq!(tool_kind_for_tool("apply_patch"), ToolKind::Edit);
    assert_eq!(tool_kind_for_tool("delete_file"), ToolKind::Delete);
    assert_eq!(tool_kind_for_tool("shell"), ToolKind::Execute);
    assert_eq!(tool_kind_for_tool("browse"), ToolKind::Fetch);
    assert_eq!(tool_kind_for_tool("no_such_tool"), ToolKind::Other);
}

#[test]
fn locations_come_from_the_arguments() {
    assert_eq!(extract_locations(r#"{"path":"/a"}"#), vec!["/a".to_string()]);
    assert_eq!(extract_locations(r#"{"root":"/r"}"#), vec!["/r".to_string()]);
    assert!(extract_locations(r#"{"path":7}"#).is_empty());
    assert!(extract_locations("no json").is_empty());
    assert_eq!(
        locations_from(Some("/a".to_string()), None),
        vec!["/a".to_string()]
    );
}

#[test]
fn inbox_preserves_order_and_closes_atomically() {
    let mut inbox = SteeringInbox::new();
    assert_eq!(inbox.push("a".into(), None, text("one"), 3).unwrap(), 1);
    assert_eq!(inbox.push("b".into(), None, text("two"), 3).unwrap(), 2);
    let drained = inbox.begin_closing_and_drain();
    assert_eq!(
        drained.iter().map(|item| item.input_id.as_str()).collect::<Vec<_>>(),
        vec!["a", "b"]
    );
    assert!(matches!(
        inbox.push("c".into(), None, text("three"), 5),
        Err(TurnControlError::RunClosing { .. })
    ));
}

#[test]
fn inbox_rejects_slash_commands() {
    let mut inbox = SteeringInbox::new();
    assert_eq!(
        inbox.push("a".into(), None, text(" /compact"), 9).unwrap_err(),
        TurnControlError::SlashCommandNotSteerable
    );
}

#[test]
fn inbox_has_its_limits() {
    let mut inbox = SteeringInbox::new();
    for i in 0..MAX_STEERING_MESSAGES {
        inbox.push_at(format!("i{i}"), None, text("x"), 1, 5).unwrap();
    }
    assert_eq!(inbox.pending_count(), MAX_STEERING_MESSAGES);
    assert!(inbox.push_at("more".into(), None, text("x"), 1, 5).is_err());
    assert_eq!(inbox.drain().len(), MAX_STEERING_MESSAGES);
    assert_eq!(inbox.pending_count(), 0);
    assert!(inbox
        .push_at("big".into(), None, text("x"), MAX_STEERING_INPUT_BYTES + 1, 5)
        .is_err());
    assert!(inbox.discard().is_empty());

    let mut inbox = SteeringInbox::new();
    let fitting = MAX_STEERING_BYTES / MAX_STEERING_INPUT_BYTES;
    for i in 0..fitting {
        inbox.push_at(format!("i{i}"), None, text("x"), MAX_STEERING_INPUT_BYTES, 5).unwrap();
    }
    assert!(inbox.push_at("more".into(), None, text("x"), 1, 5).is_err());
}

#[test]
fn times_are_stored_in_milliseconds() {
    assert_eq!(stored_millis(None), 0);
    assert_eq!(stored_millis(Some(12)), 12);
    assert_eq!(stored_millis(Some(u128::MAX)), u64::MAX);
    // Any clock that works is past the year 2020.
    assert!(now_ms() > 1_577_836_800_000);
}

#[test]
fn modes_have_ids() {
    assert_eq!(AgentMode::Build.as_str(), "build");
    assert_eq!(AgentMode::Plan.as_str(), "plan");
    assert_eq!(AgentMode::Review.as_str(), "review");
    assert!(!AgentMode::Build.is_read_only());
    assert!(AgentMode::Review.is_read_only());
}

#[test]
fn a_lone_attachment_has_a_placeholder() {
    let image = Media { mime_type: "image/png".to_string(), data: "AAAA".to_string() };
    assert_eq!(
        render_prompt_for_display(&vec![ContentBlock::Image(image)]),
        "(attachments included)"
    );
    assert_eq!(render_prompt_for_display(&text("  ")), "");
    assert_eq!(render_prompt_for_display(&vec![]), "");
}

#[test]
fn every_kind_of_white_space_is_trimmed() {
    let blanks = "\u{9}\u{d}\u{85}\u{a0}\u{1680}\u{2000}\u{200a}\u{2028}\u{2029}\u{202f}\u{205f}\u{3000}";
    assert_eq!(render_prompt_for_display(&text(&format!("{blanks}hi{blanks}"))), "hi");
    let zero_width = "\u{200b}";
    assert_eq!(render_prompt_for_display(&text(zero_width)), zero_width);
}
