use querymt_agent::tools::{
    is_mcp_tool_allowed_with, is_tool_allowed_with, ToolConfig, ToolPolicy,
};

fn config_with(allow: &[&str]) -> ToolConfig {
    ToolConfig {
        policy: ToolPolicy::BuiltInAndProvider,
        allowlist: Some(allow.iter().map(|s| (*s).to_string()).collect()),
        denylist: Vec::new(),
    }
}

#[test]
fn specific_mcp_selector_is_server_scoped() {
    let config = config_with(&["alpha.lookup"]);
    assert!(is_mcp_tool_allowed_with(&config, "lookup", Some("alpha")));
    assert!(!is_mcp_tool_allowed_with(&config, "lookup", Some("beta")));
    assert!(!is_tool_allowed_with(&config, "lookup"));
}

#[test]
fn wildcard_selector_is_server_scoped() {
    let config = config_with(&["alpha.*"]);
    assert!(is_mcp_tool_allowed_with(&config, "lookup", Some("alpha")));
    assert!(is_mcp_tool_allowed_with(&config, "anything", Some("alpha")));
    assert!(!is_mcp_tool_allowed_with(&config, "lookup", Some("beta")));
    assert!(!is_tool_allowed_with(&config, "lookup"));
}

#[test]
fn bare_builtin_entry_does_not_admit_mcp_tool() {
    let config = config_with(&["lookup"]);
    assert!(is_tool_allowed_with(&config, "lookup"));
    assert!(!is_mcp_tool_allowed_with(&config, "lookup", Some("alpha")));
}

#[test]
fn denylist_stops_mcp_tools_before_allowlist() {
    let mut config = config_with(&["alpha.*"]);
    config.denylist.push("lookup".to_string());
    assert!(!is_mcp_tool_allowed_with(&config, "lookup", Some("alpha")));
    assert!(is_mcp_tool_allowed_with(&config, "other", Some("alpha")));
}

#[test]
fn missing_allowlist_admits_all_tools() {
    let config = ToolConfig {
        policy: ToolPolicy::BuiltInAndProvider,
        allowlist: None,
        denylist: Vec::new(),
    };
    assert!(is_tool_allowed_with(&config, "shell"));
    assert!(is_mcp_tool_allowed_with(&config, "lookup", Some("alpha")));
}

#[test]
fn denied_tools_stay_denied_even_if_listed() {
    let mut config = config_with(&["shell"]);
    config.denylist.push("shell".to_string());
    assert!(!is_tool_allowed_with(&config, "shell"));
}
