use policy_mcp::{PolicyTools, SERVER_INSTRUCTIONS};

#[test]
fn get_info_gives_instructions_and_tools() {
    let profile = PolicyTools.get_info();
    assert_eq!(profile.instructions.as_deref(), Some(SERVER_INSTRUCTIONS));
    assert!(profile.tools_enabled);
    assert!(SERVER_INSTRUCTIONS.starts_with("Policy Engine MCP server — evaluate"));
    assert!(SERVER_INSTRUCTIONS.contains("explain_rule to understand the structure of a rule."));
}

#[test]
fn reply_passes_json_through() {
    let text = PolicyTools::reply(Ok("{\"valid\":true,\"error\":null}".to_string()));
    assert_eq!(text, "{\"valid\":true,\"error\":null}");
}

#[test]
fn reply_wraps_error_message() {
    let text = PolicyTools::reply(Err("key must be a string".to_string()));
    assert_eq!(text, "{\"error\":\"key must be a string\"}");
}
