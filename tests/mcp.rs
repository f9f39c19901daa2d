use wordforge_desktop::mcp::{McpError, McpSidecar};

#[test]
fn command_for_config_is_relative_binary() {
    assert_eq!(McpSidecar::get_command_for_config(false), vec!["./.opencode/wordforge-mcp"]);
    assert_eq!(McpSidecar::get_command_for_config(true), vec!["./.opencode/wordforge-mcp.exe"]);
    assert_eq!(McpSidecar::binary_name(false), "wordforge-mcp");
    assert_eq!(McpSidecar::binary_name(true), "wordforge-mcp.exe");
}

#[test]
fn availability_and_copy_decision() {
    assert!(McpSidecar::is_available(&Ok("/opt/app/wordforge-mcp".to_string())));
    assert!(!McpSidecar::is_available(&Err(McpError::SidecarNotFound)));
    assert!(McpSidecar::needs_copy(10, None));
    assert!(McpSidecar::needs_copy(10, Some(9)));
    assert!(!McpSidecar::needs_copy(10, Some(10)));
    assert_eq!(McpError::SidecarNotFound.message(), "MCP sidecar not found at expected location");
}
