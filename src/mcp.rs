//! The bundled MCP helper binary that projects run next to the sidecar.

use vstd::prelude::*;

verus! {

/// Failures in locating or copying the helper.
#[derive(Debug, Clone, PartialEq, Eq)]
pub enum McpError {
    SidecarNotFound,
    Io(String),
    PathResolutionFailed,
}

impl McpError {
    /// The human-readable text of the error.
    pub fn message(&self) -> (r: String)
        ensures
            r@ == match self {
                McpError::SidecarNotFound => "MCP sidecar not found at expected location"@,
                McpError::Io(d) => "IO error: "@ + d@,
                McpError::PathResolutionFailed => "Failed to resolve sidecar path"@,
            },
    {
        match self {
            McpError::SidecarNotFound => String::from_str("MCP sidecar not found at expected location"),
            McpError::Io(d) => {
                let mut r = String::from_str("IO error: ");
                r.append(d.as_str());
                r
            },
            McpError::PathResolutionFailed => String::from_str("Failed to resolve sidecar path"),
        }
    }
}

/// The helper binary shipped beside the program.
pub struct McpSidecar;

impl McpSidecar {
    /// The helper's file name on Windows or elsewhere.
    pub fn binary_name(windows: bool) -> (r: &'static str)
        ensures
            r@ == if windows {
                "wordforge-mcp.exe"@
            } else {
                "wordforge-mcp"@
            },
    {
        if windows {
            "wordforge-mcp.exe"
        } else {
            "wordforge-mcp"
        }
    }

    /// Whether the helper was found, given the outcome of looking for it.
    pub fn is_available(lookup: &Result<String, McpError>) -> (r: bool)
        ensures
            r == lookup is Ok,
    {
        lookup.is_ok()
    }

    /// Whether the helper must be copied into a project: always, unless a copy
    /// of the same size is already there.
    pub fn needs_copy(source_len: u64, existing_len: Option<u64>) -> (r: bool)
        ensures
            r == match existing_len {
                Some(n) => n != source_len,
                None => true,
            },
    {
        match existing_len {
            Some(n) => n != source_len,
            None => true,
        }
    }

    /// The command that a project's configuration runs the helper with, a
    /// path relative to the project directory.
    pub fn get_command_for_config(windows: bool) -> (r: Vec<String>)
        ensures
            r@.len() == 1,
            r@[0]@ == if windows {
                "./.opencode/wordforge-mcp.exe"@
            } else {
                "./.opencode/wordforge-mcp"@
            },
    {
        let binary = if windows {
            "./.opencode/wordforge-mcp.exe"
        } else {
            "./.opencode/wordforge-mcp"
        };
        let mut r: Vec<String> = Vec::new();
        r.push(String::from_str(binary));
        r
    }
}

} // verus!
