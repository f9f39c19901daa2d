//! Supervision of a locally installed sidecar service, and a registry of
//! linked remote sites whose configuration bundles are kept in sync with
//! local project directories.

pub mod archive;
pub mod connect;
pub mod deep_link;
pub mod exchange;
pub mod mcp;
pub mod opencode;
pub mod project;
pub mod sites;
pub mod slug;
pub mod text;
