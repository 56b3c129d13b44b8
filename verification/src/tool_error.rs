//! Errors that the MCP tool layer reports back to the protocol client.

use vstd::prelude::*;

verus! {

/// A protocol-level failure of a tool call: the two kinds that the MCP
/// server reports, each with its human-readable message.
#[derive(Debug, Clone)]
pub enum ToolError {
    /// The caller's parameters were rejected.
    InvalidParams(String),
    /// The server failed on its own side.
    InternalError(String),
}

} // verus!
