//! Verified core of the AegisForge security research engine: the prompt
//! injection sanitizer, the port-scan request policy, the scan counters and
//! the sandbox command line.
//!
//! The MCP server and the desktop shell around this crate do the I/O (the
//! TCP probes, the process runs, the protocol transport); every decision on
//! what may run and every transformation of untrusted text is here.

pub mod error;
pub mod ip;
pub mod plugins;
pub mod recon;
pub mod recon_tool;
pub mod sandbox;
pub mod sanitizer;
pub mod state;
pub mod text;
pub mod tool_error;
