//! Plugin metadata.
//!
//! Each tool area implements a plugin that is registered at startup and
//! dispatched by name; the dispatch itself lives in the application shell.

use vstd::prelude::*;

verus! {

/// The name, version and description of a plugin.
#[derive(Debug, Clone, Copy)]
pub struct PluginInfo {
    pub name: &'static str,
    pub version: &'static str,
    pub description: &'static str,
}

} // verus!
