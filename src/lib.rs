//! Sandboxed skill execution: a registry of compiled WebAssembly skills, the
//! capability host ABI that guests call back into, and the invocation host
//! that runs one skill in a fresh, isolated context. Around it stand the plain
//! data types and state machines of the agent workbench that uses it.
use vstd::prelude::*;

pub mod text;
pub mod types;
pub mod graph;
pub mod host_abi;
pub mod sandbox;
pub mod registry;
pub mod plugin_engine;
pub mod project_scanner;
pub mod lsp;
pub mod theme;
pub mod views;
pub mod models;
pub mod sidebar;
pub mod settings;
pub mod command_palette;
pub mod command_manager;
pub mod agents;
pub mod keyboard;
pub mod tasks;
pub mod sessions;
pub mod slash_command;

verus! {

} // verus!
