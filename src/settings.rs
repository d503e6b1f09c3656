//! The settings of the workbench, by section.
use vstd::prelude::*;
use crate::theme::ThemeName;

verus! {

/// General behaviour.
#[derive(Debug, Clone, Default)]
pub struct GeneralSettings {
    pub auto_save: bool,
    /// Seconds between automatic saves.
    pub save_interval: u64,
    pub max_history: usize,
    pub log_level: String,
    pub confirm_exit: bool,
    pub startup_session: String,
}

/// Appearance.
#[derive(Debug, Clone, Default)]
pub struct UiSettings {
    pub theme: ThemeName,
    pub show_line_numbers: bool,
    pub show_whitespace: bool,
    pub tab_width: u8,
    pub font_size: u8,
    pub status_bar_position: String,
    pub sidebar_width: u16,
    pub animations: bool,
}

/// How agents run.
#[derive(Debug, Clone, Default)]
pub struct AgentSettings {
    pub default_agent: String,
    pub max_concurrent_tasks: usize,
    pub timeout_seconds: u64,
    pub retry_count: u8,
    pub auto_plan: bool,
    pub confirmation_required: bool,
    /// Seconds a tool may run.
    pub tool_timeout: u64,
}

/// Language-server support.
#[derive(Debug, Clone, Default)]
pub struct LspSettings {
    pub enabled: bool,
    pub auto_start: bool,
    pub diagnostics: bool,
    pub completion: bool,
    pub hover: bool,
    pub servers: Vec<LspServerConfig>,
}

/// How to start the language server of one language.
#[derive(Debug, Clone, Default)]
pub struct LspServerConfig {
    pub name: String,
    pub language: String,
    pub command: String,
    pub args: Vec<String>,
}

/// Agent memory.
#[derive(Debug, Clone, Default)]
pub struct MemorySettings {
    pub short_term_limit: usize,
    pub long_term_enabled: bool,
    pub compression: bool,
    pub auto_prune: bool,
    /// Seconds between prunes.
    pub prune_interval: u64,
}

/// The tabs of the settings page.
#[derive(Debug, Clone, Copy, PartialEq, Eq, Structural)]
pub enum SettingsTab {
    General,
    UI,
    Keyboard,
    Agent,
    Model,
    LSP,
    Memory,
    About,
}

} // verus!
