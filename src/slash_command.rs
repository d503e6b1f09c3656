//! Slash commands typed into the prompt, and how the advanced palette
//! matches them.
use vstd::prelude::*;

verus! {

/// A slash command with its argument, where it takes one.
#[derive(Debug, Clone, PartialEq)]
pub enum SlashCommand {
    /// `/task <name>`
    Task(String),
    /// `/agent <name>`
    Agent(String),
    /// `/model <name>`
    Model(String),
    Context,
    Memory,
    History,
    Edit,
    Find,
    Replace,
    Format,
    Clear,
    Settings,
    Help,
    Shortcuts,
    /// `/goto <file:line>`
    Goto(String),
    /// `/open <file>`
    Open(String),
    Close,
    /// Any other `/<name>`.
    Custom(String),
}

/// A slash command as the palette lists it: its name, aliases, description,
/// arguments and examples.
#[derive(Debug, Clone)]
pub struct SlashCommandDefinition {
    pub command: String,
    pub alias: Vec<String>,
    pub description: String,
    pub category: SlashCategory,
    pub action: SlashCommand,
    pub arguments: Vec<ArgumentDef>,
    pub examples: Vec<String>,
}

/// The groups of slash commands.
#[derive(Debug, Clone, Copy, PartialEq, Eq, Structural)]
pub enum SlashCategory {
    Agent,
    Editor,
    System,
    Navigation,
    Custom,
}

/// One argument of a slash command.
#[derive(Debug, Clone)]
pub struct ArgumentDef {
    pub name: String,
    pub required: bool,
    pub description: String,
    pub default: Option<String>,
}

/// What the advanced palette is taking input for.
#[derive(Debug, Clone, Copy, PartialEq, Eq, Structural)]
pub enum PaletteMode {
    /// The command itself.
    Command,
    /// An argument of the chosen command.
    Argument,
    /// Showing results.
    Results,
}

/// How a query matched a command.
#[derive(Debug, Clone, Copy, PartialEq, Eq, Structural)]
pub enum MatchType {
    Exact,
    Prefix,
    Fuzzy,
    Contains,
}

} // verus!
