//! Tasks, sessions and the agents that work on them: their states and
//! counters.
use vstd::prelude::*;
use vstd::string::*;

verus! {

/// Where a task is in its life cycle.
#[derive(Debug, Clone, Copy, PartialEq, Eq, Structural)]
pub enum TaskStatus {
    Pending,
    InProgress,
    Paused,
    Completed,
    Failed,
    Cancelled,
}

/// How urgent a task is, from low to critical.
#[derive(Debug, Clone, Copy, PartialEq, Eq, PartialOrd, Ord, Structural)]
pub enum Priority {
    Low,
    Medium,
    High,
    Critical,
}

/// Whether a session runs in front, behind, is paused or is over.
#[derive(Debug, Clone, Copy, PartialEq, Eq, Structural)]
pub enum SessionState {
    Active,
    Background,
    Paused,
    Terminated,
}

/// Where a step of a task is.
#[derive(Debug, Clone, Copy, PartialEq, Eq, Structural)]
pub enum StepStatus {
    Pending,
    /// Its dependencies are complete.
    Ready,
    InProgress,
    Completed,
    Failed,
    Skipped,
}

impl Default for StepStatus {
    /// `Pending`.
    fn default() -> (r: StepStatus)
        ensures
            r == StepStatus::Pending,
    {
        StepStatus::Pending
    }
}

/// What an agent working on a task is doing.
#[derive(Debug, Clone, Copy, PartialEq, Eq, Structural)]
pub enum AgentState {
    Idle,
    Thinking,
    Acting,
    Waiting,
}

/// What a task works from: files, messages, goals, constraints and the
/// expected form of its output.
#[derive(Debug, Clone)]
pub struct TaskContext {
    pub files: Vec<String>,
    pub messages: Vec<String>,
    pub goals: Vec<String>,
    pub constraints: Vec<String>,
    pub output_format: Option<String>,
}

impl Default for TaskContext {
    /// Nothing at all.
    fn default() -> (r: TaskContext)
        ensures
            r.files@.len() == 0,
            r.messages@.len() == 0,
            r.goals@.len() == 0,
            r.constraints@.len() == 0,
            r.output_format is None,
    {
        TaskContext {
            files: Vec::new(),
            messages: Vec::new(),
            goals: Vec::new(),
            constraints: Vec::new(),
            output_format: None,
        }
    }
}

/// Counts of tasks by status, of steps, and of queued tasks.
#[derive(Debug, Clone, Copy, Default, PartialEq, Eq, Structural)]
pub struct TaskStats {
    pub total_tasks: usize,
    pub pending: usize,
    pub in_progress: usize,
    pub paused: usize,
    pub completed: usize,
    pub failed: usize,
    pub cancelled: usize,
    pub total_steps: usize,
    pub completed_steps: usize,
    pub queue_size: usize,
}

/// What the interface shows and how large.
#[derive(Debug, Clone)]
pub struct UiSettings {
    pub show_sidebar: bool,
    pub show_status_bar: bool,
    pub show_tabs: bool,
    pub sidebar_width: u16,
    pub terminal_height: u16,
    pub font_size: u16,
    pub theme: String,
}

impl Default for UiSettings {
    /// Everything shown, a 25-column sidebar, a 20-line terminal, 14-point
    /// text and the `DarkPlus` theme.
    fn default() -> (r: UiSettings)
        ensures
            r.show_sidebar && r.show_status_bar && r.show_tabs,
            r.sidebar_width == 25,
            r.terminal_height == 20,
            r.font_size == 14,
            r.theme@ == "DarkPlus"@,
    {
        UiSettings {
            show_sidebar: true,
            show_status_bar: true,
            show_tabs: true,
            sidebar_width: 25,
            terminal_height: 20,
            font_size: 14,
            theme: String::from_str("DarkPlus"),
        }
    }
}

} // verus!
