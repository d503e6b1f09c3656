//! The command manager: the registered commands, by id, and the palette
//! that lists them.
use vstd::prelude::*;
use vstd::string::*;
use crate::command_palette::{listed, same_command, Command, CommandAction, CommandCategory, CommandPaletteState};
use crate::text::{lower_of, owned, push_char};

verus! {

/// The ids of a list of commands, in order.
pub open spec fn command_ids(cmds: Seq<Command>) -> Seq<Seq<char>> {
    cmds.map_values(|c: Command| c.id@)
}

/// The ids of the built-in commands, in registration order.
pub open spec fn default_ids() -> Seq<Seq<char>> {
    seq![
        "command_palette"@,
        "quick_open"@,
        "goto_line"@,
        "new_task"@,
        "list_tasks"@,
        "new_session"@,
        "switch_session"@,
        "close_session"@,
        "toggle_sidebar"@,
        "toggle_terminal"@,
        "save_file"@,
        "settings"@,
        "help"@,
        "import_model"@,
        "list_models"@,
        "view_memory"@,
        "view_history"@,
    ]
}

/// A key press as the palette sees it.
#[derive(Debug, Clone, Copy, PartialEq, Eq, Structural)]
pub enum PaletteKey {
    Esc,
    Up,
    Down,
    Enter,
    Backspace,
    /// A character key, and whether Control alone was held with it.
    Char { c: char, control: bool },
    Other,
}

/// A command made from literals.
fn make_command(
    id: &str,
    title: &str,
    category: CommandCategory,
    shortcut: Option<&str>,
    description: &str,
    keywords: &[&str],
    action: CommandAction,
) -> (r: Command)
    ensures
        r.id@ == id@,
        r.title@ == title@,
        r.category == category,
        r.description@ == description@,
        r.action == action,
{
    let mut words: Vec<String> = Vec::new();
    let mut i: usize = 0;
    while i < keywords.len()
        invariant
            i <= keywords@.len(),
        decreases keywords@.len() - i,
    {
        words.push(owned(keywords[i]));
        i = i + 1;
    }
    let shortcut = match shortcut {
        Some(s) => Some(owned(s)),
        None => None,
    };
    Command {
        id: owned(id),
        title: owned(title),
        category,
        shortcut,
        description: owned(description),
        keywords: words,
        action,
    }
}

/// The built-in commands, in registration order.
fn default_commands() -> (r: Vec<Command>)
    ensures
        command_ids(r@) == default_ids(),
{
    let mut commands: Vec<Command> = Vec::new();
    commands.push(make_command(
        "command_palette",
        "Command Palette",
        CommandCategory::Navigation,
        Some("Ctrl+N"),
        "Open command palette for quick access",
        &["search", "run", "execute", "palette"],
        CommandAction::OpenCommandPalette,
    ));
    commands.push(make_command(
        "quick_open",
        "Quick Open",
        CommandCategory::Navigation,
        Some("Ctrl+O"),
        "Quickly open files or commands",
        &["open", "file", "search", "goto"],
        CommandAction::QuickOpen,
    ));
    commands.push(make_command(
        "goto_line",
        "Go to Line",
        CommandCategory::Navigation,
        Some("Ctrl+G"),
        "Jump to specific line number",
        &["line", "jump", "goto", "move"],
        CommandAction::GoToLine,
    ));
    commands.push(make_command(
        "new_task",
        "New Task",
        CommandCategory::Agent,
        Some("Ctrl+T"),
        "Create a new task for the agent",
        &["task", "new", "create", "agent"],
        CommandAction::NewTask,
    ));
    commands.push(make_command(
        "list_tasks",
        "List Tasks",
        CommandCategory::Agent,
        Some("Ctrl+Alt+T"),
        "View all active and pending tasks",
        &["task", "list", "view", "show"],
        CommandAction::ListTasks,
    ));
    commands.push(make_command(
        "new_session",
        "New Session",
        CommandCategory::Session,
        Some("Ctrl+Shift+N"),
        "Create a new session",
        &["session", "new", "create", "window"],
        CommandAction::NewSession,
    ));
    commands.push(make_command(
        "switch_session",
        "Switch Session",
        CommandCategory::Session,
        Some("Ctrl+Tab"),
        "Switch between active sessions",
        &["session", "switch", "change", "alternate"],
        CommandAction::SwitchSession,
    ));
    commands.push(make_command(
        "close_session",
        "Close Session",
        CommandCategory::Session,
        Some("Ctrl+Shift+W"),
        "Close current session",
        &["session", "close", "end", "quit"],
        CommandAction::CloseSession,
    ));
    commands.push(make_command(
        "toggle_sidebar",
        "Toggle Sidebar",
        CommandCategory::System,
        Some("Ctrl+B"),
        "Show or hide the sidebar",
        &["sidebar", "toggle", "show", "hide"],
        CommandAction::ToggleSidebar,
    ));
    commands.push(make_command(
        "toggle_terminal",
        "Toggle Terminal",
        CommandCategory::System,
        Some("`"),
        "Show or hide the terminal panel",
        &["terminal", "toggle", "console", "output"],
        CommandAction::ToggleTerminal,
    ));
    commands.push(make_command(
        "save_file",
        "Save File",
        CommandCategory::System,
        Some("Ctrl+S"),
        "Save current file",
        &["save", "file", "write", "store"],
        CommandAction::SaveFile,
    ));
    commands.push(make_command(
        "settings",
        "Open Settings",
        CommandCategory::Settings,
        Some("Ctrl+,"),
        "Open application settings",
        &["settings", "config", "preferences", "options"],
        CommandAction::OpenSettings,
    ));
    commands.push(make_command(
        "help",
        "Help",
        CommandCategory::Help,
        Some("F1"),
        "Open help documentation",
        &["help", "docs", "documentation", "guide"],
        CommandAction::OpenHelp,
    ));
    commands.push(make_command(
        "import_model",
        "Import Model",
        CommandCategory::Models,
        None,
        "Import a new model from path",
        &["model", "import", "add", "new"],
        CommandAction::ImportModel,
    ));
    commands.push(make_command(
        "list_models",
        "List Models",
        CommandCategory::Models,
        None,
        "List all available models",
        &["model", "list", "show", "view"],
        CommandAction::ListModels,
    ));
    commands.push(make_command(
        "view_memory",
        "View Memory",
        CommandCategory::Tasks,
        None,
        "View agent memory and context",
        &["memory", "context", "history", "view"],
        CommandAction::ViewMemory,
    ));
    commands.push(make_command(
        "view_history",
        "View History",
        CommandCategory::Tasks,
        None,
        "View command and task history",
        &["history", "past", "previous", "log"],
        CommandAction::ViewHistory,
    ));
    assert(command_ids(commands@) =~= default_ids());
    commands
}

/// The registered commands, each id at most once, and the palette.
pub struct CommandManager {
    commands: Vec<Command>,
    pub palette_state: CommandPaletteState,
}

impl CommandManager {
    /// The registered commands, in registration order.
    pub closed spec fn command_list(&self) -> Seq<Command> {
        self.commands@
    }

    /// The palette's state.
    pub closed spec fn palette(&self) -> CommandPaletteState {
        self.palette_state
    }

    /// No two registered commands share an id.
    pub closed spec fn well_formed(&self) -> bool {
        forall|i: int, j: int|
            0 <= i < self.commands@.len() && 0 <= j < self.commands@.len() && i != j ==> (#[trigger] self.commands@[i]).id@
                != (#[trigger] self.commands@[j]).id@
    }

    /// A manager with the built-in commands and a closed palette.
    pub fn new() -> (r: CommandManager)
        ensures
            r.well_formed(),
            command_ids(r.command_list()).to_set() == default_ids().to_set(),
            !r.palette().is_open,
    {
        let mut manager = CommandManager { commands: Vec::new(), palette_state: CommandPaletteState::new() };
        manager.register_default_commands();
        manager
    }

    /// Registers every built-in command.
    fn register_default_commands(&mut self)
        requires
            old(self).well_formed(),
            old(self).commands@.len() == 0,
        ensures
            final(self).well_formed(),
            command_ids(final(self).commands@).to_set() == default_ids().to_set(),
            final(self).palette_state == old(self).palette_state,
    {
        let defaults = default_commands();
        let mut i: usize = 0;
        assert(command_ids(self.commands@).to_set() =~= command_ids(defaults@.subrange(0, 0)).to_set());
        while i < defaults.len()
            invariant
                i <= defaults@.len(),
                self.well_formed(),
                self.palette_state == old(self).palette_state,
                command_ids(self.commands@).to_set() == command_ids(defaults@.subrange(0, i as int)).to_set(),
            decreases defaults@.len() - i,
        {
            let ghost before = self.commands@;
            let command = defaults[i].copy();
            self.register_command(command);
            proof {
                let upto = defaults@.subrange(0, i as int + 1);
                assert(command_ids(upto) =~= command_ids(defaults@.subrange(0, i as int)).push(command.id@));
                command_ids(defaults@.subrange(0, i as int)).lemma_push_to_set_commute(command.id@);
                command_ids(before).lemma_push_to_set_commute(command.id@);
                if exists|k: int| 0 <= k < before.len() && (#[trigger] before[k]).id@ == command.id@ {
                    let k = choose|k: int|
                        0 <= k < before.len() && before[k].id@ == command.id@ && #[trigger] self.commands@ == before.update(k, command);
                    assert(command_ids(self.commands@) =~= command_ids(before));
                    assert(command_ids(before).contains(command.id@)) by {
                        assert(command_ids(before)[k] == command.id@);
                    }
                    assert(command_ids(self.commands@).to_set() =~= command_ids(before).to_set().insert(command.id@));
                } else {
                    assert(command_ids(self.commands@) =~= command_ids(before).push(command.id@));
                    assert(command_ids(self.commands@).to_set() =~= command_ids(before).to_set().insert(command.id@));
                }
                assert(command_ids(self.commands@).to_set() =~= command_ids(upto).to_set());
            }
            i = i + 1;
        }
        assert(defaults@.subrange(0, defaults@.len() as int) =~= defaults@);
    }

    /// Copies of the registered commands, in registration order.
    pub fn get_all_commands(&self) -> (r: Vec<Command>)
        ensures
            r@.len() == self.command_list().len(),
            forall|k: int| 0 <= k < r@.len() ==> same_command(#[trigger] r@[k], self.command_list()[k]),
    {
        let mut r: Vec<Command> = Vec::new();
        let mut i: usize = 0;
        while i < self.commands.len()
            invariant
                i <= self.commands@.len(),
                r@.len() == i,
                forall|k: int| 0 <= k < i ==> same_command(#[trigger] r@[k], self.commands@[k]),
            decreases self.commands@.len() - i,
        {
            r.push(self.commands[i].copy());
            i = i + 1;
        }
        r
    }

    /// The position of the command with id `id`, if any.
    fn position(&self, id: &String) -> (r: Option<usize>)
        ensures
            match r {
                Some(i) => i < self.commands@.len() && self.commands@[i as int].id@ == id@,
                None => forall|k: int| 0 <= k < self.commands@.len() ==> (#[trigger] self.commands@[k]).id@ != id@,
            },
    {
        let mut i: usize = 0;
        while i < self.commands.len()
            invariant
                i <= self.commands@.len(),
                forall|k: int| 0 <= k < i ==> (#[trigger] self.commands@[k]).id@ != id@,
            decreases self.commands@.len() - i,
        {
            if self.commands[i].id == *id {
                return Some(i);
            }
            i = i + 1;
        }
        None
    }

    /// A copy of the command with id `id`, if one is registered.
    pub fn get_command(&self, id: &str) -> (r: Option<Command>)
        ensures
            r is None <==> forall|k: int| 0 <= k < self.command_list().len() ==> (#[trigger] self.command_list()[k]).id@ != id@,
            r is Some ==> exists|k: int|
                0 <= k < self.command_list().len() && (#[trigger] self.command_list()[k]).id@ == id@ && same_command(
                    r->0,
                    self.command_list()[k],
                ),
    {
        let key = owned(id);
        match self.position(&key) {
            Some(i) => Some(self.commands[i].copy()),
            None => None,
        }
    }

    /// Registers `command`, replacing the command of the same id if there is
    /// one.
    pub fn register_command(&mut self, command: Command)
        requires
            old(self).well_formed(),
        ensures
            final(self).well_formed(),
            (exists|k: int| 0 <= k < old(self).command_list().len() && (#[trigger] old(self).command_list()[k]).id@ == command.id@)
                ==> exists|k: int|
                0 <= k < old(self).command_list().len() && old(self).command_list()[k].id@ == command.id@
                    && #[trigger] final(self).command_list() == old(self).command_list().update(k, command),
            (forall|k: int| 0 <= k < old(self).command_list().len() ==> (#[trigger] old(self).command_list()[k]).id@ != command.id@)
                ==> final(self).command_list() == old(self).command_list().push(command),
            final(self).palette() == old(self).palette(),
    {
        match self.position(&command.id) {
            Some(i) => {
                self.commands.set(i, command);
            },
            None => {
                self.commands.push(command);
            },
        }
    }

    /// The palette lists the registered commands for its query, as
    /// `CommandPaletteState::filter_commands` does, with the selection on top.
    pub open spec fn lists_for_query(&self, palette: CommandPaletteState) -> bool {
        &&& palette.filtered_commands@.len() == listed(self.command_list(), lower_of(palette.query@)).len()
        &&& forall|k: int| 0 <= k < palette.filtered_commands@.len() ==> same_command(
            #[trigger] palette.filtered_commands@[k],
            self.command_list()[listed(self.command_list(), lower_of(palette.query@))[k] as int],
        )
        &&& palette.selected_index == 0
    }

    /// Lists all commands for the current query.
    fn refilter(&mut self)
        ensures
            final(self).command_list() == old(self).command_list(),
            final(self).well_formed() == old(self).well_formed(),
            final(self).lists_for_query(final(self).palette()),
            final(self).palette().query == old(self).palette().query,
            final(self).palette().is_open == old(self).palette().is_open,
            final(self).palette().recent_commands == old(self).palette().recent_commands,
    {
        self.palette_state.filter_commands(self.commands.as_slice());
    }

    /// Opens the palette with an empty query, listing every command.
    pub fn open(&mut self)
        ensures
            final(self).command_list() == old(self).command_list(),
            final(self).well_formed() == old(self).well_formed(),
            final(self).palette().is_open,
            final(self).palette().query@.len() == 0,
            final(self).lists_for_query(final(self).palette()),
    {
        self.palette_state.is_open = true;
        self.palette_state.query = String::new();
        self.palette_state.selected_index = 0;
        self.refilter();
    }

    /// Closes the palette and clears its query.
    pub fn close(&mut self)
        ensures
            final(self).command_list() == old(self).command_list(),
            final(self).well_formed() == old(self).well_formed(),
            !final(self).palette().is_open,
            final(self).palette().query@.len() == 0,
            final(self).palette().filtered_commands == old(self).palette().filtered_commands,
    {
        self.palette_state.is_open = false;
        self.palette_state.query = String::new();
    }

    /// Closes an open palette, keeping its query; opens a closed one as
    /// `open` does.
    pub fn toggle(&mut self)
        ensures
            final(self).command_list() == old(self).command_list(),
            final(self).well_formed() == old(self).well_formed(),
            final(self).palette().is_open == !old(self).palette().is_open,
            old(self).palette().is_open ==> final(self).palette().query == old(self).palette().query,
            !old(self).palette().is_open ==> final(self).palette().query@.len() == 0 && final(self).lists_for_query(
                final(self).palette(),
            ),
    {
        if self.palette_state.is_open {
            self.palette_state.is_open = false;
        } else {
            self.open();
        }
    }

    /// Handles a key press while the palette is open: Esc closes it, Up or
    /// `k` and Down or `j` move the selection, Enter runs the selected command
    /// (recording it as recent and closing the palette), Backspace and other
    /// characters edit the query and list again. Control combinations and
    /// other keys do nothing. Returns the action to run, if any.
    pub fn handle_key(&mut self, key: PaletteKey) -> (r: Option<CommandAction>)
        ensures
            final(self).command_list() == old(self).command_list(),
            final(self).well_formed() == old(self).well_formed(),
            !old(self).palette().is_open ==> r is None && final(self).palette() == old(self).palette(),
            old(self).palette().is_open ==> match key {
                PaletteKey::Esc => r is None && !final(self).palette().is_open && final(self).palette().query@.len() == 0,
                PaletteKey::Up | PaletteKey::Char { c: 'k', .. } => r is None && final(self).palette().selected_index == (
                    if old(self).palette().selected_index > 0 {
                        old(self).palette().selected_index - 1
                    } else {
                        0
                    }),
                PaletteKey::Down | PaletteKey::Char { c: 'j', .. } => r is None && final(self).palette().selected_index == (
                    if old(self).palette().selected_index + 1 < old(self).palette().filtered_commands@.len() {
                        old(self).palette().selected_index + 1
                    } else {
                        old(self).palette().selected_index as int
                    }),
                PaletteKey::Enter => if old(self).palette().selected_index < old(self).palette().filtered_commands@.len() {
                    &&& r == Some(old(self).palette().filtered_commands@[old(self).palette().selected_index as int].action)
                    &&& !final(self).palette().is_open
                    &&& final(self).palette().query@.len() == 0
                    &&& final(self).palette().recent_commands@.len() > 0
                    &&& final(self).palette().recent_commands@[0]@
                        == old(self).palette().filtered_commands@[old(self).palette().selected_index as int].id@
                } else {
                    r is None && final(self).palette() == old(self).palette()
                },
                PaletteKey::Backspace => r is None && final(self).palette().query@ == (
                    if old(self).palette().query@.len() > 0 {
                        old(self).palette().query@.drop_last()
                    } else {
                        old(self).palette().query@
                    }) && final(self).lists_for_query(final(self).palette()),
                PaletteKey::Char { c, control } => if control {
                    r is None && final(self).palette() == old(self).palette()
                } else {
                    r is None && final(self).palette().query@ == old(self).palette().query@.push(c)
                        && final(self).lists_for_query(final(self).palette())
                },
                PaletteKey::Other => r is None && final(self).palette() == old(self).palette(),
            },
    {
        if !self.palette_state.is_open {
            return None;
        }
        match key {
            PaletteKey::Esc => {
                self.palette_state.is_open = false;
                self.palette_state.query = String::new();
                None
            },
            PaletteKey::Up | PaletteKey::Char { c: 'k', .. } => {
                self.palette_state.select_prev();
                None
            },
            PaletteKey::Down | PaletteKey::Char { c: 'j', .. } => {
                self.palette_state.select_next();
                None
            },
            PaletteKey::Enter => {
                let index = self.palette_state.selected_index;
                if index < self.palette_state.filtered_commands.len() {
                    let id = owned(self.palette_state.filtered_commands[index].id.as_str());
                    let action = self.palette_state.filtered_commands[index].action.copy();
                    self.palette_state.add_recent(id.as_str());
                    self.palette_state.is_open = false;
                    self.palette_state.query = String::new();
                    Some(action)
                } else {
                    None
                }
            },
            PaletteKey::Backspace => {
                let n = self.palette_state.query.unicode_len();
                if n > 0 {
                    let shorter = String::from_str(self.palette_state.query.as_str().substring_char(0, n - 1));
                    self.palette_state.query = shorter;
                }
                self.refilter();
                None
            },
            PaletteKey::Char { c, control } => {
                if control {
                    None
                } else {
                    push_char(&mut self.palette_state.query, c);
                    self.refilter();
                    None
                }
            },
            PaletteKey::Other => None,
        }
    }

}

} // verus!
