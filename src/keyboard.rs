//! Keyboard actions and input modes of the terminal interface.
use vstd::prelude::*;
use vstd::string::*;

verus! {

/// What a key binding does.
#[derive(Debug, Clone, Copy, PartialEq, Eq, Hash, Structural)]
pub enum KeyAction {
    CommandPalette,
    QuickOpen,
    GoToLine,
    GoToFile,
    GoToSymbol,
    Save,
    SaveAll,
    Undo,
    Redo,
    Copy,
    Cut,
    Paste,
    SelectAll,
    DeleteLine,
    ToggleSidebar,
    ToggleTerminal,
    ToggleFullscreen,
    ZoomIn,
    ZoomOut,
    ResetZoom,
    NewTask,
    ListTasks,
    TaskDetails,
    NewSession,
    SwitchSession,
    CloseSession,
    ListModels,
    SwitchModel,
    ImportModel,
    Settings,
    Help,
    AgentsSettings,
    SendMessage,
    SwitchToTerminal,
    SwitchToChat,
    InterruptAgent,
    NextTab,
    PrevTab,
    CloseTab,
    NextPanel,
    PrevPanel,
    Escape,
    Enter,
    Tab,
    F1,
    F2,
    F5,
    F12,
}

/// Where typed text goes.
#[derive(Debug, Clone, Copy, PartialEq, Eq, Structural)]
pub enum InputMode {
    /// Messages to the agent.
    Chat,
    /// Shell commands.
    Terminal,
    /// The command palette's query.
    Command,
}

impl Default for InputMode {
    /// `Chat`.
    fn default() -> (r: InputMode)
        ensures
            r == InputMode::Chat,
    {
        InputMode::Chat
    }
}

/// The label shown for an action in the list of key bindings.
pub open spec fn action_label(action: KeyAction) -> Seq<char> {
    match action {
        KeyAction::CommandPalette => "Command Palette"@,
        KeyAction::QuickOpen => "Quick Open"@,
        KeyAction::GoToLine => "Go to Line"@,
        KeyAction::GoToFile => "Go to File"@,
        KeyAction::GoToSymbol => "Go to Symbol"@,
        KeyAction::Save => "Save"@,
        KeyAction::SaveAll => "Save All"@,
        KeyAction::Undo => "Undo"@,
        KeyAction::Redo => "Redo"@,
        KeyAction::Copy => "Copy"@,
        KeyAction::Cut => "Cut"@,
        KeyAction::Paste => "Paste"@,
        KeyAction::SelectAll => "Select All"@,
        KeyAction::DeleteLine => "Delete Line"@,
        KeyAction::ToggleSidebar => "Toggle Sidebar"@,
        KeyAction::ToggleTerminal => "Toggle Terminal"@,
        KeyAction::ToggleFullscreen => "Toggle Fullscreen"@,
        KeyAction::ZoomIn => "Zoom In"@,
        KeyAction::ZoomOut => "Zoom Out"@,
        KeyAction::ResetZoom => "Reset Zoom"@,
        KeyAction::NewTask => "New Task"@,
        KeyAction::ListTasks => "List Tasks"@,
        KeyAction::TaskDetails => "Task Details"@,
        KeyAction::NewSession => "New Session"@,
        KeyAction::SwitchSession => "Switch Session"@,
        KeyAction::CloseSession => "Close Session"@,
        KeyAction::ListModels => "List Models"@,
        KeyAction::SwitchModel => "Switch Model"@,
        KeyAction::ImportModel => "Import Model"@,
        KeyAction::Settings => "Settings"@,
        KeyAction::Help => "Help"@,
        KeyAction::AgentsSettings => "Agents Settings"@,
        KeyAction::SendMessage => "Send Message"@,
        KeyAction::SwitchToTerminal => "Switch to Terminal"@,
        KeyAction::SwitchToChat => "Switch to Chat"@,
        KeyAction::InterruptAgent => "Interrupt Agent"@,
        KeyAction::NextTab => "Next Tab"@,
        KeyAction::PrevTab => "Prev Tab"@,
        KeyAction::CloseTab => "Close Tab"@,
        KeyAction::NextPanel => "Next Panel"@,
        KeyAction::PrevPanel => "Prev Panel"@,
        KeyAction::Escape => "Escape"@,
        KeyAction::Enter => "Enter"@,
        KeyAction::Tab => "Tab"@,
        KeyAction::F1 => "F1"@,
        KeyAction::F2 => "F2"@,
        KeyAction::F5 => "F5"@,
        KeyAction::F12 => "F12"@,
    }
}

/// The label of `action` in the list of key bindings.
pub fn format_action_name(action: &KeyAction) -> (r: String)
    ensures
        r@ == action_label(*action),
{
    let label: &str = match action {
        KeyAction::CommandPalette => "Command Palette",
        KeyAction::QuickOpen => "Quick Open",
        KeyAction::GoToLine => "Go to Line",
        KeyAction::GoToFile => "Go to File",
        KeyAction::GoToSymbol => "Go to Symbol",
        KeyAction::Save => "Save",
        KeyAction::SaveAll => "Save All",
        KeyAction::Undo => "Undo",
        KeyAction::Redo => "Redo",
        KeyAction::Copy => "Copy",
        KeyAction::Cut => "Cut",
        KeyAction::Paste => "Paste",
        KeyAction::SelectAll => "Select All",
        KeyAction::DeleteLine => "Delete Line",
        KeyAction::ToggleSidebar => "Toggle Sidebar",
        KeyAction::ToggleTerminal => "Toggle Terminal",
        KeyAction::ToggleFullscreen => "Toggle Fullscreen",
        KeyAction::ZoomIn => "Zoom In",
        KeyAction::ZoomOut => "Zoom Out",
        KeyAction::ResetZoom => "Reset Zoom",
        KeyAction::NewTask => "New Task",
        KeyAction::ListTasks => "List Tasks",
        KeyAction::TaskDetails => "Task Details",
        KeyAction::NewSession => "New Session",
        KeyAction::SwitchSession => "Switch Session",
        KeyAction::CloseSession => "Close Session",
        KeyAction::ListModels => "List Models",
        KeyAction::SwitchModel => "Switch Model",
        KeyAction::ImportModel => "Import Model",
        KeyAction::Settings => "Settings",
        KeyAction::Help => "Help",
        KeyAction::AgentsSettings => "Agents Settings",
        KeyAction::SendMessage => "Send Message",
        KeyAction::SwitchToTerminal => "Switch to Terminal",
        KeyAction::SwitchToChat => "Switch to Chat",
        KeyAction::InterruptAgent => "Interrupt Agent",
        KeyAction::NextTab => "Next Tab",
        KeyAction::PrevTab => "Prev Tab",
        KeyAction::CloseTab => "Close Tab",
        KeyAction::NextPanel => "Next Panel",
        KeyAction::PrevPanel => "Prev Panel",
        KeyAction::Escape => "Escape",
        KeyAction::Enter => "Enter",
        KeyAction::Tab => "Tab",
        KeyAction::F1 => "F1",
        KeyAction::F2 => "F2",
        KeyAction::F5 => "F5",
        KeyAction::F12 => "F12",
    };
    String::from_str(label)
}

/// A key of the keyboard.
#[derive(Debug, Clone, Copy, PartialEq, Eq, Hash, Structural)]
pub enum KeyCode {
    Char(char),
    Enter,
    Esc,
    Tab,
    Backspace,
    Up,
    Down,
    Left,
    Right,
    Home,
    End,
    PageUp,
    PageDown,
    Delete,
    Insert,
    /// A function key, by number.
    F(u8),
    Other,
}

/// The modifier keys held with a key.
#[derive(Debug, Clone, Copy, Default, PartialEq, Eq, Hash, Structural)]
pub struct KeyModifiers {
    pub control: bool,
    pub alt: bool,
    pub shift: bool,
}

/// A key pressed with modifiers.
#[derive(Debug, Clone, Copy, PartialEq, Eq, Hash, Structural)]
pub struct KeyEvent {
    pub code: KeyCode,
    pub modifiers: KeyModifiers,
}

/// A key press made from its parts.
pub fn key(code: KeyCode, control: bool, alt: bool, shift: bool) -> (r: KeyEvent)
    ensures
        r == (KeyEvent { code, modifiers: KeyModifiers { control, alt, shift } }),
{
    KeyEvent { code, modifiers: KeyModifiers { control, alt, shift } }
}

/// `key` with Shift released.
pub open spec fn without_shift(key: KeyEvent) -> KeyEvent {
    KeyEvent { code: key.code, modifiers: KeyModifiers { shift: false, ..key.modifiers } }
}

/// The action of the latest entry of `table` for `key`, if any.
pub open spec fn latest_action(table: Seq<(KeyEvent, KeyAction)>, key: KeyEvent) -> Option<KeyAction>
    decreases table.len(),
{
    if table.len() == 0 {
        None
    } else if table.last().0 == key {
        Some(table.last().1)
    } else {
        latest_action(table.drop_last(), key)
    }
}

/// The keys of the latest group of `groups` for `action`, if any.
pub open spec fn latest_keys(groups: Seq<(KeyAction, Seq<KeyEvent>)>, action: KeyAction) -> Option<Seq<KeyEvent>>
    decreases groups.len(),
{
    if groups.len() == 0 {
        None
    } else if groups.last().0 == action {
        Some(groups.last().1)
    } else {
        latest_keys(groups.drop_last(), action)
    }
}

/// Every key of `keys` paired with `action`, in order.
pub open spec fn paired(keys: Seq<KeyEvent>, action: KeyAction) -> Seq<(KeyEvent, KeyAction)> {
    keys.map_values(|k: KeyEvent| (k, action))
}

/// The built-in shortcuts, in the order they are bound.
pub open spec fn default_key_table() -> Seq<(KeyEvent, KeyAction)> {
    seq![
        (KeyEvent { code: KeyCode::Char('p'), modifiers: KeyModifiers { control: true, alt: false, shift: false } }, KeyAction::CommandPalette),
        (KeyEvent { code: KeyCode::Char('p'), modifiers: KeyModifiers { control: false, alt: true, shift: false } }, KeyAction::CommandPalette),
        (KeyEvent { code: KeyCode::Char('o'), modifiers: KeyModifiers { control: true, alt: false, shift: false } }, KeyAction::QuickOpen),
        (KeyEvent { code: KeyCode::Char('g'), modifiers: KeyModifiers { control: true, alt: false, shift: false } }, KeyAction::GoToLine),
        (KeyEvent { code: KeyCode::Char('e'), modifiers: KeyModifiers { control: true, alt: false, shift: false } }, KeyAction::GoToFile),
        (KeyEvent { code: KeyCode::Char('o'), modifiers: KeyModifiers { control: false, alt: true, shift: false } }, KeyAction::GoToSymbol),
        (KeyEvent { code: KeyCode::Char('s'), modifiers: KeyModifiers { control: true, alt: false, shift: false } }, KeyAction::Save),
        (KeyEvent { code: KeyCode::Char('s'), modifiers: KeyModifiers { control: true, alt: false, shift: true } }, KeyAction::SaveAll),
        (KeyEvent { code: KeyCode::Char('z'), modifiers: KeyModifiers { control: true, alt: false, shift: false } }, KeyAction::Undo),
        (KeyEvent { code: KeyCode::Char('y'), modifiers: KeyModifiers { control: true, alt: false, shift: false } }, KeyAction::Redo),
        (KeyEvent { code: KeyCode::Char('z'), modifiers: KeyModifiers { control: true, alt: false, shift: true } }, KeyAction::Redo),
        (KeyEvent { code: KeyCode::Char('c'), modifiers: KeyModifiers { control: true, alt: false, shift: false } }, KeyAction::Copy),
        (KeyEvent { code: KeyCode::Char('x'), modifiers: KeyModifiers { control: true, alt: false, shift: false } }, KeyAction::Cut),
        (KeyEvent { code: KeyCode::Char('v'), modifiers: KeyModifiers { control: true, alt: false, shift: false } }, KeyAction::Paste),
        (KeyEvent { code: KeyCode::Char('a'), modifiers: KeyModifiers { control: true, alt: false, shift: false } }, KeyAction::SelectAll),
        (KeyEvent { code: KeyCode::Char('b'), modifiers: KeyModifiers { control: true, alt: false, shift: false } }, KeyAction::ToggleSidebar),
        (KeyEvent { code: KeyCode::Char('`'), modifiers: KeyModifiers { control: false, alt: false, shift: false } }, KeyAction::ToggleTerminal),
        (KeyEvent { code: KeyCode::Char('j'), modifiers: KeyModifiers { control: true, alt: false, shift: true } }, KeyAction::ToggleTerminal),
        (KeyEvent { code: KeyCode::Char('+'), modifiers: KeyModifiers { control: true, alt: false, shift: false } }, KeyAction::ZoomIn),
        (KeyEvent { code: KeyCode::Char('='), modifiers: KeyModifiers { control: true, alt: false, shift: false } }, KeyAction::ZoomIn),
        (KeyEvent { code: KeyCode::Char('-'), modifiers: KeyModifiers { control: true, alt: false, shift: false } }, KeyAction::ZoomOut),
        (KeyEvent { code: KeyCode::Char('t'), modifiers: KeyModifiers { control: true, alt: false, shift: false } }, KeyAction::NewTask),
        (KeyEvent { code: KeyCode::Char('t'), modifiers: KeyModifiers { control: false, alt: true, shift: false } }, KeyAction::ListTasks),
        (KeyEvent { code: KeyCode::Char('n'), modifiers: KeyModifiers { control: true, alt: false, shift: true } }, KeyAction::NewSession),
        (KeyEvent { code: KeyCode::Tab, modifiers: KeyModifiers { control: true, alt: false, shift: false } }, KeyAction::SwitchSession),
        (KeyEvent { code: KeyCode::Char('w'), modifiers: KeyModifiers { control: true, alt: false, shift: true } }, KeyAction::CloseSession),
        (KeyEvent { code: KeyCode::Char('m'), modifiers: KeyModifiers { control: true, alt: false, shift: false } }, KeyAction::ListModels),
        (KeyEvent { code: KeyCode::Char('m'), modifiers: KeyModifiers { control: false, alt: true, shift: false } }, KeyAction::SwitchModel),
        (KeyEvent { code: KeyCode::Char('i'), modifiers: KeyModifiers { control: true, alt: false, shift: true } }, KeyAction::ImportModel),
        (KeyEvent { code: KeyCode::Char(','), modifiers: KeyModifiers { control: true, alt: false, shift: false } }, KeyAction::Settings),
        (KeyEvent { code: KeyCode::Char('h'), modifiers: KeyModifiers { control: true, alt: false, shift: false } }, KeyAction::Help),
        (KeyEvent { code: KeyCode::F(1), modifiers: KeyModifiers { control: false, alt: false, shift: false } }, KeyAction::Help),
        (KeyEvent { code: KeyCode::Char('a'), modifiers: KeyModifiers { control: true, alt: false, shift: false } }, KeyAction::AgentsSettings),
        (KeyEvent { code: KeyCode::Enter, modifiers: KeyModifiers { control: false, alt: false, shift: false } }, KeyAction::SendMessage),
        (KeyEvent { code: KeyCode::Tab, modifiers: KeyModifiers { control: false, alt: false, shift: false } }, KeyAction::SwitchToTerminal),
        (KeyEvent { code: KeyCode::Tab, modifiers: KeyModifiers { control: false, alt: false, shift: true } }, KeyAction::SwitchToChat),
        (KeyEvent { code: KeyCode::Char('c'), modifiers: KeyModifiers { control: true, alt: false, shift: false } }, KeyAction::InterruptAgent),
        (KeyEvent { code: KeyCode::Tab, modifiers: KeyModifiers { control: true, alt: false, shift: false } }, KeyAction::NextTab),
        (KeyEvent { code: KeyCode::Tab, modifiers: KeyModifiers { control: true, alt: false, shift: true } }, KeyAction::PrevTab),
        (KeyEvent { code: KeyCode::Char('w'), modifiers: KeyModifiers { control: true, alt: false, shift: false } }, KeyAction::CloseTab),
        (KeyEvent { code: KeyCode::Char('d'), modifiers: KeyModifiers { control: false, alt: true, shift: false } }, KeyAction::NextPanel),
        (KeyEvent { code: KeyCode::Char('a'), modifiers: KeyModifiers { control: false, alt: true, shift: false } }, KeyAction::PrevPanel),
        (KeyEvent { code: KeyCode::Esc, modifiers: KeyModifiers { control: false, alt: false, shift: false } }, KeyAction::Escape),
        (KeyEvent { code: KeyCode::Tab, modifiers: KeyModifiers { control: false, alt: false, shift: false } }, KeyAction::Tab),
        (KeyEvent { code: KeyCode::F(5), modifiers: KeyModifiers { control: false, alt: false, shift: false } }, KeyAction::F5),
        (KeyEvent { code: KeyCode::F(12), modifiers: KeyModifiers { control: false, alt: false, shift: false } }, KeyAction::F12),
    ]
}

/// The key bindings: the keys of each action, and for each key the action it
/// triggers, a later binding of a key replacing an earlier one.
#[derive(Debug, Clone)]
pub struct KeyBindings {
    bindings: Vec<(KeyAction, Vec<KeyEvent>)>,
    reverse_bindings: Vec<(KeyEvent, KeyAction)>,
}

impl KeyBindings {
    /// Each key with the action it was bound to, in binding order.
    pub closed spec fn table(&self) -> Seq<(KeyEvent, KeyAction)> {
        self.reverse_bindings@
    }

    /// Each binding call: the action and its keys, in order.
    pub closed spec fn groups(&self) -> Seq<(KeyAction, Seq<KeyEvent>)> {
        self.bindings@.map_values(|g: (KeyAction, Vec<KeyEvent>)| (g.0, g.1@))
    }

    /// The built-in shortcuts.
    pub fn new() -> (r: KeyBindings)
        ensures
            r.table() == default_key_table(),
    {
        let mut b = KeyBindings { bindings: Vec::new(), reverse_bindings: Vec::new() };
        b.add_binding(KeyAction::CommandPalette, vec![key(KeyCode::Char('p'), true, false, false), key(KeyCode::Char('p'), false, true, false)]);
        b.add_binding(KeyAction::QuickOpen, vec![key(KeyCode::Char('o'), true, false, false)]);
        b.add_binding(KeyAction::GoToLine, vec![key(KeyCode::Char('g'), true, false, false)]);
        b.add_binding(KeyAction::GoToFile, vec![key(KeyCode::Char('e'), true, false, false)]);
        b.add_binding(KeyAction::GoToSymbol, vec![key(KeyCode::Char('o'), false, true, false)]);
        b.add_binding(KeyAction::Save, vec![key(KeyCode::Char('s'), true, false, false)]);
        b.add_binding(KeyAction::SaveAll, vec![key(KeyCode::Char('s'), true, false, true)]);
        b.add_binding(KeyAction::Undo, vec![key(KeyCode::Char('z'), true, false, false)]);
        b.add_binding(KeyAction::Redo, vec![key(KeyCode::Char('y'), true, false, false), key(KeyCode::Char('z'), true, false, true)]);
        b.add_binding(KeyAction::Copy, vec![key(KeyCode::Char('c'), true, false, false)]);
        b.add_binding(KeyAction::Cut, vec![key(KeyCode::Char('x'), true, false, false)]);
        b.add_binding(KeyAction::Paste, vec![key(KeyCode::Char('v'), true, false, false)]);
        b.add_binding(KeyAction::SelectAll, vec![key(KeyCode::Char('a'), true, false, false)]);
        b.add_binding(KeyAction::ToggleSidebar, vec![key(KeyCode::Char('b'), true, false, false)]);
        b.add_binding(KeyAction::ToggleTerminal, vec![key(KeyCode::Char('`'), false, false, false), key(KeyCode::Char('j'), true, false, true)]);
        b.add_binding(KeyAction::ZoomIn, vec![key(KeyCode::Char('+'), true, false, false), key(KeyCode::Char('='), true, false, false)]);
        b.add_binding(KeyAction::ZoomOut, vec![key(KeyCode::Char('-'), true, false, false)]);
        b.add_binding(KeyAction::NewTask, vec![key(KeyCode::Char('t'), true, false, false)]);
        b.add_binding(KeyAction::ListTasks, vec![key(KeyCode::Char('t'), false, true, false)]);
        b.add_binding(KeyAction::NewSession, vec![key(KeyCode::Char('n'), true, false, true)]);
        b.add_binding(KeyAction::SwitchSession, vec![key(KeyCode::Tab, true, false, false)]);
        b.add_binding(KeyAction::CloseSession, vec![key(KeyCode::Char('w'), true, false, true)]);
        b.add_binding(KeyAction::ListModels, vec![key(KeyCode::Char('m'), true, false, false)]);
        b.add_binding(KeyAction::SwitchModel, vec![key(KeyCode::Char('m'), false, true, false)]);
        b.add_binding(KeyAction::ImportModel, vec![key(KeyCode::Char('i'), true, false, true)]);
        b.add_binding(KeyAction::Settings, vec![key(KeyCode::Char(','), true, false, false)]);
        b.add_binding(KeyAction::Help, vec![key(KeyCode::Char('h'), true, false, false), key(KeyCode::F(1), false, false, false)]);
        b.add_binding(KeyAction::AgentsSettings, vec![key(KeyCode::Char('a'), true, false, false)]);
        b.add_binding(KeyAction::SendMessage, vec![key(KeyCode::Enter, false, false, false)]);
        b.add_binding(KeyAction::SwitchToTerminal, vec![key(KeyCode::Tab, false, false, false)]);
        b.add_binding(KeyAction::SwitchToChat, vec![key(KeyCode::Tab, false, false, true)]);
        b.add_binding(KeyAction::InterruptAgent, vec![key(KeyCode::Char('c'), true, false, false)]);
        b.add_binding(KeyAction::NextTab, vec![key(KeyCode::Tab, true, false, false)]);
        b.add_binding(KeyAction::PrevTab, vec![key(KeyCode::Tab, true, false, true)]);
        b.add_binding(KeyAction::CloseTab, vec![key(KeyCode::Char('w'), true, false, false)]);
        b.add_binding(KeyAction::NextPanel, vec![key(KeyCode::Char('d'), false, true, false)]);
        b.add_binding(KeyAction::PrevPanel, vec![key(KeyCode::Char('a'), false, true, false)]);
        b.add_binding(KeyAction::Escape, vec![key(KeyCode::Esc, false, false, false)]);
        b.add_binding(KeyAction::Tab, vec![key(KeyCode::Tab, false, false, false)]);
        b.add_binding(KeyAction::F5, vec![key(KeyCode::F(5), false, false, false)]);
        b.add_binding(KeyAction::F12, vec![key(KeyCode::F(12), false, false, false)]);
        assert(b.table() =~= default_key_table());
        b
    }

    /// Binds every key of `keys` to `action`, and makes `keys` the keys of
    /// `action`.
    pub fn add_binding(&mut self, action: KeyAction, keys: Vec<KeyEvent>)
        ensures
            final(self).table() == old(self).table() + paired(keys@, action),
            final(self).groups() == old(self).groups().push((action, keys@)),
    {
        let mut i: usize = 0;
        while i < keys.len()
            invariant
                i <= keys@.len(),
                self.bindings == old(self).bindings,
                self.reverse_bindings@ == old(self).reverse_bindings@ + paired(keys@.subrange(0, i as int), action),
            decreases keys@.len() - i,
        {
            self.reverse_bindings.push((keys[i], action));
            i = i + 1;
            assert(paired(keys@.subrange(0, i as int), action) =~= paired(keys@.subrange(0, i - 1), action).push((keys@[i - 1], action)));
        }
        assert(keys@.subrange(0, keys@.len() as int) =~= keys@);
        self.bindings.push((action, keys));
        assert(self.groups() =~= old(self).groups().push((action, keys@)));
    }

    /// The action `key` triggers: the latest binding of the key, where a key
    /// held with Shift also counts as the key without it.
    pub fn find_action(&self, key: KeyEvent) -> (r: Option<KeyAction>)
        ensures
            r == latest_action(self.table(), without_shift(key)),
    {
        let target = KeyEvent {
            code: key.code,
            modifiers: KeyModifiers { control: key.modifiers.control, alt: key.modifiers.alt, shift: false },
        };
        let mut i: usize = self.reverse_bindings.len();
        assert(self.reverse_bindings@.subrange(0, i as int) =~= self.reverse_bindings@);
        while i > 0
            invariant
                i <= self.reverse_bindings@.len(),
                target == without_shift(key),
                latest_action(self.reverse_bindings@, target) == latest_action(self.reverse_bindings@.subrange(0, i as int), target),
            decreases i,
        {
            let ghost prefix = self.reverse_bindings@.subrange(0, i as int);
            assert(prefix.drop_last() =~= self.reverse_bindings@.subrange(0, i - 1));
            if self.reverse_bindings[i - 1].0 == target {
                return Some(self.reverse_bindings[i - 1].1);
            }
            i = i - 1;
        }
        None
    }

    /// The keys bound to `action` by its latest binding, or none.
    pub fn get_bindings(&self, action: &KeyAction) -> (r: Vec<KeyEvent>)
        ensures
            r@ == match latest_keys(self.groups(), *action) {
                Some(keys) => keys,
                None => Seq::empty(),
            },
    {
        let mut i: usize = self.bindings.len();
        assert(self.groups().subrange(0, i as int) =~= self.groups());
        while i > 0
            invariant
                i <= self.bindings@.len(),
                latest_keys(self.groups(), *action) == latest_keys(self.groups().subrange(0, i as int), *action),
            decreases i,
        {
            let ghost prefix = self.groups().subrange(0, i as int);
            assert(prefix.drop_last() =~= self.groups().subrange(0, i - 1));
            if self.bindings[i - 1].0 == *action {
                let keys = &self.bindings[i - 1].1;
                let mut copy: Vec<KeyEvent> = Vec::new();
                let mut j: usize = 0;
                while j < keys.len()
                    invariant
                        j <= keys@.len(),
                        copy@ == keys@.subrange(0, j as int),
                    decreases keys@.len() - j,
                {
                    copy.push(keys[j]);
                    j = j + 1;
                    assert(copy@ =~= keys@.subrange(0, j as int));
                }
                assert(keys@.subrange(0, keys@.len() as int) =~= keys@);
                return copy;
            }
            i = i - 1;
        }
        Vec::new()
    }

    /// Whether `key` triggers any action.
    pub fn is_standard_shortcut(&self, key: KeyEvent) -> (r: bool)
        ensures
            r == latest_action(self.table(), without_shift(key)) is Some,
    {
        self.find_action(key).is_some()
    }
}

impl Default for KeyBindings {
    /// The built-in shortcuts.
    fn default() -> (r: KeyBindings)
        ensures
            r.table() == default_key_table(),
    {
        KeyBindings::new()
    }
}

/// The help text shown for an input mode.
pub open spec fn mode_help(mode: InputMode) -> Seq<char> {
    match mode {
        InputMode::Chat => "\u{1f4ac} Chat Mode\n\u{2501}\u{2501}\u{2501}\u{2501}\u{2501}\u{2501}\u{2501}\u{2501}\u{2501}\u{2501}\u{2501}\u{2501}\u{2501}\n\u{2022} Type message \u{2192} Enter to send\n\u{2022} /command \u{2192} Command palette\n\u{2022} Tab \u{2192} Switch to Terminal\n\u{2022} Ctrl+C \u{2192} Interrupt agent"@,
        InputMode::Terminal => "\u{1f4bb} Terminal Mode\n\u{2501}\u{2501}\u{2501}\u{2501}\u{2501}\u{2501}\u{2501}\u{2501}\u{2501}\u{2501}\u{2501}\u{2501}\u{2501}\u{2501}\u{2501}\u{2501}\n\u{2022} Type command \u{2192} Enter to run\n\u{2022} Ctrl+Z \u{2192} Undo\n\u{2022} Ctrl+C \u{2192} Cancel\n\u{2022} Tab \u{2192} Switch to Chat"@,
        InputMode::Command => "\u{1f3af} Command Mode\n\u{2501}\u{2501}\u{2501}\u{2501}\u{2501}\u{2501}\u{2501}\u{2501}\u{2501}\u{2501}\u{2501}\u{2501}\u{2501}\u{2501}\u{2501}\u{2501}\n\u{2022} Type to filter commands\n\u{2022} \u{2191}/\u{2193} or j/k \u{2192} Navigate\n\u{2022} Enter \u{2192} Execute\n\u{2022} Esc \u{2192} Cancel"@,
    }
}

/// The keyboard: its bindings and where typed text goes.
#[derive(Debug, Clone)]
pub struct KeyboardManager {
    bindings: KeyBindings,
    input_mode: InputMode,
}

impl KeyboardManager {
    /// The key bindings in use.
    pub closed spec fn key_table(&self) -> Seq<(KeyEvent, KeyAction)> {
        self.bindings.table()
    }

    /// The current input mode.
    pub closed spec fn mode(&self) -> InputMode {
        self.input_mode
    }

    /// The built-in shortcuts, typing into the chat.
    pub fn new() -> (r: KeyboardManager)
        ensures
            r.key_table() == default_key_table(),
            r.mode() == InputMode::Chat,
    {
        KeyboardManager { bindings: KeyBindings::new(), input_mode: InputMode::Chat }
    }

    /// The action of a bound key; otherwise Tab switches between chat and
    /// terminal (and leaves the palette for the chat) and reports `Tab`.
    pub fn handle_key(&mut self, key: KeyEvent) -> (r: Option<KeyAction>)
        ensures
            final(self).key_table() == old(self).key_table(),
            latest_action(old(self).key_table(), without_shift(key)) is Some ==> r == latest_action(
                old(self).key_table(),
                without_shift(key),
            ) && final(self).mode() == old(self).mode(),
            latest_action(old(self).key_table(), without_shift(key)) is None && key.code == KeyCode::Tab ==> r == Some(
                KeyAction::Tab,
            ) && final(self).mode() == (if old(self).mode() == InputMode::Chat {
                InputMode::Terminal
            } else {
                InputMode::Chat
            }),
            latest_action(old(self).key_table(), without_shift(key)) is None && key.code != KeyCode::Tab ==> r is None
                && final(self).mode() == old(self).mode(),
    {
        if let Some(action) = self.bindings.find_action(key) {
            return Some(action);
        }
        if key.code == KeyCode::Tab {
            self.input_mode = match self.input_mode {
                InputMode::Chat => InputMode::Terminal,
                InputMode::Terminal => InputMode::Chat,
                InputMode::Command => InputMode::Chat,
            };
            return Some(KeyAction::Tab);
        }
        None
    }

    /// The current input mode.
    pub fn get_input_mode(&self) -> (r: InputMode)
        ensures
            r == self.mode(),
    {
        self.input_mode
    }

    /// Sets the input mode.
    pub fn set_input_mode(&mut self, mode: InputMode)
        ensures
            final(self).mode() == mode,
            final(self).key_table() == old(self).key_table(),
    {
        self.input_mode = mode;
    }

    /// Help for the current input mode.
    pub fn get_context_help(&self) -> (r: String)
        ensures
            r@ == mode_help(self.mode()),
    {
        let text: &str = match self.input_mode {
            InputMode::Chat => "\u{1f4ac} Chat Mode\n\u{2501}\u{2501}\u{2501}\u{2501}\u{2501}\u{2501}\u{2501}\u{2501}\u{2501}\u{2501}\u{2501}\u{2501}\u{2501}\n\u{2022} Type message \u{2192} Enter to send\n\u{2022} /command \u{2192} Command palette\n\u{2022} Tab \u{2192} Switch to Terminal\n\u{2022} Ctrl+C \u{2192} Interrupt agent",
            InputMode::Terminal => "\u{1f4bb} Terminal Mode\n\u{2501}\u{2501}\u{2501}\u{2501}\u{2501}\u{2501}\u{2501}\u{2501}\u{2501}\u{2501}\u{2501}\u{2501}\u{2501}\u{2501}\u{2501}\u{2501}\n\u{2022} Type command \u{2192} Enter to run\n\u{2022} Ctrl+Z \u{2192} Undo\n\u{2022} Ctrl+C \u{2192} Cancel\n\u{2022} Tab \u{2192} Switch to Chat",
            InputMode::Command => "\u{1f3af} Command Mode\n\u{2501}\u{2501}\u{2501}\u{2501}\u{2501}\u{2501}\u{2501}\u{2501}\u{2501}\u{2501}\u{2501}\u{2501}\u{2501}\u{2501}\u{2501}\u{2501}\n\u{2022} Type to filter commands\n\u{2022} \u{2191}/\u{2193} or j/k \u{2192} Navigate\n\u{2022} Enter \u{2192} Execute\n\u{2022} Esc \u{2192} Cancel",
        };
        String::from_str(text)
    }
}

} // verus!
