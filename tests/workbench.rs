use supercode_skills::agents::{EchoTool, MicroAgent, Tool, UppercaseAgent};
use supercode_skills::command_manager::{CommandManager, PaletteKey};
use supercode_skills::command_palette::{Command, CommandAction, CommandCategory, CommandPaletteState, MAX_RECENT};
use supercode_skills::keyboard::{format_action_name, key, InputMode, KeyAction, KeyBindings, KeyCode, KeyboardManager};
use supercode_skills::graph::{transition, AgentGraph};
use supercode_skills::models::{MockLlm, ModelFormat, NativeModelInfo};
use supercode_skills::sidebar::{SidebarPanel, SidebarState};
use supercode_skills::theme::{ThemeCatalog, ThemeColor, ThemeName, TitleStyle};
use supercode_skills::sessions::{Session, SessionHistory, SessionManager, SessionTab, TabType};
use supercode_skills::tasks::{Priority, SessionState, StepStatus, TaskContext, UiSettings};
use supercode_skills::types::{AgentInput, AgentState, Message};
use supercode_skills::views::{AgentsView, DashboardView, ModelsView, Panel, SettingsView, TasksView, ViewId};

#[test]
fn agent_graph_numbers_nodes_in_order() {
    let mut g = AgentGraph::new();
    assert!(g.nodes.is_empty() && g.edges.is_empty());
    g.add_node("planner", AgentState::Planning);
    g.add_node("executor", AgentState::Idle);
    g.add_edge(0, 1);
    assert_eq!(g.nodes.len(), 2);
    assert_eq!(g.nodes[0].id, 0);
    assert_eq!(g.nodes[1].id, 1);
    assert_eq!(g.nodes[1].name, "executor");
    assert_eq!(g.nodes[1].state, AgentState::Idle);
    assert_eq!(g.edges, vec![(0, 1)]);
}

#[test]
fn life_cycle_moves_one_step_at_a_time() {
    assert!(transition(&AgentState::Idle, &AgentState::Planning));
    assert!(transition(&AgentState::Planning, &AgentState::Executing));
    assert!(transition(&AgentState::Executing, &AgentState::Reviewing));
    assert!(transition(&AgentState::Reviewing, &AgentState::Completed));
    assert!(transition(&AgentState::Completed, &AgentState::Failed));
    assert!(transition(&AgentState::Failed, &AgentState::Failed));
    assert!(!transition(&AgentState::Idle, &AgentState::Executing));
    assert!(!transition(&AgentState::Completed, &AgentState::Idle));
    assert!(!transition(&AgentState::Planning, &AgentState::Planning));
}

#[test]
fn message_keeps_role_and_content() {
    let m = Message::new("user", "hello");
    assert_eq!(m.role, "user");
    assert_eq!(m.content, "hello");
    assert!(m.ts > 0);
    assert_eq!(MockLlm::new("canned").response, "canned");
}

#[test]
fn views_cycle_in_tab_order() {
    let all = ViewId::all();
    assert_eq!(all, [ViewId::Dashboard, ViewId::Agents, ViewId::Models, ViewId::Tasks, ViewId::Settings]);
    for (i, v) in all.iter().enumerate() {
        assert_eq!(v.next(), all[(i + 1) % all.len()]);
    }
    assert_eq!(ViewId::Dashboard.title(), "Mission Control");
    assert_eq!(ViewId::Tasks.name(), "tasks");
    assert_eq!(Panel::titles(), ["Graph", "Conversation", "Logs"]);
}

#[test]
fn view_ticks_fill_empty_lists_once() {
    let mut agents = AgentsView::default();
    agents.tick();
    assert_eq!(agents.agents().len(), 4);
    assert_eq!(agents.agents()[0], "Planner \u{2022} Strategy");
    agents.tick();
    assert_eq!(agents.agents().len(), 4);

    let mut models = ModelsView::default();
    models.tick();
    assert_eq!(models.providers()[2], "LM Studio \u{2022} local");
    assert_eq!(models.models()[1], "mixtral-8x7b \u{2022} remote");

    let mut tasks = TasksView::default();
    tasks.tick();
    assert_eq!(tasks.queues(), &vec![String::from("Backlog \u{2022} 12"), String::from("Today \u{2022} 4"), String::from("Waiting \u{2022} 2")]);
    assert_eq!(tasks.active().len(), 3);

    let mut dash = DashboardView::default();
    dash.tick();
    assert!(dash.highlights().is_empty());
}

#[test]
fn themes_parse_in_any_case() {
    assert_eq!(SettingsView::parse_theme("DarkPlus"), Some(ThemeName::DarkPlus));
    assert_eq!(SettingsView::parse_theme("solarizedLIGHT"), Some(ThemeName::SolarizedLight));
    assert_eq!(SettingsView::parse_theme("peacocks"), Some(ThemeName::Peacocks));
    assert_eq!(SettingsView::parse_theme("solarized dark"), None);
    assert_eq!(SettingsView::parse_theme(""), None);
    assert_eq!(ThemeName::default(), ThemeName::DarkPlus);
}

#[test]
fn model_formats_come_from_extensions() {
    assert_eq!(ModelFormat::from_extension("GGUF"), ModelFormat::Gguf);
    assert_eq!(ModelFormat::from_extension("st"), ModelFormat::SafeTensors);
    assert_eq!(ModelFormat::from_extension("pth"), ModelFormat::Ggml);
    assert_eq!(ModelFormat::from_extension("Txt"), ModelFormat::Unknown(String::from("Txt")));
    assert_eq!(ModelFormat::Gguf.display_name(), "GGUF (llama.cpp)");
    assert_eq!(ModelFormat::Unknown(String::from("onnx")).display_name(), "onnx");
}

#[test]
fn sidebar_panels_wrap_around() {
    let mut s = SidebarState::new();
    assert_eq!(s.selected_panel, SidebarPanel::Tasks);
    s.prev_panel();
    assert_eq!(s.selected_panel, SidebarPanel::Memory);
    s.next_panel();
    assert_eq!(s.selected_panel, SidebarPanel::Tasks);
    s.next_panel();
    assert_eq!(s.selected_panel, SidebarPanel::Sessions);
    assert_eq!(SidebarPanel::Memory.icon(), "\u{1f9e0}");
    assert_eq!(SidebarPanel::Tasks.name(), "\u{1f4cb} Tasks");
}

#[test]
fn sidebar_expansion_toggles() {
    let mut s = SidebarState::new();
    assert!(s.is_panel_expanded(&SidebarPanel::Tasks));
    assert!(!s.is_panel_expanded(&SidebarPanel::Models));
    s.toggle_panel_expand(SidebarPanel::Models);
    assert!(s.is_panel_expanded(&SidebarPanel::Models));
    s.toggle_panel_expand(SidebarPanel::Tasks);
    assert_eq!(s.expanded_panels, vec![SidebarPanel::Sessions, SidebarPanel::Models]);
}

#[test]
fn recent_commands_keep_the_latest_ten() {
    let mut p = CommandPaletteState::new();
    for i in 0..12 {
        p.add_recent(&format!("cmd{i}"));
    }
    assert_eq!(p.recent_commands.len(), MAX_RECENT);
    assert_eq!(p.recent_commands[0], "cmd11");
    assert_eq!(p.recent_commands[9], "cmd2");
    p.add_recent("cmd5");
    assert_eq!(p.recent_commands[0], "cmd5");
    assert_eq!(p.recent_commands.iter().filter(|c| c.as_str() == "cmd5").count(), 1);
    assert_eq!(p.recent_commands.len(), MAX_RECENT);
}

#[test]
fn palette_selection_stays_in_range() {
    let mut p = CommandPaletteState::new();
    assert!(p.get_selected_command().is_none());
    p.select_next();
    p.select_prev();
    assert_eq!(p.selected_index, 0);
    assert_eq!(p.categories.len(), 8);
    assert_eq!(CommandCategory::Help.name(), "\u{2753} Help");
    assert_eq!(CommandCategory::Editor.icon(), "\u{270f}\u{fe0f}");
}

fn command(id: &str, title: &str, shortcut: Option<&str>, description: &str, keywords: &[&str]) -> Command {
    Command {
        id: id.to_string(),
        title: title.to_string(),
        category: CommandCategory::Navigation,
        shortcut: shortcut.map(|s| s.to_string()),
        description: description.to_string(),
        keywords: keywords.iter().map(|k| k.to_string()).collect(),
        action: CommandAction::Custom(id.to_string()),
    }
}

fn titles(p: &CommandPaletteState) -> Vec<&str> {
    p.filtered_commands.iter().map(|c| c.title.as_str()).collect()
}

#[test]
fn empty_query_lists_everything_shortcuts_first() {
    let cmds = vec![
        command("z", "Zoom", None, "", &[]),
        command("b", "Beta", Some("Ctrl+B"), "", &[]),
        command("a", "Alpha", None, "", &[]),
        command("c", "Close", Some("Ctrl+W"), "", &[]),
    ];
    let mut p = CommandPaletteState::new();
    p.selected_index = 3;
    p.filter_commands(&cmds);
    assert_eq!(titles(&p), vec!["Beta", "Close", "Alpha", "Zoom"]);
    assert_eq!(p.selected_index, 0);
}

#[test]
fn query_matches_title_description_or_keyword_ignoring_case() {
    let cmds = vec![
        command("1", "Open File", None, "", &[]),
        command("2", "Save", None, "write the FILE to disk", &[]),
        command("3", "Jump", None, "", &["Goto", "file"]),
        command("4", "Quit", None, "leave", &["exit"]),
    ];
    let mut p = CommandPaletteState::new();
    p.query = String::from("FiLe");
    p.filter_commands(&cmds);
    assert_eq!(titles(&p), vec!["Jump", "Open File", "Save"]);
    p.query = String::from("nothing");
    p.filter_commands(&cmds);
    assert!(p.filtered_commands.is_empty());
}

#[test]
fn equal_titles_keep_their_order_and_the_list_is_capped() {
    let mut cmds = Vec::new();
    for i in 0..25 {
        cmds.push(command(&format!("id{i}"), "Same", None, "", &[]));
    }
    let mut p = CommandPaletteState::new();
    p.filter_commands(&cmds);
    assert_eq!(p.filtered_commands.len(), 20);
    for (i, c) in p.filtered_commands.iter().enumerate() {
        assert_eq!(c.id, format!("id{i}"));
    }
    p.select_next();
    assert_eq!(p.selected_index, 1);
    assert_eq!(p.get_selected_command().unwrap().id, "id1");
}

#[test]
fn uppercase_agent_and_echo_tool() {
    let a = UppercaseAgent;
    assert_eq!(a.name(), "uppercase");
    let out = a.execute(AgentInput { text: String::from("make it loud") }).unwrap();
    assert_eq!(out.text, "MAKE IT LOUD");
    let t = EchoTool;
    assert_eq!(t.name(), "echo");
    assert_eq!(t.description(), "Returns the input text");
    assert_eq!(t.run(AgentInput { text: String::from("same") }).unwrap().text, "same");
}

#[test]
fn key_actions_have_readable_labels() {
    assert_eq!(format_action_name(&KeyAction::CommandPalette), "Command Palette");
    assert_eq!(format_action_name(&KeyAction::GoToLine), "Go to Line");
    assert_eq!(format_action_name(&KeyAction::SwitchToTerminal), "Switch to Terminal");
    assert_eq!(format_action_name(&KeyAction::F12), "F12");
    assert_eq!(InputMode::default(), InputMode::Chat);
}

#[test]
fn task_and_settings_defaults() {
    let ui = UiSettings::default();
    assert!(ui.show_sidebar && ui.show_status_bar && ui.show_tabs);
    assert_eq!((ui.sidebar_width, ui.terminal_height, ui.font_size), (25, 20, 14));
    assert_eq!(ui.theme, "DarkPlus");
    assert_eq!(StepStatus::default(), StepStatus::Pending);
    assert!(Priority::Low < Priority::Critical);
    let ctx = TaskContext::default();
    assert!(ctx.files.is_empty() && ctx.goals.is_empty() && ctx.output_format.is_none());
}

#[test]
fn command_manager_registers_the_built_in_commands() {
    let m = CommandManager::new();
    let all = m.get_all_commands();
    assert_eq!(all.len(), 17);
    assert_eq!(all[0].id, "command_palette");
    assert!(!m.palette_state.is_open);
    let help = m.get_command("help").unwrap();
    assert_eq!(help.title, "Help");
    assert_eq!(help.shortcut.as_deref(), Some("F1"));
    assert!(m.get_command("missing").is_none());
    let models = m.get_command("list_models").unwrap();
    assert!(models.shortcut.is_none());
}

#[test]
fn registering_an_existing_id_replaces_it() {
    let mut m = CommandManager::new();
    m.register_command(command("help", "Manual", None, "read it", &[]));
    assert_eq!(m.get_all_commands().len(), 17);
    assert_eq!(m.get_command("help").unwrap().title, "Manual");
    m.register_command(command("deploy", "Deploy", None, "ship it", &[]));
    assert_eq!(m.get_all_commands().len(), 18);
    assert_eq!(m.get_all_commands()[17].id, "deploy");
}

#[test]
fn palette_keys_edit_the_query_and_run_the_selection() {
    let mut m = CommandManager::new();
    assert!(m.handle_key(PaletteKey::Char { c: 'x', control: false }).is_none());
    assert!(m.palette_state.query.is_empty());
    m.open();
    assert!(m.palette_state.is_open);
    assert_eq!(m.palette_state.filtered_commands.len(), 17);
    assert_eq!(m.palette_state.filtered_commands[0].title, "Close Session");
    assert_eq!(m.palette_state.filtered_commands[13].title, "Import Model");
    for c in "model".chars() {
        m.handle_key(PaletteKey::Char { c, control: false });
    }
    let listed: Vec<&str> = m.palette_state.filtered_commands.iter().map(|c| c.id.as_str()).collect();
    assert_eq!(listed, vec!["import_model", "list_models"]);
    m.handle_key(PaletteKey::Char { c: 'q', control: true });
    assert_eq!(m.palette_state.query, "model");
    m.handle_key(PaletteKey::Backspace);
    assert_eq!(m.palette_state.query, "mode");
    m.handle_key(PaletteKey::Down);
    assert_eq!(m.palette_state.selected_index, 1);
    m.handle_key(PaletteKey::Char { c: 'k', control: false });
    assert_eq!(m.palette_state.selected_index, 0);
    m.handle_key(PaletteKey::Char { c: 'j', control: false });
    let action = m.handle_key(PaletteKey::Enter);
    assert!(matches!(action, Some(CommandAction::ListModels)));
    assert!(!m.palette_state.is_open);
    assert!(m.palette_state.query.is_empty());
    assert_eq!(m.palette_state.recent_commands[0], "list_models");
    m.toggle();
    assert!(m.palette_state.is_open);
    m.handle_key(PaletteKey::Esc);
    assert!(!m.palette_state.is_open);
    m.toggle();
    m.close();
    assert!(!m.palette_state.is_open);
}

#[test]
fn themes_resolve_to_their_colours() {
    let catalog = ThemeCatalog;
    let nord = catalog.resolve(&ThemeName::Nord);
    assert_eq!(nord.name, "Nord");
    assert_eq!(nord.accent, ThemeColor::Rgb(136, 192, 208));
    assert_eq!(nord.text, ThemeColor::Rgb(216, 222, 233));
    assert_eq!(nord.title_style, TitleStyle { fg: ThemeColor::Rgb(136, 192, 208), bold: true });
    let light = catalog.resolve(&ThemeName::Light);
    assert_eq!((light.accent, light.text, light.muted_text), (ThemeColor::Blue, ThemeColor::Black, ThemeColor::DarkGray));
}

#[test]
fn key_bindings_resolve_the_latest_binding() {
    let b = KeyBindings::new();
    assert_eq!(b.find_action(key(KeyCode::Char('p'), true, false, false)), Some(KeyAction::CommandPalette));
    assert_eq!(b.find_action(key(KeyCode::Char('p'), false, true, false)), Some(KeyAction::CommandPalette));
    assert_eq!(b.find_action(key(KeyCode::Char('c'), true, false, false)), Some(KeyAction::InterruptAgent));
    assert_eq!(b.find_action(key(KeyCode::Char('a'), true, false, false)), Some(KeyAction::AgentsSettings));
    assert_eq!(b.find_action(key(KeyCode::Tab, true, false, false)), Some(KeyAction::NextTab));
    assert_eq!(b.find_action(key(KeyCode::Tab, false, false, false)), Some(KeyAction::Tab));
    assert_eq!(b.find_action(key(KeyCode::Tab, false, false, true)), Some(KeyAction::Tab));
    assert_eq!(b.find_action(key(KeyCode::Char('s'), true, false, true)), Some(KeyAction::Save));
    assert_eq!(b.find_action(key(KeyCode::F(1), false, false, false)), Some(KeyAction::Help));
    assert_eq!(b.find_action(key(KeyCode::Char('q'), false, false, false)), None);
    assert!(b.is_standard_shortcut(key(KeyCode::Esc, false, false, false)));
    assert!(!b.is_standard_shortcut(key(KeyCode::Char('q'), true, true, false)));
    assert_eq!(
        b.get_bindings(&KeyAction::Redo),
        vec![key(KeyCode::Char('y'), true, false, false), key(KeyCode::Char('z'), true, false, true)]
    );
    assert!(b.get_bindings(&KeyAction::GoToLine).len() == 1);
    assert!(b.get_bindings(&KeyAction::DeleteLine).is_empty());
}

#[test]
fn added_bindings_take_precedence() {
    let mut b = KeyBindings::new();
    b.add_binding(KeyAction::DeleteLine, vec![key(KeyCode::Char('d'), true, false, false), key(KeyCode::Char('p'), true, false, false)]);
    assert_eq!(b.find_action(key(KeyCode::Char('p'), true, false, false)), Some(KeyAction::DeleteLine));
    assert_eq!(b.get_bindings(&KeyAction::DeleteLine).len(), 2);
    b.add_binding(KeyAction::DeleteLine, vec![]);
    assert!(b.get_bindings(&KeyAction::DeleteLine).is_empty());
}

#[test]
fn keyboard_manager_switches_modes_on_unbound_tab() {
    let mut k = KeyboardManager::new();
    assert_eq!(k.get_input_mode(), InputMode::Chat);
    assert_eq!(k.handle_key(key(KeyCode::Char('s'), true, false, false)), Some(KeyAction::Save));
    assert_eq!(k.handle_key(key(KeyCode::Tab, false, false, false)), Some(KeyAction::Tab));
    assert_eq!(k.get_input_mode(), InputMode::Chat);
    assert_eq!(k.handle_key(key(KeyCode::Tab, false, true, false)), Some(KeyAction::Tab));
    assert_eq!(k.get_input_mode(), InputMode::Terminal);
    assert_eq!(k.handle_key(key(KeyCode::Tab, false, true, false)), Some(KeyAction::Tab));
    assert_eq!(k.get_input_mode(), InputMode::Chat);
    assert_eq!(k.handle_key(key(KeyCode::Char('q'), false, false, false)), None);
    k.set_input_mode(InputMode::Command);
    assert!(k.get_context_help().starts_with("\u{1f3af} Command Mode\n"));
    assert!(k.get_context_help().ends_with("\u{2022} Esc \u{2192} Cancel"));
    k.set_input_mode(InputMode::Chat);
    assert!(k.get_context_help().contains("Tab \u{2192} Switch to Terminal"));
}

#[test]
fn test_model_info_from_path() {
    let info = NativeModelInfo::from_path("/models/test-model.gguf", Some("test-model"), Some("gguf"), 19);
    assert_eq!(info.name, "test-model");
    assert_eq!(info.format, ModelFormat::Gguf);
    assert!(!info.is_loaded);
    assert_eq!(info.size, 19);
    let bare = NativeModelInfo::from_path("/models/blob", None, None, 0);
    assert_eq!(bare.name, "unknown");
    assert_eq!(bare.format, ModelFormat::Unknown(String::from("unknown")));
}

#[test]
fn session_history_keeps_the_latest_entries() {
    let mut h = SessionHistory::new(4);
    for i in 0..6 {
        h.add_message("user", &format!("m{i}"));
        h.add_command(&format!("c{i}"));
        h.add_output(&format!("o{i}"));
    }
    let contents: Vec<&str> = h.messages.iter().map(|m| m.content.as_str()).collect();
    assert_eq!(contents, vec!["m2", "m3", "m4", "m5"]);
    assert_eq!(h.commands, vec![String::from("c4"), String::from("c5")]);
    assert_eq!(h.outputs, vec![String::from("o4"), String::from("o5")]);
    assert_eq!(h.messages[3].role, "user");
    assert_ne!(h.messages[0].id, h.messages[1].id);
}

#[test]
fn session_manager_switches_the_active_session() {
    let mut m = SessionManager::new();
    let a = Session::new("alpha", "local.gguf");
    let b = Session::new("beta", "local.gguf");
    let (a_id, b_id) = (a.id.clone(), b.id.clone());
    assert_eq!(a.state, SessionState::Active);
    m.add_session(a);
    m.add_session(b);
    assert_eq!(m.get_all_sessions().len(), 2);
    assert!(m.get_active_session().is_none());
    m.set_active_session(Some(&a_id));
    assert_eq!(m.get_active_session().unwrap().name, "alpha");
    m.switch_session(&a_id, &b_id);
    assert_eq!(m.get_session(&a_id).unwrap().state, SessionState::Paused);
    assert_eq!(m.get_session(&b_id).unwrap().state, SessionState::Active);
    assert_eq!(m.get_active_session().unwrap().name, "beta");
    let mut renamed = m.get_session(&a_id).unwrap();
    renamed.name = String::from("gamma");
    m.add_session(renamed);
    assert_eq!(m.get_all_sessions().len(), 2);
    assert_eq!(m.get_session(&a_id).unwrap().name, "gamma");
    assert!(m.get_session("nope").is_none());
    m.set_active_session(None);
    assert!(m.get_active_session().is_none());
}

#[test]
fn session_tabs_are_named_by_kind() {
    let chat = SessionTab::new_chat("Chat");
    assert_eq!(chat.name, "Chat");
    assert_eq!(chat.tab_type, TabType::Chat);
    let term = SessionTab::new_terminal("Terminal");
    assert_eq!(term.name, "\u{26a1} Terminal");
    assert_eq!(term.tab_type, TabType::Terminal);
    assert_ne!(chat.id, term.id);
    assert!(!SessionTab::default().modified);
}
