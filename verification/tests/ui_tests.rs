use chronobind::app_state::{
    bottom_bar_text, branch_to_load, copy_decision, global_key_action, key_route, paste_decision,
    title_text, AppInputMode, GlobalKeyAction, InputState, KeyRoute, PasteDecision,
};
use chronobind::character::Character;
use chronobind::character_list::{CharacterListItemKind, CharacterListWidget, NavigationAction};
use chronobind::cli::{ChronoCLIArgs, TargetTerminal};
use chronobind::config::ChronoBindAppConfig;
use chronobind::console::ConsoleWidget;
use chronobind::file_list::{FileListWidget, FileRowKind, FileSelectionAction};
use chronobind::log::{LogLevel, TuiLogger};
use chronobind::options::{preferred_branch_display, OptionKind, OptionsPopup, OptionsPopupCommand};
use chronobind::palette::{
    checkbox, dual_highlight_str, enter_symbol, expandable_icon, format_option, highlight_str,
    indentation, pinned_string,
};
use chronobind::path::ChronoPath;
use chronobind::task::{task_step, IOProgress, IOTaskKind, IOTaskState, TaskStep};
use chronobind::terminal::{detect_terminal_type, TerminalType};
use chronobind::ui::{
    lower_keycode, popup_extent, scroll_content_length, truncate_with_ellipsis, KeyInput, KeyPress,
    ListSelection,
};
use chronobind::wow::{WoWCharacter, WoWCharacterFile, WoWClass, WoWInstall, WoWInstalls};

fn key(c: KeyPress) -> KeyInput {
    KeyInput { code: c, ctrl: false }
}

fn ctrl(c: KeyPress) -> KeyInput {
    KeyInput { code: c, ctrl: true }
}

fn file(name: &str) -> WoWCharacterFile {
    WoWCharacterFile {
        name: name.to_string(),
        stem: name.to_string(),
        path: ChronoPath::from_segment(name),
        friendly_name: None,
    }
}

fn wow_character(name: &str, realm: &str, configs: usize, addons: usize) -> WoWCharacter {
    WoWCharacter {
        account: "1".to_string(),
        branch: "retail".to_string(),
        name: name.to_string(),
        realm: realm.to_string(),
        class: WoWClass::Mage,
        config_files: (0..configs).map(|i| file(&format!("c{i}.txt"))).collect(),
        addon_files: (0..addons).map(|i| file(&format!("a{i}.lua"))).collect(),
        backups: vec![],
    }
}

#[test]
fn character_selection() {
    let mut c = Character::new(&wow_character("Arthas", "Silvermoon", 2, 3));
    assert_eq!(c.display_name(true), "Arthas - Silvermoon");
    assert_eq!(c.display_name(false), "Arthas");
    assert!(!c.any_file_selected());
    assert!(c.toggle_config_file_selected(1));
    assert!(c.is_config_file_selected(1));
    assert!(!c.is_config_file_selected(7));
    assert!(!c.toggle_config_file_selected(7));
    assert!(c.toggle_addon_file_selected(0));
    assert!(c.any_file_selected());
    assert_eq!(c.selected_config_count(), 1);
    assert_eq!(c.total_selected_count(), 2);
    let paths: Vec<Vec<String>> = c.get_all_selected_files().into_iter().map(|p| p.segments).collect();
    assert_eq!(paths, vec![vec!["c1.txt".to_string()], vec!["SavedVariables".to_string(), "a0.lua".to_string()]]);
    assert!(!c.toggle_config_file_selected(1));
    assert!(!c.is_config_file_selected(1));
    c.set_all_selected(true);
    assert!(c.all_config_files_selected() && c.all_addon_files_selected());
    assert_eq!(c.total_selected_count(), 5);
    c.set_all_addon_selected(false);
    assert!(!c.any_addon_file_selected());
    assert_eq!(c.selected_addon_count(), 0);
}

#[test]
fn file_rows_and_selection_keys() {
    let mut c = Character::new(&wow_character("Arthas", "S", 2, 2));
    let rows = FileListWidget::file_rows_for_character(&c);
    assert_eq!(rows, vec![
        FileRowKind::File(0),
        FileRowKind::File(1),
        FileRowKind::AddonHeader { collapsed: false, count: 2 },
        FileRowKind::AddonFile(0),
        FileRowKind::AddonFile(1),
    ]);
    let mut w = FileListWidget::new();
    assert_eq!(w.handle_file_selection_input(&key(KeyPress::Down), &mut c), FileSelectionAction::NoAction);
    assert_eq!(w.state.selected(), None);
    w.state.select(Some(0));
    w.handle_file_selection_input(&key(KeyPress::Down), &mut c);
    assert_eq!(w.state.selected(), Some(1));
    w.handle_file_selection_input(&key(KeyPress::Char(' ')), &mut c);
    assert!(c.is_config_file_selected(1));
    w.handle_file_selection_input(&ctrl(KeyPress::Enter), &mut c);
    assert!(c.all_config_files_selected());
    w.handle_file_selection_input(&ctrl(KeyPress::Enter), &mut c);
    assert!(!c.any_config_file_selected());
    w.state.select(Some(2));
    w.handle_file_selection_input(&key(KeyPress::Right), &mut c);
    assert!(c.addon_options_collapsed);
    assert_eq!(FileListWidget::file_rows_for_character(&c).len(), 3);
    w.handle_file_selection_input(&key(KeyPress::Char('D')), &mut c);
    assert!(!c.addon_options_collapsed);
    w.handle_file_selection_input(&ctrl(KeyPress::Char('a')), &mut c);
    assert!(c.all_config_files_selected() && c.all_addon_files_selected());
    w.handle_file_selection_input(&ctrl(KeyPress::Char('A')), &mut c);
    assert!(!c.any_file_selected());
    w.handle_file_selection_input(&key(KeyPress::Up), &mut c);
    w.handle_file_selection_input(&key(KeyPress::Char('w')), &mut c);
    w.handle_file_selection_input(&key(KeyPress::Char('W')), &mut c);
    assert_eq!(w.state.selected(), Some(0));
    assert_eq!(w.handle_file_selection_input(&key(KeyPress::Char('a')), &mut c), FileSelectionAction::ExitFileSelection);
    assert_eq!(w.handle_file_selection_input(&key(KeyPress::Esc), &mut c), FileSelectionAction::ExitFileSelection);
    assert_eq!(w.handle_file_selection_input(&key(KeyPress::Char('B')), &mut c), FileSelectionAction::ShowBackup);
    assert_eq!(w.handle_file_selection_input(&key(KeyPress::Char('c')), &mut c), FileSelectionAction::Copy);
}

#[test]
fn character_list_groups_by_realm() {
    let chars = vec![
        Character::new(&wow_character("Zed", "Stormrage", 0, 0)),
        Character::new(&wow_character("Amy", "Argent Dawn", 0, 0)),
        Character::new(&wow_character("Bob", "Stormrage", 0, 0)),
    ];
    let mut w = CharacterListWidget::new();
    let items = w.get_character_list_items(&chars);
    let shape: Vec<String> = items
        .iter()
        .map(|i| match i {
            CharacterListItemKind::Character(c) => format!("c{c}"),
            CharacterListItemKind::RealmHeader { realm_ident, collapsed, count } => format!("{realm_ident}:{collapsed}:{count}"),
        })
        .collect();
    assert_eq!(shape, vec!["Argent Dawn:false:1", "c1", "Stormrage:false:2", "c0", "c2"]);
    assert_eq!(w.selected_index(), 0);
    assert_eq!(w.get_selected_character_index(&items), None);
    assert_eq!(w.handle_navigation_input(&key(KeyPress::Down), &chars), NavigationAction::NoAction);
    assert_eq!(w.selected_index(), 0);
    assert_eq!(w.handle_navigation_input(&key(KeyPress::Down), &chars), NavigationAction::NoAction);
    assert_eq!(w.get_selected_character_index_from_chars(&chars), Some(1));
    assert_eq!(w.handle_navigation_input(&key(KeyPress::Enter), &chars), NavigationAction::EnterFileSelection);
    assert_eq!(w.handle_navigation_input(&key(KeyPress::Char('B')), &chars), NavigationAction::ShowBackup(1));
    assert_eq!(w.handle_navigation_input(&key(KeyPress::Char('c')), &chars), NavigationAction::Copy(1));
    assert_eq!(w.handle_navigation_input(&key(KeyPress::Char('v')), &chars), NavigationAction::Paste(1));
    w.state.select(Some(2));
    assert_eq!(w.handle_navigation_input(&key(KeyPress::Char(' ')), &chars), NavigationAction::NoAction);
    let folded = w.get_character_list_items(&chars);
    assert_eq!(folded.len(), 3);
    assert!(matches!(&folded[2], CharacterListItemKind::RealmHeader { collapsed: true, count: 2, .. }));
    assert_eq!(w.handle_navigation_input(&key(KeyPress::Char('d')), &chars), NavigationAction::NoAction);
    assert_eq!(w.get_character_list_items(&chars).len(), 5);
    w.state.select(Some(1));
    assert_eq!(w.handle_navigation_input(&key(KeyPress::Up), &chars), NavigationAction::NoAction);
    assert_eq!(w.state.selected(), Some(0));
    assert_eq!(w.handle_navigation_input(&key(KeyPress::Char('x')), &chars), NavigationAction::NoAction);
}

fn installs() -> WoWInstalls {
    let mk = |b: &str| WoWInstall { product_code: "wow".into(), branch_ident: b.into(), install_path: "/w".into() };
    WoWInstalls::new_from_installs(vec![mk("retail"), mk("classic"), mk("ptr")])
}

#[test]
fn options_popup_adjusts_the_configuration() {
    let cfg = ChronoBindAppConfig::load_config_or_default(None);
    assert!(cfg.show_friendly_names && cfg.mock_mode && cfg.display_character_levels);
    assert_eq!(cfg.maximum_auto_backups, Some(10));
    assert_eq!(cfg.preferred_branch.as_deref(), Some("retail"));
    let mut p = OptionsPopup::new(cfg, installs(), None);
    assert_eq!(p.selected_option(), Some(OptionKind::ShowFriendlyNames));
    p.on_key_down(&key(KeyPress::Enter));
    assert!(!p.configuration.show_friendly_names);
    assert_eq!(p.commands.len(), 1);
    p.on_key_down(&key(KeyPress::Down));
    p.on_key_down(&key(KeyPress::Down));
    assert_eq!(p.selected_option(), Some(OptionKind::MaximumAutoBackups));
    p.on_key_down(&key(KeyPress::Left));
    assert_eq!(p.configuration.maximum_auto_backups, Some(9));
    p.on_key_down(&key(KeyPress::Right));
    p.on_key_down(&key(KeyPress::Right));
    assert_eq!(p.configuration.maximum_auto_backups, Some(11));
    p.configuration.maximum_auto_backups = Some(0);
    p.on_key_down(&key(KeyPress::Char('a')));
    assert_eq!(p.configuration.maximum_auto_backups, None);
    let before = p.commands.len();
    p.on_key_down(&key(KeyPress::Left));
    assert_eq!(p.configuration.maximum_auto_backups, None);
    assert_eq!(p.commands.len(), before);
    p.on_key_down(&key(KeyPress::Right));
    assert_eq!(p.configuration.maximum_auto_backups, Some(0));
    p.on_key_down(&key(KeyPress::Down));
    assert_eq!(p.selected_option(), Some(OptionKind::PreferredBranch));
    p.on_key_down(&key(KeyPress::Left));
    assert_eq!(p.configuration.preferred_branch.as_deref(), Some("ptr"));
    p.on_key_down(&key(KeyPress::Right));
    p.on_key_down(&key(KeyPress::Right));
    assert_eq!(p.configuration.preferred_branch.as_deref(), Some("classic"));
    assert_eq!(p.get_selected_branch_index(), Some(1));
    p.on_key_down(&key(KeyPress::Down));
    assert_eq!(p.selected_option(), None);
    p.on_key_down(&key(KeyPress::Esc));
    assert!(p.should_close());
    match p.commands.last().unwrap() {
        OptionsPopupCommand::UpdateConfiguration(c) => assert_eq!(c.preferred_branch.as_deref(), Some("classic")),
    }
    assert_eq!(OptionKind::MockMode.title(), "Mock mode (Don't perform file operations)");
    assert_eq!(OptionKind::MockMode.get_bottom_bar_segments("Enter"), vec!["Enter/→/Space: Toggle".to_string()]);
    assert_eq!(OptionKind::PreferredBranch.get_bottom_bar_segments("Enter"), vec!["←/→: Adjust".to_string()]);
    assert_eq!(OptionKind::get_options_list().len(), 4);
}

#[test]
fn preferred_branch_text() {
    let i = installs();
    assert_eq!(preferred_branch_display(None, &i), "None");
    assert_eq!(preferred_branch_display(Some(&"RETAIL".to_string()), &i), "Retail");
    assert_eq!(preferred_branch_display(Some(&"classic".to_string()), &i), "Classic");
    assert_eq!(preferred_branch_display(Some(&"beta".to_string()), &i), "Unknown(beta)");
}

#[test]
fn console_scrolling() {
    let mut c = ConsoleWidget::new();
    assert!(!c.is_visible());
    c.toggle_show();
    assert!(c.is_visible());
    c.set_show(false);
    assert!(!c.is_visible());
    c.handle_input(&key(KeyPress::Up));
    c.handle_input(&ctrl(KeyPress::Char('w')));
    assert_eq!(c.scroll_offset, 4);
    c.handle_input(&key(KeyPress::PageDown));
    assert_eq!(c.scroll_offset, 0);
    c.handle_input(&ctrl(KeyPress::PageUp));
    assert_eq!(c.scroll_offset, 30);
    c.handle_input(&key(KeyPress::End));
    assert_eq!(c.scroll_offset, TuiLogger::MAX_LOG_SIZE);
    assert_eq!(c.visible_range(50, 12), (0, 10));
    assert_eq!(c.scroll_offset, 40);
    c.handle_input(&key(KeyPress::Home));
    assert_eq!(c.visible_range(50, 12), (40, 50));
    assert_eq!(c.visible_range(5, 12), (0, 5));
    assert_eq!(c.visible_range(5, 1), (5, 5));
}

#[test]
fn log_buffer() {
    let mut l = TuiLogger::new();
    l.log(LogLevel::Info, "first\nsecond\r\nthird\n");
    let lines: Vec<&str> = l.logs.iter().map(|x| x.content()).collect();
    assert_eq!(lines, vec!["third", "second", "[INFO] first"]);
    assert_eq!(l.logs[0].level(), LogLevel::Info);
    for i in 0..1200 {
        l.log(LogLevel::Warn, &format!("m{i}"));
    }
    assert_eq!(l.logs.len(), TuiLogger::MAX_LOG_SIZE);
    assert_eq!(l.logs[0].content(), "[WARN] m1199");
}

#[test]
fn palette_texts() {
    assert_eq!(pinned_string(true, true), "☆ ");
    assert_eq!(pinned_string(true, false), "** ");
    assert_eq!(pinned_string(false, true), "");
    assert_eq!(checkbox(true, false), "[X]");
    assert_eq!(checkbox(true, true), "[✓]");
    assert_eq!(checkbox(false, true), "[ ]");
    assert_eq!(highlight_str("x", true), "> x");
    assert_eq!(highlight_str("x", false), "x");
    assert_eq!(dual_highlight_str("x", true), "> x <");
    assert_eq!(expandable_icon(true), "▶");
    assert_eq!(expandable_icon(false), "▼");
    assert_eq!(indentation(3), "   ");
    assert_eq!(enter_symbol().get(true), "↵");
    assert_eq!(enter_symbol().get(false), "Enter");
    assert_eq!(format_option(None), "None");
    assert_eq!(format_option(Some(&"retail".to_string())), "retail");
}

#[test]
fn application_decisions() {
    assert_eq!(global_key_action(&key(KeyPress::Char('R'))), GlobalKeyAction::Refresh);
    assert_eq!(global_key_action(&key(KeyPress::Char('~'))), GlobalKeyAction::ToggleConsole);
    assert_eq!(global_key_action(&key(KeyPress::Char('t'))), GlobalKeyAction::ShowBranchSelect);
    assert_eq!(global_key_action(&key(KeyPress::Char('O'))), GlobalKeyAction::ShowOptions);
    assert_eq!(global_key_action(&key(KeyPress::Char('q'))), GlobalKeyAction::Quit);
    assert_eq!(global_key_action(&key(KeyPress::Enter)), GlobalKeyAction::NoAction);
    assert_eq!(key_route(true, AppInputMode::Navigation), KeyRoute::Console);
    assert_eq!(key_route(false, AppInputMode::FileSelection), KeyRoute::FileSelection);
    assert_eq!(key_route(false, AppInputMode::Popup), KeyRoute::Ignored);
    assert_eq!(paste_decision(None, 1, 3), PasteDecision::NothingCopied);
    assert_eq!(paste_decision(Some(1), 1, 3), PasteDecision::SameCharacter);
    assert_eq!(paste_decision(Some(0), 5, 3), PasteDecision::InvalidTarget);
    assert_eq!(paste_decision(Some(0), 2, 3), PasteDecision::Confirm { source: 0, target: 2 });
    assert_eq!(copy_decision(None, Some(1), 3, true), Some(1));
    assert_eq!(copy_decision(Some(0), Some(1), 3, false), Some(0));
    assert_eq!(copy_decision(Some(0), Some(9), 3, true), Some(0));
    let mut s = InputState::new();
    s.input_mode = AppInputMode::FileSelection;
    s.set_popup_input();
    s.set_popup_input();
    assert_eq!(s.input_mode, AppInputMode::Popup);
    s.restore_input_from_popup();
    assert_eq!(s.input_mode, AppInputMode::FileSelection);
    s.restore_input_from_popup();
    assert_eq!(s.input_mode, AppInputMode::Navigation);
    assert_eq!(title_text(true), " ChronoBind [Safe] ");
    assert_eq!(title_text(false), " ChronoBind ");
    let mut cfg = ChronoBindAppConfig::default();
    assert_eq!(branch_to_load(&cfg), "retail");
    cfg.preferred_branch = None;
    assert_eq!(branch_to_load(&cfg), "retail");
    cfg.preferred_branch = Some("ptr".to_string());
    assert_eq!(branch_to_load(&cfg), "ptr");
}

#[test]
fn status_bar_texts() {
    assert_eq!(
        bottom_bar_text(false, AppInputMode::Navigation, true, &vec![]),
        " ↑/↓ | ↵/→/Space: Select | (B)ackup | (C)opy | V: Paste | T: WoW Version | (O)ptions | (Q)uit"
    );
    assert_eq!(
        bottom_bar_text(true, AppInputMode::FileSelection, false, &vec![]),
        " ↑/↓ | PgUp/PgDn: Fast Scroll | Home/End: Jump"
    );
    assert_eq!(
        bottom_bar_text(false, AppInputMode::Popup, false, &vec!["a".to_string(), "b".to_string()]),
        " a | b"
    );
    assert_eq!(bottom_bar_text(false, AppInputMode::Popup, false, &vec![]), " ");
}

#[test]
fn relaunch_and_terminals() {
    let mut args = ChronoCLIArgs { file_to_import: None, no_relaunch: false, terminal: None, preferred_only: false, relaunched: true };
    assert!(args.has_relaunched());
    assert!(!args.should_relaunch(None));
    args.terminal = Some(TargetTerminal::WezTerm);
    assert!(args.should_relaunch(None));
    assert!(args.should_relaunch(Some(TargetTerminal::Kitty)));
    assert!(!args.should_relaunch(Some(TargetTerminal::WezTerm)));
    assert_eq!(detect_terminal_type(true, Some("vscode")), TerminalType::WindowsTerminal);
    assert_eq!(detect_terminal_type(false, Some("VSCode")), TerminalType::VSCodeTerminal);
    assert_eq!(detect_terminal_type(false, Some("Apple_Terminal")), TerminalType::Standard);
    assert_eq!(detect_terminal_type(false, None), TerminalType::Standard);
    assert!(TerminalType::VSCodeTerminal.supports_better_symbols());
    assert!(!TerminalType::Standard.supports_better_symbols());
    assert_eq!(TerminalType::WindowsTerminal.name(), "Windows Terminal");
}

#[test]
fn task_progress() {
    let mut s = IOTaskState::new();
    s.poll(vec![IOProgress::Started { total: 4 }, IOProgress::Advanced { completed: 1, total: 4 }]);
    assert!(s.started && !s.finished);
    assert_eq!((s.completed, s.total), (1, 4));
    s.poll(vec![]);
    assert_eq!(s.completed_count(), Some(1));
    s.apply(IOProgress::Error("disk full".to_string()));
    assert!(s.finished);
    assert_eq!(s.error.as_deref(), Some("disk full"));
    let mut t = IOTaskState::new();
    t.apply(IOProgress::Finished);
    assert!(t.finished && t.error.is_none());
    assert_eq!(t.total_count(), Some(0));
    assert_eq!(IOTaskKind::BackupCharacter(true).name(), "Selective character backup");
    assert_eq!(IOTaskKind::BackupCharacter(false).name(), "Full character backup");
    assert_eq!(IOTaskKind::PasteFiles.label(), "Pasting");
}

#[test]
fn keys_and_lists() {
    assert_eq!(lower_keycode(KeyPress::Char('Q')), KeyPress::Char('q'));
    assert_eq!(lower_keycode(KeyPress::Char('É')), KeyPress::Char('É'));
    assert_eq!(lower_keycode(KeyPress::Enter), KeyPress::Enter);
    let mut s = ListSelection::new();
    s.select_previous();
    assert_eq!(s.selected(), Some(usize::MAX));
    s.select_next();
    assert_eq!(s.selected(), Some(usize::MAX));
    s.select(None);
    s.select_next();
    assert_eq!(s.selected(), Some(0));
    s.select_previous();
    assert_eq!(s.selected(), Some(0));
    assert_eq!(truncate_with_ellipsis("hello world", 8), "hello...");
    assert_eq!(truncate_with_ellipsis("hello", 8), "hello");
    assert_eq!(truncate_with_ellipsis("hello", 5), "hello");
    assert_eq!(truncate_with_ellipsis("hello", 3), "...");
    assert_eq!(truncate_with_ellipsis("hello", 2), "..");
    assert_eq!(truncate_with_ellipsis("héllo wörld", 6), "hél...");
    assert_eq!(truncate_with_ellipsis("ab", 3), "ab");
    assert_eq!(truncate_with_ellipsis("ab", 2), "ab");
    assert_eq!(truncate_with_ellipsis("", 0), "");
    assert_eq!(truncate_with_ellipsis("abcd", 3), "...");
    assert_eq!(truncate_with_ellipsis("abcd", 0), "");
}

#[test]
fn every_character_listed_once_unless_folded() {
    let chars = vec![
        Character::new(&wow_character("B", "Zul", 0, 0)),
        Character::new(&wow_character("A", "Argus", 0, 0)),
        Character::new(&wow_character("C", "Zul", 0, 0)),
    ];
    let mut w = CharacterListWidget::new();
    let shown = |items: &Vec<CharacterListItemKind>, i: usize| {
        items.iter().filter(|it| matches!(it, CharacterListItemKind::Character(j) if *j == i)).count()
    };
    let items = w.get_character_list_items(&chars);
    for i in 0..chars.len() {
        assert_eq!(shown(&items, i), 1);
    }
    w.collapsed_realms.push("Zul".to_string());
    let folded = w.get_character_list_items(&chars);
    assert_eq!(shown(&folded, 0), 0);
    assert_eq!(shown(&folded, 1), 1);
    assert_eq!(shown(&folded, 2), 0);
}

#[test]
fn popup_geometry() {
    assert_eq!(popup_extent(100, 35, 30), 35);
    assert_eq!(popup_extent(50, 35, 30), 30);
    assert_eq!(popup_extent(200, 90, 10), 180);
    assert_eq!(popup_extent(0, 30, 10), 10);
    assert_eq!(scroll_content_length(10, 8), 5);
    assert_eq!(scroll_content_length(2, 8), 0);
    assert_eq!(scroll_content_length(4, 2), 4);
}

#[test]
fn closing_popups_returns_to_the_mode_before_them() {
    let mut s = InputState::new();
    s.input_mode = AppInputMode::FileSelection;
    s.set_popup_input();
    s.set_popup_input();
    assert_eq!(s.input_mode, AppInputMode::Popup);
    s.restore_input_from_popup();
    assert_eq!(s.input_mode, AppInputMode::FileSelection);
    assert_eq!(s.popup_previous_input, None);
    s.restore_input_from_popup();
    assert_eq!(s.input_mode, AppInputMode::Navigation);
}

#[test]
fn task_chain_steps() {
    let mut s = IOTaskState::new();
    assert_eq!(task_step(&s, true), TaskStep::Running);
    s.poll(vec![IOProgress::Advanced { completed: 1, total: 2 }, IOProgress::Finished]);
    assert_eq!(task_step(&s, true), TaskStep::StartNext);
    assert_eq!(task_step(&s, false), TaskStep::Done);
    s.poll(vec![IOProgress::Error("disk full".to_string())]);
    assert_eq!(task_step(&s, true), TaskStep::Failed);
}
