use chronobind::character::{Character, CharacterWithIndex};
use chronobind::path::ChronoPath;
use chronobind::popups::{
    AppMessage, BackupManagerPopup, BackupManagerPopupCommand, BackupPopup, BackupPopupCommand,
    BranchPopup, BranchPopupCommand, ConfirmText, ConfirmationPopup, ExportManagerMessage,
    ExportManagerPopup, ImportDialog, InstallBackupOptions, PasteConfirmPopup, PastePopupCommand,
    RestorePopup, RestorePopupCommand,
};
use chronobind::text_input::InputMode;
use chronobind::time::BackupTime;
use chronobind::ui::{KeyInput, KeyPress};
use chronobind::wow::{WoWCharacter, WoWCharacterBackup, WoWClass, WoWInstall};

fn key(c: KeyPress) -> KeyInput {
    KeyInput { code: c, ctrl: false }
}

fn time() -> BackupTime {
    BackupTime { year: 2024, month: 3, day: 9, hour: 14, minute: 5, second: 30 }
}

fn backup(name: &str, pinned: bool) -> WoWCharacterBackup {
    WoWCharacterBackup {
        path: ChronoPath::from_segment("Backups").join("b.zip"),
        char_name: name.to_string(),
        timestamp: time(),
        is_paste: false,
        is_pinned: pinned,
    }
}

fn character(name: &str, backups: usize, index: usize) -> CharacterWithIndex {
    let wc = WoWCharacter {
        account: "1".to_string(),
        branch: "retail".to_string(),
        name: name.to_string(),
        realm: "Silvermoon".to_string(),
        class: WoWClass::Druid,
        config_files: vec![],
        addon_files: vec![],
        backups: (0..backups).map(|i| backup(name, i % 2 == 0)).collect(),
    };
    CharacterWithIndex(Character::new(&wc), index)
}

fn install(branch: &str) -> WoWInstall {
    WoWInstall {
        product_code: "wow".to_string(),
        branch_ident: branch.to_string(),
        install_path: "/games/wow".to_string(),
    }
}

#[test]
fn backup_popup_rows() {
    let mut p = BackupPopup::new(character("Thrall", 1, 7), None);
    assert_eq!(p.state.selected, Some(0));
    p.on_key_down(&key(KeyPress::Enter));
    assert!(matches!(p.commands[0], AppMessage::Backup(7, BackupPopupCommand::ManageBackups)));
    assert!(!p.close);
    p.on_key_down(&key(KeyPress::Down));
    p.on_key_down(&key(KeyPress::Char('s')));
    assert_eq!(p.state.selected, Some(2));
    p.on_key_down(&key(KeyPress::Char(' ')));
    assert!(matches!(p.commands[1], AppMessage::Backup(7, BackupPopupCommand::BackupAllFiles)));
    assert!(p.close);
}

#[test]
fn backup_popup_copied_row_needs_copy() {
    let mut p = BackupPopup::new(character("Thrall", 0, 1), None);
    p.state.selected = Some(4);
    p.on_key_down(&key(KeyPress::Enter));
    assert!(p.commands.is_empty());
    let mut q = BackupPopup::new(character("Thrall", 0, 1), Some(character("Jaina", 0, 2)));
    q.state.selected = Some(4);
    q.on_key_down(&key(KeyPress::Enter));
    assert!(matches!(q.commands[0], AppMessage::Backup(1, BackupPopupCommand::RestoreFromCopiedBackups)));
    q.on_key_down(&key(KeyPress::Char('b')));
    assert!(q.close);
}

#[test]
fn backup_manager_pin_and_delete() {
    let mut p = BackupManagerPopup::new(character("Thrall", 2, 3), 1);
    p.on_key_down(&key(KeyPress::Char('E')));
    assert!(matches!(p.commands[0], AppMessage::BackupManager(3, BackupManagerPopupCommand::ToggleBackupPin(1))));
    p.on_key_down(&key(KeyPress::Char('d')));
    match &p.commands[1] {
        AppMessage::ConfirmAction(m, Some(ConfirmText::DeleteBackup { backup_name })) => {
            assert!(matches!(**m, AppMessage::BackupManager(3, BackupManagerPopupCommand::DeleteBackup(1))));
            assert_eq!(backup_name, "Thrall | 09/03/24 14:05");
        }
        other => panic!("unexpected {other:?}"),
    }
    p.on_key_down(&key(KeyPress::Down));
    assert_eq!(p.state.selected, Some(2));
    p.on_key_down(&key(KeyPress::Char('e')));
    assert_eq!(p.commands.len(), 2);
    p.on_key_down(&key(KeyPress::Esc));
    assert!(p.close);
}

#[test]
fn branch_popup_select() {
    let mut p = BranchPopup::new(vec![install("retail"), install("classic_era")], Some("retail".to_string()));
    p.on_key_down(&key(KeyPress::Up));
    assert_eq!(p.state.selected, Some(0));
    p.on_key_down(&key(KeyPress::Down));
    p.on_key_down(&key(KeyPress::Enter));
    match &p.commands[0] {
        AppMessage::Branch(BranchPopupCommand::SelectBranch(b)) => assert_eq!(b, "classic_era"),
        other => panic!("unexpected {other:?}"),
    }
    assert!(p.close);
}

#[test]
fn restore_popup_confirms() {
    let mut p = RestorePopup::new(character("Thrall", 1, 4), Some(character("Jaina", 2, 5)));
    assert!(p.has_source_char());
    assert_eq!(p.source_char().1, 5);
    assert!(matches!(p.get_command(RestorePopupCommand::RestoreBackup(0)), AppMessage::Restore(4, RestorePopupCommand::RestoreBackup(0))));
    p.on_key_down(&key(KeyPress::Down));
    p.on_key_down(&key(KeyPress::Enter));
    assert!(p.close);
    match &p.commands[0] {
        AppMessage::ConfirmAction(m, Some(ConfirmText::RestoreBackup { backup_name, dest_char })) => {
            assert!(matches!(**m, AppMessage::Restore(4, RestorePopupCommand::RestoreBackup(1))));
            assert_eq!(*dest_char, 4);
            assert_eq!(backup_name, "Jaina | 09/03/24 14:05");
        }
        other => panic!("unexpected {other:?}"),
    }
    let mut empty = RestorePopup::new(character("Thrall", 0, 4), None);
    assert!(!empty.has_source_char());
    empty.on_key_down(&key(KeyPress::Enter));
    assert!(empty.commands.is_empty());
    assert!(!empty.close);
}

#[test]
fn paste_confirm() {
    let c = character("Thrall", 0, 2).0;
    let mut p = PasteConfirmPopup::new(c, 2, 5);
    p.on_key_down(&key(KeyPress::Char('S')));
    assert_eq!(p.state.selected, Some(1));
    p.on_key_down(&key(KeyPress::Enter));
    assert!(p.close);
    assert_eq!(p.commands, vec![(2, PastePopupCommand::ConfirmPaste)]);
    let mut cancel = PasteConfirmPopup::new(character("Thrall", 0, 2).0, 2, 5);
    cancel.on_key_down(&key(KeyPress::Enter));
    assert!(cancel.close);
    assert!(cancel.commands.is_empty());
}

#[test]
fn confirmation_popup() {
    let mut p = ConfirmationPopup::new(AppMessage::Paste(3), None);
    p.on_key_down(&key(KeyPress::Enter));
    assert!(p.close);
    assert!(p.commands.is_empty());
    let mut yes = ConfirmationPopup::new(AppMessage::Paste(3), None);
    yes.on_key_down(&key(KeyPress::Char('s')));
    yes.on_key_down(&key(KeyPress::Char(' ')));
    assert!(yes.close);
    assert!(matches!(yes.commands[0], AppMessage::Paste(3)));
    let wrapped = AppMessage::Paste(1).with_confirm();
    assert!(matches!(wrapped, AppMessage::ConfirmAction(_, None)));
}

#[test]
fn export_manager_rows() {
    let mut p = ExportManagerPopup::new(Some("retail".to_string()));
    p.on_key_down(&key(KeyPress::Enter));
    assert!(matches!(p.commands[0], AppMessage::ExportManager(ExportManagerMessage::ExportCurrentBranchChronoBind)));
    for _ in 0..4 {
        p.on_key_down(&key(KeyPress::Down));
    }
    p.on_key_down(&key(KeyPress::Char('D')));
    assert!(matches!(p.commands[1], AppMessage::ExportManager(ExportManagerMessage::OpenImportDialog)));
    p.on_key_down(&key(KeyPress::Down));
    p.on_key_down(&key(KeyPress::Enter));
    assert_eq!(p.commands.len(), 2);
    p.on_key_down(&key(KeyPress::Char('q')));
    assert!(p.close);
}

#[test]
fn import_dialog_flow() {
    let mut d = ImportDialog::new();
    assert_eq!(d.import_options, InstallBackupOptions::all());
    assert_eq!(d.path_input.mode, InputMode::Editing);
    assert!(!d.is_hovered(0));
    d.path_input.mode = InputMode::Normal;
    assert!(d.is_hovered(0));
    d.on_key_down(&key(KeyPress::Enter));
    assert!(!d.import_options.include_wtf);
    d.on_key_down(&key(KeyPress::Down));
    d.on_key_down(&key(KeyPress::Down));
    d.on_key_down(&key(KeyPress::Char('e')));
    assert!(!d.import_options.include_character_backups);
    assert!(d.import_options.include_interface);
    d.path_input.input = "  \"/tmp/export.zip\" ".to_string();
    d.on_key_down(&key(KeyPress::Down));
    d.on_key_down(&key(KeyPress::Enter));
    assert!(d.close);
    match &d.commands[0] {
        AppMessage::ExportManager(ExportManagerMessage::ImportChronoBindBackup(path, opts)) => {
            assert_eq!(path, "/tmp/export.zip");
            assert_eq!(
                *opts,
                InstallBackupOptions { include_wtf: false, include_interface: true, include_character_backups: false }
            );
        }
        other => panic!("unexpected {other:?}"),
    }
    d.on_key_down(&key(KeyPress::Char('t')));
    assert_eq!(d.path_input.mode, InputMode::Editing);
}

#[test]
fn import_dialog_routes_keys_to_the_path_while_typing() {
    let mut d = ImportDialog::new();
    d.handle_key(&key(KeyPress::Char('/')), false);
    d.handle_key(&key(KeyPress::Char('x')), false);
    assert_eq!(d.path_input.input, "/x");
    assert!(d.import_options.include_wtf);
    d.handle_key(&key(KeyPress::Enter), false);
    assert_eq!(d.path_input.mode, InputMode::Normal);
    d.handle_key(&key(KeyPress::Enter), false);
    assert!(!d.import_options.include_wtf);
    assert_eq!(d.path_input.input, "/x");
}

#[test]
fn branch_rows_mark_the_current_branch() {
    let p = BranchPopup::new(vec![install("retail"), install("classic_era")], Some("classic_era".to_string()));
    assert_eq!(p.row_text(0), "Retail");
    assert_eq!(p.row_text(1), "Classic Era (current)");
    let none = BranchPopup::new(vec![install("ptr")], None);
    assert_eq!(none.row_text(0), "Ptr");
}

#[test]
fn confirmation_sentences() {
    let delete = ConfirmText::DeleteBackup { backup_name: "Thrall | 09/03/24 14:05".to_string() };
    assert_eq!(delete.lead_text(), "Delete `Thrall | 09/03/24 14:05`");
    let restore = ConfirmText::RestoreBackup { backup_name: "Jaina | 01/01/24 00:00".to_string(), dest_char: 2 };
    assert_eq!(restore.lead_text(), "Restore backup `Jaina | 01/01/24 00:00` to ");
    let paste = ConfirmText::PasteFiles { file_count: 1, dest_char: 0 };
    assert_eq!(paste.lead_text(), "Paste 1 file to ");
}

#[test]
fn backup_manager_bottom_bar_offers_pin_or_unpin() {
    let mut p = BackupManagerPopup::new(character("Thrall", 2, 0), 0);
    assert_eq!(p.bottom_bar_options(), vec!["↑/↓", "Esc: Close", "D: Delete Backup", "E: Unpin Backup"]);
    p.state.selected = Some(1);
    assert_eq!(p.bottom_bar_options()[3], "E: Pin Backup");
    p.state.selected = Some(7);
    assert_eq!(p.bottom_bar_options()[3], "E: Pin Backup");
}

#[test]
fn import_dialog_bottom_bar() {
    let mut d = ImportDialog::new();
    assert_eq!(d.bottom_bar_options("↵"), vec!["↵/Esc: Finish editing"]);
    d.path_input.mode = InputMode::Normal;
    assert_eq!(d.bottom_bar_options("Enter"), vec!["↑/↓", "Enter/Space: Select", "T: Edit path", "Esc: Close"]);
}
