use chronobind::app_state::{popup_action, PopupAction};
use chronobind::character::{Character, CharacterWithIndex};
use chronobind::character_list::{character_row_prefix, list_title, realm_header_text};
use chronobind::config::ChronoBindAppConfig;
use chronobind::file_list::{
    addon_header_text, addon_header_tone, addon_row_text, file_row_text, file_row_tone, files_title,
    FileListConfig, RowTone, NO_CHARACTER_TEXT,
};
use chronobind::options::{OptionKind, OptionsPopupCommand};
use chronobind::palette::display_backup_time;
use chronobind::path::ChronoPath;
use chronobind::popups::{
    paste_prompt, restore_from_copied_label, toggle_option_text, AppMessage,
    BackupManagerPopupCommand, BackupPopupCommand, BranchPopupCommand, ConfirmText,
    ExportManagerMessage, ExportManagerPopup, RestorePopupCommand,
};
use chronobind::text::decimal_text;
use chronobind::time::BackupTime;
use chronobind::wow::{WoWCharacter, WoWCharacterBackup, WoWCharacterFile, WoWClass, WoWInstall, WoWInstalls};

fn file(name: &str, stem: &str, friendly: Option<&str>) -> WoWCharacterFile {
    WoWCharacterFile {
        name: name.to_string(),
        stem: stem.to_string(),
        path: ChronoPath::from_segment(name),
        friendly_name: friendly.map(|f| f.to_string()),
    }
}

fn character() -> Character {
    Character::new(&WoWCharacter {
        account: "1".to_string(),
        branch: "retail".to_string(),
        name: "Sylvanas".to_string(),
        realm: "Draenor".to_string(),
        class: WoWClass::Hunter,
        config_files: vec![file("bindings-cache.wtf", "bindings-cache", Some("Key Bindings"))],
        addon_files: vec![file("Details.lua", "Details", None), file("WeakAuras.lua", "WeakAuras", None)],
        backups: vec![],
    })
}

fn time() -> BackupTime {
    BackupTime { year: 2024, month: 3, day: 9, hour: 14, minute: 5, second: 30 }
}

#[test]
fn decimal_texts() {
    assert_eq!(decimal_text(0), "0");
    assert_eq!(decimal_text(7), "7");
    assert_eq!(decimal_text(10), "10");
    assert_eq!(decimal_text(1234567), "1234567");
    assert_eq!(decimal_text(usize::MAX), usize::MAX.to_string());
}

#[test]
fn character_list_texts() {
    assert_eq!(list_title(&Some("Classic Era".to_string())), " Characters - Classic Era ");
    assert_eq!(list_title(&None), " Characters ");
    assert_eq!(realm_header_text("Draenor", true, false), " ▶ [Draenor]");
    assert_eq!(realm_header_text("Draenor", false, true), " ▼ > [Draenor]");
    assert_eq!(character_row_prefix(false, false), "    ");
    assert_eq!(character_row_prefix(true, true), "    > • ");
}

#[test]
fn file_list_texts() {
    let mut c = character();
    assert_eq!(files_title(Some(&c)), " Files - Sylvanas - Draenor ");
    assert_eq!(files_title(None), " Files ");
    assert_eq!(NO_CHARACTER_TEXT, " No character selected");
    let friendly = FileListConfig { show_friendly_names: true };
    let plain = FileListConfig { show_friendly_names: false };
    assert_eq!(
        file_row_text(&c, 0, true, &friendly, true),
        (" [ ] ⚙  ".to_string(), "> Key Bindings".to_string())
    );
    c.toggle_config_file_selected(0);
    assert_eq!(
        file_row_text(&c, 0, false, &plain, false),
        (" [X] ≡ ".to_string(), "bindings-cache.wtf".to_string())
    );
    assert_eq!(
        addon_row_text(&c, 1, false, &plain, true),
        ("    [ ] 📦 ".to_string(), "WeakAuras".to_string())
    );
    assert_eq!(addon_header_text(2, false, true), " ▼ > Addon Options (2)");
    assert_eq!(addon_header_text(12, true, false), " ▶ Addon Options (12)");
}

#[test]
fn row_tones() {
    assert_eq!(file_row_tone(true, true, true), RowTone::Selected);
    assert_eq!(file_row_tone(false, true, true), RowTone::Special);
    assert_eq!(file_row_tone(false, true, false), RowTone::Standard);
    let mut c = character();
    assert_eq!(addon_header_tone(&c), RowTone::Standard);
    c.toggle_addon_file_selected(0);
    assert_eq!(addon_header_tone(&c), RowTone::Warning);
    c.toggle_addon_file_selected(1);
    assert_eq!(addon_header_tone(&c), RowTone::Selected);
}

#[test]
fn option_lines() {
    let mut config = ChronoBindAppConfig::default();
    config.preferred_branch = Some("classic_era".to_string());
    let installs = WoWInstalls::new_from_installs(vec![WoWInstall {
        product_code: "wow_classic_era".to_string(),
        branch_ident: "classic_era".to_string(),
        install_path: "/games/wow".to_string(),
    }]);
    assert_eq!(
        OptionKind::ShowFriendlyNames.option_line_text(&config, &installs, true, true),
        "[✓] > Show friendly file names"
    );
    config.mock_mode = false;
    assert_eq!(
        OptionKind::MockMode.option_line_text(&config, &installs, false, true),
        "[ ] Mock mode (Don't perform file operations)"
    );
    assert_eq!(
        OptionKind::MaximumAutoBackups.option_line_text(&config, &installs, false, true),
        "Maximum allowed automatic backups: 10"
    );
    config.maximum_auto_backups = None;
    assert_eq!(
        OptionKind::MaximumAutoBackups.option_line_text(&config, &installs, true, false),
        "> Maximum allowed automatic backups: inf"
    );
    assert_eq!(
        OptionKind::PreferredBranch.option_line_text(&config, &installs, false, true),
        "Preferred WoW branch: Classic Era"
    );
    config.preferred_branch = Some("ptr".to_string());
    assert_eq!(
        OptionKind::PreferredBranch.option_line_text(&config, &installs, false, true),
        "Preferred WoW branch: Unknown(ptr)"
    );
}

#[test]
fn backup_texts() {
    assert_eq!(display_backup_time(&time()), "09/03/24 14:05");
    let early = BackupTime { year: 2005, month: 11, day: 1, hour: 0, minute: 7, second: 30 };
    assert_eq!(display_backup_time(&early), "01/11/05 00:07");
    let b = WoWCharacterBackup {
        path: ChronoPath::from_segment("b.zip"),
        char_name: "Sylvanas".to_string(),
        timestamp: time(),
        is_paste: true,
        is_pinned: true,
    };
    assert_eq!(b.list_text(true), "☆ Sylvanas 09/03/24 14:05 (Auto)");
    assert_eq!(b.list_text(false), "** Sylvanas 09/03/24 14:05 (Auto)");
    let plain = WoWCharacterBackup { is_paste: false, is_pinned: false, ..b };
    assert_eq!(plain.list_text(true), "Sylvanas 09/03/24 14:05");
}

#[test]
fn popup_texts() {
    assert_eq!(paste_prompt(1), "Paste 1 file to ");
    assert_eq!(paste_prompt(3), "Paste 3 files to ");
    assert_eq!(paste_prompt(0), "Paste 0 files to ");
    assert_eq!(toggle_option_text("Include 'WTF' folder", true, true, false), "[X] > Include 'WTF' folder");
    assert_eq!(
        restore_from_copied_label(&CharacterWithIndex(character(), 0)),
        "Restore from Sylvanas - Draenor's backups"
    );
    let p = ExportManagerPopup::new(None);
    let labels = p.row_labels();
    assert_eq!(labels[0], "Export ChronoBind backups from currently selected branch: None");
    assert_eq!(labels[4], "Import ChronoBind backup");
    let q = ExportManagerPopup::new(Some("retail".to_string()));
    assert_eq!(q.row_labels()[2], "Export all from currently selected branch (Addons, WTF, ChronoBind): retail");
}

#[test]
fn popup_messages_lead_to_actions() {
    assert!(matches!(
        popup_action(AppMessage::Backup(2, BackupPopupCommand::ManageBackups), None),
        PopupAction::ShowManageBackups(2)
    ));
    assert!(matches!(
        popup_action(AppMessage::Backup(2, BackupPopupCommand::BackupSelectedFiles), None),
        PopupAction::BackupCharacter { index: 2, selected_only: true }
    ));
    assert!(matches!(
        popup_action(AppMessage::Backup(2, BackupPopupCommand::BackupAllFiles), Some(1)),
        PopupAction::BackupCharacter { index: 2, selected_only: false }
    ));
    assert!(matches!(
        popup_action(AppMessage::Backup(2, BackupPopupCommand::RestoreFromBackup), Some(1)),
        PopupAction::OpenRestore { dest: 2, source: None }
    ));
    assert!(matches!(
        popup_action(AppMessage::Backup(2, BackupPopupCommand::RestoreFromCopiedBackups), Some(1)),
        PopupAction::OpenRestore { dest: 2, source: Some(1) }
    ));
    assert!(matches!(
        popup_action(AppMessage::Backup(2, BackupPopupCommand::RestoreFromCopiedBackups), None),
        PopupAction::NothingCopied
    ));
    assert!(matches!(
        popup_action(AppMessage::Restore(4, RestorePopupCommand::RestoreBackup(3)), None),
        PopupAction::RestoreBackup { index: 4, backup: 3 }
    ));
    assert!(matches!(popup_action(AppMessage::Paste(5), Some(0)), PopupAction::Paste { source: 0, target: 5 }));
    assert!(matches!(popup_action(AppMessage::Paste(5), None), PopupAction::NothingCopied));
    match popup_action(AppMessage::Branch(BranchPopupCommand::SelectBranch("ptr".to_string())), None) {
        PopupAction::SelectBranch(b) => assert_eq!(b, "ptr"),
        other => panic!("unexpected {other:?}"),
    }
    let mut config = ChronoBindAppConfig::default();
    config.mock_mode = true;
    match popup_action(AppMessage::Options(OptionsPopupCommand::UpdateConfiguration(config)), None) {
        PopupAction::UpdateConfiguration(c) => assert!(c.mock_mode),
        other => panic!("unexpected {other:?}"),
    }
    assert!(matches!(
        popup_action(AppMessage::BackupManager(1, BackupManagerPopupCommand::DeleteBackup(0)), None),
        PopupAction::DeleteBackup { index: 1, backup: 0 }
    ));
    assert!(matches!(
        popup_action(AppMessage::BackupManager(1, BackupManagerPopupCommand::ToggleBackupPin(2)), None),
        PopupAction::ToggleBackupPin { index: 1, backup: 2 }
    ));
    assert!(matches!(
        popup_action(AppMessage::ExportManager(ExportManagerMessage::OpenImportDialog), None),
        PopupAction::ExportManager(ExportManagerMessage::OpenImportDialog)
    ));
    let confirm = AppMessage::Paste(3).with_confirm_and_line(ConfirmText::PasteFiles { file_count: 2, dest_char: 3 });
    match popup_action(confirm, None) {
        PopupAction::Confirm(inner, Some(ConfirmText::PasteFiles { file_count: 2, dest_char: 3 })) => {
            assert!(matches!(*inner, AppMessage::Paste(3)))
        }
        other => panic!("unexpected {other:?}"),
    }
}
