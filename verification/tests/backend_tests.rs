use chronobind::backend::{
    files_to_back_up, same_path,
    backup_from_file_name, backups_from_file_names, change_backup_pin_state, delete_backup_file,
    extract_backup_name, get_backup_name, get_backup_name_from, manage_character_backups,
    paste_plan, restore_entry_step, PasteJob, RestoreAction,
    toggle_backup_pin, CharWithInstallLocal,
};
use chronobind::path::ChronoPath;
use chronobind::task::IOProgress;
use chronobind::time::BackupTime;
use chronobind::wow::{WoWCharacter, WoWCharacterBackup, WoWClass, WoWInstall};

fn time(year: i32, month: u32, day: u32, hour: u32, minute: u32, second: u32) -> BackupTime {
    BackupTime { year, month, day, hour, minute, second }
}

fn backup(name: &str, t: BackupTime, paste: bool, pinned: bool) -> WoWCharacterBackup {
    WoWCharacterBackup {
        path: ChronoPath::from_segment("Backups").join(&get_backup_name_from(name, t, paste, pinned)),
        char_name: name.to_string(),
        timestamp: t,
        is_paste: paste,
        is_pinned: pinned,
    }
}

fn character(backups: Vec<WoWCharacterBackup>) -> WoWCharacter {
    WoWCharacter {
        account: "12345#1".to_string(),
        branch: "retail".to_string(),
        name: "Arthas".to_string(),
        realm: "Silvermoon".to_string(),
        class: WoWClass::Unknown,
        config_files: vec![],
        addon_files: vec![],
        backups,
    }
}

fn install() -> WoWInstall {
    WoWInstall {
        product_code: "wow".to_string(),
        branch_ident: "retail".to_string(),
        install_path: "C:/Games/World of Warcraft".to_string(),
    }
}

#[test]
fn backup_name_is_built_from_its_parts() {
    let t = time(2024, 3, 7, 9, 5, 1);
    assert_eq!(get_backup_name_from("Arthas", t, false, false), "Arthas_20240307-090501.zip");
    assert_eq!(get_backup_name_from("Arthas", t, true, false), "Arthas_20240307-090501_RESTORE.zip");
    assert_eq!(get_backup_name_from("Arthas", t, false, true), "Arthas_20240307-090501_PINNED.zip");
    assert_eq!(
        get_backup_name_from("Arthas", t, true, true),
        "Arthas_20240307-090501_RESTORE_PINNED.zip"
    );
}

#[test]
fn backup_name_of_an_impossible_date_has_no_timestamp() {
    let t = time(2024, 2, 30, 9, 5, 1);
    assert_eq!(get_backup_name_from("Arthas", t, false, false), "Arthas_.zip");
}

#[test]
fn backup_name_for_a_character_has_the_expected_shape() {
    let c = character(vec![]);
    let now = time(2024, 6, 1, 12, 30, 0);
    let name = get_backup_name(&c, now, true, false);
    assert_eq!(name, "Arthas_20240601-123000_RESTORE.zip");
    assert!(name.starts_with("Arthas_"));
    assert!(name.ends_with("_RESTORE.zip"));
    let stem = name.strip_suffix(".zip").unwrap();
    let (n, _, paste, pinned) = extract_backup_name(stem).unwrap();
    assert_eq!(n, "Arthas");
    assert!(paste);
    assert!(!pinned);
}

#[test]
fn backup_name_reads_back() {
    let (name, t, paste, pinned) = extract_backup_name("Jaina_20231231-235959_RESTORE").unwrap();
    assert_eq!(name, "Jaina");
    assert_eq!(t, time(2023, 12, 31, 23, 59, 59));
    assert!(paste);
    assert!(!pinned);
}

#[test]
fn backup_name_roundtrip_for_all_flags() {
    let t = time(2025, 1, 2, 3, 4, 5);
    for paste in [false, true] {
        for pinned in [false, true] {
            let name = get_backup_name_from("Thrall", t, paste, pinned);
            let stem = name.strip_suffix(".zip").unwrap();
            let parts = extract_backup_name(stem).unwrap();
            assert_eq!(parts, ("Thrall".to_string(), t, paste, pinned));
        }
    }
}

#[test]
fn backup_name_pads_a_short_year_and_keeps_leap_days() {
    let t = time(800, 2, 29, 0, 0, 7);
    let name = get_backup_name_from("Uther", t, false, true);
    assert_eq!(name, "Uther_08000229-000007_PINNED.zip");
    let stem = name.strip_suffix(".zip").unwrap();
    assert_eq!(extract_backup_name(stem).unwrap(), ("Uther".to_string(), t, false, true));
    let not_leap = time(1900, 2, 29, 0, 0, 0);
    assert_eq!(get_backup_name_from("Uther", not_leap, false, false), "Uther_.zip");
}

#[test]
fn backup_name_flags_in_any_order_and_unknown_segments() {
    let (_, _, paste, pinned) = extract_backup_name("A_20240101-000000_PINNED_x_RESTORE").unwrap();
    assert!(paste);
    assert!(pinned);
    let (_, _, paste, pinned) = extract_backup_name("A_20240101-000000_restore").unwrap();
    assert!(!paste);
    assert!(!pinned);
}

#[test]
fn backup_name_errors() {
    assert!(extract_backup_name("Arthas").is_none());
    assert!(extract_backup_name("").is_none());
    assert!(extract_backup_name("Arthas_notadate").is_none());
    assert!(extract_backup_name("Arthas_20241301-000000").is_none());
    assert!(extract_backup_name("Arthas__20240101-000000").is_none());
}

#[test]
fn backup_from_file_name_filters_extension() {
    let dir = ChronoPath::from_segment("B");
    let b = backup_from_file_name(&dir, "Arthas_20240307-090501_PINNED.zip").unwrap();
    assert_eq!(b.char_name, "Arthas");
    assert!(b.is_pinned);
    assert!(!b.is_paste);
    assert_eq!(b.path.segments, vec!["B".to_string(), "Arthas_20240307-090501_PINNED.zip".to_string()]);
    assert!(backup_from_file_name(&dir, "Arthas_20240307-090501.ZIP").is_none());
    assert!(backup_from_file_name(&dir, "Arthas_20240307-090501.txt").is_none());
    assert!(backup_from_file_name(&dir, "Arthas_20240307-090501").is_none());
    assert!(backup_from_file_name(&dir, "notes.zip").is_none());
}

#[test]
fn backups_are_listed_newest_first_and_stably() {
    let dir = ChronoPath::from_segment("B");
    let names: Vec<String> = vec![
        "A_20240101-000000.zip".to_string(),
        "readme.txt".to_string(),
        "B_20240301-000000.zip".to_string(),
        "C_20240101-000000_RESTORE.zip".to_string(),
        "D_20240201-120000.zip".to_string(),
    ];
    let bs = backups_from_file_names(&dir, &names);
    let order: Vec<&str> = bs.iter().map(|b| b.char_name.as_str()).collect();
    assert_eq!(order, vec!["B", "D", "A", "C"]);
}

#[test]
fn pin_state_change_gives_the_new_name() {
    let t = time(2024, 3, 7, 9, 5, 1);
    let b = backup("Arthas", t, true, false);
    assert_eq!(change_backup_pin_state(&b, false), None);
    assert_eq!(
        change_backup_pin_state(&b, true),
        Some("Arthas_20240307-090501_RESTORE_PINNED.zip".to_string())
    );
    assert_eq!(toggle_backup_pin(&b), "Arthas_20240307-090501_RESTORE_PINNED.zip");
    let p = backup("Arthas", t, false, true);
    assert_eq!(toggle_backup_pin(&p), "Arthas_20240307-090501.zip");
}

#[test]
fn pinned_backups_are_never_auto_removed() {
    let t = time(2024, 3, 7, 9, 5, 1);
    let pinned = backup("Arthas", t, true, true);
    let plain = backup("Arthas", t, true, false);
    assert!(!delete_backup_file(&pinned, true));
    assert!(delete_backup_file(&pinned, false));
    assert!(delete_backup_file(&plain, true));
    assert!(delete_backup_file(&plain, false));
}

#[test]
fn cleaning_removes_the_oldest_unpinned_automatic_backups() {
    let c = character(vec![
        backup("Arthas", time(2024, 5, 1, 0, 0, 0), true, false),
        backup("Arthas", time(2024, 1, 1, 0, 0, 0), true, true),
        backup("Arthas", time(2024, 2, 1, 0, 0, 0), true, false),
        backup("Arthas", time(2024, 3, 1, 0, 0, 0), false, false),
        backup("Arthas", time(2024, 4, 1, 0, 0, 0), true, false),
        backup("Arthas", time(2024, 2, 1, 0, 0, 0), true, false),
    ]);
    assert_eq!(c.unpinned_auto_backups_count(), 4);
    assert!(manage_character_backups(&c, 4).is_none());
    assert!(manage_character_backups(&c, 10).is_none());
    let removed = manage_character_backups(&c, 1).unwrap();
    let months: Vec<u32> = removed.iter().map(|b| b.timestamp.month).collect();
    assert_eq!(months, vec![2, 2, 4]);
    assert!(removed.iter().all(|b| !b.is_pinned && b.is_paste));
    let all = manage_character_backups(&c, 0).unwrap();
    assert_eq!(all.len(), 4);
}

#[test]
fn oldest_unpinned_auto_backup_is_the_first_of_the_oldest() {
    let c = character(vec![
        backup("First", time(2024, 5, 1, 0, 0, 0), true, false),
        backup("Second", time(2024, 2, 1, 0, 0, 0), true, false),
        backup("Pinned", time(2023, 1, 1, 0, 0, 0), true, true),
        backup("Third", time(2024, 2, 1, 0, 0, 0), true, false),
    ]);
    assert_eq!(c.oldest_unpinned_auto_backup().unwrap().char_name, "Second");
    let none = character(vec![backup("Manual", time(2024, 5, 1, 0, 0, 0), false, false)]);
    assert!(none.oldest_unpinned_auto_backup().is_none());
    assert!(none.unpinned_auto_backups().is_empty());
}

#[test]
fn character_with_install_paths() {
    let local = CharWithInstallLocal { character: character(vec![]), install: install() };
    assert_eq!(
        local.get_character_path().segments,
        vec!["C:/Games/World of Warcraft", "_retail_", "WTF", "Account", "12345#1", "Silvermoon", "Arthas"]
    );
    assert_eq!(
        local.get_backups_dir().segments,
        vec!["C:/Games/World of Warcraft", "_retail_", "ChronoBind", "Characters", "12345#1", "Silvermoon", "Arthas"]
    );
}

fn rel(segs: &[&str]) -> ChronoPath {
    let mut p = ChronoPath::from_segment(segs[0]);
    for s in &segs[1..] {
        p = p.join(s);
    }
    p
}

#[test]
fn backup_archives_selected_files_in_found_order() {
    let found = vec![
        rel(&["config-cache.wtf"]),
        rel(&["SavedVariables", "Details.lua"]),
        rel(&["macros-cache.txt"]),
        rel(&["SavedVariables", "WeakAuras.lua"]),
    ];
    let all = files_to_back_up(&found, None);
    assert_eq!(all.len(), 4);
    let selected = vec![rel(&["SavedVariables", "WeakAuras.lua"]), rel(&["config-cache.wtf"]), rel(&["missing.txt"])];
    let some = files_to_back_up(&found, Some(&selected));
    let segs: Vec<Vec<String>> = some.iter().map(|p| p.segments.clone()).collect();
    assert_eq!(
        segs,
        vec![vec!["config-cache.wtf".to_string()], vec!["SavedVariables".to_string(), "WeakAuras.lua".to_string()]]
    );
    assert!(files_to_back_up(&found, Some(&vec![])).is_empty());
    assert!(same_path(&rel(&["a", "b"]), &rel(&["a", "b"])));
    assert!(!same_path(&rel(&["a", "b"]), &rel(&["a"])));
    assert!(!same_path(&rel(&["a", "b"]), &rel(&["a", "c"])));
}

#[test]
fn toggled_pin_name_reads_back_flipped() {
    let dir = ChronoPath::from_segment("Backups");
    let b = backup("Arthas", time(2024, 3, 7, 9, 5, 1), true, false);
    let renamed = toggle_backup_pin(&b);
    let read = backup_from_file_name(&dir, &renamed).unwrap();
    assert!(read.is_pinned);
    assert!(read.is_paste);
    assert_eq!(read.char_name, "Arthas");
    assert_eq!(read.timestamp, b.timestamp);
    let back = backup_from_file_name(&dir, &toggle_backup_pin(&read)).unwrap();
    assert!(!back.is_pinned);
    assert_eq!(toggle_backup_pin(&read), "Arthas_20240307-090501_RESTORE.zip");
}

fn seg_path(segs: &[&str]) -> ChronoPath {
    ChronoPath { segments: segs.iter().map(|s| s.to_string()).collect() }
}

fn action_paths(a: &RestoreAction) -> (&'static str, Vec<Vec<String>>) {
    match a {
        RestoreAction::Skip => ("skip", vec![]),
        RestoreAction::EnsureDir(p) => ("dir", vec![p.segments.clone()]),
        RestoreAction::WriteFile { parent, file } => ("write", vec![parent.segments.clone(), file.segments.clone()]),
        RestoreAction::MockDir(p) => ("mock_dir", vec![p.segments.clone()]),
        RestoreAction::MockFile(p) => ("mock_file", vec![p.segments.clone()]),
    }
}

fn strings(segs: &[&str]) -> Vec<String> {
    segs.iter().map(|s| s.to_string()).collect()
}

#[test]
fn restore_step_writes_files_inside_the_character_folder() {
    let root = seg_path(&["/wow", "Arthas"]);
    let (a, n, p) = restore_entry_step("SavedVariables/x.lua", Some(seg_path(&["SavedVariables", "x.lua"])), &root, false, 2, 9);
    assert_eq!(action_paths(&a), ("write", vec![strings(&["/wow", "Arthas", "SavedVariables"]), strings(&["/wow", "Arthas", "SavedVariables", "x.lua"])]));
    assert_eq!(n, 3);
    assert!(matches!(p, Some(IOProgress::Advanced { completed: 3, total: 9 })));

    let (a, n, p) = restore_entry_step("top.txt", Some(seg_path(&["top.txt"])), &root, false, 0, 1);
    assert_eq!(action_paths(&a), ("write", vec![strings(&["/wow", "Arthas"]), strings(&["/wow", "Arthas", "top.txt"])]));
    assert_eq!(n, 1);
    assert!(matches!(p, Some(IOProgress::Advanced { completed: 1, total: 1 })));
}

#[test]
fn restore_step_folders_and_invalid_names() {
    let root = seg_path(&["/wow", "Arthas"]);
    let (a, n, p) = restore_entry_step("SavedVariables/", Some(seg_path(&["SavedVariables"])), &root, false, 4, 9);
    assert_eq!(action_paths(&a), ("dir", vec![strings(&["/wow", "Arthas", "SavedVariables"])]));
    assert_eq!(n, 4);
    assert!(p.is_none());

    let (a, n, p) = restore_entry_step("../evil.txt", None, &root, false, 4, 9);
    assert_eq!(action_paths(&a), ("skip", vec![]));
    assert_eq!(n, 4);
    assert!(p.is_none());
}

#[test]
fn restore_step_in_mock_mode_touches_nothing() {
    let root = seg_path(&["/wow", "Arthas"]);
    let (a, n, p) = restore_entry_step("a/b.lua", Some(seg_path(&["a", "b.lua"])), &root, true, 0, 2);
    assert_eq!(action_paths(&a), ("mock_file", vec![strings(&["/wow", "Arthas", "a", "b.lua"])]));
    assert_eq!(n, 0);
    assert!(matches!(p, Some(IOProgress::Advanced { completed: 0, total: 2 })));

    let (a, n, p) = restore_entry_step("a/", Some(seg_path(&["a"])), &root, true, 0, 2);
    assert_eq!(action_paths(&a), ("mock_dir", vec![strings(&["/wow", "Arthas", "a"])]));
    assert_eq!(n, 0);
    assert!(p.is_none());
}

#[test]
fn paste_backs_up_first_unless_mocked() {
    assert_eq!(paste_plan(true), vec![PasteJob::CopyFiles]);
    assert_eq!(
        paste_plan(false),
        vec![PasteJob::BackupSelected { paste: true, pinned: false }, PasteJob::CopyFiles]
    );
}
