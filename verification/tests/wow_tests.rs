use chronobind::class_config::class_id_from_config;
use chronobind::path::ChronoPath;
use chronobind::scan::is_account_dir;
use chronobind::wow::{
    character_file, character_files_from_names, extract_wow_install_data, get_friendly_name,
    installs_from_products, ProductInstall, WoWCharacter, WoWClass, WoWInstall, WoWInstalls,
};

fn install(branch: &str) -> WoWInstall {
    WoWInstall {
        product_code: format!("wow_{branch}"),
        branch_ident: branch.to_string(),
        install_path: "/games/wow".to_string(),
    }
}

fn segs(p: &ChronoPath) -> Vec<&str> {
    p.segments.iter().map(|s| s.as_str()).collect()
}

#[test]
fn install_paths() {
    let i = install("classic_era");
    assert!(!i.is_retail());
    assert!(install("retail").is_retail());
    assert_eq!(i.get_product_dir(), "_classic_era_");
    assert_eq!(segs(&i.get_branch_path()), vec!["/games/wow", "_classic_era_"]);
    assert_eq!(segs(&i.get_chronobind_dir()), vec!["/games/wow", "_classic_era_", "ChronoBind"]);
    assert_eq!(
        segs(&i.get_character_backups_dir()),
        vec!["/games/wow", "_classic_era_", "ChronoBind", "Characters"]
    );
    assert_eq!(segs(&i.get_wtf_path()), vec!["/games/wow", "_classic_era_", "WTF"]);
    assert_eq!(segs(&i.get_inteface_path()), vec!["/games/wow", "_classic_era_", "Interface"]);
    assert_eq!(segs(&i.get_account_path()), vec!["/games/wow", "_classic_era_", "WTF", "Account"]);
    assert_eq!(
        segs(&i.get_realm_path("1#1", "Realm")),
        vec!["/games/wow", "_classic_era_", "WTF", "Account", "1#1", "Realm"]
    );
    assert_eq!(segs(&i.install_path_join("Data")), vec!["/games/wow", "Data"]);
}

#[test]
fn branch_display_names() {
    assert_eq!(install("retail").display_branch_name(), "Retail");
    assert_eq!(install("classic_era").display_branch_name(), "Classic Era");
    assert_eq!(install("ptr").display_branch_name(), "Ptr");
    assert_eq!(install("classic__x").display_branch_name(), "Classic  X");
    assert_eq!(install("ßeta").display_branch_name(), "SSeta");
}

#[test]
fn installs_are_found_by_branch_ignoring_case() {
    let installs = WoWInstalls::new_from_installs(vec![install("retail"), install("Classic"), install("classic")]);
    assert_eq!(installs.len(), 3);
    assert!(!installs.is_empty());
    assert_eq!(installs.root_path.as_ref().unwrap().segments, vec!["/games/wow".to_string()]);
    assert_eq!(installs.find_branch("RETAIL").unwrap().branch_ident, "retail");
    assert_eq!(installs.find_branch_index("classic"), Some(1));
    assert!(installs.find_branch("ptr").is_none());
    assert_eq!(installs.iter().count(), 3);
    let empty = WoWInstalls::new_from_installs(vec![]);
    assert!(empty.is_empty());
    assert!(empty.root_path.is_none());
}

#[test]
fn product_entries_give_installations() {
    let p = |code: &str, path: Option<&str>| ProductInstall {
        product_code: code.to_string(),
        install_path: path.map(|s| s.to_string()),
    };
    assert_eq!(extract_wow_install_data(&p("wow", Some("/a"))).unwrap().branch_ident, "retail");
    assert_eq!(extract_wow_install_data(&p("wow_classic", Some("/a"))).unwrap().branch_ident, "classic");
    assert_eq!(extract_wow_install_data(&p("wowt", Some("/a"))).unwrap().branch_ident, "t");
    assert_eq!(extract_wow_install_data(&p("wow_", Some("/a"))).unwrap().branch_ident, "");
    assert!(extract_wow_install_data(&p("diablo3", Some("/a"))).is_none());
    assert!(extract_wow_install_data(&p("wow", None)).is_none());
    let found = installs_from_products(&vec![p("wow", Some("/r")), p("d3", Some("/d")), p("wow_ptr", Some("/p")), p("wow_beta", None)]);
    assert_eq!(found.len(), 2);
    assert_eq!(found[0].install_path, "/r");
    assert_eq!(found[1].branch_ident, "ptr");
    assert_eq!(found[1].product_code, "wow_ptr");
}

#[test]
fn classes_from_ids_and_names() {
    assert_eq!(WoWClass::from_id(1), WoWClass::Warrior);
    assert_eq!(WoWClass::from_id(6), WoWClass::DeathKnight);
    assert_eq!(WoWClass::from_id(13), WoWClass::Evoker);
    assert_eq!(WoWClass::from_id(0), WoWClass::Priest);
    assert_eq!(WoWClass::from_id(14), WoWClass::Unknown);
    assert!(WoWClass::is_valid_class_id(1));
    assert!(!WoWClass::is_valid_class_id(0));
    assert!(!WoWClass::is_valid_class_id(14));
    assert_eq!(WoWClass::DemonHunter.class_name(), "Demon Hunter");
    assert_eq!(WoWClass::DemonHunter.class_short_name(), "DH");
    assert_eq!(WoWClass::Unknown.class_short_name(), "Unk");
}

#[test]
fn friendly_names() {
    assert_eq!(get_friendly_name("bindings-cache.wtf"), Some("Keybindings".to_string()));
    assert_eq!(get_friendly_name("AddOns.txt"), Some("Enabled Addons".to_string()));
    assert_eq!(get_friendly_name("addons.txt"), None);
    assert_eq!(get_friendly_name("config-cache.wtf"), None);
}

#[test]
fn character_files_are_listed_friendly_first() {
    let dir = ChronoPath::from_segment("char");
    let names: Vec<String> = ["config-cache.wtf", "macros-cache.txt", "old.BAK", "README", "x.old", "bindings-cache.wtf", ".hidden", "b.lua"]
        .iter()
        .map(|s| s.to_string())
        .collect();
    let files = character_files_from_names(&dir, &names);
    let listed: Vec<&str> = files.iter().map(|f| f.name.as_str()).collect();
    assert_eq!(listed, vec!["macros-cache.txt", "bindings-cache.wtf", "config-cache.wtf", "b.lua"]);
    assert_eq!(files[0].display_name(true), "Macros");
    assert_eq!(files[0].display_name(false), "macros-cache.txt");
    assert_eq!(files[0].display_stem(false), "macros-cache");
    assert_eq!(files[3].display_stem(true), "b");
    assert!(files[0].has_friendly_name());
    assert!(!files[2].has_friendly_name());
    assert_eq!(files[3].get_full_filename(), "b.lua");
    assert_eq!(segs(&files[3].path), vec!["char", "b.lua"]);
    let one = character_file(&dir, "archive.tar.gz").unwrap();
    assert_eq!(one.stem, "archive.tar");
}

#[test]
fn account_folders() {
    assert!(is_account_dir("12345"));
    assert!(is_account_dir("12345#1"));
    assert!(is_account_dir("١٢٣"));
    assert!(!is_account_dir("SavedVariables"));
    assert!(!is_account_dir("Realm"));
    let i = install("retail");
    let folders: Vec<String> = ["123#1", "SavedVariables", "abc", "456"].iter().map(|s| s.to_string()).collect();
    assert_eq!(i.find_all_valid_accounts(&folders), vec!["123#1".to_string(), "456".to_string()]);
    let realms = i.find_all_realms(&vec![
        ("123#1".to_string(), vec!["Silvermoon".to_string(), "SavedVariables".to_string()]),
        ("456".to_string(), vec!["Draenor".to_string()]),
    ]);
    assert_eq!(
        realms,
        vec![("123#1".to_string(), "Silvermoon".to_string()), ("456".to_string(), "Draenor".to_string())]
    );
    let chars = i.find_all_characters(&vec![(
        "123#1".to_string(),
        "Silvermoon".to_string(),
        vec!["Arthas".to_string(), "Jaina".to_string()],
    )]);
    assert_eq!(chars.len(), 2);
    assert_eq!(chars[1].name, "Jaina");
    assert_eq!(chars[1].realm, "Silvermoon");
    assert_eq!(chars[1].branch, "retail");
    assert_eq!(chars[1].class, WoWClass::Unknown);
}

#[test]
fn class_from_configuration() {
    assert_eq!(class_id_from_config("SET foo \"1\"\nSET EJLootClass \"8\"\nSET bar 2\n"), Some(8));
    assert_eq!(class_id_from_config("set ejlootclass 11\r\n"), Some(11));
    assert_eq!(class_id_from_config("SET EJLootClass\n"), None);
    assert_eq!(class_id_from_config("SET EJLootClass \"300\"\n"), None);
    assert_eq!(class_id_from_config("SET EJLootClass \"x\"\nSET EJLootClass \"2\"\n"), None);
    assert_eq!(class_id_from_config("SET other \"2\"\n"), None);
    assert_eq!(class_id_from_config("  SET EJLootClass \"2\"\n"), None);
    assert_eq!(class_id_from_config("SET EJLootClass \"+2\""), Some(2));
}

#[test]
fn loading_the_class_of_a_character() {
    let mut c = WoWCharacter {
        account: "1".to_string(),
        branch: "retail".to_string(),
        name: "Arthas".to_string(),
        realm: "R".to_string(),
        class: WoWClass::Unknown,
        config_files: vec![],
        addon_files: vec![],
        backups: vec![],
    };
    assert!(c.config_file().is_none());
    let dir = ChronoPath::from_segment("c");
    assert!(c.map_config_files(&dir, Some(&vec!["Config-Cache.WTF".to_string()])));
    assert_eq!(c.config_file().unwrap().name, "Config-Cache.WTF");
    assert!(!c.try_to_load_class(None));
    assert_eq!(c.class, WoWClass::Unknown);
    assert!(c.try_to_load_class(Some("SET EJLootClass \"6\"")));
    assert_eq!(c.class, WoWClass::DeathKnight);
    assert!(!c.try_to_load_class(Some("nothing")));
    assert_eq!(c.class, WoWClass::DeathKnight);
    assert!(!c.map_addon_files(&dir, None));
    assert!(c.addon_files.is_empty());
    assert!(c.map_addon_files(&dir, Some(&vec!["Details.lua".to_string(), "Details.lua.bak".to_string()])));
    assert_eq!(c.addon_files.len(), 1);
    assert_eq!(segs(&c.addon_files[0].path), vec!["c", "SavedVariables", "Details.lua"]);
}
