use chronobind::path::{
    directories_in_root, files_in_directory, is_folder_entry, logical_is_path_inside, parse_path, split_file_name, ChronoPath,
};

#[test]
fn split_names() {
    assert_eq!(split_file_name("bindings-cache.wtf"), ("bindings-cache".to_string(), Some("wtf".to_string())));
    assert_eq!(split_file_name("archive.tar.gz"), ("archive.tar".to_string(), Some("gz".to_string())));
    assert_eq!(split_file_name("README"), ("README".to_string(), None));
    assert_eq!(split_file_name(".hidden"), (".hidden".to_string(), None));
    assert_eq!(split_file_name("trailing."), ("trailing".to_string(), Some(String::new())));
}

#[test]
fn parse_typed_paths() {
    assert_eq!(parse_path("  C:\\Games\\WoW  "), "C:\\Games\\WoW");
    assert_eq!(parse_path("\"/home/me/backup.zip\""), "/home/me/backup.zip");
    assert_eq!(parse_path(" '/tmp/x' "), "/tmp/x");
    assert_eq!(parse_path("\"mismatched'"), "\"mismatched'");
    assert_eq!(parse_path("\""), "\"");
    assert_eq!(parse_path("   "), "");
}

#[test]
fn path_inside() {
    assert!(logical_is_path_inside("/a/b", "/a/b/c.txt"));
    assert!(logical_is_path_inside("/a/b", "/a/b"));
    assert!(logical_is_path_inside("/a/b/", "/a/b/c"));
    assert!(!logical_is_path_inside("/a/b", "/a/bc"));
    assert!(!logical_is_path_inside("/a/b/c", "/a/b"));
}

#[test]
fn directory_listing_filter() {
    let names = vec![
        "WTF/Account/A/SavedVariables/x.lua".to_string(),
        "WTF/Account/B/y.lua".to_string(),
        "WTF/Account/A/z.txt".to_string(),
    ];
    let inside = files_in_directory("WTF/Account/A", &names);
    assert_eq!(
        inside,
        vec!["WTF/Account/A/SavedVariables/x.lua".to_string(), "WTF/Account/A/z.txt".to_string()]
    );
    assert!(files_in_directory("Other", &names).is_empty());
}

#[test]
fn path_segments() {
    let p = ChronoPath::from_segment("/games/wow");
    let q = p.join("_retail_").join("WTF");
    assert_eq!(q.segments, vec!["/games/wow".to_string(), "_retail_".to_string(), "WTF".to_string()]);
    assert_eq!(q.copy().segments, q.segments);
    assert_eq!(p.segments.len(), 1);
}

#[test]
fn archive_folder_entries() {
    assert!(is_folder_entry("SavedVariables/"));
    assert!(!is_folder_entry("SavedVariables/Details.lua"));
    assert!(!is_folder_entry(""));
}

#[test]
fn archive_root_folders_each_once() {
    let names: Vec<String> = ["WTF/a.txt", "WTF/b/c", "Interface/x", "top.txt", "WTF/"]
        .iter()
        .map(|s| s.to_string())
        .collect();
    assert_eq!(directories_in_root(&names), vec!["WTF".to_string(), "Interface".to_string(), "top.txt".to_string()]);
    assert!(directories_in_root(&vec![]).is_empty());
}
