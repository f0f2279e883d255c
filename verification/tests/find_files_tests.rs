use bext::ops::find_files::{search_dir_for, search_down_for_file, search_up_for_file, Listed, WalkEntry};

fn entry(path: &str, name: &str) -> WalkEntry {
    WalkEntry {
        path: path.to_string(),
        file_name: name.to_string(),
    }
}

#[test]
fn search_up_finds_the_file_in_a_parent() {
    let search = |dir: &str, name: &str| -> Option<String> {
        if dir == "/tmp/work" && name == "target.txt" {
            Some("/tmp/work/target.txt".to_string())
        } else {
            None
        }
    };
    let found = search_up_for_file("/tmp/work/nested_0/nested_1", "target.txt", search);
    assert_eq!(found, Some("/tmp/work/target.txt".to_string()));
}

#[test]
fn search_up_finds_the_file_in_the_start_directory() {
    let search = |dir: &str, name: &str| -> Option<String> {
        Some(format!("{}/{}", dir, name))
    };
    assert_eq!(
        search_up_for_file("/a/b", "bext.toml", search),
        Some("/a/b/bext.toml".to_string())
    );
}

#[test]
fn search_up_stops_at_the_root() {
    let search = |_dir: &str, _name: &str| -> Option<String> { None };
    assert_eq!(search_up_for_file("/a/b/c", "bext.toml", search), None);
}

#[test]
fn core_search_up_starts_at_the_given_directory() {
    let search = |dir: &str, _name: &str| -> Option<String> {
        if dir == "/" {
            Some("/bext.toml".to_string())
        } else {
            None
        }
    };
    assert_eq!(
        bext::core_utils::find_files::search_up_for_file("/x/y", "bext.toml", search),
        Some("/bext.toml".to_string())
    );
}

#[test]
fn test_search_down_finds_nested_file() {
    let entries = vec![
        entry("/tmp/t", "t"),
        entry("/tmp/t/a", "a"),
        entry("/tmp/t/a/b", "b"),
        entry("/tmp/t/a/b/target.txt", "target.txt"),
    ];
    let found = search_down_for_file(&entries, "target.txt").unwrap();
    assert_eq!(found, "/tmp/t/a/b/target.txt");
}

#[test]
fn test_search_down_returns_none_when_missing() {
    let entries = vec![entry("/tmp/empty", "empty")];
    assert!(search_down_for_file(&entries, "ghost.txt").is_none());
}

#[test]
fn search_down_returns_the_first_match() {
    let entries = vec![
        entry("/r/x/blender_manifest.toml", "blender_manifest.toml"),
        entry("/r/y/blender_manifest.toml", "blender_manifest.toml"),
    ];
    assert_eq!(
        search_down_for_file(&entries, "blender_manifest.toml"),
        Some("/r/x/blender_manifest.toml".to_string())
    );
}

fn nested_tree_search(dir: &str, name: &str) -> Option<String> {
    let deepest = "/tmp/t/nested_0/nested_1/nested_2/nested_3/nested_4";
    if dir == deepest && name == "target.txt" {
        Some(format!("{}/target.txt", deepest))
    } else {
        None
    }
}

#[test]
fn test_find_file_in_tree() {
    let current_dir = "/tmp/t/nested_0/nested_1/nested_2/nested_3/nested_4";
    let target_file = format!("{}/target.txt", current_dir);
    let file = search_up_for_file(current_dir, "target.txt", nested_tree_search).unwrap();
    assert_eq!(file, target_file);
}

#[test]
fn find_files_test_find_file_in_tree() {
    let current_dir = "/tmp/t/nested_0/nested_1/nested_2/nested_3/nested_4";
    let target_file = format!("{}/target.txt", current_dir);
    let file =
        bext::core_utils::find_files::search_up_for_file(current_dir, "target.txt", nested_tree_search).unwrap();
    assert_eq!(file, target_file);
}

#[test]
fn search_dir_for_picks_the_first_regular_file_with_the_name() {
    let item = |path: &str, is_file: bool, name: Option<&str>| Listed::Item {
        path: path.to_string(),
        is_file,
        file_name: name.map(|n| n.to_string()),
    };
    let listing = vec![
        item("/d/bext.toml", false, Some("bext.toml")),
        item("/d/other.txt", true, Some("other.txt")),
        item("/d/bext.toml2", true, Some("bext.toml")),
    ];
    assert_eq!(search_dir_for(&listing, "bext.toml"), Some("/d/bext.toml2".to_string()));
    assert_eq!(search_dir_for(&listing, "missing"), None);
    let stops = vec![Listed::Unreadable, item("/d/bext.toml", true, Some("bext.toml"))];
    assert_eq!(search_dir_for(&stops, "bext.toml"), None);
    let odd_name = vec![item("/d/x", true, None), item("/d/bext.toml", true, Some("bext.toml"))];
    assert_eq!(search_dir_for(&odd_name, "bext.toml"), None);
}
