use std::collections::BTreeSet;
use workspace_launcher::enumerate::{directories, get_projects, Entry};
use workspace_launcher::error::{IoKind, LaunchError};

fn dir(name: &str) -> Entry {
    Entry::Found { name: Some(name.to_string()), is_dir: true }
}

fn file(name: &str) -> Entry {
    Entry::Found { name: Some(name.to_string()), is_dir: false }
}

fn names(list: &[&str]) -> Vec<String> {
    list.iter().map(|s| s.to_string()).collect()
}

#[test]
fn directories_keeps_only_directories() {
    let listing = vec![dir("alpha"), file("notes.txt"), dir("Beta"), file("alpha.bak")];
    assert_eq!(directories(&listing), names(&["alpha", "Beta"]));
}

#[test]
fn directories_keeps_the_order_of_the_listing() {
    let listing = vec![dir("zeta"), dir("alpha"), dir("Mid")];
    assert_eq!(directories(&listing), names(&["zeta", "alpha", "Mid"]));
}

#[test]
fn directories_skips_unreadable_entries() {
    let listing = vec![Entry::Unreadable, dir("alpha"), Entry::Unreadable];
    assert_eq!(directories(&listing), names(&["alpha"]));
}

#[test]
fn directories_skips_names_that_are_not_text() {
    let listing = vec![
        Entry::Found { name: None, is_dir: true },
        dir("alpha"),
        Entry::Found { name: None, is_dir: false },
    ];
    assert_eq!(directories(&listing), names(&["alpha"]));
}

#[test]
fn directories_of_an_empty_listing_is_empty() {
    assert_eq!(directories(&Vec::new()), Vec::<String>::new());
}

#[test]
fn directories_of_files_only_is_empty() {
    let listing = vec![file("a"), file("b"), Entry::Unreadable];
    assert_eq!(directories(&listing), Vec::<String>::new());
}

#[test]
fn enumeration_is_exactly_the_directories() {
    let listing = vec![dir("one"), file("two"), dir("three"), Entry::Unreadable, file("four")];
    let found: BTreeSet<String> = directories(&listing).into_iter().collect();
    let mut expected = BTreeSet::new();
    for child in &listing {
        if let Entry::Found { name: Some(name), is_dir: true } = child {
            expected.insert(name.clone());
        }
    }
    assert_eq!(found, expected);
    assert_eq!(found.len(), 2);
}

#[test]
fn enumeration_twice_gives_the_same_names() {
    let listing = vec![dir("one"), file("two"), dir("three")];
    assert_eq!(directories(&listing), directories(&listing));
}

#[test]
fn enumeration_of_a_reordered_listing_gives_the_same_set() {
    let listing = vec![dir("one"), file("two"), dir("three"), dir("Four")];
    let reordered = vec![dir("Four"), dir("three"), file("two"), dir("one")];
    let first: BTreeSet<String> = directories(&listing).into_iter().collect();
    let second: BTreeSet<String> = directories(&reordered).into_iter().collect();
    assert_eq!(first, second);
    assert_ne!(directories(&listing), directories(&reordered));
}

#[test]
fn get_projects_lists_a_readable_root() {
    let root = "/tmp/ws".to_string();
    let listing = vec![dir("alpha"), dir("Beta"), file("README")];
    assert_eq!(get_projects(&root, Ok(listing)), Ok(names(&["alpha", "Beta"])));
}

#[test]
fn get_projects_reports_a_missing_root() {
    let root = "/tmp/ws".to_string();
    assert_eq!(
        get_projects(&root, Err(IoKind::NotFound)),
        Err(LaunchError::Io { path: "/tmp/ws".to_string(), kind: IoKind::NotFound })
    );
}

#[test]
fn get_projects_reports_a_root_that_is_no_directory() {
    let root = "/etc/passwd".to_string();
    assert_eq!(
        get_projects(&root, Err(IoKind::NotADirectory)),
        Err(LaunchError::Io { path: "/etc/passwd".to_string(), kind: IoKind::NotADirectory })
    );
}

#[test]
fn get_projects_reports_a_forbidden_root() {
    let root = "/root".to_string();
    assert_eq!(
        get_projects(&root, Err(IoKind::PermissionDenied)),
        Err(LaunchError::Io { path: "/root".to_string(), kind: IoKind::PermissionDenied })
    );
}

#[test]
fn get_projects_reports_any_other_failure() {
    let root = "/mnt/gone".to_string();
    assert_eq!(
        get_projects(&root, Err(IoKind::Other)),
        Err(LaunchError::Io { path: "/mnt/gone".to_string(), kind: IoKind::Other })
    );
}
