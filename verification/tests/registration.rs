use autocleanup::{AutoCleanup, Item};
use std::path::PathBuf;

#[test]
fn test() {
    let mut ac = AutoCleanup::new();
    ac.push_file(PathBuf::from("/nonexistent"));
}

#[test]
fn new_list_is_empty() {
    let ac = AutoCleanup::new();
    assert_eq!(ac.into_teardown(), Vec::<Item>::new());
}

#[test]
fn push_file_registers_a_file() {
    let mut ac = AutoCleanup::new();
    ac.push_file(PathBuf::from("/tmp/foo.sock"));
    assert_eq!(
        ac.into_teardown(),
        vec![Item::File(PathBuf::from("/tmp/foo.sock"))]
    );
}

#[test]
fn push_dir_registers_a_directory() {
    let mut ac = AutoCleanup::new();
    ac.push_dir(PathBuf::from("/tmp/scratch"));
    assert_eq!(
        ac.into_teardown(),
        vec![Item::Dir(PathBuf::from("/tmp/scratch"))]
    );
}

#[test]
fn push_takes_a_prebuilt_item() {
    let mut ac = AutoCleanup::new();
    ac.push(Item::Dir(PathBuf::from("/tmp/d")));
    ac.push(Item::File(PathBuf::from("/tmp/d/f")));
    assert_eq!(
        ac.into_teardown(),
        vec![
            Item::File(PathBuf::from("/tmp/d/f")),
            Item::Dir(PathBuf::from("/tmp/d")),
        ]
    );
}

#[test]
fn push_and_the_shorthands_agree() {
    let mut by_item = AutoCleanup::new();
    by_item.push(Item::File(PathBuf::from("a")));
    by_item.push(Item::Dir(PathBuf::from("b")));
    let mut by_kind = AutoCleanup::new();
    by_kind.push_file(PathBuf::from("a"));
    by_kind.push_dir(PathBuf::from("b"));
    assert_eq!(by_item.into_teardown(), by_kind.into_teardown());
}

#[test]
fn file_and_directory_of_one_path_differ() {
    let mut ac = AutoCleanup::new();
    ac.push_file(PathBuf::from("/tmp/x"));
    let steps = ac.into_teardown();
    assert_ne!(steps, vec![Item::Dir(PathBuf::from("/tmp/x"))]);
}

#[test]
fn paths_are_taken_as_given() {
    let mut ac = AutoCleanup::new();
    ac.push_file(PathBuf::from(""));
    ac.push_dir(PathBuf::from("relative/../dir"));
    ac.push_file(PathBuf::from("/no such/place \n here"));
    assert_eq!(
        ac.into_teardown(),
        vec![
            Item::File(PathBuf::from("/no such/place \n here")),
            Item::Dir(PathBuf::from("relative/../dir")),
            Item::File(PathBuf::from("")),
        ]
    );
}
