use robots_consumer::listing::{locate_directory, verify_file_exists, DirectoryEntry};

fn entry(name: &str, is_dir: bool) -> DirectoryEntry {
    DirectoryEntry {
        name: String::from(name),
        path: format!("/home/user/Documents/{}", name),
        is_dir,
    }
}

#[test]
fn finds_the_directory_of_the_name() {
    let listing = vec![entry("notes.txt", false), entry("robots", true), entry("photos", true)];
    assert_eq!(locate_directory(&listing, "robots"), Some(1));
    assert_eq!(locate_directory(&listing, "photos"), Some(2));
}

#[test]
fn finds_nothing_in_an_empty_listing() {
    assert_eq!(locate_directory(&Vec::new(), "robots"), None);
    assert!(!verify_file_exists(&Vec::new(), "robots.json"));
}

#[test]
fn finds_nothing_where_the_name_is_missing() {
    let listing = vec![entry("a", true), entry("b", true)];
    assert_eq!(locate_directory(&listing, "c"), None);
}

#[test]
fn passes_over_a_file_of_the_name() {
    let listing = vec![entry("robots", false), entry("other", true)];
    assert_eq!(locate_directory(&listing, "robots"), None);
    let both = vec![entry("robots", false), entry("robots", true)];
    assert_eq!(locate_directory(&both, "robots"), Some(1));
}

#[test]
fn takes_the_first_of_several() {
    let listing = vec![entry("x", true), entry("robots", true), entry("robots", true)];
    assert_eq!(locate_directory(&listing, "robots"), Some(1));
}

#[test]
fn compares_names_exactly() {
    let listing = vec![entry("Robots", true), entry("robots2", true), entry("robot", true)];
    assert_eq!(locate_directory(&listing, "robots"), None);
    assert_eq!(locate_directory(&listing, "Robots"), Some(0));
    assert_eq!(locate_directory(&listing, "rob*"), None);
    assert_eq!(locate_directory(&listing, ""), None);
}

#[test]
fn a_file_is_there_whatever_its_kind() {
    let listing = vec![entry("a.json", false), entry("sub", true)];
    assert!(verify_file_exists(&listing, "a.json"));
    assert!(verify_file_exists(&listing, "sub"));
    assert!(!verify_file_exists(&listing, "b.json"));
    assert!(!verify_file_exists(&listing, "A.json"));
    assert!(!verify_file_exists(&listing, "a.jso"));
}

#[test]
fn the_last_entry_is_seen_too() {
    let listing = vec![entry("a", false), entry("b", false), entry("c", false)];
    assert!(verify_file_exists(&listing, "c"));
    let dirs = vec![entry("a", true), entry("b", true), entry("c", true)];
    assert_eq!(locate_directory(&dirs, "c"), Some(2));
}
