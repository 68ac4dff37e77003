use generator::paths::join_paths;
use generator::paths::parent_dir;
use generator::paths::str_eq;

#[test]
fn join_inserts_separator() {
    assert_eq!(join_paths("a", "b"), "a/b");
    assert_eq!(join_paths("proj", "nested/out.txt"), "proj/nested/out.txt");
}

#[test]
fn join_keeps_existing_separator() {
    assert_eq!(join_paths("a/", "b"), "a/b");
}

#[test]
fn join_with_empty_base() {
    assert_eq!(join_paths("", "b"), "b");
}

#[test]
fn parent_is_text_before_last_separator() {
    assert_eq!(parent_dir("a/b/c.txt"), "a/b");
    assert_eq!(parent_dir("a/b"), "a");
}

#[test]
fn parent_of_plain_name_is_empty() {
    assert_eq!(parent_dir("file.txt"), "");
}

#[test]
fn parent_of_trailing_separator() {
    assert_eq!(parent_dir("a/b/"), "a/b");
}

#[test]
fn str_eq_compares_text() {
    assert!(str_eq("abc", "abc"));
    assert!(!str_eq("abc", "abd"));
    assert!(!str_eq("abc", "ab"));
    assert!(str_eq("", ""));
}
