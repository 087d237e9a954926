use agent_engine::sandbox::path_stays_in_root;

#[test]
fn plain_relative_paths_stay() {
    assert!(path_stays_in_root("src/main.rs"));
    assert!(path_stays_in_root("a/b/c"));
    assert!(path_stays_in_root(""));
    assert!(path_stays_in_root("."));
    assert!(path_stays_in_root("./a"));
    assert!(path_stays_in_root("a//b"));
    assert!(path_stays_in_root("a/"));
}

#[test]
fn parent_traversal_is_rejected() {
    assert!(!path_stays_in_root(".."));
    assert!(!path_stays_in_root("../x"));
    assert!(!path_stays_in_root("a/../../b"));
    assert!(!path_stays_in_root("./.."));
    assert!(!path_stays_in_root("a/b/../../../c"));
}

#[test]
fn balanced_traversal_stays() {
    assert!(path_stays_in_root("a/../b"));
    assert!(path_stays_in_root("a/b/../.."));
    assert!(path_stays_in_root("a/./../a"));
}

#[test]
fn absolute_paths_are_rejected() {
    assert!(!path_stays_in_root("/etc/passwd"));
    assert!(!path_stays_in_root("/"));
}

#[test]
fn dot_dot_lookalikes_are_ordinary_segments() {
    assert!(path_stays_in_root("..."));
    assert!(path_stays_in_root("..a/x"));
    assert!(path_stays_in_root("a..b"));
}
