use lime_tui::session_resume::{cwds_differ, normalize_cwd};

#[test]
fn cwds_differ_ignores_lexical_segments() {
    assert!(!cwds_differ(
        "/workspace/project",
        "/workspace/project/./src/..",
    ));
}

#[test]
fn cwds_differ_detects_distinct_paths() {
    assert!(cwds_differ("/workspace/one", "/workspace/two"));
}

#[test]
fn normalization_drops_dots_and_empty_segments() {
    assert_eq!(normalize_cwd("/a//b/./c/"), "/a/b/c");
    assert_eq!(normalize_cwd("/a/b/../c"), "/a/c");
    assert_eq!(normalize_cwd("/.."), "/");
    assert_eq!(normalize_cwd("/"), "/");
    assert_eq!(normalize_cwd("a/../.."), "..");
    assert_eq!(normalize_cwd("../.."), "");
    assert_eq!(normalize_cwd(""), "");
}

#[test]
fn absolute_and_relative_paths_differ() {
    assert!(cwds_differ("/a", "a"));
    assert!(!cwds_differ("a/b/..", "./a"));
    assert!(cwds_differ("/a/b", "/a"));
}
