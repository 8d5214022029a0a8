use git_version::path::join;

#[test]
fn join_puts_relative_path_behind_base() {
    assert_eq!(join("project", ".git"), "project/.git");
    assert_eq!(join("/home/me/project", "sub/dir"), "/home/me/project/sub/dir");
    assert_eq!(join(".", "../.git"), "./../.git");
}

#[test]
fn join_keeps_absolute_path() {
    assert_eq!(join("project", "/srv/repo/.git"), "/srv/repo/.git");
    assert_eq!(join("", "/"), "/");
}

#[test]
fn join_adds_no_second_separator() {
    assert_eq!(join("project/", ".git"), "project/.git");
    assert_eq!(join("/", "etc"), "/etc");
}

#[test]
fn join_with_empty_parts() {
    assert_eq!(join("", ".git"), ".git");
    assert_eq!(join("project", ""), "project/");
    assert_eq!(join("project/", ""), "project/");
    assert_eq!(join("", ""), "");
}

#[test]
fn join_counts_characters_not_bytes() {
    assert_eq!(join("d\u{e9}p\u{f4}t", "\u{2713}"), "d\u{e9}p\u{f4}t/\u{2713}");
    assert_eq!(join("d\u{e9}p\u{f4}t/", "\u{2713}"), "d\u{e9}p\u{f4}t/\u{2713}");
}
