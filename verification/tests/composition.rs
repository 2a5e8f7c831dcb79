use working_dir::dir::Dir;
use working_dir::paths::{join_paths, parent_of};

#[test]
fn join_inserts_separator() {
    let cwd = Dir::new("my/root".to_string());
    assert_eq!(cwd.join("path/to/file.txt"), "my/root/path/to/file.txt");
}

#[test]
fn join_keeps_existing_separator() {
    let cwd = Dir::new("my/root/".to_string());
    assert_eq!(cwd.join("path/to/file.txt"), "my/root/path/to/file.txt");
}

#[test]
fn join_absolute_overrides_base() {
    let cwd = Dir::new("my/root".to_string());
    assert_eq!(cwd.join("/abs/path"), "/abs/path");
}

#[test]
fn join_empty_base_yields_fragment() {
    let cwd = Dir::new(String::new());
    assert_eq!(cwd.join("file.txt"), "file.txt");
}

#[test]
fn join_empty_fragment_appends_separator() {
    assert_eq!(join_paths("my/root", ""), "my/root/");
}

#[test]
fn resolve_inserts_separator() {
    let cwd = Dir::new("root/a".to_string());
    assert_eq!(cwd.resolve("x/y.txt"), "root/a/x/y.txt");
}

#[test]
fn resolve_keeps_existing_separator() {
    let cwd = Dir::new("root/a/".to_string());
    assert_eq!(cwd.resolve("x/y.txt"), "root/a/x/y.txt");
}

#[test]
fn resolve_empty_fragment_leaves_base_alone() {
    let cwd = Dir::new("root/a".to_string());
    assert_eq!(cwd.resolve(""), "root/a");
}

#[test]
fn resolve_absolute_overrides_base() {
    let cwd = Dir::new("root/a".to_string());
    assert_eq!(cwd.resolve("/abs/path"), "/abs/path");
}

#[test]
fn resolve_empty_base_yields_fragment() {
    let cwd = Dir::new(String::new());
    assert_eq!(cwd.resolve("x/y.txt"), "x/y.txt");
}

#[test]
fn resolve_pair_keeps_endpoints_apart() {
    let cwd = Dir::new("root/a".to_string());
    let (from, to) = cwd.resolve_pair("src.txt", "dst.txt");
    assert_eq!(from, "root/a/src.txt");
    assert_eq!(to, "root/a/dst.txt");
    assert_ne!(from, to);
}

#[test]
fn resolved_path_extends_the_base() {
    let cwd = Dir::new("root/a".to_string());
    assert!(cwd.resolve("x/y.txt").starts_with("root/a"));
    assert!(cwd.resolve("").starts_with("root/a"));
}

#[test]
fn distinct_roots_compose_distinct_paths() {
    let a = Dir::new("root/a".to_string());
    let b = Dir::new("root/b".to_string());
    assert_ne!(a.resolve("x/y.txt"), b.resolve("x/y.txt"));
}

#[test]
fn composition_under_root_is_not_the_bare_fragment() {
    let cwd = Dir::new("my/root".to_string());
    assert_ne!(cwd.resolve("path/to/file.txt"), "path/to/file.txt");
}

#[test]
fn parent_of_nested_path() {
    assert_eq!(parent_of("x/y.txt"), Some("x".to_string()));
    assert_eq!(parent_of("a/b/c"), Some("a/b".to_string()));
}

#[test]
fn parent_of_bare_name_is_empty() {
    assert_eq!(parent_of("file.txt"), Some(String::new()));
}

#[test]
fn parent_of_empty_and_root_is_none() {
    assert_eq!(parent_of(""), None);
    assert_eq!(parent_of("/"), None);
    assert_eq!(parent_of("///"), None);
}

#[test]
fn parent_directly_under_root_is_root() {
    assert_eq!(parent_of("/a"), Some("/".to_string()));
    assert_eq!(parent_of("/a/b"), Some("/a".to_string()));
}

#[test]
fn parent_ignores_trailing_and_repeated_separators() {
    assert_eq!(parent_of("a/b/"), Some("a".to_string()));
    assert_eq!(parent_of("a//b"), Some("a".to_string()));
    assert_eq!(parent_of("//a"), Some("/".to_string()));
}
