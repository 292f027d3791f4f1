//! The path functions on given paths.

use yaso::path::{
    basename, delimiter, dirname, extname, is_absolute, join, normalize, parse, resolve,
    separator, split_name_and_extension, ParsedPath,
};

fn strings(items: &[&str]) -> Vec<String> {
    items.iter().map(|s| s.to_string()).collect()
}

fn parts(root: &str, dir: &str, base: &str, ext: &str, name: &str) -> ParsedPath {
    ParsedPath {
        root: root.to_string(),
        dir: dir.to_string(),
        base: base.to_string(),
        ext: ext.to_string(),
        name: name.to_string(),
    }
}

#[test]
fn join_strips_leading_separators() {
    assert_eq!(join(&strings(&["/a", "b", "/c"])), "a/b/c");
}

#[test]
fn join_of_nothing_is_empty() {
    assert_eq!(join(&strings(&[])), "");
    assert_eq!(join(&strings(&["", ""])), "");
}

#[test]
fn join_keeps_inner_separators() {
    assert_eq!(join(&strings(&["a/", "///b//c", "d"])), "a/b//c/d");
    assert_eq!(join(&strings(&["a", ""])), "a/");
}

#[test]
fn dirname_of_nested_path() {
    assert_eq!(dirname("a/b/c.txt"), "a/b");
}

#[test]
fn dirname_without_parent_is_dot() {
    assert_eq!(dirname("file.txt"), ".");
    assert_eq!(dirname(""), ".");
    assert_eq!(dirname("/"), ".");
    assert_eq!(dirname("."), ".");
}

#[test]
fn dirname_of_rooted_name_is_root() {
    assert_eq!(dirname("/etc"), "/");
    assert_eq!(dirname("/etc/passwd"), "/etc");
}

#[test]
fn basename_of_nested_path() {
    assert_eq!(basename("a/b/c.txt"), "c.txt");
}

#[test]
fn basename_without_name_is_empty() {
    assert_eq!(basename(""), "");
    assert_eq!(basename("/"), "");
    assert_eq!(basename("a/.."), "");
    assert_eq!(basename(".."), "");
}

#[test]
fn basename_ignores_trailing_separators() {
    assert_eq!(basename("a/b/"), "b");
    assert_eq!(basename("a/b/."), "b");
}

#[test]
fn extname_of_nested_path() {
    assert_eq!(extname("a/b/c.txt"), ".txt");
}

#[test]
fn extname_without_extension_is_empty() {
    assert_eq!(extname("a/b/noext"), "");
    assert_eq!(extname(".profile"), "");
    assert_eq!(extname("a.b/c"), "");
    assert_eq!(extname(""), "");
}

#[test]
fn extname_takes_last_dot() {
    assert_eq!(extname("archive.tar.gz"), ".gz");
    assert_eq!(extname("name."), ".");
    assert_eq!(extname("..x"), ".x");
}

#[test]
fn is_absolute_looks_at_the_root() {
    assert!(is_absolute("/"));
    assert!(is_absolute("/a/b"));
    assert!(!is_absolute("a/b"));
    assert!(!is_absolute(""));
    assert!(!is_absolute("./a"));
}

#[test]
fn normalize_collapses_redundant_components() {
    assert_eq!(normalize("a//b/./c/"), "a/b/c");
    assert_eq!(normalize("/a/./b//"), "/a/b");
    assert_eq!(normalize("./a"), "./a");
    assert_eq!(normalize("a/../b"), "a/../b");
    assert_eq!(normalize("////"), "/");
    assert_eq!(normalize(""), "");
    assert_eq!(normalize("./."), ".");
}

#[test]
fn normalize_is_idempotent_on_samples() {
    for p in ["a//b/./c/", "/x/../y/", "./.", "..//..", "/", "", "日本//語/"] {
        let once = normalize(p);
        assert_eq!(normalize(&once), once);
    }
}

#[test]
fn resolve_anchors_at_working_directory() {
    assert_eq!(resolve("/home/me", &strings(&["a", "b.txt"])), "/home/me/a/b.txt");
    assert_eq!(resolve("/home/me", &strings(&[])), "/home/me");
    assert_eq!(resolve("/home/me/", &strings(&["a"])), "/home/me/a");
}

#[test]
fn resolve_restarts_at_absolute_segment() {
    assert_eq!(resolve("/home/me", &strings(&["a", "/etc", "hosts"])), "/etc/hosts");
}

#[test]
fn parse_reports_all_parts() {
    assert_eq!(parse("/home/me/notes.txt"), parts("/", "/home/me", "notes.txt", ".txt", "notes"));
    assert_eq!(parse("a/b/c"), parts("", "a/b", "c", "", "c"));
    assert_eq!(parse("file.tar.gz"), parts("", "", "file.tar.gz", ".gz", "file.tar"));
    assert_eq!(parse("/"), parts("/", "", "", "", ""));
    assert_eq!(parse(""), parts("", "", "", "", ""));
    assert_eq!(parse(".bashrc"), parts("", "", ".bashrc", "", ".bashrc"));
    assert_eq!(parse("dir/name."), parts("", "dir", "name.", "", "name."));
}

#[test]
fn format_prefers_dir_and_base() {
    assert_eq!(yaso::path::format(&parts("/", "/home/me", "notes.txt", ".md", "other")), "/home/me/notes.txt");
    assert_eq!(yaso::path::format(&parts("/", "", "notes.txt", "", "")), "/notes.txt");
}

#[test]
fn format_builds_base_from_name_and_ext() {
    assert_eq!(yaso::path::format(&parts("", "docs", "", "md", "readme")), "docs/readme.md");
    assert_eq!(yaso::path::format(&parts("", "docs", "", ".md", "readme")), "docs/readme.md");
    assert_eq!(yaso::path::format(&parts("", "", "", "", "readme")), "readme");
    assert_eq!(yaso::path::format(&parts("", "", "", "", "")), "");
    assert_eq!(yaso::path::format(&parts("", "docs", "", "", "")), "docs/");
}

#[test]
fn format_of_absolute_base_replaces_dir() {
    assert_eq!(yaso::path::format(&parts("", "docs", "/etc/hosts", "", "")), "/etc/hosts");
}

#[test]
fn format_reconstructs_parsed_paths() {
    for p in ["a/b/c.txt", "/usr/lib/libc.so.6", "file", "/", "", "./x/y", "a/../b", ".hidden", "日本/語.txt"] {
        assert_eq!(yaso::path::format(&parse(p)), p, "round trip of {:?}", p);
    }
}

#[test]
fn format_of_parsed_path_is_equivalent_with_redundancy() {
    for p in ["a//b///c.txt", "/usr/./lib/", "x/", "//", "a/b/./."] {
        let back = yaso::path::format(&parse(p));
        assert_eq!(normalize(&back), normalize(p), "round trip of {:?}", p);
    }
}

#[test]
fn format_of_parsed_dots_loses_them() {
    assert_eq!(yaso::path::format(&parse("..")), "");
    assert_eq!(yaso::path::format(&parse(".")), "");
    assert_eq!(yaso::path::format(&parse("a/..")), "a/");
}

#[test]
fn split_takes_extension_of_last_component() {
    assert_eq!(
        split_name_and_extension("c.txt".to_string()),
        ("c".to_string(), ".txt".to_string())
    );
    assert_eq!(
        split_name_and_extension("noext".to_string()),
        ("noext".to_string(), String::new())
    );
    assert_eq!(
        split_name_and_extension("name.".to_string()),
        ("name.".to_string(), String::new())
    );
    assert_eq!(
        split_name_and_extension("a/b.txt".to_string()),
        ("a/b".to_string(), ".txt".to_string())
    );
}

#[test]
fn split_cuts_by_bytes_of_the_extension() {
    assert_eq!(
        split_name_and_extension("a.b/".to_string()),
        ("a.".to_string(), ".b".to_string())
    );
    assert_eq!(
        split_name_and_extension("x.é//".to_string()),
        (String::new(), ".é".to_string())
    );
}

#[test]
fn separator_and_delimiter_by_platform() {
    assert_eq!(separator(false), "/");
    assert_eq!(separator(true), "\\");
    assert_eq!(delimiter(false), ":");
    assert_eq!(delimiter(true), ";");
}
