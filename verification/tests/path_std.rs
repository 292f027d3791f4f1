//! The path functions agree with `std::path` on POSIX systems.

use std::path::{Component, Path, PathBuf};

use yaso::path::{
    basename, dirname, extname, is_absolute, join, normalize, parse, resolve,
    split_name_and_extension,
};

fn corpus() -> Vec<String> {
    let pieces = ["", "/", ".", "..", "a", "b.txt", ".hidden", "x.", "..y", "a.b.c", "é.ü", "日本"];
    let mut out: Vec<String> = Vec::new();
    for a in pieces {
        out.push(a.to_string());
        for b in pieces {
            out.push(format!("{}/{}", a, b));
            out.push(format!("{}{}", a, b));
            out.push(format!("{}//{}", a, b));
            for c in pieces {
                out.push(format!("{}/{}/{}", a, b, c));
                out.push(format!("{}/{}{}", a, b, c));
                out.push(format!("/{}/./{}//{}/", a, b, c));
            }
        }
    }
    out.push("a/b/c.txt".to_string());
    out.push("/usr/lib/libc.so.6".to_string());
    out.push("./a/../b/./c".to_string());
    out.push("////".to_string());
    out.push("/./.".to_string());
    out.push("./.".to_string());
    out.push("a/./".to_string());
    out.push("é//".to_string());
    out.push("x.é//".to_string());
    out.push("x.日//./".to_string());
    out
}

fn std_basename(path: &str) -> String {
    match Path::new(path).file_name() {
        Some(name) => name.to_string_lossy().to_string(),
        None => String::new(),
    }
}

fn std_dirname(path: &str) -> String {
    match Path::new(path).parent() {
        Some(parent) => {
            let parent = parent.to_string_lossy().to_string();
            if parent.is_empty() {
                String::from(".")
            } else {
                parent
            }
        }
        None => String::from("."),
    }
}

fn std_extname(path: &str) -> String {
    match Path::new(path).extension() {
        Some(extension) => String::from(".") + &extension.to_string_lossy(),
        None => String::new(),
    }
}

fn std_normalize(path: &str) -> String {
    let mut out = PathBuf::new();
    for component in Path::new(path).components() {
        out.push(component);
    }
    out.to_string_lossy().to_string()
}

fn std_split(file_name: &str) -> (String, String) {
    let mut extension = Path::new(file_name)
        .extension()
        .unwrap_or_default()
        .to_string_lossy()
        .to_string();
    if !extension.is_empty() {
        extension.insert(0, '.');
    }
    let name = file_name
        .get(0..(file_name.len() - extension.len()))
        .unwrap_or_default()
        .to_string();
    (name, extension)
}

fn std_root(path: &str) -> String {
    match Path::new(path).components().next() {
        Some(Component::RootDir) => "/".to_string(),
        _ => String::new(),
    }
}

fn std_push_all(start: &str, paths: &[String]) -> String {
    let mut out = PathBuf::from(start);
    for path in paths {
        out.push(path);
    }
    out.to_string_lossy().to_string()
}

#[test]
fn basename_agrees_with_std_path() {
    for p in corpus() {
        assert_eq!(basename(&p), std_basename(&p), "basename of {:?}", p);
    }
}

#[test]
fn dirname_agrees_with_std_path() {
    for p in corpus() {
        assert_eq!(dirname(&p), std_dirname(&p), "dirname of {:?}", p);
    }
}

#[test]
fn extname_agrees_with_std_path() {
    for p in corpus() {
        assert_eq!(extname(&p), std_extname(&p), "extname of {:?}", p);
    }
}

#[test]
fn is_absolute_agrees_with_std_path() {
    for p in corpus() {
        assert_eq!(is_absolute(&p), Path::new(&p).is_absolute(), "is_absolute of {:?}", p);
    }
}

#[test]
fn normalize_agrees_with_std_path() {
    for p in corpus() {
        assert_eq!(normalize(&p), std_normalize(&p), "normalize of {:?}", p);
    }
}

#[test]
fn split_agrees_with_std_path() {
    for p in corpus() {
        assert_eq!(split_name_and_extension(p.clone()), std_split(&p), "split of {:?}", p);
    }
}

#[test]
fn parse_agrees_with_std_path() {
    for p in corpus() {
        let parts = parse(&p);
        let dir = Path::new(&p)
            .parent()
            .and_then(|d| d.as_os_str().to_str())
            .unwrap_or_default()
            .to_string();
        let (name, ext) = std_split(&std_basename(&p));
        assert_eq!(parts.root, std_root(&p), "root of {:?}", p);
        assert_eq!(parts.dir, dir, "dir of {:?}", p);
        assert_eq!(parts.base, format!("{}{}", name, ext), "base of {:?}", p);
        assert_eq!(parts.ext, ext, "ext of {:?}", p);
        assert_eq!(parts.name, name, "name of {:?}", p);
    }
}

#[test]
fn format_agrees_with_std_path() {
    for p in corpus() {
        let parts = parse(&p);
        let mut out = PathBuf::new();
        if !parts.dir.is_empty() {
            out.push(&parts.dir);
        } else if !parts.root.is_empty() {
            out.push(&parts.root);
        }
        out.push(&parts.base);
        assert_eq!(yaso::path::format(&parts), out.to_string_lossy().to_string(), "format of {:?}", p);
    }
}

#[test]
fn join_and_resolve_agree_with_std_path() {
    let all = corpus();
    let mut i = 0;
    while i + 3 <= all.len() {
        let paths = vec![all[i].clone(), all[i + 1].clone(), all[i + 2].clone()];
        let stripped: Vec<String> =
            paths.iter().map(|p| p.trim_start_matches('/').to_string()).collect();
        assert_eq!(join(&paths), std_push_all("", &stripped), "join of {:?}", paths);
        assert_eq!(resolve("/work/dir", &paths), std_push_all("/work/dir", &paths));
        i += 7;
    }
}
