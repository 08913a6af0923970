use elvis::path::FsPath;

fn path(text: &str) -> FsPath {
    let mut parts: Vec<String> = Vec::new();
    if text.starts_with('/') {
        parts.push("/".to_string());
    }
    for part in text.split('/') {
        if !part.is_empty() {
            parts.push(part.to_string());
        }
    }
    FsPath::new(parts)
}

#[test]
fn path_new_keeps_the_components() {
    let p = FsPath::new(vec!["a".to_string(), "b".to_string()]);
    assert_eq!(p.parts, vec!["a".to_string(), "b".to_string()]);
    assert_eq!(p.len(), 2);
    assert_eq!(FsPath::new(vec![]).len(), 0);
}

#[test]
fn path_clone_is_the_same_path() {
    let p = path("/a/b/c");
    assert_eq!(p.clone(), p);
    assert!(p.clone().equals(&p));
}

#[test]
fn path_equals_compares_components() {
    assert!(path("a/b").equals(&path("a/b")));
    assert!(path("a/b").equals(&path("a//b/")));
    assert!(!path("a/b").equals(&path("a/c")));
    assert!(!path("a/b").equals(&path("a")));
    assert!(!path("a").equals(&path("a/b")));
    assert!(!path("/a").equals(&path("a")));
    assert!(path("").equals(&path("")));
}

#[test]
fn path_starts_with_its_ancestors_and_itself() {
    let p = path("/a/b/c");
    assert!(p.starts_with(&path("/a/b/c")));
    assert!(p.starts_with(&path("/a/b")));
    assert!(p.starts_with(&path("/")));
    assert!(p.starts_with(&path("")));
    assert!(!p.starts_with(&path("/a/c")));
    assert!(!p.starts_with(&path("/a/b/c/d")));
    assert!(!p.starts_with(&path("a")));
}

#[test]
fn path_join_appends() {
    assert_eq!(path("/a").join(&path("b/c")), path("/a/b/c"));
    assert_eq!(path("/a").join(&path("")), path("/a"));
    assert_eq!(path("").join(&path("x")), path("x"));
    assert_eq!(path("a").join_name(&"b".to_string()), path("a/b"));
}

#[test]
fn path_strip_prefix_gives_what_is_below() {
    assert_eq!(path("/a/b/c").strip_prefix(&path("/a")), Some(path("b/c")));
    assert_eq!(path("/a/b/c").strip_prefix(&path("/a/b/c")), Some(path("")));
    assert_eq!(path("/a/b/c").strip_prefix(&path("")), Some(path("/a/b/c")));
    assert_eq!(path("/a/b/c").strip_prefix(&path("/b")), None);
    assert_eq!(path("a").strip_prefix(&path("a/b")), None);
}

#[test]
fn path_file_name_is_the_last_entry_name() {
    assert_eq!(path("/a/b.txt").file_name(), Some("b.txt".to_string()));
    assert_eq!(path("b.txt").file_name(), Some("b.txt".to_string()));
    assert_eq!(path("a/...").file_name(), Some("...".to_string()));
    assert_eq!(path("").file_name(), None);
    assert_eq!(path("/").file_name(), None);
    assert_eq!(path("a/..").file_name(), None);
    assert_eq!(path("..").file_name(), None);
    assert_eq!(path(".").file_name(), None);
}

#[test]
fn path_is_inside_its_ancestors_only() {
    assert!(path("/a/b").is_inside(&path("/a")));
    assert!(path("/a/b").is_inside(&path("/")));
    assert!(path("a").is_inside(&path("")));
    assert!(!path("/a").is_inside(&path("/a")));
    assert!(!path("/a").is_inside(&path("/a/b")));
    assert!(!path("/a/b").is_inside(&path("/c")));
}
