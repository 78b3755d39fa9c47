use dev_cli::path::{join, parent, path_components, starts_with};
use dev_cli::text::to_chars;

fn components(p: &str) -> Vec<String> {
    path_components(&to_chars(p)).iter().map(|c| c.iter().collect()).collect()
}

#[test]
fn components_of_paths() {
    assert_eq!(components("/a/b"), vec!["/", "a", "b"]);
    assert_eq!(components("a/b/"), vec!["a", "b"]);
    assert_eq!(components("a//b/./c"), vec!["a", "b", "c"]);
    assert_eq!(components("./a"), vec![".", "a"]);
    assert_eq!(components("."), vec!["."]);
    assert_eq!(components("/./a"), vec!["/", "a"]);
    assert_eq!(components("/"), vec!["/"]);
    assert_eq!(components(""), Vec::<String>::new());
    assert_eq!(components("../a"), vec!["..", "a"]);
    assert_eq!(components(".a/b."), vec![".a", "b."]);
}

#[test]
fn starts_with_matches_whole_components() {
    assert!(starts_with("/repo/feature", "/repo/feature"));
    assert!(starts_with("/repo/feature/src/x", "/repo/feature"));
    assert!(!starts_with("/repo/feature2", "/repo/feature"));
    assert!(!starts_with("/repo", "/repo/feature"));
    assert!(starts_with("/repo/feature/", "/repo//feature"));
    assert!(starts_with("/anything", ""));
    assert!(starts_with("/anything", "/"));
    assert!(!starts_with("relative/a", "/relative"));
    assert!(!starts_with("/relative/a", "relative"));
}

#[test]
fn starts_with_agrees_with_std_paths() {
    let paths = ["", "/", "/a", "/a/b", "/a/b/", "/a//b", "/a/./b", "a", "a/b", "./a", ".", "/ab", "/a/bc", "a/", "..", "../a", "/a/b/c"];
    for p in paths {
        for b in paths {
            assert_eq!(
                starts_with(p, b),
                std::path::Path::new(p).starts_with(b),
                "{:?} under {:?}",
                p,
                b
            );
        }
    }
}

#[test]
fn parent_of_paths() {
    assert_eq!(parent("/home/u/proj").as_deref(), Some("/home/u"));
    assert_eq!(parent("/proj").as_deref(), Some("/"));
    assert_eq!(parent("/"), None);
    assert_eq!(parent(""), None);
    assert_eq!(parent("proj").as_deref(), Some(""));
    assert_eq!(parent("a/b").as_deref(), Some("a"));
    assert_eq!(parent("/a/b/").as_deref(), Some("/a"));
    assert_eq!(parent("./a").as_deref(), Some("."));
}

#[test]
fn parent_keeps_the_path_as_written() {
    assert_eq!(parent("/a//b/c").as_deref(), Some("/a//b"));
    assert_eq!(parent("/a/./b/c").as_deref(), Some("/a/./b"));
    assert_eq!(parent("//a").as_deref(), Some("/"));
    assert_eq!(parent("/a/b/.").as_deref(), Some("/a"));
    assert_eq!(parent("a/.").as_deref(), Some(""));
    assert_eq!(parent("/."), None);
    assert_eq!(parent(".").as_deref(), Some(""));
}

#[test]
fn parent_agrees_with_std_paths() {
    for p in [
        "/home/u/proj", "/proj", "/", "", "proj", "a/b", "/a/b/", "./a", "/a/b/c/d", "x/y/z",
        "/a//b", "/a/./b/c", "//a", "a/./b", "/a/b/.", "a//", ".", "..", "./", "/.", "a/.",
        "/a/./", "../a", "a/..", "//", "/a/b//", "./.", "./a/b", ".a", "a/.b/c",
    ] {
        let expected = std::path::Path::new(p).parent().map(|d| d.to_string_lossy().into_owned());
        assert_eq!(parent(p), expected, "{:?}", p);
    }
}

#[test]
fn join_appends_with_one_separator() {
    assert_eq!(join("/a", "b"), "/a/b");
    assert_eq!(join("/a/", "b"), "/a/b");
    assert_eq!(join("", "b"), "b");
    assert_eq!(join("/a", "/b"), "/b");
    assert_eq!(join("/a", ""), "/a/");
    assert_eq!(join("/", "b"), "/b");
}

#[test]
fn join_agrees_with_std_paths() {
    for base in ["", "/", "/a", "/a/", "a", "a/b", "~"] {
        for child in ["", "b", "/b", "b/c", "Development", ".config"] {
            let expected = std::path::Path::new(base).join(child).to_string_lossy().into_owned();
            assert_eq!(join(base, child), expected, "{:?} + {:?}", base, child);
        }
    }
}
