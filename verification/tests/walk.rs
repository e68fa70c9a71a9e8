use literate::walk::filter::{has_extension, is_hidden};
use literate::walk::{count_visit, filter_dir_entry, visit_entry};
use literate::walk::{FileFilter, PathMapper, Target, Visit, WalkEntry};
use std::path::Path;

#[test]
fn filter_md() {
    assert!("rs".filter_file("foo.rs.md"));
    assert!(!"rs".filter_file("foo.ta.md"));
    assert!(!"rs".filter_file("foo.rs"));
}

#[test]
fn map_file() {
    assert_eq!(
        Path::new(&"target/".map_path("hello/world/foo.rs.md")),
        Path::new("target/hello/world/foo.rs")
    );
    assert_eq!(
        Path::new(&"target/".map_path("hello/world/foo.rs")),
        Path::new("target/hello/world/foo")
    );
    assert_eq!(Path::new(&"target/".map_path("/hello/foo.rs")), Path::new("/hello/foo"));
}

fn file(path: &str, name: &str) -> WalkEntry {
    WalkEntry { path: path.to_string(), file_name: name.to_string(), is_dir: false }
}

fn directory(path: &str, name: &str) -> WalkEntry {
    WalkEntry { path: path.to_string(), file_name: name.to_string(), is_dir: true }
}

#[test]
fn filter_needs_both_extensions() {
    assert!("rs".filter_file("a/b/foo.rs.md"));
    assert!("rs".filter_file("/abs/foo.bar.rs.md"));
    assert!(!"rs".filter_file("foo.md"));
    assert!(!"rs".filter_file("foo.md.rs"));
    assert!(!"rs".filter_file("foo.rs.md.txt"));
    assert!(!"rs".filter_file("foo.rs.MD"));
    assert!(!"rs".filter_file("foo.RS.md"));
    assert!(!"rs".filter_file("foo.rsx.md"));
    assert!(!"rs".filter_file("rs.md"));
    assert!(!"rs".filter_file(""));
    assert!("md".filter_file("foo.md.md"));
    assert!(!"md".filter_file("foo.md"));
}

#[test]
fn filter_rejects_hidden_files() {
    assert!(!"rs".filter_file(".foo.rs.md"));
    assert!(!"rs".filter_file("a/b/.foo.rs.md"));
    assert!(!"rs".filter_file(".rs.md"));
    assert!("rs".filter_file("a/.hidden/bar.rs.md"));
}

#[test]
fn boxed_filter_decides_as_its_filter() {
    let filter: Box<str> = "rs".into();
    assert!(filter.filter_file("foo.rs.md"));
    assert!(!filter.filter_file("foo.ta.md"));
}

#[test]
fn mapping_keeps_directories_and_strips_one_extension() {
    assert_eq!(Path::new(&"out/".map_path("docs/readme.rs.md")), Path::new("out/docs/readme.rs"));
    assert_eq!("out/".map_path("docs/readme.rs.md"), "out/docs/readme.rs");
    assert_eq!("out".map_path("docs/readme.rs.md"), "out/docs/readme.rs");
    assert_eq!("out".map_path("readme"), "out/readme");
    assert_eq!("out".map_path("a/b.c/readme"), "out/a/b.c/readme");
    assert_eq!("".map_path("readme.rs.md"), "readme.rs");
}

#[test]
fn owned_and_wrapped_mappers_map_alike() {
    let root = String::from("target/");
    assert_eq!(root.map_path("hello/world/foo.rs.md"), "target/hello/world/foo.rs");
    let reference: &str = "target/";
    assert_eq!(PathMapper::map_path(&reference, "hello/foo.rs.md"), "target/hello/foo.rs");
    let boxed: Box<String> = Box::new(root);
    assert_eq!(boxed.map_path("foo.rs.md"), "target/foo.rs");
}

#[test]
fn directories_are_entered_unless_hidden() {
    assert!(filter_dir_entry(&directory("a/b", "b"), "rs"));
    assert!(filter_dir_entry(&directory("a", "a"), "rs"));
    assert!(filter_dir_entry(&directory("a/b.rs.md", "b.rs.md"), "rs"));
    assert!(!filter_dir_entry(&directory("a/.hidden", ".hidden"), "rs"));
    assert!(!filter_dir_entry(&directory(".", "."), "rs"));
    assert!(!filter_dir_entry(&directory("a/.git.rs.md", ".git.rs.md"), "rs"));
}

#[test]
fn files_are_left_to_the_filter() {
    assert!(filter_dir_entry(&file("a/b/foo.rs.md", "foo.rs.md"), "rs"));
    assert!(!filter_dir_entry(&file("a/b/foo.ta.md", "foo.ta.md"), "rs"));
    assert!(!filter_dir_entry(&file("a/b/foo.rs", "foo.rs"), "rs"));
    assert!(!filter_dir_entry(&file("a/b/.foo.rs.md", ".foo.rs.md"), "rs"));
}

fn walk(tree: &[(WalkEntry, Vec<WalkEntry>)], root: &str, found: &mut Vec<String>) {
    for (entry, children) in tree {
        if !filter_dir_entry(entry, "rs") {
            continue;
        }
        match visit_entry(root, entry, "out/", false).unwrap() {
            Visit::Skip => {
                let below: Vec<(WalkEntry, Vec<WalkEntry>)> =
                    children.iter().map(|child| (child.clone(), Vec::new())).collect();
                walk(&below, root, found);
            }
            Visit::Extract(target) => found.push(target.path),
        }
    }
}

#[test]
fn hidden_subtree_is_never_visited() {
    let tree = vec![
        (directory("a/b", "b"), vec![file("a/b/foo.rs.md", "foo.rs.md")]),
        (directory("a/.hidden", ".hidden"), vec![file("a/.hidden/bar.rs.md", "bar.rs.md")]),
    ];
    let mut found = Vec::new();
    walk(&tree, "a", &mut found);
    assert_eq!(found, vec!["out/b/foo.rs".to_string()]);
}

#[test]
fn directory_entries_are_skipped() {
    let visit = visit_entry("docs", &directory("docs/guide", "guide"), "out", false).unwrap();
    assert_eq!(visit, Visit::Skip);
    let outside = visit_entry("docs", &directory("elsewhere", "elsewhere"), "out", true).unwrap();
    assert_eq!(outside, Visit::Skip);
}

#[test]
fn file_entries_get_a_target_under_the_output_root() {
    let entry = file("in/docs/readme.rs.md", "readme.rs.md");
    let visit = visit_entry("in", &entry, "out/", false).unwrap();
    assert_eq!(
        visit,
        Visit::Extract(Target {
            path: "out/docs/readme.rs".to_string(),
            parent: Some("out/docs".to_string()),
            create_new: true,
        })
    );
}

#[test]
fn overwriting_lifts_the_demand_for_a_new_file() {
    let entry = file("/in/readme.rs.md", "readme.rs.md");
    let kept = visit_entry("/in", &entry, "out", false).unwrap();
    let replaced = visit_entry("/in", &entry, "out", true).unwrap();
    assert_eq!(
        kept,
        Visit::Extract(Target {
            path: "out/readme.rs".to_string(),
            parent: Some("out".to_string()),
            create_new: true,
        })
    );
    assert_eq!(
        replaced,
        Visit::Extract(Target {
            path: "out/readme.rs".to_string(),
            parent: Some("out".to_string()),
            create_new: false,
        })
    );
}

#[test]
fn target_in_the_current_directory_has_an_empty_parent() {
    let entry = file("in/readme.rs.md", "readme.rs.md");
    let visit = visit_entry("in", &entry, "", true).unwrap();
    assert_eq!(
        visit,
        Visit::Extract(Target {
            path: "readme.rs".to_string(),
            parent: Some(String::new()),
            create_new: false,
        })
    );
}

#[test]
fn hidden_paths_are_told_by_their_last_component() {
    assert!(is_hidden(".git"));
    assert!(is_hidden("a/b/.git"));
    assert!(is_hidden("a/.git/"));
    assert!(!is_hidden("a/.git/config"));
    assert!(!is_hidden("a/b"));
    assert!(!is_hidden(""));
    assert!(!is_hidden("/"));
    assert!(!is_hidden("a/.."));
}

#[test]
fn extension_is_what_follows_the_last_dot() {
    assert!(has_extension("md", "foo.md"));
    assert!(has_extension("md", "a/b/foo.rs.md"));
    assert!(!has_extension("rs", "a/b/foo.rs.md"));
    assert!(!has_extension("md", "a.md/foo"));
    assert!(!has_extension("md", "foo"));
    assert!(!has_extension("bashrc", ".bashrc"));
    assert!(has_extension("md", ".bashrc.md"));
    assert!(has_extension("", "foo."));
    assert!(!has_extension("", "foo"));
    assert!(!has_extension("md", "foo.MD"));
    assert!(!has_extension("", ".."));
}

#[test]
fn extension_agrees_with_the_standard_library() {
    let paths = [
        "", ".", "..", "...", "/", "a", "a.", "a..", ".a", ".a.", ".a.b", "a.b", "a.b.c", "a/b.c",
        "a.b/c", "a.b/c.d", "a.b/.c", "a/b.c/", "a/b.c/.", "a/b.c/..", "foo.rs.md", "foo.tar.gz",
        "caf\u{e9}.\u{e9}t\u{e9}", "\u{2e3c}.x", "a b.c d", "x.md.", ".md", "md", "a/.md",
    ];
    let extensions = ["", "a", "b", "c", "d", "md", "rs", "gz", "tar.gz", ".", "\u{e9}t\u{e9}", "x", "c d"];
    for path in paths {
        let actual = Path::new(path).extension().and_then(|extension| extension.to_str());
        for extension in extensions {
            assert_eq!(has_extension(extension, path), actual == Some(extension));
        }
    }
}

#[test]
fn hidden_directory_is_refused_though_the_filter_admits_it() {
    assert!("rs".filter_file("a/foo.rs.md"));
    assert!(filter_dir_entry(&file("a/foo.rs.md", ".x"), "rs"));
    assert!(!filter_dir_entry(&directory("a/foo.rs.md", ".x"), "rs"));

    let boxed: Box<str> = "rs".into();
    assert!(boxed.filter_file("a/foo.rs.md"));
    assert!(!filter_dir_entry(&directory("a/foo.rs.md", ".hidden"), &boxed));
    assert!(filter_dir_entry(&directory("a/foo.rs.md", "foo.rs.md"), &boxed));
}

#[test]
fn directory_is_decided_by_its_name_alone() {
    assert!(!"rs".filter_file("a/b"));
    assert!(filter_dir_entry(&directory("a/b", "b"), "rs"));
    assert!(!"rs".filter_file("a/.b"));
    assert!(!filter_dir_entry(&directory("a/.b", ".b"), "rs"));
    assert!(!filter_dir_entry(&file("a/b", "b"), "rs"));
}

#[test]
fn only_extracted_files_are_counted() {
    let target = Target { path: "out/a.rs".to_string(), parent: Some("out".to_string()), create_new: true };
    assert_eq!(count_visit(0, &Visit::Extract(target.clone())), 1);
    assert_eq!(count_visit(41, &Visit::Extract(target.clone())), 42);
    assert_eq!(count_visit(usize::MAX - 1, &Visit::Extract(target)), usize::MAX);
    assert_eq!(count_visit(0, &Visit::Skip), 0);
    assert_eq!(count_visit(41, &Visit::Skip), 41);
}
