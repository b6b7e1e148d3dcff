use buildpkg::manifest::{manifest, manifest_entry, manifest_text, visit_dirs, DirEntry};

fn file(path: &str) -> DirEntry {
    DirEntry { path: path.to_string(), is_file: true, is_symlink: false, children: None }
}

fn dir(path: &str, children: Vec<DirEntry>) -> DirEntry {
    DirEntry { path: path.to_string(), is_file: false, is_symlink: false, children: Some(children) }
}

fn walk(entries: &Vec<DirEntry>) -> Vec<String> {
    let mut paths = Vec::new();
    visit_dirs(entries, &mut paths);
    paths
}

#[test]
fn files_are_listed_and_directories_are_not() {
    let tree = vec![
        file("/w/pkg/README"),
        dir("/w/pkg/usr", vec![dir("/w/pkg/usr/bin", vec![file("/w/pkg/usr/bin/tool")])]),
        dir("/w/pkg/empty", Vec::new()),
    ];
    assert_eq!(walk(&tree), vec!["/w/pkg/README", "/w/pkg/usr/bin/tool"]);
}

#[test]
fn walk_is_depth_first() {
    let tree = vec![
        dir("/p/a", vec![file("/p/a/1"), dir("/p/a/b", vec![file("/p/a/b/2")]), file("/p/a/3")]),
        file("/p/4"),
        dir("/p/c", vec![file("/p/c/5")]),
    ];
    assert_eq!(walk(&tree), vec!["/p/a/1", "/p/a/b/2", "/p/a/3", "/p/4", "/p/c/5"]);
}

#[test]
fn symbolic_links_are_listed() {
    let dangling =
        DirEntry { path: "/p/lost".to_string(), is_file: false, is_symlink: true, children: None };
    let to_file =
        DirEntry { path: "/p/lib.so".to_string(), is_file: true, is_symlink: true, children: None };
    let to_dir = DirEntry {
        path: "/p/share".to_string(),
        is_file: false,
        is_symlink: true,
        children: Some(vec![file("/p/share/doc")]),
    };
    assert_eq!(
        walk(&vec![dangling, to_file, to_dir]),
        vec!["/p/lost", "/p/lib.so", "/p/share", "/p/share/doc"]
    );
}

#[test]
fn walk_appends_to_what_is_there() {
    let mut paths = vec!["kept".to_string()];
    visit_dirs(&vec![file("/p/x")], &mut paths);
    assert_eq!(paths, vec!["kept", "/p/x"]);
    visit_dirs(&Vec::new(), &mut paths);
    assert_eq!(paths, vec!["kept", "/p/x"]);
}

#[test]
fn entry_is_the_path_below_the_root_after_a_separator() {
    assert_eq!(manifest_entry("/w/pkg", "/w/pkg/usr/bin/tool"), Some("/usr/bin/tool".to_string()));
    assert_eq!(manifest_entry("/w/pkg/", "/w/pkg/usr/bin/tool"), Some("/usr/bin/tool".to_string()));
    assert_eq!(manifest_entry("/w/pkg", "/w/pkg/README"), Some("/README".to_string()));
    assert_eq!(manifest_entry("", "usr/bin/tool"), Some("/usr/bin/tool".to_string()));
}

#[test]
fn path_outside_the_root_has_no_entry() {
    assert_eq!(manifest_entry("/w/pkg", "/w/src/x"), None);
    assert_eq!(manifest_entry("/w/pkg", "/w/pkgs/x"), None);
    assert_eq!(manifest_entry("/w/pkg", "/w/pkg"), None);
    assert_eq!(manifest_entry("/w/pkg", "/w"), None);
    assert_eq!(manifest_entry("/w/pkg", "/w/pkg//x"), None);
    assert_eq!(manifest_entry("", "/x"), None);
}

#[test]
fn entry_agrees_with_std_paths() {
    let paths = ["/w/pkg/a", "/w/pkg/a/b/c", "/w/pkg/.hidden", "/w/pkg/x y/z"];
    for path in paths {
        let rest = std::path::Path::new(path).strip_prefix("/w/pkg").unwrap();
        assert_eq!(manifest_entry("/w/pkg", path), Some(format!("/{}", rest.to_str().unwrap())));
    }
}

#[test]
fn lines_are_joined_by_line_feeds() {
    assert_eq!(manifest_text(&Vec::new()), "");
    assert_eq!(manifest_text(&vec!["/a".to_string()]), "/a");
    assert_eq!(
        manifest_text(&vec!["/a".to_string(), "/b/c".to_string(), "/d".to_string()]),
        "/a\n/b/c\n/d"
    );
    assert_eq!(manifest_text(&vec!["".to_string(), "".to_string()]), "\n");
}

#[test]
fn manifest_has_one_line_for_each_path() {
    let paths = vec!["/w/pkg/usr/bin/tool".to_string(), "/w/pkg/etc/tool.conf".to_string()];
    assert_eq!(
        manifest("/w/pkg", &paths),
        Some(vec!["/usr/bin/tool".to_string(), "/etc/tool.conf".to_string()])
    );
    assert_eq!(manifest("/w/pkg", &Vec::new()), Some(Vec::new()));
}

#[test]
fn manifest_needs_every_path_below_the_root() {
    let paths = vec!["/w/pkg/usr/bin/tool".to_string(), "/elsewhere/x".to_string()];
    assert_eq!(manifest("/w/pkg", &paths), None);
}

#[test]
fn copied_binary_is_the_only_line_of_the_manifest() {
    let host = buildpkg::host::Host::new("/w/src", "/w/pkg");
    let action = host.copy("built-binary", "usr/bin/tool").unwrap();
    let to = match action {
        buildpkg::host::HostAction::Copy { from, to } => {
            assert_eq!(from, "/w/src/built-binary");
            to
        }
        other => panic!("{:?}", other),
    };
    let tree = vec![dir("/w/pkg/usr", vec![dir("/w/pkg/usr/bin", vec![file(&to)])])];
    let lines = manifest("/w/pkg", &walk(&tree)).unwrap();
    assert_eq!(lines, vec!["/usr/bin/tool"]);
    assert_eq!(manifest_text(&lines), "/usr/bin/tool");
}
