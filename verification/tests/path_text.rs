use buildpkg::path_text::{contains_parent_segment, is_absolute, join, strip_root};
use buildpkg::text::{chars_of, contains_text, ends_with, same_text, starts_with};

#[test]
fn absolute_paths_begin_with_a_separator() {
    assert!(is_absolute("/"));
    assert!(is_absolute("/usr/lib"));
    assert!(!is_absolute(""));
    assert!(!is_absolute("usr/lib"));
    assert!(!is_absolute("./usr"));
}

#[test]
fn parent_segments_are_found_wherever_they_stand() {
    assert!(contains_parent_segment(".."));
    assert!(contains_parent_segment("../a"));
    assert!(contains_parent_segment("a/.."));
    assert!(contains_parent_segment("a/../b"));
    assert!(contains_parent_segment("/.."));
    assert!(contains_parent_segment("a//../b"));
}

#[test]
fn names_with_dots_are_no_parent_segments() {
    assert!(!contains_parent_segment(""));
    assert!(!contains_parent_segment("."));
    assert!(!contains_parent_segment("..."));
    assert!(!contains_parent_segment("a..b/c"));
    assert!(!contains_parent_segment("..a"));
    assert!(!contains_parent_segment("a../b"));
    assert!(!contains_parent_segment("a/b/c"));
}

#[test]
fn parent_segment_search_agrees_with_std_components() {
    let inputs = ["", ".", "..", "a/..", "../..", "a/b", "x/..y/z", "/../", "a/./../b", "é/../ü"];
    for input in inputs {
        let expected = std::path::Path::new(input)
            .components()
            .any(|c| c == std::path::Component::ParentDir);
        assert_eq!(contains_parent_segment(input), expected);
    }
}

#[test]
fn strip_root_removes_one_leading_separator() {
    assert_eq!(strip_root("/a/b"), "a/b");
    assert_eq!(strip_root("/"), "");
    assert_eq!(strip_root("a/b"), "a/b");
    assert_eq!(strip_root(""), "");
    assert_eq!(strip_root("//a"), "/a");
}

#[test]
fn join_puts_one_separator_between_base_and_rest() {
    assert_eq!(join("/base", "a/b"), "/base/a/b");
    assert_eq!(join("/base/", "a/b"), "/base/a/b");
    assert_eq!(join("/base", ""), "/base/");
    assert_eq!(join("", "a"), "a");
    assert_eq!(join("/", "a"), "/a");
}

#[test]
fn join_lets_a_rooted_path_replace_the_base() {
    assert_eq!(join("/base", "/etc/passwd"), "/etc/passwd");
    assert_eq!(join("", "/"), "/");
}

#[test]
fn join_agrees_with_std_paths() {
    let bases = ["", "/", "/base", "/base/", "rel", "rel/dir/"];
    let rests = ["", "a", "a/b", "/abs", ".", "../x", "é"];
    for base in bases {
        for rest in rests {
            let expected = std::path::Path::new(base).join(rest);
            assert_eq!(join(base, rest), expected.to_str().unwrap());
        }
    }
}

#[test]
fn characters_are_listed_in_order() {
    assert_eq!(chars_of("a/é"), vec!['a', '/', 'é']);
    assert_eq!(chars_of(""), Vec::<char>::new());
}

#[test]
fn prefixes_and_suffixes() {
    assert!(starts_with("/base/dir/x", "/base/dir"));
    assert!(starts_with("abc", ""));
    assert!(starts_with("abc", "abc"));
    assert!(!starts_with("abc", "abcd"));
    assert!(!starts_with("abc", "b"));
    assert!(ends_with("x.tar.gz", ".tar.gz"));
    assert!(ends_with("abc", ""));
    assert!(ends_with("abc", "abc"));
    assert!(!ends_with("abc", "xabc"));
    assert!(!ends_with("abc", "b"));
}

#[test]
fn texts_are_compared_by_their_characters() {
    assert!(same_text("x86_64", "x86_64"));
    assert!(same_text("", ""));
    assert!(!same_text("x86_64", "x86_6"));
    assert!(!same_text("x86_64", "x86_65"));
    assert!(!same_text("a", ""));
}

#[test]
fn a_text_is_found_in_a_list_only_if_an_element_equals_it() {
    let list = vec!["x86_64".to_string(), "aarch64".to_string()];
    assert!(contains_text(&list, "aarch64"));
    assert!(contains_text(&list, "x86_64"));
    assert!(!contains_text(&list, "x86"));
    assert!(!contains_text(&Vec::new(), "x86_64"));
}
