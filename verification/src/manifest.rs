//! The manifest of a package: the files and symbolic links of its tree,
//! each named by its path below the package root.

use crate::path_text::{is_rooted, joined};
use crate::path_utils::{tail_start, tail_under};
use crate::text::starts_with;
use vstd::prelude::*;
use vstd::string::StrSliceExecFns;
use vstd::string::StringExecFns;

verus! {

/// What was found at one place of a directory tree.
#[derive(Debug, PartialEq, Eq)]
pub struct DirEntry {
    /// The path of the entry.
    pub path: String,
    /// Whether a regular file is there, reached through links or not.
    pub is_file: bool,
    /// Whether the entry itself is a symbolic link.
    pub is_symlink: bool,
    /// What the directory holds, where a directory is there.
    pub children: Option<Vec<DirEntry>>,
}

/// The characters of each text in `list`.
pub open spec fn texts(list: Seq<String>) -> Seq<Seq<char>> {
    Seq::new(list.len(), |i: int| list[i]@)
}

/// The paths that a walk lists for one entry: the entry itself if it is a
/// file or a symbolic link, then what is listed for the directory.
pub open spec fn listed_of(entry: DirEntry) -> Seq<Seq<char>>
    decreases entry, 0nat,
{
    let own = if entry.is_file || entry.is_symlink {
        seq![entry.path@]
    } else {
        Seq::<Seq<char>>::empty()
    };
    match entry.children {
        Some(children) => own + listed_upto(children, children.len() as nat),
        None => own,
    }
}

/// The paths that a walk lists for the first `n` of `entries`, one entry
/// after the other.
pub open spec fn listed_upto(entries: Vec<DirEntry>, n: nat) -> Seq<Seq<char>>
    decreases entries, n,
{
    if n == 0 || n > entries.len() {
        Seq::<Seq<char>>::empty()
    } else {
        listed_upto(entries, (n - 1) as nat) + listed_of(entries[n - 1])
    }
}

/// The paths that a walk lists for `entries`: every file and every symbolic
/// link, depth first; directories are not listed.
pub open spec fn listed(entries: Vec<DirEntry>) -> Seq<Seq<char>> {
    listed_upto(entries, entries.len() as nat)
}

/// Walks `entries` depth first and appends the path of every file and every
/// symbolic link to `paths`.
pub fn visit_dirs(entries: &Vec<DirEntry>, paths: &mut Vec<String>)
    ensures
        texts(final(paths)@) == texts(old(paths)@) + listed(*entries),
    decreases entries,
{
    let mut i: usize = 0;
    while i < entries.len()
        invariant
            i <= entries.len(),
            texts(paths@) == texts(old(paths)@) + listed_upto(*entries, i as nat),
        decreases entries.len() - i,
    {
        let entry = &entries[i];
        let ghost before = texts(paths@);
        if entry.is_file || entry.is_symlink {
            paths.push(entry.path.clone());
        }
        match &entry.children {
            Some(children) => visit_dirs(children, paths),
            None => {},
        }
        proof {
            assert(texts(paths@) == before + listed_of(*entry));
            assert(listed_upto(*entries, (i + 1) as nat) == listed_upto(*entries, i as nat)
                + listed_of(entries[i as int]));
        }
        i += 1;
    }
}

/// The part of `path` below `root`, where `path` is `root` with a path
/// without a root adjoined to it.
pub open spec fn below(root: Seq<char>, path: Seq<char>) -> Option<Seq<char>> {
    let rest = tail_under(root, path);
    if tail_start(root) <= path.len() && !is_rooted(rest) && joined(root, rest) == path {
        Some(rest)
    } else {
        None
    }
}

/// The line of the manifest for the part `rest` of a path below the package
/// root: `rest` after a separator.
pub open spec fn line_for(rest: Seq<char>) -> Seq<char> {
    seq!['/'] + rest
}

/// Whether `line` is the line of the manifest for `path` under `root`.
pub open spec fn is_line_for(root: Seq<char>, path: Seq<char>, line: Seq<char>) -> bool {
    below(root, path) matches Some(rest) && line == line_for(rest)
}

/// The line of the manifest for `path`, which has to lie below
/// `package_root`: the part of it below the root, after a separator.
pub fn manifest_entry(package_root: &str, path: &str) -> (line: Option<String>)
    ensures
        match below(package_root@, path@) {
            Some(rest) => line matches Some(l) && l@ == line_for(rest),
            None => line is None,
        },
{
    let root_len = package_root.unicode_len();
    let path_len = path.unicode_len();
    let separated = root_len > 0 && package_root.get_char(root_len - 1) != '/';
    if !starts_with(path, package_root) {
        proof {
            let rest = tail_under(package_root@, path@);
            if tail_start(package_root@) <= path_len && !is_rooted(rest) {
                assert(joined(package_root@, rest).subrange(0, root_len as int)
                    == package_root@);
            }
        }
        return None;
    }
    let skipped = if separated {
        if path_len == root_len {
            return None;
        }
        if path.get_char(root_len) != '/' {
            proof {
                let rest = tail_under(package_root@, path@);
                if !is_rooted(rest) {
                    assert(joined(package_root@, rest)[root_len as int] == '/');
                }
            }
            return None;
        }
        root_len + 1
    } else {
        root_len
    };
    let rest = path.substring_char(skipped, path_len);
    if rest.unicode_len() > 0 && rest.get_char(0) == '/' {
        return None;
    }
    proof {
        reveal_strlit("/");
        assert(joined(package_root@, rest@) =~= path@);
    }
    Some("/".to_owned().concat(rest))
}

/// `lines` with a line feed between neighbours.
pub open spec fn joined_lines(lines: Seq<Seq<char>>) -> Seq<char>
    decreases lines.len(),
{
    if lines.len() == 0 {
        Seq::<char>::empty()
    } else if lines.len() == 1 {
        lines[0]
    } else {
        joined_lines(lines.drop_last()) + seq!['\n'] + lines.last()
    }
}

/// The text of a manifest: its lines with a line feed between neighbours.
pub fn manifest_text(lines: &Vec<String>) -> (text: String)
    ensures
        text@ == joined_lines(texts(lines@)),
{
    let mut text = String::new();
    let mut i: usize = 0;
    proof {
        reveal_strlit("\n");
    }
    while i < lines.len()
        invariant
            i <= lines.len(),
            "\n"@ == seq!['\n'],
            text@ == joined_lines(texts(lines@).take(i as int)),
        decreases lines.len() - i,
    {
        let ghost done = texts(lines@).take(i as int);
        let ghost grown = texts(lines@).take(i + 1);
        proof {
            assert(grown.drop_last() =~= done);
        }
        if i > 0 {
            text.append("\n");
        }
        text.append(lines[i].as_str());
        i += 1;
    }
    assert(texts(lines@).take(i as int) =~= texts(lines@));
    text
}

/// The manifest of the package below `package_root` whose files and
/// symbolic links are at `paths`: one line for each path, in order. There is
/// no manifest where a path does not lie below the root.
pub fn manifest(package_root: &str, paths: &Vec<String>) -> (lines: Option<Vec<String>>)
    ensures
        match lines {
            Some(found) => found.len() == paths.len() && forall|i: int|
                0 <= i < paths.len() ==> is_line_for(
                    package_root@,
                    paths[i]@,
                    #[trigger] found[i]@,
                ),
            None => exists|i: int|
                0 <= i < paths.len() && below(package_root@, #[trigger] paths[i]@) is None,
        },
{
    let mut found: Vec<String> = Vec::new();
    let mut i: usize = 0;
    while i < paths.len()
        invariant
            i <= paths.len(),
            found.len() == i,
            forall|j: int|
                0 <= j < i ==> is_line_for(package_root@, paths[j]@, #[trigger] found[j]@),
        decreases paths.len() - i,
    {
        match manifest_entry(package_root, paths[i].as_str()) {
            Some(line) => found.push(line),
            None => {
                return None;
            },
        }
        i += 1;
    }
    Some(found)
}

} // verus!
