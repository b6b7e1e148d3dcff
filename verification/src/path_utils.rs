//! Confinement of caller-supplied paths to a base directory, and validation
//! of absolute paths.

use crate::path_text::{
    contains_parent_segment, dot, dotdot, has_parent_segment, is_absolute, is_rooted, join,
    join_names, joined, lemma_names_concat, lemma_names_of_joined, lemma_normalized_shape,
    lemma_only_names_one, lemma_render_reads_back, lemma_resolve_settled, lemma_segments_single,
    names, normalized, render, strip_root, wants_separator, without_root,
};
use crate::text::starts_with;
use vstd::prelude::*;
use vstd::string::StringExecFns;

verus! {

/// Why a path was refused.
#[derive(Debug, Clone, PartialEq, Eq)]
pub enum PathError {
    /// The path climbs above the directory it is relative to.
    PathTraversal,
    /// The resolved path does not lie under the base directory.
    NotInTargetDir,
    /// The path is not absolute, or nothing exists at it.
    InvalidPath(String),
}

impl PathError {
    /// The text of this error.
    pub open spec fn text(self) -> Seq<char> {
        match self {
            PathError::PathTraversal => "Path traversal attack detected"@,
            PathError::NotInTargetDir => "Path not contained in target directory"@,
            PathError::InvalidPath(detail) => "Invalid path: "@ + detail@,
        }
    }

    /// The text of this error, as it is shown to the caller.
    pub fn message(&self) -> (text: String)
        ensures
            text@ == self.text(),
    {
        match self {
            PathError::PathTraversal => "Path traversal attack detected".to_owned(),
            PathError::NotInTargetDir => "Path not contained in target directory".to_owned(),
            PathError::InvalidPath(detail) => "Invalid path: ".to_owned().concat(detail.as_str()),
        }
    }
}

/// What confining `relative` to `base` gives: the normal form of `relative`,
/// taken as relative to `base` even where it is rooted, and adjoined to
/// `base`; or the reason why there is no such path.
pub open spec fn confinement(base: Seq<char>, relative: Seq<char>) -> Result<Seq<char>, PathError> {
    let clean = normalized(relative);
    let path = joined(base, without_root(clean));
    if has_parent_segment(clean) {
        Err(PathError::PathTraversal)
    } else if !base.is_prefix_of(path) {
        Err(PathError::NotInTargetDir)
    } else {
        Ok(path)
    }
}

/// Calls `path_clean::clean`, which normalizes a path lexically: it drops
/// empty segments and `.`, lets each `..` remove the name before it, drops a
/// `..` that follows the root, keeps a `..` at the start of a path without a
/// root, and writes `.` for an empty result. The contract states that result
/// for a system whose only separator is `/`.
#[verifier::external_body]
fn clean(path: &str) -> (cleaned: String)
    ensures
        cleaned@ == normalized(path@),
{
    path_clean::clean(path).to_string_lossy().into_owned()
}

/// Checks that `path` begins with `base_dir`, and fails with
/// `NotInTargetDir` where it does not.
pub fn check_contained(base_dir: &str, path: &str) -> (result: Result<(), PathError>)
    ensures
        result == if base_dir@.is_prefix_of(path@) {
            Ok::<(), PathError>(())
        } else {
            Err::<(), PathError>(PathError::NotInTargetDir)
        },
{
    if starts_with(path, base_dir) {
        Ok(())
    } else {
        Err(PathError::NotInTargetDir)
    }
}

/// Resolves `relative_path` inside `base_dir`.
///
/// The path is normalized first. If a `..` is left after that, it would
/// leave the directory it started from, and the call fails with
/// `PathTraversal`. Otherwise a leading separator is removed, the rest is
/// adjoined to `base_dir`, and the result is checked once more to begin with
/// `base_dir`.
pub fn sanitize_path(base_dir: &str, relative_path: &str) -> (result: Result<String, PathError>)
    ensures
        match confinement(base_dir@, relative_path@) {
            Ok(path) => result matches Ok(p) && p@ == path,
            Err(e) => result == Err::<String, PathError>(e),
        },
        has_parent_segment(normalized(relative_path@)) <==> result == Err::<String, PathError>(
            PathError::PathTraversal,
        ),
        !has_parent_segment(normalized(relative_path@)) <==> result is Ok,
        result matches Ok(p) ==> base_dir@.is_prefix_of(p@),
{
    proof {
        lemma_confinement_stays_inside(base_dir@, relative_path@);
    }
    let cleaned = clean(relative_path);
    if contains_parent_segment(cleaned.as_str()) {
        return Err(PathError::PathTraversal);
    }
    let tail = strip_root(cleaned.as_str());
    let path = join(base_dir, tail);
    match check_contained(base_dir, path.as_str()) {
        Ok(()) => Ok(path),
        Err(e) => Err(e),
    }
}

/// How `std` writes a path for a diagnostic: between double quotes, with
/// escapes where a character calls for one.
pub uninterp spec fn quoted(path: Seq<char>) -> Seq<char>;

/// Formats a path with the `Debug` implementation of `std::path::Path`. The
/// text is a function of the path alone; the contract gives it its name and
/// states nothing else of it.
#[verifier::external_body]
fn quote(path: &str) -> (text: String)
    ensures
        text@ == quoted(path@),
{
    format!("{:?}", std::path::Path::new(path))
}

/// Asks `std::path::Path::exists` whether anything is at `path`. The answer
/// depends on the filesystem at the moment of the call, so nothing is stated
/// of it.
#[verifier::external_body]
pub(crate) fn exists_on_disk(path: &str) -> bool {
    std::path::Path::new(path).exists()
}

/// What validating `path` gives when `present` tells whether something
/// exists at it: the path itself, or the detail of an `InvalidPath`.
pub open spec fn absolute_verdict(path: Seq<char>, present: bool) -> Result<Seq<char>, Seq<char>> {
    if !is_rooted(path) {
        Err("Path must be absolute"@)
    } else if !present {
        Err("Path does not exist: "@ + quoted(path))
    } else {
        Ok(path)
    }
}

/// Whether `result` is what `verdict` describes.
pub open spec fn agrees(
    result: Result<String, PathError>,
    verdict: Result<Seq<char>, Seq<char>>,
) -> bool {
    match verdict {
        Ok(path) => result matches Ok(p) && p@ == path,
        Err(detail) => result matches Err(PathError::InvalidPath(d)) && d@ == detail,
    }
}

/// Validates `path`, given whether something exists at it. A path that is
/// not absolute is refused whatever `present` says; an absolute one is
/// refused when nothing exists at it and returned unchanged otherwise.
pub fn check_absolute(path: &str, present: bool) -> (result: Result<String, PathError>)
    ensures
        agrees(result, absolute_verdict(path@, present)),
{
    if !is_absolute(path) {
        return Err(PathError::InvalidPath("Path must be absolute".to_owned()));
    }
    if !present {
        let detail = "Path does not exist: ".to_owned().concat(quote(path).as_str());
        return Err(PathError::InvalidPath(detail));
    }
    Ok(path.to_owned())
}

/// Checks that `path` is absolute and that something exists at it, and
/// returns it unchanged. The path is not confined to any base: this is for
/// the places where a caller may name any existing location.
pub fn validate_absolute_path(path: &str) -> (result: Result<String, PathError>)
    ensures
        exists|present: bool| agrees(result, #[trigger] absolute_verdict(path@, present)),
        !is_rooted(path@) ==> agrees(result, Err("Path must be absolute"@)),
        result matches Ok(p) ==> p@ == path@ && is_rooted(path@),
{
    let present = is_absolute(path) && exists_on_disk(path);
    check_absolute(path, present)
}

/// Where, in a path that begins with `base`, the part below `base` starts:
/// after `base` and the separator that follows it.
pub open spec fn tail_start(base: Seq<char>) -> int {
    if wants_separator(base) {
        base.len() as int + 1
    } else {
        base.len() as int
    }
}

/// What is left of `path` after `base` and the separator that follows it.
pub open spec fn tail_under(base: Seq<char>, path: Seq<char>) -> Seq<char> {
    path.skip(tail_start(base))
}

/// The normal form of any path, once its root is removed, adjoins to a base
/// without replacing it: confinement never ends in `NotInTargetDir`.
pub proof fn lemma_confinement_stays_inside(base: Seq<char>, relative: Seq<char>)
    ensures
        confinement(base, relative) != Err::<Seq<char>, PathError>(PathError::NotInTargetDir),
{
    lemma_normalized_shape(relative);
    lemma_names_of_joined(base, without_root(normalized(relative)));
}

/// A confined path descends from its base by names alone: its names are
/// those of the base followed by those of the normalized input, and none of
/// the latter is `..`.
pub proof fn lemma_confined_path_descends(base: Seq<char>, relative: Seq<char>)
    requires
        confinement(base, relative) is Ok,
    ensures
        confinement(base, relative) matches Ok(path) && names(path) == names(base) + names(
            normalized(relative),
        ),
        !names(normalized(relative)).contains(dotdot()),
{
    let clean = normalized(relative);
    lemma_normalized_shape(relative);
    lemma_names_of_joined(base, without_root(clean));
    if is_rooted(clean) {
        let none = Seq::<char>::empty();
        assert(clean == none + seq!['/'] + without_root(clean));
        lemma_names_concat(none, without_root(clean));
        lemma_only_names_one(none);
        assert(names(none) + names(without_root(clean)) == names(without_root(clean)));
    }
}

/// Confinement is idempotent: the part of a confined path that lies below
/// the base is confined to the same path again. Where the input names the
/// base itself by a bare root, that part is empty and the second path
/// differs in its text alone, ending in `.`: its names are the same.
pub proof fn lemma_confinement_idempotent(base: Seq<char>, relative: Seq<char>)
    requires
        confinement(base, relative) is Ok,
    ensures
        confinement(base, relative) matches Ok(path) && confinement(base, tail_under(base, path))
            matches Ok(again) && names(again) == names(path) && (tail_under(base, path).len() > 0
            ==> again == path),
{
    let clean = normalized(relative);
    let kept = names(clean);
    let tail = without_root(clean);
    let path = joined(base, tail);
    lemma_normalized_shape(relative);
    lemma_names_of_joined(base, tail);
    assert(tail_under(base, path) == tail);
    if kept.len() > 0 {
        // The part below the base is the names written out: a normal form.
        assert(tail == render(false, kept)) by {
            if is_rooted(clean) {
                assert(clean.drop_first() == join_names(kept));
            }
        }
        lemma_render_reads_back(false, kept);
        lemma_resolve_settled(kept, false);
    } else {
        // The input names the base itself.
        lemma_render_reads_back(false, kept);
        lemma_only_names_one(Seq::<char>::empty());
        lemma_only_names_one(dot());
        lemma_segments_single(dot());
        if is_rooted(clean) {
            assert(tail == Seq::<char>::empty()) by {
                assert(clean.drop_first() == join_names(kept));
            }
            assert(normalized(tail) == dot());
            lemma_names_of_joined(base, dot());
        } else {
            assert(normalized(tail) == tail);
        }
    }
}

} // verus!
