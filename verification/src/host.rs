//! The operations a recipe may ask of the host.
//!
//! Every operation is bound to the source root, to the package root, or to
//! both. It resolves the paths it is given and hands back a `HostAction`
//! that names the files to touch; touching them is left to the caller.

use crate::path_text::is_absolute;
use crate::path_utils::{
    absolute_verdict, check_absolute, confinement, exists_on_disk, sanitize_path, PathError,
};
use vstd::prelude::*;
use vstd::string::StringExecFns;

verus! {

/// The two directories that a recipe may reach.
pub struct Host {
    /// Scratch space for fetched and generated sources.
    pub source_root: String,
    /// The tree that becomes the package.
    pub package_root: String,
}

/// What the host does for a recipe, with every path resolved.
#[derive(Debug, Clone, PartialEq, Eq)]
pub enum HostAction {
    /// Create `dir` with its parents, fetch `url` and write the body to `to`.
    Download { url: String, dir: String, to: String },
    /// Read `from` as text.
    ReadText { from: String },
    /// Create the parents of `to`, then write `content` to it.
    WriteText { to: String, content: String },
    /// Hash the contents of `path`.
    HashFile { path: String },
    /// Unpack the archive at `archive` into the directory `into`.
    Unpack { archive: String, into: String },
    /// Copy the file or the directory tree at `from` to `to`, creating the
    /// parents of `to`.
    Copy { from: String, to: String },
    /// Create the parents of `at`, then a symbolic link at `at` that points
    /// to `target`.
    Link { target: String, at: String },
    /// Create the parents of `into`, then clone the repository at `url`
    /// into it.
    CloneRepository { url: String, into: String },
    /// Open the repository at `at`.
    OpenRepository { at: String },
}

/// What `source` is found to be when a copy is about to start.
#[derive(Debug, Clone, Copy, PartialEq, Eq)]
pub enum SourceKind {
    File,
    Directory,
    Neither,
}

/// How a copy proceeds once its source has been looked at.
#[derive(Debug, Clone, Copy, PartialEq, Eq)]
pub enum CopyStep {
    /// Copy one file. `create_parent` says whether the parent of the
    /// destination has to be created first.
    File { create_parent: bool },
    /// Copy the directory with everything below it.
    Tree,
    /// There is nothing that can be copied.
    Refuse,
}

/// The destination a clone goes to where the recipe names none: the source
/// root itself.
pub open spec fn default_clone_destination() -> Seq<char> {
    "."@
}

impl Host {
    /// A host bound to the two roots.
    pub fn new(source_root: &str, package_root: &str) -> (host: Host)
        ensures
            host.source_root@ == source_root@,
            host.package_root@ == package_root@,
    {
        Host { source_root: source_root.to_owned(), package_root: package_root.to_owned() }
    }

    /// Fetch `url` into `dest`, which is confined to the source root.
    pub fn download(&self, url: &str, dest: &str) -> (result: Result<HostAction, PathError>)
        ensures
            match confinement(self.source_root@, dest@) {
                Ok(path) => result matches Ok(HostAction::Download { url: u, dir, to }) && u@
                    == url@ && dir@ == self.source_root@ && to@ == path,
                Err(e) => result == Err::<HostAction, PathError>(e),
            },
    {
        match sanitize_path(self.source_root.as_str(), dest) {
            Ok(to) => Ok(
                HostAction::Download { url: url.to_owned(), dir: self.source_root.clone(), to },
            ),
            Err(e) => Err(e),
        }
    }

    /// Read the text of `path`, which is confined to the source root.
    pub fn read_text(&self, path: &str) -> (result: Result<HostAction, PathError>)
        ensures
            match confinement(self.source_root@, path@) {
                Ok(resolved) => result matches Ok(HostAction::ReadText { from }) && from@
                    == resolved,
                Err(e) => result == Err::<HostAction, PathError>(e),
            },
    {
        match sanitize_path(self.source_root.as_str(), path) {
            Ok(from) => Ok(HostAction::ReadText { from }),
            Err(e) => Err(e),
        }
    }

    /// Write `content` to `path`, which is confined to the source root.
    pub fn write_text(&self, path: &str, content: &str) -> (result: Result<HostAction, PathError>)
        ensures
            match confinement(self.source_root@, path@) {
                Ok(resolved) => result matches Ok(HostAction::WriteText { to, content: c }) && to@
                    == resolved && c@ == content@,
                Err(e) => result == Err::<HostAction, PathError>(e),
            },
    {
        match sanitize_path(self.source_root.as_str(), path) {
            Ok(to) => Ok(HostAction::WriteText { to, content: content.to_owned() }),
            Err(e) => Err(e),
        }
    }

    /// Hash the file at `path`, which is confined to the source root.
    pub fn hash_sha256(&self, path: &str) -> (result: Result<HostAction, PathError>)
        ensures
            match confinement(self.source_root@, path@) {
                Ok(resolved) => result matches Ok(HostAction::HashFile { path: p }) && p@
                    == resolved,
                Err(e) => result == Err::<HostAction, PathError>(e),
            },
    {
        match sanitize_path(self.source_root.as_str(), path) {
            Ok(path) => Ok(HostAction::HashFile { path }),
            Err(e) => Err(e),
        }
    }

    /// Whether `result` is what unpacking gives when `present` tells
    /// whether something exists at `dest`. The source is resolved first:
    /// where both paths are at fault, its error is the one returned.
    pub open spec fn unpack_outcome(
        self,
        source: Seq<char>,
        dest: Seq<char>,
        present: bool,
        result: Result<HostAction, PathError>,
    ) -> bool {
        match confinement(self.source_root@, source) {
            Err(e) => result == Err::<HostAction, PathError>(e),
            Ok(resolved) => match absolute_verdict(dest, present) {
                Err(detail) => result matches Err(PathError::InvalidPath(d)) && d@ == detail,
                Ok(place) => result matches Ok(HostAction::Unpack { archive, into }) && archive@
                    == resolved && into@ == place,
            },
        }
    }

    /// Unpack the archive at `source`, which is confined to the source
    /// root, into `dest`, which must be absolute; `dest_present` tells
    /// whether something exists at it.
    pub fn plan_unpack(&self, source: &str, dest: &str, dest_present: bool) -> (result: Result<
        HostAction,
        PathError,
    >)
        ensures
            self.unpack_outcome(source@, dest@, dest_present, result),
    {
        match sanitize_path(self.source_root.as_str(), source) {
            Ok(archive) => match check_absolute(dest, dest_present) {
                Ok(into) => Ok(HostAction::Unpack { archive, into }),
                Err(e) => Err(e),
            },
            Err(e) => Err(e),
        }
    }

    /// Unpack the archive at `source`, which is confined to the source
    /// root, into `dest`, which must be absolute and exist.
    pub fn unpack_archive(&self, source: &str, dest: &str) -> (result: Result<
        HostAction,
        PathError,
    >)
        ensures
            exists|present: bool| #[trigger] self.unpack_outcome(source@, dest@, present, result),
            result matches Ok(HostAction::Unpack { archive, into }) ==> into@ == dest@,
    {
        let present = is_absolute(dest) && exists_on_disk(dest);
        self.plan_unpack(source, dest, present)
    }

    /// Copy `source`, which is confined to the source root, to `dest`,
    /// which is confined to the package root. The source is resolved first.
    pub fn copy(&self, source: &str, dest: &str) -> (result: Result<HostAction, PathError>)
        ensures
            match confinement(self.source_root@, source@) {
                Err(e) => result == Err::<HostAction, PathError>(e),
                Ok(origin) => match confinement(self.package_root@, dest@) {
                    Err(e) => result == Err::<HostAction, PathError>(e),
                    Ok(target) => result matches Ok(HostAction::Copy { from, to }) && from@
                        == origin && to@ == target,
                },
            },
    {
        match sanitize_path(self.source_root.as_str(), source) {
            Ok(from) => match sanitize_path(self.package_root.as_str(), dest) {
                Ok(to) => Ok(HostAction::Copy { from, to }),
                Err(e) => Err(e),
            },
            Err(e) => Err(e),
        }
    }

    /// Whether `result` is what linking gives when `present` tells whether
    /// something exists at `target`. The target is validated first, and is
    /// kept as it was given.
    pub open spec fn link_outcome(
        self,
        target: Seq<char>,
        link_path: Seq<char>,
        present: bool,
        result: Result<HostAction, PathError>,
    ) -> bool {
        match absolute_verdict(target, present) {
            Err(detail) => result matches Err(PathError::InvalidPath(d)) && d@ == detail,
            Ok(aim) => match confinement(self.package_root@, link_path) {
                Err(e) => result == Err::<HostAction, PathError>(e),
                Ok(place) => result matches Ok(HostAction::Link { target: t, at }) && t@ == aim
                    && at@ == place,
            },
        }
    }

    /// Create a symbolic link at `link_path`, which is confined to the
    /// package root, that points to `target`, which must be absolute;
    /// `target_present` tells whether something exists at it.
    pub fn plan_link(&self, target: &str, link_path: &str, target_present: bool) -> (result:
        Result<HostAction, PathError>)
        ensures
            self.link_outcome(target@, link_path@, target_present, result),
    {
        match check_absolute(target, target_present) {
            Ok(target) => match sanitize_path(self.package_root.as_str(), link_path) {
                Ok(at) => Ok(HostAction::Link { target, at }),
                Err(e) => Err(e),
            },
            Err(e) => Err(e),
        }
    }

    /// Create a symbolic link at `link_path`, which is confined to the
    /// package root, that points to `target`, which must be absolute and
    /// exist.
    pub fn link(&self, target: &str, link_path: &str) -> (result: Result<HostAction, PathError>)
        ensures
            exists|present: bool|
                #[trigger] self.link_outcome(target@, link_path@, present, result),
            result matches Ok(HostAction::Link { target: t, at }) ==> t@ == target@,
    {
        let present = is_absolute(target) && exists_on_disk(target);
        self.plan_link(target, link_path, present)
    }

    /// Clone the repository at `url` into `dest`, which is confined to the
    /// source root. Without a `dest` the clone goes to the source root
    /// itself.
    pub fn repo_clone(&self, url: &str, dest: Option<&str>) -> (result: Result<
        HostAction,
        PathError,
    >)
        ensures
            match confinement(
                self.source_root@,
                match dest {
                    Some(d) => d@,
                    None => default_clone_destination(),
                },
            ) {
                Ok(path) => result matches Ok(HostAction::CloneRepository { url: u, into }) && u@
                    == url@ && into@ == path,
                Err(e) => result == Err::<HostAction, PathError>(e),
            },
    {
        let dest = match dest {
            Some(d) => d,
            None => ".",
        };
        match sanitize_path(self.source_root.as_str(), dest) {
            Ok(into) => Ok(HostAction::CloneRepository { url: url.to_owned(), into }),
            Err(e) => Err(e),
        }
    }

    /// Open the repository at `path`, which is confined to the source root.
    pub fn repo_open(&self, path: &str) -> (result: Result<HostAction, PathError>)
        ensures
            match confinement(self.source_root@, path@) {
                Ok(resolved) => result matches Ok(HostAction::OpenRepository { at }) && at@
                    == resolved,
                Err(e) => result == Err::<HostAction, PathError>(e),
            },
    {
        match sanitize_path(self.source_root.as_str(), path) {
            Ok(at) => Ok(HostAction::OpenRepository { at }),
            Err(e) => Err(e),
        }
    }
}

/// How a copy proceeds: a file is copied after its destination's parent has
/// been created where it is missing, a directory is copied as a tree, and
/// anything else is refused.
pub fn copy_step(kind: SourceKind, parent_exists: bool) -> (step: CopyStep)
    ensures
        step == match kind {
            SourceKind::File => CopyStep::File { create_parent: !parent_exists },
            SourceKind::Directory => CopyStep::Tree,
            SourceKind::Neither => CopyStep::Refuse,
        },
{
    match kind {
        SourceKind::File => CopyStep::File { create_parent: !parent_exists },
        SourceKind::Directory => CopyStep::Tree,
        SourceKind::Neither => CopyStep::Refuse,
    }
}

/// The text with which a refused path is reported to the recipe.
pub fn path_failure_text(error: &PathError) -> (text: String)
    ensures
        text@ == "Path error: "@ + error.text(),
{
    "Path error: ".to_owned().concat(error.message().as_str())
}

/// The text with which a failed download is reported to the recipe.
pub fn download_failure_text(detail: &str) -> (text: String)
    ensures
        text@ == "Download error: "@ + detail@,
{
    "Download error: ".to_owned().concat(detail)
}

} // verus!
