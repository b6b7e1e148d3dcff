//! Where a build keeps its files.
//!
//! Everything lies in the project directory: the recipe, the source root,
//! the package root with the two files that describe the package, and the
//! archive that is the result.

use crate::metadata::FinalPackageInfo;
use crate::path_text::{join, joined};
use vstd::prelude::*;

verus! {

/// The name of a recipe in its project directory.
pub open spec fn recipe_name() -> Seq<char> {
    "buildpkg.lua"@
}

/// The name of the source root in the project directory.
pub open spec fn source_name() -> Seq<char> {
    "src"@
}

/// The name of the package root in the project directory.
pub open spec fn package_name() -> Seq<char> {
    "pkg"@
}

/// The name of the manifest in the package root.
pub open spec fn manifest_name() -> Seq<char> {
    ".pkgfiles"@
}

/// The name of the metadata file in the package root.
pub open spec fn metadata_name() -> Seq<char> {
    "package.json"@
}

/// The recipe that `project` stands for: `project` itself where it is a
/// file, the recipe inside it where it is a directory.
pub fn recipe_file(project: &str, is_dir: bool) -> (file: String)
    ensures
        file@ == if is_dir {
            joined(project@, recipe_name())
        } else {
            project@
        },
{
    if is_dir {
        join(project, "buildpkg.lua")
    } else {
        project.to_owned()
    }
}

/// The source root of the project at `working_dir`.
pub fn source_root(working_dir: &str) -> (dir: String)
    ensures
        dir@ == joined(working_dir@, source_name()),
{
    join(working_dir, "src")
}

/// The package root of the project at `working_dir`.
pub fn package_root(working_dir: &str) -> (dir: String)
    ensures
        dir@ == joined(working_dir@, package_name()),
{
    join(working_dir, "pkg")
}

/// The manifest of the package at `package_root`.
pub fn manifest_file(package_root: &str) -> (file: String)
    ensures
        file@ == joined(package_root@, manifest_name()),
{
    join(package_root, ".pkgfiles")
}

/// The metadata file of the package at `package_root`.
pub fn metadata_file(package_root: &str) -> (file: String)
    ensures
        file@ == joined(package_root@, metadata_name()),
{
    join(package_root, "package.json")
}

/// The archive that the build at `working_dir` leaves for the package
/// `info`, built for `arch`.
pub fn artifact_file(working_dir: &str, info: &FinalPackageInfo, arch: &str) -> (file: String)
    ensures
        file@ == joined(working_dir@, info.artifact_text(arch@)),
{
    join(working_dir, info.artifact_name(arch).as_str())
}

} // verus!
