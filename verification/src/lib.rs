//! Building packages from recipes: the rules.
//!
//! A recipe is a script that declares the metadata of a package and defines
//! the callbacks that fetch its sources, determine its version, prepare the
//! build and fill the package tree. This library holds what a host needs to
//! run such a recipe without letting it out of the two directories that
//! belong to the build:
//!
//! - `path_text` and `path_utils` confine the paths that a recipe names;
//! - `host` resolves each operation that a recipe may ask for;
//! - `file_operations` chooses the codec of an archive, decompresses and
//!   hashes;
//! - `lua_functions` turns decoded JSON into values of the scripting
//!   context and extracts the parts of a version;
//! - `metadata` reads and finalizes what a recipe declares;
//! - `lifecycle` decides the order of a build;
//! - `manifest` and `layout` describe what a build leaves behind.
//!
//! Nothing here reads or writes a file, except for asking whether a path
//! exists. The caller performs what the library has decided.

pub mod file_operations;
pub mod host;
pub mod layout;
pub mod lifecycle;
pub mod lua_functions;
pub mod manifest;
pub mod metadata;
pub mod path_text;
pub mod path_utils;
pub mod text;
