//! The metadata a recipe declares, and what a package is finally described
//! by.

use crate::text::contains_text;
use vstd::prelude::*;
use vstd::string::StringExecFns;

verus! {

/// A field that every recipe has to declare.
#[derive(Debug, Clone, Copy, PartialEq, Eq, Structural)]
pub enum Field {
    Name,
    Description,
    Url,
    License,
    Dev,
    Provides,
    Arch,
    Maintainers,
}

/// Why a recipe's metadata was refused.
#[derive(Debug, Clone, Copy, PartialEq, Eq, Structural)]
pub enum MetadataError {
    /// The recipe declares no metadata table at all.
    MissingTable,
    /// A required field is absent.
    MissingField(Field),
    /// There is neither a literal version nor a callback that gives one.
    VersionUndeclared,
    /// There is both a literal version and a callback that gives one.
    VersionDeclaredTwice,
}

/// Where a package's version comes from.
#[derive(Debug, Clone, Copy, PartialEq, Eq, Structural)]
pub enum VersionSource {
    /// The recipe states it.
    Literal,
    /// The recipe's callback determines it.
    Callback,
}

/// What was found in a recipe's metadata table. A field is `None` where the
/// table holds no value of the right kind under its key.
#[derive(Debug, Clone, PartialEq, Eq)]
pub struct RecipeFields {
    pub name: Option<String>,
    pub description: Option<String>,
    pub url: Option<String>,
    pub license: Option<String>,
    pub dev: Option<bool>,
    pub provides: Option<Vec<String>>,
    pub arch: Option<Vec<String>>,
    pub maintainers: Option<Vec<String>>,
    pub version: Option<String>,
    pub dependencies: Option<Vec<String>>,
    pub build_dependencies: Option<Vec<String>>,
    pub optional_dependencies: Option<Vec<String>>,
    pub conflicts: Option<Vec<String>>,
    pub replaces: Option<Vec<String>>,
}

/// The metadata of a package while it is built.
#[derive(Debug, Clone, PartialEq, Eq)]
pub struct PackageInfo {
    pub name: String,
    pub description: String,
    pub version: Option<String>,
    pub license: String,
    pub dev: bool,
    pub dependencies: Vec<String>,
    pub build_dependencies: Vec<String>,
    pub optional_dependencies: Vec<String>,
    pub conflicts: Vec<String>,
    pub provides: Vec<String>,
    pub replaces: Vec<String>,
    pub arch: Vec<String>,
    pub url: String,
    pub maintainers: Vec<String>,
}

/// The metadata that is written into a finished package.
#[derive(Debug, Clone, PartialEq, Eq)]
pub struct FinalPackageInfo {
    pub name: String,
    pub description: String,
    pub version: String,
    pub license: String,
    pub dev: bool,
    pub dependencies: Vec<String>,
    pub conflicts: Vec<String>,
    pub provides: Vec<String>,
    pub replaces: Vec<String>,
    pub arch: Vec<String>,
    pub url: String,
    pub maintainers: Vec<String>,
}

impl Field {
    /// The key under which the recipe declares this field.
    pub open spec fn key_text(self) -> Seq<char> {
        match self {
            Field::Name => "name"@,
            Field::Description => "description"@,
            Field::Url => "url"@,
            Field::License => "license"@,
            Field::Dev => "dev"@,
            Field::Provides => "provides"@,
            Field::Arch => "arch"@,
            Field::Maintainers => "maintainers"@,
        }
    }

    /// The key under which the recipe declares this field.
    pub fn key(&self) -> (key: &'static str)
        ensures
            key@ == self.key_text(),
    {
        match self {
            Field::Name => "name",
            Field::Description => "description",
            Field::Url => "url",
            Field::License => "license",
            Field::Dev => "dev",
            Field::Provides => "provides",
            Field::Arch => "arch",
            Field::Maintainers => "maintainers",
        }
    }
}

impl MetadataError {
    /// The text of this error.
    pub open spec fn text(self) -> Seq<char> {
        match self {
            MetadataError::MissingTable => "INFO table missing"@,
            MetadataError::MissingField(field) => field.key_text() + " field missing"@,
            MetadataError::VersionUndeclared => {
                "version field missing and VERSION function not found"@
            },
            MetadataError::VersionDeclaredTwice => {
                "version field and VERSION function both found"@
            },
        }
    }

    /// The text of this error, as it is shown to the user.
    pub fn message(&self) -> (text: String)
        ensures
            text@ == self.text(),
    {
        match self {
            MetadataError::MissingTable => "INFO table missing".to_owned(),
            MetadataError::MissingField(field) => field.key().to_owned().concat(" field missing"),
            MetadataError::VersionUndeclared => {
                "version field missing and VERSION function not found".to_owned()
            },
            MetadataError::VersionDeclaredTwice => {
                "version field and VERSION function both found".to_owned()
            },
        }
    }
}

impl RecipeFields {
    /// The first required field that is absent, in the order in which the
    /// fields are read.
    pub open spec fn first_missing(self) -> Option<Field> {
        if self.name is None {
            Some(Field::Name)
        } else if self.description is None {
            Some(Field::Description)
        } else if self.url is None {
            Some(Field::Url)
        } else if self.license is None {
            Some(Field::License)
        } else if self.dev is None {
            Some(Field::Dev)
        } else if self.provides is None {
            Some(Field::Provides)
        } else if self.arch is None {
            Some(Field::Arch)
        } else if self.maintainers is None {
            Some(Field::Maintainers)
        } else {
            None
        }
    }
}

/// A list that the recipe may leave out: an absent one is empty.
pub open spec fn or_empty(list: Option<Vec<String>>) -> Seq<String> {
    match list {
        Some(items) => items@,
        None => Seq::<String>::empty(),
    }
}

/// Whether `info` holds what `fields` declares: every required field as it
/// was given, and every optional list as it was given or empty.
pub open spec fn declares(fields: RecipeFields, info: PackageInfo) -> bool {
    &&& Some(info.name) == fields.name
    &&& Some(info.description) == fields.description
    &&& Some(info.url) == fields.url
    &&& Some(info.license) == fields.license
    &&& Some(info.dev) == fields.dev
    &&& Some(info.provides) == fields.provides
    &&& Some(info.arch) == fields.arch
    &&& Some(info.maintainers) == fields.maintainers
    &&& info.version == fields.version
    &&& info.dependencies@ == or_empty(fields.dependencies)
    &&& info.build_dependencies@ == or_empty(fields.build_dependencies)
    &&& info.optional_dependencies@ == or_empty(fields.optional_dependencies)
    &&& info.conflicts@ == or_empty(fields.conflicts)
    &&& info.replaces@ == or_empty(fields.replaces)
}

fn list_or_empty(list: Option<Vec<String>>) -> (items: Vec<String>)
    ensures
        items@ == or_empty(list),
{
    match list {
        Some(items) => items,
        None => Vec::new(),
    }
}

/// Reads the metadata of a package from what the recipe's table holds;
/// `fields` is `None` where the recipe has no such table. The required
/// fields are looked for in a fixed order, and the first one that is absent
/// is reported. Optional lists that are absent are empty.
pub fn read_package_info(fields: Option<RecipeFields>) -> (result: Result<
    PackageInfo,
    MetadataError,
>)
    ensures
        match fields {
            None => result == Err::<PackageInfo, MetadataError>(MetadataError::MissingTable),
            Some(f) => match f.first_missing() {
                Some(field) => result == Err::<PackageInfo, MetadataError>(
                    MetadataError::MissingField(field),
                ),
                None => result matches Ok(info) && declares(f, info),
            },
        },
{
    let f = match fields {
        Some(f) => f,
        None => return Err(MetadataError::MissingTable),
    };
    let name = match f.name {
        Some(v) => v,
        None => return Err(MetadataError::MissingField(Field::Name)),
    };
    let description = match f.description {
        Some(v) => v,
        None => return Err(MetadataError::MissingField(Field::Description)),
    };
    let url = match f.url {
        Some(v) => v,
        None => return Err(MetadataError::MissingField(Field::Url)),
    };
    let license = match f.license {
        Some(v) => v,
        None => return Err(MetadataError::MissingField(Field::License)),
    };
    let dev = match f.dev {
        Some(v) => v,
        None => return Err(MetadataError::MissingField(Field::Dev)),
    };
    let provides = match f.provides {
        Some(v) => v,
        None => return Err(MetadataError::MissingField(Field::Provides)),
    };
    let arch = match f.arch {
        Some(v) => v,
        None => return Err(MetadataError::MissingField(Field::Arch)),
    };
    let maintainers = match f.maintainers {
        Some(v) => v,
        None => return Err(MetadataError::MissingField(Field::Maintainers)),
    };
    Ok(
        PackageInfo {
            name,
            description,
            version: f.version,
            license,
            dev,
            dependencies: list_or_empty(f.dependencies),
            build_dependencies: list_or_empty(f.build_dependencies),
            optional_dependencies: list_or_empty(f.optional_dependencies),
            conflicts: list_or_empty(f.conflicts),
            provides,
            replaces: list_or_empty(f.replaces),
            arch,
            url,
            maintainers,
        },
    )
}

/// Decides where the version comes from. Exactly one of a literal version
/// and a version callback has to be there.
pub fn version_source(has_literal: bool, has_callback: bool) -> (result: Result<
    VersionSource,
    MetadataError,
>)
    ensures
        result is Ok <==> has_literal != has_callback,
        result == if has_literal && has_callback {
            Err::<VersionSource, MetadataError>(MetadataError::VersionDeclaredTwice)
        } else if has_literal {
            Ok::<VersionSource, MetadataError>(VersionSource::Literal)
        } else if has_callback {
            Ok::<VersionSource, MetadataError>(VersionSource::Callback)
        } else {
            Err::<VersionSource, MetadataError>(MetadataError::VersionUndeclared)
        },
{
    if has_literal && has_callback {
        Err(MetadataError::VersionDeclaredTwice)
    } else if has_literal {
        Ok(VersionSource::Literal)
    } else if has_callback {
        Ok(VersionSource::Callback)
    } else {
        Err(MetadataError::VersionUndeclared)
    }
}

/// Whether `arch` is among the architectures in `supported`.
pub open spec fn supports(supported: Seq<String>, arch: Seq<char>) -> bool {
    exists|i: int| 0 <= i < supported.len() && supported[i]@ == arch
}

impl PackageInfo {
    /// Whether the package can be built for the architecture `host`.
    pub fn supports_arch(&self, host: &str) -> (yes: bool)
        ensures
            yes == supports(self.arch@, host@),
    {
        contains_text(&self.arch, host)
    }

    /// The version that stands in for one that was never determined.
    pub open spec fn fallback_version() -> Seq<char> {
        "0.0.0"@
    }

    /// The metadata that goes into the finished package. The lists that
    /// matter only while building, the build dependencies and the optional
    /// dependencies, are left out.
    pub fn finalize(self) -> (done: FinalPackageInfo)
        ensures
            done.name == self.name,
            done.description == self.description,
            done.version@ == match self.version {
                Some(v) => v@,
                None => Self::fallback_version(),
            },
            done.license == self.license,
            done.dev == self.dev,
            done.dependencies == self.dependencies,
            done.conflicts == self.conflicts,
            done.provides == self.provides,
            done.replaces == self.replaces,
            done.arch == self.arch,
            done.url == self.url,
            done.maintainers == self.maintainers,
    {
        let version = match self.version {
            Some(v) => v,
            None => "0.0.0".to_owned(),
        };
        FinalPackageInfo {
            name: self.name,
            description: self.description,
            version,
            license: self.license,
            dev: self.dev,
            dependencies: self.dependencies,
            conflicts: self.conflicts,
            provides: self.provides,
            replaces: self.replaces,
            arch: self.arch,
            url: self.url,
            maintainers: self.maintainers,
        }
    }
}

impl FinalPackageInfo {
    /// The file name of the package built for `arch`.
    pub open spec fn artifact_text(self, arch: Seq<char>) -> Seq<char> {
        self.name@ + "-"@ + self.version@ + "-"@ + arch + ".tar.gz"@
    }

    /// The file name of the package built for `arch`: name, version and
    /// architecture with hyphens between them, and the archive's suffix.
    pub fn artifact_name(&self, arch: &str) -> (file: String)
        ensures
            file@ == self.artifact_text(arch@),
    {
        self.name.clone().concat("-").concat(self.version.as_str()).concat("-").concat(
            arch,
        ).concat(".tar.gz")
    }
}

} // verus!
