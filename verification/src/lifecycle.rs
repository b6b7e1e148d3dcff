//! The order in which a package is built.
//!
//! A build moves through its stages in one direction. The driver performs
//! what a `Command` asks for and reports what came of it as an `Event`;
//! `Build::step` decides what comes next. Any failure ends the build.

use crate::metadata::{
    declares, read_package_info, supports, version_source, FinalPackageInfo, MetadataError,
    PackageInfo, RecipeFields,
};
use vstd::prelude::*;
use vstd::string::StringExecFns;

verus! {

/// Where a build stands.
#[derive(Debug, Clone, Copy, PartialEq, Eq, Structural)]
pub enum Stage {
    /// The recipe is being evaluated.
    Load,
    /// The recipe's metadata is being read.
    ValidateMetadata,
    /// The recipe fetches its sources.
    FetchSources,
    /// The recipe determines the version.
    ResolveVersion,
    /// The recipe prepares the build.
    Prepare,
    /// The recipe fills the package tree.
    Package,
    /// The manifest, the metadata and the archive are written.
    Finalize,
    /// The package is built.
    Done,
    /// The build was given up.
    Failed,
}

/// A function that the recipe defines and the build calls.
#[derive(Debug, Clone, Copy, PartialEq, Eq, Structural)]
pub enum Callback {
    Sources,
    Version,
    Prepare,
    Package,
}

/// What came of calling a callback.
#[derive(Debug, Clone, PartialEq, Eq)]
pub enum CallbackOutcome {
    /// The recipe defines no such function.
    Missing,
    /// The function raised an error.
    Raised(String),
    /// The function returned, with a text if it gave one.
    Returned(Option<String>),
}

/// What the driver reports.
#[derive(Debug, Clone, PartialEq, Eq)]
pub enum Event {
    /// The recipe was evaluated.
    Evaluated,
    /// Evaluating the recipe raised an error.
    EvaluationFailed(String),
    /// The metadata table was read, and it is known whether the recipe
    /// defines the version callback.
    MetadataRead { fields: Option<RecipeFields>, has_version_callback: bool },
    /// The callback that was asked for has been called.
    Called(CallbackOutcome),
    /// The package was written.
    Finalized,
    /// Writing the package failed.
    FinalizationFailed(String),
}

/// Why a build was given up.
#[derive(Debug, Clone, PartialEq, Eq)]
pub enum BuildError {
    /// The recipe or one of its callbacks raised an error.
    Script(String),
    /// The recipe does not define a callback that is required.
    MissingCallback(Callback),
    /// The metadata breaks its contract.
    Metadata(MetadataError),
    /// The version callback returned no version.
    VersionAbsent,
    /// The package is not declared for the architecture of the host.
    UnsupportedArchitecture,
    /// The package could not be written.
    Packaging(String),
    /// The driver reported something that the stage does not wait for.
    UnexpectedEvent,
}

/// What the driver is to do next.
#[derive(Debug, Clone, PartialEq, Eq)]
pub enum Command {
    /// Evaluate the recipe.
    Evaluate,
    /// Read the metadata table and look for the version callback.
    ReadMetadata,
    /// Call a callback.
    Invoke(Callback),
    /// Write the manifest, the metadata and the archive.
    Finalize(FinalPackageInfo),
    /// Leave with success.
    Succeed,
    /// Print the diagnostic and leave with failure.
    Fail(BuildError),
}

/// A build in progress.
pub struct Build {
    stage: Stage,
    host_arch: String,
    info: Option<PackageInfo>,
}

impl Stage {
    /// The place of a stage in the order of a build.
    pub open spec fn rank(self) -> nat {
        match self {
            Stage::Load => 0,
            Stage::ValidateMetadata => 1,
            Stage::FetchSources => 2,
            Stage::ResolveVersion => 3,
            Stage::Prepare => 4,
            Stage::Package => 5,
            Stage::Finalize => 6,
            Stage::Done => 7,
            Stage::Failed => 8,
        }
    }

    /// Whether a build at this stage is over.
    pub open spec fn is_terminal(self) -> bool {
        self == Stage::Done || self == Stage::Failed
    }
}

impl Callback {
    /// The name under which the recipe defines the function.
    pub open spec fn name_text(self) -> Seq<char> {
        match self {
            Callback::Sources => "SOURCES"@,
            Callback::Version => "VERSION"@,
            Callback::Prepare => "PREPARE"@,
            Callback::Package => "PACKAGE"@,
        }
    }

    /// The name under which the recipe defines the function.
    pub fn name(&self) -> (name: &'static str)
        ensures
            name@ == self.name_text(),
    {
        match self {
            Callback::Sources => "SOURCES",
            Callback::Version => "VERSION",
            Callback::Prepare => "PREPARE",
            Callback::Package => "PACKAGE",
        }
    }
}

impl BuildError {
    /// The diagnostic for this error.
    pub open spec fn text(self) -> Seq<char> {
        match self {
            BuildError::Script(detail) => "Error: "@ + detail@,
            BuildError::MissingCallback(callback) => "Function "@ + callback.name_text()
                + " not found"@,
            BuildError::Metadata(e) => "Error: "@ + e.text(),
            BuildError::VersionAbsent => "Error: VERSION function returned no version"@,
            BuildError::UnsupportedArchitecture => {
                "Error: package not available for host architecture"@
            },
            BuildError::Packaging(detail) => "Error: "@ + detail@,
            BuildError::UnexpectedEvent => "Error: unexpected event"@,
        }
    }

    /// The diagnostic that is printed for this error.
    pub fn diagnostic(&self) -> (text: String)
        ensures
            text@ == self.text(),
    {
        match self {
            BuildError::Script(detail) => "Error: ".to_owned().concat(detail.as_str()),
            BuildError::MissingCallback(callback) => "Function ".to_owned().concat(
                callback.name(),
            ).concat(" not found"),
            BuildError::Metadata(e) => "Error: ".to_owned().concat(e.message().as_str()),
            BuildError::VersionAbsent => "Error: VERSION function returned no version".to_owned(),
            BuildError::UnsupportedArchitecture => {
                "Error: package not available for host architecture".to_owned()
            },
            BuildError::Packaging(detail) => "Error: ".to_owned().concat(detail.as_str()),
            BuildError::UnexpectedEvent => "Error: unexpected event".to_owned(),
        }
    }
}

impl Command {
    /// The status with which the process leaves, where the command ends the
    /// build.
    pub fn exit_status(&self) -> (status: Option<u8>)
        ensures
            status == match self {
                Command::Succeed => Some(0u8),
                Command::Fail(_) => Some(1u8),
                _ => None,
            },
    {
        match self {
            Command::Succeed => Some(0),
            Command::Fail(_) => Some(1),
            _ => None,
        }
    }
}

/// `info` with `version` as its version.
pub open spec fn with_version(info: PackageInfo, version: String) -> PackageInfo {
    PackageInfo { version: Some(version), ..info }
}

/// What follows once the sources are there and the version is known: the
/// package has to be declared for the architecture of the host.
pub open spec fn after_version(
    host_arch: Seq<char>,
    info: PackageInfo,
    post: Build,
    command: Command,
) -> bool {
    if supports(info.arch@, host_arch) {
        &&& post.stage() == Stage::Prepare
        &&& post.info() == Some(info)
        &&& command == Command::Invoke(Callback::Prepare)
    } else {
        &&& post.stage() == Stage::Failed
        &&& command == Command::Fail(BuildError::UnsupportedArchitecture)
    }
}

/// What a callback's outcome leads to, where the callback did not return.
pub open spec fn callback_failure(callback: Callback, outcome: CallbackOutcome) -> Option<
    BuildError,
> {
    match outcome {
        CallbackOutcome::Missing => Some(BuildError::MissingCallback(callback)),
        CallbackOutcome::Raised(detail) => Some(BuildError::Script(detail)),
        CallbackOutcome::Returned(_) => None,
    }
}

/// Whether a build that stood at `pre` and was told `event` goes on as
/// `post`, with `command` for the driver.
pub open spec fn transition(pre: Build, event: Event, post: Build, command: Command) -> bool {
    &&& post.host_arch() == pre.host_arch()
    &&& match (pre.stage(), event) {
        (Stage::Load, Event::Evaluated) => {
            &&& post.stage() == Stage::ValidateMetadata
            &&& command == Command::ReadMetadata
        },
        (Stage::Load, Event::EvaluationFailed(detail)) => {
            &&& post.stage() == Stage::Failed
            &&& command == Command::Fail(BuildError::Script(detail))
        },
        (Stage::ValidateMetadata, Event::MetadataRead { fields, has_version_callback }) => {
            match fields {
                None => {
                    &&& post.stage() == Stage::Failed
                    &&& command == Command::Fail(BuildError::Metadata(MetadataError::MissingTable))
                },
                Some(f) => match f.first_missing() {
                    Some(field) => {
                        &&& post.stage() == Stage::Failed
                        &&& command == Command::Fail(
                            BuildError::Metadata(MetadataError::MissingField(field)),
                        )
                    },
                    None => if f.version is Some && has_version_callback {
                        &&& post.stage() == Stage::Failed
                        &&& command == Command::Fail(
                            BuildError::Metadata(MetadataError::VersionDeclaredTwice),
                        )
                    } else if f.version is None && !has_version_callback {
                        &&& post.stage() == Stage::Failed
                        &&& command == Command::Fail(
                            BuildError::Metadata(MetadataError::VersionUndeclared),
                        )
                    } else {
                        &&& post.stage() == Stage::FetchSources
                        &&& post.info() matches Some(info) && declares(f, info)
                        &&& command == Command::Invoke(Callback::Sources)
                    },
                },
            }
        },
        (Stage::FetchSources, Event::Called(outcome)) => match (
            callback_failure(Callback::Sources, outcome),
            pre.info(),
        ) {
            (Some(error), _) => {
                &&& post.stage() == Stage::Failed
                &&& command == Command::Fail(error)
            },
            (None, Some(info)) => if info.version is None {
                &&& post.stage() == Stage::ResolveVersion
                &&& post.info() == Some(info)
                &&& command == Command::Invoke(Callback::Version)
            } else {
                after_version(pre.host_arch()@, info, post, command)
            },
            (None, None) => false,
        },
        (Stage::ResolveVersion, Event::Called(outcome)) => match (
            callback_failure(Callback::Version, outcome),
            outcome,
            pre.info(),
        ) {
            (Some(error), _, _) => {
                &&& post.stage() == Stage::Failed
                &&& command == Command::Fail(error)
            },
            (None, CallbackOutcome::Returned(Some(version)), Some(info)) => after_version(
                pre.host_arch()@,
                with_version(info, version),
                post,
                command,
            ),
            (None, CallbackOutcome::Returned(None), _) => {
                &&& post.stage() == Stage::Failed
                &&& command == Command::Fail(BuildError::VersionAbsent)
            },
            _ => false,
        },
        (Stage::Prepare, Event::Called(outcome)) => match callback_failure(
            Callback::Prepare,
            outcome,
        ) {
            Some(error) => {
                &&& post.stage() == Stage::Failed
                &&& command == Command::Fail(error)
            },
            None => {
                &&& post.stage() == Stage::Package
                &&& post.info() == pre.info()
                &&& command == Command::Invoke(Callback::Package)
            },
        },
        (Stage::Package, Event::Called(outcome)) => match (
            callback_failure(Callback::Package, outcome),
            pre.info(),
        ) {
            (Some(error), _) => {
                &&& post.stage() == Stage::Failed
                &&& command == Command::Fail(error)
            },
            (None, Some(info)) => {
                &&& post.stage() == Stage::Finalize
                &&& command matches Command::Finalize(done) && describes(info, done)
            },
            (None, None) => false,
        },
        (Stage::Finalize, Event::Finalized) => {
            &&& post.stage() == Stage::Done
            &&& command == Command::Succeed
        },
        (Stage::Finalize, Event::FinalizationFailed(detail)) => {
            &&& post.stage() == Stage::Failed
            &&& command == Command::Fail(BuildError::Packaging(detail))
        },
        _ => {
            &&& post.stage() == Stage::Failed
            &&& command == Command::Fail(BuildError::UnexpectedEvent)
        },
    }
}

/// Whether `done` describes the package that `info` was built as: the same
/// fields, and the version that was declared or determined.
pub open spec fn describes(info: PackageInfo, done: FinalPackageInfo) -> bool {
    &&& done.name == info.name
    &&& done.description == info.description
    &&& done.version@ == match info.version {
        Some(v) => v@,
        None => PackageInfo::fallback_version(),
    }
    &&& done.license == info.license
    &&& done.dev == info.dev
    &&& done.dependencies == info.dependencies
    &&& done.conflicts == info.conflicts
    &&& done.provides == info.provides
    &&& done.replaces == info.replaces
    &&& done.arch == info.arch
    &&& done.url == info.url
    &&& done.maintainers == info.maintainers
}

impl Build {
    /// The stage at which the build stands.
    pub closed spec fn stage(self) -> Stage {
        self.stage
    }

    /// The architecture of the host.
    pub closed spec fn host_arch(self) -> String {
        self.host_arch
    }

    /// The metadata, from the moment it has been read.
    pub closed spec fn info(self) -> Option<PackageInfo> {
        self.info
    }

    /// What holds of every build: while callbacks run the metadata is
    /// there; the version is missing exactly while it is being determined;
    /// and nothing is prepared or packaged for an architecture that the
    /// package is not declared for.
    #[verifier::type_invariant]
    pub open spec fn well_formed(self) -> bool {
        match self.stage() {
            Stage::FetchSources => self.info() is Some,
            Stage::ResolveVersion => self.info() matches Some(info) && info.version is None,
            Stage::Prepare | Stage::Package => self.info() matches Some(info)
                && info.version is Some && supports(info.arch@, self.host_arch()@),
            _ => true,
        }
    }

    /// A build for a host of the architecture `host_arch`, together with
    /// its first command: to evaluate the recipe.
    pub fn start(host_arch: &str) -> (started: (Build, Command))
        ensures
            started.0.stage() == Stage::Load,
            started.0.host_arch()@ == host_arch@,
            started.0.info() is None,
            started.1 == Command::Evaluate,
    {
        (
            Build { stage: Stage::Load, host_arch: host_arch.to_owned(), info: None },
            Command::Evaluate,
        )
    }

    /// The stage at which the build stands.
    pub fn current_stage(&self) -> (stage: Stage)
        ensures
            stage == self.stage(),
    {
        self.stage
    }

    /// Ends the build with `error`.
    fn fail(self, error: BuildError) -> (next: (Build, Command))
        ensures
            next.0.stage() == Stage::Failed,
            next.0.host_arch() == self.host_arch(),
            next.1 == Command::Fail(error),
    {
        (
            Build { stage: Stage::Failed, host_arch: self.host_arch, info: None },
            Command::Fail(error),
        )
    }

    /// Passes the architecture gate and goes on to prepare, or ends the
    /// build there.
    fn enter_prepare(host_arch: String, info: PackageInfo) -> (next: (Build, Command))
        requires
            info.version is Some,
        ensures
            next.0.host_arch() == host_arch,
            after_version(host_arch@, info, next.0, next.1),
    {
        if info.supports_arch(host_arch.as_str()) {
            (
                Build { stage: Stage::Prepare, host_arch, info: Some(info) },
                Command::Invoke(Callback::Prepare),
            )
        } else {
            (
                Build { stage: Stage::Failed, host_arch, info: None },
                Command::Fail(BuildError::UnsupportedArchitecture),
            )
        }
    }

    /// Takes what the driver reports and decides how the build goes on.
    ///
    /// The stages follow one another in a fixed order and none is entered
    /// twice. A callback that is missing or raises an error, metadata that
    /// breaks its contract, an architecture that the package is not
    /// declared for, and an event that the stage does not wait for all end
    /// the build with a failure.
    pub fn step(self, event: Event) -> (next: (Build, Command))
        ensures
            transition(self, event, next.0, next.1),
            self.stage().is_terminal() || self.stage().rank() < next.0.stage().rank(),
            next.1 is Finalize ==> self.stage() == Stage::Package,
            next.1 is Succeed <==> next.0.stage() == Stage::Done,
            next.1 is Fail <==> next.0.stage() == Stage::Failed,
    {
        proof {
            use_type_invariant(&self);
        }
        match (self.stage, event) {
            (Stage::Load, Event::Evaluated) => (
                Build { stage: Stage::ValidateMetadata, host_arch: self.host_arch, info: None },
                Command::ReadMetadata,
            ),
            (Stage::Load, Event::EvaluationFailed(detail)) => self.fail(BuildError::Script(detail)),
            (Stage::ValidateMetadata, Event::MetadataRead { fields, has_version_callback }) => {
                match read_package_info(fields) {
                    Err(e) => self.fail(BuildError::Metadata(e)),
                    Ok(info) => match version_source(info.version.is_some(), has_version_callback) {
                        Err(e) => self.fail(BuildError::Metadata(e)),
                        Ok(_) => (
                            Build {
                                stage: Stage::FetchSources,
                                host_arch: self.host_arch,
                                info: Some(info),
                            },
                            Command::Invoke(Callback::Sources),
                        ),
                    },
                }
            },
            (Stage::FetchSources, Event::Called(CallbackOutcome::Returned(_))) => {
                match self.info {
                    Some(info) => if info.version.is_none() {
                        (
                            Build {
                                stage: Stage::ResolveVersion,
                                host_arch: self.host_arch,
                                info: Some(info),
                            },
                            Command::Invoke(Callback::Version),
                        )
                    } else {
                        Self::enter_prepare(self.host_arch, info)
                    },
                    None => (
                        Build { stage: Stage::Failed, host_arch: self.host_arch, info: None },
                        Command::Fail(BuildError::UnexpectedEvent),
                    ),
                }
            },
            (Stage::ResolveVersion, Event::Called(CallbackOutcome::Returned(Some(version)))) => {
                match self.info {
                    Some(info) => {
                        let info = PackageInfo { version: Some(version), ..info };
                        Self::enter_prepare(self.host_arch, info)
                    },
                    None => (
                        Build { stage: Stage::Failed, host_arch: self.host_arch, info: None },
                        Command::Fail(BuildError::UnexpectedEvent),
                    ),
                }
            },
            (Stage::ResolveVersion, Event::Called(CallbackOutcome::Returned(None))) => self.fail(
                BuildError::VersionAbsent,
            ),
            (Stage::Prepare, Event::Called(CallbackOutcome::Returned(_))) => (
                Build { stage: Stage::Package, host_arch: self.host_arch, info: self.info },
                Command::Invoke(Callback::Package),
            ),
            (Stage::Package, Event::Called(CallbackOutcome::Returned(_))) => {
                match self.info {
                    Some(info) => (
                        Build { stage: Stage::Finalize, host_arch: self.host_arch, info: None },
                        Command::Finalize(info.finalize()),
                    ),
                    None => (
                        Build { stage: Stage::Failed, host_arch: self.host_arch, info: None },
                        Command::Fail(BuildError::UnexpectedEvent),
                    ),
                }
            },
            (Stage::FetchSources, Event::Called(CallbackOutcome::Missing)) => self.fail(
                BuildError::MissingCallback(Callback::Sources),
            ),
            (Stage::ResolveVersion, Event::Called(CallbackOutcome::Missing)) => self.fail(
                BuildError::MissingCallback(Callback::Version),
            ),
            (Stage::Prepare, Event::Called(CallbackOutcome::Missing)) => self.fail(
                BuildError::MissingCallback(Callback::Prepare),
            ),
            (Stage::Package, Event::Called(CallbackOutcome::Missing)) => self.fail(
                BuildError::MissingCallback(Callback::Package),
            ),
            (Stage::FetchSources, Event::Called(CallbackOutcome::Raised(detail)))
            | (Stage::ResolveVersion, Event::Called(CallbackOutcome::Raised(detail)))
            | (Stage::Prepare, Event::Called(CallbackOutcome::Raised(detail)))
            | (Stage::Package, Event::Called(CallbackOutcome::Raised(detail))) => self.fail(
                BuildError::Script(detail),
            ),
            (Stage::Finalize, Event::Finalized) => (
                Build { stage: Stage::Done, host_arch: self.host_arch, info: None },
                Command::Succeed,
            ),
            (Stage::Finalize, Event::FinalizationFailed(detail)) => self.fail(
                BuildError::Packaging(detail),
            ),
            _ => self.fail(BuildError::UnexpectedEvent),
        }
    }
}

/// The stages of a build follow one another in their order: a step from a
/// stage at which the build is not over leads to a later stage, and what
/// holds of every build holds after the step.
pub proof fn lemma_steps_advance(pre: Build, event: Event, post: Build, command: Command)
    requires
        pre.well_formed(),
        transition(pre, event, post, command),
    ensures
        pre.stage().is_terminal() || pre.stage().rank() < post.stage().rank(),
        post.well_formed(),
{
}

/// A build that is over stays over: whatever is reported then, the build
/// has failed.
pub proof fn lemma_over_is_over(pre: Build, event: Event, post: Build, command: Command)
    requires
        pre.stage().is_terminal(),
        transition(pre, event, post, command),
    ensures
        post.stage() == Stage::Failed,
        command == Command::Fail(BuildError::UnexpectedEvent),
{
}

/// The package is written only after the packaging callback has returned,
/// and a build succeeds only after the package has been written.
pub proof fn lemma_success_comes_last(pre: Build, event: Event, post: Build, command: Command)
    requires
        pre.well_formed(),
        transition(pre, event, post, command),
    ensures
        command is Finalize ==> pre.stage() == Stage::Package && event matches Event::Called(
            CallbackOutcome::Returned(_),
        ),
        command is Succeed ==> pre.stage() == Stage::Finalize && event is Finalized,
        command is Succeed <==> post.stage() == Stage::Done,
        command is Fail <==> post.stage() == Stage::Failed,
{
}

/// Nothing is prepared for an architecture that the package is not declared
/// for: a step that asks for the preparation callback was taken with the
/// architecture of the host among the declared ones, and a step that finds
/// it missing there ends the build.
pub proof fn lemma_architecture_gate(pre: Build, event: Event, post: Build, command: Command)
    requires
        pre.well_formed(),
        transition(pre, event, post, command),
    ensures
        command == Command::Invoke(Callback::Prepare) ==> (post.info() matches Some(info)
            && supports(info.arch@, post.host_arch()@)),
        command == Command::Fail(BuildError::UnsupportedArchitecture) ==> (pre.info() matches Some(
            info,
        ) && !supports(info.arch@, pre.host_arch()@)),
{
}

} // verus!
