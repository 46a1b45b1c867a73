//! The failures that composing, configuring and launching can report.

use vstd::prelude::*;

verus! {

/// `std::io::Error`, carried through as an opaque value.
#[verifier::external_type_specification]
#[verifier::external_body]
pub struct ExIoError(std::io::Error);

/// Every way an invocation can fail.
#[derive(Debug)]
pub enum Error {
    /// No command was given where one is needed.
    MustSpecifyContainerCommand,
    /// Reading or writing a file failed.
    IOError(std::io::Error),
    /// Formatting text failed.
    FmtError,
    /// The running binary could not be located.
    CouldNotFindCurrentBinary(String),
    /// The archive builder refused an entry.
    FailedToAddFileToArchive { source: std::io::Error },
    /// No account is known for the named or numbered user.
    MissingUser(String),
    /// No group is known under the given name or number.
    MissingGroup(String),
    /// A mount was not written as `<host>:<container>`.
    InvalidMount(String),
    /// A locale was not written as `<language>_<territory>.<codeset>`.
    InvalidLocale(String),
    /// A timezone is not in the timezone database.
    InvalidTimezone(String),
    /// The per-user base directory could not be determined.
    MissingDirectory,
    /// A capability needs a variable that the host environment does not set.
    MissingEnvironment { aspect: String, variable: String },
    /// A capability needs a directory listing that the host did not give.
    MissingDevices { aspect: String },
    /// The container engine reported a failure.
    DockerError(String),
    /// The logger could not be installed.
    SetLoggerError(String),
    /// A command-line value could not be read.
    MatchesError(String),
    /// The configuration could not be written out.
    FailedToSaveConfig,
    /// The configuration could not be read back.
    FailedToLoadConfig,
    /// The local entry point is absent.
    LocalEntrypointPathMustExist,
    /// The local entry point is not a regular file.
    LocalEntrypointPathMustBeARegularFile,
    /// The local entry point is not executable.
    LocalEntrypointPathMustBeExecutable,
    /// The local entry point is given by a relative path.
    LocalEntrypointPathMustBeAbsolute,
}

/// An [`Error`] with its texts as character sequences and without the opaque
/// causes.
pub enum ErrorView {
    MustSpecifyContainerCommand,
    IOError,
    FmtError,
    CouldNotFindCurrentBinary(Seq<char>),
    FailedToAddFileToArchive,
    MissingUser(Seq<char>),
    MissingGroup(Seq<char>),
    InvalidMount(Seq<char>),
    InvalidLocale(Seq<char>),
    InvalidTimezone(Seq<char>),
    MissingDirectory,
    MissingEnvironment { aspect: Seq<char>, variable: Seq<char> },
    MissingDevices { aspect: Seq<char> },
    DockerError(Seq<char>),
    SetLoggerError(Seq<char>),
    MatchesError(Seq<char>),
    FailedToSaveConfig,
    FailedToLoadConfig,
    LocalEntrypointPathMustExist,
    LocalEntrypointPathMustBeARegularFile,
    LocalEntrypointPathMustBeExecutable,
    LocalEntrypointPathMustBeAbsolute,
}

impl DeepView for Error {
    type V = ErrorView;

    open spec fn deep_view(&self) -> ErrorView {
        match self {
            Error::MustSpecifyContainerCommand => ErrorView::MustSpecifyContainerCommand,
            Error::IOError(_) => ErrorView::IOError,
            Error::FmtError => ErrorView::FmtError,
            Error::CouldNotFindCurrentBinary(s) => ErrorView::CouldNotFindCurrentBinary(s@),
            Error::FailedToAddFileToArchive { .. } => ErrorView::FailedToAddFileToArchive,
            Error::MissingUser(s) => ErrorView::MissingUser(s@),
            Error::MissingGroup(s) => ErrorView::MissingGroup(s@),
            Error::InvalidMount(s) => ErrorView::InvalidMount(s@),
            Error::InvalidLocale(s) => ErrorView::InvalidLocale(s@),
            Error::InvalidTimezone(s) => ErrorView::InvalidTimezone(s@),
            Error::MissingDirectory => ErrorView::MissingDirectory,
            Error::MissingEnvironment { aspect, variable } => ErrorView::MissingEnvironment {
                aspect: aspect@,
                variable: variable@,
            },
            Error::MissingDevices { aspect } => ErrorView::MissingDevices { aspect: aspect@ },
            Error::DockerError(s) => ErrorView::DockerError(s@),
            Error::SetLoggerError(s) => ErrorView::SetLoggerError(s@),
            Error::MatchesError(s) => ErrorView::MatchesError(s@),
            Error::FailedToSaveConfig => ErrorView::FailedToSaveConfig,
            Error::FailedToLoadConfig => ErrorView::FailedToLoadConfig,
            Error::LocalEntrypointPathMustExist => ErrorView::LocalEntrypointPathMustExist,
            Error::LocalEntrypointPathMustBeARegularFile => {
                ErrorView::LocalEntrypointPathMustBeARegularFile
            },
            Error::LocalEntrypointPathMustBeExecutable => {
                ErrorView::LocalEntrypointPathMustBeExecutable
            },
            Error::LocalEntrypointPathMustBeAbsolute => ErrorView::LocalEntrypointPathMustBeAbsolute,
        }
    }
}

/// The view of a result: of the value where there is one, of the error
/// otherwise.
pub open spec fn result_view<T: DeepView>(r: Result<T, Error>) -> Result<T::V, ErrorView> {
    match r {
        Ok(v) => Ok(v.deep_view()),
        Err(e) => Err(e.deep_view()),
    }
}

} // verus!
