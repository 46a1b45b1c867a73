//! Where configuration layers and per-profile data live on the host.
//!
//! A directory is a base directory of the current user, followed by
//! `applications/<application>` where an application is named, followed by
//! `profiles/<profile>` where a profile is named.

use vstd::prelude::*;
use crate::error::Error;

verus! {

/// `directories_next::ProjectDirs`, carried through as an opaque value.
#[verifier::external_type_specification]
#[verifier::external_body]
pub struct ExProjectDirs(directories_next::ProjectDirs);

/// The path that `std::path::Path::join` gives for `base` extended by `part`.
pub uninterp spec fn joined_path(base: Seq<char>, part: Seq<char>) -> Seq<char>;

/// What `std::path::Path::strip_prefix` leaves of `path` once `prefix` is
/// taken off its front; nothing where `path` does not start with `prefix`.
pub uninterp spec fn path_without_prefix(path: Seq<char>, prefix: Seq<char>) -> Option<Seq<char>>;

/// Which of the user's base directories is meant.
#[derive(Debug, Clone, Copy, PartialEq, Eq, Structural)]
pub enum DirType {
    /// Where configuration layers are kept.
    Config,
    /// Where the data of profiles is kept.
    Data,
}

/// The root directory.
pub const ROOT: &'static str = "/";

/// The subdirectory under which applications are kept.
pub const APPLICATIONS: &'static str = "applications";

/// The subdirectory under which profiles are kept.
pub const PROFILES: &'static str = "profiles";

/// The directory for `application` and `profile` below `base`.
pub open spec fn dir_path(
    base: Seq<char>,
    application: Option<Seq<char>>,
    profile: Option<Seq<char>>,
) -> Seq<char> {
    let with_application = match application {
        Some(a) => joined_path(joined_path(base, APPLICATIONS@), a),
        None => base,
    };
    match profile {
        Some(p) => joined_path(joined_path(with_application, PROFILES@), p),
        None => with_application,
    }
}

/// The view of an optional text.
pub open spec fn opt_str_view(o: Option<&str>) -> Option<Seq<char>> {
    match o {
        Some(s) => Some(s@),
        None => None,
    }
}

/// Calls `std::path::Path::join` on `base` with `part`. The contract names
/// the resulting path; both texts are valid UTF-8, so nothing is lost when
/// the result is turned back into a string.
#[verifier::external_body]
pub(crate) fn join_path(base: &str, part: &str) -> (r: String)
    ensures
        r@ == joined_path(base@, part@),
{
    std::path::Path::new(base).join(part).to_string_lossy().into_owned()
}

/// Calls `std::path::Path::strip_prefix` on `path` with `prefix`. The
/// contract names the outcome: the remainder where `path` starts with
/// `prefix`, nothing where it does not.
#[verifier::external_body]
pub(crate) fn strip_prefix(path: &str, prefix: &str) -> (r: Option<String>)
    ensures
        r.deep_view() == path_without_prefix(path@, prefix@),
{
    match std::path::Path::new(path).strip_prefix(prefix) {
        Ok(rest) => Some(rest.to_string_lossy().into_owned()),
        Err(_) => None,
    }
}

/// Calls `directories_next::ProjectDirs::from` for the project `dfiles`. What
/// comes back depends on the environment of the process, so nothing is
/// claimed of it.
#[verifier::external_body]
fn project_dirs() -> Option<directories_next::ProjectDirs> {
    directories_next::ProjectDirs::from("", "", "dfiles")
}

/// Calls `directories_next::ProjectDirs::config_dir` and converts the path
/// to a string.
#[verifier::external_body]
fn project_config_dir(dirs: &directories_next::ProjectDirs) -> String {
    dirs.config_dir().to_string_lossy().into_owned()
}

/// Calls `directories_next::ProjectDirs::data_dir` and converts the path to
/// a string.
#[verifier::external_body]
fn project_data_dir(dirs: &directories_next::ProjectDirs) -> String {
    dirs.data_dir().to_string_lossy().into_owned()
}

/// The directory for `application` and `profile` below the base directory
/// `base`.
pub fn dir_under(base: &str, application: Option<&str>, profile: Option<&str>) -> (r: String)
    ensures
        r@ == dir_path(base@, opt_str_view(application), opt_str_view(profile)),
{
    let mut dir = String::from_str(base);
    if let Some(s) = application {
        let apps = join_path(dir.as_str(), APPLICATIONS);
        dir = join_path(apps.as_str(), s);
    }
    if let Some(s) = profile {
        let profiles = join_path(dir.as_str(), PROFILES);
        dir = join_path(profiles.as_str(), s);
    }
    dir
}

/// The user's base directory of the given kind, where the host has one.
pub(crate) fn base_dir(dir_type: DirType) -> (r: Option<String>) {
    match project_dirs() {
        Some(dirs) => Some(
            match dir_type {
                DirType::Config => project_config_dir(&dirs),
                DirType::Data => project_data_dir(&dirs),
            },
        ),
        None => None,
    }
}

/// The directory of the given kind for `application` and `profile`, given
/// the user's base directory of that kind, or its absence.
pub fn dir_from_base(
    base: Option<&str>,
    application: Option<&str>,
    profile: Option<&str>,
) -> (r: Result<String, Error>)
    ensures
        match base {
            Some(b) => r is Ok && r->Ok_0@ == dir_path(
                b@,
                opt_str_view(application),
                opt_str_view(profile),
            ),
            None => r matches Err(Error::MissingDirectory),
        },
{
    match base {
        Some(b) => Ok(dir_under(b, application, profile)),
        None => Err(Error::MissingDirectory),
    }
}

/// Looks the user's base directory of the given kind up and extends it for
/// `application` and `profile`. Fails where the host has no home directory.
fn get_dir(dir_type: DirType, application: Option<&str>, profile: Option<&str>) -> (r: Result<
    String,
    Error,
>)
    ensures
        match r {
            Ok(dir) => exists|base: Seq<char>|
                dir@ == #[trigger] dir_path(
                    base,
                    opt_str_view(application),
                    opt_str_view(profile),
                ),
            Err(e) => e is MissingDirectory,
        },
{
    let base = base_dir(dir_type);
    let r = dir_from_base(
        match &base {
            Some(b) => Some(b.as_str()),
            None => None,
        },
        application,
        profile,
    );
    proof {
        if let Some(b) = base {
            assert(r->Ok_0@ == dir_path(b@, opt_str_view(application), opt_str_view(profile)));
        }
    }
    r
}

/// The directory that holds the configuration layer of `application` and
/// `profile`; the global layer where both are absent.
pub fn get_config_dir(application: Option<&str>, profile: Option<&str>) -> (r: Result<
    String,
    Error,
>)
    ensures
        match r {
            Ok(dir) => exists|base: Seq<char>|
                dir@ == #[trigger] dir_path(
                    base,
                    opt_str_view(application),
                    opt_str_view(profile),
                ),
            Err(e) => e is MissingDirectory,
        },
{
    get_dir(DirType::Config, application, profile)
}

/// The directory that holds the data of `application` and `profile`.
pub fn get_data_dir(application: Option<&str>, profile: Option<&str>) -> (r: Result<
    String,
    Error,
>)
    ensures
        match r {
            Ok(dir) => exists|base: Seq<char>|
                dir@ == #[trigger] dir_path(
                    base,
                    opt_str_view(application),
                    opt_str_view(profile),
                ),
            Err(e) => e is MissingDirectory,
        },
{
    get_dir(DirType::Data, application, profile)
}

} // verus!
