//! Capabilities that decide whose container it is: the profile whose data
//! it keeps, the name it runs under and the user it runs as.

use vstd::prelude::*;
use crate::aspects::integration::VOLUME_FLAG;
use crate::aspects::settings::{mount_volume, mount_volume_string};
use crate::aspects::{
    no_args, no_files, no_flags, no_snippets, no_steps, one_step, same_contributions, two_args,
    Aspect, ContainerAspect, ContainerFile, ContainerFileView, DockerfileSnippet,
    DockerfileSnippetView,
};
use crate::cli::{CliInput, Flag, FlagAction, FlagView};
use crate::dirs::{
    dir_path, dir_under, join_path, joined_path, path_without_prefix, strip_prefix, ROOT,
};
use crate::entrypoint::{ScriptSnippet, ScriptSnippetView};
use crate::error::{result_view, Error, ErrorView};
use crate::host::{account_name, process_uid, HostFacts};
use crate::text::{decimal, decimal_string};

verus! {

/// Directories of the container that are kept, per profile, below the
/// user's data directory on the host.
#[derive(Debug)]
pub struct Profile {
    /// The application whose profiles these are.
    pub name: String,
    /// The directories inside the container that are kept.
    pub container_paths: Vec<String>,
}

/// The display name of [`Profile`] and the name of its flag.
pub const PROFILE: &'static str = "Profile";

/// The name of the flag that selects the profile.
pub const PROFILE_FLAG: &'static str = "profile";

/// The help text of the flag that selects the profile.
pub const PROFILE_HELP: &'static str = "specify the profile to use";

/// The profile that is used where none is selected.
pub const DEFAULT_PROFILE: &'static str = "default";

/// The profile that the command line selects.
pub open spec fn selected_profile(input: Option<&CliInput>) -> Seq<char> {
    match input {
        Some(i) => match i.profile {
            Some(p) => p@,
            None => DEFAULT_PROFILE@,
        },
        None => DEFAULT_PROFILE@,
    }
}

/// Where below `base` the container's directory `container_path` is kept:
/// `base` extended by the path without its root.
pub open spec fn kept_at(base: Seq<char>, container_path: Seq<char>) -> Seq<char> {
    joined_path(
        base,
        match path_without_prefix(container_path, ROOT@) {
            Some(rest) => rest,
            None => container_path,
        },
    )
}

/// Where below `base` each of the container's directories is kept.
pub open spec fn kept_paths(base: Seq<char>, container_paths: Seq<String>) -> Seq<Seq<char>> {
    Seq::new(container_paths.len(), |i: int| kept_at(base, container_paths[i]@))
}

/// The launch arguments that mount, for each of the container's
/// directories, the place where it is kept below `base`.
pub open spec fn kept_volumes(base: Seq<char>, container_paths: Seq<String>) -> Seq<Seq<char>>
    decreases container_paths.len(),
{
    if container_paths.len() == 0 {
        Seq::empty()
    } else {
        kept_volumes(base, container_paths.drop_last()).push(VOLUME_FLAG@).push(
            mount_volume(kept_at(base, container_paths.last()@), container_paths.last()@),
        )
    }
}

/// The flag that selects the profile.
pub open spec fn profile_flag() -> FlagView {
    FlagView {
        name: PROFILE_FLAG@,
        short: Some('p'),
        long: Some(PROFILE_FLAG@),
        help: Some(PROFILE_HELP@),
        action: FlagAction::Single,
        default_value: Some(DEFAULT_PROFILE@),
        global: false,
        last: false,
        required: false,
    }
}

impl Profile {
    /// The data directory of the selected profile, or nothing where the
    /// host has no data directory.
    pub open spec fn data_dir(&self, input: Option<&CliInput>, host: &HostFacts) -> Option<
        Seq<char>,
    > {
        match host.data_dir {
            Some(base) => Some(dir_path(base@, Some(self.name@), Some(selected_profile(input)))),
            None => None,
        }
    }

    /// Computes [`Profile::data_dir`].
    fn profile_dir(&self, input: Option<&CliInput>, host: &HostFacts) -> (r: Result<
        String,
        Error,
    >)
        ensures
            match self.data_dir(input, host) {
                Some(dir) => r is Ok && r->Ok_0@ == dir,
                None => r is Err && r->Err_0.deep_view() == ErrorView::MissingDirectory,
            },
    {
        let base = match &host.data_dir {
            Some(b) => b,
            None => {
                return Err(Error::MissingDirectory);
            },
        };
        let profile: &str = match input {
            Some(i) => match &i.profile {
                Some(p) => p.as_str(),
                None => DEFAULT_PROFILE,
            },
            None => DEFAULT_PROFILE,
        };
        Ok(dir_under(base.as_str(), Some(self.name.as_str()), Some(profile)))
    }

    /// Where on the host one of the container's directories is kept below
    /// `base`.
    fn kept_path(base: &str, container_path: &str) -> (r: String)
        ensures
            r@ == kept_at(base@, container_path@),
    {
        match strip_prefix(container_path, ROOT) {
            Some(rest) => join_path(base, rest.as_str()),
            None => join_path(base, container_path),
        }
    }

    /// The directories on the host that the launch arguments mount, in the
    /// order of the container's directories. They have to exist before the
    /// container is started.
    pub fn host_paths(&self, input: Option<&CliInput>, host: &HostFacts) -> (r: Result<
        Vec<String>,
        Error,
    >)
        ensures
            result_view(r) == match self.data_dir(input, host) {
                Some(dir) => Ok::<Seq<Seq<char>>, ErrorView>(kept_paths(dir, self.container_paths@)),
                None => Err(ErrorView::MissingDirectory),
            },
    {
        let dir = match self.profile_dir(input, host) {
            Ok(d) => d,
            Err(e) => {
                return Err(e);
            },
        };
        let mut paths: Vec<String> = Vec::new();
        let mut i: usize = 0;
        while i < self.container_paths.len()
            invariant
                i <= self.container_paths@.len(),
                paths@.len() == i,
                forall|j: int|
                    0 <= j < i ==> (#[trigger] paths@[j])@ == kept_at(
                        dir@,
                        self.container_paths@[j]@,
                    ),
            decreases self.container_paths@.len() - i,
        {
            paths.push(Profile::kept_path(dir.as_str(), self.container_paths[i].as_str()));
            i += 1;
        }
        assert(paths.deep_view() =~= kept_paths(dir@, self.container_paths@));
        Ok(paths)
    }
}

impl ContainerAspect for Profile {
    open spec fn name_spec(&self) -> Seq<char> {
        PROFILE@
    }

    fn name(&self) -> (r: String) {
        String::from_str(PROFILE)
    }

    open spec fn run_args_spec(&self, input: Option<&CliInput>, host: &HostFacts) -> Result<
        Seq<Seq<char>>,
        ErrorView,
    > {
        match self.data_dir(input, host) {
            Some(dir) => Ok(kept_volumes(dir, self.container_paths@)),
            None => Err(ErrorView::MissingDirectory),
        }
    }

    fn run_args(&self, input: Option<&CliInput>, host: &HostFacts) -> (r: Result<
        Vec<String>,
        Error,
    >) {
        let dir = match self.profile_dir(input, host) {
            Ok(d) => d,
            Err(e) => {
                return Err(e);
            },
        };
        let mut args: Vec<String> = Vec::new();
        let mut i: usize = 0;
        proof {
            assert(self.container_paths@.take(0) =~= Seq::<String>::empty());
            assert(args.deep_view() =~= Seq::<Seq<char>>::empty());
        }
        while i < self.container_paths.len()
            invariant
                i <= self.container_paths@.len(),
                args.deep_view() == kept_volumes(dir@, self.container_paths@.take(i as int)),
            decreases self.container_paths@.len() - i,
        {
            let ghost before = args.deep_view();
            let container_path = self.container_paths[i].as_str();
            let kept = Profile::kept_path(dir.as_str(), container_path);
            let volume = mount_volume_string(kept.as_str(), container_path);
            args.push(String::from_str(VOLUME_FLAG));
            args.push(volume);
            proof {
                assert(self.container_paths@.take(i + 1).drop_last() =~= self.container_paths@.take(
                    i as int,
                ));
                assert(self.container_paths@.take(i + 1).last() == self.container_paths@[i as int]);
                assert(args.deep_view() =~= before.push(VOLUME_FLAG@).push(volume@));
            }
            i += 1;
        }
        proof {
            assert(self.container_paths@.take(self.container_paths@.len() as int)
                =~= self.container_paths@);
        }
        Ok(args)
    }

    open spec fn config_args_spec(&self) -> Seq<FlagView> {
        seq![profile_flag()]
    }

    fn config_args(&self) -> (r: Vec<Flag>) {
        let mut flags: Vec<Flag> = Vec::new();
        flags.push(
            Flag {
                name: String::from_str(PROFILE_FLAG),
                short: Some('p'),
                long: Some(String::from_str(PROFILE_FLAG)),
                help: Some(String::from_str(PROFILE_HELP)),
                action: FlagAction::Single,
                default_value: Some(String::from_str(DEFAULT_PROFILE)),
                global: false,
                last: false,
                required: false,
            },
        );
        assert(flags.deep_view() =~= seq![profile_flag()]);
        flags
    }

    open spec fn cli_build_args_spec(&self) -> Seq<FlagView> {
        Seq::empty()
    }

    fn cli_build_args(&self) -> (r: Vec<Flag>) {
        no_flags()
    }

    open spec fn dockerfile_spec(&self) -> Seq<DockerfileSnippetView> {
        Seq::empty()
    }

    fn dockerfile_snippets(&self) -> (r: Vec<DockerfileSnippet>) {
        no_snippets()
    }

    open spec fn container_files_spec(&self) -> Seq<ContainerFileView> {
        Seq::empty()
    }

    fn container_files(&self) -> (r: Vec<ContainerFile>) {
        no_files()
    }

    open spec fn entrypoint_spec(&self, host: &HostFacts) -> Result<
        Seq<ScriptSnippetView>,
        ErrorView,
    > {
        Ok(Seq::empty())
    }

    fn entrypoint_snippets(&self, host: &HostFacts) -> (r: Result<Vec<ScriptSnippet>, Error>) {
        no_steps()
    }
}

impl Profile {
    /// This capability as an element of a capability list.
    pub fn aspect(self) -> (r: Aspect)
        ensures
            same_contributions(&*r.inner, &self),
    {
        Aspect { inner: Box::new(self) }
    }
}

/// The name under which the container runs, derived from the name of the
/// application.
#[derive(Debug)]
pub struct Name(pub String);

impl Clone for Name {
    fn clone(&self) -> (r: Self)
        ensures
            r == *self,
    {
        Name(self.0.clone())
    }
}

/// The display name of [`Name`].
pub const NAME: &'static str = "Name";

/// The launch flag that names the container.
pub const NAME_FLAG: &'static str = "--name";

/// The name of the flag that names the container.
pub const CONTAINER_NAME_FLAG: &'static str = "container_name";

/// The long form of the flag that names the container.
pub const CONTAINER_NAME_LONG: &'static str = "name";

/// The help text of the flag that names the container.
pub const CONTAINER_NAME_HELP: &'static str =
    "specify the name of the container to be run";

/// The name of a container that was given none.
pub const DEFAULT_CONTAINER_NAME: &'static str = "default";

/// The name of the container that runs the profile `profile` of
/// `application`.
pub open spec fn profile_container_name(application: Seq<char>, profile: Seq<char>) -> Seq<char> {
    application + "-"@ + profile
}

/// The name of the container: the one given on the command line, else the
/// one made of application and profile, else the default.
pub open spec fn container_name(application: Seq<char>, input: Option<&CliInput>) -> Seq<char> {
    match input {
        Some(i) => match i.container_name {
            Some(name) => name@,
            None => match i.profile {
                Some(profile) => profile_container_name(application, profile@),
                None => DEFAULT_CONTAINER_NAME@,
            },
        },
        None => DEFAULT_CONTAINER_NAME@,
    }
}

/// The flag that names the container.
pub open spec fn container_name_flag() -> FlagView {
    FlagView {
        name: CONTAINER_NAME_FLAG@,
        short: Some('n'),
        long: Some(CONTAINER_NAME_LONG@),
        help: Some(CONTAINER_NAME_HELP@),
        action: FlagAction::Single,
        default_value: None,
        global: true,
        last: false,
        required: false,
    }
}

/// Whether `aspect` is the [`Name`] capability of `application`.
pub open spec fn is_name(aspect: Aspect, application: Seq<char>) -> bool {
    exists|n: Name| n.0@ == application && #[trigger] same_contributions(&*aspect.inner, &n)
}

impl ContainerAspect for Name {
    open spec fn name_spec(&self) -> Seq<char> {
        NAME@
    }

    fn name(&self) -> (r: String) {
        String::from_str(NAME)
    }

    open spec fn run_args_spec(&self, input: Option<&CliInput>, host: &HostFacts) -> Result<
        Seq<Seq<char>>,
        ErrorView,
    > {
        Ok(seq![NAME_FLAG@, container_name(self.0@, input)])
    }

    fn run_args(&self, input: Option<&CliInput>, host: &HostFacts) -> (r: Result<
        Vec<String>,
        Error,
    >) {
        let mut name = String::from_str(DEFAULT_CONTAINER_NAME);
        if let Some(i) = input {
            if let Some(given) = &i.container_name {
                name = given.clone();
            } else if let Some(profile) = &i.profile {
                name = self.0.clone();
                name.append("-");
                name.append(profile.as_str());
            }
        }
        two_args(NAME_FLAG, name.as_str())
    }

    open spec fn config_args_spec(&self) -> Seq<FlagView> {
        seq![container_name_flag()]
    }

    fn config_args(&self) -> (r: Vec<Flag>) {
        let mut flags: Vec<Flag> = Vec::new();
        flags.push(
            Flag {
                name: String::from_str(CONTAINER_NAME_FLAG),
                short: Some('n'),
                long: Some(String::from_str(CONTAINER_NAME_LONG)),
                help: Some(String::from_str(CONTAINER_NAME_HELP)),
                action: FlagAction::Single,
                default_value: None,
                global: true,
                last: false,
                required: false,
            },
        );
        assert(flags.deep_view() =~= seq![container_name_flag()]);
        flags
    }

    open spec fn cli_build_args_spec(&self) -> Seq<FlagView> {
        Seq::empty()
    }

    fn cli_build_args(&self) -> (r: Vec<Flag>) {
        no_flags()
    }

    open spec fn dockerfile_spec(&self) -> Seq<DockerfileSnippetView> {
        Seq::empty()
    }

    fn dockerfile_snippets(&self) -> (r: Vec<DockerfileSnippet>) {
        no_snippets()
    }

    open spec fn container_files_spec(&self) -> Seq<ContainerFileView> {
        Seq::empty()
    }

    fn container_files(&self) -> (r: Vec<ContainerFile>) {
        no_files()
    }

    open spec fn entrypoint_spec(&self, host: &HostFacts) -> Result<
        Seq<ScriptSnippetView>,
        ErrorView,
    > {
        Ok(Seq::empty())
    }

    fn entrypoint_snippets(&self, host: &HostFacts) -> (r: Result<Vec<ScriptSnippet>, Error>) {
        no_steps()
    }
}

impl Name {
    /// This capability as an element of a capability list.
    pub fn aspect(self) -> (r: Aspect)
        ensures
            same_contributions(&*r.inner, &self),
    {
        Aspect { inner: Box::new(self) }
    }
}

/// The user of the host, who is created inside the container and runs the
/// requested command there, so that files written by the container belong
/// to the same user on the host.
#[derive(Debug)]
pub struct CurrentUser {
    name: String,
}

impl Clone for CurrentUser {
    fn clone(&self) -> (r: Self)
        ensures
            r == *self,
    {
        CurrentUser { name: self.name.clone() }
    }
}

/// The key of the start-up step of [`CurrentUser`].
pub const CREATE_USER_ORDER: u16 = 2;

/// The display name of the [`CurrentUser`] named `user`.
pub open spec fn user_display_name(user: Seq<char>) -> Seq<char> {
    "User: "@
        + user
}

/// Renders [`user_display_name`].
pub fn user_display_name_string(user: &str) -> (r: String)
    ensures
        r@ == user_display_name(user@),
{
    let mut out = String::from_str("User: ");
    out.append(user);
    out
}

/// What the start-up step of the [`CurrentUser`] named `user` does.
pub open spec fn create_user_description(user: Seq<char>) -> Seq<char> {
    "create a user named "@
        + user
}

/// Renders [`create_user_description`].
pub fn create_user_description_string(user: &str) -> (r: String)
    ensures
        r@ == create_user_description(user@),
{
    let mut out = String::from_str("create a user named ");
    out.append(user);
    out
}

/// The shell code that creates the group `group` numbered `gid` and the user
/// `user` numbered `uid`, hands the user a home directory and the data
/// directory, and leaves the user in `$USER`.
pub open spec fn create_user_code(gid: u32, group: Seq<char>, user: Seq<char>, uid: u32) -> Seq<char> {
    "addgroup --gid "@
        + decimal(gid as nat)
        + " "@
        + group
        + "\n"@
        + "useradd --home-dir /home/"@
        + user
        + " \\\n"@
        + "    --shell /bin/bash \\\n"@
        + "    --uid "@
        + decimal(uid as nat)
        + " \\\n"@
        + "    --gid "@
        + decimal(gid as nat)
        + " \\\n"@
        + "    "@
        + user
        + "\n"@
        + "\n"@
        + "# NOTE: I don't remember why this was necessary...\n"@
        + "adduser "@
        + user
        + " tty\n"@
        + "\n"@
        + "mkdir -p /data /home/"@
        + user
        + "\n"@
        + "chown "@
        + user
        + ":"@
        + group
        + " /data /home/"@
        + user
        + "\n"@
        + "\n"@
        + "cd /home/"@
        + user
        + "\n"@
        + "USER="@
        + user
}

/// Renders [`create_user_code`].
pub fn create_user_code_string(gid: u32, group: &str, user: &str, uid: u32) -> (r: String)
    ensures
        r@ == create_user_code(gid, group@, user@, uid),
{
    let mut out = String::from_str("addgroup --gid ");
    out.append(decimal_string(gid).as_str());
    out.append(" ");
    out.append(group);
    out.append("\n");
    out.append("useradd --home-dir /home/");
    out.append(user);
    out.append(" \\\n");
    out.append("    --shell /bin/bash \\\n");
    out.append("    --uid ");
    out.append(decimal_string(uid).as_str());
    out.append(" \\\n");
    out.append("    --gid ");
    out.append(decimal_string(gid).as_str());
    out.append(" \\\n");
    out.append("    ");
    out.append(user);
    out.append("\n");
    out.append("\n");
    out.append("# NOTE: I don't remember why this was necessary...\n");
    out.append("adduser ");
    out.append(user);
    out.append(" tty\n");
    out.append("\n");
    out.append("mkdir -p /data /home/");
    out.append(user);
    out.append("\n");
    out.append("chown ");
    out.append(user);
    out.append(":");
    out.append(group);
    out.append(" /data /home/");
    out.append(user);
    out.append("\n");
    out.append("\n");
    out.append("cd /home/");
    out.append(user);
    out.append("\n");
    out.append("USER=");
    out.append(user);
    out
}

/// The steps that create the host's user inside the container: an error
/// where the host has no account under the user's number, else an error
/// where it has none under the group's number.
pub open spec fn create_user_steps(own_name: Seq<char>, host: &HostFacts) -> Result<
    Seq<ScriptSnippetView>,
    ErrorView,
> {
    match host.user_name {
        None => Err(ErrorView::MissingUser(decimal(host.uid as nat))),
        Some(user) => match host.gid_account_name {
            None => Err(ErrorView::MissingGroup(decimal(host.gid as nat))),
            Some(group) => Ok(
                seq![
                    ScriptSnippetView {
                        description: create_user_description(own_name),
                        order: CREATE_USER_ORDER,
                        snippet: create_user_code(host.gid, group@, user@, host.uid),
                    },
                ],
            ),
        },
    }
}

impl CurrentUser {
    /// The user's name.
    pub closed spec fn name_view(&self) -> Seq<char> {
        self.name@
    }

    /// The user's name.
    pub fn name(&self) -> (r: String)
        ensures
            r@ == self.name_view(),
    {
        self.name.clone()
    }

    /// The user numbered `uid`, given the name of the account under that
    /// number, or its absence.
    pub fn from_lookup(uid: u32, name: Option<String>) -> (r: Result<CurrentUser, Error>)
        ensures
            match name {
                Some(n) => r is Ok && r->Ok_0.name_view() == n@,
                None => r is Err && r->Err_0.deep_view() == ErrorView::MissingUser(
                    decimal(uid as nat),
                ),
            },
    {
        match name {
            Some(n) => Ok(CurrentUser { name: n }),
            None => Err(Error::MissingUser(decimal_string(uid))),
        }
    }

    /// The user who runs the process. Fails where the host has no account
    /// under the user's number.
    pub fn detect() -> (r: Result<CurrentUser, Error>)
        ensures
            r is Err ==> r->Err_0 is MissingUser,
    {
        let uid = process_uid();
        CurrentUser::from_lookup(uid, account_name(uid))
    }
}

impl ContainerAspect for CurrentUser {
    open spec fn name_spec(&self) -> Seq<char> {
        user_display_name(self.name_view())
    }

    fn name(&self) -> (r: String) {
        user_display_name_string(self.name.as_str())
    }

    open spec fn run_args_spec(&self, input: Option<&CliInput>, host: &HostFacts) -> Result<
        Seq<Seq<char>>,
        ErrorView,
    > {
        Ok(Seq::empty())
    }

    fn run_args(&self, input: Option<&CliInput>, host: &HostFacts) -> (r: Result<
        Vec<String>,
        Error,
    >) {
        no_args()
    }

    open spec fn config_args_spec(&self) -> Seq<FlagView> {
        Seq::empty()
    }

    fn config_args(&self) -> (r: Vec<Flag>) {
        no_flags()
    }

    open spec fn cli_build_args_spec(&self) -> Seq<FlagView> {
        Seq::empty()
    }

    fn cli_build_args(&self) -> (r: Vec<Flag>) {
        no_flags()
    }

    open spec fn dockerfile_spec(&self) -> Seq<DockerfileSnippetView> {
        Seq::empty()
    }

    fn dockerfile_snippets(&self) -> (r: Vec<DockerfileSnippet>) {
        no_snippets()
    }

    open spec fn container_files_spec(&self) -> Seq<ContainerFileView> {
        Seq::empty()
    }

    fn container_files(&self) -> (r: Vec<ContainerFile>) {
        no_files()
    }

    open spec fn entrypoint_spec(&self, host: &HostFacts) -> Result<
        Seq<ScriptSnippetView>,
        ErrorView,
    > {
        create_user_steps(self.name_view(), host)
    }

    fn entrypoint_snippets(&self, host: &HostFacts) -> (r: Result<Vec<ScriptSnippet>, Error>) {
        let user = match &host.user_name {
            Some(n) => n,
            None => {
                return Err(Error::MissingUser(decimal_string(host.uid)));
            },
        };
        let group = match &host.gid_account_name {
            Some(g) => g,
            None => {
                return Err(Error::MissingGroup(decimal_string(host.gid)));
            },
        };
        one_step(
            Ok(
                ScriptSnippet {
                    description: create_user_description_string(self.name.as_str()),
                    order: CREATE_USER_ORDER,
                    snippet: create_user_code_string(
                        host.gid,
                        group.as_str(),
                        user.as_str(),
                        host.uid,
                    ),
                },
            ),
        )
    }
}

impl CurrentUser {
    /// This capability as an element of a capability list.
    pub fn aspect(self) -> (r: Aspect)
        ensures
            same_contributions(&*r.inner, &self),
    {
        Aspect { inner: Box::new(self) }
    }
}

} // verus!
