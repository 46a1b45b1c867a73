//! Capabilities that are settings of the container: mounts, limits, the
//! network mode, the locale and the timezone. Each is written as one text
//! on the command line or in a configuration layer and parsed from it.

use vstd::prelude::*;
use crate::aspects::integration::{AUDIO_GROUP, ENV_FLAG, VOLUME_FLAG};
use crate::aspects::{
    no_args, no_files, no_flags, no_snippets, no_steps, one_snippet, one_step,
    same_contributions, step_then, two_args, Aspect, ContainerAspect, ContainerFile,
    ContainerFileView, DockerfileSnippet, DockerfileSnippetView,
};
use crate::cli::{CliInput, Flag, FlagView};
use crate::entrypoint::{group_setup, group_setup_spec, ScriptSnippet, ScriptSnippetView};
use crate::error::{Error, ErrorView};
use crate::host::HostFacts;
use crate::text::{
    find, find_from, first_index, first_index_from, lemma_first_index_from, slice,
};

verus! {

/// The network mode of the container.
#[derive(Debug, PartialEq, Eq)]
pub struct Network {
    /// The mode, as the container engine names it.
    pub mode: String,
}

impl Clone for Network {
    fn clone(&self) -> (r: Self)
        ensures
            r == *self,
    {
        Network { mode: self.mode.clone() }
    }
}

/// The display name of [`Network`].
pub const NETWORK: &'static str = "Network";

/// The launch flag that sets the network mode.
pub const NETWORK_FLAG: &'static str = "--net";

impl Network {
    /// The network mode `value`. Every text is taken as a mode.
    pub fn try_from(value: &String) -> (r: Result<Network, Error>)
        ensures
            r is Ok,
            r->Ok_0.mode@ == value@,
    {
        Ok(Network { mode: value.clone() })
    }
}

impl ContainerAspect for Network {
    open spec fn name_spec(&self) -> Seq<char> {
        NETWORK@
    }

    fn name(&self) -> (r: String) {
        String::from_str(NETWORK)
    }

    open spec fn run_args_spec(&self, input: Option<&CliInput>, host: &HostFacts) -> Result<
        Seq<Seq<char>>,
        ErrorView,
    > {
        Ok(seq![NETWORK_FLAG@, self.mode@])
    }

    fn run_args(&self, input: Option<&CliInput>, host: &HostFacts) -> (r: Result<
        Vec<String>,
        Error,
    >) {
        two_args(NETWORK_FLAG, self.mode.as_str())
    }

    open spec fn config_args_spec(&self) -> Seq<FlagView> {
        Seq::empty()
    }

    fn config_args(&self) -> (r: Vec<Flag>) {
        no_flags()
    }

    open spec fn cli_build_args_spec(&self) -> Seq<FlagView> {
        Seq::empty()
    }

    fn cli_build_args(&self) -> (r: Vec<Flag>) {
        no_flags()
    }

    open spec fn dockerfile_spec(&self) -> Seq<DockerfileSnippetView> {
        Seq::empty()
    }

    fn dockerfile_snippets(&self) -> (r: Vec<DockerfileSnippet>) {
        no_snippets()
    }

    open spec fn container_files_spec(&self) -> Seq<ContainerFileView> {
        Seq::empty()
    }

    fn container_files(&self) -> (r: Vec<ContainerFile>) {
        no_files()
    }

    open spec fn entrypoint_spec(&self, host: &HostFacts) -> Result<
        Seq<ScriptSnippetView>,
        ErrorView,
    > {
        Ok(Seq::empty())
    }

    fn entrypoint_snippets(&self, host: &HostFacts) -> (r: Result<Vec<ScriptSnippet>, Error>) {
        no_steps()
    }
}

impl Network {
    /// This capability as an element of a capability list.
    pub fn aspect(self) -> (r: Aspect)
        ensures
            same_contributions(&*r.inner, &self),
    {
        Aspect { inner: Box::new(self) }
    }
}

/// The container's share of processor time.
#[derive(Debug, PartialEq, Eq)]
pub struct CPUShares(pub String);

impl Clone for CPUShares {
    fn clone(&self) -> (r: Self)
        ensures
            r == *self,
    {
        CPUShares(self.0.clone())
    }
}

/// The display name of [`CPUShares`].
pub const CPU_SHARES: &'static str = "CPUShares";

/// The launch flag that sets the share of processor time.
pub const CPU_SHARES_FLAG: &'static str = "--cpu-shares";

impl CPUShares {
    /// The share `value`. Every text is taken as a share.
    pub fn try_from(value: &String) -> (r: Result<CPUShares, Error>)
        ensures
            r is Ok,
            r->Ok_0.0@ == value@,
    {
        Ok(CPUShares(value.clone()))
    }
}

impl ContainerAspect for CPUShares {
    open spec fn name_spec(&self) -> Seq<char> {
        CPU_SHARES@
    }

    fn name(&self) -> (r: String) {
        String::from_str(CPU_SHARES)
    }

    open spec fn run_args_spec(&self, input: Option<&CliInput>, host: &HostFacts) -> Result<
        Seq<Seq<char>>,
        ErrorView,
    > {
        Ok(seq![CPU_SHARES_FLAG@, self.0@])
    }

    fn run_args(&self, input: Option<&CliInput>, host: &HostFacts) -> (r: Result<
        Vec<String>,
        Error,
    >) {
        two_args(CPU_SHARES_FLAG, self.0.as_str())
    }

    open spec fn config_args_spec(&self) -> Seq<FlagView> {
        Seq::empty()
    }

    fn config_args(&self) -> (r: Vec<Flag>) {
        no_flags()
    }

    open spec fn cli_build_args_spec(&self) -> Seq<FlagView> {
        Seq::empty()
    }

    fn cli_build_args(&self) -> (r: Vec<Flag>) {
        no_flags()
    }

    open spec fn dockerfile_spec(&self) -> Seq<DockerfileSnippetView> {
        Seq::empty()
    }

    fn dockerfile_snippets(&self) -> (r: Vec<DockerfileSnippet>) {
        no_snippets()
    }

    open spec fn container_files_spec(&self) -> Seq<ContainerFileView> {
        Seq::empty()
    }

    fn container_files(&self) -> (r: Vec<ContainerFile>) {
        no_files()
    }

    open spec fn entrypoint_spec(&self, host: &HostFacts) -> Result<
        Seq<ScriptSnippetView>,
        ErrorView,
    > {
        Ok(Seq::empty())
    }

    fn entrypoint_snippets(&self, host: &HostFacts) -> (r: Result<Vec<ScriptSnippet>, Error>) {
        no_steps()
    }
}

impl CPUShares {
    /// This capability as an element of a capability list.
    pub fn aspect(self) -> (r: Aspect)
        ensures
            same_contributions(&*r.inner, &self),
    {
        Aspect { inner: Box::new(self) }
    }
}

/// The container's memory limit.
#[derive(Debug, PartialEq, Eq)]
pub struct Memory(pub String);

impl Clone for Memory {
    fn clone(&self) -> (r: Self)
        ensures
            r == *self,
    {
        Memory(self.0.clone())
    }
}

/// The display name of [`Memory`].
pub const MEMORY: &'static str = "Memory";

/// The launch flag that sets the memory limit.
pub const MEMORY_FLAG: &'static str = "--memory";

impl Memory {
    /// The limit `value`. Every text is taken as a limit.
    pub fn try_from(value: &String) -> (r: Result<Memory, Error>)
        ensures
            r is Ok,
            r->Ok_0.0@ == value@,
    {
        Ok(Memory(value.clone()))
    }
}

impl ContainerAspect for Memory {
    open spec fn name_spec(&self) -> Seq<char> {
        MEMORY@
    }

    fn name(&self) -> (r: String) {
        String::from_str(MEMORY)
    }

    open spec fn run_args_spec(&self, input: Option<&CliInput>, host: &HostFacts) -> Result<
        Seq<Seq<char>>,
        ErrorView,
    > {
        Ok(seq![MEMORY_FLAG@, self.0@])
    }

    fn run_args(&self, input: Option<&CliInput>, host: &HostFacts) -> (r: Result<
        Vec<String>,
        Error,
    >) {
        two_args(MEMORY_FLAG, self.0.as_str())
    }

    open spec fn config_args_spec(&self) -> Seq<FlagView> {
        Seq::empty()
    }

    fn config_args(&self) -> (r: Vec<Flag>) {
        no_flags()
    }

    open spec fn cli_build_args_spec(&self) -> Seq<FlagView> {
        Seq::empty()
    }

    fn cli_build_args(&self) -> (r: Vec<Flag>) {
        no_flags()
    }

    open spec fn dockerfile_spec(&self) -> Seq<DockerfileSnippetView> {
        Seq::empty()
    }

    fn dockerfile_snippets(&self) -> (r: Vec<DockerfileSnippet>) {
        no_snippets()
    }

    open spec fn container_files_spec(&self) -> Seq<ContainerFileView> {
        Seq::empty()
    }

    fn container_files(&self) -> (r: Vec<ContainerFile>) {
        no_files()
    }

    open spec fn entrypoint_spec(&self, host: &HostFacts) -> Result<
        Seq<ScriptSnippetView>,
        ErrorView,
    > {
        Ok(Seq::empty())
    }

    fn entrypoint_snippets(&self, host: &HostFacts) -> (r: Result<Vec<ScriptSnippet>, Error>) {
        no_steps()
    }
}

impl Memory {
    /// This capability as an element of a capability list.
    pub fn aspect(self) -> (r: Aspect)
        ensures
            same_contributions(&*r.inner, &self),
    {
        Aspect { inner: Box::new(self) }
    }
}

/// A directory of the host that is mounted into the container.
#[derive(Debug, PartialEq, Eq)]
pub struct Mount {
    /// The path on the host.
    pub host_path: String,
    /// The path inside the container.
    pub container_path: String,
}

/// A [`Mount`] with its paths as character sequences.
pub struct MountView {
    pub host_path: Seq<char>,
    pub container_path: Seq<char>,
}

impl DeepView for Mount {
    type V = MountView;

    open spec fn deep_view(&self) -> MountView {
        MountView { host_path: self.host_path@, container_path: self.container_path@ }
    }
}

impl Clone for Mount {
    fn clone(&self) -> (r: Self)
        ensures
            r == *self,
    {
        Mount { host_path: self.host_path.clone(), container_path: self.container_path.clone() }
    }
}

/// The display name of [`Mount`].
pub const MOUNT: &'static str = "Mount";

/// What separates the two paths of a mount.
pub const MOUNT_SEPARATOR: char = ':';

/// The mount that `s` is written for: `s` holds exactly one separator, with
/// the host's path before it and the container's path behind it.
pub open spec fn parse_mount(s: Seq<char>) -> Option<MountView> {
    match first_index(s, MOUNT_SEPARATOR) {
        Some(i) => if first_index_from(s, MOUNT_SEPARATOR, i + 1) is None {
            Some(
                MountView {
                    host_path: s.subrange(0, i),
                    container_path: s.subrange(i + 1, s.len() as int),
                },
            )
        } else {
            None
        },
        None => None,
    }
}

/// The volume that mounts `host_path` at `container_path`.
pub open spec fn mount_volume(host_path: Seq<char>, container_path: Seq<char>) -> Seq<char> {
    host_path + ":"@ + container_path
}

/// Renders [`mount_volume`].
pub fn mount_volume_string(host_path: &str, container_path: &str) -> (r: String)
    ensures
        r@ == mount_volume(host_path@, container_path@),
{
    let mut out = String::from_str(host_path);
    out.append(":");
    out.append(container_path);
    out
}

/// A mount that was parsed from a text is written as that text again.
pub proof fn lemma_mount_round_trip(s: Seq<char>)
    requires
        parse_mount(s) is Some,
    ensures
        mount_volume(parse_mount(s)->0.host_path, parse_mount(s)->0.container_path) == s,
{
    reveal_strlit(":");
    lemma_first_index_from(s, MOUNT_SEPARATOR, 0);
    let i = first_index(s, MOUNT_SEPARATOR)->0;
    assert(s.subrange(0, i) + ":"@ + s.subrange(i + 1, s.len() as int) =~= s);
}

impl Mount {
    /// Parses a mount written as `<host path>:<container path>`. A text
    /// with no separator, or with more than one, is refused.
    pub fn try_from(value: &String) -> (r: Result<Mount, Error>)
        ensures
            match parse_mount(value@) {
                Some(m) => r is Ok && r->Ok_0.deep_view() == m,
                None => r is Err && r->Err_0.deep_view() == ErrorView::InvalidMount(value@),
            },
    {
        let s = value.as_str();
        let n: usize = s.unicode_len();
        match find(s, MOUNT_SEPARATOR) {
            Some(i) => match find_from(s, MOUNT_SEPARATOR, i + 1) {
                None => Ok(
                    Mount { host_path: slice(s, 0, i), container_path: slice(s, i + 1, n) },
                ),
                Some(_) => Err(Error::InvalidMount(value.clone())),
            },
            None => Err(Error::InvalidMount(value.clone())),
        }
    }
}

impl ContainerAspect for Mount {
    open spec fn name_spec(&self) -> Seq<char> {
        MOUNT@
    }

    fn name(&self) -> (r: String) {
        String::from_str(MOUNT)
    }

    open spec fn run_args_spec(&self, input: Option<&CliInput>, host: &HostFacts) -> Result<
        Seq<Seq<char>>,
        ErrorView,
    > {
        Ok(seq![VOLUME_FLAG@, mount_volume(self.host_path@, self.container_path@)])
    }

    fn run_args(&self, input: Option<&CliInput>, host: &HostFacts) -> (r: Result<
        Vec<String>,
        Error,
    >) {
        let volume = mount_volume_string(self.host_path.as_str(), self.container_path.as_str());
        two_args(VOLUME_FLAG, volume.as_str())
    }

    open spec fn config_args_spec(&self) -> Seq<FlagView> {
        Seq::empty()
    }

    fn config_args(&self) -> (r: Vec<Flag>) {
        no_flags()
    }

    open spec fn cli_build_args_spec(&self) -> Seq<FlagView> {
        Seq::empty()
    }

    fn cli_build_args(&self) -> (r: Vec<Flag>) {
        no_flags()
    }

    open spec fn dockerfile_spec(&self) -> Seq<DockerfileSnippetView> {
        Seq::empty()
    }

    fn dockerfile_snippets(&self) -> (r: Vec<DockerfileSnippet>) {
        no_snippets()
    }

    open spec fn container_files_spec(&self) -> Seq<ContainerFileView> {
        Seq::empty()
    }

    fn container_files(&self) -> (r: Vec<ContainerFile>) {
        no_files()
    }

    open spec fn entrypoint_spec(&self, host: &HostFacts) -> Result<
        Seq<ScriptSnippetView>,
        ErrorView,
    > {
        Ok(Seq::empty())
    }

    fn entrypoint_snippets(&self, host: &HostFacts) -> (r: Result<Vec<ScriptSnippet>, Error>) {
        no_steps()
    }
}

impl Mount {
    /// This capability as an element of a capability list.
    pub fn aspect(self) -> (r: Aspect)
        ensures
            same_contributions(&*r.inner, &self),
    {
        Aspect { inner: Box::new(self) }
    }
}

/// The locale inside the container.
///
/// The image is built with this locale. At start-up the first of the host's
/// `LC_ALL`, `LC_CTYPE` and `LANG` that is set takes its place.
#[derive(Debug, PartialEq, Eq)]
pub struct Locale {
    /// The language, such as `en`.
    pub language: String,
    /// The territory, such as `US`.
    pub territory: String,
    /// The codeset, such as `UTF-8`.
    pub codeset: String,
}

/// A [`Locale`] with its parts as character sequences.
pub struct LocaleView {
    pub language: Seq<char>,
    pub territory: Seq<char>,
    pub codeset: Seq<char>,
}

impl DeepView for Locale {
    type V = LocaleView;

    open spec fn deep_view(&self) -> LocaleView {
        LocaleView {
            language: self.language@,
            territory: self.territory@,
            codeset: self.codeset@,
        }
    }
}

impl Clone for Locale {
    fn clone(&self) -> (r: Self)
        ensures
            r == *self,
    {
        Locale {
            language: self.language.clone(),
            territory: self.territory.clone(),
            codeset: self.codeset.clone(),
        }
    }
}

/// The display name of [`Locale`].
pub const LOCALE: &'static str = "AutoLocale";

/// What the start-up step of [`Locale`] does.
pub const LOCALE_DESCRIPTION: &'static str = "set a non-default entrypoint snippet";

/// The key of the build instructions of [`Locale`] and of [`Timezone`].
pub const LOCALE_BUILD_ORDER: u8 = 88;

/// The key of the start-up step of [`Locale`].
pub const LOCALE_STEP_ORDER: u16 = 80;

/// What stands between language and territory.
pub const TERRITORY_SEPARATOR: char = '_';

/// What stands between territory and codeset.
pub const CODESET_SEPARATOR: char = '.';

/// The locale that `s` is written for: the language up to the first `_`,
/// the territory from there to the next `.`, the codeset behind it.
pub open spec fn parse_locale(s: Seq<char>) -> Option<LocaleView> {
    match first_index(s, TERRITORY_SEPARATOR) {
        Some(i) => match first_index_from(s, CODESET_SEPARATOR, i + 1) {
            Some(j) => Some(
                LocaleView {
                    language: s.subrange(0, i),
                    territory: s.subrange(i + 1, j),
                    codeset: s.subrange(j + 1, s.len() as int),
                },
            ),
            None => None,
        },
        None => None,
    }
}

/// The locale written as `<language>_<territory>.<codeset>`.
pub open spec fn locale_text(language: Seq<char>, territory: Seq<char>, codeset: Seq<char>) -> Seq<char> {
    language
        + "_"@
        + territory
        + "."@
        + codeset
}

/// Renders [`locale_text`].
pub fn locale_text_string(language: &str, territory: &str, codeset: &str) -> (r: String)
    ensures
        r@ == locale_text(language@, territory@, codeset@),
{
    let mut out = String::from_str(language);
    out.append("_");
    out.append(territory);
    out.append(".");
    out.append(codeset);
    out
}

/// The build instructions that generate the locale written as `locale` for
/// the codeset `codeset` and make it the default.
pub open spec fn locale_build_code(locale: Seq<char>, codeset: Seq<char>) -> Seq<char> {
    "RUN echo '"@
        + locale
        + " "@
        + codeset
        + "' > /etc/locale.gen\n"@
        + "RUN locale-gen\n"@
        + "RUN echo LANG=\""@
        + locale
        + "\" > /etc/default/locale\n"@
        + "ENV LANG="@
        + locale
}

/// Renders [`locale_build_code`].
pub fn locale_build_code_string(locale: &str, codeset: &str) -> (r: String)
    ensures
        r@ == locale_build_code(locale@, codeset@),
{
    let mut out = String::from_str("RUN echo '");
    out.append(locale);
    out.append(" ");
    out.append(codeset);
    out.append("' > /etc/locale.gen\n");
    out.append("RUN locale-gen\n");
    out.append("RUN echo LANG=\"");
    out.append(locale);
    out.append("\" > /etc/default/locale\n");
    out.append("ENV LANG=");
    out.append(locale);
    out
}

/// The shell code that generates the locale written as `locale` for the
/// codeset `codeset` and makes it the default.
pub open spec fn locale_step_code(locale: Seq<char>, codeset: Seq<char>) -> Seq<char> {
    "echo '"@
        + locale
        + " "@
        + codeset
        + "' > /etc/locale.gen\n"@
        + "locale-gen\n"@
        + "echo LANG=\""@
        + locale
        + "\" > /etc/default/locale\n"@
        + "export LANG="@
        + locale
}

/// Renders [`locale_step_code`].
pub fn locale_step_code_string(locale: &str, codeset: &str) -> (r: String)
    ensures
        r@ == locale_step_code(locale@, codeset@),
{
    let mut out = String::from_str("echo '");
    out.append(locale);
    out.append(" ");
    out.append(codeset);
    out.append("' > /etc/locale.gen\n");
    out.append("locale-gen\n");
    out.append("echo LANG=\"");
    out.append(locale);
    out.append("\" > /etc/default/locale\n");
    out.append("export LANG=");
    out.append(locale);
    out
}

/// The locale that takes effect at start-up: the first of the host's
/// `LC_ALL`, `LC_CTYPE` and `LANG` that is set, else `built`.
pub open spec fn effective_locale(host: &HostFacts, built: Seq<char>) -> Seq<char> {
    match host.env.lc_all {
        Some(v) => v@,
        None => match host.env.lc_ctype {
            Some(v) => v@,
            None => match host.env.lang {
                Some(v) => v@,
                None => built,
            },
        },
    }
}

/// A locale that was parsed from a text is written as that text again.
pub proof fn lemma_locale_round_trip(s: Seq<char>)
    requires
        parse_locale(s) is Some,
    ensures
        locale_text(
            parse_locale(s)->0.language,
            parse_locale(s)->0.territory,
            parse_locale(s)->0.codeset,
        ) == s,
{
    reveal_strlit("_");
    reveal_strlit(".");
    lemma_first_index_from(s, TERRITORY_SEPARATOR, 0);
    let i = first_index(s, TERRITORY_SEPARATOR)->0;
    lemma_first_index_from(s, CODESET_SEPARATOR, i + 1);
    let j = first_index_from(s, CODESET_SEPARATOR, i + 1)->0;
    assert(s.subrange(0, i) + "_"@ + s.subrange(i + 1, j) + "."@ + s.subrange(
        j + 1,
        s.len() as int,
    ) =~= s);
}

impl Locale {
    /// Parses a locale written as `<language>_<territory>.<codeset>`. A
    /// text without `_`, or without `.` behind it, is refused.
    pub fn try_from(value: &String) -> (r: Result<Locale, Error>)
        ensures
            match parse_locale(value@) {
                Some(l) => r is Ok && r->Ok_0.deep_view() == l,
                None => r is Err && r->Err_0.deep_view() == ErrorView::InvalidLocale(value@),
            },
    {
        let s = value.as_str();
        let n: usize = s.unicode_len();
        proof {
            lemma_first_index_from(s@, TERRITORY_SEPARATOR, 0);
        }
        match find(s, TERRITORY_SEPARATOR) {
            Some(i) => {
                proof {
                    lemma_first_index_from(s@, CODESET_SEPARATOR, i + 1);
                }
                match find_from(s, CODESET_SEPARATOR, i + 1) {
                    Some(j) => Ok(
                        Locale {
                            language: slice(s, 0, i),
                            territory: slice(s, i + 1, j),
                            codeset: slice(s, j + 1, n),
                        },
                    ),
                    None => Err(Error::InvalidLocale(value.clone())),
                }
            },
            None => Err(Error::InvalidLocale(value.clone())),
        }
    }

    /// The locale written as `<language>_<territory>.<codeset>`.
    pub fn text(&self) -> (r: String)
        ensures
            r@ == locale_text(self.language@, self.territory@, self.codeset@),
    {
        locale_text_string(
            self.language.as_str(),
            self.territory.as_str(),
            self.codeset.as_str(),
        )
    }
}

impl ContainerAspect for Locale {
    open spec fn name_spec(&self) -> Seq<char> {
        LOCALE@
    }

    fn name(&self) -> (r: String) {
        String::from_str(LOCALE)
    }

    open spec fn run_args_spec(&self, input: Option<&CliInput>, host: &HostFacts) -> Result<
        Seq<Seq<char>>,
        ErrorView,
    > {
        Ok(Seq::empty())
    }

    fn run_args(&self, input: Option<&CliInput>, host: &HostFacts) -> (r: Result<
        Vec<String>,
        Error,
    >) {
        no_args()
    }

    open spec fn config_args_spec(&self) -> Seq<FlagView> {
        Seq::empty()
    }

    fn config_args(&self) -> (r: Vec<Flag>) {
        no_flags()
    }

    open spec fn cli_build_args_spec(&self) -> Seq<FlagView> {
        Seq::empty()
    }

    fn cli_build_args(&self) -> (r: Vec<Flag>) {
        no_flags()
    }

    open spec fn dockerfile_spec(&self) -> Seq<DockerfileSnippetView> {
        seq![
            DockerfileSnippetView {
                order: LOCALE_BUILD_ORDER,
                content: locale_build_code(
                    locale_text(self.language@, self.territory@, self.codeset@),
                    self.codeset@,
                ),
            },
        ]
    }

    fn dockerfile_snippets(&self) -> (r: Vec<DockerfileSnippet>) {
        let locale = self.text();
        one_snippet(
            LOCALE_BUILD_ORDER,
            locale_build_code_string(locale.as_str(), self.codeset.as_str()),
        )
    }

    open spec fn container_files_spec(&self) -> Seq<ContainerFileView> {
        Seq::empty()
    }

    fn container_files(&self) -> (r: Vec<ContainerFile>) {
        no_files()
    }

    open spec fn entrypoint_spec(&self, host: &HostFacts) -> Result<
        Seq<ScriptSnippetView>,
        ErrorView,
    > {
        Ok(
            seq![
                ScriptSnippetView {
                    description: LOCALE_DESCRIPTION@,
                    order: LOCALE_STEP_ORDER,
                    snippet: locale_step_code(
                        effective_locale(
                            host,
                            locale_text(self.language@, self.territory@, self.codeset@),
                        ),
                        self.codeset@,
                    ),
                },
            ],
        )
    }

    fn entrypoint_snippets(&self, host: &HostFacts) -> (r: Result<Vec<ScriptSnippet>, Error>) {
        let locale = match &host.env.lc_all {
            Some(v) => v.clone(),
            None => match &host.env.lc_ctype {
                Some(v) => v.clone(),
                None => match &host.env.lang {
                    Some(v) => v.clone(),
                    None => self.text(),
                },
            },
        };
        one_step(
            Ok(
                ScriptSnippet {
                    description: String::from_str(LOCALE_DESCRIPTION),
                    order: LOCALE_STEP_ORDER,
                    snippet: locale_step_code_string(locale.as_str(), self.codeset.as_str()),
                },
            ),
        )
    }
}

impl Locale {
    /// This capability as an element of a capability list.
    pub fn aspect(self) -> (r: Aspect)
        ensures
            same_contributions(&*r.inner, &self),
    {
        Aspect { inner: Box::new(self) }
    }
}

/// The timezone inside the container, by its name in the timezone
/// database.
#[derive(Debug, PartialEq, Eq)]
pub struct Timezone(pub String);

impl Clone for Timezone {
    fn clone(&self) -> (r: Self)
        ensures
            r == *self,
    {
        Timezone(self.0.clone())
    }
}

/// Whether `chrono_tz::Tz::from_str` finds a timezone under `name`.
pub uninterp spec fn timezone_known(name: Seq<char>) -> bool;

/// Calls `chrono_tz::Tz::from_str`, which looks `name` up in the table of
/// timezones that the crate was built with. The contract names the outcome:
/// whether a timezone was found.
#[verifier::external_body]
pub(crate) fn is_timezone(name: &str) -> (r: bool)
    ensures
        r == timezone_known(name@),
{
    <chrono_tz::Tz as std::str::FromStr>::from_str(name).is_ok()
}

/// The display name of [`Timezone`].
pub const TIMEZONE: &'static str = "Timezone";

/// What the start-up step of [`Timezone`] does.
pub const TIMEZONE_DESCRIPTION: &'static str =
    "configure timezone based on TZ variable in host";

/// The key of the start-up step of [`Timezone`].
pub const TIMEZONE_STEP_ORDER: u16 = 60;

/// The setting that makes `timezone` the timezone of a process.
pub open spec fn timezone_variable(timezone: Seq<char>) -> Seq<char> {
    "TZ="@
        + timezone
}

/// Renders [`timezone_variable`].
pub fn timezone_variable_string(timezone: &str) -> (r: String)
    ensures
        r@ == timezone_variable(timezone@),
{
    let mut out = String::from_str("TZ=");
    out.append(timezone);
    out
}

/// The build instructions that make `tz` the timezone of the image.
pub open spec fn timezone_build_code(tz: Seq<char>) -> Seq<char> {
    "ENV TZ="@
        + tz
        + "\n"@
        + "RUN ln -snf /usr/share/zoneinfo/"@
        + tz
        + " /etc/localtime\n"@
        + "RUN echo "@
        + tz
        + " > /etc/timezone\n"@
}

/// Renders [`timezone_build_code`].
pub fn timezone_build_code_string(tz: &str) -> (r: String)
    ensures
        r@ == timezone_build_code(tz@),
{
    let mut out = String::from_str("ENV TZ=");
    out.append(tz);
    out.append("\n");
    out.append("RUN ln -snf /usr/share/zoneinfo/");
    out.append(tz);
    out.append(" /etc/localtime\n");
    out.append("RUN echo ");
    out.append(tz);
    out.append(" > /etc/timezone\n");
    out
}

/// The shell code that makes `tz` the timezone of the container.
pub open spec fn timezone_step_code(tz: Seq<char>) -> Seq<char> {
    "export TZ="@
        + tz
        + "\n"@
        + "ln -snf /usr/share/zoneinfo/"@
        + tz
        + " /etc/localtime\n"@
        + "echo "@
        + tz
        + " > /etc/timezone\n"@
}

/// Renders [`timezone_step_code`].
pub fn timezone_step_code_string(tz: &str) -> (r: String)
    ensures
        r@ == timezone_step_code(tz@),
{
    let mut out = String::from_str("export TZ=");
    out.append(tz);
    out.append("\n");
    out.append("ln -snf /usr/share/zoneinfo/");
    out.append(tz);
    out.append(" /etc/localtime\n");
    out.append("echo ");
    out.append(tz);
    out.append(" > /etc/timezone\n");
    out
}

/// The timezone that the launch arguments set: the one given on the command
/// line, else `built`.
pub open spec fn requested_timezone(input: Option<&CliInput>, built: Seq<char>) -> Seq<char> {
    match input {
        Some(i) => match i.timezone {
            Some(tz) => tz@,
            None => built,
        },
        None => built,
    }
}

/// The timezone that the start-up script sets: the host's `LC_ALL` where it
/// is set, else `built`.
pub open spec fn startup_timezone(host: &HostFacts, built: Seq<char>) -> Seq<char> {
    match host.env.lc_all {
        Some(v) => v@,
        None => built,
    }
}

impl Timezone {
    /// The timezone named `input`, given whether the timezone database
    /// knows the name: an unknown name is refused.
    pub fn from_lookup(input: &String, known: bool) -> (r: Result<Timezone, Error>)
        ensures
            known ==> r is Ok && r->Ok_0.0@ == input@,
            !known ==> r is Err && r->Err_0.deep_view() == ErrorView::InvalidTimezone(input@),
    {
        if known {
            Ok(Timezone(input.clone()))
        } else {
            Err(Error::InvalidTimezone(input.clone()))
        }
    }

    /// The timezone named `input`. A name that the timezone database does
    /// not know is refused.
    pub fn try_from(input: &String) -> (r: Result<Timezone, Error>)
        ensures
            timezone_known(input@) ==> r is Ok && r->Ok_0.0@ == input@,
            !timezone_known(input@) ==> r is Err && r->Err_0.deep_view()
                == ErrorView::InvalidTimezone(input@),
    {
        Timezone::from_lookup(input, is_timezone(input.as_str()))
    }
}

impl ContainerAspect for Timezone {
    open spec fn name_spec(&self) -> Seq<char> {
        TIMEZONE@
    }

    fn name(&self) -> (r: String) {
        String::from_str(TIMEZONE)
    }

    open spec fn run_args_spec(&self, input: Option<&CliInput>, host: &HostFacts) -> Result<
        Seq<Seq<char>>,
        ErrorView,
    > {
        Ok(seq![ENV_FLAG@, timezone_variable(requested_timezone(input, self.0@))])
    }

    fn run_args(&self, input: Option<&CliInput>, host: &HostFacts) -> (r: Result<
        Vec<String>,
        Error,
    >) {
        let requested = match input {
            Some(i) => match &i.timezone {
                Some(tz) => tz,
                None => &self.0,
            },
            None => &self.0,
        };
        let variable = timezone_variable_string(requested.as_str());
        two_args(ENV_FLAG, variable.as_str())
    }

    open spec fn config_args_spec(&self) -> Seq<FlagView> {
        Seq::empty()
    }

    fn config_args(&self) -> (r: Vec<Flag>) {
        no_flags()
    }

    open spec fn cli_build_args_spec(&self) -> Seq<FlagView> {
        Seq::empty()
    }

    fn cli_build_args(&self) -> (r: Vec<Flag>) {
        no_flags()
    }

    open spec fn dockerfile_spec(&self) -> Seq<DockerfileSnippetView> {
        seq![DockerfileSnippetView { order: LOCALE_BUILD_ORDER, content: timezone_build_code(self.0@) }]
    }

    fn dockerfile_snippets(&self) -> (r: Vec<DockerfileSnippet>) {
        one_snippet(LOCALE_BUILD_ORDER, timezone_build_code_string(self.0.as_str()))
    }

    open spec fn container_files_spec(&self) -> Seq<ContainerFileView> {
        Seq::empty()
    }

    fn container_files(&self) -> (r: Vec<ContainerFile>) {
        no_files()
    }

    open spec fn entrypoint_spec(&self, host: &HostFacts) -> Result<
        Seq<ScriptSnippetView>,
        ErrorView,
    > {
        match group_setup_spec(AUDIO_GROUP@, host) {
            Ok(step) => Ok(
                seq![
                    ScriptSnippetView {
                        description: TIMEZONE_DESCRIPTION@,
                        order: TIMEZONE_STEP_ORDER,
                        snippet: timezone_step_code(startup_timezone(host, self.0@)),
                    },
                    step,
                ],
            ),
            Err(e) => Err(e),
        }
    }

    fn entrypoint_snippets(&self, host: &HostFacts) -> (r: Result<Vec<ScriptSnippet>, Error>) {
        let tz = match &host.env.lc_all {
            Some(v) => v,
            None => &self.0,
        };
        let first = ScriptSnippet {
            description: String::from_str(TIMEZONE_DESCRIPTION),
            order: TIMEZONE_STEP_ORDER,
            snippet: timezone_step_code_string(tz.as_str()),
        };
        step_then(first, group_setup(AUDIO_GROUP, host))
    }
}

impl Timezone {
    /// This capability as an element of a capability list.
    pub fn aspect(self) -> (r: Aspect)
        ensures
            same_contributions(&*r.inner, &self),
    {
        Aspect { inner: Box::new(self) }
    }
}

} // verus!
