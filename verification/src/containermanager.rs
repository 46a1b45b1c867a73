//! The manager of one application: its capabilities, its image and its
//! data, and the operations that compose them.
//!
//! The manager decides what is to be done; doing it is left to its caller.
//! Every operation returns plain values: the text of the build
//! instructions, the bytes of the build context, the launch arguments and
//! the start-up script, or the configuration layer to write.

use vstd::prelude::*;
use vstd::utf8::encode_utf8;
use crate::archive::{bytes_result_view, pack, packed};
use crate::aspects::base::{
    is_debian, is_ubuntu, Debian, Ubuntu, DEBIAN_DEFAULT_VERSION, UBUNTU_DEFAULT_VERSION,
};
use crate::aspects::identity::{kept_paths, profile_flag, selected_profile, Profile};
use crate::aspects::settings::timezone_known;
use crate::aspects::{
    all_build_args, all_config_args, all_container_files, all_dockerfile_snippets, all_run_args,
    collect_build_args, collect_config_args, collect_container_files,
    collect_dockerfile_snippets, collect_run_args, same_contributions, Aspect, ContainerAspect,
    ContainerFile, ContainerFileView,
};
use crate::cli::{CliInput, Flag, FlagAction, FlagView};
use crate::config::{
    cli_args, cli_flags, loaded, merged, parse_config, saved, Config, ConfigView,
};
use crate::dockerfile::{dockerfile_text, render_dockerfile, DOCKERFILE};
use crate::entrypoint::{
    script, script_path, script_spec, setup, setup_spec,
    ENTRYPOINT_SETUP_SCRIPT,
};
use crate::dirs::{dir_path, joined_path};
use crate::error::{result_view, Error, ErrorView};
use crate::host::HostFacts;

verus! {

/// The manager of one application.
pub struct ContainerManager {
    name: String,
    image: String,
    other_tags: Vec<String>,
    container_paths: Vec<String>,
    aspects: Vec<Aspect>,
    args: Vec<String>,
    tempdir: String,
}

/// The start-up script as a file of the host.
#[derive(Debug)]
pub struct ScriptFile {
    /// Where the script is to be written.
    pub path: String,
    /// The text of the script. The file has to be executable by its owner.
    pub contents: String,
}

/// A [`ScriptFile`] with its texts as character sequences.
pub struct ScriptFileView {
    pub path: Seq<char>,
    pub contents: Seq<char>,
}

impl DeepView for ScriptFile {
    type V = ScriptFileView;

    open spec fn deep_view(&self) -> ScriptFileView {
        ScriptFileView { path: self.path@, contents: self.contents@ }
    }
}

/// What it takes to launch the container.
#[derive(Debug)]
pub struct Launch {
    /// The start-up script to write before the launch, where one is needed.
    pub script: Option<ScriptFile>,
    /// The arguments for the container engine's `run`.
    pub args: Vec<String>,
}

/// A [`Launch`] with its texts as character sequences.
pub struct LaunchView {
    pub script: Option<ScriptFileView>,
    pub args: Seq<Seq<char>>,
}

impl DeepView for Launch {
    type V = LaunchView;

    open spec fn deep_view(&self) -> LaunchView {
        LaunchView { script: self.script.deep_view(), args: self.args.deep_view() }
    }
}

/// What it takes to build the image.
#[derive(Debug)]
pub struct BuildRequest {
    /// The build context as an archive.
    pub archive: Vec<u8>,
    /// The name of the build instructions inside the archive.
    pub dockerfile: String,
    /// The tags to give the image.
    pub tags: Vec<String>,
}

/// The build context as a file of the host.
#[derive(Debug)]
pub struct ArchiveFile {
    /// Where the archive is to be written.
    pub path: String,
    /// The bytes of the archive.
    pub contents: Vec<u8>,
}

/// A configuration layer that is to be written.
#[derive(Debug)]
pub struct SaveRequest {
    /// The application whose layer it is.
    pub application: String,
    /// The profile whose layer it is, where it is that of a profile.
    pub profile: Option<String>,
    /// The settings to write.
    pub config: Config,
}

/// What the files of the three configuration layers hold, each `None`
/// where the file does not exist.
#[derive(Debug)]
pub struct Layers {
    /// The layer for all applications.
    pub global: Option<Config>,
    /// The layer of the application.
    pub application: Option<Config>,
    /// The layer of the selected profile of the application; `None` also
    /// where no profile is selected.
    pub profile: Option<Config>,
}

/// The mode that was selected on the command line.
#[derive(Debug, Clone, Copy, PartialEq, Eq, Structural)]
pub enum Subcommand {
    /// Run the application.
    Run,
    /// Run another command in the application's container.
    Cmd,
    /// Build the image.
    Build,
    /// Save settings.
    Config,
    /// Write the build context to a file.
    GenerateArchive,
    /// A subcommand that is not known.
    Other,
}

/// One parsed command line.
pub struct Invocation {
    /// The selected mode, where one was given.
    pub subcommand: Option<Subcommand>,
    /// The values given to the subcommand.
    pub input: CliInput,
}

/// What the caller has to do for an invocation.
#[derive(Debug)]
pub enum Action {
    /// Write the start-up script, where there is one, and launch the
    /// container.
    Launch(Launch),
    /// Hand the build context to the container engine.
    Build(BuildRequest),
    /// Write a configuration layer.
    SaveConfig(SaveRequest),
    /// Write the build context to a file.
    WriteArchive(ArchiveFile),
    /// Print how the program is used.
    Usage,
}

/// The flags of each subcommand.
#[derive(Debug)]
pub struct CommandLine {
    /// The flags of the program itself.
    pub top: Vec<Flag>,
    /// The flags of `run`.
    pub run: Vec<Flag>,
    /// The flags of `cmd`.
    pub cmd: Vec<Flag>,
    /// The flags of `build`.
    pub build: Vec<Flag>,
    /// The flags of `config`.
    pub config: Vec<Flag>,
}

/// The launch flag that removes the container when it exits.
pub const REMOVE_FLAG: &'static str = "--rm";

/// The launch flag that attaches a terminal.
pub const TERMINAL_FLAG: &'static str = "-it";

/// The command that is run where none is given.
pub const DEFAULT_COMMAND: &'static str = "/bin/bash";

/// What stands behind the application's name in the name of its archive.
pub const ARCHIVE_SUFFIX: &'static str = ".tar";

/// The name of the flag that raises the verbosity.
pub const VERBOSE_FLAG: &'static str = "verbose";

/// The name of the flag that takes the command of `cmd`.
pub const COMMAND_FLAG: &'static str = "command";

/// The help text of the flag that takes the command of `cmd`.
pub const COMMAND_HELP: &'static str = "command to run instead of default";

/// The build context: the files of all capabilities, in registration
/// order, and behind them the build instructions.
pub open spec fn context_files(aspects: Seq<Aspect>) -> Seq<ContainerFileView> {
    all_container_files(aspects).push(
        ContainerFileView {
            container_path: DOCKERFILE@,
            contents: encode_utf8(dockerfile_text(all_dockerfile_snippets(aspects))),
        },
    )
}

/// What it takes to launch the container: the error of the first
/// capability whose launch arguments fail, else that of the first whose
/// start-up steps fail, else the arguments `first`, those of the
/// capabilities, those of the start-up script, the image and `command`,
/// with the script where one is needed.
pub open spec fn launch_spec(
    first: Seq<Seq<char>>,
    aspects: Seq<Aspect>,
    input: &CliInput,
    host: &HostFacts,
    tempdir: Seq<char>,
    image: Seq<char>,
    command: Seq<Seq<char>>,
) -> Result<LaunchView, ErrorView> {
    match all_run_args(aspects, Some(input), host) {
        Err(e) => Err(e),
        Ok(own) => match setup_spec(tempdir, aspects, host) {
            Err(e) => Err(e),
            Ok(extra) => Ok(
                LaunchView {
                    script: match script_spec(aspects, host) {
                        Ok(Some(text)) => Some(
                            ScriptFileView {
                                path: joined_path(tempdir, ENTRYPOINT_SETUP_SCRIPT@),
                                contents: text,
                            },
                        ),
                        _ => None,
                    },
                    args: first + own + extra + seq![image] + command,
                },
            ),
        },
    }
}

/// The view of a result that holds a launch.
pub open spec fn launch_result_view(r: Result<Launch, Error>) -> Result<LaunchView, ErrorView> {
    match r {
        Ok(l) => Ok(l.deep_view()),
        Err(e) => Err(e.deep_view()),
    }
}

/// The flag that raises the verbosity, once for each time it is given.
pub open spec fn verbose_flag() -> FlagView {
    FlagView {
        name: VERBOSE_FLAG@,
        short: Some('v'),
        long: Some(VERBOSE_FLAG@),
        help: None,
        action: FlagAction::Counted,
        default_value: None,
        global: false,
        last: false,
        required: false,
    }
}

/// The flag that takes the command of `cmd`: the words after `--`.
pub open spec fn command_flag() -> FlagView {
    FlagView {
        name: COMMAND_FLAG@,
        short: None,
        long: None,
        help: Some(COMMAND_HELP@),
        action: FlagAction::Single,
        default_value: None,
        global: false,
        last: true,
        required: true,
    }
}

/// The command of `cmd`: the words given, else the default command.
pub open spec fn command_of(input: &CliInput) -> Seq<Seq<char>> {
    match input.command {
        Some(words) => words.deep_view(),
        None => seq![DEFAULT_COMMAND@],
    }
}

/// The layer that a save replaces: that of the selected profile, or that
/// of the application where no profile is selected.
pub open spec fn saved_layer(layers: &Layers, input: &CliInput) -> Option<ConfigView> {
    if input.profile is Some {
        layers.profile.deep_view()
    } else {
        layers.application.deep_view()
    }
}

/// Whether the timezone database knows the timezone of the command line.
pub open spec fn input_timezone_known(input: &CliInput) -> bool {
    input.timezone is Some && timezone_known(input.timezone->0@)
}

/// The capability list once the configuration is loaded: the settings of
/// the three layers and, over them, those of the command line, follow the
/// capabilities that were registered.
pub open spec fn with_config(
    before: Seq<Aspect>,
    after: Seq<Aspect>,
    layers: &Layers,
    given: ConfigView,
) -> bool {
    &&& before.len() <= after.len()
    &&& after.take(before.len() as int) == before
    &&& exists|config: Config|
        {
            &&& config.deep_view() == merged(
                loaded(
                    layers.global.deep_view(),
                    layers.application.deep_view(),
                    layers.profile.deep_view(),
                ),
                given,
                false,
            )
            &&& #[trigger] config.has_aspects(after.skip(before.len() as int))
        }
}

/// Whether the first of `aspects` is the profile capability of the
/// application `name` with the kept directories `container_paths`.
pub open spec fn profile_first(
    aspects: Seq<Aspect>,
    name: Seq<char>,
    container_paths: Seq<String>,
) -> bool {
    &&& aspects.len() > 0
    &&& exists|p: Profile|
        {
            &&& p.name@ == name
            &&& p.container_paths@ == container_paths
            &&& #[trigger] same_contributions(&*aspects[0].inner, &p)
        }
}

/// Composing is deterministic: capability lists that contribute the same
/// blocks and the same files give the same build instructions, the same
/// build context and the same archive, or the same refusal, however often
/// they are composed.
pub proof fn lemma_compose_deterministic(first: Seq<Aspect>, second: Seq<Aspect>)
    requires
        all_dockerfile_snippets(first) == all_dockerfile_snippets(second),
        all_container_files(first) == all_container_files(second),
    ensures
        dockerfile_text(all_dockerfile_snippets(first)) == dockerfile_text(
            all_dockerfile_snippets(second),
        ),
        context_files(first) == context_files(second),
        packed(context_files(first)) == packed(context_files(second)),
{
}

/// Assembles a launch.
fn launch(
    first: Vec<String>,
    aspects: &Vec<Aspect>,
    input: &CliInput,
    host: &HostFacts,
    tempdir: &str,
    image: String,
    command: Vec<String>,
) -> (r: Result<Launch, Error>)
    ensures
        launch_result_view(r) == launch_spec(
            first.deep_view(),
            aspects@,
            input,
            host,
            tempdir@,
            image@,
            command.deep_view(),
        ),
{
    let mut args = first;
    let mut command = command;
    let ghost first_view = args.deep_view();
    let ghost command_view = command.deep_view();
    let mut own = match collect_run_args(aspects, Some(input), host) {
        Ok(a) => a,
        Err(e) => {
            return Err(e);
        },
    };
    let mut extra = match setup(tempdir, aspects, host) {
        Ok(a) => a,
        Err(e) => {
            return Err(e);
        },
    };
    let text = match script(aspects, host) {
        Ok(t) => t,
        Err(e) => {
            return Err(e);
        },
    };
    let script_file = match text {
        Some(contents) => Some(ScriptFile { path: script_path(tempdir), contents }),
        None => None,
    };
    let ghost own_view = own.deep_view();
    let ghost extra_view = extra.deep_view();
    args.append(&mut own);
    args.append(&mut extra);
    args.push(image);
    args.append(&mut command);
    assert(args.deep_view() =~= first_view + own_view + extra_view + seq![image@] + command_view);
    Ok(Launch { script: script_file, args })
}

impl ContainerManager {
    /// The name of the application.
    pub closed spec fn name_view(&self) -> Seq<char> {
        self.name@
    }

    /// The tags of the image; the first is the one that is built and run.
    pub closed spec fn tags_view(&self) -> Seq<Seq<char>> {
        seq![self.image@] + self.other_tags.deep_view()
    }

    /// The directories inside the container that are kept per profile.
    pub closed spec fn container_paths_view(&self) -> Seq<String> {
        self.container_paths@
    }

    /// The capabilities, in registration order.
    pub closed spec fn aspects(&self) -> Seq<Aspect> {
        self.aspects@
    }

    /// The command that is run inside the container.
    pub closed spec fn args_view(&self) -> Seq<Seq<char>> {
        self.args.deep_view()
    }

    /// The working directory of this invocation.
    pub closed spec fn tempdir_view(&self) -> Seq<char> {
        self.tempdir@
    }

    /// Whether this manager holds the given parts.
    pub open spec fn holds(
        &self,
        name: Seq<char>,
        tags: Seq<Seq<char>>,
        container_paths: Seq<String>,
        aspects: Seq<Aspect>,
        args: Seq<Seq<char>>,
        tempdir: Seq<char>,
    ) -> bool {
        &&& self.name_view() == name
        &&& self.tags_view() == tags
        &&& self.container_paths_view() == container_paths
        &&& self.aspects() == aspects
        &&& self.args_view() == args
        &&& self.tempdir_view() == tempdir
    }

    /// Whether `other` differs from this manager in its capabilities at
    /// most.
    pub open spec fn same_but_aspects(&self, other: &ContainerManager) -> bool {
        &&& self.name_view() == other.name_view()
        &&& self.tags_view() == other.tags_view()
        &&& self.container_paths_view() == other.container_paths_view()
        &&& self.args_view() == other.args_view()
        &&& self.tempdir_view() == other.tempdir_view()
    }

    /// Whether `r` is what the given mode asks of this manager, whose
    /// capabilities are complete: the launch for `run` and `cmd`, the build
    /// context for `build` and `generate-archive`, the layer to write for
    /// `config`, where `given` are the settings of the command line and
    /// `stored` is what the layer's file holds.
    pub open spec fn answers(
        &self,
        mode: Subcommand,
        input: &CliInput,
        host: &HostFacts,
        stored: Option<ConfigView>,
        given: ConfigView,
        r: Result<Action, Error>,
    ) -> bool {
        match mode {
            Subcommand::Run => match launch_spec(
                seq![REMOVE_FLAG@],
                self.aspects(),
                input,
                host,
                self.tempdir_view(),
                self.tags_view()[0],
                self.args_view(),
            ) {
                Ok(l) => r matches Ok(Action::Launch(x)) && x.deep_view() == l,
                Err(e) => r is Err && r->Err_0.deep_view() == e,
            },
            Subcommand::Cmd => match launch_spec(
                seq![TERMINAL_FLAG@, REMOVE_FLAG@],
                self.aspects(),
                input,
                host,
                self.tempdir_view(),
                self.tags_view()[0],
                command_of(input),
            ) {
                Ok(l) => r matches Ok(Action::Launch(x)) && x.deep_view() == l,
                Err(e) => r is Err && r->Err_0.deep_view() == e,
            },
            Subcommand::Build => match packed(context_files(self.aspects())) {
                Ok(bytes) => {
                    &&& r matches Ok(Action::Build(b))
                    &&& b.archive@ == bytes
                    &&& b.dockerfile@ == DOCKERFILE@
                    &&& b.tags.deep_view() == self.tags_view()
                },
                Err(e) => r is Err && r->Err_0.deep_view() == e,
            },
            Subcommand::GenerateArchive => match packed(context_files(self.aspects())) {
                Ok(bytes) => {
                    &&& r matches Ok(Action::WriteArchive(f))
                    &&& f.contents@ == bytes
                    &&& f.path@ == self.name_view() + ARCHIVE_SUFFIX@
                },
                Err(e) => r is Err && r->Err_0.deep_view() == e,
            },
            Subcommand::Config => {
                &&& r matches Ok(Action::SaveConfig(s))
                &&& s.application@ == self.name_view()
                &&& s.profile.deep_view() == input.profile.deep_view()
                &&& s.config.deep_view() == saved(stored, given)
            },
            Subcommand::Other => r matches Ok(Action::Usage),
        }
    }

    /// The manager of the application `name` with the given image tags,
    /// kept directories, capabilities and command, which keeps the files of
    /// this invocation in the working directory `tempdir`.
    pub fn default(
        name: String,
        tags: Vec<String>,
        container_paths: Vec<String>,
        aspects: Vec<Aspect>,
        args: Vec<String>,
        tempdir: String,
    ) -> (r: Result<ContainerManager, Error>)
        requires
            tags@.len() > 0,
        ensures
            r is Ok,
            r->Ok_0.holds(
                name@,
                tags.deep_view(),
                container_paths@,
                aspects@,
                args.deep_view(),
                tempdir@,
            ),
    {
        let mut other_tags = tags;
        let ghost all = other_tags.deep_view();
        let image = other_tags.remove(0);
        assert(seq![image@] + other_tags.deep_view() =~= all);
        Ok(ContainerManager { name, image, other_tags, container_paths, aspects, args, tempdir })
    }

    /// A manager whose image is based on Debian: the capability for the
    /// release `version`, or for the default release, is registered before
    /// the given capabilities.
    pub fn default_debian(
        name: String,
        tags: Vec<String>,
        container_paths: Vec<String>,
        aspects: Vec<Aspect>,
        args: Vec<String>,
        version: Option<String>,
        tempdir: String,
    ) -> (r: Result<ContainerManager, Error>)
        requires
            tags@.len() > 0,
        ensures
            r is Ok,
            r->Ok_0.name_view() == name@,
            r->Ok_0.tags_view() == tags.deep_view(),
            r->Ok_0.container_paths_view() == container_paths@,
            r->Ok_0.args_view() == args.deep_view(),
            r->Ok_0.tempdir_view() == tempdir@,
            r->Ok_0.aspects().len() == aspects@.len() + 1,
            forall|i: int|
                1 <= i < r->Ok_0.aspects().len() ==> #[trigger] r->Ok_0.aspects()[i] == aspects@[i - 1],
            is_debian(
                r->Ok_0.aspects()[0],
                match version {
                    Some(v) => v@,
                    None => DEBIAN_DEFAULT_VERSION@,
                },
            ),
    {
        let release = match version {
            None => String::from_str(DEBIAN_DEFAULT_VERSION),
            Some(s) => s,
        };
        let mut aspects = aspects;
        let ghost given = aspects@;
        let ghost chosen = release;
        let base = Debian { version: release }.aspect();
        let ghost first = base;
        aspects.insert(0, base);
        proof {
            assert forall|i: int| 1 <= i < aspects@.len() implies #[trigger] aspects@[i] == given[i
                - 1] by {}
            assert(aspects@[0] == first);
            assert(same_contributions(&*aspects@[0].inner, &Debian { version: chosen }));
        }
        ContainerManager::default(name, tags, container_paths, aspects, args, tempdir)
    }

    /// A manager whose image is based on Ubuntu: the capability for the
    /// release `version`, or for the default release, is registered before
    /// the given capabilities.
    pub fn default_ubuntu(
        name: String,
        tags: Vec<String>,
        container_paths: Vec<String>,
        aspects: Vec<Aspect>,
        args: Vec<String>,
        version: Option<String>,
        tempdir: String,
    ) -> (r: Result<ContainerManager, Error>)
        requires
            tags@.len() > 0,
        ensures
            r is Ok,
            r->Ok_0.name_view() == name@,
            r->Ok_0.tags_view() == tags.deep_view(),
            r->Ok_0.container_paths_view() == container_paths@,
            r->Ok_0.args_view() == args.deep_view(),
            r->Ok_0.tempdir_view() == tempdir@,
            r->Ok_0.aspects().len() == aspects@.len() + 1,
            forall|i: int|
                1 <= i < r->Ok_0.aspects().len() ==> #[trigger] r->Ok_0.aspects()[i] == aspects@[i - 1],
            is_ubuntu(
                r->Ok_0.aspects()[0],
                match version {
                    Some(v) => v@,
                    None => UBUNTU_DEFAULT_VERSION@,
                },
            ),
    {
        let release = match version {
            None => String::from_str(UBUNTU_DEFAULT_VERSION),
            Some(s) => s,
        };
        let mut aspects = aspects;
        let ghost given = aspects@;
        let ghost chosen = release;
        let base = Ubuntu { version: release }.aspect();
        let ghost first = base;
        aspects.insert(0, base);
        proof {
            assert forall|i: int| 1 <= i < aspects@.len() implies #[trigger] aspects@[i] == given[i
                - 1] by {}
            assert(aspects@[0] == first);
            assert(same_contributions(&*aspects@[0].inner, &Ubuntu { version: chosen }));
        }
        ContainerManager::default(name, tags, container_paths, aspects, args, tempdir)
    }

    /// The name of the application.
    pub fn name(&self) -> (r: String)
        ensures
            r@ == self.name_view(),
    {
        self.name.clone()
    }

    /// The image that is built and run: the first tag.
    pub fn image(&self) -> (r: String)
        ensures
            self.tags_view().len() > 0,
            r@ == self.tags_view()[0],
    {
        self.image.clone()
    }

    /// The build instructions, composed of the blocks of all capabilities.
    pub fn dockerfile(&self) -> (r: String)
        ensures
            r@ == dockerfile_text(all_dockerfile_snippets(self.aspects())),
    {
        let snippets = collect_dockerfile_snippets(&self.aspects);
        render_dockerfile(&snippets)
    }

    /// The files of the build context: those of all capabilities, in
    /// registration order, and behind them the build instructions.
    pub fn build_context(&self) -> (r: Vec<ContainerFile>)
        ensures
            r.deep_view() == context_files(self.aspects()),
    {
        let mut files = collect_container_files(&self.aspects);
        let ghost before = files.deep_view();
        let text = self.dockerfile();
        let file = ContainerFile {
            container_path: String::from_str(DOCKERFILE),
            contents: text.as_str().as_bytes_vec(),
        };
        let ghost fv = file.deep_view();
        files.push(file);
        assert(files.deep_view() =~= before.push(fv));
        files
    }

    /// The build context as an archive: the archive of exactly the files
    /// of the build context wherever the archive builder takes the path of
    /// each of them, else the error of the refused file.
    pub fn generate_archive_impl(&self) -> (r: Result<Vec<u8>, Error>)
        ensures
            bytes_result_view(r) == packed(context_files(self.aspects())),
    {
        let files = self.build_context();
        pack(&files)
    }

    /// The build context as a file named after the application, for
    /// inspection.
    pub fn generate_archive(&self) -> (r: Result<ArchiveFile, Error>)
        ensures
            match packed(context_files(self.aspects())) {
                Ok(bytes) => {
                    &&& r is Ok
                    &&& r->Ok_0.contents@ == bytes
                    &&& r->Ok_0.path@ == self.name_view() + ARCHIVE_SUFFIX@
                },
                Err(e) => r is Err && r->Err_0.deep_view() == e,
            },
    {
        let contents = match self.generate_archive_impl() {
            Ok(a) => a,
            Err(e) => {
                return Err(e);
            },
        };
        let mut path = self.name.clone();
        path.append(ARCHIVE_SUFFIX);
        Ok(ArchiveFile { path, contents })
    }

    /// What it takes to build the image: the build context as an archive,
    /// the name of the build instructions in it, and the tags.
    pub fn build(&self) -> (r: Result<BuildRequest, Error>)
        ensures
            match packed(context_files(self.aspects())) {
                Ok(bytes) => {
                    &&& r is Ok
                    &&& r->Ok_0.archive@ == bytes
                    &&& r->Ok_0.dockerfile@ == DOCKERFILE@
                    &&& r->Ok_0.tags.deep_view() == self.tags_view()
                },
                Err(e) => r is Err && r->Err_0.deep_view() == e,
            },
    {
        let archive = match self.generate_archive_impl() {
            Ok(a) => a,
            Err(e) => {
                return Err(e);
            },
        };
        let mut tags: Vec<String> = Vec::new();
        tags.push(self.image.clone());
        let mut others = self.other_tags.clone();
        let ghost rest = others.deep_view();
        assert(rest =~= self.other_tags.deep_view());
        tags.append(&mut others);
        assert(tags.deep_view() =~= seq![self.image@] + rest);
        Ok(BuildRequest { archive, dockerfile: String::from_str(DOCKERFILE), tags })
    }

    /// What it takes to run the application: the flag that removes the
    /// container on exit, the arguments of the capabilities, those of the
    /// start-up script, the image and the application's command.
    pub fn run(&self, input: &CliInput, host: &HostFacts) -> (r: Result<Launch, Error>)
        ensures
            self.tags_view().len() > 0,
            launch_result_view(r) == launch_spec(
                seq![REMOVE_FLAG@],
                self.aspects(),
                input,
                host,
                self.tempdir_view(),
                self.tags_view()[0],
                self.args_view(),
            ),
    {
        let mut first: Vec<String> = Vec::new();
        first.push(String::from_str(REMOVE_FLAG));
        assert(first.deep_view() =~= seq![REMOVE_FLAG@]);
        let command = self.args.clone();
        assert(command.deep_view() =~= self.args.deep_view());
        launch(
            first,
            &self.aspects,
            input,
            host,
            self.tempdir.as_str(),
            self.image(),
            command,
        )
    }

    /// What it takes to run another command in the application's
    /// container: as for [`ContainerManager::run`], with a terminal
    /// attached and the command of the command line, or a shell, in place
    /// of the application's.
    pub fn cmd(&self, input: &CliInput, host: &HostFacts) -> (r: Result<Launch, Error>)
        ensures
            self.tags_view().len() > 0,
            launch_result_view(r) == launch_spec(
                seq![TERMINAL_FLAG@, REMOVE_FLAG@],
                self.aspects(),
                input,
                host,
                self.tempdir_view(),
                self.tags_view()[0],
                command_of(input),
            ),
    {
        let mut first: Vec<String> = Vec::new();
        first.push(String::from_str(TERMINAL_FLAG));
        first.push(String::from_str(REMOVE_FLAG));
        assert(first.deep_view() =~= seq![TERMINAL_FLAG@, REMOVE_FLAG@]);
        let command = match &input.command {
            Some(words) => {
                let copy = words.clone();
                assert(copy.deep_view() =~= words.deep_view());
                copy
            },
            None => {
                let mut shell: Vec<String> = Vec::new();
                shell.push(String::from_str(DEFAULT_COMMAND));
                assert(shell.deep_view() =~= seq![DEFAULT_COMMAND@]);
                shell
            },
        };
        launch(
            first,
            &self.aspects,
            input,
            host,
            self.tempdir.as_str(),
            self.image(),
            command,
        )
    }

    /// The directories of the host in which the selected profile keeps the
    /// application's data, in the order of the kept directories: the same
    /// as the profile capability mounts. They have to exist before the
    /// container is launched. Fails where the host has no data directory.
    pub fn profile_directories(&self, input: &CliInput, host: &HostFacts) -> (r: Result<
        Vec<String>,
        Error,
    >)
        ensures
            result_view(r) == match host.data_dir {
                Some(base) => Ok::<Seq<Seq<char>>, ErrorView>(
                    kept_paths(
                        dir_path(
                            base@,
                            Some(self.name_view()),
                            Some(selected_profile(Some(input))),
                        ),
                        self.container_paths_view(),
                    ),
                ),
                None => Err(ErrorView::MissingDirectory),
            },
    {
        let kept = self.container_paths.clone();
        assert(kept@ =~= self.container_paths@);
        let profile = Profile { name: self.name.clone(), container_paths: kept };
        profile.host_paths(Some(input), host)
    }

    /// The configuration layer to write when the settings of the command
    /// line are saved for this application and the profile of the command
    /// line, given what the layer's file holds. Malformed settings are
    /// refused and nothing is to be written.
    pub fn config(&self, input: &CliInput, stored: Option<Config>) -> (r: Result<
        SaveRequest,
        Error,
    >)
        ensures
            match parse_config(input, input_timezone_known(input)) {
                Ok(given) => {
                    &&& r is Ok
                    &&& r->Ok_0.application@ == self.name_view()
                    &&& r->Ok_0.profile.deep_view() == input.profile.deep_view()
                    &&& r->Ok_0.config.deep_view() == saved(stored.deep_view(), given)
                },
                Err(e) => r is Err && r->Err_0.deep_view() == e,
            },
    {
        let cfg = match Config::try_from(input) {
            Ok(c) => c,
            Err(e) => {
                return Err(e);
            },
        };
        let profile = match &input.profile {
            Some(p) => Some(p.clone()),
            None => None,
        };
        Ok(SaveRequest { application: self.name.clone(), profile, config: cfg.save(stored) })
    }

    /// Registers, behind the capabilities that are there, those of the
    /// settings in effect: the three layers merged, and over them the
    /// settings of the command line. Malformed settings on the command
    /// line are refused and nothing is registered.
    pub fn load_config(&mut self, input: &CliInput, layers: Layers) -> (r: Result<(), Error>)
        ensures
            old(self).same_but_aspects(final(self)),
            match parse_config(input, input_timezone_known(input)) {
                Ok(given) => r is Ok && with_config(
                    old(self).aspects(),
                    final(self).aspects(),
                    &layers,
                    given,
                ),
                Err(e) => r is Err && r->Err_0.deep_view() == e && final(self).aspects() == old(
                    self,
                ).aspects(),
            },
    {
        let ghost before = self.aspects@;
        let ghost views = (
            layers.global.deep_view(),
            layers.application.deep_view(),
            layers.profile.deep_view(),
        );
        let cli_cfg = match Config::try_from(input) {
            Ok(c) => c,
            Err(e) => {
                return Err(e);
            },
        };
        let Layers { global, application, profile } = layers;
        let cfg = Config::load(global, application, profile);
        let effective = cfg.merge(&cli_cfg, false);
        let mut extra = effective.get_aspects();
        let ghost added = extra@;
        self.aspects.append(&mut extra);
        proof {
            assert(self.aspects@.take(before.len() as int) =~= before);
            assert(self.aspects@.skip(before.len() as int) =~= added);
            assert(effective.has_aspects(self.aspects@.skip(before.len() as int)));
        }
        Ok(())
    }

    /// The flags of each subcommand: those of the settings, and those of
    /// the profile capability and of the registered capabilities, in
    /// registration order.
    pub fn cli(&self) -> (r: CommandLine)
        ensures
            r.top.deep_view() == seq![verbose_flag()],
            r.run.deep_view() == cli_flags() + seq![profile_flag()] + all_config_args(
                self.aspects(),
            ),
            r.cmd.deep_view() == cli_flags() + seq![command_flag()] + seq![profile_flag()]
                + all_config_args(self.aspects()),
            r.build.deep_view() == all_build_args(self.aspects()),
            r.config.deep_view() == cli_flags() + seq![profile_flag()] + all_config_args(
                self.aspects(),
            ),
    {
        let profile = Profile { name: self.name.clone(), container_paths: Vec::new() };
        let mut top: Vec<Flag> = Vec::new();
        top.push(
            Flag {
                name: String::from_str(VERBOSE_FLAG),
                short: Some('v'),
                long: Some(String::from_str(VERBOSE_FLAG)),
                help: None,
                action: FlagAction::Counted,
                default_value: None,
                global: false,
                last: false,
                required: false,
            },
        );
        assert(top.deep_view() =~= seq![verbose_flag()]);

        let mut run = cli_args();
        let ghost settings = run.deep_view();
        let mut own = profile.config_args();
        let mut more = collect_config_args(&self.aspects);
        let ghost rest = more.deep_view();
        run.append(&mut own);
        run.append(&mut more);
        assert(run.deep_view() =~= settings + seq![profile_flag()] + rest);

        let mut cmd = cli_args();
        cmd.push(
            Flag {
                name: String::from_str(COMMAND_FLAG),
                short: None,
                long: None,
                help: Some(String::from_str(COMMAND_HELP)),
                action: FlagAction::Single,
                default_value: None,
                global: false,
                last: true,
                required: true,
            },
        );
        let mut own = profile.config_args();
        let mut more = collect_config_args(&self.aspects);
        cmd.append(&mut own);
        cmd.append(&mut more);
        assert(cmd.deep_view() =~= settings + seq![command_flag()] + seq![profile_flag()] + rest);

        let mut build = profile.cli_build_args();
        let mut more = collect_build_args(&self.aspects);
        let ghost build_rest = more.deep_view();
        build.append(&mut more);
        assert(build.deep_view() =~= build_rest);

        let mut config = cli_args();
        let mut own = profile.config_args();
        let mut more = collect_config_args(&self.aspects);
        config.append(&mut own);
        config.append(&mut more);
        assert(config.deep_view() =~= settings + seq![profile_flag()] + rest);

        CommandLine { top, run, cmd, build, config }
    }

    /// Handles one invocation, given what the files of the configuration
    /// layers hold and the facts about the host.
    ///
    /// The profile capability is registered before all others. Without a
    /// subcommand only the usage is to be printed. With one, the
    /// capabilities of the settings in effect are registered behind the
    /// others, and the selected mode is answered; settings on the command
    /// line that are malformed fail the invocation before anything else is
    /// composed.
    pub fn execute(&mut self, invocation: &Invocation, layers: Layers, host: &HostFacts) -> (r:
        Result<Action, Error>)
        ensures
            old(self).same_but_aspects(final(self)),
            profile_first(
                final(self).aspects(),
                old(self).name_view(),
                old(self).container_paths_view(),
            ),
            match invocation.subcommand {
                None => {
                    &&& r matches Ok(Action::Usage)
                    &&& final(self).aspects().drop_first() == old(self).aspects()
                },
                Some(mode) => match parse_config(
                    &invocation.input,
                    input_timezone_known(&invocation.input),
                ) {
                    Err(e) => {
                        &&& r is Err
                        &&& r->Err_0.deep_view() == e
                        &&& final(self).aspects().drop_first() == old(self).aspects()
                    },
                    Ok(given) => {
                        &&& with_config(
                            old(self).aspects(),
                            final(self).aspects().drop_first(),
                            &layers,
                            given,
                        )
                        &&& final(self).answers(
                            mode,
                            &invocation.input,
                            host,
                            saved_layer(&layers, &invocation.input),
                            given,
                            r,
                        )
                    },
                },
            },
    {
        let ghost registered = self.aspects@;
        let kept = self.container_paths.clone();
        assert(kept@ =~= self.container_paths@);
        let profile = Profile { name: self.name.clone(), container_paths: kept };
        let ghost p = profile;
        let own = profile.aspect();
        let ghost first = own;
        self.aspects.insert(0, own);
        proof {
            assert(self.aspects@[0] == first);
            assert(same_contributions(&*self.aspects@[0].inner, &p));
            assert(self.aspects@.drop_first() =~= registered);
        }
        let mode = match invocation.subcommand {
            Some(m) => m,
            None => {
                return Ok(Action::Usage);
            },
        };
        let replaced = if invocation.input.profile.is_some() {
            &layers.profile
        } else {
            &layers.application
        };
        let stored = match replaced {
            Some(c) => Some(c.clone()),
            None => None,
        };
        let ghost with_profile = self.aspects@;
        match self.load_config(&invocation.input, layers) {
            Ok(_) => {},
            Err(e) => {
                return Err(e);
            },
        }
        proof {
            let given = parse_config(&invocation.input, input_timezone_known(&invocation.input))->Ok_0;
            let after = self.aspects@;
            assert(after.take(with_profile.len() as int) == with_profile);
            assert(after[0] == with_profile[0]);
            assert(after.drop_first().take(registered.len() as int) =~= registered);
            assert(after.drop_first().skip(registered.len() as int) =~= after.skip(
                with_profile.len() as int,
            ));
            assert(same_contributions(&*self.aspects@[0].inner, &p));
        }
        match mode {
            Subcommand::Run => match self.run(&invocation.input, host) {
                Ok(l) => Ok(Action::Launch(l)),
                Err(e) => Err(e),
            },
            Subcommand::Cmd => match self.cmd(&invocation.input, host) {
                Ok(l) => Ok(Action::Launch(l)),
                Err(e) => Err(e),
            },
            Subcommand::Build => match self.build() {
                Ok(b) => Ok(Action::Build(b)),
                Err(e) => Err(e),
            },
            Subcommand::Config => match self.config(&invocation.input, stored) {
                Ok(s) => Ok(Action::SaveConfig(s)),
                Err(e) => Err(e),
            },
            Subcommand::GenerateArchive => match self.generate_archive() {
                Ok(f) => Ok(Action::WriteArchive(f)),
                Err(e) => Err(e),
            },
            Subcommand::Other => Ok(Action::Usage),
        }
    }
}

} // verus!
