//! thinkorswim, the trading platform.

use vstd::prelude::*;
use vstd::utf8::encode_utf8;
use crate::applications::{image_tag, image_tag_string};
use crate::aspects::base::is_debian;
use crate::aspects::identity::is_name;
use crate::aspects::{
    no_args, no_flags, no_steps, same_contributions, Aspect, ContainerAspect, ContainerFile,
    ContainerFileView, CurrentUser, DBus, DockerfileSnippet, DockerfileSnippetView, Name,
    PulseAudio, Shm, Video, X11,
};
use crate::cli::{CliInput, Flag, FlagView};
use crate::containermanager::ContainerManager;
use crate::entrypoint::{ScriptSnippet, ScriptSnippetView};
use crate::error::{Error, ErrorView};
use crate::host::HostFacts;
use crate::text::views;

verus! {

/// thinkorswim, the trading platform.
#[derive(Debug)]
pub struct Thinkorswim {
    /// The user who owns the installation inside the image.
    pub user_name: String,
    /// The launcher that the image starts.
    pub launcher: String,
}

impl Clone for Thinkorswim {
    fn clone(&self) -> (r: Self)
        ensures
            r == *self,
    {
        Thinkorswim { user_name: self.user_name.clone(), launcher: self.launcher.clone() }
    }
}

/// The display name of [`Thinkorswim`].
pub const DISPLAY_NAME: &'static str = "thinkorswim";

/// The name of the application.
pub const APPLICATION: &'static str = "thinkorswim";

/// The repository of the image.
pub const REPOSITORY: &'static str = "waynr/thinkorswim";

/// The release of Debian that the image is based on.
pub const RELEASE: &'static str = "bullseye";

/// The build instructions that install Java.
pub const JAVA: &'static str =
    r#"
RUN apt-get update && apt-get install -y --no-install-recommends \
        openjdk-11-jre \
    && rm -rf /var/lib/apt/lists/* \
    && rm -rf /src/*.deb"#;

/// Where in the build context the launcher stands.
pub const LAUNCHER_PATH: &'static str = "./opt/run-thinkorswim.sh";

/// The build instructions that download the installer and hand it to the
/// user `name`.
pub open spec fn installer(name: Seq<char>) -> Seq<char> {
    "WORKDIR /opt/\n"@
        + "ADD https://mediaserver.thinkorswim.com/installer/InstFiles/thinkorswim_installer.sh ./\n"@
        + "RUN chown -R "@
        + name
        + "."@
        + name
        + " /opt/thinkorswim_installer.sh\n"@
        + "RUN chmod u+wrx /opt/thinkorswim_installer.sh\n"@
}

/// Renders [`installer`].
pub fn installer_string(name: &str) -> (r: String)
    ensures
        r@ == installer(name@),
{
    let mut out = String::from_str("WORKDIR /opt/\n");
    out.append("ADD https://mediaserver.thinkorswim.com/installer/InstFiles/thinkorswim_installer.sh ./\n");
    out.append("RUN chown -R ");
    out.append(name);
    out.append(".");
    out.append(name);
    out.append(" /opt/thinkorswim_installer.sh\n");
    out.append("RUN chmod u+wrx /opt/thinkorswim_installer.sh\n");
    out
}

/// The build instructions that make the launcher, owned by the user `name`,
/// the entry point of the image.
pub open spec fn entry_point(name: Seq<char>) -> Seq<char> {
    "\n"@
        + "COPY ./opt/run-thinkorswim.sh /run-thinkorswim.sh\n"@
        + "RUN chown -R "@
        + name
        + "."@
        + name
        + " /run-thinkorswim.sh\n"@
        + "RUN chmod u+wrx /run-thinkorswim.sh\n"@
        + "ENTRYPOINT [\"/run-thinkorswim.sh\"]\n"@
}

/// Renders [`entry_point`].
pub fn entry_point_string(name: &str) -> (r: String)
    ensures
        r@ == entry_point(name@),
{
    let mut out = String::from_str("\n");
    out.append("COPY ./opt/run-thinkorswim.sh /run-thinkorswim.sh\n");
    out.append("RUN chown -R ");
    out.append(name);
    out.append(".");
    out.append(name);
    out.append(" /run-thinkorswim.sh\n");
    out.append("RUN chmod u+wrx /run-thinkorswim.sh\n");
    out.append("ENTRYPOINT [\"/run-thinkorswim.sh\"]\n");
    out
}

/// The directory of thinkorswim's settings, which is kept.
pub open spec fn settings_dir(home: Seq<char>) -> Seq<char> {
    home
        + "/.thinkorswim"@
}

/// Renders [`settings_dir`].
pub fn settings_dir_string(home: &str) -> (r: String)
    ensures
        r@ == settings_dir(home@),
{
    let mut out = String::from_str(home);
    out.append("/.thinkorswim");
    out
}

/// The directory of Java's settings, which is kept.
pub open spec fn java_dir(home: Seq<char>) -> Seq<char> {
    home
        + "/.java"@
}

/// Renders [`java_dir`].
pub fn java_dir_string(home: &str) -> (r: String)
    ensures
        r@ == java_dir(home@),
{
    let mut out = String::from_str(home);
    out.append("/.java");
    out
}

/// The directory of the installer's settings, which is kept.
pub open spec fn installer_dir(home: Seq<char>) -> Seq<char> {
    home
        + "/.install4j"@
}

/// Renders [`installer_dir`].
pub fn installer_dir_string(home: &str) -> (r: String)
    ensures
        r@ == installer_dir(home@),
{
    let mut out = String::from_str(home);
    out.append("/.install4j");
    out
}

/// The directory into which thinkorswim is installed, which is kept.
pub open spec fn install_dir(home: Seq<char>) -> Seq<char> {
    home
        + "/thinkorswim"@
}

/// Renders [`install_dir`].
pub fn install_dir_string(home: &str) -> (r: String)
    ensures
        r@ == install_dir(home@),
{
    let mut out = String::from_str(home);
    out.append("/thinkorswim");
    out
}

/// The directory of the login settings, which is kept.
pub open spec fn login_dir(home: Seq<char>) -> Seq<char> {
    home
        + "/.com.devexperts.tos.ui.user.login.ThinkOrSwimApplication"@
}

/// Renders [`login_dir`].
pub fn login_dir_string(home: &str) -> (r: String)
    ensures
        r@ == login_dir(home@),
{
    let mut out = String::from_str(home);
    out.append("/.com.devexperts.tos.ui.user.login.ThinkOrSwimApplication");
    out
}

/// The program that starts thinkorswim.
pub open spec fn program(home: Seq<char>) -> Seq<char> {
    home
        + "/thinkorswim/thinkorswim"@
}

/// Renders [`program`].
pub fn program_string(home: &str) -> (r: String)
    ensures
        r@ == program(home@),
{
    let mut out = String::from_str(home);
    out.append("/thinkorswim/thinkorswim");
    out
}

impl ContainerAspect for Thinkorswim {
    open spec fn name_spec(&self) -> Seq<char> {
        DISPLAY_NAME@
    }

    fn name(&self) -> (r: String) {
        String::from_str(DISPLAY_NAME)
    }

    open spec fn run_args_spec(&self, input: Option<&CliInput>, host: &HostFacts) -> Result<
        Seq<Seq<char>>,
        ErrorView,
    > {
        Ok(Seq::empty())
    }

    fn run_args(&self, input: Option<&CliInput>, host: &HostFacts) -> (r: Result<
        Vec<String>,
        Error,
    >) {
        no_args()
    }

    open spec fn config_args_spec(&self) -> Seq<FlagView> {
        Seq::empty()
    }

    fn config_args(&self) -> (r: Vec<Flag>) {
        no_flags()
    }

    open spec fn cli_build_args_spec(&self) -> Seq<FlagView> {
        Seq::empty()
    }

    fn cli_build_args(&self) -> (r: Vec<Flag>) {
        no_flags()
    }

    open spec fn dockerfile_spec(&self) -> Seq<DockerfileSnippetView> {
        seq![
            DockerfileSnippetView { order: 90, content: JAVA@ },
            DockerfileSnippetView { order: 91, content: installer(self.user_name@) },
            DockerfileSnippetView { order: 97, content: entry_point(self.user_name@) },
        ]
    }

    fn dockerfile_snippets(&self) -> (r: Vec<DockerfileSnippet>) {
        let mut snippets: Vec<DockerfileSnippet> = Vec::new();
        snippets.push(DockerfileSnippet { order: 90, content: String::from_str(JAVA) });
        snippets.push(DockerfileSnippet { order: 91, content: installer_string(self.user_name.as_str()) });
        snippets.push(DockerfileSnippet { order: 97, content: entry_point_string(self.user_name.as_str()) });
        assert(snippets.deep_view() =~= seq![
            DockerfileSnippetView { order: 90, content: JAVA@ },
            DockerfileSnippetView { order: 91, content: installer(self.user_name@) },
            DockerfileSnippetView { order: 97, content: entry_point(self.user_name@) },
        ]);
        snippets
    }

    open spec fn container_files_spec(&self) -> Seq<ContainerFileView> {
        seq![
            ContainerFileView { container_path: LAUNCHER_PATH@, contents: encode_utf8(self.launcher@) },
        ]
    }

    fn container_files(&self) -> (r: Vec<ContainerFile>) {
        let mut files: Vec<ContainerFile> = Vec::new();
        files.push(
            ContainerFile {
                container_path: String::from_str(LAUNCHER_PATH),
                contents: self.launcher.as_str().as_bytes_vec(),
            },
        );
        assert(files.deep_view() =~= seq![
            ContainerFileView { container_path: LAUNCHER_PATH@, contents: encode_utf8(self.launcher@) },
        ]);
        files
    }

    open spec fn entrypoint_spec(&self, host: &HostFacts) -> Result<
        Seq<ScriptSnippetView>,
        ErrorView,
    > {
        Ok(Seq::empty())
    }

    fn entrypoint_snippets(&self, host: &HostFacts) -> (r: Result<Vec<ScriptSnippet>, Error>) {
        no_steps()
    }
}

impl Thinkorswim {
    /// This capability as an element of a capability list.
    pub fn aspect(self) -> (r: Aspect)
        ensures
            same_contributions(&*r.inner, &self),
    {
        Aspect { inner: Box::new(self) }
    }

    /// Whether `aspects` are the capabilities of the application, in the
    /// order in which they are registered: the base image, the application
    /// `own`, and what it uses of the host on behalf of `user`.
    pub open spec fn registered(aspects: Seq<Aspect>, own: &Thinkorswim, user: &CurrentUser) -> bool {
        &&& aspects.len() == 9
        &&& is_debian(aspects[0], RELEASE@)
        &&& same_contributions(&*aspects[1].inner, own)
        &&& is_name(aspects[2], APPLICATION@)
        &&& same_contributions(&*aspects[3].inner, user)
        &&& same_contributions(&*aspects[4].inner, &PulseAudio {})
        &&& same_contributions(&*aspects[5].inner, &X11 {})
        &&& same_contributions(&*aspects[6].inner, &Video {})
        &&& same_contributions(&*aspects[7].inner, &DBus {})
        &&& same_contributions(&*aspects[8].inner, &Shm {})
    }

    /// The manager of the application for the user `user`, whose home
    /// directory is `home`, with images tagged by `version`. The files of the invocation
    /// are kept in `tempdir`.
    pub fn container_manager(
        home: &str,
        version: &str,
        user: CurrentUser,
        launcher: &str,
        tempdir: String,
    ) -> (r: Result<ContainerManager, Error>)
        ensures
            r is Ok,
            r->Ok_0.name_view() == APPLICATION@,
            r->Ok_0.tags_view() == seq![image_tag(REPOSITORY@, version@)],
            views(r->Ok_0.container_paths_view()) == seq![
                settings_dir(home@),
                java_dir(home@),
                installer_dir(home@),
                install_dir(home@),
                login_dir(home@),
            ],
            r->Ok_0.args_view() == seq![program(home@)],
            r->Ok_0.tempdir_view() == tempdir@,
            exists|own: Thinkorswim|
                {
                    &&& own.user_name@ == user.name_view()
                    &&& own.launcher@ == launcher@
                    &&& #[trigger] Self::registered(r->Ok_0.aspects(), &own, &user)
                },
    {
        let own = Thinkorswim { user_name: user.name(), launcher: String::from_str(launcher) };
        let ghost own_value = own;
        let mut aspects: Vec<Aspect> = Vec::new();
        aspects.push(own.aspect());
        let name = Name(String::from_str(APPLICATION));
        let ghost name_value = name;
        aspects.push(name.aspect());
        aspects.push(user.aspect());
        aspects.push(PulseAudio {}.aspect());
        aspects.push(X11 {}.aspect());
        aspects.push(Video {}.aspect());
        aspects.push(DBus {}.aspect());
        aspects.push(Shm {}.aspect());
        let mut tags: Vec<String> = Vec::new();
        tags.push(image_tag_string(REPOSITORY, version));
        let mut container_paths: Vec<String> = Vec::new();
        container_paths.push(settings_dir_string(home));
        container_paths.push(java_dir_string(home));
        container_paths.push(installer_dir_string(home));
        container_paths.push(install_dir_string(home));
        container_paths.push(login_dir_string(home));
        let ghost kept = container_paths@;
        let mut args: Vec<String> = Vec::new();
        args.push(program_string(home));
        proof {
            assert(tags.deep_view() =~= seq![image_tag(REPOSITORY@, version@)]);
            assert(args.deep_view() =~= seq![program(home@)]);
            assert(views(kept) =~= seq![
                settings_dir(home@),
                java_dir(home@),
                installer_dir(home@),
                install_dir(home@),
                login_dir(home@),
            ]);
        }
        let r = ContainerManager::default_debian(
            String::from_str(APPLICATION),
            tags,
            container_paths,
            aspects,
            args,
            Some(String::from_str(RELEASE)),
            tempdir,
        );
        proof {
            let all = r->Ok_0.aspects();
            assert(same_contributions(&*all[2].inner, &name_value));
            assert(Self::registered(all, &own_value, &user));
        }
        r
    }
}

} // verus!
