//! Signal, the messenger.

use vstd::prelude::*;
use crate::applications::{image_tag, image_tag_string};
use crate::aspects::base::{is_debian, DEBIAN_DEFAULT_VERSION};
use crate::aspects::identity::is_name;
use crate::aspects::{
    no_args, no_files, no_flags, no_steps, same_contributions, Aspect, ContainerAspect,
    ContainerFile, ContainerFileView, CurrentUser, DBus, DockerfileSnippet, DockerfileSnippetView,
    Name, PulseAudio, SysAdmin, Video, X11,
};
use crate::cli::{CliInput, Flag, FlagView};
use crate::containermanager::ContainerManager;
use crate::entrypoint::{ScriptSnippet, ScriptSnippetView};
use crate::error::{Error, ErrorView};
use crate::host::HostFacts;
use crate::text::views;

verus! {

/// Signal, the messenger.
#[derive(Debug, Clone, Copy)]
pub struct Signal {}

/// The display name of [`Signal`].
pub const DISPLAY_NAME: &'static str = "signal";

/// The tag of the image.
pub const IMAGE_VERSION: &'static str = "v0";

/// The name of the application.
pub const APPLICATION: &'static str = "signal";

/// The repository of the image.
pub const REPOSITORY: &'static str = "waynr/signal";

/// The build instructions that install Signal.
pub const INSTALL: &'static str =
    r#"RUN apt-get update && apt-get install -y --no-install-recommends \
        libgtk-3-0 \
        libpango1.0-0 \
        libcanberra-gtk* \
        hicolor-icon-theme \
        libgl1-mesa-dri \
        libgl1-mesa-glx \
        libv4l-0 \
        openjdk-11-jre \
        fonts-symbola \
    && curl -sSL https://updates.signal.org/desktop/apt/keys.asc | apt-key add - \
    && echo "deb [arch=amd64] https://updates.signal.org/desktop/apt xenial main" | tee -a /etc/apt/sources.list.d/signal-xenial.list \
    && apt-get update && apt-get install -y --no-install-recommends \
        signal-desktop \
    && rm -rf /var/lib/apt/lists/* \
    && rm -rf /src/*.deb "#;

/// The build instruction that lets the sandbox of Signal start.
pub const SANDBOX: &'static str = "RUN chmod 4755 /opt/Signal/chrome-sandbox";

/// Signal's configuration directory, which is kept.
pub open spec fn configuration_dir(home: Seq<char>) -> Seq<char> {
    home
        + "/.config/Signal/"@
}

/// Renders [`configuration_dir`].
pub fn configuration_dir_string(home: &str) -> (r: String)
    ensures
        r@ == configuration_dir(home@),
{
    let mut out = String::from_str(home);
    out.append("/.config/Signal/");
    out
}

impl ContainerAspect for Signal {
    open spec fn name_spec(&self) -> Seq<char> {
        DISPLAY_NAME@
    }

    fn name(&self) -> (r: String) {
        String::from_str(DISPLAY_NAME)
    }

    open spec fn run_args_spec(&self, input: Option<&CliInput>, host: &HostFacts) -> Result<
        Seq<Seq<char>>,
        ErrorView,
    > {
        Ok(Seq::empty())
    }

    fn run_args(&self, input: Option<&CliInput>, host: &HostFacts) -> (r: Result<
        Vec<String>,
        Error,
    >) {
        no_args()
    }

    open spec fn config_args_spec(&self) -> Seq<FlagView> {
        Seq::empty()
    }

    fn config_args(&self) -> (r: Vec<Flag>) {
        no_flags()
    }

    open spec fn cli_build_args_spec(&self) -> Seq<FlagView> {
        Seq::empty()
    }

    fn cli_build_args(&self) -> (r: Vec<Flag>) {
        no_flags()
    }

    open spec fn dockerfile_spec(&self) -> Seq<DockerfileSnippetView> {
        seq![
            DockerfileSnippetView { order: 90, content: INSTALL@ },
            DockerfileSnippetView { order: 91, content: SANDBOX@ },
        ]
    }

    fn dockerfile_snippets(&self) -> (r: Vec<DockerfileSnippet>) {
        let mut snippets: Vec<DockerfileSnippet> = Vec::new();
        snippets.push(DockerfileSnippet { order: 90, content: String::from_str(INSTALL) });
        snippets.push(DockerfileSnippet { order: 91, content: String::from_str(SANDBOX) });
        assert(snippets.deep_view() =~= seq![
            DockerfileSnippetView { order: 90, content: INSTALL@ },
            DockerfileSnippetView { order: 91, content: SANDBOX@ },
        ]);
        snippets
    }

    open spec fn container_files_spec(&self) -> Seq<ContainerFileView> {
        Seq::empty()
    }

    fn container_files(&self) -> (r: Vec<ContainerFile>) {
        no_files()
    }

    open spec fn entrypoint_spec(&self, host: &HostFacts) -> Result<
        Seq<ScriptSnippetView>,
        ErrorView,
    > {
        Ok(Seq::empty())
    }

    fn entrypoint_snippets(&self, host: &HostFacts) -> (r: Result<Vec<ScriptSnippet>, Error>) {
        no_steps()
    }
}

impl Signal {
    /// This capability as an element of a capability list.
    pub fn aspect(self) -> (r: Aspect)
        ensures
            same_contributions(&*r.inner, &self),
    {
        Aspect { inner: Box::new(self) }
    }

    /// Whether `aspects` are the capabilities of the application, in the
    /// order in which they are registered: the base image, the application
    /// `own`, and what it uses of the host on behalf of `user`.
    pub open spec fn registered(aspects: Seq<Aspect>, own: &Signal, user: &CurrentUser) -> bool {
        &&& aspects.len() == 9
        &&& is_debian(aspects[0], DEBIAN_DEFAULT_VERSION@)
        &&& same_contributions(&*aspects[1].inner, own)
        &&& is_name(aspects[2], APPLICATION@)
        &&& same_contributions(&*aspects[3].inner, &PulseAudio {})
        &&& same_contributions(&*aspects[4].inner, user)
        &&& same_contributions(&*aspects[5].inner, &X11 {})
        &&& same_contributions(&*aspects[6].inner, &Video {})
        &&& same_contributions(&*aspects[7].inner, &DBus {})
        &&& same_contributions(&*aspects[8].inner, &SysAdmin {})
    }

    /// The manager of the application for the user `user`, whose home
    /// directory is `home`. The files of the invocation
    /// are kept in `tempdir`.
    pub fn container_manager(
        home: &str,
        user: CurrentUser,
        tempdir: String,
    ) -> (r: Result<ContainerManager, Error>)
        ensures
            r is Ok,
            r->Ok_0.name_view() == APPLICATION@,
            r->Ok_0.tags_view() == seq![image_tag(REPOSITORY@, IMAGE_VERSION@)],
            views(r->Ok_0.container_paths_view()) == seq![configuration_dir(home@)],
            r->Ok_0.args_view() == seq!["/opt/Signal/signal-desktop"@],
            r->Ok_0.tempdir_view() == tempdir@,
            exists|own: Signal| #[trigger] Self::registered(r->Ok_0.aspects(), &own, &user),
    {
        let own = Signal {};
        let ghost own_value = own;
        let mut aspects: Vec<Aspect> = Vec::new();
        aspects.push(own.aspect());
        let name = Name(String::from_str(APPLICATION));
        let ghost name_value = name;
        aspects.push(name.aspect());
        aspects.push(PulseAudio {}.aspect());
        aspects.push(user.aspect());
        aspects.push(X11 {}.aspect());
        aspects.push(Video {}.aspect());
        aspects.push(DBus {}.aspect());
        aspects.push(SysAdmin {}.aspect());
        let mut tags: Vec<String> = Vec::new();
        tags.push(image_tag_string(REPOSITORY, IMAGE_VERSION));
        let mut container_paths: Vec<String> = Vec::new();
        container_paths.push(configuration_dir_string(home));
        let ghost kept = container_paths@;
        let mut args: Vec<String> = Vec::new();
        args.push(String::from_str("/opt/Signal/signal-desktop"));
        proof {
            assert(tags.deep_view() =~= seq![image_tag(REPOSITORY@, IMAGE_VERSION@)]);
            assert(args.deep_view() =~= seq!["/opt/Signal/signal-desktop"@]);
            assert(views(kept) =~= seq![configuration_dir(home@)]);
        }
        let r = ContainerManager::default_debian(
            String::from_str(APPLICATION),
            tags,
            container_paths,
            aspects,
            args,
            None,
            tempdir,
        );
        proof {
            let all = r->Ok_0.aspects();
            assert(same_contributions(&*all[2].inner, &name_value));
            assert(Self::registered(all, &own_value, &user));
        }
        r
    }
}

} // verus!
