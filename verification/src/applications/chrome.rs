//! Chrome, the browser.

use vstd::prelude::*;
use vstd::utf8::encode_utf8;
use crate::applications::{image_tag, image_tag_string, FONT_CONFIGURATION, FONT_INSTRUCTIONS};
use crate::aspects::base::is_debian;
use crate::aspects::identity::is_name;
use crate::aspects::{
    no_args, no_flags, no_steps, same_contributions, Aspect, ContainerAspect, ContainerFile,
    ContainerFileView, CurrentUser, DBus, DockerfileSnippet, DockerfileSnippetView, Name,
    PulseAudio, Shm, SysAdmin, Video, X11,
};
use crate::cli::{CliInput, Flag, FlagView};
use crate::containermanager::ContainerManager;
use crate::entrypoint::{ScriptSnippet, ScriptSnippetView};
use crate::error::{Error, ErrorView};
use crate::host::HostFacts;
use crate::text::views;

verus! {

/// Chrome, the browser.
#[derive(Debug, Clone, Copy)]
pub struct Chrome {}

/// The display name of [`Chrome`].
pub const DISPLAY_NAME: &'static str = "Chrome";

/// The directory inside the container in which Chrome keeps its data.
pub const DATA_DIR: &'static str = "/data";

/// The name of the application.
pub const APPLICATION: &'static str = "chrome";

/// The repository of the image.
pub const REPOSITORY: &'static str = "waynr/chrome";

/// The release of Debian that the image is based on.
pub const RELEASE: &'static str = "bullseye";

/// The build instructions that install Chrome.
pub const INSTALL: &'static str =
    r#"
ADD https://dl.google.com/linux/direct/google-talkplugin_current_amd64.deb /src/google-talkplugin_current_amd64.deb
RUN apt-get update && apt-get install -y --no-install-recommends \
        libpango1.0-0 \
        libcanberra-gtk* \
        hicolor-icon-theme \
        libgl1-mesa-dri \
        libgl1-mesa-glx \
        libv4l-0 \
        openjdk-11-jre \
        fonts-symbola \
    && curl -sSL https://dl.google.com/linux/linux_signing_key.pub | apt-key add - \
    && echo "deb [arch=amd64] https://dl.google.com/linux/chrome/deb/ stable main" > /etc/apt/sources.list.d/google.list \
    && apt-get update && apt-get install -y --no-install-recommends \
        google-chrome-stable \
    && dpkg -i /src/google-talkplugin_current_amd64.deb \
    && apt-get purge --auto-remove -y curl \
    && rm -rf /var/lib/apt/lists/* \
    && rm -rf /src/*.deb"#;

/// Where in the build context the font configuration stands.
pub const FONT_CONFIGURATION_PATH: &'static str = "./etc/fonts/local.conf";

/// The user's configuration directory, which is kept.
pub open spec fn configuration_dir(home: Seq<char>) -> Seq<char> {
    home
        + "/.config"@
}

/// Renders [`configuration_dir`].
pub fn configuration_dir_string(home: &str) -> (r: String)
    ensures
        r@ == configuration_dir(home@),
{
    let mut out = String::from_str(home);
    out.append("/.config");
    out
}

impl ContainerAspect for Chrome {
    open spec fn name_spec(&self) -> Seq<char> {
        DISPLAY_NAME@
    }

    fn name(&self) -> (r: String) {
        String::from_str(DISPLAY_NAME)
    }

    open spec fn run_args_spec(&self, input: Option<&CliInput>, host: &HostFacts) -> Result<
        Seq<Seq<char>>,
        ErrorView,
    > {
        Ok(Seq::empty())
    }

    fn run_args(&self, input: Option<&CliInput>, host: &HostFacts) -> (r: Result<
        Vec<String>,
        Error,
    >) {
        no_args()
    }

    open spec fn config_args_spec(&self) -> Seq<FlagView> {
        Seq::empty()
    }

    fn config_args(&self) -> (r: Vec<Flag>) {
        no_flags()
    }

    open spec fn cli_build_args_spec(&self) -> Seq<FlagView> {
        Seq::empty()
    }

    fn cli_build_args(&self) -> (r: Vec<Flag>) {
        no_flags()
    }

    open spec fn dockerfile_spec(&self) -> Seq<DockerfileSnippetView> {
        seq![
            DockerfileSnippetView { order: 91, content: INSTALL@ },
            DockerfileSnippetView { order: 75, content: FONT_INSTRUCTIONS@ },
        ]
    }

    fn dockerfile_snippets(&self) -> (r: Vec<DockerfileSnippet>) {
        let mut snippets: Vec<DockerfileSnippet> = Vec::new();
        snippets.push(DockerfileSnippet { order: 91, content: String::from_str(INSTALL) });
        snippets.push(DockerfileSnippet { order: 75, content: String::from_str(FONT_INSTRUCTIONS) });
        assert(snippets.deep_view() =~= seq![
            DockerfileSnippetView { order: 91, content: INSTALL@ },
            DockerfileSnippetView { order: 75, content: FONT_INSTRUCTIONS@ },
        ]);
        snippets
    }

    open spec fn container_files_spec(&self) -> Seq<ContainerFileView> {
        seq![
            ContainerFileView { container_path: FONT_CONFIGURATION_PATH@, contents: encode_utf8(FONT_CONFIGURATION@) },
        ]
    }

    fn container_files(&self) -> (r: Vec<ContainerFile>) {
        let mut files: Vec<ContainerFile> = Vec::new();
        files.push(
            ContainerFile {
                container_path: String::from_str(FONT_CONFIGURATION_PATH),
                contents: FONT_CONFIGURATION.as_bytes_vec(),
            },
        );
        assert(files.deep_view() =~= seq![
            ContainerFileView { container_path: FONT_CONFIGURATION_PATH@, contents: encode_utf8(FONT_CONFIGURATION@) },
        ]);
        files
    }

    open spec fn entrypoint_spec(&self, host: &HostFacts) -> Result<
        Seq<ScriptSnippetView>,
        ErrorView,
    > {
        Ok(Seq::empty())
    }

    fn entrypoint_snippets(&self, host: &HostFacts) -> (r: Result<Vec<ScriptSnippet>, Error>) {
        no_steps()
    }
}

impl Chrome {
    /// This capability as an element of a capability list.
    pub fn aspect(self) -> (r: Aspect)
        ensures
            same_contributions(&*r.inner, &self),
    {
        Aspect { inner: Box::new(self) }
    }

    /// Whether `aspects` are the capabilities of the application, in the
    /// order in which they are registered: the base image, the application
    /// `own`, and what it uses of the host on behalf of `user`.
    pub open spec fn registered(aspects: Seq<Aspect>, own: &Chrome, user: &CurrentUser) -> bool {
        &&& aspects.len() == 10
        &&& is_debian(aspects[0], RELEASE@)
        &&& same_contributions(&*aspects[1].inner, own)
        &&& is_name(aspects[2], APPLICATION@)
        &&& same_contributions(&*aspects[3].inner, user)
        &&& same_contributions(&*aspects[4].inner, &PulseAudio {})
        &&& same_contributions(&*aspects[5].inner, &X11 {})
        &&& same_contributions(&*aspects[6].inner, &Video {})
        &&& same_contributions(&*aspects[7].inner, &DBus {})
        &&& same_contributions(&*aspects[8].inner, &SysAdmin {})
        &&& same_contributions(&*aspects[9].inner, &Shm {})
    }

    /// The manager of the application for the user `user`, whose home
    /// directory is `home`, with images tagged by `version`. The files of the invocation
    /// are kept in `tempdir`.
    pub fn container_manager(
        home: &str,
        version: &str,
        user: CurrentUser,
        tempdir: String,
    ) -> (r: Result<ContainerManager, Error>)
        ensures
            r is Ok,
            r->Ok_0.name_view() == APPLICATION@,
            r->Ok_0.tags_view() == seq![image_tag(REPOSITORY@, version@)],
            views(r->Ok_0.container_paths_view()) == seq![configuration_dir(home@), DATA_DIR@],
            r->Ok_0.args_view() == seq!["google-chrome"@, "--user-data-dir=/data"@],
            r->Ok_0.tempdir_view() == tempdir@,
            exists|own: Chrome| #[trigger] Self::registered(r->Ok_0.aspects(), &own, &user),
    {
        let own = Chrome {};
        let ghost own_value = own;
        let mut aspects: Vec<Aspect> = Vec::new();
        aspects.push(own.aspect());
        let name = Name(String::from_str(APPLICATION));
        let ghost name_value = name;
        aspects.push(name.aspect());
        aspects.push(user.aspect());
        aspects.push(PulseAudio {}.aspect());
        aspects.push(X11 {}.aspect());
        aspects.push(Video {}.aspect());
        aspects.push(DBus {}.aspect());
        aspects.push(SysAdmin {}.aspect());
        aspects.push(Shm {}.aspect());
        let mut tags: Vec<String> = Vec::new();
        tags.push(image_tag_string(REPOSITORY, version));
        let mut container_paths: Vec<String> = Vec::new();
        container_paths.push(configuration_dir_string(home));
        container_paths.push(String::from_str(DATA_DIR));
        let ghost kept = container_paths@;
        let mut args: Vec<String> = Vec::new();
        args.push(String::from_str("google-chrome"));
        args.push(String::from_str("--user-data-dir=/data"));
        proof {
            assert(tags.deep_view() =~= seq![image_tag(REPOSITORY@, version@)]);
            assert(args.deep_view() =~= seq!["google-chrome"@, "--user-data-dir=/data"@]);
            assert(views(kept) =~= seq![configuration_dir(home@), DATA_DIR@]);
        }
        let r = ContainerManager::default_debian(
            String::from_str(APPLICATION),
            tags,
            container_paths,
            aspects,
            args,
            Some(String::from_str(RELEASE)),
            tempdir,
        );
        proof {
            let all = r->Ok_0.aspects();
            assert(same_contributions(&*all[2].inner, &name_value));
            assert(Self::registered(all, &own_value, &user));
        }
        r
    }
}

} // verus!
