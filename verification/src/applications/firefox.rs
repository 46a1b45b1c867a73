//! Firefox, the browser.

use vstd::prelude::*;
use crate::applications::{image_tag, image_tag_string};
use crate::aspects::base::is_debian;
use crate::aspects::identity::is_name;
use crate::aspects::{
    no_args, no_files, no_flags, no_steps, same_contributions, Aspect, ContainerAspect,
    ContainerFile, ContainerFileView, CurrentUser, DBus, DockerfileSnippet, DockerfileSnippetView,
    Name, PulseAudio, Shm, Video, X11,
};
use crate::cli::{CliInput, Flag, FlagView};
use crate::containermanager::ContainerManager;
use crate::entrypoint::{ScriptSnippet, ScriptSnippetView};
use crate::error::{Error, ErrorView};
use crate::host::HostFacts;
use crate::text::views;

verus! {

/// Firefox, the browser.
#[derive(Debug, Clone, Copy)]
pub struct Firefox {}

/// The display name of [`Firefox`].
pub const DISPLAY_NAME: &'static str = "firefox";

/// The name of the application.
pub const APPLICATION: &'static str = "firefox";

/// The repository of the image.
pub const REPOSITORY: &'static str = "waynr/firefox";

/// The release of Debian that the image is based on.
pub const RELEASE: &'static str = "bookworm";

/// The release of Firefox that is installed, which also tags the image.
pub const VERSION: &'static str = "109.0.1";

/// The build instructions that install what Firefox needs.
pub const PACKAGES: &'static str =
    r#"RUN apt-get update && apt-get install -y \
    --no-install-recommends \
    firefox-esr \
    libasound2 \
    libxt6 \
  && apt-get purge --autoremove \
  && rm -rf /var/lib/apt/lists/* \
  && rm -rf /src/*.deb "#;

/// The build instructions that download and unpack the release `release`
/// of Firefox.
pub open spec fn download(release: Seq<char>) -> Seq<char> {
    "WORKDIR /opt/\n"@
        + "ADD https://archive.mozilla.org/pub/firefox/releases/"@
        + release
        + "/linux-x86_64/en-US/firefox-"@
        + release
        + ".tar.bz2 ./\n"@
        + "RUN tar -xjvf /opt/firefox-"@
        + release
        + ".tar.bz2\n"@
        + "RUN ln -sf /opt/firefox/firefox-bin /usr/local/bin/firefox"@
}

/// Renders [`download`].
pub fn download_string(release: &str) -> (r: String)
    ensures
        r@ == download(release@),
{
    let mut out = String::from_str("WORKDIR /opt/\n");
    out.append("ADD https://archive.mozilla.org/pub/firefox/releases/");
    out.append(release);
    out.append("/linux-x86_64/en-US/firefox-");
    out.append(release);
    out.append(".tar.bz2 ./\n");
    out.append("RUN tar -xjvf /opt/firefox-");
    out.append(release);
    out.append(".tar.bz2\n");
    out.append("RUN ln -sf /opt/firefox/firefox-bin /usr/local/bin/firefox");
    out
}

/// The directory of the Firefox profile, which is kept.
pub open spec fn profile_dir(home: Seq<char>) -> Seq<char> {
    home
        + "/.mozilla/firefox/profile"@
}

/// Renders [`profile_dir`].
pub fn profile_dir_string(home: &str) -> (r: String)
    ensures
        r@ == profile_dir(home@),
{
    let mut out = String::from_str(home);
    out.append("/.mozilla/firefox/profile");
    out
}

impl ContainerAspect for Firefox {
    open spec fn name_spec(&self) -> Seq<char> {
        DISPLAY_NAME@
    }

    fn name(&self) -> (r: String) {
        String::from_str(DISPLAY_NAME)
    }

    open spec fn run_args_spec(&self, input: Option<&CliInput>, host: &HostFacts) -> Result<
        Seq<Seq<char>>,
        ErrorView,
    > {
        Ok(Seq::empty())
    }

    fn run_args(&self, input: Option<&CliInput>, host: &HostFacts) -> (r: Result<
        Vec<String>,
        Error,
    >) {
        no_args()
    }

    open spec fn config_args_spec(&self) -> Seq<FlagView> {
        Seq::empty()
    }

    fn config_args(&self) -> (r: Vec<Flag>) {
        no_flags()
    }

    open spec fn cli_build_args_spec(&self) -> Seq<FlagView> {
        Seq::empty()
    }

    fn cli_build_args(&self) -> (r: Vec<Flag>) {
        no_flags()
    }

    open spec fn dockerfile_spec(&self) -> Seq<DockerfileSnippetView> {
        seq![
            DockerfileSnippetView { order: 91, content: download(VERSION@) },
            DockerfileSnippetView { order: 90, content: PACKAGES@ },
        ]
    }

    fn dockerfile_snippets(&self) -> (r: Vec<DockerfileSnippet>) {
        let mut snippets: Vec<DockerfileSnippet> = Vec::new();
        snippets.push(DockerfileSnippet { order: 91, content: download_string(VERSION) });
        snippets.push(DockerfileSnippet { order: 90, content: String::from_str(PACKAGES) });
        assert(snippets.deep_view() =~= seq![
            DockerfileSnippetView { order: 91, content: download(VERSION@) },
            DockerfileSnippetView { order: 90, content: PACKAGES@ },
        ]);
        snippets
    }

    open spec fn container_files_spec(&self) -> Seq<ContainerFileView> {
        Seq::empty()
    }

    fn container_files(&self) -> (r: Vec<ContainerFile>) {
        no_files()
    }

    open spec fn entrypoint_spec(&self, host: &HostFacts) -> Result<
        Seq<ScriptSnippetView>,
        ErrorView,
    > {
        Ok(Seq::empty())
    }

    fn entrypoint_snippets(&self, host: &HostFacts) -> (r: Result<Vec<ScriptSnippet>, Error>) {
        no_steps()
    }
}

impl Firefox {
    /// This capability as an element of a capability list.
    pub fn aspect(self) -> (r: Aspect)
        ensures
            same_contributions(&*r.inner, &self),
    {
        Aspect { inner: Box::new(self) }
    }

    /// Whether `aspects` are the capabilities of the application, in the
    /// order in which they are registered: the base image, the application
    /// `own`, and what it uses of the host on behalf of `user`.
    pub open spec fn registered(aspects: Seq<Aspect>, own: &Firefox, user: &CurrentUser) -> bool {
        &&& aspects.len() == 9
        &&& is_debian(aspects[0], RELEASE@)
        &&& same_contributions(&*aspects[1].inner, own)
        &&& is_name(aspects[2], APPLICATION@)
        &&& same_contributions(&*aspects[3].inner, user)
        &&& same_contributions(&*aspects[4].inner, &PulseAudio {})
        &&& same_contributions(&*aspects[5].inner, &X11 {})
        &&& same_contributions(&*aspects[6].inner, &Video {})
        &&& same_contributions(&*aspects[7].inner, &DBus {})
        &&& same_contributions(&*aspects[8].inner, &Shm {})
    }

    /// The manager of the application for the user `user`, whose home
    /// directory is `home`. The files of the invocation
    /// are kept in `tempdir`.
    pub fn container_manager(
        home: &str,
        user: CurrentUser,
        tempdir: String,
    ) -> (r: Result<ContainerManager, Error>)
        ensures
            r is Ok,
            r->Ok_0.name_view() == APPLICATION@,
            r->Ok_0.tags_view() == seq![image_tag(REPOSITORY@, VERSION@)],
            views(r->Ok_0.container_paths_view()) == seq![profile_dir(home@)],
            r->Ok_0.args_view() == seq![
                "/opt/firefox/firefox-bin"@,
                "--no-remote"@,
                "--profile"@,
                profile_dir(home@),
            ],
            r->Ok_0.tempdir_view() == tempdir@,
            exists|own: Firefox| #[trigger] Self::registered(r->Ok_0.aspects(), &own, &user),
    {
        let own = Firefox {};
        let ghost own_value = own;
        let mut aspects: Vec<Aspect> = Vec::new();
        aspects.push(own.aspect());
        let name = Name(String::from_str(APPLICATION));
        let ghost name_value = name;
        aspects.push(name.aspect());
        aspects.push(user.aspect());
        aspects.push(PulseAudio {}.aspect());
        aspects.push(X11 {}.aspect());
        aspects.push(Video {}.aspect());
        aspects.push(DBus {}.aspect());
        aspects.push(Shm {}.aspect());
        let mut tags: Vec<String> = Vec::new();
        tags.push(image_tag_string(REPOSITORY, VERSION));
        let mut container_paths: Vec<String> = Vec::new();
        container_paths.push(profile_dir_string(home));
        let ghost kept = container_paths@;
        let mut args: Vec<String> = Vec::new();
        args.push(String::from_str("/opt/firefox/firefox-bin"));
        args.push(String::from_str("--no-remote"));
        args.push(String::from_str("--profile"));
        args.push(profile_dir_string(home));
        proof {
            assert(tags.deep_view() =~= seq![image_tag(REPOSITORY@, VERSION@)]);
            assert(args.deep_view() =~= seq![
                "/opt/firefox/firefox-bin"@,
                "--no-remote"@,
                "--profile"@,
                profile_dir(home@),
            ]);
            assert(views(kept) =~= seq![profile_dir(home@)]);
        }
        let r = ContainerManager::default_debian(
            String::from_str(APPLICATION),
            tags,
            container_paths,
            aspects,
            args,
            Some(String::from_str(RELEASE)),
            tempdir,
        );
        proof {
            let all = r->Ok_0.aspects();
            assert(same_contributions(&*all[2].inner, &name_value));
            assert(Self::registered(all, &own_value, &user));
        }
        r
    }
}

} // verus!
