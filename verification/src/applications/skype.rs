//! Skype, the telephone.

use vstd::prelude::*;
use vstd::utf8::encode_utf8;
use crate::applications::{image_tag, image_tag_string, FONT_CONFIGURATION, FONT_INSTRUCTIONS};
use crate::aspects::base::{is_debian, DEBIAN_DEFAULT_VERSION};
use crate::aspects::identity::is_name;
use crate::aspects::{
    no_args, no_flags, no_steps, same_contributions, Aspect, ContainerAspect, ContainerFile,
    ContainerFileView, CurrentUser, DBus, DockerfileSnippet, DockerfileSnippetView, Name,
    PulseAudio, Shm, SysAdmin, Video, X11,
};
use crate::cli::{CliInput, Flag, FlagView};
use crate::containermanager::ContainerManager;
use crate::entrypoint::{ScriptSnippet, ScriptSnippetView};
use crate::error::{Error, ErrorView};
use crate::host::HostFacts;
use crate::text::views;

verus! {

/// Skype, the telephone.
#[derive(Debug, Clone, Copy)]
pub struct Skype {}

/// The display name of [`Skype`].
pub const DISPLAY_NAME: &'static str = "Skype";

/// The name of the application.
pub const APPLICATION: &'static str = "skype";

/// The repository of the image.
pub const REPOSITORY: &'static str = "waynr/skype";

/// The build instructions that install Skype.
pub const INSTALL: &'static str =
    r#"# Add the skype debian repo
RUN curl -sSL https://repo.skype.com/data/SKYPE-GPG-KEY | apt-key add -
RUN echo "deb [arch=amd64] https://repo.skype.com/deb stable main" > /etc/apt/sources.list.d/skype.list

RUN apt-get update && apt-get -y install \
    --no-install-recommends \
        skypeforlinux \
    && apt-get purge --autoremove \
    && rm -rf /var/lib/apt/lists/*
"#;

/// The build instructions that install the launcher.
pub const LAUNCHER_INSTRUCTIONS: &'static str =
    r#"COPY /run-skype-and-wait-for-exit /usr/local/bin
RUN chmod 755 /usr/local/bin/run-skype-and-wait-for-exit"#;

/// Where in the build context the launcher, which runs Skype and waits until it has exited stands.
pub const LAUNCHER_PATH: &'static str = "./run-skype-and-wait-for-exit";

/// The launcher, which runs Skype and waits until it has exited.
pub const LAUNCHER: &'static str =
    r#"#!/bin/bash
skypeforlinux
sleep 3
while ps -C skypeforlinux >/dev/null;do sleep 3;done "#;

/// Where in the build context the font configuration stands.
pub const FONT_CONFIGURATION_PATH: &'static str = "./etc/fonts/local.conf";

/// Skype's configuration directory, which is kept.
pub open spec fn configuration_dir(home: Seq<char>) -> Seq<char> {
    home
        + "/.config/skypeforlinux"@
}

/// Renders [`configuration_dir`].
pub fn configuration_dir_string(home: &str) -> (r: String)
    ensures
        r@ == configuration_dir(home@),
{
    let mut out = String::from_str(home);
    out.append("/.config/skypeforlinux");
    out
}

impl ContainerAspect for Skype {
    open spec fn name_spec(&self) -> Seq<char> {
        DISPLAY_NAME@
    }

    fn name(&self) -> (r: String) {
        String::from_str(DISPLAY_NAME)
    }

    open spec fn run_args_spec(&self, input: Option<&CliInput>, host: &HostFacts) -> Result<
        Seq<Seq<char>>,
        ErrorView,
    > {
        Ok(Seq::empty())
    }

    fn run_args(&self, input: Option<&CliInput>, host: &HostFacts) -> (r: Result<
        Vec<String>,
        Error,
    >) {
        no_args()
    }

    open spec fn config_args_spec(&self) -> Seq<FlagView> {
        Seq::empty()
    }

    fn config_args(&self) -> (r: Vec<Flag>) {
        no_flags()
    }

    open spec fn cli_build_args_spec(&self) -> Seq<FlagView> {
        Seq::empty()
    }

    fn cli_build_args(&self) -> (r: Vec<Flag>) {
        no_flags()
    }

    open spec fn dockerfile_spec(&self) -> Seq<DockerfileSnippetView> {
        seq![
            DockerfileSnippetView { order: 75, content: FONT_INSTRUCTIONS@ },
            DockerfileSnippetView { order: 91, content: INSTALL@ },
            DockerfileSnippetView { order: 92, content: LAUNCHER_INSTRUCTIONS@ },
        ]
    }

    fn dockerfile_snippets(&self) -> (r: Vec<DockerfileSnippet>) {
        let mut snippets: Vec<DockerfileSnippet> = Vec::new();
        snippets.push(DockerfileSnippet { order: 75, content: String::from_str(FONT_INSTRUCTIONS) });
        snippets.push(DockerfileSnippet { order: 91, content: String::from_str(INSTALL) });
        snippets.push(DockerfileSnippet { order: 92, content: String::from_str(LAUNCHER_INSTRUCTIONS) });
        assert(snippets.deep_view() =~= seq![
            DockerfileSnippetView { order: 75, content: FONT_INSTRUCTIONS@ },
            DockerfileSnippetView { order: 91, content: INSTALL@ },
            DockerfileSnippetView { order: 92, content: LAUNCHER_INSTRUCTIONS@ },
        ]);
        snippets
    }

    open spec fn container_files_spec(&self) -> Seq<ContainerFileView> {
        seq![
            ContainerFileView { container_path: LAUNCHER_PATH@, contents: encode_utf8(LAUNCHER@) },
            ContainerFileView { container_path: FONT_CONFIGURATION_PATH@, contents: encode_utf8(FONT_CONFIGURATION@) },
        ]
    }

    fn container_files(&self) -> (r: Vec<ContainerFile>) {
        let mut files: Vec<ContainerFile> = Vec::new();
        files.push(
            ContainerFile {
                container_path: String::from_str(LAUNCHER_PATH),
                contents: LAUNCHER.as_bytes_vec(),
            },
        );
        files.push(
            ContainerFile {
                container_path: String::from_str(FONT_CONFIGURATION_PATH),
                contents: FONT_CONFIGURATION.as_bytes_vec(),
            },
        );
        assert(files.deep_view() =~= seq![
            ContainerFileView { container_path: LAUNCHER_PATH@, contents: encode_utf8(LAUNCHER@) },
            ContainerFileView { container_path: FONT_CONFIGURATION_PATH@, contents: encode_utf8(FONT_CONFIGURATION@) },
        ]);
        files
    }

    open spec fn entrypoint_spec(&self, host: &HostFacts) -> Result<
        Seq<ScriptSnippetView>,
        ErrorView,
    > {
        Ok(Seq::empty())
    }

    fn entrypoint_snippets(&self, host: &HostFacts) -> (r: Result<Vec<ScriptSnippet>, Error>) {
        no_steps()
    }
}

impl Skype {
    /// This capability as an element of a capability list.
    pub fn aspect(self) -> (r: Aspect)
        ensures
            same_contributions(&*r.inner, &self),
    {
        Aspect { inner: Box::new(self) }
    }

    /// Whether `aspects` are the capabilities of the application, in the
    /// order in which they are registered: the base image, the application
    /// `own`, and what it uses of the host on behalf of `user`.
    pub open spec fn registered(aspects: Seq<Aspect>, own: &Skype, user: &CurrentUser) -> bool {
        &&& aspects.len() == 10
        &&& is_debian(aspects[0], DEBIAN_DEFAULT_VERSION@)
        &&& same_contributions(&*aspects[1].inner, own)
        &&& is_name(aspects[2], APPLICATION@)
        &&& same_contributions(&*aspects[3].inner, user)
        &&& same_contributions(&*aspects[4].inner, &PulseAudio {})
        &&& same_contributions(&*aspects[5].inner, &X11 {})
        &&& same_contributions(&*aspects[6].inner, &Video {})
        &&& same_contributions(&*aspects[7].inner, &DBus {})
        &&& same_contributions(&*aspects[8].inner, &SysAdmin {})
        &&& same_contributions(&*aspects[9].inner, &Shm {})
    }

    /// The manager of the application for the user `user`, whose home
    /// directory is `home`, with images tagged by `version`. The files of the invocation
    /// are kept in `tempdir`.
    pub fn container_manager(
        home: &str,
        version: &str,
        user: CurrentUser,
        tempdir: String,
    ) -> (r: Result<ContainerManager, Error>)
        ensures
            r is Ok,
            r->Ok_0.name_view() == APPLICATION@,
            r->Ok_0.tags_view() == seq![image_tag(REPOSITORY@, version@)],
            views(r->Ok_0.container_paths_view()) == seq![configuration_dir(home@)],
            r->Ok_0.args_view() == seq!["run-skype-and-wait-for-exit"@],
            r->Ok_0.tempdir_view() == tempdir@,
            exists|own: Skype| #[trigger] Self::registered(r->Ok_0.aspects(), &own, &user),
    {
        let own = Skype {};
        let ghost own_value = own;
        let mut aspects: Vec<Aspect> = Vec::new();
        aspects.push(own.aspect());
        let name = Name(String::from_str(APPLICATION));
        let ghost name_value = name;
        aspects.push(name.aspect());
        aspects.push(user.aspect());
        aspects.push(PulseAudio {}.aspect());
        aspects.push(X11 {}.aspect());
        aspects.push(Video {}.aspect());
        aspects.push(DBus {}.aspect());
        aspects.push(SysAdmin {}.aspect());
        aspects.push(Shm {}.aspect());
        let mut tags: Vec<String> = Vec::new();
        tags.push(image_tag_string(REPOSITORY, version));
        let mut container_paths: Vec<String> = Vec::new();
        container_paths.push(configuration_dir_string(home));
        let ghost kept = container_paths@;
        let mut args: Vec<String> = Vec::new();
        args.push(String::from_str("run-skype-and-wait-for-exit"));
        proof {
            assert(tags.deep_view() =~= seq![image_tag(REPOSITORY@, version@)]);
            assert(args.deep_view() =~= seq!["run-skype-and-wait-for-exit"@]);
            assert(views(kept) =~= seq![configuration_dir(home@)]);
        }
        let r = ContainerManager::default_debian(
            String::from_str(APPLICATION),
            tags,
            container_paths,
            aspects,
            args,
            None,
            tempdir,
        );
        proof {
            let all = r->Ok_0.aspects();
            assert(same_contributions(&*all[2].inner, &name_value));
            assert(Self::registered(all, &own_value, &user));
        }
        r
    }
}

} // verus!
