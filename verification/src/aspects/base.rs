//! Capabilities that select the base image and install what every image
//! needs.

use vstd::prelude::*;
use crate::aspects::{
    no_args, no_files, no_flags, no_steps, same_contributions, Aspect, ContainerAspect,
    ContainerFile, ContainerFileView, DockerfileSnippet, DockerfileSnippetView,
};
use crate::cli::{CliInput, Flag, FlagView};
use crate::entrypoint::{ScriptSnippet, ScriptSnippetView};
use crate::error::{Error, ErrorView};
use crate::host::HostFacts;

verus! {

/// The key of the instruction that selects the base image.
pub const BASE_IMAGE_ORDER: u8 = 0;

/// The key of the instructions that install the base packages.
pub const BASE_PACKAGES_ORDER: u8 = 2;

/// The key of the instructions that install fonts.
pub const FONTS_ORDER: u8 = 3;

/// The build instructions that install fonts for East Asian scripts.
pub const FONTS: &'static str =
    r#"# Useful language packs
RUN apt-get update && apt-get install -y --no-install-recommends \
  fonts-arphic-bkai00mp \
  fonts-arphic-bsmi00lp \
  fonts-arphic-gbsn00lp \
  fonts-arphic-gbsn00lp \
  \
  && rm -rf /var/lib/apt/lists/* \
  && rm -rf /src/*.deb"#;

/// An image based on Debian.
#[derive(Debug)]
pub struct Debian {
    /// The release of the distribution.
    pub version: String,
}

impl Clone for Debian {
    fn clone(&self) -> (r: Self)
        ensures
            r == *self,
    {
        Debian { version: self.version.clone() }
    }
}

/// The display name of [`Debian`].
pub const DEBIAN: &'static str = "Debian";

/// The release of [`Debian`] that is taken where none is asked for.
pub const DEBIAN_DEFAULT_VERSION: &'static str = "buster";

/// The build instructions that install the base packages of [`Debian`].
pub const DEBIAN_PACKAGES: &'static str =
    r#"RUN apt-get update && apt-get install -y \
    --no-install-recommends \
    apt-utils \
    apt-transport-https \
    apt \
    bzip2 \
    ca-certificates \
    curl \
    debian-goodies \
    dirmngr \
    gnupg \
    keychain \
    lsb-release \
    locales \
    lsof \
    procps \
    sudo \
  && apt-get purge --autoremove \
  && rm -rf /var/lib/apt/lists/* \
  && rm -rf /src/*.deb "#;

/// The instruction that selects the release `version` of the [`Debian`] image.
pub open spec fn debian_image(version: Seq<char>) -> Seq<char> {
    "FROM debian:"@
        + version
}

/// Renders [`debian_image`].
pub fn debian_image_string(version: &str) -> (r: String)
    ensures
        r@ == debian_image(version@),
{
    let mut out = String::from_str("FROM debian:");
    out.append(version);
    out
}

/// Whether `aspect` is the [`Debian`] capability for the release `version`.
pub open spec fn is_debian(aspect: Aspect, version: Seq<char>) -> bool {
    exists|base: Debian|
        base.version@ == version && #[trigger] same_contributions(&*aspect.inner, &base)
}

impl ContainerAspect for Debian {
    open spec fn name_spec(&self) -> Seq<char> {
        DEBIAN@
    }

    fn name(&self) -> (r: String) {
        String::from_str(DEBIAN)
    }

    open spec fn run_args_spec(&self, input: Option<&CliInput>, host: &HostFacts) -> Result<
        Seq<Seq<char>>,
        ErrorView,
    > {
        Ok(Seq::empty())
    }

    fn run_args(&self, input: Option<&CliInput>, host: &HostFacts) -> (r: Result<
        Vec<String>,
        Error,
    >) {
        no_args()
    }

    open spec fn config_args_spec(&self) -> Seq<FlagView> {
        Seq::empty()
    }

    fn config_args(&self) -> (r: Vec<Flag>) {
        no_flags()
    }

    open spec fn cli_build_args_spec(&self) -> Seq<FlagView> {
        Seq::empty()
    }

    fn cli_build_args(&self) -> (r: Vec<Flag>) {
        no_flags()
    }

    open spec fn dockerfile_spec(&self) -> Seq<DockerfileSnippetView> {
        seq![
            DockerfileSnippetView { order: BASE_IMAGE_ORDER, content: debian_image(self.version@) },
            DockerfileSnippetView { order: FONTS_ORDER, content: FONTS@ },
            DockerfileSnippetView { order: BASE_PACKAGES_ORDER, content: DEBIAN_PACKAGES@ },
        ]
    }

    fn dockerfile_snippets(&self) -> (r: Vec<DockerfileSnippet>) {
        let mut snippets: Vec<DockerfileSnippet> = Vec::new();
        snippets.push(
            DockerfileSnippet {
                order: BASE_IMAGE_ORDER,
                content: debian_image_string(self.version.as_str()),
            },
        );
        snippets.push(DockerfileSnippet { order: FONTS_ORDER, content: String::from_str(FONTS) });
        snippets.push(
            DockerfileSnippet {
                order: BASE_PACKAGES_ORDER,
                content: String::from_str(DEBIAN_PACKAGES),
            },
        );
        assert(snippets.deep_view() =~= seq![
            DockerfileSnippetView { order: BASE_IMAGE_ORDER, content: debian_image(self.version@) },
            DockerfileSnippetView { order: FONTS_ORDER, content: FONTS@ },
            DockerfileSnippetView { order: BASE_PACKAGES_ORDER, content: DEBIAN_PACKAGES@ },
        ]);
        snippets
    }

    open spec fn container_files_spec(&self) -> Seq<ContainerFileView> {
        Seq::empty()
    }

    fn container_files(&self) -> (r: Vec<ContainerFile>) {
        no_files()
    }

    open spec fn entrypoint_spec(&self, host: &HostFacts) -> Result<
        Seq<ScriptSnippetView>,
        ErrorView,
    > {
        Ok(Seq::empty())
    }

    fn entrypoint_snippets(&self, host: &HostFacts) -> (r: Result<Vec<ScriptSnippet>, Error>) {
        no_steps()
    }
}

impl Debian {
    /// This capability as an element of a capability list.
    pub fn aspect(self) -> (r: Aspect)
        ensures
            same_contributions(&*r.inner, &self),
    {
        Aspect { inner: Box::new(self) }
    }
}

/// An image based on Ubuntu.
#[derive(Debug)]
pub struct Ubuntu {
    /// The release of the distribution.
    pub version: String,
}

impl Clone for Ubuntu {
    fn clone(&self) -> (r: Self)
        ensures
            r == *self,
    {
        Ubuntu { version: self.version.clone() }
    }
}

/// The display name of [`Ubuntu`].
pub const UBUNTU: &'static str = "Ubuntu";

/// The release of [`Ubuntu`] that is taken where none is asked for.
pub const UBUNTU_DEFAULT_VERSION: &'static str = "20.04";

/// The build instructions that install the base packages of [`Ubuntu`].
pub const UBUNTU_PACKAGES: &'static str =
    r#"RUN apt-get update && apt-get install -y \
    --no-install-recommends \
    apt-utils \
    apt-transport-https \
    apt \
    bzip2 \
    ca-certificates \
    curl \
    debian-goodies \
    dirmngr \
    gnupg \
    keychain \
    lsb-release \
    locales \
    lsof \
    procps \
  && apt-get purge --autoremove \
  && rm -rf /var/lib/apt/lists/* \
  && rm -rf /src/*.deb "#;

/// The instruction that selects the release `version` of the [`Ubuntu`] image.
pub open spec fn ubuntu_image(version: Seq<char>) -> Seq<char> {
    "FROM ubuntu:"@
        + version
}

/// Renders [`ubuntu_image`].
pub fn ubuntu_image_string(version: &str) -> (r: String)
    ensures
        r@ == ubuntu_image(version@),
{
    let mut out = String::from_str("FROM ubuntu:");
    out.append(version);
    out
}

/// Whether `aspect` is the [`Ubuntu`] capability for the release `version`.
pub open spec fn is_ubuntu(aspect: Aspect, version: Seq<char>) -> bool {
    exists|base: Ubuntu|
        base.version@ == version && #[trigger] same_contributions(&*aspect.inner, &base)
}

impl ContainerAspect for Ubuntu {
    open spec fn name_spec(&self) -> Seq<char> {
        UBUNTU@
    }

    fn name(&self) -> (r: String) {
        String::from_str(UBUNTU)
    }

    open spec fn run_args_spec(&self, input: Option<&CliInput>, host: &HostFacts) -> Result<
        Seq<Seq<char>>,
        ErrorView,
    > {
        Ok(Seq::empty())
    }

    fn run_args(&self, input: Option<&CliInput>, host: &HostFacts) -> (r: Result<
        Vec<String>,
        Error,
    >) {
        no_args()
    }

    open spec fn config_args_spec(&self) -> Seq<FlagView> {
        Seq::empty()
    }

    fn config_args(&self) -> (r: Vec<Flag>) {
        no_flags()
    }

    open spec fn cli_build_args_spec(&self) -> Seq<FlagView> {
        Seq::empty()
    }

    fn cli_build_args(&self) -> (r: Vec<Flag>) {
        no_flags()
    }

    open spec fn dockerfile_spec(&self) -> Seq<DockerfileSnippetView> {
        seq![
            DockerfileSnippetView { order: BASE_IMAGE_ORDER, content: ubuntu_image(self.version@) },
            DockerfileSnippetView { order: FONTS_ORDER, content: FONTS@ },
            DockerfileSnippetView { order: BASE_PACKAGES_ORDER, content: UBUNTU_PACKAGES@ },
        ]
    }

    fn dockerfile_snippets(&self) -> (r: Vec<DockerfileSnippet>) {
        let mut snippets: Vec<DockerfileSnippet> = Vec::new();
        snippets.push(
            DockerfileSnippet {
                order: BASE_IMAGE_ORDER,
                content: ubuntu_image_string(self.version.as_str()),
            },
        );
        snippets.push(DockerfileSnippet { order: FONTS_ORDER, content: String::from_str(FONTS) });
        snippets.push(
            DockerfileSnippet {
                order: BASE_PACKAGES_ORDER,
                content: String::from_str(UBUNTU_PACKAGES),
            },
        );
        assert(snippets.deep_view() =~= seq![
            DockerfileSnippetView { order: BASE_IMAGE_ORDER, content: ubuntu_image(self.version@) },
            DockerfileSnippetView { order: FONTS_ORDER, content: FONTS@ },
            DockerfileSnippetView { order: BASE_PACKAGES_ORDER, content: UBUNTU_PACKAGES@ },
        ]);
        snippets
    }

    open spec fn container_files_spec(&self) -> Seq<ContainerFileView> {
        Seq::empty()
    }

    fn container_files(&self) -> (r: Vec<ContainerFile>) {
        no_files()
    }

    open spec fn entrypoint_spec(&self, host: &HostFacts) -> Result<
        Seq<ScriptSnippetView>,
        ErrorView,
    > {
        Ok(Seq::empty())
    }

    fn entrypoint_snippets(&self, host: &HostFacts) -> (r: Result<Vec<ScriptSnippet>, Error>) {
        no_steps()
    }
}

impl Ubuntu {
    /// This capability as an element of a capability list.
    pub fn aspect(self) -> (r: Aspect)
        ensures
            same_contributions(&*r.inner, &self),
    {
        Aspect { inner: Box::new(self) }
    }
}

} // verus!
