//! A capability that is given as plain values: what it contributes is
//! what it holds.

use vstd::prelude::*;
use crate::aspects::{
    same_contributions, Aspect, ContainerAspect, ContainerFile, ContainerFileView,
    DockerfileSnippet, DockerfileSnippetView,
};
use crate::cli::{CliInput, Flag, FlagView};
use crate::entrypoint::{ScriptSnippet, ScriptSnippetView};
use crate::error::{Error, ErrorView};
use crate::host::HostFacts;

verus! {

/// A capability whose contributions are fixed when it is made. It is the
/// way for an application to add capabilities of its own: the packages it
/// installs, the files it brings along, the arguments it always needs.
#[derive(Debug)]
pub struct StaticAspect {
    /// The display name.
    pub name: String,
    /// The launch arguments.
    pub run_args: Vec<String>,
    /// The flags for the subcommands that run or configure.
    pub config_args: Vec<Flag>,
    /// The flags for the subcommand that builds.
    pub cli_build_args: Vec<Flag>,
    /// The build instructions.
    pub dockerfile_snippets: Vec<DockerfileSnippet>,
    /// The files of the build context.
    pub container_files: Vec<ContainerFile>,
    /// The steps of the start-up script.
    pub entrypoint_snippets: Vec<ScriptSnippet>,
}

impl StaticAspect {
    /// A capability named `name` that contributes nothing yet.
    pub fn named(name: &str) -> (r: StaticAspect)
        ensures
            r.name@ == name@,
            r.run_args@.len() == 0,
            r.config_args@.len() == 0,
            r.cli_build_args@.len() == 0,
            r.dockerfile_snippets@.len() == 0,
            r.container_files@.len() == 0,
            r.entrypoint_snippets@.len() == 0,
    {
        StaticAspect {
            name: String::from_str(name),
            run_args: Vec::new(),
            config_args: Vec::new(),
            cli_build_args: Vec::new(),
            dockerfile_snippets: Vec::new(),
            container_files: Vec::new(),
            entrypoint_snippets: Vec::new(),
        }
    }
}

impl ContainerAspect for StaticAspect {
    open spec fn name_spec(&self) -> Seq<char> {
        self.name@
    }

    fn name(&self) -> (r: String) {
        self.name.clone()
    }

    open spec fn run_args_spec(&self, input: Option<&CliInput>, host: &HostFacts) -> Result<
        Seq<Seq<char>>,
        ErrorView,
    > {
        Ok(self.run_args.deep_view())
    }

    fn run_args(&self, input: Option<&CliInput>, host: &HostFacts) -> (r: Result<
        Vec<String>,
        Error,
    >) {
        let copy = self.run_args.clone();
        assert(copy.deep_view() =~= self.run_args.deep_view());
        Ok(copy)
    }

    open spec fn config_args_spec(&self) -> Seq<FlagView> {
        self.config_args.deep_view()
    }

    fn config_args(&self) -> (r: Vec<Flag>) {
        let copy = self.config_args.clone();
        assert(copy.deep_view() =~= self.config_args.deep_view());
        copy
    }

    open spec fn cli_build_args_spec(&self) -> Seq<FlagView> {
        self.cli_build_args.deep_view()
    }

    fn cli_build_args(&self) -> (r: Vec<Flag>) {
        let copy = self.cli_build_args.clone();
        assert(copy.deep_view() =~= self.cli_build_args.deep_view());
        copy
    }

    open spec fn dockerfile_spec(&self) -> Seq<DockerfileSnippetView> {
        self.dockerfile_snippets.deep_view()
    }

    fn dockerfile_snippets(&self) -> (r: Vec<DockerfileSnippet>) {
        let copy = self.dockerfile_snippets.clone();
        assert(copy.deep_view() =~= self.dockerfile_snippets.deep_view());
        copy
    }

    open spec fn container_files_spec(&self) -> Seq<ContainerFileView> {
        self.container_files.deep_view()
    }

    fn container_files(&self) -> (r: Vec<ContainerFile>) {
        let copy = self.container_files.clone();
        assert(copy.deep_view() =~= self.container_files.deep_view());
        copy
    }

    open spec fn entrypoint_spec(&self, host: &HostFacts) -> Result<
        Seq<ScriptSnippetView>,
        ErrorView,
    > {
        Ok(self.entrypoint_snippets.deep_view())
    }

    fn entrypoint_snippets(&self, host: &HostFacts) -> (r: Result<Vec<ScriptSnippet>, Error>) {
        let copy = self.entrypoint_snippets.clone();
        assert(copy.deep_view() =~= self.entrypoint_snippets.deep_view());
        Ok(copy)
    }
}

impl StaticAspect {
    /// This capability as an element of a capability list.
    pub fn aspect(self) -> (r: Aspect)
        ensures
            same_contributions(&*r.inner, &self),
    {
        Aspect { inner: Box::new(self) }
    }
}

} // verus!
