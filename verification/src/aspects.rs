//! Capabilities ("aspects"): independent units that each contribute to the
//! image and to the launch of a container.
//!
//! A capability may contribute launch arguments, command-line flags, build
//! instructions, build-context files and steps of the start-up script. What
//! it contributes is a function of its own state, of the parsed command
//! line and of the facts about the host that it is handed; each method of
//! [`ContainerAspect`] has a mathematical counterpart that says which.

use vstd::prelude::*;
use crate::cli::{CliInput, Flag, FlagView};
use crate::entrypoint::{snippet_result_view, ScriptSnippet, ScriptSnippetView};
use crate::error::{result_view, Error, ErrorView};
use crate::host::HostFacts;

pub mod base;
pub mod custom;
pub mod identity;
pub mod integration;
pub mod settings;

pub use crate::aspects::base::{Debian, Ubuntu};
pub use crate::aspects::custom::StaticAspect;
pub use crate::aspects::identity::{CurrentUser, Name, Profile};
pub use crate::aspects::integration::{Alsa, DBus, PulseAudio, Shm, SysAdmin, Video, X11};
pub use crate::aspects::settings::{CPUShares, Locale, Memory, Mount, Network, Timezone};

verus! {

/// One block of image-build instructions.
///
/// By convention key 0 selects the base image, keys 1 to 10 install what
/// the base system needs, keys 70 to 89 integrate subsystems and keys from
/// 90 install the application.
#[derive(Debug)]
pub struct DockerfileSnippet {
    /// The key: blocks with smaller keys come first.
    pub order: u8,
    /// The instructions.
    pub content: String,
}

/// A [`DockerfileSnippet`] with its text as a character sequence.
pub struct DockerfileSnippetView {
    pub order: u8,
    pub content: Seq<char>,
}

impl DeepView for DockerfileSnippet {
    type V = DockerfileSnippetView;

    open spec fn deep_view(&self) -> DockerfileSnippetView {
        DockerfileSnippetView { order: self.order, content: self.content@ }
    }
}

impl Clone for DockerfileSnippet {
    fn clone(&self) -> (r: Self)
        ensures
            r == *self,
    {
        DockerfileSnippet { order: self.order, content: self.content.clone() }
    }
}

/// A file of the build context.
#[derive(Debug)]
pub struct ContainerFile {
    /// The path of the file, relative to the root of the build context.
    pub container_path: String,
    /// The bytes of the file.
    pub contents: Vec<u8>,
}

/// A [`ContainerFile`] with its path and bytes as sequences.
pub struct ContainerFileView {
    pub container_path: Seq<char>,
    pub contents: Seq<u8>,
}

impl DeepView for ContainerFile {
    type V = ContainerFileView;

    open spec fn deep_view(&self) -> ContainerFileView {
        ContainerFileView { container_path: self.container_path@, contents: self.contents@ }
    }
}

impl Clone for ContainerFile {
    fn clone(&self) -> (r: Self)
        ensures
            r.deep_view() == self.deep_view(),
    {
        let contents = self.contents.clone();
        assert(contents@ =~= self.contents@);
        ContainerFile { container_path: self.container_path.clone(), contents }
    }
}

/// What a capability can contribute. Every method is a function of the
/// capability's own state and of its arguments; the `_spec` function beside
/// it is that function.
pub trait ContainerAspect {
    /// The display name.
    spec fn name_spec(&self) -> Seq<char>;

    /// The display name.
    fn name(&self) -> (r: String)
        ensures
            r@ == self.name_spec(),
    ;

    /// The launch arguments, or the error that keeps them from being given.
    spec fn run_args_spec(&self, input: Option<&CliInput>, host: &HostFacts) -> Result<
        Seq<Seq<char>>,
        ErrorView,
    >;

    /// The launch arguments for the given command line and host. Fails with
    /// a named error where the host lacks a fact that the capability needs.
    fn run_args(&self, input: Option<&CliInput>, host: &HostFacts) -> (r: Result<
        Vec<String>,
        Error,
    >)
        ensures
            result_view(r) == self.run_args_spec(input, host),
    ;

    /// The flags for the subcommands that run or configure.
    spec fn config_args_spec(&self) -> Seq<FlagView>;

    /// The flags that the capability adds to the subcommands that run or
    /// configure the container.
    fn config_args(&self) -> (r: Vec<Flag>)
        ensures
            r.deep_view() == self.config_args_spec(),
    ;

    /// The flags for the subcommand that builds.
    spec fn cli_build_args_spec(&self) -> Seq<FlagView>;

    /// The flags that the capability adds to the subcommand that builds the
    /// image.
    fn cli_build_args(&self) -> (r: Vec<Flag>)
        ensures
            r.deep_view() == self.cli_build_args_spec(),
    ;

    /// The build instructions.
    spec fn dockerfile_spec(&self) -> Seq<DockerfileSnippetView>;

    /// The build instructions that the capability contributes.
    fn dockerfile_snippets(&self) -> (r: Vec<DockerfileSnippet>)
        ensures
            r.deep_view() == self.dockerfile_spec(),
    ;

    /// The files of the build context.
    spec fn container_files_spec(&self) -> Seq<ContainerFileView>;

    /// The files that the capability adds to the build context.
    fn container_files(&self) -> (r: Vec<ContainerFile>)
        ensures
            r.deep_view() == self.container_files_spec(),
    ;

    /// The steps of the start-up script, or the error that keeps them from
    /// being given.
    spec fn entrypoint_spec(&self, host: &HostFacts) -> Result<Seq<ScriptSnippetView>, ErrorView>;

    /// The steps that the capability adds to the start-up script on the
    /// given host.
    fn entrypoint_snippets(&self, host: &HostFacts) -> (r: Result<Vec<ScriptSnippet>, Error>)
        ensures
            result_view(r) == self.entrypoint_spec(host),
    ;
}

/// Whether two capabilities contribute the same in every respect.
pub open spec fn same_contributions<A: ContainerAspect + ?Sized, B: ContainerAspect + ?Sized>(
    a: &A,
    b: &B,
) -> bool {
    &&& a.name_spec() == b.name_spec()
    &&& forall|input: Option<&CliInput>, host: &HostFacts| #[trigger]
        a.run_args_spec(input, host) == b.run_args_spec(input, host)
    &&& a.config_args_spec() == b.config_args_spec()
    &&& a.cli_build_args_spec() == b.cli_build_args_spec()
    &&& a.dockerfile_spec() == b.dockerfile_spec()
    &&& a.container_files_spec() == b.container_files_spec()
    &&& forall|host: &HostFacts| #[trigger] a.entrypoint_spec(host) == b.entrypoint_spec(host)
}

/// A capability of any kind, as an element of a capability list.
pub struct Aspect {
    /// The capability.
    pub inner: Box<dyn ContainerAspect>,
}

/// The build instructions of all capabilities, in registration order.
pub open spec fn all_dockerfile_snippets(aspects: Seq<Aspect>) -> Seq<DockerfileSnippetView>
    decreases aspects.len(),
{
    if aspects.len() == 0 {
        Seq::empty()
    } else {
        all_dockerfile_snippets(aspects.drop_last()) + aspects.last().inner.dockerfile_spec()
    }
}

/// The build-context files of all capabilities, in registration order.
pub open spec fn all_container_files(aspects: Seq<Aspect>) -> Seq<ContainerFileView>
    decreases aspects.len(),
{
    if aspects.len() == 0 {
        Seq::empty()
    } else {
        all_container_files(aspects.drop_last()) + aspects.last().inner.container_files_spec()
    }
}

/// The launch arguments of all capabilities, in registration order; the
/// error of the first capability that fails, where one does.
pub open spec fn all_run_args(
    aspects: Seq<Aspect>,
    input: Option<&CliInput>,
    host: &HostFacts,
) -> Result<Seq<Seq<char>>, ErrorView>
    decreases aspects.len(),
{
    if aspects.len() == 0 {
        Ok(Seq::empty())
    } else {
        match all_run_args(aspects.drop_last(), input, host) {
            Err(e) => Err(e),
            Ok(before) => match aspects.last().inner.run_args_spec(input, host) {
                Err(e) => Err(e),
                Ok(args) => Ok(before + args),
            },
        }
    }
}

/// The start-up steps of all capabilities, in registration order; the
/// error of the first capability that fails, where one does.
pub open spec fn all_entrypoint_snippets(aspects: Seq<Aspect>, host: &HostFacts) -> Result<
    Seq<ScriptSnippetView>,
    ErrorView,
>
    decreases aspects.len(),
{
    if aspects.len() == 0 {
        Ok(Seq::empty())
    } else {
        match all_entrypoint_snippets(aspects.drop_last(), host) {
            Err(e) => Err(e),
            Ok(before) => match aspects.last().inner.entrypoint_spec(host) {
                Err(e) => Err(e),
                Ok(steps) => Ok(before + steps),
            },
        }
    }
}

/// No launch arguments.
pub fn no_args() -> (r: Result<Vec<String>, Error>)
    ensures
        result_view(r) == Ok::<Seq<Seq<char>>, ErrorView>(Seq::empty()),
{
    let v: Vec<String> = Vec::new();
    assert(v.deep_view() =~= Seq::<Seq<char>>::empty());
    Ok(v)
}

/// The two launch arguments `a` and `b`.
pub fn two_args(a: &str, b: &str) -> (r: Result<Vec<String>, Error>)
    ensures
        result_view(r) == Ok::<Seq<Seq<char>>, ErrorView>(seq![a@, b@]),
{
    let mut v: Vec<String> = Vec::new();
    v.push(String::from_str(a));
    v.push(String::from_str(b));
    assert(v.deep_view() =~= seq![a@, b@]);
    Ok(v)
}

/// No flags.
pub fn no_flags() -> (r: Vec<Flag>)
    ensures
        r.deep_view() == Seq::<FlagView>::empty(),
{
    let v: Vec<Flag> = Vec::new();
    assert(v.deep_view() =~= Seq::<FlagView>::empty());
    v
}

/// No build instructions.
pub fn no_snippets() -> (r: Vec<DockerfileSnippet>)
    ensures
        r.deep_view() == Seq::<DockerfileSnippetView>::empty(),
{
    let v: Vec<DockerfileSnippet> = Vec::new();
    assert(v.deep_view() =~= Seq::<DockerfileSnippetView>::empty());
    v
}

/// The one block of build instructions `content` under the key `order`.
pub fn one_snippet(order: u8, content: String) -> (r: Vec<DockerfileSnippet>)
    ensures
        r.deep_view() == seq![DockerfileSnippetView { order, content: content@ }],
{
    let mut v: Vec<DockerfileSnippet> = Vec::new();
    v.push(DockerfileSnippet { order, content });
    assert(v.deep_view() =~= seq![DockerfileSnippetView { order, content: content@ }]);
    v
}

/// No build-context files.
pub fn no_files() -> (r: Vec<ContainerFile>)
    ensures
        r.deep_view() == Seq::<ContainerFileView>::empty(),
{
    let v: Vec<ContainerFile> = Vec::new();
    assert(v.deep_view() =~= Seq::<ContainerFileView>::empty());
    v
}

/// No start-up steps.
pub fn no_steps() -> (r: Result<Vec<ScriptSnippet>, Error>)
    ensures
        result_view(r) == Ok::<Seq<ScriptSnippetView>, ErrorView>(Seq::empty()),
{
    let v: Vec<ScriptSnippet> = Vec::new();
    assert(v.deep_view() =~= Seq::<ScriptSnippetView>::empty());
    Ok(v)
}

/// The one start-up step `step`, or the error in its place.
pub fn one_step(step: Result<ScriptSnippet, Error>) -> (r: Result<Vec<ScriptSnippet>, Error>)
    ensures
        result_view(r) == match snippet_result_view(step) {
            Ok(s) => Ok::<Seq<ScriptSnippetView>, ErrorView>(seq![s]),
            Err(e) => Err(e),
        },
{
    match step {
        Ok(s) => {
            let mut v: Vec<ScriptSnippet> = Vec::new();
            let ghost sv = s.deep_view();
            v.push(s);
            assert(v.deep_view() =~= seq![sv]);
            Ok(v)
        },
        Err(e) => Err(e),
    }
}

/// The start-up step `first` followed by `second`, or the error in place of
/// `second`.
pub fn step_then(first: ScriptSnippet, second: Result<ScriptSnippet, Error>) -> (r: Result<
    Vec<ScriptSnippet>,
    Error,
>)
    ensures
        result_view(r) == match snippet_result_view(second) {
            Ok(s) => Ok::<Seq<ScriptSnippetView>, ErrorView>(seq![first.deep_view(), s]),
            Err(e) => Err(e),
        },
{
    match second {
        Ok(s) => {
            let mut v: Vec<ScriptSnippet> = Vec::new();
            let ghost fv = first.deep_view();
            let ghost sv = s.deep_view();
            v.push(first);
            v.push(s);
            assert(v.deep_view() =~= seq![fv, sv]);
            Ok(v)
        },
        Err(e) => Err(e),
    }
}

/// The error of a capability named `aspect` that needs the unset
/// environment variable `variable`.
pub open spec fn missing_variable(aspect: Seq<char>, variable: Seq<char>) -> ErrorView {
    ErrorView::MissingEnvironment { aspect, variable }
}

/// The value of an environment variable that the capability `aspect`
/// needs, or the error that names the variable.
pub fn required<'a>(value: &'a Option<String>, aspect: &str, variable: &str) -> (r: Result<
    &'a String,
    Error,
>)
    ensures
        match *value {
            Some(v) => r == Ok::<&String, Error>(&v),
            None => r is Err && r->Err_0.deep_view() == missing_variable(aspect@, variable@),
        },
{
    match value {
        Some(v) => Ok(v),
        None => Err(
            Error::MissingEnvironment {
                aspect: String::from_str(aspect),
                variable: String::from_str(variable),
            },
        ),
    }
}


/// Once a capability has failed, the error stays whatever follows: the
/// start-up steps of a list are those of any prefix that fails.
pub proof fn lemma_entrypoint_error_stays(aspects: Seq<Aspect>, host: &HostFacts, n: int)
    requires
        0 <= n <= aspects.len(),
        all_entrypoint_snippets(aspects.take(n), host) is Err,
    ensures
        all_entrypoint_snippets(aspects, host) == all_entrypoint_snippets(aspects.take(n), host),
    decreases aspects.len() - n,
{
    if n < aspects.len() {
        assert(aspects.take(n + 1).drop_last() =~= aspects.take(n));
        lemma_entrypoint_error_stays(aspects, host, n + 1);
    } else {
        assert(aspects.take(n) =~= aspects);
    }
}

/// Once a capability has failed, the error stays whatever follows: the
/// launch arguments of a list are those of any prefix that fails.
pub proof fn lemma_run_args_error_stays(
    aspects: Seq<Aspect>,
    input: Option<&CliInput>,
    host: &HostFacts,
    n: int,
)
    requires
        0 <= n <= aspects.len(),
        all_run_args(aspects.take(n), input, host) is Err,
    ensures
        all_run_args(aspects, input, host) == all_run_args(aspects.take(n), input, host),
    decreases aspects.len() - n,
{
    if n < aspects.len() {
        assert(aspects.take(n + 1).drop_last() =~= aspects.take(n));
        lemma_run_args_error_stays(aspects, input, host, n + 1);
    } else {
        assert(aspects.take(n) =~= aspects);
    }
}

/// Gathers the build instructions of all capabilities, in registration
/// order.
pub fn collect_dockerfile_snippets(aspects: &Vec<Aspect>) -> (r: Vec<DockerfileSnippet>)
    ensures
        r.deep_view() == all_dockerfile_snippets(aspects@),
{
    let mut out: Vec<DockerfileSnippet> = Vec::new();
    let mut i: usize = 0;
    proof {
        assert(aspects@.take(0) =~= Seq::<Aspect>::empty());
        assert(out.deep_view() =~= Seq::<DockerfileSnippetView>::empty());
    }
    while i < aspects.len()
        invariant
            i <= aspects@.len(),
            out.deep_view() == all_dockerfile_snippets(aspects@.take(i as int)),
        decreases aspects@.len() - i,
    {
        let ghost before = out.deep_view();
        let mut more = aspects[i].inner.dockerfile_snippets();
        let ghost added = more.deep_view();
        out.append(&mut more);
        proof {
            assert(aspects@.take(i + 1).drop_last() =~= aspects@.take(i as int));
            assert(aspects@.take(i + 1).last() == aspects@[i as int]);
            assert(out.deep_view() =~= before + added);
        }
        i += 1;
    }
    proof {
        assert(aspects@.take(aspects@.len() as int) =~= aspects@);
    }
    out
}

/// Gathers the build-context files of all capabilities, in registration
/// order.
pub fn collect_container_files(aspects: &Vec<Aspect>) -> (r: Vec<ContainerFile>)
    ensures
        r.deep_view() == all_container_files(aspects@),
{
    let mut out: Vec<ContainerFile> = Vec::new();
    let mut i: usize = 0;
    proof {
        assert(aspects@.take(0) =~= Seq::<Aspect>::empty());
        assert(out.deep_view() =~= Seq::<ContainerFileView>::empty());
    }
    while i < aspects.len()
        invariant
            i <= aspects@.len(),
            out.deep_view() == all_container_files(aspects@.take(i as int)),
        decreases aspects@.len() - i,
    {
        let ghost before = out.deep_view();
        let mut more = aspects[i].inner.container_files();
        let ghost added = more.deep_view();
        out.append(&mut more);
        proof {
            assert(aspects@.take(i + 1).drop_last() =~= aspects@.take(i as int));
            assert(aspects@.take(i + 1).last() == aspects@[i as int]);
            assert(out.deep_view() =~= before + added);
        }
        i += 1;
    }
    proof {
        assert(aspects@.take(aspects@.len() as int) =~= aspects@);
    }
    out
}

/// Gathers the launch arguments of all capabilities, in registration
/// order. Fails with the error of the first capability that fails.
pub fn collect_run_args(aspects: &Vec<Aspect>, input: Option<&CliInput>, host: &HostFacts) -> (r:
    Result<Vec<String>, Error>)
    ensures
        result_view(r) == all_run_args(aspects@, input, host),
{
    let mut out: Vec<String> = Vec::new();
    let mut i: usize = 0;
    proof {
        assert(aspects@.take(0) =~= Seq::<Aspect>::empty());
        assert(out.deep_view() =~= Seq::<Seq<char>>::empty());
    }
    while i < aspects.len()
        invariant
            i <= aspects@.len(),
            all_run_args(aspects@.take(i as int), input, host) == Ok::<Seq<Seq<char>>, ErrorView>(
                out.deep_view(),
            ),
        decreases aspects@.len() - i,
    {
        let ghost before = out.deep_view();
        proof {
            assert(aspects@.take(i + 1).drop_last() =~= aspects@.take(i as int));
            assert(aspects@.take(i + 1).last() == aspects@[i as int]);
        }
        match aspects[i].inner.run_args(input, host) {
            Ok(mut more) => {
                let ghost added = more.deep_view();
                out.append(&mut more);
                assert(out.deep_view() =~= before + added);
            },
            Err(e) => {
                proof {
                    lemma_run_args_error_stays(aspects@, input, host, i + 1);
                }
                return Err(e);
            },
        }
        i += 1;
    }
    proof {
        assert(aspects@.take(aspects@.len() as int) =~= aspects@);
    }
    Ok(out)
}

/// Gathers the start-up steps of all capabilities, in registration order.
/// Fails with the error of the first capability that fails.
pub fn collect_entrypoint_snippets(aspects: &Vec<Aspect>, host: &HostFacts) -> (r: Result<
    Vec<ScriptSnippet>,
    Error,
>)
    ensures
        result_view(r) == all_entrypoint_snippets(aspects@, host),
{
    let mut out: Vec<ScriptSnippet> = Vec::new();
    let mut i: usize = 0;
    proof {
        assert(aspects@.take(0) =~= Seq::<Aspect>::empty());
        assert(out.deep_view() =~= Seq::<ScriptSnippetView>::empty());
    }
    while i < aspects.len()
        invariant
            i <= aspects@.len(),
            all_entrypoint_snippets(aspects@.take(i as int), host) == Ok::<
                Seq<ScriptSnippetView>,
                ErrorView,
            >(out.deep_view()),
        decreases aspects@.len() - i,
    {
        let ghost before = out.deep_view();
        proof {
            assert(aspects@.take(i + 1).drop_last() =~= aspects@.take(i as int));
            assert(aspects@.take(i + 1).last() == aspects@[i as int]);
        }
        match aspects[i].inner.entrypoint_snippets(host) {
            Ok(mut more) => {
                let ghost added = more.deep_view();
                out.append(&mut more);
                assert(out.deep_view() =~= before + added);
            },
            Err(e) => {
                proof {
                    lemma_entrypoint_error_stays(aspects@, host, i + 1);
                }
                return Err(e);
            },
        }
        i += 1;
    }
    proof {
        assert(aspects@.take(aspects@.len() as int) =~= aspects@);
    }
    Ok(out)
}


/// The flags that all capabilities add to the subcommands that run or
/// configure, in registration order.
pub open spec fn all_config_args(aspects: Seq<Aspect>) -> Seq<FlagView>
    decreases aspects.len(),
{
    if aspects.len() == 0 {
        Seq::empty()
    } else {
        all_config_args(aspects.drop_last()) + aspects.last().inner.config_args_spec()
    }
}

/// The flags that all capabilities add to the subcommand that builds, in
/// registration order.
pub open spec fn all_build_args(aspects: Seq<Aspect>) -> Seq<FlagView>
    decreases aspects.len(),
{
    if aspects.len() == 0 {
        Seq::empty()
    } else {
        all_build_args(aspects.drop_last()) + aspects.last().inner.cli_build_args_spec()
    }
}

/// Gathers the flags that the capabilities add to the subcommands that run
/// or configure, in registration order.
pub fn collect_config_args(aspects: &Vec<Aspect>) -> (r: Vec<Flag>)
    ensures
        r.deep_view() == all_config_args(aspects@),
{
    let mut out: Vec<Flag> = Vec::new();
    let mut i: usize = 0;
    proof {
        assert(aspects@.take(0) =~= Seq::<Aspect>::empty());
        assert(out.deep_view() =~= Seq::<FlagView>::empty());
    }
    while i < aspects.len()
        invariant
            i <= aspects@.len(),
            out.deep_view() == all_config_args(aspects@.take(i as int)),
        decreases aspects@.len() - i,
    {
        let ghost before = out.deep_view();
        let mut more = aspects[i].inner.config_args();
        let ghost added = more.deep_view();
        out.append(&mut more);
        proof {
            assert(aspects@.take(i + 1).drop_last() =~= aspects@.take(i as int));
            assert(aspects@.take(i + 1).last() == aspects@[i as int]);
            assert(out.deep_view() =~= before + added);
        }
        i += 1;
    }
    proof {
        assert(aspects@.take(aspects@.len() as int) =~= aspects@);
    }
    out
}

/// Gathers the flags that the capabilities add to the subcommand that
/// builds, in registration order.
pub fn collect_build_args(aspects: &Vec<Aspect>) -> (r: Vec<Flag>)
    ensures
        r.deep_view() == all_build_args(aspects@),
{
    let mut out: Vec<Flag> = Vec::new();
    let mut i: usize = 0;
    proof {
        assert(aspects@.take(0) =~= Seq::<Aspect>::empty());
        assert(out.deep_view() =~= Seq::<FlagView>::empty());
    }
    while i < aspects.len()
        invariant
            i <= aspects@.len(),
            out.deep_view() == all_build_args(aspects@.take(i as int)),
        decreases aspects@.len() - i,
    {
        let ghost before = out.deep_view();
        let mut more = aspects[i].inner.cli_build_args();
        let ghost added = more.deep_view();
        out.append(&mut more);
        proof {
            assert(aspects@.take(i + 1).drop_last() =~= aspects@.take(i as int));
            assert(aspects@.take(i + 1).last() == aspects@[i as int]);
            assert(out.deep_view() =~= before + added);
        }
        i += 1;
    }
    proof {
        assert(aspects@.take(aspects@.len() as int) =~= aspects@);
    }
    out
}

} // verus!
