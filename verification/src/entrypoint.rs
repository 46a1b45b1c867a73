//! The start-up script: privileged set-up that runs inside the container
//! before the requested command.
//!
//! Capabilities contribute [`ScriptSnippet`]s. The script begins as `root`,
//! runs the snippets in ascending order of their keys (snippets under one
//! key in registration order), each under a comment made of its
//! description, and ends by running the requested command as whichever user
//! the snippets left in `$USER`.

use vstd::prelude::*;
use crate::aspects::integration::VOLUME_FLAG;
use crate::aspects::settings::{mount_volume, mount_volume_string};
use crate::aspects::{all_entrypoint_snippets, collect_entrypoint_snippets, no_args, Aspect};
use crate::dirs::{join_path, joined_path};
use crate::error::{result_view, Error, ErrorView};
use crate::fragments::{
    lemma_registration_order_within_key, lemma_smaller_key_first, ordered_text, render_ordered,
    Fragment, FragmentView,
};
use crate::host::HostFacts;
use crate::text::{decimal, decimal_string, lines, split_lines, views};

verus! {

/// One step of the start-up script.
#[derive(Debug)]
pub struct ScriptSnippet {
    /// What the step does; rendered as a comment above it.
    pub description: String,
    /// The key: steps with smaller keys run first.
    pub order: u16,
    /// The shell code of the step.
    pub snippet: String,
}

/// A [`ScriptSnippet`] with its texts as character sequences.
pub struct ScriptSnippetView {
    pub description: Seq<char>,
    pub order: u16,
    pub snippet: Seq<char>,
}

impl DeepView for ScriptSnippet {
    type V = ScriptSnippetView;

    open spec fn deep_view(&self) -> ScriptSnippetView {
        ScriptSnippetView {
            description: self.description@,
            order: self.order,
            snippet: self.snippet@,
        }
    }
}

impl Clone for ScriptSnippet {
    fn clone(&self) -> (r: Self)
        ensures
            r == *self,
    {
        ScriptSnippet {
            description: self.description.clone(),
            order: self.order,
            snippet: self.snippet.clone(),
        }
    }
}

/// The file name of the start-up script.
pub const ENTRYPOINT_SETUP_SCRIPT: &'static str = "entrypoint.bash";

/// Where the start-up script is mounted inside the container, and what the
/// entry point of the container is set to.
pub const CONTAINER_ENTRYPOINT: &'static str = "/entrypoint.bash";

/// The first lines of every start-up script.
pub const SCRIPT_HEADER: &'static str = "#!/usr/bin/env bash\nUSER=root\n";

/// The last lines of every start-up script.
pub const SCRIPT_FOOTER: &'static str =
    "\n# execute whatever command was specified\nsudo --user $USER $@";

/// What stands before each line of a description.
pub const COMMENT_PREFIX: &'static str = "### ";

/// The end of a line.
pub const NEWLINE: &'static str = "\n";

/// The empty text.
pub const NOTHING: &'static str = "";

/// The comment made of the given lines: each behind the comment prefix, on
/// a line of its own.
pub open spec fn comment_text(description_lines: Seq<Seq<char>>) -> Seq<char>
    decreases description_lines.len(),
{
    if description_lines.len() == 0 {
        Seq::empty()
    } else {
        comment_text(description_lines.drop_last()) + COMMENT_PREFIX@ + description_lines.last()
            + NEWLINE@
    }
}

/// The rendering of one step: its description as a comment, then its code
/// on lines of its own.
pub open spec fn block_text(snippet: ScriptSnippetView) -> Seq<char> {
    comment_text(lines(snippet.description)) + snippet.snippet + NEWLINE@
}

/// The steps as ordered fragments, each rendered.
pub open spec fn script_fragments(snippets: Seq<ScriptSnippetView>) -> Seq<FragmentView> {
    Seq::new(
        snippets.len(),
        |i: int| FragmentView { order: snippets[i].order, text: block_text(snippets[i]) },
    )
}

/// The whole start-up script for the given steps.
pub open spec fn script_text(snippets: Seq<ScriptSnippetView>) -> Seq<char> {
    SCRIPT_HEADER@ + ordered_text(script_fragments(snippets), NOTHING@, NOTHING@)
        + SCRIPT_FOOTER@
}

/// Steps run in ascending order of their keys, whichever was registered
/// first, and steps under one key in registration order: of two steps the
/// one with the smaller key stands first, and with equal keys the one that
/// was registered first.
pub proof fn lemma_script_order(x: ScriptSnippetView, y: ScriptSnippetView)
    requires
        x.order <= y.order,
    ensures
        script_text(seq![x, y]) == SCRIPT_HEADER@ + (block_text(x) + block_text(y))
            + SCRIPT_FOOTER@,
        x.order < y.order ==> script_text(seq![y, x]) == script_text(seq![x, y]),
{
    reveal_strlit("");
    let fx = FragmentView { order: x.order, text: block_text(x) };
    let fy = FragmentView { order: y.order, text: block_text(y) };
    assert(script_fragments(seq![x, y]) =~= seq![fx, fy]);
    assert(script_fragments(seq![y, x]) =~= seq![fy, fx]);
    assert(NOTHING@ =~= Seq::<char>::empty());
    assert(fx.text + NOTHING@ + fy.text =~= block_text(x) + block_text(y));
    if x.order < y.order {
        lemma_smaller_key_first(fx, fy, NOTHING@, NOTHING@);
    } else {
        lemma_registration_order_within_key(fx, fy, NOTHING@, NOTHING@);
    }
}

/// Renders one step.
fn render_block(snippet: &ScriptSnippet) -> (r: String)
    ensures
        r@ == block_text(snippet.deep_view()),
{
    let description_lines = split_lines(snippet.description.as_str());
    let ghost all = lines(snippet.description@);
    let mut out = String::new();
    let mut i: usize = 0;
    proof {
        assert(all.take(0) =~= Seq::<Seq<char>>::empty());
    }
    while i < description_lines.len()
        invariant
            i <= description_lines@.len(),
            views(description_lines@) == all,
            out@ == comment_text(all.take(i as int)),
        decreases description_lines@.len() - i,
    {
        proof {
            assert(all.take(i + 1).drop_last() =~= all.take(i as int));
            assert(all.take(i + 1).last() == description_lines@[i as int]@);
        }
        out.append(COMMENT_PREFIX);
        out.append(description_lines[i].as_str());
        out.append(NEWLINE);
        i += 1;
    }
    proof {
        assert(all.take(all.len() as int) =~= all);
    }
    out.append(snippet.snippet.as_str());
    out.append(NEWLINE);
    out
}

/// Renders the start-up script for the given steps.
pub fn render_script(snippets: &Vec<ScriptSnippet>) -> (r: String)
    ensures
        r@ == script_text(snippets.deep_view()),
{
    let ghost sv = snippets.deep_view();
    let mut frags: Vec<Fragment> = Vec::new();
    let mut i: usize = 0;
    while i < snippets.len()
        invariant
            i <= snippets@.len(),
            sv == snippets.deep_view(),
            frags.deep_view() == script_fragments(sv).take(i as int),
        decreases snippets@.len() - i,
    {
        let text = render_block(&snippets[i]);
        let ghost before = frags.deep_view();
        frags.push(Fragment { order: snippets[i].order, text });
        proof {
            assert(sv[i as int] == snippets@[i as int].deep_view());
            assert(frags.deep_view() =~= before.push(script_fragments(sv)[i as int]));
            assert(frags.deep_view() =~= script_fragments(sv).take(i + 1));
        }
        i += 1;
    }
    proof {
        assert(script_fragments(sv).take(sv.len() as int) =~= script_fragments(sv));
    }
    let body = render_ordered(&frags, NOTHING, NOTHING);
    let mut out = String::from_str(SCRIPT_HEADER);
    out.append(body.as_str());
    out.append(SCRIPT_FOOTER);
    out
}

/// The description of the step that [`group_setup`] gives.
pub const GROUP_SETUP_DESCRIPTION: &'static str = "configure video group for container user";

/// The key of the step that [`group_setup`] gives.
pub const GROUP_SETUP_ORDER: u16 = 5;

/// The name reported where the current user has no account.
pub const UNKNOWN_USER: &'static str = "<unknown>";

/// The command that adds a user to a group.
pub const GROUP_SETUP_ADDUSER: &'static str = "adduser ";

/// What separates the words of a command.
pub const GROUP_SETUP_SPACE: &'static str = " ";

/// The command that gives a group its number.
pub const GROUP_SETUP_GROUPMOD: &'static str = "\ngroupmod -g ";

/// The end of the code of the step that [`group_setup`] gives.
pub const GROUP_SETUP_END: &'static str = "\n        ";

/// The shell code that adds `user` to the group `group` and gives the group
/// the number `gid`.
pub open spec fn group_setup_code(user: Seq<char>, group: Seq<char>, gid: u32) -> Seq<char> {
    GROUP_SETUP_ADDUSER@ + user + GROUP_SETUP_SPACE@ + group + GROUP_SETUP_GROUPMOD@ + decimal(
        gid as nat,
    ) + GROUP_SETUP_SPACE@ + group + GROUP_SETUP_END@
}

/// The step that makes the container's user a member of the host's group
/// `group_name` under the host's group number: an error where the current
/// user has no account, else an error where the host has no such group.
pub open spec fn group_setup_spec(group_name: Seq<char>, host: &HostFacts) -> Result<
    ScriptSnippetView,
    ErrorView,
> {
    match host.current_username {
        None => Err(ErrorView::MissingUser(UNKNOWN_USER@)),
        Some(user) => match host.group_named(group_name) {
            None => Err(ErrorView::MissingGroup(group_name)),
            Some(group) => Ok(
                ScriptSnippetView {
                    description: GROUP_SETUP_DESCRIPTION@,
                    order: GROUP_SETUP_ORDER,
                    snippet: group_setup_code(user@, group.name@, group.gid),
                },
            ),
        },
    }
}

/// The view of a result that holds one step.
pub open spec fn snippet_result_view(r: Result<ScriptSnippet, Error>) -> Result<
    ScriptSnippetView,
    ErrorView,
> {
    match r {
        Ok(s) => Ok(s.deep_view()),
        Err(e) => Err(e.deep_view()),
    }
}

/// The step that makes the container's user a member of the host's group
/// `group_name`, under the number that the group has on the host.
pub fn group_setup(group_name: &str, host: &HostFacts) -> (r: Result<ScriptSnippet, Error>)
    ensures
        snippet_result_view(r) == group_setup_spec(group_name@, host),
{
    let user = match &host.current_username {
        Some(n) => n,
        None => {
            return Err(Error::MissingUser(String::from_str(UNKNOWN_USER)));
        },
    };
    let group = match host.find_group(group_name) {
        Some(g) => g,
        None => {
            return Err(Error::MissingGroup(String::from_str(group_name)));
        },
    };
    let mut code = String::from_str(GROUP_SETUP_ADDUSER);
    code.append(user.as_str());
    code.append(GROUP_SETUP_SPACE);
    code.append(group.name.as_str());
    code.append(GROUP_SETUP_GROUPMOD);
    code.append(decimal_string(group.gid).as_str());
    code.append(GROUP_SETUP_SPACE);
    code.append(group.name.as_str());
    code.append(GROUP_SETUP_END);
    Ok(
        ScriptSnippet {
            description: String::from_str(GROUP_SETUP_DESCRIPTION),
            order: GROUP_SETUP_ORDER,
            snippet: code,
        },
    )
}


/// The launch flag that replaces the entry point of the image.
pub const ENTRYPOINT_FLAG: &'static str = "--entrypoint";

/// The launch arguments that mount the start-up script kept in the working
/// directory `tmpdir` into the container and make it the entry point.
pub open spec fn script_args(tmpdir: Seq<char>) -> Seq<Seq<char>> {
    seq![
        VOLUME_FLAG@,
        mount_volume(joined_path(tmpdir, ENTRYPOINT_SETUP_SCRIPT@), CONTAINER_ENTRYPOINT@),
        ENTRYPOINT_FLAG@,
        CONTAINER_ENTRYPOINT@,
    ]
}

/// Where the start-up script is kept on the host, below the working
/// directory `tmpdir`.
pub fn script_path(tmpdir: &str) -> (r: String)
    ensures
        r@ == joined_path(tmpdir@, ENTRYPOINT_SETUP_SCRIPT@),
{
    join_path(tmpdir, ENTRYPOINT_SETUP_SCRIPT)
}

/// The launch arguments that mount the start-up script kept in the working
/// directory `tmpdir` into the container and make it the entry point.
pub fn run_args(tmpdir: &str) -> (r: Result<Vec<String>, Error>)
    ensures
        result_view(r) == Ok::<Seq<Seq<char>>, ErrorView>(script_args(tmpdir@)),
{
    let local = script_path(tmpdir);
    let mut args: Vec<String> = Vec::new();
    args.push(String::from_str(VOLUME_FLAG));
    args.push(mount_volume_string(local.as_str(), CONTAINER_ENTRYPOINT));
    args.push(String::from_str(ENTRYPOINT_FLAG));
    args.push(String::from_str(CONTAINER_ENTRYPOINT));
    assert(args.deep_view() =~= script_args(tmpdir@));
    Ok(args)
}

/// What the start-up script adds to the launch arguments: nothing where no
/// capability contributes a step, so that the image's own entry point stays
/// in place; else the arguments that put the script in its place. The error
/// of the first capability that fails, where one does.
pub open spec fn setup_spec(tmpdir: Seq<char>, aspects: Seq<Aspect>, host: &HostFacts) -> Result<
    Seq<Seq<char>>,
    ErrorView,
> {
    match all_entrypoint_snippets(aspects, host) {
        Err(e) => Err(e),
        Ok(steps) => if steps.len() == 0 {
            Ok(Seq::empty())
        } else {
            Ok(script_args(tmpdir))
        },
    }
}

/// The start-up script that has to be written to the working directory
/// before the container is launched: none where no capability contributes
/// a step. The error of the first capability that fails, where one does.
pub open spec fn script_spec(aspects: Seq<Aspect>, host: &HostFacts) -> Result<
    Option<Seq<char>>,
    ErrorView,
> {
    match all_entrypoint_snippets(aspects, host) {
        Err(e) => Err(e),
        Ok(steps) => if steps.len() == 0 {
            Ok(None)
        } else {
            Ok(Some(script_text(steps)))
        },
    }
}

/// Capabilities without start-up steps add no launch arguments and need no
/// script.
pub proof fn lemma_no_steps_no_script(tmpdir: Seq<char>, aspects: Seq<Aspect>, host: &HostFacts)
    requires
        all_entrypoint_snippets(aspects, host) == Ok::<Seq<ScriptSnippetView>, ErrorView>(
            Seq::empty(),
        ),
    ensures
        setup_spec(tmpdir, aspects, host) == Ok::<Seq<Seq<char>>, ErrorView>(Seq::empty()),
        script_spec(aspects, host) == Ok::<Option<Seq<char>>, ErrorView>(None),
{
}

/// What the start-up script of the given capabilities adds to the launch
/// arguments.
pub fn setup(tmpdir: &str, aspects: &Vec<Aspect>, host: &HostFacts) -> (r: Result<
    Vec<String>,
    Error,
>)
    ensures
        result_view(r) == setup_spec(tmpdir@, aspects@, host),
{
    let scripts = match collect_entrypoint_snippets(aspects, host) {
        Ok(s) => s,
        Err(e) => {
            return Err(e);
        },
    };
    if scripts.len() == 0 {
        return no_args();
    }
    run_args(tmpdir)
}

/// The view of a result that holds an optional text.
pub open spec fn script_result_view(r: Result<Option<String>, Error>) -> Result<
    Option<Seq<char>>,
    ErrorView,
> {
    match r {
        Ok(Some(s)) => Ok(Some(s@)),
        Ok(None) => Ok(None),
        Err(e) => Err(e.deep_view()),
    }
}

/// The start-up script of the given capabilities, where they need one.
pub fn script(aspects: &Vec<Aspect>, host: &HostFacts) -> (r: Result<Option<String>, Error>)
    ensures
        script_result_view(r) == script_spec(aspects@, host),
{
    let scripts = match collect_entrypoint_snippets(aspects, host) {
        Ok(s) => s,
        Err(e) => {
            return Err(e);
        },
    };
    if scripts.len() == 0 {
        return Ok(None);
    }
    Ok(Some(render_script(&scripts)))
}

} // verus!
