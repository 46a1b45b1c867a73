//! The build instructions of an image, composed from the blocks that
//! capabilities contribute.
//!
//! Blocks are taken in ascending order of their keys. Blocks under one key
//! stand in registration order, separated by a newline; between the blocks
//! of one key and those of the next stands an empty line. Nothing stands
//! before the first block or behind the last.

use vstd::prelude::*;
use crate::aspects::{
    ContainerAspect, DBus, Debian, DockerfileSnippet, DockerfileSnippetView, Locale, PulseAudio,
    Timezone, Ubuntu, Video, X11,
};
use crate::fragments::{
    lemma_largest_key_last, lemma_order_across_keys, lemma_registration_order_within_key,
    lemma_smaller_key_first, ordered_text, render_ordered, Fragment, FragmentView,
};

verus! {

/// The file name of the build instructions in the build context.
pub const DOCKERFILE: &'static str = "Dockerfile";

/// What separates two blocks under one key.
pub const BLOCK_SEPARATOR: &'static str = "\n";

/// What separates the blocks of one key from those of the next.
pub const STAGE_SEPARATOR: &'static str = "\n\n";

/// One block as an ordered fragment.
pub open spec fn dockerfile_fragment(snippet: DockerfileSnippetView) -> FragmentView {
    FragmentView { order: snippet.order as u16, text: snippet.content }
}

/// The blocks as ordered fragments.
pub open spec fn dockerfile_fragments(snippets: Seq<DockerfileSnippetView>) -> Seq<FragmentView> {
    Seq::new(snippets.len(), |i: int| dockerfile_fragment(snippets[i]))
}

/// The build instructions composed of the given blocks.
pub open spec fn dockerfile_text(snippets: Seq<DockerfileSnippetView>) -> Seq<char> {
    ordered_text(dockerfile_fragments(snippets), BLOCK_SEPARATOR@, STAGE_SEPARATOR@)
}

/// Blocks under one key keep their registration order: the first, a
/// newline, the second.
pub proof fn lemma_dockerfile_same_key(x: DockerfileSnippetView, y: DockerfileSnippetView)
    requires
        x.order == y.order,
    ensures
        dockerfile_text(seq![x, y]) == x.content + BLOCK_SEPARATOR@ + y.content,
{
    assert(dockerfile_fragments(seq![x, y]) =~= seq![
        dockerfile_fragment(x),
        dockerfile_fragment(y),
    ]);
    lemma_registration_order_within_key(
        dockerfile_fragment(x),
        dockerfile_fragment(y),
        BLOCK_SEPARATOR@,
        STAGE_SEPARATOR@,
    );
}

/// Blocks under different keys stand in ascending order of their keys,
/// with an empty line between them, whichever was registered first.
pub proof fn lemma_dockerfile_ascending(x: DockerfileSnippetView, y: DockerfileSnippetView)
    requires
        x.order < y.order,
    ensures
        dockerfile_text(seq![x, y]) == x.content + STAGE_SEPARATOR@ + y.content,
        dockerfile_text(seq![y, x]) == x.content + STAGE_SEPARATOR@ + y.content,
{
    assert(dockerfile_fragments(seq![x, y]) =~= seq![
        dockerfile_fragment(x),
        dockerfile_fragment(y),
    ]);
    assert(dockerfile_fragments(seq![y, x]) =~= seq![
        dockerfile_fragment(y),
        dockerfile_fragment(x),
    ]);
    lemma_smaller_key_first(
        dockerfile_fragment(x),
        dockerfile_fragment(y),
        BLOCK_SEPARATOR@,
        STAGE_SEPARATOR@,
    );
}

/// Anywhere in a list, two neighbouring blocks under different keys give
/// the same build instructions in either order.
pub proof fn lemma_dockerfile_order_across_keys(
    before: Seq<DockerfileSnippetView>,
    x: DockerfileSnippetView,
    y: DockerfileSnippetView,
)
    requires
        x.order != y.order,
    ensures
        dockerfile_text(before.push(x).push(y)) == dockerfile_text(before.push(y).push(x)),
{
    let fb = dockerfile_fragments(before);
    assert(dockerfile_fragments(before.push(x).push(y)) =~= fb.push(dockerfile_fragment(x)).push(
        dockerfile_fragment(y),
    ));
    assert(dockerfile_fragments(before.push(y).push(x)) =~= fb.push(dockerfile_fragment(y)).push(
        dockerfile_fragment(x),
    ));
    lemma_order_across_keys(
        fb,
        dockerfile_fragment(x),
        dockerfile_fragment(y),
        BLOCK_SEPARATOR@,
        STAGE_SEPARATOR@,
    );
}

/// Every block of `snippets` has a key below `key`.
pub open spec fn blocks_below(snippets: Seq<DockerfileSnippetView>, key: int) -> bool {
    forall|i: int| 0 <= i < snippets.len() ==> (#[trigger] snippets[i]).order < key
}

/// The block with the largest key comes last: it stands behind all other
/// blocks, an empty line before it, wherever among them it was registered.
/// So what installs the application, under a key above those of everything
/// it builds on, ends the build instructions.
pub proof fn lemma_dockerfile_largest_key_last(
    before: Seq<DockerfileSnippetView>,
    after: Seq<DockerfileSnippetView>,
    x: DockerfileSnippetView,
)
    requires
        blocks_below(before, x.order as int),
        blocks_below(after, x.order as int),
    ensures
        dockerfile_text(before.push(x) + after) == if before.len() + after.len() == 0 {
            x.content
        } else {
            dockerfile_text(before + after) + STAGE_SEPARATOR@ + x.content
        },
{
    let fb = dockerfile_fragments(before);
    let fa = dockerfile_fragments(after);
    let fx = dockerfile_fragment(x);
    assert(dockerfile_fragments(before.push(x) + after) =~= fb.push(fx) + fa);
    assert(dockerfile_fragments(before + after) =~= fb + fa);
    assert forall|i: int| 0 <= i < fb.len() implies (#[trigger] fb[i]).order < fx.order as int by {
        assert(before[i].order < x.order);
    }
    assert forall|i: int| 0 <= i < fa.len() implies (#[trigger] fa[i]).order < fx.order as int by {
        assert(after[i].order < x.order);
    }
    lemma_largest_key_last(fb, fa, fx, BLOCK_SEPARATOR@, STAGE_SEPARATOR@);
}

/// The first key of the blocks that install the application. The blocks
/// of everything that an application builds on stay below it.
pub const APPLICATION_ORDER: u8 = 90;

/// The capabilities that come with the library stay below the keys of
/// applications: base images, host integration, locale and timezone are
/// composed before whatever installs the application.
pub proof fn lemma_built_in_below_application(
    debian: Debian,
    ubuntu: Ubuntu,
    locale: Locale,
    timezone: Timezone,
)
    ensures
        blocks_below(debian.dockerfile_spec(), APPLICATION_ORDER as int),
        blocks_below(ubuntu.dockerfile_spec(), APPLICATION_ORDER as int),
        blocks_below(PulseAudio {}.dockerfile_spec(), APPLICATION_ORDER as int),
        blocks_below(X11 {}.dockerfile_spec(), APPLICATION_ORDER as int),
        blocks_below(Video {}.dockerfile_spec(), APPLICATION_ORDER as int),
        blocks_below(DBus {}.dockerfile_spec(), APPLICATION_ORDER as int),
        blocks_below(locale.dockerfile_spec(), APPLICATION_ORDER as int),
        blocks_below(timezone.dockerfile_spec(), APPLICATION_ORDER as int),
{
}

/// Composes the build instructions of the given blocks.
pub fn render_dockerfile(snippets: &Vec<DockerfileSnippet>) -> (r: String)
    ensures
        r@ == dockerfile_text(snippets.deep_view()),
{
    let ghost sv = snippets.deep_view();
    let mut frags: Vec<Fragment> = Vec::new();
    let mut i: usize = 0;
    while i < snippets.len()
        invariant
            i <= snippets@.len(),
            sv == snippets.deep_view(),
            frags.deep_view() == dockerfile_fragments(sv).take(i as int),
        decreases snippets@.len() - i,
    {
        let ghost before = frags.deep_view();
        frags.push(Fragment { order: snippets[i].order as u16, text: snippets[i].content.clone() });
        proof {
            assert(sv[i as int] == snippets@[i as int].deep_view());
            assert(frags.deep_view() =~= before.push(dockerfile_fragments(sv)[i as int]));
            assert(frags.deep_view() =~= dockerfile_fragments(sv).take(i + 1));
        }
        i += 1;
    }
    proof {
        assert(dockerfile_fragments(sv).take(sv.len() as int) =~= dockerfile_fragments(sv));
    }
    render_ordered(&frags, BLOCK_SEPARATOR, STAGE_SEPARATOR)
}

} // verus!
