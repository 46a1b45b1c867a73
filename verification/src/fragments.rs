//! Ordered fragments: pieces of text that independent capabilities
//! contribute, each under an order key.
//!
//! The rendering of a list of fragments takes the keys in ascending order.
//! The fragments that share a key form one group; within a group they stand
//! in the order in which they were registered, with a separator between
//! neighbours. The groups are joined by a separator of their own: nothing
//! stands before the first group or behind the last. Where the fragments
//! were registered relative to those of other keys has no effect.

use vstd::prelude::*;
use crate::text::join;

verus! {

/// One past the largest order key.
pub const ORDER_LIMIT: u32 = 65536;

/// A piece of text under an order key.
#[derive(Debug)]
pub struct Fragment {
    /// The key: fragments with smaller keys come first.
    pub order: u16,
    /// The text.
    pub text: String,
}

/// A [`Fragment`] with its text as a character sequence.
pub struct FragmentView {
    pub order: u16,
    pub text: Seq<char>,
}

impl DeepView for Fragment {
    type V = FragmentView;

    open spec fn deep_view(&self) -> FragmentView {
        FragmentView { order: self.order, text: self.text@ }
    }
}

/// The texts of the fragments whose key is `order`, in the order in which
/// they stand in `frags`.
pub open spec fn texts_at(frags: Seq<FragmentView>, order: int) -> Seq<Seq<char>>
    decreases frags.len(),
{
    if frags.len() == 0 {
        Seq::empty()
    } else if frags.last().order == order {
        texts_at(frags.drop_last(), order).push(frags.last().text)
    } else {
        texts_at(frags.drop_last(), order)
    }
}

/// The rendered groups with keys below `bound`, in ascending order of their
/// keys: for each key that a fragment has, the texts under it joined by
/// `sep`.
pub open spec fn groups_upto(frags: Seq<FragmentView>, sep: Seq<char>, bound: int) -> Seq<
    Seq<char>,
>
    decreases bound,
{
    if bound <= 0 {
        Seq::empty()
    } else if texts_at(frags, bound - 1).len() == 0 {
        groups_upto(frags, sep, bound - 1)
    } else {
        groups_upto(frags, sep, bound - 1).push(join(texts_at(frags, bound - 1), sep))
    }
}

/// The rendering of all fragments: the groups in ascending order of their
/// keys, joined by `between`; within a group the texts in registration
/// order, joined by `sep`.
pub open spec fn ordered_text(frags: Seq<FragmentView>, sep: Seq<char>, between: Seq<char>) -> Seq<
    char,
> {
    join(groups_upto(frags, sep, ORDER_LIMIT as int), between)
}

/// No fragment of `frags` has a key from `from` up to, not including, `to`.
pub open spec fn no_key_within(frags: Seq<FragmentView>, from: int, to: int) -> bool {
    forall|i: int| 0 <= i < frags.len() ==> !(from <= (#[trigger] frags[i]).order < to)
}

/// A key that no fragment has gives an empty group.
pub proof fn lemma_texts_at_absent(frags: Seq<FragmentView>, order: int)
    requires
        forall|i: int| 0 <= i < frags.len() ==> (#[trigger] frags[i]).order != order,
    ensures
        texts_at(frags, order) == Seq::<Seq<char>>::empty(),
    decreases frags.len(),
{
    if frags.len() > 0 {
        let rest = frags.drop_last();
        assert forall|i: int| 0 <= i < rest.len() implies (#[trigger] rest[i]).order != order by {
            assert(rest[i] == frags[i]);
        }
        lemma_texts_at_absent(rest, order);
    }
}

/// A key that some fragment has gives a group that is not empty.
pub proof fn lemma_texts_at_present(frags: Seq<FragmentView>, order: int, i: int)
    requires
        0 <= i < frags.len(),
        frags[i].order == order,
    ensures
        texts_at(frags, order).len() > 0,
    decreases frags.len(),
{
    if i < frags.len() - 1 {
        let rest = frags.drop_last();
        assert(rest[i] == frags[i]);
        lemma_texts_at_present(rest, order, i);
    }
}

/// Texts joined after one more was added: the text alone where it is the
/// first, else what was there, the separator and the text.
pub proof fn lemma_join_push(parts: Seq<Seq<char>>, text: Seq<char>, sep: Seq<char>)
    ensures
        join(parts.push(text), sep) == if parts.len() == 0 {
            text
        } else {
            join(parts, sep) + sep + text
        },
{
    assert(parts.push(text).drop_last() =~= parts);
    assert(parts.push(text).last() == text);
}

/// Keys that no fragment has add no group.
pub proof fn lemma_groups_skip(frags: Seq<FragmentView>, sep: Seq<char>, from: int, to: int)
    requires
        0 <= from <= to,
        no_key_within(frags, from, to),
    ensures
        groups_upto(frags, sep, to) == groups_upto(frags, sep, from),
    decreases to - from,
{
    if from < to {
        assert forall|i: int| 0 <= i < frags.len() implies (#[trigger] frags[i]).order != to
            - 1 by {}
        lemma_texts_at_absent(frags, to - 1);
        lemma_groups_skip(frags, sep, from, to - 1);
    }
}

/// A fragment with a key below `bound` makes for at least one group below
/// `bound`.
pub proof fn lemma_groups_present(frags: Seq<FragmentView>, sep: Seq<char>, bound: int, i: int)
    requires
        0 <= i < frags.len(),
        frags[i].order < bound,
    ensures
        groups_upto(frags, sep, bound).len() > 0,
    decreases bound,
{
    if frags[i].order == bound - 1 {
        lemma_texts_at_present(frags, bound - 1, i);
    } else {
        lemma_groups_present(frags, sep, bound - 1, i);
    }
}

/// The group of a key in a list that grew by one fragment.
pub proof fn lemma_texts_at_step(frags: Seq<FragmentView>, j: int, order: int)
    requires
        0 <= j < frags.len(),
    ensures
        texts_at(frags.take(j + 1), order) == if frags[j].order == order {
            texts_at(frags.take(j), order).push(frags[j].text)
        } else {
            texts_at(frags.take(j), order)
        },
{
    assert(frags.take(j + 1).drop_last() =~= frags.take(j));
    assert(frags.take(j + 1).last() == frags[j]);
}

/// The group of a key in a list that was extended by the fragment `x`.
pub proof fn lemma_texts_at_push(frags: Seq<FragmentView>, x: FragmentView, order: int)
    ensures
        texts_at(frags.push(x), order) == if x.order == order {
            texts_at(frags, order).push(x.text)
        } else {
            texts_at(frags, order)
        },
{
    assert(frags.push(x).drop_last() =~= frags);
}

/// The groups of a list of two fragments.
proof fn lemma_texts_at_pair(x: FragmentView, y: FragmentView, order: int)
    ensures
        texts_at(seq![x, y], order) == if x.order == order && y.order == order {
            seq![x.text, y.text]
        } else if x.order == order {
            seq![x.text]
        } else if y.order == order {
            seq![y.text]
        } else {
            Seq::<Seq<char>>::empty()
        },
{
    let none = Seq::<FragmentView>::empty();
    assert(seq![x, y] =~= none.push(x).push(y));
    lemma_texts_at_push(none, x, order);
    lemma_texts_at_push(none.push(x), y, order);
    assert(texts_at(none, order) =~= Seq::<Seq<char>>::empty());
    assert(Seq::<Seq<char>>::empty().push(x.text).push(y.text) =~= seq![x.text, y.text]);
    assert(Seq::<Seq<char>>::empty().push(x.text) =~= seq![x.text]);
    assert(Seq::<Seq<char>>::empty().push(y.text) =~= seq![y.text]);
}

/// The group of a key in two lists laid end to end is the two groups laid
/// end to end.
pub proof fn lemma_texts_at_concat(a: Seq<FragmentView>, b: Seq<FragmentView>, order: int)
    ensures
        texts_at(a + b, order) == texts_at(a, order) + texts_at(b, order),
    decreases b.len(),
{
    if b.len() == 0 {
        assert(a + b =~= a);
        assert(texts_at(a, order) + texts_at(b, order) =~= texts_at(a, order));
    } else {
        assert((a + b).drop_last() =~= a + b.drop_last());
        assert((a + b).last() == b.last());
        lemma_texts_at_concat(a, b.drop_last(), order);
        if b.last().order == order {
            assert(texts_at(a, order) + texts_at(b.drop_last(), order).push(b.last().text)
                =~= (texts_at(a, order) + texts_at(b.drop_last(), order)).push(b.last().text));
        }
    }
}

/// Lists with the same group under every key have the same rendered
/// groups.
pub proof fn lemma_groups_depend_on_texts(
    a: Seq<FragmentView>,
    b: Seq<FragmentView>,
    sep: Seq<char>,
    bound: int,
)
    requires
        forall|order: int| 0 <= order < bound ==> texts_at(a, order) == texts_at(b, order),
    ensures
        groups_upto(a, sep, bound) == groups_upto(b, sep, bound),
    decreases bound,
{
    if bound > 0 {
        lemma_groups_depend_on_texts(a, b, sep, bound - 1);
    }
}

/// Lists with the same group under every key render the same text: where a
/// fragment was registered relative to fragments of other keys has no
/// effect on the rendering.
pub proof fn lemma_rendering_depends_on_groups(
    a: Seq<FragmentView>,
    b: Seq<FragmentView>,
    sep: Seq<char>,
    between: Seq<char>,
)
    requires
        forall|order: int|
            0 <= order < ORDER_LIMIT as int ==> texts_at(a, order) == texts_at(b, order),
    ensures
        ordered_text(a, sep, between) == ordered_text(b, sep, between),
{
    lemma_groups_depend_on_texts(a, b, sep, ORDER_LIMIT as int);
}

/// Two neighbouring fragments with different keys can change places
/// without any group changing.
pub proof fn lemma_swap_keeps_groups(
    before: Seq<FragmentView>,
    x: FragmentView,
    y: FragmentView,
    order: int,
)
    requires
        x.order != y.order,
    ensures
        texts_at(before.push(x).push(y), order) == texts_at(before.push(y).push(x), order),
{
    lemma_texts_at_push(before, x, order);
    lemma_texts_at_push(before.push(x), y, order);
    lemma_texts_at_push(before, y, order);
    lemma_texts_at_push(before.push(y), x, order);
}

/// Registration order does not matter across keys: two neighbouring
/// fragments with different keys render the same text in either order.
pub proof fn lemma_order_across_keys(
    before: Seq<FragmentView>,
    x: FragmentView,
    y: FragmentView,
    sep: Seq<char>,
    between: Seq<char>,
)
    requires
        x.order != y.order,
    ensures
        ordered_text(before.push(x).push(y), sep, between) == ordered_text(
            before.push(y).push(x),
            sep,
            between,
        ),
{
    let a = before.push(x).push(y);
    let b = before.push(y).push(x);
    assert forall|order: int| 0 <= order < ORDER_LIMIT as int implies texts_at(a, order)
        == texts_at(b, order) by {
        lemma_swap_keeps_groups(before, x, y, order);
    }
    lemma_rendering_depends_on_groups(a, b, sep, between);
}

/// The groups below `bound` when `frags` holds exactly the fragments `x`
/// and `y`, in either order, with the key of `x` the smaller.
proof fn lemma_pair_groups(
    frags: Seq<FragmentView>,
    x: FragmentView,
    y: FragmentView,
    sep: Seq<char>,
    bound: int,
)
    requires
        frags == seq![x, y] || frags == seq![y, x],
        x.order < y.order,
        0 <= bound,
    ensures
        groups_upto(frags, sep, bound) == if bound <= x.order {
            Seq::<Seq<char>>::empty()
        } else if bound <= y.order {
            seq![x.text]
        } else {
            seq![x.text, y.text]
        },
    decreases bound,
{
    if bound > 0 {
        lemma_pair_groups(frags, x, y, sep, bound - 1);
        let k = bound - 1;
        lemma_texts_at_pair(x, y, k);
        lemma_texts_at_pair(y, x, k);
        if k == x.order {
            assert(texts_at(frags, k) =~= seq![x.text]);
            assert(groups_upto(frags, sep, bound) =~= seq![x.text]);
        } else if k == y.order {
            assert(texts_at(frags, k) =~= seq![y.text]);
            assert(groups_upto(frags, sep, bound) =~= seq![x.text, y.text]);
        } else {
            assert(texts_at(frags, k) =~= Seq::<Seq<char>>::empty());
        }
    }
}

/// Two texts joined: the first, the separator, the second.
proof fn lemma_join_pair(a: Seq<char>, b: Seq<char>, sep: Seq<char>)
    ensures
        join(seq![a, b], sep) == a + sep + b,
{
    assert(seq![a, b].drop_last() =~= seq![a]);
    assert(seq![a, b].last() == b);
    assert(join(seq![a], sep) =~= a);
}

/// Ascending key order: of two fragments with different keys the one with
/// the smaller key is rendered first, with the separator of groups between
/// them and nothing behind, whichever was registered first.
pub proof fn lemma_smaller_key_first(
    x: FragmentView,
    y: FragmentView,
    sep: Seq<char>,
    between: Seq<char>,
)
    requires
        x.order < y.order,
    ensures
        ordered_text(seq![x, y], sep, between) == x.text + between + y.text,
        ordered_text(seq![y, x], sep, between) == x.text + between + y.text,
{
    lemma_pair_groups(seq![x, y], x, y, sep, ORDER_LIMIT as int);
    lemma_pair_groups(seq![y, x], x, y, sep, ORDER_LIMIT as int);
    lemma_join_pair(x.text, y.text, between);
}

/// The groups below `bound` when `frags` holds exactly the fragments `x`
/// and `y`, in this order, under one key.
proof fn lemma_same_key_groups(x: FragmentView, y: FragmentView, sep: Seq<char>, bound: int)
    requires
        x.order == y.order,
        0 <= bound,
    ensures
        groups_upto(seq![x, y], sep, bound) == if bound <= x.order {
            Seq::<Seq<char>>::empty()
        } else {
            seq![x.text + sep + y.text]
        },
    decreases bound,
{
    if bound > 0 {
        lemma_same_key_groups(x, y, sep, bound - 1);
        let frags = seq![x, y];
        let k = bound - 1;
        lemma_texts_at_pair(x, y, k);
        if k == x.order {
            lemma_join_pair(x.text, y.text, sep);
            assert(groups_upto(frags, sep, bound) =~= seq![x.text + sep + y.text]);
        } else {
            assert(texts_at(frags, k) =~= Seq::<Seq<char>>::empty());
        }
    }
}

/// Registration order within a key: two fragments under one key are
/// rendered in the order in which they were registered, with the separator
/// between them and nothing behind.
pub proof fn lemma_registration_order_within_key(
    x: FragmentView,
    y: FragmentView,
    sep: Seq<char>,
    between: Seq<char>,
)
    requires
        x.order == y.order,
    ensures
        ordered_text(seq![x, y], sep, between) == x.text + sep + y.text,
{
    lemma_same_key_groups(x, y, sep, ORDER_LIMIT as int);
    assert(join(seq![x.text + sep + y.text], between) =~= x.text + sep + y.text);
}

/// Every fragment of `frags` has a key below `key`.
pub open spec fn all_below(frags: Seq<FragmentView>, key: int) -> bool {
    forall|i: int| 0 <= i < frags.len() ==> (#[trigger] frags[i]).order < key
}

/// The groups below `bound` of a list into which a fragment with the
/// largest key was registered.
proof fn lemma_largest_key_groups(
    before: Seq<FragmentView>,
    after: Seq<FragmentView>,
    x: FragmentView,
    sep: Seq<char>,
    bound: int,
)
    requires
        all_below(before, x.order as int),
        all_below(after, x.order as int),
        0 <= bound,
    ensures
        groups_upto(before.push(x) + after, sep, bound) == if bound <= x.order {
            groups_upto(before + after, sep, bound)
        } else {
            groups_upto(before + after, sep, bound).push(x.text)
        },
    decreases bound,
{
    if bound > 0 {
        let k = bound - 1;
        let with = before.push(x) + after;
        let without = before + after;
        lemma_largest_key_groups(before, after, x, sep, k);
        lemma_texts_at_concat(before.push(x), after, k);
        lemma_texts_at_concat(before, after, k);
        lemma_texts_at_push(before, x, k);
        if k == x.order {
            assert forall|i: int| 0 <= i < before.len() implies (#[trigger] before[i]).order
                != k by {}
            assert forall|i: int| 0 <= i < after.len() implies (#[trigger] after[i]).order
                != k by {}
            lemma_texts_at_absent(before, k);
            lemma_texts_at_absent(after, k);
            assert(texts_at(with, k) =~= seq![x.text]);
            assert(texts_at(without, k) =~= Seq::<Seq<char>>::empty());
            assert(join(texts_at(with, k), sep) =~= x.text);
        } else {
            assert(texts_at(with, k) == texts_at(without, k));
            if k > x.order {
                assert forall|i: int| 0 <= i < without.len() implies (#[trigger] without[i]).order
                    != k by {
                    if i < before.len() {
                        assert(without[i] == before[i]);
                    } else {
                        assert(without[i] == after[i - before.len()]);
                    }
                }
                lemma_texts_at_absent(without, k);
            }
        }
    }
}

/// The largest key comes last: a fragment whose key is above all others is
/// rendered behind all others, as a group of its own, wherever among them
/// it was registered. Where there are others, the separator of groups
/// stands before it.
pub proof fn lemma_largest_key_last(
    before: Seq<FragmentView>,
    after: Seq<FragmentView>,
    x: FragmentView,
    sep: Seq<char>,
    between: Seq<char>,
)
    requires
        all_below(before, x.order as int),
        all_below(after, x.order as int),
    ensures
        ordered_text(before.push(x) + after, sep, between) == if before.len() + after.len()
            == 0 {
            x.text
        } else {
            ordered_text(before + after, sep, between) + between + x.text
        },
{
    let others = before + after;
    let groups = groups_upto(others, sep, ORDER_LIMIT as int);
    lemma_largest_key_groups(before, after, x, sep, ORDER_LIMIT as int);
    lemma_join_push(groups, x.text, between);
    if others.len() == 0 {
        assert(no_key_within(others, 0, ORDER_LIMIT as int));
        lemma_groups_skip(others, sep, 0, ORDER_LIMIT as int);
    } else {
        lemma_groups_present(others, sep, ORDER_LIMIT as int, 0);
    }
}

/// The smallest key at or above `bound` that a fragment of `frags` has.
fn next_order(frags: &Vec<Fragment>, bound: u32) -> (r: Option<u16>)
    ensures
        match r {
            Some(k) => {
                &&& bound <= k
                &&& exists|i: int| 0 <= i < frags@.len() && (#[trigger] frags@[i]).order == k
                &&& forall|i: int|
                    0 <= i < frags@.len() ==> !(bound <= (#[trigger] frags@[i]).order < k)
            },
            None => forall|i: int| 0 <= i < frags@.len() ==> (#[trigger] frags@[i]).order < bound,
        },
{
    let mut best: Option<u16> = None;
    let mut i: usize = 0;
    while i < frags.len()
        invariant
            i <= frags@.len(),
            match best {
                Some(k) => {
                    &&& bound <= k
                    &&& exists|j: int| 0 <= j < i && (#[trigger] frags@[j]).order == k
                    &&& forall|j: int| 0 <= j < i ==> !(bound <= (#[trigger] frags@[j]).order < k)
                },
                None => forall|j: int| 0 <= j < i ==> (#[trigger] frags@[j]).order < bound,
            },
        decreases frags@.len() - i,
    {
        let order: u16 = frags[i].order;
        if order as u32 >= bound {
            match best {
                Some(k) => {
                    if order < k {
                        best = Some(order);
                    }
                },
                None => {
                    best = Some(order);
                },
            }
        }
        i += 1;
    }
    best
}

/// Renders the fragments: the groups in ascending order of their keys,
/// joined by `between`; the texts of a group in registration order, joined
/// by `sep`.
pub fn render_ordered(frags: &Vec<Fragment>, sep: &str, between: &str) -> (r: String)
    ensures
        r@ == ordered_text(frags.deep_view(), sep@, between@),
{
    let ghost fv = frags.deep_view();
    let mut out = String::new();
    let mut started = false;
    let mut bound: u32 = 0;
    while bound < ORDER_LIMIT
        invariant
            bound <= ORDER_LIMIT,
            fv == frags.deep_view(),
            started == (groups_upto(fv, sep@, bound as int).len() > 0),
            out@ == join(groups_upto(fv, sep@, bound as int), between@),
        decreases ORDER_LIMIT - bound,
    {
        match next_order(frags, bound) {
            None => {
                proof {
                    assert forall|i: int| 0 <= i < fv.len() implies !(bound <= (
                    #[trigger] fv[i]).order < ORDER_LIMIT as int) by {
                        assert(fv[i].order == frags@[i].order);
                    }
                    lemma_groups_skip(fv, sep@, bound as int, ORDER_LIMIT as int);
                }
                bound = ORDER_LIMIT;
            },
            Some(k) => {
                let ghost groups = groups_upto(fv, sep@, k as int);
                proof {
                    assert forall|i: int| 0 <= i < fv.len() implies !(bound <= (
                    #[trigger] fv[i]).order < k as int) by {
                        assert(fv[i].order == frags@[i].order);
                    }
                    lemma_groups_skip(fv, sep@, bound as int, k as int);
                    let w = choose|i: int| 0 <= i < frags@.len() && (#[trigger] frags@[i]).order == k;
                    assert(fv[w].order == k);
                    lemma_texts_at_present(fv, k as int, w);
                }
                if started {
                    out.append(between);
                }
                let ghost base = out@;
                let mut first = true;
                let mut j: usize = 0;
                proof {
                    assert(fv.take(0) =~= Seq::<FragmentView>::empty());
                }
                while j < frags.len()
                    invariant
                        j <= frags@.len(),
                        fv == frags.deep_view(),
                        first == (texts_at(fv.take(j as int), k as int).len() == 0),
                        out@ == base + if first {
                            Seq::<char>::empty()
                        } else {
                            join(texts_at(fv.take(j as int), k as int), sep@)
                        },
                    decreases frags@.len() - j,
                {
                    proof {
                        lemma_texts_at_step(fv, j as int, k as int);
                        assert(fv[j as int].order == frags@[j as int].order);
                        assert(fv[j as int].text == frags@[j as int].text@);
                    }
                    if frags[j].order == k {
                        let ghost prev = texts_at(fv.take(j as int), k as int);
                        if !first {
                            out.append(sep);
                        }
                        out.append(frags[j].text.as_str());
                        proof {
                            lemma_join_push(prev, fv[j as int].text, sep@);
                            assert(out@ =~= base + join(prev.push(fv[j as int].text), sep@));
                        }
                        first = false;
                    }
                    j += 1;
                }
                proof {
                    assert(fv.take(frags@.len() as int) =~= fv);
                    let text = join(texts_at(fv, k as int), sep@);
                    lemma_join_push(groups, text, between@);
                    assert(out@ =~= join(groups.push(text), between@));
                }
                started = true;
                bound = k as u32 + 1;
            },
        }
    }
    out
}

} // verus!
