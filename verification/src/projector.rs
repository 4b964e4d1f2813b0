//! Cutting a content tree down to its first atomic units.
//!
//! The units of a tree are counted in reading order: an element comes before
//! its children, and children come in their order. A budget of `n` units
//! keeps the first `n` of them. Where the cut falls inside a text node, a
//! caret marker follows the part of the text that was kept.

use vstd::prelude::*;
use vstd::string::*;
use crate::projection_laws::{
    caret_count, law_at_most_one_caret, law_full_budget_shows_source, splits_text,
};
use crate::content::{
    ContentNode, Tree, clone_attributes, forest_view, lemma_element_view, lemma_units_of_push,
    units_of,
};

verus! {

/// The units that a budget buys out of a tree.
pub open spec fn consumed(tree: Tree, budget: nat) -> nat {
    if tree.units() <= budget {
        tree.units()
    } else {
        budget
    }
}

/// What is left of a budget once a sequence of trees has taken its units.
pub open spec fn left_after(forest: Seq<Tree>, budget: nat) -> nat {
    if units_of(forest) <= budget {
        (budget - units_of(forest)) as nat
    } else {
        0
    }
}

/// The nodes shown for `tree` when `budget` units may still be shown.
///
/// Nothing is shown once the budget is used up. An element is shown as soon
/// as one unit is left, with as many of its children as the rest of the
/// budget buys. A text node shows its first characters, followed by the
/// caret marker when some of its characters are held back. A comment, a
/// piece of raw markup or a caret marker of the tree itself is shown whole.
pub open spec fn revealed(tree: Tree, budget: nat) -> Seq<Tree>
    decreases tree,
{
    if budget == 0 {
        Seq::empty()
    } else {
        match tree {
            Tree::Element { tag, attributes, children } => seq![
                Tree::Element {
                    tag,
                    attributes,
                    children: revealed_all(children, (budget - 1) as nat),
                },
            ],
            Tree::Text { value } => if value.len() == 0 {
                Seq::empty()
            } else if value.len() <= budget {
                seq![tree]
            } else {
                seq![Tree::Text { value: value.take(budget as int) }, Tree::Caret]
            },
            Tree::Comment { .. } => seq![tree],
            Tree::RawMarkup { .. } => seq![tree],
            Tree::Caret => seq![tree],
        }
    }
}

/// The nodes shown for a sequence of siblings that share one budget: each
/// sibling gets what those before it have left.
pub open spec fn revealed_all(forest: Seq<Tree>, budget: nat) -> Seq<Tree>
    decreases forest,
{
    if forest.len() == 0 {
        Seq::empty()
    } else {
        revealed_all(forest.drop_last(), budget) + revealed(
            forest.last(),
            left_after(forest.drop_last(), budget),
        )
    }
}

/// A `div` without attributes around `children`.
pub open spec fn container(children: Seq<Tree>) -> Tree {
    Tree::Element { tag: "div"@, attributes: Seq::empty(), children }
}

/// The projection of `tree` at `budget`: a container that holds what the
/// budget reveals of the tree.
pub open spec fn projection(tree: Tree, budget: nat) -> Tree {
    container(revealed(tree, budget))
}

/// What a budget leaves after the tree itself has taken its units.
pub open spec fn remaining(chars_limit: usize, current_cnt: usize) -> nat {
    if current_cnt <= chars_limit {
        (chars_limit - current_cnt) as nat
    } else {
        0
    }
}

/// Once the budget is used up by the first `n` siblings, the others show
/// nothing and take nothing.
pub proof fn lemma_siblings_exhausted(forest: Seq<Tree>, n: int, budget: nat)
    requires
        0 <= n <= forest.len(),
        budget <= units_of(forest.take(n)),
    ensures
        revealed_all(forest, budget) == revealed_all(forest.take(n), budget),
        budget <= units_of(forest),
    decreases forest.len(),
{
    if n == forest.len() {
        assert(forest.take(n) =~= forest);
    } else {
        assert(forest.drop_last().take(n) =~= forest.take(n));
        lemma_siblings_exhausted(forest.drop_last(), n, budget);
        assert(revealed(forest.last(), 0) =~= Seq::<Tree>::empty());
        assert(revealed_all(forest, budget) =~= revealed_all(forest.drop_last(), budget));
    }
}

/// One more sibling shows what the budget left by the others reveals of it.
pub proof fn lemma_siblings_push(forest: Seq<Tree>, tree: Tree, budget: nat)
    ensures
        revealed_all(forest.push(tree), budget) == revealed_all(forest, budget) + revealed(
            tree,
            left_after(forest, budget),
        ),
{
    assert(forest.push(tree).drop_last() =~= forest);
}

/// Appends to `dest` what `src` shows when `current_cnt` units of the budget
/// `chars_limit` are already used, and returns the units used afterwards.
pub fn include_node_recursive(
    dest: &mut Vec<ContentNode>,
    src: &ContentNode,
    chars_limit: usize,
    current_cnt: usize,
) -> (next_cnt: usize)
    ensures
        forest_view(final(dest)@) == forest_view(old(dest)@) + revealed(
            src@,
            remaining(chars_limit, current_cnt),
        ),
        next_cnt == current_cnt + consumed(src@, remaining(chars_limit, current_cnt)),
    decreases src,
{
    let ghost before = forest_view(dest@);
    if current_cnt >= chars_limit {
        assert(forest_view(dest@) =~= before + Seq::<Tree>::empty());
        return current_cnt;
    }
    let ghost budget = remaining(chars_limit, current_cnt);
    match src {
        ContentNode::Element { tag, attributes, children } => {
            let ghost all = forest_view(children@);
            let ghost rest = (budget - 1) as nat;
            let mut kids: Vec<ContentNode> = Vec::new();
            let mut cnt: usize = current_cnt + 1;
            let mut i: usize = 0;
            proof {
                lemma_element_view(*src);
                assert(all.take(0) =~= Seq::<Tree>::empty());
                assert(forest_view(kids@) =~= Seq::<Tree>::empty());
            }
            while i < children.len() && cnt < chars_limit
                invariant
                    i <= children.len(),
                    src is Element,
                    src->Element_children == *children,
                    all == forest_view(children@),
                    current_cnt < chars_limit,
                    rest == chars_limit - current_cnt - 1,
                    current_cnt < cnt <= chars_limit,
                    cnt == chars_limit - left_after(all.take(i as int), rest),
                    units_of(all.take(i as int)) >= rest ==> cnt == chars_limit,
                    forest_view(kids@) == revealed_all(all.take(i as int), rest),
                decreases children.len() - i,
            {
                proof {
                    let done = all.take(i as int);
                    assert(all.take(i + 1) =~= done.push(children[i as int]@));
                    lemma_siblings_push(done, children[i as int]@, rest);
                    lemma_units_of_push(done, children[i as int]@);
                }
                cnt = include_node_recursive(&mut kids, &children[i], chars_limit, cnt);
                i += 1;
            }
            proof {
                if i < children.len() {
                    lemma_siblings_exhausted(all, i as int, rest);
                } else {
                    assert(all.take(i as int) =~= all);
                }
            }
            let shown = ContentNode::Element {
                tag: tag.clone(),
                attributes: clone_attributes(attributes),
                children: kids,
            };
            proof {
                lemma_element_view(shown);
                assert(revealed(src@, budget) =~= seq![shown@]);
            }
            dest.push(shown);
            assert(forest_view(dest@) =~= before + revealed(src@, budget));
            cnt
        },
        ContentNode::Text { value } => {
            let txt_len = value.as_str().unicode_len();
            let left = chars_limit - current_cnt;
            if txt_len == 0 {
                assert(forest_view(dest@) =~= before + revealed(src@, budget));
                current_cnt
            } else if txt_len <= left {
                dest.push(ContentNode::Text { value: value.clone() });
                assert(forest_view(dest@) =~= before + revealed(src@, budget));
                current_cnt + txt_len
            } else {
                let shown = value.as_str().substring_char(0, left).to_owned();
                dest.push(ContentNode::Text { value: shown });
                dest.push(ContentNode::Caret);
                assert(forest_view(dest@) =~= before + revealed(src@, budget));
                chars_limit
            }
        },
        ContentNode::Comment { value } => {
            dest.push(ContentNode::Comment { value: value.clone() });
            assert(forest_view(dest@) =~= before + revealed(src@, budget));
            current_cnt + 1
        },
        ContentNode::RawMarkup { value } => {
            dest.push(ContentNode::RawMarkup { value: value.clone() });
            assert(forest_view(dest@) =~= before + revealed(src@, budget));
            current_cnt + 1
        },
        ContentNode::Caret => {
            dest.push(ContentNode::Caret);
            assert(forest_view(dest@) =~= before + revealed(src@, budget));
            current_cnt + 1
        },
    }
}

/// Appends to `dest` what the budget `chars_limit` reveals of `src`.
pub fn include_node(dest: &mut Vec<ContentNode>, src: &ContentNode, chars_limit: usize)
    ensures
        forest_view(final(dest)@) == forest_view(old(dest)@) + revealed(src@, chars_limit as nat),
{
    let _ = include_node_recursive(dest, src, chars_limit, 0);
}

/// The projection of `source` at `budget`: a fresh container that holds the
/// first `budget` units of `source`. The result depends on nothing but the
/// two arguments, and `source` is left as it was.
///
/// A budget of nothing gives the empty container. A budget of all the units
/// gives the source itself, unless it holds an empty text. At most one
/// caret marker is added, and only by a budget that ends inside a text.
pub fn project(source: &ContentNode, budget: usize) -> (dest: ContentNode)
    ensures
        dest@ == projection(source@, budget as nat),
        budget == 0 ==> dest@ == container(Seq::empty()),
        budget >= source@.units() && !source@.has_empty_text() ==> dest@ == container(
            seq![source@],
        ),
        caret_count(source@) == 0 ==> caret_count(dest@) == if splits_text(
            source@,
            budget as nat,
        ) {
            1nat
        } else {
            0nat
        },
{
    proof {
        if budget >= source@.units() && !source@.has_empty_text() {
            law_full_budget_shows_source(source@, budget as nat);
        }
        if caret_count(source@) == 0 {
            law_at_most_one_caret(source@, budget as nat);
        }
    }
    let mut shown: Vec<ContentNode> = Vec::new();
    assert(forest_view(shown@) =~= Seq::<Tree>::empty());
    include_node(&mut shown, source, budget);
    let dest = ContentNode::Element {
        tag: "div".to_owned(),
        attributes: Vec::new(),
        children: shown,
    };
    proof {
        lemma_element_view(dest);
        assert(dest@->Element_attributes =~= Seq::empty());
        assert(forest_view(shown@) =~= revealed(source@, budget as nat));
    }
    dest
}

} // verus!
