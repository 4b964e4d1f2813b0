//! What holds of every projection: how projections at different budgets
//! relate, what a full budget shows, and where the caret marker stands.

use vstd::prelude::*;
use crate::content::{Tree, lemma_units_of_push, units_of};
use crate::projector::{consumed, container, left_after, projection, revealed, revealed_all};

verus! {

/// The number of caret markers in a tree.
pub open spec fn caret_count(tree: Tree) -> nat
    decreases tree,
{
    match tree {
        Tree::Element { children, .. } => caret_count_of(children),
        Tree::Caret => 1,
        _ => 0,
    }
}

/// The number of caret markers in a sequence of trees.
pub open spec fn caret_count_of(forest: Seq<Tree>) -> nat
    decreases forest,
{
    if forest.len() == 0 {
        0
    } else {
        caret_count_of(forest.drop_last()) + caret_count(forest.last())
    }
}

/// Whether the first `budget` units of the tree end inside a text node:
/// after at least one of its characters and before its last.
pub open spec fn splits_text(tree: Tree, budget: nat) -> bool
    decreases tree,
{
    match tree {
        Tree::Element { children, .. } => budget >= 1 && splits_text_in(
            children,
            (budget - 1) as nat,
        ),
        Tree::Text { value } => 0 < budget < value.len(),
        _ => false,
    }
}

/// Whether the first `budget` units of a sequence of siblings end inside a
/// text node.
pub open spec fn splits_text_in(forest: Seq<Tree>, budget: nat) -> bool
    decreases forest,
{
    if forest.len() == 0 {
        false
    } else {
        splits_text_in(forest.drop_last(), budget) || splits_text(
            forest.last(),
            left_after(forest.drop_last(), budget),
        )
    }
}

/// Whether the last node of the tree, in reading order, is a caret marker
/// that stands right after a text node.
pub open spec fn caret_closes(tree: Tree) -> bool
    decreases tree,
{
    match tree {
        Tree::Element { children, .. } => caret_closes_forest(children),
        _ => false,
    }
}

/// Whether the last node of a sequence of siblings, in reading order, is a
/// caret marker that stands right after a text node.
pub open spec fn caret_closes_forest(forest: Seq<Tree>) -> bool
    decreases forest,
{
    forest.len() > 0 && if forest.last() is Caret {
        forest.len() >= 2 && forest[forest.len() - 2] is Text
    } else {
        caret_closes(forest.last())
    }
}

/// A sequence of siblings without the caret marker that may close it.
pub open spec fn without_closing_caret(forest: Seq<Tree>) -> Seq<Tree> {
    if forest.len() > 0 && forest.last() is Caret {
        forest.drop_last()
    } else {
        forest
    }
}

/// Whether `part` is a prefix of `whole` in reading order: the same node up
/// to the point where `part` stops. An element is a prefix of an element
/// with the same tag and attributes whose children it begins; a text, of a
/// text that it begins; any other node, of itself only.
pub open spec fn is_tree_prefix(part: Tree, whole: Tree) -> bool
    decreases part,
{
    match part {
        Tree::Element { tag, attributes, children } => {
            &&& whole is Element
            &&& whole->tag == tag
            &&& whole->attributes == attributes
            &&& is_forest_prefix(children, whole->children)
        },
        Tree::Text { value } => whole is Text && value.is_prefix_of(whole->Text_value),
        _ => part == whole,
    }
}

/// Whether the siblings `part` begin the siblings `whole` in reading order.
/// A caret marker that closes `part` marks where it stops and is left out.
/// Of the nodes that are left, every one but the last is the node of `whole`
/// at the same place, and the last is a prefix of the node at its place.
pub open spec fn is_forest_prefix(part: Seq<Tree>, whole: Seq<Tree>) -> bool
    decreases part,
{
    let kept = without_closing_caret(part);
    &&& kept.len() <= whole.len()
    &&& forall|i: int| 0 <= i < kept.len() - 1 ==> kept[i] == whole[i]
    &&& kept.len() > 0 ==> is_tree_prefix(part[kept.len() - 1], whole[kept.len() - 1])
}

proof fn lemma_caret_count_concat(a: Seq<Tree>, b: Seq<Tree>)
    ensures
        caret_count_of(a + b) == caret_count_of(a) + caret_count_of(b),
    decreases b.len(),
{
    if b.len() == 0 {
        assert(a + b =~= a);
    } else {
        assert((a + b).drop_last() =~= a + b.drop_last());
        lemma_caret_count_concat(a, b.drop_last());
    }
}

proof fn lemma_caret_count_two(x: Tree, y: Tree)
    ensures
        caret_count_of(seq![x]) == caret_count(x),
        caret_count_of(seq![x, y]) == caret_count(x) + caret_count(y),
{
    assert(seq![x].drop_last() =~= Seq::<Tree>::empty());
    assert(caret_count_of(seq![x].drop_last()) == 0);
    assert(caret_count_of(seq![x]) == caret_count(x));
    assert(seq![x, y].drop_last() =~= seq![x]);
    assert(seq![x, y].last() == y);
}

proof fn lemma_split_is_inside(tree: Tree, budget: nat)
    requires
        splits_text(tree, budget),
    ensures
        budget < tree.units(),
    decreases tree,
{
    match tree {
        Tree::Element { children, .. } => {
            lemma_split_is_inside_forest(children, (budget - 1) as nat);
        },
        _ => {},
    }
}

proof fn lemma_split_is_inside_forest(forest: Seq<Tree>, budget: nat)
    requires
        splits_text_in(forest, budget),
    ensures
        budget < units_of(forest),
    decreases forest,
{
    if splits_text_in(forest.drop_last(), budget) {
        lemma_split_is_inside_forest(forest.drop_last(), budget);
    } else {
        lemma_split_is_inside(forest.last(), left_after(forest.drop_last(), budget));
    }
}

proof fn lemma_caret_count_revealed(tree: Tree, budget: nat)
    requires
        caret_count(tree) == 0,
    ensures
        caret_count_of(revealed(tree, budget)) == if splits_text(tree, budget) {
            1nat
        } else {
            0nat
        },
    decreases tree,
{
    if budget == 0 {
    } else {
        match tree {
            Tree::Element { tag, attributes, children } => {
                let rest = (budget - 1) as nat;
                lemma_caret_count_revealed_all(children, rest);
                lemma_caret_count_two(
                    Tree::Element { tag, attributes, children: revealed_all(children, rest) },
                    Tree::Caret,
                );
            },
            Tree::Text { value } => {
                lemma_caret_count_two(tree, Tree::Caret);
                lemma_caret_count_two(Tree::Text { value: value.take(budget as int) }, Tree::Caret);
            },
            _ => {
                lemma_caret_count_two(tree, Tree::Caret);
            },
        }
    }
}

proof fn lemma_caret_count_revealed_all(forest: Seq<Tree>, budget: nat)
    requires
        caret_count_of(forest) == 0,
    ensures
        caret_count_of(revealed_all(forest, budget)) == if splits_text_in(forest, budget) {
            1nat
        } else {
            0nat
        },
    decreases forest,
{
    if forest.len() > 0 {
        let first = forest.drop_last();
        let left = left_after(first, budget);
        lemma_caret_count_revealed_all(first, budget);
        lemma_caret_count_revealed(forest.last(), left);
        lemma_caret_count_concat(revealed_all(first, budget), revealed(forest.last(), left));
        if splits_text_in(first, budget) {
            lemma_split_is_inside_forest(first, budget);
        }
    }
}

proof fn lemma_caret_closes_revealed(tree: Tree, budget: nat)
    requires
        splits_text(tree, budget),
    ensures
        caret_closes_forest(revealed(tree, budget)),
    decreases tree,
{
    match tree {
        Tree::Element { tag, attributes, children } => {
            lemma_caret_closes_revealed_all(children, (budget - 1) as nat);
        },
        _ => {},
    }
}

proof fn lemma_caret_closes_revealed_all(forest: Seq<Tree>, budget: nat)
    requires
        splits_text_in(forest, budget),
    ensures
        caret_closes_forest(revealed_all(forest, budget)),
    decreases forest,
{
    let first = forest.drop_last();
    let left = left_after(first, budget);
    let shown = revealed(forest.last(), left);
    if splits_text_in(first, budget) {
        lemma_split_is_inside_forest(first, budget);
        lemma_caret_closes_revealed_all(first, budget);
        assert(revealed_all(forest, budget) =~= revealed_all(first, budget));
    } else {
        lemma_caret_closes_revealed(forest.last(), left);
        let all = revealed_all(first, budget) + shown;
        assert(all.last() == shown.last());
        if shown.last() is Caret {
            assert(all[all.len() - 2] == shown[shown.len() - 2]);
        }
    }
}

proof fn lemma_units_of_concat(a: Seq<Tree>, b: Seq<Tree>)
    ensures
        units_of(a + b) == units_of(a) + units_of(b),
    decreases b.len(),
{
    if b.len() == 0 {
        assert(a + b =~= a);
    } else {
        assert((a + b).drop_last() =~= a + b.drop_last());
        lemma_units_of_concat(a, b.drop_last());
    }
}

proof fn lemma_units_of_two(x: Tree, y: Tree)
    ensures
        units_of(seq![x]) == x.units(),
        units_of(seq![x, y]) == x.units() + y.units(),
{
    lemma_units_of_push(Seq::empty(), x);
    assert(Seq::<Tree>::empty().push(x) =~= seq![x]);
    lemma_units_of_push(seq![x], y);
    assert(seq![x].push(y) =~= seq![x, y]);
}

proof fn lemma_units_revealed(tree: Tree, budget: nat)
    ensures
        units_of(revealed(tree, budget)) == consumed(tree, budget) + if splits_text(
            tree,
            budget,
        ) {
            1nat
        } else {
            0nat
        },
    decreases tree,
{
    if budget == 0 {
    } else {
        match tree {
            Tree::Element { tag, attributes, children } => {
                let rest = (budget - 1) as nat;
                lemma_units_revealed_all(children, rest);
                lemma_units_of_two(
                    Tree::Element { tag, attributes, children: revealed_all(children, rest) },
                    Tree::Caret,
                );
            },
            Tree::Text { value } => {
                lemma_units_of_two(tree, Tree::Caret);
                lemma_units_of_two(Tree::Text { value: value.take(budget as int) }, Tree::Caret);
            },
            _ => {
                lemma_units_of_two(tree, Tree::Caret);
            },
        }
    }
}

proof fn lemma_units_revealed_all(forest: Seq<Tree>, budget: nat)
    ensures
        units_of(revealed_all(forest, budget)) == (budget - left_after(forest, budget))
            + if splits_text_in(forest, budget) {
            1nat
        } else {
            0nat
        },
        budget - left_after(forest, budget) == if units_of(forest) <= budget {
            units_of(forest)
        } else {
            budget
        },
    decreases forest,
{
    if forest.len() > 0 {
        let first = forest.drop_last();
        let left = left_after(first, budget);
        lemma_units_revealed_all(first, budget);
        lemma_units_revealed(forest.last(), left);
        lemma_units_of_concat(revealed_all(first, budget), revealed(forest.last(), left));
        if splits_text_in(first, budget) {
            lemma_split_is_inside_forest(first, budget);
        }
    }
}

proof fn lemma_full_revealed(tree: Tree, budget: nat)
    requires
        !tree.has_empty_text(),
        tree.units() <= budget,
    ensures
        revealed(tree, budget) == seq![tree],
    decreases tree,
{
    match tree {
        Tree::Element { tag, attributes, children } => {
            assert forall|i: int| 0 <= i < children.len() implies !(#[trigger] children[i]).has_empty_text() by {}
            lemma_full_revealed_all(children, (budget - 1) as nat);
        },
        _ => {},
    }
}

proof fn lemma_full_revealed_all(forest: Seq<Tree>, budget: nat)
    requires
        forall|i: int| 0 <= i < forest.len() ==> !(#[trigger] forest[i]).has_empty_text(),
        units_of(forest) <= budget,
    ensures
        revealed_all(forest, budget) == forest,
    decreases forest,
{
    if forest.len() > 0 {
        let first = forest.drop_last();
        assert forall|i: int| 0 <= i < first.len() implies !(#[trigger] first[i]).has_empty_text() by {
            assert(first[i] == forest[i]);
        }
        lemma_full_revealed_all(first, budget);
        lemma_full_revealed(forest.last(), left_after(first, budget));
        assert(first + seq![forest.last()] =~= forest);
    } else {
        assert(forest =~= Seq::<Tree>::empty());
    }
}

proof fn lemma_saturated(tree: Tree, b1: nat, b2: nat)
    requires
        tree.units() <= b1,
        tree.units() <= b2,
    ensures
        revealed(tree, b1) == revealed(tree, b2),
    decreases tree,
{
    match tree {
        Tree::Element { tag, attributes, children } => {
            lemma_saturated_all(children, (b1 - 1) as nat, (b2 - 1) as nat);
        },
        _ => {},
    }
}

proof fn lemma_saturated_all(forest: Seq<Tree>, b1: nat, b2: nat)
    requires
        units_of(forest) <= b1,
        units_of(forest) <= b2,
    ensures
        revealed_all(forest, b1) == revealed_all(forest, b2),
    decreases forest,
{
    if forest.len() > 0 {
        let first = forest.drop_last();
        lemma_saturated_all(first, b1, b2);
        lemma_saturated(forest.last(), left_after(first, b1), left_after(first, b2));
    }
}

proof fn lemma_tree_prefix_reflexive(tree: Tree)
    ensures
        is_tree_prefix(tree, tree),
    decreases tree,
{
    match tree {
        Tree::Element { tag, attributes, children } => {
            let kept = without_closing_caret(children);
            if kept.len() > 0 {
                lemma_tree_prefix_reflexive(children[kept.len() - 1]);
            }
        },
        _ => {},
    }
}

/// Nodes added behind `whole` keep `part` a prefix.
proof fn lemma_prefix_extend(part: Seq<Tree>, whole: Seq<Tree>, more: Seq<Tree>)
    requires
        is_forest_prefix(part, whole),
    ensures
        is_forest_prefix(part, whole + more),
{
    let kept = without_closing_caret(part);
    assert forall|i: int| 0 <= i < kept.len() - 1 implies kept[i] == (whole + more)[i] by {
        assert(kept[i] == whole[i]);
    }
}

/// The same nodes put before `part` and `whole` keep `part` a prefix.
proof fn lemma_prefix_behind(front: Seq<Tree>, part: Seq<Tree>, whole: Seq<Tree>)
    requires
        is_forest_prefix(part, whole),
    ensures
        is_forest_prefix(front + part, front + whole),
{
    let a = front + part;
    let b = front + whole;
    let kept = without_closing_caret(a);
    let kept_part = without_closing_caret(part);
    if part.len() > 0 {
        assert(a.last() == part.last());
        assert(kept =~= front + kept_part);
        assert forall|i: int| 0 <= i < kept.len() - 1 implies kept[i] == b[i] by {
            if i >= front.len() {
                assert(kept_part[i - front.len()] == whole[i - front.len()]);
            }
        }
        if kept_part.len() > 0 {
            assert(a[kept.len() - 1] == part[kept_part.len() - 1]);
            assert(b[kept.len() - 1] == whole[kept_part.len() - 1]);
        } else if kept.len() > 0 {
            lemma_tree_prefix_reflexive(a[kept.len() - 1]);
        }
    } else {
        assert(a =~= front);
        if kept.len() > 0 {
            lemma_tree_prefix_reflexive(a[kept.len() - 1]);
        }
    }
}

proof fn lemma_monotonic(tree: Tree, b1: nat, b2: nat)
    requires
        b1 <= b2,
    ensures
        is_forest_prefix(revealed(tree, b1), revealed(tree, b2)),
    decreases tree,
{
    if b1 == 0 {
    } else {
        match tree {
            Tree::Element { tag, attributes, children } => {
                lemma_monotonic_all(children, (b1 - 1) as nat, (b2 - 1) as nat);
            },
            Tree::Text { value } => {
                if value.len() > b1 {
                    let part = value.take(b1 as int);
                    if value.len() > b2 {
                        assert(part =~= value.take(b2 as int).subrange(0, part.len() as int));
                    } else {
                        assert(part =~= value.subrange(0, part.len() as int));
                    }
                } else {
                    assert(value =~= value.subrange(0, value.len() as int));
                }
            },
            _ => {},
        }
    }
}

proof fn lemma_monotonic_all(forest: Seq<Tree>, b1: nat, b2: nat)
    requires
        b1 <= b2,
    ensures
        is_forest_prefix(revealed_all(forest, b1), revealed_all(forest, b2)),
    decreases forest,
{
    if forest.len() > 0 {
        let first = forest.drop_last();
        let left1 = left_after(first, b1);
        let left2 = left_after(first, b2);
        if units_of(first) <= b1 {
            lemma_saturated_all(first, b1, b2);
            lemma_monotonic(forest.last(), left1, left2);
            lemma_prefix_behind(
                revealed_all(first, b1),
                revealed(forest.last(), left1),
                revealed(forest.last(), left2),
            );
        } else {
            lemma_monotonic_all(first, b1, b2);
            lemma_prefix_extend(
                revealed_all(first, b1),
                revealed_all(first, b2),
                revealed(forest.last(), left2),
            );
            assert(revealed(forest.last(), left1) =~= Seq::<Tree>::empty());
            assert(revealed_all(forest, b1) =~= revealed_all(first, b1));
        }
    }
}

/// The projection is a function of the tree and the budget alone: the same
/// arguments give the same projection, however often it is computed.
pub proof fn law_projection_is_repeatable(
    source: Tree,
    budget: nat,
    source_again: Tree,
    budget_again: nat,
)
    requires
        source_again == source,
        budget_again == budget,
    ensures
        projection(source_again, budget_again) == projection(source, budget),
{
}

/// Revealing grows with the budget: the projection at a budget is a prefix,
/// in reading order, of the projection at any larger budget.
pub proof fn law_projection_grows(source: Tree, b1: nat, b2: nat)
    requires
        b1 <= b2,
    ensures
        is_tree_prefix(projection(source, b1), projection(source, b2)),
{
    lemma_monotonic(source, b1, b2);
}

/// The projection shows as many units of the tree as the budget allows:
/// the budget, or all the units of a smaller tree. The caret marker that a
/// cut text brings with it comes on top, and so does the container.
pub proof fn law_projection_shows_the_budget(source: Tree, budget: nat)
    ensures
        projection(source, budget).units() == 1 + consumed(source, budget) + if splits_text(
            source,
            budget,
        ) {
            1nat
        } else {
            0nat
        },
{
    lemma_units_revealed(source, budget);
}

/// A budget of nothing shows nothing: the projection is the empty container.
pub proof fn law_zero_budget_shows_nothing(source: Tree)
    ensures
        projection(source, 0) == container(Seq::empty()),
{
}

/// A budget of all the units of a tree without empty text nodes shows the
/// tree as it is, and so does any larger budget. No caret marker is added.
pub proof fn law_full_budget_shows_source(source: Tree, budget: nat)
    requires
        !source.has_empty_text(),
        source.units() <= budget,
    ensures
        projection(source, budget) == container(seq![source]),
        caret_count(projection(source, budget)) == caret_count(source),
{
    lemma_full_revealed(source, budget);
    lemma_caret_count_two(source, source);
}

/// Whatever the budget, the projection of a tree without empty text nodes
/// is a prefix, in reading order, of the tree in its container: nothing is
/// shown that the tree does not hold at the same place.
pub proof fn law_projection_begins_the_source(source: Tree, budget: nat)
    requires
        !source.has_empty_text(),
    ensures
        is_tree_prefix(projection(source, budget), container(seq![source])),
{
    let full = if budget <= source.units() {
        source.units()
    } else {
        budget
    };
    lemma_monotonic(source, budget, full);
    lemma_full_revealed(source, full);
}

/// Any two budgets that cover a tree show the same.
pub proof fn law_budget_above_units(source: Tree, b1: nat, b2: nat)
    requires
        source.units() <= b1,
        source.units() <= b2,
    ensures
        projection(source, b1) == projection(source, b2),
{
    lemma_saturated(source, b1, b2);
}

/// The projection of a tree without caret markers holds one caret marker
/// when the budget ends inside a text node, and none otherwise.
pub proof fn law_at_most_one_caret(source: Tree, budget: nat)
    requires
        caret_count(source) == 0,
    ensures
        caret_count(projection(source, budget)) == if splits_text(source, budget) {
            1nat
        } else {
            0nat
        },
{
    lemma_caret_count_revealed(source, budget);
}

/// When the budget ends inside a text node of a tree without caret markers,
/// the projection holds exactly one caret marker: it is the last node in
/// reading order and stands right after the text that was cut.
pub proof fn law_caret_follows_cut_text(source: Tree, budget: nat)
    requires
        caret_count(source) == 0,
        0 < budget < source.units(),
        splits_text(source, budget),
    ensures
        caret_count(projection(source, budget)) == 1,
        caret_closes(projection(source, budget)),
{
    lemma_caret_count_revealed(source, budget);
    lemma_caret_closes_revealed(source, budget);
}

} // verus!
