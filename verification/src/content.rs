//! The content tree that the components display, and its mathematical model.

use vstd::prelude::*;

verus! {

/// One `name="value"` pair of an element.
#[derive(Debug, PartialEq, Eq)]
pub struct Attribute {
    pub name: String,
    pub value: String,
}

/// A node of displayable content.
#[derive(Debug, PartialEq, Eq)]
pub enum ContentNode {
    /// A tagged element with its attributes, in order, and its children, in order.
    Element { tag: String, attributes: Vec<Attribute>, children: Vec<ContentNode> },
    /// A run of characters.
    Text { value: String },
    /// A comment; it is never split.
    Comment { value: String },
    /// Markup that is already safe to show as it is; it is never split.
    RawMarkup { value: String },
    /// The caret marker: the blinking cursor that stands right after a text
    /// of which only the first characters are shown.
    Caret,
}

/// The model of a [`ContentNode`]: the same tree over sequences.
pub ghost enum Tree {
    Element { tag: Seq<char>, attributes: Seq<(Seq<char>, Seq<char>)>, children: Seq<Tree> },
    Text { value: Seq<char> },
    Comment { value: Seq<char> },
    RawMarkup { value: Seq<char> },
    Caret,
}

impl View for Attribute {
    type V = (Seq<char>, Seq<char>);

    open spec fn view(&self) -> (Seq<char>, Seq<char>) {
        (self.name@, self.value@)
    }
}

/// The models of a sequence of attributes, in the same order.
pub open spec fn attributes_view(attributes: Seq<Attribute>) -> Seq<(Seq<char>, Seq<char>)> {
    Seq::new(attributes.len(), |i: int| attributes[i]@)
}

/// The models of a sequence of nodes, in the same order.
pub open spec fn forest_view(nodes: Seq<ContentNode>) -> Seq<Tree> {
    Seq::new(nodes.len(), |i: int| nodes[i]@)
}

impl View for ContentNode {
    type V = Tree;

    open spec fn view(&self) -> Tree
        decreases self,
    {
        match self {
            ContentNode::Element { tag, attributes, children } => Tree::Element {
                tag: tag@,
                attributes: attributes_view(attributes@),
                children: Seq::new(
                    children.len() as nat,
                    |i: int|
                        if 0 <= i < children.len() {
                            children[i]@
                        } else {
                            Tree::Text { value: Seq::empty() }
                        },
                ),
            },
            ContentNode::Text { value } => Tree::Text { value: value@ },
            ContentNode::Comment { value } => Tree::Comment { value: value@ },
            ContentNode::RawMarkup { value } => Tree::RawMarkup { value: value@ },
            ContentNode::Caret => Tree::Caret,
        }
    }
}

impl Tree {
    /// The number of atomic units in the tree: one for each element, comment,
    /// piece of raw markup and caret marker, and one for each character of text.
    pub open spec fn units(self) -> nat
        decreases self,
    {
        match self {
            Tree::Element { children, .. } => 1 + units_of(children),
            Tree::Text { value } => value.len(),
            Tree::Comment { .. } => 1,
            Tree::RawMarkup { .. } => 1,
            Tree::Caret => 1,
        }
    }

    /// Whether some text node of the tree holds no character.
    pub open spec fn has_empty_text(self) -> bool
        decreases self,
    {
        match self {
            Tree::Element { children, .. } => exists|i: int|
                0 <= i < children.len() && (#[trigger] children[i]).has_empty_text(),
            Tree::Text { value } => value.len() == 0,
            Tree::Comment { .. } => false,
            Tree::RawMarkup { .. } => false,
            Tree::Caret => false,
        }
    }
}

/// The number of atomic units in a sequence of trees.
pub open spec fn units_of(forest: Seq<Tree>) -> nat
    decreases forest,
{
    if forest.len() == 0 {
        0
    } else {
        units_of(forest.drop_last()) + forest.last().units()
    }
}

/// The children of an element's model are the models of its children.
pub proof fn lemma_element_view(node: ContentNode)
    requires
        node is Element,
    ensures
        node@ is Element,
        node@->Element_tag == node->Element_tag@,
        node@->Element_attributes == attributes_view(node->Element_attributes@),
        node@->Element_children == forest_view(node->Element_children@),
{
    assert(node@->Element_children =~= forest_view(node->Element_children@));
}

/// Appending one tree adds its units.
pub proof fn lemma_units_of_push(forest: Seq<Tree>, tree: Tree)
    ensures
        units_of(forest.push(tree)) == units_of(forest) + tree.units(),
{
    assert(forest.push(tree).drop_last() =~= forest);
}

impl Clone for Attribute {
    fn clone(&self) -> (out: Self)
        ensures
            out@ == self@,
    {
        Attribute { name: self.name.clone(), value: self.value.clone() }
    }
}

/// A copy of a list of attributes.
pub fn clone_attributes(attributes: &Vec<Attribute>) -> (out: Vec<Attribute>)
    ensures
        attributes_view(out@) == attributes_view(attributes@),
{
    let mut out: Vec<Attribute> = Vec::new();
    let mut i: usize = 0;
    while i < attributes.len()
        invariant
            i <= attributes.len(),
            out.len() == i,
            forall|j: int| 0 <= j < i ==> out[j]@ == attributes[j]@,
        decreases attributes.len() - i,
    {
        out.push(attributes[i].clone());
        i += 1;
    }
    assert(attributes_view(out@) =~= attributes_view(attributes@));
    out
}

impl Clone for ContentNode {
    fn clone(&self) -> (out: Self)
        ensures
            out@ == self@,
        decreases self,
    {
        match self {
            ContentNode::Element { tag, attributes, children } => {
                let mut kids: Vec<ContentNode> = Vec::new();
                let mut i: usize = 0;
                while i < children.len()
                    invariant
                        i <= children.len(),
                        kids.len() == i,
                        self is Element,
                        self->Element_children == *children,
                        forall|j: int| 0 <= j < i ==> kids[j]@ == children[j]@,
                    decreases children.len() - i,
                {
                    kids.push(children[i].clone());
                    i += 1;
                }
                let out = ContentNode::Element {
                    tag: tag.clone(),
                    attributes: clone_attributes(attributes),
                    children: kids,
                };
                proof {
                    lemma_element_view(out);
                    lemma_element_view(*self);
                    assert(forest_view(kids@) =~= forest_view(children@));
                }
                out
            },
            ContentNode::Text { value } => ContentNode::Text { value: value.clone() },
            ContentNode::Comment { value } => ContentNode::Comment { value: value.clone() },
            ContentNode::RawMarkup { value } => ContentNode::RawMarkup { value: value.clone() },
            ContentNode::Caret => ContentNode::Caret,
        }
    }
}

impl ContentNode {
    /// Counts the atomic units of the tree. `None` means that the count does
    /// not fit in a `usize`.
    pub fn node_count(&self) -> (count: Option<usize>)
        ensures
            match count {
                Some(n) => n == self@.units(),
                None => self@.units() > usize::MAX,
            },
        decreases self,
    {
        match self {
            ContentNode::Element { children, .. } => {
                proof {
                    lemma_element_view(*self);
                }
                let mut total: usize = 1;
                let mut i: usize = 0;
                while i < children.len()
                    invariant
                        i <= children.len(),
                        total == 1 + units_of(forest_view(children@).take(i as int)),
                        self is Element,
                        self->Element_children == *children,
                        self@ is Element,
                        self@->Element_children == forest_view(children@),
                    decreases children.len() - i,
                {
                    proof {
                        let done = forest_view(children@).take(i as int);
                        assert(forest_view(children@).take(i + 1) =~= done.push(children[i as int]@));
                        lemma_units_of_push(done, children[i as int]@);
                        lemma_units_of_prefix(forest_view(children@), i + 1);
                    }
                    match children[i].node_count() {
                        Some(n) => {
                            if n > usize::MAX - total {
                                return None;
                            }
                            total = total + n;
                        },
                        None => {
                            return None;
                        },
                    }
                    i += 1;
                }
                assert(forest_view(children@).take(i as int) =~= forest_view(children@));
                Some(total)
            },
            ContentNode::Text { value } => Some(value.as_str().unicode_len()),
            ContentNode::Comment { .. } => Some(1),
            ContentNode::RawMarkup { .. } => Some(1),
            ContentNode::Caret => Some(1),
        }
    }
}

/// The first trees of a sequence hold no more units than the whole sequence.
pub proof fn lemma_units_of_prefix(forest: Seq<Tree>, n: int)
    requires
        0 <= n <= forest.len(),
    ensures
        units_of(forest.take(n)) <= units_of(forest),
    decreases forest.len(),
{
    if n == forest.len() {
        assert(forest.take(n) =~= forest);
    } else {
        assert(forest.drop_last().take(n) =~= forest.take(n));
        lemma_units_of_prefix(forest.drop_last(), n);
    }
}

} // verus!
