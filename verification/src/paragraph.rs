//! A paragraph whose content is revealed by an [`AnimateList`].

use vstd::prelude::*;
use vstd::string::*;
use crate::animate_list::{AnimateList, AnimateListView};
use crate::content::{ContentNode, Tree, forest_view, lemma_element_view};

verus! {

/// What a paragraph is told.
#[derive(Clone, Debug, PartialEq, Eq)]
pub enum Msg {
    /// Reveal the content from the start.
    AnimateIn,
    /// A message of the list that reveals the content.
    AnimateListMsg(crate::animate_list::Msg),
}

/// What the owner of a paragraph has to do after an update.
#[derive(Debug, PartialEq, Eq)]
pub struct Effects {
    /// Messages to hand back to the paragraph on a later frame, in order.
    pub local: Vec<Msg>,
    /// The listeners of the list to notify now, in order.
    pub external: Vec<usize>,
    /// Whether to play the sound of typing.
    pub play_sound: bool,
}

/// A paragraph.
pub struct Paragraph {
    animated_list: AnimateList,
}

impl View for Paragraph {
    type V = AnimateListView;

    closed spec fn view(&self) -> AnimateListView {
        self.animated_list@
    }
}

/// The messages of a list as messages of its paragraph.
pub open spec fn wrapped(msgs: Seq<crate::animate_list::Msg>) -> Seq<Msg> {
    Seq::new(msgs.len(), |i: int| Msg::AnimateListMsg(msgs[i]))
}

/// The message for the list in a message for the paragraph.
pub open spec fn unwrapped(msg: Msg) -> crate::animate_list::Msg {
    match msg {
        Msg::AnimateIn => crate::animate_list::Msg::AnimateIn,
        Msg::AnimateListMsg(inner) => inner,
    }
}

/// Wraps the messages of a list as messages of its paragraph.
fn wrap(msgs: Vec<crate::animate_list::Msg>) -> (out: Vec<Msg>)
    ensures
        out@ == wrapped(msgs@),
{
    let mut out: Vec<Msg> = Vec::new();
    let mut i: usize = 0;
    while i < msgs.len()
        invariant
            i <= msgs.len(),
            out@ == wrapped(msgs@.take(i as int)),
        decreases msgs.len() - i,
    {
        out.push(Msg::AnimateListMsg(msgs[i].clone()));
        assert(out@ =~= wrapped(msgs@.take(i + 1)));
        i += 1;
    }
    assert(msgs@.take(i as int) =~= msgs@);
    out
}

impl Paragraph {
    /// A paragraph that shows `content`, at rest.
    pub fn with_content(content: ContentNode) -> (paragraph: Self)
        requires
            content@.units() <= usize::MAX,
        ensures
            paragraph@ == (AnimateListView {
                children: content@,
                animating: false,
                animated_layer: None,
                on_stop_animation: Seq::empty(),
                run: None,
            }),
    {
        Paragraph { animated_list: AnimateList::with_content(content) }
    }

    /// Handles one message at the time `now`: the list handles what the
    /// message holds for it, and its follow-up messages come back wrapped.
    pub fn update(&mut self, msg: Msg, now: u64) -> (effects: Effects)
        ensures
            final(self)@.wf(),
            final(self)@ == old(self)@.updated(unwrapped(msg), now),
            effects.local@ == wrapped(old(self)@.update_msgs(unwrapped(msg), now)),
            effects.external@ == old(self)@.update_listeners(unwrapped(msg)),
            effects.play_sound == (unwrapped(msg) is AnimateIn),
    {
        let inner = match msg {
            Msg::AnimateIn => crate::animate_list::Msg::AnimateIn,
            Msg::AnimateListMsg(amsg) => amsg,
        };
        let effects = self.animated_list.update(inner, now);
        Effects {
            local: wrap(effects.local),
            external: effects.external,
            play_sound: effects.play_sound,
        }
    }

    /// Adds a listener to the list. It is named each time the reveal stops.
    pub fn add_stop_animation_listener(&mut self, listener: usize)
        ensures
            final(self)@ == (AnimateListView {
                on_stop_animation: old(self)@.on_stop_animation.push(listener),
                ..old(self)@
            }),
    {
        self.animated_list.add_stop_animation_listener(listener);
    }

    /// Builds what the paragraph shows: a `p` around what the list shows.
    pub fn render(&self) -> (node: ContentNode)
        ensures
            node@ == (Tree::Element {
                tag: "p"@,
                attributes: Seq::empty(),
                children: seq![self@.rendered()],
            }),
    {
        let mut children: Vec<ContentNode> = Vec::new();
        let shown = self.animated_list.render();
        children.push(shown);
        assert(forest_view(children@) =~= seq![shown@]);
        let node = ContentNode::Element {
            tag: "p".to_owned(),
            attributes: Vec::new(),
            children,
        };
        proof {
            lemma_element_view(node);
            assert(node@->attributes =~= Seq::empty());
        }
        node
    }
}

} // verus!
