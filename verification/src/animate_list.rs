//! The reveal animation: a piece of content that is shown unit by unit as
//! time passes, or hidden again the same way.
//!
//! An [`AnimateList`] decides; its owner acts. The owner reads the clock,
//! hands each message to [`AnimateList::update`] together with the time, and
//! carries out the [`Effects`] that come back: it delivers the follow-up
//! messages on a later frame and notifies the listeners that are named.

use vstd::prelude::*;
use vstd::string::*;
use crate::listeners::copy_listeners;
use crate::content::{Attribute, ContentNode, Tree, forest_view, lemma_element_view};
use crate::projector::{container, project, projection};
use crate::projection_laws::law_budget_above_units;
use crate::timing::{
    AnimationRun, budget_at, continues, duration_for, goes_on, run_duration, tick_budget,
};

verus! {

/// What an [`AnimateList`] is told.
#[derive(Debug, PartialEq, Eq)]
pub enum Msg {
    /// Reveal the content from the start.
    AnimateIn,
    /// The animation is over, or is to be cut short: tell the listeners.
    StopAnimation,
    /// The next tick of a run, with the run's direction (`true` to reveal),
    /// start and duration.
    NextAnimation(bool, u64, u64),
}

impl Clone for Msg {
    fn clone(&self) -> (out: Self)
        ensures
            out == *self,
    {
        match self {
            Msg::AnimateIn => Msg::AnimateIn,
            Msg::StopAnimation => Msg::StopAnimation,
            Msg::NextAnimation(is_in, start, duration) => Msg::NextAnimation(
                *is_in,
                *start,
                *duration,
            ),
        }
    }
}

/// What the owner of an [`AnimateList`] has to do after an update.
#[derive(Debug, PartialEq, Eq)]
pub struct Effects {
    /// Messages to hand back to the same list on a later frame, in order.
    pub local: Vec<Msg>,
    /// The listeners to notify now, in order.
    pub external: Vec<usize>,
    /// Whether to play the sound of typing.
    pub play_sound: bool,
}

/// A content tree with the state of its reveal animation.
pub struct AnimateList {
    animated_layer: Option<ContentNode>,
    children: ContentNode,
    animating: bool,
    content_len: usize,
    on_stop_animation: Vec<usize>,
    run: Option<AnimationRun>,
}

/// The model of an [`AnimateList`].
pub ghost struct AnimateListView {
    /// The content, which never changes.
    pub children: Tree,
    /// Whether the animated layer is on show.
    pub animating: bool,
    /// The last projection that a tick computed, if any.
    pub animated_layer: Option<Tree>,
    /// The listeners, in the order in which they were added.
    pub on_stop_animation: Seq<usize>,
    /// The run whose ticks are handled, if one is under way.
    pub run: Option<AnimationRun>,
}

impl AnimateListView {
    /// What always holds of a list: its units can be counted, and a run that
    /// is under way belongs to a list that is animating, has content, and
    /// lasts as long as that content asks for.
    pub open spec fn wf(self) -> bool {
        &&& self.children.units() <= usize::MAX
        &&& self.run matches Some(run) ==> {
            &&& self.animating
            &&& self.children.units() > 0
            &&& run.duration == run_duration(self.children.units())
        }
    }

    /// The run that starts at `now` in the given direction.
    pub open spec fn new_run(self, is_in: bool, now: u64) -> AnimationRun {
        AnimationRun { is_in, start: now, duration: run_duration(self.children.units()) as u64 }
    }

    /// The list after its animation was stopped: no run is under way and the
    /// animated layer is off show. The last projection is kept.
    pub open spec fn stopped(self) -> Self {
        AnimateListView { animating: false, run: None, ..self }
    }

    /// The list after a start at `now`. A list without content stays as it
    /// is. Otherwise a new run takes the place of any other, the animated
    /// layer is on show, and a reveal forgets the last projection, while a
    /// hide begins from it.
    pub open spec fn started(self, is_in: bool, now: u64) -> Self {
        if self.children.units() == 0 {
            self
        } else {
            AnimateListView {
                animating: true,
                animated_layer: if is_in {
                    None
                } else {
                    self.animated_layer
                },
                run: Some(self.new_run(is_in, now)),
                ..self
            }
        }
    }

    /// The messages that follow a start at `now`: the first tick of the new
    /// run, or nothing where the list has no content.
    pub open spec fn start_msgs(self, is_in: bool, now: u64) -> Seq<Msg> {
        if self.children.units() == 0 {
            Seq::empty()
        } else {
            let run = self.new_run(is_in, now);
            seq![Msg::NextAnimation(run.is_in, run.start, run.duration)]
        }
    }

    /// The list after a tick of `run` at `now`. A tick of any run but the one
    /// under way changes nothing. Otherwise the projection at the budget of
    /// the instant becomes the animated layer, and the run ends when it does
    /// not go on.
    pub open spec fn ticked(self, run: AnimationRun, now: u64) -> Self {
        if self.run != Some(run) {
            self
        } else {
            let budget = tick_budget(run, now, self.children.units());
            AnimateListView {
                animated_layer: Some(projection(self.children, budget)),
                run: if goes_on(run.is_in, budget, self.children.units()) {
                    Some(run)
                } else {
                    None
                },
                ..self
            }
        }
    }

    /// The messages that follow a tick of `run` at `now`: nothing for a run
    /// that is not under way, the next tick of a run that goes on, and the
    /// stop of one that is over.
    pub open spec fn tick_msgs(self, run: AnimationRun, now: u64) -> Seq<Msg> {
        if self.run != Some(run) {
            Seq::empty()
        } else if goes_on(
            run.is_in,
            tick_budget(run, now, self.children.units()),
            self.children.units(),
        ) {
            seq![Msg::NextAnimation(run.is_in, run.start, run.duration)]
        } else {
            seq![Msg::StopAnimation]
        }
    }

    /// The list after a message at `now`.
    pub open spec fn updated(self, msg: Msg, now: u64) -> Self {
        match msg {
            Msg::AnimateIn => self.stopped().started(true, now),
            Msg::StopAnimation => self.stopped(),
            Msg::NextAnimation(is_in, start, duration) => self.ticked(
                AnimationRun { is_in, start, duration },
                now,
            ),
        }
    }

    /// The messages that follow a message at `now`.
    pub open spec fn update_msgs(self, msg: Msg, now: u64) -> Seq<Msg> {
        match msg {
            Msg::AnimateIn => self.start_msgs(true, now),
            Msg::StopAnimation => Seq::empty(),
            Msg::NextAnimation(is_in, start, duration) => self.tick_msgs(
                AnimationRun { is_in, start, duration },
                now,
            ),
        }
    }

    /// The listeners that are named after a message: all of them, in their
    /// order, when the animation stops, and none otherwise.
    pub open spec fn update_listeners(self, msg: Msg) -> Seq<usize> {
        match msg {
            Msg::StopAnimation => self.on_stop_animation,
            _ => Seq::empty(),
        }
    }

    /// The animated layer on top of the content: while the list is
    /// animating, a wrapper around the layer with the last projection, if
    /// there is one; otherwise a comment in its place.
    pub open spec fn overlay(self) -> Tree {
        if self.animating {
            classed(
                "animated_layer_wrapper"@,
                seq![
                    classed(
                        "animated_layer"@,
                        match self.animated_layer {
                            Some(layer) => seq![layer],
                            None => Seq::empty(),
                        },
                    ),
                ],
            )
        } else {
            Tree::Comment { value: "hidden"@ }
        }
    }

    /// What the list shows: the content itself, which keeps the layout, and
    /// on top of it the [overlay](Self::overlay). The class of the list tells
    /// whether it is animating.
    pub open spec fn rendered(self) -> Tree {
        container(
            seq![
                classed(
                    if self.animating {
                        "animate_list animating"@
                    } else {
                        "animate_list"@
                    },
                    seq![classed("animate_list_children"@, seq![self.children]), self.overlay()],
                ),
            ],
        )
    }
}

/// A `div` of the given class around `children`.
pub open spec fn classed(class: Seq<char>, children: Seq<Tree>) -> Tree {
    Tree::Element { tag: "div"@, attributes: seq![("class"@, class)], children }
}

impl View for AnimateList {
    type V = AnimateListView;

    closed spec fn view(&self) -> AnimateListView {
        AnimateListView {
            children: self.children@,
            animating: self.animating,
            animated_layer: match self.animated_layer {
                Some(layer) => Some(layer@),
                None => None,
            },
            on_stop_animation: self.on_stop_animation@,
            run: self.run,
        }
    }
}

/// Builds a `div` of the given class around `children`.
fn div_with_class(class: &str, children: Vec<ContentNode>) -> (node: ContentNode)
    ensures
        node@ == classed(class@, forest_view(children@)),
{
    let mut attributes: Vec<Attribute> = Vec::new();
    attributes.push(Attribute { name: "class".to_owned(), value: class.to_owned() });
    let node = ContentNode::Element { tag: "div".to_owned(), attributes, children };
    proof {
        lemma_element_view(node);
        assert(node@->attributes =~= seq![("class"@, class@)]);
    }
    node
}

impl AnimateList {
    #[verifier::type_invariant]
    spec fn inv(self) -> bool {
        &&& self.content_len == self.children@.units()
        &&& self@.wf()
    }

    /// A list that shows `children`, at rest, with no listener.
    pub fn with_content(children: ContentNode) -> (list: Self)
        requires
            children@.units() <= usize::MAX,
        ensures
            list@ == (AnimateListView {
                children: children@,
                animating: false,
                animated_layer: None,
                on_stop_animation: Seq::empty(),
                run: None,
            }),
            list@.wf(),
    {
        let content_len = match children.node_count() {
            Some(n) => n,
            None => unreached(),
        };
        AnimateList {
            animated_layer: None,
            children,
            animating: false,
            content_len,
            on_stop_animation: Vec::new(),
            run: None,
        }
    }

    /// Whether the animated layer is on show.
    pub fn is_animating(&self) -> (animating: bool)
        ensures
            animating == self@.animating,
    {
        self.animating
    }

    /// The number of atomic units of the content.
    pub fn content_len(&self) -> (len: usize)
        ensures
            len == self@.children.units(),
    {
        proof {
            use_type_invariant(self);
        }
        self.content_len
    }

    /// The content.
    pub fn children(&self) -> (children: &ContentNode)
        ensures
            children@ == self@.children,
    {
        &self.children
    }

    /// The last projection that a tick computed, if any.
    pub fn animated_layer(&self) -> (layer: Option<&ContentNode>)
        ensures
            match layer {
                Some(node) => self@.animated_layer == Some(node@),
                None => self@.animated_layer is None,
            },
    {
        match &self.animated_layer {
            Some(node) => Some(node),
            None => None,
        }
    }

    /// The run whose ticks are handled, if one is under way.
    pub fn current_run(&self) -> (run: Option<AnimationRun>)
        ensures
            run == self@.run,
    {
        self.run
    }

    /// The listeners, in the order in which they were added.
    pub fn listeners(&self) -> (listeners: &Vec<usize>)
        ensures
            listeners@ == self@.on_stop_animation,
    {
        &self.on_stop_animation
    }

    /// Handles one message at the time `now`.
    ///
    /// `AnimateIn` stops what is under way, starts a reveal and asks for the
    /// sound. `StopAnimation`
    /// stops the animation and names every listener once, in the order in
    /// which they were added. `NextAnimation` is a tick of the run it names.
    pub fn update(&mut self, msg: Msg, now: u64) -> (effects: Effects)
        ensures
            final(self)@.wf(),
            final(self)@ == old(self)@.updated(msg, now),
            effects.local@ == old(self)@.update_msgs(msg, now),
            effects.external@ == old(self)@.update_listeners(msg),
            effects.play_sound == (msg is AnimateIn),
    {
        match msg {
            Msg::AnimateIn => Effects {
                local: self.animate_in(now),
                external: Vec::new(),
                play_sound: true,
            },
            Msg::StopAnimation => {
                let local = self.stop_animation();
                Effects {
                    local,
                    external: copy_listeners(&self.on_stop_animation),
                    play_sound: false,
                }
            },
            Msg::NextAnimation(is_in, start, duration) => Effects {
                local: self.next_animation(is_in, start, duration, now),
                external: Vec::new(),
                play_sound: false,
            },
        }
    }

    /// Builds what the list shows.
    pub fn render(&self) -> (node: ContentNode)
        ensures
            node@ == self@.rendered(),
    {
        let mut content: Vec<ContentNode> = Vec::new();
        content.push(self.children.clone());
        assert(forest_view(content@) =~= seq![self@.children]);
        let shown = div_with_class("animate_list_children", content);
        let over = if self.animating {
            let mut layer: Vec<ContentNode> = Vec::new();
            match &self.animated_layer {
                Some(animated_layer) => {
                    layer.push(animated_layer.clone());
                    assert(forest_view(layer@) =~= seq![animated_layer@]);
                },
                None => {
                    assert(forest_view(layer@) =~= Seq::<Tree>::empty());
                },
            }
            let mut wrapped: Vec<ContentNode> = Vec::new();
            let inner = div_with_class("animated_layer", layer);
            wrapped.push(inner);
            assert(forest_view(wrapped@) =~= seq![inner@]);
            div_with_class("animated_layer_wrapper", wrapped)
        } else {
            ContentNode::Comment { value: "hidden".to_owned() }
        };
        assert(over@ == self@.overlay());
        let mut layers: Vec<ContentNode> = Vec::new();
        layers.push(shown);
        layers.push(over);
        assert(forest_view(layers@) =~= seq![shown@, over@]);
        let list = if self.animating {
            div_with_class("animate_list animating", layers)
        } else {
            div_with_class("animate_list", layers)
        };
        let mut outer: Vec<ContentNode> = Vec::new();
        outer.push(list);
        assert(forest_view(outer@) =~= seq![list@]);
        let node = ContentNode::Element {
            tag: "div".to_owned(),
            attributes: Vec::new(),
            children: outer,
        };
        proof {
            lemma_element_view(node);
            assert(node@->attributes =~= Seq::empty());
            assert(node@ == container(seq![list@]));
        }
        node
    }

    /// Stops what is under way and starts a reveal at `now`.
    pub fn animate_in(&mut self, now: u64) -> (msgs: Vec<Msg>)
        ensures
            final(self)@ == old(self)@.stopped().started(true, now),
            msgs@ == old(self)@.start_msgs(true, now),
            final(self)@.wf(),
    {
        let _ = self.stop_animation();
        self.start_animation(true, now)
    }

    /// Stops the animation. No message follows.
    pub fn stop_animation(&mut self) -> (msgs: Vec<Msg>)
        ensures
            final(self)@ == old(self)@.stopped(),
            msgs@ == Seq::<Msg>::empty(),
            final(self)@.wf(),
    {
        proof {
            use_type_invariant(&*self);
        }
        self.run = None;
        self.animating = false;
        Vec::new()
    }

    /// Adds a listener. It is named, after those added before it, each time
    /// the animation stops. A listener added twice is named twice.
    pub fn add_stop_animation_listener(&mut self, listener: usize)
        ensures
            final(self)@ == (AnimateListView {
                on_stop_animation: old(self)@.on_stop_animation.push(listener),
                ..old(self)@
            }),
            final(self)@.wf(),
    {
        proof {
            use_type_invariant(&*self);
        }
        let mut listeners = copy_listeners(&self.on_stop_animation);
        listeners.push(listener);
        self.on_stop_animation = listeners;
    }

    /// Starts a run at `now`, to reveal (`is_in`) or to hide. Nothing happens
    /// where there is no content.
    pub fn start_animation(&mut self, is_in: bool, now: u64) -> (msgs: Vec<Msg>)
        ensures
            final(self)@ == old(self)@.started(is_in, now),
            msgs@ == old(self)@.start_msgs(is_in, now),
            final(self)@.wf(),
    {
        proof {
            use_type_invariant(&*self);
        }
        if self.content_len == 0 {
            return Vec::new();
        }
        let duration = duration_for(self.content_len);
        let start = now;
        self.animating = true;
        if is_in {
            self.animated_layer = None;
        }
        self.run = Some(AnimationRun { is_in, start, duration });
        vec![Msg::NextAnimation(is_in, start, duration)]
    }

    /// Handles the tick at `now` of the run with the given direction, start
    /// and duration.
    pub fn next_animation(&mut self, is_in: bool, start: u64, duration: u64, now: u64) -> (msgs:
        Vec<Msg>)
        ensures
            final(self)@ == old(self)@.ticked(AnimationRun { is_in, start, duration }, now),
            msgs@ == old(self)@.tick_msgs(AnimationRun { is_in, start, duration }, now),
            final(self)@.wf(),
    {
        proof {
            use_type_invariant(&*self);
        }
        let run = AnimationRun { is_in, start, duration };
        let current = match self.run {
            Some(under_way) => under_way.is_in == is_in && under_way.start == start
                && under_way.duration == duration,
            None => false,
        };
        if !current {
            return Vec::new();
        }
        let new_length = budget_at(run, now, self.content_len);
        let dest = project(&self.children, new_length);
        proof {
            let budget = tick_budget(run, now, self.content_len as nat);
            if budget > self.content_len {
                law_budget_above_units(self.children@, new_length as nat, budget);
            }
        }
        self.animated_layer = Some(dest);
        if continues(is_in, new_length, self.content_len) {
            vec![Msg::NextAnimation(is_in, start, duration)]
        } else {
            self.run = None;
            vec![Msg::StopAnimation]
        }
    }
}

} // verus!
