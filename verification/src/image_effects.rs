//! An image that is revealed slice by slice by an [`AnimateList`].

use vstd::prelude::*;
use crate::animate_list::{AnimateList, AnimateListView};
use crate::content::ContentNode;

verus! {

/// The number under which the image listens to the end of its reveal.
pub const DONE_LISTENER: usize = 0;

/// What an image with effects is told.
#[derive(Clone, Debug, PartialEq, Eq)]
pub enum Msg {
    /// Reveal the slices from the start.
    AnimateIn,
    /// A message of the list that reveals the slices.
    AnimateListMsg(crate::animate_list::Msg),
    /// The reveal is over.
    AnimationDone,
}

/// What the owner of an image with effects has to do after an update.
#[derive(Debug, PartialEq, Eq)]
pub struct Effects {
    /// Messages to hand back to the image on a later frame, in order.
    pub local: Vec<Msg>,
    /// Whether to play the sound of typing.
    pub play_sound: bool,
}

/// An image with effects.
pub struct ImageEffects {
    animate_list: AnimateList,
    is_animating: bool,
}

/// The model of an [`ImageEffects`].
pub ghost struct ImageEffectsView {
    /// The list that reveals the slices.
    pub list: AnimateListView,
    /// The slices are on show in place of the image.
    pub is_animating: bool,
}

impl View for ImageEffects {
    type V = ImageEffectsView;

    closed spec fn view(&self) -> ImageEffectsView {
        ImageEffectsView { list: self.animate_list@, is_animating: self.is_animating }
    }
}

/// The message for the list in a message for the image, if it holds one.
pub open spec fn for_list(msg: Msg) -> Option<crate::animate_list::Msg> {
    match msg {
        Msg::AnimateIn => Some(crate::animate_list::Msg::AnimateIn),
        Msg::AnimateListMsg(inner) => Some(inner),
        Msg::AnimationDone => None,
    }
}

/// What comes back to the image from its list: one `AnimationDone` for each
/// listener that the list names, and behind them the messages of the list,
/// wrapped.
pub open spec fn localized(listeners: Seq<usize>, msgs: Seq<crate::animate_list::Msg>) -> Seq<
    Msg,
> {
    Seq::new(listeners.len(), |i: int| Msg::AnimationDone) + Seq::new(
        msgs.len(),
        |i: int| Msg::AnimateListMsg(msgs[i]),
    )
}

/// Turns what the list asks for into messages of the image.
fn localize(listeners: Vec<usize>, msgs: Vec<crate::animate_list::Msg>) -> (out: Vec<Msg>)
    ensures
        out@ == localized(listeners@, msgs@),
{
    let mut out: Vec<Msg> = Vec::new();
    let mut i: usize = 0;
    while i < listeners.len()
        invariant
            i <= listeners.len(),
            out@ == localized(listeners@.take(i as int), Seq::empty()),
        decreases listeners.len() - i,
    {
        out.push(Msg::AnimationDone);
        assert(out@ =~= localized(listeners@.take(i + 1), Seq::empty()));
        i += 1;
    }
    assert(listeners@.take(i as int) =~= listeners@);
    let mut j: usize = 0;
    assert(out@ =~= localized(listeners@, msgs@.take(0)));
    while j < msgs.len()
        invariant
            j <= msgs.len(),
            out@ == localized(listeners@, msgs@.take(j as int)),
        decreases msgs.len() - j,
    {
        out.push(Msg::AnimateListMsg(msgs[j].clone()));
        assert(out@ =~= localized(listeners@, msgs@.take(j + 1)));
        j += 1;
    }
    assert(msgs@.take(j as int) =~= msgs@);
    out
}

impl ImageEffects {
    /// An image whose slices are `slices`, at rest. The image listens to
    /// the end of the reveal under [`DONE_LISTENER`].
    pub fn new(slices: ContentNode) -> (image: Self)
        requires
            slices@.units() <= usize::MAX,
        ensures
            image@ == (ImageEffectsView {
                list: (AnimateListView {
                    children: slices@,
                    animating: false,
                    animated_layer: None,
                    on_stop_animation: seq![DONE_LISTENER],
                    run: None,
                }),
                is_animating: false,
            }),
    {
        let mut animate_list = AnimateList::with_content(slices);
        animate_list.add_stop_animation_listener(DONE_LISTENER);
        assert(animate_list@.on_stop_animation =~= seq![DONE_LISTENER]);
        ImageEffects { animate_list, is_animating: false }
    }

    /// Whether the slices are on show in place of the image.
    pub fn is_animating(&self) -> (animating: bool)
        ensures
            animating == self@.is_animating,
    {
        self.is_animating
    }

    /// The list that reveals the slices.
    pub fn animate_list(&self) -> (list: &AnimateList)
        ensures
            list@ == self@.list,
    {
        &self.animate_list
    }

    /// Handles one message at the time `now`.
    ///
    /// `AnimateIn` puts the slices on show and starts their reveal. A message
    /// of the list goes to the list. What the list asks for comes back as
    /// messages of the image, the end of the reveal as `AnimationDone`,
    /// which puts the image back on show.
    pub fn update(&mut self, msg: Msg, now: u64) -> (effects: Effects)
        ensures
            final(self)@.is_animating == (match msg {
                Msg::AnimateIn => true,
                Msg::AnimateListMsg(_) => old(self)@.is_animating,
                Msg::AnimationDone => false,
            }),
            match for_list(msg) {
                Some(inner) => {
                    &&& final(self)@.list == old(self)@.list.updated(inner, now)
                    &&& effects.local@ == localized(
                        old(self)@.list.update_listeners(inner),
                        old(self)@.list.update_msgs(inner, now),
                    )
                    &&& effects.play_sound == (inner is AnimateIn)
                },
                None => {
                    &&& final(self)@.list == old(self)@.list
                    &&& effects.local@ == Seq::<Msg>::empty()
                    &&& !effects.play_sound
                },
            },
    {
        match msg {
            Msg::AnimateIn => {
                self.is_animating = true;
                let effects = self.animate_list.update(crate::animate_list::Msg::AnimateIn, now);
                Effects {
                    local: localize(effects.external, effects.local),
                    play_sound: effects.play_sound,
                }
            },
            Msg::AnimateListMsg(amsg) => {
                let effects = self.animate_list.update(amsg, now);
                Effects {
                    local: localize(effects.external, effects.local),
                    play_sound: effects.play_sound,
                }
            },
            Msg::AnimationDone => {
                self.is_animating = false;
                Effects { local: Vec::new(), play_sound: false }
            },
        }
    }
}

} // verus!
