//! The state of a frame: a border around some content that folds away and
//! unfolds again when the frame is animated in.

use vstd::prelude::*;
use crate::timing::{UNFOLD_TIME, is_under_way, under_way};

verus! {

/// What a frame is told. `PMSG` is a message of the frame's content, which
/// the frame hands on to its owner.
#[derive(Clone, Debug, PartialEq, Eq)]
pub enum Msg<PMSG> {
    /// Fold away and unfold again.
    AnimateIn,
    /// The animation is over.
    StopAnimation,
    /// The pointer came over the frame.
    HoverIn,
    /// The pointer left the frame.
    HoverOut,
    /// A tick of the animation that started at the first time and lasts the
    /// second.
    NextAnimation(u64, u64),
    /// A message of the content.
    External(PMSG),
}

/// What the owner of a frame has to do after an update.
#[derive(Debug, PartialEq, Eq)]
pub struct Effects<PMSG> {
    /// Messages to hand back to the frame on a later frame, in order.
    pub local: Vec<Msg<PMSG>>,
    /// Messages for the owner itself, in order.
    pub external: Vec<PMSG>,
    /// Whether to play the sound of a frame that unfolds.
    pub play_sound: bool,
}

/// A frame around a content of type `CONTENT`, which the frame keeps and
/// never looks into.
#[derive(Debug, PartialEq, Eq)]
pub struct Frame<CONTENT> {
    /// The frame is folded away.
    pub hide: bool,
    /// The pointer is over the frame.
    pub hover: bool,
    pub content: CONTENT,
}

/// Whether a frame is folded away after a message.
pub open spec fn hide_after<PMSG>(folded: bool, msg: Msg<PMSG>) -> bool {
    match msg {
        Msg::AnimateIn => true,
        Msg::StopAnimation => false,
        _ => folded,
    }
}

/// Whether the pointer is over a frame after a message.
pub open spec fn hover_after<PMSG>(hovered: bool, msg: Msg<PMSG>) -> bool {
    match msg {
        Msg::HoverIn => true,
        Msg::HoverOut => false,
        _ => hovered,
    }
}

/// The messages for the frame that follow a message at `now`: the first
/// tick after a start, and after a tick the next one while the animation is
/// under way and the stop afterwards.
pub open spec fn local_after<PMSG>(msg: Msg<PMSG>, now: u64) -> Seq<Msg<PMSG>> {
    match msg {
        Msg::AnimateIn => seq![Msg::<PMSG>::NextAnimation(now, UNFOLD_TIME)],
        Msg::NextAnimation(start, duration) => if is_under_way(start, duration, now) {
            seq![Msg::<PMSG>::NextAnimation(start, duration)]
        } else {
            seq![Msg::<PMSG>::StopAnimation]
        },
        _ => Seq::<Msg<PMSG>>::empty(),
    }
}

/// The messages for the owner that follow a message: the message of the
/// content that it holds, if it holds one.
pub open spec fn external_after<PMSG>(msg: Msg<PMSG>) -> Seq<PMSG> {
    match msg {
        Msg::External(pmsg) => seq![pmsg],
        _ => Seq::<PMSG>::empty(),
    }
}

impl<CONTENT> Frame<CONTENT> {
    /// A frame around `content`, unfolded.
    pub fn with_content(content: CONTENT) -> (frame: Self)
        ensures
            frame == (Frame { hide: false, hover: false, content }),
    {
        Frame { hide: false, hover: false, content }
    }

    /// Handles one message at the time `now`.
    ///
    /// `AnimateIn` folds the frame away, asks for the sound and starts the
    /// animation. A tick goes on while the animation is under way and ends
    /// it afterwards. `StopAnimation` unfolds the frame. A message of the
    /// content goes to the owner.
    pub fn update<PMSG>(&mut self, msg: Msg<PMSG>, now: u64) -> (effects: Effects<PMSG>)
        ensures
            final(self).content == old(self).content,
            final(self).hide == hide_after(old(self).hide, msg),
            final(self).hover == hover_after(old(self).hover, msg),
            effects.local@ == local_after(msg, now),
            effects.external@ == external_after(msg),
            effects.play_sound == (msg is AnimateIn),
    {
        match msg {
            Msg::AnimateIn => {
                self.hide = true;
                Effects { local: self.start_animation(now), external: Vec::new(), play_sound: true }
            },
            Msg::StopAnimation => {
                self.hide = false;
                Effects { local: Vec::new(), external: Vec::new(), play_sound: false }
            },
            Msg::HoverIn => {
                self.hover = true;
                Effects { local: Vec::new(), external: Vec::new(), play_sound: false }
            },
            Msg::HoverOut => {
                self.hover = false;
                Effects { local: Vec::new(), external: Vec::new(), play_sound: false }
            },
            Msg::NextAnimation(start, duration) => Effects {
                local: self.next_animation(start, duration, now),
                external: Vec::new(),
                play_sound: false,
            },
            Msg::External(pmsg) => Effects {
                local: Vec::new(),
                external: vec![pmsg],
                play_sound: false,
            },
        }
    }

    /// Gives the frame another content.
    pub fn set_content(&mut self, content: CONTENT)
        ensures
            *final(self) == (Frame { content, ..*old(self) }),
    {
        self.content = content;
    }

    /// Starts the animation at `now`: its first tick follows.
    pub fn start_animation<PMSG>(&self, now: u64) -> (msgs: Vec<Msg<PMSG>>)
        ensures
            msgs@ == seq![Msg::<PMSG>::NextAnimation(now, UNFOLD_TIME)],
    {
        let duration = UNFOLD_TIME;
        let start = now;
        vec![Msg::NextAnimation(start, duration)]
    }

    /// Handles the tick at `now` of the animation that started at `start`
    /// and lasts `duration`: the next tick follows while it is under way,
    /// and the stop afterwards.
    pub fn next_animation<PMSG>(&self, start: u64, duration: u64, now: u64) -> (msgs: Vec<
        Msg<PMSG>,
    >)
        ensures
            msgs@ == if is_under_way(start, duration, now) {
                seq![Msg::<PMSG>::NextAnimation(start, duration)]
            } else {
                seq![Msg::<PMSG>::StopAnimation]
            },
    {
        let continue_animation = under_way(start, duration, now);
        if continue_animation {
            vec![Msg::NextAnimation(start, duration)]
        } else {
            vec![Msg::StopAnimation]
        }
    }
}

} // verus!
