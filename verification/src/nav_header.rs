//! The state of a navigation header: a line of text that folds away and
//! unfolds again when the header is animated in.

use vstd::prelude::*;
use vstd::string::*;
use crate::timing::{UNFOLD_TIME, is_under_way, under_way};

verus! {

/// What a navigation header is told.
#[derive(Clone, Copy, Debug, PartialEq, Eq, Structural)]
pub enum Msg {
    /// Fold away and unfold again.
    AnimateIn,
    /// The animation is over.
    StopAnimation,
    /// A tick of the animation that started at the first time and lasts the
    /// second.
    NextAnimation(u64, u64),
}

/// What the owner of a navigation header has to do after an update.
#[derive(Debug, PartialEq, Eq)]
pub struct Effects {
    /// Messages to hand back to the header on a later frame, in order.
    pub local: Vec<Msg>,
    /// Whether to play the sound of a header that unfolds.
    pub play_sound: bool,
}

/// A navigation header.
#[derive(Debug, PartialEq, Eq)]
pub struct NavHeader {
    /// The header is folded away.
    pub hide: bool,
    pub content: String,
}

impl NavHeader {
    /// A header with the given text, unfolded.
    pub fn with_content(content: &str) -> (header: Self)
        ensures
            !header.hide,
            header.content@ == content@,
    {
        NavHeader { hide: false, content: content.to_owned() }
    }

    /// Handles one message at the time `now`.
    ///
    /// `AnimateIn` folds the header away, asks for the sound and starts the
    /// animation. A tick goes on while the animation is under way and ends
    /// it afterwards. `StopAnimation` unfolds the header.
    pub fn update(&mut self, msg: Msg, now: u64) -> (effects: Effects)
        ensures
            final(self).content@ == old(self).content@,
            final(self).hide == (match msg {
                Msg::AnimateIn => true,
                Msg::StopAnimation => false,
                Msg::NextAnimation(_, _) => old(self).hide,
            }),
            effects.local@ == (match msg {
                Msg::AnimateIn => seq![Msg::NextAnimation(now, UNFOLD_TIME)],
                Msg::StopAnimation => Seq::empty(),
                Msg::NextAnimation(start, duration) => if is_under_way(start, duration, now) {
                    seq![Msg::NextAnimation(start, duration)]
                } else {
                    seq![Msg::StopAnimation]
                },
            }),
            effects.play_sound == (msg is AnimateIn),
    {
        match msg {
            Msg::AnimateIn => {
                self.hide = true;
                Effects { local: self.start_animation(now), play_sound: true }
            },
            Msg::StopAnimation => {
                self.hide = false;
                Effects { local: Vec::new(), play_sound: false }
            },
            Msg::NextAnimation(start, duration) => Effects {
                local: self.next_animation(start, duration, now),
                play_sound: false,
            },
        }
    }

    /// Starts the animation at `now`: its first tick follows.
    pub fn start_animation(&self, now: u64) -> (msgs: Vec<Msg>)
        ensures
            msgs@ == seq![Msg::NextAnimation(now, UNFOLD_TIME)],
    {
        let duration = UNFOLD_TIME;
        let start = now;
        vec![Msg::NextAnimation(start, duration)]
    }

    /// Handles the tick at `now` of the animation that started at `start`
    /// and lasts `duration`: the next tick follows while it is under way,
    /// and the stop afterwards.
    pub fn next_animation(&self, start: u64, duration: u64, now: u64) -> (msgs: Vec<Msg>)
        ensures
            msgs@ == if is_under_way(start, duration, now) {
                seq![Msg::NextAnimation(start, duration)]
            } else {
                seq![Msg::StopAnimation]
            },
    {
        let continue_animation = under_way(start, duration, now);
        if continue_animation {
            vec![Msg::NextAnimation(start, duration)]
        } else {
            vec![Msg::StopAnimation]
        }
    }
}

} // verus!
