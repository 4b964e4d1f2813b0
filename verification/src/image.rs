//! An image in a frame that is revealed slice by slice: the image is cut
//! into square slices, and a run shows more and more of them, row by row.

use vstd::prelude::*;
use vstd::string::*;
use vstd::arithmetic::div_mod::lemma_fundamental_div_mod_converse;
use crate::frame::{Frame, external_after, hide_after, hover_after, local_after};
use crate::timing::{
    AnimationRun, budget_at, continues, duration_for, goes_on, lemma_share_bounds, progress,
    run_duration, tick_budget,
};

verus! {

/// What the frame of an image holds.
#[derive(Clone, Copy, Debug, PartialEq, Eq, Structural)]
pub enum Shown {
    /// The first slices of the image, as many as given, or all of them.
    Slices(Option<usize>),
    /// The image itself.
    Picture,
}

/// What an image is told.
#[derive(Debug, PartialEq, Eq)]
pub enum Msg {
    /// Reveal the slices from the start.
    AnimateIn,
    /// A message of the frame.
    FrameMsg(Box<crate::frame::Msg<Msg>>),
    /// The reveal is over.
    AnimationDone,
    /// Stop the reveal and show the image itself.
    StopAnimation,
    /// The next tick of a run, with the run's direction (`true` to reveal),
    /// start and duration.
    NextAnimation(bool, u64, u64),
}

/// What the owner of an image has to do after an update.
#[derive(Debug, PartialEq, Eq)]
pub struct Effects {
    /// Messages to hand back to the image on a later frame, in order.
    pub local: Vec<Msg>,
    /// Whether to play the sound of typing.
    pub play_sound: bool,
    /// Whether to play the sound of a frame that unfolds.
    pub play_frame_sound: bool,
}

/// Where an image comes from and how it is cut, in whole pixels.
#[derive(Debug, PartialEq, Eq)]
pub struct Properties {
    url: String,
    width: u32,
    height: u32,
    /// The side of a slice.
    slice_size: u32,
    /// The space between two slices.
    gap: u32,
}

/// The model of [`Properties`].
pub ghost struct PropertiesView {
    pub url: Seq<char>,
    pub width: nat,
    pub height: nat,
    pub slice_size: nat,
    pub gap: nat,
}

/// An image.
#[derive(Debug, PartialEq, Eq)]
pub struct Image {
    pub frame: Frame<Shown>,
    pub properties: Properties,
    /// The slices are on show in place of the image.
    pub is_animating: bool,
    /// The run whose ticks are handled, if one is under way.
    pub run: Option<AnimationRun>,
}

/// `a / d` rounded to the nearest whole number, a half upwards.
pub open spec fn rounded_ratio(a: nat, d: nat) -> nat {
    (2 * a + d) / (2 * d)
}

impl PropertiesView {
    /// The distance from one slice to the next.
    pub open spec fn pitch(self) -> nat {
        self.slice_size + self.gap
    }

    /// The number of slices in a row.
    pub open spec fn across(self) -> nat {
        rounded_ratio(self.width, self.pitch())
    }

    /// The number of rows of slices.
    pub open spec fn down(self) -> nat {
        rounded_ratio(self.height, self.pitch())
    }

    /// The number of slices.
    pub open spec fn content_len(self) -> nat {
        self.across() * self.down()
    }

    /// What holds of all properties: slices take room, and the image is
    /// less than 65536 pixels wide and high.
    pub open spec fn wf(self) -> bool {
        &&& self.pitch() > 0
        &&& self.width <= 0xffff
        &&& self.height <= 0xffff
        &&& self.slice_size <= 0xffff
        &&& self.gap <= 0xffff
    }

    /// The left and top of the slice with the given index, counted row by
    /// row.
    pub open spec fn cell_at(self, index: nat) -> (u64, u64) {
        (
            (self.pitch() * (index % self.across())) as u64,
            (self.pitch() * (index / self.across())) as u64,
        )
    }

    /// The number of slices that a limit lets through.
    pub open spec fn cell_count(self, limit: Option<usize>) -> nat {
        match limit {
            Some(most) => if most < self.content_len() {
                most as nat
            } else {
                self.content_len()
            },
            None => self.content_len(),
        }
    }

    /// The places of the slices that a limit lets through.
    pub open spec fn cells(self, limit: Option<usize>) -> Seq<(u64, u64)> {
        Seq::new(self.cell_count(limit), |i: int| self.cell_at(i as nat))
    }
}

impl View for Properties {
    type V = PropertiesView;

    closed spec fn view(&self) -> PropertiesView {
        PropertiesView {
            url: self.url@,
            width: self.width as nat,
            height: self.height as nat,
            slice_size: self.slice_size as nat,
            gap: self.gap as nat,
        }
    }
}

proof fn lemma_rounded_ratio_bound(a: nat, d: nat)
    requires
        d > 0,
    ensures
        rounded_ratio(a, d) <= a + 1,
        rounded_ratio(a, d) * d <= a + d,
{
    let q = rounded_ratio(a, d);
    vstd::arithmetic::div_mod::lemma_fundamental_div_mod((2 * a + d) as int, (2 * d) as int);
    assert(2 * d * q <= 2 * a + d);
    assert(q * d <= a + d) by (nonlinear_arith)
        requires
            2 * d * q <= 2 * a + d,
    ;
    assert(q <= a + 1) by (nonlinear_arith)
        requires
            q * d <= a + d,
            d > 0,
    ;
}

impl Properties {
    #[verifier::type_invariant]
    spec fn inv(self) -> bool {
        self@.wf()
    }

    /// The address of the image.
    pub fn url(&self) -> (url: &str)
        ensures
            url@ == self@.url,
    {
        self.url.as_str()
    }

    /// The width and the height of the image.
    pub fn size(&self) -> (size: (u32, u32))
        ensures
            size.0 == self@.width,
            size.1 == self@.height,
            self@.wf(),
    {
        proof {
            use_type_invariant(self);
        }
        (self.width, self.height)
    }

    /// The side of a slice and the space between two slices.
    pub fn slice_size_and_gap(&self) -> (sizes: (u32, u32))
        ensures
            sizes.0 == self@.slice_size,
            sizes.1 == self@.gap,
            self@.wf(),
    {
        proof {
            use_type_invariant(self);
        }
        (self.slice_size, self.gap)
    }

    /// The number of slices in a row and the number of rows.
    pub fn slices(&self) -> (slices: (usize, usize))
        ensures
            slices.0 == self@.across(),
            slices.1 == self@.down(),
            slices.0 <= 0x1_0000,
            slices.1 <= 0x1_0000,
            self@.wf(),
    {
        proof {
            use_type_invariant(self);
            lemma_rounded_ratio_bound(self@.width, self@.pitch());
            lemma_rounded_ratio_bound(self@.height, self@.pitch());
        }
        let pitch: u64 = self.slice_size as u64 + self.gap as u64;
        let across = (2 * (self.width as u64) + pitch) / (2 * pitch);
        let down = (2 * (self.height as u64) + pitch) / (2 * pitch);
        (across as usize, down as usize)
    }

    /// The number of slices.
    pub fn content_len(&self) -> (len: usize)
        ensures
            len == self@.content_len(),
            self@.wf(),
    {
        let (w, h) = self.slices();
        assert(w * h <= 0x1_0000 * 0x1_0000) by (nonlinear_arith)
            requires
                w <= 0x1_0000,
                h <= 0x1_0000,
        ;
        proof {
            lemma_slices_fit(self@);
        }
        w * h
    }

    /// The left and the top of each slice that `limit` lets through, row by
    /// row.
    pub fn cells(&self, limit: Option<usize>) -> (cells: Vec<(u64, u64)>)
        ensures
            cells@ == self@.cells(limit),
    {
        let (slice_x, slice_y) = self.slices();
        let max = self.content_len();
        let limit = match limit {
            Some(limit) => if limit < max {
                limit
            } else {
                max
            },
            None => max,
        };
        proof {
            use_type_invariant(self);
        }
        let pitch: u64 = self.slice_size as u64 + self.gap as u64;
        let ghost model = self@;
        let mut cells: Vec<(u64, u64)> = Vec::new();
        let mut index: usize = 0;
        let mut y: usize = 0;
        while y < slice_y
            invariant
                y <= slice_y,
                slice_x == model.across(),
                slice_y == model.down(),
                slice_x <= 0x1_0000,
                slice_y <= 0x1_0000,
                max == model.content_len(),
                max == slice_x * slice_y,
                limit <= max,
                pitch == model.pitch(),
                pitch <= 0x1_fffe,
                index == y * slice_x,
                cells.len() == if index < limit {
                    index
                } else {
                    limit
                },
                forall|i: int| 0 <= i < cells.len() ==> cells[i] == model.cell_at(i as nat),
            decreases slice_y - y,
        {
            assert(pitch * y <= 0x1_fffe * 0x1_0000) by (nonlinear_arith)
                requires
                    pitch <= 0x1_fffe,
                    y <= 0x1_0000,
            ;
            let top = pitch * y as u64;
            let mut x: usize = 0;
            while x < slice_x
                invariant
                    x <= slice_x,
                    y < slice_y,
                    slice_x == model.across(),
                    slice_x <= 0x1_0000,
                    slice_y <= 0x1_0000,
                    max == slice_x * slice_y,
                    limit <= max,
                    pitch == model.pitch(),
                    pitch <= 0x1_fffe,
                    top == pitch * y,
                    index == y * slice_x + x,
                    cells.len() == if index < limit {
                        index
                    } else {
                        limit
                    },
                    forall|i: int| 0 <= i < cells.len() ==> cells[i] == model.cell_at(i as nat),
                decreases slice_x - x,
            {
                assert(y * slice_x + slice_x <= slice_x * slice_y) by (nonlinear_arith)
                    requires
                        y < slice_y,
                        slice_x >= 0,
                ;
                if index < limit {
                    assert(pitch * x <= 0x1_fffe * 0x1_0000) by (nonlinear_arith)
                        requires
                            pitch <= 0x1_fffe,
                            x <= 0x1_0000,
                    ;
                    let left = pitch * x as u64;
                    proof {
                        lemma_fundamental_div_mod_converse(
                            index as int,
                            slice_x as int,
                            y as int,
                            x as int,
                        );
                    }
                    cells.push((left, top));
                }
                index += 1;
                x += 1;
            }
            assert((y + 1) * slice_x == y * slice_x + slice_x) by (nonlinear_arith);
            y += 1;
        }
        assert(slice_y * slice_x == slice_x * slice_y) by (nonlinear_arith);
        assert(cells@ =~= model.cells(Some(limit)));
        cells
    }
}

/// A side of 65536 slices would ask for a width of 65535 and a half, so the
/// slices of an image can be counted in 32 bits.
proof fn lemma_slices_fit(properties: PropertiesView)
    requires
        properties.wf(),
    ensures
        properties.across() * properties.down() <= 0xffff_0000,
{
    let d = properties.pitch();
    let a = properties.across();
    let b = properties.down();
    lemma_rounded_ratio_bound(properties.width, d);
    lemma_rounded_ratio_bound(properties.height, d);
    vstd::arithmetic::div_mod::lemma_fundamental_div_mod(
        (2 * properties.width + d) as int,
        (2 * d) as int,
    );
    assert(2 * d * a <= 2 * properties.width + d);
    assert(a <= 0xffff) by (nonlinear_arith)
        requires
            2 * d * a <= 2 * properties.width + d,
            d >= 1,
            properties.width <= 0xffff,
    ;
    assert(a * b <= 0xffff * 0x1_0000) by (nonlinear_arith)
        requires
            a <= 0xffff,
            b <= 0x1_0000,
    ;
}

/// The messages of a frame as messages of its image.
pub open spec fn from_frame(msgs: Seq<crate::frame::Msg<Msg>>) -> Seq<Msg> {
    Seq::new(msgs.len(), |i: int| Msg::FrameMsg(Box::new(msgs[i])))
}

impl Image {
    /// The image at `url`, 1000 by 600 pixels, cut into slices of 40 pixels
    /// a pixel apart, with all its slices in its frame.
    pub fn new(url: &str) -> (image: Self)
        ensures
            image.properties@ == (PropertiesView {
                url: url@,
                width: 1000,
                height: 600,
                slice_size: 40,
                gap: 1,
            }),
            image.frame == (Frame { hide: false, hover: false, content: Shown::Slices(None) }),
            !image.is_animating,
            image.run is None,
    {
        let width: u32 = 1000;
        let height: u32 = 600;
        let slice_size: u32 = 40;
        let gap: u32 = 1;

        let properties = Properties { width, height, slice_size, gap, url: url.to_owned() };

        Image {
            frame: Frame::with_content(Shown::Slices(None)),
            properties,
            is_animating: false,
            run: None,
        }
    }

    /// The number of slices.
    pub fn content_len(&self) -> (len: usize)
        ensures
            len == self.properties@.content_len(),
    {
        self.properties.content_len()
    }

    /// Starts a reveal at `now`.
    pub fn animate_in(&mut self, now: u64) -> (msgs: Vec<Msg>)
        ensures
            final(self).frame == old(self).frame,
            final(self).properties == old(self).properties,
            Self::starts(*old(self), *final(self), msgs@, true, now),
    {
        self.start_animation(true, now)
    }

    /// What a start at `now` does: nothing to an image without slices;
    /// otherwise the slices are put on show and a new run takes the place
    /// of any other, with its first tick to follow.
    pub open spec fn starts(
        before: Self,
        after: Self,
        msgs: Seq<Msg>,
        is_in: bool,
        now: u64,
    ) -> bool {
        let len = before.properties@.content_len();
        if len == 0 {
            &&& after.is_animating == before.is_animating
            &&& after.run == before.run
            &&& msgs =~= Seq::<Msg>::empty()
        } else {
            let run = AnimationRun { is_in, start: now, duration: run_duration(len) as u64 };
            &&& after.is_animating
            &&& after.run == Some(run)
            &&& msgs =~= seq![Msg::NextAnimation(is_in, now, run.duration)]
        }
    }

    /// Stops the reveal: the image itself goes into the frame. No message
    /// follows.
    pub fn stop_animation(&mut self) -> (msgs: Vec<Msg>)
        ensures
            !final(self).is_animating,
            final(self).run is None,
            final(self).frame == (Frame { content: Shown::Picture, ..old(self).frame }),
            final(self).properties == old(self).properties,
            msgs@ == Seq::<Msg>::empty(),
    {
        self.is_animating = false;
        self.run = None;
        self.frame.set_content(Shown::Picture);
        Vec::new()
    }

    /// Starts a run at `now`, to reveal (`is_in`) or to hide.
    pub fn start_animation(&mut self, is_in: bool, now: u64) -> (msgs: Vec<Msg>)
        ensures
            final(self).frame == old(self).frame,
            final(self).properties == old(self).properties,
            Self::starts(*old(self), *final(self), msgs@, is_in, now),
    {
        let len = self.content_len();
        if len == 0 {
            return Vec::new();
        }
        let duration = duration_for(len);
        let start = now;

        self.is_animating = true;
        self.run = Some(AnimationRun { is_in, start, duration });

        vec![Msg::NextAnimation(is_in, start, duration)]
    }

    /// What the tick at `now` of `run` does. A tick of any run but the one
    /// under way, or of a run that lasts no time, changes nothing. A run
    /// that goes on puts the slices of the instant's budget into the frame,
    /// with the next tick to follow; a run that does not ends, with the
    /// stop to follow.
    pub open spec fn ticks(
        before: Self,
        after: Self,
        msgs: Seq<Msg>,
        run: AnimationRun,
        now: u64,
    ) -> bool {
        let len = before.properties@.content_len();
        let budget = tick_budget(run, now, len);
        if before.run != Some(run) || run.duration == 0 {
            &&& after.run == before.run
            &&& after.frame == before.frame
            &&& msgs =~= Seq::<Msg>::empty()
        } else if goes_on(run.is_in, budget, len) {
            &&& after.run == before.run
            &&& after.frame == (Frame {
                content: Shown::Slices(Some(budget as usize)),
                ..before.frame
            })
            &&& msgs =~= seq![Msg::NextAnimation(run.is_in, run.start, run.duration)]
        } else {
            &&& after.run is None
            &&& after.frame == before.frame
            &&& msgs =~= seq![Msg::StopAnimation]
        }
    }

    /// Handles the tick at `now` of the run with the given direction, start
    /// and duration.
    pub fn next_animation(&mut self, is_in: bool, start: u64, duration: u64, now: u64) -> (msgs:
        Vec<Msg>)
        ensures
            final(self).is_animating == old(self).is_animating,
            final(self).properties == old(self).properties,
            Self::ticks(
                *old(self),
                *final(self),
                msgs@,
                AnimationRun { is_in, start, duration },
                now,
            ),
    {
        let run = AnimationRun { is_in, start, duration };
        let current = match self.run {
            Some(under_way) => under_way.is_in == is_in && under_way.start == start
                && under_way.duration == duration,
            None => false,
        };
        if !current || duration == 0 {
            return Vec::new();
        }
        let len = self.content_len();
        let new_length = budget_at(run, now, len);
        proof {
            let budget = tick_budget(run, now, len as nat);
            if !is_in {
                lemma_share_bounds(progress(run, now), len as nat, duration as nat);
            }
            assert(goes_on(is_in, budget, len as nat) ==> budget == new_length);
        }
        if continues(is_in, new_length, len) {
            self.frame.set_content(Shown::Slices(Some(new_length)));
            vec![Msg::NextAnimation(is_in, start, duration)]
        } else {
            self.run = None;
            vec![Msg::StopAnimation]
        }
    }

    /// Handles one message at the time `now`.
    ///
    /// `AnimateIn` starts a reveal and asks for the sound of typing. A
    /// message of the frame goes to the frame; what the frame asks for comes
    /// back wrapped, behind the messages of its content.
    /// `AnimationDone` takes the slices off show. `StopAnimation` stops the
    /// reveal. `NextAnimation` is a tick of the run it names.
    pub fn update(&mut self, msg: Msg, now: u64) -> (effects: Effects)
        ensures
            final(self).properties == old(self).properties,
            effects.play_sound == (msg is AnimateIn),
            match msg {
                Msg::AnimateIn => {
                    &&& final(self).frame == old(self).frame
                    &&& !effects.play_frame_sound
                    &&& Self::starts(
                        Image { is_animating: true, ..*old(self) },
                        *final(self),
                        effects.local@,
                        true,
                        now,
                    )
                },
                Msg::FrameMsg(fmsg) => {
                    &&& final(self).is_animating == old(self).is_animating
                    &&& final(self).run == old(self).run
                    &&& effects.play_frame_sound == (*fmsg is AnimateIn)
                    &&& final(self).frame == (Frame {
                        hide: hide_after(old(self).frame.hide, *fmsg),
                        hover: hover_after(old(self).frame.hover, *fmsg),
                        content: old(self).frame.content,
                    })
                    &&& effects.local@ == external_after(*fmsg) + from_frame(
                        local_after(*fmsg, now),
                    )
                },
                Msg::AnimationDone => {
                    &&& !final(self).is_animating
                    &&& final(self).run == old(self).run
                    &&& final(self).frame == old(self).frame
                    &&& effects.local@ == Seq::<Msg>::empty()
                    &&& !effects.play_frame_sound
                },
                Msg::StopAnimation => {
                    &&& !final(self).is_animating
                    &&& final(self).run is None
                    &&& final(self).frame == (Frame {
                        content: Shown::Picture,
                        ..old(self).frame
                    })
                    &&& effects.local@ == Seq::<Msg>::empty()
                    &&& !effects.play_frame_sound
                },
                Msg::NextAnimation(is_in, start, duration) => {
                    &&& final(self).is_animating == old(self).is_animating
                    &&& !effects.play_frame_sound
                    &&& Self::ticks(
                        *old(self),
                        *final(self),
                        effects.local@,
                        AnimationRun { is_in, start, duration },
                        now,
                    )
                },
            },
    {
        match msg {
            Msg::AnimateIn => {
                self.is_animating = true;
                Effects { local: self.animate_in(now), play_sound: true, play_frame_sound: false }
            },
            Msg::FrameMsg(fmsg) => {
                let effects = self.frame.update(*fmsg, now);
                let mut local = effects.external;
                let mut follow_ups = effects.local;
                let ghost first = local@;
                let ghost all = follow_ups@;
                assert(local@ =~= first + from_frame(all.take(0)));
                assert(follow_ups@ =~= all.skip(0));
                let mut done: usize = 0;
                while follow_ups.len() > 0
                    invariant
                        done + follow_ups.len() == all.len(),
                        all.len() <= usize::MAX,
                        follow_ups@ == all.skip(done as int),
                        local@ == first + from_frame(all.take(done as int)),
                    decreases follow_ups.len(),
                {
                    let next = follow_ups.remove(0);
                    local.push(Msg::FrameMsg(Box::new(next)));
                    assert(follow_ups@ =~= all.skip(done + 1));
                    assert(local@ =~= first + from_frame(all.take(done + 1)));
                    done += 1;
                }
                assert(all.take(done as int) =~= all);
                Effects { local, play_sound: false, play_frame_sound: effects.play_sound }
            },
            Msg::AnimationDone => {
                self.is_animating = false;
                Effects { local: Vec::new(), play_sound: false, play_frame_sound: false }
            },
            Msg::StopAnimation => {
                let local = self.stop_animation();
                Effects { local, play_sound: false, play_frame_sound: false }
            },
            Msg::NextAnimation(is_in, start, duration) => {
                let follow_ups = self.next_animation(is_in, start, duration, now);
                Effects { local: follow_ups, play_sound: false, play_frame_sound: false }
            },
        }
    }
}

} // verus!
