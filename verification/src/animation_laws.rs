//! What holds of every run of a reveal animation.

use vstd::prelude::*;
use crate::animate_list::{AnimateListView, Msg};
use crate::content::Tree;
use crate::projection_laws::{
    is_tree_prefix, law_budget_above_units, law_full_budget_shows_source, law_projection_grows,
};
use crate::projector::{container, projection};
use crate::timing::{
    AnimationRun, LONGEST_RUN, elapsed, goes_on, lemma_share_bounds, lemma_share_grows,
    natural_duration, progress, run_duration, tick_budget,
};

verus! {

/// A run never lasts longer than half a second, and content of fewer than
/// thirty units is shown at one unit per frame.
pub proof fn law_duration_is_capped(content_len: nat)
    ensures
        run_duration(content_len) <= LONGEST_RUN,
        content_len < 30 ==> run_duration(content_len) == natural_duration(content_len),
        content_len >= 30 ==> run_duration(content_len) == LONGEST_RUN,
        content_len > 0 ==> run_duration(content_len) > 0,
{
}

/// No message changes the content of a list or its listeners.
pub proof fn law_update_keeps_content_and_listeners(list: AnimateListView, msg: Msg, now: u64)
    ensures
        list.updated(msg, now).children == list.children,
        list.updated(msg, now).on_stop_animation == list.on_stop_animation,
{
}

/// What always holds of a list still holds after any message.
pub proof fn law_update_keeps_wf(list: AnimateListView, msg: Msg, now: u64)
    requires
        list.wf(),
    ensures
        list.updated(msg, now).wf(),
{
    law_duration_is_capped(list.children.units());
}

/// At most one message follows a message, so that a list never has more
/// than one tick of a run on its way.
pub proof fn law_at_most_one_follow_up(list: AnimateListView, msg: Msg, now: u64)
    ensures
        list.update_msgs(msg, now).len() <= 1,
{
}

/// A list without content never starts: no run begins, nothing changes and
/// no tick follows.
pub proof fn law_no_content_no_run(list: AnimateListView, is_in: bool, now: u64)
    requires
        list.children.units() == 0,
    ensures
        list.started(is_in, now) == list,
        list.start_msgs(is_in, now) == Seq::<Msg>::empty(),
{
}

/// Every stop names every listener exactly once, in the order in which they
/// were added, and no other message names any.
pub proof fn law_stop_names_listeners_in_order(list: AnimateListView, msg: Msg)
    ensures
        msg is StopAnimation ==> list.update_listeners(msg) == list.on_stop_animation,
        !(msg is StopAnimation) ==> list.update_listeners(msg) == Seq::<usize>::empty(),
{
}

/// While a reveal runs, a later tick shows no fewer units.
pub proof fn law_reveal_budget_grows(run: AnimationRun, content_len: nat, t1: u64, t2: u64)
    requires
        run.is_in,
        run.duration > 0,
        t1 <= t2,
    ensures
        tick_budget(run, t1, content_len) <= tick_budget(run, t2, content_len),
{
    lemma_share_grows(progress(run, t1), progress(run, t2), content_len, run.duration as nat);
}

/// What a reveal shows at a tick is a prefix, in reading order, of what it
/// shows at any later tick.
pub proof fn law_reveal_grows_with_time(source: Tree, run: AnimationRun, t1: u64, t2: u64)
    requires
        run.is_in,
        run.duration > 0,
        t1 <= t2,
    ensures
        is_tree_prefix(
            projection(source, tick_budget(run, t1, source.units())),
            projection(source, tick_budget(run, t2, source.units())),
        ),
{
    law_reveal_budget_grows(run, source.units(), t1, t2);
    law_projection_grows(
        source,
        tick_budget(run, t1, source.units()),
        tick_budget(run, t2, source.units()),
    );
}

/// What a hide shows at a tick is a prefix, in reading order, of what it
/// showed at any earlier tick.
pub proof fn law_hide_shrinks_with_time(source: Tree, run: AnimationRun, t1: u64, t2: u64)
    requires
        !run.is_in,
        run.duration > 0,
        t1 <= t2,
    ensures
        is_tree_prefix(
            projection(source, tick_budget(run, t2, source.units())),
            projection(source, tick_budget(run, t1, source.units())),
        ),
{
    law_hide_budget_falls(run, source.units(), t1, t2);
    law_projection_grows(
        source,
        tick_budget(run, t2, source.units()),
        tick_budget(run, t1, source.units()),
    );
}

/// While a hide runs, a later tick shows no more units. It begins with all
/// of them.
pub proof fn law_hide_budget_falls(run: AnimationRun, content_len: nat, t1: u64, t2: u64)
    requires
        !run.is_in,
        run.duration > 0,
        t1 <= t2,
    ensures
        tick_budget(run, t2, content_len) <= tick_budget(run, t1, content_len),
        tick_budget(run, t1, content_len) <= content_len,
        t1 <= run.start ==> tick_budget(run, t1, content_len) == content_len,
{
    lemma_share_grows(progress(run, t2), progress(run, t1), content_len, run.duration as nat);
    lemma_share_bounds(progress(run, t1), content_len, run.duration as nat);
}

/// The tick of a reveal that comes once the duration has passed ends the
/// run: the stop follows, and the content is shown whole if none of its
/// text nodes is empty.
pub proof fn law_reveal_completes(list: AnimateListView, run: AnimationRun, now: u64)
    requires
        list.wf(),
        list.run == Some(run),
        run.is_in,
        elapsed(run.start, now) >= run.duration,
    ensures
        list.ticked(run, now).run is None,
        list.tick_msgs(run, now) == seq![Msg::StopAnimation],
        list.ticked(run, now).animated_layer == Some(
            projection(list.children, list.children.units()),
        ),
        !list.children.has_empty_text() ==> list.ticked(run, now).animated_layer == Some(
            container(seq![list.children]),
        ),
{
    let units = list.children.units();
    law_duration_is_capped(units);
    lemma_share_bounds(progress(run, now), units, run.duration as nat);
    law_budget_above_units(list.children, units, tick_budget(run, now, units));
    if !list.children.has_empty_text() {
        law_full_budget_shows_source(list.children, units);
    }
}

/// The tick of a hide that comes once the duration has passed ends the run:
/// the stop follows, and nothing is shown.
pub proof fn law_hide_completes(list: AnimateListView, run: AnimationRun, now: u64)
    requires
        list.wf(),
        list.run == Some(run),
        !run.is_in,
        elapsed(run.start, now) >= run.duration,
    ensures
        list.ticked(run, now).run is None,
        list.tick_msgs(run, now) == seq![Msg::StopAnimation],
        list.ticked(run, now).animated_layer == Some(container(Seq::empty())),
{
    assert(tick_budget(run, now, list.children.units()) == 0);
}

/// A run that has ended handles no further tick: a second tick of the same
/// run changes nothing and asks for nothing, so that the stop follows a run
/// only once.
pub proof fn law_run_stops_once(list: AnimateListView, run: AnimationRun, now: u64, later: u64)
    requires
        list.run == Some(run),
        !goes_on(
            run.is_in,
            tick_budget(run, now, list.children.units()),
            list.children.units(),
        ),
    ensures
        list.ticked(run, now).ticked(run, later) == list.ticked(run, now),
        list.ticked(run, now).tick_msgs(run, later) == Seq::<Msg>::empty(),
{
}

} // verus!
