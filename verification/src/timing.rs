//! The clock arithmetic of a reveal run: how long a run lasts and how many
//! units are shown at an instant.
//!
//! Times are whole ticks of a third of a microsecond, so that a frame, the
//! sixtieth part of a second, is a whole number of them.

use vstd::prelude::*;
use vstd::arithmetic::div_mod::{
    lemma_div_is_ordered, lemma_fundamental_div_mod, lemma_fundamental_div_mod_converse,
};

verus! {

/// One millisecond.
pub const MILLISECOND: u64 = 3_000;

/// One frame at sixty frames a second: a thousand milliseconds over sixty.
/// A run shows one unit per frame.
pub const FRAME: u64 = 50_000;

/// The longest that a run may last: 500 milliseconds.
pub const LONGEST_RUN: u64 = 1_500_000;

/// How long a frame or a header stays hidden when it is animated in: 200
/// milliseconds.
pub const UNFOLD_TIME: u64 = 600_000;

/// One run of the animation: its direction (`is_in` to reveal, otherwise to
/// hide), the instant it started at, and how long it lasts.
#[derive(Clone, Copy, Debug, PartialEq, Eq, Structural)]
pub struct AnimationRun {
    pub is_in: bool,
    pub start: u64,
    pub duration: u64,
}

/// The time that `content_len` units take at one unit per frame.
pub open spec fn natural_duration(content_len: nat) -> nat {
    content_len * FRAME as nat
}

/// How long a run over `content_len` units lasts: the natural duration, but
/// never more than [`LONGEST_RUN`].
pub open spec fn run_duration(content_len: nat) -> nat {
    if natural_duration(content_len) < LONGEST_RUN {
        natural_duration(content_len)
    } else {
        LONGEST_RUN as nat
    }
}

/// The time that has passed since `start`; none if the clock went back.
pub open spec fn elapsed(start: u64, now: u64) -> nat {
    if now >= start {
        (now - start) as nat
    } else {
        0
    }
}

/// How far a run has come at `now`: the elapsed time when revealing, and
/// what is left of the duration when hiding (negative once it is over).
pub open spec fn progress(run: AnimationRun, now: u64) -> int {
    if run.is_in {
        elapsed(run.start, now) as int
    } else {
        run.duration - elapsed(run.start, now)
    }
}

/// `progress * content_len / duration` rounded to the nearest whole number,
/// halves away from zero; nothing for a progress that is not positive.
pub open spec fn rounded_share(progress: int, content_len: nat, duration: nat) -> nat {
    if progress <= 0 {
        0
    } else {
        ((2 * progress * content_len + duration) / (2 * duration as int)) as nat
    }
}

/// The budget of a run at `now`: the number of units to show.
pub open spec fn tick_budget(run: AnimationRun, now: u64, content_len: nat) -> nat {
    rounded_share(progress(run, now), content_len, run.duration as nat)
}

/// Whether a run goes on after a tick that showed `budget` units: a reveal
/// until every unit is shown, a hide until none is.
pub open spec fn goes_on(is_in: bool, budget: nat, content_len: nat) -> bool {
    if is_in {
        budget + 1 <= content_len
    } else {
        budget > 0
    }
}

/// Whether, at `now`, less than `duration` has passed since `start`. A clock
/// that went back has not passed any time.
pub open spec fn is_under_way(start: u64, duration: u64, now: u64) -> bool {
    now - start < duration
}

/// Whether less than `duration` has passed since `start`.
pub fn under_way(start: u64, duration: u64, now: u64) -> (more: bool)
    ensures
        more == is_under_way(start, duration, now),
{
    now < start || now - start < duration
}

/// The duration of a run over `content_len` units.
pub fn duration_for(content_len: usize) -> (duration: u64)
    ensures
        duration == run_duration(content_len as nat),
        content_len > 0 ==> 0 < duration <= LONGEST_RUN,
{
    if content_len >= 30 {
        LONGEST_RUN
    } else {
        let units: u64 = content_len as u64;
        units * FRAME
    }
}

/// A full share is all the units, and a smaller progress gives no more.
pub proof fn lemma_share_bounds(progress: int, content_len: nat, duration: nat)
    requires
        duration > 0,
    ensures
        progress >= duration ==> rounded_share(progress, content_len, duration) >= content_len,
        progress <= duration ==> rounded_share(progress, content_len, duration) <= content_len,
{
    let d = duration as int;
    let n = content_len as int;
    if progress > 0 {
        let x = 2 * progress * n + d;
        assert(2 * d * n + d == n * (2 * d) + d) by (nonlinear_arith);
        lemma_fundamental_div_mod_converse(2 * d * n + d, 2 * d, n, d);
        if progress >= duration {
            assert(2 * progress * n >= 2 * d * n) by (nonlinear_arith)
                requires
                    progress >= d,
                    n >= 0,
            ;
            lemma_div_is_ordered(2 * d * n + d, x, 2 * d);
        }
        if progress <= duration {
            assert(2 * progress * n <= 2 * d * n) by (nonlinear_arith)
                requires
                    progress <= d,
                    n >= 0,
            ;
            lemma_div_is_ordered(x, 2 * d * n + d, 2 * d);
        }
    }
}

/// A larger progress shows no fewer units.
pub proof fn lemma_share_grows(p1: int, p2: int, content_len: nat, duration: nat)
    requires
        duration > 0,
        p1 <= p2,
    ensures
        rounded_share(p1, content_len, duration) <= rounded_share(p2, content_len, duration),
{
    let d = duration as int;
    let n = content_len as int;
    if p1 > 0 {
        assert(2 * p1 * n <= 2 * p2 * n) by (nonlinear_arith)
            requires
                p1 <= p2,
                n >= 0,
        ;
        lemma_div_is_ordered(2 * p1 * n + d, 2 * p2 * n + d, 2 * d);
    } else if p2 > 0 {
        assert(0 <= 2 * p2 * n) by (nonlinear_arith)
            requires
                p2 > 0,
                n >= 0,
        ;
        lemma_div_is_ordered(0, 2 * p2 * n + d, 2 * d);
    }
}

/// The budget of `run` at `now`, cut off at `content_len`: a larger budget
/// shows nothing more.
pub fn budget_at(run: AnimationRun, now: u64, content_len: usize) -> (budget: usize)
    requires
        run.duration > 0,
    ensures
        budget == if tick_budget(run, now, content_len as nat) <= content_len {
            tick_budget(run, now, content_len as nat)
        } else {
            content_len as nat
        },
{
    let passed: u64 = if now >= run.start {
        now - run.start
    } else {
        0
    };
    let ghost share = tick_budget(run, now, content_len as nat);
    proof {
        lemma_share_bounds(progress(run, now), content_len as nat, run.duration as nat);
    }
    if passed >= run.duration {
        // The run is over: a reveal shows everything, a hide nothing.
        return if run.is_in {
            content_len
        } else {
            0
        };
    }
    let advance: u64 = if run.is_in {
        passed
    } else {
        run.duration - passed
    };
    if advance == 0 {
        return 0;
    }
    assert(advance * content_len <= 0xffff_ffff_ffff_ffff * 0xffff_ffff_ffff_ffff) by (nonlinear_arith)
        requires
            0 <= advance <= 0xffff_ffff_ffff_ffff,
            0 <= content_len <= 0xffff_ffff_ffff_ffff,
    ;
    let scaled: u128 = advance as u128 * content_len as u128;
    let whole: u128 = scaled / run.duration as u128;
    let rest: u128 = scaled % run.duration as u128;
    proof {
        let p = advance as int;
        let n = content_len as int;
        let d = run.duration as int;
        let q = whole as int;
        let r = rest as int;
        lemma_fundamental_div_mod(p * n, d);
        let up: int = if 2 * r >= d {
            1
        } else {
            0
        };
        assert(2 * p * n + d == (q + up) * (2 * d) + (2 * r + d - up * (2 * d))) by (nonlinear_arith)
            requires
                p * n == d * q + r,
        ;
        lemma_fundamental_div_mod_converse(2 * p * n + d, 2 * d, q + up, 2 * r + d - up * (2 * d));
        assert(share == q + up);
    }
    if 2 * rest >= run.duration as u128 {
        (whole + 1) as usize
    } else {
        whole as usize
    }
}

/// Whether a run goes on after a tick that showed `budget` units.
pub fn continues(is_in: bool, budget: usize, content_len: usize) -> (more: bool)
    ensures
        more == goes_on(is_in, budget as nat, content_len as nat),
{
    if is_in {
        budget < content_len
    } else {
        budget > 0
    }
}

} // verus!
