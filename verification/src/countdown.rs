//! The countdown that paces the scene.
//!
//! Time is counted in whole units; how many units make a second is chosen when
//! the countdown is made. It starts with a whole period on it. A tick takes
//! its duration off the countdown; when nothing is left the countdown expires
//! and starts again from the period.

use vstd::prelude::*;

verus! {

/// Seconds between two rebuilds of the scene.
pub const RESET_SECONDS: u64 = 3;

/// The countdown as a pair of numbers.
pub struct CountdownModel {
    /// Units from one expiry to the next.
    pub period: nat,
    /// Units left until the next expiry.
    pub remaining: nat,
}

/// Whether a tick of `delta` units uses up what is left of `remaining`.
pub open spec fn expires(remaining: nat, delta: nat) -> bool {
    remaining - delta <= 0
}

/// The countdown after one tick of `delta` units.
pub open spec fn after_tick(c: CountdownModel, delta: nat) -> CountdownModel {
    if expires(c.remaining, delta) {
        CountdownModel { period: c.period, remaining: c.period }
    } else {
        CountdownModel { period: c.period, remaining: (c.remaining - delta) as nat }
    }
}

/// The countdown after `ticks` ticks of `delta` units each.
pub open spec fn after_ticks(c: CountdownModel, delta: nat, ticks: nat) -> CountdownModel
    decreases ticks,
{
    if ticks == 0 {
        c
    } else {
        after_tick(after_ticks(c, delta, (ticks - 1) as nat), delta)
    }
}

/// How many of the first `ticks` ticks of `delta` units each expire the countdown.
pub open spec fn expiries(c: CountdownModel, delta: nat, ticks: nat) -> nat
    decreases ticks,
{
    if ticks == 0 {
        0
    } else {
        let before = after_ticks(c, delta, (ticks - 1) as nat);
        expiries(c, delta, (ticks - 1) as nat) + if expires(before.remaining, delta) {
            1nat
        } else {
            0nat
        }
    }
}

/// Seconds-remaining state of the scene, in whole time units.
pub struct SceneTime {
    period: u64,
    remaining: u64,
}

impl View for SceneTime {
    type V = CountdownModel;

    closed spec fn view(&self) -> CountdownModel {
        CountdownModel { period: self.period as nat, remaining: self.remaining as nat }
    }
}

impl SceneTime {
    /// The period of a countdown that counts `units_per_second` units a second.
    pub open spec fn period_for(units_per_second: u64) -> nat {
        (RESET_SECONDS * units_per_second) as nat
    }

    /// Whether a period at this resolution can be held in a `u64`.
    pub open spec fn resolution_fits(units_per_second: u64) -> bool {
        0 < units_per_second && RESET_SECONDS * units_per_second <= u64::MAX
    }

    /// A countdown with a whole period on it.
    pub fn new(units_per_second: u64) -> (time: SceneTime)
        requires
            Self::resolution_fits(units_per_second),
        ensures
            time@ == (CountdownModel {
                period: Self::period_for(units_per_second),
                remaining: Self::period_for(units_per_second),
            }),
    {
        let period = RESET_SECONDS * units_per_second;
        SceneTime { period, remaining: period }
    }

    /// Units from one expiry to the next.
    pub fn period(&self) -> (units: u64)
        ensures
            units == self@.period,
    {
        self.period
    }

    /// Units left until the next expiry.
    pub fn remaining(&self) -> (units: u64)
        ensures
            units == self@.remaining,
    {
        self.remaining
    }

    /// Takes `delta` units off the countdown and reports whether it expired.
    /// An expired countdown starts again from the period.
    pub fn tick(&mut self, delta: u64) -> (expired: bool)
        ensures
            expired == expires(old(self)@.remaining, delta as nat),
            final(self)@ == after_tick(old(self)@, delta as nat),
    {
        if delta < self.remaining {
            self.remaining = self.remaining - delta;
            false
        } else {
            self.remaining = self.period;
            true
        }
    }
}


/// Ticking never changes the period.
pub proof fn lemma_period_is_kept(c: CountdownModel, delta: nat, ticks: nat)
    ensures
        after_ticks(c, delta, ticks).period == c.period,
    decreases ticks,
{
    if ticks > 0 {
        lemma_period_is_kept(c, delta, (ticks - 1) as nat);
    }
}

/// The number of expiries never shrinks as ticks go by, and it grows by at
/// most one with each tick.
pub proof fn lemma_expiries_grow_with_ticks(
    c: CountdownModel,
    delta: nat,
    earlier: nat,
    later: nat,
)
    requires
        earlier <= later,
    ensures
        expiries(c, delta, earlier) <= expiries(c, delta, later),
        expiries(c, delta, later) <= expiries(c, delta, earlier) + (later - earlier),
    decreases later - earlier,
{
    if earlier < later {
        lemma_expiries_grow_with_ticks(c, delta, earlier, (later - 1) as nat);
    }
}

/// While the ticks so far add up to less than what was on the countdown at
/// the start, it has not expired, and what is left is the difference.
pub proof fn lemma_no_expiry_before_time_is_up(c: CountdownModel, delta: nat, ticks: nat)
    requires
        ticks * delta < c.remaining,
    ensures
        expiries(c, delta, ticks) == 0,
        after_ticks(c, delta, ticks).remaining == c.remaining - ticks * delta,
    decreases ticks,
{
    if ticks > 0 {
        let earlier = (ticks - 1) as nat;
        assert(ticks * delta == earlier * delta + delta) by (nonlinear_arith)
            requires
                ticks == earlier + 1,
        ;
        lemma_no_expiry_before_time_is_up(c, delta, earlier);
    } else {
        assert(ticks * delta == 0) by (nonlinear_arith)
            requires
                ticks == 0,
        ;
    }
}

/// Expiries never come early: by the time the countdown has expired `k`
/// times, the ticks add up to at least what was on it at the start plus
/// `k - 1` whole periods.
pub proof fn lemma_expiries_never_early(c: CountdownModel, delta: nat, ticks: nat)
    ensures
        expiries(c, delta, ticks) >= 1 ==> c.remaining + (expiries(c, delta, ticks) - 1) * c.period
            <= ticks * delta,
{
    lemma_elapsed_time_is_accounted_for(c, delta, ticks);
}

/// With a full period on the countdown at the start, `k` expiries take at
/// least `k` periods.
pub proof fn lemma_expiries_bounded_by_elapsed_periods(c: CountdownModel, delta: nat, ticks: nat)
    requires
        c.remaining == c.period,
    ensures
        expiries(c, delta, ticks) * c.period <= ticks * delta,
{
    let k = expiries(c, delta, ticks);
    lemma_expiries_never_early(c, delta, ticks);
    if k >= 1 {
        assert(k * c.period == (k - 1) * c.period + c.period) by (nonlinear_arith);
    } else {
        assert(k * c.period == 0) by (nonlinear_arith)
            requires
                k == 0,
        ;
        assert(ticks * delta >= 0) by (nonlinear_arith);
    }
}

/// Where the tick divides the period and a full period is on the countdown
/// at the start, the countdown has expired once for every whole period that
/// has elapsed: after `elapsed` units, that is after `elapsed / delta` ticks,
/// it has expired `elapsed / period` times.
pub proof fn lemma_expiries_match_elapsed_periods(c: CountdownModel, delta: nat, elapsed: nat)
    requires
        delta > 0,
        c.period > 0,
        c.period % delta == 0,
        c.remaining == c.period,
    ensures
        expiries(c, delta, elapsed / delta) == elapsed / c.period,
{
    let ticks_per_period = c.period / delta;
    let ticks = elapsed / delta;
    vstd::arithmetic::div_mod::lemma_fundamental_div_mod(c.period as int, delta as int);
    assert(ticks_per_period > 0) by (nonlinear_arith)
        requires
            c.period == delta * ticks_per_period,
            c.period > 0,
            delta > 0,
    ;
    lemma_whole_periods_are_counted(c, delta, ticks);
    vstd::arithmetic::div_mod::lemma_div_denominator(
        elapsed as int,
        delta as int,
        ticks_per_period as int,
    );
}

/// The bookkeeping behind [`lemma_expiries_never_early`]: every unit that has
/// elapsed is either still to be waited for, or was waited for before an
/// expiry, or was cut off by one.
proof fn lemma_elapsed_time_is_accounted_for(c: CountdownModel, delta: nat, ticks: nat)
    ensures
        expiries(c, delta, ticks) == 0 ==> after_ticks(c, delta, ticks).remaining + ticks * delta
            == c.remaining,
        expiries(c, delta, ticks) >= 1 ==> {
            &&& after_ticks(c, delta, ticks).remaining <= c.period
            &&& c.remaining + (expiries(c, delta, ticks) - 1) * c.period + (c.period - after_ticks(
                c,
                delta,
                ticks,
            ).remaining) <= ticks * delta
        },
    decreases ticks,
{
    if ticks == 0 {
        assert(ticks * delta == 0) by (nonlinear_arith)
            requires
                ticks == 0,
        ;
    } else {
        let earlier = (ticks - 1) as nat;
        let k = expiries(c, delta, earlier);
        lemma_elapsed_time_is_accounted_for(c, delta, earlier);
        lemma_period_is_kept(c, delta, earlier);
        assert(ticks * delta == earlier * delta + delta) by (nonlinear_arith)
            requires
                ticks == earlier + 1,
        ;
        assert(k * c.period == (k - 1) * c.period + c.period) by (nonlinear_arith);
        assert((1 - 1) * c.period == 0) by (nonlinear_arith);
    }
}

/// The bookkeeping behind [`lemma_expiries_match_elapsed_periods`]: after
/// `ticks` ticks the countdown has expired once per `period / delta` ticks,
/// and the ticks since the last expiry are missing from it.
proof fn lemma_whole_periods_are_counted(c: CountdownModel, delta: nat, ticks: nat)
    requires
        delta > 0,
        c.period / delta > 0,
        c.period == delta * (c.period / delta),
        c.remaining == c.period,
    ensures
        expiries(c, delta, ticks) == ticks / (c.period / delta),
        after_ticks(c, delta, ticks).remaining == c.period - (ticks % (c.period / delta)) * delta,
    decreases ticks,
{
    let per = (c.period / delta) as int;
    if ticks == 0 {
        assert(0int / per == 0 && 0int % per == 0) by (nonlinear_arith)
            requires
                per > 0,
        ;
        assert(0 * delta == 0) by (nonlinear_arith);
    } else {
        let earlier = (ticks - 1) as nat;
        lemma_whole_periods_are_counted(c, delta, earlier);
        lemma_period_is_kept(c, delta, earlier);
        let q = earlier as int / per;
        let r = earlier as int % per;
        vstd::arithmetic::div_mod::lemma_fundamental_div_mod(earlier as int, per);
        vstd::arithmetic::div_mod::lemma_mod_pos_bound(earlier as int, per);
        assert(per * q == q * per) by (nonlinear_arith);
        assert(c.period == per * delta) by (nonlinear_arith)
            requires
                c.period == delta * per,
        ;
        assert((r + 1) * delta == r * delta + delta) by (nonlinear_arith);
        if r + 1 < per {
            assert((r + 1) * delta < per * delta) by (nonlinear_arith)
                requires
                    r + 1 < per,
                    delta > 0,
            ;
            vstd::arithmetic::div_mod::lemma_fundamental_div_mod_converse(
                ticks as int,
                per,
                q,
                r + 1,
            );
        } else {
            assert((q + 1) * per + 0 == q * per + per) by (nonlinear_arith);
            vstd::arithmetic::div_mod::lemma_fundamental_div_mod_converse(
                ticks as int,
                per,
                q + 1,
                0,
            );
            assert(0 * delta == 0) by (nonlinear_arith);
        }
    }
}

} // verus!
