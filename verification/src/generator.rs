//! Rate-controlled generator bookkeeping.
//!
//! The generator spawns one independent connection lifecycle per tick of
//! a fixed interval of `1_000_000 / rate` microseconds (rates that do not
//! divide one second evenly accumulate rounding error over time; this is
//! documented, not corrected). Every `rate` spawns it reports a progress
//! milestone. The unverified front end owns the timer and the task
//! spawning; this type is the verified account of the cadence: how many
//! lifecycles were spawned, when a milestone is due, and that a failed
//! lifecycle never disturbs the cadence.

use vstd::arithmetic::div_mod::{lemma_fundamental_div_mod, lemma_fundamental_div_mod_converse};
use vstd::prelude::*;

verus! {

/// Microseconds in one second.
pub const MICROS_PER_SECOND: u64 = 1_000_000;

/// The fixed inter-spawn interval, in microseconds, for a target rate of
/// `rate` connections per second.
pub fn interval_micros(rate: u32) -> (r: u64)
    requires
        rate > 0,
    ensures
        r == MICROS_PER_SECOND / rate as u64,
{
    MICROS_PER_SECOND / rate as u64
}

/// Spawn and progress bookkeeping of the generator loop.
///
/// The loop itself has no terminal state; it runs until the process is
/// cancelled. Lifecycle outcomes are recorded for reporting only and
/// never influence when the next lifecycle is spawned.
#[derive(Clone, Copy, PartialEq, Eq, Structural, Debug)]
pub struct RateGenerator {
    /// Target rate, in connections per second.
    pub rate: u32,
    /// Spawns since the last milestone.
    pub spawned_in_window: u32,
    /// Lifecycles spawned so far.
    pub total_spawned: u64,
    /// Progress milestones reported so far.
    pub milestones: u64,
    /// Lifecycles recorded as failed so far.
    pub failed_lifecycles: u64,
}

impl RateGenerator {
    /// Target rate, in connections per second.
    pub open spec fn spec_rate(&self) -> u32 {
        self.rate
    }

    /// Lifecycles spawned so far.
    pub open spec fn spec_total_spawned(&self) -> u64 {
        self.total_spawned
    }

    /// Progress milestones reported so far.
    pub open spec fn spec_milestones(&self) -> u64 {
        self.milestones
    }

    /// Lifecycles recorded as failed so far.
    pub open spec fn spec_failed(&self) -> u64 {
        self.failed_lifecycles
    }

    /// The counters agree: the window counter is the remainder of the
    /// spawn count by the rate, and a milestone was reported for every
    /// full window.
    pub open spec fn wf(&self) -> bool {
        &&& self.spec_rate() > 0
        &&& self.spec_window() == self.spec_total_spawned() as int % self.spec_rate() as int
        &&& self.spec_milestones() == self.spec_total_spawned() as int / self.spec_rate() as int
        &&& self.spec_failed() <= self.spec_total_spawned()
    }

    /// Spawns since the last milestone.
    pub open spec fn spec_window(&self) -> u32 {
        self.spawned_in_window
    }

    /// The state one tick later.
    pub open spec fn spec_tick(self) -> RateGenerator {
        if self.spawned_in_window + 1 == self.rate {
            RateGenerator {
                spawned_in_window: 0,
                total_spawned: (self.total_spawned + 1) as u64,
                milestones: (self.milestones + 1) as u64,
                ..self
            }
        } else {
            RateGenerator {
                spawned_in_window: (self.spawned_in_window + 1) as u32,
                total_spawned: (self.total_spawned + 1) as u64,
                ..self
            }
        }
    }

    /// A tick reports a milestone exactly when it fills the window.
    pub open spec fn spec_tick_milestone(self) -> bool {
        self.spawned_in_window + 1 == self.rate
    }

    /// The state after recording one lifecycle outcome.
    pub open spec fn spec_record(self, success: bool) -> RateGenerator {
        if success {
            self
        } else {
            RateGenerator { failed_lifecycles: (self.failed_lifecycles + 1) as u64, ..self }
        }
    }

    /// Creates the bookkeeping for a fresh generator loop.
    pub fn new(rate: u32) -> (r: RateGenerator)
        requires
            rate > 0,
        ensures
            r.wf(),
            r.spec_rate() == rate,
            r.spec_total_spawned() == 0,
            r.spec_milestones() == 0,
            r.spec_failed() == 0,
    {
        proof {
            lemma_fundamental_div_mod_converse(0, rate as int, 0, 0);
        }
        RateGenerator {
            rate,
            spawned_in_window: 0,
            total_spawned: 0,
            milestones: 0,
            failed_lifecycles: 0,
        }
    }

    /// Accounts for the one lifecycle this tick spawns. Returns whether a
    /// progress milestone is due, which happens exactly once per `rate`
    /// spawns.
    pub fn tick(&mut self) -> (milestone: bool)
        requires
            old(self).wf(),
            old(self).spec_total_spawned() < u64::MAX,
        ensures
            final(self).wf(),
            *final(self) == old(self).spec_tick(),
            milestone == old(self).spec_tick_milestone(),
            final(self).spec_rate() == old(self).spec_rate(),
            final(self).spec_total_spawned() == old(self).spec_total_spawned() + 1,
            final(self).spec_failed() == old(self).spec_failed(),
            milestone <==> (old(self).spec_total_spawned() + 1) as int % old(
                self,
            ).spec_rate() as int == 0,
            final(self).spec_milestones() == old(self).spec_milestones() + if milestone {
                1int
            } else {
                0int
            },
    {
        proof {
            lemma_tick_wf(*self);
        }
        self.total_spawned = self.total_spawned + 1;
        if self.spawned_in_window + 1 == self.rate {
            self.spawned_in_window = 0;
            self.milestones = self.milestones + 1;
            true
        } else {
            self.spawned_in_window = self.spawned_in_window + 1;
            false
        }
    }

    /// Records the outcome of one finished lifecycle, for reporting. The
    /// cadence state — rate, spawn count, window, milestones — is
    /// untouched, whatever the outcome.
    pub fn record_outcome(&mut self, success: bool)
        requires
            old(self).wf(),
            !success ==> old(self).spec_failed() < old(self).spec_total_spawned(),
        ensures
            final(self).wf(),
            *final(self) == old(self).spec_record(success),
            final(self).spec_rate() == old(self).spec_rate(),
            final(self).spec_total_spawned() == old(self).spec_total_spawned(),
            final(self).spec_milestones() == old(self).spec_milestones(),
            final(self).spec_failed() == old(self).spec_failed() + if success {
                0int
            } else {
                1int
            },
    {
        if !success {
            self.failed_lifecycles = self.failed_lifecycles + 1;
        }
    }

    /// Lifecycles spawned so far.
    pub fn total_spawned(&self) -> (r: u64)
        ensures
            r == self.spec_total_spawned(),
    {
        self.total_spawned
    }

    /// Progress milestones reported so far.
    pub fn milestones(&self) -> (r: u64)
        ensures
            r == self.spec_milestones(),
    {
        self.milestones
    }

    /// Lifecycles recorded as failed so far.
    pub fn failed_lifecycles(&self) -> (r: u64)
        ensures
            r == self.spec_failed(),
    {
        self.failed_lifecycles
    }

    /// Target rate, in connections per second.
    pub fn rate(&self) -> (r: u32)
        ensures
            r == self.spec_rate(),
    {
        self.rate
    }
}

/// One tick advances the counters consistently: the spawn count grows by
/// one and the milestone count stays the quotient by the rate.
proof fn lemma_tick_wf(g: RateGenerator)
    requires
        g.wf(),
        g.spec_total_spawned() < u64::MAX,
    ensures
        g.spec_tick().wf(),
        g.spec_tick().spec_rate() == g.spec_rate(),
        g.spec_tick().spec_total_spawned() == g.spec_total_spawned() + 1,
        g.spec_tick().spec_failed() == g.spec_failed(),
        g.spec_tick_milestone() <==> (g.spec_total_spawned() + 1) as int % g.spec_rate() as int
            == 0,
        g.spec_tick().spec_milestones() == g.spec_milestones() + if g.spec_tick_milestone() {
            1int
        } else {
            0int
        },
{
    let t = g.spec_total_spawned() as int;
    let r = g.spec_rate() as int;
    let q = t / r;
    let m = t % r;
    lemma_fundamental_div_mod(t, r);
    if m + 1 == r {
        assert(t + 1 == (q + 1) * r + 0) by (nonlinear_arith)
            requires
                t == q * r + m,
                m + 1 == r,
        ;
        lemma_fundamental_div_mod_converse(t + 1, r, q + 1, 0);
    } else {
        lemma_fundamental_div_mod_converse(t + 1, r, q, m + 1);
    }
}

/// The state after `n` ticks.
pub open spec fn spec_run(g: RateGenerator, n: nat) -> RateGenerator
    decreases n,
{
    if n == 0 {
        g
    } else {
        spec_run(g, (n - 1) as nat).spec_tick()
    }
}

/// Law (rate fidelity): running the generator for `n` ticks from a fresh
/// state spawns exactly `n` lifecycles and reports exactly `n / rate`
/// progress milestones.
pub proof fn lemma_rate_fidelity(rate: u32, n: nat)
    requires
        rate > 0,
        n <= u64::MAX,
    ensures
        spec_run(fresh_generator(rate), n).wf(),
        spec_run(fresh_generator(rate), n).spec_rate() == rate,
        spec_run(fresh_generator(rate), n).spec_total_spawned() == n,
        spec_run(fresh_generator(rate), n).spec_milestones() == n as int / rate as int,
    decreases n,
{
    if n == 0 {
        lemma_fundamental_div_mod_converse(0, rate as int, 0, 0);
    } else {
        lemma_rate_fidelity(rate, (n - 1) as nat);
        lemma_tick_wf(spec_run(fresh_generator(rate), (n - 1) as nat));
    }
}

/// The fresh state the generator loop starts from.
pub open spec fn fresh_generator(rate: u32) -> RateGenerator {
    RateGenerator {
        rate,
        spawned_in_window: 0,
        total_spawned: 0,
        milestones: 0,
        failed_lifecycles: 0,
    }
}

/// Law (isolated failure): recording a failed lifecycle leaves the
/// cadence untouched — the next tick spawns the same lifecycle and
/// reports the same milestone as it would have without the failure.
pub proof fn lemma_failure_isolated(g: RateGenerator)
    requires
        g.wf(),
        g.spec_failed() < g.spec_total_spawned(),
        g.spec_total_spawned() < u64::MAX,
    ensures
        g.spec_record(false).wf(),
        g.spec_record(false).spec_tick_milestone() == g.spec_tick_milestone(),
        g.spec_record(false).spec_tick().spec_total_spawned() == g.spec_tick().spec_total_spawned(),
        g.spec_record(false).spec_tick().spec_milestones() == g.spec_tick().spec_milestones(),
{
}

} // verus!
