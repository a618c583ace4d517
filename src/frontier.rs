//! Frontier discovery: finding the largest id that the remote currently
//! serves, by stepwise expansion and then bisection.
//!
//! The search is a state machine. The caller asks it which id to probe,
//! probes that id, and reports the outcome, until the search names the
//! frontier.

use vstd::prelude::*;

verus! {

/// How far each expansion step moves the upper bound.
pub const EXPANSION_STEP: u32 = 500;

/// The stage the search is in.
#[derive(Clone, Copy, PartialEq, Eq, Structural, Debug)]
pub enum Phase {
    /// Moving the upper bound up until a probe fails.
    Expanding,
    /// Bisecting between a live lower bound and a dead upper bound.
    Narrowing,
    /// Probing the one id left between the bounds.
    Resolving,
    /// The frontier is known.
    Done,
}

/// What a probe of one id gave.
#[derive(Clone, Copy, PartialEq, Eq, Structural, Debug)]
pub enum ProbeOutcome {
    /// The remote answered with a success status.
    Exists,
    /// The remote answered with any other status.
    Missing,
    /// No answer came (timeout, connection failure).
    TransportError,
}

/// What the search asks of its caller next.
#[derive(Clone, Copy, PartialEq, Eq, Structural, Debug)]
pub enum FrontierAction {
    /// Probe this id and report the outcome.
    Probe(u32),
    /// The search is over: this is the frontier.
    Finished(u32),
}

/// The state of one frontier search.
#[derive(Clone, Copy, Debug)]
pub struct FrontierSearch {
    /// The lower bound: an id known to be live, or the starting point.
    pub low: u32,
    /// The upper bound; while bisecting, an id probed missing.
    pub high: u32,
    /// The stage of the search.
    pub phase: Phase,
    /// Whether the pending probe has been reissued once after a transport error.
    pub retried: bool,
}

/// `a + b`, or `u32::MAX` where the sum does not fit.
pub open spec fn saturating_add_spec(a: u32, b: u32) -> u32 {
    if a as int + b as int > u32::MAX as int {
        u32::MAX
    } else {
        (a + b) as u32
    }
}

/// The midpoint that bisection probes.
pub open spec fn midpoint(low: u32, high: u32) -> u32
    recommends
        low <= high,
{
    (low + (high - low) / 2) as u32
}

/// A probe outcome under a remote that serves exactly the ids `1..=k`.
pub open spec fn dense_outcome(k: u32, id: u32) -> ProbeOutcome {
    if 1 <= id && id <= k {
        ProbeOutcome::Exists
    } else {
        ProbeOutcome::Missing
    }
}

impl FrontierSearch {
    /// The lower bound: an id known to be live (or the starting point).
    pub open spec fn low_spec(self) -> u32 {
        self.low
    }

    /// The upper bound of the search.
    pub open spec fn high_spec(self) -> u32 {
        self.high
    }

    /// The stage of the search.
    pub open spec fn phase_spec(self) -> Phase {
        self.phase
    }

    /// Whether the pending probe has already been reissued once after a transport error.
    pub open spec fn retried_spec(self) -> bool {
        self.retried
    }

    /// The bounds fit the stage: bisection needs a gap over 2, resolution one of at most 2.
    pub open spec fn wf(self) -> bool {
        match self.phase {
            Phase::Expanding => self.low < self.high,
            Phase::Narrowing => self.low < self.high && self.high - self.low > 2,
            Phase::Resolving => self.low < self.high && self.high - self.low <= 2,
            Phase::Done => !self.retried,
        }
    }

    /// The search that starts from the live id `low`.
    pub open spec fn start(low: u32) -> Self {
        if low == u32::MAX {
            FrontierSearch { low, high: low, phase: Phase::Done, retried: false }
        } else {
            FrontierSearch {
                low,
                high: saturating_add_spec(low, EXPANSION_STEP),
                phase: Phase::Expanding,
                retried: false,
            }
        }
    }

    /// What the search asks for in this state.
    pub open spec fn action(self) -> FrontierAction {
        match self.phase {
            Phase::Expanding => FrontierAction::Probe(self.high),
            Phase::Narrowing => FrontierAction::Probe(midpoint(self.low, self.high)),
            Phase::Resolving => FrontierAction::Probe((self.low + 1) as u32),
            Phase::Done => FrontierAction::Finished(self.low),
        }
    }

    /// The search between two bounds, bisecting or resolving by their distance.
    pub open spec fn between(low: u32, high: u32) -> Self {
        FrontierSearch {
            low,
            high,
            phase: if high - low > 2 {
                Phase::Narrowing
            } else {
                Phase::Resolving
            },
            retried: false,
        }
    }

    /// The search that has found `id`.
    pub open spec fn found(id: u32) -> Self {
        FrontierSearch { low: id, high: id, phase: Phase::Done, retried: false }
    }

    /// The state after the outcome of the probe that `action` asked for.
    /// A transport error reissues the same probe once; a second one counts
    /// as a missing id.
    pub open spec fn step(self, o: ProbeOutcome) -> Self {
        if self.phase == Phase::Done {
            self
        } else if o == ProbeOutcome::TransportError && !self.retried {
            FrontierSearch { retried: true, ..self }
        } else {
            let exists = o == ProbeOutcome::Exists;
            match self.phase {
                Phase::Expanding => if !exists {
                    Self::between(self.low, self.high)
                } else if self.high == u32::MAX {
                    Self::found(u32::MAX)
                } else {
                    FrontierSearch {
                        high: saturating_add_spec(self.high, EXPANSION_STEP),
                        retried: false,
                        ..self
                    }
                },
                Phase::Narrowing => {
                    let mid = midpoint(self.low, self.high);
                    if exists {
                        Self::between(mid, self.high)
                    } else {
                        Self::between(self.low, mid)
                    }
                },
                _ => if exists {
                    Self::found((self.low + 1) as u32)
                } else {
                    Self::found(self.low)
                },
            }
        }
    }

    /// Starts a search from `low`: the largest id already stored, or 1 for an empty store.
    pub fn new(low: u32) -> (r: Self)
        ensures
            r == Self::start(low),
            r.wf(),
    {
        if low == u32::MAX {
            FrontierSearch { low, high: low, phase: Phase::Done, retried: false }
        } else {
            let high = low.saturating_add(EXPANSION_STEP);
            FrontierSearch { low, high, phase: Phase::Expanding, retried: false }
        }
    }

    /// Which id to probe next, or the frontier once the search is over.
    pub fn next_action(&self) -> (r: FrontierAction)
        requires
            self.wf(),
        ensures
            r == self.action(),
    {
        match self.phase {
            Phase::Expanding => FrontierAction::Probe(self.high),
            Phase::Narrowing => FrontierAction::Probe(self.low + (self.high - self.low) / 2),
            Phase::Resolving => FrontierAction::Probe(self.low + 1),
            Phase::Done => FrontierAction::Finished(self.low),
        }
    }

    /// Takes in the outcome of the probe that `next_action` asked for.
    pub fn record(&mut self, o: ProbeOutcome)
        requires
            old(self).wf(),
        ensures
            *final(self) == old(self).step(o),
            final(self).wf(),
    {
        if self.phase == Phase::Done {
            return;
        }
        if o == ProbeOutcome::TransportError && !self.retried {
            self.retried = true;
            return;
        }
        let exists = o == ProbeOutcome::Exists;
        self.retried = false;
        match self.phase {
            Phase::Expanding => {
                if !exists {
                    self.settle(self.low, self.high);
                } else if self.high == u32::MAX {
                    self.finish(u32::MAX);
                } else {
                    self.high = self.high.saturating_add(EXPANSION_STEP);
                }
            },
            Phase::Narrowing => {
                let mid = self.low + (self.high - self.low) / 2;
                if exists {
                    self.settle(mid, self.high);
                } else {
                    self.settle(self.low, mid);
                }
            },
            _ => {
                if exists {
                    self.finish(self.low + 1);
                } else {
                    self.finish(self.low);
                }
            },
        }
    }

    fn settle(&mut self, low: u32, high: u32)
        requires
            low < high,
        ensures
            *final(self) == Self::between(low, high),
    {
        *self = FrontierSearch {
            low,
            high,
            phase: if high - low > 2 {
                Phase::Narrowing
            } else {
                Phase::Resolving
            },
            retried: false,
        };
    }

    fn finish(&mut self, id: u32)
        ensures
            *final(self) == Self::found(id),
    {
        *self = FrontierSearch { low: id, high: id, phase: Phase::Done, retried: false };
    }

    /// The frontier, once the search has found it.
    pub fn frontier(&self) -> (r: Option<u32>)
        ensures
            r == (match self.action() {
                FrontierAction::Finished(id) => Some(id),
                FrontierAction::Probe(_) => None::<u32>,
            }),
    {
        match self.phase {
            Phase::Done => Some(self.low),
            _ => None,
        }
    }
}

/// The search after `fuel` more probes against a remote that serves exactly
/// the ids `1..=k`, or sooner where it finishes.
pub open spec fn run_dense(s: FrontierSearch, k: u32, fuel: nat) -> FrontierSearch
    decreases fuel,
{
    if fuel == 0 {
        s
    } else {
        match s.action() {
            FrontierAction::Finished(_) => s,
            FrontierAction::Probe(id) => run_dense(s.step(dense_outcome(k, id)), k, (fuel - 1) as nat),
        }
    }
}

/// How many bisection probes bring a gap of `g` down to 2 or less.
pub open spec fn halvings(g: int) -> nat
    decreases g,
{
    if g <= 2 {
        0
    } else {
        1 + halvings(g - g / 2)
    }
}

/// Two to the power `n`.
pub open spec fn pow2(n: nat) -> nat
    decreases n,
{
    if n == 0 {
        1
    } else {
        2 * pow2((n - 1) as nat)
    }
}

/// How many expansion probes a search whose upper bound is `high` makes
/// against a remote that serves exactly `1..=k`.
pub open spec fn expansions(high: u32, k: u32) -> nat
    decreases u32::MAX - high,
{
    if high > k || high == u32::MAX {
        1
    } else {
        1 + expansions(saturating_add_spec(high, EXPANSION_STEP), k)
    }
}

proof fn lemma_halvings_monotone(a: int, b: int)
    requires
        a <= b,
    ensures
        halvings(a) <= halvings(b),
    decreases b,
{
    if a > 2 {
        lemma_halvings_monotone(a - a / 2, b - b / 2);
    }
}

proof fn lemma_halvings_log(g: int, j: nat)
    requires
        g <= pow2(j + 1),
    ensures
        halvings(g) <= j,
    decreases j,
{
    if g > 2 {
        assert(j > 0) by {
            if j == 0 {
                assert(pow2(1) == 2) by {
                    reveal_with_fuel(pow2, 2);
                }
            }
        }
        let jj = (j - 1) as nat;
        assert(pow2(j + 1) == 2 * pow2(jj + 1));
        lemma_halvings_log(g - g / 2, jj);
    }
}

proof fn lemma_expansions_bound(h: u32, k: u32)
    requires
        h as int <= k as int + EXPANSION_STEP as int,
    ensures
        expansions(h, k) <= (k as int + EXPANSION_STEP as int - h as int) / (EXPANSION_STEP as int) + 1,
    decreases u32::MAX - h,
{
    if !(h > k || h == u32::MAX) {
        let h2 = saturating_add_spec(h, EXPANSION_STEP);
        lemma_expansions_bound(h2, k);
    }
}

proof fn lemma_run_done(s: FrontierSearch, k: u32, fuel: nat)
    requires
        s.phase_spec() == Phase::Done,
    ensures
        run_dense(s, k, fuel) == s,
    decreases fuel,
{
    if fuel > 0 {
        lemma_run_done(s, k, (fuel - 1) as nat);
    }
}

proof fn lemma_run_resolving(s: FrontierSearch, k: u32, fuel: nat)
    requires
        s.wf(),
        s.phase_spec() == Phase::Resolving,
        !s.retried_spec(),
        s.low_spec() <= k < s.high_spec(),
        fuel >= 1,
    ensures
        run_dense(s, k, fuel).action() == FrontierAction::Finished(k),
{
    let t = s.step(dense_outcome(k, (s.low_spec() + 1) as u32));
    lemma_run_done(t, k, (fuel - 1) as nat);
}

proof fn lemma_run_settled(low: u32, high: u32, k: u32, fuel: nat)
    requires
        low <= k < high,
        fuel >= halvings(high - low) + 1,
    ensures
        run_dense(FrontierSearch::between(low, high), k, fuel).action() == FrontierAction::Finished(k),
    decreases high - low,
{
    let s = FrontierSearch::between(low, high);
    if high - low <= 2 {
        lemma_run_resolving(s, k, fuel);
    } else {
        let mid = midpoint(low, high);
        let t = s.step(dense_outcome(k, mid));
        assert(run_dense(s, k, fuel) == run_dense(t, k, (fuel - 1) as nat));
        let g = high - low;
        assert(halvings(g) == 1 + halvings(g - g / 2));
        if mid <= k {
            lemma_run_settled(mid, high, k, (fuel - 1) as nat);
        } else {
            lemma_halvings_monotone(mid - low, g - g / 2);
            lemma_run_settled(low, mid, k, (fuel - 1) as nat);
        }
    }
}

proof fn lemma_run_expanding(s: FrontierSearch, k: u32, fuel: nat)
    requires
        s.wf(),
        s.phase_spec() == Phase::Expanding,
        !s.retried_spec(),
        s.low_spec() <= k,
        s.high_spec() as int <= k as int + EXPANSION_STEP as int,
        fuel >= expansions(s.high_spec(), k) + halvings(k + EXPANSION_STEP - s.low_spec()) + 1,
    ensures
        run_dense(s, k, fuel).action() == FrontierAction::Finished(k),
    decreases u32::MAX - s.high_spec(),
{
    let high = s.high_spec();
    let low = s.low_spec();
    let t = s.step(dense_outcome(k, high));
    assert(run_dense(s, k, fuel) == run_dense(t, k, (fuel - 1) as nat));
    if high > k {
        lemma_halvings_monotone(high - low, k + EXPANSION_STEP - low);
        lemma_run_settled(low, high, k, (fuel - 1) as nat);
    } else if high == u32::MAX {
        lemma_run_done(t, k, (fuel - 1) as nat);
    } else {
        lemma_run_expanding(t, k, (fuel - 1) as nat);
    }
}

/// Against a remote that serves exactly the ids `1..=k`, a search started
/// from any live id `low <= k` names `k` as the frontier within
/// `(k - low) / 500 + j + 2` probes, where `2^(j+1)` covers the distance from
/// `low` to one step past `k`: the expansion probes plus a logarithmic
/// number of bisection probes.
pub proof fn lemma_frontier_converges(low: u32, k: u32, j: nat)
    requires
        low <= k,
        k as int - low as int + EXPANSION_STEP as int <= pow2(j + 1),
    ensures
        run_dense(FrontierSearch::start(low), k, ((k - low) / (EXPANSION_STEP as int) + j + 2) as nat).action()
            == FrontierAction::Finished(k),
{
    let s = FrontierSearch::start(low);
    let fuel = ((k - low) / (EXPANSION_STEP as int) + j + 2) as nat;
    if low == u32::MAX {
        lemma_run_done(s, k, fuel);
    } else {
        let h = s.high_spec();
        lemma_expansions_bound(h, k);
        if h == u32::MAX {
            assert(expansions(h, k) == 1);
        }
        lemma_halvings_log(k + EXPANSION_STEP - low, j);
        lemma_run_expanding(s, k, fuel);
    }
}

/// What the probes of a search have shown, where `live` tells which ids
/// the remote reports as existing: while bisecting or resolving, the upper
/// bound is missing; once finished, the id after the frontier is missing
/// (or the frontier is the largest id).
pub open spec fn probes_consistent(s: FrontierSearch, live: spec_fn(u32) -> bool) -> bool {
    match s.phase {
        Phase::Narrowing | Phase::Resolving => !live(s.high),
        Phase::Done => s.low == u32::MAX || !live((s.low + 1) as u32),
        Phase::Expanding => true,
    }
}

/// A search starts at its starting id, and has shown nothing yet.
pub proof fn lemma_start_sound(low: u32, live: spec_fn(u32) -> bool)
    ensures
        FrontierSearch::start(low).low == low,
        FrontierSearch::start(low).wf(),
        probes_consistent(FrontierSearch::start(low), live),
{
}

/// One step of a search, given the outcome of the probe it asked for as
/// the remote reports it (a transport error counting as not existing):
/// the lower bound, and so the frontier, never falls below the starting
/// id, and what the probes have shown stays true. In particular a finished
/// search names a frontier whose successor was probed missing.
pub proof fn lemma_step_sound(
    s: FrontierSearch,
    o: ProbeOutcome,
    live: spec_fn(u32) -> bool,
    start: u32,
)
    requires
        s.wf(),
        s.low >= start,
        probes_consistent(s, live),
        s.action() matches FrontierAction::Probe(id) ==> ((o == ProbeOutcome::Exists) == live(id)),
    ensures
        s.step(o).wf(),
        s.step(o).low >= start,
        probes_consistent(s.step(o), live),
{
}

} // verus!
