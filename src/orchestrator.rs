//! The crawl of one entity kind, in strict sequence: frontier discovery,
//! then the records of the pending ids up to the frontier, then the covers
//! of the stored records.
//!
//! The crawl is a state machine. The caller asks for the next step, runs
//! it (concurrently with earlier fetch or cover steps), reports how each
//! ended, and persists the writes that come back.

use crate::checkpoint::{Checkpoint, CheckpointView, is_max};
use crate::cover::CoverOutcome;
use crate::fetch::FetchOutcome;
use crate::frontier::{FrontierAction, FrontierSearch, ProbeOutcome};
use crate::pipeline::{BatchView, CoverPipeline, FetchPipeline, TableWrite};
use vstd::prelude::*;

verus! {

/// The phase a crawl is in.
#[derive(Clone, Copy, PartialEq, Eq, Structural, Debug)]
pub enum CrawlStage {
    Discovering,
    Fetching,
    Covering,
    Finished,
}

/// What the crawl asks of its caller next.
#[derive(Clone, Copy, PartialEq, Eq, Structural, Debug)]
pub enum CrawlStep {
    /// Probe whether this id exists, and report it with `record_probe`.
    Probe(u32),
    /// Fetch the record of this id, and report it with `record_fetch`.
    Fetch(u32),
    /// Handle the cover of this id, and report it with `record_cover`.
    Cover(u32),
    /// Nothing to start now: wait for a step in flight to end.
    Wait,
    /// The crawl of this kind is over.
    Finished,
}

/// The order of the phases.
pub open spec fn stage_rank(s: CrawlStage) -> nat {
    match s {
        CrawlStage::Discovering => 0,
        CrawlStage::Fetching => 1,
        CrawlStage::Covering => 2,
        CrawlStage::Finished => 3,
    }
}

/// Where the frontier search starts: the largest stored id, or 1.
pub open spec fn start_low(v: CheckpointView) -> u32 {
    if v.records.is_empty() {
        1
    } else {
        choose|m: u32| is_max(v.records, m)
    }
}

enum Phase {
    Discovering(FrontierSearch, Checkpoint),
    Fetching(FetchPipeline),
    Covering(CoverPipeline),
    Finished(Checkpoint),
}

/// The crawl of one entity kind.
pub struct KindCrawl {
    phase: Phase,
    capacity: usize,
    min_id: u32,
    max_id: Option<u32>,
    frontier: Option<u32>,
}

/// The last id that the record phase fetches: the frontier, or the
/// configured largest id where that is smaller.
pub open spec fn range_end(frontier: u32, max_id: Option<u32>) -> u32 {
    match max_id {
        Some(m) => if m < frontier {
            m
        } else {
            frontier
        },
        None => frontier,
    }
}

impl KindCrawl {
    /// The phase of the crawl.
    pub closed spec fn stage_spec(&self) -> CrawlStage {
        match self.phase {
            Phase::Discovering(..) => CrawlStage::Discovering,
            Phase::Fetching(..) => CrawlStage::Fetching,
            Phase::Covering(..) => CrawlStage::Covering,
            Phase::Finished(..) => CrawlStage::Finished,
        }
    }

    /// The checkpoint facts, in whatever phase.
    pub closed spec fn facts(&self) -> CheckpointView {
        match self.phase {
            Phase::Discovering(_, cp) => cp@,
            Phase::Fetching(p) => p.facts(),
            Phase::Covering(p) => p.facts(),
            Phase::Finished(cp) => cp@,
        }
    }

    /// The frontier search, while discovering.
    pub closed spec fn search(&self) -> FrontierSearch
        recommends
            self.stage_spec() == CrawlStage::Discovering,
    {
        match self.phase {
            Phase::Discovering(s, _) => s,
            _ => arbitrary(),
        }
    }

    /// The schedule of the record fetches, while fetching.
    pub closed spec fn fetch_schedule(&self) -> BatchView
        recommends
            self.stage_spec() == CrawlStage::Fetching,
    {
        match self.phase {
            Phase::Fetching(p) => p.schedule(),
            _ => arbitrary(),
        }
    }

    /// The schedule of the cover steps, while covering.
    pub closed spec fn cover_schedule(&self) -> BatchView
        recommends
            self.stage_spec() == CrawlStage::Covering,
    {
        match self.phase {
            Phase::Covering(p) => p.schedule(),
            _ => arbitrary(),
        }
    }

    /// The frontier, once discovered.
    pub closed spec fn frontier_spec(&self) -> Option<u32> {
        self.frontier
    }

    /// The configured id range: the smallest id, and the largest if any.
    pub closed spec fn range_spec(&self) -> (u32, Option<u32>) {
        (self.min_id, self.max_id)
    }

    /// The concurrency ceiling of the pipelines.
    pub closed spec fn capacity_spec(&self) -> nat {
        self.capacity as nat
    }

    /// The state of the current phase is well formed, its pipeline runs at
    /// the crawl's capacity, and the frontier is known once discovery is over.
    pub closed spec fn wf(&self) -> bool {
        &&& self.capacity >= 1
        &&& match self.phase {
            Phase::Discovering(s, cp) => s.wf() && cp.wf() && self.frontier is None,
            Phase::Fetching(p) => p.wf() && p.schedule().capacity == self.capacity
                && self.frontier is Some,
            Phase::Covering(p) => p.wf() && p.schedule().capacity == self.capacity
                && self.frontier is Some,
            Phase::Finished(cp) => cp.wf() && self.frontier is Some,
        }
    }

    /// A crawl over the facts of `checkpoint`, with at most `capacity`
    /// fetches in flight, over the ids from `min_id` up to the frontier (or
    /// up to `max_id`, where that is smaller); it starts with frontier
    /// discovery.
    pub fn new(checkpoint: Checkpoint, capacity: usize, min_id: u32, max_id: Option<u32>) -> (r: Self)
        requires
            checkpoint.wf(),
            capacity >= 1,
        ensures
            r.wf(),
            r.stage_spec() == CrawlStage::Discovering,
            r.facts() == checkpoint@,
            r.search() == FrontierSearch::start(start_low(checkpoint@)),
            r.capacity_spec() == capacity,
            r.range_spec() == (min_id, max_id),
            r.frontier_spec() is None,
    {
        let low = checkpoint.last_id();
        proof {
            if !checkpoint@.records.is_empty() {
                let m = choose|m: u32| is_max(checkpoint@.records, m);
                assert(is_max(checkpoint@.records, m));
                assert(m == low);
            }
        }
        KindCrawl {
            phase: Phase::Discovering(FrontierSearch::new(low), checkpoint),
            capacity,
            min_id,
            max_id,
            frontier: None,
        }
    }

    /// The next step to run. Moves on to the next phase where the current
    /// one has nothing left: records follow the frontier, covers follow
    /// the last record fetch.
    pub fn next_step(&mut self) -> (r: CrawlStep)
        requires
            old(self).wf(),
        ensures
            final(self).wf(),
            final(self).facts() == old(self).facts(),
            final(self).capacity_spec() == old(self).capacity_spec(),
            final(self).range_spec() == old(self).range_spec(),
            stage_rank(old(self).stage_spec()) <= stage_rank(final(self).stage_spec()),
            old(self).stage_spec() == CrawlStage::Discovering && stage_rank(final(self).stage_spec())
                >= 2 ==> old(self).facts().pending(
                old(self).range_spec().0,
                range_end(final(self).frontier_spec()->0, old(self).range_spec().1),
            ).is_empty(),
            stage_rank(old(self).stage_spec()) <= 1 && final(self).stage_spec() == CrawlStage::Finished
                ==> old(self).facts().pending_covers().is_empty(),
            old(self).stage_spec() == CrawlStage::Fetching && final(self).stage_spec()
                != CrawlStage::Fetching ==> old(self).fetch_schedule().done(),
            old(self).stage_spec() == CrawlStage::Covering && final(self).stage_spec()
                != CrawlStage::Covering ==> old(self).cover_schedule().done(),
            old(self).stage_spec() == CrawlStage::Discovering && final(self).stage_spec()
                != CrawlStage::Discovering ==> old(self).search().action() == FrontierAction::Finished(
                final(self).frontier_spec()->0,
            ),
            old(self).stage_spec() != CrawlStage::Discovering ==> final(self).frontier_spec()
                == old(self).frontier_spec(),
            old(self).stage_spec() == CrawlStage::Discovering && final(self).stage_spec()
                == CrawlStage::Fetching ==> final(self).fetch_schedule().ids.to_set() == old(
                self,
            ).facts().pending(
                old(self).range_spec().0,
                range_end(final(self).frontier_spec()->0, old(self).range_spec().1),
            ),
            old(self).stage_spec() != CrawlStage::Covering && final(self).stage_spec()
                == CrawlStage::Covering ==> final(self).cover_schedule().ids.to_set() == old(
                self,
            ).facts().pending_covers(),
            match r {
                CrawlStep::Probe(id) => {
                    &&& final(self).stage_spec() == CrawlStage::Discovering
                    &&& *final(self) == *old(self)
                    &&& old(self).search().action() == FrontierAction::Probe(id)
                },
                CrawlStep::Fetch(id) => {
                    &&& final(self).stage_spec() == CrawlStage::Fetching
                    &&& old(self).stage_spec() == CrawlStage::Fetching ==> final(self).fetch_schedule()
                        == (BatchView {
                        next: old(self).fetch_schedule().next + 1,
                        in_flight: old(self).fetch_schedule().in_flight.insert(id),
                        ..old(self).fetch_schedule()
                    })
                    &&& old(self).stage_spec() != CrawlStage::Fetching ==> final(self).fetch_schedule().next == 1
                        && final(self).fetch_schedule().in_flight == set![id]
                    &&& id == final(self).fetch_schedule().ids[final(self).fetch_schedule().next - 1]
                },
                CrawlStep::Cover(id) => {
                    &&& final(self).stage_spec() == CrawlStage::Covering
                    &&& old(self).stage_spec() == CrawlStage::Covering ==> final(self).cover_schedule()
                        == (BatchView {
                        next: old(self).cover_schedule().next + 1,
                        in_flight: old(self).cover_schedule().in_flight.insert(id),
                        ..old(self).cover_schedule()
                    })
                    &&& old(self).stage_spec() != CrawlStage::Covering ==> final(self).cover_schedule().next == 1
                        && final(self).cover_schedule().in_flight == set![id]
                    &&& id == final(self).cover_schedule().ids[final(self).cover_schedule().next - 1]
                },
                CrawlStep::Wait => {
                    &&& *final(self) == *old(self)
                    &&& {
                        ||| final(self).stage_spec() == CrawlStage::Fetching
                            && !final(self).fetch_schedule().can_launch()
                            && !final(self).fetch_schedule().done()
                        ||| final(self).stage_spec() == CrawlStage::Covering
                            && !final(self).cover_schedule().can_launch()
                            && !final(self).cover_schedule().done()
                    }
                },
                CrawlStep::Finished => final(self).stage_spec() == CrawlStage::Finished,
            },
    {
        loop
            invariant
                self.wf(),
                self.facts() == old(self).facts(),
                self.capacity == old(self).capacity,
                self.min_id == old(self).min_id,
                self.max_id == old(self).max_id,
                stage_rank(old(self).stage_spec()) <= stage_rank(self.stage_spec()),
                old(self).stage_spec() == CrawlStage::Discovering && stage_rank(self.stage_spec()) >= 2
                    ==> old(self).facts().pending(self.min_id, range_end(self.frontier->0, self.max_id)).is_empty(),
                stage_rank(old(self).stage_spec()) <= 1 && self.stage_spec() == CrawlStage::Finished
                    ==> old(self).facts().pending_covers().is_empty(),
                old(self).stage_spec() == CrawlStage::Fetching && self.stage_spec()
                    != CrawlStage::Fetching ==> old(self).fetch_schedule().done(),
                old(self).stage_spec() == CrawlStage::Covering && self.stage_spec()
                    != CrawlStage::Covering ==> old(self).cover_schedule().done(),
                old(self).stage_spec() == CrawlStage::Discovering && self.stage_spec()
                    != CrawlStage::Discovering ==> old(self).search().action()
                    == FrontierAction::Finished(self.frontier->0),
                old(self).stage_spec() != CrawlStage::Discovering ==> self.frontier
                    == old(self).frontier,
                self.stage_spec() == old(self).stage_spec() ==> *self == *old(self),
                old(self).stage_spec() == CrawlStage::Discovering && self.stage_spec()
                    == CrawlStage::Fetching ==> self.fetch_schedule().ids.to_set() == old(
                    self,
                ).facts().pending(self.min_id, range_end(self.frontier->0, self.max_id)) && self.fetch_schedule().next == 0
                    && self.fetch_schedule().in_flight == Set::<u32>::empty(),
                old(self).stage_spec() != CrawlStage::Covering && self.stage_spec()
                    == CrawlStage::Covering ==> self.cover_schedule().ids.to_set() == old(
                    self,
                ).facts().pending_covers() && self.cover_schedule().next == 0
                    && self.cover_schedule().in_flight == Set::<u32>::empty(),
            decreases 3 - stage_rank(self.stage_spec()),
        {
            let mut taken = Phase::Finished(Checkpoint::new());
            std::mem::swap(&mut self.phase, &mut taken);
            match taken {
                Phase::Discovering(search, cp) => match search.next_action() {
                    FrontierAction::Probe(id) => {
                        self.phase = Phase::Discovering(search, cp);
                        return CrawlStep::Probe(id);
                    },
                    FrontierAction::Finished(frontier) => {
                        self.frontier = Some(frontier);
                        let end = match self.max_id {
                            Some(m) => if m < frontier {
                                m
                            } else {
                                frontier
                            },
                            None => frontier,
                        };
                        self.phase = Phase::Fetching(
                            FetchPipeline::new(cp, self.min_id, end, self.capacity),
                        );
                    },
                },
                Phase::Fetching(mut p) => match p.launch() {
                    Some(id) => {
                        self.phase = Phase::Fetching(p);
                        return CrawlStep::Fetch(id);
                    },
                    None => {
                        if p.is_done() {
                            proof {
                                if old(self).stage_spec() == CrawlStage::Discovering {
                                    assert(p.schedule().ids.len() == 0);
                                    assert(p.schedule().ids.to_set() =~= Set::<u32>::empty());
                                }
                            }
                            let cp = p.into_checkpoint();
                            self.phase = Phase::Covering(CoverPipeline::new(cp, self.capacity));
                        } else {
                            self.phase = Phase::Fetching(p);
                            return CrawlStep::Wait;
                        }
                    },
                },
                Phase::Covering(mut p) => match p.launch() {
                    Some(id) => {
                        self.phase = Phase::Covering(p);
                        return CrawlStep::Cover(id);
                    },
                    None => {
                        if p.is_done() {
                            proof {
                                if stage_rank(old(self).stage_spec()) <= 1 {
                                    assert(p.schedule().ids.len() == 0);
                                    assert(p.schedule().ids.to_set() =~= Set::<u32>::empty());
                                }
                            }
                            self.phase = Phase::Finished(p.into_checkpoint());
                            return CrawlStep::Finished;
                        } else {
                            self.phase = Phase::Covering(p);
                            return CrawlStep::Wait;
                        }
                    },
                },
                Phase::Finished(cp) => {
                    self.phase = Phase::Finished(cp);
                    return CrawlStep::Finished;
                },
            }
        }
    }
    /// The phase of the crawl.
    pub fn stage(&self) -> (r: CrawlStage)
        ensures
            r == self.stage_spec(),
    {
        match self.phase {
            Phase::Discovering(..) => CrawlStage::Discovering,
            Phase::Fetching(..) => CrawlStage::Fetching,
            Phase::Covering(..) => CrawlStage::Covering,
            Phase::Finished(..) => CrawlStage::Finished,
        }
    }

    /// The frontier, once discovered.
    pub fn frontier(&self) -> (r: Option<u32>)
        ensures
            r == self.frontier_spec(),
    {
        self.frontier
    }

    /// Takes in the outcome of a probe. Outside discovery it changes nothing.
    pub fn record_probe(&mut self, o: ProbeOutcome)
        requires
            old(self).wf(),
        ensures
            final(self).wf(),
            final(self).stage_spec() == old(self).stage_spec(),
            final(self).facts() == old(self).facts(),
            final(self).capacity_spec() == old(self).capacity_spec(),
            final(self).range_spec() == old(self).range_spec(),
            final(self).frontier_spec() == old(self).frontier_spec(),
            old(self).stage_spec() == CrawlStage::Discovering ==> final(self).search() == old(
                self,
            ).search().step(o),
            old(self).stage_spec() != CrawlStage::Discovering ==> *final(self) == *old(self),
    {
        match &mut self.phase {
            Phase::Discovering(search, _) => search.record(o),
            _ => {},
        }
    }

    /// Takes in how the fetch of the record of `id` ended, and returns the
    /// write to persist, if any. Outside the fetch phase it changes nothing.
    pub fn record_fetch(&mut self, id: u32, o: FetchOutcome) -> (r: Option<TableWrite>)
        requires
            old(self).wf(),
        ensures
            final(self).wf(),
            final(self).stage_spec() == old(self).stage_spec(),
            final(self).capacity_spec() == old(self).capacity_spec(),
            final(self).range_spec() == old(self).range_spec(),
            final(self).frontier_spec() == old(self).frontier_spec(),
            old(self).stage_spec() != CrawlStage::Fetching ==> r is None && *final(self) == *old(
                self,
            ),
            old(self).stage_spec() == CrawlStage::Fetching && !old(
                self,
            ).fetch_schedule().in_flight.contains(id) ==> r is None && final(self).facts() == old(
                self,
            ).facts() && final(self).fetch_schedule() == old(self).fetch_schedule(),
            old(self).stage_spec() == CrawlStage::Fetching && old(
                self,
            ).fetch_schedule().in_flight.contains(id) ==> {
                &&& final(self).facts() == old(self).facts().after_fetch(id, o)
                &&& final(self).fetch_schedule() == (BatchView {
                    in_flight: old(self).fetch_schedule().in_flight.remove(id),
                    ..old(self).fetch_schedule()
                })
                &&& r == (if final(self).facts() != old(self).facts() {
                    crate::pipeline::fetch_write(id, o)
                } else {
                    None
                })
            },
    {
        match &mut self.phase {
            Phase::Fetching(p) => p.complete(id, o),
            _ => None,
        }
    }

    /// Takes in how the cover step of `id` ended, and returns the write to
    /// persist, if any. Outside the cover phase it changes nothing.
    pub fn record_cover(&mut self, id: u32, o: CoverOutcome) -> (r: Option<TableWrite>)
        requires
            old(self).wf(),
        ensures
            final(self).wf(),
            final(self).stage_spec() == old(self).stage_spec(),
            final(self).capacity_spec() == old(self).capacity_spec(),
            final(self).range_spec() == old(self).range_spec(),
            final(self).frontier_spec() == old(self).frontier_spec(),
            old(self).stage_spec() != CrawlStage::Covering ==> r is None && *final(self) == *old(
                self,
            ),
            old(self).stage_spec() == CrawlStage::Covering && !old(
                self,
            ).cover_schedule().in_flight.contains(id) ==> r is None && final(self).facts() == old(
                self,
            ).facts() && final(self).cover_schedule() == old(self).cover_schedule(),
            old(self).stage_spec() == CrawlStage::Covering && old(
                self,
            ).cover_schedule().in_flight.contains(id) ==> {
                &&& final(self).facts() == old(self).facts().after_cover(id, o)
                &&& final(self).cover_schedule() == (BatchView {
                    in_flight: old(self).cover_schedule().in_flight.remove(id),
                    ..old(self).cover_schedule()
                })
                &&& r == (if final(self).facts() != old(self).facts() {
                    Some(TableWrite::MarkCover(id))
                } else {
                    None
                })
            },
    {
        match &mut self.phase {
            Phase::Covering(p) => p.complete(id, o),
            _ => None,
        }
    }

    /// The checkpoint facts, in whatever phase.
    pub fn into_checkpoint(self) -> (r: Checkpoint)
        requires
            self.wf(),
        ensures
            r.wf(),
            r@ == self.facts(),
    {
        match self.phase {
            Phase::Discovering(_, cp) => cp,
            Phase::Fetching(p) => p.into_checkpoint(),
            Phase::Covering(p) => p.into_checkpoint(),
            Phase::Finished(cp) => cp,
        }
    }
}

} // verus!
