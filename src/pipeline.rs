//! Bounded pipelines: pending ids are handed out for fetching while fewer
//! than a fixed number are in flight, and each finished fetch becomes at
//! most one write to the checkpoint store.
//!
//! The caller runs the fetches (concurrently, in any order of completion)
//! and persists the writes that the pipeline returns.

use crate::checkpoint::{Checkpoint, CheckpointView, strictly_increasing};
use crate::cover::CoverOutcome;
use crate::fetch::{
    class_of, lemma_retry_budget, run_fetch, FetchAction, FetchEvent, FetchOutcome, ResponseClass,
};
use std::collections::HashSet;
use vstd::prelude::*;

verus! {

broadcast use vstd::std_specs::hash::group_hash_axioms;

/// A write to the checkpoint store that a finished fetch calls for.
#[derive(Clone, Copy, PartialEq, Eq, Structural, Debug)]
pub enum TableWrite {
    /// Store the fetched record of this id in the records table.
    PutRecord(u32),
    /// Put an empty marker for this id in the absent table.
    MarkAbsent(u32),
    /// Put an empty marker for this id in the covers table.
    MarkCover(u32),
}

/// The state of a batch as values.
pub struct BatchView {
    pub ids: Seq<u32>,
    pub next: nat,
    pub in_flight: Set<u32>,
    pub capacity: nat,
}

impl BatchView {
    /// Whether another id can be handed out now.
    pub open spec fn can_launch(self) -> bool {
        self.in_flight.len() < self.capacity && self.next < self.ids.len()
    }

    /// Every id handed out, and none in flight.
    pub open spec fn done(self) -> bool {
        self.next == self.ids.len() && self.in_flight.is_empty()
    }
}

/// Hands out a list of ids, never more than `capacity` at a time.
pub struct Batch {
    ids: Vec<u32>,
    next: usize,
    in_flight: HashSet<u32>,
    capacity: usize,
}

impl View for Batch {
    type V = BatchView;

    closed spec fn view(&self) -> BatchView {
        BatchView {
            ids: self.ids@,
            next: self.next as nat,
            in_flight: self.in_flight@,
            capacity: self.capacity as nat,
        }
    }
}

impl Batch {
    /// The ids are distinct, and at most `capacity` of them are in flight,
    /// each one handed out already: every fetch in flight is one element of
    /// the in-flight set.
    pub closed spec fn wf(&self) -> bool {
        &&& self.ids@.no_duplicates()
        &&& self.next <= self.ids@.len()
        &&& self.capacity >= 1
        &&& self.in_flight@.finite()
        &&& self.in_flight@.len() <= self.capacity
        &&& forall|id: u32| #[trigger]
            self.in_flight@.contains(id) ==> self.ids@.subrange(0, self.next as int).contains(id)
    }

    /// A batch over the distinct `ids`, none handed out yet.
    pub fn new(ids: Vec<u32>, capacity: usize) -> (r: Self)
        requires
            ids@.no_duplicates(),
            capacity >= 1,
        ensures
            r.wf(),
            r@.ids == ids@,
            r@.next == 0,
            r@.in_flight == Set::<u32>::empty(),
            r@.capacity == capacity,
    {
        Batch { ids, next: 0, in_flight: HashSet::new(), capacity }
    }

    /// Hands out the next id, if fewer than `capacity` are in flight and
    /// any is left.
    pub fn launch(&mut self) -> (r: Option<u32>)
        requires
            old(self).wf(),
        ensures
            final(self).wf(),
            final(self)@.ids == old(self)@.ids,
            final(self)@.capacity == old(self)@.capacity,
            old(self)@.can_launch() ==> {
                &&& r == Some(old(self)@.ids[old(self)@.next as int])
                &&& final(self)@.next == old(self)@.next + 1
                &&& final(self)@.in_flight == old(self)@.in_flight.insert(r->0)
            },
            old(self)@.can_launch() ==> !old(self)@.in_flight.contains(r->0) && final(self)@.in_flight.len()
                == old(self)@.in_flight.len() + 1,
            !old(self)@.can_launch() ==> r is None && *final(self) == *old(self),
    {
        if self.in_flight.len() >= self.capacity || self.next >= self.ids.len() {
            return None;
        }
        let id = self.ids[self.next];
        proof {
            let n = self.next as int;
            assert(self.ids@.subrange(0, n + 1)[n] == id);
            assert forall|x: u32| self.ids@.subrange(0, n).contains(x) implies self.ids@.subrange(
                0,
                n + 1,
            ).contains(x) by {
                let k = choose|k: int| 0 <= k < n && self.ids@.subrange(0, n)[k] == x;
                assert(self.ids@.subrange(0, n + 1)[k] == x);
            }
            if self.in_flight@.contains(id) {
                let k = choose|k: int| 0 <= k < n && self.ids@.subrange(0, n)[k] == id;
                assert(self.ids@[k] == self.ids@[n]);
            }
        }
        self.in_flight.insert(id);
        self.next = self.next + 1;
        Some(id)
    }

    /// Takes back an id whose fetch has finished. Says whether it was in flight.
    pub fn complete(&mut self, id: u32) -> (r: bool)
        requires
            old(self).wf(),
        ensures
            final(self).wf(),
            r == old(self)@.in_flight.contains(id),
            final(self)@ == (BatchView { in_flight: old(self)@.in_flight.remove(id), ..old(self)@ }),
            !r ==> final(self)@ == old(self)@,
    {
        let r = self.in_flight.remove(&id);
        proof {
            assert(self.in_flight@ =~= old(self)@.in_flight.remove(id));
            if !r {
                assert(self.in_flight@ =~= old(self)@.in_flight);
            }
        }
        r
    }

    /// How many ids are in flight.
    pub fn in_flight(&self) -> (r: usize)
        requires
            self.wf(),
        ensures
            r == self@.in_flight.len(),
    {
        self.in_flight.len()
    }

    /// Whether every id has been handed out and taken back.
    pub fn is_done(&self) -> (r: bool)
        requires
            self.wf(),
        ensures
            r == self@.done(),
    {
        self.next == self.ids.len() && self.in_flight.is_empty()
    }
}

proof fn lemma_increasing_distinct(s: Seq<u32>)
    requires
        strictly_increasing(s),
    ensures
        s.no_duplicates(),
{
    assert forall|a: int, b: int| 0 <= a < s.len() && 0 <= b < s.len() && a != b implies s[a] != s[b] by {
        if a < b {
            assert(s[a] < s[b]);
        } else {
            assert(s[b] < s[a]);
        }
    }
}

/// In every reachable state of a batch, no more ids are in flight than its capacity.
pub proof fn lemma_concurrency_ceiling(b: &Batch)
    requires
        b.wf(),
    ensures
        b@.in_flight.len() <= b@.capacity,
{
}

/// The write that a record fetch of `id` calls for, where its outcome is a new fact.
pub open spec fn fetch_write(id: u32, o: FetchOutcome) -> Option<TableWrite> {
    match o {
        FetchOutcome::Fetched => Some(TableWrite::PutRecord(id)),
        FetchOutcome::NotFound => Some(TableWrite::MarkAbsent(id)),
        FetchOutcome::Failed => None,
    }
}

/// The bounded fetch pipeline of one entity kind: the pending ids of a
/// range, fetched at most `capacity` at a time.
pub struct FetchPipeline {
    checkpoint: Checkpoint,
    batch: Batch,
}

impl FetchPipeline {
    /// The checkpoint facts as the pipeline knows them.
    pub closed spec fn facts(&self) -> CheckpointView {
        self.checkpoint@
    }

    /// The scheduling state.
    pub closed spec fn schedule(&self) -> BatchView {
        self.batch@
    }

    /// Both the facts and the schedule are well formed.
    pub closed spec fn wf(&self) -> bool {
        self.checkpoint.wf() && self.batch.wf()
    }

    /// A pipeline over the pending ids of `lo..=hi`, in increasing order.
    pub fn new(checkpoint: Checkpoint, lo: u32, hi: u32, capacity: usize) -> (r: Self)
        requires
            checkpoint.wf(),
            capacity >= 1,
        ensures
            r.wf(),
            r.facts() == checkpoint@,
            r.schedule().ids.to_set() == checkpoint@.pending(lo, hi),
            strictly_increasing(r.schedule().ids),
            r.schedule().next == 0,
            r.schedule().in_flight == Set::<u32>::empty(),
            r.schedule().capacity == capacity,
    {
        let ids = checkpoint.pending_ids(lo, hi);
        proof {
            lemma_increasing_distinct(ids@);
        }
        FetchPipeline { checkpoint, batch: Batch::new(ids, capacity) }
    }

    /// The next id to fetch, if a slot is free and any id is left.
    pub fn launch(&mut self) -> (r: Option<u32>)
        requires
            old(self).wf(),
        ensures
            final(self).wf(),
            final(self).facts() == old(self).facts(),
            final(self).schedule().ids == old(self).schedule().ids,
            final(self).schedule().capacity == old(self).schedule().capacity,
            old(self).schedule().can_launch() ==> {
                &&& r == Some(old(self).schedule().ids[old(self).schedule().next as int])
                &&& final(self).schedule().next == old(self).schedule().next + 1
                &&& final(self).schedule().in_flight == old(self).schedule().in_flight.insert(r->0)
            },
            !old(self).schedule().can_launch() ==> r is None && *final(self) == *old(self),
    {
        self.batch.launch()
    }

    /// Takes in how the fetch of `id` ended, and returns the write to
    /// persist, if any. An id that is not in flight changes nothing.
    pub fn complete(&mut self, id: u32, o: FetchOutcome) -> (r: Option<TableWrite>)
        requires
            old(self).wf(),
        ensures
            final(self).wf(),
            !old(self).schedule().in_flight.contains(id) ==> r is None && final(self).facts()
                == old(self).facts() && final(self).schedule() == old(self).schedule(),
            old(self).schedule().in_flight.contains(id) ==> {
                &&& final(self).facts() == old(self).facts().after_fetch(id, o)
                &&& final(self).schedule() == (BatchView {
                    in_flight: old(self).schedule().in_flight.remove(id),
                    ..old(self).schedule()
                })
                &&& r == (if final(self).facts() != old(self).facts() {
                    fetch_write(id, o)
                } else {
                    None
                })
            },
    {
        if !self.batch.complete(id) {
            return None;
        }
        if !self.checkpoint.apply_fetch(id, o) {
            return None;
        }
        match o {
            FetchOutcome::Fetched => Some(TableWrite::PutRecord(id)),
            FetchOutcome::NotFound => Some(TableWrite::MarkAbsent(id)),
            FetchOutcome::Failed => None,
        }
    }

    /// How many fetches are in flight.
    pub fn in_flight(&self) -> (r: usize)
        requires
            self.wf(),
        ensures
            r == self.schedule().in_flight.len(),
    {
        self.batch.in_flight()
    }

    /// Whether every pending id has been fetched and taken back.
    pub fn is_done(&self) -> (r: bool)
        requires
            self.wf(),
        ensures
            r == self.schedule().done(),
    {
        self.batch.is_done()
    }

    /// The checkpoint facts, for the next phase.
    pub fn into_checkpoint(self) -> (r: Checkpoint)
        requires
            self.wf(),
        ensures
            r.wf(),
            r@ == self.facts(),
    {
        self.checkpoint
    }
}

/// The cover pipeline of one entity kind: the stored ids whose cover is not
/// done, handled at most `capacity` at a time.
pub struct CoverPipeline {
    checkpoint: Checkpoint,
    batch: Batch,
}

impl CoverPipeline {
    /// The checkpoint facts as the pipeline knows them.
    pub closed spec fn facts(&self) -> CheckpointView {
        self.checkpoint@
    }

    /// The scheduling state.
    pub closed spec fn schedule(&self) -> BatchView {
        self.batch@
    }

    /// Both the facts and the schedule are well formed.
    pub closed spec fn wf(&self) -> bool {
        self.checkpoint.wf() && self.batch.wf()
    }

    /// A pipeline over the stored ids whose cover is not done, in increasing order.
    pub fn new(checkpoint: Checkpoint, capacity: usize) -> (r: Self)
        requires
            checkpoint.wf(),
            capacity >= 1,
        ensures
            r.wf(),
            r.facts() == checkpoint@,
            r.schedule().ids.to_set() == checkpoint@.pending_covers(),
            strictly_increasing(r.schedule().ids),
            r.schedule().next == 0,
            r.schedule().in_flight == Set::<u32>::empty(),
            r.schedule().capacity == capacity,
    {
        let ids = checkpoint.pending_cover_ids();
        proof {
            lemma_increasing_distinct(ids@);
        }
        CoverPipeline { checkpoint, batch: Batch::new(ids, capacity) }
    }

    /// The next id whose cover to handle, if a slot is free and any id is left.
    pub fn launch(&mut self) -> (r: Option<u32>)
        requires
            old(self).wf(),
        ensures
            final(self).wf(),
            final(self).facts() == old(self).facts(),
            final(self).schedule().ids == old(self).schedule().ids,
            final(self).schedule().capacity == old(self).schedule().capacity,
            old(self).schedule().can_launch() ==> {
                &&& r == Some(old(self).schedule().ids[old(self).schedule().next as int])
                &&& final(self).schedule().next == old(self).schedule().next + 1
                &&& final(self).schedule().in_flight == old(self).schedule().in_flight.insert(r->0)
            },
            !old(self).schedule().can_launch() ==> r is None && *final(self) == *old(self),
    {
        self.batch.launch()
    }

    /// Takes in how the cover step of `id` ended, and returns the write to
    /// persist, if any. An id that is not in flight changes nothing.
    pub fn complete(&mut self, id: u32, o: CoverOutcome) -> (r: Option<TableWrite>)
        requires
            old(self).wf(),
        ensures
            final(self).wf(),
            !old(self).schedule().in_flight.contains(id) ==> r is None && final(self).facts()
                == old(self).facts() && final(self).schedule() == old(self).schedule(),
            old(self).schedule().in_flight.contains(id) ==> {
                &&& final(self).facts() == old(self).facts().after_cover(id, o)
                &&& final(self).schedule() == (BatchView {
                    in_flight: old(self).schedule().in_flight.remove(id),
                    ..old(self).schedule()
                })
                &&& r == (if final(self).facts() != old(self).facts() {
                    Some(TableWrite::MarkCover(id))
                } else {
                    None
                })
            },
    {
        if !self.batch.complete(id) {
            return None;
        }
        if !self.checkpoint.apply_cover(id, o) {
            return None;
        }
        Some(TableWrite::MarkCover(id))
    }

    /// How many cover steps are in flight.
    pub fn in_flight(&self) -> (r: usize)
        requires
            self.wf(),
        ensures
            r == self.schedule().in_flight.len(),
    {
        self.batch.in_flight()
    }

    /// Whether every pending cover has been handled and taken back.
    pub fn is_done(&self) -> (r: bool)
        requires
            self.wf(),
        ensures
            r == self.schedule().done(),
    {
        self.batch.is_done()
    }

    /// The checkpoint facts, once the covers are handled.
    pub fn into_checkpoint(self) -> (r: Checkpoint)
        requires
            self.wf(),
        ensures
            r.wf(),
            r@ == self.facts(),
    {
        self.checkpoint
    }
}

/// For a pending id, a fetch that meets two transport errors and then a
/// success reply stores the record; a fetch that meets three transport
/// errors ends as failed and writes nothing, so the id stays pending.
pub proof fn lemma_retry_cap(v: CheckpointView, id: u32, code: u16)
    requires
        v.wf(),
        v.can_record(id),
        class_of(code) == ResponseClass::Success,
    ensures
        run_fetch(
            seq![
                FetchEvent::TransportError,
                FetchEvent::TransportError,
                FetchEvent::Status(code),
                FetchEvent::BodyHandled,
            ],
        ).action() == FetchAction::Finish(FetchOutcome::Fetched),
        v.after_fetch(id, FetchOutcome::Fetched).records == v.records.insert(id),
        fetch_write(id, FetchOutcome::Fetched) == Some(TableWrite::PutRecord(id)),
        run_fetch(
            seq![FetchEvent::TransportError, FetchEvent::TransportError, FetchEvent::TransportError],
        ).action() == FetchAction::Finish(FetchOutcome::Failed),
        v.after_fetch(id, FetchOutcome::Failed) == v,
        fetch_write(id, FetchOutcome::Failed) is None,
{
    lemma_retry_budget(code);
}

/// The facts after the fetches of `ids`, in that order, all ended with `o`.
pub open spec fn fetch_all(v: CheckpointView, ids: Seq<u32>, o: FetchOutcome) -> CheckpointView
    decreases ids.len(),
{
    if ids.len() == 0 {
        v
    } else {
        fetch_all(v, ids.drop_last(), o).after_fetch(ids.last(), o)
    }
}

proof fn lemma_fetch_all_fetched(v: CheckpointView, ids: Seq<u32>)
    requires
        v.wf(),
    ensures
        fetch_all(v, ids, FetchOutcome::Fetched).records == v.records.union(
            ids.to_set().difference(v.absent),
        ),
        fetch_all(v, ids, FetchOutcome::Fetched).absent == v.absent,
        fetch_all(v, ids, FetchOutcome::Fetched).covers == v.covers,
    decreases ids.len(),
{
    if ids.len() > 0 {
        let init = ids.drop_last();
        lemma_fetch_all_fetched(v, init);
        assert(ids.to_set() =~= init.to_set().insert(ids.last())) by {
            assert forall|x: u32| ids.to_set().contains(x) implies init.to_set().insert(
                ids.last(),
            ).contains(x) by {
                let k = choose|k: int| 0 <= k < ids.len() && ids[k] == x;
                if k < ids.len() - 1 {
                    assert(init[k] == x);
                }
            }
            assert forall|x: u32| init.to_set().insert(ids.last()).contains(x) implies ids.to_set().contains(
                x,
            ) by {
                if x == ids.last() {
                    assert(ids[ids.len() - 1] == x);
                } else {
                    let k = choose|k: int| 0 <= k < init.len() && init[k] == x;
                    assert(ids[k] == x);
                }
            }
        }
        assert(fetch_all(v, ids, FetchOutcome::Fetched).records =~= v.records.union(
            ids.to_set().difference(v.absent),
        ));
    }
}

/// Resuming is idempotent: once every pending id of `lo..=hi` has been
/// fetched successfully, nothing in that range is pending, the records are
/// the old ones and the fetched ones, and a second run over what is then
/// pending changes nothing.
pub proof fn lemma_resume_idempotent(v: CheckpointView, lo: u32, hi: u32, ids: Seq<u32>, again: Seq<u32>)
    requires
        v.wf(),
        ids.to_set() == v.pending(lo, hi),
        again.to_set() == fetch_all(v, ids, FetchOutcome::Fetched).pending(lo, hi),
    ensures
        fetch_all(v, ids, FetchOutcome::Fetched).pending(lo, hi) == Set::<u32>::empty(),
        fetch_all(v, ids, FetchOutcome::Fetched).records == v.records.union(v.pending(lo, hi)),
        fetch_all(v, ids, FetchOutcome::Fetched).wf(),
        fetch_all(fetch_all(v, ids, FetchOutcome::Fetched), again, FetchOutcome::Fetched) == fetch_all(
            v,
            ids,
            FetchOutcome::Fetched,
        ),
{
    let v1 = fetch_all(v, ids, FetchOutcome::Fetched);
    lemma_fetch_all_fetched(v, ids);
    assert(ids.to_set().difference(v.absent) =~= v.pending(lo, hi));
    assert(v1.pending(lo, hi) =~= Set::<u32>::empty());
    assert(v1.records.disjoint(v1.absent));
    if again.len() > 0 {
        assert(again.to_set().contains(again[0]));
    }
    assert(again.len() == 0);
}

} // verus!
