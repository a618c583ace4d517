//! The checkpoint facts of one entity kind: which ids have a stored record,
//! which are confirmed absent, and which have their cover done.
//!
//! Each fact is written at most once, an id never has both a record and an
//! absence mark, and a cover is only marked done for an id with a record.
//! The durable copy of these facts lives in the store; this is the model
//! that decides which writes are made.

use crate::cover::CoverOutcome;
use crate::fetch::FetchOutcome;
use std::collections::HashSet;
use vstd::prelude::*;

verus! {

broadcast use vstd::std_specs::hash::group_hash_axioms;

/// The checkpoint facts as sets of ids.
pub struct CheckpointView {
    pub records: Set<u32>,
    pub absent: Set<u32>,
    pub covers: Set<u32>,
}

/// `m` is the largest id of `s`.
pub open spec fn is_max(s: Set<u32>, m: u32) -> bool {
    s.contains(m) && forall|i: u32| s.contains(i) ==> i <= m
}

/// Every element is smaller than the next.
pub open spec fn strictly_increasing(s: Seq<u32>) -> bool {
    forall|a: int, b: int| 0 <= a < b < s.len() ==> s[a] < s[b]
}

impl CheckpointView {
    /// No id is both stored and absent, and covers are done only for stored ids.
    pub open spec fn wf(self) -> bool {
        &&& self.records.disjoint(self.absent)
        &&& self.covers.subset_of(self.records)
    }

    /// The ids of `lo..=hi` that have neither a record nor an absence mark.
    pub open spec fn pending(self, lo: u32, hi: u32) -> Set<u32> {
        Set::new(
            |i: u32| lo <= i && i <= hi && !self.records.contains(i) && !self.absent.contains(i),
        )
    }

    /// The stored ids whose cover is not done.
    pub open spec fn pending_covers(self) -> Set<u32> {
        self.records.difference(self.covers)
    }

    /// Whether a record for `id` would be a new fact.
    pub open spec fn can_record(self, id: u32) -> bool {
        !self.records.contains(id) && !self.absent.contains(id)
    }

    /// Whether an absence mark for `id` would be a new fact.
    pub open spec fn can_mark_absent(self, id: u32) -> bool {
        !self.records.contains(id) && !self.absent.contains(id)
    }

    /// Whether a done cover for `id` would be a new fact that keeps covers within records.
    pub open spec fn can_mark_cover(self, id: u32) -> bool {
        self.records.contains(id) && !self.covers.contains(id)
    }

    /// The facts with the record of `id` added.
    pub open spec fn with_record(self, id: u32) -> Self {
        CheckpointView { records: self.records.insert(id), ..self }
    }

    /// The facts with the absence mark of `id` added.
    pub open spec fn with_absent(self, id: u32) -> Self {
        CheckpointView { absent: self.absent.insert(id), ..self }
    }

    /// The facts with the cover of `id` marked done.
    pub open spec fn with_cover(self, id: u32) -> Self {
        CheckpointView { covers: self.covers.insert(id), ..self }
    }

    /// The facts after a fetch of the record of `id` ended with `o`: a
    /// fetched record is stored, a 404 is marked absent, a failure changes
    /// nothing. A fact already decided is never written again.
    pub open spec fn after_fetch(self, id: u32, o: FetchOutcome) -> Self {
        match o {
            FetchOutcome::Fetched => if self.can_record(id) {
                self.with_record(id)
            } else {
                self
            },
            FetchOutcome::NotFound => if self.can_mark_absent(id) {
                self.with_absent(id)
            } else {
                self
            },
            FetchOutcome::Failed => self,
        }
    }

    /// The facts after the cover step of `id` ended with `o`: a saved
    /// cover, or a record found to have none, marks the cover done.
    pub open spec fn after_cover(self, id: u32, o: CoverOutcome) -> Self {
        match o {
            CoverOutcome::Failed => self,
            _ => if self.can_mark_cover(id) {
                self.with_cover(id)
            } else {
                self
            },
        }
    }
}

/// The checkpoint facts of one entity kind.
pub struct Checkpoint {
    records: HashSet<u32>,
    absent: HashSet<u32>,
    covers: HashSet<u32>,
    last: Option<u32>,
}

impl View for Checkpoint {
    type V = CheckpointView;

    closed spec fn view(&self) -> CheckpointView {
        CheckpointView { records: self.records@, absent: self.absent@, covers: self.covers@ }
    }
}

impl Checkpoint {
    /// The facts are consistent, and the cached largest record id is right.
    pub closed spec fn wf(&self) -> bool {
        &&& self@.wf()
        &&& match self.last {
            None => self.records@ =~= Set::<u32>::empty(),
            Some(m) => is_max(self.records@, m),
        }
    }

    /// No facts yet.
    pub fn new() -> (r: Self)
        ensures
            r.wf(),
            r@.records == Set::<u32>::empty(),
            r@.absent == Set::<u32>::empty(),
            r@.covers == Set::<u32>::empty(),
    {
        Checkpoint {
            records: HashSet::new(),
            absent: HashSet::new(),
            covers: HashSet::new(),
            last: None,
        }
    }

    /// The facts read back from the three tables of the store. An absence
    /// mark for a stored id, or a cover mark for an id without a record, is
    /// left out.
    pub fn load(records: &Vec<u32>, absent: &Vec<u32>, covers: &Vec<u32>) -> (r: Self)
        ensures
            r.wf(),
            r@.records == records@.to_set(),
            r@.absent == absent@.to_set().difference(records@.to_set()),
            r@.covers == covers@.to_set().intersect(records@.to_set()),
    {
        let mut cp = Checkpoint::new();
        let mut i: usize = 0;
        while i < records.len()
            invariant
                cp.wf(),
                i <= records@.len(),
                cp@.records == records@.subrange(0, i as int).to_set(),
                cp@.absent == Set::<u32>::empty(),
                cp@.covers == Set::<u32>::empty(),
            decreases records@.len() - i,
        {
            cp.put_record(records[i]);
            proof {
                lemma_prefix_set_step(records@, i as int);
            }
            i = i + 1;
        }
        assert(records@.subrange(0, records@.len() as int) =~= records@);
        let mut i: usize = 0;
        while i < absent.len()
            invariant
                cp.wf(),
                i <= absent@.len(),
                cp@.records == records@.to_set(),
                cp@.absent == absent@.subrange(0, i as int).to_set().difference(records@.to_set()),
                cp@.covers == Set::<u32>::empty(),
            decreases absent@.len() - i,
        {
            cp.put_absent(absent[i]);
            proof {
                lemma_prefix_set_step(absent@, i as int);
                assert(cp@.absent =~= absent@.subrange(0, i + 1).to_set().difference(records@.to_set()));
            }
            i = i + 1;
        }
        assert(absent@.subrange(0, absent@.len() as int) =~= absent@);
        let mut i: usize = 0;
        while i < covers.len()
            invariant
                cp.wf(),
                i <= covers@.len(),
                cp@.records == records@.to_set(),
                cp@.absent == absent@.to_set().difference(records@.to_set()),
                cp@.covers == covers@.subrange(0, i as int).to_set().intersect(records@.to_set()),
            decreases covers@.len() - i,
        {
            cp.put_cover(covers[i]);
            proof {
                lemma_prefix_set_step(covers@, i as int);
                assert(cp@.covers =~= covers@.subrange(0, i + 1).to_set().intersect(records@.to_set()));
            }
            i = i + 1;
        }
        assert(covers@.subrange(0, covers@.len() as int) =~= covers@);
        cp
    }

    /// Whether the record of `id` is stored.
    pub fn has_record(&self, id: u32) -> (r: bool)
        ensures
            r == self@.records.contains(id),
    {
        self.records.contains(&id)
    }

    /// Whether `id` is confirmed absent.
    pub fn is_absent(&self, id: u32) -> (r: bool)
        ensures
            r == self@.absent.contains(id),
    {
        self.absent.contains(&id)
    }

    /// Whether the cover of `id` is done.
    pub fn cover_done(&self, id: u32) -> (r: bool)
        ensures
            r == self@.covers.contains(id),
    {
        self.covers.contains(&id)
    }

    /// Records that the record of `id` is stored, unless `id` already has a
    /// record or an absence mark. Says whether the fact was new.
    pub fn put_record(&mut self, id: u32) -> (r: bool)
        requires
            old(self).wf(),
        ensures
            final(self).wf(),
            r == old(self)@.can_record(id),
            final(self)@ == (if r {
                old(self)@.with_record(id)
            } else {
                old(self)@
            }),
    {
        if self.records.contains(&id) || self.absent.contains(&id) {
            return false;
        }
        self.records.insert(id);
        match self.last {
            Some(m) => {
                if id > m {
                    self.last = Some(id);
                }
            },
            None => {
                self.last = Some(id);
            },
        }
        assert(self@ =~= old(self)@.with_record(id));
        true
    }

    /// Records that `id` is confirmed absent, unless `id` already has a
    /// record or an absence mark. Says whether the fact was new.
    pub fn put_absent(&mut self, id: u32) -> (r: bool)
        requires
            old(self).wf(),
        ensures
            final(self).wf(),
            r == old(self)@.can_mark_absent(id),
            final(self)@ == (if r {
                old(self)@.with_absent(id)
            } else {
                old(self)@
            }),
    {
        if self.records.contains(&id) || self.absent.contains(&id) {
            return false;
        }
        self.absent.insert(id);
        assert(self@ =~= old(self)@.with_absent(id));
        true
    }

    /// Records that the cover of `id` is done, if `id` has a record and its
    /// cover is not done yet. Says whether the fact was new.
    pub fn put_cover(&mut self, id: u32) -> (r: bool)
        requires
            old(self).wf(),
        ensures
            final(self).wf(),
            r == old(self)@.can_mark_cover(id),
            final(self)@ == (if r {
                old(self)@.with_cover(id)
            } else {
                old(self)@
            }),
    {
        if !self.records.contains(&id) || self.covers.contains(&id) {
            return false;
        }
        self.covers.insert(id);
        assert(self@ =~= old(self)@.with_cover(id));
        true
    }

    /// Takes in how the fetch of the record of `id` ended. Says whether the
    /// outcome is a new fact to persist.
    pub fn apply_fetch(&mut self, id: u32, o: FetchOutcome) -> (r: bool)
        requires
            old(self).wf(),
        ensures
            final(self).wf(),
            final(self)@ == old(self)@.after_fetch(id, o),
            r == (final(self)@ != old(self)@),
    {
        let r = match o {
            FetchOutcome::Fetched => self.put_record(id),
            FetchOutcome::NotFound => self.put_absent(id),
            FetchOutcome::Failed => false,
        };
        proof {
            if r {
                match o {
                    FetchOutcome::Fetched => assert(self@.records.contains(id)),
                    _ => assert(self@.absent.contains(id)),
                }
            }
        }
        r
    }

    /// Takes in how the cover step of `id` ended. Says whether the outcome
    /// is a new fact to persist.
    pub fn apply_cover(&mut self, id: u32, o: CoverOutcome) -> (r: bool)
        requires
            old(self).wf(),
        ensures
            final(self).wf(),
            final(self)@ == old(self)@.after_cover(id, o),
            r == (final(self)@ != old(self)@),
    {
        let r = match o {
            CoverOutcome::Failed => false,
            _ => self.put_cover(id),
        };
        proof {
            if r {
                assert(self@.covers.contains(id));
            }
        }
        r
    }

    /// The largest stored id, or 1 where nothing is stored: where the
    /// frontier search starts.
    pub fn last_id(&self) -> (r: u32)
        requires
            self.wf(),
        ensures
            self@.records.is_empty() ==> r == 1,
            !self@.records.is_empty() ==> is_max(self@.records, r),
    {
        match self.last {
            Some(m) => m,
            None => 1,
        }
    }

    /// The pending ids of `lo..=hi`, in increasing order.
    pub fn pending_ids(&self, lo: u32, hi: u32) -> (r: Vec<u32>)
        requires
            self.wf(),
        ensures
            strictly_increasing(r@),
            r@.to_set() == self@.pending(lo, hi),
    {
        let mut r: Vec<u32> = Vec::new();
        if lo > hi {
            assert(r@.to_set() =~= self@.pending(lo, hi));
            return r;
        }
        let mut i: u32 = lo;
        loop
            invariant
                lo <= i <= hi,
                strictly_increasing(r@),
                forall|k: int| 0 <= k < r@.len() ==> r@[k] < i,
                forall|x: u32|
                    r@.contains(x) <==> (lo <= x && x < i && !self@.records.contains(x)
                        && !self@.absent.contains(x)),
            decreases hi - i,
        {
            let ghost before = r@;
            if !self.records.contains(&i) && !self.absent.contains(&i) {
                r.push(i);
                assert(r@[r@.len() - 1] == i);
                assert forall|x: u32| r@.contains(x) <==> (before.contains(x) || x == i) by {
                    if before.contains(x) {
                        let k = choose|k: int| 0 <= k < before.len() && before[k] == x;
                        assert(r@[k] == x);
                    }
                }
            }
            assert forall|x: u32|
                r@.contains(x) <==> (lo <= x && x <= i && !self@.records.contains(x)
                    && !self@.absent.contains(x)) by {
                if x == i {
                } else {
                    assert(r@.contains(x) <==> before.contains(x));
                }
            }
            if i == hi {
                assert(r@.to_set() =~= self@.pending(lo, hi));
                return r;
            }
            i = i + 1;
        }
    }

    /// The stored ids whose cover is not done, in increasing order.
    pub fn pending_cover_ids(&self) -> (r: Vec<u32>)
        requires
            self.wf(),
        ensures
            strictly_increasing(r@),
            r@.to_set() == self@.pending_covers(),
    {
        let mut r: Vec<u32> = Vec::new();
        let last = match self.last {
            Some(m) => m,
            None => {
                assert(r@.to_set() =~= self@.pending_covers());
                return r;
            },
        };
        let mut i: u32 = 0;
        loop
            invariant
                i <= last,
                is_max(self.records@, last),
                strictly_increasing(r@),
                forall|k: int| 0 <= k < r@.len() ==> r@[k] < i,
                forall|x: u32|
                    r@.contains(x) <==> (x < i && self@.records.contains(x) && !self@.covers.contains(x)),
            decreases last - i,
        {
            let ghost before = r@;
            if self.records.contains(&i) && !self.covers.contains(&i) {
                r.push(i);
                assert(r@[r@.len() - 1] == i);
                assert forall|x: u32| r@.contains(x) <==> (before.contains(x) || x == i) by {
                    if before.contains(x) {
                        let k = choose|k: int| 0 <= k < before.len() && before[k] == x;
                        assert(r@[k] == x);
                    }
                }
            }
            assert forall|x: u32|
                r@.contains(x) <==> (x <= i && self@.records.contains(x) && !self@.covers.contains(x)) by {
                if x != i {
                    assert(r@.contains(x) <==> before.contains(x));
                }
            }
            if i == last {
                assert forall|x: u32| self@.records.contains(x) implies x <= last by {}
                assert(r@.to_set() =~= self@.pending_covers());
                return r;
            }
            i = i + 1;
        }
    }
}

proof fn lemma_prefix_set_step(s: Seq<u32>, i: int)
    requires
        0 <= i < s.len(),
    ensures
        s.subrange(0, i + 1).to_set() == s.subrange(0, i).to_set().insert(s[i]),
{
    let a = s.subrange(0, i);
    let b = s.subrange(0, i + 1);
    assert forall|x: u32| b.to_set().contains(x) implies a.to_set().insert(s[i]).contains(x) by {
        let k = choose|k: int| 0 <= k < b.len() && b[k] == x;
        if k < i {
            assert(a[k] == x);
        }
    }
    assert forall|x: u32| a.to_set().insert(s[i]).contains(x) implies b.to_set().contains(x) by {
        if x == s[i] {
            assert(b[i] == x);
        } else {
            let k = choose|k: int| 0 <= k < a.len() && a[k] == x;
            assert(b[k] == x);
        }
    }
    assert(b.to_set() =~= a.to_set().insert(s[i]));
}

/// Whatever was written, a well-formed checkpoint never holds both a record
/// and an absence mark for an id, and holds a done cover only for an id
/// with a record.
pub proof fn lemma_checkpoint_exclusive(cp: &Checkpoint, id: u32)
    requires
        cp.wf(),
    ensures
        !(cp@.records.contains(id) && cp@.absent.contains(id)),
        cp@.covers.contains(id) ==> cp@.records.contains(id),
{
}

} // verus!
