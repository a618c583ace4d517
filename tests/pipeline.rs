use datura::{
    Batch, Checkpoint, CoverOutcome, CoverPipeline, FetchOutcome, FetchPipeline, TableWrite,
};

#[test]
fn batch_never_exceeds_capacity() {
    for cap in [1usize, 2, 3, 7] {
        let ids: Vec<u32> = (1..=20).collect();
        let mut b = Batch::new(ids, cap);
        let mut launched = Vec::new();
        let mut max_seen = 0;
        loop {
            while let Some(id) = b.launch() {
                launched.push(id);
                max_seen = max_seen.max(b.in_flight());
                assert!(b.in_flight() <= cap);
            }
            if b.is_done() {
                break;
            }
            // complete the oldest in flight
            let oldest = launched[launched.len() - b.in_flight()];
            assert!(b.complete(oldest));
        }
        assert_eq!(max_seen, cap);
        assert_eq!(launched, (1..=20).collect::<Vec<u32>>());
    }
}

#[test]
fn batch_refuses_unknown_completion() {
    let mut b = Batch::new(vec![4, 5], 1);
    assert_eq!(b.launch(), Some(4));
    assert_eq!(b.launch(), None);
    assert!(!b.complete(5));
    assert!(b.complete(4));
    assert!(!b.complete(4));
    assert_eq!(b.launch(), Some(5));
}

#[test]
fn scenario_two_hits_and_one_missing() {
    let cp = Checkpoint::new();
    let mut p = FetchPipeline::new(cp, 5, 7, 100);
    assert_eq!(p.launch(), Some(5));
    assert_eq!(p.launch(), Some(6));
    assert_eq!(p.launch(), Some(7));
    assert_eq!(p.launch(), None);
    assert_eq!(p.in_flight(), 3);
    // completions in any order
    assert_eq!(p.complete(7, FetchOutcome::Fetched), Some(TableWrite::PutRecord(7)));
    assert_eq!(p.complete(6, FetchOutcome::NotFound), Some(TableWrite::MarkAbsent(6)));
    assert_eq!(p.complete(5, FetchOutcome::Fetched), Some(TableWrite::PutRecord(5)));
    assert!(p.is_done());
    let cp = p.into_checkpoint();
    for id in [5, 7] {
        assert!(cp.has_record(id) && !cp.is_absent(id));
    }
    assert!(cp.is_absent(6) && !cp.has_record(6));
}

#[test]
fn failures_write_nothing_and_stay_pending() {
    let mut p = FetchPipeline::new(Checkpoint::new(), 1, 3, 2);
    assert_eq!(p.launch(), Some(1));
    assert_eq!(p.launch(), Some(2));
    assert_eq!(p.launch(), None);
    assert_eq!(p.complete(1, FetchOutcome::Failed), None);
    assert_eq!(p.launch(), Some(3));
    assert_eq!(p.complete(2, FetchOutcome::Fetched), Some(TableWrite::PutRecord(2)));
    assert_eq!(p.complete(3, FetchOutcome::Failed), None);
    assert_eq!(p.complete(3, FetchOutcome::Fetched), None);
    assert!(p.is_done());
    let cp = p.into_checkpoint();
    assert_eq!(cp.pending_ids(1, 3), vec![1, 3]);
}

#[test]
fn resume_after_full_success_is_a_no_op() {
    let mut cp = Checkpoint::new();
    cp.put_record(2);
    let mut p = FetchPipeline::new(cp, 1, 4, 10);
    let mut writes = Vec::new();
    while let Some(id) = p.launch() {
        writes.push(p.complete(id, FetchOutcome::Fetched));
    }
    assert_eq!(
        writes,
        vec![
            Some(TableWrite::PutRecord(1)),
            Some(TableWrite::PutRecord(3)),
            Some(TableWrite::PutRecord(4)),
        ]
    );
    let cp = p.into_checkpoint();
    let mut again = FetchPipeline::new(cp, 1, 4, 10);
    assert_eq!(again.launch(), None);
    assert!(again.is_done());
    let cp = again.into_checkpoint();
    for id in 1..=4 {
        assert!(cp.has_record(id));
    }
}

#[test]
fn cover_pipeline_marks_saved_and_coverless() {
    let mut cp = Checkpoint::new();
    for id in [1, 2, 3] {
        cp.put_record(id);
    }
    cp.put_cover(2);
    let mut p = CoverPipeline::new(cp, 1);
    assert_eq!(p.launch(), Some(1));
    assert_eq!(p.launch(), None);
    assert_eq!(p.complete(1, CoverOutcome::Saved), Some(TableWrite::MarkCover(1)));
    assert_eq!(p.launch(), Some(3));
    assert_eq!(p.complete(3, CoverOutcome::NoCover), Some(TableWrite::MarkCover(3)));
    assert!(p.is_done());
    let cp = p.into_checkpoint();
    assert_eq!(cp.pending_cover_ids(), Vec::<u32>::new());
}

#[test]
fn cover_failure_stays_pending() {
    let mut cp = Checkpoint::new();
    cp.put_record(9);
    let mut p = CoverPipeline::new(cp, 4);
    assert_eq!(p.launch(), Some(9));
    assert_eq!(p.complete(9, CoverOutcome::Failed), None);
    let cp = p.into_checkpoint();
    assert_eq!(cp.pending_cover_ids(), vec![9]);
}
