use datura::orchestrator::{CrawlStage, CrawlStep, KindCrawl};
use datura::{Checkpoint, CoverOutcome, FetchOutcome, ProbeOutcome, TableWrite};

/// Runs a whole crawl against a remote that serves `1..=k` except the ids
/// in `gone` (404) and fails the fetches in `flaky`. Completes each step as
/// soon as it starts. Returns the writes and the final facts.
fn run(cp: Checkpoint, k: u32, gone: &[u32], flaky: &[u32], capacity: usize) -> (Vec<TableWrite>, Checkpoint, Option<u32>) {
    run_range(cp, k, gone, flaky, capacity, 1, None)
}

fn run_range(
    cp: Checkpoint,
    k: u32,
    gone: &[u32],
    flaky: &[u32],
    capacity: usize,
    min_id: u32,
    max_id: Option<u32>,
) -> (Vec<TableWrite>, Checkpoint, Option<u32>) {
    let mut crawl = KindCrawl::new(cp, capacity, min_id, max_id);
    let mut writes = Vec::new();
    let mut steps = 0;
    loop {
        steps += 1;
        assert!(steps < 100_000);
        match crawl.next_step() {
            CrawlStep::Probe(id) => {
                assert_eq!(crawl.stage(), CrawlStage::Discovering);
                let o = if id >= 1 && id <= k { ProbeOutcome::Exists } else { ProbeOutcome::Missing };
                crawl.record_probe(o);
            }
            CrawlStep::Fetch(id) => {
                assert_eq!(crawl.stage(), CrawlStage::Fetching);
                let o = if gone.contains(&id) {
                    FetchOutcome::NotFound
                } else if flaky.contains(&id) {
                    FetchOutcome::Failed
                } else {
                    FetchOutcome::Fetched
                };
                writes.extend(crawl.record_fetch(id, o));
            }
            CrawlStep::Cover(id) => {
                assert_eq!(crawl.stage(), CrawlStage::Covering);
                let o = if id % 2 == 0 { CoverOutcome::NoCover } else { CoverOutcome::Saved };
                writes.extend(crawl.record_cover(id, o));
            }
            CrawlStep::Wait => panic!("nothing is in flight"),
            CrawlStep::Finished => break,
        }
    }
    assert_eq!(crawl.stage(), CrawlStage::Finished);
    let frontier = crawl.frontier();
    (writes, crawl.into_checkpoint(), frontier)
}

#[test]
fn crawl_runs_the_phases_in_order() {
    let mut cp = Checkpoint::new();
    cp.put_record(1);
    cp.put_record(2);
    cp.put_cover(2);
    cp.put_absent(3);
    let (writes, cp, frontier) = run(cp, 8, &[6], &[7], 3);
    assert_eq!(frontier, Some(8));
    assert_eq!(
        writes,
        vec![
            TableWrite::PutRecord(4),
            TableWrite::PutRecord(5),
            TableWrite::MarkAbsent(6),
            TableWrite::PutRecord(8),
            TableWrite::MarkCover(1),
            TableWrite::MarkCover(4),
            TableWrite::MarkCover(5),
            TableWrite::MarkCover(8),
        ]
    );
    assert_eq!(cp.pending_ids(1, 8), vec![7]);
    assert_eq!(cp.pending_cover_ids(), Vec::<u32>::new());
    for id in 1..=8 {
        assert!(!(cp.has_record(id) && cp.is_absent(id)));
        assert!(!cp.cover_done(id) || cp.has_record(id));
    }
}

#[test]
fn crawl_twice_writes_nothing_the_second_time() {
    let (first, cp, _) = run(Checkpoint::new(), 20, &[], &[], 4);
    assert_eq!(first.len(), 40);
    let (second, cp, frontier) = run(cp, 20, &[], &[], 4);
    assert_eq!(frontier, Some(20));
    assert!(second.is_empty());
    assert_eq!(cp.pending_ids(1, 20), Vec::<u32>::new());
}

#[test]
fn crawl_keeps_capacity_in_flight() {
    let mut crawl = KindCrawl::new(Checkpoint::new(), 2, 1, None);
    // discovery against a remote that serves 1..=5
    let mut launched = Vec::new();
    loop {
        match crawl.next_step() {
            CrawlStep::Probe(id) => crawl.record_probe(if id <= 5 {
                ProbeOutcome::Exists
            } else {
                ProbeOutcome::Missing
            }),
            CrawlStep::Fetch(id) => launched.push(id),
            CrawlStep::Wait => break,
            other => panic!("unexpected step {other:?}"),
        }
    }
    assert_eq!(launched, vec![1, 2]);
    assert_eq!(crawl.record_fetch(1, FetchOutcome::Fetched), Some(TableWrite::PutRecord(1)));
    assert_eq!(crawl.next_step(), CrawlStep::Fetch(3));
    assert_eq!(crawl.next_step(), CrawlStep::Wait);
    // reports that do not fit the phase change nothing
    assert_eq!(crawl.record_cover(1, CoverOutcome::Saved), None);
    assert_eq!(crawl.record_fetch(9, FetchOutcome::Fetched), None);
    assert_eq!(crawl.stage(), CrawlStage::Fetching);
}

#[test]
fn crawl_keeps_to_the_configured_range() {
    let (writes, cp, frontier) = run_range(Checkpoint::new(), 30, &[], &[], 5, 10, Some(14));
    assert_eq!(frontier, Some(30));
    let records: Vec<TableWrite> = writes
        .iter()
        .copied()
        .filter(|w| matches!(w, TableWrite::PutRecord(_)))
        .collect();
    assert_eq!(
        records,
        (10..=14).map(TableWrite::PutRecord).collect::<Vec<TableWrite>>()
    );
    assert!(!cp.has_record(9) && !cp.has_record(15));
    let (_, _, frontier) = run_range(Checkpoint::new(), 30, &[], &[], 5, 1, Some(100));
    assert_eq!(frontier, Some(30));
}

#[test]
fn crawl_with_nothing_pending_goes_straight_to_covers() {
    let mut cp = Checkpoint::new();
    for id in 1..=3 {
        cp.put_record(id);
    }
    let mut crawl = KindCrawl::new(cp, 2, 1, None);
    loop {
        match crawl.next_step() {
            CrawlStep::Probe(id) => crawl.record_probe(if id <= 3 {
                ProbeOutcome::Exists
            } else {
                ProbeOutcome::Missing
            }),
            CrawlStep::Cover(id) => {
                assert_eq!(id, 1);
                break;
            }
            other => panic!("unexpected step {other:?}"),
        }
    }
    assert_eq!(crawl.stage(), CrawlStage::Covering);
}
