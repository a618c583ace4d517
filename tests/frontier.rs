use datura::{FrontierAction, FrontierSearch, ProbeOutcome};

/// Runs a search from `low` against a remote serving exactly `1..=k`;
/// returns the frontier and the number of probes.
fn search_dense(low: u32, k: u32) -> (u32, u32) {
    let mut s = FrontierSearch::new(low);
    let mut probes = 0u32;
    loop {
        match s.next_action() {
            FrontierAction::Finished(id) => return (id, probes),
            FrontierAction::Probe(id) => {
                probes += 1;
                assert!(probes < 10_000, "search does not end");
                let o = if id >= 1 && id <= k {
                    ProbeOutcome::Exists
                } else {
                    ProbeOutcome::Missing
                };
                s.record(o);
            }
        }
    }
}

fn log2_ceil(n: u64) -> u32 {
    64 - (n.max(1) - 1).leading_zeros()
}

#[test]
fn frontier_converges_to_k_from_zero() {
    for k in [0u32, 1, 2, 3, 499, 500, 501, 1000, 1234, 10_007, 250_000] {
        let (f, probes) = search_dense(0, k);
        assert_eq!(f, k, "k = {k}");
        let bound = k / 500 + log2_ceil(k as u64 + 500) + 2;
        assert!(probes <= bound, "k = {k}: {probes} probes, bound {bound}");
    }
}

#[test]
fn frontier_converges_from_stored_max() {
    assert_eq!(search_dense(1, 1).0, 1);
    assert_eq!(search_dense(1, 777).0, 777);
    assert_eq!(search_dense(800, 800).0, 800);
    assert_eq!(search_dense(800, 1801).0, 1801);
}

#[test]
fn frontier_nothing_added_keeps_last_max() {
    let mut s = FrontierSearch::new(4200);
    assert_eq!(s.next_action(), FrontierAction::Probe(4700));
    s.record(ProbeOutcome::Missing);
    let (f, _) = search_dense(4200, 4200);
    assert_eq!(f, 4200);
}

#[test]
fn frontier_first_probes() {
    let mut s = FrontierSearch::new(10);
    assert_eq!(s.next_action(), FrontierAction::Probe(510));
    s.record(ProbeOutcome::Exists);
    assert_eq!(s.next_action(), FrontierAction::Probe(1010));
    s.record(ProbeOutcome::Missing);
    // bisection between 10 and 1010
    assert_eq!(s.next_action(), FrontierAction::Probe(510));
    assert_eq!(s.frontier(), None);
}

#[test]
fn frontier_transport_error_retried_once() {
    let mut s = FrontierSearch::new(10);
    s.record(ProbeOutcome::TransportError);
    assert_eq!(s.next_action(), FrontierAction::Probe(510));
    s.record(ProbeOutcome::Exists);
    assert_eq!(s.next_action(), FrontierAction::Probe(1010));
    s.record(ProbeOutcome::TransportError);
    assert_eq!(s.next_action(), FrontierAction::Probe(1010));
    s.record(ProbeOutcome::TransportError);
    // a second transport error counts as missing: bisection starts
    assert_eq!(s.next_action(), FrontierAction::Probe(510));
}

#[test]
fn frontier_near_the_top_of_the_id_space() {
    assert_eq!(search_dense(u32::MAX - 10, u32::MAX).0, u32::MAX);
    assert_eq!(search_dense(u32::MAX - 10, u32::MAX - 3).0, u32::MAX - 3);
    let s = FrontierSearch::new(u32::MAX);
    assert_eq!(s.frontier(), Some(u32::MAX));
}
