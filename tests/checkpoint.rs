use datura::Checkpoint;

#[test]
fn record_and_absence_exclude_each_other() {
    let mut cp = Checkpoint::new();
    assert!(cp.put_record(5));
    assert!(!cp.put_absent(5));
    assert!(cp.put_absent(6));
    assert!(!cp.put_record(6));
    assert!(cp.has_record(5) && !cp.is_absent(5));
    assert!(cp.is_absent(6) && !cp.has_record(6));
}

#[test]
fn facts_are_written_once() {
    let mut cp = Checkpoint::new();
    assert!(cp.put_record(9));
    assert!(!cp.put_record(9));
    assert!(cp.put_absent(10));
    assert!(!cp.put_absent(10));
    assert!(cp.put_cover(9));
    assert!(!cp.put_cover(9));
}

#[test]
fn cover_needs_a_record() {
    let mut cp = Checkpoint::new();
    assert!(!cp.put_cover(3));
    assert!(!cp.cover_done(3));
    cp.put_absent(4);
    assert!(!cp.put_cover(4));
    cp.put_record(3);
    assert!(cp.put_cover(3));
    assert!(cp.cover_done(3));
}

#[test]
fn last_id_is_largest_record_or_one() {
    let mut cp = Checkpoint::new();
    assert_eq!(cp.last_id(), 1);
    cp.put_absent(50);
    assert_eq!(cp.last_id(), 1);
    cp.put_record(7);
    cp.put_record(30);
    cp.put_record(12);
    assert_eq!(cp.last_id(), 30);
}

#[test]
fn pending_ids_skip_records_and_absences() {
    let mut cp = Checkpoint::new();
    cp.put_record(2);
    cp.put_absent(4);
    cp.put_record(5);
    assert_eq!(cp.pending_ids(1, 7), vec![1, 3, 6, 7]);
    assert_eq!(cp.pending_ids(2, 2), Vec::<u32>::new());
    assert_eq!(cp.pending_ids(8, 3), Vec::<u32>::new());
    assert_eq!(cp.pending_ids(u32::MAX - 1, u32::MAX), vec![u32::MAX - 1, u32::MAX]);
}

#[test]
fn pending_covers_are_records_without_cover() {
    let mut cp = Checkpoint::new();
    assert_eq!(cp.pending_cover_ids(), Vec::<u32>::new());
    cp.put_record(8);
    cp.put_record(3);
    cp.put_record(0);
    cp.put_absent(4);
    cp.put_cover(3);
    assert_eq!(cp.pending_cover_ids(), vec![0, 8]);
}

#[test]
fn load_drops_contradicting_marks() {
    let cp = Checkpoint::load(&vec![1, 2, 3], &vec![3, 4], &vec![2, 5]);
    assert!(cp.has_record(3) && !cp.is_absent(3));
    assert!(cp.is_absent(4));
    assert!(cp.cover_done(2));
    assert!(!cp.cover_done(5));
    assert_eq!(cp.last_id(), 3);
    assert_eq!(cp.pending_ids(1, 6), vec![5, 6]);
}
