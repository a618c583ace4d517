use datura::FetchEvent::{BodyFailed, BodyHandled, Status, TransportError};
use datura::{classify_status, FetchAction, FetchAttempt, FetchEvent, FetchOutcome, ResponseClass};

fn run(events: &[FetchEvent]) -> FetchAction {
    let mut f = FetchAttempt::new();
    for e in events {
        f.record(*e);
    }
    f.next_action()
}

#[test]
fn status_classes() {
    assert_eq!(classify_status(200), ResponseClass::Success);
    assert_eq!(classify_status(204), ResponseClass::Success);
    assert_eq!(classify_status(299), ResponseClass::Success);
    assert_eq!(classify_status(199), ResponseClass::OtherFailure);
    assert_eq!(classify_status(300), ResponseClass::OtherFailure);
    assert_eq!(classify_status(404), ResponseClass::NotFound);
    assert_eq!(classify_status(403), ResponseClass::OtherFailure);
    assert_eq!(classify_status(503), ResponseClass::OtherFailure);
}

#[test]
fn retry_two_transport_errors_then_success() {
    assert_eq!(run(&[TransportError, TransportError]), FetchAction::Send);
    assert_eq!(run(&[TransportError, TransportError, Status(200)]), FetchAction::ReadBody);
    assert_eq!(
        run(&[TransportError, TransportError, Status(200), BodyHandled]),
        FetchAction::Finish(FetchOutcome::Fetched)
    );
}

#[test]
fn retry_three_transport_errors_fail() {
    assert_eq!(
        run(&[TransportError, TransportError, TransportError]),
        FetchAction::Finish(FetchOutcome::Failed)
    );
}

#[test]
fn attempts_are_counted() {
    let mut f = FetchAttempt::new();
    assert_eq!(f.attempts(), 1);
    f.record(FetchEvent::TransportError);
    assert_eq!(f.attempts(), 2);
    f.record(FetchEvent::TransportError);
    assert_eq!(f.attempts(), 3);
}

#[test]
fn not_found_and_other_statuses() {
    assert_eq!(run(&[Status(404)]), FetchAction::Finish(FetchOutcome::NotFound));
    assert_eq!(run(&[Status(500)]), FetchAction::Finish(FetchOutcome::Failed));
    assert_eq!(run(&[TransportError, Status(404)]), FetchAction::Finish(FetchOutcome::NotFound));
}

#[test]
fn body_failure_is_not_success() {
    assert_eq!(run(&[Status(200), BodyFailed]), FetchAction::Finish(FetchOutcome::Failed));
}

#[test]
fn events_out_of_place_are_ignored() {
    assert_eq!(run(&[BodyHandled]), FetchAction::Send);
    assert_eq!(run(&[Status(404), Status(200)]), FetchAction::Finish(FetchOutcome::NotFound));
}
