//! One fetch of one resource: a fixed retry budget for transport errors,
//! and the classification of the reply that finally comes.
//!
//! A fetch is a state machine. The caller sends the request when asked,
//! reports what came back, reads and handles the body when asked, and ends
//! with the outcome that the fetch names.

use vstd::prelude::*;

verus! {

/// Requests made for one resource before a transport error is given up on:
/// the first attempt and two retries.
pub const MAX_ATTEMPTS: u8 = 3;

/// The class of an HTTP status, as the crawl tells them apart.
#[derive(Clone, Copy, PartialEq, Eq, Structural, Debug)]
pub enum ResponseClass {
    /// Any 2xx status.
    Success,
    /// 404: the remote confirms that the entity does not exist.
    NotFound,
    /// Any other status: the remote did not serve it this time.
    OtherFailure,
}

/// How a fetch ended.
#[derive(Clone, Copy, PartialEq, Eq, Structural, Debug)]
pub enum FetchOutcome {
    /// A success status, and the body was read and handled.
    Fetched,
    /// The remote answered 404.
    NotFound,
    /// Anything else: the resource stays pending for a later run.
    Failed,
}

/// What happened since the fetch last asked for something.
#[derive(Clone, Copy, PartialEq, Eq, Structural, Debug)]
pub enum FetchEvent {
    /// The request got no reply (timeout, connection failure).
    TransportError,
    /// The request got a reply with this status.
    Status(u16),
    /// The body was read and handled (extracted and encoded, or written out).
    BodyHandled,
    /// Reading or handling the body failed.
    BodyFailed,
}

/// What the fetch asks of its caller next.
#[derive(Clone, Copy, PartialEq, Eq, Structural, Debug)]
pub enum FetchAction {
    /// Send the request.
    Send,
    /// Read the body of the reply and handle it.
    ReadBody,
    /// The fetch is over.
    Finish(FetchOutcome),
}

/// The class of a status code.
pub open spec fn class_of(status: u16) -> ResponseClass {
    if 200 <= status && status < 300 {
        ResponseClass::Success
    } else if status == 404 {
        ResponseClass::NotFound
    } else {
        ResponseClass::OtherFailure
    }
}

/// Classifies an HTTP status: 2xx, 404, or anything else.
pub fn classify_status(status: u16) -> (r: ResponseClass)
    ensures
        r == class_of(status),
{
    if 200 <= status && status < 300 {
        ResponseClass::Success
    } else if status == 404 {
        ResponseClass::NotFound
    } else {
        ResponseClass::OtherFailure
    }
}

/// The stage of one fetch.
#[derive(Clone, Copy, PartialEq, Eq, Structural, Debug)]
pub enum FetchStage {
    /// A request is to be sent, or awaits its reply.
    Requesting,
    /// A success reply came; its body is being read.
    Reading,
    /// Over, with this outcome.
    Over(FetchOutcome),
}

/// The state of one fetch.
#[derive(Clone, Copy, Debug)]
pub struct FetchAttempt {
    /// Requests sent so far, the current one included.
    pub attempts: u8,
    /// The stage of the fetch.
    pub stage: FetchStage,
}

impl FetchAttempt {
    /// Requests sent so far, the current one included.
    pub open spec fn attempts_spec(self) -> u8 {
        self.attempts
    }

    /// The stage of the fetch.
    pub open spec fn stage_spec(self) -> FetchStage {
        self.stage
    }

    /// The request count stays within the budget.
    pub open spec fn wf(self) -> bool {
        1 <= self.attempts <= MAX_ATTEMPTS
    }

    /// A fetch whose first request is about to be sent.
    pub open spec fn initial() -> Self {
        FetchAttempt { attempts: 1, stage: FetchStage::Requesting }
    }

    /// What the fetch asks for in this state.
    pub open spec fn action(self) -> FetchAction {
        match self.stage {
            FetchStage::Requesting => FetchAction::Send,
            FetchStage::Reading => FetchAction::ReadBody,
            FetchStage::Over(o) => FetchAction::Finish(o),
        }
    }

    /// The state after an event. Events that do not fit the stage leave it as it is.
    pub open spec fn step(self, e: FetchEvent) -> Self {
        match (self.stage, e) {
            (FetchStage::Requesting, FetchEvent::TransportError) => if self.attempts < MAX_ATTEMPTS {
                FetchAttempt { attempts: (self.attempts + 1) as u8, ..self }
            } else {
                FetchAttempt { stage: FetchStage::Over(FetchOutcome::Failed), ..self }
            },
            (FetchStage::Requesting, FetchEvent::Status(code)) => match class_of(code) {
                ResponseClass::Success => FetchAttempt { stage: FetchStage::Reading, ..self },
                ResponseClass::NotFound => FetchAttempt {
                    stage: FetchStage::Over(FetchOutcome::NotFound),
                    ..self
                },
                ResponseClass::OtherFailure => FetchAttempt {
                    stage: FetchStage::Over(FetchOutcome::Failed),
                    ..self
                },
            },
            (FetchStage::Reading, FetchEvent::BodyHandled) => FetchAttempt {
                stage: FetchStage::Over(FetchOutcome::Fetched),
                ..self
            },
            (FetchStage::Reading, FetchEvent::BodyFailed) => FetchAttempt {
                stage: FetchStage::Over(FetchOutcome::Failed),
                ..self
            },
            _ => self,
        }
    }

    /// A fetch whose first request is about to be sent.
    pub fn new() -> (r: Self)
        ensures
            r == Self::initial(),
            r.wf(),
    {
        FetchAttempt { attempts: 1, stage: FetchStage::Requesting }
    }

    /// What to do next.
    pub fn next_action(&self) -> (r: FetchAction)
        ensures
            r == self.action(),
    {
        match self.stage {
            FetchStage::Requesting => FetchAction::Send,
            FetchStage::Reading => FetchAction::ReadBody,
            FetchStage::Over(o) => FetchAction::Finish(o),
        }
    }

    /// Takes in what happened: a transport error is retried while the
    /// budget lasts; a status is classified; a body is handled or not.
    pub fn record(&mut self, e: FetchEvent)
        requires
            old(self).wf(),
        ensures
            *final(self) == old(self).step(e),
            final(self).wf(),
    {
        match (self.stage, e) {
            (FetchStage::Requesting, FetchEvent::TransportError) => {
                if self.attempts < MAX_ATTEMPTS {
                    self.attempts = self.attempts + 1;
                } else {
                    self.stage = FetchStage::Over(FetchOutcome::Failed);
                }
            },
            (FetchStage::Requesting, FetchEvent::Status(code)) => {
                self.stage = match classify_status(code) {
                    ResponseClass::Success => FetchStage::Reading,
                    ResponseClass::NotFound => FetchStage::Over(FetchOutcome::NotFound),
                    ResponseClass::OtherFailure => FetchStage::Over(FetchOutcome::Failed),
                };
            },
            (FetchStage::Reading, FetchEvent::BodyHandled) => {
                self.stage = FetchStage::Over(FetchOutcome::Fetched);
            },
            (FetchStage::Reading, FetchEvent::BodyFailed) => {
                self.stage = FetchStage::Over(FetchOutcome::Failed);
            },
            _ => {},
        }
    }

    /// How many requests have been sent, the current one included.
    pub fn attempts(&self) -> (r: u8)
        ensures
            r == self.attempts_spec(),
    {
        self.attempts
    }
}

/// The fetch after a sequence of events, from its first request on.
pub open spec fn run_fetch(events: Seq<FetchEvent>) -> FetchAttempt
    decreases events.len(),
{
    if events.len() == 0 {
        FetchAttempt::initial()
    } else {
        run_fetch(events.drop_last()).step(events.last())
    }
}

/// Two transport errors are retried: a success on the third request, with
/// its body handled, ends the fetch as fetched; a third transport error
/// ends it as failed.
pub proof fn lemma_retry_budget(code: u16)
    requires
        class_of(code) == ResponseClass::Success,
    ensures
        run_fetch(seq![FetchEvent::TransportError, FetchEvent::TransportError]).action()
            == FetchAction::Send,
        run_fetch(
            seq![
                FetchEvent::TransportError,
                FetchEvent::TransportError,
                FetchEvent::Status(code),
                FetchEvent::BodyHandled,
            ],
        ).action() == FetchAction::Finish(FetchOutcome::Fetched),
        run_fetch(
            seq![FetchEvent::TransportError, FetchEvent::TransportError, FetchEvent::TransportError],
        ).action() == FetchAction::Finish(FetchOutcome::Failed),
{
    let e = FetchEvent::TransportError;
    let s0 = seq![e];
    let s1 = seq![e, e];
    let s2 = seq![e, e, e];
    let s3 = seq![e, e, FetchEvent::Status(code)];
    let s4 = seq![e, e, FetchEvent::Status(code), FetchEvent::BodyHandled];
    assert(s0.drop_last() =~= Seq::<FetchEvent>::empty());
    assert(s1.drop_last() =~= s0);
    assert(s2.drop_last() =~= s1);
    assert(s3.drop_last() =~= s1);
    assert(s4.drop_last() =~= s3);
    assert(run_fetch(Seq::<FetchEvent>::empty()) == FetchAttempt::initial());
    assert(s0.last() == e);
    let f0 = run_fetch(s0);
    assert(f0 == FetchAttempt::initial().step(e));
    let f1 = run_fetch(s1);
    assert(f1 == f0.step(e));
    assert(f1.attempts_spec() == 3 && f1.stage_spec() == FetchStage::Requesting);
    assert(run_fetch(s2) == f1.step(e));
    let f3 = run_fetch(s3);
    assert(f3 == f1.step(FetchEvent::Status(code)));
    assert(f3.stage_spec() == FetchStage::Reading);
    assert(run_fetch(s4) == f3.step(FetchEvent::BodyHandled));
}

/// A reply whose status is neither 2xx nor 404 ends the fetch as failed,
/// with no further request; so does a success reply whose body fails.
pub proof fn lemma_fetch_failures(f: FetchAttempt, code: u16)
    requires
        f.wf(),
        f.stage == FetchStage::Requesting,
        class_of(code) == ResponseClass::OtherFailure,
    ensures
        f.step(FetchEvent::Status(code)).action() == FetchAction::Finish(FetchOutcome::Failed),
        (FetchAttempt { stage: FetchStage::Reading, ..f }).step(FetchEvent::BodyFailed).action()
            == FetchAction::Finish(FetchOutcome::Failed),
{
}

} // verus!
