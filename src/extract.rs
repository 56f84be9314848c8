use std::marker::PhantomData;
use vstd::prelude::*;

use crate::message::{empty_request, empty_request_of};
use crate::progress::Progress;

verus! {

/// The stage an extracting invocation is in.
#[derive(Clone, Copy, PartialEq, Eq, Structural, Debug)]
pub enum ExtractStage {
    /// The extraction of the arguments from the request is in flight.
    RunningExtraction,
    /// The inner service's computation is in flight.
    RunningHandler,
    /// A response or an extraction error has been handed out.
    Finished,
}

/// What a poll reported, with whether a finished computation succeeded.
pub open spec fn outcome<T, E>(p: Progress<Result<T, E>>) -> Progress<bool> {
    match p {
        Progress::Pending => Progress::Pending,
        Progress::Ready(res) => Progress::Ready(res is Ok),
    }
}

/// The stage that follows `stage` after a poll of its computation. A pending
/// poll changes nothing; a successful extraction starts the inner service; a
/// failed one ends the invocation, as does the inner service's completion.
pub open spec fn extract_advance(stage: ExtractStage, p: Progress<bool>) -> ExtractStage {
    match p {
        Progress::Pending => stage,
        Progress::Ready(ok) => match stage {
            ExtractStage::RunningExtraction => if ok {
                ExtractStage::RunningHandler
            } else {
                ExtractStage::Finished
            },
            _ => ExtractStage::Finished,
        },
    }
}

/// The stage reached from `stage` after a run of polls.
pub open spec fn extract_after(stage: ExtractStage, polls: Seq<Progress<bool>>) -> ExtractStage
    decreases polls.len(),
{
    if polls.len() == 0 {
        stage
    } else {
        extract_after(extract_advance(stage, polls[0]), polls.drop_first())
    }
}

/// Polling a stage whose computation is not ready, any number of times,
/// leaves the stage where it was; and no poll moves the stage unless its
/// computation was ready.
pub proof fn lemma_pending_polls_keep_extract_stage(stage: ExtractStage, polls: Seq<Progress<bool>>)
    requires
        forall|i: int| 0 <= i < polls.len() ==> polls[i] is Pending,
    ensures
        extract_after(stage, polls) == stage,
        forall|s: ExtractStage, p: Progress<bool>| extract_advance(s, p) != s ==> p is Ready,
    decreases polls.len(),
{
    if polls.len() > 0 {
        let rest = polls.drop_first();
        assert forall|i: int| 0 <= i < rest.len() implies rest[i] is Pending by {
            assert(rest[i] == polls[i + 1]);
        }
        lemma_pending_polls_keep_extract_stage(stage, rest);
    }
}

/// Once finished, an invocation stays finished whatever is polled after.
proof fn lemma_finished_is_final(polls: Seq<Progress<bool>>)
    ensures
        extract_after(ExtractStage::Finished, polls) == ExtractStage::Finished,
    decreases polls.len(),
{
    if polls.len() > 0 {
        lemma_finished_is_final(polls.drop_first());
    }
}

/// A failed extraction ends the invocation: whatever polls follow, no prefix
/// of them ever reaches the stage in which the inner service runs, so the
/// inner service is never called.
pub proof fn lemma_failed_extraction_is_final(polls: Seq<Progress<bool>>)
    ensures
        extract_advance(ExtractStage::RunningExtraction, Progress::Ready(false))
            == ExtractStage::Finished,
        forall|n: int|
            0 <= n <= polls.len() ==> #[trigger] extract_after(
                extract_advance(ExtractStage::RunningExtraction, Progress::Ready(false)),
                polls.take(n),
            ) == ExtractStage::Finished,
{
    assert forall|n: int| 0 <= n <= polls.len() implies #[trigger] extract_after(
        extract_advance(ExtractStage::RunningExtraction, Progress::Ready(false)),
        polls.take(n),
    ) == ExtractStage::Finished by {
        lemma_finished_is_final(polls.take(n));
    }
}

/// What the driver of an extracting invocation must do after a poll of the
/// extraction.
pub enum ExtractAction<T, E> {
    /// Nothing is ready: suspend and poll the extraction later.
    Suspend,
    /// The extraction failed: end with this error and a request to hand back.
    Fail(E, hyper::Request<hyper::Body>),
    /// The extraction succeeded: call the inner service with these.
    Invoke(T, hyper::Request<hyper::Body>),
}

/// Extracts the arguments of an inner service from the request before
/// invoking it.
pub struct Extract<T, S> {
    service: S,
    _t: PhantomData<T>,
}

impl<T, S> Extract<T, S> {
    /// The inner service.
    pub closed spec fn service(&self) -> S {
        self.service
    }

    pub fn new(service: S) -> (r: Self)
        ensures
            r.service() == service,
    {
        Extract { service, _t: PhantomData }
    }
}

impl<T, S: Clone> Extract<T, S> {
    /// Opens an invocation: a copy of the inner service, which this one
    /// owns, and the state machine that starts with the extraction.
    pub fn call(&self) -> (r: (S, ExtractFlow))
        ensures
            call_ensures(S::clone, (&self.service(),), r.0),
            r.1@ == ExtractStage::RunningExtraction,
    {
        (self.service.clone(), ExtractFlow::new())
    }
}

/// The decisions of one extracting invocation.
pub struct ExtractFlow {
    stage: ExtractStage,
}

impl View for ExtractFlow {
    type V = ExtractStage;

    closed spec fn view(&self) -> ExtractStage {
        self.stage
    }
}

impl ExtractFlow {
    pub fn new() -> (r: Self)
        ensures
            r@ == ExtractStage::RunningExtraction,
    {
        ExtractFlow { stage: ExtractStage::RunningExtraction }
    }

    pub fn stage(&self) -> (r: ExtractStage)
        ensures
            r == self@,
    {
        self.stage
    }

    /// Takes the result of a poll of the extraction. The extracted value or
    /// the error is passed on as it came; the request that goes with it is a
    /// fresh empty one, since the extraction consumed the incoming one.
    pub fn on_extraction<T, E>(&mut self, p: Progress<Result<T, E>>) -> (r: ExtractAction<T, E>)
        requires
            old(self)@ == ExtractStage::RunningExtraction,
        ensures
            final(self)@ == extract_advance(old(self)@, outcome(p)),
            match p {
                Progress::Pending => r is Suspend,
                Progress::Ready(Ok(item)) => r == ExtractAction::<T, E>::Invoke(
                    item,
                    empty_request_of(()),
                ),
                Progress::Ready(Err(e)) => r == ExtractAction::<T, E>::Fail(
                    e,
                    empty_request_of(()),
                ),
            },
    {
        match p {
            Progress::Pending => ExtractAction::Suspend,
            Progress::Ready(Ok(item)) => {
                self.stage = ExtractStage::RunningHandler;
                ExtractAction::Invoke(item, empty_request())
            },
            Progress::Ready(Err(e)) => {
                self.stage = ExtractStage::Finished;
                ExtractAction::Fail(e, empty_request())
            },
        }
    }

    /// Takes the result of a poll of the inner service's computation and
    /// passes it on unchanged.
    pub fn on_handler<V>(&mut self, p: Progress<V>) -> (r: Progress<V>)
        requires
            old(self)@ == ExtractStage::RunningHandler,
        ensures
            r == p,
            final(self)@ == extract_advance(old(self)@, match p {
                Progress::Pending => Progress::Pending,
                Progress::Ready(_) => Progress::Ready(true),
            }),
    {
        if let Progress::Ready(_) = &p {
            self.stage = ExtractStage::Finished;
        }
        p
    }
}

} // verus!
