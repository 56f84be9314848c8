use std::marker::PhantomData;
use vstd::prelude::*;

use crate::factory::Factory;
use crate::message::{default_response, default_response_of, empty_request, empty_request_of};
use crate::progress::Progress;

verus! {

/// The stage a handler invocation is in.
#[derive(Clone, Copy, PartialEq, Eq, Structural, Debug)]
pub enum HandlerStage {
    /// The factory's computation is in flight.
    RunningFactory,
    /// The output's conversion into a response is in flight.
    RunningConversion,
    /// The response has been handed out.
    Finished,
}

/// The stage that follows `stage` after a poll of its computation that
/// reported `ready` or not. Only a finished computation moves the stage on,
/// and only one step at a time.
pub open spec fn handler_advance(stage: HandlerStage, ready: bool) -> HandlerStage {
    if !ready {
        stage
    } else {
        match stage {
            HandlerStage::RunningFactory => HandlerStage::RunningConversion,
            HandlerStage::RunningConversion => HandlerStage::Finished,
            HandlerStage::Finished => HandlerStage::Finished,
        }
    }
}

/// The stage reached from `stage` after a run of polls, each ready or not.
pub open spec fn handler_after(stage: HandlerStage, polls: Seq<bool>) -> HandlerStage
    decreases polls.len(),
{
    if polls.len() == 0 {
        stage
    } else {
        handler_after(handler_advance(stage, polls[0]), polls.drop_first())
    }
}

/// Polling a stage whose computation is not ready, any number of times,
/// leaves the stage where it was; and no poll moves the stage unless its
/// computation was ready.
pub proof fn lemma_pending_polls_keep_handler_stage(stage: HandlerStage, polls: Seq<bool>)
    requires
        forall|i: int| 0 <= i < polls.len() ==> !polls[i],
    ensures
        handler_after(stage, polls) == stage,
        forall|s: HandlerStage, ready: bool| handler_advance(s, ready) != s ==> ready,
    decreases polls.len(),
{
    if polls.len() > 0 {
        let rest = polls.drop_first();
        assert forall|i: int| 0 <= i < rest.len() implies !rest[i] by {
            assert(rest[i] == polls[i + 1]);
        }
        lemma_pending_polls_keep_handler_stage(stage, rest);
    }
}

/// How far along the invocation `stage` is.
pub open spec fn handler_rank(stage: HandlerStage) -> nat {
    match stage {
        HandlerStage::RunningFactory => 0,
        HandlerStage::RunningConversion => 1,
        HandlerStage::Finished => 2,
    }
}

/// How many of `polls` found their computation ready.
pub open spec fn ready_count(polls: Seq<bool>) -> nat
    decreases polls.len(),
{
    if polls.len() == 0 {
        0
    } else {
        (if polls[0] {
            1nat
        } else {
            0nat
        }) + ready_count(polls.drop_first())
    }
}

/// The stages follow one another strictly in order: after a run of polls
/// the invocation has moved on by exactly as many stages as polls found
/// their computation ready, up to the last stage. In particular the
/// conversion never starts before the factory's computation has finished.
pub proof fn lemma_handler_stages_in_order(stage: HandlerStage, polls: Seq<bool>)
    ensures
        handler_rank(handler_after(stage, polls)) == if handler_rank(stage) + ready_count(polls)
            <= 2 {
            handler_rank(stage) + ready_count(polls)
        } else {
            2
        },
    decreases polls.len(),
{
    if polls.len() > 0 {
        lemma_handler_stages_in_order(handler_advance(stage, polls[0]), polls.drop_first());
    }
}

/// What the driver of a handler invocation must do after a poll of the
/// factory's computation.
pub enum FactoryAction<O> {
    /// Nothing is ready: suspend and poll the same computation later.
    Suspend,
    /// Start converting the output; the request is the one to convert against.
    Convert(O, hyper::Request<hyper::Body>),
}

/// Wraps a factory, adapting it to be invoked with arguments and a request.
pub struct Handler<F, T, R> where F: Factory<T, R> {
    handler: F,
    _t: PhantomData<(T, R)>,
}

impl<F, T, R> Handler<F, T, R> where F: Factory<T, R> {
    /// The factory this handler invokes.
    pub closed spec fn factory(&self) -> F {
        self.handler
    }

    pub fn new(handler: F) -> (r: Self)
        ensures
            r.factory() == handler,
    {
        Handler { handler, _t: PhantomData }
    }

    /// Invokes the factory on `param` and opens the state machine that will
    /// turn its output into a response; the machine holds `req` until the
    /// factory's computation finishes.
    pub fn call(&self, param: T, req: hyper::Request<hyper::Body>) -> (r: (R, HandlerFlow))
        requires
            self.factory().accepts(param),
        ensures
            self.factory().produces(param, r.0),
            r.1.wf(),
            r.1@ == HandlerStage::RunningFactory,
            r.1.held_request() == Some(req),
    {
        let fut = self.handler.call(param);
        (fut, HandlerFlow::new(req))
    }
}

impl<F, T, R> Clone for Handler<F, T, R> where F: Factory<T, R> + Clone {
    fn clone(&self) -> (r: Self)
        ensures
            call_ensures(F::clone, (&self.factory(),), r.factory()),
    {
        Handler { handler: self.handler.clone(), _t: PhantomData }
    }
}

/// The decisions of one handler invocation: which stage is active, and the
/// request it owns while the factory runs.
pub struct HandlerFlow {
    stage: HandlerStage,
    req: Option<hyper::Request<hyper::Body>>,
}

impl View for HandlerFlow {
    type V = HandlerStage;

    closed spec fn view(&self) -> HandlerStage {
        self.stage
    }
}

impl HandlerFlow {
    /// The request is held exactly while the factory's computation runs.
    pub closed spec fn wf(&self) -> bool {
        (self.stage == HandlerStage::RunningFactory) == (self.req is Some)
    }

    pub closed spec fn held_request(&self) -> Option<hyper::Request<hyper::Body>> {
        self.req
    }

    pub fn new(req: hyper::Request<hyper::Body>) -> (r: Self)
        ensures
            r.wf(),
            r@ == HandlerStage::RunningFactory,
            r.held_request() == Some(req),
    {
        HandlerFlow { stage: HandlerStage::RunningFactory, req: Some(req) }
    }

    pub fn stage(&self) -> (r: HandlerStage)
        ensures
            r == self@,
    {
        self.stage
    }

    /// Takes the result of a poll of the factory's computation. A pending
    /// poll changes nothing; a ready one releases the request and moves on to
    /// the conversion of the output, against a fresh empty request.
    pub fn on_factory<O>(&mut self, p: Progress<O>) -> (r: FactoryAction<O>)
        requires
            old(self).wf(),
            old(self)@ == HandlerStage::RunningFactory,
        ensures
            final(self).wf(),
            final(self)@ == handler_advance(old(self)@, p.is_ready()),
            match p {
                Progress::Pending => *final(self) == *old(self) && r is Suspend,
                Progress::Ready(o) => final(self).held_request() is None && r == FactoryAction::<
                    O,
                >::Convert(o, empty_request_of(())),
            },
    {
        match p {
            Progress::Pending => FactoryAction::Suspend,
            Progress::Ready(o) => {
                self.req = None;
                self.stage = HandlerStage::RunningConversion;
                FactoryAction::Convert(o, empty_request())
            },
        }
    }

    /// Takes the result of a poll of the conversion. A pending poll changes
    /// nothing; a finished conversion, whether it succeeded or failed, yields
    /// the default response and ends the invocation.
    pub fn on_conversion<V, E>(&mut self, p: Progress<Result<V, E>>) -> (r: Progress<
        hyper::Response<hyper::Body>,
    >)
        requires
            old(self).wf(),
            old(self)@ == HandlerStage::RunningConversion,
        ensures
            final(self).wf(),
            final(self)@ == handler_advance(old(self)@, p.is_ready()),
            final(self).held_request() is None,
            p is Pending ==> *final(self) == *old(self),
            p is Pending ==> r is Pending,
            p is Ready ==> r == Progress::Ready(default_response_of(())),
    {
        match p {
            Progress::Pending => Progress::Pending,
            Progress::Ready(_) => {
                self.stage = HandlerStage::Finished;
                Progress::Ready(default_response())
            },
        }
    }
}

} // verus!
