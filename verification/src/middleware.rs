//! The interceptor: a factory that wraps a handler, the wrapped handler, and the state of
//! one request that passes through it.
//!
//! Calling the inner handler and waiting for it is the caller's part. The decisions are made
//! here: what is captured of a request before it is handed on, what is handed on, what is
//! reported once the inner handler is done, and what is returned.

use vstd::prelude::*;
use crate::payload::{headers_view, valid_values_decoded, Header};
use crate::reporter::{
    report_of, report_view, Outcome, Report, ReportView, Reporter, RequestSnapshot,
};

verus! {

/// Wraps handlers so that the requests they fail on are reported.
#[derive(Debug)]
pub struct HoneybadgerMiddleware(());

impl HoneybadgerMiddleware {
    /// A factory. It holds no state.
    pub fn new() -> (middleware: Self) {
        HoneybadgerMiddleware(())
    }

    /// Wraps `service`. This never fails.
    pub fn new_transform<S>(&self, service: S) -> (wrapped: Result<HoneybadgerHandler<S>, ()>)
        ensures
            wrapped == Ok::<HoneybadgerHandler<S>, ()>(HoneybadgerHandler(service)),
    {
        Ok(HoneybadgerHandler(service))
    }
}

/// A handler that passes every request on to the handler `S` that it wraps.
#[derive(Debug)]
pub struct HoneybadgerHandler<S>(pub S);

/// What is to be done with a request that came in: `request` goes to the inner handler, and
/// `future` follows the request until the inner handler is done with it.
pub struct Delegation<Q> {
    pub request: Q,
    pub future: HoneybadgerHandlerFuture,
}

impl<S> HoneybadgerHandler<S> {
    /// The readiness of the wrapper is the readiness of the inner handler, whatever it is.
    pub fn poll_ready<T>(&self, inner: T) -> (ready: T)
        ensures
            ready == inner,
    {
        inner
    }

    /// Takes in a request whose target is `target` and whose headers are `headers`. Both are
    /// captured before the request is handed on, and the request is handed on as it came.
    pub fn call<Q>(&self, request: Q, target: &str, headers: &Vec<Header>) -> (delegation:
        Delegation<Q>)
        ensures
            delegation.request == request,
            delegation.future.phase() == Phase::Awaiting,
            delegation.future.snapshot() == (RequestSnapshot {
                target: target@,
                headers: headers_view(headers@),
            }),
    {
        Delegation {
            request,
            future: HoneybadgerHandlerFuture {
                reporter: Reporter::new(target, headers),
                phase: Phase::Awaiting,
            },
        }
    }
}

/// What asking the inner handler for its outcome gave.
#[derive(Debug, PartialEq, Eq)]
pub enum Polled<T> {
    /// The inner handler is not done yet.
    Pending,
    /// The inner handler is done.
    Ready(T),
}

impl<T> Polled<T> {
    /// What the inner handler gave, where it is done.
    pub open spec fn ready_value(self) -> Option<T> {
        match self {
            Polled::Pending => None,
            Polled::Ready(value) => Some(value),
        }
    }

    /// Gives what the inner handler gave, where it is done.
    pub fn into_ready(self) -> (value: Option<T>)
        ensures
            value == self.ready_value(),
    {
        match self {
            Polled::Pending => None,
            Polled::Ready(value) => Some(value),
        }
    }
}

/// Where a request stands.
#[derive(Debug, Clone, Copy, PartialEq, Eq, Structural)]
pub enum Phase {
    /// The inner handler has not given its outcome yet.
    Awaiting,
    /// The outcome was seen, and reported if it had to be.
    Done,
}

/// What follows from asking the inner handler once: `output` is returned to the caller, and
/// `report`, where there is one, is sent first.
pub struct Step<R, E> {
    pub output: Polled<Outcome<R, E>>,
    pub report: Option<Report>,
}

/// The phase after the inner handler was asked.
pub open spec fn next_phase<T>(phase: Phase, polled: Polled<T>) -> Phase {
    match polled {
        Polled::Pending => phase,
        Polled::Ready(_) => Phase::Done,
    }
}

/// The report that is owed after the inner handler was asked: the report on its outcome,
/// where this is the first time that it gave one.
pub open spec fn step_report<R, E>(
    snapshot: RequestSnapshot,
    phase: Phase,
    polled: Polled<Outcome<R, E>>,
) -> Option<ReportView> {
    match (phase, polled) {
        (Phase::Awaiting, Polled::Ready(outcome)) => report_of(
            snapshot,
            outcome is Failure,
            outcome.status_code(),
        ),
        _ => None,
    }
}

/// The state of one request on its way through the wrapper.
#[derive(Debug)]
pub struct HoneybadgerHandlerFuture {
    reporter: Reporter,
    phase: Phase,
}

impl HoneybadgerHandlerFuture {
    /// What was captured of the request.
    pub closed spec fn snapshot(&self) -> RequestSnapshot {
        self.reporter@
    }

    /// Where the request stands.
    pub closed spec fn phase(&self) -> Phase {
        self.phase
    }

    /// Whether the outcome of the request was seen.
    pub fn is_done(&self) -> (done: bool)
        ensures
            done == (self.phase() == Phase::Done),
    {
        self.phase == Phase::Done
    }

    /// The reporter that holds what was captured of the request.
    pub fn reporter(&self) -> (reporter: &Reporter)
        ensures
            reporter@ == self.snapshot(),
    {
        &self.reporter
    }

    /// Takes what asking the inner handler gave, and returns it as it is. The first outcome
    /// that comes is reported where its status is reportable; nothing is reported while the
    /// inner handler is pending, nor after the first outcome.
    pub fn poll<R, E>(&mut self, polled: Polled<Outcome<R, E>>) -> (step: Step<R, E>)
        ensures
            step.output == polled,
            report_view(step.report) == step_report(old(self).snapshot(), old(self).phase(), polled),
            step.report is Some ==> valid_values_decoded(old(self).snapshot().headers),
            final(self).phase() == next_phase(old(self).phase(), polled),
            final(self).snapshot() == old(self).snapshot(),
    {
        match polled {
            Polled::Pending => Step { output: Polled::Pending, report: None },
            Polled::Ready(outcome) => {
                let report = match self.phase {
                    Phase::Awaiting => self.reporter.report(&outcome),
                    Phase::Done => None,
                };
                self.phase = Phase::Done;
                Step { output: Polled::Ready(outcome), report }
            },
        }
    }
}

} // verus!
