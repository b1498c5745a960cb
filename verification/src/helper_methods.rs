//! One logical GET with a bounded number of attempts and a fixed pause after
//! each failed one.
//!
//! The library sends nothing. A `RetryingFetch` says what to do next
//! (`action`) and is told what came of it (`advance`); the caller waits on
//! the rate limiter, sends the request and sleeps. Whether an attempt has
//! brought a usable response is decided here too, by `attempt_event`.

use vstd::prelude::*;

verus! {

/// Where a fetch stands.
#[derive(Clone, Copy, Debug, PartialEq, Eq, Structural)]
pub enum FetchPhase {
    /// An attempt is due.
    Attempting,
    /// The last attempt failed; the pause after it is due.
    BackingOff,
    /// Done: a response was received.
    Succeeded,
    /// Done: every attempt failed.
    Exhausted,
}

/// What the caller reports back.
#[derive(Clone, Copy, Debug, PartialEq, Eq, Structural)]
pub enum FetchEvent {
    /// The attempt brought a usable response.
    ResponseReceived,
    /// The attempt brought none: no response, or one with an error status.
    AttemptFailed,
    /// The pause is over.
    BackoffElapsed,
}

/// What an attempt comes to, given the status of the response, or `None`
/// where no response came at all: a response is usable when its status is
/// no error status, that is, below 400. Everything else is a failed
/// attempt, whatever went wrong.
pub open spec fn attempt_event_of(status: Option<u16>) -> FetchEvent {
    match status {
        Some(code) => if code < 400 {
            FetchEvent::ResponseReceived
        } else {
            FetchEvent::AttemptFailed
        },
        None => FetchEvent::AttemptFailed,
    }
}

/// What the caller is asked to do next.
#[derive(Clone, Debug, PartialEq, Eq)]
pub enum FetchAction {
    /// Wait for the rate limiter, then send a GET to `url`.
    Attempt { url: String },
    /// Note that `attempts_left` attempts remain, then sleep for `nanos`.
    Backoff { nanos: u64, attempts_left: usize },
    /// Hand the response to whoever asked.
    Deliver,
    /// Fail: no response from `url` after `tries` tries.
    GiveUp { url: String, tries: usize },
}

pub enum FetchActionView {
    Attempt { url: Seq<char> },
    Backoff { nanos: u64, attempts_left: usize },
    Deliver,
    GiveUp { url: Seq<char>, tries: usize },
}

impl View for FetchAction {
    type V = FetchActionView;

    open spec fn view(&self) -> FetchActionView {
        match *self {
            FetchAction::Attempt { url } => FetchActionView::Attempt { url: url@ },
            FetchAction::Backoff { nanos, attempts_left } => FetchActionView::Backoff {
                nanos,
                attempts_left,
            },
            FetchAction::Deliver => FetchActionView::Deliver,
            FetchAction::GiveUp { url, tries } => FetchActionView::GiveUp { url: url@, tries },
        }
    }
}

/// A GET that is tried up to `retry_count` times.
pub struct RetryingFetch {
    url: String,
    retry_count: usize,
    wait_nanos: u64,
    failures: usize,
    phase: FetchPhase,
}

pub struct RetryingFetchView {
    pub url: Seq<char>,
    /// The most attempts that are made.
    pub retry_count: usize,
    /// The pause after a failed attempt, in nanoseconds.
    pub wait_nanos: u64,
    /// The attempts that have failed so far.
    pub failures: usize,
    pub phase: FetchPhase,
}

impl View for RetryingFetch {
    type V = RetryingFetchView;

    closed spec fn view(&self) -> RetryingFetchView {
        RetryingFetchView {
            url: self.url@,
            retry_count: self.retry_count,
            wait_nanos: self.wait_nanos,
            failures: self.failures,
            phase: self.phase,
        }
    }
}

impl RetryingFetchView {
    /// A fetch of which nothing has been tried. Without attempts to make
    /// it has failed already.
    pub open spec fn begin(url: Seq<char>, retry_count: usize, wait_nanos: u64) -> RetryingFetchView {
        RetryingFetchView {
            url,
            retry_count,
            wait_nanos,
            failures: 0,
            phase: if retry_count == 0 {
                FetchPhase::Exhausted
            } else {
                FetchPhase::Attempting
            },
        }
    }

    /// No more attempts have failed than may be made, and while one is
    /// due, fewer.
    pub open spec fn wf(self) -> bool {
        &&& self.failures <= self.retry_count
        &&& self.phase is Attempting ==> self.failures < self.retry_count
    }

    pub open spec fn is_done(self) -> bool {
        self.phase is Succeeded || self.phase is Exhausted
    }

    /// What the caller is asked to do in this state.
    pub open spec fn pending(self) -> FetchActionView {
        match self.phase {
            FetchPhase::Attempting => FetchActionView::Attempt { url: self.url },
            FetchPhase::BackingOff => FetchActionView::Backoff {
                nanos: self.wait_nanos,
                attempts_left: (self.retry_count - self.failures) as usize,
            },
            FetchPhase::Succeeded => FetchActionView::Deliver,
            FetchPhase::Exhausted => FetchActionView::GiveUp {
                url: self.url,
                tries: self.retry_count,
            },
        }
    }

    /// The state after `event`. An event that does not answer the pending
    /// action changes nothing.
    pub open spec fn after(self, event: FetchEvent) -> RetryingFetchView {
        match (self.phase, event) {
            (FetchPhase::Attempting, FetchEvent::ResponseReceived) => RetryingFetchView {
                phase: FetchPhase::Succeeded,
                ..self
            },
            (FetchPhase::Attempting, FetchEvent::AttemptFailed) => RetryingFetchView {
                phase: FetchPhase::BackingOff,
                failures: (self.failures + 1) as usize,
                ..self
            },
            (FetchPhase::BackingOff, FetchEvent::BackoffElapsed) => RetryingFetchView {
                phase: if self.failures < self.retry_count {
                    FetchPhase::Attempting
                } else {
                    FetchPhase::Exhausted
                },
                ..self
            },
            _ => self,
        }
    }

    /// An upper bound on the events that this fetch still takes note of.
    pub open spec fn budget(self) -> nat {
        match self.phase {
            FetchPhase::Attempting => (2 * (self.retry_count - self.failures)) as nat,
            FetchPhase::BackingOff => (2 * (self.retry_count - self.failures) + 1) as nat,
            _ => 0,
        }
    }
}

/// The outcome of a fetch against a transport whose `n`-th invocation,
/// counted from zero, brings a response exactly when `transport(n)`: the
/// final state, and how often the transport was invoked, `calls` counting
/// the invocations made before.
pub open spec fn run_fetch(state: RetryingFetchView, transport: spec_fn(nat) -> bool, calls: nat) -> (
    RetryingFetchView,
    nat,
)
    decreases state.budget(),
{
    if !state.wf() {
        (state, calls)
    } else {
        match state.phase {
            FetchPhase::Attempting => {
                let event = if transport(calls) {
                    FetchEvent::ResponseReceived
                } else {
                    FetchEvent::AttemptFailed
                };
                run_fetch(state.after(event), transport, calls + 1)
            },
            FetchPhase::BackingOff => run_fetch(
                state.after(FetchEvent::BackoffElapsed),
                transport,
                calls,
            ),
            _ => (state, calls),
        }
    }
}

/// Every event keeps a well-formed fetch well-formed, keeps its target and
/// its limits, and never enlarges its budget; an event that answers the
/// pending action shrinks it.
pub proof fn lemma_fetch_step(state: RetryingFetchView, event: FetchEvent)
    requires
        state.wf(),
    ensures
        state.after(event).wf(),
        state.after(event).url == state.url,
        state.after(event).retry_count == state.retry_count,
        state.after(event).wait_nanos == state.wait_nanos,
        state.after(event).budget() <= state.budget(),
        state.after(event) != state ==> state.after(event).budget() < state.budget(),
        state.is_done() ==> state.after(event) == state,
{
}

/// A transport that fails `k` times from the attempt that is due and
/// then answers makes the fetch succeed after exactly `k + 1` further
/// invocations, provided that many attempts remain.
pub proof fn lemma_fetch_succeeds_after(
    state: RetryingFetchView,
    transport: spec_fn(nat) -> bool,
    calls: nat,
    k: nat,
)
    requires
        state.wf(),
        state.phase is Attempting,
        state.failures + k < state.retry_count,
        forall|n: nat| calls <= n < calls + k ==> !#[trigger] transport(n),
        transport(calls + k),
    ensures
        run_fetch(state, transport, calls).0.phase is Succeeded,
        run_fetch(state, transport, calls).1 == calls + k + 1,
    decreases k,
{
    if k == 0 {
        let done = state.after(FetchEvent::ResponseReceived);
        assert(run_fetch(done, transport, calls + 1) == (done, calls + 1));
    } else {
        let failed = state.after(FetchEvent::AttemptFailed);
        let again = failed.after(FetchEvent::BackoffElapsed);
        assert(run_fetch(state, transport, calls) == run_fetch(failed, transport, calls + 1));
        assert(run_fetch(failed, transport, calls + 1) == run_fetch(again, transport, calls + 1));
        lemma_fetch_succeeds_after(again, transport, calls + 1, (k - 1) as nat);
    }
}

/// A transport that never answers makes the fetch fail after exactly as
/// many invocations as attempts remained.
pub proof fn lemma_fetch_exhausts(state: RetryingFetchView, transport: spec_fn(nat) -> bool, calls: nat)
    requires
        state.wf(),
        state.phase is Attempting,
        forall|n: nat| calls <= n < calls + (state.retry_count - state.failures) ==> !#[trigger] transport(n),
    ensures
        run_fetch(state, transport, calls).0.phase is Exhausted,
        run_fetch(state, transport, calls).1 == calls + (state.retry_count - state.failures),
    decreases state.retry_count - state.failures,
{
    let failed = state.after(FetchEvent::AttemptFailed);
    let next = failed.after(FetchEvent::BackoffElapsed);
    assert(run_fetch(state, transport, calls) == run_fetch(failed, transport, calls + 1));
    assert(run_fetch(failed, transport, calls + 1) == run_fetch(next, transport, calls + 1));
    if next.phase is Attempting {
        lemma_fetch_exhausts(next, transport, calls + 1);
    } else {
        assert(run_fetch(next, transport, calls + 1) == (next, calls + 1));
    }
}

/// A transport that fails its first `k` invocations and answers the next
/// one, with `k` below the number of attempts allowed, makes the fetch
/// succeed, and is invoked exactly `k + 1` times.
pub proof fn lemma_fetch_success_law(
    url: Seq<char>,
    retry_count: usize,
    wait_nanos: u64,
    transport: spec_fn(nat) -> bool,
    k: nat,
)
    requires
        k < retry_count,
        forall|n: nat| n < k ==> !#[trigger] transport(n),
        transport(k),
    ensures
        run_fetch(RetryingFetchView::begin(url, retry_count, wait_nanos), transport, 0).0.phase
            is Succeeded,
        run_fetch(RetryingFetchView::begin(url, retry_count, wait_nanos), transport, 0).1 == k + 1,
{
    lemma_fetch_succeeds_after(
        RetryingFetchView::begin(url, retry_count, wait_nanos),
        transport,
        0,
        k,
    );
}

/// A transport that fails every time makes the fetch fail, and is
/// invoked exactly as often as attempts are allowed: never, when none is.
pub proof fn lemma_fetch_failure_law(
    url: Seq<char>,
    retry_count: usize,
    wait_nanos: u64,
    transport: spec_fn(nat) -> bool,
)
    requires
        forall|n: nat| n < retry_count ==> !#[trigger] transport(n),
    ensures
        run_fetch(RetryingFetchView::begin(url, retry_count, wait_nanos), transport, 0).0.phase
            is Exhausted,
        run_fetch(RetryingFetchView::begin(url, retry_count, wait_nanos), transport, 0).1
            == retry_count,
{
    let begin = RetryingFetchView::begin(url, retry_count, wait_nanos);
    if retry_count > 0 {
        lemma_fetch_exhausts(begin, transport, 0);
    }
}

/// A transport that brings no usable response, be it an error status or
/// no response at all, makes the fetch fail, and is invoked exactly as
/// often as attempts are allowed.
pub proof fn lemma_error_statuses_exhaust(
    url: Seq<char>,
    retry_count: usize,
    wait_nanos: u64,
    statuses: spec_fn(nat) -> Option<u16>,
)
    requires
        forall|n: nat|
            n < retry_count ==> (#[trigger] statuses(n) matches Some(code) ==> code >= 400),
    ensures
        ({
            let transport = |n: nat| attempt_event_of(statuses(n)) == FetchEvent::ResponseReceived;
            let end = run_fetch(RetryingFetchView::begin(url, retry_count, wait_nanos), transport, 0);
            end.0.phase is Exhausted && end.1 == retry_count
        }),
{
    let transport = |n: nat| attempt_event_of(statuses(n)) == FetchEvent::ResponseReceived;
    assert forall|n: nat| n < retry_count implies !#[trigger] transport(n) by {
        let status = statuses(n);
    }
    lemma_fetch_failure_law(url, retry_count, wait_nanos, transport);
}

/// What an attempt comes to, given the status of the response, or `None`
/// where no response came at all.
pub fn attempt_event(status: Option<u16>) -> (event: FetchEvent)
    ensures
        event == attempt_event_of(status),
{
    match status {
        Some(code) => if code < 400 {
            FetchEvent::ResponseReceived
        } else {
            FetchEvent::AttemptFailed
        },
        None => FetchEvent::AttemptFailed,
    }
}

impl RetryingFetch {
    #[verifier::type_invariant]
    spec fn well_formed(self) -> bool {
        &&& self.failures <= self.retry_count
        &&& self.phase is Attempting ==> self.failures < self.retry_count
    }

    /// What to do next.
    pub fn action(&self) -> (action: FetchAction)
        ensures
            self@.wf(),
            action@ == self@.pending(),
    {
        proof {
            use_type_invariant(self);
        }
        match self.phase {
            FetchPhase::Attempting => FetchAction::Attempt { url: self.url.clone() },
            FetchPhase::BackingOff => FetchAction::Backoff {
                nanos: self.wait_nanos,
                attempts_left: self.retry_count - self.failures,
            },
            FetchPhase::Succeeded => FetchAction::Deliver,
            FetchPhase::Exhausted => FetchAction::GiveUp {
                url: self.url.clone(),
                tries: self.retry_count,
            },
        }
    }

    /// Takes note of what came of the last action.
    pub fn advance(&mut self, event: FetchEvent)
        ensures
            old(self)@.wf(),
            final(self)@ == old(self)@.after(event),
    {
        proof {
            use_type_invariant(&*self);
        }
        match (self.phase, event) {
            (FetchPhase::Attempting, FetchEvent::ResponseReceived) => {
                self.phase = FetchPhase::Succeeded;
            },
            (FetchPhase::Attempting, FetchEvent::AttemptFailed) => {
                self.phase = FetchPhase::BackingOff;
                self.failures = self.failures + 1;
            },
            (FetchPhase::BackingOff, FetchEvent::BackoffElapsed) => {
                if self.failures < self.retry_count {
                    self.phase = FetchPhase::Attempting;
                } else {
                    self.phase = FetchPhase::Exhausted;
                }
            },
            _ => {},
        }
    }

    /// Whether the fetch has ended, one way or the other.
    pub fn is_done(&self) -> (done: bool)
        ensures
            done == self@.is_done(),
    {
        match self.phase {
            FetchPhase::Succeeded => true,
            FetchPhase::Exhausted => true,
            _ => false,
        }
    }
}

/// Begins a GET of `request_url` that is tried up to `retry_count` times,
/// with a pause of `wait_nanos` nanoseconds after each failed attempt.
/// With `retry_count` zero the fetch has failed before anything is sent.
pub fn get_with_retry(request_url: String, retry_count: usize, wait_nanos: u64) -> (fetch:
    RetryingFetch)
    ensures
        fetch@ == RetryingFetchView::begin(request_url@, retry_count, wait_nanos),
{
    RetryingFetch {
        url: request_url,
        retry_count,
        wait_nanos,
        failures: 0,
        phase: if retry_count == 0 {
            FetchPhase::Exhausted
        } else {
            FetchPhase::Attempting
        },
    }
}

} // verus!
