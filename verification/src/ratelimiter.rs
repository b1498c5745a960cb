//! Pacing of outgoing requests: a token bucket, and after each admission a
//! random extra delay.
//!
//! The bucket is `ratelimit::Ratelimiter` and the random numbers come from
//! `rand`. The library never sleeps: `wait` says how long the caller has to
//! sleep and whether to ask again afterwards.

use vstd::prelude::*;
use crate::config::{BASE_RATE_LIMIT_NANOS, DEVIATION, MAX_REQUEST_RATE_LIMIT, MAX_TOKENS};

verus! {

#[verifier::external_type_specification]
#[verifier::external_body]
pub struct ExRatelimiter(ratelimit::Ratelimiter);

#[verifier::external_type_specification]
#[verifier::external_body]
pub struct ExRatelimitError(ratelimit::Error);

#[verifier::external_type_specification]
#[verifier::external_body]
pub struct ExThreadRng(rand::rngs::ThreadRng);

/// The limits that a bucket was made with: the tokens added per refill,
/// the nanoseconds between refills, and the most tokens it holds.
pub uninterp spec fn bucket_limits(bucket: ratelimit::Ratelimiter) -> (u64, u64, u64);

/// The bucket can do its sums in 64 bits. The time of the next refill is
/// a reading of the clock plus the interval, so the interval is at most
/// half of what 64 bits can count. And however many refills have come
/// due since the bucket was last asked, out of all the nanoseconds that
/// 64 bits can count, what they add fits beside what the bucket holds.
pub open spec fn limits_fit(amount: u64, interval_nanos: u64, max_tokens: u64) -> bool {
    &&& interval_nanos <= u64::MAX / 2
    &&& amount == 0 || u64::MAX as int / interval_nanos as int + 2 <= (u64::MAX - max_tokens)
        / amount as int
}

/// Builds a token bucket with `Ratelimiter::builder`, `Builder::max_tokens`
/// and `Builder::build`: `amount` tokens are added every `interval_nanos`
/// nanoseconds and at most `max_tokens` are held, and these three are
/// what the bucket keeps as its limits. `build` refuses a bucket that
/// cannot hold one refill, and nothing else that can be asked here.
///
/// The bucket counts in 64 bits. `build` adds the interval to a reading
/// of the monotonic clock, in nanoseconds; a later call for a token
/// divides the time that has passed by the interval, multiplies the
/// refills that have come due by `amount`, and adds what the bucket holds.
/// Hence the demands. They suffice as long as the clock reads less than
/// 2^63 ns, which is some 292 years after it started: that is assumed.
#[verifier::external_body]
fn build_ratelimiter(amount: u64, interval_nanos: u64, max_tokens: u64) -> (built: Result<
    ratelimit::Ratelimiter,
    ratelimit::Error,
>)
    requires
        interval_nanos > 0,
        limits_fit(amount, interval_nanos, max_tokens),
    ensures
        built is Ok <==> amount <= max_tokens,
        built matches Ok(bucket) ==> bucket_limits(bucket) == (amount, interval_nanos, max_tokens),
{
    ratelimit::Ratelimiter::builder(amount, core::time::Duration::from_nanos(interval_nanos))
        .max_tokens(max_tokens)
        .build()
}

/// Calls `Ratelimiter::try_wait`. `None` means that a token was taken;
/// otherwise the result is the crate's hint, in nanoseconds, of how long to
/// wait before asking again. Which of the two comes back depends on the
/// clock, so nothing is claimed of it.
#[verifier::external_body]
fn try_wait(limiter: &ratelimit::Ratelimiter) -> (retry_after: Option<u64>) {
    limiter.try_wait().err().map(|hint| u64::try_from(hint.as_nanos()).unwrap_or(u64::MAX))
}

/// Calls `rand::thread_rng`, which hands out the generator of this thread.
#[verifier::external_body]
fn thread_rng() -> rand::rngs::ThreadRng {
    rand::thread_rng()
}

/// Calls `Rng::gen_range` on `0..bound`: some number below `bound`. An
/// empty range would make it panic.
#[verifier::external_body]
fn gen_below(rng: &mut rand::rngs::ThreadRng, bound: u64) -> (drawn: u64)
    requires
        bound > 0,
    ensures
        drawn < bound,
{
    rand::Rng::gen_range(rng, 0..bound)
}

/// Why a rate limiter could not be made.
#[derive(Clone, Copy, Debug, PartialEq, Eq, Structural)]
pub enum RateLimiterError {
    /// The bucket would hold fewer tokens than one refill adds.
    MaxTokensTooLow,
    /// The time between refills would be zero.
    ZeroInterval,
    /// The random delay would have no value to take.
    ZeroDeviation,
    /// The bucket could not do its sums in 64 bits.
    LimitsTooLarge,
}

/// What the caller of `wait` has to do.
#[derive(Clone, Copy, Debug, PartialEq, Eq, Structural)]
pub enum WaitStep {
    /// Sleep for `nanos` nanoseconds, then call `wait` again.
    Sleep { nanos: u64 },
    /// Go on: the request is admitted and its extra delay has been slept.
    Proceed,
}

/// One wait on the rate limiter, from the draw of its extra delay to the
/// end of that delay.
pub struct WaitTicket {
    jitter_nanos: u64,
    bound: u64,
    admitted: bool,
}

pub struct WaitTicketView {
    /// The extra delay of the wait, in nanoseconds.
    pub jitter: u64,
    /// The bound, exclusive, under which the extra delay was drawn.
    pub bound: u64,
    /// Whether a token has been taken for the wait.
    pub admitted: bool,
}

impl View for WaitTicket {
    type V = WaitTicketView;

    closed spec fn view(&self) -> WaitTicketView {
        WaitTicketView { jitter: self.jitter_nanos, bound: self.bound, admitted: self.admitted }
    }
}

impl WaitTicketView {
    /// The extra delay is below its bound.
    pub open spec fn wf(self) -> bool {
        self.jitter < self.bound
    }

    /// What the caller is told, given what the bucket said, `None`
    /// standing for a token taken: with the token in hand, to proceed;
    /// on taking it, to sleep the extra delay; before that, to sleep as
    /// long as the bucket asks.
    pub open spec fn step(self, retry_after: Option<u64>) -> WaitStep {
        if self.admitted {
            WaitStep::Proceed
        } else {
            match retry_after {
                Some(nanos) => WaitStep::Sleep { nanos },
                None => WaitStep::Sleep { nanos: self.jitter },
            }
        }
    }

    /// The ticket after the bucket said `retry_after`.
    pub open spec fn after(self, retry_after: Option<u64>) -> WaitTicketView {
        WaitTicketView { admitted: self.admitted || retry_after is None, ..self }
    }
}

/// A wait through as many calls as there are `answers`, the bucket saying
/// `answers[i]` at call `i`: what the caller is told at each call, and how
/// many tokens the wait takes.
pub open spec fn run_wait(ticket: WaitTicketView, answers: Seq<Option<u64>>) -> (
    Seq<WaitStep>,
    nat,
)
    decreases answers.len(),
{
    if answers.len() == 0 {
        (Seq::empty(), 0)
    } else {
        let taken: nat = if !ticket.admitted && answers[0] is None {
            1
        } else {
            0
        };
        let (steps, more) = run_wait(ticket.after(answers[0]), answers.drop_first());
        (seq![ticket.step(answers[0])] + steps, taken + more)
    }
}

/// The first call at which the bucket has a token, or the number of
/// calls when it never has.
pub open spec fn first_grant(answers: Seq<Option<u64>>) -> int
    decreases answers.len(),
{
    if answers.len() == 0 {
        0
    } else if answers[0] is None {
        0
    } else {
        1 + first_grant(answers.drop_first())
    }
}

/// A ticket with its token takes no other and is told to proceed at
/// every call.
pub proof fn lemma_admitted_wait_proceeds(ticket: WaitTicketView, answers: Seq<Option<u64>>)
    requires
        ticket.admitted,
    ensures
        run_wait(ticket, answers).1 == 0,
        run_wait(ticket, answers).0.len() == answers.len(),
        forall|i: int|
            0 <= i < answers.len() ==> #[trigger] run_wait(ticket, answers).0[i]
                == WaitStep::Proceed,
    decreases answers.len(),
{
    if answers.len() > 0 {
        lemma_admitted_wait_proceeds(ticket.after(answers[0]), answers.drop_first());
    }
}

/// A wait takes one token and no more. Until the bucket has one, the
/// caller sleeps as long as the bucket asks; at the call at which it has,
/// the caller sleeps the extra delay of the wait, which is below its
/// bound; from then on the caller is told to proceed. So the delay that a
/// wait adds to the queueing is its own extra delay, once.
pub proof fn lemma_wait_takes_one_token(ticket: WaitTicketView, answers: Seq<Option<u64>>)
    requires
        ticket.wf(),
        !ticket.admitted,
    ensures
        0 <= first_grant(answers) <= answers.len(),
        run_wait(ticket, answers).0.len() == answers.len(),
        run_wait(ticket, answers).1 == (if first_grant(answers) < answers.len() {
            1nat
        } else {
            0nat
        }),
        forall|i: int|
            0 <= i < answers.len() ==> #[trigger] run_wait(ticket, answers).0[i] == (if i
                < first_grant(answers) {
                WaitStep::Sleep { nanos: answers[i]->0 }
            } else if i == first_grant(answers) {
                WaitStep::Sleep { nanos: ticket.jitter }
            } else {
                WaitStep::Proceed
            }),
        ticket.jitter < ticket.bound,
    decreases answers.len(),
{
    if answers.len() > 0 {
        let rest = answers.drop_first();
        let next = ticket.after(answers[0]);
        if answers[0] is None {
            lemma_admitted_wait_proceeds(next, rest);
        } else {
            lemma_wait_takes_one_token(next, rest);
        }
        assert forall|i: int| 0 <= i < answers.len() implies #[trigger] run_wait(
            ticket,
            answers,
        ).0[i] == (if i < first_grant(answers) {
            WaitStep::Sleep { nanos: answers[i]->0 }
        } else if i == first_grant(answers) {
            WaitStep::Sleep { nanos: ticket.jitter }
        } else {
            WaitStep::Proceed
        }) by {
            if i > 0 {
                assert(run_wait(ticket, answers).0[i] == run_wait(next, rest).0[i - 1]);
                assert(answers[i] == rest[i - 1]);
            }
        }
    }
}

impl WaitTicket {
    #[verifier::type_invariant]
    spec fn well_formed(self) -> bool {
        self.jitter_nanos < self.bound
    }

    /// Takes note of what the bucket said and tells the caller what to
    /// do.
    pub fn settle(&mut self, retry_after: Option<u64>) -> (step: WaitStep)
        ensures
            old(self)@.wf(),
            step == old(self)@.step(retry_after),
            final(self)@ == old(self)@.after(retry_after),
    {
        proof {
            use_type_invariant(&*self);
        }
        if self.admitted {
            WaitStep::Proceed
        } else {
            match retry_after {
                Some(nanos) => WaitStep::Sleep { nanos },
                None => {
                    self.admitted = true;
                    WaitStep::Sleep { nanos: self.jitter_nanos }
                },
            }
        }
    }

    /// Whether a token has been taken for this wait.
    pub fn is_admitted(&self) -> (admitted: bool)
        ensures
            admitted == self@.admitted,
    {
        self.admitted
    }

    /// The extra delay of this wait: always below the bound.
    pub fn jitter_nanos(&self) -> (nanos: u64)
        ensures
            nanos == self@.jitter,
            nanos < self@.bound,
    {
        proof {
            use_type_invariant(self);
        }
        self.jitter_nanos
    }
}

/// The bound, exclusive, of a random delay: never zero.
struct DeviationBound {
    nanos: u64,
}

impl DeviationBound {
    #[verifier::type_invariant]
    spec fn well_formed(self) -> bool {
        self.nanos > 0
    }

    fn get(&self) -> (nanos: u64)
        ensures
            nanos == self.nanos,
            nanos > 0,
    {
        proof {
            use_type_invariant(self);
        }
        self.nanos
    }
}

/// A token bucket with a random delay after each admission.
pub struct DeviationRateLimiter {
    rng: rand::rngs::ThreadRng,
    rate_limiter: ratelimit::Ratelimiter,
    deviation: DeviationBound,
}

impl DeviationRateLimiter {
    /// The bound, exclusive, of the random delay, in nanoseconds.
    pub closed spec fn deviation(self) -> u64 {
        self.deviation.nanos
    }

    /// The limits of the bucket: the tokens added per refill, the
    /// nanoseconds between refills, and the most tokens it holds.
    pub closed spec fn limits(self) -> (u64, u64, u64) {
        bucket_limits(self.rate_limiter)
    }

    /// A limiter with the standard limits: four tokens every
    /// 143,240,219 ns, at most four held, and a delay below `DEVIATION`.
    pub fn new() -> (limiter: Result<DeviationRateLimiter, RateLimiterError>)
        ensures
            limiter matches Ok(limiter) && limiter.deviation() == DEVIATION && limiter.limits() == (
                MAX_REQUEST_RATE_LIMIT,
                BASE_RATE_LIMIT_NANOS,
                MAX_TOKENS,
            ),
    {
        DeviationRateLimiter::with_limits(
            MAX_REQUEST_RATE_LIMIT,
            BASE_RATE_LIMIT_NANOS,
            MAX_TOKENS,
            DEVIATION,
        )
    }

    /// A limiter whose bucket gets `amount` tokens every `interval_nanos`
    /// nanoseconds and holds at most `max_tokens`, and whose random delay
    /// is below `deviation` nanoseconds.
    pub fn with_limits(amount: u64, interval_nanos: u64, max_tokens: u64, deviation: u64) -> (limiter:
        Result<DeviationRateLimiter, RateLimiterError>)
        ensures
            match limiter {
                Ok(limiter) => interval_nanos > 0 && deviation > 0 && limits_fit(
                    amount,
                    interval_nanos,
                    max_tokens,
                ) && amount <= max_tokens && limiter.deviation() == deviation && limiter.limits()
                    == (amount, interval_nanos, max_tokens),
                Err(RateLimiterError::ZeroInterval) => interval_nanos == 0,
                Err(RateLimiterError::ZeroDeviation) => interval_nanos > 0 && deviation == 0,
                Err(RateLimiterError::LimitsTooLarge) => interval_nanos > 0 && deviation > 0
                    && !limits_fit(amount, interval_nanos, max_tokens),
                Err(RateLimiterError::MaxTokensTooLow) => interval_nanos > 0 && deviation > 0
                    && limits_fit(amount, interval_nanos, max_tokens) && amount > max_tokens,
            },
    {
        if interval_nanos == 0 {
            return Err(RateLimiterError::ZeroInterval);
        }
        if deviation == 0 {
            return Err(RateLimiterError::ZeroDeviation);
        }
        if interval_nanos > u64::MAX / 2 {
            return Err(RateLimiterError::LimitsTooLarge);
        }
        if amount != 0 {
            let refills: u128 = (u64::MAX / interval_nanos) as u128 + 2;
            let room: u64 = (u64::MAX - max_tokens) / amount;
            if refills > room as u128 {
                return Err(RateLimiterError::LimitsTooLarge);
            }
        }
        match build_ratelimiter(amount, interval_nanos, max_tokens) {
            Ok(rate_limiter) => Ok(
                DeviationRateLimiter {
                    rng: thread_rng(),
                    rate_limiter,
                    deviation: DeviationBound { nanos: deviation },
                },
            ),
            Err(_) => Err(RateLimiterError::MaxTokensTooLow),
        }
    }

    /// Draws the delay for one request: a number of nanoseconds below the
    /// limiter's bound.
    pub fn get_deviation(&mut self) -> (nanos: u64)
        ensures
            nanos < old(self).deviation(),
            final(self).deviation() == old(self).deviation(),
            final(self).limits() == old(self).limits(),
    {
        let bound = self.deviation.get();
        gen_below(&mut self.rng, bound)
    }

    /// Begins a wait: draws its extra delay.
    pub fn begin_wait(&mut self) -> (ticket: WaitTicket)
        ensures
            !ticket@.admitted,
            ticket@.wf(),
            ticket@.bound == old(self).deviation(),
            final(self).deviation() == old(self).deviation(),
            final(self).limits() == old(self).limits(),
    {
        let jitter_nanos = self.get_deviation();
        WaitTicket { jitter_nanos, bound: self.deviation.get(), admitted: false }
    }

    /// One step of a wait. For a ticket without a token the bucket, which
    /// is the one made with `limits()`, is asked for one: if it has none, the caller is told how long to sleep
    /// before the next call; if it has, the caller is told to sleep the
    /// ticket's extra delay, which is below its bound. A ticket with its
    /// token is told to proceed, and the bucket is left alone. What the
    /// bucket says depends on the clock; the step follows from it as
    /// `settle` says.
    pub fn wait(&self, ticket: &mut WaitTicket) -> (step: WaitStep)
        ensures
            old(ticket)@.wf(),
            exists|retry_after: Option<u64>|
                #![trigger old(ticket)@.step(retry_after)]
                step == old(ticket)@.step(retry_after) && final(ticket)@ == old(ticket)@.after(
                    retry_after,
                ),
            old(ticket)@.admitted ==> step == WaitStep::Proceed && final(ticket)@ == old(ticket)@,
            !old(ticket)@.admitted && final(ticket)@.admitted ==> step == (WaitStep::Sleep {
                nanos: old(ticket)@.jitter,
            }),
    {
        if ticket.is_admitted() {
            ticket.settle(None)
        } else {
            let retry_after = try_wait(&self.rate_limiter);
            ticket.settle(retry_after)
        }
    }
}

} // verus!
