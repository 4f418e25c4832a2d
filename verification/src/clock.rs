//! The clock of a payment.
use tokio::time::Instant;
use vstd::prelude::*;

verus! {

/// `tokio::time::Instant`, a point in time of which nothing is known.
#[verifier::external_type_specification]
#[verifier::external_body]
pub struct ExInstant(Instant);

/// `Instant::now` of `tokio`: the current time, of which nothing is claimed.
#[verifier::external_body]
fn instant_now() -> (r: Instant) {
    Instant::now()
}

/// `Instant::elapsed` of `tokio`: the time since `since`, in nanoseconds. Nothing is claimed of it,
/// since it depends on when it is asked for.
#[verifier::external_body]
fn elapsed_nanos(since: &Instant) -> (r: u128) {
    since.elapsed().as_nanos()
}

/// Tells the time since a payment was started.
#[derive(Debug)]
pub struct PaymentClock {
    started: Instant,
}

impl PaymentClock {
    /// `nanos` is what the clock says when it is asked: the time that has elapsed since its start.
    pub closed spec fn reads(&self, nanos: u128) -> bool {
        call_ensures(elapsed_nanos, (&self.started,), nanos)
    }

    /// The clock was started at what was then the current time.
    pub closed spec fn started_now(&self) -> bool {
        call_ensures(instant_now, (), self.started)
    }

    /// A clock that starts now. The moment depends on the call, so no clause says which it is.
    pub fn start() -> (r: PaymentClock)
        ensures
            r.started_now(),
    {
        PaymentClock { started: instant_now() }
    }

    /// Nanoseconds since the clock was started. They depend on the call, so no clause bounds them.
    pub fn now(&self) -> (r: u128)
        ensures
            self.reads(r),
    {
        elapsed_nanos(&self.started)
    }
}

/// A clock that was started holds the moment that was current.
proof fn law_clock_starts_now(clock: PaymentClock)
    requires
        call_ensures(PaymentClock::start, (), clock),
    ensures
        call_ensures(instant_now, (), clock.started),
{
}

/// What a clock returns is the time that has elapsed since the moment it holds.
proof fn law_clock_tells_elapsed_time(clock: PaymentClock, nanos: u128)
    requires
        call_ensures(PaymentClock::now, (&clock,), nanos),
    ensures
        call_ensures(elapsed_nanos, (&clock.started,), nanos),
{
}

} // verus!
