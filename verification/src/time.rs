//! Spans of time as plain values, and deadlines measured from a clock reading.
use vstd::prelude::*;

verus! {

/// Number of nanoseconds in one second.
pub const NANOS_PER_SEC: u32 = 1_000_000_000;

/// Number of nanoseconds in one millisecond.
pub const NANOS_PER_MILLI: u32 = 1_000_000;

/// A span of time: whole seconds plus a sub-second part in nanoseconds,
/// the same range and resolution as a standard library duration.
#[derive(Clone, Copy, Debug, PartialEq, Eq, Structural)]
pub struct Duration {
    secs: u64,
    nanos: u32,
}

impl Duration {
    #[verifier::type_invariant]
    spec fn nanos_below_one_second(self) -> bool {
        self.nanos < NANOS_PER_SEC
    }

    /// Whole seconds of the span.
    pub closed spec fn secs_spec(self) -> nat {
        self.secs as nat
    }

    /// The span of `secs` whole seconds.
    pub closed spec fn from_secs_spec(secs: u64) -> Duration {
        Duration { secs, nanos: 0 }
    }

    /// Sub-second part of the span, in nanoseconds.
    pub closed spec fn nanos_spec(self) -> nat {
        self.nanos as nat
    }
}

impl View for Duration {
    type V = nat;

    /// The whole span in nanoseconds.
    open spec fn view(&self) -> nat {
        self.secs_spec() * (NANOS_PER_SEC as nat) + self.nanos_spec()
    }
}

impl Duration {
    /// The empty span.
    pub fn zero() -> (d: Duration)
        ensures
            d@ == 0,
            d.secs_spec() == 0,
            d.nanos_spec() == 0,
    {
        Duration { secs: 0, nanos: 0 }
    }

    /// A span of whole seconds.
    pub fn from_secs(secs: u64) -> (d: Duration)
        ensures
            d == Duration::from_secs_spec(secs),
            d.secs_spec() == secs,
            d.nanos_spec() == 0,
            d@ == secs * (NANOS_PER_SEC as nat),
    {
        Duration { secs, nanos: 0 }
    }

    /// A span of milliseconds.
    pub fn from_millis(millis: u64) -> (d: Duration)
        ensures
            d@ == millis * (NANOS_PER_MILLI as nat),
            d.secs_spec() == millis / 1000,
            d.nanos_spec() == (millis % 1000) * (NANOS_PER_MILLI as nat),
    {
        let nanos: u32 = ((millis % 1000) as u32) * NANOS_PER_MILLI;
        assert(millis == (millis / 1000) * 1000 + millis % 1000);
        Duration { secs: millis / 1000, nanos }
    }

    /// A span of `secs` seconds and `nanos` nanoseconds, where whole seconds
    /// in `nanos` are carried over into the seconds.
    pub fn new(secs: u64, nanos: u32) -> (d: Duration)
        requires
            secs + nanos / NANOS_PER_SEC <= u64::MAX,
        ensures
            d@ == secs * (NANOS_PER_SEC as nat) + nanos,
            d.secs_spec() == secs + nanos / NANOS_PER_SEC,
            d.nanos_spec() == nanos % NANOS_PER_SEC,
    {
        let extra: u64 = (nanos / NANOS_PER_SEC) as u64;
        let rest: u32 = nanos % NANOS_PER_SEC;
        assert(nanos == (nanos / NANOS_PER_SEC) * NANOS_PER_SEC + nanos % NANOS_PER_SEC);
        Duration { secs: secs + extra, nanos: rest }
    }

    /// Whole seconds of the span.
    pub fn as_secs(&self) -> (s: u64)
        ensures
            s == self.secs_spec(),
    {
        self.secs
    }

    /// Sub-second part of the span, in nanoseconds.
    pub fn subsec_nanos(&self) -> (n: u32)
        ensures
            n == self.nanos_spec(),
            n < NANOS_PER_SEC,
    {
        proof {
            use_type_invariant(self);
        }
        self.nanos
    }

    /// Whether the span is empty.
    pub fn is_zero(&self) -> (b: bool)
        ensures
            b == (self@ == 0),
    {
        self.secs == 0 && self.nanos == 0
    }

    /// Two spans are equal exactly when they are equally long.
    pub proof fn lemma_eq_iff_view_eq(a: Duration, b: Duration)
        requires
            a.nanos_spec() < NANOS_PER_SEC,
            b.nanos_spec() < NANOS_PER_SEC,
        ensures
            (a == b) <==> (a@ == b@),
    {
        if a@ == b@ {
            assert(a.secs == b.secs && a.nanos == b.nanos) by (nonlinear_arith)
                requires
                    a.secs * 1_000_000_000nat + a.nanos == b.secs * 1_000_000_000nat + b.nanos,
                    a.nanos < 1_000_000_000,
                    b.nanos < 1_000_000_000,
            ;
        }
    }
}

/// A reading of the monotonic clock of the standard library.
#[verifier::external_type_specification]
#[verifier::external_body]
pub struct ExInstant(std::time::Instant);

/// Reads the monotonic clock: calls `std::time::Instant::now`. The reading
/// depends on the moment of the call, so nothing is promised of it.
#[verifier::external_body]
pub(crate) fn clock_now() -> (now: std::time::Instant) {
    std::time::Instant::now()
}

/// The moment that lies `timeout` after the clock reading `start`.
#[derive(Clone, Copy, Debug)]
pub struct Deadline {
    pub start: std::time::Instant,
    pub timeout: Duration,
}

} // verus!
