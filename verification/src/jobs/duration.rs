//! Spans of time with nanosecond precision, bounded as std's `Duration` is:
//! at most `u64::MAX` whole seconds plus 999 999 999 nanoseconds.

use vstd::prelude::*;

verus! {

/// The longest representable span, in nanoseconds.
pub const MAX_DURATION_NANOS: u128 = 18_446_744_073_709_551_615_999_999_999;

/// Nanoseconds in a second.
pub const NANOS_PER_SEC: u128 = 1_000_000_000;

/// A span of time.
#[derive(Debug, Clone, Copy, PartialEq, Eq, Structural)]
pub struct Duration {
    nanos: u128,
}

impl View for Duration {
    type V = nat;

    /// The span in nanoseconds.
    closed spec fn view(&self) -> nat {
        self.nanos as nat
    }
}

impl Duration {
    #[verifier::type_invariant]
    spec fn within_range(self) -> bool {
        self.nanos <= MAX_DURATION_NANOS
    }

    /// `secs` seconds and `nanos` nanoseconds.
    pub fn new(secs: u64, nanos: u32) -> (d: Duration)
        requires
            secs * NANOS_PER_SEC + nanos <= MAX_DURATION_NANOS,
        ensures
            d@ == secs * NANOS_PER_SEC + nanos,
    {
        assert(secs * NANOS_PER_SEC <= u64::MAX * NANOS_PER_SEC) by (nonlinear_arith);
        Duration { nanos: secs as u128 * NANOS_PER_SEC + nanos as u128 }
    }

    /// `millis` milliseconds.
    pub fn from_millis(millis: u64) -> (d: Duration)
        ensures
            d@ == millis * 1_000_000,
    {
        assert(millis * 1_000_000 <= u64::MAX * 1_000_000) by (nonlinear_arith);
        Duration { nanos: millis as u128 * 1_000_000 }
    }

    /// The span in nanoseconds.
    pub fn as_nanos(&self) -> (n: u128)
        ensures
            n == self@,
            n <= MAX_DURATION_NANOS,
    {
        proof {
            use_type_invariant(self);
        }
        self.nanos
    }

    /// The whole seconds in the span.
    pub fn as_secs(&self) -> (s: u64)
        ensures
            s == self@ / (NANOS_PER_SEC as nat),
    {
        proof {
            use_type_invariant(self);
        }
        (self.nanos / NANOS_PER_SEC) as u64
    }

    /// The nanoseconds past the whole seconds of the span.
    pub fn subsec_nanos(&self) -> (n: u32)
        ensures
            n == self@ % (NANOS_PER_SEC as nat),
    {
        (self.nanos % NANOS_PER_SEC) as u32
    }

    /// The span `rhs` times over, or `None` when that is longer than the
    /// longest representable span.
    pub fn checked_mul(self, rhs: u32) -> (d: Option<Duration>)
        ensures
            d matches Some(p) ==> p@ == self@ * rhs,
            d is None <==> self@ * rhs > MAX_DURATION_NANOS,
    {
        proof {
            use_type_invariant(self);
            assert(self.nanos * rhs <= MAX_DURATION_NANOS * u32::MAX) by (nonlinear_arith)
                requires
                    self.nanos <= MAX_DURATION_NANOS,
            ;
        }
        let product = self.nanos * rhs as u128;
        if product <= MAX_DURATION_NANOS {
            Some(Duration { nanos: product })
        } else {
            None
        }
    }

    /// The span `rhs` times over.
    pub fn times(self, rhs: u32) -> (d: Duration)
        requires
            self@ * rhs <= MAX_DURATION_NANOS,
        ensures
            d@ == self@ * rhs,
    {
        match self.checked_mul(rhs) {
            Some(d) => d,
            None => self,
        }
    }
}

} // verus!
