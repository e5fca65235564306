//! Lengths of time as whole seconds and nanoseconds, the way `std::time::Duration` holds them.
use vstd::prelude::*;

verus! {

pub open spec fn nanos_per_sec() -> int {
    1_000_000_000
}

/// A non-negative length of time: `secs` whole seconds and `nanos` (below one second) more.
#[derive(Clone, Copy, Debug, PartialEq, Eq, Hash, Structural)]
pub struct TimeSpan {
    secs: u64,
    nanos: u32,
}

impl TimeSpan {
    #[verifier::type_invariant]
    spec fn nanos_below_one_second(self) -> bool {
        self.nanos < 1_000_000_000
    }

    /// The length in nanoseconds.
    pub closed spec fn total_nanos(self) -> int {
        self.secs as int * nanos_per_sec() + self.nanos as int
    }

    /// The longest representable span, as `Duration::MAX`.
    pub open spec fn max_nanos() -> int {
        u64::MAX as int * nanos_per_sec() + 999_999_999
    }

    pub fn zero() -> (span: TimeSpan)
        ensures
            span.total_nanos() == 0,
    {
        TimeSpan { secs: 0, nanos: 0 }
    }

    pub fn from_secs(secs: u64) -> (span: TimeSpan)
        ensures
            span.total_nanos() == secs as int * nanos_per_sec(),
    {
        TimeSpan { secs, nanos: 0 }
    }

    pub fn from_millis(millis: u64) -> (span: TimeSpan)
        ensures
            span.total_nanos() == millis as int * 1_000_000,
    {
        let secs = millis / 1000;
        let rest = (millis % 1000) as u32;
        assert(secs as int * nanos_per_sec() + rest as int * 1_000_000 == millis as int * 1_000_000)
            by (nonlinear_arith)
            requires
                secs == millis / 1000,
                rest == millis % 1000,
        ;
        TimeSpan { secs, nanos: rest * 1_000_000 }
    }

    /// The span of exactly `total` nanoseconds.
    pub fn from_nanos_total(total: u128) -> (span: TimeSpan)
        requires
            total <= Self::max_nanos(),
        ensures
            span.total_nanos() == total,
    {
        let secs_wide = total / 1_000_000_000;
        let nanos = (total % 1_000_000_000) as u32;
        assert(secs_wide <= u64::MAX) by (nonlinear_arith)
            requires
                secs_wide == total / 1_000_000_000,
                total <= u64::MAX as int * 1_000_000_000 + 999_999_999,
        ;
        let secs = secs_wide as u64;
        assert(secs as int * nanos_per_sec() + nanos as int == total) by (nonlinear_arith)
            requires
                secs == total / 1_000_000_000,
                nanos == total % 1_000_000_000,
        ;
        TimeSpan { secs, nanos }
    }

    pub fn as_nanos(&self) -> (total: u128)
        ensures
            total == self.total_nanos(),
            total <= Self::max_nanos(),
    {
        proof {
            use_type_invariant(self);
        }
        assert(self.secs as int * nanos_per_sec() <= u64::MAX as int * nanos_per_sec()) by (nonlinear_arith)
            requires
                self.secs <= u64::MAX,
        ;
        self.secs as u128 * 1_000_000_000 + self.nanos as u128
    }

    /// Whole milliseconds, rounded down.
    pub fn as_millis(&self) -> (millis: u128)
        ensures
            millis == self.total_nanos() / 1_000_000,
    {
        self.as_nanos() / 1_000_000
    }

    pub fn as_secs(&self) -> (secs: u64)
        ensures
            secs == self.total_nanos() / nanos_per_sec(),
    {
        proof {
            use_type_invariant(self);
        }
        assert((self.secs as int * nanos_per_sec() + self.nanos as int) / nanos_per_sec() == self.secs)
            by (nonlinear_arith)
            requires
                0 <= self.nanos < 1_000_000_000,
        ;
        self.secs
    }

    pub fn subsec_nanos(&self) -> (nanos: u32)
        ensures
            nanos == self.total_nanos() % nanos_per_sec(),
    {
        proof {
            use_type_invariant(self);
        }
        assert((self.secs as int * nanos_per_sec() + self.nanos as int) % nanos_per_sec() == self.nanos)
            by (nonlinear_arith)
            requires
                0 <= self.nanos < 1_000_000_000,
        ;
        self.nanos
    }

    pub fn is_zero(&self) -> (zero: bool)
        ensures
            zero == (self.total_nanos() == 0),
    {
        proof {
            use_type_invariant(self);
        }
        self.secs == 0 && self.nanos == 0
    }

    pub fn shorter_than(&self, other: &TimeSpan) -> (shorter: bool)
        ensures
            shorter == (self.total_nanos() < other.total_nanos()),
    {
        self.as_nanos() < other.as_nanos()
    }

    /// The sum, or `None` when it exceeds the longest representable span.
    pub fn checked_add(&self, other: &TimeSpan) -> (sum: Option<TimeSpan>)
        ensures
            match sum {
                Some(s) => s.total_nanos() == self.total_nanos() + other.total_nanos(),
                None => self.total_nanos() + other.total_nanos() > Self::max_nanos(),
            },
    {
        let total = self.as_nanos() + other.as_nanos();
        if total <= 18_446_744_073_709_551_615u128 * 1_000_000_000 + 999_999_999 {
            Some(TimeSpan::from_nanos_total(total))
        } else {
            None
        }
    }
}

} // verus!
