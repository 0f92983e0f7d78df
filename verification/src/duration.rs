//! An unsigned span of time with nanosecond precision, the range of which is
//! that of whole seconds in a `u64` plus a fraction of a second.
use vstd::prelude::*;

verus! {

/// Nanoseconds in one second.
pub const NANOS_PER_SEC: u128 = 1_000_000_000;

/// The longest representable span, in nanoseconds.
pub open spec fn max_nanos() -> nat {
    u64::MAX as nat * 1_000_000_000 + 999_999_999
}

/// A non-negative span of time.
///
/// Its view is the length of the span in nanoseconds.
#[derive(Debug)]
pub struct UDuration {
    total_nanos: u128,
}

impl UDuration {
    #[verifier::type_invariant]
    spec fn in_range(self) -> bool {
        self.total_nanos <= max_nanos()
    }
}

impl View for UDuration {
    type V = nat;

    closed spec fn view(&self) -> nat {
        self.total_nanos as nat
    }
}

impl Clone for UDuration {
    fn clone(&self) -> (r: Self)
        ensures
            r@ == self@,
    {
        proof {
            use_type_invariant(self);
        }
        UDuration { total_nanos: self.total_nanos }
    }
}

impl Copy for UDuration {
}

impl UDuration {
    /// The empty span.
    pub fn zero() -> (r: Self)
        ensures
            r@ == 0,
    {
        UDuration { total_nanos: 0 }
    }

    /// A span of `secs` whole seconds.
    pub fn from_secs(secs: u64) -> (r: Self)
        ensures
            r@ == secs as nat * 1_000_000_000,
    {
        UDuration { total_nanos: secs as u128 * NANOS_PER_SEC }
    }

    /// A span of `millis` milliseconds.
    pub fn from_millis(millis: u64) -> (r: Self)
        ensures
            r@ == millis as nat * 1_000_000,
    {
        assert(millis as nat * 1_000_000 <= max_nanos()) by (nonlinear_arith)
            requires
                millis <= u64::MAX,
        ;
        UDuration { total_nanos: millis as u128 * 1_000_000 }
    }

    /// A span of `micros` microseconds.
    pub fn from_micros(micros: u64) -> (r: Self)
        ensures
            r@ == micros as nat * 1_000,
    {
        assert(micros as nat * 1_000 <= max_nanos()) by (nonlinear_arith)
            requires
                micros <= u64::MAX,
        ;
        UDuration { total_nanos: micros as u128 * 1_000 }
    }

    /// A span of `mins` minutes, which must fit in the range.
    pub fn from_mins(mins: u64) -> (r: Self)
        requires
            mins as nat * 60 <= u64::MAX,
        ensures
            r@ == mins as nat * 60 * 1_000_000_000,
    {
        UDuration { total_nanos: mins as u128 * 60 * NANOS_PER_SEC }
    }

    /// A span of `hours` hours, which must fit in the range.
    pub fn from_hours(hours: u64) -> (r: Self)
        requires
            hours as nat * 3600 <= u64::MAX,
        ensures
            r@ == hours as nat * 3600 * 1_000_000_000,
    {
        UDuration { total_nanos: hours as u128 * 3600 * NANOS_PER_SEC }
    }

    /// A span of `secs` seconds and `nanos` nanoseconds; nanoseconds beyond one
    /// second carry into the seconds, which must stay within a `u64`.
    pub fn new(secs: u64, nanos: u32) -> (r: Self)
        requires
            secs as nat + nanos as nat / 1_000_000_000 <= u64::MAX,
        ensures
            r@ == secs as nat * 1_000_000_000 + nanos as nat,
    {
        assert(secs as nat * 1_000_000_000 + nanos as nat <= max_nanos()) by (nonlinear_arith)
            requires
                secs as nat + nanos as nat / 1_000_000_000 <= u64::MAX,
        ;
        UDuration { total_nanos: secs as u128 * NANOS_PER_SEC + nanos as u128 }
    }

    /// The number of whole seconds in the span.
    pub fn as_secs(&self) -> (r: u64)
        ensures
            r as nat == self@ / 1_000_000_000,
    {
        proof {
            use_type_invariant(self);
        }
        (self.total_nanos / NANOS_PER_SEC) as u64
    }

    /// The part of the span below one second, in nanoseconds.
    pub fn subsec_nanos(&self) -> (r: u32)
        ensures
            r as nat == self@ % 1_000_000_000,
    {
        (self.total_nanos % NANOS_PER_SEC) as u32
    }

    /// The sum of two spans, or `None` where it does not fit in the range.
    pub fn checked_add(&self, other: &Self) -> (r: Option<Self>)
        ensures
            self@ + other@ <= max_nanos() ==> (r matches Some(s) && s@ == self@ + other@),
            self@ + other@ > max_nanos() ==> r is None,
    {
        proof {
            use_type_invariant(self);
            use_type_invariant(other);
        }
        let sum = self.total_nanos + other.total_nanos;
        if sum <= u64::MAX as u128 * NANOS_PER_SEC + 999_999_999 {
            Some(UDuration { total_nanos: sum })
        } else {
            None
        }
    }

    /// Twice the span, or the longest span where twice does not fit.
    pub fn saturating_double(&self) -> (r: Self)
        ensures
            r@ == if self@ * 2 <= max_nanos() { self@ * 2 } else { max_nanos() },
    {
        proof {
            use_type_invariant(self);
        }
        let doubled = self.total_nanos * 2;
        if doubled <= u64::MAX as u128 * NANOS_PER_SEC + 999_999_999 {
            UDuration { total_nanos: doubled }
        } else {
            UDuration { total_nanos: u64::MAX as u128 * NANOS_PER_SEC + 999_999_999 }
        }
    }

    /// Half the span, rounded down to the nanosecond.
    pub fn half(&self) -> (r: Self)
        ensures
            r@ == self@ / 2,
    {
        proof {
            use_type_invariant(self);
        }
        UDuration { total_nanos: self.total_nanos / 2 }
    }

    /// The shorter of two spans.
    pub fn min(self, other: Self) -> (r: Self)
        ensures
            r@ == if self@ <= other@ { self@ } else { other@ },
    {
        if self.total_nanos <= other.total_nanos {
            self
        } else {
            other
        }
    }

    /// Whether this span is strictly shorter than `other`.
    pub fn lt(&self, other: &Self) -> (r: bool)
        ensures
            r == (self@ < other@),
    {
        self.total_nanos < other.total_nanos
    }

    /// Whether this span is at least as long as `other`.
    pub fn ge(&self, other: &Self) -> (r: bool)
        ensures
            r == (self@ >= other@),
    {
        self.total_nanos >= other.total_nanos
    }

    /// Whether two spans are of equal length.
    pub fn eq(&self, other: &Self) -> (r: bool)
        ensures
            r == (self@ == other@),
    {
        self.total_nanos == other.total_nanos
    }
}

} // verus!
