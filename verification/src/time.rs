//! Spans of time, counted in whole nanoseconds.

use vstd::prelude::*;

verus! {

/// Nanoseconds in one second.
pub const NANOS_PER_SEC: u128 = 1_000_000_000;

/// Nanoseconds in one millisecond.
pub const NANOS_PER_MILLI: u128 = 1_000_000;

/// The longest span: `u64::MAX` seconds and 999,999,999 nanoseconds.
pub const MAX_NANOS: u128 = 18_446_744_073_709_551_615_999_999_999;

/// A non-negative length of time, or a reading of a monotonic clock taken as
/// the time since that clock's origin.
///
/// Its view is the number of nanoseconds, which never exceeds [`MAX_NANOS`].
#[derive(Clone, Copy, Debug, PartialEq, Eq, PartialOrd, Ord, Hash)]
pub struct Span {
    nanos: u128,
}

impl Span {
    /// Every span stays within the range that seconds in a `u64` and a
    /// sub-second part below one second can describe.
    #[verifier::type_invariant]
    pub closed spec fn wf(self) -> bool {
        self.nanos <= MAX_NANOS
    }

    /// The span in nanoseconds.
    pub closed spec fn view(self) -> nat {
        self.nanos as nat
    }

    /// A span of `nanos` nanoseconds, cut off at [`MAX_NANOS`].
    pub fn from_nanos(nanos: u128) -> (span: Span)
        ensures
            span.wf(),
            span@ == if nanos <= MAX_NANOS { nanos } else { MAX_NANOS },
    {
        if nanos <= MAX_NANOS {
            Span { nanos }
        } else {
            Span { nanos: MAX_NANOS }
        }
    }

    /// A span of whole seconds.
    pub fn from_secs(secs: u64) -> (span: Span)
        ensures
            span.wf(),
            span@ == secs * NANOS_PER_SEC,
    {
        let nanos: u128 = secs as u128 * NANOS_PER_SEC;
        Span { nanos }
    }

    /// A span of whole milliseconds.
    pub fn from_millis(millis: u64) -> (span: Span)
        ensures
            span.wf(),
            span@ == millis * NANOS_PER_MILLI,
    {
        let nanos: u128 = millis as u128 * NANOS_PER_MILLI;
        Span { nanos }
    }

    /// The span of `secs` seconds and `subsec_nanos` further nanoseconds, cut
    /// off at [`MAX_NANOS`].
    pub fn new(secs: u64, subsec_nanos: u32) -> (span: Span)
        ensures
            span.wf(),
            span@ == if secs * NANOS_PER_SEC + subsec_nanos <= MAX_NANOS {
                secs * NANOS_PER_SEC + subsec_nanos
            } else {
                MAX_NANOS as int
            },
    {
        let nanos: u128 = secs as u128 * NANOS_PER_SEC + subsec_nanos as u128;
        Span::from_nanos(nanos)
    }

    /// The span in nanoseconds.
    pub fn as_nanos(&self) -> (nanos: u128)
        ensures
            nanos == self@,
            nanos <= MAX_NANOS,
            self.wf(),
    {
        proof {
            use_type_invariant(self);
        }
        self.nanos
    }

    /// The whole seconds of the span.
    pub fn as_secs(&self) -> (secs: u64)
        ensures
            secs == self@ / (NANOS_PER_SEC as nat),
    {
        proof {
            use_type_invariant(self);
        }
        (self.nanos / NANOS_PER_SEC) as u64
    }

    /// The part of the span below one second, in nanoseconds.
    pub fn subsec_nanos(&self) -> (nanos: u32)
        ensures
            nanos == self@ % (NANOS_PER_SEC as nat),
    {
        (self.nanos % NANOS_PER_SEC) as u32
    }

    /// Whether the span is empty.
    pub fn is_zero(&self) -> (zero: bool)
        ensures
            zero == (self@ == 0),
    {
        self.nanos == 0
    }

    /// The sum of two spans, cut off at [`MAX_NANOS`].
    pub fn saturating_add(&self, other: Span) -> (sum: Span)
        ensures
            sum.wf(),
            sum@ == if self@ + other@ <= MAX_NANOS { self@ + other@ } else { MAX_NANOS as nat },
    {
        proof {
            use_type_invariant(self);
            use_type_invariant(&other);
        }
        Span::from_nanos(self.nanos + other.nanos)
    }

    /// The span left when `other` is taken away, or nothing if `other` is
    /// the longer one.
    pub fn saturating_sub(&self, other: Span) -> (rest: Span)
        ensures
            rest.wf(),
            rest@ == if self@ >= other@ { self@ - other@ } else { 0 },
    {
        proof {
            use_type_invariant(self);
        }
        if self.nanos >= other.nanos {
            Span { nanos: self.nanos - other.nanos }
        } else {
            Span { nanos: 0 }
        }
    }
}

} // verus!
