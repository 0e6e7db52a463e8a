//! Spans of time with nanosecond resolution, as plain integers.

use vstd::prelude::*;

verus! {

/// Nanoseconds in one second.
pub const NANOS_PER_SEC: u32 = 1_000_000_000;

/// Nanoseconds in one millisecond.
pub const NANOS_PER_MILLI: u32 = 1_000_000;

/// The longest span that can be represented, in nanoseconds.
pub open spec fn max_nanos() -> nat {
    (u64::MAX as nat) * 1_000_000_000 + 999_999_999
}

/// A non-negative span of time: whole seconds and the nanoseconds beyond
/// them. Used both for spans between two instants and for instants counted
/// from an origin (an epoch, or the start of a monotonic clock).
#[derive(Clone, Copy, Debug, PartialEq, Eq, Structural)]
pub struct TimeSpan {
    secs: u64,
    nanos: u32,
}

impl View for TimeSpan {
    type V = nat;

    /// The span in nanoseconds.
    closed spec fn view(&self) -> nat {
        (self.secs as nat) * 1_000_000_000 + (self.nanos as nat)
    }
}

impl TimeSpan {
    /// Whether the sub-second part is a proper fraction of a second. Every
    /// value that executable code holds satisfies this.
    #[verifier::type_invariant]
    pub closed spec fn wf(self) -> bool {
        self.nanos < NANOS_PER_SEC
    }

    /// The span of `secs` seconds and `nanos` nanoseconds, or `None` when
    /// `nanos` is a second or more.
    pub fn new(secs: u64, nanos: u32) -> (r: Option<TimeSpan>)
        ensures
            r.is_some() <==> nanos < NANOS_PER_SEC,
            r matches Some(t) ==> t.wf() && t@ == secs * 1_000_000_000 + nanos,
    {
        if nanos < NANOS_PER_SEC {
            Some(TimeSpan { secs, nanos })
        } else {
            None
        }
    }

    /// The empty span.
    pub fn zero() -> (r: TimeSpan)
        ensures
            r.wf(),
            r@ == 0,
    {
        TimeSpan { secs: 0, nanos: 0 }
    }

    /// Whole seconds in the span.
    pub fn as_secs(&self) -> (r: u64)
        ensures
            self.wf(),
            r == self@ / 1_000_000_000,
    {
        proof {
            use_type_invariant(self);
        }
        self.secs
    }

    /// Nanoseconds beyond the whole seconds.
    pub fn subsec_nanos(&self) -> (r: u32)
        ensures
            self.wf(),
            r == self@ % 1_000_000_000,
            r < NANOS_PER_SEC,
    {
        proof {
            use_type_invariant(self);
        }
        self.nanos
    }

    /// Whole milliseconds in the span.
    pub fn as_millis(&self) -> (r: u128)
        ensures
            r == self@ / 1_000_000,
    {
        proof {
            use_type_invariant(self);
        }
        let sub: u32 = self.nanos / NANOS_PER_MILLI;
        let whole: u128 = (self.secs as u128) * 1000;
        assert((self.secs as nat) * 1_000_000_000 + (self.nanos as nat) == 1_000_000 * (
        (self.secs as nat) * 1000 + (sub as nat)) + (self.nanos % NANOS_PER_MILLI) as nat)
            by (nonlinear_arith)
            requires
                sub == self.nanos / NANOS_PER_MILLI,
        ;
        proof {
            vstd::arithmetic::div_mod::lemma_fundamental_div_mod_converse(
                self@ as int,
                1_000_000,
                (self.secs as int) * 1000 + (sub as int),
                (self.nanos % NANOS_PER_MILLI) as int,
            );
        }
        whole + (sub as u128)
    }

    /// Whether the span is empty.
    pub fn is_zero(&self) -> (r: bool)
        ensures
            r == (self@ == 0),
    {
        self.secs == 0 && self.nanos == 0
    }

    /// Whether this span is no longer than `other`.
    pub fn le(&self, other: &TimeSpan) -> (r: bool)
        ensures
            r == (self@ <= other@),
    {
        proof {
            use_type_invariant(self);
            use_type_invariant(other);
        }
        self.secs < other.secs || (self.secs == other.secs && self.nanos <= other.nanos)
    }

    /// The time from `earlier` to `self`, or the empty span when `earlier`
    /// is not earlier.
    pub fn saturating_sub(&self, earlier: &TimeSpan) -> (r: TimeSpan)
        ensures
            r.wf(),
            r@ == if self@ >= earlier@ {
                self@ - earlier@
            } else {
                0
            },
    {
        proof {
            use_type_invariant(self);
            use_type_invariant(earlier);
        }
        if self.le(earlier) {
            TimeSpan { secs: 0, nanos: 0 }
        } else if self.nanos >= earlier.nanos {
            TimeSpan { secs: self.secs - earlier.secs, nanos: self.nanos - earlier.nanos }
        } else {
            TimeSpan {
                secs: self.secs - earlier.secs - 1,
                nanos: self.nanos + (NANOS_PER_SEC - earlier.nanos),
            }
        }
    }

    /// The later of two instants.
    pub fn later(&self, other: &TimeSpan) -> (r: TimeSpan)
        ensures
            r.wf(),
            r@ == if self@ >= other@ {
                self@
            } else {
                other@
            },
            r == *self || r == *other,
    {
        proof {
            use_type_invariant(self);
            use_type_invariant(other);
        }
        if other.le(self) {
            *self
        } else {
            *other
        }
    }
}

/// Every well-formed span is at most `max_nanos()` long, and two well-formed
/// spans of the same length are the same value.
pub proof fn lemma_span_bounded_and_canonical(a: TimeSpan, b: TimeSpan)
    requires
        a.wf(),
        b.wf(),
    ensures
        a@ <= max_nanos(),
        a@ == b@ <==> a == b,
{
    if a@ == b@ {
        assert(a.secs == b.secs && a.nanos == b.nanos) by (nonlinear_arith)
            requires
                (a.secs as nat) * 1_000_000_000 + (a.nanos as nat) == (b.secs as nat)
                    * 1_000_000_000 + (b.nanos as nat),
                a.nanos < 1_000_000_000,
                b.nanos < 1_000_000_000,
        ;
    }
    assert((a.secs as nat) * 1_000_000_000 <= (u64::MAX as nat) * 1_000_000_000)
        by (nonlinear_arith)
        requires
            a.secs <= u64::MAX,
    ;
}

} // verus!
