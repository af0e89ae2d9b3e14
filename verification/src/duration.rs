//! Spans of time, counted in whole nanoseconds.

use vstd::prelude::*;
use vstd::string::*;

verus! {

/// Nanoseconds in one second.
pub const NANOS_PER_SEC: u32 = 1_000_000_000;

/// Nanoseconds in one millisecond.
pub const NANOS_PER_MILLI: u32 = 1_000_000;

/// A span of time with nanosecond resolution.
#[derive(Debug, Clone, Copy, PartialEq, Eq, Structural)]
pub struct Duration {
    secs: u64,
    nanos: u32,
}

/// The debug rendering that std gives a span of `secs` seconds and `nanos` nanoseconds.
pub uninterp spec fn std_debug_duration(secs: u64, nanos: u32) -> Seq<char>;

/// The debug rendering of a span of `total` nanoseconds.
pub open spec fn duration_text(total: nat) -> Seq<char> {
    std_debug_duration((total / 1_000_000_000) as u64, (total % 1_000_000_000) as u32)
}

/// The smaller of two spans.
pub open spec fn shorter(a: nat, b: nat) -> nat {
    if a <= b {
        a
    } else {
        b
    }
}

/// The larger of two spans.
pub open spec fn longer(a: nat, b: nat) -> nat {
    if a >= b {
        a
    } else {
        b
    }
}

/// `a - b`, or zero where `b` is larger.
pub open spec fn monus(a: nat, b: nat) -> nat {
    if a >= b {
        (a - b) as nat
    } else {
        0
    }
}

/// Calls `Debug` of `std::time::Duration` for the span of `secs` seconds and `nanos` nanoseconds.
/// The rendering depends on these two numbers alone; it is known here by name only.
#[verifier::external_body]
fn format_std_duration(secs: u64, nanos: u32) -> (text: String)
    requires
        nanos < 1_000_000_000,
    ensures
        text@ == std_debug_duration(secs, nanos),
{
    format!("{:?}", std::time::Duration::new(secs, nanos))
}

impl DeepView for Duration {
    type V = nat;

    closed spec fn deep_view(&self) -> nat {
        self.secs as nat * 1_000_000_000 + self.nanos as nat
    }
}

impl View for Duration {
    type V = nat;

    open spec fn view(&self) -> nat {
        self.deep_view()
    }
}

impl Duration {
    #[verifier::type_invariant]
    spec fn normalized(self) -> bool {
        self.nanos < 1_000_000_000
    }

    /// A span of `secs` seconds and `nanos` nanoseconds.
    pub fn new(secs: u64, nanos: u32) -> (span: Duration)
        requires
            nanos < 1_000_000_000,
        ensures
            span@ == secs * 1_000_000_000 + nanos,
    {
        Duration { secs, nanos }
    }

    /// The empty span.
    pub fn zero() -> (span: Duration)
        ensures
            span@ == 0,
    {
        Duration { secs: 0, nanos: 0 }
    }

    /// A span of whole seconds.
    pub fn from_secs(secs: u64) -> (span: Duration)
        ensures
            span@ == secs * 1_000_000_000,
    {
        Duration { secs, nanos: 0 }
    }

    /// A span of whole milliseconds.
    pub fn from_millis(millis: u64) -> (span: Duration)
        ensures
            span@ == millis * 1_000_000,
    {
        let rest: u64 = millis % 1000;
        Duration { secs: millis / 1000, nanos: (rest as u32) * NANOS_PER_MILLI }
    }

    /// The whole seconds of the span.
    pub fn as_secs(&self) -> (secs: u64)
        ensures
            secs == self@ / 1_000_000_000,
    {
        proof {
            use_type_invariant(self);
        }
        self.secs
    }

    /// The nanoseconds past the last whole second.
    pub fn subsec_nanos(&self) -> (nanos: u32)
        ensures
            nanos == self@ % 1_000_000_000,
            nanos < 1_000_000_000,
    {
        proof {
            use_type_invariant(self);
        }
        self.nanos
    }

    /// The whole milliseconds of the span.
    pub fn as_millis(&self) -> (millis: u128)
        ensures
            millis == self@ / 1_000_000,
    {
        proof {
            use_type_invariant(self);
        }
        (self.secs as u128) * 1000u128 + (self.nanos / NANOS_PER_MILLI) as u128
    }

    /// Whether the span is empty.
    pub fn is_zero(&self) -> (zero: bool)
        ensures
            zero == (self@ == 0),
    {
        self.secs == 0 && self.nanos == 0
    }

    /// Whether the span is at most `other`.
    pub fn at_most(&self, other: &Duration) -> (result: bool)
        ensures
            result == (self@ <= other@),
    {
        proof {
            use_type_invariant(self);
            use_type_invariant(other);
        }
        self.secs < other.secs || (self.secs == other.secs && self.nanos <= other.nanos)
    }

    /// The smaller of two spans.
    pub fn min(self, other: Duration) -> (span: Duration)
        ensures
            span@ == shorter(self@, other@),
    {
        if self.at_most(&other) {
            self
        } else {
            other
        }
    }

    /// The larger of two spans.
    pub fn max(self, other: Duration) -> (span: Duration)
        ensures
            span@ == longer(self@, other@),
    {
        if other.at_most(&self) {
            self
        } else {
            other
        }
    }

    /// The span without `other`, or the empty span where `other` is larger.
    pub fn saturating_sub(self, other: Duration) -> (span: Duration)
        ensures
            span@ == monus(self@, other@),
    {
        proof {
            use_type_invariant(&self);
            use_type_invariant(&other);
        }
        if self.at_most(&other) {
            Duration { secs: 0, nanos: 0 }
        } else if self.nanos >= other.nanos {
            Duration { secs: self.secs - other.secs, nanos: self.nanos - other.nanos }
        } else {
            Duration {
                secs: self.secs - other.secs - 1,
                nanos: NANOS_PER_SEC - other.nanos + self.nanos,
            }
        }
    }

    /// The debug rendering of the span, such as `25ms`.
    pub fn debug_text(&self) -> (text: String)
        ensures
            text@ == duration_text(self@),
    {
        proof {
            use_type_invariant(self);
        }
        format_std_duration(self.secs, self.nanos)
    }
}

/// The milliseconds of a span, capped at what 64 bits hold.
pub open spec fn millis_of(total: nat) -> u64 {
    if total / 1_000_000 <= u64::MAX {
        (total / 1_000_000) as u64
    } else {
        u64::MAX
    }
}

/// The whole milliseconds of `duration`, capped at `u64::MAX`.
pub fn duration_to_millis(duration: Option<Duration>) -> (millis: Option<u64>)
    ensures
        millis == match duration.deep_view() {
            Some(total) => Some(millis_of(total)),
            None => None,
        },
{
    match duration {
        Some(duration) => {
            let millis: u128 = duration.as_millis();
            if millis <= u64::MAX as u128 {
                Some(millis as u64)
            } else {
                Some(u64::MAX)
            }
        },
        None => None,
    }
}

/// The span of `millis` milliseconds.
pub fn duration_from_millis(millis: Option<u64>) -> (duration: Option<Duration>)
    ensures
        duration.deep_view() == match millis {
            Some(count) => Some((count * 1_000_000) as nat),
            None => None,
        },
{
    match millis {
        Some(count) => Some(Duration::from_millis(count)),
        None => None,
    }
}

/// A span of whole milliseconds survives the way to a millisecond count and back.
pub proof fn millis_round_trip(millis: u64)
    ensures
        millis_of((millis * 1_000_000) as nat) == millis,
{
}

/// The shorter and the longer of two spans are one of them each and add up to both; a difference
/// restores the longer span, and is nothing where there is none. Milliseconds are counted whole,
/// and no more than a counter holds.
pub proof fn spans_are_compared_and_taken_apart(a: nat, b: nat)
    ensures
        shorter(a, b) <= a && shorter(a, b) <= b,
        longer(a, b) >= a && longer(a, b) >= b,
        shorter(a, b) + longer(a, b) == a + b,
        monus(a, b) + b == longer(a, b),
        a < 1_000_000 * 18_446_744_073_709_551_616 ==> millis_of(a) * 1_000_000 <= a && a
            < millis_of(a) * 1_000_000 + 1_000_000,
        a >= 1_000_000 * 18_446_744_073_709_551_615 ==> millis_of(a) == u64::MAX,
{
}

/// A span is rendered by its whole seconds and the nanoseconds beyond them.
pub proof fn spans_are_rendered_whole(secs: u64, nanos: u32)
    requires
        nanos < 1_000_000_000,
    ensures
        duration_text((secs * 1_000_000_000 + nanos) as nat) == std_debug_duration(secs, nanos),
{
    let total = secs * 1_000_000_000 + nanos;
    assert(total / 1_000_000_000 == secs && total % 1_000_000_000 == nanos);
}

} // verus!
