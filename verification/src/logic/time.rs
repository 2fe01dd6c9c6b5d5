use vstd::prelude::*;

verus! {

/// A reading of a monotonic clock, in nanoseconds since the clock's start.
#[derive(Debug, Clone, Copy, PartialEq, Eq, Structural)]
pub struct Timestamp {
    pub nanos: u64,
}

/// A span of time in nanoseconds.
#[derive(Debug, Clone, Copy, PartialEq, Eq, Structural)]
pub struct Span {
    pub nanos: u64,
}

/// The time from `earlier` to `later`, or no time where they are not in that
/// order.
pub open spec fn span_between(earlier: Timestamp, later: Timestamp) -> Span {
    Span {
        nanos: if later.nanos >= earlier.nanos {
            (later.nanos - earlier.nanos) as u64
        } else {
            0
        },
    }
}

impl Timestamp {
    /// The time since `earlier`, or no time where that is the later reading.
    pub fn duration_since(self, earlier: Timestamp) -> (span: Span)
        ensures
            span == span_between(earlier, self),
            self.nanos >= earlier.nanos ==> earlier.nanos + span.nanos == self.nanos,
            self.nanos < earlier.nanos ==> span.nanos == 0,
    {
        if self.nanos >= earlier.nanos {
            Span { nanos: self.nanos - earlier.nanos }
        } else {
            Span { nanos: 0 }
        }
    }
}

/// The span between two readings leads from the earlier to the later, and is
/// empty where they are not in that order. Spans that follow one another add up.
pub proof fn a_span_leads_from_the_earlier_to_the_later(
    first: Timestamp,
    second: Timestamp,
    third: Timestamp,
)
    ensures
        first.nanos <= second.nanos ==> first.nanos + span_between(first, second).nanos
            == second.nanos,
        first.nanos >= second.nanos ==> span_between(first, second).nanos == 0,
        first.nanos <= second.nanos <= third.nanos ==> span_between(first, second).nanos
            + span_between(second, third).nanos == span_between(first, third).nanos,
{
}

} // verus!
