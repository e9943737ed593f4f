//! The timeranges into which base candles are rolled up.

use vstd::prelude::*;

verus! {

/// Longest bucket a timerange may span: the largest `i64`, so that a
/// duration can be added to an instant in signed arithmetic.
pub const MAX_DURATION_MS: u64 = 9_223_372_036_854_775_807;

/// A roll-up resolution: the label under which its candles are stored and
/// the span of one bucket in milliseconds.
#[derive(Clone, Copy, Debug, PartialEq, Eq)]
pub struct Timerange {
    label: &'static str,
    duration_ms: u64,
}

impl Timerange {
    #[verifier::type_invariant]
    spec fn positive_span(self) -> bool {
        0 < self.duration_ms <= MAX_DURATION_MS
    }

    pub closed spec fn spec_label(&self) -> &'static str {
        self.label
    }

    pub closed spec fn spec_duration_ms(&self) -> u64 {
        self.duration_ms
    }

    /// A timerange of `duration_ms` milliseconds, unless that span is zero or
    /// exceeds [`MAX_DURATION_MS`].
    pub fn new(label: &'static str, duration_ms: u64) -> (t: Option<Timerange>)
        ensures
            t.is_some() <==> 0 < duration_ms <= MAX_DURATION_MS,
            t matches Some(tr) ==> tr.spec_label() == label && tr.spec_duration_ms()
                == duration_ms,
    {
        if 0 < duration_ms && duration_ms <= MAX_DURATION_MS {
            Some(Timerange { label, duration_ms })
        } else {
            None
        }
    }

    #[verifier::when_used_as_spec(spec_label)]
    pub fn label(&self) -> (l: &'static str)
        ensures
            l == self.spec_label(),
    {
        self.label
    }

    #[verifier::when_used_as_spec(spec_duration_ms)]
    pub fn duration_ms(&self) -> (d: u64)
        ensures
            d == self.spec_duration_ms(),
            0 < d <= MAX_DURATION_MS,
    {
        proof {
            use_type_invariant(self);
        }
        self.duration_ms
    }
}

/// The labels and spans of the supported timeranges, shortest first.
pub open spec fn registry() -> Seq<(Seq<char>, int)> {
    seq![
        ("5m"@, 300_000int),
        ("15m"@, 900_000int),
        ("30m"@, 1_800_000int),
        ("1h"@, 3_600_000int),
        ("4h"@, 14_400_000int),
        ("1d"@, 86_400_000int),
    ]
}

/// What a list of timeranges holds, as labels and spans.
pub open spec fn described(list: Seq<Timerange>) -> Seq<(Seq<char>, int)> {
    Seq::new(list.len(), |i: int| (list[i].spec_label()@, list[i].spec_duration_ms() as int))
}

/// The supported timeranges, in the order of [`registry`].
pub fn timeranges() -> (list: Vec<Timerange>)
    ensures
        described(list@) == registry(),
{
    let mut list: Vec<Timerange> = Vec::new();
    list.push(Timerange { label: "5m", duration_ms: 300_000 });
    list.push(Timerange { label: "15m", duration_ms: 900_000 });
    list.push(Timerange { label: "30m", duration_ms: 1_800_000 });
    list.push(Timerange { label: "1h", duration_ms: 3_600_000 });
    list.push(Timerange { label: "4h", duration_ms: 14_400_000 });
    list.push(Timerange { label: "1d", duration_ms: 86_400_000 });
    assert(described(list@) =~= registry());
    list
}

} // verus!
