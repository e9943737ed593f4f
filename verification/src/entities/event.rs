//! The events that the engine hands to its sinks.

use vstd::prelude::*;
use crate::entities::candle::Candle;
use crate::entities::structures::{OneDStructures, TwoDStructures};
use crate::entities::trend::Trend;

verus! {

/// What the engine hands to its sinks, in the order in which it arose.
/// Every event is to be persisted; all but [`Event::TrendUpdated`] are to be
/// published as well.
#[derive(Clone, Copy, Debug, PartialEq, Eq)]
pub enum Event {
    /// A bucket closed.
    CandleClosed(Candle),
    /// The live trend after a candle was applied to it.
    TrendUpdated(Trend),
    /// The trend that a change of character has just ended.
    TrendRetired(Trend),
    OneD(OneDStructures),
    TwoD(TwoDStructures),
}

impl Event {
    pub open spec fn spec_is_published(&self) -> bool {
        !(*self is TrendUpdated)
    }

    /// Whether the event goes to the broadcast sink too.
    #[verifier::when_used_as_spec(spec_is_published)]
    pub fn is_published(&self) -> (b: bool)
        ensures
            b == self.spec_is_published(),
    {
        match *self {
            Event::TrendUpdated(_) => false,
            _ => true,
        }
    }

    pub open spec fn type_tag_text(&self) -> Seq<char> {
        match *self {
            Event::CandleClosed(_) => "candle"@,
            Event::TrendUpdated(_) => "trend"@,
            Event::TrendRetired(_) => "trend"@,
            Event::OneD(_) => "One dimension structure"@,
            Event::TwoD(_) => "Two dimension structure"@,
        }
    }

    /// The `type` discriminator under which the event's payload is published.
    pub fn type_tag(&self) -> (s: &'static str)
        ensures
            s@ == self.type_tag_text(),
    {
        match *self {
            Event::CandleClosed(_) => "candle",
            Event::TrendUpdated(_) => "trend",
            Event::TrendRetired(_) => "trend",
            Event::OneD(_) => "One dimension structure",
            Event::TwoD(_) => "Two dimension structure",
        }
    }
}

} // verus!
