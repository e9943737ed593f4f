//! Trends, subtrends and the states of the trend automaton.

use vstd::prelude::*;
use crate::entities::candle::{Candle, Direction};

verus! {

/// The dominant move of a key. `high` and `low` are its extremes since it
/// began, each with the instant at which it was reached: candles that agree
/// with the trend widen them, and a break of structure folds the subtrend's
/// extreme into the one that a reversal has to break. Neither ever narrows.
/// `relative_high` and `relative_low` are the extremes with which the trend
/// began; they stay as they are until a confirmed reversal ends the trend.
#[derive(Clone, Copy, Debug, PartialEq, Eq)]
pub struct Trend {
    pub symbol: &'static str,
    pub timerange: &'static str,
    pub start_time: i64,
    pub end_time: i64,
    pub direction: Direction,
    pub high: i64,
    pub low: i64,
    pub high_datetime: i64,
    pub low_datetime: i64,
    pub relative_high: i64,
    pub relative_low: i64,
}

/// A counter-move inside a trend that is not yet confirmed as a reversal.
/// `last_candle` is the candle that opened it.
#[derive(Clone, Copy, Debug, PartialEq, Eq)]
pub struct Subtrend {
    pub start_time: i64,
    pub direction: Direction,
    pub high: i64,
    pub low: i64,
    pub last_candle: Candle,
    pub last_relative_low_datetime: i64,
    pub last_relative_high_datetime: i64,
}

/// The trend automaton's state for one key.
#[derive(Clone, Copy, Debug, PartialEq, Eq)]
pub enum TrendState {
    NoTrend,
    TrendOnly(Trend),
    TrendWithSubtrend(Trend, Subtrend),
}

impl TrendState {
    pub open spec fn spec_trend(&self) -> Option<Trend> {
        match *self {
            TrendState::NoTrend => None,
            TrendState::TrendOnly(t) => Some(t),
            TrendState::TrendWithSubtrend(t, _) => Some(t),
        }
    }

    pub open spec fn spec_subtrend(&self) -> Option<Subtrend> {
        match *self {
            TrendState::TrendWithSubtrend(_, s) => Some(s),
            _ => None,
        }
    }

    /// The live trend, if there is one.
    #[verifier::when_used_as_spec(spec_trend)]
    pub fn trend(&self) -> (t: Option<Trend>)
        ensures
            t == self.spec_trend(),
    {
        match *self {
            TrendState::NoTrend => None,
            TrendState::TrendOnly(t) => Some(t),
            TrendState::TrendWithSubtrend(t, _) => Some(t),
        }
    }

    /// The live subtrend, if there is one.
    #[verifier::when_used_as_spec(spec_subtrend)]
    pub fn subtrend(&self) -> (s: Option<Subtrend>)
        ensures
            s == self.spec_subtrend(),
    {
        match *self {
            TrendState::TrendWithSubtrend(_, s) => Some(s),
            _ => None,
        }
    }

    /// A live trend is bullish or bearish, and a subtrend runs against it.
    pub open spec fn well_formed(&self) -> bool {
        match *self {
            TrendState::NoTrend => true,
            TrendState::TrendOnly(t) => t.direction != Direction::Doji,
            TrendState::TrendWithSubtrend(t, s) => t.direction != Direction::Doji && s.direction
                == t.direction.opposite(),
        }
    }
}

} // verus!
