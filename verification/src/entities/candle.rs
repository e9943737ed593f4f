//! Candles and the direction in which they point.

use vstd::prelude::*;

verus! {

/// Where a candle closed relative to where it opened.
#[derive(Clone, Copy, Debug, PartialEq, Eq, Structural)]
pub enum Direction {
    Bullish,
    Bearish,
    Doji,
}

impl Direction {
    /// The direction that runs against this one; a doji has none.
    pub open spec fn opposite(self) -> Direction {
        match self {
            Direction::Bullish => Direction::Bearish,
            Direction::Bearish => Direction::Bullish,
            Direction::Doji => Direction::Doji,
        }
    }

    /// The lower-case name under which a direction is stored and published.
    pub open spec fn label_text(self) -> Seq<char> {
        match self {
            Direction::Bullish => "bullish"@,
            Direction::Bearish => "bearish"@,
            Direction::Doji => "doji"@,
        }
    }

    pub fn label(self) -> (s: &'static str)
        ensures
            s@ == self.label_text(),
    {
        match self {
            Direction::Bullish => "bullish",
            Direction::Bearish => "bearish",
            Direction::Doji => "doji",
        }
    }

    /// The capitalised name under which the direction of a break of
    /// structure, a change of character or an order block is stored and
    /// published.
    pub open spec fn title_text(self) -> Seq<char> {
        match self {
            Direction::Bullish => "Bullish"@,
            Direction::Bearish => "Bearish"@,
            Direction::Doji => "Doji"@,
        }
    }

    pub fn title(self) -> (s: &'static str)
        ensures
            s@ == self.title_text(),
    {
        match self {
            Direction::Bullish => "Bullish",
            Direction::Bearish => "Bearish",
            Direction::Doji => "Doji",
        }
    }
}

/// Direction of a bar that opened at `open` and closed at `close`.
pub open spec fn direction_of(open: int, close: int) -> Direction {
    if close > open {
        Direction::Bullish
    } else if close < open {
        Direction::Bearish
    } else {
        Direction::Doji
    }
}

pub fn get_direction(open: i64, close: i64) -> (d: Direction)
    ensures
        d == direction_of(open as int, close as int),
{
    if close > open {
        Direction::Bullish
    } else if close < open {
        Direction::Bearish
    } else {
        Direction::Doji
    }
}

/// One price bar of `symbol` over the bucket of `timerange` that starts at
/// `timestamp`.
#[derive(Clone, Copy, Debug, PartialEq, Eq)]
pub struct Candle {
    pub symbol: &'static str,
    pub timerange: &'static str,
    pub timestamp: i64,
    pub open: i64,
    pub high: i64,
    pub low: i64,
    pub close: i64,
    pub volume: u64,
}

impl Candle {
    pub fn new(
        symbol: &'static str,
        timerange: &'static str,
        timestamp: i64,
        open: i64,
        high: i64,
        low: i64,
        close: i64,
        volume: u64,
    ) -> (c: Candle)
        ensures
            c == (Candle { symbol, timerange, timestamp, open, high, low, close, volume }),
    {
        Candle { symbol, timerange, timestamp, open, high, low, close, volume }
    }

    /// The direction is derived from open and close, so it follows the close
    /// of an accumulator as it moves.
    pub open spec fn spec_direction(&self) -> Direction {
        direction_of(self.open as int, self.close as int)
    }

    #[verifier::when_used_as_spec(spec_direction)]
    pub fn direction(&self) -> (d: Direction)
        ensures
            d == self.spec_direction(),
    {
        get_direction(self.open, self.close)
    }

    /// Open and close lie between low and high.
    pub open spec fn spec_is_well_formed(&self) -> bool {
        &&& self.low <= self.open <= self.high
        &&& self.low <= self.close <= self.high
    }

    #[verifier::when_used_as_spec(spec_is_well_formed)]
    pub fn is_well_formed(&self) -> (b: bool)
        ensures
            b == self.spec_is_well_formed(),
    {
        self.low <= self.open && self.open <= self.high && self.low <= self.close
            && self.close <= self.high
    }
}

} // verus!
