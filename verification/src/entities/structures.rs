//! The market structures that the detectors report.

use vstd::prelude::*;
use crate::entities::candle::Direction;

verus! {

/// The point structures that the trend automaton reports.
#[derive(Clone, Copy, Debug, PartialEq, Eq, Structural)]
pub enum OneDKind {
    BreakOfStructure,
    ChangeOfCharacter,
    RelativeHigh,
    RelativeLow,
}

impl OneDKind {
    pub open spec fn label_text(self) -> Seq<char> {
        match self {
            OneDKind::BreakOfStructure => "Break Of Structure"@,
            OneDKind::ChangeOfCharacter => "Change Of Character"@,
            OneDKind::RelativeHigh => "Relative High"@,
            OneDKind::RelativeLow => "Relative Low"@,
        }
    }

    /// The name under which the kind is stored and published.
    pub fn label(self) -> (s: &'static str)
        ensures
            s@ == self.label_text(),
    {
        match self {
            OneDKind::BreakOfStructure => "Break Of Structure",
            OneDKind::ChangeOfCharacter => "Change Of Character",
            OneDKind::RelativeHigh => "Relative High",
            OneDKind::RelativeLow => "Relative Low",
        }
    }
}

/// The range structures: a gap left by three candles, or the candle that
/// started a confirmed reversal.
#[derive(Clone, Copy, Debug, PartialEq, Eq, Structural)]
pub enum TwoDKind {
    FairValueGap,
    OrderBlock,
}

impl TwoDKind {
    pub open spec fn label_text(self) -> Seq<char> {
        match self {
            TwoDKind::FairValueGap => "Fair Value Gap"@,
            TwoDKind::OrderBlock => "Order Block"@,
        }
    }

    /// The name under which the kind is stored and published.
    pub fn label(self) -> (s: &'static str)
        ensures
            s@ == self.label_text(),
    {
        match self {
            TwoDKind::FairValueGap => "Fair Value Gap",
            TwoDKind::OrderBlock => "Order Block",
        }
    }
}

/// A structure at one price. Relative highs and lows carry no direction of
/// their own and are marked [`Direction::Doji`].
#[derive(Clone, Copy, Debug, PartialEq, Eq)]
pub struct OneDStructures {
    pub symbol: &'static str,
    pub structure: OneDKind,
    pub timerange: &'static str,
    pub timestamp: i64,
    pub price: i64,
    pub direction: Direction,
}

impl OneDStructures {
    /// The text under which the structure's direction is stored and
    /// published: a relative high or low goes under the name of its kind,
    /// any other point under the capitalised name of its direction.
    pub open spec fn direction_text(&self) -> Seq<char> {
        match self.structure {
            OneDKind::RelativeHigh => OneDKind::RelativeHigh.label_text(),
            OneDKind::RelativeLow => OneDKind::RelativeLow.label_text(),
            _ => self.direction.title_text(),
        }
    }

    pub fn direction_label(&self) -> (s: &'static str)
        ensures
            s@ == self.direction_text(),
    {
        match self.structure {
            OneDKind::RelativeHigh => OneDKind::RelativeHigh.label(),
            OneDKind::RelativeLow => OneDKind::RelativeLow.label(),
            _ => self.direction.title(),
        }
    }
}

/// A structure that spans the prices from `low` to `high`.
#[derive(Clone, Copy, Debug, PartialEq, Eq)]
pub struct TwoDStructures {
    pub symbol: &'static str,
    pub structure: TwoDKind,
    pub timerange: &'static str,
    pub timestamp: i64,
    pub high: i64,
    pub low: i64,
    pub direction: Direction,
}

impl TwoDStructures {
    /// The text under which the structure's direction is stored and
    /// published: a fair value gap goes under the lower-case name of the
    /// direction that its candles share, an order block under the
    /// capitalised name of its direction.
    pub open spec fn direction_text(&self) -> Seq<char> {
        match self.structure {
            TwoDKind::FairValueGap => self.direction.label_text(),
            TwoDKind::OrderBlock => self.direction.title_text(),
        }
    }

    pub fn direction_label(&self) -> (s: &'static str)
        ensures
            s@ == self.direction_text(),
    {
        match self.structure {
            TwoDKind::FairValueGap => self.direction.label(),
            TwoDKind::OrderBlock => self.direction.title(),
        }
    }
}

} // verus!
