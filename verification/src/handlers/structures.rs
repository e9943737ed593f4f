//! The fair value gap detector: a window of three closed candles per key.

use vstd::prelude::*;
use crate::entities::candle::{Candle, Direction};
use crate::entities::structures::{TwoDKind, TwoDStructures};
use crate::entities::timerange::Timerange;
use crate::store::{key_of, Store};

verus! {

/// Number of closed candles over which a fair value gap is looked for.
pub const WINDOW_DEPTH: usize = 3;

/// The window once `c` has entered it: the newest [`WINDOW_DEPTH`] candles,
/// oldest first.
pub open spec fn slid(window: Seq<Candle>, c: Candle) -> Seq<Candle> {
    let grown = window.push(c);
    if grown.len() > WINDOW_DEPTH {
        grown.subrange(grown.len() - WINDOW_DEPTH, grown.len() as int)
    } else {
        grown
    }
}

/// Some candle of the window points in direction `d`, and every other one
/// does so too or is a doji.
pub open spec fn shares_direction(window: Seq<Candle>, d: Direction) -> bool {
    &&& d != Direction::Doji
    &&& forall|i: int|
        0 <= i < window.len() ==> #[trigger] window[i].direction() == d || window[i].direction()
            == Direction::Doji
    &&& exists|i: int| 0 <= i < window.len() && #[trigger] window[i].direction() == d
}

/// The direction on which the window's candles agree, dojis left aside.
pub open spec fn common_direction(window: Seq<Candle>) -> Option<Direction> {
    if shares_direction(window, Direction::Bullish) {
        Some(Direction::Bullish)
    } else if shares_direction(window, Direction::Bearish) {
        Some(Direction::Bearish)
    } else {
        None
    }
}

/// The gap between the first and the third candle of a full window whose
/// candles share a direction: upwards from the first high to the third low,
/// downwards from the first low to the third high.
pub open spec fn fair_value_gap(
    window: Seq<Candle>,
    symbol: &'static str,
    timerange: &'static str,
) -> Option<TwoDStructures> {
    if window.len() != WINDOW_DEPTH {
        None
    } else if common_direction(window) == Some(Direction::Bullish) && window[0].high
        < window[2].low {
        Some(
            TwoDStructures {
                symbol,
                structure: TwoDKind::FairValueGap,
                timerange,
                timestamp: window[2].timestamp,
                high: window[2].low,
                low: window[0].high,
                direction: Direction::Bullish,
            },
        )
    } else if common_direction(window) == Some(Direction::Bearish) && window[0].low
        > window[2].high {
        Some(
            TwoDStructures {
                symbol,
                structure: TwoDKind::FairValueGap,
                timerange,
                timestamp: window[2].timestamp,
                high: window[0].low,
                low: window[2].high,
                direction: Direction::Bearish,
            },
        )
    } else {
        None
    }
}

/// Lets `c` into the window and drops what is older than the newest
/// [`WINDOW_DEPTH`] candles.
pub fn slide(window: &mut Vec<Candle>, c: Candle)
    ensures
        final(window)@ == slid(old(window)@, c),
{
    let n = window.len();
    let mut next: Vec<Candle> = Vec::new();
    if n >= 2 {
        next.push(window[n - 2]);
    }
    if n >= 1 {
        next.push(window[n - 1]);
    }
    next.push(c);
    assert(next@ =~= slid(window@, c));
    *window = next;
}

/// The direction that the window's candles share, if they share one.
pub fn find_common_direction(window: &Vec<Candle>) -> (found: Option<Direction>)
    ensures
        found == common_direction(window@),
{
    let mut found: Option<Direction> = None;
    let mut i: usize = 0;
    let ghost mut witness: int = 0;
    while i < window.len()
        invariant
            i <= window.len(),
            found != Some(Direction::Doji),
            forall|j: int|
                0 <= j < i ==> Some(#[trigger] window@[j].direction()) == found
                    || window@[j].direction() == Direction::Doji,
            found.is_some() ==> 0 <= witness < i && Some(window@[witness].direction()) == found,
        decreases window.len() - i,
    {
        let direction = window[i].direction();
        if direction != Direction::Doji {
            match found {
                None => {
                    found = Some(direction);
                    proof {
                        witness = i as int;
                    }
                },
                Some(d) => {
                    if d != direction {
                        assert(window@[witness].direction() == d);
                        assert(window@[i as int].direction() == direction);
                        return None;
                    }
                },
            }
        }
        i += 1;
    }
    proof {
        if found.is_some() {
            assert(window@[witness].direction() == found.unwrap());
        }
    }
    found
}

/// The fair value gap that the window holds, stamped with the given key.
pub fn find_fair_value_gap(window: &Vec<Candle>, symbol: &'static str, timerange: &'static str)
    -> (gap: Option<TwoDStructures>)
    ensures
        gap == fair_value_gap(window@, symbol, timerange),
{
    if window.len() != WINDOW_DEPTH {
        return None;
    }
    let first = window[0];
    let third = window[2];
    match find_common_direction(window) {
        Some(Direction::Bullish) => {
            if first.high < third.low {
                Some(
                    TwoDStructures {
                        symbol,
                        structure: TwoDKind::FairValueGap,
                        timerange,
                        timestamp: third.timestamp,
                        high: third.low,
                        low: first.high,
                        direction: Direction::Bullish,
                    },
                )
            } else {
                None
            }
        },
        Some(Direction::Bearish) => {
            if first.low > third.high {
                Some(
                    TwoDStructures {
                        symbol,
                        structure: TwoDKind::FairValueGap,
                        timerange,
                        timestamp: third.timestamp,
                        high: first.low,
                        low: third.high,
                        direction: Direction::Bearish,
                    },
                )
            } else {
                None
            }
        },
        _ => None,
    }
}

/// Lets a closed candle into the window of the key that `symbol` and
/// `timerange` name, and returns the fair value gap that it completes.
pub fn processfairvaluegap(
    store: &mut Store,
    candle: Candle,
    symbol: &'static str,
    timerange: &Timerange,
) -> (gap: Option<TwoDStructures>)
    ensures
        final(store)@ == old(store)@.insert(
            key_of(symbol, timerange.label()),
            old(store).state_of(symbol, timerange.label()).with_window(candle),
        ),
        gap == fair_value_gap(
            slid(old(store).state_of(symbol, timerange.label()).window, candle),
            symbol,
            timerange.label(),
        ),
{
    let label = timerange.label();
    let ghost key = key_of(symbol, label);
    let mut state = store.take_or_fresh(symbol, label);
    let gap = state.detect_fair_value_gap(candle, symbol, label);
    store.put(symbol, label, state);
    assert(old(store)@.remove(key).insert(key, state@) =~= old(store)@.insert(key, state@));
    gap
}

} // verus!
