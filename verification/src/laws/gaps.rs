//! What holds of the window and of the gaps found in it.

use vstd::prelude::*;
use crate::entities::candle::{Candle, Direction};
use crate::handlers::structures::{common_direction, fair_value_gap, shares_direction, slid};

verus! {

/// A doji is left aside when the window's direction is looked for: the
/// candles share the direction that they share without it.
pub proof fn lemma_doji_is_left_aside(window: Seq<Candle>, i: int)
    requires
        0 <= i < window.len(),
        window[i].direction() == Direction::Doji,
    ensures
        common_direction(window) == common_direction(window.remove(i)),
{
    lemma_shares_without_doji(window, i, Direction::Bullish);
    lemma_shares_without_doji(window, i, Direction::Bearish);
}

/// Whether the window's candles share `d` does not depend on a doji among
/// them.
pub proof fn lemma_shares_without_doji(window: Seq<Candle>, i: int, d: Direction)
    requires
        0 <= i < window.len(),
        window[i].direction() == Direction::Doji,
    ensures
        shares_direction(window, d) == shares_direction(window.remove(i), d),
{
    let rest = window.remove(i);
    assert forall|j: int| 0 <= j < rest.len() implies rest[j] == window[if j < i {
        j
    } else {
        j + 1
    }] by {}
    if shares_direction(window, d) {
        let k = choose|k: int| 0 <= k < window.len() && #[trigger] window[k].direction() == d;
        let k2 = if k < i {
            k
        } else {
            k - 1
        };
        assert(rest[k2] == window[k]);
        assert(rest[k2].direction() == d);
        assert forall|j: int| 0 <= j < rest.len() implies #[trigger] rest[j].direction() == d
            || rest[j].direction() == Direction::Doji by {
            let j2 = if j < i {
                j
            } else {
                j + 1
            };
            assert(window[j2].direction() == d || window[j2].direction() == Direction::Doji);
        }
        assert(shares_direction(rest, d));
    }
    if shares_direction(rest, d) {
        let k = choose|k: int| 0 <= k < rest.len() && #[trigger] rest[k].direction() == d;
        let k2 = if k < i {
            k
        } else {
            k + 1
        };
        assert(window[k2] == rest[k]);
        assert(window[k2].direction() == d);
        assert forall|j: int| 0 <= j < window.len() implies #[trigger] window[j].direction() == d
            || window[j].direction() == Direction::Doji by {
            if j != i {
                let j2 = if j < i {
                    j
                } else {
                    j - 1
                };
                assert(rest[j2] == window[j]);
                assert(rest[j2].direction() == d || rest[j2].direction() == Direction::Doji);
            }
        }
        assert(shares_direction(window, d));
    }
}

/// The window never holds more than three candles and its newest candle
/// is the one that entered last. Once it is full, a candle that enters
/// pushes the oldest out, so that a gap is judged on the newest three alone.
/// A gap is looked for only in a full window; one that is found has a low
/// below its high and bears the instant of the candle that entered last.
pub proof fn lemma_window_is_bounded(
    window: Seq<Candle>,
    c: Candle,
    symbol: &'static str,
    timerange: &'static str,
)
    requires
        window.len() <= 3,
    ensures
        slid(window, c).len() == (if window.len() < 3 {
            window.len() + 1
        } else {
            3
        }),
        slid(window, c).last() == c,
        window.len() == 3 ==> slid(window, c) == seq![window[1], window[2], c],
        window.len() < 2 ==> fair_value_gap(slid(window, c), symbol, timerange).is_none(),
        fair_value_gap(slid(window, c), symbol, timerange) matches Some(gap) ==> gap.low < gap.high
            && gap.timestamp == c.timestamp,
{
    if window.len() == 3 {
        assert(slid(window, c) =~= seq![window[1], window[2], c]);
    }
}

/// Three candles that share a direction leave a gap exactly when the first
/// and the third do not overlap: upwards between the first high and the
/// third low, downwards between the third high and the first low.
pub proof fn lemma_gap_lies_between_first_and_third(
    window: Seq<Candle>,
    symbol: &'static str,
    timerange: &'static str,
)
    requires
        window.len() == 3,
    ensures
        common_direction(window) == Some(Direction::Bullish) ==> (fair_value_gap(
            window,
            symbol,
            timerange,
        ).is_some() <==> window[0].high < window[2].low),
        common_direction(window) == Some(Direction::Bearish) ==> (fair_value_gap(
            window,
            symbol,
            timerange,
        ).is_some() <==> window[0].low > window[2].high),
        common_direction(window).is_none() ==> fair_value_gap(window, symbol, timerange).is_none(),
        fair_value_gap(window, symbol, timerange) matches Some(gap) ==> Some(gap.direction)
            == common_direction(window) && gap.symbol == symbol && gap.timerange == timerange && (
        gap.low, gap.high) == (if gap.direction == Direction::Bullish {
            (window[0].high, window[2].low)
        } else {
            (window[2].high, window[0].low)
        }),
{
}

} // verus!
