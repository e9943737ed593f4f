//! What holds of the steps of the trend automaton.

use vstd::prelude::*;
use crate::entities::candle::{Candle, Direction};
use crate::entities::event::Event;
use crate::entities::structures::OneDKind;
use crate::entities::trend::{Subtrend, Trend, TrendState};
use crate::handlers::trends::{
    agrees, break_of_structure, breaks_structure, change_of_character, order_block, prolonged,
    relative_high, relative_low, resumed, seed_subtrend, trend_step,
};

verus! {

/// The state in which the automaton is after `candles`, fed in their order
/// and without replay.
pub open spec fn stepped_through(state: TrendState, candles: Seq<Candle>) -> TrendState
    decreases candles.len(),
{
    if candles.len() == 0 {
        state
    } else {
        trend_step(stepped_through(state, candles.drop_last()), candles.last()).state
    }
}

/// The event reports a break of structure.
pub open spec fn is_break_of_structure(e: Event) -> bool {
    e matches Event::OneD(s) && s.structure == OneDKind::BreakOfStructure
}

/// A doji that arrives while no trend is live starts none and raises
/// nothing.
pub proof fn lemma_doji_starts_no_trend(c: Candle)
    requires
        c.direction() == Direction::Doji,
    ensures
        trend_step(TrendState::NoTrend, c).state == TrendState::NoTrend,
        trend_step(TrendState::NoTrend, c).events == Seq::<Event>::empty(),
        trend_step(TrendState::NoTrend, c).reprocess_from.is_none(),
{
}

/// A doji never disagrees with a live trend: it opens no subtrend and
/// confirms no reversal, so the trend lives on.
pub proof fn lemma_doji_agrees_with_trend(state: TrendState, c: Candle)
    requires
        c.direction() == Direction::Doji,
        state.trend().is_some(),
    ensures
        agrees(state.trend().unwrap(), c),
        trend_step(state, c).state.trend().is_some(),
        state.subtrend().is_none() ==> trend_step(state, c).state.subtrend().is_none(),
        trend_step(state, c).reprocess_from.is_none(),
{
}

/// A subtrend lives only while a trend does, and only a change of character
/// asks for a replay, which it starts at the subtrend's beginning.
pub proof fn lemma_reprocess_only_on_reversal(state: TrendState, c: Candle)
    ensures
        trend_step(state, c).state.subtrend().is_some() ==> trend_step(
            state,
            c,
        ).state.trend().is_some(),
        trend_step(state, c).reprocess_from matches Some(datetime) ==> state.subtrend().is_some()
            && datetime == state.subtrend().unwrap().start_time && trend_step(state, c).state
            == TrendState::NoTrend,
{
}

/// While a trend lives, a candle leaves its key, its start, its direction
/// and its relative extremes as they were set when the trend began.
pub proof fn lemma_trend_keeps_its_origin(state: TrendState, c: Candle)
    requires
        state.trend().is_some(),
        trend_step(state, c).state.trend().is_some(),
    ensures
        trend_step(state, c).state.trend().unwrap().symbol == state.trend().unwrap().symbol,
        trend_step(state, c).state.trend().unwrap().timerange == state.trend().unwrap().timerange,
        trend_step(state, c).state.trend().unwrap().start_time == state.trend().unwrap().start_time,
        trend_step(state, c).state.trend().unwrap().direction == state.trend().unwrap().direction,
        trend_step(state, c).state.trend().unwrap().relative_high
            == state.trend().unwrap().relative_high,
        trend_step(state, c).state.trend().unwrap().relative_low
            == state.trend().unwrap().relative_low,
{
}

/// While a trend lives, its extremes only widen: no candle raises its low
/// or lowers its high.
pub proof fn lemma_trend_extremes_only_widen(state: TrendState, c: Candle)
    requires
        state.trend().is_some(),
        trend_step(state, c).state.trend().is_some(),
    ensures
        trend_step(state, c).state.trend().unwrap().low <= state.trend().unwrap().low,
        trend_step(state, c).state.trend().unwrap().high >= state.trend().unwrap().high,
{
}

/// A break of structure folds the subtrend's extreme into the trend's: the
/// low of a bullish trend becomes the lower of its own and the subtrend's,
/// the high of a bearish trend the higher of its own and the subtrend's, and
/// the instant of the extreme moves with it. The other extreme stays.
pub proof fn lemma_break_folds_the_subtrend(t: Trend, s: Subtrend, c: Candle)
    requires
        agrees(t, c),
        breaks_structure(t, s, c),
    ensures
        trend_step(TrendState::TrendWithSubtrend(t, s), c).state == TrendState::TrendOnly(
            resumed(t, s, c),
        ),
        t.direction == Direction::Bullish ==> resumed(t, s, c).low == (if s.low < t.low {
            s.low
        } else {
            t.low
        }) && resumed(t, s, c).low_datetime == (if s.low < t.low {
            s.last_relative_low_datetime
        } else {
            t.low_datetime
        }) && resumed(t, s, c).high == t.high && resumed(t, s, c).high_datetime
            == t.high_datetime,
        t.direction == Direction::Bearish ==> resumed(t, s, c).high == (if s.high > t.high {
            s.high
        } else {
            t.high
        }) && resumed(t, s, c).high_datetime == (if s.high > t.high {
            s.last_relative_high_datetime
        } else {
            t.high_datetime
        }) && resumed(t, s, c).low == t.low && resumed(t, s, c).low_datetime == t.low_datetime,
        resumed(t, s, c).end_time == c.timestamp,
{
}

/// The automaton has no trend yet, or a bullish trend without subtrend whose
/// high lies below that of the first candle to come.
pub open spec fn ready_to_rise(state: TrendState, candles: Seq<Candle>) -> bool {
    match state {
        TrendState::NoTrend => true,
        TrendState::TrendOnly(t) => t.direction == Direction::Bullish && (candles.len() > 0
            ==> t.high < candles[0].high),
        TrendState::TrendWithSubtrend(_, _) => false,
    }
}

/// Bullish candles with strictly rising highs keep the automaton in a
/// bullish trend without subtrend, and each of them moves the trend's high
/// to its own.
pub proof fn lemma_rising_candles_widen_the_trend(state: TrendState, candles: Seq<Candle>, n: int)
    requires
        ready_to_rise(state, candles),
        forall|i: int| 0 <= i < candles.len() ==> (#[trigger] candles[i]).direction()
            == Direction::Bullish,
        forall|i: int, j: int|
            0 <= i < j < candles.len() ==> (#[trigger] candles[i]).high < (#[trigger] candles[j]).high,
        1 <= n <= candles.len(),
    ensures
        stepped_through(state, candles.take(n)) matches TrendState::TrendOnly(t) && t.direction
            == Direction::Bullish && t.high == candles[n - 1].high && t.high_datetime
            == candles[n - 1].timestamp && t.end_time == candles[n - 1].timestamp,
    decreases n,
{
    let run = candles.take(n);
    assert(run.last() == candles[n - 1]);
    assert(run.drop_last() =~= candles.take(n - 1));
    if n == 1 {
        assert(stepped_through(state, candles.take(0)) == state);
    } else {
        lemma_rising_candles_widen_the_trend(state, candles, n - 1);
        assert(candles[n - 2].high < candles[n - 1].high);
    }
}

/// In a bullish trend a bearish candle opens a subtrend; a bullish candle
/// that then closes above the subtrend's high raises one break of structure,
/// first among its events, and ends the subtrend.
pub proof fn lemma_break_of_structure(t: Trend, b: Candle, c: Candle)
    requires
        t.direction == Direction::Bullish,
        b.direction() == Direction::Bearish,
        c.direction() == Direction::Bullish,
        c.close > b.high,
    ensures
        trend_step(TrendState::TrendOnly(t), b).state == TrendState::TrendWithSubtrend(
            t,
            seed_subtrend(b),
        ),
        trend_step(TrendState::TrendWithSubtrend(t, seed_subtrend(b)), c).state
            == TrendState::TrendOnly(resumed(t, seed_subtrend(b), c)),
        trend_step(TrendState::TrendWithSubtrend(t, seed_subtrend(b)), c).events == seq![
            Event::OneD(break_of_structure(t, seed_subtrend(b), c)),
            Event::OneD(relative_high(seed_subtrend(b), c)),
            Event::OneD(relative_low(seed_subtrend(b), c)),
            Event::TrendUpdated(resumed(t, seed_subtrend(b), c)),
        ],
        break_of_structure(t, seed_subtrend(b), c).price == b.high,
        resumed(t, seed_subtrend(b), c).low == (if b.low < t.low {
            b.low
        } else {
            t.low
        }),
        resumed(t, seed_subtrend(b), c).high == t.high,
        forall|i: int|
            0 <= i < 4 ==> (is_break_of_structure(
                #[trigger] trend_step(TrendState::TrendWithSubtrend(t, seed_subtrend(b)), c).events[i],
            ) <==> i == 0),
{
}

/// In a bullish trend with a bearish subtrend, a bearish candle that closes
/// below the trend's low raises an order block over the candle that opened
/// the subtrend and a change of character at the trend's low, retires the
/// trend and asks for a replay from the subtrend's start.
pub proof fn lemma_change_of_character(t: Trend, s: Subtrend, c: Candle)
    requires
        t.direction == Direction::Bullish,
        s.direction == Direction::Bearish,
        c.direction() == Direction::Bearish,
        c.close < t.low,
    ensures
        trend_step(TrendState::TrendWithSubtrend(t, s), c).state == TrendState::NoTrend,
        trend_step(TrendState::TrendWithSubtrend(t, s), c).reprocess_from == Some(s.start_time),
        trend_step(TrendState::TrendWithSubtrend(t, s), c).events == seq![
            Event::TwoD(order_block(s, c)),
            Event::OneD(change_of_character(t, s, c)),
            Event::TrendRetired(prolonged(t, c)),
        ],
        change_of_character(t, s, c).price == t.low,
        change_of_character(t, s, c).direction == Direction::Bearish,
        order_block(s, c).high == s.last_candle.high,
        order_block(s, c).low == s.last_candle.low,
{
}

/// The mirror image of [`lemma_break_of_structure`]: in a bearish trend a
/// bullish candle opens a subtrend, and a bearish candle that then closes
/// below the subtrend's low breaks the structure there and ends the
/// subtrend.
pub proof fn lemma_break_of_bearish_structure(t: Trend, b: Candle, c: Candle)
    requires
        t.direction == Direction::Bearish,
        b.direction() == Direction::Bullish,
        c.direction() == Direction::Bearish,
        c.close < b.low,
    ensures
        trend_step(TrendState::TrendOnly(t), b).state == TrendState::TrendWithSubtrend(
            t,
            seed_subtrend(b),
        ),
        trend_step(TrendState::TrendWithSubtrend(t, seed_subtrend(b)), c).state
            == TrendState::TrendOnly(resumed(t, seed_subtrend(b), c)),
        trend_step(TrendState::TrendWithSubtrend(t, seed_subtrend(b)), c).events == seq![
            Event::OneD(break_of_structure(t, seed_subtrend(b), c)),
            Event::OneD(relative_high(seed_subtrend(b), c)),
            Event::OneD(relative_low(seed_subtrend(b), c)),
            Event::TrendUpdated(resumed(t, seed_subtrend(b), c)),
        ],
        break_of_structure(t, seed_subtrend(b), c).price == b.low,
        resumed(t, seed_subtrend(b), c).high == (if b.high > t.high {
            b.high
        } else {
            t.high
        }),
        resumed(t, seed_subtrend(b), c).low == t.low,
{
}

/// The mirror image of [`lemma_change_of_character`]: in a bearish trend
/// with a bullish subtrend, a bullish candle that closes above the trend's
/// high changes the character there.
pub proof fn lemma_change_of_bearish_character(t: Trend, s: Subtrend, c: Candle)
    requires
        t.direction == Direction::Bearish,
        s.direction == Direction::Bullish,
        c.direction() == Direction::Bullish,
        c.close > t.high,
    ensures
        trend_step(TrendState::TrendWithSubtrend(t, s), c).state == TrendState::NoTrend,
        trend_step(TrendState::TrendWithSubtrend(t, s), c).reprocess_from == Some(s.start_time),
        trend_step(TrendState::TrendWithSubtrend(t, s), c).events == seq![
            Event::TwoD(order_block(s, c)),
            Event::OneD(change_of_character(t, s, c)),
            Event::TrendRetired(prolonged(t, c)),
        ],
        change_of_character(t, s, c).price == t.high,
        change_of_character(t, s, c).direction == Direction::Bullish,
{
}

/// A step raises something exactly when a trend was live before it. What it
/// raises then ends with the trend as it stands: updated while it lives on,
/// retired when the step has confirmed a reversal. Every event before that
/// one is a structure, so a trend is published exactly when it is retired.
pub proof fn lemma_trend_is_published_when_retired(state: TrendState, c: Candle)
    ensures
        trend_step(state, c).events.len() > 0 <==> state.trend().is_some(),
        trend_step(state, c).events.len() > 0 ==> (trend_step(state, c).events.last()
            is TrendRetired <==> trend_step(state, c).reprocess_from.is_some()),
        state.trend().is_some() && trend_step(state, c).reprocess_from.is_none() ==> trend_step(
            state,
            c,
        ).state.trend().is_some() && trend_step(state, c).events.last() == Event::TrendUpdated(
            trend_step(state, c).state.trend().unwrap(),
        ),
        forall|i: int|
            0 <= i < trend_step(state, c).events.len() - 1 ==> (#[trigger] trend_step(
                state,
                c,
            ).events[i]) is OneD || trend_step(state, c).events[i] is TwoD,
{
}

} // verus!
