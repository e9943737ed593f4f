//! What holds of the queue and of the replays after a reversal.

use vstd::prelude::*;
use crate::entities::candle::{Candle, Direction};
use crate::entities::event::Event;
use crate::entities::trend::{Subtrend, Trend, TrendState};
use crate::handlers::replay::{
    anchored, kept_after, lemma_pruning_shortens, lemma_step_keeps_anchor, replayed, trend_run,
};
use crate::handlers::trends::{
    change_of_character, order_block, prolonged, seed_trend, trend_step,
};
use crate::laws::trends::stepped_through;

verus! {

/// Feeding `candles` from `state`, in their order, never asks for a replay.
pub open spec fn runs_clean(state: TrendState, candles: Seq<Candle>) -> bool
    decreases candles.len(),
{
    candles.len() == 0 || (runs_clean(state, candles.drop_last()) && trend_step(
        stepped_through(state, candles.drop_last()),
        candles.last(),
    ).reprocess_from.is_none())
}

/// A subtrend that has grown out of feeding the head of a queue began with
/// one of the candles fed.
pub proof fn lemma_fed_head_is_anchored(queue: Seq<Candle>, next: int)
    requires
        0 <= next <= queue.len(),
    ensures
        anchored(stepped_through(TrendState::NoTrend, queue.take(next)), queue, next),
    decreases next,
{
    if next > 0 {
        lemma_fed_head_is_anchored(queue, next - 1);
        assert(queue.take(next).drop_last() =~= queue.take(next - 1));
        assert(queue.take(next).last() == queue[next - 1]);
        lemma_step_keeps_anchor(
            stepped_through(TrendState::NoTrend, queue.take(next - 1)),
            queue,
            next - 1,
        );
    }
}

/// A replay ends in the state that a single pass over the queue it leaves
/// leads to, from no trend and without a further reversal.
pub proof fn lemma_replay_settles(
    state: TrendState,
    queue: Seq<Candle>,
    next: int,
    events: Seq<Event>,
)
    requires
        0 <= next <= queue.len(),
        state == stepped_through(TrendState::NoTrend, queue.take(next)),
        runs_clean(TrendState::NoTrend, queue.take(next)),
    ensures
        replayed(state, queue, next, events).state == stepped_through(
            TrendState::NoTrend,
            replayed(state, queue, next, events).queue,
        ),
        runs_clean(TrendState::NoTrend, replayed(state, queue, next, events).queue),
    decreases queue.len(), queue.len() - next,
{
    if next < queue.len() {
        let step = trend_step(state, queue[next]);
        assert(queue.take(next + 1).drop_last() =~= queue.take(next));
        assert(queue.take(next + 1).last() == queue[next]);
        match step.reprocess_from {
            None => {
                lemma_replay_settles(step.state, queue, next + 1, events + step.events);
            },
            Some(datetime) => {
                let rest = kept_after(queue, datetime);
                lemma_fed_head_is_anchored(queue, next);
                lemma_step_keeps_anchor(state, queue, next);
                let k = choose|k: int| 0 <= k < next && #[trigger] queue[k].timestamp == datetime;
                lemma_pruning_shortens(queue, datetime, k);
                assert(rest.take(0) =~= Seq::<Candle>::empty());
                lemma_replay_settles(step.state, rest, 0, events + step.events);
            },
        }
    } else {
        assert(queue.take(next) =~= queue);
    }
}

/// A candle that confirms a reversal leaves the automaton in the state that
/// a single pass over the remaining queue leads to, from no trend and
/// without a further reversal.
pub proof fn lemma_reversal_replays_the_queue(state: TrendState, queue: Seq<Candle>, c: Candle)
    requires
        trend_step(state, c).reprocess_from.is_some(),
    ensures
        trend_run(state, queue, c).state == stepped_through(
            TrendState::NoTrend,
            trend_run(state, queue, c).queue,
        ),
        runs_clean(TrendState::NoTrend, trend_run(state, queue, c).queue),
{
    let step = trend_step(state, c);
    let rest = kept_after(queue.push(c), step.reprocess_from.unwrap());
    assert(rest.take(0) =~= Seq::<Candle>::empty());
    lemma_replay_settles(step.state, rest, 0, step.events);
}

/// Every candle of the queue is later than `datetime`.
pub open spec fn all_later(queue: Seq<Candle>, datetime: i64) -> bool {
    forall|i: int| 0 <= i < queue.len() ==> (#[trigger] queue[i]).timestamp > datetime
}

/// Pruning keeps the candles that are later than the instant given, and
/// keeps them later than any instant that all candles were later than.
pub proof fn lemma_pruning_keeps_later(queue: Seq<Candle>, datetime: i64, bound: i64)
    ensures
        all_later(kept_after(queue, datetime), datetime),
        all_later(queue, bound) ==> all_later(kept_after(queue, datetime), bound),
    decreases queue.len(),
{
    reveal(Seq::filter);
    if queue.len() > 0 {
        lemma_pruning_keeps_later(queue.drop_last(), datetime, bound);
        if all_later(queue, bound) {
            assert forall|i: int| 0 <= i < queue.drop_last().len() implies (
            #[trigger] queue.drop_last()[i]).timestamp > bound by {
                assert(queue.drop_last()[i] == queue[i]);
            }
            assert(queue.last() == queue[queue.len() - 1]);
        }
    }
}

/// A replay leaves in the queue only candles that are later than any
/// instant that all its candles were later than.
pub proof fn lemma_replay_keeps_later(
    state: TrendState,
    queue: Seq<Candle>,
    next: int,
    events: Seq<Event>,
    bound: i64,
)
    requires
        all_later(queue, bound),
    ensures
        all_later(replayed(state, queue, next, events).queue, bound),
    decreases queue.len(), queue.len() - next,
{
    if 0 <= next < queue.len() {
        let step = trend_step(state, queue[next]);
        match step.reprocess_from {
            None => {
                lemma_replay_keeps_later(step.state, queue, next + 1, events + step.events, bound);
            },
            Some(datetime) => {
                let rest = kept_after(queue, datetime);
                lemma_pruning_keeps_later(queue, datetime, bound);
                if rest.len() < queue.len() {
                    lemma_replay_keeps_later(step.state, rest, 0, events + step.events, bound);
                }
            },
        }
    }
}

/// A trend that has grown out of a pass over a queue began with one of the
/// queue's candles.
pub proof fn lemma_trend_starts_in_queue(queue: Seq<Candle>)
    ensures
        stepped_through(TrendState::NoTrend, queue).trend() matches Some(t) ==> exists|k: int|
            0 <= k < queue.len() && #[trigger] queue[k].timestamp == t.start_time,
    decreases queue.len(),
{
    if queue.len() > 0 {
        let head = queue.drop_last();
        lemma_trend_starts_in_queue(head);
        let before = stepped_through(TrendState::NoTrend, head);
        let after = trend_step(before, queue.last()).state;
        if let Some(t) = after.trend() {
            if before.trend().is_some() && before.trend().unwrap().start_time == t.start_time {
                let k = choose|k: int|
                    0 <= k < head.len() && #[trigger] head[k].timestamp == t.start_time;
                assert(queue[k] == head[k]);
            } else {
                assert(queue[queue.len() - 1].timestamp == t.start_time);
            }
        }
    }
}

/// After a confirmed reversal every candle left in the queue is later than
/// the start of the subtrend that was confirmed, and so is the start of the
/// trend that the replay has seeded, if it has seeded one.
pub proof fn lemma_reversal_starts_later(state: TrendState, queue: Seq<Candle>, c: Candle)
    requires
        trend_step(state, c).reprocess_from.is_some(),
    ensures
        state.subtrend().is_some(),
        all_later(trend_run(state, queue, c).queue, state.subtrend().unwrap().start_time),
        trend_run(state, queue, c).state.trend() matches Some(t) ==> t.start_time
            > state.subtrend().unwrap().start_time,
{
    let step = trend_step(state, c);
    let datetime = step.reprocess_from.unwrap();
    let rest = kept_after(queue.push(c), datetime);
    lemma_pruning_keeps_later(queue.push(c), datetime, datetime);
    lemma_replay_keeps_later(step.state, rest, 0, step.events, datetime);
    lemma_reversal_replays_the_queue(state, queue, c);
    let left = trend_run(state, queue, c).queue;
    lemma_trend_starts_in_queue(left);
    if let Some(t) = trend_run(state, queue, c).state.trend() {
        let k = choose|k: int| 0 <= k < left.len() && #[trigger] left[k].timestamp == t.start_time;
        assert(left[k].timestamp > datetime);
    }
}

/// Pruning drops the whole queue when none of its candles is later than the
/// instant given.
pub proof fn lemma_pruning_can_drop_all(queue: Seq<Candle>, datetime: i64)
    requires
        forall|i: int| 0 <= i < queue.len() ==> (#[trigger] queue[i]).timestamp <= datetime,
    ensures
        kept_after(queue, datetime) == Seq::<Candle>::empty(),
    decreases queue.len(),
{
    reveal(Seq::filter);
    if queue.len() > 0 {
        assert forall|i: int| 0 <= i < queue.drop_last().len() implies (
        #[trigger] queue.drop_last()[i]).timestamp <= datetime by {
            assert(queue.drop_last()[i] == queue[i]);
        }
        lemma_pruning_can_drop_all(queue.drop_last(), datetime);
        assert(queue.last() == queue[queue.len() - 1]);
    }
}

/// In a bullish trend with a bearish subtrend, a bearish candle closes
/// below the trend's low while nothing is queued that is later than the
/// subtrend's start: the reversal is confirmed, the queue keeps that candle
/// alone, and the replay seeds a bearish trend with it.
pub proof fn lemma_reversal_seeds_the_next_trend(
    t: Trend,
    s: Subtrend,
    queue: Seq<Candle>,
    c: Candle,
)
    requires
        t.direction == Direction::Bullish,
        s.direction == Direction::Bearish,
        c.direction() == Direction::Bearish,
        c.close < t.low,
        forall|i: int| 0 <= i < queue.len() ==> (#[trigger] queue[i]).timestamp <= s.start_time,
        s.start_time < c.timestamp,
    ensures
        trend_run(TrendState::TrendWithSubtrend(t, s), queue, c).state == TrendState::TrendOnly(
            seed_trend(c),
        ),
        seed_trend(c).direction == Direction::Bearish,
        seed_trend(c).start_time == c.timestamp,
        trend_run(TrendState::TrendWithSubtrend(t, s), queue, c).queue == seq![c],
        trend_run(TrendState::TrendWithSubtrend(t, s), queue, c).events == seq![
            Event::TwoD(order_block(s, c)),
            Event::OneD(change_of_character(t, s, c)),
            Event::TrendRetired(prolonged(t, c)),
        ],
{
    let state = TrendState::TrendWithSubtrend(t, s);
    let step = trend_step(state, c);
    lemma_pruning_can_drop_all(queue, s.start_time);
    assert(kept_after(queue.push(c), s.start_time) =~= seq![c]) by {
        reveal(Seq::filter);
        assert(queue.push(c).drop_last() =~= queue);
        assert(queue.push(c).last() == c);
    }
    let rest = seq![c];
    let first = trend_step(TrendState::NoTrend, rest[0]);
    assert(first.events =~= Seq::<Event>::empty());
    assert(step.events + first.events =~= step.events);
    assert(replayed(first.state, rest, 1, step.events + first.events).state == first.state);
    assert(replayed(TrendState::NoTrend, rest, 0, step.events) == replayed(
        first.state,
        rest,
        1,
        step.events + first.events,
    ));
}

} // verus!
