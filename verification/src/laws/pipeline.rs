//! What holds of the whole pipeline of a key.

use vstd::prelude::*;
use crate::entities::candle::Candle;
use crate::entities::event::Event;
use crate::entities::trend::TrendState;
use crate::handlers::candle::{ingested, lemma_ingested_well_formed, rejection};
use crate::handlers::replay::{kept_after, lemma_run_well_formed, replayed, trend_run};
use crate::handlers::structures::{fair_value_gap, slid};
use crate::handlers::trends::trend_step;
use crate::laws::aggregation::fed;
use crate::state::{gap_events, KeyStateView, OutcomeView};

verus! {

/// The candles that the events report as closed, in their order.
pub open spec fn closed_candles(events: Seq<Event>) -> Seq<Candle>
    decreases events.len(),
{
    if events.len() == 0 {
        Seq::empty()
    } else {
        match events.last() {
            Event::CandleClosed(k) => closed_candles(events.drop_last()).push(k),
            _ => closed_candles(events.drop_last()),
        }
    }
}

/// Takes `candles` through the pipeline of one key, in their order,
/// starting from the state `s`. A candle that is turned away changes
/// nothing.
pub open spec fn aggregated_all(
    s: KeyStateView,
    candles: Seq<Candle>,
    symbol: &'static str,
    label: &'static str,
    d: int,
) -> OutcomeView
    decreases candles.len(),
{
    if candles.len() == 0 {
        OutcomeView { state: s, events: Seq::empty() }
    } else {
        let before = aggregated_all(s, candles.drop_last(), symbol, label, d);
        if rejection(before.state.accumulator, candles.last(), d).is_some() {
            before
        } else {
            let step = before.state.aggregated(candles.last(), symbol, label, d);
            OutcomeView { state: step.state, events: before.events + step.events }
        }
    }
}

/// The closed candles of two runs of events, one after the other, are those
/// of the first followed by those of the second.
pub proof fn lemma_closed_candles_of_sum(first: Seq<Event>, second: Seq<Event>)
    ensures
        closed_candles(first + second) == closed_candles(first) + closed_candles(second),
    decreases second.len(),
{
    if second.len() == 0 {
        assert(first + second =~= first);
        assert(closed_candles(first) + closed_candles(second) =~= closed_candles(first));
    } else {
        lemma_closed_candles_of_sum(first, second.drop_last());
        assert((first + second).drop_last() =~= first + second.drop_last());
        assert((first + second).last() == second.last());
        match second.last() {
            Event::CandleClosed(k) => {
                assert((closed_candles(first) + closed_candles(second.drop_last())).push(k)
                    =~= closed_candles(first) + closed_candles(second.drop_last()).push(k));
            },
            _ => {},
        }
    }
}

/// The trend automaton reports no closed candle.
pub proof fn lemma_step_closes_nothing(state: TrendState, c: Candle)
    ensures
        closed_candles(trend_step(state, c).events) == Seq::<Candle>::empty(),
{
    reveal_with_fuel(closed_candles, 5);
    let events = trend_step(state, c).events;
    if events.len() == 4 {
        assert(events.drop_last().drop_last().drop_last().drop_last().len() == 0);
    } else if events.len() == 3 {
        assert(events.drop_last().drop_last().drop_last().len() == 0);
    } else if events.len() == 1 {
        assert(events.drop_last().len() == 0);
    }
}

/// A replay reports no closed candle.
pub proof fn lemma_replay_closes_nothing(
    state: TrendState,
    queue: Seq<Candle>,
    next: int,
    events: Seq<Event>,
)
    ensures
        closed_candles(replayed(state, queue, next, events).events) == closed_candles(events),
    decreases queue.len(), queue.len() - next,
{
    if 0 <= next < queue.len() {
        let step = trend_step(state, queue[next]);
        lemma_step_closes_nothing(state, queue[next]);
        lemma_closed_candles_of_sum(events, step.events);
        assert(closed_candles(events) + Seq::<Candle>::empty() =~= closed_candles(events));
        match step.reprocess_from {
            None => {
                lemma_replay_closes_nothing(step.state, queue, next + 1, events + step.events);
            },
            Some(datetime) => {
                let rest = kept_after(queue, datetime);
                if rest.len() < queue.len() {
                    lemma_replay_closes_nothing(step.state, rest, 0, events + step.events);
                }
            },
        }
    }
}

/// Among the events of a closed candle, the candle itself is the only one
/// reported as closed.
pub proof fn lemma_closed_candle_is_reported_once(
    s: KeyStateView,
    k: Candle,
    symbol: &'static str,
    label: &'static str,
)
    ensures
        closed_candles(s.on_closed(k, symbol, label).events) == seq![k],
        s.on_closed(k, symbol, label).events[0] == Event::CandleClosed(k),
        s.on_closed(k, symbol, label).state.accumulator == s.accumulator,
{
    let gap = gap_events(fair_value_gap(slid(s.window, k), symbol, label));
    let run = trend_run(s.trend, s.queue, k);
    let head = seq![Event::CandleClosed(k)];
    reveal_with_fuel(closed_candles, 2);
    assert(head.drop_last().len() == 0);
    assert(closed_candles(head) =~= seq![k]);
    assert(closed_candles(gap) =~= Seq::<Candle>::empty()) by {
        if gap.len() > 0 {
            assert(gap.drop_last().len() == 0);
        }
    }
    assert(closed_candles(run.events) =~= Seq::<Candle>::empty()) by {
        let step = trend_step(s.trend, k);
        lemma_step_closes_nothing(s.trend, k);
        if let Some(datetime) = step.reprocess_from {
            lemma_replay_closes_nothing(
                step.state,
                kept_after(s.queue.push(k), datetime),
                0,
                step.events,
            );
        }
    }
    lemma_closed_candles_of_sum(head, gap);
    lemma_closed_candles_of_sum(head + gap, run.events);
    assert(closed_candles(head + gap + run.events) =~= seq![k]);
}

/// The pipeline closes the candles that its aggregator closes, whatever its
/// detectors hold.
pub proof fn lemma_pipeline_closes_what_is_fed(
    s: KeyStateView,
    candles: Seq<Candle>,
    symbol: &'static str,
    label: &'static str,
    d: int,
)
    ensures
        closed_candles(aggregated_all(s, candles, symbol, label, d).events) == fed(
            s.accumulator,
            candles,
            symbol,
            label,
            d,
        ).closed,
        aggregated_all(s, candles, symbol, label, d).state.accumulator == fed(
            s.accumulator,
            candles,
            symbol,
            label,
            d,
        ).accumulator,
    decreases candles.len(),
{
    if candles.len() > 0 {
        lemma_pipeline_closes_what_is_fed(s, candles.drop_last(), symbol, label, d);
        let before = aggregated_all(s, candles.drop_last(), symbol, label, d);
        let c = candles.last();
        if rejection(before.state.accumulator, c, d).is_none() {
            let step = before.state.aggregated(c, symbol, label, d);
            lemma_closed_candles_of_sum(before.events, step.events);
            match ingested(before.state.accumulator, c, symbol, label, d).closed {
                None => {
                    assert(closed_candles(before.events) + closed_candles(step.events)
                        =~= closed_candles(before.events));
                },
                Some(k) => {
                    lemma_closed_candle_is_reported_once(
                        before.state.with_ingested(c, symbol, label, d),
                        k,
                        symbol,
                        label,
                    );
                    assert(closed_candles(before.events) + seq![k] =~= closed_candles(
                        before.events,
                    ).push(k));
                },
            }
        }
    }
}

/// Feeding the same candles twice closes the same candles: two pipelines
/// whose aggregators are filling the same bucket, fresh ones among them,
/// report the same closed candles in the same order.
pub proof fn lemma_same_candles_close_the_same(
    first: KeyStateView,
    second: KeyStateView,
    candles: Seq<Candle>,
    symbol: &'static str,
    label: &'static str,
    d: int,
)
    requires
        first.accumulator == second.accumulator,
    ensures
        closed_candles(aggregated_all(first, candles, symbol, label, d).events) == closed_candles(
            aggregated_all(second, candles, symbol, label, d).events,
        ),
{
    lemma_pipeline_closes_what_is_fed(first, candles, symbol, label, d);
    lemma_pipeline_closes_what_is_fed(second, candles, symbol, label, d);
}

/// A well-formed state stays well formed whatever candle it accepts: the
/// bucket holds a well-formed candle, the window no more than three candles,
/// and a live trend has a direction that a live subtrend runs against.
pub proof fn lemma_states_stay_well_formed(
    s: KeyStateView,
    c: Candle,
    symbol: &'static str,
    label: &'static str,
    d: int,
)
    requires
        0 < d,
        s.well_formed(),
        rejection(s.accumulator, c, d).is_none(),
    ensures
        s.aggregated(c, symbol, label, d).state.well_formed(),
{
    lemma_ingested_well_formed(s.accumulator, c, symbol, label, d);
    if let Some(k) = ingested(s.accumulator, c, symbol, label, d).closed {
        lemma_run_well_formed(s.trend, s.queue, k);
    }
}

} // verus!
