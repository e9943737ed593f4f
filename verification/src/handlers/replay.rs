//! The replay queue: the closed candles of a key, pruned and fed to the
//! trend automaton again whenever a reversal is confirmed.

use vstd::prelude::*;
use crate::entities::candle::Candle;
use crate::entities::event::Event;
use crate::entities::trend::TrendState;
use crate::handlers::trends::{lemma_step_well_formed, step_trend, trend_step, TrendStep};

verus! {

/// Where following the trend has led: the automaton's state, what is left
/// of the queue, and the events raised on the way.
pub struct TrendRunView {
    pub state: TrendState,
    pub queue: Seq<Candle>,
    pub events: Seq<Event>,
}

/// The automaton's state and the events raised when a closed candle was
/// followed through, replays included.
#[derive(Debug, PartialEq, Eq)]
pub struct TrendRun {
    pub state: TrendState,
    pub events: Vec<Event>,
}

/// The queued candles that are later than `datetime`, in their order.
pub open spec fn kept_after(queue: Seq<Candle>, datetime: i64) -> Seq<Candle> {
    queue.filter(|c: Candle| c.timestamp > datetime)
}

/// Feeds `queue` to the automaton from position `next` on. A step that asks
/// for a replay prunes the queue and starts over at its head; the feeding
/// ends when the queue's end is reached, or when a pruning drops nothing.
pub open spec fn replayed(state: TrendState, queue: Seq<Candle>, next: int, events: Seq<Event>)
    -> TrendRunView
    decreases queue.len(), queue.len() - next,
{
    if next < 0 || next >= queue.len() {
        TrendRunView { state, queue, events }
    } else {
        let step = trend_step(state, queue[next]);
        match step.reprocess_from {
            None => replayed(step.state, queue, next + 1, events + step.events),
            Some(datetime) => {
                let rest = kept_after(queue, datetime);
                if rest.len() < queue.len() {
                    replayed(step.state, rest, 0, events + step.events)
                } else {
                    TrendRunView { state: step.state, queue: rest, events: events + step.events }
                }
            },
        }
    }
}

/// Queues `c` and applies it to the automaton; when it confirms a reversal,
/// prunes the queue and replays what is left of it.
pub open spec fn trend_run(state: TrendState, queue: Seq<Candle>, c: Candle) -> TrendRunView {
    let step = trend_step(state, c);
    match step.reprocess_from {
        None => TrendRunView { state: step.state, queue: queue.push(c), events: step.events },
        Some(datetime) => replayed(step.state, kept_after(queue.push(c), datetime), 0, step.events),
    }
}

/// A live subtrend began with one of the candles already fed from `queue`.
pub open spec fn anchored(state: TrendState, queue: Seq<Candle>, next: int) -> bool {
    state matches TrendState::TrendWithSubtrend(_, s) ==> exists|k: int|
        0 <= k < next && k < queue.len() && #[trigger] queue[k].timestamp == s.start_time
}

/// Pruning at the instant of a queued candle drops at least that candle.
pub proof fn lemma_pruning_shortens(queue: Seq<Candle>, datetime: i64, k: int)
    requires
        0 <= k < queue.len(),
        queue[k].timestamp <= datetime,
    ensures
        kept_after(queue, datetime).len() < queue.len(),
    decreases queue.len(),
{
    let pred = |c: Candle| c.timestamp > datetime;
    reveal(Seq::filter);
    queue.drop_last().lemma_filter_len(pred);
    if k < queue.len() - 1 {
        lemma_pruning_shortens(queue.drop_last(), datetime, k);
    }
}

/// One step of a replay keeps the subtrend anchored in the queue, and a
/// replay that it asks for starts at the instant of a candle already fed.
pub proof fn lemma_step_keeps_anchor(state: TrendState, queue: Seq<Candle>, next: int)
    requires
        0 <= next < queue.len(),
        anchored(state, queue, next),
    ensures
        anchored(trend_step(state, queue[next]).state, queue, next + 1),
        trend_step(state, queue[next]).reprocess_from matches Some(datetime) ==> exists|k: int|
            0 <= k < next && #[trigger] queue[k].timestamp == datetime,
{
    let after = trend_step(state, queue[next]).state;
    match state {
        TrendState::TrendWithSubtrend(_, s) => {
            let k = choose|k: int|
                0 <= k < next && k < queue.len() && #[trigger] queue[k].timestamp == s.start_time;
            assert(queue[k].timestamp == s.start_time);
        },
        _ => {
            assert(queue[next].timestamp == queue[next].timestamp);
        },
    }
}

/// Drops from `queue` every candle that is not later than `datetime`.
pub fn retain_after(queue: &mut Vec<Candle>, datetime: i64)
    ensures
        final(queue)@ == kept_after(old(queue)@, datetime),
{
    let ghost pred = |c: Candle| c.timestamp > datetime;
    let mut kept: Vec<Candle> = Vec::new();
    let mut i: usize = 0;
    proof {
        reveal(Seq::filter);
        assert(queue@.take(0) =~= Seq::<Candle>::empty());
    }
    while i < queue.len()
        invariant
            i <= queue.len(),
            pred == (|c: Candle| c.timestamp > datetime),
            kept@ == queue@.take(i as int).filter(pred),
        decreases queue.len() - i,
    {
        let c = queue[i];
        proof {
            reveal(Seq::filter);
            assert(queue@.take(i + 1).drop_last() =~= queue@.take(i as int));
        }
        if c.timestamp > datetime {
            kept.push(c);
        }
        i += 1;
    }
    assert(queue@.take(queue.len() as int) =~= queue@);
    *queue = kept;
}

/// Queues a closed candle and follows it through the automaton. When the
/// candle confirms a reversal the queue is pruned and replayed, as often as
/// the replay itself confirms another one.
pub fn follow_trend(state: TrendState, queue: &mut Vec<Candle>, candle: Candle) -> (run: TrendRun)
    ensures
        run.state == trend_run(state, old(queue)@, candle).state,
        run.events@ == trend_run(state, old(queue)@, candle).events,
        final(queue)@ == trend_run(state, old(queue)@, candle).queue,
{
    let ghost target = trend_run(state, queue@, candle);
    queue.push(candle);
    let TrendStep { state: first, events: raised, reprocess_from } = step_trend(state, &candle);
    let mut current = first;
    let mut events = raised;
    if let Some(datetime) = reprocess_from {
        retain_after(queue, datetime);
        let mut next: usize = 0;
        while next < queue.len()
            invariant
                next <= queue.len(),
                anchored(current, queue@, next as int),
                replayed(current, queue@, next as int, events@) == target,
            decreases queue.len(), queue.len() - next,
        {
            proof {
                lemma_step_keeps_anchor(current, queue@, next as int);
            }
            let TrendStep { state: after, events: mut raised, reprocess_from } = step_trend(
                current,
                &queue[next],
            );
            events.append(&mut raised);
            current = after;
            match reprocess_from {
                None => {
                    next += 1;
                },
                Some(datetime) => {
                    proof {
                        let k = choose|k: int|
                            0 <= k < next && #[trigger] queue@[k].timestamp == datetime;
                        lemma_pruning_shortens(queue@, datetime, k);
                    }
                    retain_after(queue, datetime);
                    next = 0;
                },
            }
        }
    }
    TrendRun { state: current, events }
}

/// A replay leaves the automaton well formed.
pub proof fn lemma_replay_well_formed(
    state: TrendState,
    queue: Seq<Candle>,
    next: int,
    events: Seq<Event>,
)
    requires
        state.well_formed(),
    ensures
        replayed(state, queue, next, events).state.well_formed(),
    decreases queue.len(), queue.len() - next,
{
    if 0 <= next < queue.len() {
        let step = trend_step(state, queue[next]);
        lemma_step_well_formed(state, queue[next]);
        match step.reprocess_from {
            None => {
                lemma_replay_well_formed(step.state, queue, next + 1, events + step.events);
            },
            Some(datetime) => {
                let rest = kept_after(queue, datetime);
                if rest.len() < queue.len() {
                    lemma_replay_well_formed(step.state, rest, 0, events + step.events);
                }
            },
        }
    }
}

/// Following a candle through leaves the automaton well formed.
pub proof fn lemma_run_well_formed(state: TrendState, queue: Seq<Candle>, c: Candle)
    requires
        state.well_formed(),
    ensures
        trend_run(state, queue, c).state.well_formed(),
{
    let step = trend_step(state, c);
    lemma_step_well_formed(state, c);
    if let Some(datetime) = step.reprocess_from {
        lemma_replay_well_formed(step.state, kept_after(queue.push(c), datetime), 0, step.events);
    }
}

} // verus!
