//! The trend automaton: one step per closed candle, from no trend to a
//! trend, to a trend with a subtrend, and back.

use vstd::prelude::*;
use crate::entities::candle::{Candle, Direction};
use crate::entities::event::Event;
use crate::entities::structures::{OneDKind, OneDStructures, TwoDKind, TwoDStructures};
use crate::entities::trend::{Subtrend, Trend, TrendState};
use crate::handlers::replay::trend_run;
use crate::store::{key_of, Store};

verus! {

/// What one closed candle does to the automaton: the state it leaves, the
/// events it raises, and the instant from which history has to be replayed
/// when it has confirmed a reversal.
#[derive(Debug, PartialEq, Eq)]
pub struct TrendStep {
    pub state: TrendState,
    pub events: Vec<Event>,
    pub reprocess_from: Option<i64>,
}

/// A [`TrendStep`] as a plain value.
pub struct TrendStepView {
    pub state: TrendState,
    pub events: Seq<Event>,
    pub reprocess_from: Option<i64>,
}

impl View for TrendStep {
    type V = TrendStepView;

    open spec fn view(&self) -> TrendStepView {
        TrendStepView {
            state: self.state,
            events: self.events@,
            reprocess_from: self.reprocess_from,
        }
    }
}

/// A doji never disagrees with a trend; any other candle agrees when it
/// points the same way.
pub open spec fn agrees(t: Trend, c: Candle) -> bool {
    c.direction() == Direction::Doji || c.direction() == t.direction
}

/// The trend that starts with `c`.
pub open spec fn seed_trend(c: Candle) -> Trend {
    Trend {
        symbol: c.symbol,
        timerange: c.timerange,
        start_time: c.timestamp,
        end_time: c.timestamp,
        direction: c.direction(),
        high: c.high,
        low: c.low,
        high_datetime: c.timestamp,
        low_datetime: c.timestamp,
        relative_high: c.high,
        relative_low: c.low,
    }
}

/// The subtrend that `c` opens.
pub open spec fn seed_subtrend(c: Candle) -> Subtrend {
    Subtrend {
        start_time: c.timestamp,
        direction: c.direction(),
        high: c.high,
        low: c.low,
        last_candle: c,
        last_relative_low_datetime: c.timestamp,
        last_relative_high_datetime: c.timestamp,
    }
}

/// `t` once it has lasted until `c`.
pub open spec fn prolonged(t: Trend, c: Candle) -> Trend {
    Trend { end_time: c.timestamp, ..t }
}

/// `t` prolonged by `c`, with each extreme that `c` surpasses moved to it.
pub open spec fn widened(t: Trend, c: Candle) -> Trend {
    let lower = t.low > c.low;
    let higher = t.high < c.high;
    Trend {
        end_time: c.timestamp,
        low: if lower { c.low } else { t.low },
        low_datetime: if lower { c.timestamp } else { t.low_datetime },
        high: if higher { c.high } else { t.high },
        high_datetime: if higher { c.timestamp } else { t.high_datetime },
        ..t
    }
}

/// `s` with its extreme moved to `c` where `c` goes further in the
/// subtrend's own direction.
pub open spec fn stretched(s: Subtrend, c: Candle) -> Subtrend {
    match s.direction {
        Direction::Bullish => if c.high > s.high {
            Subtrend { high: c.high, last_relative_high_datetime: c.timestamp, ..s }
        } else {
            s
        },
        Direction::Bearish => if c.low < s.low {
            Subtrend { low: c.low, last_relative_low_datetime: c.timestamp, ..s }
        } else {
            s
        },
        Direction::Doji => s,
    }
}

/// The close of `c` has left the subtrend behind in the trend's direction.
pub open spec fn breaks_structure(t: Trend, s: Subtrend, c: Candle) -> bool {
    match t.direction {
        Direction::Bullish => c.close > s.high,
        Direction::Bearish => c.close < s.low,
        Direction::Doji => false,
    }
}

/// The close of `c` has gone through the trend's own extreme against its
/// direction.
pub open spec fn reverses(t: Trend, c: Candle) -> bool {
    match t.direction {
        Direction::Bullish => c.close < t.low,
        Direction::Bearish => c.close > t.high,
        Direction::Doji => false,
    }
}

/// The extreme of the subtrend that a break of structure goes through.
pub open spec fn breached_subtrend_extreme(t: Trend, s: Subtrend) -> i64 {
    if t.direction == Direction::Bullish {
        s.high
    } else {
        s.low
    }
}

/// The extreme of the trend that a change of character goes through.
pub open spec fn breached_trend_extreme(t: Trend) -> i64 {
    if t.direction == Direction::Bullish {
        t.low
    } else {
        t.high
    }
}

/// The trend after a break of structure: prolonged, and with the
/// subtrend's extreme folded into the extreme that a reversal has to break.
/// That extreme moves, together with its instant, only where the subtrend
/// went beyond it: the low of a bullish trend never rises, and the high of a
/// bearish trend never falls.
pub open spec fn resumed(t: Trend, s: Subtrend, c: Candle) -> Trend {
    if t.direction == Direction::Bullish {
        let lower = s.low < t.low;
        Trend {
            end_time: c.timestamp,
            low: if lower { s.low } else { t.low },
            low_datetime: if lower { s.last_relative_low_datetime } else { t.low_datetime },
            ..t
        }
    } else {
        let higher = s.high > t.high;
        Trend {
            end_time: c.timestamp,
            high: if higher { s.high } else { t.high },
            high_datetime: if higher { s.last_relative_high_datetime } else { t.high_datetime },
            ..t
        }
    }
}

pub open spec fn break_of_structure(t: Trend, s: Subtrend, c: Candle) -> OneDStructures {
    OneDStructures {
        symbol: c.symbol,
        structure: OneDKind::BreakOfStructure,
        timerange: c.timerange,
        timestamp: c.timestamp,
        price: breached_subtrend_extreme(t, s),
        direction: t.direction,
    }
}

pub open spec fn relative_high(s: Subtrend, c: Candle) -> OneDStructures {
    OneDStructures {
        symbol: c.symbol,
        structure: OneDKind::RelativeHigh,
        timerange: c.timerange,
        timestamp: s.last_relative_high_datetime,
        price: s.high,
        direction: Direction::Doji,
    }
}

pub open spec fn relative_low(s: Subtrend, c: Candle) -> OneDStructures {
    OneDStructures {
        symbol: c.symbol,
        structure: OneDKind::RelativeLow,
        timerange: c.timerange,
        timestamp: s.last_relative_low_datetime,
        price: s.low,
        direction: Direction::Doji,
    }
}

pub open spec fn change_of_character(t: Trend, s: Subtrend, c: Candle) -> OneDStructures {
    OneDStructures {
        symbol: c.symbol,
        structure: OneDKind::ChangeOfCharacter,
        timerange: c.timerange,
        timestamp: c.timestamp,
        price: breached_trend_extreme(t),
        direction: s.direction,
    }
}

/// The range of the candle that opened the subtrend.
pub open spec fn order_block(s: Subtrend, c: Candle) -> TwoDStructures {
    TwoDStructures {
        symbol: c.symbol,
        structure: TwoDKind::OrderBlock,
        timerange: c.timerange,
        timestamp: s.last_candle.timestamp,
        high: s.last_candle.high,
        low: s.last_candle.low,
        direction: s.direction,
    }
}

/// A candle arrives while no trend is live: a doji is ignored, any other
/// candle starts a trend. Nothing is raised either way.
pub open spec fn step_without_trend(c: Candle) -> TrendStepView {
    TrendStepView {
        state: if c.direction() == Direction::Doji {
            TrendState::NoTrend
        } else {
            TrendState::TrendOnly(seed_trend(c))
        },
        events: seq![],
        reprocess_from: None,
    }
}

/// A candle arrives in a trend that has no subtrend: it widens the trend
/// when it agrees with it, and opens a subtrend when it does not.
pub open spec fn step_in_trend(t: Trend, c: Candle) -> TrendStepView {
    if agrees(t, c) {
        TrendStepView {
            state: TrendState::TrendOnly(widened(t, c)),
            events: seq![Event::TrendUpdated(widened(t, c))],
            reprocess_from: None,
        }
    } else {
        TrendStepView {
            state: TrendState::TrendWithSubtrend(t, seed_subtrend(c)),
            events: seq![Event::TrendUpdated(t)],
            reprocess_from: None,
        }
    }
}

/// An agreeing candle arrives while a subtrend is live: it either breaks the
/// structure, which ends the subtrend, or leaves the subtrend to develop.
pub open spec fn step_with_trend(t: Trend, s: Subtrend, c: Candle) -> TrendStepView {
    if breaks_structure(t, s, c) {
        TrendStepView {
            state: TrendState::TrendOnly(resumed(t, s, c)),
            events: seq![
                Event::OneD(break_of_structure(t, s, c)),
                Event::OneD(relative_high(s, c)),
                Event::OneD(relative_low(s, c)),
                Event::TrendUpdated(resumed(t, s, c)),
            ],
            reprocess_from: None,
        }
    } else {
        TrendStepView {
            state: TrendState::TrendWithSubtrend(prolonged(t, c), stretched(s, c)),
            events: seq![Event::TrendUpdated(prolonged(t, c))],
            reprocess_from: None,
        }
    }
}

/// A disagreeing candle arrives while a subtrend is live: it either confirms
/// the reversal, which retires the trend and asks for a replay from the
/// subtrend's start, or leaves the subtrend to develop.
pub open spec fn step_against_trend(t: Trend, s: Subtrend, c: Candle) -> TrendStepView {
    if reverses(t, c) {
        TrendStepView {
            state: TrendState::NoTrend,
            events: seq![
                Event::TwoD(order_block(s, c)),
                Event::OneD(change_of_character(t, s, c)),
                Event::TrendRetired(prolonged(t, c)),
            ],
            reprocess_from: Some(s.start_time),
        }
    } else {
        TrendStepView {
            state: TrendState::TrendWithSubtrend(prolonged(t, c), stretched(s, c)),
            events: seq![Event::TrendUpdated(prolonged(t, c))],
            reprocess_from: None,
        }
    }
}

/// The automaton's transition on one closed candle.
pub open spec fn trend_step(state: TrendState, c: Candle) -> TrendStepView {
    match state {
        TrendState::NoTrend => step_without_trend(c),
        TrendState::TrendOnly(t) => step_in_trend(t, c),
        TrendState::TrendWithSubtrend(t, s) => if agrees(t, c) {
            step_with_trend(t, s, c)
        } else {
            step_against_trend(t, s, c)
        },
    }
}

fn widen(t: Trend, c: &Candle) -> (r: Trend)
    ensures
        r == widened(t, *c),
{
    let mut r = t;
    r.end_time = c.timestamp;
    if t.low > c.low {
        r.low = c.low;
        r.low_datetime = c.timestamp;
    }
    if t.high < c.high {
        r.high = c.high;
        r.high_datetime = c.timestamp;
    }
    r
}

fn stretch(s: Subtrend, c: &Candle) -> (r: Subtrend)
    ensures
        r == stretched(s, *c),
{
    let mut r = s;
    match s.direction {
        Direction::Bullish => {
            if c.high > s.high {
                r.high = c.high;
                r.last_relative_high_datetime = c.timestamp;
            }
        },
        Direction::Bearish => {
            if c.low < s.low {
                r.low = c.low;
                r.last_relative_low_datetime = c.timestamp;
            }
        },
        Direction::Doji => {},
    }
    r
}

fn start_trend(c: &Candle) -> (r: TrendStep)
    ensures
        r@ == step_without_trend(*c),
{
    let events: Vec<Event> = Vec::new();
    assert(events@ =~= seq![]);
    let direction = c.direction();
    if direction == Direction::Doji {
        TrendStep { state: TrendState::NoTrend, events, reprocess_from: None }
    } else {
        let trend = Trend {
            symbol: c.symbol,
            timerange: c.timerange,
            start_time: c.timestamp,
            end_time: c.timestamp,
            direction,
            high: c.high,
            low: c.low,
            high_datetime: c.timestamp,
            low_datetime: c.timestamp,
            relative_high: c.high,
            relative_low: c.low,
        };
        TrendStep { state: TrendState::TrendOnly(trend), events, reprocess_from: None }
    }
}

fn widen_or_counter(t: Trend, c: &Candle) -> (r: TrendStep)
    ensures
        r@ == step_in_trend(t, *c),
{
    let mut events: Vec<Event> = Vec::new();
    let direction = c.direction();
    if direction == Direction::Doji || direction == t.direction {
        let trend = widen(t, c);
        events.push(Event::TrendUpdated(trend));
        assert(events@ =~= seq![Event::TrendUpdated(trend)]);
        TrendStep { state: TrendState::TrendOnly(trend), events, reprocess_from: None }
    } else {
        let subtrend = Subtrend {
            start_time: c.timestamp,
            direction,
            high: c.high,
            low: c.low,
            last_candle: *c,
            last_relative_low_datetime: c.timestamp,
            last_relative_high_datetime: c.timestamp,
        };
        events.push(Event::TrendUpdated(t));
        assert(events@ =~= seq![Event::TrendUpdated(t)]);
        TrendStep { state: TrendState::TrendWithSubtrend(t, subtrend), events, reprocess_from: None }
    }
}

/// Leaves the subtrend to develop under the prolonged trend.
fn develop(t: Trend, s: Subtrend, c: &Candle) -> (r: TrendStep)
    ensures
        r@ == (TrendStepView {
            state: TrendState::TrendWithSubtrend(prolonged(t, *c), stretched(s, *c)),
            events: seq![Event::TrendUpdated(prolonged(t, *c))],
            reprocess_from: None,
        }),
{
    let mut trend = t;
    trend.end_time = c.timestamp;
    let subtrend = stretch(s, c);
    let mut events: Vec<Event> = Vec::new();
    events.push(Event::TrendUpdated(trend));
    assert(events@ =~= seq![Event::TrendUpdated(trend)]);
    TrendStep { state: TrendState::TrendWithSubtrend(trend, subtrend), events, reprocess_from: None }
}

fn resume_or_develop(t: Trend, s: Subtrend, c: &Candle) -> (r: TrendStep)
    ensures
        r@ == step_with_trend(t, s, *c),
{
    let broken = match t.direction {
        Direction::Bullish => c.close > s.high,
        Direction::Bearish => c.close < s.low,
        Direction::Doji => false,
    };
    if broken {
        let bullish = t.direction == Direction::Bullish;
        let mut trend = t;
        trend.end_time = c.timestamp;
        if bullish {
            if s.low < t.low {
                trend.low = s.low;
                trend.low_datetime = s.last_relative_low_datetime;
            }
        } else {
            if s.high > t.high {
                trend.high = s.high;
                trend.high_datetime = s.last_relative_high_datetime;
            }
        }
        let bos = OneDStructures {
            symbol: c.symbol,
            structure: OneDKind::BreakOfStructure,
            timerange: c.timerange,
            timestamp: c.timestamp,
            price: if bullish { s.high } else { s.low },
            direction: t.direction,
        };
        let high = OneDStructures {
            symbol: c.symbol,
            structure: OneDKind::RelativeHigh,
            timerange: c.timerange,
            timestamp: s.last_relative_high_datetime,
            price: s.high,
            direction: Direction::Doji,
        };
        let low = OneDStructures {
            symbol: c.symbol,
            structure: OneDKind::RelativeLow,
            timerange: c.timerange,
            timestamp: s.last_relative_low_datetime,
            price: s.low,
            direction: Direction::Doji,
        };
        let mut events: Vec<Event> = Vec::new();
        events.push(Event::OneD(bos));
        events.push(Event::OneD(high));
        events.push(Event::OneD(low));
        events.push(Event::TrendUpdated(trend));
        assert(events@ =~= seq![
            Event::OneD(bos),
            Event::OneD(high),
            Event::OneD(low),
            Event::TrendUpdated(trend),
        ]);
        TrendStep { state: TrendState::TrendOnly(trend), events, reprocess_from: None }
    } else {
        develop(t, s, c)
    }
}

fn reverse_or_develop(t: Trend, s: Subtrend, c: &Candle) -> (r: TrendStep)
    ensures
        r@ == step_against_trend(t, s, *c),
{
    let reversed = match t.direction {
        Direction::Bullish => c.close < t.low,
        Direction::Bearish => c.close > t.high,
        Direction::Doji => false,
    };
    if reversed {
        let mut trend = t;
        trend.end_time = c.timestamp;
        let block = TwoDStructures {
            symbol: c.symbol,
            structure: TwoDKind::OrderBlock,
            timerange: c.timerange,
            timestamp: s.last_candle.timestamp,
            high: s.last_candle.high,
            low: s.last_candle.low,
            direction: s.direction,
        };
        let choch = OneDStructures {
            symbol: c.symbol,
            structure: OneDKind::ChangeOfCharacter,
            timerange: c.timerange,
            timestamp: c.timestamp,
            price: if t.direction == Direction::Bullish { t.low } else { t.high },
            direction: s.direction,
        };
        let mut events: Vec<Event> = Vec::new();
        events.push(Event::TwoD(block));
        events.push(Event::OneD(choch));
        events.push(Event::TrendRetired(trend));
        assert(events@ =~= seq![Event::TwoD(block), Event::OneD(choch), Event::TrendRetired(trend)]);
        TrendStep { state: TrendState::NoTrend, events, reprocess_from: Some(s.start_time) }
    } else {
        develop(t, s, c)
    }
}

/// Applies one closed candle to the automaton.
pub fn step_trend(state: TrendState, candle: &Candle) -> (r: TrendStep)
    ensures
        r@ == trend_step(state, *candle),
{
    match state {
        TrendState::NoTrend => start_trend(candle),
        TrendState::TrendOnly(t) => widen_or_counter(t, candle),
        TrendState::TrendWithSubtrend(t, s) => {
            let direction = candle.direction();
            if direction == Direction::Doji || direction == t.direction {
                resume_or_develop(t, s, candle)
            } else {
                reverse_or_develop(t, s, candle)
            }
        },
    }
}

/// A step leaves the automaton with a trend that is bullish or bearish and
/// with a subtrend that runs against it.
pub proof fn lemma_step_well_formed(state: TrendState, c: Candle)
    requires
        state.well_formed(),
    ensures
        trend_step(state, c).state.well_formed(),
{
}

/// Applies a closed candle to the trend automaton of the candle's own key,
/// once and without queueing it.
pub fn get_trends(store: &mut Store, candle: &Candle) -> (step: TrendStep)
    ensures
        final(store)@ == old(store)@.insert(
            key_of(candle.symbol, candle.timerange),
            old(store).state_of(candle.symbol, candle.timerange).with_step(*candle),
        ),
        step@ == trend_step(old(store).state_of(candle.symbol, candle.timerange).trend, *candle),
{
    let ghost key = key_of(candle.symbol, candle.timerange);
    let mut state = store.take_or_fresh(candle.symbol, candle.timerange);
    let step = state.step_trend(candle);
    store.put(candle.symbol, candle.timerange, state);
    assert(old(store)@.remove(key).insert(key, state@) =~= old(store)@.insert(key, state@));
    step
}

/// Prunes the queue of the key that `symbol` and `timerange` name: every
/// candle that is not later than `datetime` leaves it. A key that the store
/// has not seen has no queue, and the store stays as it is.
pub fn process_queue(
    store: &mut Store,
    symbol: &'static str,
    timerange: &'static str,
    datetime: i64,
)
    ensures
        final(store)@ == (if old(store)@.contains_key(key_of(symbol, timerange)) {
            old(store)@.insert(
                key_of(symbol, timerange),
                old(store)@[key_of(symbol, timerange)].with_pruning(datetime),
            )
        } else {
            old(store)@
        }),
{
    let ghost key = key_of(symbol, timerange);
    match store.take(symbol, timerange) {
        Some(mut state) => {
            state.prune_queue(datetime);
            store.put(symbol, timerange, state);
            assert(old(store)@.remove(key).insert(key, state@) =~= old(store)@.insert(
                key,
                state@,
            ));
        },
        None => {
            assert(old(store)@.remove(key) =~= old(store)@);
        },
    }
}

/// Queues a closed candle under the key that `symbol` and `timerange` name
/// and follows it through the trend automaton, replays included.
pub fn process_trend(
    store: &mut Store,
    candle: Candle,
    symbol: &'static str,
    timerange: &'static str,
) -> (events: Vec<Event>)
    ensures
        final(store)@ == old(store)@.insert(
            key_of(symbol, timerange),
            old(store).state_of(symbol, timerange).with_run(candle),
        ),
        events@ == trend_run(
            old(store).state_of(symbol, timerange).trend,
            old(store).state_of(symbol, timerange).queue,
            candle,
        ).events,
{
    let ghost key = key_of(symbol, timerange);
    let mut state = store.take_or_fresh(symbol, timerange);
    let events = state.follow_trend(candle);
    store.put(symbol, timerange, state);
    assert(old(store)@.remove(key).insert(key, state@) =~= old(store)@.insert(key, state@));
    events
}

} // verus!
