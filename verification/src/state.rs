//! Everything that is kept for one (symbol, timerange) key.

use vstd::prelude::*;
use crate::entities::candle::Candle;
use crate::entities::event::Event;
use crate::entities::structures::TwoDStructures;
use crate::entities::timerange::Timerange;
use crate::entities::trend::{Subtrend, Trend, TrendState};
use crate::handlers::candle::{
    ingest, ingested, lemma_ingested_well_formed, rejection, Accumulator, IngestError,
};
use crate::handlers::replay::{
    follow_trend, kept_after, lemma_run_well_formed, retain_after, trend_run,
};
use crate::handlers::structures::{fair_value_gap, find_fair_value_gap, slid, slide, WINDOW_DEPTH};
use crate::handlers::trends::{lemma_step_well_formed, step_trend, trend_step, TrendStep};

verus! {

/// The state of one key as a plain value.
pub struct KeyStateView {
    /// The bucket that is being filled.
    pub accumulator: Option<Accumulator>,
    /// The newest closed candles, oldest first.
    pub window: Seq<Candle>,
    /// The trend automaton.
    pub trend: TrendState,
    /// The closed candles that a confirmed reversal would replay.
    pub queue: Seq<Candle>,
}

/// A state together with the events that led to it.
pub struct OutcomeView {
    pub state: KeyStateView,
    pub events: Seq<Event>,
}

/// The events that a looked-for gap gives rise to.
pub open spec fn gap_events(gap: Option<TwoDStructures>) -> Seq<Event> {
    match gap {
        Some(g) => seq![Event::TwoD(g)],
        None => seq![],
    }
}

impl KeyStateView {
    /// The state of a key that has seen no candle yet.
    pub open spec fn fresh() -> KeyStateView {
        KeyStateView {
            accumulator: None,
            window: Seq::empty(),
            trend: TrendState::NoTrend,
            queue: Seq::empty(),
        }
    }

    /// The bucket being filled is well formed, the window holds no more
    /// than [`WINDOW_DEPTH`] candles and the automaton is well formed.
    pub open spec fn well_formed(self) -> bool {
        &&& self.accumulator matches Some(a) ==> a.well_formed()
        &&& self.window.len() <= WINDOW_DEPTH
        &&& self.trend.well_formed()
    }

    /// The state once the aggregator has accepted `c`.
    pub open spec fn with_ingested(
        self,
        c: Candle,
        symbol: &'static str,
        label: &'static str,
        d: int,
    ) -> KeyStateView {
        KeyStateView {
            accumulator: Some(ingested(self.accumulator, c, symbol, label, d).accumulator),
            ..self
        }
    }

    /// The state once the closed candle `k` has entered the window.
    pub open spec fn with_window(self, k: Candle) -> KeyStateView {
        KeyStateView { window: slid(self.window, k), ..self }
    }

    /// The state once the automaton has taken one step on `k`.
    pub open spec fn with_step(self, k: Candle) -> KeyStateView {
        KeyStateView { trend: trend_step(self.trend, k).state, ..self }
    }

    /// The state once the queue has been pruned at `datetime`.
    pub open spec fn with_pruning(self, datetime: i64) -> KeyStateView {
        KeyStateView { queue: kept_after(self.queue, datetime), ..self }
    }

    /// The state once `k` has been queued and followed through the automaton.
    pub open spec fn with_run(self, k: Candle) -> KeyStateView {
        KeyStateView {
            trend: trend_run(self.trend, self.queue, k).state,
            queue: trend_run(self.trend, self.queue, k).queue,
            ..self
        }
    }

    /// What the closed candle `k` leads to: the candle itself, then the gap
    /// that it completes, then what the trend automaton raises.
    pub open spec fn on_closed(self, k: Candle, symbol: &'static str, label: &'static str)
        -> OutcomeView {
        OutcomeView {
            state: self.with_window(k).with_run(k),
            events: seq![Event::CandleClosed(k)] + gap_events(
                fair_value_gap(slid(self.window, k), symbol, label),
            ) + trend_run(self.trend, self.queue, k).events,
        }
    }

    /// What a base candle that the aggregator accepts leads to.
    pub open spec fn aggregated(
        self,
        c: Candle,
        symbol: &'static str,
        label: &'static str,
        d: int,
    ) -> OutcomeView {
        match ingested(self.accumulator, c, symbol, label, d).closed {
            None => OutcomeView {
                state: self.with_ingested(c, symbol, label, d),
                events: seq![],
            },
            Some(k) => self.with_ingested(c, symbol, label, d).on_closed(k, symbol, label),
        }
    }
}

/// The accumulator, the gap window, the trend automaton and the replay queue
/// of one key, owned as one unit.
#[derive(Debug, PartialEq, Eq)]
pub struct KeyState {
    accumulator: Option<Accumulator>,
    window: Vec<Candle>,
    trend: TrendState,
    queue: Vec<Candle>,
}

impl View for KeyState {
    type V = KeyStateView;

    closed spec fn view(&self) -> KeyStateView {
        KeyStateView {
            accumulator: self.accumulator,
            window: self.window@,
            trend: self.trend,
            queue: self.queue@,
        }
    }
}

fn copy_of(candles: &Vec<Candle>) -> (copy: Vec<Candle>)
    ensures
        copy@ == candles@,
{
    let mut copy: Vec<Candle> = Vec::new();
    let mut i: usize = 0;
    while i < candles.len()
        invariant
            i <= candles.len(),
            copy@ == candles@.take(i as int),
        decreases candles.len() - i,
    {
        copy.push(candles[i]);
        assert(candles@.take(i + 1) =~= candles@.take(i as int).push(candles@[i as int]));
        i += 1;
    }
    assert(candles@.take(candles.len() as int) =~= candles@);
    copy
}

impl Clone for KeyState {
    fn clone(&self) -> (copy: KeyState)
        ensures
            copy@ == self@,
    {
        proof {
            use_type_invariant(self);
        }
        KeyState {
            accumulator: self.accumulator,
            window: copy_of(&self.window),
            trend: self.trend,
            queue: copy_of(&self.queue),
        }
    }
}

impl KeyState {
    /// Every state is well formed, at all times.
    #[verifier::type_invariant]
    pub open spec fn valid(self) -> bool {
        self@.well_formed()
    }

    /// The state of a key that has seen no candle yet.
    pub fn new() -> (s: KeyState)
        ensures
            s@ == KeyStateView::fresh(),
    {
        KeyState {
            accumulator: None,
            window: Vec::new(),
            trend: TrendState::NoTrend,
            queue: Vec::new(),
        }
    }

    /// The bucket that is being filled.
    pub fn accumulator(&self) -> (a: Option<Accumulator>)
        ensures
            a == self@.accumulator,
            self@.well_formed(),
    {
        proof {
            use_type_invariant(self);
        }
        self.accumulator
    }

    /// The newest closed candles, oldest first.
    pub fn window(&self) -> (w: Vec<Candle>)
        ensures
            w@ == self@.window,
            w@.len() <= WINDOW_DEPTH,
    {
        proof {
            use_type_invariant(self);
        }
        copy_of(&self.window)
    }

    /// The automaton's state.
    pub fn trend_state(&self) -> (t: TrendState)
        ensures
            t == self@.trend,
            t.well_formed(),
    {
        proof {
            use_type_invariant(self);
        }
        self.trend
    }

    /// The live trend, if there is one.
    pub fn trend(&self) -> (t: Option<Trend>)
        ensures
            t == self@.trend.trend(),
    {
        self.trend.trend()
    }

    /// The live subtrend, if there is one.
    pub fn subtrend(&self) -> (s: Option<Subtrend>)
        ensures
            s == self@.trend.subtrend(),
    {
        self.trend.subtrend()
    }

    /// The closed candles kept for a replay, oldest first.
    pub fn queue(&self) -> (q: Vec<Candle>)
        ensures
            q@ == self@.queue,
    {
        copy_of(&self.queue)
    }

    /// Hands a base candle to the aggregator. A candle that is turned away
    /// leaves the state as it was; one that is accepted changes the
    /// accumulator alone, and the bucket that it closes is returned.
    pub fn ingest(&mut self, candle: &Candle, symbol: &'static str, timerange: &Timerange) -> (r:
        Result<Option<Candle>, IngestError>)
        ensures
            final(self)@.well_formed(),
            match r {
                Ok(closed) => rejection(
                    old(self)@.accumulator,
                    *candle,
                    timerange.duration_ms() as int,
                ).is_none() && final(self)@ == old(self)@.with_ingested(
                    *candle,
                    symbol,
                    timerange.label(),
                    timerange.duration_ms() as int,
                ) && closed == ingested(
                    old(self)@.accumulator,
                    *candle,
                    symbol,
                    timerange.label(),
                    timerange.duration_ms() as int,
                ).closed,
                Err(e) => rejection(
                    old(self)@.accumulator,
                    *candle,
                    timerange.duration_ms() as int,
                ) == Some(e) && final(self)@ == old(self)@,
            },
    {
        proof {
            use_type_invariant(&*self);
        }
        let d = timerange.duration_ms();
        match ingest(self.accumulator, candle, symbol, timerange) {
            Ok(step) => {
                proof {
                    lemma_ingested_well_formed(
                        self.accumulator,
                        *candle,
                        symbol,
                        timerange.label(),
                        d as int,
                    );
                }
                self.accumulator = Some(step.accumulator);
                Ok(step.closed)
            },
            Err(e) => Err(e),
        }
    }

    /// Lets a closed candle into the window and looks for the gap that it
    /// completes.
    pub fn detect_fair_value_gap(
        &mut self,
        candle: Candle,
        symbol: &'static str,
        timerange: &'static str,
    ) -> (gap: Option<TwoDStructures>)
        ensures
            final(self)@.well_formed(),
            final(self)@ == old(self)@.with_window(candle),
            gap == fair_value_gap(final(self)@.window, symbol, timerange),
    {
        proof {
            use_type_invariant(&*self);
        }
        let mut window: Vec<Candle> = Vec::new();
        std::mem::swap(&mut window, &mut self.window);
        slide(&mut window, candle);
        let gap = find_fair_value_gap(&window, symbol, timerange);
        self.window = window;
        gap
    }

    /// Applies a closed candle to the trend automaton, once and without
    /// queueing it.
    pub fn step_trend(&mut self, candle: &Candle) -> (step: TrendStep)
        ensures
            final(self)@.well_formed(),
            final(self)@ == old(self)@.with_step(*candle),
            step@ == trend_step(old(self)@.trend, *candle),
    {
        proof {
            use_type_invariant(&*self);
            lemma_step_well_formed(self.trend, *candle);
        }
        let step = step_trend(self.trend, candle);
        self.trend = step.state;
        step
    }

    /// Drops from the queue every candle that is not later than `datetime`.
    pub fn prune_queue(&mut self, datetime: i64)
        ensures
            final(self)@.well_formed(),
            final(self)@ == old(self)@.with_pruning(datetime),
    {
        proof {
            use_type_invariant(&*self);
        }
        let mut queue: Vec<Candle> = Vec::new();
        std::mem::swap(&mut queue, &mut self.queue);
        retain_after(&mut queue, datetime);
        self.queue = queue;
    }

    /// Queues a closed candle and follows it through the trend automaton,
    /// replays included.
    pub fn follow_trend(&mut self, candle: Candle) -> (events: Vec<Event>)
        ensures
            final(self)@.well_formed(),
            final(self)@ == old(self)@.with_run(candle),
            events@ == trend_run(old(self)@.trend, old(self)@.queue, candle).events,
    {
        proof {
            use_type_invariant(&*self);
            lemma_run_well_formed(self.trend, self.queue@, candle);
        }
        let mut queue: Vec<Candle> = Vec::new();
        std::mem::swap(&mut queue, &mut self.queue);
        let run = follow_trend(self.trend, &mut queue, candle);
        self.trend = run.state;
        self.queue = queue;
        run.events
    }

    /// Hands a closed candle to both detectors and lists what they raise,
    /// after the candle itself.
    pub fn close_candle(&mut self, candle: Candle, symbol: &'static str, timerange: &'static str)
        -> (events: Vec<Event>)
        ensures
            final(self)@.well_formed(),
            final(self)@ == old(self)@.on_closed(candle, symbol, timerange).state,
            events@ == old(self)@.on_closed(candle, symbol, timerange).events,
    {
        let mut events: Vec<Event> = Vec::new();
        events.push(Event::CandleClosed(candle));
        if let Some(gap) = self.detect_fair_value_gap(candle, symbol, timerange) {
            events.push(Event::TwoD(gap));
        }
        let mut raised = self.follow_trend(candle);
        events.append(&mut raised);
        events
    }

    /// Takes one base candle through the whole pipeline of its key: the
    /// aggregator and, when a bucket closes, both detectors.
    pub fn aggregate(&mut self, candle: &Candle, symbol: &'static str, timerange: &Timerange)
        -> (r: Result<Vec<Event>, IngestError>)
        ensures
            final(self)@.well_formed(),
            match r {
                Ok(events) => rejection(
                    old(self)@.accumulator,
                    *candle,
                    timerange.duration_ms() as int,
                ).is_none() && final(self)@ == old(self)@.aggregated(
                    *candle,
                    symbol,
                    timerange.label(),
                    timerange.duration_ms() as int,
                ).state && events@ == old(self)@.aggregated(
                    *candle,
                    symbol,
                    timerange.label(),
                    timerange.duration_ms() as int,
                ).events,
                Err(e) => rejection(
                    old(self)@.accumulator,
                    *candle,
                    timerange.duration_ms() as int,
                ) == Some(e) && final(self)@ == old(self)@,
            },
    {
        match self.ingest(candle, symbol, timerange) {
            Err(e) => Err(e),
            Ok(None) => Ok(Vec::new()),
            Ok(Some(closed)) => Ok(self.close_candle(closed, symbol, timerange.label())),
        }
    }
}

} // verus!
