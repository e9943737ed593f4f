use paragon::entities::candle::{Candle, Direction};
use paragon::entities::event::Event;
use paragon::entities::structures::{OneDKind, OneDStructures, TwoDKind, TwoDStructures};
use paragon::entities::trend::{Subtrend, Trend, TrendState};
use paragon::handlers::replay::{follow_trend, retain_after};
use paragon::handlers::trends::{process_queue, process_trend};
use paragon::state::KeyState;
use paragon::store::Store;

fn candle(timestamp: i64, open: i64, high: i64, low: i64, close: i64) -> Candle {
    Candle::new("EURUSD", "5m", timestamp, open, high, low, close, 1)
}

fn trend(start: i64, end: i64, direction: Direction, high: i64, low: i64) -> Trend {
    Trend {
        symbol: "EURUSD",
        timerange: "5m",
        start_time: start,
        end_time: end,
        direction,
        high,
        low,
        high_datetime: start,
        low_datetime: start,
        relative_high: high,
        relative_low: low,
    }
}

fn order_block(timestamp: i64, high: i64, low: i64) -> Event {
    Event::TwoD(TwoDStructures {
        symbol: "EURUSD",
        structure: TwoDKind::OrderBlock,
        timerange: "5m",
        timestamp,
        high,
        low,
        direction: Direction::Bearish,
    })
}

fn change_of_character(timestamp: i64, price: i64) -> Event {
    Event::OneD(OneDStructures {
        symbol: "EURUSD",
        structure: OneDKind::ChangeOfCharacter,
        timerange: "5m",
        timestamp,
        price,
        direction: Direction::Bearish,
    })
}

#[test]
fn retain_after_drops_what_is_not_later() {
    let mut queue = vec![
        candle(1, 1, 2, 1, 2),
        candle(2, 1, 2, 1, 2),
        candle(2, 3, 4, 3, 4),
        candle(3, 1, 2, 1, 2),
        candle(5, 1, 2, 1, 2),
    ];
    retain_after(&mut queue, 2);
    assert_eq!(queue, vec![candle(3, 1, 2, 1, 2), candle(5, 1, 2, 1, 2)]);
    retain_after(&mut queue, 0);
    assert_eq!(queue.len(), 2);
    retain_after(&mut queue, 5);
    assert_eq!(queue, vec![]);
}

#[test]
fn candle_without_reversal_is_only_queued() {
    let mut queue = vec![candle(0, 10, 20, 10, 18)];
    let live = trend(0, 0, Direction::Bullish, 20, 10);
    let run = follow_trend(TrendState::TrendOnly(live), &mut queue, candle(1, 18, 25, 17, 24));
    let widened = Trend { end_time: 1, high: 25, high_datetime: 1, ..live };
    assert_eq!(run.state, TrendState::TrendOnly(widened));
    assert_eq!(run.events, vec![Event::TrendUpdated(widened)]);
    assert_eq!(queue, vec![candle(0, 10, 20, 10, 18), candle(1, 18, 25, 17, 24)]);
}

#[test]
fn reversal_replays_the_candles_after_the_subtrend_began() {
    let mut state = KeyState::new();
    let a = candle(1, 10, 20, 10, 18);
    let b = candle(2, 18, 19, 14, 15);
    let c = candle(3, 15, 15, 8, 9);
    state.follow_trend(a);
    state.follow_trend(b);
    let events = state.follow_trend(c);
    let retired = Trend { end_time: 3, ..trend(1, 1, Direction::Bullish, 20, 10) };
    let seeded = trend(3, 3, Direction::Bearish, 15, 8);
    assert_eq!(
        events,
        vec![order_block(2, 19, 14), change_of_character(3, 10), Event::TrendRetired(retired)]
    );
    assert_eq!(state.trend(), Some(seeded));
    assert_eq!(state.subtrend(), None);
    assert_eq!(state.queue(), vec![c]);
}

#[test]
fn replay_can_confirm_a_second_reversal() {
    let mut store = Store::new();
    let a = candle(1, 10, 20, 10, 18);
    let b = candle(2, 18, 19, 14, 15);
    let c = candle(3, 15, 17, 12, 16);
    let d = candle(4, 16, 16, 13, 13);
    let e = candle(5, 13, 13, 5, 6);
    let first = trend(1, 1, Direction::Bullish, 20, 10);
    assert_eq!(process_trend(&mut store, a, "EURUSD", "5m"), vec![]);
    assert_eq!(process_trend(&mut store, b, "EURUSD", "5m"), vec![Event::TrendUpdated(first)]);
    assert_eq!(
        process_trend(&mut store, c, "EURUSD", "5m"),
        vec![Event::TrendUpdated(Trend { end_time: 3, ..first })]
    );
    assert_eq!(
        process_trend(&mut store, d, "EURUSD", "5m"),
        vec![Event::TrendUpdated(Trend { end_time: 4, ..first })]
    );
    let before = store.snapshot("EURUSD", "5m").unwrap();
    assert_eq!(
        before.subtrend(),
        Some(Subtrend {
            start_time: 2,
            direction: Direction::Bearish,
            high: 19,
            low: 12,
            last_candle: b,
            last_relative_low_datetime: 3,
            last_relative_high_datetime: 2,
        })
    );
    assert_eq!(before.queue(), vec![a, b, c, d]);

    let second = trend(3, 3, Direction::Bullish, 17, 12);
    let third = trend(5, 5, Direction::Bearish, 13, 5);
    assert_eq!(
        process_trend(&mut store, e, "EURUSD", "5m"),
        vec![
            order_block(2, 19, 14),
            change_of_character(5, 10),
            Event::TrendRetired(Trend { end_time: 5, ..first }),
            Event::TrendUpdated(second),
            order_block(4, 16, 13),
            change_of_character(5, 12),
            Event::TrendRetired(Trend { end_time: 5, ..second }),
        ]
    );
    let after = store.snapshot("EURUSD", "5m").unwrap();
    assert_eq!(after.trend_state(), TrendState::TrendOnly(third));
    assert_eq!(after.queue(), vec![e]);
}

#[test]
fn replay_passes_over_a_doji_and_seeds_the_trend_after_it() {
    let mut state = KeyState::new();
    state.follow_trend(candle(1, 10, 20, 10, 18));
    state.follow_trend(candle(2, 18, 19, 14, 15));
    state.follow_trend(candle(3, 15, 16, 14, 15));
    let events = state.follow_trend(candle(4, 15, 15, 8, 9));
    assert_eq!(events.len(), 3);
    assert_eq!(state.queue(), vec![candle(3, 15, 16, 14, 15), candle(4, 15, 15, 8, 9)]);
    assert_eq!(state.trend(), Some(trend(4, 4, Direction::Bearish, 15, 8)));
}

#[test]
fn pruning_an_unknown_key_changes_nothing() {
    let mut store = Store::new();
    process_queue(&mut store, "EURUSD", "5m", 10);
    assert_eq!(store.snapshot("EURUSD", "5m"), None);
}

#[test]
fn pruning_a_known_key_touches_its_queue_alone() {
    let mut store = Store::new();
    for i in 0..4 {
        process_trend(&mut store, candle(i, 10, 20 + i, 10, 18), "EURUSD", "5m");
        process_trend(&mut store, candle(i, 10, 20 + i, 10, 18), "EURUSD", "1h");
    }
    let before = store.snapshot("EURUSD", "5m").unwrap();
    process_queue(&mut store, "EURUSD", "5m", 1);
    let after = store.snapshot("EURUSD", "5m").unwrap();
    assert_eq!(after.queue(), vec![candle(2, 10, 22, 10, 18), candle(3, 10, 23, 10, 18)]);
    assert_eq!(after.trend_state(), before.trend_state());
    assert_eq!(store.snapshot("EURUSD", "1h").unwrap().queue().len(), 4);
    let mut state = KeyState::new();
    state.follow_trend(candle(0, 10, 20, 10, 18));
    state.prune_queue(0);
    assert_eq!(state.queue(), vec![]);
    assert!(state.trend().is_some());
}
