use paragon::entities::candle::Candle;
use paragon::entities::event::Event;
use paragon::entities::timerange::{timeranges, Timerange, MAX_DURATION_MS};
use paragon::handlers::candle::{aggregate_candle, bucket_of, ingest, Accumulator, IngestError};
use paragon::state::KeyState;
use paragon::store::Store;

fn base(timestamp: i64, open: i64, high: i64, low: i64, close: i64, volume: u64) -> Candle {
    Candle::new("EURUSD", "1m", timestamp, open, high, low, close, volume)
}

fn closed_candles(events: &[Event]) -> Vec<Candle> {
    let mut closed = Vec::new();
    for event in events {
        if let Event::CandleClosed(candle) = event {
            closed.push(*candle);
        }
    }
    closed
}

fn feed(candles: &[Candle], timerange: &Timerange) -> Vec<Candle> {
    let mut store = Store::new();
    let mut closed = Vec::new();
    for candle in candles {
        let events = aggregate_candle(&mut store, candle, "EURUSD", timerange).unwrap();
        closed.extend(closed_candles(&events));
    }
    closed
}

#[test]
fn first_candle_opens_a_bucket_without_closing_one() {
    let mut store = Store::new();
    let five = Timerange::new("5m", 300_000).unwrap();
    let events = aggregate_candle(&mut store, &base(60_000, 10, 12, 9, 11, 5), "EURUSD", &five)
        .unwrap();
    assert!(events.is_empty());
    let state = store.snapshot("EURUSD", "5m").unwrap();
    let acc = state.accumulator().unwrap();
    assert_eq!(acc.candle, Candle::new("EURUSD", "5m", 0, 10, 12, 9, 11, 5));
    assert_eq!(acc.last_timestamp, 60_000);
}

#[test]
fn candle_in_the_same_bucket_is_folded() {
    let five = Timerange::new("5m", 300_000).unwrap();
    let first = ingest(None, &base(0, 10, 12, 9, 11, 5), "EURUSD", &five).unwrap();
    let second = ingest(
        Some(first.accumulator),
        &base(299_999, 11, 15, 8, 14, 7),
        "EURUSD",
        &five,
    )
    .unwrap();
    assert_eq!(second.closed, None);
    assert_eq!(
        second.accumulator,
        Accumulator {
            candle: Candle::new("EURUSD", "5m", 0, 10, 15, 8, 14, 12),
            last_timestamp: 299_999,
        }
    );
    let third = ingest(
        Some(second.accumulator),
        &base(299_999, 14, 14, 13, 13, 1),
        "EURUSD",
        &five,
    )
    .unwrap();
    assert_eq!(third.accumulator.candle, Candle::new("EURUSD", "5m", 0, 10, 15, 8, 13, 13));
}

#[test]
fn boundary_instant_closes_the_bucket() {
    let mut store = Store::new();
    let five = Timerange::new("5m", 300_000).unwrap();
    assert!(aggregate_candle(&mut store, &base(0, 10, 12, 9, 11, 5), "EURUSD", &five)
        .unwrap()
        .is_empty());
    let events = aggregate_candle(&mut store, &base(300_000, 11, 15, 10, 14, 7), "EURUSD", &five)
        .unwrap();
    assert_eq!(
        closed_candles(&events),
        vec![Candle::new("EURUSD", "5m", 0, 10, 12, 9, 11, 5)]
    );
    let acc = store.snapshot("EURUSD", "5m").unwrap().accumulator().unwrap();
    assert_eq!(acc.candle, Candle::new("EURUSD", "5m", 300_000, 11, 15, 10, 14, 7));
}

#[test]
fn full_bucket_closes_exactly_once() {
    let five_ms = Timerange::new("5ms", 5).unwrap();
    let candles = [
        base(0, 10, 12, 9, 11, 1),
        base(1, 11, 13, 10, 12, 2),
        base(2, 12, 20, 11, 13, 3),
        base(3, 13, 14, 4, 5, 4),
        base(4, 5, 8, 5, 7, 5),
        base(5, 7, 9, 6, 8, 6),
    ];
    let mut store = Store::new();
    for candle in &candles[..5] {
        assert!(aggregate_candle(&mut store, candle, "EURUSD", &five_ms).unwrap().is_empty());
    }
    let events = aggregate_candle(&mut store, &candles[5], "EURUSD", &five_ms).unwrap();
    assert_eq!(
        closed_candles(&events),
        vec![Candle::new("EURUSD", "5ms", 0, 10, 20, 4, 7, 15)]
    );
    let acc = store.snapshot("EURUSD", "5ms").unwrap().accumulator().unwrap();
    assert_eq!(acc.candle, Candle::new("EURUSD", "5ms", 5, 7, 9, 6, 8, 6));
}

#[test]
fn same_sequence_twice_closes_the_same() {
    let three_ms = Timerange::new("3ms", 3).unwrap();
    let candles: Vec<Candle> = (0..20)
        .map(|i| base(i, 10 + i, 14 + 2 * i, 8 + i, 12 + i, 1 + i as u64))
        .collect();
    let first = feed(&candles, &three_ms);
    let second = feed(&candles, &three_ms);
    assert_eq!(first, second);
    assert_eq!(first.len(), 6);
    assert_eq!(first[0], Candle::new("EURUSD", "3ms", 0, 10, 18, 8, 14, 6));
    assert_eq!(first[5].timestamp, 15);
}

#[test]
fn bucket_start_rounds_down() {
    let five_ms = Timerange::new("5ms", 5).unwrap();
    assert_eq!(bucket_of(0, &five_ms), Some(0));
    assert_eq!(bucket_of(4, &five_ms), Some(0));
    assert_eq!(bucket_of(5, &five_ms), Some(5));
    assert_eq!(bucket_of(13, &five_ms), Some(10));
    assert_eq!(bucket_of(-1, &five_ms), Some(-5));
    assert_eq!(bucket_of(-5, &five_ms), Some(-5));
    assert_eq!(bucket_of(-6, &five_ms), Some(-10));
    assert_eq!(bucket_of(i64::MAX, &five_ms), Some(i64::MAX - 2));
    let seven_ms = Timerange::new("7ms", 7).unwrap();
    assert_eq!(bucket_of(i64::MIN, &seven_ms), None);
    assert_eq!(bucket_of(i64::MIN + 6, &seven_ms), Some(i64::MIN + 1));
    assert_eq!(bucket_of(i64::MIN + 1, &seven_ms), Some(i64::MIN + 1));
    assert_eq!(bucket_of(i64::MIN + 8, &seven_ms), Some(i64::MIN + 8));
}

#[test]
fn malformed_candle_is_rejected_and_state_kept() {
    let mut store = Store::new();
    let five = Timerange::new("5m", 300_000).unwrap();
    aggregate_candle(&mut store, &base(0, 10, 12, 9, 11, 5), "EURUSD", &five).unwrap();
    let before = store.snapshot("EURUSD", "5m").unwrap();
    for bad in [
        base(1, 10, 9, 9, 9, 1),
        base(1, 10, 12, 11, 11, 1),
        base(1, 10, 12, 9, 13, 1),
        base(1, 10, 12, 9, 8, 1),
        base(1, 5, 4, 6, 5, 1),
    ] {
        assert_eq!(
            aggregate_candle(&mut store, &bad, "EURUSD", &five),
            Err(IngestError::Malformed)
        );
    }
    assert_eq!(store.snapshot("EURUSD", "5m").unwrap(), before);
}

#[test]
fn rejected_candle_creates_no_key() {
    let mut store = Store::new();
    let five = Timerange::new("5m", 300_000).unwrap();
    assert_eq!(
        aggregate_candle(&mut store, &base(1, 10, 9, 9, 9, 1), "EURUSD", &five),
        Err(IngestError::Malformed)
    );
    assert_eq!(store.snapshot("EURUSD", "5m"), None);
}

#[test]
fn out_of_order_candle_is_rejected() {
    let mut store = Store::new();
    let five = Timerange::new("5m", 300_000).unwrap();
    aggregate_candle(&mut store, &base(120_000, 10, 12, 9, 11, 5), "EURUSD", &five).unwrap();
    let before = store.snapshot("EURUSD", "5m").unwrap();
    assert_eq!(
        aggregate_candle(&mut store, &base(119_999, 10, 12, 9, 11, 5), "EURUSD", &five),
        Err(IngestError::OutOfOrder)
    );
    assert_eq!(store.snapshot("EURUSD", "5m").unwrap(), before);
    assert!(aggregate_candle(&mut store, &base(120_000, 10, 12, 9, 11, 5), "EURUSD", &five).is_ok());
}

#[test]
fn volume_overflow_is_rejected() {
    let five = Timerange::new("5m", 300_000).unwrap();
    let first = ingest(None, &base(0, 10, 12, 9, 11, u64::MAX - 1), "EURUSD", &five).unwrap();
    assert_eq!(
        ingest(Some(first.accumulator), &base(1, 10, 12, 9, 11, 2), "EURUSD", &five),
        Err(IngestError::VolumeOverflow)
    );
    let filled = ingest(Some(first.accumulator), &base(1, 10, 12, 9, 11, 1), "EURUSD", &five)
        .unwrap();
    assert_eq!(filled.accumulator.candle.volume, u64::MAX);
    let next = ingest(Some(first.accumulator), &base(300_000, 10, 12, 9, 11, 2), "EURUSD", &five)
        .unwrap();
    assert_eq!(next.closed, Some(first.accumulator.candle));
}

#[test]
fn bucket_before_the_earliest_instant_is_rejected() {
    let seven_ms = Timerange::new("7ms", 7).unwrap();
    assert_eq!(
        ingest(None, &base(i64::MIN, 10, 12, 9, 11, 1), "EURUSD", &seven_ms),
        Err(IngestError::OutOfRange)
    );
}

#[test]
fn late_candle_far_from_the_bucket_closes_it() {
    let longest = Timerange::new("max", MAX_DURATION_MS).unwrap();
    let first = ingest(None, &base(-5, 10, 12, 9, 11, 1), "EURUSD", &longest).unwrap();
    assert_eq!(first.accumulator.candle.timestamp, -(MAX_DURATION_MS as i64));
    let same = ingest(Some(first.accumulator), &base(-1, 10, 12, 9, 11, 1), "EURUSD", &longest)
        .unwrap();
    assert_eq!(same.closed, None);
    let next = ingest(Some(first.accumulator), &base(0, 10, 12, 9, 11, 1), "EURUSD", &longest)
        .unwrap();
    assert_eq!(next.closed, Some(first.accumulator.candle));
    assert_eq!(next.accumulator.candle.timestamp, 0);
}

#[test]
fn timerange_rejects_empty_and_oversized_spans() {
    assert_eq!(Timerange::new("none", 0), None);
    assert_eq!(Timerange::new("huge", MAX_DURATION_MS + 1), None);
    let widest = Timerange::new("max", MAX_DURATION_MS).unwrap();
    assert_eq!(widest.duration_ms(), MAX_DURATION_MS);
    assert_eq!(widest.label(), "max");
}

#[test]
fn registry_lists_timeranges_shortest_first() {
    let listed: Vec<(&str, u64)> =
        timeranges().iter().map(|t| (t.label(), t.duration_ms())).collect();
    assert_eq!(
        listed,
        vec![
            ("5m", 300_000),
            ("15m", 900_000),
            ("30m", 1_800_000),
            ("1h", 3_600_000),
            ("4h", 14_400_000),
            ("1d", 86_400_000),
        ]
    );
}

#[test]
fn closed_candle_reaches_both_detectors() {
    let two_ms = Timerange::new("2ms", 2).unwrap();
    let mut state = KeyState::new();
    assert_eq!(state.aggregate(&base(0, 1, 2, 1, 2, 1), "EURUSD", &two_ms), Ok(vec![]));
    let events = state.aggregate(&base(2, 3, 4, 3, 4, 1), "EURUSD", &two_ms).unwrap();
    let closed = Candle::new("EURUSD", "2ms", 0, 1, 2, 1, 2, 1);
    assert_eq!(events, vec![Event::CandleClosed(closed)]);
    assert_eq!(state.window(), vec![closed]);
    assert_eq!(state.queue(), vec![closed]);
    assert_eq!(state.trend().unwrap().start_time, 0);
    let events = state.aggregate(&base(4, 5, 6, 5, 6, 1), "EURUSD", &two_ms).unwrap();
    let second = Candle::new("EURUSD", "2ms", 2, 3, 4, 3, 4, 1);
    assert_eq!(
        events,
        vec![Event::CandleClosed(second), Event::TrendUpdated(state.trend().unwrap())]
    );
    assert_eq!(state.trend().unwrap().high, 4);
    assert_eq!(state.window(), vec![closed, second]);
}

#[test]
fn keys_do_not_share_state() {
    let mut store = Store::new();
    let five = Timerange::new("5m", 300_000).unwrap();
    let fifteen = Timerange::new("15m", 900_000).unwrap();
    aggregate_candle(&mut store, &base(0, 10, 12, 9, 11, 5), "EURUSD", &five).unwrap();
    aggregate_candle(&mut store, &base(0, 10, 12, 9, 11, 5), "EURUSD", &fifteen).unwrap();
    aggregate_candle(&mut store, &base(0, 20, 22, 19, 21, 5), "GBPUSD", &five).unwrap();
    let events = aggregate_candle(&mut store, &base(300_000, 11, 13, 10, 12, 5), "EURUSD", &five)
        .unwrap();
    assert_eq!(closed_candles(&events).len(), 1);
    let slow = store.snapshot("EURUSD", "15m").unwrap().accumulator().unwrap();
    assert_eq!(slow.candle, Candle::new("EURUSD", "15m", 0, 10, 12, 9, 11, 5));
    let other = store.snapshot("GBPUSD", "5m").unwrap().accumulator().unwrap();
    assert_eq!(other.candle, Candle::new("GBPUSD", "5m", 0, 20, 22, 19, 21, 5));
    assert_eq!(store.snapshot("GBPUSD", "15m"), None);
}

#[test]
fn closed_candles_do_not_depend_on_the_detectors() {
    let three_ms = Timerange::new("3ms", 3).unwrap();
    let candles: Vec<Candle> = (0..30)
        .map(|i| base(i, 10 + (i * 7) % 5, 20 + i % 4, 5 - i % 3, 10 + (i * 3) % 7, 1))
        .collect();
    let mut plain = KeyState::new();
    let mut busy = KeyState::new();
    busy.follow_trend(Candle::new("EURUSD", "3ms", -9, 10, 20, 10, 18, 1));
    busy.follow_trend(Candle::new("EURUSD", "3ms", -6, 18, 19, 14, 15, 1));
    busy.detect_fair_value_gap(Candle::new("EURUSD", "3ms", -6, 18, 19, 14, 15, 1), "EURUSD", "3ms");
    let mut from_plain = Vec::new();
    let mut from_busy = Vec::new();
    for candle in &candles {
        from_plain.extend(closed_candles(&plain.aggregate(candle, "EURUSD", &three_ms).unwrap()));
        from_busy.extend(closed_candles(&busy.aggregate(candle, "EURUSD", &three_ms).unwrap()));
    }
    assert_eq!(from_plain, from_busy);
    assert_eq!(from_plain.len(), 9);
    assert_eq!(plain.accumulator(), busy.accumulator());
    assert!(plain.trend_state() != busy.trend_state() || plain.queue() != busy.queue());
}
