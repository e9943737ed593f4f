use paragon::entities::candle::{Candle, Direction};
use paragon::entities::structures::{TwoDKind, TwoDStructures};
use paragon::entities::timerange::Timerange;
use paragon::handlers::structures::{
    find_common_direction, find_fair_value_gap, processfairvaluegap, slide,
};
use paragon::state::KeyState;
use paragon::store::Store;

fn bullish(timestamp: i64, low: i64, high: i64) -> Candle {
    Candle::new("EURUSD", "5m", timestamp, low, high, low, high, 1)
}

fn bearish(timestamp: i64, low: i64, high: i64) -> Candle {
    Candle::new("EURUSD", "5m", timestamp, high, high, low, low, 1)
}

fn doji(timestamp: i64, low: i64, high: i64) -> Candle {
    Candle::new("EURUSD", "5m", timestamp, low, high, low, low, 1)
}

fn gap(timestamp: i64, low: i64, high: i64, direction: Direction) -> TwoDStructures {
    TwoDStructures {
        symbol: "EURUSD",
        structure: TwoDKind::FairValueGap,
        timerange: "5m",
        timestamp,
        high,
        low,
        direction,
    }
}

#[test]
fn three_bullish_candles_leave_a_gap_on_the_third() {
    let mut store = Store::new();
    let five = Timerange::new("5m", 300_000).unwrap();
    assert_eq!(processfairvaluegap(&mut store, bullish(0, 1, 2), "EURUSD", &five), None);
    assert_eq!(processfairvaluegap(&mut store, bullish(1, 3, 4), "EURUSD", &five), None);
    assert_eq!(
        processfairvaluegap(&mut store, bullish(2, 5, 6), "EURUSD", &five),
        Some(gap(2, 2, 5, Direction::Bullish))
    );
}

#[test]
fn fourth_candle_does_not_report_the_gap_again() {
    let mut state = KeyState::new();
    state.detect_fair_value_gap(bullish(0, 1, 2), "EURUSD", "5m");
    state.detect_fair_value_gap(bullish(1, 3, 4), "EURUSD", "5m");
    assert!(state.detect_fair_value_gap(bullish(2, 5, 6), "EURUSD", "5m").is_some());
    assert_eq!(state.detect_fair_value_gap(bullish(3, 4, 7), "EURUSD", "5m"), None);
    assert_eq!(state.window(), vec![bullish(1, 3, 4), bullish(2, 5, 6), bullish(3, 4, 7)]);
}

#[test]
fn fourth_candle_is_judged_on_the_newest_three() {
    let mut state = KeyState::new();
    state.detect_fair_value_gap(bullish(0, 1, 2), "EURUSD", "5m");
    state.detect_fair_value_gap(bullish(1, 3, 4), "EURUSD", "5m");
    state.detect_fair_value_gap(bullish(2, 5, 6), "EURUSD", "5m");
    assert_eq!(
        state.detect_fair_value_gap(bullish(3, 7, 8), "EURUSD", "5m"),
        Some(gap(3, 4, 7, Direction::Bullish))
    );
}

#[test]
fn three_bearish_candles_leave_a_gap_downwards() {
    let window = vec![bearish(0, 9, 10), bearish(1, 7, 8), bearish(2, 5, 6)];
    assert_eq!(
        find_fair_value_gap(&window, "EURUSD", "5m"),
        Some(gap(2, 6, 9, Direction::Bearish))
    );
}

#[test]
fn touching_candles_leave_no_gap() {
    let up = vec![bullish(0, 1, 5), bullish(1, 3, 6), bullish(2, 5, 8)];
    assert_eq!(find_fair_value_gap(&up, "EURUSD", "5m"), None);
    let down = vec![bearish(0, 5, 8), bearish(1, 4, 6), bearish(2, 2, 5)];
    assert_eq!(find_fair_value_gap(&down, "EURUSD", "5m"), None);
}

#[test]
fn candles_that_disagree_leave_no_gap() {
    let window = vec![bullish(0, 1, 2), bearish(1, 3, 4), bullish(2, 5, 6)];
    assert_eq!(find_common_direction(&window), None);
    assert_eq!(find_fair_value_gap(&window, "EURUSD", "5m"), None);
}

#[test]
fn doji_in_the_window_does_not_disagree() {
    for position in 0..3 {
        let mut window = vec![bullish(0, 1, 2), bullish(1, 3, 4), bullish(2, 5, 6)];
        let replaced = window[position];
        window[position] = doji(replaced.timestamp, replaced.low, replaced.high);
        assert_eq!(find_common_direction(&window), Some(Direction::Bullish));
        assert_eq!(
            find_fair_value_gap(&window, "EURUSD", "5m"),
            Some(gap(2, 2, 5, Direction::Bullish))
        );
    }
    let two = vec![doji(0, 9, 10), bearish(1, 7, 8), doji(2, 5, 6)];
    assert_eq!(find_common_direction(&two), Some(Direction::Bearish));
    assert_eq!(find_fair_value_gap(&two, "EURUSD", "5m"), Some(gap(2, 6, 9, Direction::Bearish)));
}

#[test]
fn window_of_dojis_has_no_direction() {
    let window = vec![doji(0, 1, 2), doji(1, 3, 4), doji(2, 5, 6)];
    assert_eq!(find_common_direction(&window), None);
    assert_eq!(find_fair_value_gap(&window, "EURUSD", "5m"), None);
}

#[test]
fn gap_needs_a_full_window() {
    assert_eq!(find_fair_value_gap(&vec![], "EURUSD", "5m"), None);
    assert_eq!(find_fair_value_gap(&vec![bullish(0, 1, 2), bullish(2, 5, 6)], "EURUSD", "5m"), None);
    let four = vec![bullish(0, 1, 2), bullish(1, 3, 4), bullish(2, 5, 6), bullish(3, 7, 8)];
    assert_eq!(find_fair_value_gap(&four, "EURUSD", "5m"), None);
}

#[test]
fn window_keeps_the_newest_three() {
    let mut window = Vec::new();
    for i in 0..5 {
        slide(&mut window, bullish(i, i, i + 1));
    }
    assert_eq!(window, vec![bullish(2, 2, 3), bullish(3, 3, 4), bullish(4, 4, 5)]);
    let mut long = vec![bullish(0, 0, 1); 6];
    slide(&mut long, bullish(9, 9, 10));
    assert_eq!(long, vec![bullish(0, 0, 1), bullish(0, 0, 1), bullish(9, 9, 10)]);
}

#[test]
fn gap_is_stamped_with_the_key_given() {
    let window = vec![bullish(0, 1, 2), bullish(1, 3, 4), bullish(2, 5, 6)];
    let found = find_fair_value_gap(&window, "GBPUSD", "1h").unwrap();
    assert_eq!(found.symbol, "GBPUSD");
    assert_eq!(found.timerange, "1h");
}
