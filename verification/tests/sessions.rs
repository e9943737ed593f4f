use paragon::entities::candle::Candle;
use paragon::entities::session::{sessions, ReferenceSession, Session};
use paragon::handlers::sessions::{
    find_session, get_right_session, get_sessions_start_end, is_same_session, process_session,
    should_create_new_session, SessionError,
};
use paragon::utils::{euclidean_remainder, is_in_timerange, time_of_day_ms};

const DAY: i64 = 86_400_000;
const HOUR: i64 = 3_600_000;
const MINUTE: i64 = 60_000;

fn candle(timestamp: i64, open: i64, high: i64, low: i64, close: i64, volume: u64) -> Candle {
    Candle::new("EURUSD", "1m", timestamp, open, high, low, close, volume)
}

fn asian() -> ReferenceSession {
    sessions()[0]
}

fn london() -> ReferenceSession {
    sessions()[1]
}

fn new_york() -> ReferenceSession {
    sessions()[2]
}

#[test]
fn range_holds_both_ends() {
    assert!(is_in_timerange(10, 20, 10));
    assert!(is_in_timerange(10, 20, 15));
    assert!(is_in_timerange(10, 20, 20));
    assert!(!is_in_timerange(10, 20, 9));
    assert!(!is_in_timerange(10, 20, 21));
    assert!(is_in_timerange(10, 10, 10));
}

#[test]
fn range_over_midnight_holds_late_and_early_times() {
    assert!(is_in_timerange(20, 10, 20));
    assert!(is_in_timerange(20, 10, 25));
    assert!(is_in_timerange(20, 10, 0));
    assert!(is_in_timerange(20, 10, 10));
    assert!(!is_in_timerange(20, 10, 11));
    assert!(!is_in_timerange(20, 10, 19));
}

#[test]
fn remainder_is_never_negative() {
    assert_eq!(euclidean_remainder(7, 5), 2);
    assert_eq!(euclidean_remainder(-7, 5), 3);
    assert_eq!(euclidean_remainder(-5, 5), 0);
    assert_eq!(euclidean_remainder(-1, 5), 4);
    assert_eq!(euclidean_remainder(0, 5), 0);
    assert_eq!(euclidean_remainder(i64::MIN, 86_400_000), 60_424_192);
    assert_eq!(euclidean_remainder(i64::MAX, i64::MAX), 0);
    assert_eq!(euclidean_remainder(i64::MIN, i64::MAX), i64::MAX - 1);
}

#[test]
fn time_of_day_counts_from_midnight() {
    assert_eq!(time_of_day_ms(0), 0);
    assert_eq!(time_of_day_ms(DAY + 5), 5);
    assert_eq!(time_of_day_ms(-1), 86_399_999);
    assert_eq!(time_of_day_ms(3 * DAY + 7 * HOUR + 30 * MINUTE), 27_000_000);
}

#[test]
fn sessions_are_listed_with_their_hours() {
    let listed: Vec<(&str, u32, u32)> =
        sessions().iter().map(|s| (s.label, s.start, s.end)).collect();
    assert_eq!(
        listed,
        vec![
            ("Asian Session", 79_200_000, 27_000_000),
            ("London Session", 27_000_000, 43_200_000),
            ("New York Session", 43_200_000, 79_200_000),
        ]
    );
}

#[test]
fn every_instant_has_its_session() {
    let at = |hours: i64, minutes: i64, millis: i64| {
        get_right_session(5 * DAY + hours * HOUR + minutes * MINUTE + millis).unwrap().label
    };
    assert_eq!(at(0, 0, 0), "Asian Session");
    assert_eq!(at(7, 30, 0), "Asian Session");
    assert_eq!(at(7, 30, 1), "London Session");
    assert_eq!(at(12, 0, 0), "London Session");
    assert_eq!(at(12, 0, 1), "New York Session");
    assert_eq!(at(21, 59, 59_999), "New York Session");
    assert_eq!(at(22, 0, 0), "Asian Session");
    assert_eq!(at(23, 59, 59_999), "Asian Session");
    assert_eq!(get_right_session(-1).unwrap().label, "Asian Session");
    assert_eq!(get_right_session(i64::MIN).unwrap().label, "New York Session");
    assert_eq!(get_right_session(i64::MAX).unwrap().label, "Asian Session");
}

#[test]
fn first_listed_session_wins() {
    let list = vec![
        ReferenceSession { label: "late", start: 50, end: 60 },
        ReferenceSession { label: "wide", start: 0, end: 100 },
        ReferenceSession { label: "early", start: 0, end: 10 },
    ];
    assert_eq!(find_session(&list, 55).unwrap().label, "late");
    assert_eq!(find_session(&list, 5).unwrap().label, "wide");
    assert_eq!(find_session(&list, 101), None);
    assert_eq!(find_session(&vec![], 5), None);
}

#[test]
fn day_session_runs_within_the_day() {
    let ten = DAY + 10 * HOUR;
    assert_eq!(
        get_sessions_start_end(ten, &london()),
        Some((DAY + 27_000_000, DAY + 43_200_000))
    );
    assert_eq!(
        get_sessions_start_end(-1, &new_york()),
        Some((-DAY + 43_200_000, -DAY + 79_200_000))
    );
}

#[test]
fn asian_session_runs_over_midnight() {
    let evening = 23 * HOUR;
    let night = DAY + 3 * HOUR;
    let window = Some((79_200_000, DAY + 27_000_000));
    assert_eq!(get_sessions_start_end(evening, &asian()), window);
    assert_eq!(get_sessions_start_end(night, &asian()), window);
    assert_eq!(get_sessions_start_end(DAY + 6 * HOUR + 59 * MINUTE, &asian()), window);
}

#[test]
fn asian_session_from_seven_on_is_placed_in_the_evening() {
    let morning = DAY + 7 * HOUR + 15 * MINUTE;
    assert_eq!(
        get_sessions_start_end(morning, &asian()),
        Some((DAY + 79_200_000, 2 * DAY + 27_000_000))
    );
}

#[test]
fn session_named_like_the_asian_one_runs_over_midnight() {
    let named = ReferenceSession { label: "Asian Session", start: 10, end: 20 };
    assert_eq!(get_sessions_start_end(DAY + 15, &named), Some((10, DAY + 20)));
    let other = ReferenceSession { label: "Asian session", start: 10, end: 20 };
    assert_eq!(get_sessions_start_end(DAY + 15, &other), Some((DAY + 10, DAY + 20)));
}

#[test]
fn window_beyond_the_range_of_instants_is_none() {
    assert_eq!(get_sessions_start_end(i64::MAX, &asian()), None);
    assert_eq!(get_sessions_start_end(i64::MIN, &new_york()), None);
    assert_eq!(
        get_sessions_start_end(i64::MAX, &ReferenceSession { label: "now", start: 0, end: 25_975_807 }),
        Some((9_223_372_036_828_800_000, i64::MAX))
    );
    assert_eq!(
        get_sessions_start_end(i64::MAX, &ReferenceSession { label: "now", start: 0, end: 25_975_808 }),
        None
    );
}

#[test]
fn candle_belongs_to_a_session_between_its_ends() {
    let session = Session {
        symbol: "EURUSD",
        label: "London Session",
        start: 100,
        end: 200,
        high: 1,
        low: 1,
        open: 1,
        close: 1,
        volume: 1,
    };
    assert!(is_same_session(&session, &candle(100, 1, 1, 1, 1, 1)));
    assert!(is_same_session(&session, &candle(200, 1, 1, 1, 1, 1)));
    assert!(!is_same_session(&session, &candle(99, 1, 1, 1, 1, 1)));
    assert!(!is_same_session(&session, &candle(201, 1, 1, 1, 1, 1)));
    assert!(should_create_new_session(&None, &candle(150, 1, 1, 1, 1, 1)));
    assert!(!should_create_new_session(&Some(session), &candle(150, 1, 1, 1, 1, 1)));
    assert!(should_create_new_session(&Some(session), &candle(201, 1, 1, 1, 1, 1)));
}

#[test]
fn first_candle_opens_its_session() {
    let mut current = None;
    let ended = process_session(&mut current, &candle(DAY + 10 * HOUR, 10, 12, 9, 11, 5), "EURUSD");
    assert_eq!(ended, Ok(None));
    assert_eq!(
        current,
        Some(Session {
            symbol: "EURUSD",
            label: "London Session",
            start: DAY + 27_000_000,
            end: DAY + 43_200_000,
            high: 12,
            low: 9,
            open: 10,
            close: 11,
            volume: 5,
        })
    );
}

#[test]
fn candle_in_the_session_extends_it() {
    let mut current = None;
    process_session(&mut current, &candle(DAY + 10 * HOUR, 10, 12, 9, 11, 5), "EURUSD").unwrap();
    let opened = current.unwrap();
    let ended = process_session(
        &mut current,
        &candle(DAY + 11 * HOUR, 11, 15, 8, 14, 7),
        "EURUSD",
    );
    assert_eq!(ended, Ok(None));
    assert_eq!(current, Some(Session { high: 15, low: 8, close: 14, volume: 12, ..opened }));
    process_session(&mut current, &candle(DAY + 12 * HOUR, 14, 14, 13, 13, 1), "EURUSD").unwrap();
    assert_eq!(current, Some(Session { high: 15, low: 8, close: 13, volume: 13, ..opened }));
}

#[test]
fn candle_after_the_session_opens_the_next_and_hands_back_the_old() {
    let mut current = None;
    process_session(&mut current, &candle(DAY + 10 * HOUR, 10, 12, 9, 11, 5), "EURUSD").unwrap();
    let london = current.unwrap();
    let ended = process_session(
        &mut current,
        &candle(DAY + 12 * HOUR + 1, 11, 15, 8, 14, 7),
        "EURUSD",
    );
    assert_eq!(ended, Ok(Some(london)));
    let next = current.unwrap();
    assert_eq!(next.label, "New York Session");
    assert_eq!((next.start, next.end), (DAY + 43_200_000, DAY + 79_200_000));
    assert_eq!((next.open, next.high, next.low, next.close, next.volume), (11, 15, 8, 14, 7));
}

#[test]
fn session_volume_cannot_overflow() {
    let mut current = None;
    process_session(&mut current, &candle(DAY + 10 * HOUR, 10, 12, 9, 11, u64::MAX), "EURUSD")
        .unwrap();
    let before = current;
    assert_eq!(
        process_session(&mut current, &candle(DAY + 11 * HOUR, 11, 15, 8, 14, 1), "EURUSD"),
        Err(SessionError::VolumeOverflow)
    );
    assert_eq!(current, before);
    assert_eq!(
        process_session(&mut current, &candle(DAY + 11 * HOUR, 11, 15, 8, 14, 0), "EURUSD"),
        Ok(None)
    );
}

#[test]
fn session_at_the_edge_of_time_cannot_be_opened() {
    let mut current = None;
    assert_eq!(
        process_session(&mut current, &candle(i64::MAX, 10, 12, 9, 11, 5), "EURUSD"),
        Err(SessionError::OutOfRange)
    );
    assert_eq!(current, None);
}
