//! The session tracker: places each base candle in the trading session
//! that holds its time of day.

use vstd::prelude::*;
use vstd::string::StringExecFns;
use crate::entities::candle::Candle;
use crate::entities::session::{
    session_table, sessions, tabulated, ReferenceSession, Session, SessionRow,
};
use crate::utils::{in_timerange, is_in_timerange, time_of_day, time_of_day_ms, DAY_MS, HOUR_MS};

verus! {

/// Why a candle could not be placed in a session. The session that was
/// running is then left as it was.
#[derive(Clone, Copy, Debug, PartialEq, Eq, Structural)]
pub enum SessionError {
    /// No session holds the candle's time of day.
    NoSession,
    /// The session's window does not fit the range of instants.
    OutOfRange,
    /// The session's volume would exceed the largest volume.
    VolumeOverflow,
}

/// The candle's instant lies in the session's window, both ends included.
pub open spec fn same_session(session: Session, candle: Candle) -> bool {
    session.start <= candle.timestamp <= session.end
}

pub fn is_same_session(session: &Session, candle: &Candle) -> (same: bool)
    ensures
        same == same_session(*session, *candle),
{
    candle.timestamp >= session.start && candle.timestamp <= session.end
}

/// A session has to be opened: none is running, or the candle lies outside
/// the one that is.
pub open spec fn needs_new_session(current: Option<Session>, candle: Candle) -> bool {
    match current {
        None => true,
        Some(session) => !same_session(session, candle),
    }
}

pub fn should_create_new_session(current: &Option<Session>, candle: &Candle) -> (needed: bool)
    ensures
        needed == needs_new_session(*current, *candle),
{
    match current {
        None => true,
        Some(session) => !is_same_session(session, candle),
    }
}

/// The first row of `table` whose range holds the time of day `time`.
pub open spec fn first_session(table: Seq<SessionRow>, time: u32) -> Option<SessionRow>
    decreases table.len(),
{
    if table.len() == 0 {
        None
    } else if in_timerange(table[0].1, table[0].2, time) {
        Some(table[0])
    } else {
        first_session(table.drop_first(), time)
    }
}

/// Every time of day falls into a session of the trading day.
pub proof fn lemma_sessions_cover_the_day(time: u32)
    ensures
        first_session(session_table(), time).is_some(),
{
    reveal_with_fuel(first_session, 4);
}

/// Looks up the first session of `list` whose range holds `time`.
pub fn find_session(list: &Vec<ReferenceSession>, time: u32) -> (found: Option<ReferenceSession>)
    ensures
        match found {
            Some(session) => first_session(tabulated(list@), time) == Some(session@),
            None => first_session(tabulated(list@), time).is_none(),
        },
{
    let mut i: usize = 0;
    assert(tabulated(list@).skip(0) =~= tabulated(list@));
    while i < list.len()
        invariant
            i <= list.len(),
            first_session(tabulated(list@), time) == first_session(
                tabulated(list@).skip(i as int),
                time,
            ),
        decreases list.len() - i,
    {
        let candidate = list[i];
        assert(tabulated(list@).skip(i as int)[0] == list@[i as int]@);
        assert(tabulated(list@).skip(i as int).drop_first() =~= tabulated(list@).skip(i + 1));
        if is_in_timerange(candidate.start, candidate.end, time) {
            return Some(candidate);
        }
        i += 1;
    }
    None
}

/// The session of the trading day that holds the instant `timestamp`.
pub fn get_right_session(timestamp: i64) -> (r: Result<ReferenceSession, SessionError>)
    ensures
        r matches Ok(session) && first_session(
            session_table(),
            time_of_day(timestamp as int) as u32,
        ) == Some(session@),
{
    let list = sessions();
    let time = time_of_day_ms(timestamp);
    proof {
        lemma_sessions_cover_the_day(time);
    }
    match find_session(&list, time) {
        Some(session) => Ok(session),
        None => Err(SessionError::NoSession),
    }
}

/// The window of the session `row` around the instant `t`: from the
/// session's start to its end on the day of `t`. The Asian session runs over
/// midnight: before seven o'clock it has started the day before, and from
/// seven o'clock on it ends the day after.
pub open spec fn session_window(t: int, row: SessionRow) -> (int, int) {
    let midnight = t - time_of_day(t);
    if row.0 == "Asian Session"@ {
        if time_of_day(t) / (HOUR_MS as int) < 7 {
            (midnight - DAY_MS + row.1, midnight + row.2)
        } else {
            (midnight + row.1, midnight + DAY_MS + row.2)
        }
    } else {
        (midnight + row.1, midnight + row.2)
    }
}

/// Both ends of the window are instants that can be represented.
pub open spec fn window_fits(window: (int, int)) -> bool {
    &&& i64::MIN <= window.0 <= i64::MAX
    &&& i64::MIN <= window.1 <= i64::MAX
}

fn is_asian(label: &str) -> (asian: bool)
    ensures
        asian == (label@ == "Asian Session"@),
{
    let given = String::from_str(label);
    let asian = String::from_str("Asian Session");
    given == asian
}

fn fit(instant: i128) -> (fitted: Option<i64>)
    ensures
        fitted == (if i64::MIN <= instant <= i64::MAX {
            Some(instant as i64)
        } else {
            None
        }),
{
    if instant < i64::MIN as i128 || instant > i64::MAX as i128 {
        None
    } else {
        Some(instant as i64)
    }
}

/// Start and end of the session around the instant `timestamp`, unless one
/// of them cannot be represented.
pub fn get_sessions_start_end(timestamp: i64, session: &ReferenceSession) -> (window: Option<
    (i64, i64),
>)
    ensures
        match window {
            Some(w) => window_fits(session_window(timestamp as int, session@)) && (
                w.0 as int,
                w.1 as int,
            ) == session_window(timestamp as int, session@),
            None => !window_fits(session_window(timestamp as int, session@)),
        },
{
    let time = time_of_day_ms(timestamp);
    let midnight: i128 = timestamp as i128 - time as i128;
    let mut start: i128 = midnight + session.start as i128;
    let mut end: i128 = midnight + session.end as i128;
    if is_asian(session.label) {
        if (time as i64) / HOUR_MS < 7 {
            start = start - DAY_MS as i128;
        } else {
            end = end + DAY_MS as i128;
        }
    }
    match (fit(start), fit(end)) {
        (Some(start), Some(end)) => Some((start, end)),
        _ => None,
    }
}

/// `s` is the session of `row` that the candle opens for `symbol`.
pub open spec fn opens(s: Session, candle: Candle, symbol: &'static str, row: SessionRow) -> bool {
    &&& s.symbol == symbol
    &&& s.label@ == row.0
    &&& (s.start as int, s.end as int) == session_window(candle.timestamp as int, row)
    &&& s.high == candle.high
    &&& s.low == candle.low
    &&& s.open == candle.open
    &&& s.close == candle.close
    &&& s.volume == candle.volume
}

/// The session `s` with the candle added to it.
pub open spec fn extended(s: Session, candle: Candle) -> Session {
    Session {
        high: if candle.high > s.high { candle.high } else { s.high },
        low: if candle.low < s.low { candle.low } else { s.low },
        close: candle.close,
        volume: (s.volume + candle.volume) as u64,
        ..s
    }
}

/// The session of the trading day that holds the candle's time of day.
pub open spec fn session_row(candle: Candle) -> SessionRow {
    first_session(session_table(), time_of_day(candle.timestamp as int) as u32).unwrap()
}

/// The reason for which the candle cannot be placed, if there is one.
pub open spec fn session_rejection(current: Option<Session>, candle: Candle) -> Option<
    SessionError,
> {
    if needs_new_session(current, candle) {
        if window_fits(session_window(candle.timestamp as int, session_row(candle))) {
            None
        } else {
            Some(SessionError::OutOfRange)
        }
    } else if current.unwrap().volume + candle.volume > u64::MAX {
        Some(SessionError::VolumeOverflow)
    } else {
        None
    }
}

/// Places a candle in the running session, or opens the session that holds
/// it. When a new session replaces one that was running, the session that
/// has ended is returned, to be persisted.
pub fn process_session(current: &mut Option<Session>, candle: &Candle, symbol: &'static str) -> (r:
    Result<Option<Session>, SessionError>)
    ensures
        match r {
            Ok(ended) => session_rejection(*old(current), *candle).is_none() && (
            if needs_new_session(*old(current), *candle) {
                ended == *old(current) && final(current).is_some() && opens(
                    final(current).unwrap(),
                    *candle,
                    symbol,
                    session_row(*candle),
                )
            } else {
                ended.is_none() && *final(current) == Some(
                    extended(old(current).unwrap(), *candle),
                )
            }),
            Err(e) => session_rejection(*old(current), *candle) == Some(e) && *final(current)
                == *old(current),
        },
{
    if should_create_new_session(current, candle) {
        let reference = match get_right_session(candle.timestamp) {
            Ok(reference) => reference,
            Err(e) => {
                return Err(e);
            },
        };
        let (start, end) = match get_sessions_start_end(candle.timestamp, &reference) {
            Some(window) => window,
            None => {
                return Err(SessionError::OutOfRange);
            },
        };
        let ended = *current;
        *current = Some(
            Session {
                symbol,
                label: reference.label,
                start,
                end,
                high: candle.high,
                low: candle.low,
                open: candle.open,
                close: candle.close,
                volume: candle.volume,
            },
        );
        Ok(ended)
    } else {
        let mut session = current.unwrap();
        if candle.volume > u64::MAX - session.volume {
            return Err(SessionError::VolumeOverflow);
        }
        if candle.high > session.high {
            session.high = candle.high;
        }
        if candle.low < session.low {
            session.low = candle.low;
        }
        session.close = candle.close;
        session.volume = session.volume + candle.volume;
        *current = Some(session);
        Ok(None)
    }
}

} // verus!
