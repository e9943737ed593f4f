//! The candle aggregator: folds base candles into the bucket of their key
//! and closes the bucket when a candle falls behind its end.

use vstd::prelude::*;
use vstd::arithmetic::div_mod::{lemma_fundamental_div_mod, lemma_fundamental_div_mod_converse};
use crate::entities::candle::Candle;
use crate::entities::event::Event;
use crate::entities::timerange::Timerange;
use crate::state::KeyState;
use crate::store::{key_of, Store};
use crate::utils::euclidean_remainder;

verus! {

/// The bucket that is being filled for a key: the candle as it stands, and
/// the instant of the base candle that was folded into it last.
#[derive(Clone, Copy, Debug, PartialEq, Eq)]
pub struct Accumulator {
    pub candle: Candle,
    pub last_timestamp: i64,
}

impl Accumulator {
    /// The bucket holds a well-formed candle and starts no later than the
    /// last base candle folded into it.
    pub open spec fn well_formed(&self) -> bool {
        &&& self.candle.is_well_formed()
        &&& self.candle.timestamp <= self.last_timestamp
    }
}

/// Why a base candle was turned away. The key's state is then left as it was.
#[derive(Clone, Copy, Debug, PartialEq, Eq, Structural)]
pub enum IngestError {
    /// Open or close lies outside the range from low to high.
    Malformed,
    /// The start of the candle's bucket lies before the earliest instant.
    OutOfRange,
    /// The candle is older than the one that was ingested before it.
    OutOfOrder,
    /// The bucket's volume would exceed the largest volume.
    VolumeOverflow,
}

/// What a base candle that was accepted has led to.
#[derive(Clone, Copy, Debug, PartialEq, Eq)]
pub struct Ingest {
    /// The bucket that is being filled from now on.
    pub accumulator: Accumulator,
    /// The bucket that the candle has closed, if it closed one.
    pub closed: Option<Candle>,
}

/// Start of the bucket of span `d` that holds the instant `t`.
pub open spec fn bucket_start(t: int, d: int) -> int {
    (t / d) * d
}

/// The candle falls into the bucket that is being filled: the instant at
/// which that bucket ends belongs to the next one.
pub open spec fn same_bucket(a: Accumulator, c: Candle, d: int) -> bool {
    a.candle.timestamp + d > c.timestamp
}

/// The bucket that starts with `c`.
pub open spec fn seeded(c: Candle, symbol: &'static str, label: &'static str, d: int)
    -> Accumulator {
    Accumulator {
        candle: Candle {
            symbol,
            timerange: label,
            timestamp: bucket_start(c.timestamp as int, d) as i64,
            ..c
        },
        last_timestamp: c.timestamp,
    }
}

/// The bucket `a` with `c` folded into it.
pub open spec fn folded(a: Accumulator, c: Candle) -> Accumulator {
    Accumulator {
        candle: Candle {
            high: if a.candle.high >= c.high { a.candle.high } else { c.high },
            low: if a.candle.low <= c.low { a.candle.low } else { c.low },
            close: c.close,
            volume: (a.candle.volume + c.volume) as u64,
            ..a.candle
        },
        last_timestamp: c.timestamp,
    }
}

/// The reason for which `c` is turned away, if there is one.
pub open spec fn rejection(acc: Option<Accumulator>, c: Candle, d: int) -> Option<IngestError> {
    if !c.is_well_formed() {
        Some(IngestError::Malformed)
    } else if bucket_start(c.timestamp as int, d) < i64::MIN {
        Some(IngestError::OutOfRange)
    } else {
        match acc {
            None => None,
            Some(a) => if c.timestamp < a.last_timestamp {
                Some(IngestError::OutOfOrder)
            } else if same_bucket(a, c, d) && a.candle.volume + c.volume > u64::MAX {
                Some(IngestError::VolumeOverflow)
            } else {
                None
            },
        }
    }
}

/// What an accepted candle leads to: it starts the first bucket, is folded
/// into the bucket being filled, or closes that bucket and starts the next.
pub open spec fn ingested(
    acc: Option<Accumulator>,
    c: Candle,
    symbol: &'static str,
    label: &'static str,
    d: int,
) -> Ingest {
    match acc {
        None => Ingest { accumulator: seeded(c, symbol, label, d), closed: None },
        Some(a) => if same_bucket(a, c, d) {
            Ingest { accumulator: folded(a, c), closed: None }
        } else {
            Ingest { accumulator: seeded(c, symbol, label, d), closed: Some(a.candle) }
        },
    }
}

/// The bucket start lies `t mod d` before `t`.
pub proof fn lemma_bucket_start(t: int, d: int)
    requires
        d > 0,
    ensures
        bucket_start(t, d) == t - t % d,
        bucket_start(t, d) <= t < bucket_start(t, d) + d,
        bucket_start(t, d) % d == 0,
{
    lemma_fundamental_div_mod(t, d);
    assert((t / d) * d == d * (t / d)) by (nonlinear_arith);
    lemma_fundamental_div_mod_converse(bucket_start(t, d), d, t / d, 0);
}

/// Start of the bucket of `timerange` that holds `timestamp`, unless it lies
/// before the earliest instant.
pub fn bucket_of(timestamp: i64, timerange: &Timerange) -> (start: Option<i64>)
    ensures
        start == (if bucket_start(timestamp as int, timerange.duration_ms() as int) >= i64::MIN {
            Some(bucket_start(timestamp as int, timerange.duration_ms() as int) as i64)
        } else {
            None
        }),
{
    let d: i64 = timerange.duration_ms() as i64;
    let r = euclidean_remainder(timestamp, d);
    proof {
        lemma_bucket_start(timestamp as int, d as int);
    }
    if timestamp < i64::MIN + r {
        None
    } else {
        Some(timestamp - r)
    }
}

/// Folds one base candle into the bucket of its key.
///
/// The candle is turned away exactly when [`rejection`] names a reason;
/// otherwise the result is that of [`ingested`].
pub fn ingest(
    accumulator: Option<Accumulator>,
    candle: &Candle,
    symbol: &'static str,
    timerange: &Timerange,
) -> (r: Result<Ingest, IngestError>)
    ensures
        match r {
            Ok(step) => rejection(accumulator, *candle, timerange.duration_ms() as int).is_none()
                && step == ingested(
                accumulator,
                *candle,
                symbol,
                timerange.label(),
                timerange.duration_ms() as int,
            ),
            Err(e) => rejection(accumulator, *candle, timerange.duration_ms() as int) == Some(e),
        },
{
    if !candle.is_well_formed() {
        return Err(IngestError::Malformed);
    }
    let start = match bucket_of(candle.timestamp, timerange) {
        None => {
            return Err(IngestError::OutOfRange);
        },
        Some(start) => start,
    };
    let seed = Accumulator {
        candle: Candle {
            symbol,
            timerange: timerange.label(),
            timestamp: start,
            open: candle.open,
            high: candle.high,
            low: candle.low,
            close: candle.close,
            volume: candle.volume,
        },
        last_timestamp: candle.timestamp,
    };
    match accumulator {
        None => Ok(Ingest { accumulator: seed, closed: None }),
        Some(a) => {
            if candle.timestamp < a.last_timestamp {
                return Err(IngestError::OutOfOrder);
            }
            let end: i128 = a.candle.timestamp as i128 + timerange.duration_ms() as i128;
            if end > candle.timestamp as i128 {
                if candle.volume > u64::MAX - a.candle.volume {
                    return Err(IngestError::VolumeOverflow);
                }
                let mut bucket = a.candle;
                if candle.high > bucket.high {
                    bucket.high = candle.high;
                }
                if candle.low < bucket.low {
                    bucket.low = candle.low;
                }
                bucket.close = candle.close;
                bucket.volume = bucket.volume + candle.volume;
                Ok(
                    Ingest {
                        accumulator: Accumulator {
                            candle: bucket,
                            last_timestamp: candle.timestamp,
                        },
                        closed: None,
                    },
                )
            } else {
                Ok(Ingest { accumulator: seed, closed: Some(a.candle) })
            }
        },
    }
}

/// Accepting a candle leaves a well-formed bucket, and closes one that is
/// well formed and starts before the bucket that follows it.
pub proof fn lemma_ingested_well_formed(
    acc: Option<Accumulator>,
    c: Candle,
    symbol: &'static str,
    label: &'static str,
    d: int,
)
    requires
        0 < d,
        acc matches Some(a) ==> a.well_formed(),
        rejection(acc, c, d).is_none(),
    ensures
        ingested(acc, c, symbol, label, d).accumulator.well_formed(),
        ingested(acc, c, symbol, label, d).closed matches Some(k) ==> k.is_well_formed()
            && k.timestamp < ingested(acc, c, symbol, label, d).accumulator.candle.timestamp,
{
    lemma_bucket_start(c.timestamp as int, d);
}

/// Takes one base candle through the pipeline of the key that `symbol` and
/// `timerange` name, and lists what is to be handed to the sinks.
///
/// A candle that is turned away leaves the store as it was. One that is
/// accepted changes the state of its key alone; the events are empty unless
/// the candle closes a bucket.
pub fn aggregate_candle(
    store: &mut Store,
    candle: &Candle,
    symbol: &'static str,
    timerange: &Timerange,
) -> (r: Result<Vec<Event>, IngestError>)
    ensures
        match r {
            Ok(events) => rejection(
                old(store).state_of(symbol, timerange.label()).accumulator,
                *candle,
                timerange.duration_ms() as int,
            ).is_none() && final(store)@ == old(store)@.insert(
                key_of(symbol, timerange.label()),
                old(store).state_of(symbol, timerange.label()).aggregated(
                    *candle,
                    symbol,
                    timerange.label(),
                    timerange.duration_ms() as int,
                ).state,
            ) && events@ == old(store).state_of(symbol, timerange.label()).aggregated(
                *candle,
                symbol,
                timerange.label(),
                timerange.duration_ms() as int,
            ).events,
            Err(e) => rejection(
                old(store).state_of(symbol, timerange.label()).accumulator,
                *candle,
                timerange.duration_ms() as int,
            ) == Some(e) && final(store)@ == old(store)@,
        },
{
    let label = timerange.label();
    let ghost key = key_of(symbol, label);
    let known = store.take(symbol, label);
    let seen = known.is_some();
    let mut state = match known {
        Some(state) => state,
        None => KeyState::new(),
    };
    let r = state.aggregate(candle, symbol, timerange);
    if seen || r.is_ok() {
        store.put(symbol, label, state);
        assert(old(store)@.remove(key).insert(key, state@) =~= old(store)@.insert(key, state@));
        assert(seen ==> old(store)@.insert(key, old(store)@[key]) =~= old(store)@);
    } else {
        assert(old(store)@.remove(key) =~= old(store)@);
    }
    r
}

} // verus!
