//! What holds of the buckets that the aggregator closes.

use vstd::prelude::*;
use crate::entities::candle::Candle;
use crate::handlers::candle::{
    bucket_start, folded, ingested, lemma_bucket_start, lemma_ingested_well_formed, rejection,
    same_bucket, seeded, Accumulator,
};

verus! {

/// The bucket being filled and the buckets closed, in their order, after a
/// run of base candles.
pub struct FeedView {
    pub accumulator: Option<Accumulator>,
    pub closed: Seq<Candle>,
}

/// Feeds `candles` to the aggregator in their order, starting from the
/// bucket `acc`. A candle that is turned away changes nothing.
pub open spec fn fed(
    acc: Option<Accumulator>,
    candles: Seq<Candle>,
    symbol: &'static str,
    label: &'static str,
    d: int,
) -> FeedView
    decreases candles.len(),
{
    if candles.len() == 0 {
        FeedView { accumulator: acc, closed: Seq::empty() }
    } else {
        let before = fed(acc, candles.drop_last(), symbol, label, d);
        if rejection(before.accumulator, candles.last(), d).is_some() {
            before
        } else {
            let step = ingested(before.accumulator, candles.last(), symbol, label, d);
            FeedView {
                accumulator: Some(step.accumulator),
                closed: match step.closed {
                    Some(k) => before.closed.push(k),
                    None => before.closed,
                },
            }
        }
    }
}

/// The highest high of a run of candles.
pub open spec fn highest(run: Seq<Candle>) -> i64
    recommends
        run.len() > 0,
    decreases run.len(),
{
    if run.len() <= 1 {
        run[0].high
    } else if highest(run.drop_last()) >= run.last().high {
        highest(run.drop_last())
    } else {
        run.last().high
    }
}

/// The lowest low of a run of candles.
pub open spec fn lowest(run: Seq<Candle>) -> i64
    recommends
        run.len() > 0,
    decreases run.len(),
{
    if run.len() <= 1 {
        run[0].low
    } else if lowest(run.drop_last()) <= run.last().low {
        lowest(run.drop_last())
    } else {
        run.last().low
    }
}

/// The volumes of a run of candles, added up.
pub open spec fn total_volume(run: Seq<Candle>) -> int
    decreases run.len(),
{
    if run.len() == 0 {
        0
    } else {
        total_volume(run.drop_last()) + run.last().volume
    }
}

/// The candle that a run of base candles rolls up to: it opens with the
/// first and closes with the last, spans the highest high and the lowest
/// low, and carries the volume of all.
pub open spec fn rolled_up(
    run: Seq<Candle>,
    symbol: &'static str,
    label: &'static str,
    start: i64,
) -> Candle
    recommends
        run.len() > 0,
{
    Candle {
        symbol,
        timerange: label,
        timestamp: start,
        open: run[0].open,
        high: highest(run),
        low: lowest(run),
        close: run.last().close,
        volume: total_volume(run) as u64,
    }
}

/// Well-formed base candles that arrive in order within one bucket are
/// rolled up in the accumulator, and none of them closes a bucket.
pub proof fn lemma_bucket_rolls_up(
    run: Seq<Candle>,
    symbol: &'static str,
    label: &'static str,
    d: int,
    start: i64,
)
    requires
        0 < d,
        0 < run.len(),
        (start as int) % d == 0,
        forall|i: int|
            0 <= i < run.len() ==> (#[trigger] run[i]).is_well_formed() && start <= run[i].timestamp
                < start + d,
        forall|i: int, j: int|
            0 <= i <= j < run.len() ==> (#[trigger] run[i]).timestamp <= (#[trigger] run[j]).timestamp,
        total_volume(run) <= u64::MAX,
    ensures
        fed(None, run, symbol, label, d).closed == Seq::<Candle>::empty(),
        fed(None, run, symbol, label, d).accumulator == Some(
            Accumulator {
                candle: rolled_up(run, symbol, label, start),
                last_timestamp: run.last().timestamp,
            },
        ),
    decreases run.len(),
{
    let c = run.last();
    assert(bucket_start(c.timestamp as int, d) == start) by {
        lemma_bucket_start(c.timestamp as int, d);
        lemma_same_bucket_start(c.timestamp as int, start as int, d);
    }
    if run.len() == 1 {
        assert(run.drop_last() =~= Seq::<Candle>::empty());
        assert(fed(None, run.drop_last(), symbol, label, d).accumulator.is_none());
        assert(total_volume(run.drop_last()) == 0);
    } else {
        let head = run.drop_last();
        lemma_volume_is_not_negative(head);
        assert forall|i: int| 0 <= i < head.len() implies (#[trigger] head[i]).is_well_formed()
            && start <= head[i].timestamp < start + d by {
            assert(head[i] == run[i]);
        }
        assert forall|i: int, j: int| 0 <= i <= j < head.len() implies (#[trigger] head[i]).timestamp
            <= (#[trigger] head[j]).timestamp by {
            assert(head[i] == run[i]);
            assert(head[j] == run[j]);
        }
        lemma_bucket_rolls_up(head, symbol, label, d, start);
        assert(head.last() == run[run.len() - 2]);
        assert(head[0] == run[0]);
        let acc = fed(None, head, symbol, label, d).accumulator.unwrap();
        assert(same_bucket(acc, c, d));
        assert(rejection(Some(acc), c, d).is_none());
        assert(folded(acc, c).candle == rolled_up(run, symbol, label, start));
    }
}

/// An instant that lies less than a span after a bucket start lies in that
/// bucket.
pub proof fn lemma_same_bucket_start(t: int, start: int, d: int)
    requires
        0 < d,
        start % d == 0,
        start <= t < start + d,
    ensures
        bucket_start(t, d) == start,
{
    vstd::arithmetic::div_mod::lemma_fundamental_div_mod(start, d);
    let q = start / d;
    assert(t == q * d + (t - start)) by (nonlinear_arith)
        requires
            start == d * q,
    ;
    vstd::arithmetic::div_mod::lemma_fundamental_div_mod_converse(t, d, q, t - start);
    assert(q * d == start) by (nonlinear_arith)
        requires
            start == d * q,
    ;
}

/// A total volume is never negative.
pub proof fn lemma_volume_is_not_negative(run: Seq<Candle>)
    ensures
        0 <= total_volume(run),
    decreases run.len(),
{
    if run.len() > 0 {
        lemma_volume_is_not_negative(run.drop_last());
    }
}

/// For a timerange of span `d`, base candles at the instants 0, 1, and so
/// on up to `d - 1`, followed by one at the instant `d`: the first `d`
/// candles close nothing, and the last closes exactly one candle, which
/// starts at 0, opens with the first candle, closes with the one before the
/// last, spans the highest high and the lowest low and carries the volume of
/// all `d`. The last candle then starts the bucket at `d`.
pub proof fn lemma_full_bucket_closes_once(
    candles: Seq<Candle>,
    symbol: &'static str,
    label: &'static str,
    d: int,
)
    requires
        0 < d,
        candles.len() == d + 1,
        forall|i: int|
            0 <= i < candles.len() ==> (#[trigger] candles[i]).is_well_formed()
                && candles[i].timestamp == i,
        total_volume(candles.take(d)) <= u64::MAX,
    ensures
        fed(None, candles.take(d), symbol, label, d).closed == Seq::<Candle>::empty(),
        fed(None, candles, symbol, label, d).closed == seq![
            rolled_up(candles.take(d), symbol, label, 0),
        ],
        fed(None, candles, symbol, label, d).accumulator == Some(
            seeded(candles[d], symbol, label, d),
        ),
        seeded(candles[d], symbol, label, d).candle.timestamp == d,
{
    let run = candles.take(d);
    assert forall|i: int| 0 <= i < run.len() implies (#[trigger] run[i]).is_well_formed() && 0
        <= run[i].timestamp < 0 + d by {
        assert(run[i] == candles[i]);
    }
    assert forall|i: int, j: int| 0 <= i <= j < run.len() implies (#[trigger] run[i]).timestamp
        <= (#[trigger] run[j]).timestamp by {
        assert(run[i] == candles[i]);
        assert(run[j] == candles[j]);
    }
    assert(0int % d == 0) by {
        vstd::arithmetic::div_mod::lemma_fundamental_div_mod_converse(0, d, 0, 0);
    }
    lemma_bucket_rolls_up(run, symbol, label, d, 0);
    assert(candles.drop_last() =~= run);
    assert(candles.last() == candles[d]);
    assert(run.last() == candles[d - 1]);
    lemma_bucket_start(d, d);
    assert(bucket_start(d, d) == d) by {
        vstd::arithmetic::div_mod::lemma_fundamental_div_mod_converse(d, d, 1, 0);
    }
    let acc = fed(None, run, symbol, label, d).accumulator.unwrap();
    assert(!same_bucket(acc, candles[d], d));
    assert(rejection(Some(acc), candles[d], d).is_none());
    assert(Seq::<Candle>::empty().push(acc.candle) =~= seq![acc.candle]);
}

/// Whatever candles are fed, in whatever order, the buckets that close are
/// well formed and come out in ascending order of their starts, all of them
/// before the bucket that is being filled at the end.
pub proof fn lemma_closed_buckets_ascend(
    acc: Option<Accumulator>,
    candles: Seq<Candle>,
    symbol: &'static str,
    label: &'static str,
    d: int,
)
    requires
        0 < d,
        acc matches Some(a) ==> a.well_formed(),
    ensures
        fed(acc, candles, symbol, label, d).accumulator matches Some(a) ==> a.well_formed(),
        forall|i: int|
            0 <= i < fed(acc, candles, symbol, label, d).closed.len() ==> (#[trigger] fed(
                acc,
                candles,
                symbol,
                label,
                d,
            ).closed[i]).is_well_formed(),
        forall|i: int, j: int|
            0 <= i < j < fed(acc, candles, symbol, label, d).closed.len() ==> (#[trigger] fed(
                acc,
                candles,
                symbol,
                label,
                d,
            ).closed[i]).timestamp < (#[trigger] fed(acc, candles, symbol, label, d).closed[j]).timestamp,
        forall|i: int|
            0 <= i < fed(acc, candles, symbol, label, d).closed.len() ==> (#[trigger] fed(
                acc,
                candles,
                symbol,
                label,
                d,
            ).closed[i]).timestamp < fed(
                acc,
                candles,
                symbol,
                label,
                d,
            ).accumulator.unwrap().candle.timestamp,
        fed(acc, candles, symbol, label, d).closed.len() > 0 ==> fed(
            acc,
            candles,
            symbol,
            label,
            d,
        ).accumulator.is_some(),
    decreases candles.len(),
{
    if candles.len() > 0 {
        lemma_closed_buckets_ascend(acc, candles.drop_last(), symbol, label, d);
        let before = fed(acc, candles.drop_last(), symbol, label, d);
        let c = candles.last();
        if rejection(before.accumulator, c, d).is_none() {
            lemma_ingested_well_formed(before.accumulator, c, symbol, label, d);
            lemma_bucket_start(c.timestamp as int, d);
        }
    }
}

/// The base candle that was folded in last lies inside the bucket being
/// filled, which spans `d` from its start.
pub open spec fn holds_its_last_candle(a: Accumulator, d: int) -> bool {
    a.candle.timestamp <= a.last_timestamp < a.candle.timestamp + d
}

/// Whatever candles are fed, the candle folded in last lies inside the
/// bucket being filled. It does so for every bucket that the aggregator has
/// filled from the start, where none is being filled at first.
pub proof fn lemma_bucket_holds_its_last_candle(
    acc: Option<Accumulator>,
    candles: Seq<Candle>,
    symbol: &'static str,
    label: &'static str,
    d: int,
)
    requires
        0 < d,
        acc matches Some(a) ==> holds_its_last_candle(a, d),
    ensures
        fed(acc, candles, symbol, label, d).accumulator matches Some(a) ==> holds_its_last_candle(
            a,
            d,
        ),
    decreases candles.len(),
{
    if candles.len() > 0 {
        lemma_bucket_holds_its_last_candle(acc, candles.drop_last(), symbol, label, d);
        lemma_bucket_start(candles.last().timestamp as int, d);
    }
}

/// A candle that the aggregator accepts closes the bucket being filled
/// exactly when it is not earlier than the bucket's end; the instant of the
/// end itself belongs to the next bucket. The bucket that closes is handed
/// out as it stood, and the candle starts the bucket of its own instant.
pub proof fn lemma_candle_at_the_end_closes_the_bucket(
    a: Accumulator,
    c: Candle,
    symbol: &'static str,
    label: &'static str,
    d: int,
)
    requires
        0 < d,
        rejection(Some(a), c, d).is_none(),
    ensures
        ingested(Some(a), c, symbol, label, d).closed == (if c.timestamp >= a.candle.timestamp
            + d {
            Some(a.candle)
        } else {
            None
        }),
        c.timestamp >= a.candle.timestamp + d ==> ingested(
            Some(a),
            c,
            symbol,
            label,
            d,
        ).accumulator == seeded(c, symbol, label, d),
        c.timestamp < a.candle.timestamp + d ==> ingested(Some(a), c, symbol, label, d).accumulator
            == folded(a, c),
{
}

/// A well-formed candle at or after the end of a bucket that holds its last
/// candle is never turned away for its order or its volume: it closes the
/// bucket, unless the start of its own bucket cannot be represented.
pub proof fn lemma_candle_past_the_end_is_accepted(
    a: Accumulator,
    c: Candle,
    symbol: &'static str,
    label: &'static str,
    d: int,
)
    requires
        0 < d,
        holds_its_last_candle(a, d),
        c.is_well_formed(),
        c.timestamp >= a.candle.timestamp + d,
        bucket_start(c.timestamp as int, d) >= i64::MIN,
    ensures
        rejection(Some(a), c, d).is_none(),
        ingested(Some(a), c, symbol, label, d).closed == Some(a.candle),
        ingested(Some(a), c, symbol, label, d).accumulator == seeded(c, symbol, label, d),
{
}

} // verus!
