//! Small arithmetic on instants and times of day.

use vstd::prelude::*;
use vstd::arithmetic::div_mod::{lemma_fundamental_div_mod, lemma_fundamental_div_mod_converse};

verus! {

/// Milliseconds in one day.
pub const DAY_MS: i64 = 86_400_000;

/// Milliseconds in one hour.
pub const HOUR_MS: i64 = 3_600_000;

/// A time of day `time` lies in the range from `start` to `end`, both
/// included. A range whose start is later than its end runs over midnight.
pub open spec fn in_timerange(start: u32, end: u32, time: u32) -> bool {
    if start <= end {
        start <= time <= end
    } else {
        time >= start || time <= end
    }
}

pub fn is_in_timerange(start: u32, end: u32, time: u32) -> (inside: bool)
    ensures
        inside == in_timerange(start, end, time),
{
    if start <= end {
        time >= start && time <= end
    } else {
        time >= start || time <= end
    }
}

/// Remainder of `t` by `d` that is never negative.
pub fn euclidean_remainder(t: i64, d: i64) -> (r: i64)
    requires
        d > 0,
    ensures
        r == (t as int) % (d as int),
        0 <= r < d,
{
    if t >= 0 {
        t % d
    } else {
        let u: i64 = -(t + 1);
        let s: i64 = u % d;
        proof {
            let q = (u as int) / (d as int);
            lemma_fundamental_div_mod(u as int, d as int);
            assert((t as int) == (-(q + 1)) * (d as int) + ((d as int) - 1 - (s as int)))
                by (nonlinear_arith)
                requires
                    u as int == (d as int) * q + (s as int),
                    t as int == -((u as int) + 1),
            ;
            lemma_fundamental_div_mod_converse(
                t as int,
                d as int,
                -(q + 1),
                (d as int) - 1 - (s as int),
            );
        }
        (d - 1) - s
    }
}

/// Milliseconds since the midnight before the instant `t`.
pub open spec fn time_of_day(t: int) -> int {
    t % (DAY_MS as int)
}

/// The time of day at the instant `timestamp`, in milliseconds since
/// midnight.
pub fn time_of_day_ms(timestamp: i64) -> (time: u32)
    ensures
        time == time_of_day(timestamp as int),
        time < DAY_MS,
{
    euclidean_remainder(timestamp, DAY_MS) as u32
}

} // verus!
