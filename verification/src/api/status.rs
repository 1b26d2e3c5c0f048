//! The time axis of the throughput chart.

use vstd::prelude::*;

verus! {

/// How many points the throughput chart shows: one for each of the last
/// thirty minutes.
pub const CHART_POINTS: usize = 30;

/// The time of point `i` of a chart drawn at `now`, in seconds since the
/// epoch: the last point is now, each earlier one a minute before the next;
/// no point lies before the earliest time there is.
pub open spec fn chart_time(now: i64, i: int) -> i64 {
    if now - (CHART_POINTS - 1 - i) * 60 < i64::MIN {
        i64::MIN
    } else {
        (now - (CHART_POINTS - 1 - i) * 60) as i64
    }
}

/// The times of the points of a chart drawn at `now`.
pub fn chart_timestamps(now: i64) -> (times: Vec<i64>)
    ensures
        times@ == Seq::new(CHART_POINTS as nat, |i: int| chart_time(now, i)),
{
    let mut times: Vec<i64> = Vec::new();
    let mut i: usize = 0;
    while i < CHART_POINTS
        invariant
            i <= CHART_POINTS,
            times@ == Seq::new(i as nat, |k: int| chart_time(now, k)),
        decreases CHART_POINTS - i,
    {
        let back: i64 = ((CHART_POINTS - 1 - i) as i64) * 60;
        let time: i64 = if now < i64::MIN + back {
            i64::MIN
        } else {
            now - back
        };
        times.push(time);
        assert(times@ =~= Seq::new((i + 1) as nat, |k: int| chart_time(now, k)));
        i = i + 1;
    }
    times
}

} // verus!
