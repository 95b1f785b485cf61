use vstd::prelude::*;
use crate::clock::valid_time;

verus! {

/// Length of the window over which requests are counted, in milliseconds.
pub const RATE_WINDOW_MS: i64 = 60_000;

/// Requests admitted per client within one window.
pub const RATE_LIMIT: usize = 5;

/// The request times of `stamps` that still count at `now`: those at most a
/// window old (a time after `now` counts as no time at all).
pub open spec fn recent(stamps: Seq<i64>, now: i64) -> Seq<i64>
    decreases stamps.len(),
{
    if stamps.len() == 0 {
        stamps
    } else if now - stamps.last() <= RATE_WINDOW_MS {
        recent(stamps.drop_last(), now).push(stamps.last())
    } else {
        recent(stamps.drop_last(), now)
    }
}

/// Admits a request at `now` from a client whose admitted requests were at
/// `stamps`: times that no longer count are forgotten; with five or more
/// left the request is refused, otherwise it is admitted and recorded.
pub fn check_rate(stamps: &mut Vec<i64>, now: i64) -> (r: bool)
    requires
        valid_time(now),
    ensures
        r == (recent(old(stamps)@, now).len() < RATE_LIMIT),
        r ==> final(stamps)@ == recent(old(stamps)@, now).push(now),
        !r ==> final(stamps)@ == recent(old(stamps)@, now),
{
    let mut kept: Vec<i64> = Vec::new();
    let mut i: usize = 0;
    while i < stamps.len()
        invariant
            valid_time(now),
            i <= stamps@.len(),
            kept@ == recent(stamps@.subrange(0, i as int), now),
        decreases stamps@.len() - i,
    {
        assert(stamps@.subrange(0, i + 1).drop_last() =~= stamps@.subrange(0, i as int));
        let t = stamps[i];
        if t >= now - RATE_WINDOW_MS {
            kept.push(t);
        }
        i = i + 1;
    }
    assert(stamps@.subrange(0, stamps@.len() as int) =~= stamps@);
    if kept.len() >= RATE_LIMIT {
        *stamps = kept;
        return false;
    }
    kept.push(now);
    *stamps = kept;
    true
}

} // verus!
