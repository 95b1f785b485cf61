use vstd::prelude::*;

verus! {

/// Milliseconds in one day.
pub const MS_PER_DAY: i64 = 86_400_000;

/// The last millisecond of the year 9999; every timestamp handled by the
/// library lies between zero and this value.
pub const MAX_TIMESTAMP_MS: i64 = 253_402_300_799_999;

/// The longest billing interval or trial, in days, that a plan may declare.
pub const MAX_PLAN_DAYS: i64 = 36_600;

/// A timestamp that the library accepts as "now".
pub open spec fn valid_time(t: i64) -> bool {
    0 <= t <= MAX_TIMESTAMP_MS
}

/// A number of days that a plan may declare.
pub open spec fn valid_days(d: i64) -> bool {
    0 <= d <= MAX_PLAN_DAYS
}

/// `now` moved forward by `days` whole days.
pub open spec fn add_days_spec(now: i64, days: i64) -> int {
    now + days * MS_PER_DAY
}

/// Moves `now` forward by `days` days.
pub fn add_days(now: i64, days: i64) -> (r: i64)
    requires
        valid_time(now),
        valid_days(days),
    ensures
        r == add_days_spec(now, days),
{
    assert(days * MS_PER_DAY <= MAX_PLAN_DAYS * MS_PER_DAY) by (nonlinear_arith)
        requires
            0 <= days <= MAX_PLAN_DAYS,
    ;
    assert(days * MS_PER_DAY >= 0) by (nonlinear_arith)
        requires
            0 <= days,
    ;
    now + days * MS_PER_DAY
}

} // verus!
