use vstd::prelude::*;

verus! {

/// Seconds in one day.
pub const SECONDS_PER_DAY: i64 = 86_400;

/// Relies on chrono's `From<SystemTime> for DateTime<Utc>` and
/// DateTime::timestamp: the current wall-clock time (std's SystemTime::now) as
/// whole seconds since the Unix epoch, negative for a clock set before it.
/// Nothing is promised of the value.
#[verifier::external_body]
pub(crate) fn now_timestamp() -> (r: i64) {
    chrono::DateTime::<chrono::Utc>::from(std::time::SystemTime::now()).timestamp()
}

/// `t` moved forward by `delta` seconds, in the mathematical integers.
pub open spec fn shifted(t: i64, delta: i64) -> int {
    t + delta
}

/// `t + delta`, clamped to the range of `i64`.
pub fn saturating_shift(t: i64, delta: i64) -> (r: i64)
    ensures
        i64::MIN <= shifted(t, delta) <= i64::MAX ==> r == shifted(t, delta),
        shifted(t, delta) > i64::MAX ==> r == i64::MAX,
        shifted(t, delta) < i64::MIN ==> r == i64::MIN,
{
    if delta >= 0 {
        if t <= i64::MAX - delta {
            t + delta
        } else {
            i64::MAX
        }
    } else {
        if t >= i64::MIN - delta {
            t + delta
        } else {
            i64::MIN
        }
    }
}

/// The instant `days` whole days after `t`, clamped to the range of `i64`.
pub open spec fn days_later(t: i64, days: i64) -> i64 {
    let exact = t + days * SECONDS_PER_DAY;
    if exact > i64::MAX {
        i64::MAX
    } else if exact < i64::MIN {
        i64::MIN
    } else {
        exact as i64
    }
}

/// The instant `days` whole days after `t`, clamped to the range of `i64`.
pub fn days_after(t: i64, days: i64) -> (r: i64)
    ensures
        r == days_later(t, days),
{
    let scaled: i128 = days as i128 * SECONDS_PER_DAY as i128;
    assert(-0x1_0000_0000_0000_0000_0000 <= scaled <= 0x1_0000_0000_0000_0000_0000) by (nonlinear_arith)
        requires
            scaled == days * 86_400,
            i64::MIN <= days <= i64::MAX,
    {}
    let exact: i128 = t as i128 + scaled;
    if exact > i64::MAX as i128 {
        i64::MAX
    } else if exact < i64::MIN as i128 {
        i64::MIN
    } else {
        exact as i64
    }
}

} // verus!
