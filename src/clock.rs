use vstd::prelude::*;

verus! {

/// Relies on chrono's Utc::now and DateTime::timestamp_micros: the current
/// time in microseconds since the epoch. `Utc::now` panics on a clock set
/// before the epoch, so what it returns is never negative.
#[verifier::external_body]
pub(crate) fn epoch_micros_now() -> (r: i64)
    ensures
        r >= 0,
{
    chrono::Utc::now().timestamp_micros()
}

/// Microseconds to whole milliseconds, rounded toward zero.
pub open spec fn millis_of(us: int) -> int {
    if us >= 0 { us / 1000 } else { -((-us) / 1000) }
}

/// Whole milliseconds in `us` microseconds, rounded toward zero.
pub fn millis_from_micros(us: i64) -> (r: i64)
    ensures
        r == millis_of(us as int),
{
    if us >= 0 {
        us / 1000
    } else {
        let a: u64 = ((-(us + 1)) as u64) + 1;
        -((a / 1000) as i64)
    }
}

/// Whole seconds in `us` microseconds, rounded down: the second in which
/// that instant falls.
pub fn seconds_from_micros(us: i64) -> (r: i64)
    ensures
        r == (us as int) / 1_000_000,
{
    if us >= 0 {
        us / 1_000_000
    } else {
        let a: u64 = (-(us + 1)) as u64;
        let q: u64 = a / 1_000_000;
        proof {
            let u = us as int;
            assert(u / 1_000_000 == -(q as int) - 1) by (nonlinear_arith)
                requires
                    u < 0,
                    a as int == -(u + 1),
                    q as int == (a as int) / 1_000_000,
            {
            }
        }
        -(q as i64) - 1
    }
}

} // verus!
