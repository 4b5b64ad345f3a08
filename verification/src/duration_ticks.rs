//! Conversion of an elapsed time span into a count of whole intervals.

use vstd::prelude::*;

verus! {

/// The number of whole intervals contained in an elapsed span, or `None`
/// while no timer has been started.
pub open spec fn spec_ticks(elapsed: Option<u64>, interval: u64) -> Option<u64>
    recommends
        elapsed is Some ==> interval > 0,
{
    match elapsed {
        None => None,
        Some(d) => Some((d / interval) as u64),
    }
}

/// The span between a recorded instant and the clock reading, both in whole
/// seconds. A recorded instant that lies after the clock reading gives no
/// span, as does a timer that was never started.
pub open spec fn spec_elapsed_since(ping: Option<u64>, now: u64) -> Option<u64> {
    match ping {
        Some(t) if t <= now => Some((now - t) as u64),
        _ => None,
    }
}

/// Counts the whole intervals that fit into `elapsed`.
///
/// `None` means that the timer has not been started, `Some(0)` that the first
/// interval has not yet passed, and `Some(n)` that `n` full intervals have.
pub fn ticks(elapsed: Option<u64>, interval: u64) -> (n: Option<u64>)
    requires
        elapsed is Some ==> interval > 0,
    ensures
        n == spec_ticks(elapsed, interval),
        elapsed is None <==> n is None,
        elapsed matches Some(d) ==> (d < interval <==> n == Some(0u64)),
        elapsed matches Some(d) ==> n matches Some(k) && k * interval <= d < (k + 1) * interval,
{
    match elapsed {
        None => None,
        Some(d) => {
            proof {
                lemma_floor_bounds(d, interval);
            }
            Some(d / interval)
        },
    }
}

/// Measures how long ago `ping` was, by the clock reading `now`.
pub fn elapsed_since(ping: Option<u64>, now: u64) -> (span: Option<u64>)
    ensures
        span == spec_elapsed_since(ping, now),
{
    match ping {
        Some(t) => if t <= now {
            Some(now - t)
        } else {
            None
        },
        None => None,
    }
}

/// The quotient `d / interval` is the unique count `k` with
/// `k * interval <= d < (k + 1) * interval`; it is zero exactly when
/// `d < interval`.
pub proof fn lemma_floor_bounds(d: u64, interval: u64)
    requires
        interval > 0,
    ensures
        (d / interval) * interval <= d < (d / interval + 1) * interval,
        d < interval <==> d / interval == 0,
        d / interval <= d,
{
    let q = d as int / interval as int;
    vstd::arithmetic::div_mod::lemma_fundamental_div_mod(d as int, interval as int);
    vstd::arithmetic::div_mod::lemma_mod_bound(d as int, interval as int);
    vstd::arithmetic::div_mod::lemma_div_pos_is_pos(d as int, interval as int);
    assert(interval * q == q * interval) by (nonlinear_arith);
    assert((q + 1) * interval == q * interval + interval) by (nonlinear_arith);
    if d < interval {
        vstd::arithmetic::div_mod::lemma_basic_div(d as int, interval as int);
    } else {
        assert(q != 0) by {
            if q == 0 {
                assert(q * interval == 0) by (nonlinear_arith)
                    requires
                        q == 0,
                ;
            }
        }
    }
    assert(q <= d) by (nonlinear_arith)
        requires
            q >= 0,
            interval >= 1,
            q * interval <= d,
    ;
}

/// The tick count never decreases as time passes: a longer span holds at
/// least as many whole intervals as a shorter one.
pub proof fn lemma_ticks_monotonic(d1: u64, d2: u64, interval: u64)
    requires
        interval > 0,
        d1 <= d2,
    ensures
        spec_ticks(Some(d1), interval)->Some_0 <= spec_ticks(Some(d2), interval)->Some_0,
{
    vstd::arithmetic::div_mod::lemma_div_is_ordered(d1 as int, d2 as int, interval as int);
    lemma_floor_bounds(d1, interval);
    lemma_floor_bounds(d2, interval);
}

/// The three cases of the tick count: no span gives no count, a span shorter
/// than the interval gives zero, and any other span gives the floor of the
/// quotient, which is then at least one.
pub proof fn lemma_ticks_cases(elapsed: Option<u64>, interval: u64)
    requires
        interval > 0,
    ensures
        elapsed is None ==> spec_ticks(elapsed, interval) is None,
        elapsed matches Some(d) ==> (d < interval ==> spec_ticks(elapsed, interval) == Some(0u64)),
        elapsed matches Some(d) ==> (d >= interval ==> spec_ticks(elapsed, interval) == Some(
            (d as int / interval as int) as u64,
        ) && d as int / interval as int >= 1),
{
    if let Some(d) = elapsed {
        lemma_floor_bounds(d, interval);
    }
}

} // verus!
