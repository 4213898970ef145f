use vstd::prelude::*;

verus! {

/// Engine time units (nanoseconds) per external millisecond.
pub const NANOS_PER_MILLI: i64 = 1_000_000;

/// A millisecond time of the caller's clock in engine time.
pub open spec fn spec_engine_time(ms: u32) -> i64 {
    (ms as int * NANOS_PER_MILLI) as i64
}

/// Converts a timestamp of the caller's millisecond clock to the engine's
/// nanosecond clock. Every `u32` millisecond value fits.
pub fn engine_time(ms: u32) -> (r: i64)
    ensures
        r == ms as int * NANOS_PER_MILLI,
        r == spec_engine_time(ms),
{
    assert(ms as int * 1_000_000 <= 4_294_967_295 * 1_000_000) by (nonlinear_arith)
        requires
            ms <= 4_294_967_295,
    ;
    (ms as i64) * NANOS_PER_MILLI
}

/// The millisecond value of an engine time, sub-millisecond parts dropped,
/// held to the range of the caller's clock.
pub open spec fn spec_external_time(ns: i64) -> u32 {
    if ns < 0 {
        0
    } else if ns as int / NANOS_PER_MILLI as int > u32::MAX {
        u32::MAX
    } else {
        (ns as int / NANOS_PER_MILLI as int) as u32
    }
}

/// Converts an engine time back to the caller's millisecond clock: the
/// quotient truncated toward zero, negative times giving 0 and times past
/// the clock's range giving its largest value.
pub fn external_time(ns: i64) -> (r: u32)
    ensures
        r == spec_external_time(ns),
{
    if ns < 0 {
        0
    } else {
        let q: i64 = ns / NANOS_PER_MILLI;
        if q > u32::MAX as i64 {
            u32::MAX
        } else {
            q as u32
        }
    }
}

/// Converting a millisecond time to engine time and back gives the same
/// millisecond value, for every value of the caller's clock.
pub proof fn lemma_time_round_trip(ms: u32)
    ensures
        spec_external_time(spec_engine_time(ms)) == ms,
{
    let ns = ms as int * NANOS_PER_MILLI;
    assert(0 <= ns <= 4_294_967_295 * 1_000_000) by (nonlinear_arith)
        requires
            ns == ms as int * 1_000_000,
            ms <= 4_294_967_295,
    ;
    assert(ns / 1_000_000 == ms as int) by (nonlinear_arith)
        requires
            ns == ms as int * 1_000_000,
    ;
}

} // verus!
