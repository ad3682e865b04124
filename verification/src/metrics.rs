//! The integer core of the host-metrics command: memory utilization as a
//! fraction of total memory, in hundredths of a percent. The caller samples
//! the two byte counts from the operating system and divides the result by
//! one hundred for a percentage.

use vstd::prelude::*;

verus! {

/// Memory utilization in hundredths of a percent: `used / total * 10000`,
/// rounded down, clamped to the `[0, 10000]` range, and `0` when `total` is
/// `0` (a reading no real host produces).
pub open spec fn memory_percent_hundredths(used: int, total: int) -> int {
    if total <= 0 {
        0
    } else if used * 10000 / total > 10000 {
        10000
    } else {
        used * 10000 / total
    }
}

/// Computes [`memory_percent_hundredths`] for two sampled byte counts. The
/// result never leaves `[0, 10000]`, and for a sane sample (`used <= total`)
/// it is exactly `used * 10000 / total`.
pub fn memory_usage_hundredths(used: u64, total: u64) -> (r: u64)
    ensures
        r as int == memory_percent_hundredths(used as int, total as int),
        r <= 10000,
        total > 0 && used <= total ==> r as int == used as int * 10000 / total as int,
{
    if total == 0 {
        return 0;
    }
    let q: u128 = (used as u128) * 10000 / (total as u128);
    proof {
        if used <= total {
            assert(used as int * 10000 / total as int <= 10000) by (nonlinear_arith)
                requires
                    0 < total as int,
                    used as int <= total as int,
            ;
        }
    }
    if q > 10000 {
        10000
    } else {
        q as u64
    }
}

} // verus!
