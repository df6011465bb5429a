//! Progress telemetry: a `(current, total)` pair in job-kind-defined units
//! and its completion ratio, expressed in thousandths and clamped to the
//! unit interval.

use vstd::prelude::*;
use vstd::arithmetic::div_mod::{lemma_div_pos_is_pos, lemma_multiply_divide_lt};

verus! {

/// Completion ratio of `current` out of `total`, in thousandths:
/// `0` when `total == 0`, otherwise `current / total` clamped to `[0, 1]`.
pub open spec fn ratio_milli_spec(current: u64, total: u64) -> int {
    if total == 0 {
        0
    } else if current >= total {
        1000
    } else {
        (current * 1000) / (total as int)
    }
}

/// The ratio always lies in `[0, 1000]` and is `0` when `total == 0`.
pub proof fn lemma_ratio_milli_bounds(current: u64, total: u64)
    ensures
        0 <= ratio_milli_spec(current, total) <= 1000,
        total == 0 ==> ratio_milli_spec(current, total) == 0,
        current >= total && total > 0 ==> ratio_milli_spec(current, total) == 1000,
{
    if total > 0 && current < total {
        assert(current * 1000 >= 0) by (nonlinear_arith)
            requires current >= 0;
        lemma_div_pos_is_pos(current * 1000, total as int);
        assert(current * 1000 < (total as int) * 1000) by (nonlinear_arith)
            requires current < total;
        lemma_multiply_divide_lt(current * 1000, total as int, 1000);
    }
}

/// Compute the clamped completion ratio in thousandths.
pub fn ratio_milli(current: u64, total: u64) -> (r: u64)
    ensures
        r as int == ratio_milli_spec(current, total),
        r <= 1000,
        total == 0 ==> r == 0,
{
    proof {
        lemma_ratio_milli_bounds(current, total);
    }
    if total == 0 {
        0
    } else if current >= total {
        1000
    } else {
        let milli: u128 = (current as u128) * 1000 / (total as u128);
        milli as u64
    }
}

} // verus!
