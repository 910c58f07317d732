//! Linear timestamp interpolation between two reference blocks.
//!
//! Given the timestamps of the window's end blocks, every event timestamp
//! in between is estimated with one linear step instead of one block fetch
//! per event. The estimate assumes a uniform block production rate and is
//! deliberately approximate.

use vstd::prelude::*;
use vstd::arithmetic::div_mod::lemma_div_is_ordered;
use vstd::arithmetic::mul::{lemma_mul_inequality, lemma_mul_upper_bound};

verus! {

/// `a - b`, clamped at zero.
pub open spec fn sub_clamped(a: int, b: int) -> int {
    if a >= b {
        a - b
    } else {
        0
    }
}

/// The estimated timestamp of `block_number` inside the window
/// `[from_block, to_block]`: the window-end timestamp minus the scaled
/// share of the window's time span, in integer division; the window-end
/// timestamp itself when the window is empty.
pub open spec fn estimated_timestamp(
    from_block: u64,
    to_block: u64,
    from_ts: u64,
    to_ts: u64,
    block_number: u64,
) -> int {
    let total = sub_clamped(to_block as int, from_block as int);
    let time = sub_clamped(to_ts as int, from_ts as int);
    let bd = sub_clamped(to_block as int, block_number as int);
    if total > 0 {
        sub_clamped(to_ts as int, (bd * time) / total)
    } else {
        to_ts as int
    }
}

/// Estimates one block's timestamp by linear interpolation, with exact
/// 128-bit intermediate arithmetic and clamping at zero.
pub fn estimate_timestamp(
    from_block: u64,
    to_block: u64,
    from_ts: u64,
    to_ts: u64,
    block_number: u64,
) -> (r: u64)
    ensures
        r == estimated_timestamp(from_block, to_block, from_ts, to_ts, block_number),
{
    let total = to_block.saturating_sub(from_block);
    let time = to_ts.saturating_sub(from_ts);
    let bd = to_block.saturating_sub(block_number);
    if total > 0 {
        proof {
            lemma_mul_upper_bound(bd as int, u64::MAX as int, time as int, u64::MAX as int);
        }
        let q = ((bd as u128) * (time as u128)) / (total as u128);
        if q >= to_ts as u128 {
            0
        } else {
            to_ts - (q as u64)
        }
    } else {
        to_ts
    }
}

/// Interpolation monotonicity: with a fixed, non-empty block window, the
/// estimated timestamp is non-decreasing in the block number.
pub proof fn lemma_estimate_monotonic(
    from_block: u64,
    to_block: u64,
    from_ts: u64,
    to_ts: u64,
    b1: u64,
    b2: u64,
)
    requires
        from_block < to_block,
        b1 <= b2,
    ensures
        estimated_timestamp(from_block, to_block, from_ts, to_ts, b1) <= estimated_timestamp(
            from_block,
            to_block,
            from_ts,
            to_ts,
            b2,
        ),
{
    let total = sub_clamped(to_block as int, from_block as int);
    let time = sub_clamped(to_ts as int, from_ts as int);
    let bd1 = sub_clamped(to_block as int, b1 as int);
    let bd2 = sub_clamped(to_block as int, b2 as int);
    lemma_mul_inequality(bd2, bd1, time);
    lemma_div_is_ordered(bd2 * time, bd1 * time, total);
}

} // verus!
