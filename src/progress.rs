//! The position of the progress indicator during a transfer.
use vstd::prelude::*;

verus! {

/// Position of a progress indicator that runs from 0 to 100: the share of
/// `total` bytes that `copied` bytes make, rounded down, and full where
/// nothing is left to copy.
pub open spec fn percent(copied: u64, total: u64) -> int {
    if total == 0 || copied >= total {
        100
    } else {
        100 * (copied as int) / (total as int)
    }
}

/// The progress of a transfer, in percent, for the indicator.
pub fn progress_percent(copied: u64, total: u64) -> (r: u64)
    ensures
        r == percent(copied, total),
        r <= 100,
{
    if total == 0 || copied >= total {
        return 100;
    }
    let r = (100 * (copied as u128) / (total as u128)) as u64;
    assert(100 * (copied as int) / (total as int) <= 100) by (nonlinear_arith)
        requires
            copied < total,
            total > 0,
    ;
    r
}

} // verus!
