//! Numeric constants shared by the Stellar-Save contracts.

use vstd::prelude::*;

verus! {

/// Number of stroops in one XLM: every token amount is counted in stroops,
/// the smallest indivisible unit.
pub const STROOPS_PER_XLM: i128 = 10_000_000;

/// Basis points in 100% (10,000 bp = 100%).
pub const MAX_BASIS_POINTS: u32 = 10_000;

/// Converts a whole-XLM amount to stroops.
pub fn xlm_to_stroops(xlm: u64) -> (stroops: i128)
    ensures
        stroops == xlm * STROOPS_PER_XLM,
{
    (xlm as i128) * STROOPS_PER_XLM
}

/// Converting whole XLM to stroops loses nothing and keeps the order: the
/// stroop amount is a whole multiple of `STROOPS_PER_XLM`, dividing it by
/// `STROOPS_PER_XLM` gives the XLM amount back, and more XLM never gives fewer
/// stroops.
pub proof fn xlm_to_stroops_is_exact(xlm: u64, other: u64)
    ensures
        (xlm * STROOPS_PER_XLM) % (STROOPS_PER_XLM as int) == 0,
        (xlm * STROOPS_PER_XLM) / (STROOPS_PER_XLM as int) == xlm,
        xlm <= other ==> xlm * STROOPS_PER_XLM <= other * STROOPS_PER_XLM,
{
    assert((xlm * 10_000_000int) % 10_000_000int == 0) by (nonlinear_arith);
    assert((xlm * 10_000_000int) / 10_000_000int == xlm) by (nonlinear_arith);
}

} // verus!
