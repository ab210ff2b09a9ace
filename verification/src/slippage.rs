//! The slippage calculator: the minimum acceptable output for a trade, given
//! an expected output and a maximum tolerated slippage in basis points.

use vstd::prelude::*;

use crate::errors::TradingBotError;

verus! {

/// The minimum acceptable output: `expected` reduced by `max_slippage_bps`
/// basis points, with truncation toward zero.
pub open spec fn spec_min_amount_out(expected: int, max_slippage_bps: int) -> int {
    expected * (10000 - max_slippage_bps) / 10000
}

/// Converts an expected output amount and a slippage tolerance into the
/// smallest output the trade may settle at.
///
/// A tolerance above the basis-point range is a configuration violation and
/// is rejected rather than wrapped into the subtraction.
pub fn calculate_min_amount_out(expected_amount: u64, max_slippage: u16) -> (r: Result<
    u64,
    TradingBotError,
>)
    ensures
        max_slippage <= 10000 ==> r == Ok::<u64, TradingBotError>(
            spec_min_amount_out(expected_amount as int, max_slippage as int) as u64,
        ),
        max_slippage > 10000 ==> r == Err::<u64, TradingBotError>(
            TradingBotError::InvalidConfiguration,
        ),
{
    if max_slippage > 10000 {
        return Err(TradingBotError::InvalidConfiguration);
    }
    let slippage_factor: u64 = 10000 - (max_slippage as u64);
    proof {
        lemma_scaled_quotient_bounded(expected_amount as int, slippage_factor as int);
    }
    let wide: u128 = (expected_amount as u128) * (slippage_factor as u128);
    let out: u128 = wide / 10000;
    Ok(out as u64)
}

/// Scaling by at most 10000 and dividing by 10000 never exceeds the original
/// value (so the result always fits wherever the input did).
proof fn lemma_scaled_quotient_bounded(expected: int, factor: int)
    requires
        0 <= expected,
        0 <= factor <= 10000,
    ensures
        expected * factor <= expected * 10000,
        0 <= expected * factor,
        expected * factor / 10000 <= expected,
{
    vstd::arithmetic::mul::lemma_mul_inequality(factor, 10000, expected);
    vstd::arithmetic::mul::lemma_mul_is_commutative(factor, expected);
    vstd::arithmetic::mul::lemma_mul_is_commutative(10000, expected);
    vstd::arithmetic::mul::lemma_mul_nonnegative(expected, factor);
    vstd::arithmetic::div_mod::lemma_div_is_ordered(expected * factor, expected * 10000, 10000);
    vstd::arithmetic::div_mod::lemma_div_multiples_vanish(expected, 10000);
}

/// Law: the minimum acceptable output is monotonically non-increasing in the
/// slippage tolerance, and a zero tolerance leaves the expected amount
/// unchanged.
pub proof fn lemma_min_amount_out_monotonic(expected: int, bps_lo: int, bps_hi: int)
    requires
        0 <= expected,
        0 <= bps_lo <= bps_hi <= 10000,
    ensures
        spec_min_amount_out(expected, bps_hi) <= spec_min_amount_out(expected, bps_lo),
        spec_min_amount_out(expected, 0) == expected,
{
    vstd::arithmetic::mul::lemma_mul_inequality(10000 - bps_hi, 10000 - bps_lo, expected);
    vstd::arithmetic::mul::lemma_mul_is_commutative(10000 - bps_hi, expected);
    vstd::arithmetic::mul::lemma_mul_is_commutative(10000 - bps_lo, expected);
    vstd::arithmetic::div_mod::lemma_div_is_ordered(
        expected * (10000 - bps_hi),
        expected * (10000 - bps_lo),
        10000,
    );
    vstd::arithmetic::div_mod::lemma_div_multiples_vanish(expected, 10000);
    vstd::arithmetic::mul::lemma_mul_is_commutative(10000, expected);
}

} // verus!
