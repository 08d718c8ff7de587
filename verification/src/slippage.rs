//! Slippage guard: turns a pricing estimate and a tolerance in basis points
//! into the minimum acceptable output of a trade.

use vstd::prelude::*;
use vstd::arithmetic::div_mod::lemma_div_is_ordered;
use vstd::arithmetic::div_mod::lemma_div_multiples_vanish;
use vstd::arithmetic::mul::lemma_mul_inequality;

verus! {

/// Basis points in the whole: 10_000 bps is 100%.
pub const TEN_THOUSAND: u128 = 10_000;

/// `floor(input_amount * (10_000 - slippage_bps) / 10_000)`; a tolerance
/// above 10_000 bps saturates the minimum to zero.
pub open spec fn spec_min_amount_with_slippage(input_amount: u64, slippage_bps: u128) -> u64 {
    if slippage_bps > 10_000 {
        0u64
    } else {
        ((input_amount * (10_000 - slippage_bps)) / 10_000) as u64
    }
}

/// Minimum output acceptable under the given tolerance: the estimate scaled
/// down by `slippage_bps` basis points, rounded towards zero.
pub fn min_amount_with_slippage(input_amount: u64, slippage_bps: u128) -> (r: u64)
    ensures
        r == spec_min_amount_with_slippage(input_amount, slippage_bps),
{
    if slippage_bps > 10_000 {
        return 0;
    }
    let factor: u128 = 10_000 - slippage_bps;
    proof {
        lemma_min_amount_fits(input_amount, factor);
    }
    let wide: u128 = (input_amount as u128) * factor;
    let q: u128 = wide / 10_000;
    q as u64
}

/// The scaled product fits in a `u128` and its quotient never exceeds the
/// input it was scaled from.
proof fn lemma_min_amount_fits(input_amount: u64, factor: u128)
    requires
        factor <= 10_000,
    ensures
        input_amount * factor <= u64::MAX * 10_000,
        (input_amount * factor) / 10_000 <= input_amount,
{
    lemma_mul_inequality(factor as int, 10_000, input_amount as int);
    lemma_mul_inequality(input_amount as int, u64::MAX as int, 10_000);
    lemma_div_is_ordered(input_amount * factor, input_amount * 10_000, 10_000);
    lemma_div_multiples_vanish(input_amount as int, 10_000);
}

/// Slippage bound: the guarded minimum never exceeds the estimate it was
/// computed from, and a zero tolerance leaves the estimate untouched.
pub proof fn lemma_min_amount_with_slippage_bounds(expected_output: u64, slippage_bps: u128)
    requires
        slippage_bps <= 10_000,
    ensures
        spec_min_amount_with_slippage(expected_output, slippage_bps) <= expected_output,
        spec_min_amount_with_slippage(expected_output, 0) == expected_output,
{
    lemma_min_amount_fits(expected_output, (10_000 - slippage_bps) as u128);
    lemma_min_amount_fits(expected_output, 10_000);
    lemma_div_multiples_vanish(expected_output as int, 10_000);
}

} // verus!
