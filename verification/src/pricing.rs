//! Bonding-curve pricing: pure arithmetic over a snapshot of virtual
//! reserves.
//!
//! A buy converts base-currency units into tokens at the linear spot rate
//! `floor(amount_in * virtual_token_reserves / virtual_sol_reserves)`; a sell
//! is the exact inverse, `floor(amount * virtual_sol_reserves /
//! virtual_token_reserves)`, so the two directions price against the same
//! reserve ratio. Both are total: an empty reserve or a quotient that does
//! not fit in 64 bits prices to zero instead of failing.

use vstd::prelude::*;
use vstd::arithmetic::div_mod::lemma_div_is_ordered;
use vstd::arithmetic::div_mod::lemma_div_multiples_vanish;
use vstd::arithmetic::div_mod::lemma_fundamental_div_mod;
use vstd::arithmetic::mul::lemma_mul_inequality;

verus! {

/// The virtual base-currency reserve a freshly created curve starts with.
pub const INITIAL_VIRTUAL_SOL_RESERVES: u64 = 29_998_065_120;

/// The virtual token reserve a freshly created curve starts with.
pub const INITIAL_VIRTUAL_TOKEN_RESERVES: u64 = 73_000_000_000_000;

/// A snapshot of the curve's notional liquidity. Only the on-chain program
/// mutates the real reserves; a calculation here treats one snapshot as
/// immutable.
#[derive(Clone, Copy, Debug, PartialEq, Eq)]
pub struct VirtualReserves {
    pub virtual_sol_reserves: u64,
    pub virtual_token_reserves: u64,
}

/// Tokens received when `amount_in` base units are paid into the curve:
/// `floor(amount_in * virtual_token_reserves / virtual_sol_reserves)`,
/// except that an empty base reserve or a quotient above `u64::MAX`
/// prices to zero.
pub open spec fn spec_tokens_out(
    amount_in: u64,
    virtual_sol_reserves: u64,
    virtual_token_reserves: u64,
) -> u64 {
    if virtual_sol_reserves == 0 {
        0u64
    } else {
        let q = (amount_in * virtual_token_reserves) / (virtual_sol_reserves as int);
        if q > u64::MAX {
            0u64
        } else {
            q as u64
        }
    }
}

/// Base units received when `amount_tokens` tokens are paid back into the
/// curve: the inverse of `spec_tokens_out`, with the same saturating policy.
pub open spec fn spec_sol_out(
    amount_tokens: u64,
    virtual_sol_reserves: u64,
    virtual_token_reserves: u64,
) -> u64 {
    if virtual_token_reserves == 0 {
        0u64
    } else {
        let q = (amount_tokens * virtual_sol_reserves) / (virtual_token_reserves as int);
        if q > u64::MAX {
            0u64
        } else {
            q as u64
        }
    }
}

/// Prices a buy. Returns `(tokens_out, base_consumed, 0)`: the tokens the
/// curve would hand out for `amount_in` base units, and the full input as
/// the amount consumed. With an empty base reserve the trade is degenerate:
/// no tokens come out and the whole input counts as consumed.
pub fn get_amount_out(
    amount_in: u64,
    virtual_sol_reserves: u64,
    virtual_token_reserves: u64,
) -> (r: (u64, u64, u64))
    ensures
        r.0 == spec_tokens_out(amount_in, virtual_sol_reserves, virtual_token_reserves),
        r.1 == amount_in,
        r.2 == 0,
        virtual_sol_reserves == 0 ==> r.0 == 0,
{
    if virtual_sol_reserves == 0 {
        return (0, amount_in, 0);
    }
    proof {
        assert(amount_in * virtual_token_reserves <= u64::MAX * virtual_token_reserves) by {
            lemma_mul_inequality(amount_in as int, u64::MAX as int, virtual_token_reserves as int);
        }
        assert(u64::MAX * virtual_token_reserves <= u64::MAX * u64::MAX) by {
            lemma_mul_inequality(virtual_token_reserves as int, u64::MAX as int, u64::MAX as int);
        }
    }
    let wide: u128 = (amount_in as u128) * (virtual_token_reserves as u128);
    let q: u128 = wide / (virtual_sol_reserves as u128);
    if q > u64::MAX as u128 {
        (0, amount_in, 0)
    } else {
        (q as u64, amount_in, 0)
    }
}

/// Prices a sell: base units out for `amount_tokens` sold, from the same
/// reserve-ratio relationship as the buy side.
pub fn calculate_sell_sol_amount(amount_tokens: u64, reserves: &VirtualReserves) -> (r: u64)
    ensures
        r == spec_sol_out(
            amount_tokens,
            reserves.virtual_sol_reserves,
            reserves.virtual_token_reserves,
        ),
{
    if reserves.virtual_token_reserves == 0 {
        return 0;
    }
    proof {
        assert(amount_tokens * reserves.virtual_sol_reserves <= u64::MAX * u64::MAX) by {
            lemma_mul_inequality(
                amount_tokens as int,
                u64::MAX as int,
                reserves.virtual_sol_reserves as int,
            );
            lemma_mul_inequality(
                reserves.virtual_sol_reserves as int,
                u64::MAX as int,
                u64::MAX as int,
            );
        }
    }
    let wide: u128 = (amount_tokens as u128) * (reserves.virtual_sol_reserves as u128);
    let q: u128 = wide / (reserves.virtual_token_reserves as u128);
    if q > u64::MAX as u128 {
        0
    } else {
        q as u64
    }
}

/// For a fixed reserve snapshot the buy output never shrinks as the input
/// grows, as long as the larger input does not push the quotient past
/// `u64::MAX` (past that point the saturating policy prices to zero).
pub proof fn lemma_tokens_out_monotonic(
    amount_a: u64,
    amount_b: u64,
    virtual_sol_reserves: u64,
    virtual_token_reserves: u64,
)
    requires
        amount_a <= amount_b,
        virtual_sol_reserves > 0 ==> (amount_b * virtual_token_reserves) / (
        virtual_sol_reserves as int) <= u64::MAX,
    ensures
        spec_tokens_out(amount_a, virtual_sol_reserves, virtual_token_reserves)
            <= spec_tokens_out(amount_b, virtual_sol_reserves, virtual_token_reserves),
{
    if virtual_sol_reserves > 0 {
        lemma_mul_inequality(amount_a as int, amount_b as int, virtual_token_reserves as int);
        lemma_div_is_ordered(
            amount_a * virtual_token_reserves,
            amount_b * virtual_token_reserves,
            virtual_sol_reserves as int,
        );
    }
}

/// Round-trip consistency of the two directions: both price against the
/// same reserve ratio, so selling back exactly what a buy yielded never
/// returns more base units than the buy consumed, for every snapshot.
pub proof fn lemma_sell_of_buy_never_profits(
    amount_in: u64,
    virtual_sol_reserves: u64,
    virtual_token_reserves: u64,
)
    ensures
        spec_sol_out(
            spec_tokens_out(amount_in, virtual_sol_reserves, virtual_token_reserves),
            virtual_sol_reserves,
            virtual_token_reserves,
        ) <= amount_in,
{
    let s = virtual_sol_reserves as int;
    let t = virtual_token_reserves as int;
    let tokens = spec_tokens_out(amount_in, virtual_sol_reserves, virtual_token_reserves) as int;
    if virtual_sol_reserves == 0 || virtual_token_reserves == 0 {
        // One direction prices to zero, and a zero token amount sells for
        // zero.
        assert(tokens * s == 0 || t == 0);
        if virtual_token_reserves != 0 {
            assert(tokens == 0);
            assert((0int * s) / t == 0) by {
                lemma_div_multiples_vanish(0int, t);
            }
        }
    } else {
        let q = (amount_in * t) / s;
        if q > u64::MAX {
            // The buy saturated to zero tokens, which sell for zero.
            assert(tokens == 0);
            assert((0int * s) / t == 0) by {
                lemma_div_multiples_vanish(0int, t);
            }
        } else {
            assert(tokens == q);
            // floor(amount_in * t / s) * s <= amount_in * t
            assert(q * s <= amount_in * t) by {
                lemma_fundamental_div_mod(amount_in * t, s);
                vstd::arithmetic::div_mod::lemma_mod_bound(amount_in * t, s);
            }
            lemma_div_is_ordered(tokens * s, amount_in * t, t);
            assert((amount_in * t) / t == amount_in) by {
                lemma_div_multiples_vanish(amount_in as int, t);
            }
            lemma_div_is_ordered(0, tokens * s, t);
        }
    }
}

} // verus!
