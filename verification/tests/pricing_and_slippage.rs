use pump_instructions::pricing::get_amount_out;
use pump_instructions::pricing::calculate_sell_sol_amount;
use pump_instructions::pricing::VirtualReserves;
use pump_instructions::slippage::min_amount_with_slippage;

#[test]
fn buy_pricing_end_to_end_scenario() {
    // floor(100_000_000 * 73_000_000_000_000 / 29_998_065_120)
    let (tokens_out, consumed, zero) =
        get_amount_out(100_000_000, 29_998_065_120, 73_000_000_000_000);
    assert_eq!(tokens_out, 243_349_028_372);
    assert_eq!(consumed, 100_000_000);
    assert_eq!(zero, 0);

    // 1500 bps tolerance: floor(tokens_out * 8500 / 10000)
    let min_output = min_amount_with_slippage(tokens_out, 1500);
    assert_eq!(min_output, 243_349_028_372 * 8500 / 10000);
    assert_eq!(min_output, 206_846_674_116);
}

#[test]
fn buy_pricing_zero_liquidity() {
    assert_eq!(get_amount_out(0, 0, 0), (0, 0, 0));
    assert_eq!(get_amount_out(7, 0, 1_000_000), (0, 7, 0));
    assert_eq!(
        get_amount_out(u64::MAX, 0, u64::MAX),
        (0, u64::MAX, 0)
    );
}

#[test]
fn buy_pricing_monotonic_in_amount() {
    let mut previous: u64 = 0;
    for amount in [0u64, 1, 10, 1_000, 100_000_000, 10_000_000_000] {
        let (tokens_out, _, _) = get_amount_out(amount, 29_998_065_120, 73_000_000_000_000);
        assert!(tokens_out >= previous);
        previous = tokens_out;
    }
}

#[test]
fn buy_pricing_saturates_to_zero_past_u64() {
    // floor(u64::MAX * 3 / 1) does not fit in 64 bits, so the policy prices
    // the trade to zero.
    assert_eq!(get_amount_out(u64::MAX, 1, 3), (0, u64::MAX, 0));
}

#[test]
fn sell_pricing_is_inverse_ratio() {
    let reserves = VirtualReserves {
        virtual_sol_reserves: 29_998_065_120,
        virtual_token_reserves: 73_000_000_000_000,
    };
    // floor(243_349_028_372 * 29_998_065_120 / 73_000_000_000_000)
    let expected: u64 =
        ((243_349_028_372u128 * 29_998_065_120u128) / 73_000_000_000_000u128) as u64;
    assert_eq!(calculate_sell_sol_amount(243_349_028_372, &reserves), expected);
    assert_eq!(expected, 99_999_999);

    let empty = VirtualReserves { virtual_sol_reserves: 5, virtual_token_reserves: 0 };
    assert_eq!(calculate_sell_sol_amount(42, &empty), 0);
}

#[test]
fn selling_a_buys_output_never_profits() {
    let reserves = VirtualReserves {
        virtual_sol_reserves: 29_998_065_120,
        virtual_token_reserves: 73_000_000_000_000,
    };
    for amount_in in [1u64, 999, 100_000_000, 5_000_000_000_000] {
        let (tokens_out, _, _) = get_amount_out(
            amount_in,
            reserves.virtual_sol_reserves,
            reserves.virtual_token_reserves,
        );
        assert!(calculate_sell_sol_amount(tokens_out, &reserves) <= amount_in);
    }
}

#[test]
fn slippage_bounds() {
    assert_eq!(min_amount_with_slippage(123_456_789, 0), 123_456_789);
    for bps in [0u128, 1, 100, 1500, 9999, 10_000] {
        assert!(min_amount_with_slippage(123_456_789, bps) <= 123_456_789);
    }
    assert_eq!(min_amount_with_slippage(123_456_789, 10_000), 0);
    assert_eq!(min_amount_with_slippage(123_456_789, 10_001), 0);
    assert_eq!(min_amount_with_slippage(u64::MAX, 1), 18_444_899_399_302_180_659);
    assert_eq!(min_amount_with_slippage(10_000, 1), 9_999);
}
