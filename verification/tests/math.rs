//! Tests of the fixed-point math engine.

use apl_amm::amm::error::AmmError;
use apl_amm::amm::math::{
    calculate_initial_lp_amount, calculate_lp_amount, calculate_swap_output,
};
use apl_amm::program_error::ProgramError;

fn math_overflow() -> ProgramError {
    AmmError::MathOverflow.into()
}

#[test]
fn test_calculate_swap_output() {
    // Test basic swap
    let amount_out = calculate_swap_output(100, 1000, 1000, 25, 10000).unwrap();
    assert_eq!(amount_out, 90); // ~10% less due to fees and slippage

    // Test zero input
    let amount_out = calculate_swap_output(0, 1000, 1000, 25, 10000).unwrap();
    assert_eq!(amount_out, 0);

    // Test large numbers
    let amount_out = calculate_swap_output(1_000_000, 10_000_000, 10_000_000, 25, 10000).unwrap();
    assert!(amount_out > 900_000); // ~10% less due to fees and slippage
}

#[test]
fn test_calculate_initial_lp_amount() {
    // Test equal amounts
    let lp_amount = calculate_initial_lp_amount(1000, 1000).unwrap();
    assert_eq!(lp_amount, 1000);

    // Test unequal amounts
    let lp_amount = calculate_initial_lp_amount(1000, 4000).unwrap();
    assert_eq!(lp_amount, 2000);
}

#[test]
fn test_calculate_lp_amount() {
    // Test 10% of pool
    let lp_amount = calculate_lp_amount(100, 100, 1000, 1000, 1000).unwrap();
    assert_eq!(lp_amount, 100);

    // Test uneven ratio (should use smaller share)
    let lp_amount = calculate_lp_amount(200, 100, 1000, 1000, 1000).unwrap();
    assert_eq!(lp_amount, 100);
}

#[test]
fn swap_output_zero_input_many_reserves() {
    for reserve in [1u64, 5, 1000, u64::MAX] {
        assert_eq!(calculate_swap_output(0, reserve, reserve, 25, 10000).unwrap(), 0);
    }
}

#[test]
fn swap_output_zero_reserve_in_fails() {
    // With an empty input reserve the constant-product divisor collapses.
    assert_eq!(calculate_swap_output(0, 0, 1000, 25, 10000), Err(math_overflow()));
}

#[test]
fn swap_output_zero_fee_denominator_fails() {
    assert_eq!(calculate_swap_output(100, 1000, 1000, 1, 0), Err(math_overflow()));
}

#[test]
fn swap_output_fee_exceeding_input_fails() {
    // fee = 100 * 200 / 100 = 200 > 100
    assert_eq!(calculate_swap_output(100, 1000, 1000, 200, 100), Err(math_overflow()));
}

#[test]
fn swap_output_fee_monotonicity() {
    // For fixed reserves the output never grows when the fee numerator does.
    let mut last = u64::MAX;
    for fee in [0u16, 1, 10, 25, 100, 1000, 9999, 10000] {
        let out = calculate_swap_output(12_345, 100_000, 300_000, fee, 10000).unwrap();
        assert!(out <= last);
        last = out;
    }
}

#[test]
fn swap_output_exact_formula() {
    // fee = 5000 * 30 / 10000 = 15; net = 4985;
    // out = 200000 * 4985 / (100000 + 4985) = 9496
    assert_eq!(
        calculate_swap_output(5000, 100_000, 200_000, 30, 10000).unwrap(),
        200_000u128
            .checked_mul(4985)
            .map(|n| n / (100_000 + 4985))
            .unwrap() as u64
    );
}

#[test]
fn initial_lp_amount_is_floor_sqrt() {
    assert_eq!(calculate_initial_lp_amount(0, 0).unwrap(), 0);
    assert_eq!(calculate_initial_lp_amount(1, 1).unwrap(), 1);
    assert_eq!(calculate_initial_lp_amount(2, 4).unwrap(), 2); // floor(sqrt(8))
    assert_eq!(calculate_initial_lp_amount(10, 10).unwrap(), 10);
    // the product of two maximal amounts still fits, and its root is maximal
    assert_eq!(
        calculate_initial_lp_amount(u64::MAX, u64::MAX).unwrap(),
        u64::MAX
    );
}

#[test]
fn proportional_lp_amount_zero_reserve_fails() {
    assert_eq!(calculate_lp_amount(100, 100, 0, 1000, 1000), Err(math_overflow()));
    assert_eq!(calculate_lp_amount(100, 100, 1000, 0, 1000), Err(math_overflow()));
}

#[test]
fn proportional_lp_amount_narrowing_overflow_fails() {
    // share = u64::MAX * u64::MAX / 1, far beyond the 64-bit range
    assert_eq!(
        calculate_lp_amount(u64::MAX, u64::MAX, 1, 1, u64::MAX),
        Err(math_overflow())
    );
}

#[test]
fn proportional_lp_amount_wide_intermediate() {
    // the 128-bit intermediate keeps a product beyond 64 bits exact
    let lp = calculate_lp_amount(u64::MAX, u64::MAX, u64::MAX, u64::MAX, u64::MAX).unwrap();
    assert_eq!(lp, u64::MAX);
}
