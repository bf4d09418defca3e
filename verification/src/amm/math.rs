//! Math utilities for pool operations.
//!
//! Every arithmetic step runs in a 128-bit accumulator so that no
//! intermediate product or sum of 64-bit operands can wrap; results are
//! narrowed back to 64 bits only behind explicit range checks.  Each
//! function's contract pins its exact result and the exact inputs on which
//! it fails with `MathOverflow`.

use vstd::prelude::*;

use crate::amm::error::AmmError;
use crate::program_error::ProgramError;

verus! {

/// The error every math failure is reported as.
pub open spec fn math_overflow() -> ProgramError {
    AmmError::MathOverflow.spec_program_error()
}

/// Floor of the square root, defined by counting up.
pub open spec fn spec_isqrt(v: int) -> int
    decreases v,
{
    if v <= 0 {
        0
    } else {
        let p = spec_isqrt(v - 1);
        if (p + 1) * (p + 1) <= v {
            p + 1
        } else {
            p
        }
    }
}

/// `spec_isqrt(v)` is the unique `r >= 0` with `r * r <= v < (r + 1) * (r + 1)`.
pub proof fn lemma_isqrt_bounds(v: int)
    requires
        v >= 0,
    ensures
        0 <= spec_isqrt(v),
        spec_isqrt(v) * spec_isqrt(v) <= v,
        v < (spec_isqrt(v) + 1) * (spec_isqrt(v) + 1),
    decreases v,
{
    if v > 0 {
        lemma_isqrt_bounds(v - 1);
        let p = spec_isqrt(v - 1);
        if (p + 1) * (p + 1) <= v {
            assert(v < (p + 2) * (p + 2)) by (nonlinear_arith)
                requires
                    p >= 0,
                    v - 1 < (p + 1) * (p + 1),
            ;
        }
    }
}

/// A value bracketed by consecutive squares is the floor square root.
pub proof fn lemma_isqrt_unique(v: int, r: int)
    requires
        v >= 0,
        r >= 0,
        r * r <= v,
        v < (r + 1) * (r + 1),
    ensures
        r == spec_isqrt(v),
{
    let s = spec_isqrt(v);
    lemma_isqrt_bounds(v);
    if r < s {
        assert((r + 1) * (r + 1) <= s * s) by (nonlinear_arith)
            requires
                0 <= r,
                r + 1 <= s,
            ;
    }
    if r > s {
        assert((s + 1) * (s + 1) <= r * r) by (nonlinear_arith)
            requires
                0 <= s,
                s + 1 <= r,
            ;
    }
}

/// Integer square root using the Babylonian method.
fn integer_sqrt(value: u128) -> (r: u128)
    requires
        value < u128::MAX,
    ensures
        r == spec_isqrt(value as int),
        r * r <= value < (r + 1) * (r + 1),
{
    if value < 2 {
        proof {
            assert(value * value <= value && value < (value + 1) * (value + 1)) by (nonlinear_arith)
                requires
                    0 <= value < 2,
            ;
            lemma_isqrt_unique(value as int, value as int);
        }
        return value;
    }

    let mut x = value;
    let mut y = (x + 1) / 2;

    proof {
        lemma_floor_quotient(value as int, value as int);
        assert(value / value == 1);
        assert(value < (value + 1) * (value + 1)) by (nonlinear_arith)
            requires
                value >= 2,
        ;
    }

    while y < x
        invariant
            2 <= value < u128::MAX,
            1 <= x <= value,
            value < (x + 1) * (x + 1),
            y == ((x + value / x) as int) / 2,
        decreases x,
    {
        let ghost old_x = x as int;
        let ghost old_y = y as int;
        let ghost v = value as int;
        let ghost q = v / old_x;
        proof {
            lemma_floor_quotient(v, old_x);
            let s = old_x + q;
            lemma_floor_quotient(s, 2);
            let rem2 = s % 2;
            assert(s == 2 * old_y + rem2);
            // old_y >= 1: either old_x >= 2, or old_x == 1 and then q == v >= 2
            assert(s >= 2) by (nonlinear_arith)
                requires
                    s == old_x + q,
                    old_x >= 1,
                    q >= 0,
                    v >= 2,
                    v == old_x * q + v % old_x,
                    v % old_x < old_x,
            ;
            assert(old_y >= 1);
            // the next iterate keeps the upper bracket: v < (old_y + 1)^2
            assert((s + 1) * (s + 1) - 4 * (old_x * (q + 1)) == (old_x - q - 1) * (old_x - q - 1)) by (nonlinear_arith)
                requires
                    s == old_x + q,
            ;
            assert(4 * v < (2 * old_y + 2) * (2 * old_y + 2)) by (nonlinear_arith)
                requires
                    v < old_x * (q + 1),
                    (s + 1) * (s + 1) - 4 * (old_x * (q + 1)) >= 0,
                    2 * old_y + 2 >= s + 1,
                    s + 1 >= 0,
            ;
            assert(v < (old_y + 1) * (old_y + 1)) by (nonlinear_arith)
                requires
                    4 * v < (2 * old_y + 2) * (2 * old_y + 2),
            ;
            // x + v/x never exceeds v + 1, so the sum below cannot wrap
            lemma_floor_quotient(v, old_y);
            let qy = v / old_y;
            assert(old_y + qy <= v + 1) by (nonlinear_arith)
                requires
                    1 <= old_y <= v,
                    0 <= qy,
                    old_y * qy <= v,
            ;
        }
        x = y;
        y = (x + value / x) / 2;
    }

    proof {
        let v = value as int;
        let xf = x as int;
        let q = v / xf;
        lemma_floor_quotient(v, xf);
        let s = xf + q;
        lemma_floor_quotient(s, 2);
        // loop exit gives (xf + q) / 2 >= xf, hence q >= xf
        assert(s == 2 * (s / 2) + s % 2);
        assert(q >= xf);
        assert(xf * xf <= v) by (nonlinear_arith)
            requires
                xf * q <= v,
                q >= xf,
                xf >= 1,
        ;
        lemma_isqrt_unique(v, xf);
    }
    x
}

/// Floor division brackets the dividend: `d * (x / d) <= x < d * (x / d + 1)`.
proof fn lemma_floor_quotient(x: int, d: int)
    requires
        x >= 0,
        d >= 1,
    ensures
        x == d * (x / d) + x % d,
        0 <= x % d < d,
        0 <= x / d,
        d * (x / d) <= x,
        (x / d) * d <= x,
        x < d * (x / d + 1),
{
    vstd::arithmetic::div_mod::lemma_fundamental_div_mod(x, d);
    vstd::arithmetic::div_mod::lemma_div_pos_is_pos(x, d);
    assert(d * (x / d + 1) == d * (x / d) + d) by (nonlinear_arith);
    assert((x / d) * d == d * (x / d)) by (nonlinear_arith);
}

/// The swap output for given input, reserves, and fee schedule.
///
/// The fee is taken from the input first; the remainder is priced by the
/// constant-product rule `dy = y * dx / (x + dx)` with truncating division.
/// The computation fails exactly when a division has a zero divisor, the
/// fee exceeds the input, or the result does not fit in 64 bits.
pub open spec fn spec_swap_output(
    amount_in: u64,
    reserve_in: u64,
    reserve_out: u64,
    fee_numerator: u16,
    fee_denominator: u16,
) -> Result<u64, ProgramError> {
    if fee_denominator == 0 {
        Err(math_overflow())
    } else {
        let fee = (amount_in * fee_numerator) / (fee_denominator as int);
        if fee > amount_in {
            Err(math_overflow())
        } else {
            let net = amount_in - fee;
            if reserve_in + net == 0 {
                Err(math_overflow())
            } else {
                let out = (reserve_out * net) / (reserve_in + net);
                if out > u64::MAX {
                    Err(math_overflow())
                } else {
                    Ok(out as u64)
                }
            }
        }
    }
}

/// Calculates the output amount for a swap using the constant product formula.
pub fn calculate_swap_output(
    amount_in: u64,
    reserve_in: u64,
    reserve_out: u64,
    fee_numerator: u16,
    fee_denominator: u16,
) -> (r: Result<u64, ProgramError>)
    ensures
        r == spec_swap_output(amount_in, reserve_in, reserve_out, fee_numerator, fee_denominator),
{
    // Calculate fee-adjusted input.
    if fee_denominator == 0 {
        return Err(AmmError::MathOverflow.to_program_error());
    }
    proof {
        assert((amount_in as int) * (fee_numerator as int) <= (u64::MAX as int) * (u16::MAX as int)) by (nonlinear_arith)
            requires
                0 <= amount_in <= u64::MAX,
                0 <= fee_numerator <= u16::MAX,
        ;
    }
    let fee_amount = (amount_in as u128) * (fee_numerator as u128) / (fee_denominator as u128);

    if fee_amount > amount_in as u128 {
        return Err(AmmError::MathOverflow.to_program_error());
    }
    let amount_in_after_fee = (amount_in as u128) - fee_amount;

    // Calculate output using the constant product formula:
    // (x + dx)(y - dy) = xy, solved for dy as dy = y * dx / (x + dx).
    proof {
        assert((amount_in_after_fee as int) * (reserve_out as int) <= (u64::MAX as int) * (u64::MAX as int)) by (nonlinear_arith)
            requires
                0 <= reserve_out <= u64::MAX,
                0 <= amount_in_after_fee <= u64::MAX,
        ;
    }
    let numerator = (amount_in_after_fee) * (reserve_out as u128);
    proof {
        vstd::arithmetic::mul::lemma_mul_is_commutative(
            amount_in_after_fee as int,
            reserve_out as int,
        );
    }
    let denominator = (reserve_in as u128) + amount_in_after_fee;
    if denominator == 0 {
        return Err(AmmError::MathOverflow.to_program_error());
    }
    let amount_out = numerator / denominator;

    // Convert back to u64.
    if amount_out > u64::MAX as u128 {
        return Err(AmmError::MathOverflow.to_program_error());
    }
    Ok(amount_out as u64)
}

/// The liquidity shares minted by the very first deposit: the floor of the
/// geometric mean of the two deposit amounts.  This never fails: the product
/// of two 64-bit amounts fits in 128 bits and its root fits in 64.
pub open spec fn spec_initial_lp_amount(token_a_amount: u64, token_b_amount: u64) -> Result<
    u64,
    ProgramError,
> {
    Ok(spec_isqrt(token_a_amount * token_b_amount) as u64)
}

/// Calculates the liquidity-share amount for the initial deposit.
pub fn calculate_initial_lp_amount(token_a_amount: u64, token_b_amount: u64) -> (r: Result<
    u64,
    ProgramError,
>)
    ensures
        r == spec_initial_lp_amount(token_a_amount, token_b_amount),
{
    // For the initial deposit, the share amount is the geometric mean of the
    // deposited amounts.
    proof {
        assert((token_a_amount as int) * (token_b_amount as int) <= (u64::MAX as int) * (u64::MAX as int)) by (nonlinear_arith)
            requires
                0 <= token_a_amount <= u64::MAX,
                0 <= token_b_amount <= u64::MAX,
        ;
    }
    let product = (token_a_amount as u128) * (token_b_amount as u128);

    let sqrt_product = integer_sqrt(product);

    proof {
        // The root of a product of 64-bit values fits in 64 bits.
        assert(sqrt_product <= u64::MAX) by (nonlinear_arith)
            requires
                sqrt_product * sqrt_product <= product,
                product <= (u64::MAX as int) * (u64::MAX as int),
                sqrt_product >= 0,
        ;
    }
    if sqrt_product > u64::MAX as u128 {
        return Err(AmmError::MathOverflow.to_program_error());
    }

    Ok(sqrt_product as u64)
}

/// The liquidity shares minted by a follow-up deposit: the smaller of the two
/// proportional claims `amount * supply / reserve`, so an imbalanced deposit
/// never dilutes existing holders.  Fails exactly when a reserve is zero or
/// the resulting share count does not fit in 64 bits.
pub open spec fn spec_proportional_lp_amount(
    token_a_amount: u64,
    token_b_amount: u64,
    token_a_reserve: u64,
    token_b_reserve: u64,
    lp_supply: u64,
) -> Result<u64, ProgramError> {
    if token_a_reserve == 0 || token_b_reserve == 0 {
        Err(math_overflow())
    } else {
        let share_a = (token_a_amount * lp_supply) / (token_a_reserve as int);
        let share_b = (token_b_amount * lp_supply) / (token_b_reserve as int);
        let share = if share_a <= share_b {
            share_a
        } else {
            share_b
        };
        if share > u64::MAX {
            Err(math_overflow())
        } else {
            Ok(share as u64)
        }
    }
}

/// Calculates the liquidity shares to mint for a follow-up deposit.
pub fn calculate_lp_amount(
    token_a_amount: u64,
    token_b_amount: u64,
    token_a_reserve: u64,
    token_b_reserve: u64,
    lp_supply: u64,
) -> (r: Result<u64, ProgramError>)
    ensures
        r == spec_proportional_lp_amount(
            token_a_amount,
            token_b_amount,
            token_a_reserve,
            token_b_reserve,
            lp_supply,
        ),
{
    // The share amount is proportional to the share of the pool supplied.
    if token_a_reserve == 0 || token_b_reserve == 0 {
        return Err(AmmError::MathOverflow.to_program_error());
    }
    proof {
        assert((token_a_amount as int) * (lp_supply as int) <= (u64::MAX as int) * (u64::MAX as int)
            && (token_b_amount as int) * (lp_supply as int) <= (u64::MAX as int) * (u64::MAX as int)) by (nonlinear_arith)
            requires
                0 <= token_a_amount <= u64::MAX,
                0 <= token_b_amount <= u64::MAX,
                0 <= lp_supply <= u64::MAX,
        ;
    }
    let share_a = (token_a_amount as u128) * (lp_supply as u128) / (token_a_reserve as u128);
    let share_b = (token_b_amount as u128) * (lp_supply as u128) / (token_b_reserve as u128);

    // Use the smaller share to prevent dilution.
    let lp_amount = if share_a <= share_b {
        share_a
    } else {
        share_b
    };

    if lp_amount > u64::MAX as u128 {
        return Err(AmmError::MathOverflow.to_program_error());
    }

    Ok(lp_amount as u64)
}

/// The constant-product quotient `y * t / (x + t)` is non-decreasing in `t`.
proof fn lemma_cp_quotient_monotone(y: int, x: int, t1: int, t2: int)
    requires
        0 <= t2 <= t1,
        1 <= x,
        0 <= y,
    ensures
        (y * t1) / (x + t1) >= (y * t2) / (x + t2),
{
    let q1 = (y * t1) / (x + t1);
    let q2 = (y * t2) / (x + t2);
    assert(0 <= y * t1 && 0 <= y * t2) by (nonlinear_arith)
        requires
            0 <= t2 <= t1,
            0 <= y,
    ;
    lemma_floor_quotient(y * t1, x + t1);
    lemma_floor_quotient(y * t2, x + t2);
    if q1 < q2 {
        assert(false) by (nonlinear_arith)
            requires
                0 <= t2 <= t1,
                1 <= x,
                0 <= y,
                (x + t1) * q1 <= y * t1,
                y * t1 < (x + t1) * (q1 + 1),
                (x + t2) * q2 <= y * t2,
                y * t2 < (x + t2) * (q2 + 1),
                0 <= q1,
                0 <= q2,
                q1 + 1 <= q2,
        ;
    }
}

/// Fee monotonicity: with fixed reserves and denominator, a swap succeeds for
/// every fee numerator up to the denominator, and its output does not
/// decrease when the fee numerator decreases.
pub proof fn lemma_swap_output_fee_monotone(
    amount_in: u64,
    reserve_in: u64,
    reserve_out: u64,
    fee_lo: u16,
    fee_hi: u16,
    fee_denominator: u16,
)
    requires
        fee_lo <= fee_hi <= fee_denominator,
        reserve_in > 0,
        fee_denominator > 0,
    ensures
        spec_swap_output(amount_in, reserve_in, reserve_out, fee_lo, fee_denominator) is Ok,
        spec_swap_output(amount_in, reserve_in, reserve_out, fee_hi, fee_denominator) is Ok,
        spec_swap_output(amount_in, reserve_in, reserve_out, fee_lo, fee_denominator)->Ok_0
            >= spec_swap_output(amount_in, reserve_in, reserve_out, fee_hi, fee_denominator)->Ok_0,
{
    let a = amount_in as int;
    let x = reserve_in as int;
    let y = reserve_out as int;
    let d = fee_denominator as int;
    let fee1 = (a * fee_lo) / d;
    let fee2 = (a * fee_hi) / d;

    // fees are ordered and never exceed the input amount
    assert(0 <= a * fee_lo && a * fee_lo <= a * fee_hi && a * fee_hi <= a * d) by (nonlinear_arith)
        requires
            0 <= a,
            0 <= fee_lo <= fee_hi <= d,
    ;
    vstd::arithmetic::div_mod::lemma_div_is_ordered(a * fee_lo, a * fee_hi, d);
    vstd::arithmetic::div_mod::lemma_div_is_ordered(a * fee_hi, a * d, d);
    vstd::arithmetic::div_mod::lemma_div_pos_is_pos(a * fee_lo, d);
    assert((a * d) / d == a) by (nonlinear_arith)
        requires
            d >= 1,
            a >= 0,
    ;
    assert(0 <= fee1 <= fee2 <= a);

    let t1 = a - fee1;
    let t2 = a - fee2;
    lemma_cp_quotient_monotone(y, x, t1, t2);

    // the quotient never exceeds the output reserve, so it fits in 64 bits
    let q1 = (y * t1) / (x + t1);
    assert(y * t1 <= y * (x + t1)) by (nonlinear_arith)
        requires
            0 <= y,
            0 <= t1,
            1 <= x,
    ;
    vstd::arithmetic::div_mod::lemma_div_is_ordered(y * t1, y * (x + t1), x + t1);
    assert((y * (x + t1)) / (x + t1) == y) by (nonlinear_arith)
        requires
            x + t1 >= 1,
            y >= 0,
    ;
    assert(0 <= y * t2) by (nonlinear_arith)
        requires
            0 <= y,
            0 <= t2,
    ;
    vstd::arithmetic::div_mod::lemma_div_pos_is_pos(y * t2, x + t2);
    assert(q1 <= y);
}

/// A zero-amount swap yields zero output and no error whenever the divisors
/// are nonzero.  (With `reserve_in == 0` the zero swap instead fails with
/// `MathOverflow`, since the constant-product divisor collapses to zero.)
pub proof fn lemma_swap_output_zero_input(
    reserve_in: u64,
    reserve_out: u64,
    fee_numerator: u16,
    fee_denominator: u16,
)
    requires
        reserve_in > 0,
        fee_denominator > 0,
    ensures
        spec_swap_output(0, reserve_in, reserve_out, fee_numerator, fee_denominator) == Ok::<
            u64,
            ProgramError,
        >(0),
{
    let d = fee_denominator as int;
    assert(0int * fee_numerator == 0);
    assert(0int / d == 0) by (nonlinear_arith)
        requires
            d > 0,
    ;
    assert((reserve_out as int) * 0 == 0);
    assert(0int / (reserve_in as int) == 0) by (nonlinear_arith)
        requires
            reserve_in > 0,
    ;
}

} // verus!
