//! Integer powers.

use crate::error::ErrorCode;
use vstd::arithmetic::power::{
    lemma_pow0, lemma_pow1, lemma_pow_adds, lemma_pow_multiplies, lemma_pow_positive, pow,
};
use vstd::prelude::*;

verus! {

/// The product of two scaled values, scaled back and rounded down, where the
/// product of the two fits 128 bits.
pub open spec fn scaled_product(a: u128, b: u128, scaling_factor: u128) -> Result<
    u128,
    ErrorCode,
> {
    if a * b > u128::MAX || scaling_factor == 0 {
        Err(ErrorCode::MathOverflow)
    } else {
        Ok((a * b / (scaling_factor as int)) as u128)
    }
}

/// What is left to compute of a power once the lower bits of the exponent
/// are done: `result` holds the factors taken so far, `base` the square that
/// stands for the lowest bit of `exponent`.
pub open spec fn spec_pow_decimal_from(
    result: u128,
    base: u128,
    exponent: u64,
    scaling_factor: u128,
) -> Result<u128, ErrorCode>
    decreases exponent,
{
    if exponent == 0 {
        Ok(result)
    } else {
        let taken = if exponent % 2 == 1 {
            scaled_product(result, base, scaling_factor)
        } else {
            Ok(result)
        };
        match taken {
            Err(e) => Err(e),
            Ok(next_result) => if exponent / 2 > 0 {
                match scaled_product(base, base, scaling_factor) {
                    Err(e) => Err(e),
                    Ok(square) => spec_pow_decimal_from(
                        next_result,
                        square,
                        exponent / 2,
                        scaling_factor,
                    ),
                }
            } else {
                Ok(next_result)
            },
        }
    }
}

/// What [`pow_decimal`] returns: the power of a scaled value, every product
/// on the way scaled back and rounded down.
pub open spec fn spec_pow_decimal(base: u128, exponent: u64, scaling_factor: u128) -> Result<
    u128,
    ErrorCode,
> {
    spec_pow_decimal_from(scaling_factor, base, exponent, scaling_factor)
}

fn checked_scaled_product(a: u128, b: u128, scaling_factor: u128) -> (r: Result<u128, ErrorCode>)
    ensures
        r == scaled_product(a, b, scaling_factor),
{
    let product: u128 = match a.checked_mul(b) {
        Some(p) => p,
        None => { return Err(ErrorCode::MathOverflow); },
    };
    match product.checked_div(scaling_factor) {
        Some(q) => Ok(q),
        None => Err(ErrorCode::MathOverflow),
    }
}

/// The power of a scaled value by squaring, to a whole exponent.
///
/// The exponent may be as large as the number of slots in some thousand years.
pub fn pow_decimal(base: u128, exponent: u64, scaling_factor: u128) -> (r: Result<
    u128,
    ErrorCode,
>)
    ensures
        r == spec_pow_decimal(base, exponent, scaling_factor),
{
    let mut result: u128 = scaling_factor;
    let mut square: u128 = base;
    let mut left: u64 = exponent;
    while left > 0
        invariant
            spec_pow_decimal_from(result, square, left, scaling_factor) == spec_pow_decimal(
                base,
                exponent,
                scaling_factor,
            ),
        decreases left,
    {
        if left % 2 == 1 {
            result = checked_scaled_product(result, square, scaling_factor)?;
        }
        left = left / 2;
        if left > 0 {
            square = checked_scaled_product(square, square, scaling_factor)?;
        }
    }
    Ok(result)
}

/// A power of a scaled value that is at least one is at least one.
pub proof fn lemma_pow_decimal_grows(result: u128, base: u128, exponent: u64, scaling_factor: u128)
    requires
        scaling_factor > 0,
        base >= scaling_factor,
        spec_pow_decimal_from(result, base, exponent, scaling_factor) is Ok,
    ensures
        spec_pow_decimal_from(result, base, exponent, scaling_factor)->Ok_0 >= result,
    decreases exponent,
{
    if exponent > 0 {
        let next_result = if exponent % 2 == 1 {
            scaled_product(result, base, scaling_factor)->Ok_0
        } else {
            result
        };
        lemma_scaled_product_grows(result, base, scaling_factor);
        if exponent / 2 > 0 {
            let square = scaled_product(base, base, scaling_factor)->Ok_0;
            lemma_scaled_product_grows(base, base, scaling_factor);
            lemma_pow_decimal_grows(next_result, square, (exponent / 2) as u64, scaling_factor);
        }
    }
}

proof fn lemma_scaled_product_grows(a: u128, b: u128, scaling_factor: u128)
    requires
        scaling_factor > 0,
        b >= scaling_factor,
    ensures
        scaled_product(a, b, scaling_factor) is Ok ==> scaled_product(a, b, scaling_factor)->Ok_0
            >= a,
{
    if a * b <= u128::MAX {
        let s = scaling_factor as int;
        assert(a * b >= s * a) by (nonlinear_arith)
            requires
                b >= s,
                a >= 0,
        ;
        vstd::arithmetic::div_mod::lemma_div_is_ordered(s * a, a * b, s);
        vstd::arithmetic::div_mod::lemma_div_multiples_vanish(a as int, s);
    }
}

/// What [`pow_u128`] returns.
pub open spec fn spec_pow_u128(base: u128, exponent: u32) -> Result<u128, ErrorCode> {
    if pow(base as int, exponent as nat) > u128::MAX {
        Err(ErrorCode::MathOverflow)
    } else {
        Ok(pow(base as int, exponent as nat) as u128)
    }
}

/// What [`pow10`] returns.
pub open spec fn spec_pow10(exp: u32) -> Result<u128, ErrorCode> {
    if exp > 38 {
        Err(ErrorCode::MathOverflow)
    } else {
        Ok(pow(10, exp as nat) as u128)
    }
}

/// The powers of ten that fit 128 bits do fit.
pub proof fn lemma_pow10_fits(exp: nat)
    requires
        exp <= 38,
    ensures
        0 < pow(10, exp) <= 100_000_000_000_000_000_000_000_000_000_000_000_000,
{
    assert(pow(10, 10) == 10_000_000_000) by {
        reveal_with_fuel(pow, 11);
    }
    assert(pow(10, 8) == 100_000_000) by {
        reveal_with_fuel(pow, 9);
    }
    lemma_pow_adds(10, 10, 10);
    lemma_pow_adds(10, 20, 10);
    lemma_pow_adds(10, 30, 8);
    assert(pow(10, 20) == 100_000_000_000_000_000_000);
    assert(pow(10, 30) == 1_000_000_000_000_000_000_000_000_000_000);
    assert(pow(10, 38) == 100_000_000_000_000_000_000_000_000_000_000_000_000);
    vstd::arithmetic::power::lemma_pow_increases(10, exp, 38);
    lemma_pow_positive(10, exp);
}

/// Ten to the power `exp`, for an `exp` of at most 38.
pub fn pow10(exp: u32) -> (r: Result<u128, ErrorCode>)
    ensures
        r == spec_pow10(exp),
{
    if exp > 38 {
        return Err(ErrorCode::MathOverflow);
    }
    proof {
        lemma_pow10_fits(exp as nat);
    }
    pow_u128(10u128, exp)
}

proof fn lemma_pow_halves(base: int, exponent: nat)
    requires
        exponent > 0,
        base >= 0,
    ensures
        pow(base, exponent) == (if exponent % 2 == 1 {
            base * pow(base * base, exponent / 2)
        } else {
            pow(base * base, exponent / 2)
        }),
        base >= 1 ==> pow(base, exponent) >= base && pow(base * base, exponent / 2) >= 1,
        exponent >= 2 && base >= 1 ==> pow(base * base, exponent / 2) >= base * base,
{
    lemma_pow1(base);
    lemma_pow_multiplies(base, 2, exponent / 2);
    lemma_pow_adds(base, 1, 1);
    assert(pow(base, 2) == base * base);
    assert(2 * (exponent / 2) == exponent - exponent % 2);
    if exponent % 2 == 1 {
        lemma_pow_adds(base, 1, (exponent - 1) as nat);
    }
    if base >= 1 {
        lemma_pow_positive(base, (exponent - 1) as nat);
        lemma_pow_adds(base, 1, (exponent - 1) as nat);
        assert(base * pow(base, (exponent - 1) as nat) >= base) by (nonlinear_arith)
            requires
                base >= 1,
                pow(base, (exponent - 1) as nat) >= 1,
        ;
        assert(base * base >= 1) by (nonlinear_arith)
            requires
                base >= 1,
        ;
        lemma_pow_positive(base * base, exponent / 2);
        if exponent >= 2 {
            let square = base * base;
            let fewer = (exponent / 2 - 1) as nat;
            lemma_pow1(square);
            lemma_pow_adds(square, 1, fewer);
            lemma_pow_positive(square, fewer);
            assert(square * pow(square, fewer) >= square) by (nonlinear_arith)
                requires
                    square >= 1,
                    pow(square, fewer) >= 1,
            ;
        }
    }
}

/// The power of an integer by squaring.
fn pow_u128(base: u128, exponent: u32) -> (r: Result<u128, ErrorCode>)
    ensures
        r == spec_pow_u128(base, exponent),
{
    let mut result: u128 = 1u128;
    let mut square: u128 = base;
    let mut left: u32 = exponent;
    while left > 0
        invariant
            result * pow(square as int, left as nat) == pow(base as int, exponent as nat),
            square >= 1 ==> result >= 1,
        decreases left,
    {
        let ghost power = pow(base as int, exponent as nat);
        let ghost rest = pow(square as int * square as int, (left / 2) as nat);
        proof {
            lemma_pow_halves(square as int, left as nat);
            lemma_pow0(square as int);
            lemma_pow0(square as int * square as int);
            assert(result * (square * rest) == (result * square) * rest) by (nonlinear_arith);
            if square >= 1 {
                assert(result * square >= 1) by (nonlinear_arith)
                    requires
                        result >= 1,
                        square >= 1,
                ;
            } else {
                assert(result * square == 0 && square * square == 0) by (nonlinear_arith)
                    requires
                        square == 0,
                ;
            }
        }
        if left % 2 == 1 {
            proof {
                if result * square > u128::MAX {
                    assert(result * pow(square as int, left as nat) >= result * square)
                        by (nonlinear_arith)
                        requires
                            pow(square as int, left as nat) >= square,
                            result >= 0,
                    ;
                }
            }
            result = match result.checked_mul(square) {
                Some(p) => p,
                None => { return Err(ErrorCode::MathOverflow); },
            };
        }
        assert(result * rest == power);
        left = left / 2;
        if left > 0 {
            proof {
                if square * square > u128::MAX {
                    assert(result * rest >= square * square) by (nonlinear_arith)
                        requires
                            rest >= square * square,
                            result >= 1,
                    ;
                }
            }
            square = match square.checked_mul(square) {
                Some(p) => p,
                None => { return Err(ErrorCode::MathOverflow); },
            };
        }
    }
    proof {
        lemma_pow0(square as int);
    }
    Ok(result)
}

} // verus!
