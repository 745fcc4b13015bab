//! The pricing engine: pure constant-product formulas with a 0.3% fee
//! taken from the input side, both rounding in the pool's favour.

use vstd::prelude::*;
use vstd::arithmetic::div_mod::{
    lemma_div_is_ordered, lemma_div_is_ordered_by_denominator, lemma_div_pos_is_pos,
    lemma_fundamental_div_mod,
};
use crate::types::{Balance, Error};
use crate::math::{lemma_div_at_least, lemma_div_below, lemma_div_cross_le};

verus! {

/// Output owed for selling `input_amount` into reserves `(input_reserve,
/// output_reserve)`: `floor(997·a·or / (1000·ir + 997·a))`.
pub open spec fn input_price_value(input_amount: int, input_reserve: int, output_reserve: int) -> int {
    input_amount * 997 * output_reserve / (input_reserve * 1000 + input_amount * 997)
}

/// Input owed for buying exactly `output_amount` out of reserves
/// `(input_reserve, output_reserve)`:
/// `floor(ir·o·1000 / ((or − o)·997)) + 1`.
pub open spec fn output_price_value(output_amount: int, input_reserve: int, output_reserve: int) -> int {
    input_reserve * output_amount * 1000 / ((output_reserve - output_amount) * 997) + 1
}

/// The 128-bit evaluation of `input_price_value` never leaves range.
pub open spec fn input_price_fits(input_amount: int, input_reserve: int, output_reserve: int) -> bool {
    &&& input_amount * 997 <= u128::MAX
    &&& input_amount * 997 * output_reserve <= u128::MAX
    &&& input_reserve * 1000 + input_amount * 997 <= u128::MAX
}

/// The 128-bit evaluation of `output_price_value` never leaves range.
pub open spec fn output_price_fits(output_amount: int, input_reserve: int, output_reserve: int) -> bool {
    &&& input_reserve * output_amount <= u128::MAX
    &&& input_reserve * output_amount * 1000 <= u128::MAX
    &&& (output_reserve - output_amount) * 997 <= u128::MAX
}

/// Why `input_price` aborts, or `None` when it succeeds.
pub open spec fn input_price_abort(input_amount: int, input_reserve: int, output_reserve: int) -> Option<Error> {
    if input_reserve <= 0 || output_reserve <= 0 {
        Some(Error::InvalidReserve)
    } else if !input_price_fits(input_amount, input_reserve, output_reserve) {
        Some(Error::Overflow)
    } else {
        None
    }
}

/// Why `output_price` aborts, or `None` when it succeeds.
pub open spec fn output_price_abort(output_amount: int, input_reserve: int, output_reserve: int) -> Option<Error> {
    if input_reserve <= 0 || output_reserve <= 0 {
        Some(Error::InvalidReserve)
    } else if output_amount >= output_reserve {
        Some(Error::DepletedReserve)
    } else if !output_price_fits(output_amount, input_reserve, output_reserve) {
        Some(Error::Overflow)
    } else {
        None
    }
}

/// How much output a given input buys. Fails on a zero reserve, and on
/// inputs so large that the 128-bit computation would wrap (the amounts a
/// live pool can hold never reach that range).
pub fn input_price(input_amount: Balance, input_reserve: Balance, output_reserve: Balance) -> (r: Result<Balance, Error>)
    ensures
        match input_price_abort(input_amount as int, input_reserve as int, output_reserve as int) {
            Some(e) => r == Err::<Balance, Error>(e),
            None => (r matches Ok(v)
                && v == input_price_value(input_amount as int, input_reserve as int, output_reserve as int)),
        },
{
    if input_reserve == 0 || output_reserve == 0 {
        return Err(Error::InvalidReserve);
    }
    let with_fee = match input_amount.checked_mul(997) {
        Some(x) => x,
        None => { return Err(Error::Overflow); },
    };
    let numerator = match with_fee.checked_mul(output_reserve) {
        Some(x) => x,
        None => { return Err(Error::Overflow); },
    };
    let scaled_reserve = match input_reserve.checked_mul(1000) {
        Some(x) => x,
        None => { return Err(Error::Overflow); },
    };
    let denominator = match scaled_reserve.checked_add(with_fee) {
        Some(x) => x,
        None => { return Err(Error::Overflow); },
    };
    Ok(numerator / denominator)
}

/// How much input buying a given output costs. Fails on a zero reserve,
/// when the requested output would not leave the output reserve positive,
/// and on inputs whose 128-bit computation would wrap.
pub fn output_price(output_amount: Balance, input_reserve: Balance, output_reserve: Balance) -> (r: Result<Balance, Error>)
    ensures
        match output_price_abort(output_amount as int, input_reserve as int, output_reserve as int) {
            Some(e) => r == Err::<Balance, Error>(e),
            None => (r matches Ok(v)
                && v == output_price_value(output_amount as int, input_reserve as int, output_reserve as int)),
        },
{
    if input_reserve == 0 || output_reserve == 0 {
        return Err(Error::InvalidReserve);
    }
    if output_amount >= output_reserve {
        return Err(Error::DepletedReserve);
    }
    let base = match input_reserve.checked_mul(output_amount) {
        Some(x) => x,
        None => { return Err(Error::Overflow); },
    };
    let numerator = match base.checked_mul(1000) {
        Some(x) => x,
        None => { return Err(Error::Overflow); },
    };
    let remaining = output_reserve - output_amount;
    let denominator = match remaining.checked_mul(997) {
        Some(x) => x,
        None => { return Err(Error::Overflow); },
    };
    let quotient = numerator / denominator;
    proof {
        lemma_div_is_ordered_by_denominator(numerator as int, 997, denominator as int);
        lemma_div_is_ordered(numerator as int, u128::MAX as int, 997);
    }
    Ok(quotient + 1)
}

/// Law: a trade can never drain the output side. For every positive input
/// and positive reserves, the output owed stays strictly below the output
/// reserve.
pub proof fn lemma_input_price_lt_output_reserve(input_amount: int, input_reserve: int, output_reserve: int)
    requires
        0 < input_amount,
        0 < input_reserve,
        0 < output_reserve,
    ensures
        input_price_value(input_amount, input_reserve, output_reserve) < output_reserve,
{
    let num = input_amount * 997 * output_reserve;
    let den = input_reserve * 1000 + input_amount * 997;
    assert(0 <= num && 0 < den && num < output_reserve * den) by (nonlinear_arith)
        requires
            0 < input_amount,
            0 < input_reserve,
            0 < output_reserve,
            num == input_amount * 997 * output_reserve,
            den == input_reserve * 1000 + input_amount * 997;
    lemma_div_below(num, den, output_reserve);
}

/// Law: selling more never buys less. The output owed is monotonically
/// non-decreasing in the input amount, for fixed positive reserves.
pub proof fn lemma_input_price_monotonic(amount_a: int, amount_b: int, input_reserve: int, output_reserve: int)
    requires
        0 <= amount_a <= amount_b,
        0 < input_reserve,
        0 < output_reserve,
    ensures
        input_price_value(amount_a, input_reserve, output_reserve)
            <= input_price_value(amount_b, input_reserve, output_reserve),
{
    let num_a = amount_a * 997 * output_reserve;
    let den_a = input_reserve * 1000 + amount_a * 997;
    let num_b = amount_b * 997 * output_reserve;
    let den_b = input_reserve * 1000 + amount_b * 997;
    assert(num_b * den_a - num_a * den_b == 997 * 1000 * output_reserve * input_reserve * (amount_b - amount_a))
        by (nonlinear_arith)
        requires
            num_a == amount_a * 997 * output_reserve,
            den_a == input_reserve * 1000 + amount_a * 997,
            num_b == amount_b * 997 * output_reserve,
            den_b == input_reserve * 1000 + amount_b * 997;
    assert(0 <= num_a && 0 < den_a && 0 <= num_b && 0 < den_b
        && 0 <= 997 * 1000 * output_reserve * input_reserve * (amount_b - amount_a)) by (nonlinear_arith)
        requires
            0 <= amount_a <= amount_b,
            0 < input_reserve,
            0 < output_reserve,
            num_a == amount_a * 997 * output_reserve,
            den_a == input_reserve * 1000 + amount_a * 997,
            num_b == amount_b * 997 * output_reserve,
            den_b == input_reserve * 1000 + amount_b * 997;
    lemma_div_cross_le(num_a, den_a, num_b, den_b);
}

/// Law: an exact-input trade never lowers the constant product. After
/// selling `input_amount` into the pool and withdrawing the output owed,
/// the product of the reserves is at least what it was: the fee and the
/// floor division both round in the pool's favour.
pub proof fn lemma_input_price_keeps_product(input_amount: int, input_reserve: int, output_reserve: int)
    requires
        0 < input_amount,
        0 < input_reserve,
        0 < output_reserve,
    ensures
        ({
            let bought = input_price_value(input_amount, input_reserve, output_reserve);
            (input_reserve + input_amount) * (output_reserve - bought) >= input_reserve * output_reserve
        }),
{
    let num = input_amount * 997 * output_reserve;
    let den = input_reserve * 1000 + input_amount * 997;
    let bought = num / den;
    assert(0 < den && 0 <= num) by (nonlinear_arith)
        requires
            0 < input_amount,
            0 < input_reserve,
            0 < output_reserve,
            num == input_amount * 997 * output_reserve,
            den == input_reserve * 1000 + input_amount * 997;
    lemma_div_pos_is_pos(num, den);
    lemma_fundamental_div_mod(num, den);
    assert(den * bought <= num);
    assert((input_reserve + input_amount) * bought <= input_amount * output_reserve) by (nonlinear_arith)
        requires
            den * bought <= num,
            0 <= bought,
            0 < den,
            0 < input_amount,
            0 < input_reserve,
            0 < output_reserve,
            num == input_amount * 997 * output_reserve,
            den == input_reserve * 1000 + input_amount * 997;
    assert((input_reserve + input_amount) * (output_reserve - bought) >= input_reserve * output_reserve)
        by (nonlinear_arith)
        requires
            (input_reserve + input_amount) * bought <= input_amount * output_reserve;
}

/// Law: an exact-output trade never lowers the constant product. The
/// charged input, rounded up past break-even, at least restores the
/// product of the reserves after the output leaves.
pub proof fn lemma_output_price_keeps_product(output_amount: int, input_reserve: int, output_reserve: int)
    requires
        0 < output_amount < output_reserve,
        0 < input_reserve,
    ensures
        ({
            let paid = output_price_value(output_amount, input_reserve, output_reserve);
            (input_reserve + paid) * (output_reserve - output_amount) >= input_reserve * output_reserve
        }),
{
    let num = input_reserve * output_amount * 1000;
    let den = (output_reserve - output_amount) * 997;
    let paid = num / den + 1;
    assert(0 < den && 0 <= num) by (nonlinear_arith)
        requires
            0 < output_amount < output_reserve,
            0 < input_reserve,
            num == input_reserve * output_amount * 1000,
            den == (output_reserve - output_amount) * 997;
    lemma_fundamental_div_mod(num, den);
    assert(den * paid > num) by (nonlinear_arith)
        requires
            paid == num / den + 1,
            num == den * (num / den) + num % den,
            num % den < den;
    assert(paid * (output_reserve - output_amount) >= input_reserve * output_amount) by (nonlinear_arith)
        requires
            den * paid > num,
            num == input_reserve * output_amount * 1000,
            den == (output_reserve - output_amount) * 997,
            0 < output_amount < output_reserve,
            0 < input_reserve;
    assert((input_reserve + paid) * (output_reserve - output_amount) >= input_reserve * output_reserve)
        by (nonlinear_arith)
        requires
            paid * (output_reserve - output_amount) >= input_reserve * output_amount,
            0 < output_amount < output_reserve,
            0 < input_reserve;
}

/// Law: a deeper pool never charges more. For one exact output, the
/// required input under balanced reserves is non-increasing as the
/// reserves grow (strictly smaller in typical cases, though rounding can
/// leave two pool sizes at the same price).
pub proof fn lemma_output_price_reserve_monotonic(output_amount: int, reserve_a: int, reserve_b: int)
    requires
        0 < output_amount < reserve_a <= reserve_b,
    ensures
        output_price_value(output_amount, reserve_b, reserve_b)
            <= output_price_value(output_amount, reserve_a, reserve_a),
{
    let num_a = reserve_a * output_amount * 1000;
    let den_a = (reserve_a - output_amount) * 997;
    let num_b = reserve_b * output_amount * 1000;
    let den_b = (reserve_b - output_amount) * 997;
    assert(0 <= num_b && 0 < den_b && 0 <= num_a && 0 < den_a && num_b * den_a <= num_a * den_b)
        by (nonlinear_arith)
        requires
            0 < output_amount < reserve_a <= reserve_b,
            num_a == reserve_a * output_amount * 1000,
            den_a == (reserve_a - output_amount) * 997,
            num_b == reserve_b * output_amount * 1000,
            den_b == (reserve_b - output_amount) * 997;
    lemma_div_cross_le(num_b, den_b, num_a, den_a);
}

/// Law: the round trip never favours the trader. Quoting the cost of an
/// exact output with `output_price_value` and then selling that quote back
/// through `input_price_value`, over the same reserves, buys at least the
/// output first asked for.
pub proof fn lemma_output_price_round_trip(output_amount: int, input_reserve: int, output_reserve: int)
    requires
        0 < output_amount < output_reserve,
        0 < input_reserve,
    ensures
        input_price_value(
            output_price_value(output_amount, input_reserve, output_reserve),
            input_reserve,
            output_reserve,
        ) >= output_amount,
{
    let quote_num = input_reserve * output_amount * 1000;
    let quote_den = (output_reserve - output_amount) * 997;
    let paid = output_price_value(output_amount, input_reserve, output_reserve);
    assert(0 < quote_den && 0 <= quote_num) by (nonlinear_arith)
        requires
            0 < output_amount < output_reserve,
            0 < input_reserve,
            quote_num == input_reserve * output_amount * 1000,
            quote_den == (output_reserve - output_amount) * 997;
    lemma_div_pos_is_pos(quote_num, quote_den);
    lemma_fundamental_div_mod(quote_num, quote_den);
    assert(quote_den * paid > quote_num) by (nonlinear_arith)
        requires
            paid == quote_num / quote_den + 1,
            quote_num == quote_den * (quote_num / quote_den) + quote_num % quote_den,
            quote_num % quote_den < quote_den;
    let num = paid * 997 * output_reserve;
    let den = input_reserve * 1000 + paid * 997;
    assert(0 < den && 0 <= output_amount && output_amount * den <= num) by (nonlinear_arith)
        requires
            quote_den * paid > quote_num,
            quote_num == input_reserve * output_amount * 1000,
            quote_den == (output_reserve - output_amount) * 997,
            num == paid * 997 * output_reserve,
            den == input_reserve * 1000 + paid * 997,
            0 < output_amount,
            output_amount < output_reserve,
            0 < input_reserve,
            0 < paid;
    lemma_div_at_least(num, den, output_amount);
}

} // verus!
