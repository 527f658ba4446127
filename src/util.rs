use vstd::prelude::*;

use crate::error::AmmError;
use primitive_types::U256;

verus! {

/// Smallest token decimal precision the pool accepts.
pub const MIN_DECIMAL: u8 = 1;

/// Largest token decimal precision the pool accepts; also the precision of the canonical scale.
pub const MAX_DECIMAL: u8 = 24;

/// `10^n`.
pub open spec fn pow10(n: nat) -> nat
    decreases n,
{
    if n == 0 {
        1
    } else {
        10 * pow10((n - 1) as nat)
    }
}

/// Whether `decimal` is a precision the pool accepts.
pub open spec fn valid_decimal(decimal: u8) -> bool {
    MIN_DECIMAL <= decimal <= MAX_DECIMAL
}

/// The factor that brings an amount of precision `decimal` to the canonical scale.
pub open spec fn scale(decimal: u8) -> nat {
    pow10((MAX_DECIMAL - decimal) as nat)
}

/// `amount` on the canonical scale.
pub open spec fn canonical(amount: int, decimal: u8) -> int {
    amount * scale(decimal)
}

/// A canonical amount brought back to precision `decimal`, rounded down.
pub open spec fn from_canonical(amount: int, decimal: u8) -> int {
    amount / (scale(decimal) as int)
}

proof fn lemma_pow10_positive(n: nat)
    ensures
        pow10(n) >= 1,
    decreases n,
{
    if n > 0 {
        lemma_pow10_positive((n - 1) as nat);
    }
}

proof fn lemma_pow10_monotonic(m: nat, n: nat)
    requires
        m <= n,
    ensures
        pow10(m) <= pow10(n),
    decreases n,
{
    if m < n {
        lemma_pow10_monotonic(m, (n - 1) as nat);
        lemma_pow10_positive((n - 1) as nat);
    }
}

/// The canonical factor of a valid precision is at least 1 and fits comfortably in a `u128`.
pub proof fn lemma_scale_bounds(decimal: u8)
    requires
        valid_decimal(decimal),
    ensures
        1 <= scale(decimal) <= pow10(23),
        pow10(23) == 100_000_000_000_000_000_000_000nat,
{
    lemma_pow10_positive((MAX_DECIMAL - decimal) as nat);
    lemma_pow10_monotonic((MAX_DECIMAL - decimal) as nat, 23);
    reveal_with_fuel(pow10, 24);
}

/// A positive amount stays positive on the canonical scale.
pub proof fn lemma_canonical_positive(amount: int, decimal: u8)
    requires
        amount > 0,
        valid_decimal(decimal),
    ensures
        canonical(amount, decimal) > 0,
{
    lemma_scale_bounds(decimal);
    let f = scale(decimal) as int;
    assert(amount * f > 0) by (nonlinear_arith)
        requires
            amount > 0,
            f >= 1,
    ;
}

/// Computes the canonical factor of `decimal`.
fn scale_factor(decimal: u8) -> (r: u128)
    requires
        valid_decimal(decimal),
    ensures
        r == scale(decimal),
        r >= 1,
{
    proof {
        lemma_scale_bounds(decimal);
    }
    let mut r: u128 = 1;
    let mut i: u8 = decimal;
    while i < MAX_DECIMAL
        invariant
            decimal <= i <= MAX_DECIMAL,
            valid_decimal(decimal),
            r == pow10((i - decimal) as nat),
        decreases MAX_DECIMAL - i,
    {
        proof {
            lemma_pow10_monotonic((i - decimal) as nat, 22);
            reveal_with_fuel(pow10, 23);
        }
        r = r * 10;
        i = i + 1;
    }
    proof {
        lemma_pow10_positive((MAX_DECIMAL - decimal) as nat);
    }
    r
}

/// Brings `amount`, of precision `decimal`, to the canonical scale, so that amounts of
/// different precisions can be compared and multiplied.
pub fn amount_to_canonical_amount(amount: u128, decimal: u8) -> (r: Result<u128, AmmError>)
    requires
        valid_decimal(decimal),
    ensures
        canonical(amount as int, decimal) <= u128::MAX ==> r == Ok::<u128, AmmError>(
            canonical(amount as int, decimal) as u128,
        ),
        canonical(amount as int, decimal) > u128::MAX ==> r == Err::<u128, AmmError>(
            AmmError::InternalOverflow,
        ),
{
    let factor = scale_factor(decimal);
    match amount.checked_mul(factor) {
        Some(c) => Ok(c),
        None => Err(AmmError::InternalOverflow),
    }
}

/// Brings a canonical amount back to precision `decimal`, rounding down: a conversion never
/// hands out more than the canonical amount is worth.
pub fn canonical_amount_to_amount(amount: u128, decimal: u8) -> (r: u128)
    requires
        valid_decimal(decimal),
    ensures
        r == from_canonical(amount as int, decimal),
{
    let factor = scale_factor(decimal);
    amount / factor
}

/// Bringing an amount to the canonical scale and back gives the amount again.
pub proof fn lemma_canonical_round_trip(amount: nat, decimal: u8)
    requires
        valid_decimal(decimal),
    ensures
        from_canonical(canonical(amount as int, decimal), decimal) == amount,
{
    lemma_scale_bounds(decimal);
    let f = scale(decimal) as int;
    assert((amount * f) / f == amount) by (nonlinear_arith)
        requires
            f >= 1,
    ;
}

/// Canonical output of a constant-product trade: `amount_in` of the inbound token, against
/// reserves `reserve_in` and `reserve_out`, all on the canonical scale, rounded down.
pub open spec fn constant_product_out(amount_in: int, reserve_in: int, reserve_out: int) -> int {
    amount_in * reserve_out / (reserve_in + amount_in)
}

/// Relies on primitive_types::U256, the 256-bit integer of the uint crate: `From<u128>`,
/// `Mul`, `Add`, `Div` and `as_u128`. Neither the product of two `u128` values nor the sum
/// of two overflows 256 bits, so `Mul` and `Add` are exact; `Div` rounds down and panics on a
/// zero divisor, `as_u128` panics above `u128::MAX`: `requires` rules both out.
#[verifier::external_body]
fn mul_div_u256(a: u128, b: u128, c: u128, d: u128) -> (r: u128)
    requires
        c + d > 0,
        a * b / (c + d) <= u128::MAX,
    ensures
        r == a * b / (c + d),
{
    (U256::from(a) * U256::from(b) / (U256::from(c) + U256::from(d))).as_u128()
}

/// Computes the canonical output of a constant-product trade, `amount_in * reserve_out /
/// (reserve_in + amount_in)` rounded down, in 256-bit arithmetic so that the product cannot
/// overflow. The output is always below `reserve_out`.
pub fn constant_product_amount_out(amount_in: u128, reserve_in: u128, reserve_out: u128) -> (r: u128)
    requires
        reserve_in > 0,
    ensures
        r == constant_product_out(amount_in as int, reserve_in as int, reserve_out as int),
        reserve_out > 0 ==> r < reserve_out,
        reserve_out == 0 ==> r == 0,
{
    proof {
        lemma_trade_below_reserve(amount_in as int, reserve_in as int, reserve_out as int);
    }
    mul_div_u256(amount_in, reserve_out, reserve_in, amount_in)
}

proof fn lemma_trade_below_reserve(a: int, x: int, y: int)
    requires
        a >= 0,
        x > 0,
        y >= 0,
    ensures
        0 <= constant_product_out(a, x, y) <= y,
        y > 0 ==> constant_product_out(a, x, y) < y,
        constant_product_out(a, x, y) * (x + a) <= a * y,
{
    let q = a * y / (x + a);
    assert(0 <= q) by (nonlinear_arith)
        requires
            a >= 0,
            x > 0,
            y >= 0,
            q == a * y / (x + a),
    ;
    assert(q * (x + a) <= a * y) by (nonlinear_arith)
        requires
            a >= 0,
            x > 0,
            y >= 0,
            q == a * y / (x + a),
    ;
    assert(y > 0 ==> q < y) by (nonlinear_arith)
        requires
            a >= 0,
            x > 0,
            y >= 0,
            q >= 0,
            q * (x + a) <= a * y,
    ;
    assert(q <= y) by (nonlinear_arith)
        requires
            a >= 0,
            x > 0,
            y >= 0,
            q >= 0,
            q * (x + a) <= a * y,
    ;
}

/// Raw output of a swap of `amount_in` of a token of precision `decimal_in` against raw
/// reserves `reserve_in` and `reserve_out` (precision `decimal_out`): the constant-product
/// output on the canonical scale, brought back to the out token's precision, rounded down.
pub open spec fn swap_amount_out(
    amount_in: int,
    reserve_in: int,
    decimal_in: u8,
    reserve_out: int,
    decimal_out: u8,
) -> int {
    from_canonical(
        constant_product_out(
            canonical(amount_in, decimal_in),
            canonical(reserve_in, decimal_in),
            canonical(reserve_out, decimal_out),
        ),
        decimal_out,
    )
}

/// A swap never lowers the product of the two canonical reserves, and never takes out the
/// whole out reserve: with `out` the swap's output,
/// `canonical(reserve_in + amount_in) * canonical(reserve_out - out)` is at least
/// `canonical(reserve_in) * canonical(reserve_out)`, and `out < reserve_out`.
pub proof fn lemma_swap_keeps_product(
    amount_in: int,
    reserve_in: int,
    decimal_in: u8,
    reserve_out: int,
    decimal_out: u8,
)
    requires
        amount_in >= 0,
        valid_decimal(decimal_in),
        valid_decimal(decimal_out),
        reserve_in > 0,
        reserve_out > 0,
    ensures
        0 <= swap_amount_out(amount_in, reserve_in, decimal_in, reserve_out, decimal_out)
            < reserve_out,
        canonical(reserve_in + amount_in, decimal_in) * canonical(
            reserve_out - swap_amount_out(amount_in, reserve_in, decimal_in, reserve_out, decimal_out),
            decimal_out,
        ) >= canonical(reserve_in, decimal_in) * canonical(reserve_out, decimal_out),
{
    lemma_scale_bounds(decimal_in);
    lemma_scale_bounds(decimal_out);
    let fi = scale(decimal_in) as int;
    let fo = scale(decimal_out) as int;
    let x = reserve_in * fi;
    let y = reserve_out * fo;
    let a = amount_in * fi;
    assert(x > 0 && y > 0 && a >= 0) by (nonlinear_arith)
        requires
            fi >= 1,
            fo >= 1,
            reserve_in > 0,
            reserve_out > 0,
            amount_in >= 0,
            x == reserve_in * fi,
            y == reserve_out * fo,
            a == amount_in * fi,
    ;
    lemma_trade_below_reserve(a, x, y);
    let q = constant_product_out(a, x, y);
    let out = q / fo;
    assert(0 <= out && out * fo <= q && out < reserve_out) by (nonlinear_arith)
        requires
            fo >= 1,
            0 <= q < y,
            y == reserve_out * fo,
            out == q / fo,
    ;
    assert((reserve_in + amount_in) * fi == x + a) by (nonlinear_arith)
        requires
            x == reserve_in * fi,
            a == amount_in * fi,
    ;
    assert((reserve_out - out) * fo == y - out * fo) by (nonlinear_arith)
        requires
            y == reserve_out * fo,
    ;
    assert((x + a) * (y - out * fo) >= x * y) by (nonlinear_arith)
        requires
            x > 0,
            a >= 0,
            out * fo <= q,
            q * (x + a) <= a * y,
    ;
}

} // verus!
