use primitive_types::U256;
use vstd::prelude::*;

verus! {

/// The number of indivisible units in one whole token, NEAR or share.
pub const YOCTO: u128 = 1_000_000_000_000_000_000_000_000;

/// `a * b / d`, rounded down, over the integers.
pub open spec fn mul_div(a: int, b: int, d: int) -> int {
    (a * b) / d
}

/// Computes `a * b / d` through a 256-bit product.
///
/// Calls `U256::from`, the `*` and `/` of `U256`, and `u128::try_from` of the
/// `primitive-types` crate. The product of two 128-bit numbers always fits in
/// 256 bits, so the multiplication does not overflow; the division rounds
/// down and is only entered with a divisor that is not zero; the conversion
/// back fails exactly when the quotient needs more than 128 bits, which is
/// reported as `None`.
#[verifier::external_body]
pub(crate) fn wide_mul_div(a: u128, b: u128, d: u128) -> (r: Option<u128>)
    requires
        d != 0,
    ensures
        mul_div(a as int, b as int, d as int) <= u128::MAX ==> r == Some(
            mul_div(a as int, b as int, d as int) as u128,
        ),
        mul_div(a as int, b as int, d as int) > u128::MAX ==> r.is_none(),
{
    u128::try_from(U256::from(a) * U256::from(b) / U256::from(d)).ok()
}

/// `mul_div` is never negative on naturals and grows with its first factor.
pub proof fn lemma_mul_div_bounds(a: int, b: int, d: int)
    requires
        0 <= a,
        0 <= b,
        0 < d,
    ensures
        0 <= mul_div(a, b, d),
        mul_div(a, b, d) * d <= a * b,
        a * b < (mul_div(a, b, d) + 1) * d,
{
    assert(0 <= a * b) by (nonlinear_arith)
        requires
            0 <= a,
            0 <= b,
    ;
    vstd::arithmetic::div_mod::lemma_fundamental_div_mod(a * b, d);
    vstd::arithmetic::div_mod::lemma_mod_bound(a * b, d);
    vstd::arithmetic::div_mod::lemma_div_pos_is_pos(a * b, d);
    assert(d * ((a * b) / d) == ((a * b) / d) * d) by (nonlinear_arith);
    assert((mul_div(a, b, d) + 1) * d == mul_div(a, b, d) * d + d) by (nonlinear_arith);
}

/// `mul_div` does not shrink when its first factor grows.
pub proof fn lemma_mul_div_monotonic(a1: int, a2: int, b: int, d: int)
    requires
        0 <= a1 <= a2,
        0 <= b,
        0 < d,
    ensures
        mul_div(a1, b, d) <= mul_div(a2, b, d),
{
    assert(a1 * b <= a2 * b) by (nonlinear_arith)
        requires
            0 <= a1 <= a2,
            0 <= b,
    ;
    vstd::arithmetic::div_mod::lemma_div_is_ordered(a1 * b, a2 * b, d);
}

} // verus!
