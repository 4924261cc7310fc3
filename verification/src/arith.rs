//! Facts about products and floor division that the pricing proofs rest on.

use vstd::prelude::*;

verus! {

/// The product of two unsigned 64-bit integers fits in 128 bits.
pub(crate) proof fn lemma_product_fits_u128(a: u64, b: u64)
    ensures
        0 <= a * b <= u128::MAX,
{
    assert(0 <= a * b <= 0xffff_ffff_ffff_ffff * 0xffff_ffff_ffff_ffff) by (nonlinear_arith)
        requires
            0 <= a <= 0xffff_ffff_ffff_ffff,
            0 <= b <= 0xffff_ffff_ffff_ffff,
    ;
}

/// A share `part / whole` of `x`, rounded down, lies between zero and `x`.
pub(crate) proof fn lemma_share_bounded(x: int, part: int, whole: int)
    requires
        0 <= x,
        0 <= part <= whole,
        0 < whole,
    ensures
        0 <= x * part / whole <= x,
{
    assert(0 <= x * part <= x * whole) by (nonlinear_arith)
        requires
            0 <= x,
            0 <= part <= whole,
    ;
    lemma_div_monotonic(0, x * part, whole);
    lemma_div_monotonic(x * part, x * whole, whole);
    lemma_div_cancels(x, whole);
}

/// Floor division by a positive divisor keeps the order of the dividends.
pub(crate) proof fn lemma_div_monotonic(x: int, y: int, d: int)
    by (nonlinear_arith)
    requires
        x <= y,
        0 < d,
    ensures
        x / d <= y / d,
{
}

/// Dividing a multiple of `d` by `d` gives the other factor back.
pub(crate) proof fn lemma_div_cancels(x: int, d: int)
    by (nonlinear_arith)
    requires
        0 < d,
    ensures
        x * d / d == x,
        d * x / d == x,
{
}

/// A larger share of `x` is at least as large, after rounding down.
pub(crate) proof fn lemma_share_monotonic(x: int, smaller: int, larger: int, whole: int)
    requires
        0 <= x,
        smaller <= larger,
        0 < whole,
    ensures
        x * smaller / whole <= x * larger / whole,
{
    assert(x * smaller <= x * larger) by (nonlinear_arith)
        requires
            0 <= x,
            smaller <= larger,
    ;
    lemma_div_monotonic(x * smaller, x * larger, whole);
}

/// Dividing a non-negative number by a larger divisor gives no more.
pub(crate) proof fn lemma_div_by_larger(x: int, d: int, e: int)
    by (nonlinear_arith)
    requires
        0 <= x,
        0 < d <= e,
    ensures
        0 <= x / e <= x / d,
{
}

/// Multiplying a floor quotient by its divisor does not exceed the dividend.
pub(crate) proof fn lemma_quotient_times_divisor(x: int, d: int)
    by (nonlinear_arith)
    requires
        0 <= x,
        0 < d,
    ensures
        0 <= d * (x / d) <= x,
        0 <= (x / d) * d <= x,
{
}

} // verus!
