//! Arithmetic on 64-bit numbers that is carried out in 128 bits, where it
//! cannot overflow: the product, and the quotient rounded toward zero.

use vstd::prelude::*;

verus! {

/// The absolute value of `a`.
pub open spec fn magnitude(a: int) -> int {
    if a < 0 {
        -a
    } else {
        a
    }
}

/// The quotient of `a` by `b`, rounded toward zero: the quotient of the
/// magnitudes, negative when the signs differ. It is 0 when `b` is 0.
pub open spec fn truncated_div(a: int, b: int) -> int {
    if b == 0 {
        0
    } else if a >= 0 {
        if b > 0 {
            a / b
        } else {
            -(a / (-b))
        }
    } else {
        if b > 0 {
            -((-a) / b)
        } else {
            (-a) / (-b)
        }
    }
}

/// Whether `n` is the value of some `i64`.
pub open spec fn fits_i64(n: int) -> bool {
    i64::MIN <= n <= i64::MAX
}

/// The magnitude of a quotient rounded toward zero is the quotient of the
/// magnitudes, rounded down: it is no larger than the dividend's.
pub proof fn lemma_truncated_div_bounds(a: int, b: int)
    ensures
        magnitude(truncated_div(a, b)) <= magnitude(a),
        b != 0 ==> magnitude(truncated_div(a, b)) == magnitude(a) / magnitude(b),
{
    if b != 0 {
        let x = magnitude(a);
        let y = magnitude(b);
        assert(0 <= x / y <= x) by (nonlinear_arith)
            requires
                x >= 0,
                y > 0,
        ;
    }
}

/// The quotient of `a` by `b`, rounded toward zero.
pub fn div_toward_zero(a: i128, b: i128) -> (q: i128)
    requires
        b != 0,
        a > i128::MIN,
        b > i128::MIN,
    ensures
        q == truncated_div(a as int, b as int),
{
    let x: i128 = if a < 0 { -a } else { a };
    let y: i128 = if b < 0 { -b } else { b };
    let m: i128 = x / y;
    proof {
        lemma_truncated_div_bounds(a as int, b as int);
    }
    if (a < 0) == (b < 0) {
        m
    } else {
        -m
    }
}

/// The product of two 64-bit numbers. It takes up no more than 127 of the
/// 128 bits.
pub fn widening_mul(a: i64, b: i64) -> (p: i128)
    ensures
        p == a * b,
        -0x4000_0000_0000_0000_0000_0000_0000_0000 <= p,
        p <= 0x4000_0000_0000_0000_0000_0000_0000_0000,
{
    assert(-0x4000_0000_0000_0000_0000_0000_0000_0000 <= a * b
        <= 0x4000_0000_0000_0000_0000_0000_0000_0000) by (nonlinear_arith)
        requires
            -0x8000_0000_0000_0000 <= a <= 0x8000_0000_0000_0000,
            -0x8000_0000_0000_0000 <= b <= 0x8000_0000_0000_0000,
    ;
    (a as i128) * (b as i128)
}

} // verus!
