//! Exact integer arithmetic for fixed-point lengths.
//!
//! A length counts thousandths. Quotients round down, also below zero, so
//! that a halved length never exceeds the true half.
use vstd::prelude::*;
use vstd::arithmetic::div_mod::lemma_fundamental_div_mod;
use vstd::arithmetic::div_mod::lemma_fundamental_div_mod_converse;

verus! {

/// How many thousandths make one whole.
pub const UNIT: i32 = 1000;

/// `x` brought into `lo..=hi`: raised to `lo` first, then lowered to `hi`.
/// Where the range is empty the result is `hi`.
pub open spec fn clamp_spec(x: int, lo: int, hi: int) -> int {
    let raised = if x < lo { lo } else { x };
    if raised > hi {
        hi
    } else {
        raised
    }
}

pub fn clamp(x: i64, lo: i64, hi: i64) -> (r: i64)
    ensures
        r == clamp_spec(x as int, lo as int, hi as int),
{
    let raised: i64 = if x < lo { lo } else { x };
    if raised > hi {
        hi
    } else {
        raised
    }
}

/// The quotient of `a` by a positive `d`, rounded down.
pub fn floor_div(a: i128, d: i128) -> (q: i128)
    requires
        d > 0,
    ensures
        q == a / d,
{
    if a >= 0 {
        a / d
    } else {
        let m: i128 = -(a + 1);
        let k: i128 = m / d;
        proof {
            let r = m as int % d as int;
            lemma_fundamental_div_mod(m as int, d as int);
            assert(a == (-k - 1) * d + (d - r - 1)) by (nonlinear_arith)
                requires
                    m == d * k + r,
                    a == -(m + 1),
            ;
            lemma_fundamental_div_mod_converse(a as int, d as int, -k - 1, d - r - 1);
        }
        -1 - k
    }
}

/// Half of `a`, rounded down.
pub fn half(a: i128) -> (h: i128)
    ensures
        h == a / 2,
{
    floor_div(a, 2)
}

/// The product of two 64-bit numbers, which always fits 128 bits.
pub fn mul_wide(a: i64, b: i64) -> (p: i128)
    ensures
        p == a * b,
{
    let x: i128 = a as i128;
    let y: i128 = b as i128;
    assert(-0x4000_0000_0000_0000_0000_0000_0000_0000 <= x * y
        <= 0x4000_0000_0000_0000_0000_0000_0000_0000) by (nonlinear_arith)
        requires
            -0x8000_0000_0000_0000 <= x <= 0x8000_0000_0000_0000,
            -0x8000_0000_0000_0000 <= y <= 0x8000_0000_0000_0000,
    ;
    x * y
}

/// `count` times a 64-bit number.
pub fn mul_count(count: usize, v: i64) -> (p: i128)
    ensures
        p == count * v,
{
    let x: i128 = count as i128;
    let y: i128 = v as i128;
    assert(-0x8000_0000_0000_0000_0000_0000_0000_0000 <= x * y
        <= 0x7fff_ffff_ffff_ffff_8000_0000_0000_0000) by (nonlinear_arith)
        requires
            0 <= x <= 0xffff_ffff_ffff_ffff,
            -0x8000_0000_0000_0000 <= y <= 0x7fff_ffff_ffff_ffff,
    ;
    x * y
}

} // verus!
