//! Exact integer arithmetic shared by the tracker and the emulator:
//! division truncating toward zero (the rounding of the decay and of the
//! delta computation) and saturation into a fixed-width range.

use vstd::prelude::*;

verus! {

/// Division truncating toward zero, for a positive divisor. This is what
/// Rust's `/` computes on signed integers; the spec-level `/` is Euclidean.
pub open spec fn div_to_zero(a: int, b: int) -> int {
    if a >= 0 {
        a / b
    } else {
        -((-a) / b)
    }
}

/// Saturation of a mathematical integer into an inclusive range.
pub open spec fn clamp_int(v: int, lo: int, hi: int) -> int {
    if v < lo {
        lo
    } else if v > hi {
        hi
    } else {
        v
    }
}

/// Truncating toward zero never increases magnitude: |a / b| <= |a| for b >= 1.
pub proof fn lemma_div_to_zero_shrinks(a: int, b: int)
    requires
        b >= 1,
    ensures
        vstd::math::abs(div_to_zero(a, b)) <= vstd::math::abs(a),
        a >= 0 ==> 0 <= div_to_zero(a, b) <= a,
        a < 0 ==> a <= div_to_zero(a, b) <= 0,
{
    if a >= 0 {
        vstd::arithmetic::div_mod::lemma_div_nonincreasing(a, b);
        vstd::arithmetic::div_mod::lemma_div_pos_is_pos(a, b);
    } else {
        vstd::arithmetic::div_mod::lemma_div_nonincreasing(-a, b);
        vstd::arithmetic::div_mod::lemma_div_pos_is_pos(-a, b);
    }
}

/// Multiplying by `num / den` with `num <= den` never increases magnitude.
pub proof fn lemma_scale_down_bound(v: int, num: int, den: int)
    requires
        den >= 1,
        0 <= num <= den,
    ensures
        vstd::math::abs(div_to_zero(v * num, den)) <= vstd::math::abs(v),
        v >= 0 ==> 0 <= div_to_zero(v * num, den) <= v,
        v < 0 ==> v <= div_to_zero(v * num, den) <= 0,
{
    if v >= 0 {
        vstd::arithmetic::mul::lemma_mul_inequality(num, den, v);
        assert(v * num == num * v) by (nonlinear_arith);
        assert(v * den == den * v) by (nonlinear_arith);
        assert(v * num >= 0) by (nonlinear_arith)
            requires
                v >= 0 && num >= 0,
        ;
        vstd::arithmetic::div_mod::lemma_div_is_ordered(v * num, v * den, den);
        vstd::arithmetic::div_mod::lemma_div_multiples_vanish(v, den);
    } else {
        vstd::arithmetic::mul::lemma_mul_inequality(num, den, -v);
        assert((-v) * num == -(v * num)) by (nonlinear_arith);
        assert((-v) * den == -(v * den)) by (nonlinear_arith);
        assert((-v) * num >= 0) by (nonlinear_arith)
            requires
                v < 0 && num >= 0,
        ;
        vstd::arithmetic::div_mod::lemma_div_is_ordered(-(v * num), -(v * den), den);
        vstd::arithmetic::div_mod::lemma_div_multiples_vanish(-v, den);
    }
}

/// What `checked_div` computes on a positive divisor is exactly
/// division truncating toward zero.
pub proof fn lemma_trunc_div_form(x: int, d: int)
    requires
        d >= 1,
    ensures
        div_to_zero(x, d) == (if x == 0 {
            0int
        } else if x > 0 {
            x / d
        } else {
            ((x * -1) / d) * -1
        }),
{
    vstd::arithmetic::div_mod::lemma_div_of0(d);
}

/// `v * num / den` truncated toward zero, exact. `num <= den` keeps the
/// result within the magnitude of `v`, so no saturation is needed.
pub fn mul_div_to_zero(v: i64, num: u32, den: u64) -> (r: i64)
    requires
        1 <= den,
        num as u64 <= den,
    ensures
        r == div_to_zero(v * num, den as int),
{
    proof {
        assert((-0x8000_0000_0000_0000_0000_0000_0000_0000 <= (v as int) * (num as int)
            < 0x8000_0000_0000_0000_0000_0000_0000_0000) && ((v as int) * (num as int) == (
        v as i128) as int * (num as i128) as int)) by (nonlinear_arith)
            requires
                -0x8000_0000_0000_0000 <= v <= 0x7fff_ffff_ffff_ffff && 0 <= num
                    < 0x1_0000_0000 && v as int == (v as i128) as int && num as int == (
                num as i128) as int,
        ;
    }
    let prod: i128 = (v as i128) * (num as i128);
    proof {
        lemma_trunc_div_form(prod as int, den as int);
        lemma_div_to_zero_shrinks(prod as int, den as int);
        lemma_scale_down_bound(v as int, num as int, den as int);
    }
    let q: i128 = prod.checked_div(den as i128).unwrap();
    q as i64
}

/// `a * num / den` truncated toward zero, saturated into the `i64` range.
/// The caller keeps the product inside the `i128` range.
pub fn mul_div_sat_i64(a: i64, num: u64, den: u64) -> (r: i64)
    requires
        1 <= den,
        -0x8000_0000_0000_0000_0000_0000_0000_0000 <= a * num
            <= 0x7fff_ffff_ffff_ffff_ffff_ffff_ffff_ffff,
    ensures
        r == clamp_int(div_to_zero(a * num, den as int), i64::MIN as int, i64::MAX as int),
{
    proof {
        assert((a as int) * (num as int) == (a as i128) as int * (num as i128) as int)
            by (nonlinear_arith)
            requires
                a as int == (a as i128) as int && num as int == (num as i128) as int,
        ;
    }
    let prod: i128 = (a as i128) * (num as i128);
    proof {
        lemma_trunc_div_form(prod as int, den as int);
        lemma_div_to_zero_shrinks(prod as int, den as int);
    }
    let q: i128 = prod.checked_div(den as i128).unwrap();
    if q < i64::MIN as i128 {
        i64::MIN
    } else if q > i64::MAX as i128 {
        i64::MAX
    } else {
        q as i64
    }
}

/// The truncated average of two `i32` coordinates lies between them, so
/// it fits in `i32` itself.
pub proof fn lemma_avg_in_range(a: int, b: int)
    requires
        i32::MIN <= a <= i32::MAX,
        i32::MIN <= b <= i32::MAX,
    ensures
        i32::MIN <= div_to_zero(a + b, 2) <= i32::MAX,
{
    lemma_div_to_zero_shrinks(a + b, 2);
    if a + b >= 0 {
        vstd::arithmetic::div_mod::lemma_div_is_ordered(a + b, 0xffff_fffe, 2);
    } else {
        vstd::arithmetic::div_mod::lemma_div_is_ordered(-(a + b), 0x1_0000_0000, 2);
    }
}

/// Elementwise average of two coordinates, truncated toward zero: the
/// centroid of two touch contacts along one axis.
pub fn avg_i32(a: i32, b: i32) -> (r: i32)
    ensures
        r == div_to_zero(a + b, 2),
{
    let s: i64 = a as i64 + b as i64;
    proof {
        lemma_trunc_div_form(s as int, 2);
        lemma_div_to_zero_shrinks(s as int, 2);
        lemma_avg_in_range(a as int, b as int);
    }
    let q: i64 = s.checked_div(2).unwrap();
    q as i32
}

/// Saturation of an `i64` into the `i32` range.
pub fn sat_i32(v: i64) -> (r: i32)
    ensures
        r == clamp_int(v as int, i32::MIN as int, i32::MAX as int),
{
    if v < i32::MIN as i64 {
        i32::MIN
    } else if v > i32::MAX as i64 {
        i32::MAX
    } else {
        v as i32
    }
}

} // verus!
