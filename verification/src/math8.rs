//! 8-bit fixed-point helpers used throughout the light pipeline.

use vstd::prelude::*;

verus! {

/// `value` scaled by `scale`, where `scale` 0..=255 stands for the factor 0.0..=1.0:
/// `value * (scale + 1) / 256`, rounded down, so 0 gives 0 and 255 keeps the value.
pub open spec fn spec_scale8(value: u8, scale: u8) -> int {
    (value * (scale + 1)) / 256
}

/// The 8-bit linear blend of `a` toward `b` by `amount` (0 is all `a`, 255 is all `b`):
/// `(256 * a + b + amount * (b - a)) / 256`, rounded down.
pub open spec fn spec_blend8(a: u8, b: u8, amount: u8) -> int {
    (256 * a + b + amount * (b - a)) / 256
}

/// Progress of `elapsed` through `duration` on a 0..=255 scale.
pub open spec fn spec_progress8(elapsed_ms: u64, duration_ms: u64) -> int {
    if duration_ms == 0 {
        0
    } else if elapsed_ms >= duration_ms {
        255
    } else {
        (elapsed_ms * 255) / (duration_ms as int)
    }
}

/// Scale an 8-bit value by a factor (0-255 stands for 0.0-1.0).
pub fn scale8(value: u8, scale: u8) -> (r: u8)
    ensures
        r == spec_scale8(value, scale),
        r <= value,
        r <= scale,
        scale == 255 ==> r == value,
        scale == 0 ==> r == 0,
{
    let v: u32 = value as u32;
    let s: u32 = scale as u32 + 1;
    assert(v * s <= 65280) by (nonlinear_arith)
        requires
            v <= 255,
            s <= 256,
    ;
    let prod: u32 = v * s;
    let shifted: u32 = prod >> 8;
    assert(shifted == prod / 256) by (bit_vector)
        requires
            shifted == prod >> 8,
    ;
    assert((value * (scale + 1)) / 256 <= value) by (nonlinear_arith)
        requires
            value <= 255,
            scale <= 255,
    ;
    assert((value * (scale + 1)) / 256 <= scale) by (nonlinear_arith)
        requires
            value <= 255,
            scale <= 255,
    ;
    assert(scale == 255 ==> (value * (scale + 1)) / 256 == value) by (nonlinear_arith);
    shifted as u8
}

/// The blend of `a` toward `b` lies between the two endpoints, and reaches `b` at 255.
pub proof fn lemma_blend8_bounds(a: u8, b: u8, amount: u8)
    ensures
        a <= b ==> a <= spec_blend8(a, b, amount) <= b,
        b <= a ==> b <= spec_blend8(a, b, amount) <= a,
        spec_blend8(a, b, 0) == a,
        spec_blend8(a, b, 255) == b,
{
    assert(a <= b ==> a <= spec_blend8(a, b, amount) <= b) by (nonlinear_arith)
        requires
            a <= 255,
            b <= 255,
            amount <= 255,
    ;
    assert(b <= a ==> b <= spec_blend8(a, b, amount) <= a) by (nonlinear_arith)
        requires
            a <= 255,
            b <= 255,
            amount <= 255,
    ;
    assert(spec_blend8(a, b, 255) == b) by (nonlinear_arith)
        requires
            a <= 255,
    ;
}

/// How far an 8-bit value is from another.
pub open spec fn gap8(x: int, y: int) -> int {
    if x <= y {
        y - x
    } else {
        x - y
    }
}

/// A larger blend amount never moves the blend away from `b`.
pub proof fn lemma_blend8_approaches(a: u8, b: u8, t1: u8, t2: u8)
    requires
        t1 <= t2,
    ensures
        gap8(spec_blend8(a, b, t2), b as int) <= gap8(spec_blend8(a, b, t1), b as int),
{
    lemma_blend8_bounds(a, b, t1);
    lemma_blend8_bounds(a, b, t2);
    let n1: int = 256 * a + b + t1 * (b - a);
    let n2: int = 256 * a + b + t2 * (b - a);
    if a <= b {
        assert(n1 <= n2) by (nonlinear_arith)
            requires
                n1 == 256 * a + b + t1 * (b - a),
                n2 == 256 * a + b + t2 * (b - a),
                t1 <= t2,
                a <= b,
        ;
        vstd::arithmetic::div_mod::lemma_div_is_ordered(n1, n2, 256);
    } else {
        assert(n2 <= n1) by (nonlinear_arith)
            requires
                n1 == 256 * a + b + t1 * (b - a),
                n2 == 256 * a + b + t2 * (b - a),
                t1 <= t2,
                b < a,
        ;
        vstd::arithmetic::div_mod::lemma_div_is_ordered(n2, n1, 256);
    }
}

/// Blend two 8-bit values: `amount_of_b` 0 keeps all of `a`, 255 gives all of `b`.
pub fn blend8(a: u8, b: u8, amount_of_b: u8) -> (r: u8)
    ensures
        r == spec_blend8(a, b, amount_of_b),
        a <= b ==> a <= r <= b,
        b <= a ==> b <= r <= a,
        amount_of_b == 0 ==> r == a,
        amount_of_b == 255 ==> r == b,
{
    proof {
        lemma_blend8_bounds(a, b, amount_of_b);
    }
    let a32: u32 = a as u32;
    let b32: u32 = b as u32;
    let t: u32 = amount_of_b as u32;
    // 256 * a + b + t * b - t * a, computed without going below zero
    assert(t * a32 <= 256 * a32) by (nonlinear_arith)
        requires
            t <= 255,
    ;
    assert(t * b32 <= 65025 && t * a32 <= 65025) by (nonlinear_arith)
        requires
            t <= 255,
            a32 <= 255,
            b32 <= 255,
    ;
    let partial: u32 = 256 * a32 + b32 + t * b32 - t * a32;
    assert(partial == 256 * a + b + amount_of_b * (b - a)) by (nonlinear_arith)
        requires
            partial == 256 * a32 + b32 + t * b32 - t * a32,
            a32 == a,
            b32 == b,
            t == amount_of_b,
    ;
    (partial / 256) as u8
}

/// Progress (0-255) of `elapsed_ms` through `duration_ms`.
///
/// A zero duration gives 0; an elapsed time at or beyond the duration gives 255.
pub fn progress8(elapsed_ms: u64, duration_ms: u64) -> (r: u8)
    ensures
        r == spec_progress8(elapsed_ms, duration_ms),
{
    if duration_ms == 0 {
        return 0;
    }
    if elapsed_ms >= duration_ms {
        return 255;
    }
    let num: u128 = (elapsed_ms as u128) * 255;
    let q: u128 = num / (duration_ms as u128);
    assert(q < 255) by (nonlinear_arith)
        requires
            q == num / (duration_ms as u128),
            num == elapsed_ms * 255,
            elapsed_ms < duration_ms,
    ;
    q as u8
}


/// Progress never decreases as time passes.
pub proof fn law_progress8_monotone(e1: u64, e2: u64, duration_ms: u64)
    requires
        e1 <= e2,
    ensures
        spec_progress8(e1, duration_ms) <= spec_progress8(e2, duration_ms),
{
    if duration_ms > 0 && e2 < duration_ms {
        assert((e1 * 255) / (duration_ms as int) <= (e2 * 255) / (duration_ms as int)) by (nonlinear_arith)
            requires
                e1 <= e2,
                duration_ms > 0,
        ;
    } else if duration_ms > 0 && e1 < duration_ms {
        assert((e1 * 255) / (duration_ms as int) <= 255) by (nonlinear_arith)
            requires
                e1 < duration_ms,
                duration_ms > 0,
        ;
    }
}

/// Scaling by 0 gives 0 and by 255 keeps the value; a blend by 0 is its first value and by
/// 255 its second; a value blended with itself stays.
pub proof fn law_math8_identities(v: u8, a: u8, b: u8, t: u8)
    ensures
        spec_scale8(v, 0) == 0,
        spec_scale8(v, 255) == v,
        spec_blend8(a, b, 0) == a,
        spec_blend8(a, b, 255) == b,
        spec_blend8(a, a, t) == a,
{
    lemma_blend8_bounds(a, b, t);
    lemma_blend8_bounds(a, a, t);
    assert(spec_scale8(v, 255) == v) by (nonlinear_arith)
        requires
            v <= 255,
    ;
}

} // verus!
