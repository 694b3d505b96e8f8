//! Scaling, dimming, brightening and blending of 8 and 16-bit channel values.
//!
//! An N-bit value is read as a fraction of `2^N`. The spec functions below are
//! written once over `range = 2^N`, and every executable function states its
//! result through them: `range` is 256 for the `u8` functions and 65536 for the
//! `u16` ones.

use vstd::prelude::*;

verus! {

/// `i * (s + 1) / range`: `i` scaled by `s`, read as a numerator over `range`
/// with a bias of one so that the largest `s` is the identity.
pub open spec fn scaled(i: int, s: int, range: int) -> int {
    i * (s + 1) / range
}

/// The unbiased product `i * s / range`, plus one when both inputs are nonzero.
pub open spec fn scaled_video(i: int, s: int, range: int) -> int {
    i * s / range + if i != 0 && s != 0 {
        1int
    } else {
        0int
    }
}

/// Halving below the half of the range, self-scaling from there on.
pub open spec fn dimmed_lin(x: int, range: int) -> int {
    if x < range / 2 {
        (x + 1) / 2
    } else {
        scaled(x, x, range)
    }
}

/// `scaled` on bytes, as a byte.
pub open spec fn scale8_spec(i: u8, s: u8) -> u8 {
    scaled(i as int, s as int, 256) as u8
}

/// `(a * (max - amount) + a + b * amount + b) / range`, where `max = range - 1`.
pub open spec fn blended(a: int, b: int, amount: int, range: int) -> int {
    (a * (range - 1 - amount) + a + b * amount + b) / range
}

pub(crate) proof fn lemma_mul_bounded(a: int, b: int, c: int, d: int)
    by (nonlinear_arith)
    requires
        0 <= a <= c,
        0 <= b <= d,
    ensures
        0 <= a * b <= c * d,
{
}

proof fn lemma_shr8_is_div(x: u16)
    by (bit_vector)
    ensures
        x >> 8 == x / 256,
{
}

proof fn lemma_shr16_is_div(x: u32)
    by (bit_vector)
    ensures
        x >> 16 == x / 65536,
{
}

proof fn lemma_blend_bounded(a: int, b: int, amount: int, max: int)
    by (nonlinear_arith)
    requires
        0 <= a <= max,
        0 <= b <= max,
        0 <= amount <= max,
    ensures
        0 <= a * (max - amount),
        0 <= b * amount,
        a * (max - amount) + a + b * amount + b <= max * (max + 2),
{
    lemma_mul_bounded(a, max - amount + 1, max, max - amount + 1);
    lemma_mul_bounded(b, amount + 1, max, amount + 1);
}

/// Scaling by 255 keeps a byte, scaling by 0 clears it, and scaling by 127 halves it.
pub proof fn lemma_scale8_fixed_points(x: u8)
    ensures
        scale8_spec(x, 255) == x,
        scale8_spec(x, 0) == 0,
        scale8_spec(x, 127) == x / 2,
{
    assert(x * (255 + 1) == x * 256);
    assert(x * (0 + 1) == x) by (nonlinear_arith);
    assert(x * (127 + 1) == x * 128);
}

/// The byte blend gives `a` for an amount of 0 and `b` for an amount of 255.
pub(crate) proof fn lemma_blend8_endpoints(a: int, b: int)
    requires
        0 <= a <= 255,
        0 <= b <= 255,
    ensures
        blended(a, b, 0, 256) == a,
        blended(a, b, 255, 256) == b,
{
    assert(a * (256 - 1 - 255) == 0) by (nonlinear_arith);
    assert(blended(a, b, 255, 256) == (a + b * 256) / 256);
    assert(blended(a, b, 0, 256) == (a * 256 + b) / 256);
}

/// Scales `i` by `scale`, read as a fraction of 256 with a bias of one.
pub fn scale8(i: u8, scale: u8) -> (r: u8)
    ensures
        r == scaled(i as int, scale as int, 256),
        r == scale8_spec(i, scale),
        scale == 255 ==> r == i,
        scale == 0 ==> r == 0,
        scale == 127 ==> r == i / 2,
{
    proof {
        lemma_mul_bounded(i as int, scale as int + 1, 255, 256);
        if scale == 255 {
            assert(i * (scale + 1) == i * 256);
        }
        if scale == 127 {
            assert(i * (scale + 1) == i * 128);
        }
        if scale == 0 {
            assert(i * (scale + 1) == i) by (nonlinear_arith)
                requires
                    scale == 0,
            ;
        }
    }
    let p: u16 = (i as u16) * (1 + scale as u16);
    proof {
        lemma_shr8_is_div(p);
    }
    let r: u8 = (p >> 8) as u8;
    assert(r == scaled(i as int, scale as int, 256));
    assert(scaled(i as int, scale as int, 256) as u8 == r);
    r
}

/// Scales `i` by `scale` so that the result is zero exactly when an input is zero.
pub fn scale8_video(i: u8, scale: u8) -> (r: u8)
    ensures
        r == scaled_video(i as int, scale as int, 256),
        r == 0 <==> (i == 0 || scale == 0),
{
    proof {
        lemma_mul_bounded(i as int, scale as int, 255, 255);
    }
    let p: u16 = (i as u16) * (scale as u16);
    proof {
        lemma_shr8_is_div(p);
    }
    let x: u8 = (p >> 8) as u8;
    if i != 0 && scale != 0 {
        x + 1
    } else {
        x
    }
}

/// Dims `x` by scaling it by itself.
pub fn dim8_raw(x: u8) -> (r: u8)
    ensures
        r == scaled(x as int, x as int, 256),
{
    scale8(x, x)
}

/// Dims `x` by scaling it by itself in video mode: zero only for zero.
pub fn dim8_video(x: u8) -> (r: u8)
    ensures
        r == scaled_video(x as int, x as int, 256),
        r == 0 <==> x == 0,
{
    scale8_video(x, x)
}

/// Dims `x` by halving below 128 and by self-scaling from 128 on.
pub fn dim8_lin(x: u8) -> (r: u8)
    ensures
        r == dimmed_lin(x as int, 256),
        r == 0 <==> x == 0,
{
    if x >= 0x80 {
        proof {
            lemma_mul_bounded(128, 129, x as int, x as int + 1);
        }
        scale8(x, x)
    } else {
        (x + 1) / 2
    }
}

/// Brightens `x`: the mirror image of `dim8_raw`.
pub fn brighten8_raw(x: u8) -> (r: u8)
    ensures
        r == 255 - scaled(255 - x, 255 - x, 256),
{
    let ix: u8 = 255 - x;
    255 - dim8_raw(ix)
}

/// Brightens `x`: the mirror image of `dim8_video`.
pub fn brighten8_video(x: u8) -> (r: u8)
    ensures
        r == 255 - scaled_video(255 - x, 255 - x, 256),
{
    let ix: u8 = 255 - x;
    255 - dim8_video(ix)
}

/// Brightens `x`: the mirror image of `dim8_lin`.
pub fn brighten8_lin(x: u8) -> (r: u8)
    ensures
        r == 255 - dimmed_lin(255 - x, 256),
{
    let ix: u8 = 255 - x;
    255 - dim8_lin(ix)
}

/// Scales one value in place.
pub fn nscale8(value: &mut u8, scale: u8)
    ensures
        *final(value) == scaled(*old(value) as int, scale as int, 256),
{
    *value = scale8(*value, scale);
}

/// Scales two values in place by the same factor.
pub fn nscale8x2(int_1: &mut u8, int_2: &mut u8, scale: u8)
    ensures
        *final(int_1) == scaled(*old(int_1) as int, scale as int, 256),
        *final(int_2) == scaled(*old(int_2) as int, scale as int, 256),
{
    *int_1 = scale8(*int_1, scale);
    *int_2 = scale8(*int_2, scale);
}

/// Scales three values in place by the same factor.
pub fn nscale8x3(int_1: &mut u8, int_2: &mut u8, int_3: &mut u8, scale: u8)
    ensures
        *final(int_1) == scaled(*old(int_1) as int, scale as int, 256),
        *final(int_2) == scaled(*old(int_2) as int, scale as int, 256),
        *final(int_3) == scaled(*old(int_3) as int, scale as int, 256),
{
    *int_1 = scale8(*int_1, scale);
    *int_2 = scale8(*int_2, scale);
    *int_3 = scale8(*int_3, scale);
}

/// Scales four values in place by the same factor.
pub fn nscale8x4(int_1: &mut u8, int_2: &mut u8, int_3: &mut u8, int_4: &mut u8, scale: u8)
    ensures
        *final(int_1) == scaled(*old(int_1) as int, scale as int, 256),
        *final(int_2) == scaled(*old(int_2) as int, scale as int, 256),
        *final(int_3) == scaled(*old(int_3) as int, scale as int, 256),
        *final(int_4) == scaled(*old(int_4) as int, scale as int, 256),
{
    *int_1 = scale8(*int_1, scale);
    *int_2 = scale8(*int_2, scale);
    *int_3 = scale8(*int_3, scale);
    *int_4 = scale8(*int_4, scale);
}

/// Blends `a` toward `b` by `amount_of_b`, a fraction of 256; the two
/// extremes of `amount_of_b` give `a` and `b` exactly.
pub fn blend8(a: u8, b: u8, amount_of_b: u8) -> (r: u8)
    ensures
        r == blended(a as int, b as int, amount_of_b as int, 256),
        amount_of_b == 0 ==> r == a,
        amount_of_b == 255 ==> r == b,
{
    proof {
        lemma_blend_bounded(a as int, b as int, amount_of_b as int, 255);
        if amount_of_b == 0 {
            assert(a * (255 - amount_of_b) == a * 255 && b * amount_of_b == 0);
        }
        if amount_of_b == 255 {
            assert(a * (255 - amount_of_b) == 0) by (nonlinear_arith)
                requires
                    amount_of_b == 255,
            ;
            assert(b * amount_of_b == b * 255);
        }
    }
    let amount_of_a: u16 = (255 - amount_of_b) as u16;
    let partial: u16 = (a as u16) * amount_of_a + (a as u16) + (b as u16) * (amount_of_b as u16)
        + (b as u16);
    proof {
        lemma_shr8_is_div(partial);
    }
    (partial >> 8) as u8
}

/// Scales `i` by `scale`, read as a fraction of 65536 with a bias of one.
pub fn scale16(i: u16, scale: u16) -> (r: u16)
    ensures
        r == scaled(i as int, scale as int, 65536),
        scale == 65535 ==> r == i,
        scale == 0 ==> r == 0,
{
    proof {
        lemma_mul_bounded(i as int, scale as int + 1, 65535, 65536);
        if scale == 65535 {
            assert(i * (scale + 1) == i * 65536);
        }
        if scale == 0 {
            assert(i * (scale + 1) == i) by (nonlinear_arith)
                requires
                    scale == 0,
            ;
        }
    }
    let p: u32 = (i as u32) * (1 + scale as u32);
    proof {
        lemma_shr16_is_div(p);
    }
    (p >> 16) as u16
}

/// Scales `i` by `scale` so that the result is zero exactly when an input is zero.
pub fn scale16_video(i: u16, scale: u16) -> (r: u16)
    ensures
        r == scaled_video(i as int, scale as int, 65536),
        r == 0 <==> (i == 0 || scale == 0),
{
    proof {
        lemma_mul_bounded(i as int, scale as int, 65535, 65535);
    }
    let p: u32 = (i as u32) * (scale as u32);
    proof {
        lemma_shr16_is_div(p);
    }
    let x: u16 = (p >> 16) as u16;
    if i != 0 && scale != 0 {
        x + 1
    } else {
        x
    }
}

/// Dims `x` by scaling it by itself.
pub fn dim16_raw(x: u16) -> (r: u16)
    ensures
        r == scaled(x as int, x as int, 65536),
{
    scale16(x, x)
}

/// Dims `x` by scaling it by itself in video mode: zero only for zero.
pub fn dim16_video(x: u16) -> (r: u16)
    ensures
        r == scaled_video(x as int, x as int, 65536),
        r == 0 <==> x == 0,
{
    scale16_video(x, x)
}

/// Dims `x` by halving below 32768 and by self-scaling from 32768 on.
pub fn dim16_lin(x: u16) -> (r: u16)
    ensures
        r == dimmed_lin(x as int, 65536),
        r == 0 <==> x == 0,
{
    if x >= 0x8000 {
        proof {
            lemma_mul_bounded(32768, 32769, x as int, x as int + 1);
        }
        scale16(x, x)
    } else {
        (x + 1) / 2
    }
}

/// Brightens `x`: the mirror image of `dim16_raw`.
pub fn brighten16_raw(x: u16) -> (r: u16)
    ensures
        r == 65535 - scaled(65535 - x, 65535 - x, 65536),
{
    let ix: u16 = 65535 - x;
    65535 - dim16_raw(ix)
}

/// Brightens `x`: the mirror image of `dim16_video`.
pub fn brighten16_video(x: u16) -> (r: u16)
    ensures
        r == 65535 - scaled_video(65535 - x, 65535 - x, 65536),
{
    let ix: u16 = 65535 - x;
    65535 - dim16_video(ix)
}

/// Brightens `x`: the mirror image of `dim16_lin`.
pub fn brighten16_lin(x: u16) -> (r: u16)
    ensures
        r == 65535 - dimmed_lin(65535 - x, 65536),
{
    let ix: u16 = 65535 - x;
    65535 - dim16_lin(ix)
}

/// Scales one value in place.
pub fn nscale16(value: &mut u16, scale: u16)
    ensures
        *final(value) == scaled(*old(value) as int, scale as int, 65536),
{
    *value = scale16(*value, scale);
}

/// Scales two values in place by the same factor.
pub fn nscale16x2(int_1: &mut u16, int_2: &mut u16, scale: u16)
    ensures
        *final(int_1) == scaled(*old(int_1) as int, scale as int, 65536),
        *final(int_2) == scaled(*old(int_2) as int, scale as int, 65536),
{
    *int_1 = scale16(*int_1, scale);
    *int_2 = scale16(*int_2, scale);
}

/// Scales three values in place by the same factor.
pub fn nscale16x3(int_1: &mut u16, int_2: &mut u16, int_3: &mut u16, scale: u16)
    ensures
        *final(int_1) == scaled(*old(int_1) as int, scale as int, 65536),
        *final(int_2) == scaled(*old(int_2) as int, scale as int, 65536),
        *final(int_3) == scaled(*old(int_3) as int, scale as int, 65536),
{
    *int_1 = scale16(*int_1, scale);
    *int_2 = scale16(*int_2, scale);
    *int_3 = scale16(*int_3, scale);
}

/// Scales four values in place by the same factor.
pub fn nscale16x4(int_1: &mut u16, int_2: &mut u16, int_3: &mut u16, int_4: &mut u16, scale: u16)
    ensures
        *final(int_1) == scaled(*old(int_1) as int, scale as int, 65536),
        *final(int_2) == scaled(*old(int_2) as int, scale as int, 65536),
        *final(int_3) == scaled(*old(int_3) as int, scale as int, 65536),
        *final(int_4) == scaled(*old(int_4) as int, scale as int, 65536),
{
    *int_1 = scale16(*int_1, scale);
    *int_2 = scale16(*int_2, scale);
    *int_3 = scale16(*int_3, scale);
    *int_4 = scale16(*int_4, scale);
}

/// Blends `a` toward `b` by `amount_of_b`, a fraction of 65536; the two
/// extremes of `amount_of_b` give `a` and `b` exactly.
pub fn blend16(a: u16, b: u16, amount_of_b: u16) -> (r: u16)
    ensures
        r == blended(a as int, b as int, amount_of_b as int, 65536),
        amount_of_b == 0 ==> r == a,
        amount_of_b == 65535 ==> r == b,
{
    proof {
        lemma_blend_bounded(a as int, b as int, amount_of_b as int, 65535);
        if amount_of_b == 0 {
            assert(a * (65535 - amount_of_b) == a * 65535 && b * amount_of_b == 0);
        }
        if amount_of_b == 65535 {
            assert(a * (65535 - amount_of_b) == 0) by (nonlinear_arith)
                requires
                    amount_of_b == 65535,
            ;
            assert(b * amount_of_b == b * 65535);
        }
    }
    let amount_of_a: u32 = (65535 - amount_of_b) as u32;
    let partial: u32 = (a as u32) * amount_of_a + (a as u32) + (b as u32) * (amount_of_b as u32)
        + (b as u32);
    proof {
        lemma_shr16_is_div(partial);
    }
    (partial >> 16) as u16
}

/// Scaling, dimming, brightening and blending as methods of the integer types.
///
/// Each value is read as a fraction of `2^N` for an N-bit type; the impls for
/// `u8` and `u16` state their results exactly.
pub trait ScalingInt: Sized {
    /// Scales `self` by `other`, read as a fraction with a bias of one.
    fn scale(self, other: Self) -> (r: Self);

    /// Scales so that the result is zero exactly when an input is zero.
    fn scale_video(self, other: Self) -> (r: Self);

    /// Dims by scaling by itself.
    fn dim_raw(self) -> (r: Self);

    /// Dims in video mode: zero only for zero.
    fn dim_video(self) -> (r: Self);

    /// Dims by halving below half of the range, by self-scaling above.
    fn dim_lin(self) -> (r: Self);

    /// The mirror image of `dim_raw`.
    fn brighten_raw(self) -> (r: Self);

    /// The mirror image of `dim_video`.
    fn brighten_video(self) -> (r: Self);

    /// The mirror image of `dim_lin`.
    fn brighten_lin(self) -> (r: Self);

    /// Blends `self` toward `b` by the fraction `amount_of_b`.
    fn blend(self, b: Self, amount_of_b: Self) -> (r: Self);
}

impl ScalingInt for u8 {
    fn scale(self, other: u8) -> (r: u8)
        ensures
            r == scaled(self as int, other as int, 256),
    {
        scale8(self, other)
    }

    fn scale_video(self, other: u8) -> (r: u8)
        ensures
            r == scaled_video(self as int, other as int, 256),
    {
        scale8_video(self, other)
    }

    fn dim_raw(self) -> (r: u8)
        ensures
            r == scaled(self as int, self as int, 256),
    {
        dim8_raw(self)
    }

    fn dim_video(self) -> (r: u8)
        ensures
            r == scaled_video(self as int, self as int, 256),
    {
        dim8_video(self)
    }

    fn dim_lin(self) -> (r: u8)
        ensures
            r == dimmed_lin(self as int, 256),
    {
        dim8_lin(self)
    }

    fn brighten_raw(self) -> (r: u8)
        ensures
            r == 255 - scaled(255 - self, 255 - self, 256),
    {
        brighten8_raw(self)
    }

    fn brighten_video(self) -> (r: u8)
        ensures
            r == 255 - scaled_video(255 - self, 255 - self, 256),
    {
        brighten8_video(self)
    }

    fn brighten_lin(self) -> (r: u8)
        ensures
            r == 255 - dimmed_lin(255 - self, 256),
    {
        brighten8_lin(self)
    }

    fn blend(self, b: u8, amount_of_b: u8) -> (r: u8)
        ensures
            r == blended(self as int, b as int, amount_of_b as int, 256),
    {
        blend8(self, b, amount_of_b)
    }
}

impl ScalingInt for u16 {
    fn scale(self, other: u16) -> (r: u16)
        ensures
            r == scaled(self as int, other as int, 65536),
    {
        scale16(self, other)
    }

    fn scale_video(self, other: u16) -> (r: u16)
        ensures
            r == scaled_video(self as int, other as int, 65536),
    {
        scale16_video(self, other)
    }

    fn dim_raw(self) -> (r: u16)
        ensures
            r == scaled(self as int, self as int, 65536),
    {
        dim16_raw(self)
    }

    fn dim_video(self) -> (r: u16)
        ensures
            r == scaled_video(self as int, self as int, 65536),
    {
        dim16_video(self)
    }

    fn dim_lin(self) -> (r: u16)
        ensures
            r == dimmed_lin(self as int, 65536),
    {
        dim16_lin(self)
    }

    fn brighten_raw(self) -> (r: u16)
        ensures
            r == 65535 - scaled(65535 - self, 65535 - self, 65536),
    {
        brighten16_raw(self)
    }

    fn brighten_video(self) -> (r: u16)
        ensures
            r == 65535 - scaled_video(65535 - self, 65535 - self, 65536),
    {
        brighten16_video(self)
    }

    fn brighten_lin(self) -> (r: u16)
        ensures
            r == 65535 - dimmed_lin(65535 - self, 65536),
    {
        brighten16_lin(self)
    }

    fn blend(self, b: u16, amount_of_b: u16) -> (r: u16)
        ensures
            r == blended(self as int, b as int, amount_of_b as int, 65536),
    {
        blend16(self, b, amount_of_b)
    }
}

} // verus!
