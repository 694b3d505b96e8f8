//! Whole-buffer operations on pixels: filling, fading, blending, blurring,
//! gradient fills and rainbow fills.

use vstd::prelude::*;

use crate::gradient::{
    hsv_gradient, hsv_gradient_at, hsv_gradient_inclusive_end, lerp_byte, rgb_gradient,
    rgb_gradient_at, rgb_gradient_inclusive_end, GradientDirection,
};
use crate::hsv::{FromHsv, HSV};
use crate::lerp::{lemma_accum_step, wrap_u16};
use crate::rgb::ColorRGB;
use crate::scale::{lemma_mul_bounded, scaled};

verus! {

/// The sum of all channels of all pixels.
pub open spec fn total_light(p: Seq<ColorRGB>) -> int
    decreases p.len(),
{
    if p.len() == 0 {
        0
    } else {
        total_light(p.drop_last()) + p.last().channel_sum()
    }
}

/// Pixel `i` of `p` after one blur pass by `amount`: kept by `255 - amount`,
/// then raised by the carry (its own share `amount / 2`, except for the
/// first pixel) and by the share of the next pixel, if there is one.
pub open spec fn blurred(p: Seq<ColorRGB>, i: int, amount: u8) -> ColorRGB {
    let keep = (255 - amount) as u8;
    let seep = (amount / 2) as u8;
    let kept = p[i].scaled_by(keep);
    let carried = if i > 0 {
        kept.plus(p[i].scaled_by(seep))
    } else {
        kept
    };
    if i + 1 < p.len() {
        carried.plus(p[i + 1].scaled_by(seep))
    } else {
        carried
    }
}

/// A channel after the truncating blend toward `other` by `amount`.
pub open spec fn blend_channel(c: u8, other: u8, amount: u8) -> u8 {
    ((c * (255 - amount) + other * amount) / 256) as u8
}

/// A pixel after the truncating blend toward `other` by `amount`.
pub open spec fn blend_pixel(c: ColorRGB, other: ColorRGB, amount: u8) -> ColorRGB {
    ColorRGB {
        r: blend_channel(c.r, other.r, amount),
        g: blend_channel(c.g, other.g, amount),
        b: blend_channel(c.b, other.b, amount),
    }
}

/// The hue of element `k` of a rainbow fill whose 8.8 fixed-point hue starts
/// at `start` and moves by `delta` per element.
pub open spec fn rainbow_hue_at(start: u8, delta: u16, k: int) -> u8 {
    lerp_byte(start, delta as int, k)
}

/// The per-element hue step of a single-cycle rainbow over `len` elements, in
/// 8.24 fixed point.
pub open spec fn cycle_delta(len: int) -> int {
    0xFF00_0000int / len
}

/// The hue of element `k` of a single-cycle rainbow over `len` elements.
pub open spec fn cycle_hue_at(start: u8, len: int, k: int) -> u8 {
    (((start * 0x0100_0000 + k * cycle_delta(len)) % 0x1_0000_0000) / 0x0100_0000) as u8
}

proof fn lemma_wrap32_step(a: int, d: int, k: int)
    ensures
        ((a + k * d) % 0x1_0000_0000 + d) % 0x1_0000_0000 == (a + (k + 1) * d) % 0x1_0000_0000,
{
    assert((k + 1) * d == k * d + d) by (nonlinear_arith);
}

/// One blur pass keeps `x * (255 - amount) / 256` of a channel value and
/// hands out `x * (amount / 2 + 1) / 256` twice; together that is at most
/// one more than `x`.
pub proof fn lemma_blur_shares(x: u8, amount: u8)
    ensures
        scaled(x as int, 255 - amount as int, 256) <= x,
        scaled(x as int, 255 - amount as int, 256) + 2 * scaled(x as int, (amount / 2) as int, 256) <= x + 1,
{
    let s = amount / 2;
    let a = x * (256 - amount);
    let b = x * (s + 1);
    assert(a + 2 * b <= 258 * x) by (nonlinear_arith)
        requires
            a == x * (256 - amount),
            b == x * (s + 1),
            2 * s <= amount,
            0 <= x,
    ;
    lemma_mul_bounded(x as int, 256 - amount, x as int, 256);
    assert(0 <= b) by (nonlinear_arith)
        requires
            b == x * (s + 1),
            0 <= x,
            0 <= s,
    ;
}

proof fn lemma_total_light_push(p: Seq<ColorRGB>, i: int)
    requires
        0 <= i < p.len(),
    ensures
        total_light(p.subrange(0, i + 1)) == total_light(p.subrange(0, i)) + p[i].channel_sum(),
{
    assert(p.subrange(0, i + 1).drop_last() =~= p.subrange(0, i));
}

proof fn lemma_total_light_same(p: Seq<ColorRGB>, q: Seq<ColorRGB>, i: int)
    requires
        0 <= i <= p.len(),
        0 <= i <= q.len(),
        forall|j: int| 0 <= j < i ==> p[j] == q[j],
    ensures
        total_light(p.subrange(0, i)) == total_light(q.subrange(0, i)),
{
    assert(p.subrange(0, i) =~= q.subrange(0, i));
}

/// Operations on a buffer of RGB pixels.
pub trait ColorIterMut {
    /// Sets every pixel to `color`.
    fn fill(&mut self, color: ColorRGB);

    /// Sets every pixel to black.
    fn clear(&mut self);

    /// Fades every pixel toward black by `fade_by`: scales it by `255 - fade_by`,
    /// each channel ending as `batch_scale_bytes` would leave its byte.
    fn fade_to_black(&mut self, fade_by: u8);

    /// One left-to-right blur pass by `blur_amount`; it does not keep the
    /// brightness: repeated passes fade the buffer toward black.
    fn blur(&mut self, blur_amount: u8);

    /// Blends every pixel toward `other` by `amount_of_other`, truncating.
    fn blend(&mut self, other: ColorRGB, amount_of_other: u8);
}

impl ColorIterMut for [ColorRGB] {
    fn fill(&mut self, color: ColorRGB)
        ensures
            final(self)@.len() == old(self)@.len(),
            forall|k: int| 0 <= k < old(self)@.len() ==> #[trigger] final(self)@[k] == color,
    {
        let len: usize = self.len();
        let mut i: usize = 0;
        while i < len
            invariant
                0 <= i <= len,
                self@.len() == len,
                forall|k: int| 0 <= k < i ==> #[trigger] self@[k] == color,
            decreases len - i,
        {
            self[i] = color;
            i += 1;
        }
    }

    fn clear(&mut self)
        ensures
            final(self)@.len() == old(self)@.len(),
            forall|k: int|
                0 <= k < old(self)@.len() ==> #[trigger] final(self)@[k] == ColorRGB::black(),
    {
        ColorIterMut::fill(self, ColorRGB::new(0, 0, 0));
    }

    fn fade_to_black(&mut self, fade_by: u8)
        ensures
            final(self)@.len() == old(self)@.len(),
            forall|k: int|
                0 <= k < old(self)@.len() ==> #[trigger] final(self)@[k] == old(self)@[k].scaled_by(
                    (255 - fade_by) as u8,
                ),
    {
        let len: usize = self.len();
        let ghost before_pass = self@;
        let mut i: usize = 0;
        while i < len
            invariant
                0 <= i <= len,
                self@.len() == len == before_pass.len(),
                forall|k: int| 0 <= k < i ==> #[trigger] self@[k] == before_pass[k].scaled_by((255 - fade_by) as u8),
                forall|k: int| i <= k < len ==> #[trigger] self@[k] == before_pass[k],
            decreases len - i,
        {
            let mut p: ColorRGB = self[i];
            p.fade_to_black_by(fade_by);
            self[i] = p;
            i += 1;
        }
    }

    fn blur(&mut self, blur_amount: u8)
        ensures
            final(self)@.len() == old(self)@.len(),
            forall|k: int|
                0 <= k < old(self)@.len() ==> #[trigger] final(self)@[k] == blurred(
                    old(self)@,
                    k,
                    blur_amount,
                ),
            total_light(final(self)@) <= total_light(old(self)@) + 3 * old(self)@.len(),
    {
        let keep: u8 = 255 - blur_amount;
        let seep: u8 = blur_amount >> 1;
        assert(seep == blur_amount / 2) by (bit_vector)
            requires
                seep == blur_amount >> 1,
        ;
        let len: usize = self.len();
        let ghost before_pass = self@;
        let mut carry: ColorRGB = ColorRGB::new(0, 0, 0);
        let mut i: usize = 0;
        while i < len
            invariant
                0 <= i <= len,
                self@.len() == len == before_pass.len(),
                keep == 255 - blur_amount,
                seep == blur_amount / 2,
                0 < i < len ==> carry == before_pass[i as int].scaled_by(seep),
                i == 0 ==> carry == ColorRGB::black(),
                forall|k: int| 0 <= k < i ==> #[trigger] self@[k] == blurred(before_pass, k, blur_amount),
                forall|k: int| i <= k < len ==> #[trigger] self@[k] == before_pass[k],
                total_light(self@.subrange(0, i as int)) <= total_light(before_pass.subrange(0, i as int)) + 3 * i + (if 0 < i < len {
                    carry.channel_sum()
                } else {
                    0
                }),
            decreases len - i,
        {
            let ghost before = self@;
            let ghost carry_in = carry;
            let mut cur: ColorRGB = self[i];
            cur.scale(keep);
            cur = cur + carry;
            if i + 1 < len {
                let mut part: ColorRGB = self[i + 1];
                part.scale(seep);
                cur = cur + part;
                carry = part;
            }
            self[i] = cur;
            proof {
                let o = before_pass[i as int];
                lemma_blur_shares(o.r, blur_amount);
                lemma_blur_shares(o.g, blur_amount);
                lemma_blur_shares(o.b, blur_amount);
                assert(cur.channel_sum() <= o.scaled_by(keep).channel_sum() + carry_in.channel_sum()
                    + (if i + 1 < len {
                    carry.channel_sum()
                } else {
                    0
                }));
                lemma_total_light_push(self@, i as int);
                lemma_total_light_push(before_pass, i as int);
                lemma_total_light_same(self@, before, i as int);
            }
            i += 1;
        }
        proof {
            assert(self@.subrange(0, len as int) =~= self@);
            assert(before_pass.subrange(0, len as int) =~= before_pass);
        }
    }

    fn blend(&mut self, other: ColorRGB, amount_of_other: u8)
        ensures
            final(self)@.len() == old(self)@.len(),
            forall|k: int|
                0 <= k < old(self)@.len() ==> #[trigger] final(self)@[k] == blend_pixel(
                    old(self)@[k],
                    other,
                    amount_of_other,
                ),
    {
        let p_other: u16 = amount_of_other as u16;
        let p_this: u16 = (255 - amount_of_other) as u16;
        proof {
            lemma_mul_bounded(other.r as int, p_other as int, 255, p_other as int);
            lemma_mul_bounded(other.g as int, p_other as int, 255, p_other as int);
            lemma_mul_bounded(other.b as int, p_other as int, 255, p_other as int);
        }
        let partial_r: u16 = (other.r as u16) * p_other;
        let partial_g: u16 = (other.g as u16) * p_other;
        let partial_b: u16 = (other.b as u16) * p_other;
        let len: usize = self.len();
        let ghost before_pass = self@;
        let mut i: usize = 0;
        while i < len
            invariant
                0 <= i <= len,
                self@.len() == len == before_pass.len(),
                p_other == amount_of_other,
                p_this == 255 - amount_of_other,
                partial_r == other.r * p_other,
                partial_g == other.g * p_other,
                partial_b == other.b * p_other,
                partial_r <= 255 * p_other,
                partial_g <= 255 * p_other,
                partial_b <= 255 * p_other,
                forall|k: int|
                    0 <= k < i ==> #[trigger] self@[k] == blend_pixel(before_pass[k], other, amount_of_other),
                forall|k: int| i <= k < len ==> #[trigger] self@[k] == before_pass[k],
            decreases len - i,
        {
            let p: ColorRGB = self[i];
            proof {
                lemma_mul_bounded(p.r as int, p_this as int, 255, p_this as int);
                lemma_mul_bounded(p.g as int, p_this as int, 255, p_this as int);
                lemma_mul_bounded(p.b as int, p_this as int, 255, p_this as int);
            }
            let r: u8 = (((p.r as u16) * p_this + partial_r) / 256) as u8;
            let g: u8 = (((p.g as u16) * p_this + partial_g) / 256) as u8;
            let b: u8 = (((p.b as u16) * p_this + partial_b) / 256) as u8;
            self[i] = ColorRGB::new(r, g, b);
            i += 1;
        }
    }
}

/// Fills a buffer with a gradient between two HSV colors, exclusive of the end.
pub trait GradientFill {
    fn gradient_fill(&mut self, start: HSV, end: HSV, dir: GradientDirection);
}

impl<C: FromHsv> GradientFill for [C] {
    fn gradient_fill(&mut self, start: HSV, end: HSV, dir: GradientDirection)
        ensures
            final(self)@.len() == old(self)@.len(),
            forall|k: int|
                0 <= k < old(self)@.len() ==> #[trigger] final(self)@[k] == C::from_hsv_spec(
                    hsv_gradient_at(start, end, dir, old(self)@.len() as int, k),
                ),
    {
        hsv_gradient(start, end, dir, self);
    }
}

/// Fills a buffer with a gradient between two HSV colors, inclusive of the end.
pub trait GradientFillToInclusive {
    fn gradient_fill_to_inclusive(&mut self, start: HSV, end: HSV, dir: GradientDirection);
}

impl<C: FromHsv> GradientFillToInclusive for [C] {
    fn gradient_fill_to_inclusive(&mut self, start: HSV, end: HSV, dir: GradientDirection)
        ensures
            final(self)@.len() == old(self)@.len(),
            old(self)@.len() > 0 ==> final(self)@[old(self)@.len() - 1] == C::from_hsv_spec(end),
            forall|k: int|
                0 <= k < old(self)@.len() - 1 ==> #[trigger] final(self)@[k] == C::from_hsv_spec(
                    hsv_gradient_at(start, end, dir, old(self)@.len() - 1, k),
                ),
    {
        hsv_gradient_inclusive_end(start, end, dir, self);
    }
}

/// Fills a buffer with a gradient between two RGB colors, exclusive of the end.
pub trait GradientFillRGB {
    fn gradient_fill_rgb(&mut self, start: ColorRGB, end: ColorRGB);
}

impl GradientFillRGB for [ColorRGB] {
    fn gradient_fill_rgb(&mut self, start: ColorRGB, end: ColorRGB)
        ensures
            final(self)@.len() == old(self)@.len(),
            forall|k: int|
                0 <= k < old(self)@.len() ==> #[trigger] final(self)@[k] == rgb_gradient_at(
                    start,
                    end,
                    old(self)@.len() as int,
                    k,
                ),
    {
        rgb_gradient(start, end, self);
    }
}

/// Fills a buffer with a gradient between two RGB colors, inclusive of the end.
pub trait GradientFillRGBToInclusive {
    fn gradient_fill_rgb_to_inclusive(&mut self, start: ColorRGB, end: ColorRGB);
}

impl GradientFillRGBToInclusive for [ColorRGB] {
    fn gradient_fill_rgb_to_inclusive(&mut self, start: ColorRGB, end: ColorRGB)
        ensures
            final(self)@.len() == old(self)@.len(),
            old(self)@.len() > 0 ==> final(self)@[old(self)@.len() - 1] == end,
            forall|k: int|
                0 <= k < old(self)@.len() - 1 ==> #[trigger] final(self)@[k] == rgb_gradient_at(
                    start,
                    end,
                    old(self)@.len() - 1,
                    k,
                ),
    {
        rgb_gradient_inclusive_end(start, end, self);
    }
}

/// Fills a buffer with a rainbow of a given step size.
///
/// The step is 8.8 fixed point: the high byte is the whole number of hues
/// between elements, the low byte a fraction of a hue.
pub trait RainbowFill {
    /// A rainbow at full saturation and value.
    fn rainbow_fill(&mut self, start_hue: u8, hue_delta: u16);

    /// A rainbow at the given saturation and value.
    fn rainbow_fill_with_sat_val(&mut self, start_hue: u8, hue_delta: u16, sat: u8, val: u8);
}

impl<H: FromHsv> RainbowFill for [H] {
    fn rainbow_fill(&mut self, start_hue: u8, hue_delta: u16)
        ensures
            final(self)@.len() == old(self)@.len(),
            forall|k: int|
                0 <= k < old(self)@.len() ==> #[trigger] final(self)@[k] == H::from_hsv_spec(
                    HSV { h: rainbow_hue_at(start_hue, hue_delta, k), s: 255, v: 255 },
                ),
    {
        self.rainbow_fill_with_sat_val(start_hue, hue_delta, 255, 255);
    }

    fn rainbow_fill_with_sat_val(&mut self, start_hue: u8, hue_delta: u16, sat: u8, val: u8)
        ensures
            final(self)@.len() == old(self)@.len(),
            forall|k: int|
                0 <= k < old(self)@.len() ==> #[trigger] final(self)@[k] == H::from_hsv_spec(
                    HSV { h: rainbow_hue_at(start_hue, hue_delta, k), s: sat, v: val },
                ),
    {
        let len: usize = self.len();
        let mut hue: u16 = (start_hue as u16) * 256;
        let mut i: usize = 0;
        while i < len
            invariant
                0 <= i <= len,
                self@.len() == len,
                hue == wrap_u16(start_hue * 256 + i * hue_delta),
                forall|k: int|
                    0 <= k < i ==> #[trigger] self@[k] == H::from_hsv_spec(
                        HSV { h: rainbow_hue_at(start_hue, hue_delta, k), s: sat, v: val },
                    ),
            decreases len - i,
        {
            proof {
                lemma_accum_step(start_hue * 256, hue_delta as int, i as int);
            }
            let h: u8 = (hue / 256) as u8;
            self[i] = H::from_hsv(HSV::new(h, sat, val));
            hue = hue.wrapping_add(hue_delta);
            i += 1;
        }
    }
}

/// Fills a buffer with one full turn of the hue wheel.
pub trait RainbowFillSingleCycle {
    fn rainbow_fill_single_cycle(&mut self, start_hue: u8);
}

impl<H: FromHsv> RainbowFillSingleCycle for [H] {
    fn rainbow_fill_single_cycle(&mut self, start_hue: u8)
        ensures
            final(self)@.len() == old(self)@.len(),
            forall|k: int|
                0 <= k < old(self)@.len() ==> #[trigger] final(self)@[k] == H::from_hsv_spec(
                    HSV { h: cycle_hue_at(start_hue, old(self)@.len() as int, k), s: 255, v: 255 },
                ),
    {
        let len: usize = self.len();
        if len == 0 {
            return ;
        }
        let hue_delta: u32 = (0xFF00_0000u64 / (len as u64)) as u32;
        let mut hue: u32 = (start_hue as u32) * 0x0100_0000;
        let mut i: usize = 0;
        while i < len
            invariant
                0 <= i <= len,
                self@.len() == len,
                hue_delta == cycle_delta(len as int),
                hue == (start_hue * 0x0100_0000 + i * hue_delta) % 0x1_0000_0000,
                forall|k: int|
                    0 <= k < i ==> #[trigger] self@[k] == H::from_hsv_spec(
                        HSV { h: cycle_hue_at(start_hue, len as int, k), s: 255, v: 255 },
                    ),
            decreases len - i,
        {
            proof {
                lemma_wrap32_step(start_hue * 0x0100_0000, hue_delta as int, i as int);
            }
            let h: u8 = (hue / 0x0100_0000) as u8;
            self[i] = H::from_hsv(HSV::new(h, 255, 255));
            hue = hue.wrapping_add(hue_delta);
            i += 1;
        }
    }
}

} // verus!
