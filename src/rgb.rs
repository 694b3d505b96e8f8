//! The RGB pixel: three 8-bit channels with saturating arithmetic.

use std::cmp::Ordering;

use vstd::prelude::*;

use crate::ext::{uint8x4_t, uqadd8, uqsub8};
use crate::scale::{
    blend8, blended, lemma_blend8_endpoints, lemma_mul_bounded, scale8, scale8_spec, scaled,
};

verus! {

/// A color as red, green and blue channels of one byte each.
#[derive(Clone, Copy, Debug, PartialEq, Eq, Structural, Hash, Default)]
pub struct ColorRGB {
    /// Red component.
    pub r: u8,
    /// Green component.
    pub g: u8,
    /// Blue component.
    pub b: u8,
}

/// `a + b`, held at 255.
pub open spec fn sat_add8(a: u8, b: u8) -> u8 {
    if a + b > 255 {
        255
    } else {
        (a + b) as u8
    }
}

/// `a - b`, held at 0.
pub open spec fn sat_sub8(a: u8, b: u8) -> u8 {
    if a - b < 0 {
        0
    } else {
        (a - b) as u8
    }
}

/// The channel `c` of a pixel whose largest channel is `max`, after
/// stretching that largest channel to 255: `c * 255 / max`.
pub open spec fn stretched(c: u8, max: u8) -> u8 {
    if max == 0 {
        c
    } else {
        (c * 255 / max as int) as u8
    }
}

/// Stretching keeps every channel within a byte and takes the largest one to 255.
proof fn lemma_stretch_bounded(c: int, m: int)
    by (nonlinear_arith)
    requires
        0 <= c <= m,
        0 < m,
    ensures
        0 <= c * 255 / m <= 255,
        m * 255 / m == 255,
{
}

/// The larger of two bytes.
pub open spec fn max8(a: u8, b: u8) -> u8 {
    if a >= b {
        a
    } else {
        b
    }
}

/// The smaller of two bytes.
pub open spec fn min8(a: u8, b: u8) -> u8 {
    if a <= b {
        a
    } else {
        b
    }
}

/// Bits 16 to 23, 8 to 15 and 0 to 7 of a color code.
proof fn lemma_color_code_bytes(code: u32)
    by (bit_vector)
    ensures
        ((code >> 16) as u8) as u32 == (code / 0x10000) % 0x100,
        ((code >> 8) as u8) as u32 == (code / 0x100) % 0x100,
        (code as u8) as u32 == code % 0x100,
{
}

impl ColorRGB {
    /// Black: all channels zero.
    pub open spec fn black() -> ColorRGB {
        ColorRGB { r: 0, g: 0, b: 0 }
    }

    /// Every channel scaled by `s`.
    pub open spec fn scaled_by(self, s: u8) -> ColorRGB {
        ColorRGB { r: scale8_spec(self.r, s), g: scale8_spec(self.g, s), b: scale8_spec(self.b, s) }
    }

    /// Every channel raised by `k`, held at 255.
    pub open spec fn plus_const(self, k: u8) -> ColorRGB {
        ColorRGB { r: sat_add8(self.r, k), g: sat_add8(self.g, k), b: sat_add8(self.b, k) }
    }

    /// The channel-wise sum, held at 255.
    pub open spec fn plus(self, o: ColorRGB) -> ColorRGB {
        ColorRGB { r: sat_add8(self.r, o.r), g: sat_add8(self.g, o.g), b: sat_add8(self.b, o.b) }
    }

    /// The channel-wise difference, held at 0.
    pub open spec fn minus(self, o: ColorRGB) -> ColorRGB {
        ColorRGB { r: sat_sub8(self.r, o.r), g: sat_sub8(self.g, o.g), b: sat_sub8(self.b, o.b) }
    }

    /// The sum of the three channels.
    pub open spec fn channel_sum(self) -> int {
        self.r + self.g + self.b
    }

    /// Creates a color from its three channels.
    pub fn new(r: u8, g: u8, b: u8) -> (c: Self)
        ensures
            c == (ColorRGB { r, g, b }),
    {
        ColorRGB { r, g, b }
    }

    /// Creates a color from a 24-bit code: red in bits 16 to 23, green in bits
    /// 8 to 15, blue in bits 0 to 7.
    pub fn from_color_code(code: u32) -> (c: Self)
        ensures
            c.r == (code / 0x10000) % 0x100,
            c.g == (code / 0x100) % 0x100,
            c.b == code % 0x100,
    {
        proof {
            lemma_color_code_bytes(code);
        }
        ColorRGB { r: (code >> 16) as u8, g: (code >> 8) as u8, b: code as u8 }
    }

    /// Sets all channels to zero.
    pub fn clear(&mut self)
        ensures
            *final(self) == ColorRGB::black(),
    {
        *self = ColorRGB { r: 0, g: 0, b: 0 };
    }

    /// The red channel.
    pub fn red(self) -> (r: u8)
        ensures
            r == self.r,
    {
        self.r
    }

    /// The green channel.
    pub fn green(self) -> (g: u8)
        ensures
            g == self.g,
    {
        self.g
    }

    /// The blue channel.
    pub fn blue(self) -> (b: u8)
        ensures
            b == self.b,
    {
        self.b
    }

    /// Replaces each channel `c` by `f(c)`.
    pub fn modify_all<F: Fn(u8) -> u8>(&mut self, f: F)
        requires
            forall|c: u8| f.requires((c,)),
        ensures
            f.ensures((old(self).r,), final(self).r),
            f.ensures((old(self).g,), final(self).g),
            f.ensures((old(self).b,), final(self).b),
    {
        self.r = f(self.r);
        self.g = f(self.g);
        self.b = f(self.b);
    }

    /// Scales all three channels by `scale`.
    pub fn scale(&mut self, scale: u8)
        ensures
            *final(self) == old(self).scaled_by(scale),
    {
        self.r = scale8(self.r, scale);
        self.g = scale8(self.g, scale);
        self.b = scale8(self.b, scale);
    }

    /// Scales each channel by the matching channel of `other`.
    pub fn scale_from_other(&mut self, other: ColorRGB)
        ensures
            final(self).r == scale8_spec(old(self).r, other.r),
            final(self).g == scale8_spec(old(self).g, other.g),
            final(self).b == scale8_spec(old(self).b, other.b),
    {
        self.r = scale8(self.r, other.r);
        self.g = scale8(self.g, other.g);
        self.b = scale8(self.b, other.b);
    }

    /// Fades toward black by `fade`: scales by `255 - fade`.
    pub fn fade_to_black_by(&mut self, fade: u8)
        ensures
            *final(self) == old(self).scaled_by((255 - fade) as u8),
    {
        self.scale(255 - fade);
    }

    /// Stretches the color so that its largest channel becomes 255, keeping
    /// the ratio of the channels; black stays black.
    pub fn maximize_brightness(&mut self)
        ensures
            final(self).r == stretched(old(self).r, max8(old(self).r, max8(old(self).g, old(self).b))),
            final(self).g == stretched(old(self).g, max8(old(self).r, max8(old(self).g, old(self).b))),
            final(self).b == stretched(old(self).b, max8(old(self).r, max8(old(self).g, old(self).b))),
            max8(old(self).r, max8(old(self).g, old(self).b)) != 0 ==> max8(
                final(self).r,
                max8(final(self).g, final(self).b),
            ) == 255,
    {
        let gb: u8 = if self.g >= self.b {
            self.g
        } else {
            self.b
        };
        let maxi: u8 = if self.r >= gb {
            self.r
        } else {
            gb
        };
        if maxi == 0 {
            return ;
        }
        proof {
            lemma_stretch_bounded(self.r as int, maxi as int);
            lemma_stretch_bounded(self.g as int, maxi as int);
            lemma_stretch_bounded(self.b as int, maxi as int);
            lemma_stretch_bounded(maxi as int, maxi as int);
            lemma_mul_bounded(self.r as int, 255, 255, 255);
            lemma_mul_bounded(self.g as int, 255, 255, 255);
            lemma_mul_bounded(self.b as int, 255, 255, 255);
        }
        self.r = ((self.r as u16) * 255 / (maxi as u16)) as u8;
        self.g = ((self.g as u16) * 255 / (maxi as u16)) as u8;
        self.b = ((self.b as u16) * 255 / (maxi as u16)) as u8;
    }

    /// Perceived luminance: `scale8(r, 54) + scale8(g, 183) + scale8(b, 18)`.
    pub fn luma(self) -> (l: u8)
        ensures
            l == scaled(self.r as int, 54, 256) + scaled(self.g as int, 183, 256) + scaled(
                self.b as int,
                18,
                256,
            ),
    {
        proof {
            lemma_mul_bounded(self.r as int, 55, 255, 55);
            lemma_mul_bounded(self.g as int, 184, 255, 184);
            lemma_mul_bounded(self.b as int, 19, 255, 19);
        }
        let mut luma: u8 = 0;
        luma += scale8(self.r, 54);
        luma += scale8(self.g, 183);
        luma += scale8(self.b, 18);
        luma
    }

    /// The average of the channels: `scale8(c, 85)` summed over the channels.
    pub fn avg_light(self) -> (l: u8)
        ensures
            l == scaled(self.r as int, 85, 256) + scaled(self.g as int, 85, 256) + scaled(
                self.b as int,
                85,
                256,
            ),
    {
        proof {
            lemma_mul_bounded(self.r as int, 86, 255, 86);
            lemma_mul_bounded(self.g as int, 86, 255, 86);
            lemma_mul_bounded(self.b as int, 86, 255, 86);
        }
        let mut light: u8 = 0;
        light += scale8(self.r, 85);
        light += scale8(self.g, 85);
        light += scale8(self.b, 85);
        light
    }

    /// Blends toward `other` by `amount_of_other`, a fraction of 256: 0 keeps
    /// the color, 255 gives `other`.
    pub fn blend(&mut self, other: ColorRGB, amount_of_other: u8)
        ensures
            final(self).r == blended(old(self).r as int, other.r as int, amount_of_other as int, 256),
            final(self).g == blended(old(self).g as int, other.g as int, amount_of_other as int, 256),
            final(self).b == blended(old(self).b as int, other.b as int, amount_of_other as int, 256),
            amount_of_other == 0 ==> *final(self) == *old(self),
            amount_of_other == 255 ==> *final(self) == other,
    {
        if amount_of_other == 255 {
            proof {
                lemma_blend8_endpoints(self.r as int, other.r as int);
                lemma_blend8_endpoints(self.g as int, other.g as int);
                lemma_blend8_endpoints(self.b as int, other.b as int);
            }
            *self = other;
        } else if amount_of_other != 0 {
            self.r = blend8(self.r, other.r, amount_of_other);
            self.g = blend8(self.g, other.g, amount_of_other);
            self.b = blend8(self.b, other.b, amount_of_other);
        } else {
            proof {
                lemma_blend8_endpoints(self.r as int, other.r as int);
                lemma_blend8_endpoints(self.g as int, other.g as int);
                lemma_blend8_endpoints(self.b as int, other.b as int);
            }
        }
    }
}

/// `a * b`, held at 255.
pub open spec fn sat_mul8(a: u8, b: u8) -> u8 {
    if a * b > 255 {
        255
    } else {
        (a * b) as u8
    }
}

fn sat_mul_u8(a: u8, b: u8) -> (r: u8)
    ensures
        r == sat_mul8(a, b),
{
    proof {
        lemma_mul_bounded(a as int, b as int, 255, 255);
    }
    let p: u16 = (a as u16) * (b as u16);
    if p > 255 {
        255
    } else {
        p as u8
    }
}

impl std::ops::Add for ColorRGB {
    type Output = ColorRGB;

    /// Channel-wise sum, held at 255.
    fn add(self, other: ColorRGB) -> (c: ColorRGB)
        ensures
            c == self.plus(other),
    {
        let sum = uqadd8(uint8x4_t(self.r, self.g, self.b, 0), uint8x4_t(other.r, other.g, other.b, 0));
        ColorRGB { r: sum.0, g: sum.1, b: sum.2 }
    }
}

impl vstd::std_specs::ops::AddSpecImpl for ColorRGB {
    open spec fn obeys_add_spec() -> bool {
        true
    }

    open spec fn add_req(self, rhs: ColorRGB) -> bool {
        true
    }

    open spec fn add_spec(self, rhs: ColorRGB) -> ColorRGB {
        self.plus(rhs)
    }
}

impl std::ops::Sub for ColorRGB {
    type Output = ColorRGB;

    /// Channel-wise difference, held at 0.
    fn sub(self, other: ColorRGB) -> (c: ColorRGB)
        ensures
            c == self.minus(other),
    {
        let diff = uqsub8(uint8x4_t(self.r, self.g, self.b, 0), uint8x4_t(other.r, other.g, other.b, 0));
        ColorRGB { r: diff.0, g: diff.1, b: diff.2 }
    }
}

impl vstd::std_specs::ops::SubSpecImpl for ColorRGB {
    open spec fn obeys_sub_spec() -> bool {
        true
    }

    open spec fn sub_req(self, rhs: ColorRGB) -> bool {
        true
    }

    open spec fn sub_spec(self, rhs: ColorRGB) -> ColorRGB {
        self.minus(rhs)
    }
}

impl std::ops::Mul<u8> for ColorRGB {
    type Output = ColorRGB;

    /// Every channel multiplied by `rhs`, held at 255.
    fn mul(self, rhs: u8) -> (c: ColorRGB)
        ensures
            c == (ColorRGB { r: sat_mul8(self.r, rhs), g: sat_mul8(self.g, rhs), b: sat_mul8(self.b, rhs) }),
    {
        ColorRGB { r: sat_mul_u8(self.r, rhs), g: sat_mul_u8(self.g, rhs), b: sat_mul_u8(self.b, rhs) }
    }
}

impl vstd::std_specs::ops::MulSpecImpl<u8> for ColorRGB {
    open spec fn obeys_mul_spec() -> bool {
        true
    }

    open spec fn mul_req(self, rhs: u8) -> bool {
        true
    }

    open spec fn mul_spec(self, rhs: u8) -> ColorRGB {
        ColorRGB { r: sat_mul8(self.r, rhs), g: sat_mul8(self.g, rhs), b: sat_mul8(self.b, rhs) }
    }
}

impl std::ops::Div<u8> for ColorRGB {
    type Output = ColorRGB;

    /// Every channel divided by `rhs`, which must not be zero.
    fn div(self, rhs: u8) -> (c: ColorRGB) {
        ColorRGB { r: self.r / rhs, g: self.g / rhs, b: self.b / rhs }
    }
}

impl vstd::std_specs::ops::DivSpecImpl<u8> for ColorRGB {
    open spec fn obeys_div_spec() -> bool {
        true
    }

    open spec fn div_req(self, rhs: u8) -> bool {
        rhs != 0
    }

    open spec fn div_spec(self, rhs: u8) -> ColorRGB {
        ColorRGB { r: (self.r / rhs) as u8, g: (self.g / rhs) as u8, b: (self.b / rhs) as u8 }
    }
}

impl std::ops::Rem<u8> for ColorRGB {
    type Output = ColorRGB;

    /// Every channel modulo `rhs`, which must not be zero.
    fn rem(self, rhs: u8) -> (c: ColorRGB) {
        ColorRGB { r: self.r % rhs, g: self.g % rhs, b: self.b % rhs }
    }
}

impl vstd::std_specs::ops::RemSpecImpl<u8> for ColorRGB {
    open spec fn obeys_rem_spec() -> bool {
        true
    }

    open spec fn rem_req(self, rhs: u8) -> bool {
        rhs != 0
    }

    open spec fn rem_spec(self, rhs: u8) -> ColorRGB {
        ColorRGB { r: (self.r % rhs) as u8, g: (self.g % rhs) as u8, b: (self.b % rhs) as u8 }
    }
}

impl std::ops::BitAnd for ColorRGB {
    type Output = ColorRGB;

    /// Channel-wise minimum.
    fn bitand(self, other: ColorRGB) -> (c: ColorRGB) {
        ColorRGB {
            r: if self.r <= other.r { self.r } else { other.r },
            g: if self.g <= other.g { self.g } else { other.g },
            b: if self.b <= other.b { self.b } else { other.b },
        }
    }
}

impl vstd::std_specs::ops::BitAndSpecImpl for ColorRGB {
    open spec fn obeys_bitand_spec() -> bool {
        true
    }

    open spec fn bitand_req(self, rhs: ColorRGB) -> bool {
        true
    }

    open spec fn bitand_spec(self, rhs: ColorRGB) -> ColorRGB {
        ColorRGB { r: min8(self.r, rhs.r), g: min8(self.g, rhs.g), b: min8(self.b, rhs.b) }
    }
}

impl std::ops::BitOr for ColorRGB {
    type Output = ColorRGB;

    /// Channel-wise maximum.
    fn bitor(self, other: ColorRGB) -> (c: ColorRGB) {
        ColorRGB {
            r: if self.r >= other.r { self.r } else { other.r },
            g: if self.g >= other.g { self.g } else { other.g },
            b: if self.b >= other.b { self.b } else { other.b },
        }
    }
}

impl vstd::std_specs::ops::BitOrSpecImpl for ColorRGB {
    open spec fn obeys_bitor_spec() -> bool {
        true
    }

    open spec fn bitor_req(self, rhs: ColorRGB) -> bool {
        true
    }

    open spec fn bitor_spec(self, rhs: ColorRGB) -> ColorRGB {
        ColorRGB { r: max8(self.r, rhs.r), g: max8(self.g, rhs.g), b: max8(self.b, rhs.b) }
    }
}

impl std::ops::Neg for ColorRGB {
    type Output = ColorRGB;

    /// Every channel `c` replaced by `255 - c`.
    fn neg(self) -> (c: ColorRGB) {
        ColorRGB { r: 255 - self.r, g: 255 - self.g, b: 255 - self.b }
    }
}

impl vstd::std_specs::ops::NegSpecImpl for ColorRGB {
    open spec fn obeys_neg_spec() -> bool {
        true
    }

    open spec fn neg_req(self) -> bool {
        true
    }

    open spec fn neg_spec(self) -> ColorRGB {
        ColorRGB { r: (255 - self.r) as u8, g: (255 - self.g) as u8, b: (255 - self.b) as u8 }
    }
}

impl std::ops::Not for ColorRGB {
    type Output = bool;

    /// Whether any channel is lit.
    fn not(self) -> (lit: bool) {
        self.r != 0 || self.g != 0 || self.b != 0
    }
}

impl vstd::std_specs::ops::NotSpecImpl for ColorRGB {
    open spec fn obeys_not_spec() -> bool {
        true
    }

    open spec fn not_req(self) -> bool {
        true
    }

    open spec fn not_spec(self) -> bool {
        self.r != 0 || self.g != 0 || self.b != 0
    }
}

impl From<(u8, u8, u8)> for ColorRGB {
    fn from(other: (u8, u8, u8)) -> (c: ColorRGB) {
        ColorRGB::new(other.0, other.1, other.2)
    }
}

impl vstd::std_specs::convert::FromSpecImpl<(u8, u8, u8)> for ColorRGB {
    open spec fn obeys_from_spec() -> bool {
        true
    }

    open spec fn from_spec(v: (u8, u8, u8)) -> ColorRGB {
        ColorRGB { r: v.0, g: v.1, b: v.2 }
    }
}

impl From<u32> for ColorRGB {
    fn from(code: u32) -> (c: ColorRGB) {
        ColorRGB::from_color_code(code)
    }
}

impl vstd::std_specs::convert::FromSpecImpl<u32> for ColorRGB {
    open spec fn obeys_from_spec() -> bool {
        true
    }

    open spec fn from_spec(code: u32) -> ColorRGB {
        ColorRGB {
            r: ((code / 0x10000) % 0x100) as u8,
            g: ((code / 0x100) % 0x100) as u8,
            b: (code % 0x100) as u8,
        }
    }
}

impl std::ops::AddAssign for ColorRGB {
    /// Channel-wise sum, held at 255.
    fn add_assign(&mut self, rhs: ColorRGB)
        ensures
            *final(self) == old(self).plus(rhs),
    {
        *self = *self + rhs;
    }
}

impl std::ops::AddAssign<u8> for ColorRGB {
    /// Every channel raised by `rhs`, held at 255.
    fn add_assign(&mut self, rhs: u8)
        ensures
            *final(self) == old(self).plus_const(rhs),
    {
        *self = ColorRGB::new(self.r.saturating_add(rhs), self.g.saturating_add(rhs), self.b.saturating_add(rhs));
    }
}

impl std::ops::SubAssign for ColorRGB {
    /// Channel-wise difference, held at 0.
    fn sub_assign(&mut self, rhs: ColorRGB)
        ensures
            *final(self) == old(self).minus(rhs),
    {
        *self = *self - rhs;
    }
}

impl std::ops::SubAssign<u8> for ColorRGB {
    /// Every channel lowered by `rhs`, held at 0.
    fn sub_assign(&mut self, rhs: u8)
        ensures
            *final(self) == (ColorRGB {
                r: sat_sub8(old(self).r, rhs),
                g: sat_sub8(old(self).g, rhs),
                b: sat_sub8(old(self).b, rhs),
            }),
    {
        *self = ColorRGB::new(self.r.saturating_sub(rhs), self.g.saturating_sub(rhs), self.b.saturating_sub(rhs));
    }
}

impl std::ops::MulAssign<u8> for ColorRGB {
    /// Every channel multiplied by `rhs`, held at 255.
    fn mul_assign(&mut self, rhs: u8)
        ensures
            *final(self) == (ColorRGB {
                r: sat_mul8(old(self).r, rhs),
                g: sat_mul8(old(self).g, rhs),
                b: sat_mul8(old(self).b, rhs),
            }),
    {
        *self = *self * rhs;
    }
}

impl std::ops::BitOrAssign for ColorRGB {
    /// Channel-wise maximum.
    fn bitor_assign(&mut self, rhs: ColorRGB)
        ensures
            *final(self) == (ColorRGB {
                r: max8(old(self).r, rhs.r),
                g: max8(old(self).g, rhs.g),
                b: max8(old(self).b, rhs.b),
            }),
    {
        *self = *self | rhs;
    }
}

impl std::ops::BitOrAssign<u8> for ColorRGB {
    /// Every channel raised to at least `rhs`.
    fn bitor_assign(&mut self, rhs: u8)
        ensures
            *final(self) == (ColorRGB {
                r: max8(old(self).r, rhs),
                g: max8(old(self).g, rhs),
                b: max8(old(self).b, rhs),
            }),
    {
        *self = *self | ColorRGB::new(rhs, rhs, rhs);
    }
}

impl std::ops::BitAndAssign for ColorRGB {
    /// Channel-wise minimum.
    fn bitand_assign(&mut self, rhs: ColorRGB)
        ensures
            *final(self) == (ColorRGB {
                r: min8(old(self).r, rhs.r),
                g: min8(old(self).g, rhs.g),
                b: min8(old(self).b, rhs.b),
            }),
    {
        *self = *self & rhs;
    }
}

impl std::ops::BitAndAssign<u8> for ColorRGB {
    /// Every channel lowered to at most `rhs`.
    fn bitand_assign(&mut self, rhs: u8)
        ensures
            *final(self) == (ColorRGB {
                r: min8(old(self).r, rhs),
                g: min8(old(self).g, rhs),
                b: min8(old(self).b, rhs),
            }),
    {
        *self = *self & ColorRGB::new(rhs, rhs, rhs);
    }
}

impl From<[u8; 3]> for ColorRGB {
    fn from(other: [u8; 3]) -> (c: ColorRGB)
        ensures
            c == (ColorRGB { r: other@[0], g: other@[1], b: other@[2] }),
    {
        ColorRGB::new(other[0], other[1], other[2])
    }
}

impl vstd::std_specs::convert::FromSpecImpl<[u8; 3]> for ColorRGB {
    open spec fn obeys_from_spec() -> bool {
        true
    }

    open spec fn from_spec(v: [u8; 3]) -> ColorRGB {
        ColorRGB { r: v@[0], g: v@[1], b: v@[2] }
    }
}

/// The order of two colors by the sums of their channels.
pub open spec fn brightness_order(a: ColorRGB, b: ColorRGB) -> Ordering {
    if a.channel_sum() < b.channel_sum() {
        Ordering::Less
    } else if a.channel_sum() > b.channel_sum() {
        Ordering::Greater
    } else {
        Ordering::Equal
    }
}

impl PartialOrd for ColorRGB {
    /// Orders colors by the sums of their channels.
    fn partial_cmp(&self, other: &ColorRGB) -> (o: Option<Ordering>) {
        let lhs: u16 = (self.r as u16) + (self.g as u16) + (self.b as u16);
        let rhs: u16 = (other.r as u16) + (other.g as u16) + (other.b as u16);
        if lhs < rhs {
            Some(Ordering::Less)
        } else if lhs > rhs {
            Some(Ordering::Greater)
        } else {
            Some(Ordering::Equal)
        }
    }
}

impl vstd::std_specs::cmp::PartialOrdSpecImpl for ColorRGB {
    open spec fn obeys_partial_cmp_spec() -> bool {
        true
    }

    open spec fn partial_cmp_spec(&self, other: &ColorRGB) -> Option<Ordering> {
        Some(brightness_order(*self, *other))
    }
}

impl std::ops::DivAssign<u8> for ColorRGB {
    /// Every channel divided by `rhs`, which must not be zero.
    fn div_assign(&mut self, rhs: u8)
        requires
            rhs != 0,
        ensures
            *final(self) == (ColorRGB {
                r: (old(self).r / rhs) as u8,
                g: (old(self).g / rhs) as u8,
                b: (old(self).b / rhs) as u8,
            }),
    {
        *self = *self / rhs;
    }
}

impl std::ops::ShrAssign<u8> for ColorRGB {
    /// Every channel shifted right by `rhs`, which must be less than 8.
    fn shr_assign(&mut self, rhs: u8)
        requires
            rhs < 8,
        ensures
            *final(self) == (ColorRGB {
                r: old(self).r >> rhs,
                g: old(self).g >> rhs,
                b: old(self).b >> rhs,
            }),
    {
        *self = ColorRGB::new(self.r >> rhs, self.g >> rhs, self.b >> rhs);
    }
}

} // verus!
