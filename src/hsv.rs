//! The HSV color and its conversions to RGB.

use vstd::prelude::*;

use crate::rgb::ColorRGB;
use crate::scale::{
    dim8_raw, lemma_mul_bounded, lemma_scale8_fixed_points, scale8, scale8_spec, scaled,
};

verus! {

/// A color as hue, saturation and value of one byte each; the hue is an angle
/// on the color wheel, 256 steps to the full turn.
#[derive(Clone, Copy, Debug, PartialEq, Eq, Structural, Hash, Default)]
pub struct HSV {
    pub h: u8,
    pub s: u8,
    pub v: u8,
}

/// The color with the given channels, each taken as a byte.
pub open spec fn rgb_of(r: int, g: int, b: int) -> ColorRGB {
    ColorRGB { r: r as u8, g: g as u8, b: b as u8 }
}

/// The rainbow color of `hue` at full saturation and value.
///
/// The wheel has eight sections of 32 hues; within a section two channels
/// ramp linearly between fixed shoulder values, so that red, orange, yellow,
/// green, aqua, blue, purple and pink get equal shares of the wheel.
pub open spec fn rainbow_hue(hue: u8) -> ColorRGB {
    let offset8 = (hue % 32) * 8;
    let third = scaled(offset8, 85, 256);
    let two_thirds = scaled(offset8, 170, 256);
    let section = hue / 32;
    if section == 0 {
        rgb_of(255 - third, third, 0)
    } else if section == 1 {
        rgb_of(171, 85 + third, 0)
    } else if section == 2 {
        rgb_of(171 - two_thirds, 170 + third, 0)
    } else if section == 3 {
        rgb_of(0, 255 - third, third)
    } else if section == 4 {
        rgb_of(0, 171 - two_thirds, 85 + two_thirds)
    } else if section == 5 {
        rgb_of(third, 0, 255 - third)
    } else if section == 6 {
        rgb_of(85 + third, 0, 171 - third)
    } else {
        rgb_of(170 + third, 0, 85 - third)
    }
}

/// The rainbow conversion of a full HSV color: white for no saturation, black
/// for no value; otherwise the hue's color scaled by the saturation, raised by
/// the desaturation floor `dim(255 - s)`, then scaled by the value.
pub open spec fn rainbow_rgb(hsv: HSV) -> ColorRGB {
    if hsv.s == 0 {
        rgb_of(255, 255, 255)
    } else if hsv.v == 0 {
        rgb_of(0, 0, 0)
    } else {
        let desat = (255 - hsv.s) as u8;
        rainbow_hue(hsv.h).scaled_by(hsv.s).plus_const(scale8_spec(desat, desat)).scaled_by(hsv.v)
    }
}

/// The spectrum conversion: three ramps of 64 hues each over a floor of
/// `v * (255 - s) / 256`.
pub open spec fn spectrum_rgb(hsv: HSV) -> ColorRGB {
    let floor = hsv.v * (255 - hsv.s) / 256;
    let amp = hsv.v - floor;
    let offset = hsv.h % 64;
    let up = offset * amp / 64 + floor;
    let down = (63 - offset) * amp / 64 + floor;
    let section = hsv.h / 64;
    if section == 0 {
        rgb_of(floor, down, up)
    } else if section == 1 {
        rgb_of(up, floor, down)
    } else {
        rgb_of(down, up, floor)
    }
}

proof fn lemma_full_scale_keeps(c: ColorRGB)
    ensures
        c.scaled_by(255) == c,
        c.plus_const(0) == c,
{
    lemma_scale8_fixed_points(c.r);
    lemma_scale8_fixed_points(c.g);
    lemma_scale8_fixed_points(c.b);
}

/// The rainbow color of `hue` at full saturation and value.
pub fn hue2rgb_rainbow(hue: u8) -> (c: ColorRGB)
    ensures
        c == rainbow_hue(hue),
{
    let offset8: u8 = (hue % 32) * 8;
    let third: u8 = scale8(offset8, 85);
    proof {
        lemma_mul_bounded(offset8 as int, 86, 248, 86);
    }
    let section: u8 = hue / 32;
    if section == 0 {
        ColorRGB::new(255 - third, third, 0)
    } else if section == 1 {
        ColorRGB::new(171, 85 + third, 0)
    } else if section == 2 {
        let two_thirds: u8 = scale8(offset8, 170);
        proof {
            lemma_mul_bounded(offset8 as int, 171, 248, 171);
        }
        ColorRGB::new(171 - two_thirds, 170 + third, 0)
    } else if section == 3 {
        ColorRGB::new(0, 255 - third, third)
    } else if section == 4 {
        let two_thirds: u8 = scale8(offset8, 170);
        proof {
            lemma_mul_bounded(offset8 as int, 171, 248, 171);
        }
        ColorRGB::new(0, 171 - two_thirds, 85 + two_thirds)
    } else if section == 5 {
        ColorRGB::new(third, 0, 255 - third)
    } else if section == 6 {
        ColorRGB::new(85 + third, 0, 171 - third)
    } else {
        ColorRGB::new(170 + third, 0, 85 - third)
    }
}

impl HSV {
    /// Creates a color from hue, saturation and value.
    pub fn new(h: u8, s: u8, v: u8) -> (c: Self)
        ensures
            c == (HSV { h, s, v }),
    {
        HSV { h, s, v }
    }

    /// The hue.
    pub fn hue(self) -> (h: u8)
        ensures
            h == self.h,
    {
        self.h
    }

    /// The saturation.
    pub fn saturation(self) -> (s: u8)
        ensures
            s == self.s,
    {
        self.s
    }

    /// The value.
    pub fn value(self) -> (v: u8)
        ensures
            v == self.v,
    {
        self.v
    }

    /// Converts to RGB on the visually balanced rainbow.
    pub fn to_rgb_rainbow(self) -> (c: ColorRGB)
        ensures
            c == rainbow_rgb(self),
    {
        if self.s == 0 {
            return ColorRGB::new(255, 255, 255);
        }
        if self.v == 0 {
            return ColorRGB::new(0, 0, 0);
        }
        let mut rgb: ColorRGB = hue2rgb_rainbow(self.h);
        if self.s != 255 {
            rgb.scale(self.s);
            let desat: u8 = 255 - self.s;
            let brightness_floor: u8 = dim8_raw(desat);
            rgb = ColorRGB::new(
                rgb.r.saturating_add(brightness_floor),
                rgb.g.saturating_add(brightness_floor),
                rgb.b.saturating_add(brightness_floor),
            );
        } else {
            proof {
                lemma_full_scale_keeps(rgb);
                lemma_scale8_fixed_points(0);
            }
        }
        if self.v != 255 {
            rgb.scale(self.v);
        } else {
            proof {
                lemma_full_scale_keeps(rgb);
            }
        }
        rgb
    }

    /// Converts to RGB on the mathematical spectrum, after scaling the value
    /// down to at most 191.
    pub fn to_rgb_spectrum(self) -> (c: ColorRGB)
        ensures
            c == spectrum_rgb(HSV { v: scale8_spec(self.v, 191), ..self }),
    {
        let hsv: HSV = HSV { h: self.h, s: self.s, v: scale8(self.v, 191) };
        hsv.to_rgb_raw()
    }

    /// Converts to RGB on the mathematical spectrum.
    ///
    /// The ramps are meant for values of at most 191; larger values still give
    /// a defined color, computed by the same formula.
    pub fn to_rgb_raw(self) -> (c: ColorRGB)
        ensures
            c == spectrum_rgb(self),
    {
        let value: u8 = self.v;
        let invsat: u8 = 255 - self.s;
        proof {
            lemma_mul_bounded(value as int, invsat as int, value as int, 255);
        }
        let brightness_floor: u8 = ((value as u16) * (invsat as u16) / 256) as u8;
        let color_amp: u8 = value - brightness_floor;
        let section: u8 = self.h / 64;
        let offset: u8 = self.h % 64;
        let rampup: u8 = offset;
        let rampdown: u8 = 63 - offset;
        proof {
            lemma_mul_bounded(rampup as int, color_amp as int, 63, color_amp as int);
            lemma_mul_bounded(rampdown as int, color_amp as int, 63, color_amp as int);
        }
        let rampup_amp_adj: u8 = ((rampup as u16) * (color_amp as u16) / 64) as u8;
        let rampdown_amp_adj: u8 = ((rampdown as u16) * (color_amp as u16) / 64) as u8;
        let rampup_adj_with_floor: u8 = rampup_amp_adj + brightness_floor;
        let rampdown_adj_with_floor: u8 = rampdown_amp_adj + brightness_floor;
        if section == 0 {
            ColorRGB::new(brightness_floor, rampdown_adj_with_floor, rampup_adj_with_floor)
        } else if section == 1 {
            ColorRGB::new(rampup_adj_with_floor, brightness_floor, rampdown_adj_with_floor)
        } else {
            ColorRGB::new(rampdown_adj_with_floor, rampup_adj_with_floor, brightness_floor)
        }
    }

    /// Sets the value to its maximum, 255.
    pub fn maximize_brightness(&mut self)
        ensures
            *final(self) == (HSV { v: 255, ..*old(self) }),
    {
        self.v = 255;
    }
}

/// A pixel type that an HSV color converts into; the fills write through it.
pub trait FromHsv: Sized {
    /// The pixel that `hsv` converts into.
    spec fn from_hsv_spec(hsv: HSV) -> Self;

    /// Converts `hsv` into a pixel.
    fn from_hsv(hsv: HSV) -> (r: Self)
        ensures
            r == Self::from_hsv_spec(hsv),
    ;
}

impl FromHsv for HSV {
    open spec fn from_hsv_spec(hsv: HSV) -> HSV {
        hsv
    }

    fn from_hsv(hsv: HSV) -> (r: HSV) {
        hsv
    }
}

impl FromHsv for ColorRGB {
    open spec fn from_hsv_spec(hsv: HSV) -> ColorRGB {
        rainbow_rgb(hsv)
    }

    fn from_hsv(hsv: HSV) -> (r: ColorRGB) {
        hsv.to_rgb_rainbow()
    }
}

impl From<HSV> for ColorRGB {
    fn from(hsv: HSV) -> (c: ColorRGB)
        ensures
            c == rainbow_rgb(hsv),
    {
        hsv.to_rgb_rainbow()
    }
}

impl vstd::std_specs::convert::FromSpecImpl<HSV> for ColorRGB {
    open spec fn obeys_from_spec() -> bool {
        true
    }

    open spec fn from_spec(v: HSV) -> ColorRGB {
        rainbow_rgb(v)
    }
}

impl From<(u8, u8, u8)> for HSV {
    fn from(other: (u8, u8, u8)) -> (c: HSV)
        ensures
            c == (HSV { h: other.0, s: other.1, v: other.2 }),
    {
        HSV::new(other.0, other.1, other.2)
    }
}

impl vstd::std_specs::convert::FromSpecImpl<(u8, u8, u8)> for HSV {
    open spec fn obeys_from_spec() -> bool {
        true
    }

    open spec fn from_spec(v: (u8, u8, u8)) -> HSV {
        HSV { h: v.0, s: v.1, v: v.2 }
    }
}

impl From<[u8; 3]> for HSV {
    fn from(other: [u8; 3]) -> (c: HSV)
        ensures
            c == (HSV { h: other@[0], s: other@[1], v: other@[2] }),
    {
        HSV::new(other[0], other[1], other[2])
    }
}

impl vstd::std_specs::convert::FromSpecImpl<[u8; 3]> for HSV {
    open spec fn obeys_from_spec() -> bool {
        true
    }

    open spec fn from_spec(v: [u8; 3]) -> HSV {
        HSV { h: v@[0], s: v@[1], v: v@[2] }
    }
}

} // verus!
