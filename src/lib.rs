//! Fixed-point color math for addressable LED strips.
//!
//! Everything here works on 8, 16 and 32-bit integers only: scaling, dimming,
//! brightening and blending of channel values, a word-at-a-time byte scaler,
//! hue-to-RGB conversion, gradient and rainbow fills, and buffer-wide
//! operations such as fading and blurring. Each operation states its result
//! exactly in its contract.

pub mod batch;
pub mod color_util;
pub mod ext;
pub mod gradient;
pub mod hsv;
pub mod lerp;
pub mod prelude;
pub mod rgb;
pub mod scale;
pub mod trig;

pub use crate::batch::{aligned_split_u32, batch_scale, batch_scale_bytes, scale_post};
pub use crate::color_util::{
    ColorIterMut, GradientFill, GradientFillRGB, GradientFillRGBToInclusive,
    GradientFillToInclusive, RainbowFill, RainbowFillSingleCycle,
};
pub use crate::ext::{uint16x2_t, uint8x4_t, uqadd16, uqadd8, uqsub16, uqsub8};
pub use crate::gradient::{
    hsv_gradient, hsv_gradient_inclusive_end, rgb_gradient, rgb_gradient_inclusive_end,
    GradientDirection, HueDirection,
};
pub use crate::hsv::{hue2rgb_rainbow, FromHsv, HSV};
pub use crate::lerp::ThreePointLerp;
pub use crate::rgb::ColorRGB;
pub use crate::scale::{
    blend16, blend8, brighten16_lin, brighten16_raw, brighten16_video, brighten8_lin,
    brighten8_raw, brighten8_video, dim16_lin, dim16_raw, dim16_video, dim8_lin, dim8_raw,
    dim8_video, nscale16, nscale16x2, nscale16x3, nscale16x4, nscale8, nscale8x2, nscale8x3,
    nscale8x4, scale16, scale16_video, scale8, scale8_video, ScalingInt,
};
pub use crate::trig::{cos16, cos8, sin16, sin8, Trig};
