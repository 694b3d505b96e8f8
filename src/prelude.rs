//! The traits that give integers, buffers and pixels their methods.

pub use crate::color_util::{
    ColorIterMut, GradientFill, GradientFillRGB, GradientFillRGBToInclusive,
    GradientFillToInclusive, RainbowFill, RainbowFillSingleCycle,
};
pub use crate::hsv::FromHsv;
pub use crate::scale::ScalingInt;
pub use crate::trig::Trig;
