//! Pixel pipeline of a brightness previewer: strided downsampling, saturating
//! brightness adjustment and a luminance histogram, with the decisions of the
//! refresh cycle that drives them.

pub mod brightness;
pub mod downsample;
pub mod editor;
pub mod histogram;
pub mod input;
pub mod pixel;
