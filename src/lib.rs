//! A fixed-point colour engine: canonical CIE XYZ colours and the conversions to
//! and from 8-bit sRGB, HSV and correlated colour temperature.
//!
//! Every scalar is an integer number of billionths, so that each conversion is
//! exact integer arithmetic with a stated rounding, and is verified.
pub mod color;
pub mod hsv;
pub mod rgb;
pub mod scalar;
pub mod temperature;
pub mod transfer;
