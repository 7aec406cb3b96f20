//! Relative luminance of linear-light RGB colors, after ITU-R BT.709.
//!
//! The luminance of a color is the weighted sum of its three channels,
//! `r * 0.2126 + g * 0.7152 + b * 0.0722`. It tells whether a color looks
//! light or dark whatever its hue, which is what one needs to know to put
//! readable text on it.
//!
//! The arithmetic is generic: a [`LuminanceValue`] names the numeric types
//! and the three weights of one numeric family, and [`relative_luminance`]
//! computes the sum over them. A color type of any shape takes part by
//! implementing [`Luminance`], which asks only for a conversion into an
//! [`Rgb`] of already normalized channels.
//!
//! Every contract is stated over [`weighted_sum`], the sum as the operators'
//! own specifications give it, taken in the order in which it is computed.
pub mod fixed;
pub mod policy;
pub mod rgb;

pub use policy::{faithful, relative_luminance, representable, weighted_sum, LuminanceValue};
pub use rgb::{Luminance, Rgb};
