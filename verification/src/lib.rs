//! A library for converting, comparing, and performing arithmetic on colors.
//!
//! The red/green/blue channel model is the canonical representation: every
//! operation on it is specified exactly and proved. Hexadecimal text and the
//! flat key/value object text are the two serialized forms of a color.

/// Error values for component lookup, hexadecimal decoding and
/// channel arithmetic.
pub mod error;

/// Data structure for red, green, blue encoded colors.
pub mod rgb;

/// Array, tuple and vector conversions for `RGB` data structures.
pub mod convert;

/// Hexadecimal text conversion for `RGB` data structures.
pub mod hex_format;

/// Key/value object text conversion for `RGB` data structures.
pub mod json_format;
