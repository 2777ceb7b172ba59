//! A codec-normalization layer for image decoding.
//!
//! The crate adapts a format-specific decoder (a PNG decoder) into one
//! format-agnostic decoding contract: header inspection, dimension and
//! colorspace queries, and full decoding into a canonical image value
//! whose pixel geometry always agrees with the metadata record produced
//! while reading the headers.

pub mod color;
pub mod deinterleave;
pub mod errors;
pub mod image;
pub mod metadata;
pub mod png;
pub mod traits;
