//! Codec for the SPZ compact binary format for 3D Gaussian splat point
//! clouds.
//!
//! An SPZ file is a gzip-compressed stream holding a fixed 16-byte header
//! followed by six quantized attribute arrays laid out structure-of-arrays
//! style.  This crate covers the byte-level core of the codec: the header
//! and its validation, the packed structure-of-arrays representation with
//! its wire layout, the integer halves of the quantization schemes, the
//! coordinate-system model with its axis-flip derivation, and the gzip
//! wrapping of the payload.

pub mod compression;
pub mod consts;
pub mod coord;
pub mod errors;
pub mod header;
pub mod math;
pub mod packed;
pub mod text;
pub mod unpacked;
