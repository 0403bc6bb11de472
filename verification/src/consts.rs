//! Constants of the SPZ wire format.

use vstd::prelude::*;

verus! {

/// Magic number opening every SPZ file: "NGSP" read as a little-endian
/// 32-bit integer.
pub const MAGIC_VALUE: i32 = 0x5053474e;

/// Size of the fixed SPZ header in bytes.
pub const HEADER_SIZE: usize = 16;

/// Decompressed bytes to draw from the front of a compressed stream when
/// only the header is wanted: enough for the 16 header bytes, from a
/// compressed prefix of the file.
pub const COMPRESSED_BLOCK_READ_SIZE: usize = 512;

/// Wire-format version written by this crate.
pub const PACKED_GAUSSIAN_HEADER_VERSION: i32 = 3;

/// Bit of the header flags byte marking a splat trained with antialiasing.
pub const FLAG_ANTIALIASED: u8 = 0x1;

/// Upper bound on the point count a reader should accept.
pub const MAX_POINTS_TO_READ: i32 = 10_000_000;

/// The standard file extension of SPZ files.
pub const EXTENSION: &'static str = "spz";

/// MIME type registered for SPZ payloads.
pub const MIME_TYPE: &'static str = "application/x-spz";

/// MIME type for Gaussian splat models in general.
pub const MIME_MODEL: &'static str = "model/x-gaussian-splat";

/// Standard file extensions for SPZ files.
#[derive(Debug, Clone, Copy, PartialEq, Eq, Hash, Structural)]
pub enum Extensions {
    SPZ,
}

impl Extensions {
    /// The extension as it appears at the end of a file name.
    pub fn as_str(&self) -> (r: &'static str)
        ensures
            r@ == "spz"@,
    {
        match self {
            Extensions::SPZ => "spz",
        }
    }
}

} // verus!
