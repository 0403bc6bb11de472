//! Typed errors surfaced by the codec.

use vstd::prelude::*;

verus! {

/// Every failure of the codec, as a typed value.
///
/// Decode and parse operations fail fast: no partially built header or
/// splat is ever returned alongside one of these.
#[derive(Debug, Clone, Copy, PartialEq, Eq, Structural)]
pub enum SpzError {
    /// The input buffer was empty.
    DataIsEmpty,
    /// A position fixed-point scale of zero fractional bits was requested.
    InvalidFractionalBits(i32),
    /// A per-point access lay beyond the number of points.
    IndexOutOfBounds(usize),
    /// An underlying stream failed, for instance on invalid gzip data.
    IoError,
    /// The header does not open with the SPZ magic number.
    InvalidMagicNumber,
    /// An array's length does not match the point count and layout.
    InconsistentSizes,
    /// The header names a version this crate does not read.
    UnsupportedVersion(i32),
    /// The header names a spherical-harmonics degree above three.
    UnsupportedSphericalHarmonicsDegree(u8),
    /// A parsed header failed validation.
    HeaderInvalid,
}

impl SpzError {
    /// A short description of the error kind.
    pub fn describe(&self) -> (r: &'static str)
        ensures
            (*self is DataIsEmpty) ==> r@ == "data is empty"@,
            (*self is InvalidFractionalBits) ==> r@ == "invalid fractional bits"@,
            (*self is IndexOutOfBounds) ==> r@ == "index out of bounds"@,
            (*self is IoError) ==> r@ == "i/o error"@,
            (*self is InvalidMagicNumber) ==> r@ == "invalid magic number in packed gaussians header"@,
            (*self is InconsistentSizes) ==> r@ == "inconsistent sizes"@,
            (*self is UnsupportedVersion) ==> r@ == "unsupported version"@,
            (*self is UnsupportedSphericalHarmonicsDegree) ==> r@
                == "unsupported spherical harmonics degree"@,
            (*self is HeaderInvalid) ==> r@ == "header fails validation"@,
    {
        match self {
            SpzError::DataIsEmpty => "data is empty",
            SpzError::InvalidFractionalBits(_) => "invalid fractional bits",
            SpzError::IndexOutOfBounds(_) => "index out of bounds",
            SpzError::IoError => "i/o error",
            SpzError::InvalidMagicNumber => "invalid magic number in packed gaussians header",
            SpzError::InconsistentSizes => "inconsistent sizes",
            SpzError::UnsupportedVersion(_) => "unsupported version",
            SpzError::UnsupportedSphericalHarmonicsDegree(_) => {
                "unsupported spherical harmonics degree"
            },
            SpzError::HeaderInvalid => "header fails validation",
        }
    }
}

} // verus!
