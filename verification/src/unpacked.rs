//! The integer core of the unpacked, full-precision data model.
//!
//! The unpacked splat itself holds `f32` arrays and lives with the float
//! pipeline outside this crate's verified core; what is verified here is
//! everything the model decides over plain integers: the exact array
//! lengths a point count and spherical-harmonics degree demand, and the
//! load and save configuration with the coordinate system to convert
//! from or to.

use crate::coord::CoordinateSystem;
use crate::math::spec_dim_for_degree;
use vstd::prelude::*;

verus! {

/// Whether the six attribute arrays of an unpacked splat have exactly
/// the lengths its point count and spherical-harmonics degree demand:
/// three positions, scales and colors per point, four rotation
/// components, one alpha, and `3 × dim(sh_degree)` spherical-harmonics
/// coefficients; a negative point count or a degree above three is
/// never valid.
pub open spec fn spec_splat_sizes_ok(
    num_points: int,
    sh_degree: int,
    positions_len: int,
    scales_len: int,
    rotations_len: int,
    alphas_len: int,
    colors_len: int,
    spherical_harmonics_len: int,
) -> bool {
    &&& num_points >= 0
    &&& 0 <= sh_degree <= 3
    &&& positions_len == num_points * 3
    &&& scales_len == num_points * 3
    &&& rotations_len == num_points * 4
    &&& alphas_len == num_points
    &&& colors_len == num_points * 3
    &&& spherical_harmonics_len == num_points * spec_dim_for_degree(sh_degree as u8) * 3
}

/// Validates the array lengths of an unpacked splat against its point
/// count and spherical-harmonics degree.
pub fn check_splat_sizes(
    num_points: i32,
    sh_degree: u8,
    positions_len: usize,
    scales_len: usize,
    rotations_len: usize,
    alphas_len: usize,
    colors_len: usize,
    spherical_harmonics_len: usize,
) -> (r: bool)
    ensures
        r == spec_splat_sizes_ok(
            num_points as int,
            sh_degree as int,
            positions_len as int,
            scales_len as int,
            rotations_len as int,
            alphas_len as int,
            colors_len as int,
            spherical_harmonics_len as int,
        ),
{
    if num_points < 0 {
        return false;
    }
    if sh_degree > 3 {
        return false;
    }
    let np = num_points as u128;
    let sh_expected: u128 = match sh_degree {
        0 => 0,
        1 => np * 9,
        2 => np * 24,
        _ => np * 45,
    };
    proof {
        let expected: int = num_points * spec_dim_for_degree(sh_degree as u8) * 3;
        if sh_degree == 0 {
            assert(expected == 0) by (nonlinear_arith)
                requires
                    expected == num_points * spec_dim_for_degree(sh_degree as u8) * 3,
                    spec_dim_for_degree(sh_degree as u8) == 0,
            ;
        } else if sh_degree == 1 {
            assert(expected == num_points * 9) by (nonlinear_arith)
                requires
                    expected == num_points * spec_dim_for_degree(sh_degree as u8) * 3,
                    spec_dim_for_degree(sh_degree as u8) == 3,
            ;
        } else if sh_degree == 2 {
            assert(expected == num_points * 24) by (nonlinear_arith)
                requires
                    expected == num_points * spec_dim_for_degree(sh_degree as u8) * 3,
                    spec_dim_for_degree(sh_degree as u8) == 8,
            ;
        } else {
            assert(expected == num_points * 45) by (nonlinear_arith)
                requires
                    expected == num_points * spec_dim_for_degree(sh_degree as u8) * 3,
                    spec_dim_for_degree(sh_degree as u8) == 15,
            ;
        }
    }
    positions_len as u128 == np * 3 && scales_len as u128 == np * 3 && rotations_len as u128 == np
        * 4 && alphas_len as u128 == np && colors_len as u128 == np * 3
        && spherical_harmonics_len as u128 == sh_expected
}

/// Options for loading a splat: the coordinate system the caller wants
/// the data converted to, from the format's internal Right-Up-Back.
#[derive(Debug, Clone, Copy, PartialEq, Eq, Structural)]
pub struct LoadOptions {
    /// The coordinate system to convert to when loading.
    pub coord_sys: CoordinateSystem,
}

impl Default for LoadOptions {
    /// Loads without conversion: the coordinate system is unspecified.
    fn default() -> (r: LoadOptions)
        ensures
            r.coord_sys is Unspecified,
    {
        LoadOptions { coord_sys: CoordinateSystem::Unspecified }
    }
}

impl LoadOptions {
    /// A builder starting from the unspecified coordinate system.
    pub fn builder() -> (r: LoadOptionsBuilder)
        ensures
            r.coord_sys is Unspecified,
    {
        LoadOptionsBuilder { coord_sys: CoordinateSystem::Unspecified }
    }
}

/// Builder for [`LoadOptions`].
#[derive(Debug, Clone, Copy, PartialEq, Eq, Structural)]
pub struct LoadOptionsBuilder {
    /// The target coordinate system chosen so far.
    pub coord_sys: CoordinateSystem,
}

impl LoadOptionsBuilder {
    /// Sets the target coordinate system.
    pub fn coord_sys(self, coord_sys: CoordinateSystem) -> (r: LoadOptionsBuilder)
        ensures
            r.coord_sys == coord_sys,
    {
        LoadOptionsBuilder { coord_sys }
    }

    /// Builds the [`LoadOptions`].
    pub fn build(self) -> (r: LoadOptions)
        ensures
            r.coord_sys == self.coord_sys,
    {
        LoadOptions { coord_sys: self.coord_sys }
    }
}

/// Options for saving a splat: the coordinate system the caller's data
/// is expressed in, converted to the format's internal Right-Up-Back
/// before quantization.
#[derive(Debug, Clone, Copy, PartialEq, Eq, Structural)]
pub struct SaveOptions {
    /// The coordinate system the data to save is expressed in.
    pub coord_sys: CoordinateSystem,
}

impl Default for SaveOptions {
    /// Saves without conversion: the coordinate system is unspecified.
    fn default() -> (r: SaveOptions)
        ensures
            r.coord_sys is Unspecified,
    {
        SaveOptions { coord_sys: CoordinateSystem::Unspecified }
    }
}

impl SaveOptions {
    /// A builder starting from the unspecified coordinate system.
    pub fn builder() -> (r: SaveOptionsBuilder)
        ensures
            r.coord_sys is Unspecified,
    {
        SaveOptionsBuilder { coord_sys: CoordinateSystem::Unspecified }
    }
}

/// Builder for [`SaveOptions`].
#[derive(Debug, Clone, Copy, PartialEq, Eq, Structural)]
pub struct SaveOptionsBuilder {
    /// The source coordinate system chosen so far.
    pub coord_sys: CoordinateSystem,
}

impl SaveOptionsBuilder {
    /// Sets the source coordinate system.
    pub fn coord_sys(self, coord_sys: CoordinateSystem) -> (r: SaveOptionsBuilder)
        ensures
            r.coord_sys == coord_sys,
    {
        SaveOptionsBuilder { coord_sys }
    }

    /// Builds the [`SaveOptions`].
    pub fn build(self) -> (r: SaveOptions)
        ensures
            r.coord_sys == self.coord_sys,
    {
        SaveOptions { coord_sys: self.coord_sys }
    }
}

} // verus!
