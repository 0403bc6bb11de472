//! The packed structure-of-arrays representation and its wire layout.
//!
//! A packed splat holds the header-derived scalars and six quantized byte
//! arrays.  On disk the arrays follow the 16-byte header strictly in the
//! order positions, alphas, colors, scales, rotations, spherical
//! harmonics — a wire-format contract that differs from the struct's
//! field order and must not be reordered.

use crate::compression::{decompress_end, gunzip_of, gzip_of};
use crate::consts::{FLAG_ANTIALIASED, HEADER_SIZE, MAGIC_VALUE, PACKED_GAUSSIAN_HEADER_VERSION};
use crate::errors::SpzError;
use crate::header::{spec_header_bytes, spec_parse_header, Flags, PackedGaussiansHeader};
use crate::math::{dim_for_degree, spec_dim_for_degree};
use vstd::prelude::*;
use vstd::slice::{slice_subrange, slice_to_vec};

verus! {

/// One point's raw quantized bytes across all attributes, padded to the
/// widest layout: positions always take 9 slots, rotations 4, spherical
/// harmonics 15 per channel, whatever the file stores.
#[derive(Debug, Clone, PartialEq, Eq)]
pub struct PackedGaussian {
    /// Quantized position bytes; 6 or 9 are meaningful.
    pub position: [u8; 9],
    /// Packed rotation bytes; 3 or 4 are meaningful.
    pub rotation: [u8; 4],
    /// Log-encoded scale bytes.
    pub scale: [u8; 3],
    /// Quantized color bytes.
    pub color: [u8; 3],
    /// Quantized opacity byte.
    pub alpha: u8,
    /// Red spherical-harmonics coefficients; 128 encodes zero.
    pub sh_r: [u8; 15],
    /// Green spherical-harmonics coefficients.
    pub sh_g: [u8; 15],
    /// Blue spherical-harmonics coefficients.
    pub sh_b: [u8; 15],
}

impl Default for PackedGaussian {
    /// All-zero bytes, with spherical harmonics at the neutral 128.
    fn default() -> (r: PackedGaussian)
        ensures
            r.position@ == Seq::new(9, |j: int| 0u8),
            r.rotation@ == Seq::new(4, |j: int| 0u8),
            r.scale@ == Seq::new(3, |j: int| 0u8),
            r.color@ == Seq::new(3, |j: int| 0u8),
            r.alpha == 0,
            r.sh_r@ == Seq::new(15, |j: int| 128u8),
            r.sh_g@ == Seq::new(15, |j: int| 128u8),
            r.sh_b@ == Seq::new(15, |j: int| 128u8),
    {
        let r = PackedGaussian {
            position: [0, 0, 0, 0, 0, 0, 0, 0, 0],
            rotation: [0, 0, 0, 0],
            scale: [0, 0, 0],
            color: [0, 0, 0],
            alpha: 0,
            sh_r: [128, 128, 128, 128, 128, 128, 128, 128, 128, 128, 128, 128, 128, 128, 128],
            sh_g: [128, 128, 128, 128, 128, 128, 128, 128, 128, 128, 128, 128, 128, 128, 128],
            sh_b: [128, 128, 128, 128, 128, 128, 128, 128, 128, 128, 128, 128, 128, 128, 128],
        };
        proof {
            assert(r.position@ =~= Seq::new(9, |j: int| 0u8));
            assert(r.rotation@ =~= Seq::new(4, |j: int| 0u8));
            assert(r.scale@ =~= Seq::new(3, |j: int| 0u8));
            assert(r.color@ =~= Seq::new(3, |j: int| 0u8));
            assert(r.sh_r@ =~= Seq::new(15, |j: int| 128u8));
            assert(r.sh_g@ =~= Seq::new(15, |j: int| 128u8));
            assert(r.sh_b@ =~= Seq::new(15, |j: int| 128u8));
        }
        r
    }
}

/// The mathematical value of a [`PackedGaussians`]: its scalars over
/// `int` and its arrays as byte sequences.
#[verifier::ext_equal]
pub ghost struct PackedGaussiansView {
    pub num_points: int,
    pub sh_degree: int,
    pub fractional_bits: int,
    pub antialiased: bool,
    pub uses_quaternion_smallest_three: bool,
    pub positions: Seq<u8>,
    pub scales: Seq<u8>,
    pub rotations: Seq<u8>,
    pub alphas: Seq<u8>,
    pub colors: Seq<u8>,
    pub spherical_harmonics: Seq<u8>,
}

/// Compressed Gaussian splat collection in SPZ form: header-derived
/// scalars plus one contiguous quantized byte array per attribute.
#[derive(Debug, Clone, PartialEq)]
pub struct PackedGaussians {
    /// Total number of Gaussian splats; never negative when well formed.
    pub num_points: i32,
    /// Spherical-harmonics degree, 0 through 3.
    pub sh_degree: i32,
    /// Bits of the fractional part of fixed-point positions.
    pub fractional_bits: i32,
    /// Whether splats use mip-splatting antialiasing.
    pub antialiased: bool,
    /// Whether rotations use the smallest-three quaternion encoding
    /// (4 bytes per point) rather than the legacy 3-byte encoding.
    pub uses_quaternion_smallest_three: bool,
    /// Quantized positions, 6 or 9 bytes per splat.
    pub positions: Vec<u8>,
    /// Quantized log-scales, 3 bytes per splat.
    pub scales: Vec<u8>,
    /// Packed quaternion rotations, 3 or 4 bytes per splat.
    pub rotations: Vec<u8>,
    /// Quantized opacities, 1 byte per splat.
    pub alphas: Vec<u8>,
    /// Quantized RGB colors, 3 bytes per splat.
    pub colors: Vec<u8>,
    /// Quantized spherical harmonics, `3 × dim(sh_degree)` bytes per
    /// splat.
    pub spherical_harmonics: Vec<u8>,
}

impl View for PackedGaussians {
    type V = PackedGaussiansView;

    open spec fn view(&self) -> PackedGaussiansView {
        PackedGaussiansView {
            num_points: self.num_points as int,
            sh_degree: self.sh_degree as int,
            fractional_bits: self.fractional_bits as int,
            antialiased: self.antialiased,
            uses_quaternion_smallest_three: self.uses_quaternion_smallest_three,
            positions: self.positions@,
            scales: self.scales@,
            rotations: self.rotations@,
            alphas: self.alphas@,
            colors: self.colors@,
            spherical_harmonics: self.spherical_harmonics@,
        }
    }
}

/// Bytes per position on the wire: 6 as three float16 values, 9 as three
/// fixed-point triplets.
pub open spec fn spec_pos_width(uses_float16: bool) -> int {
    if uses_float16 {
        6
    } else {
        9
    }
}

/// Bytes per rotation on the wire: 4 for smallest-three, 3 for the
/// legacy first-three encoding.
pub open spec fn spec_rot_width(uses_quaternion_smallest_three: bool) -> int {
    if uses_quaternion_smallest_three {
        4
    } else {
        3
    }
}

/// Whether every array of `v` has exactly the length the wire layout
/// demands for `num_points` points with `sh_dim` spherical-harmonics
/// coefficients and the given position width.
pub open spec fn spec_check_sizes(
    v: PackedGaussiansView,
    num_points: int,
    sh_dim: int,
    uses_float16: bool,
) -> bool {
    &&& v.positions.len() == num_points * 3 * (if uses_float16 {
        2int
    } else {
        3int
    })
    &&& v.scales.len() == num_points * 3
    &&& v.rotations.len() == num_points * spec_rot_width(v.uses_quaternion_smallest_three)
    &&& v.alphas.len() == num_points
    &&& v.colors.len() == num_points * 3
    &&& v.spherical_harmonics.len() == num_points * sh_dim * 3
}

/// The header that serialization writes for `v`: always the current
/// version, with the antialiased bit as the only flag.
pub open spec fn spec_construct_header(v: PackedGaussiansView) -> PackedGaussiansHeader {
    PackedGaussiansHeader {
        magic: MAGIC_VALUE,
        version: PACKED_GAUSSIAN_HEADER_VERSION,
        num_points: v.num_points as i32,
        spherical_harmonics_degree: v.sh_degree as u8,
        fractional_bits: v.fractional_bits as u8,
        flags: Flags(if v.antialiased {
            FLAG_ANTIALIASED
        } else {
            0u8
        }),
        reserved: 0,
    }
}

/// The full uncompressed wire image of `v`: the 16-byte header, then the
/// arrays strictly in the on-disk order positions, alphas, colors,
/// scales, rotations, spherical harmonics.
pub open spec fn spec_packed_bytes(v: PackedGaussiansView) -> Seq<u8> {
    spec_header_bytes(spec_construct_header(v)) + v.positions + v.alphas + v.colors + v.scales
        + v.rotations + v.spherical_harmonics
}

/// The packed splat encoded in the uncompressed bytes `b`, or the exact
/// error `b` deserves: a magic, version or degree failure from the
/// header, or inconsistent sizes where `b` is too short for its own
/// header.
pub open spec fn spec_parse_packed(b: Seq<u8>) -> Result<PackedGaussiansView, SpzError> {
    if b.len() < HEADER_SIZE {
        Err(SpzError::InconsistentSizes)
    } else {
        let h = spec_parse_header(b);
        if h.magic != MAGIC_VALUE {
            Err(SpzError::InvalidMagicNumber)
        } else if h.version < 1 || h.version > 3 {
            Err(SpzError::UnsupportedVersion(h.version))
        } else if h.spherical_harmonics_degree > 3 {
            Err(SpzError::UnsupportedSphericalHarmonicsDegree(h.spherical_harmonics_degree))
        } else if h.num_points < 0 {
            Err(SpzError::InconsistentSizes)
        } else {
            let np = h.num_points as int;
            let uses_float16 = h.version == 1;
            let st3 = h.version >= 3;
            let sh_dim = spec_dim_for_degree(h.spherical_harmonics_degree) as int;
            let pos_len = np * 3 * (if uses_float16 {
                2int
            } else {
                3int
            });
            let alpha_len = np;
            let color_len = np * 3;
            let scale_len = np * 3;
            let rot_len = np * spec_rot_width(st3);
            let sh_len = np * sh_dim * 3;
            let o0 = HEADER_SIZE as int;
            let o1 = o0 + pos_len;
            let o2 = o1 + alpha_len;
            let o3 = o2 + color_len;
            let o4 = o3 + scale_len;
            let o5 = o4 + rot_len;
            let o6 = o5 + sh_len;
            if b.len() < o6 {
                Err(SpzError::InconsistentSizes)
            } else {
                Ok(
                    PackedGaussiansView {
                        num_points: np,
                        sh_degree: h.spherical_harmonics_degree as int,
                        fractional_bits: h.fractional_bits as int,
                        antialiased: h.flags.0 & FLAG_ANTIALIASED != 0,
                        uses_quaternion_smallest_three: st3,
                        positions: b.subrange(o0, o1),
                        alphas: b.subrange(o1, o2),
                        colors: b.subrange(o2, o3),
                        scales: b.subrange(o3, o4),
                        rotations: b.subrange(o4, o5),
                        spherical_harmonics: b.subrange(o5, o6),
                    },
                )
            }
        }
    }
}

/// The packed splat decoded from the gzip-compressed bytes `bytes`, or
/// the exact error: empty input, an input that is not a well-formed gzip
/// stream, or a decompressed wire image that does not parse.
pub open spec fn spec_from_bytes(bytes: Seq<u8>) -> Result<PackedGaussiansView, SpzError> {
    if bytes.len() == 0 {
        Err(SpzError::DataIsEmpty)
    } else if gunzip_of(bytes) is None {
        Err(SpzError::IoError)
    } else {
        spec_parse_packed(gunzip_of(bytes).unwrap())
    }
}

/// Copies `src[start .. start + len]` into a fresh vector.
fn copy_range(src: &[u8], start: usize, len: usize) -> (r: Vec<u8>)
    requires
        start + len <= src@.len(),
        src@.len() <= usize::MAX,
    ensures
        r@ == src@.subrange(start as int, start as int + len as int),
{
    slice_to_vec(slice_subrange(src, start, start + len))
}

impl PackedGaussians {
    /// Whether the scalar fields are in the ranges the header can carry.
    pub open spec fn spec_wf(self) -> bool {
        &&& 0 <= self.num_points
        &&& 0 <= self.sh_degree <= 3
        &&& 0 <= self.fractional_bits <= 255
    }

    /// Whether positions are stored as float16: exactly when the
    /// positions array holds 6 bytes per point rather than 9.
    pub open spec fn spec_uses_float16(self) -> bool {
        self.positions@.len() == self.num_points as int * 6
    }

    /// Returns `true` if positions are stored as float16.
    pub fn uses_float16(&self) -> (r: bool)
        requires
            self.num_points >= 0,
        ensures
            r == self.spec_uses_float16(),
    {
        self.positions.len() as u64 == self.num_points as u64 * 6
    }

    /// Validates that every internal array has exactly the length the
    /// layout demands for `num_points` points, `sh_dim` coefficients and
    /// the given position width.
    pub fn check_sizes(&self, num_points: usize, sh_dim: u8, uses_float16: bool) -> (r: bool)
        ensures
            r == spec_check_sizes(self@, num_points as int, sh_dim as int, uses_float16),
    {
        let np = num_points as u128;
        let pos_expected: u128 = if uses_float16 { np * 6 } else { np * 9 };
        let rot_expected: u128 = if self.uses_quaternion_smallest_three { np * 4 } else { np * 3 };
        proof {
            assert(np * (sh_dim as u128) * 3 <= 0xffffffffffffffff * 255 * 3) by (nonlinear_arith)
                requires
                    np <= 0xffffffffffffffff,
                    sh_dim <= 255,
            ;
        }
        let sh_expected: u128 = np * (sh_dim as u128) * 3;
        self.positions.len() as u128 == pos_expected && self.scales.len() as u128 == np * 3
            && self.rotations.len() as u128 == rot_expected && self.alphas.len() as u128 == np
            && self.colors.len() as u128 == np * 3 && self.spherical_harmonics.len() as u128
            == sh_expected
    }

    /// Constructs the SPZ header describing this packed data.
    pub fn construct_header(&self) -> (r: PackedGaussiansHeader)
        requires
            self.spec_wf(),
        ensures
            r == spec_construct_header(self@),
    {
        PackedGaussiansHeader {
            magic: MAGIC_VALUE,
            version: PACKED_GAUSSIAN_HEADER_VERSION,
            num_points: self.num_points,
            spherical_harmonics_degree: self.sh_degree as u8,
            fractional_bits: self.fractional_bits as u8,
            flags: Flags(if self.antialiased { FLAG_ANTIALIASED } else { 0 }),
            reserved: 0,
        }
    }

    /// Appends the full uncompressed wire image — header, then arrays in
    /// on-disk order — to `stream`.
    pub fn write_self_to(&self, stream: &mut Vec<u8>)
        requires
            self.spec_wf(),
        ensures
            final(stream)@ == old(stream)@ + spec_packed_bytes(self@),
    {
        let header = self.construct_header();
        header.serialize_to(stream);
        stream.extend_from_slice(self.positions.as_slice());
        stream.extend_from_slice(self.alphas.as_slice());
        stream.extend_from_slice(self.colors.as_slice());
        stream.extend_from_slice(self.scales.as_slice());
        stream.extend_from_slice(self.rotations.as_slice());
        stream.extend_from_slice(self.spherical_harmonics.as_slice());
        assert(final(stream)@ =~= old(stream)@ + spec_packed_bytes(self@));
    }

    /// Appends the full uncompressed wire image to `out`; the `Result`
    /// mirrors the streaming signature and is always `Ok`.
    pub fn serialize_packed_gaussians(&self, out: &mut Vec<u8>) -> (r: Result<(), SpzError>)
        requires
            self.spec_wf(),
        ensures
            r is Ok,
            final(out)@ == old(out)@ + spec_packed_bytes(self@),
    {
        self.write_self_to(out);
        Ok(())
    }

    /// The full uncompressed wire image as a fresh byte vector.
    pub fn as_bytes_vec(&self) -> (r: Result<Vec<u8>, SpzError>)
        requires
            self.spec_wf(),
        ensures
            r matches Ok(b) && b@ == spec_packed_bytes(self@),
    {
        let mut out = Vec::new();
        self.write_self_to(&mut out);
        Ok(out)
    }

    /// The spherical-harmonics byte of point `i`, coefficient `j`,
    /// channel `c`, with the neutral 128 where `j` lies beyond the
    /// file's coefficient count.
    fn sh_byte(&self, i: usize, j: usize, sh_dim: usize, c: usize) -> (r: u8)
        requires
            self.num_points >= 0,
            i < self.num_points,
            j < 15,
            c < 3,
            self.spherical_harmonics@.len() == self.num_points * sh_dim * 3,
        ensures
            j < sh_dim ==> r == self.spherical_harmonics@[(i * sh_dim + j) * 3 + c],
            j >= sh_dim ==> r == 128,
    {
        if j < sh_dim {
            let len = self.spherical_harmonics.len();
            proof {
                assert(i * sh_dim + j < self.num_points * sh_dim && i * sh_dim <= self.num_points
                    * sh_dim && (i * sh_dim + j) * 3 + c < self.num_points * sh_dim * 3)
                    by (nonlinear_arith)
                    requires
                        0 <= i < self.num_points,
                        j < sh_dim,
                        c < 3,
                ;
                assert(len == self.num_points * sh_dim * 3);
            }
            self.spherical_harmonics[(i * sh_dim + j) * 3 + c]
        } else {
            128
        }
    }

    /// The raw quantized bytes of the point at index `i`, padded to the
    /// widest layout: missing spherical-harmonics bytes default to the
    /// neutral 128, unused position and rotation slots to 0.
    pub fn at(&self, i: usize) -> (r: Result<PackedGaussian, SpzError>)
        requires
            self.spec_wf(),
            spec_check_sizes(
                self@,
                self.num_points as int,
                spec_dim_for_degree(self.sh_degree as u8) as int,
                self.spec_uses_float16(),
            ),
        ensures
            i >= self.num_points ==> r == Err::<PackedGaussian, SpzError>(
                SpzError::IndexOutOfBounds(i),
            ),
            i < self.num_points ==> (r matches Ok(g) && {
                let w = spec_pos_width(self.spec_uses_float16());
                let rw = spec_rot_width(self.uses_quaternion_smallest_three);
                let sh_dim = spec_dim_for_degree(self.sh_degree as u8) as int;
                &&& forall|j: int| 0 <= j < w ==> g.position@[j] == self.positions@[i * w + j]
                &&& forall|j: int| w <= j < 9 ==> g.position@[j] == 0
                &&& forall|j: int| 0 <= j < rw ==> g.rotation@[j] == self.rotations@[i * rw + j]
                &&& forall|j: int| rw <= j < 4 ==> g.rotation@[j] == 0
                &&& forall|j: int| 0 <= j < 3 ==> g.scale@[j] == self.scales@[i * 3 + j]
                &&& forall|j: int| 0 <= j < 3 ==> g.color@[j] == self.colors@[i * 3 + j]
                &&& g.alpha == self.alphas@[i as int]
                &&& forall|j: int|
                    0 <= j < sh_dim ==> g.sh_r@[j] == self.spherical_harmonics@[(i * sh_dim + j)
                        * 3] && g.sh_g@[j] == self.spherical_harmonics@[(i * sh_dim + j) * 3 + 1]
                        && g.sh_b@[j] == self.spherical_harmonics@[(i * sh_dim + j) * 3 + 2]
                &&& forall|j: int|
                    sh_dim <= j < 15 ==> g.sh_r@[j] == 128 && g.sh_g@[j] == 128 && g.sh_b@[j]
                        == 128
            }),
    {
        if i >= self.num_points as usize {
            return Err(SpzError::IndexOutOfBounds(i));
        }
        proof {
            assert(self.positions@.len() == self.positions.len());
            assert(self.rotations@.len() == self.rotations.len());
            assert(self.scales@.len() == self.scales.len());
            assert(self.colors@.len() == self.colors.len());
        }
        let position: [u8; 9] = if self.uses_float16() {
            let b = i * 6;
            [
                self.positions[b],
                self.positions[b + 1],
                self.positions[b + 2],
                self.positions[b + 3],
                self.positions[b + 4],
                self.positions[b + 5],
                0,
                0,
                0,
            ]
        } else {
            let b = i * 9;
            [
                self.positions[b],
                self.positions[b + 1],
                self.positions[b + 2],
                self.positions[b + 3],
                self.positions[b + 4],
                self.positions[b + 5],
                self.positions[b + 6],
                self.positions[b + 7],
                self.positions[b + 8],
            ]
        };
        let rotation: [u8; 4] = if self.uses_quaternion_smallest_three {
            let b = i * 4;
            [
                self.rotations[b],
                self.rotations[b + 1],
                self.rotations[b + 2],
                self.rotations[b + 3],
            ]
        } else {
            let b = i * 3;
            [self.rotations[b], self.rotations[b + 1], self.rotations[b + 2], 0]
        };
        let b3 = i * 3;
        let scale: [u8; 3] = [self.scales[b3], self.scales[b3 + 1], self.scales[b3 + 2]];
        let color: [u8; 3] = [self.colors[b3], self.colors[b3 + 1], self.colors[b3 + 2]];
        let alpha = self.alphas[i];
        let sh_dim = dim_for_degree(self.sh_degree as u8) as usize;
        let sh_r: [u8; 15] = [
            self.sh_byte(i, 0, sh_dim, 0),
            self.sh_byte(i, 1, sh_dim, 0),
            self.sh_byte(i, 2, sh_dim, 0),
            self.sh_byte(i, 3, sh_dim, 0),
            self.sh_byte(i, 4, sh_dim, 0),
            self.sh_byte(i, 5, sh_dim, 0),
            self.sh_byte(i, 6, sh_dim, 0),
            self.sh_byte(i, 7, sh_dim, 0),
            self.sh_byte(i, 8, sh_dim, 0),
            self.sh_byte(i, 9, sh_dim, 0),
            self.sh_byte(i, 10, sh_dim, 0),
            self.sh_byte(i, 11, sh_dim, 0),
            self.sh_byte(i, 12, sh_dim, 0),
            self.sh_byte(i, 13, sh_dim, 0),
            self.sh_byte(i, 14, sh_dim, 0),
        ];
        let sh_g: [u8; 15] = [
            self.sh_byte(i, 0, sh_dim, 1),
            self.sh_byte(i, 1, sh_dim, 1),
            self.sh_byte(i, 2, sh_dim, 1),
            self.sh_byte(i, 3, sh_dim, 1),
            self.sh_byte(i, 4, sh_dim, 1),
            self.sh_byte(i, 5, sh_dim, 1),
            self.sh_byte(i, 6, sh_dim, 1),
            self.sh_byte(i, 7, sh_dim, 1),
            self.sh_byte(i, 8, sh_dim, 1),
            self.sh_byte(i, 9, sh_dim, 1),
            self.sh_byte(i, 10, sh_dim, 1),
            self.sh_byte(i, 11, sh_dim, 1),
            self.sh_byte(i, 12, sh_dim, 1),
            self.sh_byte(i, 13, sh_dim, 1),
            self.sh_byte(i, 14, sh_dim, 1),
        ];
        let sh_b: [u8; 15] = [
            self.sh_byte(i, 0, sh_dim, 2),
            self.sh_byte(i, 1, sh_dim, 2),
            self.sh_byte(i, 2, sh_dim, 2),
            self.sh_byte(i, 3, sh_dim, 2),
            self.sh_byte(i, 4, sh_dim, 2),
            self.sh_byte(i, 5, sh_dim, 2),
            self.sh_byte(i, 6, sh_dim, 2),
            self.sh_byte(i, 7, sh_dim, 2),
            self.sh_byte(i, 8, sh_dim, 2),
            self.sh_byte(i, 9, sh_dim, 2),
            self.sh_byte(i, 10, sh_dim, 2),
            self.sh_byte(i, 11, sh_dim, 2),
            self.sh_byte(i, 12, sh_dim, 2),
            self.sh_byte(i, 13, sh_dim, 2),
            self.sh_byte(i, 14, sh_dim, 2),
        ];
        Ok(PackedGaussian { position, rotation, scale, color, alpha, sh_r, sh_g, sh_b })
    }

    /// Deserializes a packed splat from the uncompressed wire image `b`,
    /// with the exact typed error on every malformed input.
    pub fn from_uncompressed_bytes(b: &[u8]) -> (r: Result<PackedGaussians, SpzError>)
        ensures
            r matches Ok(p) ==> spec_parse_packed(b@) == Ok::<PackedGaussiansView, SpzError>(p@) && p.spec_wf(),
            r matches Ok(p) ==> spec_check_sizes(
                p@,
                p.num_points as int,
                spec_dim_for_degree(p.sh_degree as u8) as int,
                p.spec_uses_float16(),
            ),
            r matches Err(e) ==> spec_parse_packed(b@) == Err::<PackedGaussiansView, SpzError>(e),
    {
        let h = match PackedGaussiansHeader::read_from_unchecked(b) {
            Ok(h) => h,
            Err(e) => {
                return Err(e);
            },
        };
        if h.magic != MAGIC_VALUE {
            return Err(SpzError::InvalidMagicNumber);
        }
        if h.version < 1 || h.version > 3 {
            return Err(SpzError::UnsupportedVersion(h.version));
        }
        if h.spherical_harmonics_degree > 3 {
            return Err(SpzError::UnsupportedSphericalHarmonicsDegree(
                h.spherical_harmonics_degree,
            ));
        }
        if h.num_points < 0 {
            return Err(SpzError::InconsistentSizes);
        }
        let np = h.num_points as u64;
        let uses_float16 = h.version == 1;
        let st3 = h.version >= 3;
        let sh_dim = dim_for_degree(h.spherical_harmonics_degree) as u64;
        let pos_len: u64 = np * 3 * (if uses_float16 { 2 } else { 3 });
        let alpha_len: u64 = np;
        let color_len: u64 = np * 3;
        let scale_len: u64 = np * 3;
        let rot_len: u64 = np * (if st3 { 4 } else { 3 });
        proof {
            assert(np * sh_dim * 3 <= 0x80000000u64 * 45) by (nonlinear_arith)
                requires
                    np <= 0x80000000u64,
                    sh_dim <= 15,
            ;
        }
        let sh_len: u64 = np * sh_dim * 3;
        let total: u64 = HEADER_SIZE as u64 + pos_len + alpha_len + color_len + scale_len + rot_len
            + sh_len;
        if (b.len() as u64) < total {
            return Err(SpzError::InconsistentSizes);
        }
        let o0: usize = HEADER_SIZE;
        let o1: usize = o0 + pos_len as usize;
        let o2: usize = o1 + alpha_len as usize;
        let o3: usize = o2 + color_len as usize;
        let o4: usize = o3 + scale_len as usize;
        let o5: usize = o4 + rot_len as usize;
        let p = PackedGaussians {
            num_points: h.num_points,
            sh_degree: h.spherical_harmonics_degree as i32,
            fractional_bits: h.fractional_bits as i32,
            antialiased: h.flags.is_antialiased(),
            uses_quaternion_smallest_three: st3,
            positions: copy_range(b, o0, pos_len as usize),
            alphas: copy_range(b, o1, alpha_len as usize),
            colors: copy_range(b, o2, color_len as usize),
            scales: copy_range(b, o3, scale_len as usize),
            rotations: copy_range(b, o4, rot_len as usize),
            spherical_harmonics: copy_range(b, o5, sh_len as usize),
        };
        Ok(p)
    }

    /// Serializes this packed splat to its gzip-compressed byte stream,
    /// the form that SPZ files store.
    pub fn to_compressed_bytes(&self) -> (r: Result<Vec<u8>, SpzError>)
        requires
            self.spec_wf(),
        ensures
            r is Ok,
            r matches Ok(b) ==> b@ == gzip_of(spec_packed_bytes(self@)) && gunzip_of(b@) == Some(
                spec_packed_bytes(self@),
            ),
    {
        let uncompressed = self.as_bytes_vec()?;
        let mut compressed: Vec<u8> = Vec::new();
        match crate::compression::compress_bytes(uncompressed.as_slice(), &mut compressed) {
            Ok(()) => Ok(compressed),
            Err(e) => Err(e),
        }
    }

    /// Deserializes a packed splat from gzip-compressed bytes: fails on
    /// empty input, decompresses, and parses the wire image.
    pub fn from_bytes(bytes: &[u8]) -> (r: Result<PackedGaussians, SpzError>)
        ensures
            r matches Ok(p) ==> spec_from_bytes(bytes@) == Ok::<PackedGaussiansView, SpzError>(p@)
                && p.spec_wf(),
            r matches Err(e) ==> spec_from_bytes(bytes@) == Err::<PackedGaussiansView, SpzError>(
                e,
            ),
            r matches Ok(p) ==> spec_check_sizes(
                p@,
                p.num_points as int,
                spec_dim_for_degree(p.sh_degree as u8) as int,
                p.spec_uses_float16(),
            ),
    {
        if bytes.len() == 0 {
            return Err(SpzError::DataIsEmpty);
        }
        let mut decompressed: Vec<u8> = Vec::new();
        decompress_end(bytes, &mut decompressed)?;
        Self::from_uncompressed_bytes(decompressed.as_slice())
    }
}

/// Loads a packed splat from gzip-compressed bytes.
pub fn load_spz_packed(data: &[u8]) -> (r: Result<PackedGaussians, SpzError>)
    ensures
        r matches Ok(p) ==> spec_from_bytes(data@) == Ok::<PackedGaussiansView, SpzError>(p@)
            && p.spec_wf(),
        r matches Err(e) ==> spec_from_bytes(data@) == Err::<PackedGaussiansView, SpzError>(e),
        r matches Ok(p) ==> spec_check_sizes(
            p@,
            p.num_points as int,
            spec_dim_for_degree(p.sh_degree as u8) as int,
            p.spec_uses_float16(),
        ),
{
    PackedGaussians::from_bytes(data)
}

/// Serializing a well-formed packed splat and parsing the bytes back
/// yields the splat unchanged: the wire image loses nothing, for every
/// spherical-harmonics degree and point count.  This covers the splats
/// this crate writes, whose rotations use the smallest-three encoding
/// and whose positions are fixed-point.
pub proof fn lemma_packed_bytes_roundtrip(v: PackedGaussiansView)
    requires
        0 <= v.num_points <= i32::MAX,
        0 <= v.sh_degree <= 3,
        0 <= v.fractional_bits <= 255,
        v.uses_quaternion_smallest_three,
        spec_check_sizes(v, v.num_points, spec_dim_for_degree(v.sh_degree as u8) as int, false),
    ensures
        spec_parse_packed(spec_packed_bytes(v)) == Ok::<PackedGaussiansView, SpzError>(v),
{
    let h = spec_construct_header(v);
    let hb = spec_header_bytes(h);
    let b = spec_packed_bytes(v);
    assert(hb.len() == 16) by {
        vstd::bytes::lemma_auto_spec_u32_to_from_le_bytes();
    }
    crate::header::lemma_header_roundtrip(h);
    assert(b.subrange(0, 4) =~= hb.subrange(0, 4));
    assert(b.subrange(4, 8) =~= hb.subrange(4, 8));
    assert(b.subrange(8, 12) =~= hb.subrange(8, 12));
    assert(b[12] == hb[12] && b[13] == hb[13] && b[14] == hb[14] && b[15] == hb[15]);
    assert(spec_parse_header(b) == spec_parse_header(hb));
    assert(spec_parse_header(b) == h);
    assert(1u8 & FLAG_ANTIALIASED != 0) by (bit_vector);
    assert(0u8 & FLAG_ANTIALIASED == 0) by (bit_vector);
    let np = v.num_points;
    let sh_dim = spec_dim_for_degree(v.sh_degree as u8) as int;
    let pos_len = np * 9;
    let o0 = HEADER_SIZE as int;
    let o1 = o0 + pos_len;
    let o2 = o1 + np;
    let o3 = o2 + np * 3;
    let o4 = o3 + np * 3;
    let o5 = o4 + np * 4;
    let o6 = o5 + np * sh_dim * 3;
    assert(b.len() == o6);
    let parsed = spec_parse_packed(b).unwrap();
    assert(b.subrange(o0, o1) =~= v.positions);
    assert(b.subrange(o1, o2) =~= v.alphas);
    assert(b.subrange(o2, o3) =~= v.colors);
    assert(b.subrange(o3, o4) =~= v.scales);
    assert(b.subrange(o4, o5) =~= v.rotations);
    assert(b.subrange(o5, o6) =~= v.spherical_harmonics);
    assert(parsed =~= v);
}

} // verus!
