//! Integer halves of the quantization schemes.
//!
//! Every function here is pure integer and bit arithmetic: the mapping
//! between spherical-harmonics degrees and coefficient counts, the step
//! rounding of quantized spherical harmonics, the 24-bit fixed-point byte
//! layout for positions, and the bit layout of the "smallest three"
//! quaternion word.

use vstd::prelude::*;

verus! {

/// Coefficient count stored per color channel for a spherical-harmonics
/// degree: 0, 3, 8 or 15; degrees above three carry nothing.
pub open spec fn spec_dim_for_degree(degree: u8) -> u8 {
    if degree == 1 {
        3
    } else if degree == 2 {
        8
    } else if degree == 3 {
        15
    } else {
        0
    }
}

/// Largest degree whose coefficients fit in `dim` slots.
pub open spec fn spec_degree_for_dim(dim: u8) -> u8 {
    if dim < 3 {
        0
    } else if dim < 8 {
        1
    } else if dim < 15 {
        2
    } else {
        3
    }
}

/// Degree stored in `dim` spherical-harmonics coefficients per channel.
pub fn degree_for_dim(dim: u8) -> (r: u8)
    ensures
        r == spec_degree_for_dim(dim),
{
    if dim < 3 {
        0
    } else if dim < 8 {
        1
    } else if dim < 15 {
        2
    } else {
        3
    }
}

/// Spherical-harmonics coefficients per channel for `degree`.
pub fn dim_for_degree(degree: u8) -> (r: u8)
    ensures
        r == spec_dim_for_degree(degree),
{
    match degree {
        0 => 0,
        1 => 3,
        2 => 8,
        3 => 15,
        _ => 0,
    }
}

/// The signed value held by a little-endian 24-bit fixed-point triplet:
/// the base-256 value of the three bytes, sign-extended.
pub open spec fn spec_fixed24_from_bytes(b0: u8, b1: u8, b2: u8) -> int {
    let m = b0 + 256 * b1 + 65536 * b2;
    if m >= 0x800000 {
        m - 0x1000000
    } else {
        m
    }
}

/// `v` clamped to the range a 24-bit signed integer can hold.
pub open spec fn spec_clamp_fixed24(v: int) -> int {
    if v < -0x800000 {
        -0x800000
    } else if v > 0x7fffff {
        0x7fffff
    } else {
        v
    }
}

/// Decodes one coordinate of a 24-bit fixed-point position triplet:
/// little-endian, sign-extended.
pub fn fixed24_from_bytes(b0: u8, b1: u8, b2: u8) -> (r: i32)
    ensures
        r == spec_fixed24_from_bytes(b0, b1, b2),
{
    let m: i32 = b0 as i32 + 256 * (b1 as i32) + 65536 * (b2 as i32);
    if m >= 0x800000 {
        m - 0x1000000
    } else {
        m
    }
}

/// Encodes one coordinate as a 24-bit fixed-point triplet, little-endian,
/// clamping to the representable range first.
pub fn fixed24_to_bytes(v: i32) -> (r: [u8; 3])
    ensures
        spec_fixed24_from_bytes(r[0], r[1], r[2]) == spec_clamp_fixed24(v as int),
{
    let c: i32 = if v < -0x800000 {
        -0x800000
    } else if v > 0x7fffff {
        0x7fffff
    } else {
        v
    };
    let m: i32 = if c < 0 {
        c + 0x1000000
    } else {
        c
    };
    let b0: u8 = (m % 256) as u8;
    let rest: i32 = m / 256;
    let b1: u8 = (rest % 256) as u8;
    let b2: u8 = (rest / 256) as u8;
    [b0, b1, b2]
}

/// The 32-bit "smallest three" quaternion word: the index of the largest
/// component in the top two bits, then the three 10-bit minor fields in
/// component order, highest first.
pub open spec fn spec_quat_word(i_largest: int, f0: int, f1: int, f2: int) -> int {
    i_largest * 0x40000000 + f0 * 0x100000 + f1 * 0x400 + f2
}

/// The base-256 value of four little-endian bytes.
pub open spec fn spec_word_from_bytes(b: Seq<u8>) -> int
    recommends
        b.len() >= 4,
{
    b[0] + 256 * b[1] + 65536 * b[2] + 16777216 * b[3]
}

/// Packs the "smallest three" quaternion fields into their four-byte
/// little-endian word.  Each 10-bit field carries a sign bit above a
/// 9-bit magnitude; their float meaning is the callers' business.
pub fn pack_quaternion_word(i_largest: u8, f0: u16, f1: u16, f2: u16) -> (r: [u8; 4])
    requires
        i_largest < 4,
        f0 < 1024,
        f1 < 1024,
        f2 < 1024,
    ensures
        spec_word_from_bytes(r@) == spec_quat_word(i_largest as int, f0 as int, f1 as int, f2 as int),
{
    let word: u32 = (i_largest as u32) * 0x40000000 + (f0 as u32) * 0x100000 + (f1 as u32) * 0x400
        + (f2 as u32);
    let b0: u8 = (word % 256) as u8;
    let rest1: u32 = word / 256;
    let b1: u8 = (rest1 % 256) as u8;
    let rest2: u32 = rest1 / 256;
    let b2: u8 = (rest2 % 256) as u8;
    let b3: u8 = (rest2 / 256) as u8;
    let r = [b0, b1, b2, b3];
    proof {
        assert(word == b0 + 256 * rest1);
        assert(rest1 == b1 + 256 * rest2);
        assert(rest2 == b2 + 256 * b3);
        assert(spec_word_from_bytes(r@) == word);
    }
    r
}

/// Unpacks the four-byte quaternion word into the largest-component
/// index and the three 10-bit minor fields, highest field first.
pub fn unpack_quaternion_word(r: &[u8]) -> (fields: (u8, u16, u16, u16))
    requires
        r@.len() >= 4,
    ensures
        ({
            let w = spec_word_from_bytes(r@);
            &&& fields.0 == w / 0x40000000
            &&& fields.1 == (w / 0x100000) % 0x400
            &&& fields.2 == (w / 0x400) % 0x400
            &&& fields.3 == w % 0x400
        }),
{
    let word: u32 = r[0] as u32 + 256 * (r[1] as u32) + 65536 * (r[2] as u32) + 16777216 * (r[3]
        as u32);
    let i_largest: u8 = (word / 0x40000000) as u8;
    let f0: u16 = ((word / 0x100000) % 0x400) as u16;
    let f1: u16 = ((word / 0x400) % 0x400) as u16;
    let f2: u16 = (word % 0x400) as u16;
    (i_largest, f0, f1, f2)
}

/// The quaternion word keeps each of its four fields exactly: packing and
/// unpacking are inverse on every in-range field set, so the rotation a
/// word carries is pinned down bit for bit.
pub proof fn lemma_quaternion_word_roundtrip(i_largest: u8, f0: u16, f1: u16, f2: u16)
    requires
        i_largest < 4,
        f0 < 1024,
        f1 < 1024,
        f2 < 1024,
    ensures
        ({
            let w = spec_quat_word(i_largest as int, f0 as int, f1 as int, f2 as int);
            &&& w / 0x40000000 == i_largest
            &&& (w / 0x100000) % 0x400 == f0
            &&& (w / 0x400) % 0x400 == f1
            &&& w % 0x400 == f2
        }),
{
    let w = spec_quat_word(i_largest as int, f0 as int, f1 as int, f2 as int);
    assert(w / 0x40000000 == i_largest && (w / 0x100000) % 0x400 == f0 && (w / 0x400) % 0x400 == f1
        && w % 0x400 == f2) by (nonlinear_arith)
        requires
            i_largest < 4,
            f0 < 1024,
            f1 < 1024,
            f2 < 1024,
            w == spec_quat_word(i_largest as int, f0 as int, f1 as int, f2 as int),
    ;
}

/// A quantized spherical-harmonics byte rounded down to a multiple of
/// `step` and clamped to the byte range, from the already-rounded
/// integer value `v`.
pub open spec fn spec_quantize_sh_rounded(v: int, step: int) -> int
    recommends
        step >= 1,
{
    if v < 0 {
        0
    } else if (v / step) * step > 255 {
        255
    } else {
        (v / step) * step
    }
}

/// Rounds the quantized spherical-harmonics value `v` down to a multiple
/// of `step` and clamps it to the byte range.
pub fn quantize_sh_rounded(v: i32, step: i32) -> (r: u8)
    requires
        step >= 1,
    ensures
        r == spec_quantize_sh_rounded(v as int, step as int),
{
    if v < 0 {
        0
    } else {
        proof {
            assert(0 <= (v / step) * step <= v) by (nonlinear_arith)
                requires
                    v >= 0,
                    step >= 1,
            ;
        }
        let q = (v / step) * step;
        if q > 255 {
            255
        } else {
            q as u8
        }
    }
}

/// Quantization step for the spherical-harmonics value at index `j`
/// within one point: the first nine values (the degree-1 band as rgb
/// triples) keep 5 bits of precision, a step of 8; the remaining bands
/// keep 4 bits, a step of 16.
pub open spec fn spec_sh_quantization_step(j: int) -> int {
    if j < 9 {
        8
    } else {
        16
    }
}

/// The quantization step for the spherical-harmonics value at per-point
/// index `j`.
pub fn sh_quantization_step(j: usize) -> (r: i32)
    ensures
        r == spec_sh_quantization_step(j as int),
{
    if j < 9 {
        8
    } else {
        16
    }
}

/// With a step of one the rounding is the identity on every byte value,
/// so unquantizing a stored coefficient and requantizing it at full
/// precision gives the byte back.
pub proof fn lemma_quantize_sh_step_one_identity(v: int)
    requires
        0 <= v <= 255,
    ensures
        spec_quantize_sh_rounded(v, 1) == v,
{
}

} // verus!
