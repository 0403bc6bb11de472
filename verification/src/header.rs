//! The fixed 16-byte header that opens every SPZ file.
//!
//! The header is encoded field by field, little-endian throughout, so the
//! layout is independent of host struct padding.  Parsing never implies
//! validity: [`PackedGaussiansHeader::is_valid`] is a separate check, and
//! the `read_from` and `from_compressed_bytes` operations combine the two.

use crate::compression::{decompress_prefix, gunzip_prefix_of};
use crate::consts::{COMPRESSED_BLOCK_READ_SIZE, FLAG_ANTIALIASED, HEADER_SIZE, MAGIC_VALUE, PACKED_GAUSSIAN_HEADER_VERSION};
use crate::errors::SpzError;
use crate::text::{bool_str, push_decimal_i32, push_udecimal, spec_decimal_i32, spec_udecimal};
use vstd::bytes::{lemma_auto_spec_u32_to_from_le_bytes, spec_u32_from_le_bytes, spec_u32_to_le_bytes, u32_from_le_bytes};
use vstd::prelude::*;
use vstd::slice::slice_subrange;

verus! {

/// A bit field of SPZ header flags; only bit 0 (antialiased) is defined.
#[derive(Debug, Clone, Copy, PartialEq, Eq, Hash, Structural)]
pub struct Flags(pub u8);

impl Flags {
    /// A flags byte with no flags set.
    pub fn none() -> (r: Flags)
        ensures
            r.0 == 0,
    {
        Flags(0)
    }

    /// Whether bit 0, the antialiased flag, is set.
    pub open spec fn spec_is_antialiased(self) -> bool {
        self.0 & FLAG_ANTIALIASED != 0
    }

    /// Whether the splat was trained with antialiasing.
    pub fn is_antialiased(&self) -> (r: bool)
        ensures
            r == self.spec_is_antialiased(),
    {
        (self.0 & FLAG_ANTIALIASED) != 0
    }

    /// Whether only defined flag bits are set.
    pub open spec fn spec_flags_valid(self) -> bool {
        self.0 & !FLAG_ANTIALIASED == 0
    }

    /// Checks that no undefined flag bit is set.
    pub fn is_valid(&self) -> (r: bool)
        ensures
            r == self.spec_flags_valid(),
    {
        (self.0 & !FLAG_ANTIALIASED) == 0
    }
}

impl Default for Flags {
    fn default() -> (r: Flags)
        ensures
            r.0 == 0,
    {
        Flags(0)
    }
}

/// The 16-byte metadata block prefixing every SPZ file.
#[derive(Debug, Clone, Copy, PartialEq, Eq, Structural)]
pub struct PackedGaussiansHeader {
    /// Always [`MAGIC_VALUE`], "NGSP" little-endian.
    pub magic: i32,
    /// Wire-format version; only 2 and 3 pass validation.
    pub version: i32,
    /// Number of gaussians; never negative in a valid header.
    pub num_points: i32,
    /// Spherical-harmonics degree, 0 through 3.
    pub spherical_harmonics_degree: u8,
    /// Bits of the fractional part in the fixed-point position encoding.
    pub fractional_bits: u8,
    /// Flag bits; see [`Flags`].
    pub flags: Flags,
    /// Reserved; must be 0.
    pub reserved: u8,
}

/// The 16 bytes that `h` serializes to: three little-endian 32-bit words
/// followed by four single bytes.
pub open spec fn spec_header_bytes(h: PackedGaussiansHeader) -> Seq<u8> {
    spec_u32_to_le_bytes(h.magic as u32) + spec_u32_to_le_bytes(h.version as u32)
        + spec_u32_to_le_bytes(h.num_points as u32)
        + seq![h.spherical_harmonics_degree, h.fractional_bits, h.flags.0, h.reserved]
}

/// The header read from the first 16 bytes of `b`.
pub open spec fn spec_parse_header(b: Seq<u8>) -> PackedGaussiansHeader
    recommends
        b.len() >= HEADER_SIZE,
{
    PackedGaussiansHeader {
        magic: spec_u32_from_le_bytes(b.subrange(0, 4)) as i32,
        version: spec_u32_from_le_bytes(b.subrange(4, 8)) as i32,
        num_points: spec_u32_from_le_bytes(b.subrange(8, 12)) as i32,
        spherical_harmonics_degree: b[12],
        fractional_bits: b[13],
        flags: Flags(b[14]),
        reserved: b[15],
    }
}

/// Parsing inverts serialization: every header comes back from its own 16
/// bytes unchanged, so a valid header also round-trips with its validity,
/// reserved byte included.
pub proof fn lemma_header_roundtrip(h: PackedGaussiansHeader)
    ensures
        spec_parse_header(spec_header_bytes(h)) == h,
{
    lemma_auto_spec_u32_to_from_le_bytes();
    let b = spec_header_bytes(h);
    assert(b.subrange(0, 4) =~= spec_u32_to_le_bytes(h.magic as u32));
    assert(b.subrange(4, 8) =~= spec_u32_to_le_bytes(h.version as u32));
    assert(b.subrange(8, 12) =~= spec_u32_to_le_bytes(h.num_points as u32));
    let m = h.magic;
    let v = h.version;
    let n = h.num_points;
    assert((m as u32) as i32 == m) by (bit_vector);
    assert((v as u32) as i32 == v) by (bit_vector);
    assert((n as u32) as i32 == n) by (bit_vector);
    assert(spec_parse_header(b) == h);
}

/// The header that one bounded decompressing read of `c` yields, or the
/// exact error: a failed read, or fewer than 16 decompressed bytes.
pub open spec fn spec_header_from_compressed_unchecked(c: Seq<u8>) -> Result<
    PackedGaussiansHeader,
    SpzError,
> {
    match gunzip_prefix_of(c, COMPRESSED_BLOCK_READ_SIZE as nat) {
        None => Err(SpzError::IoError),
        Some(d) => if d.len() < HEADER_SIZE {
            Err(SpzError::InconsistentSizes)
        } else {
            Ok(spec_parse_header(d))
        },
    }
}

/// As [`spec_header_from_compressed_unchecked`], with validation: a
/// header that parses but fails validation is rejected.
pub open spec fn spec_header_from_compressed(c: Seq<u8>) -> Result<
    PackedGaussiansHeader,
    SpzError,
> {
    match spec_header_from_compressed_unchecked(c) {
        Err(e) => Err(e),
        Ok(h) => if !h.spec_is_valid() {
            Err(SpzError::HeaderInvalid)
        } else {
            Ok(h)
        },
    }
}

impl PackedGaussiansHeader {
    /// Whether the header passes basic validation: the magic number
    /// matches, the version is 2 or 3, the spherical-harmonics degree is
    /// at most 3, the point count is non-negative, no undefined flag bit
    /// is set, and the reserved byte is 0.
    pub open spec fn spec_is_valid(self) -> bool {
        &&& self.magic == MAGIC_VALUE
        &&& (self.version == 2 || self.version == 3)
        &&& self.spherical_harmonics_degree <= 3
        &&& self.num_points >= 0
        &&& self.flags.spec_flags_valid()
        &&& self.reserved == 0
    }

    /// Does some basic validation of this header.
    pub fn is_valid(&self) -> (r: bool)
        ensures
            r == self.spec_is_valid(),
    {
        self.magic == MAGIC_VALUE && (self.version == 2 || self.version == 3)
            && self.spherical_harmonics_degree <= 3 && self.num_points >= 0
            && self.flags.is_valid() && self.reserved == 0
    }

    /// Appends this header's 16 serialized bytes to `stream`.
    pub fn serialize_to(&self, stream: &mut Vec<u8>)
        ensures
            final(stream)@ == old(stream)@ + spec_header_bytes(*self),
            final(stream)@.len() == old(stream)@.len() + HEADER_SIZE,
    {
        proof {
            lemma_auto_spec_u32_to_from_le_bytes();
        }
        let magic_bits: u32 = #[verifier::truncate] (self.magic as u32);
        let version_bits: u32 = #[verifier::truncate] (self.version as u32);
        let num_points_bits: u32 = #[verifier::truncate] (self.num_points as u32);
        let mut word = vstd::bytes::u32_to_le_bytes(magic_bits);
        stream.append(&mut word);
        let mut word = vstd::bytes::u32_to_le_bytes(version_bits);
        stream.append(&mut word);
        let mut word = vstd::bytes::u32_to_le_bytes(num_points_bits);
        stream.append(&mut word);
        stream.push(self.spherical_harmonics_degree);
        stream.push(self.fractional_bits);
        stream.push(self.flags.0);
        stream.push(self.reserved);
        assert(final(stream)@ =~= old(stream)@ + spec_header_bytes(*self));
    }

    /// This header's 16 serialized bytes.
    pub fn serialize(&self) -> (r: Vec<u8>)
        ensures
            r@ == spec_header_bytes(*self),
            r@.len() == HEADER_SIZE,
    {
        let mut out = Vec::new();
        self.serialize_to(&mut out);
        out
    }

    /// Reads a header from the first 16 bytes of `bytes` without
    /// validating it; errs only when fewer than 16 bytes are given.
    pub fn read_from_unchecked(bytes: &[u8]) -> (r: Result<PackedGaussiansHeader, SpzError>)
        ensures
            bytes@.len() >= HEADER_SIZE ==> r == Ok::<_, SpzError>(spec_parse_header(bytes@)),
            bytes@.len() < HEADER_SIZE ==> r == Err::<PackedGaussiansHeader, _>(
                SpzError::InconsistentSizes,
            ),
    {
        if bytes.len() < HEADER_SIZE {
            return Err(SpzError::InconsistentSizes);
        }
        let magic_bits = u32_from_le_bytes(slice_subrange(bytes, 0, 4));
        let version_bits = u32_from_le_bytes(slice_subrange(bytes, 4, 8));
        let num_points_bits = u32_from_le_bytes(slice_subrange(bytes, 8, 12));
        let h = PackedGaussiansHeader {
            magic: #[verifier::truncate] (magic_bits as i32),
            version: #[verifier::truncate] (version_bits as i32),
            num_points: #[verifier::truncate] (num_points_bits as i32),
            spherical_harmonics_degree: bytes[12],
            fractional_bits: bytes[13],
            flags: Flags(bytes[14]),
            reserved: bytes[15],
        };
        Ok(h)
    }

    /// Reads a header from the first 16 bytes of `bytes` and validates it.
    pub fn read_from(bytes: &[u8]) -> (r: Result<PackedGaussiansHeader, SpzError>)
        ensures
            r == (if bytes@.len() < HEADER_SIZE {
                Err::<PackedGaussiansHeader, SpzError>(SpzError::InconsistentSizes)
            } else if !spec_parse_header(bytes@).spec_is_valid() {
                Err::<PackedGaussiansHeader, SpzError>(SpzError::HeaderInvalid)
            } else {
                Ok::<PackedGaussiansHeader, SpzError>(spec_parse_header(bytes@))
            }),
    {
        let h = Self::read_from_unchecked(bytes)?;
        if !h.is_valid() {
            return Err(SpzError::HeaderInvalid);
        }
        Ok(h)
    }

    /// Decompresses `compressed` and reads the header from the first 16
    /// decompressed bytes, without validating it.  One bounded read is
    /// enough, so a compressed prefix of a large file serves as well as
    /// the whole stream.
    pub fn from_compressed_bytes_unchecked(compressed: &[u8]) -> (r: Result<
        PackedGaussiansHeader,
        SpzError,
    >)
        ensures
            r == spec_header_from_compressed_unchecked(compressed@),
    {
        let decompressed = decompress_prefix(compressed, COMPRESSED_BLOCK_READ_SIZE)?;
        Self::read_from_unchecked(decompressed.as_slice())
    }

    /// Decompresses `compressed` and reads a validated header from it.
    pub fn from_compressed_bytes(compressed: &[u8]) -> (r: Result<PackedGaussiansHeader, SpzError>)
        ensures
            r == spec_header_from_compressed(compressed@),
    {
        let h = Self::from_compressed_bytes_unchecked(compressed)?;
        if !h.is_valid() {
            return Err(SpzError::HeaderInvalid);
        }
        Ok(h)
    }

    /// What [`PackedGaussiansHeader::display_string`] renders.
    pub open spec fn spec_display_string(self) -> Seq<char> {
        "Header={ver=v"@ + spec_decimal_i32(self.version as int) + ", n_pts="@
            + spec_decimal_i32(self.num_points as int) + ", sh_deg="@ + spec_udecimal(
            self.spherical_harmonics_degree as nat,
        ) + ", fractional_bits="@ + spec_udecimal(self.fractional_bits as nat) + ", antialiased="@
            + (if self.flags.spec_is_antialiased() {
            "true"@
        } else {
            "false"@
        }) + "}"@
    }

    /// A one-line rendering of the header for logs, such as
    /// `Header={ver=v3, n_pts=0, sh_deg=0, fractional_bits=12, antialiased=false}`.
    pub fn display_string(&self) -> (r: String)
        ensures
            r@ == self.spec_display_string(),
    {
        let mut out = String::new();
        out.append("Header={ver=v");
        push_decimal_i32(self.version, &mut out);
        out.append(", n_pts=");
        push_decimal_i32(self.num_points, &mut out);
        out.append(", sh_deg=");
        push_udecimal(self.spherical_harmonics_degree as u64, &mut out);
        out.append(", fractional_bits=");
        push_udecimal(self.fractional_bits as u64, &mut out);
        out.append(", antialiased=");
        out.append(bool_str(self.flags.is_antialiased()));
        out.append("}");
        assert(out@ =~= self.spec_display_string());
        out
    }

    /// What [`PackedGaussiansHeader::pretty_fmt`] renders.
    pub open spec fn spec_pretty_fmt(self) -> Seq<char> {
        "GaussianSplat Header:\n\tNumber of points:\t\t"@ + spec_decimal_i32(
            self.num_points as int,
        ) + "\n\tSpherical harmonics degree:\t"@ + spec_udecimal(
            self.spherical_harmonics_degree as nat,
        ) + "\n\tAntialiased:\t\t\t"@ + (if self.flags.spec_is_antialiased() {
            "true"@
        } else {
            "false"@
        }) + "\n"@
    }

    /// A human-readable multi-line report of the header: point count,
    /// spherical-harmonics degree and the antialiased flag.
    pub fn pretty_fmt(&self) -> (r: String)
        ensures
            r@ == self.spec_pretty_fmt(),
    {
        let mut out = String::new();
        out.append("GaussianSplat Header:\n\tNumber of points:\t\t");
        push_decimal_i32(self.num_points, &mut out);
        out.append("\n\tSpherical harmonics degree:\t");
        push_udecimal(self.spherical_harmonics_degree as u64, &mut out);
        out.append("\n\tAntialiased:\t\t\t");
        out.append(bool_str(self.flags.is_antialiased()));
        out.append("\n");
        assert(out@ =~= self.spec_pretty_fmt());
        out
    }
}

impl Default for PackedGaussiansHeader {
    /// A valid version-3 header for zero points.
    fn default() -> (r: PackedGaussiansHeader)
        ensures
            r.magic == MAGIC_VALUE,
            r.version == PACKED_GAUSSIAN_HEADER_VERSION,
            r.num_points == 0,
            r.spherical_harmonics_degree == 0,
            r.fractional_bits == 12,
            r.flags.0 == 0,
            r.reserved == 0,
            r.spec_is_valid(),
    {
        proof {
            assert(0u8 & !FLAG_ANTIALIASED == 0) by (bit_vector);
        }
        PackedGaussiansHeader {
            magic: MAGIC_VALUE,
            version: PACKED_GAUSSIAN_HEADER_VERSION,
            num_points: 0,
            spherical_harmonics_degree: 0,
            fractional_bits: 12,
            flags: Flags(0),
            reserved: 0,
        }
    }
}

} // verus!
