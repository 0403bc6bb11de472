use spz::consts::{HEADER_SIZE, MAGIC_VALUE};
use spz::errors::SpzError;
use spz::header::{Flags, PackedGaussiansHeader};

#[test]
fn test_header_default() {
    let h = PackedGaussiansHeader::default();

    assert_eq!(h.magic, MAGIC_VALUE);
    assert_eq!(h.version, 3);
    assert_eq!(h.num_points, 0);
    assert_eq!(h.spherical_harmonics_degree, 0);
    assert_eq!(h.fractional_bits, 12);
    assert!(!h.flags.is_antialiased());
    assert_eq!(h.reserved, 0);
    assert!(h.is_valid());
}

#[test]
fn test_header_display() {
    let h = PackedGaussiansHeader::default();
    let display = h.display_string();

    assert!(display.contains("Header="));
    assert!(display.contains("n_pts=0"));
    assert!(display.contains("v3"));
}

#[test]
fn test_header_display_negative_points() {
    let h = PackedGaussiansHeader {
        num_points: -57,
        ..Default::default()
    };
    let display = h.display_string();

    assert!(display.contains("n_pts=-57"));
}

#[test]
fn test_header_pretty_fmt_exact() {
    let h = PackedGaussiansHeader {
        num_points: 1234,
        spherical_harmonics_degree: 3,
        ..Default::default()
    };

    assert_eq!(
        h.pretty_fmt(),
        "GaussianSplat Header:\n\tNumber of points:\t\t1234\n\tSpherical harmonics degree:\t3\n\tAntialiased:\t\t\tfalse\n"
    );
}

#[test]
fn test_header_pretty_fmt() {
    let h = PackedGaussiansHeader {
        num_points: 42,
        spherical_harmonics_degree: 2,
        flags: Flags(0x1),
        ..Default::default()
    };
    let pretty = h.pretty_fmt();

    assert!(pretty.contains("42"));
    assert!(pretty.contains("true")); // antialiased
    assert!(pretty.contains("2")); // sh degree
}

#[test]
fn test_header_negative_num_points_invalid() {
    let h = PackedGaussiansHeader {
        num_points: -1,
        ..Default::default()
    };

    assert!(!h.is_valid());
}

#[test]
fn test_serialize_read_roundtrip() {
    let original = PackedGaussiansHeader {
        magic: MAGIC_VALUE,
        version: 3,
        num_points: 1234,
        spherical_harmonics_degree: 3,
        fractional_bits: 16,
        flags: Flags(0x1),
        reserved: 0,
    };
    let mut buf = Vec::new();

    original.serialize_to(&mut buf);

    assert_eq!(buf.len(), HEADER_SIZE);

    let recovered = PackedGaussiansHeader::read_from(&buf).expect("read failed");

    assert_eq!(recovered, original);
}

#[test]
fn test_read_from_unchecked_valid_header() {
    let original = PackedGaussiansHeader {
        magic: MAGIC_VALUE,
        version: 2,
        num_points: 500,
        spherical_harmonics_degree: 1,
        fractional_bits: 8,
        flags: Flags::none(),
        reserved: 0,
    };
    let buf = original.serialize();

    let header = PackedGaussiansHeader::read_from_unchecked(&buf)
        .expect("read_from_unchecked failed");

    assert_eq!(header.num_points, 500);
    assert_eq!(header.version, 2);
}

#[test]
fn test_read_from_rejects_invalid_header() {
    let mut bytes = [0_u8; 16];

    bytes[0..4].copy_from_slice(&(0xDEADBEEF_u32 as i32).to_le_bytes());
    bytes[4..8].copy_from_slice(&3_i32.to_le_bytes());

    let result = PackedGaussiansHeader::read_from(&bytes);

    assert!(result.is_err());
}

#[test]
fn test_header_roundtrip_all_fields() {
    for (version, num_points, sh, fb, flags) in [
        (3, 12345, 2, 12, Flags(0x1)),
        (2, 0, 0, 0, Flags::none()),
        (3, i32::MAX, 3, 24, Flags::none()),
        (2, 1, 1, 1, Flags(0x1)),
    ] {
        let header = PackedGaussiansHeader {
            magic: MAGIC_VALUE,
            version,
            num_points,
            spherical_harmonics_degree: sh,
            fractional_bits: fb,
            flags,
            reserved: 0,
        };
        let bytes = header.serialize();
        let recovered = PackedGaussiansHeader::read_from(&bytes).expect("should parse");

        assert_eq!(recovered, header);
        assert!(recovered.is_valid());
        assert_eq!(recovered.reserved, 0);
    }
}

#[test]
fn test_header_serialized_bytes_little_endian() {
    let h = PackedGaussiansHeader {
        magic: MAGIC_VALUE,
        version: 3,
        num_points: 0x0102_0304,
        spherical_harmonics_degree: 2,
        fractional_bits: 12,
        flags: Flags(0x1),
        reserved: 0,
    };
    let bytes = h.serialize();

    // "NGSP" little-endian
    assert_eq!(&bytes[0..4], b"NGSP");
    assert_eq!(&bytes[4..8], &[3, 0, 0, 0]);
    assert_eq!(&bytes[8..12], &[0x04, 0x03, 0x02, 0x01]);
    assert_eq!(&bytes[12..16], &[2, 12, 1, 0]);
}

#[test]
fn test_header_is_valid_cases() {
    for (magic, version, sh_degree, reserved, expected_valid) in [
        (MAGIC_VALUE, 3, 2, 0, true),
        (MAGIC_VALUE, 2, 0, 0, true),
        (MAGIC_VALUE, 3, 3, 0, true),
        (0x12345678, 3, 2, 0, false), // invalid magic
        (MAGIC_VALUE, 1, 2, 0, false), // invalid version
        (MAGIC_VALUE, 3, 4, 0, false), // invalid sh degree
        (MAGIC_VALUE, 3, 2, 1, false), // invalid reserved
    ] {
        let header = PackedGaussiansHeader {
            magic,
            version,
            num_points: 100,
            spherical_harmonics_degree: sh_degree,
            fractional_bits: 12,
            flags: Flags::none(),
            reserved,
        };
        assert_eq!(header.is_valid(), expected_valid);
    }
}

#[test]
fn test_flags_bits() {
    assert!(!Flags::none().is_antialiased());
    assert!(Flags::none().is_valid());
    assert!(Flags(0x1).is_antialiased());
    assert!(Flags(0x1).is_valid());
    assert!(!Flags(0x02).is_antialiased());
    assert!(!Flags(0x02).is_valid()); // undefined bit
    assert!(Flags(0xFF).is_antialiased());
    assert!(!Flags(0xFF).is_valid()); // all bits set
}

#[test]
fn test_read_from_short_slice_fails() {
    for len in [0, 8, 15] {
        let bytes = vec![0_u8; len];
        assert!(matches!(
            PackedGaussiansHeader::read_from_unchecked(&bytes),
            Err(SpzError::InconsistentSizes)
        ));
    }
}

#[test]
fn test_header_from_compressed_bytes() {
    let original = PackedGaussiansHeader {
        num_points: 77,
        spherical_harmonics_degree: 1,
        ..Default::default()
    };
    let raw = original.serialize();
    let mut compressed = Vec::new();
    assert!(spz::compression::compress_gzipped(&raw, &mut compressed));

    let recovered =
        PackedGaussiansHeader::from_compressed_bytes(&compressed).expect("should decompress");
    assert_eq!(recovered, original);

    let unchecked = PackedGaussiansHeader::from_compressed_bytes_unchecked(&compressed)
        .expect("should decompress");
    assert_eq!(unchecked, original);
}

#[test]
fn test_header_from_compressed_prefix() {
    // The header must be readable from a compressed prefix of a large
    // stream, without the rest of the file.
    let num_points = 20_000_i32;
    let p = spz::packed::PackedGaussians {
        num_points,
        sh_degree: 1,
        fractional_bits: 12,
        antialiased: true,
        uses_quaternion_smallest_three: true,
        positions: (0..num_points as usize * 9).map(|i| (i % 251) as u8).collect(),
        scales: vec![7; num_points as usize * 3],
        rotations: (0..num_points as usize * 4).map(|i| (i % 13) as u8).collect(),
        alphas: vec![9; num_points as usize],
        colors: vec![11; num_points as usize * 3],
        spherical_harmonics: (0..num_points as usize * 9).map(|i| (i % 17) as u8).collect(),
    };
    let compressed = p.to_compressed_bytes().expect("compress failed");
    assert!(compressed.len() > 512);

    let prefix = &compressed[..512];
    let h = PackedGaussiansHeader::from_compressed_bytes(prefix).expect("prefix read failed");

    assert_eq!(h.num_points, num_points);
    assert_eq!(h.spherical_harmonics_degree, 1);
    assert!(h.flags.is_antialiased());
    assert!(h.is_valid());
}
