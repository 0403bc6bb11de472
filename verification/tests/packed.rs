use spz::compression::compress_gzipped;
use spz::consts::HEADER_SIZE;
use spz::errors::SpzError;
use spz::packed::{load_spz_packed, PackedGaussians};

/// A well-formed two-point packed splat with spherical-harmonics degree 1
/// and recognizably distinct bytes per attribute.
fn sample_packed() -> PackedGaussians {
    PackedGaussians {
        num_points: 2,
        sh_degree: 1,
        fractional_bits: 12,
        antialiased: true,
        uses_quaternion_smallest_three: true,
        positions: (0..18).collect(),
        scales: (20..26).collect(),
        rotations: (30..38).collect(),
        alphas: vec![40, 41],
        colors: (50..56).collect(),
        spherical_harmonics: (60..78).collect(),
    }
}

#[test]
fn test_as_bytes_vec_wire_order() {
    let p = sample_packed();
    let bytes = p.as_bytes_vec().expect("serialize failed");

    // Header, then positions, alphas, colors, scales, rotations,
    // spherical harmonics: the on-disk order.
    assert_eq!(bytes.len(), 16 + 18 + 2 + 6 + 6 + 8 + 18);
    assert_eq!(&bytes[0..4], b"NGSP");
    assert_eq!(&bytes[16..34], p.positions.as_slice());
    assert_eq!(&bytes[34..36], p.alphas.as_slice());
    assert_eq!(&bytes[36..42], p.colors.as_slice());
    assert_eq!(&bytes[42..48], p.scales.as_slice());
    assert_eq!(&bytes[48..56], p.rotations.as_slice());
    assert_eq!(&bytes[56..74], p.spherical_harmonics.as_slice());
}

#[test]
fn test_write_self_to_appends() {
    let p = sample_packed();
    let mut out = vec![0xAA_u8, 0xBB];
    p.write_self_to(&mut out);
    assert_eq!(&out[0..2], &[0xAA, 0xBB]);
    assert_eq!(&out[2..6], b"NGSP");

    let mut out2 = Vec::new();
    p.serialize_packed_gaussians(&mut out2).expect("serialize failed");
    assert_eq!(&out[2..], out2.as_slice());
}

#[test]
fn test_construct_header_fields() {
    let p = sample_packed();
    let h = p.construct_header();
    assert_eq!(h.version, 3);
    assert_eq!(h.num_points, 2);
    assert_eq!(h.spherical_harmonics_degree, 1);
    assert_eq!(h.fractional_bits, 12);
    assert!(h.flags.is_antialiased());
    assert_eq!(h.reserved, 0);
    assert!(h.is_valid());
}

#[test]
fn test_uncompressed_roundtrip() {
    let p = sample_packed();
    let bytes = p.as_bytes_vec().expect("serialize failed");
    let q = PackedGaussians::from_uncompressed_bytes(&bytes).expect("parse failed");
    assert_eq!(q, p);
}

#[test]
fn test_compressed_roundtrip() {
    let p = sample_packed();
    let raw = p.as_bytes_vec().expect("serialize failed");
    let mut compressed = Vec::new();
    assert!(compress_gzipped(&raw, &mut compressed));

    let q = PackedGaussians::from_bytes(&compressed).expect("load failed");
    assert_eq!(q, p);

    let q2 = load_spz_packed(&compressed).expect("load failed");
    assert_eq!(q2, p);

    let compressed2 = p.to_compressed_bytes().expect("compress failed");
    let q3 = PackedGaussians::from_bytes(&compressed2).expect("load failed");
    assert_eq!(q3, p);
}

#[test]
fn test_from_bytes_empty_input() {
    assert!(matches!(
        PackedGaussians::from_bytes(&[]),
        Err(SpzError::DataIsEmpty)
    ));
}

#[test]
fn test_from_bytes_invalid_gzip() {
    assert!(matches!(
        PackedGaussians::from_bytes(&[0xDE, 0xAD, 0xBE, 0xEF]),
        Err(SpzError::IoError)
    ));
}

#[test]
fn test_parse_rejects_bad_magic() {
    let p = sample_packed();
    let mut bytes = p.as_bytes_vec().expect("serialize failed");
    bytes[0] = 0x00;
    assert!(matches!(
        PackedGaussians::from_uncompressed_bytes(&bytes),
        Err(SpzError::InvalidMagicNumber)
    ));
}

#[test]
fn test_parse_rejects_bad_version() {
    let p = sample_packed();
    let mut bytes = p.as_bytes_vec().expect("serialize failed");
    bytes[4] = 4;
    assert!(matches!(
        PackedGaussians::from_uncompressed_bytes(&bytes),
        Err(SpzError::UnsupportedVersion(4))
    ));
    bytes[4] = 0;
    assert!(matches!(
        PackedGaussians::from_uncompressed_bytes(&bytes),
        Err(SpzError::UnsupportedVersion(0))
    ));
}

#[test]
fn test_parse_rejects_bad_sh_degree() {
    let p = sample_packed();
    let mut bytes = p.as_bytes_vec().expect("serialize failed");
    bytes[12] = 5;
    assert!(matches!(
        PackedGaussians::from_uncompressed_bytes(&bytes),
        Err(SpzError::UnsupportedSphericalHarmonicsDegree(5))
    ));
}

#[test]
fn test_parse_rejects_truncated_payload() {
    let p = sample_packed();
    let bytes = p.as_bytes_vec().expect("serialize failed");
    let truncated = &bytes[..bytes.len() - 1];
    assert!(matches!(
        PackedGaussians::from_uncompressed_bytes(truncated),
        Err(SpzError::InconsistentSizes)
    ));
    let header_only = &bytes[..HEADER_SIZE];
    assert!(matches!(
        PackedGaussians::from_uncompressed_bytes(header_only),
        Err(SpzError::InconsistentSizes)
    ));
}

#[test]
fn test_parse_ignores_trailing_bytes() {
    let p = sample_packed();
    let mut bytes = p.as_bytes_vec().expect("serialize failed");
    bytes.extend_from_slice(&[0xAB; 100]);
    let q = PackedGaussians::from_uncompressed_bytes(&bytes).expect("parse failed");
    assert_eq!(q, p);
}

#[test]
fn test_parse_legacy_version_widths() {
    // A version-2 header: 9-byte positions and 3-byte rotations.
    let mut bytes = Vec::new();
    let h = spz::header::PackedGaussiansHeader {
        version: 2,
        num_points: 1,
        ..Default::default()
    };
    h.serialize_to(&mut bytes);
    bytes.extend_from_slice(&[1; 9]); // positions
    bytes.extend_from_slice(&[2; 1]); // alphas
    bytes.extend_from_slice(&[3; 3]); // colors
    bytes.extend_from_slice(&[4; 3]); // scales
    bytes.extend_from_slice(&[5; 3]); // rotations
    let p = PackedGaussians::from_uncompressed_bytes(&bytes).expect("parse failed");
    assert!(!p.uses_quaternion_smallest_three);
    assert_eq!(p.rotations, vec![5, 5, 5]);
    assert!(!p.uses_float16());
}

#[test]
fn test_check_sizes_cases() {
    let p = sample_packed();
    assert!(p.check_sizes(2, 3, false));
    assert!(!p.check_sizes(2, 3, true));
    assert!(!p.check_sizes(1, 3, false));
    assert!(!p.check_sizes(2, 0, false));

    let empty = PackedGaussians {
        num_points: 0,
        sh_degree: 0,
        fractional_bits: 12,
        antialiased: false,
        uses_quaternion_smallest_three: true,
        positions: Vec::new(),
        scales: Vec::new(),
        rotations: Vec::new(),
        alphas: Vec::new(),
        colors: Vec::new(),
        spherical_harmonics: Vec::new(),
    };
    assert!(empty.check_sizes(0, 0, false));
    assert!(empty.uses_float16()); // zero points: 0 == 0 * 6
}

#[test]
fn test_at_extracts_point_bytes() {
    let p = sample_packed();
    let g = p.at(1).expect("in bounds");
    assert_eq!(g.position, [9, 10, 11, 12, 13, 14, 15, 16, 17]);
    assert_eq!(g.scale, [23, 24, 25]);
    assert_eq!(g.rotation, [34, 35, 36, 37]);
    assert_eq!(g.color, [53, 54, 55]);
    assert_eq!(g.alpha, 41);
    // Degree 1: three coefficients per channel, interleaved rgb on disk.
    assert_eq!(&g.sh_r[..3], &[69, 72, 75]);
    assert_eq!(&g.sh_g[..3], &[70, 73, 76]);
    assert_eq!(&g.sh_b[..3], &[71, 74, 77]);
    // Beyond the stored coefficients: the neutral 128.
    assert!(g.sh_r[3..].iter().all(|&b| b == 128));
    assert!(g.sh_g[3..].iter().all(|&b| b == 128));
    assert!(g.sh_b[3..].iter().all(|&b| b == 128));
}

#[test]
fn test_at_out_of_bounds() {
    let p = sample_packed();
    assert!(matches!(p.at(2), Err(SpzError::IndexOutOfBounds(2))));
    assert!(matches!(p.at(100), Err(SpzError::IndexOutOfBounds(100))));
}

#[test]
fn test_empty_splat_roundtrip() {
    let empty = PackedGaussians {
        num_points: 0,
        sh_degree: 0,
        fractional_bits: 12,
        antialiased: false,
        uses_quaternion_smallest_three: true,
        positions: Vec::new(),
        scales: Vec::new(),
        rotations: Vec::new(),
        alphas: Vec::new(),
        colors: Vec::new(),
        spherical_harmonics: Vec::new(),
    };
    let bytes = empty.as_bytes_vec().expect("serialize failed");
    assert_eq!(bytes.len(), HEADER_SIZE);
    let q = PackedGaussians::from_uncompressed_bytes(&bytes).expect("parse failed");
    assert_eq!(q, empty);
}
