//! End-to-end wire round trips, with the float quantization steps done
//! inline at the edges the way a full-precision caller would.

use spz::compression::compress_gzipped;
use spz::coord::CoordinateSystem;
use spz::math::{
    fixed24_from_bytes, fixed24_to_bytes, pack_quaternion_word, quantize_sh_rounded,
};
use spz::packed::{load_spz_packed, PackedGaussians};

fn encode_position(p: f32, fractional_bits: u32) -> [u8; 3] {
    let scale = (1_i64 << fractional_bits) as f32;
    fixed24_to_bytes((p * scale).round() as i32)
}

fn decode_position(b: &[u8], fractional_bits: u32) -> f32 {
    let scale = 1.0_f32 / (1_i64 << fractional_bits) as f32;
    fixed24_from_bytes(b[0], b[1], b[2]) as f32 * scale
}

fn encode_scale(s: f32) -> u8 {
    ((s + 10.0) * 16.0).clamp(0.0, 255.0).round() as u8
}

fn decode_scale(b: u8) -> f32 {
    b as f32 / 16.0 - 10.0
}

#[test]
fn test_two_point_wire_roundtrip() {
    // Two points, spherical-harmonics degree 0, authored in the format's
    // own Right-Up-Back system so no axis flips apply.
    let positions = [1.0_f32, 2.0, 3.0, 4.0, 5.0, 6.0];
    let scales = [-1.0_f32, -1.0, -1.0, 0.0, 0.0, 0.0];
    let fractional_bits = 12_u32;

    let mut packed = PackedGaussians {
        num_points: 2,
        sh_degree: 0,
        fractional_bits: fractional_bits as i32,
        antialiased: false,
        uses_quaternion_smallest_three: true,
        positions: Vec::new(),
        scales: Vec::new(),
        // the identity quaternion: w is the largest component
        rotations: [pack_quaternion_word(3, 0, 0, 0); 2].concat(),
        alphas: vec![128, 128],
        colors: vec![128; 6],
        spherical_harmonics: Vec::new(),
    };
    for p in positions {
        packed.positions.extend_from_slice(&encode_position(p, fractional_bits));
    }
    for s in scales {
        packed.scales.push(encode_scale(s));
    }

    let raw = packed.as_bytes_vec().expect("serialize failed");
    let mut compressed = Vec::new();
    assert!(compress_gzipped(&raw, &mut compressed));

    let loaded = load_spz_packed(&compressed).expect("load failed");
    assert_eq!(loaded, packed);

    for (i, p) in positions.iter().enumerate() {
        let decoded = decode_position(&loaded.positions[i * 3..i * 3 + 3], fractional_bits);
        assert!(
            (decoded - p).abs() <= 1.0 / 2048.0,
            "position {} decoded to {}",
            p,
            decoded
        );
    }
    for (i, s) in scales.iter().enumerate() {
        let decoded = decode_scale(loaded.scales[i]);
        assert!(
            (decoded - s).abs() <= 1.0 / 16.0,
            "scale {} decoded to {}",
            s,
            decoded
        );
    }
}

#[test]
fn test_wire_roundtrip_all_degrees() {
    for (sh_degree, sh_dim) in [(0_i32, 0_usize), (1, 3), (2, 8), (3, 15)] {
        for num_points in [0_usize, 1, 257] {
            let packed = PackedGaussians {
                num_points: num_points as i32,
                sh_degree,
                fractional_bits: 12,
                antialiased: sh_degree % 2 == 1,
                uses_quaternion_smallest_three: true,
                positions: (0..num_points * 9).map(|i| (i % 251) as u8).collect(),
                scales: (0..num_points * 3).map(|i| (i % 83) as u8).collect(),
                rotations: (0..num_points * 4).map(|i| (i % 17) as u8).collect(),
                alphas: (0..num_points).map(|i| (i % 255) as u8).collect(),
                colors: (0..num_points * 3).map(|i| (i % 101) as u8).collect(),
                spherical_harmonics: (0..num_points * sh_dim * 3)
                    .map(|i| (i % 127) as u8)
                    .collect(),
            };
            let raw = packed.as_bytes_vec().expect("serialize failed");
            let mut compressed = Vec::new();
            assert!(compress_gzipped(&raw, &mut compressed));

            let loaded = load_spz_packed(&compressed).expect("load failed");
            assert_eq!(loaded, packed, "degree {} points {}", sh_degree, num_points);
        }
    }
}

#[test]
fn test_sh_quantization_expected_bytes() {
    // Degree-1 coefficients quantize with a step of 8 (5 bits); the
    // byte for value v is round(v * 128 + 128) rounded down to a
    // multiple of the step.
    let inputs = [-0.01_f32, 0.0, 0.01, -1.0, -0.99, -0.95, 0.95, 0.99, 1.0];
    let expected = [120_u8, 128, 128, 0, 0, 0, 248, 248, 255];

    for (v, want) in inputs.iter().zip(expected.iter()) {
        let rounded = (v * 128.0 + 128.0).round() as i32;
        assert_eq!(quantize_sh_rounded(rounded, 8), *want, "for value {}", v);
    }
}

#[test]
fn test_axis_flips_compose_to_identity() {
    // Converting there and back multiplies each sign by itself.
    for a in CoordinateSystem::variants() {
        for b in CoordinateSystem::variants() {
            let there = a.axis_flips_to(b);
            let back = b.axis_flips_to(a);

            for i in 0..3 {
                assert_eq!(there.position[i] * back.position[i], 1);
                assert_eq!(there.rotation[i] * back.rotation[i], 1);
            }
            for i in 0..15 {
                assert_eq!(there.spherical_harmonics[i] * back.spherical_harmonics[i], 1);
            }
        }
    }
}
