use sha2::{Digest, Sha256};
use vortex_369::constants::{digital_root, is_369_aligned, to_base9, verify_closure};
use vortex_369::witness::{
    build_preimage, generate_witness_record, record_from_digest, validate_fractal_scales,
    verify_loop_closure,
};

#[test]
fn test_digital_root() {
    assert_eq!(digital_root(432), 9);
    assert_eq!(digital_root(216), 9);
    assert_eq!(digital_root(108), 9);
    assert_eq!(digital_root(27), 9);
    assert_eq!(digital_root(3), 3);
    assert_eq!(digital_root(6), 6);
    assert_eq!(digital_root(9), 9);
}

#[test]
fn test_is_369_aligned() {
    assert!(is_369_aligned(432));
    assert!(is_369_aligned(3));
    assert!(is_369_aligned(6));
    assert!(is_369_aligned(9));
    assert!(!is_369_aligned(1));
    assert!(!is_369_aligned(2));
}

#[test]
fn test_to_base9() {
    assert_eq!(to_base9(9, 2), "10");
    assert_eq!(to_base9(81, 3), "100");
    assert_eq!(to_base9(0, 4), "0000");
}

#[test]
fn digital_root_edge_values() {
    assert_eq!(digital_root(0), 0);
    assert_eq!(digital_root(999999999), 9);
    assert_eq!(digital_root(10), 1);
    assert_eq!(digital_root(19), 1);
    assert_eq!(digital_root(u64::MAX), 1 + (u64::MAX - 1) % 9);
}

#[test]
fn digital_root_matches_closed_form() {
    for n in 1u64..2000 {
        assert_eq!(digital_root(n), 1 + (n - 1) % 9);
    }
}

#[test]
fn zero_is_not_aligned() {
    assert!(!is_369_aligned(0));
    assert!(!verify_closure(0));
    assert!(verify_closure(18));
    assert!(!verify_closure(12));
}

#[test]
fn to_base9_never_truncates() {
    assert_eq!(to_base9(6560, 2), "8888");
    assert_eq!(to_base9(8, 1), "8");
    assert_eq!(to_base9(8, 3), "008");
    assert_eq!(to_base9(0, 0), "");
    assert_eq!(to_base9(5, 0), "5");
    assert_eq!(to_base9(u64::MAX, 9), "145808576354216723756");
}

#[test]
fn fractal_scales_of_369_pass() {
    assert!(validate_fractal_scales(369));
}

#[test]
fn fractal_scales_edges() {
    assert!(!validate_fractal_scales(0));
    assert!(validate_fractal_scales(1));
    assert!(validate_fractal_scales(u64::MAX / 27));
    assert!(!validate_fractal_scales(u64::MAX / 27 + 1));
    assert!(!validate_fractal_scales(u64::MAX));
}

#[test]
fn loop_closure_of_digit_strings() {
    assert!(!verify_loop_closure(""));
    assert!(verify_loop_closure("9"));
    assert!(verify_loop_closure("81"));
    assert!(verify_loop_closure("000000018"));
    assert!(verify_loop_closure("888888888"));
    assert!(!verify_loop_closure("8"));
    assert!(!verify_loop_closure("000000000"));
    assert!(!verify_loop_closure("123"));
    assert!(verify_loop_closure("1x2-6"));
}

#[test]
fn preimage_layout() {
    let data = build_preimage(&[0xaa, 0xbb], 0x0102, 7);
    let mut expected = vec![0xaa, 0xbb, 0x02, 0x01];
    expected.extend_from_slice(&[0u8; 14]);
    expected.push(7);
    assert_eq!(data, expected);
    assert_eq!(build_preimage(&[], u128::MAX, 0), {
        let mut all = vec![0xffu8; 16];
        all.push(0);
        all
    });
}

#[test]
fn record_reads_low_eight_bytes_little_endian() {
    let mut digest = [0u8; 32];
    digest[0] = 9;
    digest[8] = 0xff;
    assert_eq!(record_from_digest(&digest), "000000010");
    let mut second = [0u8; 32];
    second[1] = 1;
    assert_eq!(record_from_digest(&second), to_base9(256, 9));
    assert_eq!(record_from_digest(&[0xff; 32]), to_base9(u64::MAX, 9));
}

#[test]
fn witness_record_uses_sha256() {
    // SHA-256 of the 17 bytes 00..00 07 begins with the bytes below.
    let record = generate_witness_record(&[], 0, 7);
    assert!(record.len() >= 9);
    assert!(record.chars().all(|c| ('0'..='8').contains(&c)));
    assert_eq!(record, generate_witness_record(&[], 0, 7));
    assert_ne!(record, generate_witness_record(&[], 0, 8));
    assert_ne!(record, generate_witness_record(&[1], 0, 7));
    assert_ne!(record, generate_witness_record(&[], 1, 7));
}

#[test]
fn witness_record_of_abc() {
    // SHA-256("abc" || 16 zero bytes || 0x07) is not a standard vector, so
    // the digest is taken with the same crate and decoded by hand here.
    let mut data = b"abc".to_vec();
    data.extend_from_slice(&[0u8; 16]);
    data.push(7);
    let digest = Sha256::digest(&data);
    let mut low = [0u8; 8];
    low.copy_from_slice(&digest[..8]);
    let expected = to_base9(u64::from_le_bytes(low), 9);
    assert_eq!(generate_witness_record(b"abc", 0, 7), expected);
}
