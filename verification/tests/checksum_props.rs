//! The verifier's checksum: determinism, sensitivity, and the standard
//! CRC-32 check value.
use dcspkg::checksum::archive_checksum;
use dcspkg::checksum::checksum_matches;

#[test]
fn identical_bytes_carry_identical_checksums() {
    let a: Vec<u8> = b"the same bytes".to_vec();
    let b: Vec<u8> = b"the same bytes".to_vec();
    assert_eq!(archive_checksum(&a), archive_checksum(&b));
    assert_eq!(archive_checksum(&a), archive_checksum(&a));
}

#[test]
fn a_single_bit_flip_changes_the_checksum() {
    let a: Vec<u8> = b"the same bytes".to_vec();
    let mut b = a.clone();
    b[0] ^= 1;
    assert_ne!(archive_checksum(&a), archive_checksum(&b));
}

#[test]
fn the_standard_check_value() {
    // The CRC-32 of the digits one through nine, the algorithm's
    // published check value.
    assert_eq!(archive_checksum(b"123456789"), 0xCBF43926);
}

#[test]
fn matching_is_equality_with_the_declared_value() {
    let data: Vec<u8> = b"abc".to_vec();
    let sum = archive_checksum(&data);
    assert!(checksum_matches(&data, sum));
    assert!(!checksum_matches(&data, sum.wrapping_add(1)));
}
