use titan_v2_cpi_example::constant::SWAP_ROUTE_V2_DISCRIMINATOR;
use titan_v2_cpi_example::swap::ValidationError;
use titan_v2_cpi_example::swap::validate;

fn payload(amount: u64, minimum_amount_out: u64, tail: &[u8]) -> Vec<u8> {
    let mut p = Vec::new();
    p.extend_from_slice(&SWAP_ROUTE_V2_DISCRIMINATOR);
    p.extend_from_slice(&amount.to_le_bytes());
    p.extend_from_slice(&minimum_amount_out.to_le_bytes());
    p.extend_from_slice(tail);
    p
}

#[test]
fn accepts_matching_payload() {
    let p = payload(1_000_000, 950_000, &[0xAA, 0xBB]);
    assert_eq!(validate(&p, 1_000_000, 950_000), Ok(()));
}

#[test]
fn accepts_header_only_payload() {
    let p = payload(7, 5, &[]);
    assert_eq!(p.len(), 24);
    assert_eq!(validate(&p, 7, 5), Ok(()));
}

#[test]
fn rejects_amount_mismatch_with_both_values() {
    let p = payload(1_000_000, 950_000, &[0xAA, 0xBB]);
    assert_eq!(
        validate(&p, 1_000_001, 950_000),
        Err(ValidationError::AmountMismatch { supplied: 1_000_001, embedded: 1_000_000 })
    );
}

#[test]
fn rejects_minimum_out_mismatch_with_both_values() {
    let p = payload(1_000_000, 950_000, &[0xAA, 0xBB]);
    assert_eq!(
        validate(&p, 1_000_000, 949_999),
        Err(ValidationError::AmountMismatch { supplied: 949_999, embedded: 950_000 })
    );
}

#[test]
fn rejects_wrong_discriminator() {
    let mut p = vec![1u8, 2, 3, 4, 5, 6, 7, 8];
    p.extend_from_slice(&1_000_000u64.to_le_bytes());
    p.extend_from_slice(&950_000u64.to_le_bytes());
    assert_eq!(validate(&p, 1_000_000, 950_000), Err(ValidationError::MalformedPayload));
}

#[test]
fn rejects_single_wrong_discriminator_byte() {
    let mut p = payload(1_000_000, 950_000, &[]);
    p[7] ^= 0x01;
    assert_eq!(validate(&p, 1_000_000, 950_000), Err(ValidationError::MalformedPayload));
}

#[test]
fn rejects_short_payload_with_correct_discriminator() {
    let mut p = SWAP_ROUTE_V2_DISCRIMINATOR.to_vec();
    p.extend_from_slice(&[1, 2]);
    assert_eq!(p.len(), 10);
    assert_eq!(validate(&p, 0, 0), Err(ValidationError::MalformedPayload));
}

#[test]
fn rejects_payload_one_byte_short_of_header() {
    let mut p = payload(3, 4, &[]);
    p.pop();
    assert_eq!(p.len(), 23);
    assert_eq!(validate(&p, 3, 4), Err(ValidationError::MalformedPayload));
}

#[test]
fn rejects_empty_payload() {
    assert_eq!(validate(&[], 0, 0), Err(ValidationError::MalformedPayload));
}

#[test]
fn repeated_validation_gives_identical_results() {
    let good = payload(42, 41, &[9, 9, 9]);
    assert_eq!(validate(&good, 42, 41), validate(&good, 42, 41));
    assert_eq!(validate(&good, 43, 41), validate(&good, 43, 41));
    let bad = vec![0u8; 30];
    assert_eq!(validate(&bad, 42, 41), validate(&bad, 42, 41));
}

#[test]
fn extreme_amounts_round_trip_exactly() {
    let p = payload(u64::MAX, 0, &[]);
    assert_eq!(validate(&p, u64::MAX, 0), Ok(()));
    assert_eq!(
        validate(&p, u64::MAX - 1, 0),
        Err(ValidationError::AmountMismatch { supplied: u64::MAX - 1, embedded: u64::MAX })
    );
}
