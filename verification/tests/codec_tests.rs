use airdrop_claim::bytes::{bytes_eq, copy_range, read_u16_le, read_u64_le};
use airdrop_claim::descriptor::{parse_descriptor, validate_descriptor, VerificationDescriptor};
use airdrop_claim::ed25519_call::{ed25519_call, Ed25519CallData};
use airdrop_claim::errors::ClaimError;
use airdrop_claim::instructions::ProgramInstruction;
use airdrop_claim::message::{apply_transfer, decode_message, read_pubkey};

#[test]
fn u16_is_read_little_endian() {
    let v = vec![0x34, 0x12, 0xff];
    assert_eq!(read_u16_le(&v, 0), 0x1234);
    assert_eq!(read_u16_le(&v, 1), 0xff12);
}

#[test]
fn u64_is_read_little_endian() {
    let v = 0x1122_3344_5566_7788u64.to_le_bytes().to_vec();
    assert_eq!(read_u64_le(&v, 0), 0x1122_3344_5566_7788);
    let mut w = vec![0u8; 3];
    w.extend_from_slice(&u64::MAX.to_le_bytes());
    assert_eq!(read_u64_le(&w, 3), u64::MAX);
}

#[test]
fn copy_range_takes_the_named_bytes() {
    let v = vec![10, 11, 12, 13, 14];
    assert_eq!(copy_range(&v, 1, 3), vec![11, 12, 13]);
    assert_eq!(copy_range(&v, 0, 0), Vec::<u8>::new());
}

#[test]
fn bytes_eq_compares_contents() {
    assert!(bytes_eq(&vec![1, 2, 3], &vec![1, 2, 3]));
    assert!(!bytes_eq(&vec![1, 2, 3], &vec![1, 2, 4]));
    assert!(!bytes_eq(&vec![1, 2], &vec![1, 2, 3]));
}

#[test]
fn descriptor_fields_come_from_fixed_positions() {
    let mut data = vec![1u8, 0u8];
    for v in [48u16, 0x7fff, 16, 0x7fff, 112, 40, 0x7fff] {
        data.extend_from_slice(&v.to_le_bytes());
    }
    let d = parse_descriptor(&data).unwrap();
    assert_eq!(
        d,
        VerificationDescriptor {
            signature_offset: 48,
            signature_owner: 0x7fff,
            pubkey_offset: 16,
            pubkey_owner: 0x7fff,
            message_offset: 112,
            message_size: 40,
            message_owner: 0x7fff,
        }
    );
    assert_eq!(validate_descriptor(&d, 152), Ok(()));
    assert_eq!(parse_descriptor(&vec![0u8; 15]), Err(ClaimError::TruncatedData));
}

#[test]
fn validate_descriptor_checks_in_order() {
    let good = VerificationDescriptor {
        signature_offset: 48,
        signature_owner: 0x7fff,
        pubkey_offset: 16,
        pubkey_owner: 0x7fff,
        message_offset: 112,
        message_size: 40,
        message_owner: 0x7fff,
    };
    let mut d = good;
    d.signature_owner = 2;
    d.message_offset = 3;
    assert_eq!(validate_descriptor(&d, 152), Err(ClaimError::CrossStepReference));
    let mut d = good;
    d.message_offset = 3;
    assert_eq!(validate_descriptor(&d, 152), Err(ClaimError::HeaderOverlap));
    let mut d = good;
    d.message_size = 60;
    assert_eq!(validate_descriptor(&d, 152), Err(ClaimError::OutOfBounds));
    assert_eq!(validate_descriptor(&d, 200), Err(ClaimError::WrongMessageSize));
    assert_eq!(validate_descriptor(&good, 151), Err(ClaimError::OutOfBounds));
}

#[test]
fn message_decoding_splits_subject_and_amount() {
    let mut payload = vec![0u8; 112];
    payload.extend_from_slice(&[4u8; 32]);
    payload.extend_from_slice(&777u64.to_le_bytes());
    let m = decode_message(&payload, 112);
    assert_eq!(m.subject, vec![4u8; 32]);
    assert_eq!(m.amount, 777);
    let mut with_key = vec![0u8; 16];
    with_key.extend_from_slice(&[9u8; 32]);
    assert_eq!(read_pubkey(&with_key, 16), vec![9u8; 32]);
}

#[test]
fn apply_transfer_is_checked_both_ways() {
    let mut vault: u64 = 5;
    let mut rec: u64 = 1;
    assert_eq!(apply_transfer(&mut vault, &mut rec, 6), Err(ClaimError::InsufficientFunds));
    assert_eq!((vault, rec), (5, 1));
    let mut rec_full: u64 = u64::MAX;
    assert_eq!(apply_transfer(&mut vault, &mut rec_full, 5), Err(ClaimError::Overflow));
    assert_eq!((vault, rec_full), (5, u64::MAX));
    assert_eq!(apply_transfer(&mut vault, &mut rec, 5), Ok(()));
    assert_eq!((vault, rec), (0, 6));
}

#[test]
fn selector_byte_picks_the_operation() {
    assert_eq!(ProgramInstruction::try_from(&0), Some(ProgramInstruction::ED25519Call));
    assert_eq!(ProgramInstruction::try_from(&1), Some(ProgramInstruction::ClaimTokens));
    assert_eq!(ProgramInstruction::try_from(&2), None);
    assert_eq!(ProgramInstruction::try_from(&255), None);
}

#[test]
fn call_data_load_splits_the_three_parts() {
    let mut data = Vec::new();
    data.extend_from_slice(&[1u8; 40]);
    data.extend_from_slice(&[2u8; 32]);
    data.extend_from_slice(&[3u8; 64]);
    let c = Ed25519CallData::load(&data).unwrap();
    assert_eq!(c.message, vec![1u8; 40]);
    assert_eq!(c.pubkey, vec![2u8; 32]);
    assert_eq!(c.signature, vec![3u8; 64]);
    assert_eq!(
        Ed25519CallData::load(&vec![0u8; 135]).map(|_| ()),
        Err(ClaimError::TruncatedData)
    );
}

#[test]
fn ed25519_call_builds_the_documented_layout() {
    let mut data = Vec::new();
    data.extend_from_slice(&[1u8; 40]);
    data.extend_from_slice(&[2u8; 32]);
    data.extend_from_slice(&[3u8; 64]);
    let built = ed25519_call(&data).unwrap();

    let mut expected = vec![1u8, 0u8];
    for v in [48u16, 0xffff, 16, 0xffff, 112, 40, 0xffff] {
        expected.extend_from_slice(&v.to_le_bytes());
    }
    expected.extend_from_slice(&[2u8; 32]);
    expected.extend_from_slice(&[3u8; 64]);
    expected.extend_from_slice(&[1u8; 40]);
    assert_eq!(built, expected);

    assert_eq!(ed25519_call(&vec![0u8; 137]).map(|_| ()), Err(ClaimError::TruncatedData));
}
