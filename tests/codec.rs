use program_derived_address::account::{InvokeAccount, STATE_LEN};
use program_derived_address::error::CustomError;
use program_derived_address::instruction::CustomInstruction;

fn create(seeds: Vec<u8>, nonce: u8, space: u16) -> CustomInstruction {
    CustomInstruction::CreateAccount { seeds, nonce, space }
}

#[test]
fn encode_create_account_layout() {
    let bytes = create(vec![1, 2, 3], 7, 16).encode();
    assert_eq!(bytes, vec![0, 3, 0, 0, 0, 1, 2, 3, 7, 16, 0]);
}

#[test]
fn encode_matches_borsh_layout() {
    let ours = create(vec![9, 8, 7, 6], 254, 0x1234).encode();
    let theirs = borsh::to_vec(&(0u8, vec![9u8, 8, 7, 6], 254u8, 0x1234u16)).unwrap();
    assert_eq!(ours, theirs);
    let invoke = borsh::to_vec(&1u8).unwrap();
    assert_eq!(CustomInstruction::Invoke.encode(), invoke);
}

#[test]
fn encode_invoke_is_single_tag() {
    assert_eq!(CustomInstruction::Invoke.encode(), vec![1]);
}

#[test]
fn round_trip_create_account() {
    let x = create(vec![0xaa, 0xbb], 255, 65535);
    assert_eq!(CustomInstruction::decode(&x.encode()), Ok(x));
}

#[test]
fn round_trip_empty_seeds() {
    let x = create(vec![], 0, 0);
    assert_eq!(CustomInstruction::decode(&x.encode()), Ok(x));
}

#[test]
fn round_trip_invoke() {
    let x = CustomInstruction::Invoke;
    assert_eq!(CustomInstruction::decode(&x.encode()), Ok(x));
}

#[test]
fn decode_empty_fails() {
    assert_eq!(CustomInstruction::decode(&[]), Err(CustomError::MalformedInstruction));
}

#[test]
fn decode_unknown_tag_fails() {
    assert_eq!(CustomInstruction::decode(&[2]), Err(CustomError::MalformedInstruction));
    assert_eq!(CustomInstruction::decode(&[0xff, 0, 0]), Err(CustomError::MalformedInstruction));
}

#[test]
fn decode_truncated_create_fails() {
    let full = create(vec![1, 2, 3], 7, 16).encode();
    for cut in 0..full.len() {
        assert_eq!(
            CustomInstruction::decode(&full[..cut]),
            Err(CustomError::MalformedInstruction)
        );
    }
}

#[test]
fn decode_trailing_bytes_fails() {
    assert_eq!(CustomInstruction::decode(&[1, 0]), Err(CustomError::MalformedInstruction));
    let mut full = create(vec![1], 2, 3).encode();
    full.push(0);
    assert_eq!(CustomInstruction::decode(&full), Err(CustomError::MalformedInstruction));
}

#[test]
fn decode_oversized_length_prefix_fails() {
    assert_eq!(
        CustomInstruction::decode(&[0, 0xff, 0xff, 0xff, 0xff, 1, 2, 3]),
        Err(CustomError::MalformedInstruction)
    );
}

#[test]
fn state_unpack_short_buffer_fails() {
    assert_eq!(InvokeAccount::unpack(&[]), Err(CustomError::SchemaMismatch));
    assert_eq!(InvokeAccount::unpack(&[0u8; 15]), Err(CustomError::SchemaMismatch));
}

#[test]
fn state_unpack_zeroed_buffer() {
    assert_eq!(
        InvokeAccount::unpack(&[0u8; 16]),
        Ok(InvokeAccount { count: 0, timestamp: 0 })
    );
}

#[test]
fn state_layout_is_little_endian() {
    let mut data = vec![0u8; STATE_LEN];
    InvokeAccount { count: 0x0102, timestamp: -1 }.pack_into(&mut data);
    assert_eq!(data, vec![2, 1, 0, 0, 0, 0, 0, 0, 255, 255, 255, 255, 255, 255, 255, 255]);
}

#[test]
fn state_pack_keeps_trailing_bytes() {
    let mut data = vec![0xeeu8; 20];
    let s = InvokeAccount { count: 42, timestamp: 1_700_000_000 };
    s.pack_into(&mut data);
    assert_eq!(&data[16..], &[0xee, 0xee, 0xee, 0xee]);
    assert_eq!(InvokeAccount::unpack(&data), Ok(s));
}

#[test]
fn error_codes() {
    assert_eq!(CustomError::InvalidInstruction.code(), 0);
    assert_eq!(CustomError::CreationFailed.code(), 5);
    assert_eq!(CustomError::from_code(3), Some(CustomError::SchemaMismatch));
    assert_eq!(CustomError::from_code(6), None);
}
