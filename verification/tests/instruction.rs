use audius::error::AudiusError;
use audius::instruction::{AudiusInstruction, Signature};

#[test]
fn roundtrip_init_signer_group() {
    let op = AudiusInstruction::InitSignerGroup;
    assert_eq!(AudiusInstruction::unpack(&op.pack()), Ok(op));
}

#[test]
fn roundtrip_init_valid_signer() {
    let op = AudiusInstruction::InitValidSigner((1..21).collect());
    assert_eq!(AudiusInstruction::unpack(&op.pack()), Ok(op));
}

#[test]
fn roundtrip_clear_valid_signer() {
    let op = AudiusInstruction::ClearValidSigner;
    assert_eq!(AudiusInstruction::unpack(&op.pack()), Ok(op));
}

#[test]
fn roundtrip_validate_signature() {
    let op = AudiusInstruction::ValidateSignature(Signature {
        signature: vec![0xab; 64],
        recovery_id: 1,
        message: b"hello".to_vec(),
    });
    assert_eq!(AudiusInstruction::unpack(&op.pack()), Ok(op));
}

#[test]
fn roundtrip_validate_signature_empty_message() {
    let op = AudiusInstruction::ValidateSignature(Signature {
        signature: vec![0xcd; 64],
        recovery_id: 0,
        message: Vec::new(),
    });
    assert_eq!(AudiusInstruction::unpack(&op.pack()), Ok(op));
}

#[test]
fn pack_layouts() {
    assert_eq!(AudiusInstruction::InitSignerGroup.pack(), vec![0]);
    assert_eq!(AudiusInstruction::ClearValidSigner.pack(), vec![2]);

    let mut expected = vec![1u8];
    expected.extend([9u8; 20]);
    assert_eq!(AudiusInstruction::InitValidSigner(vec![9; 20]).pack(), expected);

    let op = AudiusInstruction::ValidateSignature(Signature {
        signature: vec![7; 64],
        recovery_id: 2,
        message: vec![8, 9],
    });
    let mut expected = vec![3u8];
    expected.extend([7u8; 64]);
    expected.push(2);
    expected.extend([8, 9]);
    assert_eq!(op.pack(), expected);
}

#[test]
fn unpack_rejects_empty_buffer() {
    assert_eq!(
        AudiusInstruction::unpack(&Vec::new()),
        Err(AudiusError::InvalidInstruction)
    );
}

#[test]
fn unpack_rejects_unknown_tag() {
    assert_eq!(
        AudiusInstruction::unpack(&vec![4]),
        Err(AudiusError::InvalidInstruction)
    );
    assert_eq!(
        AudiusInstruction::unpack(&vec![255, 0, 0]),
        Err(AudiusError::InvalidInstruction)
    );
}

#[test]
fn unpack_rejects_short_payloads() {
    // a 20-byte address needs 21 bytes in all
    assert_eq!(
        AudiusInstruction::unpack(&vec![1; 20]),
        Err(AudiusError::InvalidInstruction)
    );
    // a 64-byte signature and its recovery id need 66 bytes in all
    assert_eq!(
        AudiusInstruction::unpack(&vec![3; 65]),
        Err(AudiusError::InvalidInstruction)
    );
}

#[test]
fn unpack_ignores_trailing_bytes_of_fixed_payloads() {
    let mut buffer = vec![1u8];
    buffer.extend([5u8; 20]);
    buffer.extend([0xee; 3]);
    assert_eq!(
        AudiusInstruction::unpack(&buffer),
        Ok(AudiusInstruction::InitValidSigner(vec![5; 20]))
    );
}
