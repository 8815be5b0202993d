use audius::error::AudiusError;
use audius::state::{
    Pubkey, SecpSignatureOffsets, SignerGroup, ValidSigner, SIGNER_GROUP_LEN, VALID_SIGNER_LEN,
};

#[test]
fn test_signer_group() {
    let signer_group = SignerGroup {
        version: 0,
        owner: Pubkey::new(vec![1; 32]),
    };

    let mut buffer: Vec<u8> = vec![0; SIGNER_GROUP_LEN];
    signer_group.serialize(&mut buffer).unwrap();

    let deserialized: SignerGroup = SignerGroup::deserialize(&buffer).unwrap();

    assert_eq!(signer_group, deserialized);

    assert_eq!(signer_group.is_initialized(), false);
}

#[test]
fn test_valid_signer() {
    let valid_signer = ValidSigner {
        version: 1,
        signer_group: Pubkey::new(vec![1; 32]),
        public_key: vec![7; 20],
    };

    let mut buffer: Vec<u8> = vec![0; VALID_SIGNER_LEN];
    valid_signer.serialize(&mut buffer).unwrap();

    let deserialized: ValidSigner = ValidSigner::deserialize(&buffer).unwrap();

    assert_eq!(valid_signer, deserialized);

    assert_eq!(valid_signer.is_initialized(), true);
}

#[test]
fn signer_group_layout() {
    let signer_group = SignerGroup {
        version: 1,
        owner: Pubkey::new((0..32).collect()),
    };
    let mut buffer: Vec<u8> = vec![0xff; SIGNER_GROUP_LEN + 2];
    signer_group.serialize(&mut buffer).unwrap();

    let mut expected = vec![1u8];
    expected.extend(0..32u8);
    expected.extend([0xff, 0xff]);
    assert_eq!(buffer, expected);
}

#[test]
fn valid_signer_layout() {
    let valid_signer = ValidSigner {
        version: 1,
        signer_group: Pubkey::new(vec![2; 32]),
        public_key: vec![3; 20],
    };
    let mut buffer: Vec<u8> = vec![0; VALID_SIGNER_LEN];
    valid_signer.serialize(&mut buffer).unwrap();

    let mut expected = vec![1u8];
    expected.extend([2u8; 32]);
    expected.extend([3u8; 20]);
    assert_eq!(buffer, expected);
}

#[test]
fn deserialize_short_buffers() {
    assert_eq!(
        SignerGroup::deserialize(&vec![0; SIGNER_GROUP_LEN - 1]),
        Err(AudiusError::InvalidAccountData)
    );
    assert_eq!(
        ValidSigner::deserialize(&vec![0; VALID_SIGNER_LEN - 1]),
        Err(AudiusError::InvalidAccountData)
    );
}

#[test]
fn check_owner_rejections() {
    let signer_group = SignerGroup {
        version: 1,
        owner: Pubkey::new(vec![5; 32]),
    };
    assert_eq!(
        signer_group.check_owner(&Pubkey::new(vec![6; 32]), true),
        Err(AudiusError::WrongOwner)
    );
    assert_eq!(
        signer_group.check_owner(&Pubkey::new(vec![5; 32]), false),
        Err(AudiusError::SignatureMissing)
    );
    assert_eq!(signer_group.check_owner(&Pubkey::new(vec![5; 32]), true), Ok(()));
}

#[test]
fn secp_offsets_pack_layout() {
    let offsets = SecpSignatureOffsets {
        signature_offset: 300,
        signature_instruction_index: 1,
        eth_address_offset: 12,
        eth_address_instruction_index: 2,
        message_data_offset: 84,
        message_data_size: 517,
        message_instruction_index: 3,
    };
    let packed = offsets.pack();
    assert_eq!(packed, vec![44, 1, 1, 12, 0, 2, 84, 0, 5, 2, 3]);

    let unpacked = SecpSignatureOffsets::unpack(&packed).unwrap();
    assert_eq!(unpacked, offsets);
}

#[test]
fn secp_offsets_unpack_short_buffer() {
    assert_eq!(
        SecpSignatureOffsets::unpack(&vec![0; 10]),
        Err(AudiusError::MalformedOffsets)
    );
}
