//! State transition types: the persisted records and the co-processor's
//! signature-offsets descriptor, with their fixed binary layouts.

use crate::bytes::{copy_range, eq_range, write_range};
use crate::error::AudiusError;
use vstd::prelude::*;

verus! {

/// Serialized length of a [`SignerGroup`]: version byte plus 32-byte owner.
pub const SIGNER_GROUP_LEN: usize = 33;

/// Serialized length of a [`ValidSigner`]: version byte, 32-byte group
/// reference, 20-byte address.
pub const VALID_SIGNER_LEN: usize = 53;

/// A 32-byte public identity, as used for record owners and record
/// references.
#[derive(Clone, Debug, PartialEq, Eq)]
pub struct Pubkey {
    /// The raw identity bytes; always exactly 32 of them.
    pub bytes: Vec<u8>,
}

impl View for Pubkey {
    type V = Seq<u8>;

    open spec fn view(&self) -> Seq<u8> {
        self.bytes@
    }
}

impl Pubkey {
    /// A key is well formed when it holds exactly 32 bytes.
    pub open spec fn wf(&self) -> bool {
        self@.len() == 32
    }

    /// Wraps 32 raw bytes as a key.
    pub fn new(bytes: Vec<u8>) -> (r: Pubkey)
        requires
            bytes@.len() == 32,
        ensures
            r@ == bytes@,
            r.wf(),
    {
        Pubkey { bytes }
    }

    /// A fresh key holding the same 32 bytes.
    pub fn duplicate(&self) -> (r: Pubkey)
        requires
            self.wf(),
        ensures
            r@ == self@,
            r.wf(),
    {
        Pubkey { bytes: copy_range(&self.bytes, 0, 32) }
    }

    /// Byte-for-byte equality of two keys.
    pub fn equals(&self, other: &Pubkey) -> (r: bool)
        ensures
            r == (self@ == other@),
    {
        if self.bytes.len() != other.bytes.len() {
            return false;
        }
        let r = eq_range(&self.bytes, 0, &other.bytes, 0, self.bytes.len());
        proof {
            assert(self@.subrange(0, self@.len() as int) =~= self@);
            assert(other@.subrange(0, other@.len() as int) =~= other@);
        }
        r
    }
}

/// Signer group data: an authorization domain with a single owner.
#[derive(Clone, Debug, PartialEq, Eq)]
pub struct SignerGroup {
    /// Group version; 0 means uninitialized, any nonzero value means
    /// initialized.
    pub version: u8,
    /// The only identity permitted to add and remove valid signers in this
    /// group.
    pub owner: Pubkey,
}

/// Valid signer data: a registered external address permitted to produce
/// signatures trusted under its group.
#[derive(Clone, Debug, PartialEq, Eq)]
pub struct ValidSigner {
    /// Signer version; 0 means uninitialized or revoked, nonzero means
    /// active.
    pub version: u8,
    /// Reference to the [`SignerGroup`] record this signer belongs to.
    pub signer_group: Pubkey,
    /// The external (Ethereum-style) address authorized to sign messages.
    pub public_key: Vec<u8>,
}

impl SignerGroup {
    /// Well-formed records carry a 32-byte owner key.
    pub open spec fn wf(&self) -> bool {
        self.owner.wf()
    }

    /// The exact serialized form: version byte followed by the owner key.
    pub open spec fn spec_bytes(&self) -> Seq<u8> {
        seq![self.version] + self.owner@
    }

    /// Deserialize a byte buffer into a `SignerGroup`.
    ///
    /// The record occupies the first [`SIGNER_GROUP_LEN`] bytes; any tail is
    /// ignored.
    pub fn deserialize(input: &Vec<u8>) -> (r: Result<SignerGroup, AudiusError>)
        ensures
            match r {
                Ok(g) => input@.len() >= SIGNER_GROUP_LEN && g.wf() && g.version == input@[0]
                    && g.owner@ == input@.subrange(1, SIGNER_GROUP_LEN as int),
                Err(e) => input@.len() < SIGNER_GROUP_LEN && e == AudiusError::InvalidAccountData,
            },
    {
        if input.len() < SIGNER_GROUP_LEN {
            return Err(AudiusError::InvalidAccountData);
        }
        let version = input[0];
        let owner = Pubkey { bytes: copy_range(input, 1, 32) };
        Ok(SignerGroup { version, owner })
    }

    /// Serialize a `SignerGroup` into the head of a byte buffer, leaving any
    /// tail unchanged.
    pub fn serialize(&self, output: &mut Vec<u8>) -> (r: Result<(), AudiusError>)
        requires
            self.wf(),
        ensures
            match r {
                Ok(()) => old(output)@.len() >= SIGNER_GROUP_LEN && final(output)@
                    == self.spec_bytes() + old(output)@.skip(SIGNER_GROUP_LEN as int),
                Err(e) => old(output)@.len() < SIGNER_GROUP_LEN && final(output)@ == old(output)@
                    && e == AudiusError::InvalidAccountData,
            },
    {
        if output.len() < SIGNER_GROUP_LEN {
            return Err(AudiusError::InvalidAccountData);
        }
        output[0] = self.version;
        write_range(output, 1, &self.owner.bytes);
        proof {
            assert(final(output)@ =~= self.spec_bytes() + old(output)@.skip(
                SIGNER_GROUP_LEN as int,
            ));
        }
        Ok(())
    }

    /// Check if the `SignerGroup` is initialized.
    pub fn is_initialized(&self) -> (r: bool)
        ensures
            r == (self.version != 0),
    {
        self.version != 0
    }

    /// Check owner validity and authorization: the claimed owner must equal
    /// this group's owner, and must have signed the enclosing call.
    pub fn check_owner(&self, owner_key: &Pubkey, owner_is_signer: bool) -> (r: Result<
        (),
        AudiusError,
    >)
        ensures
            match r {
                Ok(()) => owner_key@ == self.owner@ && owner_is_signer,
                Err(e) => if owner_key@ != self.owner@ {
                    e == AudiusError::WrongOwner
                } else {
                    !owner_is_signer && e == AudiusError::SignatureMissing
                },
            },
    {
        if !owner_key.equals(&self.owner) {
            return Err(AudiusError::WrongOwner);
        }
        if !owner_is_signer {
            return Err(AudiusError::SignatureMissing);
        }
        Ok(())
    }
}

impl ValidSigner {
    /// Well-formed records carry a 32-byte group reference and a 20-byte
    /// address.
    pub open spec fn wf(&self) -> bool {
        self.signer_group.wf() && self.public_key@.len() == 20
    }

    /// The exact serialized form: version byte, group reference, address.
    pub open spec fn spec_bytes(&self) -> Seq<u8> {
        seq![self.version] + self.signer_group@ + self.public_key@
    }

    /// Deserialize a byte buffer into a `ValidSigner`.
    ///
    /// The record occupies the first [`VALID_SIGNER_LEN`] bytes; any tail is
    /// ignored.
    pub fn deserialize(input: &Vec<u8>) -> (r: Result<ValidSigner, AudiusError>)
        ensures
            match r {
                Ok(v) => input@.len() >= VALID_SIGNER_LEN && v.wf() && v.version == input@[0]
                    && v.signer_group@ == input@.subrange(1, 33) && v.public_key@
                    == input@.subrange(33, VALID_SIGNER_LEN as int),
                Err(e) => input@.len() < VALID_SIGNER_LEN && e == AudiusError::InvalidAccountData,
            },
    {
        if input.len() < VALID_SIGNER_LEN {
            return Err(AudiusError::InvalidAccountData);
        }
        let version = input[0];
        let signer_group = Pubkey { bytes: copy_range(input, 1, 32) };
        let public_key = copy_range(input, 33, 20);
        Ok(ValidSigner { version, signer_group, public_key })
    }

    /// Serialize a `ValidSigner` into the head of a byte buffer, leaving any
    /// tail unchanged.
    pub fn serialize(&self, output: &mut Vec<u8>) -> (r: Result<(), AudiusError>)
        requires
            self.wf(),
        ensures
            match r {
                Ok(()) => old(output)@.len() >= VALID_SIGNER_LEN && final(output)@
                    == self.spec_bytes() + old(output)@.skip(VALID_SIGNER_LEN as int),
                Err(e) => old(output)@.len() < VALID_SIGNER_LEN && final(output)@ == old(output)@
                    && e == AudiusError::InvalidAccountData,
            },
    {
        if output.len() < VALID_SIGNER_LEN {
            return Err(AudiusError::InvalidAccountData);
        }
        output[0] = self.version;
        write_range(output, 1, &self.signer_group.bytes);
        write_range(output, 33, &self.public_key);
        proof {
            assert(final(output)@ =~= self.spec_bytes() + old(output)@.skip(
                VALID_SIGNER_LEN as int,
            ));
        }
        Ok(())
    }

    /// Check if the `ValidSigner` is initialized.
    pub fn is_initialized(&self) -> (r: bool)
        ensures
            r == (self.version != 0),
    {
        self.version != 0
    }
}

/// Secp256k1 signature offsets data: where, inside the batch's instruction
/// stream, the signature, recovered address, and message bytes live.
#[derive(Clone, Copy, Debug, PartialEq, Eq, Structural)]
pub struct SecpSignatureOffsets {
    /// Offset of the 64-byte signature (followed by its recovery id).
    pub signature_offset: u16,
    /// Index of the instruction holding the signature.
    pub signature_instruction_index: u8,
    /// Offset of the 20-byte recovered address.
    pub eth_address_offset: u16,
    /// Index of the instruction holding the recovered address.
    pub eth_address_instruction_index: u8,
    /// Offset of the start of the message data.
    pub message_data_offset: u16,
    /// Size of the message data in bytes.
    pub message_data_size: u16,
    /// Index of the instruction holding the message.
    pub message_instruction_index: u8,
}

/// Largest value a single descriptor byte can carry, exclusive.
pub const MAX_VALUE_ONE_BYTE: u16 = 256;

/// Size of a serialized [`SecpSignatureOffsets`] descriptor.
pub const SIGNATURE_OFFSETS_SERIALIZED_SIZE: usize = 11;

/// Size of a serialized secp256k1 signature (without its recovery id).
pub const SECP_SIGNATURE_SIZE: usize = 64;

/// Size of an Ethereum-style address.
pub const ETH_ADDRESS_SIZE: usize = 20;

/// The descriptor read back from its first 11 bytes: each 16-bit field is
/// stored as a (remainder, quotient) base-256 pair in two separate byte
/// slots.
pub open spec fn spec_unpack_offsets(b: Seq<u8>) -> SecpSignatureOffsets
    recommends
        b.len() >= SIGNATURE_OFFSETS_SERIALIZED_SIZE,
{
    SecpSignatureOffsets {
        signature_offset: (b[0] + 256 * b[1]) as u16,
        signature_instruction_index: b[2],
        eth_address_offset: (b[3] + 256 * b[4]) as u16,
        eth_address_instruction_index: b[5],
        message_data_offset: (b[6] + 256 * b[7]) as u16,
        message_data_size: (b[8] + 256 * b[9]) as u16,
        message_instruction_index: b[10],
    }
}

impl SecpSignatureOffsets {
    /// The exact 11-byte serialized form.
    pub open spec fn spec_bytes(&self) -> Seq<u8> {
        seq![
            (self.signature_offset % 256) as u8,
            (self.signature_offset / 256) as u8,
            self.signature_instruction_index,
            (self.eth_address_offset % 256) as u8,
            (self.eth_address_offset / 256) as u8,
            self.eth_address_instruction_index,
            (self.message_data_offset % 256) as u8,
            (self.message_data_offset / 256) as u8,
            (self.message_data_size % 256) as u8,
            (self.message_data_size / 256) as u8,
            self.message_instruction_index,
        ]
    }

    /// Serialize a [`SecpSignatureOffsets`] descriptor.
    pub fn pack(&self) -> (r: Vec<u8>)
        ensures
            r@ == self.spec_bytes(),
    {
        let mut packed_offsets: Vec<u8> = vec![0u8; SIGNATURE_OFFSETS_SERIALIZED_SIZE];
        assert(packed_offsets@.len() == 11);
        self.euclidean_division(self.signature_offset, &mut packed_offsets, 0, 1);
        packed_offsets[2] = self.signature_instruction_index;
        self.euclidean_division(self.eth_address_offset, &mut packed_offsets, 3, 4);
        packed_offsets[5] = self.eth_address_instruction_index;
        self.euclidean_division(self.message_data_offset, &mut packed_offsets, 6, 7);
        self.euclidean_division(self.message_data_size, &mut packed_offsets, 8, 9);
        packed_offsets[10] = self.message_instruction_index;
        proof {
            assert(packed_offsets@ =~= self.spec_bytes());
        }
        packed_offsets
    }

    /// Store `dividend` into two one-byte slots of `buffer`: its remainder
    /// modulo 256 at `first_index` and its quotient at `second_index`.
    pub fn euclidean_division(
        &self,
        dividend: u16,
        buffer: &mut Vec<u8>,
        first_index: usize,
        second_index: usize,
    )
        requires
            first_index < old(buffer)@.len(),
            second_index < old(buffer)@.len(),
        ensures
            final(buffer)@ == old(buffer)@.update(first_index as int, (dividend % 256) as u8)
                .update(second_index as int, (dividend / 256) as u8),
    {
        if dividend >= MAX_VALUE_ONE_BYTE {
            let quotient: u8 = (dividend / MAX_VALUE_ONE_BYTE) as u8;
            let remainder: u8 = (dividend % MAX_VALUE_ONE_BYTE) as u8;
            buffer[first_index] = remainder;
            buffer[second_index] = quotient;
        } else {
            buffer[first_index] = dividend as u8;
            buffer[second_index] = 0;
        }
    }

    /// Deserialize a [`SecpSignatureOffsets`] descriptor from the first 11
    /// bytes of a buffer.
    pub fn unpack(input: &Vec<u8>) -> (r: Result<SecpSignatureOffsets, AudiusError>)
        ensures
            match r {
                Ok(o) => input@.len() >= SIGNATURE_OFFSETS_SERIALIZED_SIZE && o
                    == spec_unpack_offsets(input@),
                Err(e) => input@.len() < SIGNATURE_OFFSETS_SERIALIZED_SIZE && e
                    == AudiusError::MalformedOffsets,
            },
    {
        if input.len() < SIGNATURE_OFFSETS_SERIALIZED_SIZE {
            return Err(AudiusError::MalformedOffsets);
        }
        Ok(
            SecpSignatureOffsets {
                signature_offset: input[0] as u16 + 256 * (input[1] as u16),
                signature_instruction_index: input[2],
                eth_address_offset: input[3] as u16 + 256 * (input[4] as u16),
                eth_address_instruction_index: input[5],
                message_data_offset: input[6] as u16 + 256 * (input[7] as u16),
                message_data_size: input[8] as u16 + 256 * (input[9] as u16),
                message_instruction_index: input[10],
            },
        )
    }
}

} // verus!
