//! Program state processor: applies decoded operations to the persisted
//! records, enforcing the authorization invariants.
//!
//! Each record is handled as a named, typed parameter — the signer group
//! buffer, the valid signer buffer, the claimed owner — so a reordering of
//! accounts cannot silently substitute the wrong record. The exact outcome
//! of every operation is given by a `spec_*` transition function over the
//! raw record bytes.

use crate::bytes::{copy_range, range_matches};
use crate::error::AudiusError;
use crate::instruction::{AudiusInstruction, InstructionView, Signature, SignatureView};
use crate::state::{
    spec_unpack_offsets, Pubkey, SecpSignatureOffsets, SignerGroup, ValidSigner,
    SECP_SIGNATURE_SIZE, SIGNATURE_OFFSETS_SERIALIZED_SIZE, SIGNER_GROUP_LEN, VALID_SIGNER_LEN,
    ETH_ADDRESS_SIZE,
};
use vstd::prelude::*;

verus! {

/// What the enclosing host exposes of the current atomic batch: the raw
/// bytes of every instruction, by index, and the located output descriptor
/// of the secp256k1 co-processor instruction.
pub struct BatchContext {
    /// Raw data of each instruction in the batch, in batch order.
    pub instructions: Vec<Vec<u8>>,
    /// The co-processor instruction's output descriptor bytes.
    pub secp_instruction_data: Vec<u8>,
}

/// The batch's instruction stream as a sequence of byte sequences.
pub open spec fn instructions_view(batch: &BatchContext) -> Seq<Seq<u8>> {
    Seq::new(batch.instructions@.len(), |i: int| batch.instructions@[i]@)
}

/// Outcome of `InitSignerGroup` on the raw group record bytes: on a
/// not-yet-initialized record of full length, version becomes 1 and the
/// owner is assigned; otherwise the record is left unchanged and the
/// matching error is returned.
pub open spec fn spec_init_signer_group(group: Seq<u8>, owner_key: Seq<u8>) -> (Result<
    (),
    AudiusError,
>, Seq<u8>) {
    if group.len() < SIGNER_GROUP_LEN {
        (Err(AudiusError::InvalidAccountData), group)
    } else if group[0] != 0 {
        (Err(AudiusError::SignerGroupAlreadyInitialized), group)
    } else {
        (Ok(()), seq![1u8] + owner_key + group.skip(SIGNER_GROUP_LEN as int))
    }
}

/// Outcome of `InitValidSigner` on the raw signer record bytes: requires an
/// initialized group, a not-yet-initialized signer, and an authorizing
/// owner; then the signer becomes version 1, referencing the group record
/// and carrying the given address.
pub open spec fn spec_init_valid_signer(
    signer: Seq<u8>,
    group: Seq<u8>,
    group_key: Seq<u8>,
    owner_key: Seq<u8>,
    owner_is_signer: bool,
    eth_pubkey: Seq<u8>,
) -> (Result<(), AudiusError>, Seq<u8>) {
    if group.len() < SIGNER_GROUP_LEN {
        (Err(AudiusError::InvalidAccountData), signer)
    } else if group[0] == 0 {
        (Err(AudiusError::UninitializedSignerGroup), signer)
    } else if signer.len() < VALID_SIGNER_LEN {
        (Err(AudiusError::InvalidAccountData), signer)
    } else if signer[0] != 0 {
        (Err(AudiusError::SignerAlreadyInitialized), signer)
    } else if owner_key != group.subrange(1, SIGNER_GROUP_LEN as int) {
        (Err(AudiusError::WrongOwner), signer)
    } else if !owner_is_signer {
        (Err(AudiusError::SignatureMissing), signer)
    } else {
        (Ok(()), seq![1u8] + group_key + eth_pubkey + signer.skip(VALID_SIGNER_LEN as int))
    }
}

/// Outcome of `ClearValidSigner` on the raw signer record bytes: after the
/// same group and ownership checks as initialization, only the version byte
/// is reset to 0 — the remaining bytes may stay stale, since the version is
/// the sole authority on validity.
pub open spec fn spec_clear_valid_signer(
    signer: Seq<u8>,
    group: Seq<u8>,
    owner_key: Seq<u8>,
    owner_is_signer: bool,
) -> (Result<(), AudiusError>, Seq<u8>) {
    if group.len() < SIGNER_GROUP_LEN {
        (Err(AudiusError::InvalidAccountData), signer)
    } else if group[0] == 0 {
        (Err(AudiusError::UninitializedSignerGroup), signer)
    } else if signer.len() < VALID_SIGNER_LEN {
        (Err(AudiusError::InvalidAccountData), signer)
    } else if owner_key != group.subrange(1, SIGNER_GROUP_LEN as int) {
        (Err(AudiusError::WrongOwner), signer)
    } else if !owner_is_signer {
        (Err(AudiusError::SignatureMissing), signer)
    } else {
        (Ok(()), signer.update(0, 0u8))
    }
}

/// Can `len` bytes be read at `off` inside instruction `idx` of the batch?
pub open spec fn secp_range_ok(instrs: Seq<Seq<u8>>, idx: u8, off: u16, len: int) -> bool {
    idx < instrs.len() && off + len <= instrs[idx as int].len()
}

/// The `len` bytes at `off` inside instruction `idx` of the batch.
pub open spec fn secp_extract(instrs: Seq<Seq<u8>>, idx: u8, off: u16, len: int) -> Seq<u8> {
    instrs[idx as int].subrange(off as int, off + len)
}

/// Outcome of `ValidateSignature`: succeeds exactly when the signer record
/// is initialized, the descriptor and the ranges it describes are readable,
/// and the extracted (signature, address, message) triple equals the claimed
/// signature, the registered address, and the claimed message. Persists
/// nothing.
pub open spec fn spec_validate_signature(
    signer: Seq<u8>,
    sig: SignatureView,
    secp_data: Seq<u8>,
    instrs: Seq<Seq<u8>>,
) -> Result<(), AudiusError> {
    if signer.len() < VALID_SIGNER_LEN {
        Err(AudiusError::InvalidAccountData)
    } else if signer[0] == 0 {
        Err(AudiusError::UninitializedSigner)
    } else if secp_data.len() < SIGNATURE_OFFSETS_SERIALIZED_SIZE {
        Err(AudiusError::MalformedOffsets)
    } else {
        let o = spec_unpack_offsets(secp_data);
        if !secp_range_ok(
            instrs,
            o.signature_instruction_index,
            o.signature_offset,
            SECP_SIGNATURE_SIZE as int,
        ) || !secp_range_ok(
            instrs,
            o.eth_address_instruction_index,
            o.eth_address_offset,
            ETH_ADDRESS_SIZE as int,
        ) || !secp_range_ok(
            instrs,
            o.message_instruction_index,
            o.message_data_offset,
            o.message_data_size as int,
        ) {
            Err(AudiusError::MalformedOffsets)
        } else if secp_extract(
            instrs,
            o.signature_instruction_index,
            o.signature_offset,
            SECP_SIGNATURE_SIZE as int,
        ) == sig.signature && secp_extract(
            instrs,
            o.eth_address_instruction_index,
            o.eth_address_offset,
            ETH_ADDRESS_SIZE as int,
        ) == signer.subrange(33, VALID_SIGNER_LEN as int) && secp_extract(
            instrs,
            o.message_instruction_index,
            o.message_data_offset,
            o.message_data_size as int,
        ) == sig.message {
            Ok(())
        } else {
            Err(AudiusError::SignatureMismatch)
        }
    }
}

/// Program state handler.
pub struct Processor {}

impl Processor {
    /// `SignerGroup` version indicating group initialization.
    pub const SIGNER_GROUP_VERSION: u8 = 1;

    /// `ValidSigner` version indicating signer initialization.
    pub const VALID_SIGNER_VERSION: u8 = 1;

    /// Process `InitSignerGroup`: initialize the signer group record held in
    /// `signer_group_data`, assigning `group_owner_key` as its owner.
    pub fn process_init_signer_group(
        signer_group_data: &mut Vec<u8>,
        group_owner_key: &Pubkey,
    ) -> (r: Result<(), AudiusError>)
        requires
            group_owner_key.wf(),
        ensures
            r == spec_init_signer_group(old(signer_group_data)@, group_owner_key@).0,
            final(signer_group_data)@ == spec_init_signer_group(
                old(signer_group_data)@,
                group_owner_key@,
            ).1,
    {
        let signer_group = match SignerGroup::deserialize(signer_group_data) {
            Ok(g) => g,
            Err(e) => {
                return Err(e);
            },
        };
        if signer_group.is_initialized() {
            return Err(AudiusError::SignerGroupAlreadyInitialized);
        }
        let updated = SignerGroup {
            version: Self::SIGNER_GROUP_VERSION,
            owner: group_owner_key.duplicate(),
        };
        match updated.serialize(signer_group_data) {
            Ok(()) => {
                proof {
                    assert(final(signer_group_data)@ =~= spec_init_signer_group(
                        old(signer_group_data)@,
                        group_owner_key@,
                    ).1);
                }
                Ok(())
            },
            Err(e) => Err(e),
        }
    }

    /// Process `InitValidSigner`: initialize the valid signer record held in
    /// `valid_signer_data` under the group record held in
    /// `signer_group_data` (whose storage key is `signer_group_key`),
    /// provided the group's owner authorizes the call.
    pub fn process_init_valid_signer(
        valid_signer_data: &mut Vec<u8>,
        signer_group_data: &Vec<u8>,
        signer_group_key: &Pubkey,
        signer_groups_owner_key: &Pubkey,
        owner_is_signer: bool,
        eth_pubkey: &Vec<u8>,
    ) -> (r: Result<(), AudiusError>)
        requires
            signer_group_key.wf(),
            eth_pubkey@.len() == ETH_ADDRESS_SIZE,
        ensures
            r == spec_init_valid_signer(
                old(valid_signer_data)@,
                signer_group_data@,
                signer_group_key@,
                signer_groups_owner_key@,
                owner_is_signer,
                eth_pubkey@,
            ).0,
            final(valid_signer_data)@ == spec_init_valid_signer(
                old(valid_signer_data)@,
                signer_group_data@,
                signer_group_key@,
                signer_groups_owner_key@,
                owner_is_signer,
                eth_pubkey@,
            ).1,
    {
        let signer_group = match SignerGroup::deserialize(signer_group_data) {
            Ok(g) => g,
            Err(e) => {
                return Err(e);
            },
        };
        if !signer_group.is_initialized() {
            return Err(AudiusError::UninitializedSignerGroup);
        }
        let valid_signer = match ValidSigner::deserialize(valid_signer_data) {
            Ok(v) => v,
            Err(e) => {
                return Err(e);
            },
        };
        if valid_signer.is_initialized() {
            return Err(AudiusError::SignerAlreadyInitialized);
        }
        match signer_group.check_owner(signer_groups_owner_key, owner_is_signer) {
            Ok(()) => {},
            Err(e) => {
                return Err(e);
            },
        }
        let updated = ValidSigner {
            version: Self::VALID_SIGNER_VERSION,
            signer_group: signer_group_key.duplicate(),
            public_key: copy_range(eth_pubkey, 0, ETH_ADDRESS_SIZE),
        };
        proof {
            assert(updated.public_key@ =~= eth_pubkey@);
        }
        match updated.serialize(valid_signer_data) {
            Ok(()) => {
                proof {
                    assert(final(valid_signer_data)@ =~= spec_init_valid_signer(
                        old(valid_signer_data)@,
                        signer_group_data@,
                        signer_group_key@,
                        signer_groups_owner_key@,
                        owner_is_signer,
                        eth_pubkey@,
                    ).1);
                }
                Ok(())
            },
            Err(e) => Err(e),
        }
    }

    /// Process `ClearValidSigner`: revoke the valid signer record held in
    /// `valid_signer_data`, provided the group's owner authorizes the call.
    pub fn process_clear_valid_signer(
        valid_signer_data: &mut Vec<u8>,
        signer_group_data: &Vec<u8>,
        signer_groups_owner_key: &Pubkey,
        owner_is_signer: bool,
    ) -> (r: Result<(), AudiusError>)
        ensures
            r == spec_clear_valid_signer(
                old(valid_signer_data)@,
                signer_group_data@,
                signer_groups_owner_key@,
                owner_is_signer,
            ).0,
            final(valid_signer_data)@ == spec_clear_valid_signer(
                old(valid_signer_data)@,
                signer_group_data@,
                signer_groups_owner_key@,
                owner_is_signer,
            ).1,
    {
        let signer_group = match SignerGroup::deserialize(signer_group_data) {
            Ok(g) => g,
            Err(e) => {
                return Err(e);
            },
        };
        if !signer_group.is_initialized() {
            return Err(AudiusError::UninitializedSignerGroup);
        }
        let valid_signer = match ValidSigner::deserialize(valid_signer_data) {
            Ok(v) => v,
            Err(e) => {
                return Err(e);
            },
        };
        match signer_group.check_owner(signer_groups_owner_key, owner_is_signer) {
            Ok(()) => {},
            Err(e) => {
                return Err(e);
            },
        }
        let mut updated = valid_signer;
        updated.version = 0;
        match updated.serialize(valid_signer_data) {
            Ok(()) => {
                proof {
                    assert(final(valid_signer_data)@ =~= old(valid_signer_data)@.update(0, 0u8));
                }
                Ok(())
            },
            Err(e) => Err(e),
        }
    }

    /// Process `ValidateSignature`: confirm that the co-processor
    /// instruction described by the batch context recovered this signer's
    /// registered address from exactly the claimed signature and message.
    ///
    /// The signer group record is part of the account protocol for this
    /// operation but is not consulted: the signer record alone carries the
    /// registered address.
    pub fn process_validate_signature(
        valid_signer_data: &Vec<u8>,
        _signer_group_data: &Vec<u8>,
        signature_data: &Signature,
        batch: &BatchContext,
    ) -> (r: Result<(), AudiusError>)
        ensures
            r == spec_validate_signature(
                valid_signer_data@,
                signature_data@,
                batch.secp_instruction_data@,
                instructions_view(batch),
            ),
    {
        let valid_signer = match ValidSigner::deserialize(valid_signer_data) {
            Ok(v) => v,
            Err(e) => {
                return Err(e);
            },
        };
        if !valid_signer.is_initialized() {
            return Err(AudiusError::UninitializedSigner);
        }
        let offsets = match SecpSignatureOffsets::unpack(&batch.secp_instruction_data) {
            Ok(o) => o,
            Err(e) => {
                return Err(e);
            },
        };
        let ghost instrs = instructions_view(batch);

        let sig_idx = offsets.signature_instruction_index as usize;
        let sig_off = offsets.signature_offset as usize;
        if sig_idx >= batch.instructions.len() {
            return Err(AudiusError::MalformedOffsets);
        }
        let sig_instr = &batch.instructions[sig_idx];
        proof {
            assert(instrs[sig_idx as int] == sig_instr@);
        }
        if sig_off + SECP_SIGNATURE_SIZE > sig_instr.len() {
            return Err(AudiusError::MalformedOffsets);
        }
        let addr_idx = offsets.eth_address_instruction_index as usize;
        let addr_off = offsets.eth_address_offset as usize;
        if addr_idx >= batch.instructions.len() {
            return Err(AudiusError::MalformedOffsets);
        }
        let addr_instr = &batch.instructions[addr_idx];
        proof {
            assert(instrs[addr_idx as int] == addr_instr@);
        }
        if addr_off + ETH_ADDRESS_SIZE > addr_instr.len() {
            return Err(AudiusError::MalformedOffsets);
        }
        let msg_idx = offsets.message_instruction_index as usize;
        let msg_off = offsets.message_data_offset as usize;
        let msg_len = offsets.message_data_size as usize;
        if msg_idx >= batch.instructions.len() {
            return Err(AudiusError::MalformedOffsets);
        }
        let msg_instr = &batch.instructions[msg_idx];
        proof {
            assert(instrs[msg_idx as int] == msg_instr@);
        }
        if msg_off + msg_len > msg_instr.len() {
            return Err(AudiusError::MalformedOffsets);
        }

        let signature_matches = range_matches(
            sig_instr,
            sig_off,
            SECP_SIGNATURE_SIZE,
            &signature_data.signature,
        );
        let address_matches = range_matches(
            addr_instr,
            addr_off,
            ETH_ADDRESS_SIZE,
            &valid_signer.public_key,
        );
        let message_matches = range_matches(msg_instr, msg_off, msg_len, &signature_data.message);
        if signature_matches && address_matches && message_matches {
            Ok(())
        } else {
            Err(AudiusError::SignatureMismatch)
        }
    }

    /// Process a packed operation request against the named records.
    ///
    /// The request in `input` is decoded and dispatched; only the records
    /// the decoded operation speaks of are touched, and each is changed
    /// exactly as its transition function states.
    pub fn process(
        input: &Vec<u8>,
        signer_group_data: &mut Vec<u8>,
        valid_signer_data: &mut Vec<u8>,
        signer_group_key: &Pubkey,
        owner_key: &Pubkey,
        owner_is_signer: bool,
        batch: &BatchContext,
    ) -> (r: Result<(), AudiusError>)
        requires
            signer_group_key.wf(),
            owner_key.wf(),
        ensures
            ({
                let group0 = old(signer_group_data)@;
                let signer0 = old(valid_signer_data)@;
                let group1 = final(signer_group_data)@;
                let signer1 = final(valid_signer_data)@;
                match crate::instruction::spec_unpack(input@) {
                    None => r == Err::<(), AudiusError>(AudiusError::InvalidInstruction) && group1
                        == group0 && signer1 == signer0,
                    Some(op) => match op {
                        InstructionView::InitSignerGroup => {
                            let t = spec_init_signer_group(group0, owner_key@);
                            r == t.0 && group1 == t.1 && signer1 == signer0
                        },
                        InstructionView::InitValidSigner(eth) => {
                            let t = spec_init_valid_signer(
                                signer0,
                                group0,
                                signer_group_key@,
                                owner_key@,
                                owner_is_signer,
                                eth,
                            );
                            r == t.0 && signer1 == t.1 && group1 == group0
                        },
                        InstructionView::ClearValidSigner => {
                            let t = spec_clear_valid_signer(
                                signer0,
                                group0,
                                owner_key@,
                                owner_is_signer,
                            );
                            r == t.0 && signer1 == t.1 && group1 == group0
                        },
                        InstructionView::ValidateSignature(s) => r == spec_validate_signature(
                            signer0,
                            s,
                            batch.secp_instruction_data@,
                            instructions_view(batch),
                        ) && group1 == group0 && signer1 == signer0,
                    },
                }
            }),
    {
        let instruction = match AudiusInstruction::unpack(input) {
            Ok(i) => i,
            Err(e) => {
                return Err(e);
            },
        };
        match instruction {
            AudiusInstruction::InitSignerGroup => Self::process_init_signer_group(
                signer_group_data,
                owner_key,
            ),
            AudiusInstruction::InitValidSigner(eth_pubkey) => Self::process_init_valid_signer(
                valid_signer_data,
                signer_group_data,
                signer_group_key,
                owner_key,
                owner_is_signer,
                &eth_pubkey,
            ),
            AudiusInstruction::ClearValidSigner => Self::process_clear_valid_signer(
                valid_signer_data,
                signer_group_data,
                owner_key,
                owner_is_signer,
            ),
            AudiusInstruction::ValidateSignature(signature_data) => {
                Self::process_validate_signature(
                    valid_signer_data,
                    signer_group_data,
                    &signature_data,
                    batch,
                )
            },
        }
    }
}

/// On a zero-initialized record of full length, `InitSignerGroup` succeeds
/// and yields version 1 with the given owner; applying it again to the same
/// record fails with `SignerGroupAlreadyInitialized` and leaves the record
/// unchanged.
pub proof fn lemma_init_signer_group_once(group: Seq<u8>, owner1: Seq<u8>, owner2: Seq<u8>)
    requires
        group.len() == SIGNER_GROUP_LEN,
        forall|i: int| 0 <= i < group.len() ==> group[i] == 0,
        owner1.len() == 32,
    ensures
        ({
            let (r1, g1) = spec_init_signer_group(group, owner1);
            &&& r1 == Ok::<(), AudiusError>(())
            &&& g1.len() == SIGNER_GROUP_LEN
            &&& g1[0] == 1
            &&& g1.subrange(1, SIGNER_GROUP_LEN as int) == owner1
            &&& spec_init_signer_group(g1, owner2) == (
                Err::<(), AudiusError>(AudiusError::SignerGroupAlreadyInitialized),
                g1,
            )
        }),
{
    let (r1, g1) = spec_init_signer_group(group, owner1);
    assert(group.skip(SIGNER_GROUP_LEN as int) =~= Seq::<u8>::empty());
    assert(g1.subrange(1, SIGNER_GROUP_LEN as int) =~= owner1);
}

/// `InitValidSigner` against an uninitialized group fails with
/// `UninitializedSignerGroup`, regardless of caller identity, and leaves the
/// signer record unchanged.
pub proof fn lemma_init_valid_signer_uninitialized_group(
    signer: Seq<u8>,
    group: Seq<u8>,
    group_key: Seq<u8>,
    owner_key: Seq<u8>,
    owner_is_signer: bool,
    eth_pubkey: Seq<u8>,
)
    requires
        group.len() >= SIGNER_GROUP_LEN,
        group[0] == 0,
    ensures
        spec_init_valid_signer(signer, group, group_key, owner_key, owner_is_signer, eth_pubkey)
            == (Err::<(), AudiusError>(AudiusError::UninitializedSignerGroup), signer),
{
}

/// `InitValidSigner` with a claimed owner other than the group's owner fails
/// with `WrongOwner` and leaves the signer record unchanged.
pub proof fn lemma_init_valid_signer_wrong_owner(
    signer: Seq<u8>,
    group: Seq<u8>,
    group_key: Seq<u8>,
    owner_key: Seq<u8>,
    owner_is_signer: bool,
    eth_pubkey: Seq<u8>,
)
    requires
        group.len() >= SIGNER_GROUP_LEN,
        group[0] != 0,
        signer.len() >= VALID_SIGNER_LEN,
        signer[0] == 0,
        owner_key != group.subrange(1, SIGNER_GROUP_LEN as int),
    ensures
        spec_init_valid_signer(signer, group, group_key, owner_key, owner_is_signer, eth_pubkey)
            == (Err::<(), AudiusError>(AudiusError::WrongOwner), signer),
{
}

/// After a signer is initialized and then cleared, its version byte is 0 and
/// every subsequent `ValidateSignature` against it fails with
/// `UninitializedSigner`, whatever signature, descriptor, and batch are
/// presented.
pub proof fn lemma_init_clear_then_validate_rejects(
    signer: Seq<u8>,
    group: Seq<u8>,
    group_key: Seq<u8>,
    owner_key: Seq<u8>,
    eth_pubkey: Seq<u8>,
    sig: SignatureView,
    secp_data: Seq<u8>,
    instrs: Seq<Seq<u8>>,
)
    requires
        group_key.len() == 32,
        eth_pubkey.len() == 20,
        spec_init_valid_signer(signer, group, group_key, owner_key, true, eth_pubkey).0
            == Ok::<(), AudiusError>(()),
    ensures
        ({
            let initialized = spec_init_valid_signer(
                signer,
                group,
                group_key,
                owner_key,
                true,
                eth_pubkey,
            ).1;
            let (rc, cleared) = spec_clear_valid_signer(initialized, group, owner_key, true);
            &&& rc == Ok::<(), AudiusError>(())
            &&& cleared[0] == 0
            &&& spec_validate_signature(cleared, sig, secp_data, instrs) == Err::<
                (),
                AudiusError,
            >(AudiusError::UninitializedSigner)
        }),
{
    let initialized = spec_init_valid_signer(signer, group, group_key, owner_key, true, eth_pubkey).1;
    assert(initialized.len() >= VALID_SIGNER_LEN);
    let (rc, cleared) = spec_clear_valid_signer(initialized, group, owner_key, true);
    assert(cleared[0] == 0);
}

/// `ValidateSignature` succeeds exactly when the record is initialized, the
/// descriptor's ranges are readable, and the extracted (signature, address,
/// message) triple equals the claimed signature, the registered address, and
/// the claimed message.
pub proof fn lemma_validate_signature_ok_iff(
    signer: Seq<u8>,
    sig: SignatureView,
    secp_data: Seq<u8>,
    instrs: Seq<Seq<u8>>,
)
    ensures
        spec_validate_signature(signer, sig, secp_data, instrs) == Ok::<(), AudiusError>(())
            <==> ({
            let o = spec_unpack_offsets(secp_data);
            &&& signer.len() >= VALID_SIGNER_LEN
            &&& signer[0] != 0
            &&& secp_data.len() >= SIGNATURE_OFFSETS_SERIALIZED_SIZE
            &&& secp_range_ok(
                instrs,
                o.signature_instruction_index,
                o.signature_offset,
                SECP_SIGNATURE_SIZE as int,
            )
            &&& secp_range_ok(
                instrs,
                o.eth_address_instruction_index,
                o.eth_address_offset,
                ETH_ADDRESS_SIZE as int,
            )
            &&& secp_range_ok(
                instrs,
                o.message_instruction_index,
                o.message_data_offset,
                o.message_data_size as int,
            )
            &&& secp_extract(
                instrs,
                o.signature_instruction_index,
                o.signature_offset,
                SECP_SIGNATURE_SIZE as int,
            ) == sig.signature
            &&& secp_extract(
                instrs,
                o.eth_address_instruction_index,
                o.eth_address_offset,
                ETH_ADDRESS_SIZE as int,
            ) == signer.subrange(33, VALID_SIGNER_LEN as int)
            &&& secp_extract(
                instrs,
                o.message_instruction_index,
                o.message_data_offset,
                o.message_data_size as int,
            ) == sig.message
        }),
{
}

/// Changing any single byte of the claimed signature of an otherwise
/// validating request turns success into `SignatureMismatch`.
pub proof fn lemma_validate_flip_signature_byte(
    signer: Seq<u8>,
    sig1: SignatureView,
    sig2: SignatureView,
    secp_data: Seq<u8>,
    instrs: Seq<Seq<u8>>,
    i: int,
)
    requires
        spec_validate_signature(signer, sig1, secp_data, instrs) == Ok::<(), AudiusError>(()),
        sig2.message == sig1.message,
        sig2.signature.len() == sig1.signature.len(),
        0 <= i < sig1.signature.len(),
        sig2.signature[i] != sig1.signature[i],
    ensures
        spec_validate_signature(signer, sig2, secp_data, instrs) == Err::<(), AudiusError>(
            AudiusError::SignatureMismatch,
        ),
{
    assert(sig2.signature != sig1.signature);
}

/// Changing any single byte of the claimed message of an otherwise
/// validating request turns success into `SignatureMismatch`.
pub proof fn lemma_validate_flip_message_byte(
    signer: Seq<u8>,
    sig1: SignatureView,
    sig2: SignatureView,
    secp_data: Seq<u8>,
    instrs: Seq<Seq<u8>>,
    i: int,
)
    requires
        spec_validate_signature(signer, sig1, secp_data, instrs) == Ok::<(), AudiusError>(()),
        sig2.signature == sig1.signature,
        sig2.message.len() == sig1.message.len(),
        0 <= i < sig1.message.len(),
        sig2.message[i] != sig1.message[i],
    ensures
        spec_validate_signature(signer, sig2, secp_data, instrs) == Err::<(), AudiusError>(
            AudiusError::SignatureMismatch,
        ),
{
    assert(sig2.message != sig1.message);
}

/// Changing any single byte of the registered address of an otherwise
/// validating request turns success into `SignatureMismatch`.
pub proof fn lemma_validate_flip_address_byte(
    signer1: Seq<u8>,
    signer2: Seq<u8>,
    sig: SignatureView,
    secp_data: Seq<u8>,
    instrs: Seq<Seq<u8>>,
    i: int,
)
    requires
        spec_validate_signature(signer1, sig, secp_data, instrs) == Ok::<(), AudiusError>(()),
        signer2.len() == signer1.len(),
        33 <= i < VALID_SIGNER_LEN,
        signer2[i] != signer1[i],
        forall|j: int| 0 <= j < signer1.len() && j != i ==> signer2[j] == signer1[j],
    ensures
        spec_validate_signature(signer2, sig, secp_data, instrs) == Err::<(), AudiusError>(
            AudiusError::SignatureMismatch,
        ),
{
    let a1 = signer1.subrange(33, VALID_SIGNER_LEN as int);
    let a2 = signer2.subrange(33, VALID_SIGNER_LEN as int);
    assert(a2[i - 33] != a1[i - 33]);
    assert(a2 != a1);
}

} // verus!
