//! Instruction types and their wire codec.
//!
//! Each operation is encoded as a one-byte tag followed by a fixed or
//! variable payload; decoding is the exact inverse of encoding.

use crate::bytes::{append_all, copy_range};
use crate::error::AudiusError;
use vstd::prelude::*;

verus! {

/// Signature with message to validate.
#[derive(Clone, Debug, PartialEq, Eq)]
pub struct Signature {
    /// Secp256k1 serialized signature; always exactly 64 bytes.
    pub signature: Vec<u8>,
    /// Ethereum signature recovery ID.
    pub recovery_id: u8,
    /// The signed message bytes.
    pub message: Vec<u8>,
}

/// The mathematical shape of a [`Signature`].
pub struct SignatureView {
    /// The signature bytes.
    pub signature: Seq<u8>,
    /// The recovery ID.
    pub recovery_id: u8,
    /// The message bytes.
    pub message: Seq<u8>,
}

impl View for Signature {
    type V = SignatureView;

    open spec fn view(&self) -> SignatureView {
        SignatureView {
            signature: self.signature@,
            recovery_id: self.recovery_id,
            message: self.message@,
        }
    }
}

impl SignatureView {
    /// A signature payload is well formed when its signature holds exactly
    /// 64 bytes.
    pub open spec fn wf(&self) -> bool {
        self.signature.len() == 64
    }
}

/// Instructions supported by the Audius program.
#[derive(Clone, Debug, PartialEq, Eq)]
pub enum AudiusInstruction {
    /// Initialize a new signer group.
    InitSignerGroup,
    /// Register a valid signer, identified by its 20-byte external address,
    /// under a signer group.
    InitValidSigner(Vec<u8>),
    /// Remove a valid signer from its group.
    ClearValidSigner,
    /// Validate a signature issued by a valid signer.
    ValidateSignature(Signature),
}

/// The mathematical shape of an [`AudiusInstruction`].
pub enum InstructionView {
    /// Initialize a new signer group.
    InitSignerGroup,
    /// Register a valid signer under a signer group.
    InitValidSigner(Seq<u8>),
    /// Remove a valid signer from its group.
    ClearValidSigner,
    /// Validate a signature issued by a valid signer.
    ValidateSignature(SignatureView),
}

impl View for AudiusInstruction {
    type V = InstructionView;

    open spec fn view(&self) -> InstructionView {
        match self {
            AudiusInstruction::InitSignerGroup => InstructionView::InitSignerGroup,
            AudiusInstruction::InitValidSigner(a) => InstructionView::InitValidSigner(a@),
            AudiusInstruction::ClearValidSigner => InstructionView::ClearValidSigner,
            AudiusInstruction::ValidateSignature(s) => InstructionView::ValidateSignature(s@),
        }
    }
}

impl InstructionView {
    /// An instruction is well formed when its payload has the documented
    /// size: a 20-byte address, a 64-byte signature.
    pub open spec fn wf(&self) -> bool {
        match self {
            InstructionView::InitSignerGroup => true,
            InstructionView::InitValidSigner(a) => a.len() == 20,
            InstructionView::ClearValidSigner => true,
            InstructionView::ValidateSignature(s) => s.wf(),
        }
    }
}

/// The exact encoding of an operation: a one-byte tag, then the payload.
pub open spec fn spec_pack(v: InstructionView) -> Seq<u8> {
    match v {
        InstructionView::InitSignerGroup => seq![0u8],
        InstructionView::InitValidSigner(a) => seq![1u8] + a,
        InstructionView::ClearValidSigner => seq![2u8],
        InstructionView::ValidateSignature(s) => seq![3u8] + s.signature + seq![s.recovery_id]
            + s.message,
    }
}

/// The decoding of a request buffer; `None` when the buffer is empty, the
/// tag is unrecognized, or a fixed-size payload is shorter than required.
///
/// Trailing bytes after a fixed-size payload are ignored; the message of a
/// `ValidateSignature` request is all bytes after the 65-byte
/// signature-plus-recovery-id prefix.
pub open spec fn spec_unpack(b: Seq<u8>) -> Option<InstructionView> {
    if b.len() == 0 {
        None
    } else if b[0] == 0 {
        Some(InstructionView::InitSignerGroup)
    } else if b[0] == 1 {
        if b.len() >= 21 {
            Some(InstructionView::InitValidSigner(b.subrange(1, 21)))
        } else {
            None
        }
    } else if b[0] == 2 {
        Some(InstructionView::ClearValidSigner)
    } else if b[0] == 3 {
        if b.len() >= 66 {
            Some(
                InstructionView::ValidateSignature(
                    SignatureView {
                        signature: b.subrange(1, 65),
                        recovery_id: b[65],
                        message: b.skip(66),
                    },
                ),
            )
        } else {
            None
        }
    } else {
        None
    }
}

/// Decoding inverts encoding: every well-formed operation survives a round
/// trip through the wire format unchanged.
pub proof fn lemma_pack_unpack_roundtrip(v: InstructionView)
    requires
        v.wf(),
    ensures
        spec_unpack(spec_pack(v)) == Some(v),
{
    let b = spec_pack(v);
    match v {
        InstructionView::InitSignerGroup => {
        },
        InstructionView::InitValidSigner(a) => {
            assert(b.subrange(1, 21) =~= a);
        },
        InstructionView::ClearValidSigner => {
        },
        InstructionView::ValidateSignature(s) => {
            assert(b.subrange(1, 65) =~= s.signature);
            assert(b[65] == s.recovery_id);
            assert(b.skip(66) =~= s.message);
        },
    }
}

impl AudiusInstruction {
    /// Unpacks a byte buffer into an [`AudiusInstruction`].
    pub fn unpack(input: &Vec<u8>) -> (r: Result<AudiusInstruction, AudiusError>)
        ensures
            match r {
                Ok(i) => spec_unpack(input@) == Some(i@) && i@.wf(),
                Err(e) => spec_unpack(input@) is None && e == AudiusError::InvalidInstruction,
            },
    {
        if input.len() == 0 {
            return Err(AudiusError::InvalidInstruction);
        }
        let tag = input[0];
        if tag == 0 {
            Ok(AudiusInstruction::InitSignerGroup)
        } else if tag == 1 {
            if input.len() < 21 {
                return Err(AudiusError::InvalidInstruction);
            }
            let eth_pubkey = copy_range(input, 1, 20);
            Ok(AudiusInstruction::InitValidSigner(eth_pubkey))
        } else if tag == 2 {
            Ok(AudiusInstruction::ClearValidSigner)
        } else if tag == 3 {
            if input.len() < 66 {
                return Err(AudiusError::InvalidInstruction);
            }
            let signature = copy_range(input, 1, 64);
            let recovery_id = input[65];
            let message = copy_range(input, 66, input.len() - 66);
            proof {
                assert(input@.subrange(66, input@.len() as int) =~= input@.skip(66));
            }
            Ok(AudiusInstruction::ValidateSignature(Signature { signature, recovery_id, message }))
        } else {
            Err(AudiusError::InvalidInstruction)
        }
    }

    /// Packs an [`AudiusInstruction`] into a byte buffer.
    pub fn pack(&self) -> (r: Vec<u8>)
        ensures
            r@ == spec_pack(self@),
    {
        let mut buf: Vec<u8> = Vec::new();
        match self {
            AudiusInstruction::InitSignerGroup => {
                buf.push(0);
            },
            AudiusInstruction::InitValidSigner(eth_pubkey) => {
                buf.push(1);
                append_all(&mut buf, eth_pubkey);
            },
            AudiusInstruction::ClearValidSigner => {
                buf.push(2);
            },
            AudiusInstruction::ValidateSignature(signature_data) => {
                buf.push(3);
                append_all(&mut buf, &signature_data.signature);
                buf.push(signature_data.recovery_id);
                append_all(&mut buf, &signature_data.message);
                proof {
                    assert(buf@ =~= spec_pack(self@));
                }
            },
        }
        proof {
            assert(buf@ =~= spec_pack(self@));
        }
        buf
    }
}

} // verus!
