//! Error types

use vstd::prelude::*;

verus! {

/// Errors that may be returned by the Audius program.
///
/// Every failure is returned to the caller as a typed error with no partial
/// state mutation: an operation either commits as a whole or rejects as a
/// whole.
#[derive(Clone, Copy, Debug, PartialEq, Eq)]
pub enum AudiusError {
    /// The operation buffer is empty, carries an unknown tag, or a fixed-size
    /// payload is shorter than required.
    InvalidInstruction,
    /// `InitSignerGroup` was applied to a signer group that is already
    /// initialized.
    SignerGroupAlreadyInitialized,
    /// The referenced signer group record is not initialized.
    UninitializedSignerGroup,
    /// `InitValidSigner` was applied to a valid signer that is already
    /// initialized.
    SignerAlreadyInitialized,
    /// The claimed owner does not match the signer group's owner.
    WrongOwner,
    /// The caller did not cryptographically authorize the call as the
    /// claimed owner.
    SignatureMissing,
    /// `ValidateSignature` was applied against an uninitialized (or revoked)
    /// valid signer.
    UninitializedSigner,
    /// The co-processor's offsets descriptor is undersized, or the byte
    /// ranges it describes do not fit inside the referenced instructions.
    MalformedOffsets,
    /// The triple extracted from the batch does not equal the claimed
    /// signature, the registered address, and the claimed message.
    SignatureMismatch,
    /// A record buffer is shorter than the record's fixed serialized length.
    InvalidAccountData,
}

} // verus!
