//! On-ledger authorization primitive: a group owner registers a bounded set
//! of external signers (20-byte Ethereum-style addresses) and later accepts
//! or rejects secp256k1 signatures as proof that a message originated from
//! one of those signers.
//!
//! The crate covers the signer-group / valid-signer data model, the
//! instruction wire codec, the binary layout of the signature-offsets
//! descriptor produced by the secp256k1 co-processor, and the state
//! transition processor that cross-checks the co-processor's output.

use vstd::prelude::*;

pub mod bytes;
pub mod error;
pub mod instruction;
pub mod processor;
pub mod state;

verus! {

/// Current program version.
pub const PROGRAM_VERSION: u8 = 1;

} // verus!
