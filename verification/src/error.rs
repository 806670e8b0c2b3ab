//! The error taxonomy shared by every component of the core.
//!
//! Each kind aborts the invocation: the host discards all buffer mutations of
//! the failing call, so no partial state is ever persisted.

use vstd::prelude::*;

verus! {

/// Every way an invocation of the core can fail.
#[derive(Clone, Copy, Debug, PartialEq, Eq, Structural)]
pub enum TroveError {
    /// The instruction payload is empty, its opcode is unknown, or its
    /// amount fields cannot be read at their fixed offsets.
    InvalidInstruction,
    /// The trove storage account's balance is below the rent-exemption
    /// minimum that the host's rent schedule demands for it.
    NotRentExempt,
    /// Init was attempted on a storage slot that already holds an
    /// initialized trove record.
    AlreadyInitialized,
    /// The trove storage account is not owned by the invoking program.
    InvalidAccountOwner,
    /// The authority account required to sign the invocation did not.
    InvalidSigner,
    /// A decimal arithmetic operation would leave the representable range
    /// or go negative.
    AmountOverflow,
    /// The account list is shorter than the instruction requires, or a
    /// stored record is malformed (wrong length or an unsupported version).
    AccountParsingError,
}

} // verus!
