//! The instruction codec: turning an opaque byte payload into a typed
//! operation.
//!
//! Byte 0 of a payload is the opcode. Opcode 0 selects the initialization
//! operation and is followed by two little-endian unsigned 64-bit amounts at
//! bytes 1..9 and 9..17. Decoding is a pure parse step: it is total over its
//! error cases and never panics on malformed input.

use vstd::prelude::*;

use vstd::bytes::spec_u64_from_le_bytes;
use vstd::bytes::u64_from_le_bytes;

use crate::error::TroveError;

verus! {

/// A typed operation decoded from one invocation's payload.
#[derive(Clone, Copy, Debug, PartialEq, Eq, Structural)]
pub enum TroveInstruction {
    /// Creates and populates a trove record in the storage slot supplied by
    /// the host.
    ///
    /// Accounts expected, in order:
    ///
    /// 0. `[writable]` The trove storage account, owned by this program.
    /// 1. `[signer]`   The borrower: the authority that will own the trove.
    /// 2. `[]`         The rent / exemption reference account.
    InitTrove {
        /// The amount of collateral deposited. Parsed and validated, but the
        /// realized initialization transition stores a zero balance; a
        /// separate operation would apply amounts.
        amount_sol: u64,
        /// The amount of debt borrowed. Parsed and validated, but the
        /// realized initialization transition stores a zero balance.
        amount_usd: u64,
    },
}

/// What decoding a payload yields: the typed operation, or
/// [`TroveError::InvalidInstruction`] when the payload is empty, its opcode
/// is unknown, or it is too short for both amount fields.
pub open spec fn spec_parse_instruction(s: Seq<u8>) -> Result<TroveInstruction, TroveError> {
    if s.len() == 0 {
        Err(TroveError::InvalidInstruction)
    } else if s[0] != 0 {
        Err(TroveError::InvalidInstruction)
    } else if s.len() < 17 {
        Err(TroveError::InvalidInstruction)
    } else {
        Ok(
            TroveInstruction::InitTrove {
                amount_sol: spec_u64_from_le_bytes(s.subrange(1, 9)),
                amount_usd: spec_u64_from_le_bytes(s.subrange(9, 17)),
            },
        )
    }
}

impl TroveInstruction {
    /// Decodes a byte payload into a [`TroveInstruction`].
    pub fn unpack(input: &[u8]) -> (r: Result<TroveInstruction, TroveError>)
        ensures
            r == spec_parse_instruction(input@),
    {
        if input.len() == 0 {
            return Err(TroveError::InvalidInstruction);
        }
        let tag = input[0];
        if tag != 0 {
            return Err(TroveError::InvalidInstruction);
        }
        let rest = &input[1..input.len()];
        let amount_sol = match Self::unpack_amount_sol(rest) {
            Ok(a) => a,
            Err(e) => {
                return Err(e);
            },
        };
        let amount_usd = match Self::unpack_amount_usd(rest) {
            Ok(a) => a,
            Err(e) => {
                return Err(e);
            },
        };
        proof {
            assert(rest@.subrange(0, 8) =~= input@.subrange(1, 9));
            assert(rest@.subrange(8, 16) =~= input@.subrange(9, 17));
        }
        Ok(TroveInstruction::InitTrove { amount_sol, amount_usd })
    }

    /// Reads the collateral amount at its fixed offset in the payload's
    /// remainder, bytes 0..8 after the opcode.
    fn unpack_amount_sol(input: &[u8]) -> (r: Result<u64, TroveError>)
        ensures
            input@.len() >= 8 ==> r == Ok::<u64, TroveError>(
                spec_u64_from_le_bytes(input@.subrange(0, 8)),
            ),
            input@.len() < 8 ==> r == Err::<u64, TroveError>(TroveError::InvalidInstruction),
    {
        if input.len() < 8 {
            return Err(TroveError::InvalidInstruction);
        }
        Ok(u64_from_le_bytes(&input[0..8]))
    }

    /// Reads the debt amount at its fixed offset in the payload's remainder,
    /// bytes 8..16 after the opcode.
    fn unpack_amount_usd(input: &[u8]) -> (r: Result<u64, TroveError>)
        ensures
            input@.len() >= 16 ==> r == Ok::<u64, TroveError>(
                spec_u64_from_le_bytes(input@.subrange(8, 16)),
            ),
            input@.len() < 16 ==> r == Err::<u64, TroveError>(TroveError::InvalidInstruction),
    {
        if input.len() < 16 {
            return Err(TroveError::InvalidInstruction);
        }
        Ok(u64_from_le_bytes(&input[8..16]))
    }
}

} // verus!
