//! The persistent trove record and its fixed-offset binary codec.
//!
//! A trove is serialized into exactly [`TROVE_LEN`] bytes: byte 0 holds the
//! schema version, bytes 1..33 the owner's public key, bytes 33..49 the
//! deposited collateral and bytes 49..65 the borrowed debt, both as 16-byte
//! little-endian raw scaled magnitudes. The layout is part of the persisted
//! state: any change to field order or width is a breaking schema change.

use vstd::prelude::*;

use vstd::bytes::lemma_auto_spec_u128_to_from_le_bytes;
use vstd::bytes::spec_u128_from_le_bytes;
use vstd::bytes::spec_u128_to_le_bytes;
use vstd::bytes::u128_from_le_bytes;
use vstd::bytes::u128_to_le_bytes;

use crate::error::TroveError;
use crate::math::Decimal;

verus! {

/// Schema version written into every record this core initializes.
pub const PROGRAM_VERSION: u8 = 1;

/// The version a storage slot carries before it is ever initialized.
pub const UNINITIALIZED_VERSION: u8 = 0;

/// Width of a public key, in bytes.
pub const PUBKEY_BYTES: usize = 32;

/// Width of a serialized decimal, in bytes.
pub const DECIMAL_BYTES: usize = 16;

/// Total width of a serialized trove record: one version byte, a public key
/// and two serialized decimals.
pub const TROVE_LEN: usize = 65;

/// A 32-byte public key: the identity of an account or of a program.
#[derive(Debug)]
pub struct Pubkey {
    bytes: Vec<u8>,
}

impl View for Pubkey {
    type V = Seq<u8>;

    closed spec fn view(&self) -> Seq<u8> {
        self.bytes@
    }
}

impl Pubkey {
    #[verifier::type_invariant]
    spec fn type_inv(self) -> bool {
        self.bytes@.len() == PUBKEY_BYTES
    }

    /// Wraps 32 raw bytes as a key.
    pub fn new(bytes: Vec<u8>) -> (p: Pubkey)
        requires
            bytes@.len() == PUBKEY_BYTES,
        ensures
            p@ == bytes@,
    {
        Pubkey { bytes }
    }

    /// The raw bytes of the key.
    pub fn as_bytes(&self) -> (r: &Vec<u8>)
        ensures
            r@ == self@,
    {
        &self.bytes
    }

    /// Whether two keys are byte-for-byte identical.
    pub fn equals(&self, other: &Pubkey) -> (r: bool)
        ensures
            r == (self@ == other@),
    {
        proof {
            use_type_invariant(self);
            use_type_invariant(other);
        }
        let mut i: usize = 0;
        while i < PUBKEY_BYTES
            invariant
                i <= PUBKEY_BYTES,
                self@.len() == PUBKEY_BYTES,
                other@.len() == PUBKEY_BYTES,
                forall|k: int| 0 <= k < i ==> self@[k] == other@[k],
            decreases PUBKEY_BYTES - i,
        {
            if self.bytes[i] != other.bytes[i] {
                return false;
            }
            i += 1;
        }
        proof {
            assert(self@ =~= other@);
        }
        true
    }
}

impl Clone for Pubkey {
    /// A clone carries the same 32 bytes.
    fn clone(&self) -> (r: Self)
        ensures
            r@ == self@,
    {
        proof {
            use_type_invariant(self);
        }
        let mut bytes: Vec<u8> = Vec::new();
        let mut i: usize = 0;
        while i < PUBKEY_BYTES
            invariant
                i <= PUBKEY_BYTES,
                self@.len() == PUBKEY_BYTES,
                bytes@ == self@.subrange(0, i as int),
            decreases PUBKEY_BYTES - i,
        {
            bytes.push(self.bytes[i]);
            i += 1;
            proof {
                assert(bytes@ =~= self@.subrange(0, i as int));
            }
        }
        proof {
            assert(bytes@ =~= self@);
        }
        Pubkey { bytes }
    }
}

/// One borrower's collateralized-debt position.
#[derive(Debug)]
pub struct Trove {
    /// Schema version of the record; [`UNINITIALIZED_VERSION`] means the
    /// slot has never been initialized.
    pub version: u8,
    /// The authority permitted to mutate this trove.
    pub owner: Pubkey,
    /// Collateral backing the position.
    pub deposited_sol: Decimal,
    /// Debt issued against the collateral.
    pub borrowed_usd: Decimal,
}

/// The mathematical model of a [`Trove`].
#[verifier::ext_equal]
pub struct TroveView {
    /// Schema version of the record.
    pub version: u8,
    /// The 32 bytes of the owner's key.
    pub owner: Seq<u8>,
    /// Raw scaled magnitude of the deposited collateral.
    pub deposited_sol: u128,
    /// Raw scaled magnitude of the borrowed debt.
    pub borrowed_usd: u128,
}

impl View for Trove {
    type V = TroveView;

    open spec fn view(&self) -> TroveView {
        TroveView {
            version: self.version,
            owner: self.owner@,
            deposited_sol: self.deposited_sol.spec_raw(),
            borrowed_usd: self.borrowed_usd.spec_raw(),
        }
    }
}

impl TroveView {
    /// Whether the record has been initialized.
    pub open spec fn is_initialized(self) -> bool {
        self.version != UNINITIALIZED_VERSION
    }
}

/// Arguments of the initialization transition.
pub struct InitTroveParams {
    /// The authority that will own the trove.
    pub owner: Pubkey,
    /// Collateral deposited at initialization.
    pub deposited_sol: Decimal,
    /// Debt borrowed at initialization.
    pub borrowed_usd: Decimal,
}

impl Trove {
    /// Creates a trove already carrying the current schema version and the
    /// given owner and balances.
    pub fn new(params: InitTroveParams) -> (t: Trove)
        ensures
            t@ == (TroveView {
                version: PROGRAM_VERSION,
                owner: params.owner@,
                deposited_sol: params.deposited_sol.spec_raw(),
                borrowed_usd: params.borrowed_usd.spec_raw(),
            }),
    {
        Trove {
            version: PROGRAM_VERSION,
            owner: params.owner,
            deposited_sol: params.deposited_sol,
            borrowed_usd: params.borrowed_usd,
        }
    }

    /// Overwrites the record with a freshly initialized position: current
    /// schema version, the given owner, the given balances.
    pub fn init(&mut self, params: InitTroveParams)
        ensures
            final(self)@ == (TroveView {
                version: PROGRAM_VERSION,
                owner: params.owner@,
                deposited_sol: params.deposited_sol.spec_raw(),
                borrowed_usd: params.borrowed_usd.spec_raw(),
            }),
    {
        self.version = PROGRAM_VERSION;
        self.owner = params.owner;
        self.deposited_sol = params.deposited_sol;
        self.borrowed_usd = params.borrowed_usd;
    }

    /// Whether this record has been initialized: its version is non-zero.
    pub fn is_initialized(&self) -> (r: bool)
        ensures
            r == self@.is_initialized(),
    {
        self.version != UNINITIALIZED_VERSION
    }
}

/// The 65-byte serialized form of a trove record.
pub open spec fn spec_trove_bytes(t: TroveView) -> Seq<u8> {
    seq![t.version] + t.owner + spec_u128_to_le_bytes(t.deposited_sol) + spec_u128_to_le_bytes(
        t.borrowed_usd,
    )
}

/// What decoding a stored byte buffer yields: the record at the fixed
/// offsets, or [`TroveError::AccountParsingError`] when the buffer is too
/// short for the layout or carries a version newer than this program
/// supports.
pub open spec fn spec_parse_trove(s: Seq<u8>) -> Result<TroveView, TroveError> {
    if s.len() < TROVE_LEN {
        Err(TroveError::AccountParsingError)
    } else if s[0] > PROGRAM_VERSION {
        Err(TroveError::AccountParsingError)
    } else {
        Ok(
            TroveView {
                version: s[0],
                owner: s.subrange(1, 33),
                deposited_sol: spec_u128_from_le_bytes(s.subrange(33, 49)),
                borrowed_usd: spec_u128_from_le_bytes(s.subrange(49, 65)),
            },
        )
    }
}

impl Trove {
    /// Serializes the record into the first [`TROVE_LEN`] bytes of `dst`,
    /// leaving any bytes beyond them unchanged.
    pub fn pack_into_slice(&self, dst: &mut Vec<u8>)
        requires
            old(dst)@.len() >= TROVE_LEN,
        ensures
            final(dst)@ == spec_trove_bytes(self@) + old(dst)@.skip(TROVE_LEN as int),
            final(dst)@.len() == old(dst)@.len(),
    {
        proof {
            use_type_invariant(&self.owner);
            lemma_auto_spec_u128_to_from_le_bytes();
        }
        let mut out: Vec<u8> = Vec::new();
        out.push(self.version);
        let key = self.owner.as_bytes();
        let mut i: usize = 0;
        while i < PUBKEY_BYTES
            invariant
                i <= PUBKEY_BYTES,
                key@ == self.owner@,
                key@.len() == PUBKEY_BYTES,
                out@ == seq![self.version] + key@.subrange(0, i as int),
            decreases PUBKEY_BYTES - i,
        {
            out.push(key[i]);
            i += 1;
            proof {
                assert(out@ =~= seq![self.version] + key@.subrange(0, i as int));
            }
        }
        proof {
            assert(key@.subrange(0, PUBKEY_BYTES as int) =~= self.owner@);
        }
        let mut deposited = u128_to_le_bytes(self.deposited_sol.to_scaled_raw());
        out.append(&mut deposited);
        let mut borrowed = u128_to_le_bytes(self.borrowed_usd.to_scaled_raw());
        out.append(&mut borrowed);
        proof {
            assert(out@ =~= spec_trove_bytes(self@));
        }
        let mut j: usize = TROVE_LEN;
        while j < dst.len()
            invariant
                TROVE_LEN <= j <= dst@.len(),
                dst@ == old(dst)@,
                out@ == spec_trove_bytes(self@) + dst@.subrange(TROVE_LEN as int, j as int),
            decreases dst@.len() - j,
        {
            out.push(dst[j]);
            j += 1;
            proof {
                assert(out@ =~= spec_trove_bytes(self@) + dst@.subrange(
                    TROVE_LEN as int,
                    j as int,
                ));
            }
        }
        proof {
            assert(dst@.subrange(TROVE_LEN as int, dst@.len() as int) =~= dst@.skip(
                TROVE_LEN as int,
            ));
        }
        *dst = out;
    }

    /// Decodes a stored byte buffer, the inverse of [`Trove::pack_into_slice`]
    /// on the first [`TROVE_LEN`] bytes.
    pub fn unpack_from_slice(src: &[u8]) -> (r: Result<Trove, TroveError>)
        ensures
            r matches Ok(t) ==> spec_parse_trove(src@) == Ok::<TroveView, TroveError>(t@),
            r matches Err(e) ==> spec_parse_trove(src@) == Err::<TroveView, TroveError>(e),
    {
        if src.len() < TROVE_LEN {
            return Err(TroveError::AccountParsingError);
        }
        let version = src[0];
        if version > PROGRAM_VERSION {
            return Err(TroveError::AccountParsingError);
        }
        let mut owner_bytes: Vec<u8> = Vec::new();
        let mut i: usize = 1;
        while i < 1 + PUBKEY_BYTES
            invariant
                1 <= i <= 1 + PUBKEY_BYTES,
                src@.len() >= TROVE_LEN,
                owner_bytes@ == src@.subrange(1, i as int),
            decreases 1 + PUBKEY_BYTES - i,
        {
            owner_bytes.push(src[i]);
            i += 1;
            proof {
                assert(owner_bytes@ =~= src@.subrange(1, i as int));
            }
        }
        let owner = Pubkey::new(owner_bytes);
        let deposited_sol = unpack_decimal(&src[33..49]);
        let borrowed_usd = unpack_decimal(&src[49..65]);
        let t = Trove { version, owner, deposited_sol, borrowed_usd };
        proof {
            assert(spec_parse_trove(src@) == Ok::<TroveView, TroveError>(t@)) by {
                assert(t@ =~= spec_parse_trove(src@)->Ok_0);
            }
        }
        Ok(t)
    }
}

/// Serializes a decimal into a 16-byte little-endian region.
pub fn pack_decimal(decimal: Decimal, dst: &mut Vec<u8>)
    requires
        old(dst)@.len() == DECIMAL_BYTES,
    ensures
        final(dst)@ == spec_u128_to_le_bytes(decimal.spec_raw()),
{
    *dst = u128_to_le_bytes(decimal.to_scaled_raw());
}

/// Reads a decimal back from a 16-byte little-endian region.
pub fn unpack_decimal(src: &[u8]) -> (d: Decimal)
    requires
        src@.len() == DECIMAL_BYTES,
    ensures
        d.spec_raw() == spec_u128_from_le_bytes(src@),
{
    Decimal::from_scaled_raw(u128_from_le_bytes(src))
}

/// Serializes a flag into a one-byte region: 1 for true, 0 for false.
pub fn pack_bool(boolean: bool, dst: &mut Vec<u8>)
    requires
        old(dst)@.len() == 1,
    ensures
        final(dst)@ == seq![if boolean { 1u8 } else { 0u8 }],
{
    let mut out: Vec<u8> = Vec::new();
    out.push(if boolean { 1 } else { 0 });
    proof {
        assert(out@ =~= seq![if boolean { 1u8 } else { 0u8 }]);
    }
    *dst = out;
}

/// Law: decoding the encoding of any well-formed trove record yields the
/// record back, bit for bit — the codec loses nothing.
pub proof fn lemma_trove_round_trip(t: TroveView)
    requires
        t.owner.len() == PUBKEY_BYTES,
        t.version <= PROGRAM_VERSION,
    ensures
        spec_parse_trove(spec_trove_bytes(t)) == Ok::<TroveView, TroveError>(t),
{
    lemma_auto_spec_u128_to_from_le_bytes();
    let s = spec_trove_bytes(t);
    assert(s.len() == TROVE_LEN);
    assert(s[0] == t.version);
    assert(s.subrange(1, 33) =~= t.owner);
    assert(s.subrange(33, 49) =~= spec_u128_to_le_bytes(t.deposited_sol));
    assert(s.subrange(49, 65) =~= spec_u128_to_le_bytes(t.borrowed_usd));
    assert(spec_parse_trove(s)->Ok_0 =~= t);
}

} // verus!
