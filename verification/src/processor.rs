//! The validation and transition pipeline.
//!
//! Given the invoking program's identity, the ordered list of account
//! buffers the host supplied, and an instruction payload, the pipeline
//! decodes the payload, runs an ordered chain of independent checks — rent
//! exemption, not-yet-initialized, storage ownership, borrower signature —
//! and only when every check passes encodes a freshly initialized trove
//! record into the storage buffer. The first failing check aborts the call
//! with its own error kind and leaves every buffer untouched.

use vstd::prelude::*;

use crate::error::TroveError;
use crate::instruction::spec_parse_instruction;
use crate::instruction::TroveInstruction;
use crate::math::Decimal;
use crate::state::lemma_trove_round_trip;
use crate::state::spec_parse_trove;
use crate::state::spec_trove_bytes;
use crate::state::InitTroveParams;
use crate::state::Pubkey;
use crate::state::Trove;
use crate::state::TroveView;
use crate::state::PROGRAM_VERSION;
use crate::state::PUBKEY_BYTES;
use crate::state::TROVE_LEN;

verus! {

/// One host-supplied account buffer, as the invocation contract exposes it:
/// an address, an owning-program tag, a signer flag, a balance and the
/// persisted bytes.
pub struct Account {
    /// The account's address.
    pub key: Pubkey,
    /// The program that owns the account.
    pub owner: Pubkey,
    /// Whether this account signed the invocation.
    pub is_signer: bool,
    /// The account's balance.
    pub lamports: u64,
    /// The persisted byte buffer, borrowed mutably for the call.
    pub data: Vec<u8>,
}

/// The mathematical model of an [`Account`].
#[verifier::ext_equal]
pub struct AccountView {
    /// The 32 bytes of the account's address.
    pub key: Seq<u8>,
    /// The 32 bytes of the owning program's identity.
    pub owner: Seq<u8>,
    /// Whether this account signed the invocation.
    pub is_signer: bool,
    /// The account's balance.
    pub lamports: u64,
    /// The persisted bytes.
    pub data: Seq<u8>,
}

impl View for Account {
    type V = AccountView;

    open spec fn view(&self) -> AccountView {
        AccountView {
            key: self.key@,
            owner: self.owner@,
            is_signer: self.is_signer,
            lamports: self.lamports,
            data: self.data@,
        }
    }
}

/// The model of a whole account list.
pub open spec fn spec_accounts_view(accounts: Seq<Account>) -> Seq<AccountView> {
    accounts.map_values(|a: Account| a@)
}

/// The rent-exemption predicate: the balance meets or exceeds the minimum
/// the host's rent schedule computed for the storage account.
pub open spec fn spec_rent_exempt(account: AccountView, rent_minimum_balance: u64) -> bool {
    account.lamports >= rent_minimum_balance
}

/// What inspecting the storage buffer before initialization yields: the
/// decoded record when the buffer is exactly one record wide, decodes, and
/// is still uninitialized; otherwise the first applicable error.
pub open spec fn spec_check_uninitialized(account: AccountView) -> Result<TroveView, TroveError> {
    if account.data.len() != TROVE_LEN {
        Err(TroveError::AccountParsingError)
    } else {
        match spec_parse_trove(account.data) {
            Err(e) => Err(e),
            Ok(t) => if t.is_initialized() {
                Err(TroveError::AlreadyInitialized)
            } else {
                Ok(t)
            },
        }
    }
}

/// The record a successful initialization writes: current schema version,
/// the borrower's key, and zero balances. The payload's amount arguments are
/// parsed and validated but not yet applied to the stored balances.
pub open spec fn spec_initialized_trove(owner_key: Seq<u8>) -> TroveView {
    TroveView { version: PROGRAM_VERSION, owner: owner_key, deposited_sol: 0, borrowed_usd: 0 }
}

/// The outcome of the initialization pipeline on a given account list:
/// either the record to be written, or the error of the first failing check,
/// in the fixed order rent exemption, uninitialized, storage ownership,
/// borrower signature.
pub open spec fn spec_init_trove(
    program_id: Seq<u8>,
    accounts: Seq<AccountView>,
    rent_minimum_balance: u64,
) -> Result<TroveView, TroveError> {
    if accounts.len() < 3 {
        Err(TroveError::AccountParsingError)
    } else if !spec_rent_exempt(accounts[0], rent_minimum_balance) {
        Err(TroveError::NotRentExempt)
    } else {
        match spec_check_uninitialized(accounts[0]) {
            Err(e) => Err(e),
            Ok(_) => if accounts[0].owner != program_id {
                Err(TroveError::InvalidAccountOwner)
            } else if !accounts[1].is_signer {
                Err(TroveError::InvalidSigner)
            } else {
                Ok(spec_initialized_trove(accounts[1].key))
            },
        }
    }
}

/// The outcome of one whole invocation: a payload that does not decode fails
/// with its parse error before any account is inspected; a decoded
/// initialization instruction runs the pipeline.
pub open spec fn spec_process(
    program_id: Seq<u8>,
    accounts: Seq<AccountView>,
    payload: Seq<u8>,
    rent_minimum_balance: u64,
) -> Result<TroveView, TroveError> {
    match spec_parse_instruction(payload) {
        Err(e) => Err(e),
        Ok(_) => spec_init_trove(program_id, accounts, rent_minimum_balance),
    }
}

/// How a successful initialization changes the account list: only the
/// storage buffer at index 0 is overwritten, with the encoded record; every
/// other account, and every other field of the storage account, is kept.
pub open spec fn spec_accounts_written(
    olds: Seq<Account>,
    news: Seq<Account>,
    t: TroveView,
) -> bool {
    &&& news.len() == olds.len()
    &&& forall|i: int| 1 <= i < olds.len() ==> news[i] == olds[i]
    &&& news[0].key == olds[0].key
    &&& news[0].owner == olds[0].owner
    &&& news[0].is_signer == olds[0].is_signer
    &&& news[0].lamports == olds[0].lamports
    &&& news[0].data@ == spec_trove_bytes(t)
}

/// Fails with [`TroveError::NotRentExempt`] unless the account's balance
/// meets the rent-exemption minimum the host computed for it.
pub fn assert_rent_exempt(rent_minimum_balance: u64, account: &Account) -> (r: Result<
    (),
    TroveError,
>)
    ensures
        r == (if spec_rent_exempt(account@, rent_minimum_balance) {
            Ok::<(), TroveError>(())
        } else {
            Err::<(), TroveError>(TroveError::NotRentExempt)
        }),
{
    if account.lamports < rent_minimum_balance {
        Err(TroveError::NotRentExempt)
    } else {
        Ok(())
    }
}

/// Decodes the storage buffer and fails with
/// [`TroveError::AlreadyInitialized`] when the record's version is already
/// non-zero, preventing double initialization of the same slot.
pub fn assert_uninitialized(account: &Account) -> (r: Result<Trove, TroveError>)
    ensures
        r matches Ok(t) ==> spec_check_uninitialized(account@) == Ok::<TroveView, TroveError>(t@),
        r matches Err(e) ==> spec_check_uninitialized(account@) == Err::<TroveView, TroveError>(e),
{
    if account.data.len() != TROVE_LEN {
        return Err(TroveError::AccountParsingError);
    }
    let trove = match Trove::unpack_from_slice(account.data.as_slice()) {
        Ok(t) => t,
        Err(e) => {
            return Err(e);
        },
    };
    if trove.is_initialized() {
        return Err(TroveError::AlreadyInitialized);
    }
    Ok(trove)
}

/// The entry point of the core's logic.
pub struct Processor;

impl Processor {
    /// Runs one invocation: decodes the payload, dispatches the operation,
    /// and either writes the initialized record into the storage buffer or
    /// returns the error of the first failing check with every buffer
    /// untouched.
    pub fn process(
        program_id: &Pubkey,
        accounts: &mut Vec<Account>,
        instruction_data: &[u8],
        rent_minimum_balance: u64,
    ) -> (r: Result<(), TroveError>)
        ensures
            ({
                let outcome = spec_process(
                    program_id@,
                    spec_accounts_view(old(accounts)@),
                    instruction_data@,
                    rent_minimum_balance,
                );
                match r {
                    Ok(_) => outcome matches Ok(t) && spec_accounts_written(
                        old(accounts)@,
                        final(accounts)@,
                        t,
                    ),
                    Err(e) => outcome == Err::<TroveView, TroveError>(e) && final(accounts)@
                        == old(accounts)@,
                }
            }),
    {
        let instruction = match TroveInstruction::unpack(instruction_data) {
            Ok(i) => i,
            Err(e) => {
                return Err(e);
            },
        };
        match instruction {
            TroveInstruction::InitTrove { amount_sol: _, amount_usd: _ } => {
                Self::process_init_trove(program_id, accounts, rent_minimum_balance)
            },
        }
    }

    /// The initialization pipeline: the ordered checks of
    /// [`spec_init_trove`], then the in-place write-back of the encoded
    /// record.
    pub fn process_init_trove(
        program_id: &Pubkey,
        accounts: &mut Vec<Account>,
        rent_minimum_balance: u64,
    ) -> (r: Result<(), TroveError>)
        ensures
            ({
                let outcome = spec_init_trove(
                    program_id@,
                    spec_accounts_view(old(accounts)@),
                    rent_minimum_balance,
                );
                match r {
                    Ok(_) => outcome matches Ok(t) && spec_accounts_written(
                        old(accounts)@,
                        final(accounts)@,
                        t,
                    ),
                    Err(e) => outcome == Err::<TroveView, TroveError>(e) && final(accounts)@
                        == old(accounts)@,
                }
            }),
    {
        if accounts.len() < 3 {
            return Err(TroveError::AccountParsingError);
        }
        match assert_rent_exempt(rent_minimum_balance, &accounts[0]) {
            Ok(_) => {},
            Err(e) => {
                return Err(e);
            },
        }
        let mut trove = match assert_uninitialized(&accounts[0]) {
            Ok(t) => t,
            Err(e) => {
                return Err(e);
            },
        };
        if !accounts[0].owner.equals(program_id) {
            return Err(TroveError::InvalidAccountOwner);
        }
        if !accounts[1].is_signer {
            return Err(TroveError::InvalidSigner);
        }
        let zero = match Decimal::from_integer(0) {
            Ok(d) => d,
            Err(e) => {
                return Err(e);
            },
        };
        let owner_key = accounts[1].key.clone();
        trove.init(InitTroveParams { owner: owner_key, deposited_sol: zero, borrowed_usd: zero });
        let storage = &mut accounts[0];
        trove.pack_into_slice(&mut storage.data);
        proof {
            let olds = spec_accounts_view(old(accounts)@);
            assert(trove@ =~= spec_initialized_trove(olds[1].key));
            assert(final(storage).data@ =~= spec_trove_bytes(trove@));
        }
        Ok(())
    }
}

/// Law: initializing the same storage slot a second time, with the balances
/// and authorities of a call that succeeded, fails with
/// [`TroveError::AlreadyInitialized`]; since every failing call leaves the
/// buffers untouched, the stored record after the failed call is the one the
/// first call wrote.
pub proof fn lemma_init_idempotent_rejection(
    program_id: Seq<u8>,
    accounts: Seq<AccountView>,
    rent_minimum_balance: u64,
    t: TroveView,
)
    requires
        spec_init_trove(program_id, accounts, rent_minimum_balance) == Ok::<TroveView, TroveError>(
            t,
        ),
        accounts[1].key.len() == PUBKEY_BYTES,
    ensures
        spec_init_trove(
            program_id,
            accounts.update(
                0,
                AccountView {
                    key: accounts[0].key,
                    owner: accounts[0].owner,
                    is_signer: accounts[0].is_signer,
                    lamports: accounts[0].lamports,
                    data: spec_trove_bytes(t),
                },
            ),
            rent_minimum_balance,
        ) == Err::<TroveView, TroveError>(TroveError::AlreadyInitialized),
{
    vstd::bytes::lemma_auto_spec_u128_to_from_le_bytes();
    assert(t == spec_initialized_trove(accounts[1].key));
    assert(spec_trove_bytes(t).len() == TROVE_LEN);
    lemma_trove_round_trip(t);
}

/// Law: the rent-exemption check runs before the initialization check — a
/// storage account that is below the rent minimum and at the same time
/// already initialized fails with [`TroveError::NotRentExempt`].
pub proof fn lemma_rent_check_runs_first(
    program_id: Seq<u8>,
    accounts: Seq<AccountView>,
    rent_minimum_balance: u64,
)
    requires
        accounts.len() >= 3,
        !spec_rent_exempt(accounts[0], rent_minimum_balance),
        spec_check_uninitialized(accounts[0]) == Err::<TroveView, TroveError>(
            TroveError::AlreadyInitialized,
        ),
    ensures
        spec_init_trove(program_id, accounts, rent_minimum_balance) == Err::<
            TroveView,
            TroveError,
        >(TroveError::NotRentExempt),
{
}

/// Law: with the rent and initialization checks passing, a storage account
/// whose owning-program tag differs from the invoking program fails with
/// [`TroveError::InvalidAccountOwner`]; the pipeline's contract adds that
/// every failing call leaves the buffers untouched.
pub proof fn lemma_foreign_owner_rejected(
    program_id: Seq<u8>,
    accounts: Seq<AccountView>,
    rent_minimum_balance: u64,
)
    requires
        accounts.len() >= 3,
        spec_rent_exempt(accounts[0], rent_minimum_balance),
        spec_check_uninitialized(accounts[0]) is Ok,
        accounts[0].owner != program_id,
    ensures
        spec_init_trove(program_id, accounts, rent_minimum_balance) == Err::<
            TroveView,
            TroveError,
        >(TroveError::InvalidAccountOwner),
{
}

/// Law: with every earlier check passing, a borrower account that did not
/// sign the invocation fails with [`TroveError::InvalidSigner`].
pub proof fn lemma_missing_signature_rejected(
    program_id: Seq<u8>,
    accounts: Seq<AccountView>,
    rent_minimum_balance: u64,
)
    requires
        accounts.len() >= 3,
        spec_rent_exempt(accounts[0], rent_minimum_balance),
        spec_check_uninitialized(accounts[0]) is Ok,
        accounts[0].owner == program_id,
        !accounts[1].is_signer,
    ensures
        spec_init_trove(program_id, accounts, rent_minimum_balance) == Err::<
            TroveView,
            TroveError,
        >(TroveError::InvalidSigner),
{
}

} // verus!
