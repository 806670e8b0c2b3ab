use trove_core::error::TroveError;
use trove_core::processor::assert_rent_exempt;
use trove_core::processor::assert_uninitialized;
use trove_core::processor::Account;
use trove_core::processor::Processor;
use trove_core::state::Pubkey;
use trove_core::state::Trove;
use trove_core::state::PROGRAM_VERSION;
use trove_core::state::TROVE_LEN;

const RENT_MINIMUM: u64 = 890_880;

fn key_of(fill: u8) -> Pubkey {
    Pubkey::new(vec![fill; 32])
}

fn init_payload(amount_sol: u64, amount_usd: u64) -> Vec<u8> {
    let mut payload = vec![0u8];
    payload.extend_from_slice(&amount_sol.to_le_bytes());
    payload.extend_from_slice(&amount_usd.to_le_bytes());
    payload
}

/// The three well-formed accounts Init expects: a rent-exempt, zeroed,
/// program-owned storage account; a signing borrower; a rent reference.
fn well_formed_accounts(program: &Pubkey, borrower: &Pubkey) -> Vec<Account> {
    vec![
        Account {
            key: key_of(0x10),
            owner: program.clone(),
            is_signer: false,
            lamports: RENT_MINIMUM,
            data: vec![0u8; TROVE_LEN],
        },
        Account {
            key: borrower.clone(),
            owner: key_of(0x22),
            is_signer: true,
            lamports: 1,
            data: Vec::new(),
        },
        Account {
            key: key_of(0x30),
            owner: key_of(0x22),
            is_signer: false,
            lamports: 1,
            data: Vec::new(),
        },
    ]
}

#[test]
fn concrete_init_succeeds() {
    let program = key_of(0x77);
    let borrower = key_of(0x55);
    let mut accounts = well_formed_accounts(&program, &borrower);
    let payload = init_payload(1_000_000, 500_000);

    let result = Processor::process(&program, &mut accounts, &payload, RENT_MINIMUM);
    assert_eq!(result, Ok(()));

    assert_eq!(accounts[0].data.len(), TROVE_LEN);
    let stored = Trove::unpack_from_slice(&accounts[0].data).unwrap();
    assert_eq!(stored.version, PROGRAM_VERSION);
    assert_eq!(stored.owner.as_bytes(), borrower.as_bytes());
    // The payload's amounts are parsed but not yet applied: both balances
    // are stored as zero.
    assert_eq!(stored.deposited_sol.to_scaled_raw(), 0);
    assert_eq!(stored.borrowed_usd.to_scaled_raw(), 0);
}

#[test]
fn second_init_rejected_and_record_kept() {
    let program = key_of(0x77);
    let borrower = key_of(0x55);
    let mut accounts = well_formed_accounts(&program, &borrower);
    let payload = init_payload(1_000_000, 500_000);

    assert_eq!(
        Processor::process(&program, &mut accounts, &payload, RENT_MINIMUM),
        Ok(())
    );
    let after_first = accounts[0].data.clone();

    assert_eq!(
        Processor::process(&program, &mut accounts, &payload, RENT_MINIMUM),
        Err(TroveError::AlreadyInitialized)
    );
    assert_eq!(accounts[0].data, after_first);
}

#[test]
fn rent_check_runs_before_initialized_check() {
    let program = key_of(0x77);
    let borrower = key_of(0x55);
    let mut accounts = well_formed_accounts(&program, &borrower);
    // Already initialized...
    let payload = init_payload(1, 1);
    assert_eq!(
        Processor::process(&program, &mut accounts, &payload, RENT_MINIMUM),
        Ok(())
    );
    // ...and, at the same time, no longer rent-exempt.
    accounts[0].lamports = RENT_MINIMUM - 1;
    assert_eq!(
        Processor::process(&program, &mut accounts, &payload, RENT_MINIMUM),
        Err(TroveError::NotRentExempt)
    );
}

#[test]
fn not_rent_exempt_rejected() {
    let program = key_of(0x77);
    let borrower = key_of(0x55);
    let mut accounts = well_formed_accounts(&program, &borrower);
    accounts[0].lamports = RENT_MINIMUM - 1;
    assert_eq!(
        Processor::process(&program, &mut accounts, &init_payload(1, 1), RENT_MINIMUM),
        Err(TroveError::NotRentExempt)
    );
}

#[test]
fn foreign_owner_rejected_buffer_untouched() {
    let program = key_of(0x77);
    let borrower = key_of(0x55);
    let mut accounts = well_formed_accounts(&program, &borrower);
    accounts[0].owner = key_of(0x99);
    assert_eq!(
        Processor::process(&program, &mut accounts, &init_payload(1, 1), RENT_MINIMUM),
        Err(TroveError::InvalidAccountOwner)
    );
    assert_eq!(accounts[0].data, vec![0u8; TROVE_LEN]);
}

#[test]
fn missing_signature_rejected() {
    let program = key_of(0x77);
    let borrower = key_of(0x55);
    let mut accounts = well_formed_accounts(&program, &borrower);
    accounts[1].is_signer = false;
    assert_eq!(
        Processor::process(&program, &mut accounts, &init_payload(1, 1), RENT_MINIMUM),
        Err(TroveError::InvalidSigner)
    );
}

#[test]
fn malformed_payload_rejected_before_accounts() {
    let program = key_of(0x77);
    let mut accounts: Vec<Account> = Vec::new();
    assert_eq!(
        Processor::process(&program, &mut accounts, &[], RENT_MINIMUM),
        Err(TroveError::InvalidInstruction)
    );
}

#[test]
fn short_account_list_rejected() {
    let program = key_of(0x77);
    let borrower = key_of(0x55);
    let mut accounts = well_formed_accounts(&program, &borrower);
    accounts.pop();
    accounts.pop();
    assert_eq!(
        Processor::process(&program, &mut accounts, &init_payload(1, 1), RENT_MINIMUM),
        Err(TroveError::AccountParsingError)
    );
}

#[test]
fn wrong_storage_width_rejected() {
    let program = key_of(0x77);
    let borrower = key_of(0x55);
    let mut accounts = well_formed_accounts(&program, &borrower);
    accounts[0].data = vec![0u8; TROVE_LEN - 1];
    assert_eq!(
        Processor::process(&program, &mut accounts, &init_payload(1, 1), RENT_MINIMUM),
        Err(TroveError::AccountParsingError)
    );
}

#[test]
fn rent_exemption_boundary() {
    let program = key_of(0x77);
    let storage = Account {
        key: key_of(0x10),
        owner: program.clone(),
        is_signer: false,
        lamports: RENT_MINIMUM,
        data: vec![0u8; TROVE_LEN],
    };
    assert_eq!(assert_rent_exempt(RENT_MINIMUM, &storage), Ok(()));
    assert_eq!(
        assert_rent_exempt(RENT_MINIMUM + 1, &storage),
        Err(TroveError::NotRentExempt)
    );
}

#[test]
fn assert_uninitialized_on_zeroed_slot() {
    let program = key_of(0x77);
    let storage = Account {
        key: key_of(0x10),
        owner: program,
        is_signer: false,
        lamports: RENT_MINIMUM,
        data: vec![0u8; TROVE_LEN],
    };
    let trove = assert_uninitialized(&storage).unwrap();
    assert!(!trove.is_initialized());
}
