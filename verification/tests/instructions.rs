use solana_project::accounts::AccountInfo;
use solana_project::dispatch::{process_instruction, InstructionAccounts, DISC_INITIALIZE,
    DISC_MAKE_DONATIONS};
use solana_project::donate::{make_donations, Donate};
use solana_project::errors::{exit_code, LedgerError};
use solana_project::initialize::{initialize, Initialize};
use solana_project::initialize_user::{initialize_user, InitializeUser};
use solana_project::keys::Pubkey;
use solana_project::pda::{locate_store_address, locate_user_store_address};
use solana_project::program_id;
use solana_project::state::{Store, StoreAccount, UserStoreAccount, RECORD_SPACE};
use solana_project::withdraw::{withdraw_donations, Withdraw};

fn key(b: u8) -> Pubkey {
    Pubkey::new(vec![b; 32])
}

fn account(b: u8, lamports: u64, is_signer: bool) -> AccountInfo {
    AccountInfo { key: key(b), lamports, is_signer, is_writable: true }
}

/// Runs a successful `initialize(owner=A, bank=B)` and returns the store
/// account.
fn fresh_store(owner: u8, bank: u8) -> StoreAccount {
    let pid = program_id();
    let (store_key, _bump) = locate_store_address(&key(owner), &pid).unwrap();
    let mut ctx = Initialize {
        owner: account(owner, 10_000_000, true),
        bank: account(bank, 0, false),
        store: StoreAccount { key: store_key, record: None, space: 0, is_writable: true },
    };
    assert_eq!(initialize(&pid, &mut ctx), Ok(()));
    ctx.store
}

/// Runs a successful `initialize_user(user=U)` against `store` and returns
/// the user-store account.
fn fresh_user_store(user: u8, bank: u8, store: &StoreAccount) -> UserStoreAccount {
    let pid = program_id();
    let (us_key, _bump) = locate_user_store_address(&key(user), &pid).unwrap();
    let mut ctx = InitializeUser {
        user: account(user, 10_000_000, true),
        user_store: UserStoreAccount { key: us_key, record: None, space: 0, is_writable: true },
        bank: account(bank, 0, false),
        store: StoreAccount {
            key: store.key.dup(),
            record: clone_store_record(&store.record),
            space: store.space,
            is_writable: true,
        },
    };
    assert_eq!(initialize_user(&pid, &mut ctx), Ok(()));
    ctx.user_store
}

fn clone_store_record(record: &Option<Store>) -> Option<Store> {
    record.as_ref().map(|s| Store {
        owner: s.owner.dup(),
        bank: s.bank.dup(),
        users: s.users.iter().map(|k| k.dup()).collect(),
        bump: s.bump,
    })
}

fn donate_ctx(user: u8, bank: u8, store: StoreAccount, user_store: UserStoreAccount) -> Donate {
    Donate {
        from_user: account(user, 5_000_000, true),
        bank: account(bank, 0, false),
        store,
        user_store,
    }
}

#[test]
fn initialize_sets_owner_bank_and_empty_directory() {
    let pid = program_id();
    let store = fresh_store(1, 2);
    let record = store.record.as_ref().unwrap();
    assert_eq!(record.owner, key(1));
    assert_eq!(record.bank, key(2));
    assert!(record.users.is_empty());
    assert_eq!(store.space, RECORD_SPACE);
    let (_, bump) = locate_store_address(&key(1), &pid).unwrap();
    assert_eq!(record.bump, bump);
}

#[test]
fn initialize_user_sets_user_bank_and_empty_history() {
    let pid = program_id();
    let store = fresh_store(1, 2);
    let user_store = fresh_user_store(3, 2, &store);
    let record = user_store.record.as_ref().unwrap();
    assert_eq!(record.user, key(3));
    assert_eq!(record.bank, key(2));
    assert!(record.donation.is_empty());
    let (_, bump) = locate_user_store_address(&key(3), &pid).unwrap();
    assert_eq!(record.bump, bump);
}

#[test]
fn reinitialize_fails_and_store_is_untouched() {
    let pid = program_id();
    let store = fresh_store(1, 2);
    let before = format!("{:?}", store.record);
    let mut ctx = Initialize {
        owner: account(1, 10_000_000, true),
        bank: account(2, 0, false),
        store,
    };
    assert_eq!(initialize(&pid, &mut ctx), Err(LedgerError::AlreadyInitialized));
    assert_eq!(format!("{:?}", ctx.store.record), before);
}

#[test]
fn first_donation_records_user_and_amount_and_moves_lamports() {
    let pid = program_id();
    let store = fresh_store(1, 2);
    let user_store = fresh_user_store(3, 2, &store);
    let mut ctx = donate_ctx(3, 2, store, user_store);
    assert_eq!(make_donations(&pid, &mut ctx, 1_000_000), Ok(()));
    assert_eq!(ctx.bank.lamports, 1_000_000);
    assert_eq!(ctx.from_user.lamports, 4_000_000);
    let store_rec = ctx.store.record.as_ref().unwrap();
    assert_eq!(store_rec.users.len(), 1);
    assert_eq!(store_rec.users[0], key(3));
    let us_rec = ctx.user_store.record.as_ref().unwrap();
    assert_eq!(us_rec.donation, vec![1_000_000]);
}

#[test]
fn second_donation_keeps_directory_and_appends_amount() {
    let pid = program_id();
    let store = fresh_store(1, 2);
    let user_store = fresh_user_store(3, 2, &store);
    let mut ctx = donate_ctx(3, 2, store, user_store);
    assert_eq!(make_donations(&pid, &mut ctx, 1_000_000), Ok(()));
    assert_eq!(make_donations(&pid, &mut ctx, 500_000), Ok(()));
    let store_rec = ctx.store.record.as_ref().unwrap();
    assert_eq!(store_rec.users.len(), 1);
    assert_eq!(store_rec.users[0], key(3));
    let us_rec = ctx.user_store.record.as_ref().unwrap();
    assert_eq!(us_rec.donation, vec![1_000_000, 500_000]);
    assert_eq!(ctx.bank.lamports, 1_500_000);
}

#[test]
fn second_user_joins_directory_with_own_history() {
    let pid = program_id();
    let store = fresh_store(1, 2);
    let user_store_u = fresh_user_store(3, 2, &store);
    let mut ctx = donate_ctx(3, 2, store, user_store_u);
    assert_eq!(make_donations(&pid, &mut ctx, 1_000_000), Ok(()));

    let user_store_v = fresh_user_store(4, 2, &ctx.store);
    let mut ctx2 = donate_ctx(4, 2, ctx.store, user_store_v);
    assert_eq!(make_donations(&pid, &mut ctx2, 2_000_000), Ok(()));

    let store_rec = ctx2.store.record.as_ref().unwrap();
    assert_eq!(store_rec.users.len(), 2);
    assert_eq!(store_rec.users[0], key(3));
    assert_eq!(store_rec.users[1], key(4));
    let us_rec = ctx2.user_store.record.as_ref().unwrap();
    assert_eq!(us_rec.donation, vec![2_000_000]);
}

#[test]
fn zero_donation_is_invalid_and_changes_nothing() {
    let pid = program_id();
    let store = fresh_store(1, 2);
    let user_store = fresh_user_store(3, 2, &store);
    let mut ctx = donate_ctx(3, 2, store, user_store);
    assert_eq!(make_donations(&pid, &mut ctx, 0), Err(LedgerError::InvalidArgument));
    assert_eq!(ctx.bank.lamports, 0);
    assert_eq!(ctx.from_user.lamports, 5_000_000);
    assert!(ctx.store.record.as_ref().unwrap().users.is_empty());
    assert!(ctx.user_store.record.as_ref().unwrap().donation.is_empty());
}

#[test]
fn donation_beyond_balance_fails_transfer_and_changes_nothing() {
    let pid = program_id();
    let store = fresh_store(1, 2);
    let user_store = fresh_user_store(3, 2, &store);
    let mut ctx = donate_ctx(3, 2, store, user_store);
    assert_eq!(make_donations(&pid, &mut ctx, 5_000_001), Err(LedgerError::TransferFailure));
    assert_eq!(ctx.bank.lamports, 0);
    assert_eq!(ctx.from_user.lamports, 5_000_000);
    assert!(ctx.store.record.as_ref().unwrap().users.is_empty());
    assert!(ctx.user_store.record.as_ref().unwrap().donation.is_empty());
}

#[test]
fn donation_that_no_longer_fits_overflows_and_changes_nothing() {
    let pid = program_id();
    let store = fresh_store(1, 2);
    let mut user_store = fresh_user_store(3, 2, &store);
    // An empty history serializes to 69 bytes; one entry needs 77.
    user_store.space = 69;
    let mut ctx = donate_ctx(3, 2, store, user_store);
    assert_eq!(make_donations(&pid, &mut ctx, 1_000_000), Err(LedgerError::SerializationOverflow));
    assert_eq!(ctx.bank.lamports, 0);
    assert_eq!(ctx.from_user.lamports, 5_000_000);
    assert!(ctx.store.record.as_ref().unwrap().users.is_empty());
    assert!(ctx.user_store.record.as_ref().unwrap().donation.is_empty());
}

#[test]
fn donation_overflowing_the_directory_fails_and_changes_nothing() {
    let pid = program_id();
    let mut store = fresh_store(1, 2);
    // An empty directory serializes to 69 bytes; one entry needs 101.
    store.space = 100;
    let user_store = fresh_user_store(3, 2, &store);
    let mut ctx = donate_ctx(3, 2, store, user_store);
    assert_eq!(make_donations(&pid, &mut ctx, 1_000_000), Err(LedgerError::SerializationOverflow));
    assert_eq!(ctx.bank.lamports, 0);
    assert!(ctx.store.record.as_ref().unwrap().users.is_empty());
}

#[test]
fn donation_with_wrong_bank_fails_constraints() {
    let pid = program_id();
    let store = fresh_store(1, 2);
    let user_store = fresh_user_store(3, 2, &store);
    // Account 9 is not the bank recorded in the store.
    let mut ctx = donate_ctx(3, 9, store, user_store);
    assert_eq!(make_donations(&pid, &mut ctx, 1_000_000), Err(LedgerError::ConstraintFailure));
    assert_eq!(ctx.bank.lamports, 0);
}

#[test]
fn withdraw_moves_lamports_to_owner_and_keeps_record() {
    let pid = program_id();
    let store = fresh_store(1, 2);
    let before = format!("{:?}", store.record);
    let mut ctx = Withdraw {
        bank: account(2, 3_500_000, true),
        owner: account(1, 0, false),
        store,
    };
    assert_eq!(withdraw_donations(&pid, &mut ctx, 3_500_000), Ok(()));
    assert_eq!(ctx.bank.lamports, 0);
    assert_eq!(ctx.owner.lamports, 3_500_000);
    assert_eq!(format!("{:?}", ctx.store.record), before);
}

#[test]
fn withdraw_not_signed_by_bank_fails_constraints() {
    let pid = program_id();
    let store = fresh_store(1, 2);
    let mut ctx = Withdraw {
        bank: account(2, 3_500_000, false),
        owner: account(1, 0, false),
        store,
    };
    assert_eq!(withdraw_donations(&pid, &mut ctx, 1_000_000), Err(LedgerError::ConstraintFailure));
    assert_eq!(ctx.bank.lamports, 3_500_000);
    assert_eq!(ctx.owner.lamports, 0);
}

#[test]
fn withdraw_beyond_bank_balance_is_invalid() {
    let pid = program_id();
    let store = fresh_store(1, 2);
    let mut ctx = Withdraw {
        bank: account(2, 100, true),
        owner: account(1, 0, false),
        store,
    };
    assert_eq!(withdraw_donations(&pid, &mut ctx, 101), Err(LedgerError::InvalidArgument));
    assert_eq!(ctx.bank.lamports, 100);
}

#[test]
fn donate_against_missing_records_is_not_initialized() {
    let pid = program_id();
    let store = fresh_store(1, 2);
    let (us_key, _) = locate_user_store_address(&key(3), &pid).unwrap();
    let mut ctx = Donate {
        from_user: account(3, 5_000_000, true),
        bank: account(2, 0, false),
        store,
        user_store: UserStoreAccount {
            key: us_key,
            record: None,
            space: RECORD_SPACE,
            is_writable: true,
        },
    };
    assert_eq!(make_donations(&pid, &mut ctx, 1_000_000), Err(LedgerError::NotInitialized));
}

#[test]
fn derived_addresses_are_deterministic_and_fresh() {
    let pid = program_id();
    let (a1, b1) = locate_store_address(&key(1), &pid).unwrap();
    let (a2, b2) = locate_store_address(&key(1), &pid).unwrap();
    assert_eq!(a1, a2);
    assert_eq!(b1, b2);
    // The derived address is not the owner's own key, and the two tags
    // derive different addresses for the same identity.
    assert_ne!(a1, key(1));
    let (a3, _) = locate_user_store_address(&key(1), &pid).unwrap();
    assert_ne!(a1, a3);
}

#[test]
fn dispatcher_routes_a_donation_payload() {
    let pid = program_id();
    let store = fresh_store(1, 2);
    let user_store = fresh_user_store(3, 2, &store);
    let mut accounts = InstructionAccounts::ForDonate(donate_ctx(3, 2, store, user_store));
    let mut payload: Vec<u8> = DISC_MAKE_DONATIONS.to_le_bytes().to_vec();
    payload.extend(1_000_000u64.to_le_bytes());
    assert_eq!(process_instruction(&pid, &payload, &mut accounts), Ok(()));
    match accounts {
        InstructionAccounts::ForDonate(ctx) => {
            assert_eq!(ctx.bank.lamports, 1_000_000);
            assert_eq!(ctx.user_store.record.as_ref().unwrap().donation, vec![1_000_000]);
        }
        _ => panic!("account set changed shape"),
    }
}

#[test]
fn dispatcher_rejects_a_mismatched_account_set() {
    let pid = program_id();
    let store = fresh_store(1, 2);
    let mut accounts = InstructionAccounts::ForWithdraw(Withdraw {
        bank: account(2, 0, true),
        owner: account(1, 0, false),
        store,
    });
    let payload: Vec<u8> = DISC_INITIALIZE.to_le_bytes().to_vec();
    assert_eq!(
        process_instruction(&pid, &payload, &mut accounts),
        Err(LedgerError::ConstraintFailure)
    );
}

#[test]
fn exit_codes_are_zero_on_success_and_distinct_on_failure() {
    assert_eq!(exit_code(&Ok(())), 0);
    let errors = [
        LedgerError::ConstraintFailure,
        LedgerError::AlreadyInitialized,
        LedgerError::NotInitialized,
        LedgerError::TransferFailure,
        LedgerError::InvalidArgument,
        LedgerError::SerializationOverflow,
    ];
    let mut codes: Vec<u64> = errors.iter().map(|e| exit_code(&Err(*e))).collect();
    codes.sort();
    codes.dedup();
    assert_eq!(codes.len(), errors.len());
    assert!(codes.iter().all(|c| *c != 0));
}
