use solana_project::codec::{deserialize_store, deserialize_user_store, serialize_store,
    serialize_user_store};
use solana_project::dispatch::{parse_instruction, Instruction, DISC_INITIALIZE,
    DISC_INITIALIZE_USER, DISC_MAKE_DONATIONS, DISC_WITHDRAW_DONATIONS};
use solana_project::errors::LedgerError;
use solana_project::keys::Pubkey;
use solana_project::state::{Store, UserStore};

fn key(b: u8) -> Pubkey {
    Pubkey::new(vec![b; 32])
}

fn sample_store() -> Store {
    Store { owner: key(1), bank: key(2), users: vec![key(3), key(4)], bump: 254 }
}

fn sample_user_store() -> UserStore {
    UserStore { user: key(3), donation: vec![1_000_000, 500_000], bank: key(2), bump: 251 }
}

#[test]
fn store_layout_is_keys_count_entries_bump() {
    let bytes = serialize_store(&sample_store());
    assert_eq!(bytes.len(), 32 + 32 + 4 + 2 * 32 + 1);
    assert_eq!(&bytes[0..32], &[1u8; 32]);
    assert_eq!(&bytes[32..64], &[2u8; 32]);
    assert_eq!(&bytes[64..68], &[2, 0, 0, 0]);
    assert_eq!(&bytes[68..100], &[3u8; 32]);
    assert_eq!(&bytes[100..132], &[4u8; 32]);
    assert_eq!(bytes[132], 254);
}

#[test]
fn user_store_layout_is_keys_count_entries_bump() {
    let bytes = serialize_user_store(&sample_user_store());
    assert_eq!(bytes.len(), 32 + 32 + 4 + 2 * 8 + 1);
    assert_eq!(&bytes[0..32], &[3u8; 32]);
    assert_eq!(&bytes[32..64], &[2u8; 32]);
    assert_eq!(&bytes[64..68], &[2, 0, 0, 0]);
    assert_eq!(&bytes[68..76], &1_000_000u64.to_le_bytes());
    assert_eq!(&bytes[76..84], &500_000u64.to_le_bytes());
    assert_eq!(bytes[84], 251);
}

#[test]
fn store_round_trips_with_and_without_padding() {
    let original = sample_store();
    let bytes = serialize_store(&original);
    assert_eq!(deserialize_store(&bytes), Some(sample_store()));
    let mut padded = bytes.clone();
    padded.extend(std::iter::repeat(0u8).take(100));
    assert_eq!(deserialize_store(&padded), Some(sample_store()));
}

#[test]
fn user_store_round_trips_with_and_without_padding() {
    let original = sample_user_store();
    let bytes = serialize_user_store(&original);
    assert_eq!(deserialize_user_store(&bytes), Some(sample_user_store()));
    let mut padded = bytes.clone();
    padded.extend(std::iter::repeat(7u8).take(33));
    assert_eq!(deserialize_user_store(&padded), Some(sample_user_store()));
}

#[test]
fn empty_records_round_trip() {
    let store = Store { owner: key(1), bank: key(2), users: vec![], bump: 255 };
    let user_store = UserStore { user: key(3), donation: vec![], bank: key(2), bump: 250 };
    let store_back = deserialize_store(&serialize_store(&store)).unwrap();
    assert_eq!(store_back.users.len(), 0);
    assert_eq!(store_back.owner, key(1));
    let us_back = deserialize_user_store(&serialize_user_store(&user_store)).unwrap();
    assert_eq!(us_back.donation.len(), 0);
    assert_eq!(us_back.bump, 250);
}

#[test]
fn truncated_or_overstated_data_does_not_deserialize() {
    assert_eq!(deserialize_store(&vec![0u8; 68]), None);
    assert_eq!(deserialize_user_store(&vec![0u8; 12]), None);
    // A count that announces more entries than the data holds.
    let mut bytes = serialize_store(&sample_store());
    bytes[64] = 200;
    assert_eq!(deserialize_store(&bytes), None);
}

#[test]
fn payloads_parse_to_their_handlers() {
    let mut init: Vec<u8> = DISC_INITIALIZE.to_le_bytes().to_vec();
    assert_eq!(parse_instruction(&init), Ok(Instruction::Initialize));
    init.extend([0u8; 3]);
    assert_eq!(parse_instruction(&init), Ok(Instruction::Initialize));

    let init_user: Vec<u8> = DISC_INITIALIZE_USER.to_le_bytes().to_vec();
    assert_eq!(parse_instruction(&init_user), Ok(Instruction::InitializeUser));

    let mut donate: Vec<u8> = DISC_MAKE_DONATIONS.to_le_bytes().to_vec();
    donate.extend(1_000_000u64.to_le_bytes());
    assert_eq!(parse_instruction(&donate), Ok(Instruction::Donate(1_000_000)));

    let mut withdraw: Vec<u8> = DISC_WITHDRAW_DONATIONS.to_le_bytes().to_vec();
    withdraw.extend(42u64.to_le_bytes());
    assert_eq!(parse_instruction(&withdraw), Ok(Instruction::Withdraw(42)));
}

#[test]
fn malformed_payloads_are_invalid() {
    assert_eq!(parse_instruction(&vec![]), Err(LedgerError::InvalidArgument));
    assert_eq!(parse_instruction(&vec![1, 2, 3]), Err(LedgerError::InvalidArgument));
    // A known discriminator with its argument cut short.
    let donate: Vec<u8> = DISC_MAKE_DONATIONS.to_le_bytes().to_vec();
    assert_eq!(parse_instruction(&donate), Err(LedgerError::InvalidArgument));
    // An unknown discriminator.
    assert_eq!(parse_instruction(&vec![9u8; 16]), Err(LedgerError::InvalidArgument));
}
