//! On-chain donation ledger: a program that records donations routed from
//! contributing users to a designated recipient ("bank"), keeping a
//! per-deployment directory of contributors and a per-contributor history of
//! amounts.
//!
//! The library models the host platform's account system with plain values
//! (32-byte keys, `u64` lamport balances) and verifies the program's own
//! logic: address derivation checks, account constraints, the four
//! instruction handlers, the persistent record codec, and the error mapping.

pub mod accounts;
pub mod codec;
pub mod dispatch;
pub mod donate;
pub mod errors;
pub mod initialize;
pub mod initialize_user;
pub mod keys;
pub mod laws;
pub mod pda;
pub mod state;
pub mod withdraw;

use vstd::prelude::*;

verus! {

/// The fixed 32-byte program id, declared at deployment time.
pub open spec fn program_id_seq() -> Seq<u8> {
    seq![
        178u8, 138u8, 1u8, 183u8, 179u8, 175u8, 209u8, 38u8,
        158u8, 96u8, 35u8, 161u8, 35u8, 180u8, 52u8, 106u8,
        217u8, 2u8, 109u8, 40u8, 184u8, 119u8, 228u8, 199u8,
        131u8, 76u8, 241u8, 142u8, 146u8, 140u8, 218u8, 35u8,
    ]
}

/// Builds the program's own identity key.
pub fn program_id() -> (k: keys::Pubkey)
    ensures
        k@ == program_id_seq(),
        k.wf(),
{
    let mut bytes: Vec<u8> = Vec::new();
    bytes.push(178u8); bytes.push(138u8); bytes.push(1u8); bytes.push(183u8);
    bytes.push(179u8); bytes.push(175u8); bytes.push(209u8); bytes.push(38u8);
    bytes.push(158u8); bytes.push(96u8); bytes.push(35u8); bytes.push(161u8);
    bytes.push(35u8); bytes.push(180u8); bytes.push(52u8); bytes.push(106u8);
    bytes.push(217u8); bytes.push(2u8); bytes.push(109u8); bytes.push(40u8);
    bytes.push(184u8); bytes.push(119u8); bytes.push(228u8); bytes.push(199u8);
    bytes.push(131u8); bytes.push(76u8); bytes.push(241u8); bytes.push(142u8);
    bytes.push(146u8); bytes.push(140u8); bytes.push(218u8); bytes.push(35u8);
    assert(bytes@ =~= program_id_seq());
    keys::Pubkey::new(bytes)
}

} // verus!
