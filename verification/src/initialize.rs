//! The `initialize` instruction: creates the deployment's `Store` at its
//! derived address, freezing the owner and the bank for all later
//! instructions.

use vstd::prelude::*;
use crate::accounts::{AccountInfo, AccountView};
use crate::errors::LedgerError;
use crate::keys::Pubkey;
use crate::pda::{derived_address, locate_store_address, store_tag};
use crate::state::{Store, StoreAccount, StoreAccountView, StoreView, RECORD_SPACE};

verus! {

/// The accounts `initialize` loads: the owner (signer, payer), the bank
/// (key-only reference), and the account that will hold the `Store`.
pub struct Initialize {
    pub owner: AccountInfo,
    pub bank: AccountInfo,
    pub store: StoreAccount,
}

#[verifier::ext_equal]
pub struct InitializeView {
    pub owner: AccountView,
    pub bank: AccountView,
    pub store: StoreAccountView,
}

impl View for Initialize {
    type V = InitializeView;

    open spec fn view(&self) -> InitializeView {
        InitializeView { owner: self.owner@, bank: self.bank@, store: self.store@ }
    }
}

impl Initialize {
    pub open spec fn wf(&self) -> bool {
        self.owner.wf() && self.bank.wf() && self.store.wf()
    }
}

/// The declarative constraints of `initialize`: the owner signs and is
/// writable, the store account is writable, and its address is the canonical
/// derivation from `("store", owner)`.
pub open spec fn initialize_constraints_ok(program_id: Seq<u8>, v: InitializeView) -> bool {
    &&& v.owner.is_signer
    &&& v.owner.is_writable
    &&& v.store.is_writable
    &&& match derived_address(store_tag(), v.owner.key, program_id) {
        Some(p) => p.0 == v.store.key,
        None => false,
    }
}

/// What `initialize` does: on success the store account holds a fresh
/// `Store` with the owner, the bank, an empty directory and the canonical
/// bump, allocated with `RECORD_SPACE` bytes; on failure nothing changes.
pub open spec fn initialize_step(program_id: Seq<u8>, pre: InitializeView) -> (Result<
    (),
    LedgerError,
>, InitializeView) {
    if !initialize_constraints_ok(program_id, pre) {
        (Err(LedgerError::ConstraintFailure), pre)
    } else if pre.store.record is Some {
        (Err(LedgerError::AlreadyInitialized), pre)
    } else {
        let bump = derived_address(store_tag(), pre.owner.key, program_id).unwrap().1;
        let record = StoreView {
            owner: pre.owner.key,
            bank: pre.bank.key,
            users: Seq::empty(),
            bump,
        };
        (
            Ok(()),
            InitializeView {
                store: StoreAccountView {
                    key: pre.store.key,
                    record: Some(record),
                    space: RECORD_SPACE,
                    is_writable: pre.store.is_writable,
                },
                ..pre
            },
        )
    }
}

/// Creates the `Store`; fails with `AlreadyInitialized` if the account
/// already holds one, leaving it untouched.
pub fn initialize(program_id: &Pubkey, ctx: &mut Initialize) -> (r: Result<(), LedgerError>)
    requires
        program_id.wf(),
        old(ctx).wf(),
    ensures
        final(ctx).wf(),
        r == initialize_step(program_id@, old(ctx)@).0,
        final(ctx)@ == initialize_step(program_id@, old(ctx)@).1,
{
    let derived = locate_store_address(&ctx.owner.key, program_id);
    match derived {
        None => Err(LedgerError::ConstraintFailure),
        Some((addr, bump)) => {
            if !(ctx.owner.is_signer && ctx.owner.is_writable && ctx.store.is_writable) {
                return Err(LedgerError::ConstraintFailure);
            }
            if !addr.key_eq(&ctx.store.key) {
                return Err(LedgerError::ConstraintFailure);
            }
            if ctx.store.record.is_some() {
                return Err(LedgerError::AlreadyInitialized);
            }
            let record = Store::new(ctx.owner.key.dup(), ctx.bank.key.dup(), bump);
            ctx.store.record = Some(record);
            ctx.store.space = RECORD_SPACE;
            proof {
                assert(ctx@ =~~= initialize_step(program_id@, old(ctx)@).1);
            }
            Ok(())
        },
    }
}

} // verus!
