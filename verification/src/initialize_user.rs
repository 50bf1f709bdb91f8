//! The `initialize_user` instruction: creates a contributor's `UserStore` at
//! its derived address, against a real, matching `Store`. The bank is
//! re-verified against `store.bank` so a substituted `Store` is rejected.

use vstd::prelude::*;
use crate::accounts::{AccountInfo, AccountView};
use crate::errors::LedgerError;
use crate::keys::Pubkey;
use crate::pda::{check_derivation, derived_address, locate_user_store_address, store_seed,
    store_tag, user_store_tag};
use crate::state::{StoreAccount, StoreAccountView, UserStore, UserStoreAccount,
    UserStoreAccountView, UserStoreView, RECORD_SPACE};

verus! {

/// The accounts `initialize_user` loads: the contributor (signer, payer),
/// the account that will hold the `UserStore`, the bank (key-only,
/// cross-checked), and the deployment's `Store`.
pub struct InitializeUser {
    pub user: AccountInfo,
    pub user_store: UserStoreAccount,
    pub bank: AccountInfo,
    pub store: StoreAccount,
}

#[verifier::ext_equal]
pub struct InitializeUserView {
    pub user: AccountView,
    pub user_store: UserStoreAccountView,
    pub bank: AccountView,
    pub store: StoreAccountView,
}

impl View for InitializeUser {
    type V = InitializeUserView;

    open spec fn view(&self) -> InitializeUserView {
        InitializeUserView {
            user: self.user@,
            user_store: self.user_store@,
            bank: self.bank@,
            store: self.store@,
        }
    }
}

impl InitializeUser {
    pub open spec fn wf(&self) -> bool {
        self.user.wf() && self.user_store.wf() && self.bank.wf() && self.store.wf()
    }
}

/// The declarative constraints of `initialize_user`, checked against a
/// loaded `Store` record: the contributor signs and is writable, the new
/// account is writable and at the canonical derivation from
/// `("store_user", user)`, the bank equals `store.bank`, and the store
/// account sits at its own canonical derivation with its recorded bump.
pub open spec fn initialize_user_constraints_ok(
    program_id: Seq<u8>,
    v: InitializeUserView,
    store: crate::state::StoreView,
) -> bool {
    &&& v.user.is_signer
    &&& v.user.is_writable
    &&& v.user_store.is_writable
    &&& v.store.is_writable
    &&& match derived_address(user_store_tag(), v.user.key, program_id) {
        Some(p) => p.0 == v.user_store.key,
        None => false,
    }
    &&& v.bank.key == store.bank
    &&& derived_address(store_tag(), store.owner, program_id) == Some((v.store.key, store.bump))
}

/// What `initialize_user` does: on success the user-store account holds a
/// fresh `UserStore` bound to the contributor and to the store's bank, with
/// an empty history and the canonical bump; on failure nothing changes.
pub open spec fn initialize_user_step(program_id: Seq<u8>, pre: InitializeUserView) -> (Result<
    (),
    LedgerError,
>, InitializeUserView) {
    if pre.store.record is None {
        (Err(LedgerError::NotInitialized), pre)
    } else if !initialize_user_constraints_ok(program_id, pre, pre.store.record.unwrap()) {
        (Err(LedgerError::ConstraintFailure), pre)
    } else if pre.user_store.record is Some {
        (Err(LedgerError::AlreadyInitialized), pre)
    } else {
        let bump = derived_address(user_store_tag(), pre.user.key, program_id).unwrap().1;
        let record = UserStoreView {
            user: pre.user.key,
            bank: pre.bank.key,
            donation: Seq::empty(),
            bump,
        };
        (
            Ok(()),
            InitializeUserView {
                user_store: UserStoreAccountView {
                    key: pre.user_store.key,
                    record: Some(record),
                    space: RECORD_SPACE,
                    is_writable: pre.user_store.is_writable,
                },
                ..pre
            },
        )
    }
}

/// Creates the `UserStore`; fails with `NotInitialized` if the referenced
/// `Store` is absent and `AlreadyInitialized` if the contributor's record
/// already exists, leaving everything untouched.
pub fn initialize_user(program_id: &Pubkey, ctx: &mut InitializeUser) -> (r: Result<
    (),
    LedgerError,
>)
    requires
        program_id.wf(),
        old(ctx).wf(),
    ensures
        final(ctx).wf(),
        r == initialize_user_step(program_id@, old(ctx)@).0,
        final(ctx)@ == initialize_user_step(program_id@, old(ctx)@).1,
{
    let store_record = match &ctx.store.record {
        None => {
            return Err(LedgerError::NotInitialized);
        },
        Some(s) => s,
    };
    if !(ctx.user.is_signer && ctx.user.is_writable && ctx.user_store.is_writable
        && ctx.store.is_writable) {
        return Err(LedgerError::ConstraintFailure);
    }
    match locate_user_store_address(&ctx.user.key, program_id) {
        None => Err(LedgerError::ConstraintFailure),
        Some((addr, bump)) => {
            if !addr.key_eq(&ctx.user_store.key) {
                return Err(LedgerError::ConstraintFailure);
            }
            if !ctx.bank.key.key_eq(&store_record.bank) {
                return Err(LedgerError::ConstraintFailure);
            }
            let store_tag_bytes = store_seed();
            if !check_derivation(
                &store_tag_bytes,
                &store_record.owner,
                program_id,
                &ctx.store.key,
                store_record.bump,
            ) {
                return Err(LedgerError::ConstraintFailure);
            }
            if ctx.user_store.record.is_some() {
                return Err(LedgerError::AlreadyInitialized);
            }
            let record = UserStore::new(ctx.user.key.dup(), ctx.bank.key.dup(), bump);
            ctx.user_store.record = Some(record);
            ctx.user_store.space = RECORD_SPACE;
            proof {
                assert(ctx@ =~~= initialize_user_step(program_id@, old(ctx)@).1);
            }
            Ok(())
        },
    }
}

} // verus!
