//! The `make_donations` instruction: moves lamports from a contributor to
//! the bank, then records the contributor in the store's directory (once)
//! and the amount in the contributor's history (always). A failure of any
//! kind leaves every account exactly as it was.

use vstd::prelude::*;
use crate::accounts::{transfer, transfer_ok, AccountInfo, AccountView};
use crate::errors::LedgerError;
use crate::keys::Pubkey;
use crate::pda::{check_derivation, derived_address, store_seed, store_tag, user_store_seed,
    user_store_tag};
use crate::state::{store_byte_len, store_put, user_store_byte_len, user_store_put, StoreAccount,
    StoreAccountView, StoreView, UserStoreAccount, UserStoreAccountView, UserStoreView};

verus! {

/// The accounts `make_donations` loads: the donating contributor (signer),
/// the bank, and the two record accounts.
pub struct Donate {
    pub from_user: AccountInfo,
    pub bank: AccountInfo,
    pub store: StoreAccount,
    pub user_store: UserStoreAccount,
}

#[verifier::ext_equal]
pub struct DonateView {
    pub from_user: AccountView,
    pub bank: AccountView,
    pub store: StoreAccountView,
    pub user_store: UserStoreAccountView,
}

impl View for Donate {
    type V = DonateView;

    open spec fn view(&self) -> DonateView {
        DonateView {
            from_user: self.from_user@,
            bank: self.bank@,
            store: self.store@,
            user_store: self.user_store@,
        }
    }
}

impl Donate {
    pub open spec fn wf(&self) -> bool {
        self.from_user.wf() && self.bank.wf() && self.store.wf() && self.user_store.wf()
    }
}

/// The declarative constraints of `make_donations`: every account is
/// writable, the contributor signs and equals `user_store.user`, the bank
/// equals `store.bank`, both record accounts sit at their canonical
/// derivations with their recorded bumps, and the two records agree on the
/// bank.
pub open spec fn donate_constraints_ok(
    program_id: Seq<u8>,
    v: DonateView,
    store: StoreView,
    us: UserStoreView,
) -> bool {
    &&& v.from_user.is_signer
    &&& v.from_user.is_writable
    &&& v.bank.is_writable
    &&& v.store.is_writable
    &&& v.user_store.is_writable
    &&& v.from_user.key == us.user
    &&& v.bank.key == store.bank
    &&& derived_address(store_tag(), store.owner, program_id) == Some((v.store.key, store.bump))
    &&& derived_address(user_store_tag(), us.user, program_id) == Some(
        (v.user_store.key, us.bump),
    )
    &&& store.bank == us.bank
}

/// What `make_donations` does, in the order the failures are observed: a
/// missing record, a failed constraint, a zero amount, a failing transfer,
/// and an append that would no longer fit all abort with nothing changed;
/// otherwise the lamports move and both records grow.
pub open spec fn donate_step(program_id: Seq<u8>, pre: DonateView, lamports: u64) -> (Result<
    (),
    LedgerError,
>, DonateView) {
    if pre.store.record is None || pre.user_store.record is None {
        (Err(LedgerError::NotInitialized), pre)
    } else {
        let store = pre.store.record.unwrap();
        let us = pre.user_store.record.unwrap();
        if !donate_constraints_ok(program_id, pre, store, us) {
            (Err(LedgerError::ConstraintFailure), pre)
        } else if lamports == 0 {
            (Err(LedgerError::InvalidArgument), pre)
        } else if !transfer_ok(pre.from_user, pre.bank, lamports) {
            (Err(LedgerError::TransferFailure), pre)
        } else if store_byte_len(store_put(store, pre.from_user.key)) > pre.store.space
            || user_store_byte_len(user_store_put(us, lamports)) > pre.user_store.space {
            (Err(LedgerError::SerializationOverflow), pre)
        } else {
            (
                Ok(()),
                DonateView {
                    from_user: AccountView {
                        lamports: (pre.from_user.lamports - lamports) as u64,
                        ..pre.from_user
                    },
                    bank: AccountView {
                        lamports: (pre.bank.lamports + lamports) as u64,
                        ..pre.bank
                    },
                    store: StoreAccountView {
                        record: Some(store_put(store, pre.from_user.key)),
                        ..pre.store
                    },
                    user_store: UserStoreAccountView {
                        record: Some(user_store_put(us, lamports)),
                        ..pre.user_store
                    },
                },
            )
        }
    }
}

/// Every check of `make_donations` that precedes the first side effect; the
/// result it returns is exactly the instruction's result.
fn donate_checks(program_id: &Pubkey, ctx: &Donate, lamports: u64) -> (r: Result<(), LedgerError>)
    requires
        program_id.wf(),
        ctx.wf(),
    ensures
        r == donate_step(program_id@, ctx@, lamports).0,
{
    let store_rec = match &ctx.store.record {
        None => {
            return Err(LedgerError::NotInitialized);
        },
        Some(s) => s,
    };
    let us_rec = match &ctx.user_store.record {
        None => {
            return Err(LedgerError::NotInitialized);
        },
        Some(s) => s,
    };
    if !(ctx.from_user.is_signer && ctx.from_user.is_writable && ctx.bank.is_writable
        && ctx.store.is_writable && ctx.user_store.is_writable) {
        return Err(LedgerError::ConstraintFailure);
    }
    if !ctx.from_user.key.key_eq(&us_rec.user) {
        return Err(LedgerError::ConstraintFailure);
    }
    if !ctx.bank.key.key_eq(&store_rec.bank) {
        return Err(LedgerError::ConstraintFailure);
    }
    let store_tag_bytes = store_seed();
    if !check_derivation(&store_tag_bytes, &store_rec.owner, program_id, &ctx.store.key,
        store_rec.bump) {
        return Err(LedgerError::ConstraintFailure);
    }
    let user_tag_bytes = user_store_seed();
    if !check_derivation(&user_tag_bytes, &us_rec.user, program_id, &ctx.user_store.key,
        us_rec.bump) {
        return Err(LedgerError::ConstraintFailure);
    }
    if !store_rec.bank.key_eq(&us_rec.bank) {
        return Err(LedgerError::ConstraintFailure);
    }
    if lamports == 0 {
        return Err(LedgerError::InvalidArgument);
    }
    if lamports > ctx.from_user.lamports || lamports > u64::MAX - ctx.bank.lamports {
        return Err(LedgerError::TransferFailure);
    }
    let joined = store_rec.contains_user(&ctx.from_user.key);
    let next_users: u128 = store_rec.users.len() as u128 + (if joined { 0u128 } else { 1u128 });
    let next_donations: u128 = us_rec.donation.len() as u128 + 1;
    if 69u128 + 32u128 * next_users > ctx.store.space as u128
        || 69u128 + 8u128 * next_donations > ctx.user_store.space as u128 {
        return Err(LedgerError::SerializationOverflow);
    }
    Ok(())
}

/// Performs a donation of `lamports` from the contributor to the bank and
/// records it; any failure leaves all four accounts unchanged.
pub fn make_donations(program_id: &Pubkey, ctx: &mut Donate, lamports: u64) -> (r: Result<
    (),
    LedgerError,
>)
    requires
        program_id.wf(),
        old(ctx).wf(),
    ensures
        final(ctx).wf(),
        r == donate_step(program_id@, old(ctx)@, lamports).0,
        final(ctx)@ == donate_step(program_id@, old(ctx)@, lamports).1,
{
    match donate_checks(program_id, ctx, lamports) {
        Err(e) => {
            return Err(e);
        },
        Ok(()) => {},
    }
    let donor = ctx.from_user.key.dup();
    match transfer(&mut ctx.from_user, &mut ctx.bank, lamports) {
        Err(e) => {
            return Err(e);
        },
        Ok(()) => {},
    }
    match &mut ctx.store.record {
        Some(s) => s.put_donate(donor),
        None => {},
    }
    match &mut ctx.user_store.record {
        Some(s) => s.put_donate(lamports),
        None => {},
    }
    proof {
        assert(ctx@ =~~= donate_step(program_id@, old(ctx)@, lamports).1);
    }
    Ok(())
}

} // verus!
