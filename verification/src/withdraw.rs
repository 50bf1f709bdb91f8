//! The `withdraw_donations` instruction: the bank itself signs to release
//! funds, and they can go only to the owner frozen at `initialize`. No
//! record is mutated; the bank's remaining balance is its own ledger.

use vstd::prelude::*;
use crate::accounts::{transfer, AccountInfo, AccountView};
use crate::errors::LedgerError;
use crate::keys::Pubkey;
use crate::pda::{check_derivation, derived_address, store_seed, store_tag};
use crate::state::{StoreAccount, StoreAccountView, StoreView};

verus! {

/// The accounts `withdraw_donations` loads: the bank (signer), the owner
/// (destination), and the deployment's `Store`.
pub struct Withdraw {
    pub bank: AccountInfo,
    pub owner: AccountInfo,
    pub store: StoreAccount,
}

#[verifier::ext_equal]
pub struct WithdrawView {
    pub bank: AccountView,
    pub owner: AccountView,
    pub store: StoreAccountView,
}

impl View for Withdraw {
    type V = WithdrawView;

    open spec fn view(&self) -> WithdrawView {
        WithdrawView { bank: self.bank@, owner: self.owner@, store: self.store@ }
    }
}

impl Withdraw {
    pub open spec fn wf(&self) -> bool {
        self.bank.wf() && self.owner.wf() && self.store.wf()
    }
}

/// The declarative constraints of `withdraw_donations`: the bank signs and
/// is writable, it equals `store.bank`, the destination equals
/// `store.owner`, and the store account sits at its canonical derivation
/// with its recorded bump.
pub open spec fn withdraw_constraints_ok(
    program_id: Seq<u8>,
    v: WithdrawView,
    store: StoreView,
) -> bool {
    &&& v.bank.is_signer
    &&& v.bank.is_writable
    &&& v.owner.is_writable
    &&& v.store.is_writable
    &&& v.bank.key == store.bank
    &&& v.owner.key == store.owner
    &&& derived_address(store_tag(), store.owner, program_id) == Some((v.store.key, store.bump))
}

/// What `withdraw_donations` does: a missing record, a failed constraint,
/// an amount beyond the bank's balance, and an overflowing destination
/// abort with nothing changed; otherwise the lamports move from the bank to
/// the owner and the record stays as it was.
pub open spec fn withdraw_step(program_id: Seq<u8>, pre: WithdrawView, lamports: u64) -> (Result<
    (),
    LedgerError,
>, WithdrawView) {
    if pre.store.record is None {
        (Err(LedgerError::NotInitialized), pre)
    } else if !withdraw_constraints_ok(program_id, pre, pre.store.record.unwrap()) {
        (Err(LedgerError::ConstraintFailure), pre)
    } else if lamports > pre.bank.lamports {
        (Err(LedgerError::InvalidArgument), pre)
    } else if pre.owner.lamports + lamports > u64::MAX {
        (Err(LedgerError::TransferFailure), pre)
    } else {
        (
            Ok(()),
            WithdrawView {
                bank: AccountView { lamports: (pre.bank.lamports - lamports) as u64, ..pre.bank },
                owner: AccountView {
                    lamports: (pre.owner.lamports + lamports) as u64,
                    ..pre.owner
                },
                store: pre.store,
            },
        )
    }
}

/// Moves `lamports` from the bank to the owner; any failure leaves all
/// balances and the record unchanged.
pub fn withdraw_donations(program_id: &Pubkey, ctx: &mut Withdraw, lamports: u64) -> (r: Result<
    (),
    LedgerError,
>)
    requires
        program_id.wf(),
        old(ctx).wf(),
    ensures
        final(ctx).wf(),
        r == withdraw_step(program_id@, old(ctx)@, lamports).0,
        final(ctx)@ == withdraw_step(program_id@, old(ctx)@, lamports).1,
{
    {
        let store_rec = match &ctx.store.record {
            None => {
                return Err(LedgerError::NotInitialized);
            },
            Some(s) => s,
        };
        if !(ctx.bank.is_signer && ctx.bank.is_writable && ctx.owner.is_writable
            && ctx.store.is_writable) {
            return Err(LedgerError::ConstraintFailure);
        }
        if !ctx.bank.key.key_eq(&store_rec.bank) {
            return Err(LedgerError::ConstraintFailure);
        }
        if !ctx.owner.key.key_eq(&store_rec.owner) {
            return Err(LedgerError::ConstraintFailure);
        }
        let tag = store_seed();
        if !check_derivation(&tag, &store_rec.owner, program_id, &ctx.store.key, store_rec.bump) {
            return Err(LedgerError::ConstraintFailure);
        }
        if lamports > ctx.bank.lamports {
            return Err(LedgerError::InvalidArgument);
        }
    }
    match transfer(&mut ctx.bank, &mut ctx.owner, lamports) {
        Err(e) => {
            proof {
                assert(ctx@ =~~= withdraw_step(program_id@, old(ctx)@, lamports).1);
            }
            Err(e)
        },
        Ok(()) => {
            proof {
                assert(ctx@ =~~= withdraw_step(program_id@, old(ctx)@, lamports).1);
            }
            Ok(())
        },
    }
}

} // verus!
