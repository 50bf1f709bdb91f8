//! The guarantees the ledger gives across instructions, stated over the
//! handlers' step functions and proved once and for all.

use vstd::prelude::*;
use crate::dispatch::{spec_process, InstructionAccountsView};
use crate::donate::{donate_step, DonateView};
use crate::errors::LedgerError;
use crate::initialize::{initialize_constraints_ok, initialize_step, InitializeView};
use crate::initialize_user::{initialize_user_step, InitializeUserView};
use crate::withdraw::{withdraw_step, WithdrawView};

verus! {

/// The sum of a sequence of amounts.
pub open spec fn sum(s: Seq<u64>) -> int
    decreases s.len(),
{
    if s.len() == 0 {
        0
    } else {
        sum(s.drop_last()) + s.last()
    }
}

/// A donation never rewrites who the records are about: the store's owner,
/// bank and bump and the user store's user, bank and bump come out exactly
/// as they went in, whether the instruction succeeds or fails.
pub proof fn lemma_donate_fixes_identities(program_id: Seq<u8>, pre: DonateView, lamports: u64)
    requires
        pre.store.record is Some,
        pre.user_store.record is Some,
    ensures
        ({
            let post = donate_step(program_id, pre, lamports).1;
            &&& post.store.record is Some
            &&& post.user_store.record is Some
            &&& post.store.record.unwrap().owner == pre.store.record.unwrap().owner
            &&& post.store.record.unwrap().bank == pre.store.record.unwrap().bank
            &&& post.store.record.unwrap().bump == pre.store.record.unwrap().bump
            &&& post.user_store.record.unwrap().user == pre.user_store.record.unwrap().user
            &&& post.user_store.record.unwrap().bank == pre.user_store.record.unwrap().bank
            &&& post.user_store.record.unwrap().bump == pre.user_store.record.unwrap().bump
        }),
{
}

/// A withdrawal never touches the record: only the two balances move.
pub proof fn lemma_withdraw_preserves_record(program_id: Seq<u8>, pre: WithdrawView, lamports: u64)
    ensures
        withdraw_step(program_id, pre, lamports).1.store == pre.store,
        ({
            let (r, post) = withdraw_step(program_id, pre, lamports);
            r is Ok ==> post.bank.lamports == pre.bank.lamports - lamports
                && post.owner.lamports == pre.owner.lamports + lamports
        }),
{
}

/// Creating a contributor's record never touches the deployment's store.
pub proof fn lemma_initialize_user_preserves_store(program_id: Seq<u8>, pre: InitializeUserView)
    ensures
        initialize_user_step(program_id, pre).1.store == pre.store,
{
}

/// A fresh contributor record is bound to the same bank as the store it was
/// checked against.
pub proof fn lemma_initialize_user_links_bank(program_id: Seq<u8>, pre: InitializeUserView)
    ensures
        ({
            let (r, post) = initialize_user_step(program_id, pre);
            r is Ok ==> post.user_store.record is Some && post.store.record is Some
                && post.user_store.record.unwrap().bank == post.store.record.unwrap().bank
        }),
{
}

/// A donation keeps the two records bound to the same bank.
pub proof fn lemma_donate_preserves_link(program_id: Seq<u8>, pre: DonateView, lamports: u64)
    requires
        pre.store.record is Some,
        pre.user_store.record is Some,
        pre.user_store.record.unwrap().bank == pre.store.record.unwrap().bank,
    ensures
        ({
            let post = donate_step(program_id, pre, lamports).1;
            post.user_store.record.unwrap().bank == post.store.record.unwrap().bank
        }),
{
}

/// A donation keeps both record invariants: the directory stays free of
/// duplicates and the history holds only positive amounts.
pub proof fn lemma_donate_preserves_invariants(program_id: Seq<u8>, pre: DonateView, lamports: u64)
    requires
        pre.store.valid(),
        pre.user_store.valid(),
        pre.from_user.key.len() == 32,
    ensures
        donate_step(program_id, pre, lamports).1.store.valid(),
        donate_step(program_id, pre, lamports).1.user_store.valid(),
{
    let (r, post) = donate_step(program_id, pre, lamports);
    if r is Ok {
        let store = pre.store.record.unwrap();
        let users = store.users;
        let k = pre.from_user.key;
        if !users.contains(k) {
            assert forall|i: int, j: int|
                0 <= i < j < users.push(k).len() implies users.push(k)[i] != users.push(k)[j] by {
                if j == users.len() {
                    if users.push(k)[i] == k {
                        assert(users.contains(k));
                    }
                }
            }
        }
    }
}

/// The donation history is append-only: a successful donation appends
/// exactly the positive amount given, and a failed one appends nothing.
pub proof fn lemma_donation_append_only(program_id: Seq<u8>, pre: DonateView, lamports: u64)
    requires
        pre.user_store.record is Some,
    ensures
        ({
            let (r, post) = donate_step(program_id, pre, lamports);
            let before = pre.user_store.record.unwrap().donation;
            let after = post.user_store.record.unwrap().donation;
            &&& r is Ok ==> after == before.push(lamports) && lamports > 0
            &&& r is Err ==> after == before
        }),
{
}

/// A successful donation moves exactly the lamports given: the bank gains
/// them and the contributor loses them; any failure moves nothing.
pub proof fn lemma_donate_moves_exactly(program_id: Seq<u8>, pre: DonateView, lamports: u64)
    ensures
        ({
            let (r, post) = donate_step(program_id, pre, lamports);
            &&& r is Ok ==> post.bank.lamports == pre.bank.lamports + lamports
                && post.from_user.lamports == pre.from_user.lamports - lamports
            &&& r is Err ==> post == pre
        }),
{
}

/// Re-running `initialize` against an existing store fails with
/// `AlreadyInitialized` and leaves the store exactly as it was.
pub proof fn lemma_initialize_already_initialized(program_id: Seq<u8>, pre: InitializeView)
    requires
        initialize_constraints_ok(program_id, pre),
        pre.store.record is Some,
    ensures
        initialize_step(program_id, pre) == (
            Result::<(), LedgerError>::Err(LedgerError::AlreadyInitialized),
            pre,
        ),
{
}

/// Who a `Store` in an account set is about: its owner, bank and bump.
pub open spec fn store_identity(v: InstructionAccountsView) -> Option<(Seq<u8>, Seq<u8>, u8)> {
    let record = match v {
        InstructionAccountsView::ForInitialize(c) => c.store.record,
        InstructionAccountsView::ForInitializeUser(c) => c.store.record,
        InstructionAccountsView::ForDonate(c) => c.store.record,
        InstructionAccountsView::ForWithdraw(c) => c.store.record,
    };
    match record {
        Some(s) => Some((s.owner, s.bank, s.bump)),
        None => None,
    }
}

/// Who a `UserStore` in an account set is about: its user, bank and bump.
pub open spec fn user_store_identity(v: InstructionAccountsView) -> Option<(Seq<u8>, Seq<u8>, u8)> {
    let record = match v {
        InstructionAccountsView::ForInitializeUser(c) => c.user_store.record,
        InstructionAccountsView::ForDonate(c) => c.user_store.record,
        _ => None,
    };
    match record {
        Some(s) => Some((s.user, s.bank, s.bump)),
        None => None,
    }
}

/// Once a `Store` exists, no instruction whatsoever — any payload, any
/// account set — changes its owner, its bank or its bump.
pub proof fn lemma_store_identity_immutable(
    program_id: Seq<u8>,
    data: Seq<u8>,
    pre: InstructionAccountsView,
)
    requires
        store_identity(pre) is Some,
    ensures
        store_identity(spec_process(program_id, data, pre).1) == store_identity(pre),
{
}

/// Once a `UserStore` exists, no instruction changes its user, its bank or
/// its bump.
pub proof fn lemma_user_store_identity_immutable(
    program_id: Seq<u8>,
    data: Seq<u8>,
    pre: InstructionAccountsView,
)
    requires
        user_store_identity(pre) is Some,
    ensures
        user_store_identity(spec_process(program_id, data, pre).1) == user_store_identity(pre),
{
}

/// Whether every `UserStore` that stands beside a `Store` in an account set
/// is bound to that store's bank.
pub open spec fn records_linked(v: InstructionAccountsView) -> bool {
    match v {
        InstructionAccountsView::ForInitializeUser(c) => match (c.user_store.record, c.store.record) {
            (Some(us), Some(s)) => us.bank == s.bank,
            _ => true,
        },
        InstructionAccountsView::ForDonate(c) => match (c.user_store.record, c.store.record) {
            (Some(us), Some(s)) => us.bank == s.bank,
            _ => true,
        },
        _ => true,
    }
}

/// The bank binding between the two records holds in every reachable state:
/// it is established when a `UserStore` is created and no instruction
/// breaks it.
pub proof fn lemma_records_stay_linked(
    program_id: Seq<u8>,
    data: Seq<u8>,
    pre: InstructionAccountsView,
)
    requires
        records_linked(pre),
    ensures
        records_linked(spec_process(program_id, data, pre).1),
{
}

/// The state after a run of donations, applied first to last.
pub open spec fn donate_trace(program_id: Seq<u8>, pre: DonateView, amounts: Seq<u64>) -> DonateView
    decreases amounts.len(),
{
    if amounts.len() == 0 {
        pre
    } else {
        donate_trace(
            program_id,
            donate_step(program_id, pre, amounts[0]).1,
            amounts.drop_first(),
        )
    }
}

/// Whether every donation in the run succeeds.
pub open spec fn donate_trace_ok(program_id: Seq<u8>, pre: DonateView, amounts: Seq<u64>) -> bool
    decreases amounts.len(),
{
    amounts.len() == 0 || {
        &&& donate_step(program_id, pre, amounts[0]).0 is Ok
        &&& donate_trace_ok(
            program_id,
            donate_step(program_id, pre, amounts[0]).1,
            amounts.drop_first(),
        )
    }
}

/// Over any run of successful donations by one contributor: the history
/// grows by exactly those amounts in order — so its length counts the
/// successful donations — and the bank's balance grows by exactly their
/// sum, the cumulative amount transferred.
pub proof fn lemma_donate_series(program_id: Seq<u8>, pre: DonateView, amounts: Seq<u64>)
    requires
        donate_trace_ok(program_id, pre, amounts),
        amounts.len() > 0 ==> pre.user_store.record is Some,
    ensures
        ({
            let post = donate_trace(program_id, pre, amounts);
            &&& post.user_store.record is Some || amounts.len() == 0
            &&& amounts.len() > 0 ==> post.user_store.record.unwrap().donation
                == pre.user_store.record.unwrap().donation + amounts
            &&& post.bank.lamports == pre.bank.lamports + sum(amounts)
            &&& amounts.len() > 0 ==> sum(
                post.user_store.record.unwrap().donation.skip(
                    pre.user_store.record.unwrap().donation.len() as int,
                ),
            ) == post.bank.lamports - pre.bank.lamports
        }),
    decreases amounts.len(),
{
    if amounts.len() == 0 {
        assert(sum(amounts) == 0);
    } else {
        let a0 = amounts[0];
        let rest = amounts.drop_first();
        let (r, mid) = donate_step(program_id, pre, a0);
        assert(mid.user_store.record is Some);
        lemma_donate_series(program_id, mid, rest);
        let post = donate_trace(program_id, pre, amounts);
        lemma_sum_cons(amounts);
        let d0 = pre.user_store.record.unwrap().donation;
        if rest.len() == 0 {
            assert(post == mid);
            assert(post.user_store.record.unwrap().donation =~= d0 + amounts);
        } else {
            assert(mid.user_store.record.unwrap().donation == d0.push(a0));
            assert(post.user_store.record.unwrap().donation == d0.push(a0) + rest);
            assert(d0.push(a0) + rest =~= d0 + amounts);
        }
        assert(post.user_store.record.unwrap().donation.skip(d0.len() as int) =~= amounts);
    }
}

/// Splitting a sum at its first element.
pub proof fn lemma_sum_cons(s: Seq<u64>)
    requires
        s.len() > 0,
    ensures
        sum(s) == s[0] + sum(s.drop_first()),
    decreases s.len(),
{
    if s.len() == 1 {
        assert(s.drop_last() =~= Seq::empty());
        assert(s.drop_first() =~= Seq::empty());
    } else {
        lemma_sum_cons(s.drop_last());
        assert(s.drop_last()[0] == s[0]);
        assert(s.drop_last().drop_first() =~= s.drop_first().drop_last());
        assert(sum(s) == sum(s.drop_last()) + s.last());
        assert(s.drop_first().last() == s.last());
    }
}

} // verus!
