//! The model of a loaded host account: its address, lamport balance, and the
//! signer / writable flags the transaction carried. The host's value-transfer
//! primitive is modelled here as a verified balance move.

use vstd::prelude::*;
use crate::errors::LedgerError;
use crate::keys::Pubkey;

verus! {

/// What an account looks like in a spec: plain values only.
#[verifier::ext_equal]
pub struct AccountView {
    pub key: Seq<u8>,
    pub lamports: u64,
    pub is_signer: bool,
    pub is_writable: bool,
}

/// A host account as loaded for one instruction.
pub struct AccountInfo {
    pub key: Pubkey,
    pub lamports: u64,
    pub is_signer: bool,
    pub is_writable: bool,
}

impl View for AccountInfo {
    type V = AccountView;

    open spec fn view(&self) -> AccountView {
        AccountView {
            key: self.key@,
            lamports: self.lamports,
            is_signer: self.is_signer,
            is_writable: self.is_writable,
        }
    }
}

impl AccountInfo {
    pub open spec fn wf(&self) -> bool {
        self.key.wf()
    }
}

/// Whether a transfer of `lamports` from `from` to `to` would succeed: the
/// source must hold enough, and the destination must not overflow.
pub open spec fn transfer_ok(from: AccountView, to: AccountView, lamports: u64) -> bool {
    lamports <= from.lamports && to.lamports + lamports <= u64::MAX
}

/// The host's transfer primitive over the model: moves `lamports` from one
/// balance to the other, atomically; on failure nothing changes.
pub fn transfer(from: &mut AccountInfo, to: &mut AccountInfo, lamports: u64) -> (r: Result<
    (),
    LedgerError,
>)
    ensures
        r is Ok <==> transfer_ok(old(from)@, old(to)@, lamports),
        r matches Err(e) ==> e == LedgerError::TransferFailure && *final(from) == *old(from)
            && *final(to) == *old(to),
        r is Ok ==> final(from).lamports == old(from).lamports - lamports
            && final(to).lamports == old(to).lamports + lamports,
        final(from).key == old(from).key && final(to).key == old(to).key,
        final(from).is_signer == old(from).is_signer && final(to).is_signer == old(to).is_signer,
        final(from).is_writable == old(from).is_writable && final(to).is_writable == old(
            to,
        ).is_writable,
{
    if lamports > from.lamports {
        return Err(LedgerError::TransferFailure);
    }
    if lamports > u64::MAX - to.lamports {
        return Err(LedgerError::TransferFailure);
    }
    from.lamports = from.lamports - lamports;
    to.lamports = to.lamports + lamports;
    Ok(())
}

} // verus!
