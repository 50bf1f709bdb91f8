//! Program-derived addresses. A record account's address is derived from a
//! fixed ASCII tag plus an identity key, so any client can locate it without
//! a registry. The derivation itself is done by the host SDK; its result is a
//! pure function of the seeds and the program id, named here so that
//! contracts can speak of it exactly.

use vstd::prelude::*;
use crate::keys::Pubkey;
use anchor_lang::solana_program::pubkey::Pubkey as HostKey;

verus! {

/// The seed tag of the global `Store` record: the ASCII bytes of "store".
pub open spec fn store_tag() -> Seq<u8> {
    seq![115u8, 116u8, 111u8, 114u8, 101u8]
}

/// The seed tag of a per-contributor `UserStore` record: the ASCII bytes of
/// "store_user".
pub open spec fn user_store_tag() -> Seq<u8> {
    seq![115u8, 116u8, 111u8, 114u8, 101u8, 95u8, 117u8, 115u8, 101u8, 114u8]
}

/// Builds the `Store` seed tag as bytes.
pub fn store_seed() -> (v: Vec<u8>)
    ensures
        v@ == store_tag(),
{
    let mut v: Vec<u8> = Vec::new();
    v.push(115u8);
    v.push(116u8);
    v.push(111u8);
    v.push(114u8);
    v.push(101u8);
    proof {
        assert(v@ =~= store_tag());
    }
    v
}

/// Builds the `UserStore` seed tag as bytes.
pub fn user_store_seed() -> (v: Vec<u8>)
    ensures
        v@ == user_store_tag(),
{
    let mut v: Vec<u8> = Vec::new();
    v.push(115u8);
    v.push(116u8);
    v.push(111u8);
    v.push(114u8);
    v.push(101u8);
    v.push(95u8);
    v.push(117u8);
    v.push(115u8);
    v.push(101u8);
    v.push(114u8);
    proof {
        assert(v@ =~= user_store_tag());
    }
    v
}

/// The canonical derivation: the address and bump that the host SDK computes
/// for the seeds `[tag, key]` under `program_id`, or `None` in the
/// statistically improbable event that no bump is viable. The result is a
/// function of the three inputs alone.
pub uninterp spec fn derived_address(tag: Seq<u8>, key: Seq<u8>, program_id: Seq<u8>) -> Option<
    (Seq<u8>, u8),
>;

/// The view of a concrete derivation result.
pub open spec fn derivation_view(r: Option<(Pubkey, u8)>) -> Option<(Seq<u8>, u8)> {
    match r {
        Some(p) => Some((p.0@, p.1)),
        None => None,
    }
}

/// Relies on `Pubkey::try_find_program_address` (anchor_lang's re-export of
/// the host SDK, here `solana_address::Address::try_find_program_address`):
/// for seeds of at most 32 bytes each the result is computed inline as a pure
/// function of the seeds and the program id, and a returned address is always
/// 32 bytes.
#[verifier::external_body]
fn try_derive_address(tag: &Vec<u8>, key: &Pubkey, program_id: &Pubkey) -> (r: Option<
    (Pubkey, u8),
>)
    requires
        tag@.len() <= 32,
        key.wf(),
        program_id.wf(),
    ensures
        derivation_view(r) == derived_address(tag@, key@, program_id@),
        r matches Some(p) ==> p.0.wf(),
{
    let host_key = HostKey::try_from(key.as_bytes().as_slice()).unwrap();
    let host_pid = HostKey::try_from(program_id.as_bytes().as_slice()).unwrap();
    let seeds: [&[u8]; 2] = [tag.as_slice(), host_key.as_ref()];
    HostKey::try_find_program_address(&seeds, &host_pid).map(|(addr, bump)| {
        (Pubkey::new(addr.to_bytes().to_vec()), bump)
    })
}

/// The canonical address and bump of the `Store` record of `owner`.
pub fn locate_store_address(owner: &Pubkey, program_id: &Pubkey) -> (r: Option<(Pubkey, u8)>)
    requires
        owner.wf(),
        program_id.wf(),
    ensures
        derivation_view(r) == derived_address(store_tag(), owner@, program_id@),
        r matches Some(p) ==> p.0.wf(),
{
    let tag = store_seed();
    try_derive_address(&tag, owner, program_id)
}

/// The canonical address and bump of the `UserStore` record of `user`.
pub fn locate_user_store_address(user: &Pubkey, program_id: &Pubkey) -> (r: Option<(Pubkey, u8)>)
    requires
        user.wf(),
        program_id.wf(),
    ensures
        derivation_view(r) == derived_address(user_store_tag(), user@, program_id@),
        r matches Some(p) ==> p.0.wf(),
{
    let tag = user_store_seed();
    try_derive_address(&tag, user, program_id)
}

/// Whether `addr` with `bump` is the canonical derivation for `(tag, key)`.
pub open spec fn is_derived(
    tag: Seq<u8>,
    key: Seq<u8>,
    program_id: Seq<u8>,
    addr: Seq<u8>,
    bump: u8,
) -> bool {
    derived_address(tag, key, program_id) == Some((addr, bump))
}

/// Checks an address and recorded bump against the canonical derivation.
pub fn check_derivation(tag: &Vec<u8>, key: &Pubkey, program_id: &Pubkey, addr: &Pubkey, bump: u8)
    -> (r: bool)
    requires
        tag@.len() <= 32,
        key.wf(),
        program_id.wf(),
        addr.wf(),
    ensures
        r == is_derived(tag@, key@, program_id@, addr@, bump),
{
    match try_derive_address(tag, key, program_id) {
        Some((derived, derived_bump)) => derived.key_eq(addr) && derived_bump == bump,
        None => false,
    }
}

} // verus!
