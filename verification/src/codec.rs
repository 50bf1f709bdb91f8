//! The persistent account layout: each record is serialized field by field
//! in declaration order, little-endian, with a 4-byte length prefix on the
//! growable sequence. Deserialization reads the record back from the front
//! of the account's data and ignores the allocation padding behind it.

use vstd::prelude::*;
use vstd::bytes::{spec_u32_from_le_bytes, spec_u32_to_le_bytes, spec_u64_from_le_bytes,
    spec_u64_to_le_bytes, lemma_auto_spec_u32_to_from_le_bytes,
    lemma_auto_spec_u64_to_from_le_bytes, u32_from_le_bytes, u32_to_le_bytes, u64_from_le_bytes,
    u64_to_le_bytes};
use crate::keys::{Pubkey, KEY_LEN};
use crate::state::{keys_view, store_byte_len, user_store_byte_len, Store, StoreView, UserStore,
    UserStoreView};

verus! {

/// The serialized directory: each 32-byte key in order.
pub open spec fn spec_serialize_keys(users: Seq<Seq<u8>>) -> Seq<u8>
    decreases users.len(),
{
    if users.len() == 0 {
        Seq::empty()
    } else {
        users[0] + spec_serialize_keys(users.drop_first())
    }
}

/// The serialized history: each amount as 8 little-endian bytes, in order.
pub open spec fn spec_serialize_amounts(donation: Seq<u64>) -> Seq<u8>
    decreases donation.len(),
{
    if donation.len() == 0 {
        Seq::empty()
    } else {
        spec_u64_to_le_bytes(donation[0]) + spec_serialize_amounts(donation.drop_first())
    }
}

/// The serialized `Store`: owner, bank, entry count, entries, bump.
pub open spec fn spec_serialize_store(v: StoreView) -> Seq<u8> {
    v.owner + v.bank + spec_u32_to_le_bytes(v.users.len() as u32) + spec_serialize_keys(v.users)
        + seq![v.bump]
}

/// The serialized `UserStore`: user, bank, entry count, entries, bump.
pub open spec fn spec_serialize_user_store(v: UserStoreView) -> Seq<u8> {
    v.user + v.bank + spec_u32_to_le_bytes(v.donation.len() as u32) + spec_serialize_amounts(
        v.donation,
    ) + seq![v.bump]
}

/// What reading a `Store` back from account data yields: `None` when the
/// data cannot hold the record it announces.
pub open spec fn spec_deserialize_store(data: Seq<u8>) -> Option<StoreView> {
    if data.len() < 69 {
        None
    } else {
        let n = spec_u32_from_le_bytes(data.subrange(64, 68)) as int;
        if data.len() >= 69 + 32 * n {
            Some(
                StoreView {
                    owner: data.subrange(0, 32),
                    bank: data.subrange(32, 64),
                    users: Seq::new(n as nat, |i: int| data.subrange(68 + 32 * i, 68 + 32 * i + 32)),
                    bump: data[68 + 32 * n],
                },
            )
        } else {
            None
        }
    }
}

/// What reading a `UserStore` back from account data yields.
pub open spec fn spec_deserialize_user_store(data: Seq<u8>) -> Option<UserStoreView> {
    if data.len() < 69 {
        None
    } else {
        let n = spec_u32_from_le_bytes(data.subrange(64, 68)) as int;
        if data.len() >= 69 + 8 * n {
            Some(
                UserStoreView {
                    user: data.subrange(0, 32),
                    bank: data.subrange(32, 64),
                    donation: Seq::new(
                        n as nat,
                        |i: int| spec_u64_from_le_bytes(data.subrange(68 + 8 * i, 68 + 8 * i + 8)),
                    ),
                    bump: data[68 + 8 * n],
                },
            )
        } else {
            None
        }
    }
}

/// Length and per-entry layout of the serialized directory.
pub proof fn lemma_serialize_keys_parts(users: Seq<Seq<u8>>)
    requires
        forall|i: int| 0 <= i < users.len() ==> (#[trigger] users[i]).len() == KEY_LEN,
    ensures
        spec_serialize_keys(users).len() == 32 * users.len(),
        forall|i: int|
            0 <= i < users.len() ==> #[trigger] spec_serialize_keys(users).subrange(
                32 * i,
                32 * i + 32,
            ) == users[i],
    decreases users.len(),
{
    if users.len() > 0 {
        lemma_serialize_keys_parts(users.drop_first());
        let s = spec_serialize_keys(users);
        let rest = spec_serialize_keys(users.drop_first());
        assert forall|i: int|
            0 <= i < users.len() implies #[trigger] s.subrange(32 * i, 32 * i + 32) == users[i] by {
            if i == 0 {
                assert(s.subrange(0, 32) =~= users[0]);
            } else {
                assert(rest.subrange(32 * (i - 1), 32 * (i - 1) + 32) == users.drop_first()[i - 1]);
                assert(s.subrange(32 * i, 32 * i + 32) =~= rest.subrange(
                    32 * (i - 1),
                    32 * (i - 1) + 32,
                ));
            }
        }
    }
}

/// Length and per-entry layout of the serialized history.
pub proof fn lemma_serialize_amounts_parts(donation: Seq<u64>)
    ensures
        spec_serialize_amounts(donation).len() == 8 * donation.len(),
        forall|i: int|
            0 <= i < donation.len() ==> #[trigger] spec_serialize_amounts(donation).subrange(
                8 * i,
                8 * i + 8,
            ) == spec_u64_to_le_bytes(donation[i]),
    decreases donation.len(),
{
    lemma_auto_spec_u64_to_from_le_bytes();
    if donation.len() > 0 {
        lemma_serialize_amounts_parts(donation.drop_first());
        let s = spec_serialize_amounts(donation);
        let rest = spec_serialize_amounts(donation.drop_first());
        assert forall|i: int|
            0 <= i < donation.len() implies #[trigger] s.subrange(8 * i, 8 * i + 8)
            == spec_u64_to_le_bytes(donation[i]) by {
            if i == 0 {
                assert(s.subrange(0, 8) =~= spec_u64_to_le_bytes(donation[0]));
            } else {
                assert(rest.subrange(8 * (i - 1), 8 * (i - 1) + 8) == spec_u64_to_le_bytes(
                    donation.drop_first()[i - 1],
                ));
                assert(s.subrange(8 * i, 8 * i + 8) =~= rest.subrange(8 * (i - 1), 8 * (i - 1) + 8));
            }
        }
    }
}

/// Appending one key appends its 32 bytes.
pub proof fn lemma_serialize_keys_snoc(users: Seq<Seq<u8>>, k: Seq<u8>)
    ensures
        spec_serialize_keys(users.push(k)) == spec_serialize_keys(users) + k,
    decreases users.len(),
{
    if users.len() == 0 {
        assert(users.push(k).drop_first() =~= users);
        assert(spec_serialize_keys(users.push(k)) =~= spec_serialize_keys(users) + k);
    } else {
        assert(users.push(k).drop_first() =~= users.drop_first().push(k));
        lemma_serialize_keys_snoc(users.drop_first(), k);
        assert(spec_serialize_keys(users.push(k)) =~= spec_serialize_keys(users) + k);
    }
}

/// Appending one amount appends its 8 bytes.
pub proof fn lemma_serialize_amounts_snoc(donation: Seq<u64>, d: u64)
    ensures
        spec_serialize_amounts(donation.push(d)) == spec_serialize_amounts(donation)
            + spec_u64_to_le_bytes(d),
    decreases donation.len(),
{
    if donation.len() == 0 {
        assert(donation.push(d).drop_first() =~= donation);
        assert(spec_serialize_amounts(donation.push(d)) =~= spec_serialize_amounts(donation)
            + spec_u64_to_le_bytes(d));
    } else {
        assert(donation.push(d).drop_first() =~= donation.drop_first().push(d));
        lemma_serialize_amounts_snoc(donation.drop_first(), d);
        assert(spec_serialize_amounts(donation.push(d)) =~= spec_serialize_amounts(donation)
            + spec_u64_to_le_bytes(d));
    }
}

/// Reading a serialized `Store` back, with any padding behind it, yields the
/// record it came from.
pub proof fn lemma_store_round_trip(v: StoreView, pad: Seq<u8>)
    requires
        v.valid(),
        v.users.len() <= u32::MAX,
    ensures
        spec_deserialize_store(spec_serialize_store(v) + pad) == Some(v),
{
    lemma_auto_spec_u32_to_from_le_bytes();
    lemma_serialize_keys_parts(v.users);
    let data = spec_serialize_store(v) + pad;
    let body = spec_serialize_keys(v.users);
    assert(data.subrange(0, 32) =~= v.owner);
    assert(data.subrange(32, 64) =~= v.bank);
    assert(data.subrange(64, 68) =~= spec_u32_to_le_bytes(v.users.len() as u32));
    let n = v.users.len() as int;
    assert(spec_u32_from_le_bytes(data.subrange(64, 68)) == n);
    assert(data.len() >= 69 + 32 * n);
    let parsed = spec_deserialize_store(data);
    assert forall|i: int| 0 <= i < n implies #[trigger] data.subrange(68 + 32 * i, 68 + 32 * i + 32)
        == v.users[i] by {
        assert(data.subrange(68 + 32 * i, 68 + 32 * i + 32) =~= body.subrange(
            32 * i,
            32 * i + 32,
        ));
    }
    assert(data[68 + 32 * n] == v.bump);
    assert(parsed.unwrap() =~~= v);
}

/// Reading a serialized `UserStore` back, with any padding behind it,
/// yields the record it came from.
pub proof fn lemma_user_store_round_trip(v: UserStoreView, pad: Seq<u8>)
    requires
        v.valid(),
        v.donation.len() <= u32::MAX,
    ensures
        spec_deserialize_user_store(spec_serialize_user_store(v) + pad) == Some(v),
{
    lemma_auto_spec_u32_to_from_le_bytes();
    lemma_auto_spec_u64_to_from_le_bytes();
    lemma_serialize_amounts_parts(v.donation);
    let data = spec_serialize_user_store(v) + pad;
    let body = spec_serialize_amounts(v.donation);
    assert(data.subrange(0, 32) =~= v.user);
    assert(data.subrange(32, 64) =~= v.bank);
    assert(data.subrange(64, 68) =~= spec_u32_to_le_bytes(v.donation.len() as u32));
    let n = v.donation.len() as int;
    assert(spec_u32_from_le_bytes(data.subrange(64, 68)) == n);
    assert(data.len() >= 69 + 8 * n);
    let parsed = spec_deserialize_user_store(data);
    assert forall|i: int| 0 <= i < n implies spec_u64_from_le_bytes(
        #[trigger] data.subrange(68 + 8 * i, 68 + 8 * i + 8),
    ) == v.donation[i] by {
        assert(data.subrange(68 + 8 * i, 68 + 8 * i + 8) =~= body.subrange(8 * i, 8 * i + 8));
        assert(spec_u64_from_le_bytes(spec_u64_to_le_bytes(v.donation[i])) == v.donation[i]);
    }
    assert(data[68 + 8 * n] == v.bump);
    assert(parsed.unwrap() =~~= v);
}

/// Appends all of `src` to `out`.
fn push_bytes(out: &mut Vec<u8>, src: &Vec<u8>)
    ensures
        final(out)@ == old(out)@ + src@,
{
    let mut i: usize = 0;
    while i < src.len()
        invariant
            i <= src@.len(),
            out@ == old(out)@ + src@.subrange(0, i as int),
        decreases src@.len() - i,
    {
        out.push(src[i]);
        proof {
            assert(out@ =~= old(out)@ + src@.subrange(0, i + 1));
        }
        i = i + 1;
    }
    proof {
        assert(out@ =~= old(out)@ + src@);
    }
}

/// Copies `len` bytes of `data` starting at `start`.
fn copy_range(data: &Vec<u8>, start: usize, len: usize) -> (out: Vec<u8>)
    requires
        start + len <= data@.len(),
    ensures
        out@ == data@.subrange(start as int, start as int + len),
{
    let dlen: usize = data.len();
    let mut out: Vec<u8> = Vec::new();
    let mut i: usize = 0;
    while i < len
        invariant
            i <= len,
            start + len <= dlen,
            dlen == data@.len(),
            out@ == data@.subrange(start as int, start as int + i),
        decreases len - i,
    {
        out.push(data[start + i]);
        proof {
            assert(out@ =~= data@.subrange(start as int, start as int + i + 1));
        }
        i = i + 1;
    }
    out
}

/// Serializes a `Store` into the persistent layout.
pub fn serialize_store(s: &Store) -> (out: Vec<u8>)
    requires
        s.wf(),
        s@.users.len() <= u32::MAX,
    ensures
        out@ == spec_serialize_store(s@),
        out@.len() == store_byte_len(s@),
{
    let mut out: Vec<u8> = Vec::new();
    push_bytes(&mut out, s.owner.as_bytes());
    push_bytes(&mut out, s.bank.as_bytes());
    let count = u32_to_le_bytes(s.users.len() as u32);
    push_bytes(&mut out, &count);
    let ghost header = out@;
    let mut i: usize = 0;
    while i < s.users.len()
        invariant
            i <= s.users@.len(),
            s.users@.len() <= u32::MAX,
            out@ == header + spec_serialize_keys(keys_view(s.users@).take(i as int)),
        decreases s.users@.len() - i,
    {
        push_bytes(&mut out, s.users[i].as_bytes());
        proof {
            let kv = keys_view(s.users@);
            assert(kv.take(i + 1) =~= kv.take(i as int).push(kv[i as int]));
            lemma_serialize_keys_snoc(kv.take(i as int), kv[i as int]);
        }
        i = i + 1;
    }
    proof {
        assert(keys_view(s.users@).take(s.users@.len() as int) =~= keys_view(s.users@));
    }
    out.push(s.bump);
    proof {
        assert(out@ =~= spec_serialize_store(s@));
        lemma_serialize_keys_parts(s@.users);
    }
    out
}

/// Serializes a `UserStore` into the persistent layout.
pub fn serialize_user_store(s: &UserStore) -> (out: Vec<u8>)
    requires
        s.wf(),
        s@.donation.len() <= u32::MAX,
    ensures
        out@ == spec_serialize_user_store(s@),
        out@.len() == user_store_byte_len(s@),
{
    let mut out: Vec<u8> = Vec::new();
    push_bytes(&mut out, s.user.as_bytes());
    push_bytes(&mut out, s.bank.as_bytes());
    let count = u32_to_le_bytes(s.donation.len() as u32);
    push_bytes(&mut out, &count);
    let ghost header = out@;
    let mut i: usize = 0;
    while i < s.donation.len()
        invariant
            i <= s.donation@.len(),
            s.donation@.len() <= u32::MAX,
            out@ == header + spec_serialize_amounts(s.donation@.take(i as int)),
        decreases s.donation@.len() - i,
    {
        let entry = u64_to_le_bytes(s.donation[i]);
        push_bytes(&mut out, &entry);
        proof {
            let dv = s.donation@;
            assert(dv.take(i + 1) =~= dv.take(i as int).push(dv[i as int]));
            lemma_serialize_amounts_snoc(dv.take(i as int), dv[i as int]);
        }
        i = i + 1;
    }
    proof {
        assert(s.donation@.take(s.donation@.len() as int) =~= s.donation@);
    }
    out.push(s.bump);
    proof {
        assert(out@ =~= spec_serialize_user_store(s@));
        lemma_serialize_amounts_parts(s@.donation);
    }
    out
}

/// The view of a deserialized `Store`.
pub open spec fn store_option_view(r: Option<Store>) -> Option<StoreView> {
    match r {
        Some(s) => Some(s@),
        None => None,
    }
}

/// The view of a deserialized `UserStore`.
pub open spec fn user_store_option_view(r: Option<UserStore>) -> Option<UserStoreView> {
    match r {
        Some(s) => Some(s@),
        None => None,
    }
}

/// Reads a `Store` back from account data.
pub fn deserialize_store(data: &Vec<u8>) -> (r: Option<Store>)
    ensures
        store_option_view(r) == spec_deserialize_store(data@),
{
    if data.len() < 69 {
        return None;
    }
    let count_bytes = copy_range(data, 64, 4);
    let n = u32_from_le_bytes(count_bytes.as_slice());
    let needed: u64 = 69u64 + 32u64 * (n as u64);
    let dlen: usize = data.len();
    if (dlen as u64) < needed {
        return None;
    }
    let owner = Pubkey::new(copy_range(data, 0, 32));
    let bank = Pubkey::new(copy_range(data, 32, 32));
    let mut users: Vec<Pubkey> = Vec::new();
    let mut i: usize = 0;
    let ghost expected = spec_deserialize_store(data@).unwrap();
    while i < n as usize
        invariant
            i <= n,
            dlen == data@.len(),
            69 + 32 * (n as int) <= dlen,
            users@.len() == i,
            keys_view(users@) =~= expected.users.take(i as int),
            expected == spec_deserialize_store(data@).unwrap(),
            expected.users == Seq::new(
                n as nat,
                |j: int| data@.subrange(68 + 32 * j, 68 + 32 * j + 32),
            ),
        decreases n - i,
    {
        let k = Pubkey::new(copy_range(data, 68 + 32 * i, 32));
        let ghost prev = users@;
        users.push(k);
        proof {
            assert(k@ == expected.users[i as int]);
            assert forall|j: int| 0 <= j <= i implies keys_view(users@)[j] == expected.users.take(
                i + 1,
            )[j] by {
                if j < i {
                    assert(users@[j] == prev[j]);
                    assert(keys_view(prev)[j] == expected.users.take(i as int)[j]);
                } else {
                    assert(users@[j] == k);
                }
            }
            assert(keys_view(users@) =~= expected.users.take(i + 1));
        }
        i = i + 1;
    }
    let bump = data[68 + 32 * (n as usize)];
    let s = Store { owner, bank, users, bump };
    proof {
        assert(expected.users.take(n as int) =~= expected.users);
        assert(s@ =~~= expected);
    }
    Some(s)
}

/// Reads a `UserStore` back from account data.
pub fn deserialize_user_store(data: &Vec<u8>) -> (r: Option<UserStore>)
    ensures
        user_store_option_view(r) == spec_deserialize_user_store(data@),
{
    if data.len() < 69 {
        return None;
    }
    let count_bytes = copy_range(data, 64, 4);
    let n = u32_from_le_bytes(count_bytes.as_slice());
    let needed: u64 = 69u64 + 8u64 * (n as u64);
    let dlen: usize = data.len();
    if (dlen as u64) < needed {
        return None;
    }
    let user = Pubkey::new(copy_range(data, 0, 32));
    let bank = Pubkey::new(copy_range(data, 32, 32));
    let mut donation: Vec<u64> = Vec::new();
    let mut i: usize = 0;
    let ghost expected = spec_deserialize_user_store(data@).unwrap();
    while i < n as usize
        invariant
            i <= n,
            dlen == data@.len(),
            69 + 8 * (n as int) <= dlen,
            donation@ =~= expected.donation.take(i as int),
            expected == spec_deserialize_user_store(data@).unwrap(),
            expected.donation == Seq::new(
                n as nat,
                |j: int| spec_u64_from_le_bytes(data@.subrange(68 + 8 * j, 68 + 8 * j + 8)),
            ),
        decreases n - i,
    {
        let entry_bytes = copy_range(data, 68 + 8 * i, 8);
        let d = u64_from_le_bytes(entry_bytes.as_slice());
        donation.push(d);
        proof {
            assert(donation@ =~= expected.donation.take(i + 1));
        }
        i = i + 1;
    }
    let bump = data[68 + 8 * (n as usize)];
    let s = UserStore { user, donation, bank, bump };
    proof {
        assert(expected.donation.take(n as int) =~= expected.donation);
        assert(s@ =~~= expected);
    }
    Some(s)
}

} // verus!
