//! The two persisted records. A `Store` exists once per deployment owner and
//! carries the append-only, duplicate-free directory of contributors; a
//! `UserStore` exists once per contributor and carries that contributor's
//! append-only donation history.

use vstd::prelude::*;
use crate::keys::{Pubkey, KEY_LEN};

verus! {

/// Spec view of a `Store`.
#[verifier::ext_equal]
pub struct StoreView {
    pub owner: Seq<u8>,
    pub bank: Seq<u8>,
    pub users: Seq<Seq<u8>>,
    pub bump: u8,
}

/// Spec view of a `UserStore`.
#[verifier::ext_equal]
pub struct UserStoreView {
    pub user: Seq<u8>,
    pub bank: Seq<u8>,
    pub donation: Seq<u64>,
    pub bump: u8,
}

impl StoreView {
    /// The record's invariant: 32-byte keys throughout, and no contributor
    /// listed twice.
    pub open spec fn valid(&self) -> bool {
        &&& self.owner.len() == KEY_LEN
        &&& self.bank.len() == KEY_LEN
        &&& forall|i: int| 0 <= i < self.users.len() ==> (#[trigger] self.users[i]).len() == KEY_LEN
        &&& forall|i: int, j: int|
            0 <= i < j < self.users.len() ==> self.users[i] != self.users[j]
    }
}

impl UserStoreView {
    /// The record's invariant: 32-byte keys, and only positive donations.
    pub open spec fn valid(&self) -> bool {
        &&& self.user.len() == KEY_LEN
        &&& self.bank.len() == KEY_LEN
        &&& forall|i: int| 0 <= i < self.donation.len() ==> #[trigger] self.donation[i] > 0
    }
}

/// The global record of one deployment: who may withdraw, where donations
/// accumulate, and which contributors have donated.
#[derive(Debug, PartialEq, Eq)]
pub struct Store {
    pub owner: Pubkey,
    pub bank: Pubkey,
    pub users: Vec<Pubkey>,
    pub bump: u8,
}

/// The per-contributor record: the contributor, the bank it is bound to, and
/// the history of donated amounts, in temporal order.
#[derive(Debug, PartialEq, Eq)]
pub struct UserStore {
    pub user: Pubkey,
    pub donation: Vec<u64>,
    pub bank: Pubkey,
    pub bump: u8,
}

/// The views of a directory of contributor keys.
pub open spec fn keys_view(v: Seq<Pubkey>) -> Seq<Seq<u8>> {
    v.map_values(|k: Pubkey| k@)
}

impl View for Store {
    type V = StoreView;

    open spec fn view(&self) -> StoreView {
        StoreView {
            owner: self.owner@,
            bank: self.bank@,
            users: keys_view(self.users@),
            bump: self.bump,
        }
    }
}

impl View for UserStore {
    type V = UserStoreView;

    open spec fn view(&self) -> UserStoreView {
        UserStoreView {
            user: self.user@,
            bank: self.bank@,
            donation: self.donation@,
            bump: self.bump,
        }
    }
}

/// What recording a donation does to a `Store`: the contributor joins the
/// directory if and only if not already present.
pub open spec fn store_put(v: StoreView, user: Seq<u8>) -> StoreView {
    if v.users.contains(user) {
        v
    } else {
        StoreView { users: v.users.push(user), ..v }
    }
}

/// What recording a donation does to a `UserStore`: the amount is appended.
pub open spec fn user_store_put(v: UserStoreView, lamports: u64) -> UserStoreView {
    UserStoreView { donation: v.donation.push(lamports), ..v }
}

impl Store {
    pub open spec fn wf(&self) -> bool {
        self@.valid()
    }

    pub fn new(owner: Pubkey, bank: Pubkey, bump: u8) -> (s: Store)
        requires
            owner.wf(),
            bank.wf(),
        ensures
            s@.owner == owner@,
            s@.bank == bank@,
            s@.users.len() == 0,
            s@.bump == bump,
            s.wf(),
    {
        let s = Store { owner, bank, users: Vec::new(), bump };
        proof {
            assert(s@.users =~= Seq::<Seq<u8>>::empty());
        }
        s
    }

    /// Whether `user` is already listed in the directory.
    pub fn contains_user(&self, user: &Pubkey) -> (r: bool)
        requires
            self.wf(),
            user.wf(),
        ensures
            r == self@.users.contains(user@),
    {
        let mut i: usize = 0;
        while i < self.users.len()
            invariant
                self.wf(),
                user.wf(),
                i <= self@.users.len(),
                forall|j: int| 0 <= j < i ==> self@.users[j] != user@,
            decreases self@.users.len() - i,
        {
            assert(self@.users[i as int] == self.users@[i as int]@);
            if self.users[i].key_eq(user) {
                return true;
            }
            i = i + 1;
        }
        proof {
            if self@.users.contains(user@) {
                let w = choose|w: int| 0 <= w < self@.users.len() && self@.users[w] == user@;
                assert(self@.users[w] != user@);
            }
        }
        false
    }

    /// Records a donating contributor: appends the key to the directory
    /// unless it is already there (byte-wise equality).
    pub fn put_donate(&mut self, user: Pubkey)
        requires
            old(self).wf(),
            user.wf(),
        ensures
            final(self)@ == store_put(old(self)@, user@),
            final(self).wf(),
    {
        let ghost pre = self@;
        if !self.contains_user(&user) {
            self.users.push(user);
            proof {
                assert(self@.users =~= pre.users.push(user@));
                assert forall|i: int, j: int|
                    0 <= i < j < self@.users.len() implies self@.users[i] != self@.users[j] by {
                    if j == self@.users.len() - 1 {
                        assert(self@.users[j] == user@);
                        assert(pre.users[i] == self@.users[i]);
                        if self@.users[i] == user@ {
                            assert(pre.users.contains(user@));
                        }
                    }
                }
            }
        }
    }
}

impl UserStore {
    pub open spec fn wf(&self) -> bool {
        self@.valid()
    }

    pub fn new(user: Pubkey, bank: Pubkey, bump: u8) -> (s: UserStore)
        requires
            user.wf(),
            bank.wf(),
        ensures
            s@.user == user@,
            s@.bank == bank@,
            s@.donation.len() == 0,
            s@.bump == bump,
            s.wf(),
    {
        let s = UserStore { user, donation: Vec::new(), bank, bump };
        proof {
            assert(s@.donation =~= Seq::<u64>::empty());
        }
        s
    }

    /// Records a donated amount: appends it to the history.
    pub fn put_donate(&mut self, lamports: u64)
        ensures
            final(self)@ == user_store_put(old(self)@, lamports),
    {
        self.donation.push(lamports);
    }
}

/// Checks the `Store` invariant on a record read from raw account data.
pub fn store_record_valid(s: &Store) -> (r: bool)
    ensures
        r == s@.valid(),
{
    if s.owner.as_bytes().len() != KEY_LEN || s.bank.as_bytes().len() != KEY_LEN {
        return false;
    }
    let n = s.users.len();
    let mut j: usize = 0;
    while j < n
        invariant
            j <= n,
            n == s@.users.len(),
            forall|x: int| 0 <= x < j ==> (#[trigger] s@.users[x]).len() == KEY_LEN,
            forall|x: int, y: int| 0 <= x < y < j ==> s@.users[x] != s@.users[y],
        decreases n - j,
    {
        proof {
            assert(s@.users[j as int] == s.users@[j as int]@);
        }
        if s.users[j].as_bytes().len() != KEY_LEN {
            return false;
        }
        let mut i: usize = 0;
        while i < j
            invariant
                i <= j < n,
                n == s@.users.len(),
                s@.users[j as int].len() == KEY_LEN,
                forall|x: int| 0 <= x < j ==> (#[trigger] s@.users[x]).len() == KEY_LEN,
                forall|x: int| 0 <= x < i ==> s@.users[x] != s@.users[j as int],
            decreases j - i,
        {
            proof {
                assert(s@.users[i as int] == s.users@[i as int]@);
                assert(s@.users[j as int] == s.users@[j as int]@);
            }
            if s.users[i].key_eq(&s.users[j]) {
                return false;
            }
            i = i + 1;
        }
        j = j + 1;
    }
    true
}

/// Checks the `UserStore` invariant on a record read from raw account data.
pub fn user_store_record_valid(s: &UserStore) -> (r: bool)
    ensures
        r == s@.valid(),
{
    if s.user.as_bytes().len() != KEY_LEN || s.bank.as_bytes().len() != KEY_LEN {
        return false;
    }
    let n = s.donation.len();
    let mut i: usize = 0;
    while i < n
        invariant
            i <= n,
            n == s@.donation.len(),
            forall|x: int| 0 <= x < i ==> #[trigger] s@.donation[x] > 0,
        decreases n - i,
    {
        if s.donation[i] == 0 {
            return false;
        }
        i = i + 1;
    }
    true
}

/// Bytes allocated to a record account at initialization: room for hundreds
/// of entries.
pub const RECORD_SPACE: u64 = 10240;

/// Serialized length of a `Store`: owner and bank keys, a 4-byte entry
/// count, the entries, and the bump byte.
pub open spec fn store_byte_len(v: StoreView) -> int {
    KEY_LEN + KEY_LEN + 4 + KEY_LEN * v.users.len() + 1
}

/// Serialized length of a `UserStore`: user and bank keys, a 4-byte entry
/// count, the 8-byte entries, and the bump byte.
pub open spec fn user_store_byte_len(v: UserStoreView) -> int {
    KEY_LEN + KEY_LEN + 4 + 8 * v.donation.len() + 1
}

/// Whether a `Store` still fits in `space` allocated bytes.
pub fn store_fits(s: &Store, space: u64) -> (r: bool)
    ensures
        r == (store_byte_len(s@) <= space),
{
    let n: u128 = s.users.len() as u128;
    69u128 + 32u128 * n <= space as u128
}

/// Whether a `UserStore` still fits in `space` allocated bytes.
pub fn user_store_fits(s: &UserStore, space: u64) -> (r: bool)
    ensures
        r == (user_store_byte_len(s@) <= space),
{
    let n: u128 = s.donation.len() as u128;
    69u128 + 8u128 * n <= space as u128
}

/// Spec view of the host account that holds a `Store` record: its address,
/// the record if the account exists, its allocated size, and whether the
/// transaction marked it writable.
#[verifier::ext_equal]
pub struct StoreAccountView {
    pub key: Seq<u8>,
    pub record: Option<StoreView>,
    pub space: u64,
    pub is_writable: bool,
}

/// Spec view of the host account that holds a `UserStore` record.
#[verifier::ext_equal]
pub struct UserStoreAccountView {
    pub key: Seq<u8>,
    pub record: Option<UserStoreView>,
    pub space: u64,
    pub is_writable: bool,
}

impl StoreAccountView {
    pub open spec fn valid(&self) -> bool {
        &&& self.key.len() == KEY_LEN
        &&& self.record matches Some(s) ==> s.valid()
    }
}

impl UserStoreAccountView {
    pub open spec fn valid(&self) -> bool {
        &&& self.key.len() == KEY_LEN
        &&& self.record matches Some(s) ==> s.valid()
    }
}

/// The host account that holds (or will hold) a `Store` record.
pub struct StoreAccount {
    pub key: Pubkey,
    pub record: Option<Store>,
    pub space: u64,
    pub is_writable: bool,
}

/// The host account that holds (or will hold) a `UserStore` record.
pub struct UserStoreAccount {
    pub key: Pubkey,
    pub record: Option<UserStore>,
    pub space: u64,
    pub is_writable: bool,
}

impl View for StoreAccount {
    type V = StoreAccountView;

    open spec fn view(&self) -> StoreAccountView {
        StoreAccountView {
            key: self.key@,
            record: match self.record {
                Some(s) => Some(s@),
                None => None,
            },
            space: self.space,
            is_writable: self.is_writable,
        }
    }
}

impl View for UserStoreAccount {
    type V = UserStoreAccountView;

    open spec fn view(&self) -> UserStoreAccountView {
        UserStoreAccountView {
            key: self.key@,
            record: match self.record {
                Some(s) => Some(s@),
                None => None,
            },
            space: self.space,
            is_writable: self.is_writable,
        }
    }
}

impl StoreAccount {
    pub open spec fn wf(&self) -> bool {
        self@.valid()
    }
}

impl UserStoreAccount {
    pub open spec fn wf(&self) -> bool {
        self@.valid()
    }
}

} // verus!
