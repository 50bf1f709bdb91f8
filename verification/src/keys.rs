//! Identity keys. Every participant (owner, bank, contributor) and every
//! account is identified by a 32-byte public key, held here as a plain byte
//! vector so that contracts can speak of its contents.

use vstd::prelude::*;

verus! {

/// Number of bytes in an identity key.
pub const KEY_LEN: usize = 32;

/// A 32-byte identity key.
#[derive(Debug, PartialEq, Eq)]
pub struct Pubkey {
    bytes: Vec<u8>,
}

impl View for Pubkey {
    type V = Seq<u8>;

    closed spec fn view(&self) -> Seq<u8> {
        self.bytes@
    }
}

impl Pubkey {
    /// A key is well formed when it holds exactly 32 bytes.
    pub open spec fn wf(&self) -> bool {
        self@.len() == KEY_LEN
    }

    pub fn new(bytes: Vec<u8>) -> (k: Pubkey)
        requires
            bytes@.len() == KEY_LEN,
        ensures
            k@ == bytes@,
            k.wf(),
    {
        Pubkey { bytes }
    }

    pub fn as_bytes(&self) -> (b: &Vec<u8>)
        ensures
            b@ == self@,
    {
        &self.bytes
    }

    /// Byte-wise equality of two keys.
    pub fn key_eq(&self, other: &Pubkey) -> (r: bool)
        requires
            self.wf(),
            other.wf(),
        ensures
            r == (self@ == other@),
    {
        let mut i: usize = 0;
        while i < KEY_LEN
            invariant
                i <= KEY_LEN,
                self.wf(),
                other.wf(),
                forall|j: int| 0 <= j < i ==> self@[j] == other@[j],
            decreases KEY_LEN - i,
        {
            if self.bytes[i] != other.bytes[i] {
                return false;
            }
            i = i + 1;
        }
        proof {
            assert(self@ =~= other@);
        }
        true
    }

    /// An independent copy of the key.
    pub fn dup(&self) -> (r: Pubkey)
        ensures
            r@ == self@,
    {
        let copy = self.bytes.clone();
        proof {
            assert(copy@ =~= self.bytes@);
        }
        Pubkey { bytes: copy }
    }
}

} // verus!
