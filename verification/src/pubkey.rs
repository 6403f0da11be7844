//! Identities of accounts.

use vstd::prelude::*;

verus! {

/// The address of an account: 32 bytes, compared as a whole.
#[derive(Clone, Copy, Debug, Default, PartialEq, Eq, PartialOrd, Ord, Hash)]
pub struct Pubkey(pub [u8; 32]);

impl View for Pubkey {
    type V = Seq<u8>;

    /// The 32 bytes of the address.
    open spec fn view(&self) -> Seq<u8> {
        self.0@
    }
}

/// Whether `a` comes before `b` when the two are compared byte by byte from
/// the first byte on.
pub open spec fn bytes_before(a: Seq<u8>, b: Seq<u8>) -> bool {
    exists|i: int|
        0 <= i < a.len() && i < b.len() && a[i] < b[i] && a.subrange(0, i) == b.subrange(0, i)
}

impl Pubkey {
    /// The address made of the given bytes.
    pub fn new_from_array(bytes: [u8; 32]) -> (r: Pubkey)
        ensures
            r@ == bytes@,
    {
        Pubkey(bytes)
    }

    /// The bytes of the address.
    pub fn to_bytes(&self) -> (r: [u8; 32])
        ensures
            r@ == self@,
    {
        self.0
    }

    /// Whether two addresses are the same.
    pub fn equals(&self, other: &Pubkey) -> (r: bool)
        ensures
            r == (self@ == other@),
            r == (*self == *other),
    {
        let mut i: usize = 0;
        while i < 32
            invariant
                i <= 32,
                self@.subrange(0, i as int) == other@.subrange(0, i as int),
            decreases 32 - i,
        {
            if self.0[i] != other.0[i] {
                assert(self@[i as int] != other@[i as int]);
                return false;
            }
            assert(self@.subrange(0, i + 1) == self@.subrange(0, i as int).push(self@[i as int]));
            assert(other@.subrange(0, i + 1) == other@.subrange(0, i as int).push(
                other@[i as int],
            ));
            i = i + 1;
        }
        assert(self@ == self@.subrange(0, 32));
        assert(other@ == other@.subrange(0, 32));
        assert(self.0 =~= other.0);
        true
    }

    /// Whether `self` comes before `other` in the order of addresses.
    pub fn before(&self, other: &Pubkey) -> (r: bool)
        ensures
            r == bytes_before(self@, other@),
    {
        let mut i: usize = 0;
        while i < 32
            invariant
                i <= 32,
                self@.subrange(0, i as int) == other@.subrange(0, i as int),
            decreases 32 - i,
        {
            if self.0[i] != other.0[i] {
                let r = self.0[i] < other.0[i];
                proof {
                    if !r {
                        assert forall|j: int|
                            0 <= j < 32 && self@[j] < other@[j] implies self@.subrange(0, j)
                            != other@.subrange(0, j) by {
                            if j < i {
                                assert(self@.subrange(0, i as int)[j] == other@.subrange(
                                    0,
                                    i as int,
                                )[j]);
                            } else if j > i {
                                assert(self@.subrange(0, j)[i as int] != other@.subrange(
                                    0,
                                    j,
                                )[i as int]);
                            }
                        }
                    }
                }
                return r;
            }
            assert(self@.subrange(0, i + 1) == self@.subrange(0, i as int).push(self@[i as int]));
            assert(other@.subrange(0, i + 1) == other@.subrange(0, i as int).push(
                other@[i as int],
            ));
            i = i + 1;
        }
        proof {
            assert forall|j: int| 0 <= j < 32 implies !(self@[j] < other@[j]) by {
                assert(self@.subrange(0, 32)[j] == other@.subrange(0, 32)[j]);
            }
        }
        false
    }
}

} // verus!
