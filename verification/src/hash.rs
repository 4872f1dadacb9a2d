//! Content hashes and the identifiers made of them.

use vstd::prelude::*;

verus! {

/// A 32-byte content hash.
#[derive(Clone, Copy, Debug, PartialEq, Eq, Hash)]
pub struct CryptoHash(pub [u8; 32]);

impl CryptoHash {
    /// Whether all 32 bytes are zero: the mark of "no block".
    pub open spec fn is_zero(self) -> bool {
        forall|i: int| 0 <= i < 32 ==> self.0[i] == 0u8
    }

    /// There is one all-zero hash.
    pub proof fn lemma_zero_unique(a: CryptoHash, b: CryptoHash)
        requires
            a.is_zero(),
            b.is_zero(),
        ensures
            a == b,
    {
        assert(a.0 =~= b.0);
    }

    /// Two hashes are the same value exactly when their 32 bytes agree.
    pub fn same(&self, other: &CryptoHash) -> (r: bool)
        ensures
            r == (*self == *other),
    {
        let mut i: usize = 0;
        while i < 32
            invariant
                i <= 32,
                forall|j: int| 0 <= j < i ==> self.0[j] == other.0[j],
            decreases 32 - i,
        {
            if self.0[i] != other.0[i] {
                return false;
            }
            i += 1;
        }
        assert(self.0 =~= other.0);
        true
    }

    /// Whether this is the all-zero hash.
    pub fn is_default(&self) -> (r: bool)
        ensures
            r == self.is_zero(),
    {
        let zero = CryptoHash([0u8; 32]);
        let r = self.same(&zero);
        proof {
            if self.is_zero() {
                CryptoHash::lemma_zero_unique(*self, zero);
            }
        }
        r
    }

    /// The 32 bytes.
    pub fn as_bytes(&self) -> (r: &[u8; 32])
        ensures
            *r == self.0,
    {
        &self.0
    }
}

impl Default for CryptoHash {
    fn default() -> (r: CryptoHash)
        ensures
            r.is_zero(),
    {
        CryptoHash([0u8; 32])
    }
}

impl View for CryptoHash {
    type V = CryptoHash;

    open spec fn view(&self) -> CryptoHash {
        *self
    }
}

/// The epoch a block belongs to, named by a block hash.
#[derive(Clone, Copy, Debug, PartialEq, Eq, Hash)]
pub struct EpochId(pub CryptoHash);

impl EpochId {
    /// Two epoch ids are the same value exactly when their hashes are.
    pub fn same(&self, other: &EpochId) -> (r: bool)
        ensures
            r == (*self == *other),
    {
        self.0.same(&other.0)
    }
}

} // verus!
