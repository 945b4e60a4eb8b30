//! Small value types shared by every kind of transaction.

use vstd::prelude::*;
use zksync_basic_types::Address;

verus! {

/// Numeric identifier of a token.
pub type TokenId = u16;

/// Per-account counter of executed operations.
pub type Nonce = u32;

/// Pricing bucket of an operation that pays a fee.
#[derive(Debug, Clone, Copy, PartialEq, Eq, Hash, Structural)]
pub enum TxFeeTypes {
    Withdraw,
    FastWithdraw,
    Transfer,
}

/// A way to name a token. The envelope itself only ever names a token by
/// its numeric identifier.
#[derive(Debug, PartialEq, Eq, Hash)]
pub enum TokenLike {
    Id(TokenId),
    Address(Address),
    Symbol(String),
}

impl Clone for TokenLike {
    fn clone(&self) -> (copy: Self)
        ensures
            copy == *self,
    {
        match self {
            TokenLike::Id(id) => TokenLike::Id(*id),
            TokenLike::Address(address) => TokenLike::Address(*address),
            TokenLike::Symbol(symbol) => TokenLike::Symbol(symbol.clone()),
        }
    }
}

/// Content hash of a transaction: 32 raw bytes.
#[derive(Debug, Clone, Copy, PartialEq, Eq, Hash)]
pub struct TxHash {
    pub data: [u8; 32],
}

impl View for TxHash {
    type V = Seq<u8>;

    open spec fn view(&self) -> Seq<u8> {
        self.data@
    }
}

impl TxHash {
    /// Two hashes of the same bytes are the same value.
    pub proof fn lemma_equal_by_bytes(self, other: TxHash)
        requires
            self@ == other@,
        ensures
            self == other,
    {
        assert(self.data =~= other.data);
    }

    /// Copies a 32-byte digest, unchanged and in full, into a hash value.
    pub fn from_digest(digest: &[u8]) -> (hash: TxHash)
        requires
            digest@.len() == 32,
        ensures
            hash@ == digest@,
    {
        let mut data = [0u8; 32];
        let mut i: usize = 0;
        while i < 32
            invariant
                i <= 32,
                digest@.len() == 32,
                forall|j: int| 0 <= j < i ==> data@[j] == digest@[j],
            decreases 32 - i,
        {
            data[i] = digest[i];
            i += 1;
        }
        assert(data@ =~= digest@);
        TxHash { data }
    }
}

} // verus!
