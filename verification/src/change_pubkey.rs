//! Rotation of the signing key of an account.

use crate::encoding::{
    be_fixed, lemma_be_fixed_injective, lemma_be_fixed_len, lemma_pow256_of_2_and_4, push_bytes,
    push_u32_be,
};
use crate::primitives::Nonce;
use vstd::prelude::*;
use zksync_basic_types::Address;

verus! {

/// Rotates the signing key of `account`.
#[derive(Debug)]
pub struct ChangePubKey {
    pub account: Address,
    pub nonce: Nonce,
}

/// What a key rotation says, in plain values.
pub struct ChangePubKeyView {
    pub account: Seq<u8>,
    pub nonce: Nonce,
}

impl ChangePubKeyView {
    /// The canonical encoding: the kind's tag, account, nonce (4 bytes,
    /// big-endian).
    pub open spec fn encoding(self) -> Seq<u8> {
        seq![ChangePubKey::TX_TYPE] + self.account + be_fixed(self.nonce as nat, 4)
    }

    /// Whether the address has its 20 bytes.
    pub open spec fn well_formed(self) -> bool {
        self.account.len() == 20
    }

    /// Every key rotation is valid.
    pub open spec fn is_valid(self) -> bool {
        true
    }

    /// The encoding has 25 bytes.
    pub proof fn lemma_encoding_len(self)
        requires
            self.well_formed(),
        ensures
            self.encoding().len() == ChangePubKey::ENCODED_LEN,
    {
        lemma_be_fixed_len(self.nonce as nat, 4);
    }

    /// Two key rotations with the same encoding say the same.
    pub proof fn lemma_encoding_injective(self, other: ChangePubKeyView)
        requires
            self.well_formed(),
            other.well_formed(),
            self.encoding() == other.encoding(),
        ensures
            self == other,
    {
        let e = self.encoding();
        let f = other.encoding();
        self.lemma_encoding_len();
        other.lemma_encoding_len();
        lemma_be_fixed_len(self.nonce as nat, 4);
        lemma_be_fixed_len(other.nonce as nat, 4);
        assert(self.account =~= e.subrange(1, 21));
        assert(other.account =~= f.subrange(1, 21));
        assert(be_fixed(self.nonce as nat, 4) =~= e.subrange(21, 25));
        assert(be_fixed(other.nonce as nat, 4) =~= f.subrange(21, 25));
        lemma_pow256_of_2_and_4();
        lemma_be_fixed_injective(self.nonce as nat, other.nonce as nat, 4);
    }
}

impl View for ChangePubKey {
    type V = ChangePubKeyView;

    open spec fn view(&self) -> ChangePubKeyView {
        ChangePubKeyView { account: self.account.0@, nonce: self.nonce }
    }
}

impl Clone for ChangePubKey {
    fn clone(&self) -> (copy: Self)
        ensures
            copy == *self,
    {
        ChangePubKey { account: self.account, nonce: self.nonce }
    }
}

impl ChangePubKey {
    /// Tag of a key rotation in the canonical encoding.
    pub const TX_TYPE: u8 = 7;

    /// Chunks that a key rotation takes in a block.
    pub const CHUNKS: usize = 3;

    /// Length of the canonical encoding in bytes.
    pub const ENCODED_LEN: usize = 25;

    /// The canonical byte encoding.
    pub fn get_bytes(&self) -> (bytes: Vec<u8>)
        ensures
            bytes@ == self@.encoding(),
            bytes@.len() == ChangePubKey::ENCODED_LEN,
    {
        let mut out: Vec<u8> = Vec::new();
        out.push(ChangePubKey::TX_TYPE);
        push_bytes(&mut out, self.account.0.as_slice());
        push_u32_be(&mut out, self.nonce);
        proof {
            self@.lemma_encoding_len();
            assert(out@ =~= self@.encoding());
        }
        out
    }

    /// Checks that the key rotation is valid, which it always is. The
    /// key rotation is left as it was.
    pub fn check_correctness(&mut self) -> (valid: bool)
        ensures
            valid == old(self)@.is_valid(),
            *final(self) == *old(self),
    {
        true
    }
}

} // verus!
