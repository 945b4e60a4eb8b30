//! Transfer of tokens between two accounts.

use crate::address::{all_zero, is_all_zero};
use crate::amount::{amount_fits, amount_in_range, amount_value, push_amount};
use crate::encoding::{
    be_fixed, lemma_be_fixed_injective, lemma_be_fixed_len, lemma_pow256_of_16,
    lemma_pow256_of_2_and_4, push_bytes, push_u16_be, push_u32_be,
};
use crate::primitives::{Nonce, TokenId};
use num::BigUint;
use vstd::prelude::*;
use zksync_basic_types::Address;

verus! {

/// Moves `amount` of `token` from `from` to `to` and pays `fee` in the same
/// token.
#[derive(Debug)]
pub struct Transfer {
    pub from: Address,
    pub to: Address,
    pub token: TokenId,
    pub amount: BigUint,
    pub fee: BigUint,
    pub nonce: Nonce,
}

/// What a transfer says, in plain values.
pub struct TransferView {
    pub from: Seq<u8>,
    pub to: Seq<u8>,
    pub token: TokenId,
    pub amount: nat,
    pub fee: nat,
    pub nonce: Nonce,
}

impl TransferView {
    /// The canonical encoding: the kind's tag, sender, recipient, token
    /// (2 bytes), amount (16 bytes), fee (16 bytes), nonce (4 bytes), every
    /// number big-endian.
    pub open spec fn encoding(self) -> Seq<u8> {
        seq![Transfer::TX_TYPE] + self.from + self.to + be_fixed(self.token as nat, 2) + be_fixed(
            self.amount,
            16,
        ) + be_fixed(self.fee, 16) + be_fixed(self.nonce as nat, 4)
    }

    /// Whether both addresses have their 20 bytes.
    pub open spec fn well_formed(self) -> bool {
        self.from.len() == 20 && self.to.len() == 20
    }

    /// A transfer is valid when amount and fee fit in 128 bits and the
    /// recipient is not the zero address.
    pub open spec fn is_valid(self) -> bool {
        &&& amount_in_range(self.amount)
        &&& amount_in_range(self.fee)
        &&& !all_zero(self.to)
    }

    /// The encoding has 79 bytes.
    pub proof fn lemma_encoding_len(self)
        requires
            self.well_formed(),
        ensures
            self.encoding().len() == Transfer::ENCODED_LEN,
    {
        lemma_be_fixed_len(self.token as nat, 2);
        lemma_be_fixed_len(self.amount, 16);
        lemma_be_fixed_len(self.fee, 16);
        lemma_be_fixed_len(self.nonce as nat, 4);
    }

    /// Two transfers with amounts and fees in range and the same encoding
    /// say the same.
    pub proof fn lemma_encoding_injective(self, other: TransferView)
        requires
            self.well_formed(),
            other.well_formed(),
            amount_in_range(self.amount),
            amount_in_range(self.fee),
            amount_in_range(other.amount),
            amount_in_range(other.fee),
            self.encoding() == other.encoding(),
        ensures
            self == other,
    {
        let e = self.encoding();
        let f = other.encoding();
        self.lemma_encoding_len();
        other.lemma_encoding_len();
        lemma_be_fixed_len(self.token as nat, 2);
        lemma_be_fixed_len(self.amount, 16);
        lemma_be_fixed_len(self.fee, 16);
        lemma_be_fixed_len(self.nonce as nat, 4);
        lemma_be_fixed_len(other.token as nat, 2);
        lemma_be_fixed_len(other.amount, 16);
        lemma_be_fixed_len(other.fee, 16);
        lemma_be_fixed_len(other.nonce as nat, 4);
        assert(self.from =~= e.subrange(1, 21));
        assert(other.from =~= f.subrange(1, 21));
        assert(self.to =~= e.subrange(21, 41));
        assert(other.to =~= f.subrange(21, 41));
        assert(be_fixed(self.token as nat, 2) =~= e.subrange(41, 43));
        assert(be_fixed(other.token as nat, 2) =~= f.subrange(41, 43));
        assert(be_fixed(self.amount, 16) =~= e.subrange(43, 59));
        assert(be_fixed(other.amount, 16) =~= f.subrange(43, 59));
        assert(be_fixed(self.fee, 16) =~= e.subrange(59, 75));
        assert(be_fixed(other.fee, 16) =~= f.subrange(59, 75));
        assert(be_fixed(self.nonce as nat, 4) =~= e.subrange(75, 79));
        assert(be_fixed(other.nonce as nat, 4) =~= f.subrange(75, 79));
        lemma_pow256_of_2_and_4();
        lemma_pow256_of_16();
        lemma_be_fixed_injective(self.token as nat, other.token as nat, 2);
        lemma_be_fixed_injective(self.amount, other.amount, 16);
        lemma_be_fixed_injective(self.fee, other.fee, 16);
        lemma_be_fixed_injective(self.nonce as nat, other.nonce as nat, 4);
    }
}

impl View for Transfer {
    type V = TransferView;

    open spec fn view(&self) -> TransferView {
        TransferView {
            from: self.from.0@,
            to: self.to.0@,
            token: self.token,
            amount: amount_value(self.amount),
            fee: amount_value(self.fee),
            nonce: self.nonce,
        }
    }
}

impl Clone for Transfer {
    /// A copy that says the same: the same addresses, token and nonce, and
    /// amounts of the same value.
    fn clone(&self) -> (copy: Self)
        ensures
            copy@ == self@,
            copy.from == self.from,
            copy.to == self.to,
    {
        Transfer {
            from: self.from,
            to: self.to,
            token: self.token,
            amount: self.amount.clone(),
            fee: self.fee.clone(),
            nonce: self.nonce,
        }
    }
}

impl Transfer {
    /// Tag of a transfer in the canonical encoding.
    pub const TX_TYPE: u8 = 5;

    /// Chunks that a transfer takes in a block.
    pub const CHUNKS: usize = 2;

    /// Length of the canonical encoding in bytes.
    pub const ENCODED_LEN: usize = 79;

    /// The canonical byte encoding.
    pub fn get_bytes(&self) -> (bytes: Vec<u8>)
        ensures
            bytes@ == self@.encoding(),
            bytes@.len() == Transfer::ENCODED_LEN,
    {
        let mut out: Vec<u8> = Vec::new();
        out.push(Transfer::TX_TYPE);
        push_bytes(&mut out, self.from.0.as_slice());
        push_bytes(&mut out, self.to.0.as_slice());
        push_u16_be(&mut out, self.token);
        push_amount(&mut out, &self.amount);
        push_amount(&mut out, &self.fee);
        push_u32_be(&mut out, self.nonce);
        proof {
            self@.lemma_encoding_len();
            assert(out@ =~= self@.encoding());
        }
        out
    }

    /// Checks that the transfer is valid. The transfer is left as it
    /// was.
    pub fn check_correctness(&mut self) -> (valid: bool)
        ensures
            valid == old(self)@.is_valid(),
            *final(self) == *old(self),
    {
        amount_fits(&self.amount) && amount_fits(&self.fee) && !is_all_zero(
            self.to.0.as_slice(),
        )
    }
}

} // verus!
