//! Withdrawal of tokens from the ledger to an outside address.

use crate::amount::{amount_fits, amount_in_range, amount_value, push_amount};
use crate::encoding::{
    be_fixed, lemma_be_fixed_injective, lemma_be_fixed_len, lemma_pow256_of_16,
    lemma_pow256_of_2_and_4, push_bytes, push_u16_be, push_u32_be,
};
use crate::primitives::{Nonce, TokenId};
use num::BigUint;
use vstd::prelude::*;
use zksync_basic_types::Address;

verus! {

/// Withdraws `token` of account `from` to the address `to` and pays `fee`
/// in the same token; `fast` asks for the faster, dearer processing.
#[derive(Debug)]
pub struct Withdraw {
    pub from: Address,
    pub to: Address,
    pub token: TokenId,
    pub fee: BigUint,
    pub fast: bool,
    pub nonce: Nonce,
}

/// What a withdrawal says, in plain values.
pub struct WithdrawView {
    pub from: Seq<u8>,
    pub to: Seq<u8>,
    pub token: TokenId,
    pub fee: nat,
    pub fast: bool,
    pub nonce: Nonce,
}

impl WithdrawView {
    /// The byte that stands for the `fast` flag.
    pub open spec fn fast_byte(self) -> u8 {
        if self.fast {
            1
        } else {
            0
        }
    }

    /// The canonical encoding: the kind's tag, account, destination, token
    /// (2 bytes), fee (16 bytes), the `fast` flag (1 byte), nonce (4 bytes),
    /// every number big-endian.
    pub open spec fn encoding(self) -> Seq<u8> {
        seq![Withdraw::TX_TYPE] + self.from + self.to + be_fixed(self.token as nat, 2) + be_fixed(
            self.fee,
            16,
        ) + seq![self.fast_byte()] + be_fixed(self.nonce as nat, 4)
    }

    /// Whether both addresses have their 20 bytes.
    pub open spec fn well_formed(self) -> bool {
        self.from.len() == 20 && self.to.len() == 20
    }

    /// A withdrawal is valid when its fee fits in 128 bits.
    pub open spec fn is_valid(self) -> bool {
        amount_in_range(self.fee)
    }

    /// The encoding has 64 bytes.
    pub proof fn lemma_encoding_len(self)
        requires
            self.well_formed(),
        ensures
            self.encoding().len() == Withdraw::ENCODED_LEN,
    {
        lemma_be_fixed_len(self.token as nat, 2);
        lemma_be_fixed_len(self.fee, 16);
        lemma_be_fixed_len(self.nonce as nat, 4);
    }

    /// Two withdrawals with fees in range and the same encoding say the
    /// same.
    pub proof fn lemma_encoding_injective(self, other: WithdrawView)
        requires
            self.well_formed(),
            other.well_formed(),
            amount_in_range(self.fee),
            amount_in_range(other.fee),
            self.encoding() == other.encoding(),
        ensures
            self == other,
    {
        let e = self.encoding();
        let f = other.encoding();
        self.lemma_encoding_len();
        other.lemma_encoding_len();
        lemma_be_fixed_len(self.token as nat, 2);
        lemma_be_fixed_len(self.fee, 16);
        lemma_be_fixed_len(self.nonce as nat, 4);
        lemma_be_fixed_len(other.token as nat, 2);
        lemma_be_fixed_len(other.fee, 16);
        lemma_be_fixed_len(other.nonce as nat, 4);
        assert(self.from =~= e.subrange(1, 21));
        assert(other.from =~= f.subrange(1, 21));
        assert(self.to =~= e.subrange(21, 41));
        assert(other.to =~= f.subrange(21, 41));
        assert(be_fixed(self.token as nat, 2) =~= e.subrange(41, 43));
        assert(be_fixed(other.token as nat, 2) =~= f.subrange(41, 43));
        assert(be_fixed(self.fee, 16) =~= e.subrange(43, 59));
        assert(be_fixed(other.fee, 16) =~= f.subrange(43, 59));
        assert(self.fast_byte() == e[59]);
        assert(other.fast_byte() == f[59]);
        assert(be_fixed(self.nonce as nat, 4) =~= e.subrange(60, 64));
        assert(be_fixed(other.nonce as nat, 4) =~= f.subrange(60, 64));
        lemma_pow256_of_2_and_4();
        lemma_pow256_of_16();
        lemma_be_fixed_injective(self.token as nat, other.token as nat, 2);
        lemma_be_fixed_injective(self.fee, other.fee, 16);
        lemma_be_fixed_injective(self.nonce as nat, other.nonce as nat, 4);
    }
}

impl View for Withdraw {
    type V = WithdrawView;

    open spec fn view(&self) -> WithdrawView {
        WithdrawView {
            from: self.from.0@,
            to: self.to.0@,
            token: self.token,
            fee: amount_value(self.fee),
            fast: self.fast,
            nonce: self.nonce,
        }
    }
}

impl Clone for Withdraw {
    /// A copy that says the same: the same addresses, token, flag and nonce,
    /// and a fee of the same value.
    fn clone(&self) -> (copy: Self)
        ensures
            copy@ == self@,
            copy.from == self.from,
            copy.to == self.to,
    {
        Withdraw {
            from: self.from,
            to: self.to,
            token: self.token,
            fee: self.fee.clone(),
            fast: self.fast,
            nonce: self.nonce,
        }
    }
}

impl Withdraw {
    /// Tag of a withdrawal in the canonical encoding.
    pub const TX_TYPE: u8 = 3;

    /// Chunks that a withdrawal takes in a block.
    pub const CHUNKS: usize = 6;

    /// Length of the canonical encoding in bytes.
    pub const ENCODED_LEN: usize = 64;

    /// The canonical byte encoding.
    pub fn get_bytes(&self) -> (bytes: Vec<u8>)
        ensures
            bytes@ == self@.encoding(),
            bytes@.len() == Withdraw::ENCODED_LEN,
    {
        let mut out: Vec<u8> = Vec::new();
        out.push(Withdraw::TX_TYPE);
        push_bytes(&mut out, self.from.0.as_slice());
        push_bytes(&mut out, self.to.0.as_slice());
        push_u16_be(&mut out, self.token);
        push_amount(&mut out, &self.fee);
        out.push(if self.fast { 1 } else { 0 });
        push_u32_be(&mut out, self.nonce);
        proof {
            self@.lemma_encoding_len();
            assert(out@ =~= self@.encoding());
        }
        out
    }

    /// Checks that the withdrawal is valid. The withdrawal is left as
    /// it was.
    pub fn check_correctness(&mut self) -> (valid: bool)
        ensures
            valid == old(self)@.is_valid(),
            *final(self) == *old(self),
    {
        amount_fits(&self.fee)
    }
}

} // verus!
