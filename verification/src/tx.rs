//! The union of the four kinds of transaction and its uniform projections.

use crate::amount::amount_value;
use crate::change_pubkey::{ChangePubKey, ChangePubKeyView};
use crate::close::{Close, CloseView};
use crate::digest::{sha256, sha256_digest};
use crate::primitives::{Nonce, TokenLike, TxFeeTypes, TxHash};
use crate::transfer::{Transfer, TransferView};
use crate::withdraw::{Withdraw, WithdrawView};
use num::BigUint;
use vstd::prelude::*;
use zksync_basic_types::Address;

verus! {

/// A transaction of one of the four kinds.
#[derive(Debug)]
pub enum FranklinTx {
    Transfer(Box<Transfer>),
    Withdraw(Box<Withdraw>),
    Close(Box<Close>),
    ChangePubKey(Box<ChangePubKey>),
}

/// What a transaction says, in plain values.
pub enum TxView {
    Transfer(TransferView),
    Withdraw(WithdrawView),
    Close(CloseView),
    ChangePubKey(ChangePubKeyView),
}

impl TxView {
    /// The canonical byte encoding, which is that of the kind.
    pub open spec fn encoding(self) -> Seq<u8> {
        match self {
            TxView::Transfer(tx) => tx.encoding(),
            TxView::Withdraw(tx) => tx.encoding(),
            TxView::Close(tx) => tx.encoding(),
            TxView::ChangePubKey(tx) => tx.encoding(),
        }
    }

    /// Whether the transaction is valid by the rules of its kind.
    pub open spec fn is_valid(self) -> bool {
        match self {
            TxView::Transfer(tx) => tx.is_valid(),
            TxView::Withdraw(tx) => tx.is_valid(),
            TxView::Close(tx) => tx.is_valid(),
            TxView::ChangePubKey(tx) => tx.is_valid(),
        }
    }

    /// The content hash: the SHA-256 digest of the canonical encoding.
    pub open spec fn hash(self) -> Seq<u8> {
        sha256_digest(self.encoding())
    }
}

impl View for FranklinTx {
    type V = TxView;

    open spec fn view(&self) -> TxView {
        match self {
            FranklinTx::Transfer(tx) => TxView::Transfer(tx@),
            FranklinTx::Withdraw(tx) => TxView::Withdraw(tx@),
            FranklinTx::Close(tx) => TxView::Close(tx@),
            FranklinTx::ChangePubKey(tx) => TxView::ChangePubKey(tx@),
        }
    }
}

impl Clone for FranklinTx {
    /// A copy of the same kind that says the same.
    fn clone(&self) -> (copy: Self)
        ensures
            copy@ == self@,
            copy.spec_account() == self.spec_account(),
    {
        match self {
            FranklinTx::Transfer(tx) => {
                let inner: &Transfer = tx;
                FranklinTx::Transfer(Box::new(inner.clone()))
            },
            FranklinTx::Withdraw(tx) => {
                let inner: &Withdraw = tx;
                FranklinTx::Withdraw(Box::new(inner.clone()))
            },
            FranklinTx::Close(tx) => {
                let inner: &Close = tx;
                FranklinTx::Close(Box::new(inner.clone()))
            },
            FranklinTx::ChangePubKey(tx) => {
                let inner: &ChangePubKey = tx;
                FranklinTx::ChangePubKey(Box::new(inner.clone()))
            },
        }
    }
}

/// Fee classification of a transaction: pricing bucket, token, recipient
/// and the fee as a number.
pub struct FeeInfo {
    pub fee_type: TxFeeTypes,
    pub token: TokenLike,
    pub recipient: Address,
    pub amount: nat,
}

impl FranklinTx {
    /// The account that owns the transaction.
    pub open spec fn spec_account(&self) -> Address {
        match self {
            FranklinTx::Transfer(tx) => tx.from,
            FranklinTx::Withdraw(tx) => tx.from,
            FranklinTx::Close(tx) => tx.account,
            FranklinTx::ChangePubKey(tx) => tx.account,
        }
    }

    /// The nonce of the transaction.
    pub open spec fn spec_nonce(&self) -> Nonce {
        match self {
            FranklinTx::Transfer(tx) => tx.nonce,
            FranklinTx::Withdraw(tx) => tx.nonce,
            FranklinTx::Close(tx) => tx.nonce,
            FranklinTx::ChangePubKey(tx) => tx.nonce,
        }
    }

    /// The chunks that the kind of the transaction takes in a block.
    pub open spec fn spec_min_chunks(&self) -> usize {
        match self {
            FranklinTx::Transfer(_) => Transfer::CHUNKS,
            FranklinTx::Withdraw(_) => Withdraw::CHUNKS,
            FranklinTx::Close(_) => Close::CHUNKS,
            FranklinTx::ChangePubKey(_) => ChangePubKey::CHUNKS,
        }
    }

    /// The length of the canonical encoding, which the kind fixes.
    pub open spec fn spec_encoded_len(&self) -> usize {
        match self {
            FranklinTx::Transfer(_) => Transfer::ENCODED_LEN,
            FranklinTx::Withdraw(_) => Withdraw::ENCODED_LEN,
            FranklinTx::Close(_) => Close::ENCODED_LEN,
            FranklinTx::ChangePubKey(_) => ChangePubKey::ENCODED_LEN,
        }
    }

    /// The fee classification: a withdrawal pays its fee as `FastWithdraw`
    /// when it is fast and as `Withdraw` when it is not, a transfer pays as
    /// `Transfer`, both in their own token and with their destination as the
    /// recipient; the other kinds pay no fee.
    pub open spec fn spec_fee_info(&self) -> Option<FeeInfo> {
        match self {
            FranklinTx::Withdraw(tx) => Some(
                FeeInfo {
                    fee_type: if tx.fast {
                        TxFeeTypes::FastWithdraw
                    } else {
                        TxFeeTypes::Withdraw
                    },
                    token: TokenLike::Id(tx.token),
                    recipient: tx.to,
                    amount: amount_value(tx.fee),
                },
            ),
            FranklinTx::Transfer(tx) => Some(
                FeeInfo {
                    fee_type: TxFeeTypes::Transfer,
                    token: TokenLike::Id(tx.token),
                    recipient: tx.to,
                    amount: amount_value(tx.fee),
                },
            ),
            _ => None,
        }
    }

    /// The content hash: the SHA-256 digest of the canonical encoding, all
    /// 32 bytes of it.
    pub fn hash(&self) -> (hash: TxHash)
        ensures
            hash@ == self@.hash(),
    {
        let bytes = self.get_bytes();
        let digest = sha256(bytes.as_slice());
        TxHash::from_digest(digest.as_slice())
    }

    /// The account that owns the transaction: the sender of a transfer or a
    /// withdrawal, the account of a closure or a key rotation.
    pub fn account(&self) -> (account: Address)
        ensures
            account == self.spec_account(),
    {
        match self {
            FranklinTx::Transfer(tx) => tx.from,
            FranklinTx::Withdraw(tx) => tx.from,
            FranklinTx::Close(tx) => tx.account,
            FranklinTx::ChangePubKey(tx) => tx.account,
        }
    }

    /// The nonce of the transaction.
    pub fn nonce(&self) -> (nonce: Nonce)
        ensures
            nonce == self.spec_nonce(),
    {
        match self {
            FranklinTx::Transfer(tx) => tx.nonce,
            FranklinTx::Withdraw(tx) => tx.nonce,
            FranklinTx::Close(tx) => tx.nonce,
            FranklinTx::ChangePubKey(tx) => tx.nonce,
        }
    }

    /// Checks the transaction by the rules of its kind. The transaction is
    /// left as it was.
    pub fn check_correctness(&mut self) -> (valid: bool)
        ensures
            valid == old(self)@.is_valid(),
            *final(self) == *old(self),
    {
        match self {
            FranklinTx::Transfer(tx) => tx.check_correctness(),
            FranklinTx::Withdraw(tx) => tx.check_correctness(),
            FranklinTx::Close(tx) => tx.check_correctness(),
            FranklinTx::ChangePubKey(tx) => tx.check_correctness(),
        }
    }

    /// The canonical byte encoding, which is that of the kind.
    pub fn get_bytes(&self) -> (bytes: Vec<u8>)
        ensures
            bytes@ == self@.encoding(),
            bytes@.len() == self.spec_encoded_len(),
    {
        match self {
            FranklinTx::Transfer(tx) => tx.get_bytes(),
            FranklinTx::Withdraw(tx) => tx.get_bytes(),
            FranklinTx::Close(tx) => tx.get_bytes(),
            FranklinTx::ChangePubKey(tx) => tx.get_bytes(),
        }
    }

    /// The chunks that the kind of the transaction takes in a block.
    pub fn min_chunks(&self) -> (chunks: usize)
        ensures
            chunks == self.spec_min_chunks(),
    {
        match self {
            FranklinTx::Transfer(_) => Transfer::CHUNKS,
            FranklinTx::Withdraw(_) => Withdraw::CHUNKS,
            FranklinTx::Close(_) => Close::CHUNKS,
            FranklinTx::ChangePubKey(_) => ChangePubKey::CHUNKS,
        }
    }

    /// Whether the transaction is a withdrawal.
    pub fn is_withdraw(&self) -> (yes: bool)
        ensures
            yes == (self is Withdraw),
    {
        match self {
            FranklinTx::Withdraw(_) => true,
            _ => false,
        }
    }

    /// Whether the transaction is an account closure.
    pub fn is_close(&self) -> (yes: bool)
        ensures
            yes == (self is Close),
    {
        match self {
            FranklinTx::Close(_) => true,
            _ => false,
        }
    }

    /// The fee classification of the transaction, if its kind pays a fee.
    pub fn get_fee_info(&self) -> (info: Option<(TxFeeTypes, TokenLike, Address, BigUint)>)
        ensures
            match info {
                Some((fee_type, token, recipient, amount)) => self.spec_fee_info() == Some(
                    FeeInfo { fee_type, token, recipient, amount: amount_value(amount) },
                ),
                None => self.spec_fee_info() is None,
            },
    {
        match self {
            FranklinTx::Withdraw(withdraw) => {
                let fee_type = if withdraw.fast {
                    TxFeeTypes::FastWithdraw
                } else {
                    TxFeeTypes::Withdraw
                };
                Some((fee_type, TokenLike::Id(withdraw.token), withdraw.to, withdraw.fee.clone()))
            },
            FranklinTx::Transfer(transfer) => Some(
                (
                    TxFeeTypes::Transfer,
                    TokenLike::Id(transfer.token),
                    transfer.to,
                    transfer.fee.clone(),
                ),
            ),
            _ => None,
        }
    }
}

/// Transactions with the same canonical encoding have the same content
/// hash.
pub proof fn lemma_hash_follows_encoding(a: FranklinTx, b: FranklinTx)
    requires
        a@.encoding() == b@.encoding(),
    ensures
        a@.hash() == b@.hash(),
{
}

/// Any two results of hashing one transaction are the same 32 bytes.
pub proof fn lemma_hash_is_repeatable(tx: FranklinTx, first: TxHash, second: TxHash)
    requires
        first@ == tx@.hash(),
        second@ == tx@.hash(),
    ensures
        first == second,
        first@.len() == 32,
{
    first.lemma_equal_by_bytes(second);
}

/// A transaction is of exactly one of the four kinds, and each kind gives
/// every projection a value: the owning account and the nonce are those of
/// the kind, the chunks are the kind's constant, and encoding and validity
/// are those of the kind.
pub proof fn lemma_projections_by_kind(tx: FranklinTx)
    ensures
        match tx {
            FranklinTx::Transfer(t) => {
                &&& tx.spec_account() == t.from
                &&& tx.spec_nonce() == t.nonce
                &&& tx.spec_min_chunks() == Transfer::CHUNKS
                &&& tx.spec_fee_info() is Some
                &&& tx@.encoding() == t@.encoding()
                &&& tx@.is_valid() == t@.is_valid()
            },
            FranklinTx::Withdraw(w) => {
                &&& tx.spec_account() == w.from
                &&& tx.spec_nonce() == w.nonce
                &&& tx.spec_min_chunks() == Withdraw::CHUNKS
                &&& tx.spec_fee_info() is Some
                &&& tx@.encoding() == w@.encoding()
                &&& tx@.is_valid() == w@.is_valid()
            },
            FranklinTx::Close(c) => {
                &&& tx.spec_account() == c.account
                &&& tx.spec_nonce() == c.nonce
                &&& tx.spec_min_chunks() == Close::CHUNKS
                &&& tx.spec_fee_info() is None
                &&& tx@.encoding() == c@.encoding()
                &&& tx@.is_valid() == c@.is_valid()
            },
            FranklinTx::ChangePubKey(k) => {
                &&& tx.spec_account() == k.account
                &&& tx.spec_nonce() == k.nonce
                &&& tx.spec_min_chunks() == ChangePubKey::CHUNKS
                &&& tx.spec_fee_info() is None
                &&& tx@.encoding() == k@.encoding()
                &&& tx@.is_valid() == k@.is_valid()
            },
        },
        tx@.encoding().len() >= 1,
        tx@.encoding()[0] == Transfer::TX_TYPE <==> tx is Transfer,
        tx@.encoding()[0] == Withdraw::TX_TYPE <==> tx is Withdraw,
        tx@.encoding()[0] == Close::TX_TYPE <==> tx is Close,
        tx@.encoding()[0] == ChangePubKey::TX_TYPE <==> tx is ChangePubKey,
{
}

/// The encoding of a transaction has the length that its kind fixes.
pub proof fn lemma_encoding_len(tx: FranklinTx)
    ensures
        tx@.encoding().len() == tx.spec_encoded_len(),
{
    match tx {
        FranklinTx::Transfer(t) => t@.lemma_encoding_len(),
        FranklinTx::Withdraw(w) => w@.lemma_encoding_len(),
        FranklinTx::Close(c) => c@.lemma_encoding_len(),
        FranklinTx::ChangePubKey(k) => k@.lemma_encoding_len(),
    }
}

/// Two valid transactions with the same canonical encoding are of
/// the same kind and say the same.
pub proof fn lemma_valid_encoding_is_unambiguous(a: FranklinTx, b: FranklinTx)
    requires
        a@.is_valid(),
        b@.is_valid(),
        a@.encoding() == b@.encoding(),
    ensures
        a@ == b@,
{
    lemma_projections_by_kind(a);
    lemma_projections_by_kind(b);
    match (a, b) {
        (FranklinTx::Transfer(x), FranklinTx::Transfer(y)) => x@.lemma_encoding_injective(y@),
        (FranklinTx::Withdraw(x), FranklinTx::Withdraw(y)) => x@.lemma_encoding_injective(y@),
        (FranklinTx::Close(x), FranklinTx::Close(y)) => x@.lemma_encoding_injective(y@),
        (FranklinTx::ChangePubKey(x), FranklinTx::ChangePubKey(y)) => x@.lemma_encoding_injective(
            y@,
        ),
        _ => {},
    }
}

/// A fast withdrawal is classified `FastWithdraw`, any other withdrawal
/// `Withdraw` and a transfer `Transfer`, each with its own token, its
/// destination and its fee; a closure and a key rotation have no fee
/// classification.
pub proof fn lemma_fee_classification(tx: FranklinTx)
    ensures
        match tx {
            FranklinTx::Withdraw(w) => tx.spec_fee_info() == Some(
                FeeInfo {
                    fee_type: if w.fast {
                        TxFeeTypes::FastWithdraw
                    } else {
                        TxFeeTypes::Withdraw
                    },
                    token: TokenLike::Id(w.token),
                    recipient: w.to,
                    amount: amount_value(w.fee),
                },
            ),
            FranklinTx::Transfer(t) => tx.spec_fee_info() == Some(
                FeeInfo {
                    fee_type: TxFeeTypes::Transfer,
                    token: TokenLike::Id(t.token),
                    recipient: t.to,
                    amount: amount_value(t.fee),
                },
            ),
            FranklinTx::Close(_) => tx.spec_fee_info() is None,
            FranklinTx::ChangePubKey(_) => tx.spec_fee_info() is None,
        },
{
}

/// No transaction is both a withdrawal and a closure, and a transfer or a
/// key rotation is neither.
pub proof fn lemma_kinds_exclude_each_other(tx: FranklinTx)
    ensures
        !(tx is Withdraw && tx is Close),
        tx is Transfer || tx is ChangePubKey ==> !(tx is Withdraw) && !(tx is Close),
        tx is Transfer || tx is Withdraw || tx is Close || tx is ChangePubKey,
{
}

} // verus!
