//! A transaction together with the data of an off-chain signature.

use crate::tx::FranklinTx;
use std::ops::Deref;
use vstd::prelude::*;
use vstd::std_specs::convert::FromSpecImpl;

verus! {

/// An off-chain signature. The library stores it and never looks inside.
#[derive(Debug, PartialEq, Eq)]
pub struct TxEthSignature {
    pub bytes: Vec<u8>,
}

impl Clone for TxEthSignature {
    fn clone(&self) -> (copy: Self)
        ensures
            copy.bytes@ == self.bytes@,
    {
        TxEthSignature { bytes: self.bytes.clone() }
    }
}

/// An off-chain signature and the exact message that was signed.
#[derive(Debug, PartialEq)]
pub struct EthSignData {
    pub signature: TxEthSignature,
    pub message: String,
}

impl View for EthSignData {
    type V = (Seq<u8>, Seq<char>);

    /// The bytes of the signature and the characters of the message.
    open spec fn view(&self) -> (Seq<u8>, Seq<char>) {
        (self.signature.bytes@, self.message@)
    }
}

impl Clone for EthSignData {
    fn clone(&self) -> (copy: Self)
        ensures
            copy@ == self@,
    {
        EthSignData { signature: self.signature.clone(), message: self.message.clone() }
    }
}

/// A transaction and, where it was authorised off-chain, the signature
/// data. The transaction can be read through the envelope; the only way to
/// it by `&mut` is the correctness check.
#[derive(Debug)]
pub struct SignedFranklinTx {
    tx: FranklinTx,
    eth_sign_data: Option<EthSignData>,
}

impl SignedFranklinTx {
    /// The transaction in the envelope.
    pub closed spec fn spec_tx(&self) -> FranklinTx {
        self.tx
    }

    /// The signature data in the envelope.
    pub closed spec fn spec_eth_sign_data(&self) -> Option<EthSignData> {
        self.eth_sign_data
    }

    /// An envelope is no more than its two parts: envelopes with the same
    /// transaction and the same signature data are the same envelope.
    pub proof fn lemma_parts_determine_envelope(self, other: SignedFranklinTx)
        requires
            self.spec_tx() == other.spec_tx(),
            self.spec_eth_sign_data() == other.spec_eth_sign_data(),
        ensures
            self == other,
    {
    }

    /// Wraps a transaction and its signature data.
    pub fn new(tx: FranklinTx, eth_sign_data: Option<EthSignData>) -> (signed: Self)
        ensures
            signed.spec_tx() == tx,
            signed.spec_eth_sign_data() == eth_sign_data,
    {
        SignedFranklinTx { tx, eth_sign_data }
    }

    /// The transaction in the envelope.
    pub fn tx(&self) -> (tx: &FranklinTx)
        ensures
            *tx == self.spec_tx(),
    {
        &self.tx
    }

    /// The signature data in the envelope.
    pub fn eth_sign_data(&self) -> (data: &Option<EthSignData>)
        ensures
            *data == self.spec_eth_sign_data(),
    {
        &self.eth_sign_data
    }

    /// Takes the envelope apart.
    pub fn into_parts(self) -> (parts: (FranklinTx, Option<EthSignData>))
        ensures
            parts.0 == self.spec_tx(),
            parts.1 == self.spec_eth_sign_data(),
    {
        (self.tx, self.eth_sign_data)
    }

    /// Checks the transaction by the rules of its kind. The envelope is left
    /// as it was.
    pub fn check_correctness(&mut self) -> (valid: bool)
        ensures
            valid == old(self).spec_tx()@.is_valid(),
            *final(self) == *old(self),
    {
        self.tx.check_correctness()
    }
}

impl Clone for SignedFranklinTx {
    /// An envelope whose transaction and signature data say the same.
    fn clone(&self) -> (copy: Self)
        ensures
            copy.spec_tx()@ == self.spec_tx()@,
            copy.spec_eth_sign_data() is Some == self.spec_eth_sign_data() is Some,
            copy.spec_eth_sign_data() is Some ==> copy.spec_eth_sign_data()->0@
                == self.spec_eth_sign_data()->0@,
    {
        let eth_sign_data = match &self.eth_sign_data {
            Some(data) => Some(data.clone()),
            None => None,
        };
        SignedFranklinTx { tx: self.tx.clone(), eth_sign_data }
    }
}

impl From<FranklinTx> for SignedFranklinTx {
    /// Wraps a transaction that carries no off-chain signature.
    fn from(tx: FranklinTx) -> (signed: Self)
        ensures
            signed.spec_tx() == tx,
            signed.spec_eth_sign_data() is None,
    {
        SignedFranklinTx { tx, eth_sign_data: None }
    }
}

impl FromSpecImpl<FranklinTx> for SignedFranklinTx {
    open spec fn obeys_from_spec() -> bool {
        true
    }

    closed spec fn from_spec(tx: FranklinTx) -> Self {
        SignedFranklinTx { tx, eth_sign_data: None }
    }
}

impl Deref for SignedFranklinTx {
    type Target = FranklinTx;

    /// Gives read access to the transaction in the envelope.
    fn deref(&self) -> (tx: &FranklinTx)
        ensures
            *tx == self.spec_tx(),
    {
        &self.tx
    }
}

} // verus!
