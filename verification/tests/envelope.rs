use franklin_tx::{
    Close, EthSignData, FranklinTx, SignedFranklinTx, TokenLike, Transfer, TxEthSignature,
    TxFeeTypes,
};
use num::BigUint;
use zksync_basic_types::Address;

fn transfer() -> FranklinTx {
    FranklinTx::Transfer(Box::new(Transfer {
        from: Address::repeat_byte(0xaa),
        to: Address::repeat_byte(0xbb),
        token: 5,
        amount: BigUint::from(1000u32),
        fee: BigUint::from(10u32),
        nonce: 3,
    }))
}

fn sign_data() -> EthSignData {
    EthSignData {
        signature: TxEthSignature {
            bytes: vec![1, 2, 3, 4],
        },
        message: String::from("Transfer 1000 to 0xbb"),
    }
}

#[test]
fn envelope_from_a_transaction_has_no_signature_data() {
    let signed = SignedFranklinTx::from(transfer());
    assert!(signed.eth_sign_data().is_none());
    assert_eq!(signed.tx().get_bytes(), transfer().get_bytes());
}

#[test]
fn envelope_keeps_what_it_was_made_of() {
    let signed = SignedFranklinTx::new(transfer(), Some(sign_data()));
    assert_eq!(signed.eth_sign_data(), &Some(sign_data()));
    assert_eq!(signed.tx().get_bytes(), transfer().get_bytes());
    let (tx, data) = signed.into_parts();
    assert_eq!(tx.get_bytes(), transfer().get_bytes());
    assert_eq!(data, Some(sign_data()));
}

#[test]
fn envelope_reads_through_to_the_transaction() {
    let signed = SignedFranklinTx::new(transfer(), Some(sign_data()));
    assert_eq!(signed.hash(), transfer().hash());
    assert_eq!(signed.account(), Address::repeat_byte(0xaa));
    assert_eq!(signed.nonce(), 3);
    assert_eq!(signed.min_chunks(), 2);
    assert_eq!(signed.get_bytes(), transfer().get_bytes());
    assert!(!signed.is_withdraw());
    assert!(!signed.is_close());
    assert_eq!(
        signed.get_fee_info(),
        Some((
            TxFeeTypes::Transfer,
            TokenLike::Id(5),
            Address::repeat_byte(0xbb),
            BigUint::from(10u32)
        ))
    );
}

#[test]
fn envelope_checks_its_transaction() {
    let mut good = SignedFranklinTx::from(transfer());
    assert!(good.check_correctness());
    assert_eq!(good.hash(), transfer().hash());

    let mut bad = SignedFranklinTx::from(FranklinTx::Transfer(Box::new(Transfer {
        from: Address::repeat_byte(0xaa),
        to: Address::zero(),
        token: 5,
        amount: BigUint::from(1000u32),
        fee: BigUint::from(10u32),
        nonce: 3,
    })));
    assert!(!bad.check_correctness());
}

#[test]
fn envelope_of_a_closure_is_a_closure() {
    let signed = SignedFranklinTx::from(FranklinTx::Close(Box::new(Close {
        account: Address::repeat_byte(0xaa),
        nonce: 5,
    })));
    assert!(signed.is_close());
    assert_eq!(signed.get_fee_info(), None);
    assert_eq!(signed.min_chunks(), 1);
}

#[test]
fn envelope_clone_keeps_transaction_and_signature_data() {
    let signed = SignedFranklinTx::new(transfer(), Some(sign_data()));
    let copy = signed.clone();
    assert_eq!(copy.get_bytes(), signed.get_bytes());
    assert_eq!(copy.eth_sign_data(), signed.eth_sign_data());
}
