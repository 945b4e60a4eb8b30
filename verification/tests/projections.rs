use franklin_tx::{ChangePubKey, Close, FranklinTx, Transfer, Withdraw};
use num::BigUint;
use zksync_basic_types::Address;

fn one_of_each_kind() -> Vec<FranklinTx> {
    vec![
        FranklinTx::Transfer(Box::new(Transfer {
            from: Address::repeat_byte(0x11),
            to: Address::repeat_byte(0x12),
            token: 1,
            amount: BigUint::from(100u32),
            fee: BigUint::from(1u32),
            nonce: 10,
        })),
        FranklinTx::Withdraw(Box::new(Withdraw {
            from: Address::repeat_byte(0x21),
            to: Address::repeat_byte(0x22),
            token: 2,
            fee: BigUint::from(2u32),
            fast: false,
            nonce: 20,
        })),
        FranklinTx::Close(Box::new(Close {
            account: Address::repeat_byte(0x31),
            nonce: 30,
        })),
        FranklinTx::ChangePubKey(Box::new(ChangePubKey {
            account: Address::repeat_byte(0x41),
            nonce: 40,
        })),
    ]
}

#[test]
fn account_is_the_owner_of_each_kind() {
    let accounts: Vec<Address> = one_of_each_kind().iter().map(|tx| tx.account()).collect();
    assert_eq!(
        accounts,
        vec![
            Address::repeat_byte(0x11),
            Address::repeat_byte(0x21),
            Address::repeat_byte(0x31),
            Address::repeat_byte(0x41),
        ]
    );
}

#[test]
fn nonce_is_that_of_each_kind() {
    let nonces: Vec<u32> = one_of_each_kind().iter().map(|tx| tx.nonce()).collect();
    assert_eq!(nonces, vec![10, 20, 30, 40]);
}

#[test]
fn min_chunks_is_the_constant_of_each_kind() {
    let chunks: Vec<usize> = one_of_each_kind()
        .iter()
        .map(|tx| tx.min_chunks())
        .collect();
    assert_eq!(chunks, vec![2, 6, 1, 3]);
    assert_eq!(
        chunks,
        vec![
            Transfer::CHUNKS,
            Withdraw::CHUNKS,
            Close::CHUNKS,
            ChangePubKey::CHUNKS
        ]
    );
}

#[test]
fn is_withdraw_holds_of_withdrawals_only() {
    let flags: Vec<bool> = one_of_each_kind()
        .iter()
        .map(|tx| tx.is_withdraw())
        .collect();
    assert_eq!(flags, vec![false, true, false, false]);
}

#[test]
fn is_close_holds_of_closures_only() {
    let flags: Vec<bool> = one_of_each_kind().iter().map(|tx| tx.is_close()).collect();
    assert_eq!(flags, vec![false, false, true, false]);
}

#[test]
fn no_transaction_is_both_withdrawal_and_closure() {
    for tx in one_of_each_kind() {
        assert!(!(tx.is_withdraw() && tx.is_close()));
    }
}

#[test]
fn every_projection_answers_for_every_kind() {
    for tx in one_of_each_kind() {
        let hash = tx.hash();
        assert_eq!(hash.data.len(), 32);
        assert!(tx.min_chunks() >= 1);
        assert!(!tx.get_bytes().is_empty());
        let _ = tx.account();
        let _ = tx.nonce();
        let _ = tx.get_fee_info();
        let _ = tx.is_withdraw();
        let _ = tx.is_close();
    }
}

#[test]
fn clone_says_the_same() {
    for tx in one_of_each_kind() {
        let copy = tx.clone();
        assert_eq!(copy.get_bytes(), tx.get_bytes());
        assert_eq!(copy.account(), tx.account());
        assert_eq!(copy.nonce(), tx.nonce());
        assert_eq!(copy.get_fee_info(), tx.get_fee_info());
        assert_eq!(copy.hash(), tx.hash());
    }
}
