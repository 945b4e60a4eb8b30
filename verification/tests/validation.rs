use franklin_tx::{ChangePubKey, Close, FranklinTx, Transfer, Withdraw};
use num::BigUint;
use zksync_basic_types::Address;

fn two_to_the_128() -> BigUint {
    BigUint::from(1u32) << 128usize
}

fn transfer(to: Address, amount: BigUint, fee: BigUint) -> FranklinTx {
    FranklinTx::Transfer(Box::new(Transfer {
        from: Address::repeat_byte(0xaa),
        to,
        token: 5,
        amount,
        fee,
        nonce: 3,
    }))
}

fn withdraw(fee: BigUint) -> FranklinTx {
    FranklinTx::Withdraw(Box::new(Withdraw {
        from: Address::repeat_byte(0xaa),
        to: Address::repeat_byte(0xcc),
        token: 2,
        fee,
        fast: true,
        nonce: 4,
    }))
}

#[test]
fn well_formed_transfer_is_accepted() {
    let mut tx = transfer(
        Address::repeat_byte(0xbb),
        BigUint::from(1000u32),
        BigUint::from(10u32),
    );
    assert!(tx.check_correctness());
}

#[test]
fn transfer_with_largest_amounts_is_accepted() {
    let mut tx = transfer(
        Address::repeat_byte(0xbb),
        BigUint::from(u128::MAX),
        BigUint::from(u128::MAX),
    );
    assert!(tx.check_correctness());
}

#[test]
fn transfer_with_zero_amounts_is_accepted() {
    let mut tx = transfer(
        Address::repeat_byte(0xbb),
        BigUint::from(0u32),
        BigUint::from(0u32),
    );
    assert!(tx.check_correctness());
}

#[test]
fn transfer_with_amount_of_129_bits_is_rejected() {
    let mut tx = transfer(
        Address::repeat_byte(0xbb),
        two_to_the_128(),
        BigUint::from(10u32),
    );
    assert!(!tx.check_correctness());
}

#[test]
fn transfer_with_fee_of_129_bits_is_rejected() {
    let mut tx = transfer(
        Address::repeat_byte(0xbb),
        BigUint::from(1000u32),
        two_to_the_128(),
    );
    assert!(!tx.check_correctness());
}

#[test]
fn transfer_to_the_zero_address_is_rejected() {
    let mut tx = transfer(
        Address::zero(),
        BigUint::from(1000u32),
        BigUint::from(10u32),
    );
    assert!(!tx.check_correctness());
}

#[test]
fn transfer_to_an_address_with_one_set_byte_is_accepted() {
    let mut first = [0u8; 20];
    first[0] = 1;
    let mut last = [0u8; 20];
    last[19] = 1;
    for to in [Address::from(first), Address::from(last)] {
        let mut tx = transfer(to, BigUint::from(1u32), BigUint::from(1u32));
        assert!(tx.check_correctness());
    }
}

#[test]
fn well_formed_withdraw_is_accepted() {
    let mut tx = withdraw(BigUint::from(7u32));
    assert!(tx.check_correctness());
    let mut largest = withdraw(BigUint::from(u128::MAX));
    assert!(largest.check_correctness());
}

#[test]
fn withdraw_with_fee_of_129_bits_is_rejected() {
    let mut tx = withdraw(two_to_the_128());
    assert!(!tx.check_correctness());
}

#[test]
fn withdraw_to_the_zero_address_is_accepted() {
    let mut tx = FranklinTx::Withdraw(Box::new(Withdraw {
        from: Address::repeat_byte(0xaa),
        to: Address::zero(),
        token: 2,
        fee: BigUint::from(7u32),
        fast: false,
        nonce: 4,
    }));
    assert!(tx.check_correctness());
}

#[test]
fn close_and_change_pubkey_are_accepted() {
    let mut close = FranklinTx::Close(Box::new(Close {
        account: Address::repeat_byte(0xaa),
        nonce: 5,
    }));
    assert!(close.check_correctness());
    let mut change = FranklinTx::ChangePubKey(Box::new(ChangePubKey {
        account: Address::zero(),
        nonce: 0,
    }));
    assert!(change.check_correctness());
}

#[test]
fn check_leaves_the_transaction_and_its_hash_unchanged() {
    let mut valid = transfer(
        Address::repeat_byte(0xbb),
        BigUint::from(1000u32),
        BigUint::from(10u32),
    );
    let bytes = valid.get_bytes();
    let hash = valid.hash();
    assert!(valid.check_correctness());
    assert_eq!(valid.get_bytes(), bytes);
    assert_eq!(valid.hash(), hash);

    let mut invalid = transfer(Address::zero(), two_to_the_128(), BigUint::from(10u32));
    let bytes = invalid.get_bytes();
    assert!(!invalid.check_correctness());
    assert_eq!(invalid.get_bytes(), bytes);
}

#[test]
fn check_gives_the_same_answer_when_repeated() {
    let mut tx = withdraw(two_to_the_128());
    assert!(!tx.check_correctness());
    assert!(!tx.check_correctness());
    let mut ok = withdraw(BigUint::from(1u32));
    assert!(ok.check_correctness());
    assert!(ok.check_correctness());
}

#[test]
fn kinds_check_themselves_as_the_union_does() {
    let mut transfer = Transfer {
        from: Address::repeat_byte(0xaa),
        to: Address::zero(),
        token: 5,
        amount: BigUint::from(1u32),
        fee: BigUint::from(1u32),
        nonce: 3,
    };
    assert!(!transfer.check_correctness());
    transfer.to = Address::repeat_byte(0xbb);
    assert!(transfer.check_correctness());
    assert_eq!(transfer.get_bytes().len(), 79);

    let mut withdraw = Withdraw {
        from: Address::repeat_byte(0xaa),
        to: Address::repeat_byte(0xcc),
        token: 2,
        fee: two_to_the_128(),
        fast: false,
        nonce: 4,
    };
    assert!(!withdraw.check_correctness());
    withdraw.fee = BigUint::from(u128::MAX);
    assert!(withdraw.check_correctness());
}
