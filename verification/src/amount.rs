//! Token amounts: the arbitrary-precision `BigUint` of `num`.

use crate::encoding::{
    be_fixed, be_minimal, lemma_be_fixed_is_right_aligned, lemma_be_minimal_len,
    lemma_pow256_of_16, push_right_aligned,
};
use num::BigUint;
use vstd::prelude::*;

verus! {

/// `num::BigUint`, carried through the library as it is.
#[verifier::external_type_specification]
#[verifier::external_body]
pub struct ExBigUint(num::BigUint);

/// The natural number that a `BigUint` holds.
pub uninterp spec fn amount_value(a: BigUint) -> nat;

/// `BigUint::clone`.
///
/// Trusted: the clone holds the same number.
pub assume_specification[ <BigUint as Clone>::clone ](a: &BigUint) -> (copy: BigUint)
    ensures
        amount_value(copy) == amount_value(*a),
;

/// Calls `BigUint::to_bytes_be`.
///
/// Trusted: the result is the number in big-endian byte order without
/// leading zero bytes, and `[0]` for zero.
#[verifier::external_body]
pub(crate) fn amount_to_bytes_be(a: &BigUint) -> (bytes: Vec<u8>)
    ensures
        bytes@ == be_minimal(amount_value(*a)),
{
    a.to_bytes_be()
}

/// Number of bytes of an amount in the canonical encoding.
pub const AMOUNT_WIDTH: usize = 16;

/// Whether an amount fits the 128 bits that the encoding gives it.
pub open spec fn amount_in_range(n: nat) -> bool {
    n <= u128::MAX
}

/// Tests whether an amount fits in 128 bits.
pub fn amount_fits(a: &BigUint) -> (fits: bool)
    ensures
        fits == amount_in_range(amount_value(*a)),
{
    let digits = amount_to_bytes_be(a);
    proof {
        lemma_be_minimal_len(amount_value(*a), 16);
        lemma_pow256_of_16();
    }
    digits.len() <= AMOUNT_WIDTH
}

/// Appends the 16-byte big-endian field of an amount to `out`. An amount
/// out of range contributes its 128 low-order bits.
pub fn push_amount(out: &mut Vec<u8>, a: &BigUint)
    ensures
        final(out)@ == old(out)@ + be_fixed(amount_value(*a), 16),
{
    let digits = amount_to_bytes_be(a);
    proof {
        lemma_be_fixed_is_right_aligned(amount_value(*a), 16);
    }
    push_right_aligned(out, digits.as_slice(), AMOUNT_WIDTH);
}

} // verus!
