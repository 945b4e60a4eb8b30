//! Account addresses: the 20-byte `Address` of `zksync_basic_types`.

use vstd::prelude::*;

verus! {

/// `zksync_basic_types::Address`: a struct of one public field, the array
/// of its 20 bytes.
#[verifier::external_type_specification]
pub struct ExAddress(zksync_basic_types::Address);

/// Whether every byte of `bytes` is zero, as in the zero address.
pub open spec fn all_zero(bytes: Seq<u8>) -> bool {
    forall|i: int| 0 <= i < bytes.len() ==> bytes[i] == 0
}

/// Tests whether every byte of `bytes` is zero.
pub fn is_all_zero(bytes: &[u8]) -> (zero: bool)
    ensures
        zero == all_zero(bytes@),
{
    let mut i: usize = 0;
    while i < bytes.len()
        invariant
            i <= bytes@.len(),
            forall|j: int| 0 <= j < i ==> bytes@[j] == 0,
        decreases bytes@.len() - i,
    {
        if bytes[i] != 0 {
            return false;
        }
        i += 1;
    }
    true
}

} // verus!
