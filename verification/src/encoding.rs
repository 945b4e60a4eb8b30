//! Big-endian fixed-width fields, the building blocks of the canonical byte
//! encoding of a transaction.

use vstd::prelude::*;

verus! {

/// The `width` low-order base-256 digits of `n`, most significant first.
/// A number that needs more digits loses its high-order ones.
pub open spec fn be_fixed(n: nat, width: nat) -> Seq<u8>
    decreases width,
{
    if width == 0 {
        Seq::empty()
    } else {
        be_fixed(n / 256, (width - 1) as nat).push((n % 256) as u8)
    }
}

/// The shortest big-endian base-256 representation of `n`: no leading zero
/// byte, and the single byte zero for zero.
pub open spec fn be_minimal(n: nat) -> Seq<u8>
    decreases n,
{
    if n < 256 {
        seq![n as u8]
    } else {
        be_minimal(n / 256).push((n % 256) as u8)
    }
}

/// `digits` set flush right in a field of `width` bytes: padded with zero
/// bytes on the left where it is shorter, cut on the left where it is longer.
pub open spec fn right_aligned(digits: Seq<u8>, width: nat) -> Seq<u8> {
    Seq::new(
        width,
        |i: int|
            if i + digits.len() >= width {
                digits[i + digits.len() - width]
            } else {
                0u8
            },
    )
}

/// 256 to the power `k`.
pub open spec fn pow256(k: nat) -> nat
    decreases k,
{
    if k == 0 {
        1
    } else {
        256 * pow256((k - 1) as nat)
    }
}

/// A fixed-width field has exactly `width` bytes.
pub proof fn lemma_be_fixed_len(n: nat, width: nat)
    ensures
        be_fixed(n, width).len() == width,
    decreases width,
{
    if width > 0 {
        lemma_be_fixed_len(n / 256, (width - 1) as nat);
    }
}

/// The fixed-width field of a number is its shortest representation set
/// flush right.
pub proof fn lemma_be_fixed_is_right_aligned(n: nat, width: nat)
    ensures
        be_fixed(n, width) == right_aligned(be_minimal(n), width),
    decreases width,
{
    if width == 0 {
        assert(be_fixed(n, width) =~= right_aligned(be_minimal(n), width));
    } else {
        let shorter = (width - 1) as nat;
        lemma_be_fixed_is_right_aligned(n / 256, shorter);
        let high = be_minimal(n / 256);
        let low = (n % 256) as u8;
        if n < 256 {
            assert(n / 256 == 0);
            assert(high =~= seq![0u8]);
            assert(be_minimal(n) =~= seq![low]);
        } else {
            assert(be_minimal(n) == high.push(low));
        }
        assert(right_aligned(high, shorter).push(low) =~= right_aligned(be_minimal(n), width));
    }
}

/// The shortest representation of `n` has at least one byte, and at most
/// `width` bytes exactly when `n` is below 256 to the power `width`.
pub proof fn lemma_be_minimal_len(n: nat, width: nat)
    requires
        width >= 1,
    ensures
        be_minimal(n).len() >= 1,
        be_minimal(n).len() <= width <==> n < pow256(width),
    decreases n,
{
    lemma_pow256_positive((width - 1) as nat);
    if n >= 256 {
        if width == 1 {
            lemma_be_minimal_len(n / 256, 1);
            assert(pow256(1) == 256) by {
                reveal_with_fuel(pow256, 2);
            }
        } else {
            let shorter = (width - 1) as nat;
            lemma_be_minimal_len(n / 256, shorter);
            let p = pow256(shorter);
            assert(n / 256 < p <==> n < 256 * p) by (nonlinear_arith);
        }
    }
}

/// A power of 256 is at least one.
pub proof fn lemma_pow256_positive(k: nat)
    ensures
        pow256(k) >= 1,
    decreases k,
{
    if k > 0 {
        lemma_pow256_positive((k - 1) as nat);
    }
}

/// 256 to the power 2 and to the power 4 are the bounds of `u16` and `u32`.
pub proof fn lemma_pow256_of_2_and_4()
    ensures
        pow256(2) == 0x1_0000,
        pow256(4) == 0x1_0000_0000,
{
    reveal_with_fuel(pow256, 5);
}

/// 256 to the power 16 is 2 to the power 128.
pub proof fn lemma_pow256_of_16()
    ensures
        pow256(16) == 0x1_0000_0000_0000_0000_0000_0000_0000_0000,
{
    reveal_with_fuel(pow256, 17);
}

/// Two numbers below 256 to the power `width` with the same fixed-width
/// field are the same number.
pub proof fn lemma_be_fixed_injective(n: nat, m: nat, width: nat)
    requires
        n < pow256(width),
        m < pow256(width),
        be_fixed(n, width) == be_fixed(m, width),
    ensures
        n == m,
    decreases width,
{
    if width > 0 {
        let shorter = (width - 1) as nat;
        let p = pow256(shorter);
        let high_n = be_fixed(n / 256, shorter);
        let high_m = be_fixed(m / 256, shorter);
        let low_n = (n % 256) as u8;
        let low_m = (m % 256) as u8;
        assert(high_n.push(low_n).last() == high_m.push(low_m).last());
        assert(high_n =~= high_n.push(low_n).drop_last());
        assert(high_m =~= high_m.push(low_m).drop_last());
        assert(n / 256 < p && m / 256 < p) by (nonlinear_arith)
            requires
                n < 256 * p,
                m < 256 * p,
        ;
        lemma_be_fixed_injective(n / 256, m / 256, shorter);
    }
}

/// Appends `bytes` to `out`.
pub fn push_bytes(out: &mut Vec<u8>, bytes: &[u8])
    ensures
        final(out)@ == old(out)@ + bytes@,
{
    let mut i: usize = 0;
    while i < bytes.len()
        invariant
            i <= bytes@.len(),
            out@ == old(out)@ + bytes@.subrange(0, i as int),
        decreases bytes@.len() - i,
    {
        out.push(bytes[i]);
        i += 1;
    }
    assert(bytes@.subrange(0, i as int) =~= bytes@);
}

/// Appends `x` as two bytes, high byte first.
pub fn push_u16_be(out: &mut Vec<u8>, x: u16)
    ensures
        final(out)@ == old(out)@ + be_fixed(x as nat, 2),
{
    out.push((x / 0x100) as u8);
    out.push((x % 0x100) as u8);
    proof {
        reveal_with_fuel(be_fixed, 3);
        assert(out@ =~= old(out)@ + be_fixed(x as nat, 2));
    }
}

/// Appends `x` as four bytes, high byte first.
pub fn push_u32_be(out: &mut Vec<u8>, x: u32)
    ensures
        final(out)@ == old(out)@ + be_fixed(x as nat, 4),
{
    out.push((x / 0x100_0000) as u8);
    out.push((x / 0x1_0000 % 0x100) as u8);
    out.push((x / 0x100 % 0x100) as u8);
    out.push((x % 0x100) as u8);
    proof {
        reveal_with_fuel(be_fixed, 5);
        assert(out@ =~= old(out)@ + be_fixed(x as nat, 4));
    }
}

/// Appends `digits` flush right in a field of `width` bytes.
pub fn push_right_aligned(out: &mut Vec<u8>, digits: &[u8], width: usize)
    ensures
        final(out)@ == old(out)@ + right_aligned(digits@, width as nat),
{
    let len = digits.len();
    let mut i: usize = 0;
    while i < width
        invariant
            i <= width,
            len == digits@.len(),
            out@ == old(out)@ + right_aligned(digits@, width as nat).subrange(0, i as int),
        decreases width - i,
    {
        let byte: u8 = if len >= width {
            digits[i + (len - width)]
        } else if i >= width - len {
            digits[i - (width - len)]
        } else {
            0
        };
        out.push(byte);
        i += 1;
        assert(out@ =~= old(out)@ + right_aligned(digits@, width as nat).subrange(0, i as int));
    }
    assert(right_aligned(digits@, width as nat).subrange(0, i as int) =~= right_aligned(
        digits@,
        width as nat,
    ));
}

} // verus!
