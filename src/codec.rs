//! Big-endian decoding of fixed-length byte windows.

use vstd::prelude::*;

verus! {

/// The value of a byte window read most significant byte first:
/// the sum of `s[i] * 256^(len - 1 - i)`.
pub open spec fn be_value(s: Seq<u8>) -> nat
    decreases s.len(),
{
    if s.len() == 0 {
        0
    } else {
        be_value(s.drop_last()) * 256 + s.last() as nat
    }
}

/// `256` raised to the power `n`.
pub open spec fn pow256(n: nat) -> nat
    decreases n,
{
    if n == 0 {
        1
    } else {
        256 * pow256((n - 1) as nat)
    }
}

proof fn lemma_pow256_mono(i: nat, j: nat)
    requires
        i <= j,
    ensures
        pow256(i) <= pow256(j),
    decreases j - i,
{
    if i < j {
        lemma_pow256_mono(i, (j - 1) as nat);
    }
}

/// A window of `n` bytes holds a value below `256^n`.
pub proof fn lemma_be_value_bound(s: Seq<u8>)
    ensures
        be_value(s) < pow256(s.len()),
    decreases s.len(),
{
    if s.len() > 0 {
        lemma_be_value_bound(s.drop_last());
        let p = be_value(s.drop_last());
        let q = pow256((s.len() - 1) as nat);
        let b = s.last() as nat;
        assert(p * 256 + b < 256 * q) by (nonlinear_arith)
            requires
                p < q,
                b < 256,
        ;
    }
}

/// Reads up to eight bytes as one big-endian number.
fn read_be(slice: &[u8]) -> (r: u64)
    requires
        slice@.len() <= 8,
    ensures
        r as nat == be_value(slice@),
{
    let mut sum: u64 = 0;
    let mut idx: usize = 0;
    while idx < slice.len()
        invariant
            idx <= slice@.len() <= 8,
            sum as nat == be_value(slice@.subrange(0, idx as int)),
            sum < pow256(idx as nat),
        decreases slice@.len() - idx,
    {
        let ghost prefix = slice@.subrange(0, idx + 1);
        proof {
            assert(prefix.drop_last() =~= slice@.subrange(0, idx as int));
            lemma_pow256_mono((idx + 1) as nat, 8);
            reveal_with_fuel(pow256, 9);
            let p = sum as nat;
            let q = pow256(idx as nat);
            let b = slice@[idx as int] as nat;
            assert(p * 256 + b < 256 * q) by (nonlinear_arith)
                requires
                    p < q,
                    b < 256,
            ;
        }
        sum = sum * 256 + slice[idx] as u64;
        idx += 1;
    }
    proof {
        assert(slice@.subrange(0, idx as int) =~= slice@);
    }
    sum
}

/// Decodes a 2-byte big-endian window; `None` for a window of any other length.
pub fn vec_slice_to_u16(slice: &[u8]) -> (r: Option<u16>)
    ensures
        r is Some <==> slice@.len() == 2,
        r matches Some(v) ==> v as nat == be_value(slice@),
{
    if slice.len() != 2 {
        return None;
    }
    let v = read_be(slice);
    proof {
        lemma_be_value_bound(slice@);
        reveal_with_fuel(pow256, 3);
    }
    Some(v as u16)
}

/// Decodes a 4-byte big-endian window; `None` for a window of any other length.
pub fn vec_slice_to_u32(slice: &[u8]) -> (r: Option<u32>)
    ensures
        r is Some <==> slice@.len() == 4,
        r matches Some(v) ==> v as nat == be_value(slice@),
{
    if slice.len() != 4 {
        return None;
    }
    let v = read_be(slice);
    proof {
        lemma_be_value_bound(slice@);
        reveal_with_fuel(pow256, 5);
    }
    Some(v as u32)
}

/// Decodes an 8-byte big-endian window; `None` for a window of any other length.
pub fn vec_slice_to_u64(slice: &[u8]) -> (r: Option<u64>)
    ensures
        r is Some <==> slice@.len() == 8,
        r matches Some(v) ==> v as nat == be_value(slice@),
{
    if slice.len() != 8 {
        return None;
    }
    Some(read_be(slice))
}

/// `v` with its two bytes in the other order.
pub open spec fn swap16(v: u16) -> u16 {
    ((v & 0xff) << 8) | (v >> 8)
}

/// `v` with its four bytes in the opposite order.
pub open spec fn swap32(v: u32) -> u32 {
    ((v & 0xff) << 24) | ((v & 0xff00) << 8) | ((v >> 8) & 0xff00) | (v >> 24)
}

/// `v` with its eight bytes in the opposite order.
pub open spec fn swap64(v: u64) -> u64 {
    ((v & 0xff) << 56) | ((v & 0xff00) << 40) | ((v & 0xff0000) << 24) | ((v & 0xff000000)
        << 8) | ((v >> 8) & 0xff000000) | ((v >> 24) & 0xff0000) | ((v >> 40) & 0xff00) | (v
        >> 56)
}

pub fn swap_u16(v: u16) -> (r: u16)
    ensures
        r == swap16(v),
{
    ((v & 0xff) << 8) | (v >> 8)
}

pub fn swap_u32(v: u32) -> (r: u32)
    ensures
        r == swap32(v),
{
    ((v & 0xff) << 24) | ((v & 0xff00) << 8) | ((v >> 8) & 0xff00) | (v >> 24)
}

pub fn swap_u64(v: u64) -> (r: u64)
    ensures
        r == swap64(v),
{
    ((v & 0xff) << 56) | ((v & 0xff00) << 40) | ((v & 0xff0000) << 24) | ((v & 0xff000000)
        << 8) | ((v >> 8) & 0xff000000) | ((v >> 24) & 0xff0000) | ((v >> 40) & 0xff00) | (v
        >> 56)
}

/// Swapping the bytes of a decoded 4-byte window decodes the window reversed.
pub proof fn lemma_swap32_reverses(b: Seq<u8>)
    requires
        b.len() == 4,
    ensures
        be_value(b) < 0x1_0000_0000,
        swap32(be_value(b) as u32) as nat == be_value(b.reverse()),
{
    reveal_with_fuel(be_value, 5);
    let r = b.reverse();
    assert(b.drop_last().drop_last().drop_last().drop_last().len() == 0);
    assert(r.drop_last().drop_last().drop_last().drop_last().len() == 0);
    let (b0, b1, b2, b3) = (b[0], b[1], b[2], b[3]);
    assert(r.last() == b0);
    assert(r.drop_last().last() == b1);
    assert(r.drop_last().drop_last().last() == b2);
    assert(r.drop_last().drop_last().drop_last().last() == b3);
    let v = (((b0 as u32 * 256 + b1 as u32) * 256 + b2 as u32) * 256 + b3 as u32) as u32;
    assert(swap32(v) == ((b3 as u32 * 256 + b2 as u32) * 256 + b1 as u32) * 256 + b0 as u32)
        by (bit_vector)
        requires
            v == (((b0 as u32 * 256 + b1 as u32) * 256 + b2 as u32) * 256 + b3 as u32) as u32,
    ;
}

} // verus!
