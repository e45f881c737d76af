//! Selection without branching: both candidates are always computed and the
//! condition only decides which one is kept.

use vstd::prelude::*;

verus! {

/// All ones when `cond` holds, zero otherwise.
pub fn mask_u128(cond: bool) -> (m: u128)
    ensures
        m == if cond { u128::MAX } else { 0u128 },
{
    let bit: u128 = cond as u128;
    0u128.wrapping_sub(bit)
}

/// `a` when `cond` holds, `b` otherwise.
pub fn select_u128(cond: bool, a: u128, b: u128) -> (r: u128)
    ensures
        r == if cond { a } else { b },
{
    let m: u128 = mask_u128(cond);
    assert(((a & u128::MAX) | (b & !u128::MAX)) == a) by (bit_vector);
    assert(((a & 0u128) | (b & !0u128)) == b) by (bit_vector);
    (a & m) | (b & !m)
}

/// All ones when `cond` holds, zero otherwise.
pub fn mask_u32(cond: bool) -> (m: u32)
    ensures
        m == if cond { u32::MAX } else { 0u32 },
{
    let bit: u32 = cond as u32;
    0u32.wrapping_sub(bit)
}

/// `a` when `cond` holds, `b` otherwise.
pub fn select_u32(cond: bool, a: u32, b: u32) -> (r: u32)
    ensures
        r == if cond { a } else { b },
{
    let m: u32 = mask_u32(cond);
    assert(((a & u32::MAX) | (b & !u32::MAX)) == a) by (bit_vector);
    assert(((a & 0u32) | (b & !0u32)) == b) by (bit_vector);
    (a & m) | (b & !m)
}

/// All ones when `cond` holds, zero otherwise.
pub fn mask_u8(cond: bool) -> (m: u8)
    ensures
        m == if cond { u8::MAX } else { 0u8 },
{
    let bit: u8 = cond as u8;
    0u8.wrapping_sub(bit)
}

/// `a` when `cond` holds, `b` otherwise.
pub fn select_u8(cond: bool, a: u8, b: u8) -> (r: u8)
    ensures
        r == if cond { a } else { b },
{
    let m: u8 = mask_u8(cond);
    assert(((a & u8::MAX) | (b & !u8::MAX)) == a) by (bit_vector);
    assert(((a & 0u8) | (b & !0u8)) == b) by (bit_vector);
    (a & m) | (b & !m)
}

/// The slots of `a` when `cond` holds, those of `b` otherwise. Every slot is
/// visited in either case.
pub fn select_hashes(cond: bool, a: &[u128; 32], b: &[u128; 32]) -> (r: [u128; 32])
    ensures
        r@ == if cond { a@ } else { b@ },
{
    let mut r: [u128; 32] = [0u128; 32];
    let mut i: usize = 0;
    while i < 32
        invariant
            i <= 32,
            forall|k: int| 0 <= k < i ==> #[trigger] r@[k] == if cond { a@[k] } else { b@[k] },
        decreases 32 - i,
    {
        r[i] = select_u128(cond, a[i], b[i]);
        i = i + 1;
    }
    proof {
        if cond {
            assert(r@ =~= a@);
        } else {
            assert(r@ =~= b@);
        }
    }
    r
}

/// The bytes of `a` when `cond` holds, those of `b` otherwise. Every byte
/// is visited in either case.
pub fn select_bytes(cond: bool, a: &[u8; 32], b: &[u8; 32]) -> (r: [u8; 32])
    ensures
        r@ == if cond { a@ } else { b@ },
{
    let mut r: [u8; 32] = [0u8; 32];
    let mut i: usize = 0;
    while i < 32
        invariant
            i <= 32,
            forall|k: int| 0 <= k < i ==> #[trigger] r@[k] == if cond { a@[k] } else { b@[k] },
        decreases 32 - i,
    {
        r[i] = select_u8(cond, a[i], b[i]);
        i = i + 1;
    }
    proof {
        if cond {
            assert(r@ =~= a@);
        } else {
            assert(r@ =~= b@);
        }
    }
    r
}

/// `p && q`, with both operands always evaluated.
pub fn both(p: bool, q: bool) -> (r: bool)
    ensures
        r == (p && q),
{
    let x: u8 = p as u8;
    let y: u8 = q as u8;
    assert((1u8 & 1u8) == 1u8 && (1u8 & 0u8) == 0u8 && (0u8 & 1u8) == 0u8 && (0u8 & 0u8) == 0u8)
        by (bit_vector);
    (x & y) == 1
}

} // verus!
