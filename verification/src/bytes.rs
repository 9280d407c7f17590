//! Little-endian encoding of unsigned integers.

use vstd::prelude::*;

verus! {

/// The `n` low bytes of `x`, least significant first.
pub open spec fn le_bytes(x: nat, n: nat) -> Seq<u8>
    decreases n,
{
    if n == 0 {
        seq![]
    } else {
        seq![(x % 256) as u8] + le_bytes(x / 256, (n - 1) as nat)
    }
}

/// The number whose bytes, least significant first, are `bytes`.
pub open spec fn le_value(bytes: Seq<u8>) -> nat
    decreases bytes.len(),
{
    if bytes.len() == 0 {
        0
    } else {
        bytes[0] as nat + 256 * le_value(bytes.skip(1))
    }
}

/// 256 to the power of `n`.
pub open spec fn pow256(n: nat) -> nat
    decreases n,
{
    if n == 0 {
        1
    } else {
        256 * pow256((n - 1) as nat)
    }
}

pub proof fn lemma_le_bytes_len(x: nat, n: nat)
    ensures
        le_bytes(x, n).len() == n,
    decreases n,
{
    if n > 0 {
        lemma_le_bytes_len(x / 256, (n - 1) as nat);
    }
}

/// A number that fits into `n` bytes is read back from them.
pub proof fn law_le_value_of_le_bytes(x: nat, n: nat)
    requires
        x < pow256(n),
    ensures
        le_value(le_bytes(x, n)) == x,
    decreases n,
{
    if n > 0 {
        let rest = le_bytes(x / 256, (n - 1) as nat);
        law_le_value_of_le_bytes(x / 256, (n - 1) as nat);
        assert(le_bytes(x, n).skip(1) =~= rest);
    }
}

/// Bytes are written back from the number that they stand for, and that number
/// fits into them.
pub proof fn law_le_bytes_of_le_value(bytes: Seq<u8>)
    ensures
        le_bytes(le_value(bytes), bytes.len()) == bytes,
        le_value(bytes) < pow256(bytes.len()),
    decreases bytes.len(),
{
    if bytes.len() > 0 {
        let rest = bytes.skip(1);
        law_le_bytes_of_le_value(rest);
        assert(le_value(bytes) % 256 == bytes[0] && le_value(bytes) / 256 == le_value(rest));
        assert(seq![bytes[0]] + rest =~= bytes);
    }
}

pub proof fn lemma_pow256_values()
    ensures
        pow256(2) == 0x1_0000,
        pow256(4) == 0x1_0000_0000,
        pow256(8) == 0x1_0000_0000_0000_0000,
{
    reveal_with_fuel(pow256, 9);
}

pub fn u16_to_le(x: u16) -> (bytes: [u8; 2])
    ensures
        bytes@ == le_bytes(x as nat, 2),
{
    reveal_with_fuel(le_bytes, 3);
    let bytes = [(x % 256) as u8, (x / 256) as u8];
    assert(bytes@ =~= le_bytes(x as nat, 2));
    bytes
}

pub fn u32_to_le(x: u32) -> (bytes: [u8; 4])
    ensures
        bytes@ == le_bytes(x as nat, 4),
{
    reveal_with_fuel(le_bytes, 5);
    let x1: u32 = x / 256;
    let x2: u32 = x1 / 256;
    let x3: u32 = x2 / 256;
    let bytes = [(x % 256) as u8, (x1 % 256) as u8, (x2 % 256) as u8, (x3 % 256) as u8];
    assert(bytes@ =~= le_bytes(x as nat, 4));
    bytes
}

pub fn u64_to_le(x: u64) -> (bytes: [u8; 8])
    ensures
        bytes@ == le_bytes(x as nat, 8),
{
    reveal_with_fuel(le_bytes, 9);
    let x1: u64 = x / 256;
    let x2: u64 = x1 / 256;
    let x3: u64 = x2 / 256;
    let x4: u64 = x3 / 256;
    let x5: u64 = x4 / 256;
    let x6: u64 = x5 / 256;
    let x7: u64 = x6 / 256;
    let bytes = [
        (x % 256) as u8,
        (x1 % 256) as u8,
        (x2 % 256) as u8,
        (x3 % 256) as u8,
        (x4 % 256) as u8,
        (x5 % 256) as u8,
        (x6 % 256) as u8,
        (x7 % 256) as u8,
    ];
    assert(bytes@ =~= le_bytes(x as nat, 8));
    bytes
}

/// Read the two bytes of `bytes` that start at `at`.
pub fn u16_from_le(bytes: &[u8], at: usize) -> (x: u16)
    requires
        at + 2 <= bytes@.len(),
    ensures
        x as nat == le_value(bytes@.subrange(at as int, at + 2)),
{
    proof {
        lemma_le_value_2(bytes@.subrange(at as int, at + 2));
    }
    bytes[at] as u16 + 256 * bytes[at + 1] as u16
}

/// Read the four bytes of `bytes` that start at `at`.
pub fn u32_from_le(bytes: &[u8], at: usize) -> (x: u32)
    requires
        at + 4 <= bytes@.len(),
    ensures
        x as nat == le_value(bytes@.subrange(at as int, at + 4)),
{
    let ghost all = bytes@.subrange(at as int, at + 4);
    assert(at + 4 <= bytes.len());
    let low: u16 = u16_from_le(bytes, at);
    let high: u16 = u16_from_le(bytes, at + 2);
    proof {
        lemma_le_value_split(all, 2);
        lemma_pow256_values();
        assert(all.take(2) =~= bytes@.subrange(at as int, at + 2));
        assert(all.skip(2) =~= bytes@.subrange(at + 2, at + 4));
    }
    low as u32 + 0x1_0000 * high as u32
}

/// Read the eight bytes of `bytes` that start at `at`.
pub fn u64_from_le(bytes: &[u8], at: usize) -> (x: u64)
    requires
        at + 8 <= bytes@.len(),
    ensures
        x as nat == le_value(bytes@.subrange(at as int, at + 8)),
{
    let ghost all = bytes@.subrange(at as int, at + 8);
    assert(at + 8 <= bytes.len());
    let low: u32 = u32_from_le(bytes, at);
    let high: u32 = u32_from_le(bytes, at + 4);
    proof {
        lemma_le_value_split(all, 4);
        lemma_pow256_values();
        assert(all.take(4) =~= bytes@.subrange(at as int, at + 4));
        assert(all.skip(4) =~= bytes@.subrange(at + 4, at + 8));
    }
    low as u64 + 0x1_0000_0000 * high as u64
}

pub proof fn lemma_le_value_2(bytes: Seq<u8>)
    requires
        bytes.len() == 2,
    ensures
        le_value(bytes) == bytes[0] + 256 * bytes[1],
{
    reveal_with_fuel(le_value, 3);
}

/// The low part of a number and the high part after it add up to the whole.
pub proof fn lemma_le_value_split(bytes: Seq<u8>, k: nat)
    requires
        k <= bytes.len(),
    ensures
        le_value(bytes) == le_value(bytes.take(k as int)) + pow256(k) * le_value(
            bytes.skip(k as int),
        ),
    decreases k,
{
    if k == 0 {
        assert(bytes.skip(0) =~= bytes);
    } else {
        let rest = bytes.skip(1);
        let j = (k - 1) as nat;
        lemma_le_value_split(rest, j);
        assert(bytes.take(k as int).skip(1) =~= rest.take(j as int));
        assert(rest.skip(j as int) =~= bytes.skip(k as int));
        let high = le_value(bytes.skip(k as int));
        assert(256 * (pow256(j) * high) == (256 * pow256(j)) * high) by (nonlinear_arith);
    }
}

} // verus!
