//! The two cyclic redundancy checks: CRC-16 over frames and CRC-8 over the
//! words of the humidity sensor. Both start from all ones and take the most
//! significant bit first.

use vstd::prelude::*;

verus! {

/// One bit shifted out of a CRC-16 register with the polynomial 0x1021.
pub open spec fn crc16_shift(crc: u16) -> u16 {
    if crc & 0x8000 != 0 {
        (crc << 1) ^ 0x1021
    } else {
        crc << 1
    }
}

/// `n` bits shifted out of a CRC-16 register.
pub open spec fn crc16_shifts(crc: u16, n: nat) -> u16
    decreases n,
{
    if n == 0 {
        crc
    } else {
        crc16_shift(crc16_shifts(crc, (n - 1) as nat))
    }
}

/// A CRC-16 register after one more byte.
pub open spec fn crc16_byte(crc: u16, byte: u8) -> u16 {
    crc16_shifts(crc ^ ((byte as u16) << 8), 8)
}

/// CRC-16 of `bytes`.
pub open spec fn crc16(bytes: Seq<u8>) -> u16
    decreases bytes.len(),
{
    if bytes.len() == 0 {
        0xffff
    } else {
        crc16_byte(crc16(bytes.drop_last()), bytes.last())
    }
}

/// CRC-16 of a frame up to its checksum.
pub fn crc16_ccitt(bytes: &[u8]) -> (crc: u16)
    ensures
        crc == crc16(bytes@),
{
    let mut crc: u16 = 0xffff;
    for i in 0..bytes.len()
        invariant
            crc == crc16(bytes@.take(i as int)),
    {
        let ghost before = crc;
        proof {
            assert(bytes@.take(i + 1).drop_last() =~= bytes@.take(i as int));
        }
        crc = crc ^ ((bytes[i] as u16) << 8);
        for n in 0..8
            invariant
                crc == crc16_shifts(before ^ ((bytes@[i as int] as u16) << 8), n as nat),
        {
            if (crc & 0x8000) != 0 {
                crc = (crc << 1) ^ 0x1021;
            } else {
                crc = crc << 1;
            }
        }
    }
    assert(bytes@.take(bytes@.len() as int) =~= bytes@);
    crc
}

/// One bit shifted out of a CRC-8 register with the polynomial 0x31.
pub open spec fn crc8_shift(crc: u8) -> u8 {
    if crc & 0x80 != 0 {
        (crc << 1) ^ 0x31
    } else {
        crc << 1
    }
}

/// `n` bits shifted out of a CRC-8 register.
pub open spec fn crc8_shifts(crc: u8, n: nat) -> u8
    decreases n,
{
    if n == 0 {
        crc
    } else {
        crc8_shift(crc8_shifts(crc, (n - 1) as nat))
    }
}

/// CRC-8 of `bytes`.
pub open spec fn spec_crc8(bytes: Seq<u8>) -> u8
    decreases bytes.len(),
{
    if bytes.len() == 0 {
        0xff
    } else {
        crc8_shifts(spec_crc8(bytes.drop_last()) ^ bytes.last(), 8)
    }
}

/// CRC-8 that the humidity sensor appends to each word.
pub fn crc8(bytes: &[u8]) -> (crc: u8)
    ensures
        crc == spec_crc8(bytes@),
{
    let mut crc: u8 = 0xff;
    for i in 0..bytes.len()
        invariant
            crc == spec_crc8(bytes@.take(i as int)),
    {
        let ghost before = crc;
        proof {
            assert(bytes@.take(i + 1).drop_last() =~= bytes@.take(i as int));
        }
        crc = crc ^ bytes[i];
        for n in 0..8
            invariant
                crc == crc8_shifts(before ^ bytes@[i as int], n as nat),
        {
            if (crc & 0x80) != 0 {
                crc = (crc << 1) ^ 0x31;
            } else {
                crc = crc << 1;
            }
        }
    }
    assert(bytes@.take(bytes@.len() as int) =~= bytes@);
    crc
}

/// A step of the register loses nothing.
proof fn lemma_crc16_shift_injective(a: u16, b: u16)
    requires
        crc16_shift(a) == crc16_shift(b),
    ensures
        a == b,
{
    assert((if a & 0x8000 != 0 { (a << 1) ^ 0x1021 } else { a << 1 }) == (if b & 0x8000 != 0 {
        (b << 1) ^ 0x1021
    } else {
        b << 1
    }) ==> a == b) by (bit_vector);
}

proof fn lemma_crc16_shifts_injective(a: u16, b: u16, n: nat)
    requires
        crc16_shifts(a, n) == crc16_shifts(b, n),
    ensures
        a == b,
    decreases n,
{
    if n > 0 {
        lemma_crc16_shift_injective(
            crc16_shifts(a, (n - 1) as nat),
            crc16_shifts(b, (n - 1) as nat),
        );
        lemma_crc16_shifts_injective(a, b, (n - 1) as nat);
    }
}

/// Of two registers and bytes that lead to the same register, both or neither
/// differ.
proof fn lemma_crc16_byte_injective(a: u16, x: u8, b: u16, y: u8)
    requires
        crc16_byte(a, x) == crc16_byte(b, y),
    ensures
        x == y ==> a == b,
        a == b ==> x == y,
{
    lemma_crc16_shifts_injective(a ^ ((x as u16) << 8), b ^ ((y as u16) << 8), 8);
    assert(a ^ ((x as u16) << 8) == b ^ ((y as u16) << 8) && x == y ==> a == b) by (bit_vector);
    assert(a ^ ((x as u16) << 8) == b ^ ((y as u16) << 8) && a == b ==> x == y) by (bit_vector);
}

/// CRC-16 notices every change of a single byte.
pub proof fn law_crc16_detects_one_byte(bytes: Seq<u8>, i: int, byte: u8)
    requires
        0 <= i < bytes.len(),
        byte != bytes[i],
    ensures
        crc16(bytes.update(i, byte)) != crc16(bytes),
    decreases bytes.len(),
{
    let changed = bytes.update(i, byte);
    let shorter = bytes.drop_last();
    if crc16(changed) == crc16(bytes) {
        if i == bytes.len() - 1 {
            assert(changed.drop_last() =~= shorter);
            lemma_crc16_byte_injective(crc16(shorter), byte, crc16(shorter), bytes.last());
        } else {
            assert(changed.drop_last() =~= shorter.update(i, byte));
            lemma_crc16_byte_injective(
                crc16(shorter.update(i, byte)),
                bytes.last(),
                crc16(shorter),
                bytes.last(),
            );
            law_crc16_detects_one_byte(shorter, i, byte);
        }
    }
}

/// A step of the register loses nothing.
proof fn lemma_crc8_shift_injective(a: u8, b: u8)
    requires
        crc8_shift(a) == crc8_shift(b),
    ensures
        a == b,
{
    assert((if a & 0x80 != 0 { (a << 1) ^ 0x31 } else { a << 1 }) == (if b & 0x80 != 0 {
        (b << 1) ^ 0x31
    } else {
        b << 1
    }) ==> a == b) by (bit_vector);
}

proof fn lemma_crc8_shifts_injective(a: u8, b: u8, n: nat)
    requires
        crc8_shifts(a, n) == crc8_shifts(b, n),
    ensures
        a == b,
    decreases n,
{
    if n > 0 {
        lemma_crc8_shift_injective(crc8_shifts(a, (n - 1) as nat), crc8_shifts(b, (n - 1) as nat));
        lemma_crc8_shifts_injective(a, b, (n - 1) as nat);
    }
}

/// CRC-8 notices every change of a single byte.
pub proof fn law_crc8_detects_one_byte(bytes: Seq<u8>, i: int, byte: u8)
    requires
        0 <= i < bytes.len(),
        byte != bytes[i],
    ensures
        spec_crc8(bytes.update(i, byte)) != spec_crc8(bytes),
    decreases bytes.len(),
{
    let changed = bytes.update(i, byte);
    let shorter = bytes.drop_last();
    let last = bytes.last();
    if spec_crc8(changed) == spec_crc8(bytes) {
        let a = spec_crc8(changed.drop_last());
        let b = spec_crc8(shorter);
        let x = changed.last();
        lemma_crc8_shifts_injective(a ^ x, b ^ last, 8);
        assert(a ^ x == b ^ last && x == last ==> a == b) by (bit_vector);
        assert(a ^ x == b ^ last && a == b ==> x == last) by (bit_vector);
        if i == bytes.len() - 1 {
            assert(changed.drop_last() =~= shorter);
        } else {
            assert(changed.drop_last() =~= shorter.update(i, byte));
            law_crc8_detects_one_byte(shorter, i, byte);
        }
    }
}

} // verus!
