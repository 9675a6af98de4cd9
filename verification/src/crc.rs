//! The packet error code: CRC-8 with polynomial `x^8 + x^2 + x + 1`.

use vstd::prelude::*;

verus! {

/// The low eight coefficients of the generator polynomial.
pub const POLYNOMIAL: u8 = 0x07;

/// One round of the shift register: shift left by one bit and, if the bit
/// shifted out was set, exclusive-or the polynomial into the register.
pub open spec fn crc8_shift(reg: u8) -> u8 {
    if reg & 0x80 != 0 {
        (reg << 1) ^ POLYNOMIAL
    } else {
        reg << 1
    }
}

/// The register after `n` rounds.
pub open spec fn crc8_rounds(reg: u8, n: nat) -> u8
    decreases n,
{
    if n == 0 {
        reg
    } else {
        crc8_shift(crc8_rounds(reg, (n - 1) as nat))
    }
}

/// The register after one more input byte: the byte is exclusive-ored into
/// the register, then eight rounds follow.
pub open spec fn crc8_update(crc: u8, byte: u8) -> u8 {
    crc8_rounds(crc ^ byte, 8)
}

/// The checksum of a byte sequence, most significant bit first, starting
/// from a zero register, with no reflection and no final exclusive-or.
pub open spec fn crc8_of(data: Seq<u8>) -> u8
    decreases data.len(),
{
    if data.len() == 0 {
        0
    } else {
        crc8_update(crc8_of(data.drop_last()), data.last())
    }
}

/// The checksum of no bytes is zero.
pub proof fn lemma_crc8_of_nothing()
    ensures
        crc8_of(Seq::<u8>::empty()) == 0,
{
}

/// The checksum of a sequence with one more byte is the checksum of the
/// sequence, updated with that byte.
pub proof fn lemma_crc8_of_push(data: Seq<u8>, byte: u8)
    ensures
        crc8_of(data.push(byte)) == crc8_update(crc8_of(data), byte),
{
    assert(data.push(byte).drop_last() =~= data);
}

/// A sequence followed by its own checksum has the checksum zero: this is
/// how a receiver may test a frame without taking it apart.
pub proof fn lemma_crc8_of_checked_frame(data: Seq<u8>)
    ensures
        crc8_of(data.push(crc8_of(data))) == 0,
{
    let crc = crc8_of(data);
    lemma_crc8_of_push(data, crc);
    assert(crc ^ crc == 0) by (bit_vector);
    assert(crc8_shift(0) == 0) by (bit_vector);
    reveal_with_fuel(crc8_rounds, 9);
}

/// The rounds lose nothing: registers that differ before `n` rounds differ
/// after them.
pub proof fn lemma_crc8_rounds_keep_apart(a: u8, b: u8, n: nat)
    requires
        a != b,
    ensures
        crc8_rounds(a, n) != crc8_rounds(b, n),
    decreases n,
{
    if n > 0 {
        lemma_crc8_rounds_keep_apart(a, b, (n - 1) as nat);
        let x = crc8_rounds(a, (n - 1) as nat);
        let y = crc8_rounds(b, (n - 1) as nat);
        assert(x != y ==> crc8_shift(x) != crc8_shift(y)) by (bit_vector);
    }
}

/// The checksum tells apart any two sequences of one length that differ in
/// one byte only, so no corruption that stays within a byte goes unseen.
pub proof fn lemma_crc8_sees_one_changed_byte(a: Seq<u8>, b: Seq<u8>, at: int)
    requires
        a.len() == b.len(),
        0 <= at < a.len(),
        a[at] != b[at],
        forall|i: int| 0 <= i < a.len() && i != at ==> a[i] == b[i],
    ensures
        crc8_of(a) != crc8_of(b),
    decreases a.len(),
{
    let before_a = crc8_of(a.drop_last());
    let before_b = crc8_of(b.drop_last());
    let x = a.last();
    let y = b.last();
    if at == a.len() - 1 {
        assert(a.drop_last() =~= b.drop_last());
        assert(x != y ==> before_a ^ x != before_a ^ y) by (bit_vector);
    } else {
        lemma_crc8_sees_one_changed_byte(a.drop_last(), b.drop_last(), at);
        assert(before_a != before_b ==> before_a ^ x != before_b ^ x) by (bit_vector);
    }
    lemma_crc8_rounds_keep_apart(before_a ^ x, before_b ^ y, 8);
}

/// Feeds one byte into the shift register.
pub fn crc8_step(crc: u8, byte: u8) -> (out: u8)
    ensures
        out == crc8_update(crc, byte),
{
    let mut reg: u8 = crc ^ byte;
    let mut round: u8 = 0;
    while round < 8
        invariant
            round <= 8,
            reg == crc8_rounds(crc ^ byte, round as nat),
        decreases 8 - round,
    {
        if reg & 0x80 != 0 {
            reg = (reg << 1) ^ POLYNOMIAL;
        } else {
            reg = reg << 1;
        }
        round = round + 1;
    }
    reg
}

/// Computes the checksum of `data`.
pub fn crc8(data: &[u8]) -> (crc: u8)
    ensures
        crc == crc8_of(data@),
        data@.len() == 0 ==> crc == 0,
{
    let mut crc: u8 = 0;
    let mut i: usize = 0;
    while i < data.len()
        invariant
            i <= data.len(),
            crc == crc8_of(data@.take(i as int)),
        decreases data.len() - i,
    {
        proof {
            assert(data@.take(i + 1).drop_last() =~= data@.take(i as int));
        }
        crc = crc8_step(crc, data[i]);
        i = i + 1;
    }
    proof {
        assert(data@.take(i as int) =~= data@);
    }
    crc
}

} // verus!
