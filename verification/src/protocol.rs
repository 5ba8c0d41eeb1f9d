//! The five-byte serial frame shared by the server and the Uno receiver:
//! `0xA5 | sequence | player1 | player2 | CRC-8`, where the CRC-8 uses
//! polynomial `0x07` over the first four bytes.

use vstd::prelude::*;

verus! {

/// First byte of every frame.
pub const SYNC: u8 = 0xA5;

/// Number of bytes in a frame.
pub const PACKET_LEN: usize = 5;

/// One shift of the CRC register: shift left, and fold in the polynomial
/// `0x07` when the bit shifted out was set.
pub open spec fn crc_shift(crc: u8) -> u8 {
    if crc & 0x80 != 0 {
        (crc << 1u8) ^ 0x07u8
    } else {
        crc << 1u8
    }
}

/// `n` shifts of the CRC register.
pub open spec fn crc_shifts(crc: u8, n: nat) -> u8
    decreases n,
{
    if n == 0 {
        crc
    } else {
        crc_shift(crc_shifts(crc, (n - 1) as nat))
    }
}

/// CRC-8 (polynomial `0x07`, initial value 0, no reflection, no final xor)
/// of a byte sequence: each byte is xored into the register, which is then
/// shifted eight times.
pub open spec fn crc8_spec(bytes: Seq<u8>) -> u8
    decreases bytes.len(),
{
    if bytes.len() == 0 {
        0
    } else {
        crc_shifts(crc8_spec(bytes.drop_last()) ^ bytes.last(), 8)
    }
}

/// Computes the CRC-8 of `bytes`.
pub fn crc8(bytes: &[u8]) -> (crc: u8)
    ensures
        crc == crc8_spec(bytes@),
{
    let mut crc: u8 = 0;
    let mut i: usize = 0;
    while i < bytes.len()
        invariant
            i <= bytes.len(),
            crc == crc8_spec(bytes@.take(i as int)),
        decreases bytes.len() - i,
    {
        let byte = bytes[i];
        crc = crc ^ byte;
        let ghost start = crc;
        let mut round: u8 = 0;
        while round < 8
            invariant
                round <= 8,
                crc == crc_shifts(start, round as nat),
            decreases 8 - round,
        {
            crc = if crc & 0x80 != 0 {
                (crc << 1u8) ^ 0x07
            } else {
                crc << 1u8
            };
            round = round + 1;
        }
        assert(bytes@.take(i + 1).drop_last() =~= bytes@.take(i as int));
        i = i + 1;
    }
    assert(bytes@.take(i as int) =~= bytes@);
    crc
}

} // verus!
