//! The Modbus RTU CRC-16: polynomial 0xA001, initial value 0xFFFF,
//! least-significant-bit first.

use vstd::prelude::*;

verus! {

/// One bit iteration of the CRC loop: shift right once and, when the low bit
/// was set, exclusive-or with the polynomial.
pub open spec fn crc_step(crc: u16) -> u16 {
    if crc & 0x0001 != 0 {
        (crc >> 1) ^ 0xA001
    } else {
        crc >> 1
    }
}

/// `n` bit iterations of the CRC loop.
pub open spec fn crc_steps(crc: u16, n: nat) -> u16
    decreases n,
{
    if n == 0 {
        crc
    } else {
        crc_step(crc_steps(crc, (n - 1) as nat))
    }
}

/// Folding one input byte into the accumulator: exclusive-or it into the low
/// byte, then run eight bit iterations.
pub open spec fn crc_byte(crc: u16, byte: u8) -> u16 {
    crc_steps(crc ^ (byte as u16), 8)
}

/// The CRC-16 of a byte sequence: start from 0xFFFF and fold each byte in
/// order.
pub open spec fn crc16(data: Seq<u8>) -> u16
    decreases data.len(),
{
    if data.len() == 0 {
        0xFFFF
    } else {
        crc_byte(crc16(data.drop_last()), data.last())
    }
}

/// Computes the Modbus RTU CRC-16 of `data`.
pub fn calculate_crc16(data: &[u8]) -> (crc: u16)
    ensures
        crc == crc16(data@),
{
    let mut crc: u16 = 0xFFFF;
    let mut i: usize = 0;
    while i < data.len()
        invariant
            i <= data@.len(),
            crc == crc16(data@.take(i as int)),
        decreases data@.len() - i,
    {
        crc = crc ^ (data[i] as u16);
        let ghost base: u16 = crc;
        let mut k: usize = 0;
        while k < 8
            invariant
                k <= 8,
                crc == crc_steps(base, k as nat),
            decreases 8 - k,
        {
            if crc & 0x0001 != 0 {
                crc = (crc >> 1) ^ 0xA001;
            } else {
                crc = crc >> 1;
            }
            k = k + 1;
        }
        proof {
            assert(data@.take(i + 1).drop_last() =~= data@.take(i as int));
            assert(data@.take(i + 1).last() == data@[i as int]);
            assert(crc == crc_byte(crc16(data@.take(i as int)), data@[i as int]));
        }
        i = i + 1;
    }
    proof {
        assert(data@.take(data@.len() as int) =~= data@);
    }
    crc
}

/// The checksum is a function of the byte sequence alone: two calls over equal
/// sequences return equal values.
pub proof fn lemma_checksum_deterministic(s1: Seq<u8>, s2: Seq<u8>)
    requires
        s1 == s2,
    ensures
        crc16(s1) == crc16(s2),
{
}

/// A zero-length input leaves the initial accumulator unchanged.
pub proof fn lemma_checksum_empty()
    ensures
        crc16(Seq::<u8>::empty()) == 0xFFFF,
{
}

} // verus!
