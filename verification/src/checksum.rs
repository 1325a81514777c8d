//! The chip's CRC-16 frame checksum: polynomial 0x8005, zero initial
//! value, message bits fed least-significant first, no final reflection.
//! The framer runs it over the frame bytes from the count byte through
//! the payload and appends the register little-endian.

use vstd::prelude::*;

verus! {

/// The register after feeding one message bit.
pub open spec fn crc_step(crc: u16, bit: bool) -> u16 {
    if bit != ((crc >> 15) == 1) {
        (crc << 1) ^ 0x8005
    } else {
        crc << 1
    }
}

/// Bit `i` of a byte, least significant first.
pub open spec fn byte_bit(b: u8, i: int) -> bool {
    (b >> (i as u8)) & 1 == 1
}

/// The register after feeding the low `n` bits of byte `b`.
pub open spec fn crc_bits(crc: u16, b: u8, n: int) -> u16
    decreases n,
{
    if n <= 0 {
        crc
    } else {
        crc_step(crc_bits(crc, b, n - 1), byte_bit(b, n - 1))
    }
}

/// The register after feeding one whole byte.
pub open spec fn crc_byte(crc: u16, b: u8) -> u16 {
    crc_bits(crc, b, 8)
}

/// The register after the first `n` bytes of `s`, starting from zero.
pub open spec fn crc_prefix(s: Seq<u8>, n: int) -> u16
    decreases n,
{
    if n <= 0 {
        0
    } else {
        crc_byte(crc_prefix(s, n - 1), s[n - 1])
    }
}

/// The chip's 16-bit checksum of a byte sequence.
pub open spec fn spec_crc16(s: Seq<u8>) -> u16 {
    crc_prefix(s, s.len() as int)
}

/// Compute the chip's CRC-16 over `data`.
pub fn crc16(data: &Vec<u8>) -> (r: u16)
    ensures
        r == spec_crc16(data@),
{
    let mut crc: u16 = 0;
    let mut i: usize = 0;
    while i < data.len()
        invariant
            i <= data@.len(),
            crc == crc_prefix(data@, i as int),
        decreases data@.len() - i,
    {
        let b = data[i];
        let mut j: usize = 0;
        while j < 8
            invariant
                j <= 8,
                i < data@.len(),
                b == data@[i as int],
                crc == crc_bits(crc_prefix(data@, i as int), b, j as int),
            decreases 8 - j,
        {
            let bit = ((b >> (j as u8)) & 1) == 1;
            let high = (crc >> 15) == 1;
            crc = if bit != high {
                (crc << 1) ^ 0x8005
            } else {
                crc << 1
            };
            j += 1;
        }
        i += 1;
    }
    crc
}

} // verus!
