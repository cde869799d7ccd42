//! Sixteen-bit numbers in big-endian order, as the length field of a frame
//! holds them. The two conversions are `byteorder`'s; what they compute is
//! stated here and taken on trust.

use byteorder::{BigEndian, ByteOrder};
use vstd::prelude::*;

verus! {

/// The number that two bytes spell in big-endian order.
pub open spec fn big_endian(hi: u8, lo: u8) -> nat {
    (hi as nat) * 256 + (lo as nat)
}

/// The two bytes that spell `n` in big-endian order: the high byte first.
pub open spec fn big_endian_bytes(n: nat) -> Seq<u8>
    recommends
        n <= u16::MAX,
{
    seq![(n / 256) as u8, (n % 256) as u8]
}

/// Calls `byteorder::BigEndian::read_u16`, which reads the first two bytes of
/// `buf` as one number, the first byte being the high one. It panics on fewer
/// than two bytes, so the contract asks for two.
#[verifier::external_body]
pub(crate) fn read_u16_be(buf: &[u8]) -> (n: u16)
    requires
        buf@.len() >= 2,
    ensures
        n == big_endian(buf@[0], buf@[1]),
{
    BigEndian::read_u16(buf)
}

/// Calls `byteorder::BigEndian::write_u16` on a fresh two-byte array, which
/// it fills with the high byte of `n` and then the low one.
#[verifier::external_body]
pub(crate) fn write_u16_be(n: u16) -> (bytes: [u8; 2])
    ensures
        bytes@ == big_endian_bytes(n as nat),
{
    let mut bytes = [0u8; 2];
    BigEndian::write_u16(&mut bytes, n);
    bytes
}

} // verus!
