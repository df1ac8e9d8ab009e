//! Operand bytes as numbers.
//!
//! The operand of an instruction follows the opcode byte, least significant
//! byte first. Reading it is the work of the `byteorder` crate.

use vstd::prelude::*;
use byteorder::ByteOrder;

verus! {

/// The number that two bytes hold, least significant first.
pub open spec fn word_of(b0: u8, b1: u8) -> u16 {
    (b0 + 0x100 * b1) as u16
}

/// The number that three bytes hold, least significant first.
pub open spec fn long_of(b0: u8, b1: u8, b2: u8) -> u32 {
    (b0 + 0x100 * b1 + 0x1_0000 * b2) as u32
}

/// `byteorder::LittleEndian::read_u16`: the unsigned 16-bit number in the
/// first two bytes of `buf`, in little-endian order. It panics on a shorter
/// `buf`.
#[verifier::external_body]
pub(crate) fn read_u16(buf: &[u8]) -> (r: u16)
    requires
        buf@.len() >= 2,
    ensures
        r == word_of(buf@[0], buf@[1]),
{
    byteorder::LittleEndian::read_u16(buf)
}

/// `byteorder::LittleEndian::read_u24`: the unsigned 24-bit number in the
/// first three bytes of `buf`, in little-endian order. It panics on a
/// shorter `buf`.
#[verifier::external_body]
pub(crate) fn read_u24(buf: &[u8]) -> (r: u32)
    requires
        buf@.len() >= 3,
    ensures
        r == long_of(buf@[0], buf@[1], buf@[2]),
{
    byteorder::LittleEndian::read_u24(buf)
}

} // verus!
