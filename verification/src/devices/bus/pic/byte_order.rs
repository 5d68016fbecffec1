//! Little-endian reading and writing of configuration space bytes, done by `byteorder`.
use byteorder::{ByteOrder, LittleEndian};
use vstd::prelude::*;

verus! {

/// The value of the first two bytes of `s`, least significant first.
pub open spec fn le16(s: Seq<u8>) -> u16 {
    (s[0] as int + 256 * s[1] as int) as u16
}

/// The value of the first four bytes of `s`, least significant first.
pub open spec fn le32(s: Seq<u8>) -> u32 {
    (s[0] as int + 256 * s[1] as int + 65536 * s[2] as int + 16777216 * s[3] as int) as u32
}

/// `byteorder::LittleEndian::read_u16`: the first two bytes of `buf`, least significant
/// first. It panics on fewer than two bytes, which `requires` rules out.
#[verifier::external_body]
pub(crate) fn read_u16_le(buf: &[u8]) -> (r: u16)
    requires
        buf@.len() >= 2,
    ensures
        r == le16(buf@),
{
    LittleEndian::read_u16(buf)
}

/// `byteorder::LittleEndian::read_u32`: the first four bytes of `buf`, least significant
/// first. It panics on fewer than four bytes, which `requires` rules out.
#[verifier::external_body]
pub(crate) fn read_u32_le(buf: &[u8]) -> (r: u32)
    requires
        buf@.len() >= 4,
    ensures
        r == le32(buf@),
{
    LittleEndian::read_u32(buf)
}

/// `byteorder::LittleEndian::write_u32_into`: writes each value of `src` as four bytes,
/// least significant first, into `dst`. It panics unless `dst` holds four bytes per value,
/// which `requires` rules out.
#[verifier::external_body]
pub(crate) fn write_u32_into_le(src: &[u32], dst: &mut Vec<u8>)
    requires
        old(dst)@.len() == 4 * src@.len(),
    ensures
        final(dst)@.len() == old(dst)@.len(),
        forall|i: int|
            0 <= i < src@.len() ==> le32(#[trigger] final(dst)@.subrange(4 * i, 4 * i + 4))
                == src@[i],
{
    LittleEndian::write_u32_into(src, dst)
}

} // verus!
