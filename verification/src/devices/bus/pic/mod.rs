//! PCI configuration space: device addresses, headers, classes and base address registers.
pub mod byte_order;
pub mod class;
pub mod data;
pub mod dev;
pub mod header;

use crate::devices::bus::pic::byte_order::{le32, write_u32_into_le};
use crate::devices::bus::pic::dev::DeviceAddress;
use vstd::prelude::*;

verus! {

/// The I/O port that selects a configuration space address.
pub const CONFIG_ADDRESS: u16 = 0xCF8;

/// The I/O port that reads and writes the selected configuration space dword.
pub const CONFIG_DATA: u16 = 0xCFC;

/// Access to the configuration space of the devices of a PCI bus, by device address.
pub trait PicAccess {
    /// The configuration space dword at `addr`.
    fn read(&self, addr: &DeviceAddress) -> u32;

    /// Write `value` to the configuration space dword at `addr`.
    fn write(&self, addr: &DeviceAddress, value: u32);
}

/// Byte `j` (0 to 3) of the dword `d`, least significant first.
pub open spec fn byte_of(d: u32, j: int) -> u8 {
    ((d >> ((j * 8) as u32)) & 0xff) as u8
}

/// Reading of the configuration space of one PCI function.
pub trait CfgSpaceReader {
    /// Whether this reader's reads are fixed: every read of a dword offset gives the same
    /// value, `dword` of that offset. A reader that cannot promise this says `false`, and
    /// then nothing is stated of what its reads give.
    spec fn reads_fixed(&self) -> bool;

    /// The dword at `offset`, where reads are fixed.
    spec fn dword(&self, offset: u8) -> u32;

    /// The configuration space dword at `offset`.
    fn read(&self, offset: u8) -> (r: u32)
        ensures
            self.reads_fixed() ==> r == self.dword(offset),
    ;

    /// The `len` bytes from `offset` on, read dword by dword (at `offset`, `offset + 4`,
    /// and so on, each taken as a `u8`) and laid out least significant byte first; `len` is
    /// a multiple of four, at least four.
    fn read_range(&self, offset: u8, len: u16) -> (r: Vec<u8>)
        requires
            len > 3,
            len % 4 == 0,
            offset + len <= 0xffff,
        ensures
            r@.len() == len,
            self.reads_fixed() ==> forall|k: int|
                0 <= k < len ==> r@[k] == byte_of(self.dword((offset + 4 * (k / 4)) as u8), k % 4),
    {
        let offset = offset as u16;
        let mut data: Vec<u32> = Vec::new();
        let mut current = offset;
        while current < offset + len
            invariant
                offset + len <= 0xffff,
                len % 4 == 0,
                current == offset + 4 * data@.len(),
                current <= offset + len,
                self.reads_fixed() ==> forall|i: int|
                    0 <= i < data@.len() ==> data@[i] == self.dword((offset + 4 * i) as u8),
            decreases offset + len - current,
        {
            let value = self.read(current as u8);
            data.push(value);
            current = current + 4;
        }
        dwords_to_bytes(data.as_slice())
    }

    /// The byte at `offset`, taken from the dword that holds it.
    fn read_u8(&self, offset: u8) -> (r: u8)
        ensures
            self.reads_fixed() ==> r == byte_of(self.dword(((offset / 4) * 4) as u8), (offset % 4) as int),
    {
        let dword_offset = (offset / 4) * 4;
        let dword = self.read(dword_offset);
        dword_byte(dword, offset)
    }
}

/// The four bytes of each value of `le`, least significant first, are the value.
proof fn lemma_le32_bytes(s: Seq<u8>, d: u32)
    requires
        s.len() == 4,
        le32(s) == d,
    ensures
        s[0] == byte_of(d, 0),
        s[1] == byte_of(d, 1),
        s[2] == byte_of(d, 2),
        s[3] == byte_of(d, 3),
{
    let b0 = s[0];
    let b1 = s[1];
    let b2 = s[2];
    let b3 = s[3];
    assert(b0 == ((d >> 0u32) & 0xff) as u8 && b1 == ((d >> 8u32) & 0xff) as u8 && b2 == ((d
        >> 16u32) & 0xff) as u8 && b3 == ((d >> 24u32) & 0xff) as u8) by (bit_vector)
        requires
            d == (b0 as int + 256 * b1 as int + 65536 * b2 as int + 16777216 * b3 as int) as u32,
    ;
}

/// The bytes of the dwords `data`, each laid out least significant byte first.
pub fn dwords_to_bytes(data: &[u32]) -> (r: Vec<u8>)
    requires
        4 * data@.len() <= usize::MAX,
    ensures
        r@.len() == 4 * data@.len(),
        forall|k: int| 0 <= k < r@.len() ==> r@[k] == byte_of(data@[k / 4], k % 4),
{
    let n = 4 * data.len();
    let mut res: Vec<u8> = Vec::new();
    let mut i: usize = 0;
    while i < n
        invariant
            n == 4 * data@.len(),
            i <= n,
            res@.len() == i,
        decreases n - i,
    {
        res.push(0);
        i = i + 1;
    }
    write_u32_into_le(data, &mut res);
    proof {
        assert forall|k: int| 0 <= k < res@.len() implies res@[k] == byte_of(data@[k / 4], k % 4) by {
            let q = k / 4;
            let chunk = res@.subrange(4 * q, 4 * q + 4);
            lemma_le32_bytes(chunk, data@[q]);
            assert(res@[k] == chunk[k - 4 * q]);
        }
    }
    res
}

/// The byte at `offset` of the configuration space, out of the dword `dword` that holds it
/// (the one at `offset` rounded down to a multiple of four): bits `8 * (offset % 4)` on.
pub fn dword_byte(dword: u32, offset: u8) -> (r: u8)
    ensures
        r == (dword >> ((offset % 4) * 8) as u32) & 0xff,
{
    let shift = (offset % 4) * 8;
    let v = (dword >> shift) & 0xFF;
    assert(v <= 0xff) by (bit_vector)
        requires
            v == (dword >> shift) & 0xFF,
    ;
    v as u8
}

/// Writing of the configuration space of one PCI function.
pub trait CfgSpaceWriter {
    /// Write `val` to the configuration space dword at `offset`.
    fn write(&self, offset: u8, val: u32);
}

/// A decoded base address register: unused, a memory address or an I/O port.
///
/// `Unused` is the register that holds no address.
#[derive(Clone, Copy, Debug, PartialEq, Eq, Structural)]
pub enum PciBaseAddress {
    Unused,
    Memory(u32),
    Port(u16),
}

/// The layout of a memory space base address register.
#[derive(Debug, Copy, Clone, Eq, PartialEq, Structural)]
pub struct MemorySpaceBarLayout(pub u32);

impl MemorySpaceBarLayout {
    /// The register with the raw value `layout`.
    pub fn new(layout: u32) -> (r: Self)
        ensures
            r.0 == layout,
    {
        Self(layout)
    }

    /// Bits 4 to 31: the base address in units of 16 bytes.
    pub fn base_address(&self) -> (r: u32)
        ensures
            r == self.0 >> 4u32,
    {
        self.0 >> 4u32
    }

    /// Bits 1 and 2: the memory type (0: 32 bit, 2: 64 bit).
    pub fn types(&self) -> (r: u8)
        ensures
            r == (self.0 >> 1u32) & 3,
    {
        let raw = self.0;
        let v = (raw >> 1u32) & 3;
        assert(v <= 3) by (bit_vector)
            requires
                v == (raw >> 1u32) & 3,
        ;
        v as u8
    }

    /// Bit 3: whether the memory is prefetchable.
    pub fn prefetchable(&self) -> (r: bool)
        ensures
            r == ((self.0 >> 3u32) & 1 == 1),
    {
        (self.0 >> 3u32) & 1 == 1
    }
}

impl PciBaseAddress {
    /// Whether the register is unused.
    pub fn is_none(&self) -> (r: bool)
        ensures
            r == (*self is Unused),
    {
        match self {
            PciBaseAddress::Unused => true,
            _ => false,
        }
    }

    /// Whether the register holds an address.
    pub fn is_some(&self) -> (r: bool)
        ensures
            r == !(*self is Unused),
    {
        !self.is_none()
    }
}

/// The decoding of a raw base address register: unused where bits 2 to 31 are clear; a
/// memory address (low four bits cleared) where bit 0 is clear; an I/O port (bits 2 to 15)
/// otherwise.
pub open spec fn spec_bar_from(bar: u32) -> PciBaseAddress {
    if bar & 0xFFFFFFFC == 0 {
        PciBaseAddress::Unused
    } else if bar & 1 == 0 {
        PciBaseAddress::Memory(bar & 0xFFFFFFF0)
    } else {
        PciBaseAddress::Port((bar & 0xFFFC) as u16)
    }
}

impl From<u32> for PciBaseAddress {
    fn from(bar: u32) -> (r: Self) {
        if bar & 0xFFFFFFFC == 0 {
            PciBaseAddress::Unused
        } else if bar & 1 == 0 {
            PciBaseAddress::Memory(bar & 0xFFFFFFF0)
        } else {
            PciBaseAddress::Port((bar & 0xFFFC) as u16)
        }
    }
}

impl vstd::std_specs::convert::FromSpecImpl<u32> for PciBaseAddress {
    open spec fn obeys_from_spec() -> bool {
        true
    }

    open spec fn from_spec(bar: u32) -> PciBaseAddress {
        spec_bar_from(bar)
    }
}

/// The shift, in bits, of the 16-bit half that bit 1 of `offset` selects in a dword.
pub fn get_offset(offset: u8) -> (r: u16)
    ensures
        r == ((offset as u16 & 2) * 8),
{
    let low = offset as u16 & 2;
    assert(low <= 2) by (bit_vector)
        requires
            low == offset as u16 & 2,
    ;
    let shift = low * 8;
    assert(shift & 0xffff == shift) by (bit_vector);
    shift & 0xffff
}

/// What a base address register holds, in terms of its value: below 4 (bits 2 to 31
/// clear) it is unused; with bit 0 clear it is the memory address with its four low bits
/// cleared; with bit 0 set it is the I/O port of its low 16 bits with the two low bits
/// cleared.
pub proof fn law_bar_decoding(bar: u32)
    ensures
        bar < 4 ==> spec_bar_from(bar) == PciBaseAddress::Unused,
        bar >= 4 && bar % 2 == 0 ==> spec_bar_from(bar) == PciBaseAddress::Memory((bar - bar % 16) as u32),
        bar >= 4 && bar % 2 == 1 ==> spec_bar_from(bar) == PciBaseAddress::Port((bar % 0x10000 - bar % 4) as u16),
{
    assert((bar & 0xFFFFFFFC == 0 <==> bar < 4) && bar & 1 == bar % 2 && bar & 0xFFFFFFF0 == bar - bar % 16
        && bar & 0xFFFC == bar % 0x10000 - bar % 4) by (bit_vector);
}

} // verus!
