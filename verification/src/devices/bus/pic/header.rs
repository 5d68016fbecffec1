//! Decoding of the PCI configuration space header of a function.
use crate::devices::bus::pic::byte_order::{le16, le32, read_u32_le};
use crate::devices::bus::pic::class::{spec_class_from, PciClass};
use crate::devices::bus::pic::data::{
    BridgeControl, CacheLineSize, CapPointer, CardBusCisPtr, Command, DeviceId,
    DevicesVendorId, ExpansionRom, ExpansionRomBar, Interface, InterruptLine, InterruptPin,
    IoBase, IoBaseUpper, IoLimit, IoLimitUpper, LatencyTimer, MaxLatency, MemBase, MemLimit,
    MinGrant, PciEventStatus, PrefetchBase, PrefetchLimit, PrefetchLimitUpper, PrimaryBusNum,
    Revision, SecondaryBusNum, SecondaryLatencyTimer, SecondaryStatus, SubClass,
    SubSystemId, SubSystemVendorId, SubordinateBusNum, BIST,
};
use crate::devices::bus::pic::{byte_of, spec_bar_from, CfgSpaceReader, PciBaseAddress};
use vstd::prelude::*;
use vstd::slice::slice_subrange;

verus! {

/// Why a configuration space header could not be read.
#[derive(Clone, Copy, Debug, PartialEq, Eq, Structural)]
pub enum Error {
    /// No function answers at the address: its first dword reads all ones.
    NoDevices,
    /// The header type (bits 0 and 1 of byte 14) is neither general nor PCI-to-PCI.
    UnknownDevices(u8),
}

/// The header type byte of a PCI configuration space header.
#[derive(Clone, Copy, PartialEq, Eq, Structural, Debug)]
pub struct PciHeaderType {
    pub bits: u8,
}

impl PciHeaderType {
    /// A general PCI device (type 0).
    pub const GENERAL: u8 = 0x0;
    /// A PCI-to-PCI bridge (type 1).
    pub const PCITOPCI: u8 = 0x1;
    /// A CardBus bridge (type 2).
    pub const CARDBUSBRIDGE: u8 = 0x2;
    /// A device with more than one function.
    pub const MULTIFUNCTION: u8 = 0x40;
    /// The mask of the header type bits.
    pub const HEADER_TYPE: u8 = 0x3;
    /// The union of every defined flag.
    pub const ALL: u8 = 0x43;

    /// The value with no flag set.
    pub fn empty() -> (r: Self)
        ensures
            r.bits == 0,
    {
        PciHeaderType { bits: 0 }
    }

    /// The value with every defined flag set.
    pub fn all() -> (r: Self)
        ensures
            r.bits == Self::ALL,
    {
        PciHeaderType { bits: Self::ALL }
    }

    /// The raw bits.
    pub fn bits(&self) -> (r: u8)
        ensures
            r == self.bits,
    {
        self.bits
    }

    /// The flags of `bits`, or `None` where `bits` holds a bit that no flag defines.
    pub fn from_bits(bits: u8) -> (r: Option<Self>)
        ensures
            r is Some <==> bits & !Self::ALL == 0,
            r is Some ==> r->0.bits == bits,
    {
        if bits & !Self::ALL == 0 {
            Some(PciHeaderType { bits })
        } else {
            None
        }
    }

    /// The flags of `bits`, with every bit that no flag defines dropped.
    pub fn from_bits_truncate(bits: u8) -> (r: Self)
        ensures
            r.bits == bits & Self::ALL,
    {
        PciHeaderType { bits: bits & Self::ALL }
    }

    /// Whether every flag of `other` is set in `self`.
    pub fn contains(&self, other: Self) -> (r: bool)
        ensures
            r == (self.bits & other.bits == other.bits),
    {
        self.bits & other.bits == other.bits
    }

    /// Whether no flag is set.
    pub fn is_empty(&self) -> (r: bool)
        ensures
            r == (self.bits == 0),
    {
        self.bits == 0
    }

    /// The flags set in either value.
    pub fn union(self, other: Self) -> (r: Self)
        ensures
            r.bits == self.bits | other.bits,
    {
        PciHeaderType { bits: self.bits | other.bits }
    }

    /// The flags set in both values.
    pub fn intersection(self, other: Self) -> (r: Self)
        ensures
            r.bits == self.bits & other.bits,
    {
        PciHeaderType { bits: self.bits & other.bits }
    }

    /// Sets the flags of `other`.
    pub fn insert(&mut self, other: Self)
        ensures
            final(self).bits == old(self).bits | other.bits,
    {
        self.bits = self.bits | other.bits;
    }

    /// Clears the flags of `other`.
    pub fn remove(&mut self, other: Self)
        ensures
            final(self).bits == old(self).bits & !other.bits,
    {
        self.bits = self.bits & !other.bits;
    }
}


/// The decoded header of a PCI function.
#[derive(Clone, Copy, Debug, PartialEq)]
pub enum PciHeader {
    General(GeneralDevices),
    PciToPci(PciToPci),
}

/// The header of a general device (header type 0).
#[derive(Clone, Copy, Debug, PartialEq)]
pub struct GeneralDevices {
    pub vendor_id: DevicesVendorId,
    pub device_id: DeviceId,
    pub command: Command,
    pub status: PciEventStatus,
    pub revision: Revision,
    pub interface: Interface,
    pub subclass: SubClass,
    pub class: PciClass,
    pub cache_line_size: CacheLineSize,
    pub latency_timer: LatencyTimer,
    pub header_type: PciHeaderType,
    pub bist: BIST,
    pub bars: [PciBaseAddress; 6],
    pub cardbus_cis_ptr: CardBusCisPtr,
    pub subsystem_vendor_id: SubSystemVendorId,
    pub subsystem_id: SubSystemId,
    pub expansion_rom_bar: ExpansionRomBar,
    pub cap_pointer: CapPointer,
    pub interrupt_line: InterruptLine,
    pub interrupt_pin: InterruptPin,
    pub min_grant: MinGrant,
    pub max_latency: MaxLatency,
}

/// The header of a PCI-to-PCI bridge (header type 1).
#[derive(Clone, Copy, Debug, PartialEq)]
pub struct PciToPci {
    pub vendor_id: DevicesVendorId,
    pub device_id: DeviceId,
    pub command: Command,
    pub status: PciEventStatus,
    pub revision: Revision,
    pub interface: Interface,
    pub subclass: SubClass,
    pub class: PciClass,
    pub cache_line_size: CacheLineSize,
    pub latency_timer: LatencyTimer,
    pub header_type: PciHeaderType,
    pub bist: BIST,
    pub bars: [PciBaseAddress; 2],
    pub primary_bus_num: PrimaryBusNum,
    pub secondary_bus_num: SecondaryBusNum,
    pub subordinate_bus_num: SubordinateBusNum,
    pub secondary_latency_timer: SecondaryLatencyTimer,
    pub io_base: IoBase,
    pub io_limit: IoLimit,
    pub secondary_status: SecondaryStatus,
    pub mem_base: MemBase,
    pub mem_limit: MemLimit,
    pub prefetch_base: PrefetchBase,
    pub prefetch_limit: PrefetchLimit,
    pub prefetch_base_upper: PrefetchLimitUpper,
    pub prefetch_limit_upper: PrefetchLimitUpper,
    pub io_base_upper: IoBaseUpper,
    pub io_limit_upper: IoLimitUpper,
    pub cap_pointer: CapPointer,
    pub expansion_rom: ExpansionRom,
    pub interrupt_line: InterruptLine,
    pub interrupt_pin: InterruptPin,
    pub bridge_control: BridgeControl,
}

/// The header type of the first 16 header bytes: bits 0 and 1 of byte 14.
pub open spec fn header_kind(head: Seq<u8>) -> u8 {
    head[14] & 3
}

/// Base address register `i` of the 48 bytes that follow the first 16 header bytes.
pub open spec fn bar_at(body: Seq<u8>, i: int) -> PciBaseAddress {
    spec_bar_from(le32(body.subrange(4 * i, 4 * i + 4)))
}

impl GeneralDevices {
    /// Every field is the one stored in the header bytes `head` (offsets 0 to 15) and
    /// `body` (offsets 16 to 63), multi-byte fields least significant byte first.
    pub open spec fn decoded_from(self, head: Seq<u8>, body: Seq<u8>) -> bool {
        &&& self.vendor_id.inner == le16(head.subrange(0, 2))
        &&& self.device_id.inner == le16(head.subrange(2, 4))
        &&& self.command.inner == le16(head.subrange(4, 6))
        &&& self.status.inner == le16(head.subrange(6, 8))
        &&& self.revision.inner == head[8]
        &&& self.interface.inner == head[9]
        &&& self.subclass.inner == head[10]
        &&& self.class == spec_class_from(head[11])
        &&& self.cache_line_size.inner == head[12]
        &&& self.latency_timer.inner == head[13]
        &&& self.header_type.bits == head[14] & 0x43
        &&& self.bist.inner == head[15]
        &&& forall|i: int| 0 <= i < 6 ==> self.bars[i] == #[trigger] bar_at(body, i)
        &&& self.cardbus_cis_ptr.inner == le32(body.subrange(24, 28))
        &&& self.subsystem_vendor_id.inner == le16(body.subrange(28, 30))
        &&& self.subsystem_id.inner == le16(body.subrange(30, 32))
        &&& self.expansion_rom_bar.inner == le32(body.subrange(32, 36))
        &&& self.cap_pointer.inner == body[36]
        &&& self.interrupt_line.inner == body[44]
        &&& self.interrupt_pin.inner == body[45]
        &&& self.min_grant.inner == body[46]
        &&& self.max_latency.inner == body[47]
    }
}

impl PciToPci {
    /// Every field is the one stored in the header bytes `head` (offsets 0 to 15) and
    /// `body` (offsets 16 to 63), multi-byte fields least significant byte first.
    pub open spec fn decoded_from(self, head: Seq<u8>, body: Seq<u8>) -> bool {
        &&& self.vendor_id.inner == le16(head.subrange(0, 2))
        &&& self.device_id.inner == le16(head.subrange(2, 4))
        &&& self.command.inner == le16(head.subrange(4, 6))
        &&& self.status.inner == le16(head.subrange(6, 8))
        &&& self.revision.inner == head[8]
        &&& self.interface.inner == head[9]
        &&& self.subclass.inner == head[10]
        &&& self.class == spec_class_from(head[11])
        &&& self.cache_line_size.inner == head[12]
        &&& self.latency_timer.inner == head[13]
        &&& self.header_type.bits == head[14] & 0x43
        &&& self.bist.inner == head[15]
        &&& forall|i: int| 0 <= i < 2 ==> self.bars[i] == #[trigger] bar_at(body, i)
        &&& self.primary_bus_num.inner == body[8]
        &&& self.secondary_bus_num.inner == body[9]
        &&& self.subordinate_bus_num.inner == body[10]
        &&& self.secondary_latency_timer.inner == body[11]
        &&& self.io_base.inner == body[12]
        &&& self.io_limit.inner == body[13]
        &&& self.secondary_status.inner == le16(body.subrange(14, 16))
        &&& self.mem_base.inner == le16(body.subrange(16, 18))
        &&& self.mem_limit.inner == le16(body.subrange(18, 20))
        &&& self.prefetch_base.inner == le16(body.subrange(20, 22))
        &&& self.prefetch_limit.inner == le16(body.subrange(22, 24))
        &&& self.prefetch_base_upper.inner == le32(body.subrange(24, 28))
        &&& self.prefetch_limit_upper.inner == le32(body.subrange(28, 32))
        &&& self.io_base_upper.inner == le16(body.subrange(32, 34))
        &&& self.io_limit_upper.inner == le16(body.subrange(34, 36))
        &&& self.cap_pointer.inner == body[36]
        &&& self.expansion_rom.inner == le32(body.subrange(40, 44))
        &&& self.interrupt_line.inner == body[44]
        &&& self.interrupt_pin.inner == body[45]
        &&& self.bridge_control.inner == le16(body.subrange(46, 48))
    }
}

/// What the header bytes `head` (offsets 0 to 15) and `body` (offsets 16 to 63) decode to:
/// a general device for header type 0, a PCI-to-PCI bridge for type 1, and
/// `UnknownDevices` with the type otherwise.
pub open spec fn decodes_to(head: Seq<u8>, body: Seq<u8>, r: Result<PciHeader, Error>) -> bool {
    if header_kind(head) == 0 {
        r matches Ok(PciHeader::General(d)) && d.decoded_from(head, body)
    } else if header_kind(head) == 1 {
        r matches Ok(PciHeader::PciToPci(d)) && d.decoded_from(head, body)
    } else {
        r == Err::<PciHeader, Error>(Error::UnknownDevices(header_kind(head)))
    }
}

/// The `len` bytes from `offset` on that a reader whose reads are fixed gives, dword by
/// dword, least significant byte first.
pub open spec fn space_bytes<R: CfgSpaceReader>(reader: R, offset: int, len: nat) -> Seq<u8> {
    Seq::new(len, |k: int| byte_of(reader.dword((offset + 4 * (k / 4)) as u8), k % 4))
}

/// Whether `r` is what reading a header gives, where its first dword read `first`, its
/// first 16 bytes read `head` and the next 48 read `body` (read only for a general or a
/// PCI-to-PCI header): `NoDevices` exactly where `first` is all ones, and otherwise the
/// decoding of `head` and `body`.
pub open spec fn parsed_from(first: u32, head: Seq<u8>, body: Seq<u8>, r: Result<PciHeader, Error>) -> bool {
    if first == 0xffff_ffff {
        r == Err::<PciHeader, Error>(Error::NoDevices)
    } else {
        decodes_to(head, body, r)
    }
}

/// Whether `r` is what reading the header of `reader`, whose reads are fixed, gives: the
/// first dword at offset 0, the bytes of offsets 0 to 15, and, for a general or a
/// PCI-to-PCI header, those of offsets 16 to 63.
pub open spec fn parsed_from_space<R: CfgSpaceReader>(reader: R, r: Result<PciHeader, Error>) -> bool {
    let head = space_bytes(reader, 0, 16);
    let body = if header_kind(head) <= 1 {
        space_bytes(reader, 16, 48)
    } else {
        Seq::<u8>::empty()
    };
    parsed_from(reader.dword(0), head, body, r)
}

/// The bytes of a dword, least significant first, read back as 16-bit halves and as the
/// whole dword.
proof fn lemma_dword_bytes(d: u32)
    ensures
        (byte_of(d, 0) as int + 256 * byte_of(d, 1) as int) as u16 == (d & 0xffff) as u16,
        (byte_of(d, 2) as int + 256 * byte_of(d, 3) as int) as u16 == (d >> 16u32) as u16,
        (byte_of(d, 0) as int + 256 * byte_of(d, 1) as int + 65536 * byte_of(d, 2) as int
            + 16777216 * byte_of(d, 3) as int) as u32 == d,
        byte_of(d, 3) == (d >> 24u32) as u8,
{
    let b0 = byte_of(d, 0);
    let b1 = byte_of(d, 1);
    let b2 = byte_of(d, 2);
    let b3 = byte_of(d, 3);
    assert(b0 == ((d >> 0u32) & 0xff) as u8 && b1 == ((d >> 8u32) & 0xff) as u8 && b2 == ((d >> 16u32) & 0xff) as u8 && b3 == ((d >> 24u32) & 0xff) as u8);
    assert((b0 as int + 256 * b1 as int) as u16 == (d & 0xffff) as u16 && (b2 as int + 256 * b3 as int) as u16 == (d >> 16u32) as u16
        && (b0 as int + 256 * b1 as int + 65536 * b2 as int + 16777216 * b3 as int) as u32 == d
        && b3 == (d >> 24u32) as u8) by (bit_vector)
        requires
            b0 == ((d >> 0u32) & 0xff) as u8,
            b1 == ((d >> 8u32) & 0xff) as u8,
            b2 == ((d >> 16u32) & 0xff) as u8,
            b3 == ((d >> 24u32) & 0xff) as u8,
    ;
}

/// What reading the header of a reader whose reads are fixed gives is its configuration
/// space: `NoDevices` exactly where dword 0 is all ones; otherwise the variant that bits 16
/// and 17 of dword 12 (the header type) name, with the vendor id the low half of dword 0,
/// the device id its high half, the subclass byte 2 and the class byte 3 of dword 8, the
/// header type byte 2 of dword 12 (defined bits only), and each base address register the
/// dword at `0x10 + 4 * i`.
pub proof fn law_header_from_space<R: CfgSpaceReader>(reader: R, r: Result<PciHeader, Error>)
    requires
        parsed_from_space(reader, r),
    ensures
        r == Err::<PciHeader, Error>(Error::NoDevices) <==> reader.dword(0) == 0xffff_ffff,
        reader.dword(0) != 0xffff_ffff ==> (r is Ok <==> (reader.dword(12) >> 16u32) & 3 <= 1),
        r matches Ok(PciHeader::General(d)) ==> {
            &&& (reader.dword(12) >> 16u32) & 3 == 0
            &&& d.vendor_id.inner == (reader.dword(0) & 0xffff) as u16
            &&& d.device_id.inner == (reader.dword(0) >> 16u32) as u16
            &&& d.subclass.inner == byte_of(reader.dword(8), 2)
            &&& d.class == spec_class_from((reader.dword(8) >> 24u32) as u8)
            &&& d.header_type.bits == byte_of(reader.dword(12), 2) & 0x43
            &&& forall|i: int| 0 <= i < 6 ==> #[trigger] d.bars[i] == spec_bar_from(reader.dword((0x10 + 4 * i) as u8))
        },
        r matches Ok(PciHeader::PciToPci(d)) ==> {
            &&& (reader.dword(12) >> 16u32) & 3 == 1
            &&& d.vendor_id.inner == (reader.dword(0) & 0xffff) as u16
            &&& d.device_id.inner == (reader.dword(0) >> 16u32) as u16
            &&& d.subclass.inner == byte_of(reader.dword(8), 2)
            &&& d.class == spec_class_from((reader.dword(8) >> 24u32) as u8)
            &&& d.header_type.bits == byte_of(reader.dword(12), 2) & 0x43
            &&& forall|i: int| 0 <= i < 2 ==> #[trigger] d.bars[i] == spec_bar_from(reader.dword((0x10 + 4 * i) as u8))
        },
{
    let head = space_bytes(reader, 0, 16);
    let d0 = reader.dword(0);
    let d8 = reader.dword(8);
    let d12 = reader.dword(12);
    lemma_dword_bytes(d0);
    lemma_dword_bytes(d8);
    assert(head[0] == byte_of(d0, 0) && head[1] == byte_of(d0, 1) && head[2] == byte_of(d0, 2) && head[3] == byte_of(d0, 3));
    assert(head[10] == byte_of(d8, 2) && head[11] == byte_of(d8, 3) && head[14] == byte_of(d12, 2));
    assert(head.subrange(0, 2) =~= seq![byte_of(d0, 0), byte_of(d0, 1)]);
    assert(head.subrange(2, 4) =~= seq![byte_of(d0, 2), byte_of(d0, 3)]);
    let t = (d12 >> 16u32) & 3;
    assert(byte_of(d12, 2) & 3 == t) by (bit_vector)
        requires
            t == (d12 >> 16u32) & 3,
    ;
    if header_kind(head) <= 1 {
        let body = space_bytes(reader, 16, 48);
        assert forall|i: int| 0 <= i < 12 implies #[trigger] bar_at(body, i) == spec_bar_from(reader.dword((0x10 + 4 * i) as u8)) by {
            let d = reader.dword((0x10 + 4 * i) as u8);
            lemma_dword_bytes(d);
            assert(body.subrange(4 * i, 4 * i + 4) =~= seq![byte_of(d, 0), byte_of(d, 1), byte_of(d, 2), byte_of(d, 3)]);
        }
        match r {
            Ok(PciHeader::General(d)) => {
                assert(d.decoded_from(head, body));
                assert(d.vendor_id.inner == le16(seq![byte_of(d0, 0), byte_of(d0, 1)]));
                assert(forall|i: int| 0 <= i < 6 ==> #[trigger] d.bars[i] == bar_at(body, i));
            },
            Ok(PciHeader::PciToPci(d)) => {
                assert(d.decoded_from(head, body));
                assert(forall|i: int| 0 <= i < 2 ==> #[trigger] d.bars[i] == bar_at(body, i));
            },
            _ => {},
        }
    }
}

/// Base address register `i` of `body`.
fn bar_of(body: &[u8], i: usize) -> (r: PciBaseAddress)
    requires
        body@.len() == 48,
        i < 12,
    ensures
        r == bar_at(body@, i as int),
{
    PciBaseAddress::from(read_u32_le(slice_subrange(body, 4 * i, 4 * i + 4)))
}

impl PciHeader {
    /// Decodes the header bytes `head` (offsets 0 to 15) and `body` (offsets 16 to 63).
    /// `body` is only read for the general and PCI-to-PCI header types.
    pub fn decode(head: &[u8], body: &[u8]) -> (r: Result<Self, Error>)
        requires
            head@.len() == 16,
            header_kind(head@) <= 1 ==> body@.len() == 48,
        ensures
            decodes_to(head@, body@, r),
    {
        let vendor_id = DevicesVendorId::new(slice_subrange(head, 0, 2));
        let device_id = DeviceId::new(slice_subrange(head, 2, 4));
        let command = Command::new(slice_subrange(head, 4, 6));
        let status = PciEventStatus::new(slice_subrange(head, 6, 8));
        let revision = Revision::new(head[8]);
        let interface = Interface::new(head[9]);
        let subclass = SubClass::new(head[10]);
        let cache_line_size = CacheLineSize::new(head[12]);
        let latency_timer = LatencyTimer::new(head[13]);
        let bist = BIST::new(head[15]);
        let class = PciClass::from(head[11]);
        let header_type = PciHeaderType::from_bits_truncate(head[14]);
        let type_bits = header_type.bits;
        let byte = head[14];
        let kind = type_bits & PciHeaderType::HEADER_TYPE;
        assert(kind == byte & 3) by (bit_vector)
            requires
                kind == type_bits & 3,
                type_bits == byte & 0x43,
        ;
        if kind == PciHeaderType::GENERAL {
            let bars = [
                bar_of(body, 0),
                bar_of(body, 1),
                bar_of(body, 2),
                bar_of(body, 3),
                bar_of(body, 4),
                bar_of(body, 5),
            ];
        let cardbus_cis_ptr = CardBusCisPtr::new(slice_subrange(body, 24, 28));
        let subsystem_vendor_id = SubSystemVendorId::new(slice_subrange(body, 28, 30));
        let subsystem_id = SubSystemId::new(slice_subrange(body, 30, 32));
        let expansion_rom_bar = ExpansionRomBar::new(slice_subrange(body, 32, 36));
        let cap_pointer = CapPointer::new(body[36]);
        let interrupt_line = InterruptLine::new(body[44]);
        let interrupt_pin = InterruptPin::new(body[45]);
        let min_grant = MinGrant::new(body[46]);
        let max_latency = MaxLatency::new(body[47]);
            let d = GeneralDevices {
                vendor_id,
                device_id,
                command,
                status,
                revision,
                interface,
                subclass,
                class,
                cache_line_size,
                latency_timer,
                header_type,
                bist,
                bars,
                cardbus_cis_ptr,
                subsystem_vendor_id,
                subsystem_id,
                expansion_rom_bar,
                cap_pointer,
                interrupt_line,
                interrupt_pin,
                min_grant,
                max_latency,
            };
            assert(forall|i: int| 0 <= i < 6 ==> d.bars[i] == #[trigger] bar_at(body@, i));
            Ok(PciHeader::General(d))
        } else if kind == PciHeaderType::PCITOPCI {
            let bars = [bar_of(body, 0), bar_of(body, 1)];
        let primary_bus_num = PrimaryBusNum::new(body[8]);
        let secondary_bus_num = SecondaryBusNum::new(body[9]);
        let subordinate_bus_num = SubordinateBusNum::new(body[10]);
        let secondary_latency_timer = SecondaryLatencyTimer::new(body[11]);
        let io_base = IoBase::new(body[12]);
        let io_limit = IoLimit::new(body[13]);
        let secondary_status = SecondaryStatus::new(slice_subrange(body, 14, 16));
        let mem_base = MemBase::new(slice_subrange(body, 16, 18));
        let mem_limit = MemLimit::new(slice_subrange(body, 18, 20));
        let prefetch_base = PrefetchBase::new(slice_subrange(body, 20, 22));
        let prefetch_limit = PrefetchLimit::new(slice_subrange(body, 22, 24));
        let prefetch_base_upper = PrefetchLimitUpper::new(slice_subrange(body, 24, 28));
        let prefetch_limit_upper = PrefetchLimitUpper::new(slice_subrange(body, 28, 32));
        let io_base_upper = IoBaseUpper::new(slice_subrange(body, 32, 34));
        let io_limit_upper = IoLimitUpper::new(slice_subrange(body, 34, 36));
        let cap_pointer = CapPointer::new(body[36]);
        let expansion_rom = ExpansionRom::new(slice_subrange(body, 40, 44));
        let interrupt_line = InterruptLine::new(body[44]);
        let interrupt_pin = InterruptPin::new(body[45]);
        let bridge_control = BridgeControl::new(slice_subrange(body, 46, 48));
            let d = PciToPci {
                vendor_id,
                device_id,
                command,
                status,
                revision,
                interface,
                subclass,
                class,
                cache_line_size,
                latency_timer,
                header_type,
                bist,
                bars,
                primary_bus_num,
                secondary_bus_num,
                subordinate_bus_num,
                secondary_latency_timer,
                io_base,
                io_limit,
                secondary_status,
                mem_base,
                mem_limit,
                prefetch_base,
                prefetch_limit,
                prefetch_base_upper,
                prefetch_limit_upper,
                io_base_upper,
                io_limit_upper,
                cap_pointer,
                expansion_rom,
                interrupt_line,
                interrupt_pin,
                bridge_control,
            };
            assert(forall|i: int| 0 <= i < 2 ==> d.bars[i] == #[trigger] bar_at(body@, i));
            Ok(PciHeader::PciToPci(d))
        } else {
            Err(Error::UnknownDevices(kind))
        }
    }

    /// What reading a header gives, from what was read: the first dword `first`, the header
    /// bytes `head` (offsets 0 to 15) and `body` (offsets 16 to 63, needed only for a known
    /// header type): `NoDevices` where `first` is all ones, else the decoding of the bytes.
    pub fn from_read(first: u32, head: &[u8], body: &[u8]) -> (r: Result<Self, Error>)
        requires
            first != 0xffff_ffff ==> head@.len() == 16,
            first != 0xffff_ffff && header_kind(head@) <= 1 ==> body@.len() == 48,
        ensures
            parsed_from(first, head@, body@, r),
    {
        if first == 0xffffffff {
            Err(Error::NoDevices)
        } else {
            PciHeader::decode(head, body)
        }
    }

    /// Reads and decodes the header of the function that `reader` reads: `NoDevices` where
    /// its first dword reads all ones; otherwise the decoding of the 64 header bytes that
    /// were read, the last 48 of them read only for a known header type. Where the reader's
    /// reads are fixed, that is the header of its configuration space (`parsed_from_space`).
    pub fn parser<R: CfgSpaceReader>(reader: R) -> (r: Result<Self, Error>)
        ensures
            exists|first: u32, head: Seq<u8>, body: Seq<u8>|
                head.len() == 16 && parsed_from(first, head, body, r),
            reader.reads_fixed() ==> parsed_from_space(reader, r),
    {
        let dev = reader.read(0);
        if dev == 0xffffffff {
            let r = Err(Error::NoDevices);
            assert(parsed_from(dev, Seq::new(16, |i: int| 0u8), Seq::empty(), r));
            return r;
        }
        let head = reader.read_range(0, 16);
        let kind = head[14] & 3;
        let body = if kind <= 1 {
            reader.read_range(16, 48)
        } else {
            Vec::new()
        };
        let r = PciHeader::from_read(dev, head.as_slice(), body.as_slice());
        assert(head@.len() == 16 && parsed_from(dev, head@, body@, r));
        proof {
            if reader.reads_fixed() {
                assert(head@ =~= space_bytes(reader, 0, 16));
                if kind <= 1 {
                    assert(body@ =~= space_bytes(reader, 16, 48));
                } else {
                    assert(body@ =~= Seq::<u8>::empty());
                }
            }
        }
        r
    }

    /// The Pci Header Type field.
    pub fn header_type(&self) -> (r: PciHeaderType)
        ensures
            r == match *self {
                PciHeader::General(dev) => dev.header_type,
                PciHeader::PciToPci(dev) => dev.header_type,
            },
    {
        match self {
            PciHeader::General(dev) => dev.header_type,
            PciHeader::PciToPci(dev) => dev.header_type,
        }
    }
    /// The Devices Vendor Id field.
    pub fn vendor_id(&self) -> (r: DevicesVendorId)
        ensures
            r == match *self {
                PciHeader::General(dev) => dev.vendor_id,
                PciHeader::PciToPci(dev) => dev.vendor_id,
            },
    {
        match self {
            PciHeader::General(dev) => dev.vendor_id,
            PciHeader::PciToPci(dev) => dev.vendor_id,
        }
    }
    /// The Pci Class field.
    pub fn class(&self) -> (r: PciClass)
        ensures
            r == match *self {
                PciHeader::General(dev) => dev.class,
                PciHeader::PciToPci(dev) => dev.class,
            },
    {
        match self {
            PciHeader::General(dev) => dev.class,
            PciHeader::PciToPci(dev) => dev.class,
        }
    }
    /// The Device ID field.
    pub fn device_id(&self) -> (r: DeviceId)
        ensures
            r == match *self {
                PciHeader::General(dev) => dev.device_id,
                PciHeader::PciToPci(dev) => dev.device_id,
            },
    {
        match self {
            PciHeader::General(dev) => dev.device_id,
            PciHeader::PciToPci(dev) => dev.device_id,
        }
    }
    /// The Revision field.
    pub fn revision(&self) -> (r: Revision)
        ensures
            r == match *self {
                PciHeader::General(dev) => dev.revision,
                PciHeader::PciToPci(dev) => dev.revision,
            },
    {
        match self {
            PciHeader::General(dev) => dev.revision,
            PciHeader::PciToPci(dev) => dev.revision,
        }
    }
    /// The Interface field.
    pub fn interface(&self) -> (r: Interface)
        ensures
            r == match *self {
                PciHeader::General(dev) => dev.interface,
                PciHeader::PciToPci(dev) => dev.interface,
            },
    {
        match self {
            PciHeader::General(dev) => dev.interface,
            PciHeader::PciToPci(dev) => dev.interface,
        }
    }
    /// The Subclass field.
    pub fn subclass(&self) -> (r: SubClass)
        ensures
            r == match *self {
                PciHeader::General(dev) => dev.subclass,
                PciHeader::PciToPci(dev) => dev.subclass,
            },
    {
        match self {
            PciHeader::General(dev) => dev.subclass,
            PciHeader::PciToPci(dev) => dev.subclass,
        }
    }
    /// The Interrupt Line field.
    pub fn interrupt_line(&self) -> (r: InterruptLine)
        ensures
            r == match *self {
                PciHeader::General(dev) => dev.interrupt_line,
                PciHeader::PciToPci(dev) => dev.interrupt_line,
            },
    {
        match self {
            PciHeader::General(dev) => dev.interrupt_line,
            PciHeader::PciToPci(dev) => dev.interrupt_line,
        }
    }
    /// The Status field.
    pub fn status(&self) -> (r: PciEventStatus)
        ensures
            r == match *self {
                PciHeader::General(dev) => dev.status,
                PciHeader::PciToPci(dev) => dev.status,
            },
    {
        match self {
            PciHeader::General(dev) => dev.status,
            PciHeader::PciToPci(dev) => dev.status,
        }
    }
    /// The Capability Pointer field.
    pub fn cap_pointer(&self) -> (r: CapPointer)
        ensures
            r == match *self {
                PciHeader::General(dev) => dev.cap_pointer,
                PciHeader::PciToPci(dev) => dev.cap_pointer,
            },
    {
        match self {
            PciHeader::General(dev) => dev.cap_pointer,
            PciHeader::PciToPci(dev) => dev.cap_pointer,
        }
    }
    /// The base address registers: six for a general device, two for a bridge.
    pub fn bars(&self) -> (r: &[PciBaseAddress])
        ensures
            r@ == match *self {
                PciHeader::General(dev) => dev.bars@,
                PciHeader::PciToPci(dev) => dev.bars@,
            },
    {
        match self {
            PciHeader::General(dev) => vstd::array::array_as_slice(&dev.bars),
            PciHeader::PciToPci(dev) => vstd::array::array_as_slice(&dev.bars),
        }
    }

    /// Base address register `idx`, which must be one of the header's registers.
    pub fn get_bar(&self, idx: usize) -> (r: PciBaseAddress)
        requires
            match *self {
                PciHeader::General(_) => idx < 6,
                PciHeader::PciToPci(_) => idx < 2,
            },
        ensures
            r == match *self {
                PciHeader::General(dev) => dev.bars[idx as int],
                PciHeader::PciToPci(dev) => dev.bars[idx as int],
            },
    {
        match self {
            PciHeader::General(dev) => dev.bars[idx],
            PciHeader::PciToPci(dev) => dev.bars[idx],
        }
    }
}

} // verus!
