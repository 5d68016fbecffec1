use system::devices::bus::pic::class::{PciClass, PciSubClass};
use system::devices::bus::pic::data::{Command, DevicesVendorId, ExpansionRomBar, PciEventStatus, SubClass};
use system::devices::bus::pic::dev::{DeviceAddress, Pic, PicBus};
use system::devices::bus::pic::header::{Error as HeaderError, PciHeader, PciHeaderType};
use system::devices::bus::pic::{dword_byte, dwords_to_bytes, get_offset, CfgSpaceReader, MemorySpaceBarLayout, PciBaseAddress};

struct FakeFunction {
    dwords: [u32; 16],
}

impl CfgSpaceReader for FakeFunction {
    fn reads_fixed(&self) -> bool {
        true
    }

    fn dword(&self, offset: u8) -> u32 {
        self.dwords[(offset / 4) as usize]
    }

    fn read(&self, offset: u8) -> u32 {
        self.dwords[(offset / 4) as usize]
    }
}

fn general_device() -> FakeFunction {
    let mut dwords = [0u32; 16];
    dwords[0] = 0x1234_8086; // device 0x1234, vendor 0x8086
    dwords[1] = 0x0010_0007; // status 0x0010, command 0x0007
    dwords[2] = 0x0106_0102; // class 0x01, subclass 0x06, interface 0x01, revision 0x02
    dwords[3] = 0x0040_0010; // bist 0, header type 0x40 (multifunction, general), latency 0, cache 0x10
    dwords[4] = 0xfebf_0000; // bar 0: memory
    dwords[5] = 0x0000_c001; // bar 1: port
    dwords[6] = 0;           // bar 2: unused
    dwords[13] = 0x0000_0040; // capability pointer 0x40
    dwords[15] = 0x0000_010b; // interrupt pin 1, line 0x0b
    FakeFunction { dwords }
}

#[test]
fn class_from_code_and_back() {
    assert_eq!(PciClass::from(0x01u8), PciClass::MassStorageController);
    assert_eq!(PciClass::from(0x0Cu8), PciClass::SerialBusController);
    assert_eq!(PciClass::from(0x20u8), PciClass::Reserved(0x20));
    assert_eq!(PciClass::from(0xFFu8), PciClass::Unknown);
    assert_eq!(u8::from(PciClass::NetworkController), 0x02);
    assert_eq!(u8::from(PciClass::Reserved(0x30)), 0x30);
    assert_eq!(u8::from(PciClass::Unknown), 0xFF);
    for code in 0u8..=255 {
        assert_eq!(u8::from(PciClass::from(code)), code);
    }
}

#[test]
fn subclass_of_class() {
    assert_eq!(PciClass::MassStorageController.subclass(SubClass::new(0x06)), PciSubClass::SerialATA);
    assert_eq!(PciClass::NetworkController.subclass(SubClass::new(0x00)), PciSubClass::EthernetController);
    assert_eq!(PciClass::Legacy.subclass(SubClass::new(0x01)), PciSubClass::VGACompatibleDevices);
    assert_eq!(PciClass::Legacy.subclass(SubClass::new(0x42)), PciSubClass::OtherUnclassifiedDevices(0x42));
}

#[test]
fn device_address_layout() {
    let a = DeviceAddress::new(1, 2, 3, 0x10);
    assert_eq!(a.address(), 0x8000_0000 | (1 << 16) | (2 << 11) | (3 << 8) | 0x10);
    let bus = PicBus { num: 7 };
    assert_eq!(bus.address(1, 0, 4), DeviceAddress::new(7, 1, 0, 4));
}

#[test]
fn bus_device_function_walks() {
    let pic = Pic::new();
    let mut buses = pic.bus_iter();
    let mut n = 0;
    while let Some(_) = buses.next() {
        n += 1;
    }
    assert_eq!(n, 255);
    let bus = PicBus { num: 0 };
    let mut devs = bus.devices();
    let mut nd = 0;
    let mut last = None;
    while let Some(d) = devs.next() {
        nd += 1;
        last = Some(d);
    }
    assert_eq!(nd, 32);
    let dev = last.unwrap();
    assert_eq!(dev.num, 31);
    let mut funcs = dev.funcs();
    let mut nf = 0;
    while let Some(f) = funcs.next() {
        assert_eq!(f.address(8), DeviceAddress::new(0, 31, f.num, 8));
        nf += 1;
    }
    assert_eq!(nf, 8);
}

#[test]
fn base_address_decoding() {
    assert_eq!(PciBaseAddress::from(0u32), PciBaseAddress::Unused);
    assert_eq!(PciBaseAddress::from(0x3u32), PciBaseAddress::Unused);
    assert_eq!(PciBaseAddress::from(0xfebf_000cu32), PciBaseAddress::Memory(0xfebf_0000));
    assert_eq!(PciBaseAddress::from(0xc001u32), PciBaseAddress::Port(0xc000));
    assert!(PciBaseAddress::Unused.is_none());
    assert!(PciBaseAddress::Port(1).is_some());
}

#[test]
fn memory_bar_layout_fields() {
    let l = MemorySpaceBarLayout::new(0xfebf_000c);
    assert_eq!(l.base_address(), 0x0febf000);
    assert_eq!(l.types(), 2);
    assert!(l.prefetchable());
}

#[test]
fn offset_of_half_word() {
    assert_eq!(get_offset(0), 0);
    assert_eq!(get_offset(2), 16);
    assert_eq!(get_offset(6), 16);
    assert_eq!(get_offset(5), 0);
}

#[test]
fn multi_byte_fields_are_little_endian() {
    assert_eq!(DevicesVendorId::new(&[0x86, 0x80]).inner, 0x8086);
    assert_eq!(ExpansionRomBar::new(&[0x01, 0x02, 0x03, 0x04]).inner, 0x0403_0201);
}

#[test]
fn command_and_status_bits() {
    let mut c = Command::new(&[0x07, 0x00]);
    assert!(!c.interrupt());
    c.set_interrupt(true);
    assert!(c.interrupt());
    assert_eq!(c.inner, 0x0407);
    c.set_interrupt(false);
    assert_eq!(c.inner, 0x0007);
    let s = PciEventStatus::new(&[0x00, 0x06]);
    assert_eq!(s.devsel_timing(), 3);
}

#[test]
fn read_range_and_read_u8() {
    let f = general_device();
    let bytes = f.read_range(0, 8);
    assert_eq!(bytes, vec![0x86, 0x80, 0x34, 0x12, 0x07, 0x00, 0x10, 0x00]);
    assert_eq!(f.read_u8(0), 0x86);
    assert_eq!(f.read_u8(3), 0x12);
    assert_eq!(f.read_u8(0x0e), 0x40);
}

#[test]
fn parse_general_header() {
    let header = PciHeader::parser(general_device()).ok().unwrap();
    assert_eq!(header.vendor_id().inner, 0x8086);
    assert_eq!(header.device_id().inner, 0x1234);
    assert_eq!(header.status().inner, 0x0010);
    assert_eq!(header.revision().inner, 0x02);
    assert_eq!(header.interface().inner, 0x01);
    assert_eq!(header.subclass().inner, 0x06);
    assert_eq!(header.class(), PciClass::MassStorageController);
    assert_eq!(header.header_type().bits(), 0x40);
    assert!(header.header_type().contains(PciHeaderType { bits: PciHeaderType::MULTIFUNCTION }));
    assert_eq!(header.bars().len(), 6);
    assert_eq!(header.get_bar(0), PciBaseAddress::Memory(0xfebf_0000));
    assert_eq!(header.get_bar(1), PciBaseAddress::Port(0xc000));
    assert_eq!(header.get_bar(2), PciBaseAddress::Unused);
    assert_eq!(header.cap_pointer().inner, 0x40);
    assert_eq!(header.interrupt_line().inner, 0x0b);
}

#[test]
fn parse_bridge_header() {
    let mut f = general_device();
    f.dwords[3] = 0x0001_0000; // header type 1
    f.dwords[6] = 0x0002_0100; // primary bus 0, secondary 1, subordinate 2
    let header = PciHeader::parser(f).ok().unwrap();
    match header {
        PciHeader::PciToPci(b) => {
            assert_eq!(b.secondary_bus_num.inner, 1);
            assert_eq!(b.subordinate_bus_num.inner, 2);
        }
        _ => panic!("not a bridge"),
    }
    assert_eq!(header.bars().len(), 2);
}

#[test]
fn parse_no_device() {
    let f = FakeFunction { dwords: [0xffff_ffff; 16] };
    assert!(matches!(PciHeader::parser(f), Err(HeaderError::NoDevices)));
}

#[test]
fn parse_unknown_header_type() {
    let mut f = general_device();
    f.dwords[3] = 0x0002_0000; // CardBus bridge
    assert!(matches!(PciHeader::parser(f), Err(HeaderError::UnknownDevices(2))));
}

#[test]
fn decode_header_bytes() {
    let mut head = [0u8; 16];
    head[11] = 0x02;
    head[14] = 0x03;
    assert!(matches!(PciHeader::decode(&head, &[]), Err(HeaderError::UnknownDevices(3))));
}

#[test]
fn byte_of_a_dword() {
    assert_eq!(dword_byte(0x1234_5678, 0), 0x78);
    assert_eq!(dword_byte(0x1234_5678, 1), 0x56);
    assert_eq!(dword_byte(0x1234_5678, 6), 0x34);
    assert_eq!(dword_byte(0x1234_5678, 0x0f), 0x12);
}

#[test]
fn header_from_what_was_read() {
    assert!(matches!(PciHeader::from_read(0xffff_ffff, &[], &[]), Err(HeaderError::NoDevices)));
    let f = general_device();
    let head = f.read_range(0, 16);
    let body = f.read_range(16, 48);
    let header = PciHeader::from_read(f.read(0), &head, &body).ok().unwrap();
    assert_eq!(header.vendor_id().inner, 0x8086);
    assert_eq!(header.get_bar(0), PciBaseAddress::Memory(0xfebf_0000));
    let mut unknown = head.clone();
    unknown[14] = 0x02;
    assert!(matches!(PciHeader::from_read(0x1234_8086, &unknown, &[]), Err(HeaderError::UnknownDevices(2))));
}

#[test]
fn dwords_laid_out_as_bytes() {
    assert_eq!(dwords_to_bytes(&[0x1234_5678, 0xaabb_ccdd]), vec![0x78, 0x56, 0x34, 0x12, 0xdd, 0xcc, 0xbb, 0xaa]);
    assert_eq!(dwords_to_bytes(&[]), Vec::<u8>::new());
}
