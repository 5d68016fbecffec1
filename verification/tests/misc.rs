use system::bits::{KernelSectionFlags, PageTableFlags};
use system::boot::{address_bounds, multiboot_memory_type, uefi_memory_type};
use system::ia_32e::controller::{ProgrammableController, PIC, XPAIC};
use system::ia_32e::cpu::ChainedPics;
use system::ia_32e::paging::allocator::{FrameAllocator, UnusedFrame};
use system::ia_32e::paging::frame_allocator::{AdaptationAllocator, MemoryAreaManagement};
use system::ia_32e::paging::result::{FrameError, MapToError, CreatePageTableError, PageTableWalkError, UnmapError};
use system::ia_32e::paging::{Frame, MemoryArea, MemoryAreaIter, MemorySpace, MemoryType, Page4KB};
use system::ia_32e::x2apic::register::TimerMode;
use system::ia_32e::xapic::xApic;
use system::ia_32e::{ApicInfo, PhysAddr};
use system::result::{DevicesErrorKind, Error, MemErrorKind, MemoryError, ProcessErrorKind, Repr};
use system::{KernelArea, KernelSectionType, SystemInformation};

#[test]
fn flag_sets() {
    let f = PageTableFlags { bits: PageTableFlags::PRESENT | PageTableFlags::WRITABLE };
    assert!(f.contains(PageTableFlags { bits: PageTableFlags::PRESENT }));
    assert!(!f.contains(PageTableFlags { bits: PageTableFlags::HUGE_PAGE }));
    assert_eq!(PageTableFlags::from_bits(0x3).map(|x| x.bits), Some(0x3));
    assert_eq!(KernelSectionFlags::from_bits(0x8).map(|x| x.bits), None);
    assert_eq!(KernelSectionFlags::from_bits_truncate(0xf).bits, 0x7);
    let mut g = KernelSectionFlags::empty();
    assert!(g.is_empty());
    g.insert(KernelSectionFlags { bits: KernelSectionFlags::WRITABLE });
    assert_eq!(g.bits(), 1);
    g.remove(KernelSectionFlags { bits: KernelSectionFlags::WRITABLE });
    assert!(g.is_empty());
    assert_eq!(KernelSectionFlags::all().union(KernelSectionFlags::empty()).bits, 7);
    assert_eq!(KernelSectionFlags::all().intersection(KernelSectionFlags { bits: 2 }).bits, 2);
}

#[test]
fn apic_info_builder() {
    let mut info = ApicInfo::new();
    assert!(info.build().is_err());
    assert_eq!(info.build().err().unwrap(), "x2apic: required field(s) empty");
    info.set_error_vector(49).set_spurious_vector(255).set_timer_mode(TimerMode::Periodic);
    // The timer vector is still missing.
    assert_eq!(info.build().err().unwrap(), "x2apic: required field(s) empty");
    info.set_timer_vector(48);
    assert_eq!(info.build().err().unwrap(), "xapic: required field(s) empty");
    info.set_io_apic_offset(32);
    let built = info.build().ok().unwrap();
    assert_eq!(built.error_vector, Some(49));
    assert_eq!(built.spurious_vector, Some(255));
    assert_eq!(built.ioapic_offset, Some(32));
    assert_eq!(built.timer_vector, Some(48));
}

#[test]
fn memory_map_walk() {
    let mut space = MemorySpace::new();
    space.add_area(0, 0x9f000, MemoryType::FreeArea, 0x9f000);
    space.add_area(0x9f000, 0x100000, MemoryType::ReservedArea, 0x61000);
    space.add_area(0x100000, 0x800000, MemoryType::FreeArea, 0x700000);
    assert_eq!(space.iter().len(), 3);
    let mut walk = MemoryAreaIter::new(MemoryType::FreeArea);
    let first = walk.next(space.iter()).unwrap();
    assert_eq!(first.start_address(), 0);
    let second = walk.next(space.iter()).unwrap();
    assert_eq!(second.start_address(), 0x100000);
    assert_eq!(second.size(), 0x700000);
    assert!(walk.next(space.iter()).is_none());
    let area = MemoryArea::new(1, 2, MemoryType::MMIO, 1);
    assert_eq!(area.acpi, 0);
    assert_eq!(MemoryArea::default().ty, MemoryType::EmptyArea);
}

#[test]
fn boot_memory_types() {
    assert_eq!(uefi_memory_type(7), Some(MemoryType::FreeArea));
    assert_eq!(uefi_memory_type(1), Some(MemoryType::UsedArea));
    assert_eq!(uefi_memory_type(11), Some(MemoryType::MMIO));
    assert_eq!(uefi_memory_type(13), None);
    assert_eq!(multiboot_memory_type(1), Some(MemoryType::FreeArea));
    assert_eq!(multiboot_memory_type(5), Some(MemoryType::Defective));
    assert_eq!(multiboot_memory_type(6), None);
}

#[test]
fn boot_kernel_sections() {
    let a = KernelArea::from_uefi(0x1000, 0x200, String::from(".text"), 0x6, KernelSectionType::ProgramSection);
    assert_eq!(a.end_addr, 0x1200);
    assert_eq!(a.flags.bits, 6);
    assert_eq!(a.name, ".text");
    let b = KernelArea::from_mutiboot(0x2000, 0x2100, 0x100, String::from(".data"), 8, 0x3, KernelSectionType::ProgramSection);
    assert_eq!(b.align_by, 8);
    assert_eq!(KernelSectionType::ProcessorSpecific.value(), 0x7000_0000);
    let mut info = SystemInformation::new(0x10_0000, 0x20_0000);
    info.add_kernel_area(a);
    info.add_uefi_memory_area(0x1000, 4, MemoryType::FreeArea);
    info.add_multiboot_memory_area(0x9000, 0xa000, 0x1000, MemoryType::ReservedArea);
    assert_eq!(info.kernel_start(), 0x10_0000);
    assert_eq!(info.kernel_end(), 0x20_0000);
    assert_eq!(info.kernel_area_iter().len(), 1);
    assert_eq!(info.mem_area_iter()[0].end_addr, 0x5000);
    assert_eq!(info.mem_area_iter()[1].ty, MemoryType::ReservedArea);
}

#[test]
fn errors_keep_their_kind() {
    let e = Error::new_memory(MemErrorKind::FrameNotMatch, String::from("bad frame"));
    match e.as_repr() {
        Repr::Memory(m) => {
            assert_eq!(m.get_kind(), MemErrorKind::FrameNotMatch);
            assert_eq!(m.display(), "bad frame");
        }
        _ => panic!("wrong kind"),
    }
    let m = MemoryError::new(MemErrorKind::NotAligned, String::from("x"));
    assert_eq!(m.display(), "x");
    let _p = Error::new_process(ProcessErrorKind::TryAgain, None);
    let _d = Error::new_devices(DevicesErrorKind::NotSupport, Some(String::from("no")));
}

#[test]
fn paging_error_conversions() {
    assert_eq!(PageTableWalkError::from(FrameError::FrameNotPresent), PageTableWalkError::NotMapped);
    assert_eq!(PageTableWalkError::from(FrameError::HugeFrame), PageTableWalkError::MappedToHugePage);
    assert!(matches!(UnmapError::from(PageTableWalkError::NotMapped), UnmapError::PageNotMapped));
    assert!(matches!(
        MapToError::<Page4KB>::from(CreatePageTableError::FrameAllocateFailed),
        MapToError::FrameAllocateFailed
    ));
}

#[test]
fn controller_parts() {
    assert_eq!(ProgrammableController::<PIC>::name(), "8259A");
    assert_eq!(ProgrammableController::<XPAIC>::name(), "xapic");
    let mut c = ProgrammableController::<PIC>::empty();
    assert!(c.pic.is_none());
    c.set_pic(ChainedPics::new(32, 40));
    assert!(c.pic.is_some());
    let x = ProgrammableController::<XPAIC>::new(XPAIC(xApic::new(0xfee0_0000)));
    assert_eq!(x.xapic.unwrap().base, 0xfee0_0000);
    let p = ProgrammableController::<PIC>::new(PIC(ChainedPics::new(32, 40)));
    assert_eq!(p.version(), "8259A");
}

struct NoFrames {
    areas: usize,
}

impl FrameAllocator<Page4KB> for NoFrames {
    fn allocate(&mut self) -> Option<UnusedFrame<Page4KB>> {
        None
    }
    fn dealloc(&mut self, _frame: UnusedFrame<Page4KB>) {}
}

impl MemoryAreaManagement for NoFrames {
    fn add_area(&mut self, _start_addr: u64, _end_addr: u64, _ty: MemoryType, _len: u64) {
        self.areas += 1;
    }
}

fn frame(addr: u64) -> Frame<Page4KB> {
    Frame::include_address(PhysAddr::new(addr))
}

#[test]
fn freed_runs_merge() {
    let mut a = AdaptationAllocator::new(NoFrames { areas: 0 });
    assert_eq!(a.free_count(), 0);
    a.dealloc_size(frame(0x10000), 2);
    assert_eq!(a.free_count(), 2);
    // A run far away stays apart.
    a.dealloc_size(frame(0x40000), 1);
    assert_eq!(a.free_count(), 3);
    // A run that closes the gap between two runs merges all three.
    a.dealloc_size(frame(0x12000), 0x2e);
    assert_eq!(a.free_count(), 0x31);
    // Touching the merged run from below extends it.
    a.dealloc_size(frame(0xf000), 1);
    assert_eq!(a.free_count(), 0x32);
    assert!(a.allocate().is_none());
    a.add_area(0, 1, MemoryType::FreeArea, 1);
}

#[test]
fn unused_frame_holds_frame() {
    let u = UnusedFrame::new(frame(0x5000));
    assert_eq!(u.frame().start_address().as_u64(), 0x5000);
}

#[test]
fn section_address_bounds() {
    assert_eq!(address_bounds(&[0x20_0000, 0x10_0000, 0x30_5000, 0x18_0000]), Some((0x10_0000, 0x30_5000)));
    assert_eq!(address_bounds(&[0x4000]), Some((0x4000, 0x4000)));
    assert_eq!(address_bounds(&[]), None);
}
