//! What the boot loader hands the kernel: its arguments, the kernel's sections and the
//! memory map.
use crate::bits::KernelSectionFlags;
use crate::ia_32e::paging::{MemoryArea, MemorySpace, MemoryType};
use vstd::prelude::*;

verus! {

/// The arguments the UEFI loader passes to the kernel.
#[derive(Clone, Copy, Debug, PartialEq, Eq, Structural)]
pub struct KernelArgs {
    /// The address of the UEFI system table.
    pub st: u64,
    /// The address of the memory map iterator.
    pub iter: u64,
    /// The address of the parsed kernel ELF file.
    pub kernel_elf: u64,
    /// The first address of the kernel.
    pub kernel_start: u64,
    /// The end address of the kernel.
    pub kernel_end: u64,
    /// The first address of the kernel stack.
    pub stack_start: u64,
    /// The end address of the kernel stack.
    pub stack_end: u64,
    /// The address of the frame buffer.
    pub frame_ptr: usize,
    /// The size of the frame buffer.
    pub frame_size: usize,
}

/// The type of a kernel ELF section.
#[derive(Clone, Copy, Debug, PartialEq, Eq, Structural)]
pub enum KernelSectionType {
    Unused,
    ProgramSection,
    LinkerSymbolTable,
    StringTable,
    RelaRelocation,
    SymbolHashTable,
    DynamicLinkingTable,
    Note,
    Uninitialized,
    RelRelocation,
    Reserved,
    DynamicLoaderSymbolTable,
    EnvironmentSpecific,
    ProcessorSpecific,
}

/// The ELF section type number of each section type.
pub open spec fn section_type_value(ty: KernelSectionType) -> u32 {
    match ty {
        KernelSectionType::Unused => 0,
        KernelSectionType::ProgramSection => 1,
        KernelSectionType::LinkerSymbolTable => 2,
        KernelSectionType::StringTable => 3,
        KernelSectionType::RelaRelocation => 4,
        KernelSectionType::SymbolHashTable => 5,
        KernelSectionType::DynamicLinkingTable => 6,
        KernelSectionType::Note => 7,
        KernelSectionType::Uninitialized => 8,
        KernelSectionType::RelRelocation => 9,
        KernelSectionType::Reserved => 10,
        KernelSectionType::DynamicLoaderSymbolTable => 11,
        KernelSectionType::EnvironmentSpecific => 0x6000_0000,
        KernelSectionType::ProcessorSpecific => 0x7000_0000,
    }
}

impl KernelSectionType {
    /// The ELF section type number of the type.
    pub fn value(&self) -> (r: u32)
        ensures
            r == section_type_value(*self),
    {
        match self {
            KernelSectionType::Unused => 0,
            KernelSectionType::ProgramSection => 1,
            KernelSectionType::LinkerSymbolTable => 2,
            KernelSectionType::StringTable => 3,
            KernelSectionType::RelaRelocation => 4,
            KernelSectionType::SymbolHashTable => 5,
            KernelSectionType::DynamicLinkingTable => 6,
            KernelSectionType::Note => 7,
            KernelSectionType::Uninitialized => 8,
            KernelSectionType::RelRelocation => 9,
            KernelSectionType::Reserved => 10,
            KernelSectionType::DynamicLoaderSymbolTable => 11,
            KernelSectionType::EnvironmentSpecific => 0x6000_0000,
            KernelSectionType::ProcessorSpecific => 0x7000_0000,
        }
    }
}

/// A section of the kernel image.
pub struct KernelArea {
    /// The first address of the section.
    pub start_addr: u64,
    /// The end address of the section.
    pub end_addr: u64,
    /// The size of the section in bytes.
    pub size: u64,
    /// The name of the section.
    pub name: String,
    /// The alignment of the section.
    pub align_by: u64,
    /// The flags of the section.
    pub flags: KernelSectionFlags,
    /// The type of the section.
    pub section_ty: KernelSectionType,
}

impl KernelArea {
    /// The section found in the kernel ELF file the UEFI loader passed: it starts at
    /// `address` and holds `size` bytes; its flags are `flags`, all of them defined ones; no
    /// alignment is recorded.
    pub fn from_uefi(address: u64, size: u64, name: String, flags: u64, ty: KernelSectionType) -> (r: Self)
        requires
            flags & !KernelSectionFlags::ALL == 0,
            address + size <= u64::MAX,
        ensures
            r.start_addr == address,
            r.end_addr == address + size,
            r.size == size,
            r.name@ == name@,
            r.align_by == 0,
            r.flags.bits == flags,
            r.section_ty == ty,
    {
        let flag = KernelSectionFlags::from_bits_truncate(flags);
        assert(flags & KernelSectionFlags::ALL == flags) by (bit_vector)
            requires
                flags & !KernelSectionFlags::ALL == 0,
        ;
        Self {
            start_addr: address,
            end_addr: address + size,
            size,
            name,
            align_by: 0,
            flags: flag,
            section_ty: ty,
        }
    }

    /// The section found in the ELF sections tag of the multiboot2 information: from
    /// `start_addr` to `end_addr`, `size` bytes, aligned by `align_by`, with the flags
    /// `flags`, all of them defined ones.
    pub fn from_mutiboot(
        start_addr: u64,
        end_addr: u64,
        size: u64,
        name: String,
        align_by: u64,
        flags: u64,
        ty: KernelSectionType,
    ) -> (r: Self)
        requires
            flags & !KernelSectionFlags::ALL == 0,
        ensures
            r.start_addr == start_addr,
            r.end_addr == end_addr,
            r.size == size,
            r.name@ == name@,
            r.align_by == align_by,
            r.flags.bits == flags,
            r.section_ty == ty,
    {
        let flag = KernelSectionFlags::from_bits_truncate(flags);
        assert(flags & KernelSectionFlags::ALL == flags) by (bit_vector)
            requires
                flags & !KernelSectionFlags::ALL == 0,
        ;
        Self { start_addr, end_addr, size, name, align_by, flags: flag, section_ty: ty }
    }
}

/// The kind of memory of each UEFI memory type that the kernel knows: conventional and
/// boot services memory is free, loader memory is used, the rest as named.
pub open spec fn spec_uefi_memory_type(ty: u32) -> Option<MemoryType> {
    if ty == 7 || ty == 3 || ty == 4 {
        Some(MemoryType::FreeArea)
    } else if ty == 1 || ty == 2 {
        Some(MemoryType::UsedArea)
    } else if ty == 0 {
        Some(MemoryType::ReservedArea)
    } else if ty == 5 {
        Some(MemoryType::UefiRunTimeCode)
    } else if ty == 6 {
        Some(MemoryType::UefiRunTimeData)
    } else if ty == 8 || ty == 14 {
        Some(MemoryType::ErrorArea)
    } else if ty == 9 {
        Some(MemoryType::ACPIArea)
    } else if ty == 10 {
        Some(MemoryType::ACPIReservedArea)
    } else if ty == 11 {
        Some(MemoryType::MMIO)
    } else if ty == 12 {
        Some(MemoryType::MMIOPortArea)
    } else {
        None
    }
}

/// The kind of memory of a UEFI memory type number, or `None` for a type the kernel does
/// not know.
pub fn uefi_memory_type(ty: u32) -> (r: Option<MemoryType>)
    ensures
        r == spec_uefi_memory_type(ty),
{
    match ty {
        7 | 3 | 4 => Some(MemoryType::FreeArea),
        1 | 2 => Some(MemoryType::UsedArea),
        0 => Some(MemoryType::ReservedArea),
        5 => Some(MemoryType::UefiRunTimeCode),
        6 => Some(MemoryType::UefiRunTimeData),
        8 | 14 => Some(MemoryType::ErrorArea),
        9 => Some(MemoryType::ACPIArea),
        10 => Some(MemoryType::ACPIReservedArea),
        11 => Some(MemoryType::MMIO),
        12 => Some(MemoryType::MMIOPortArea),
        _ => None,
    }
}

/// The kind of memory of a multiboot2 memory area type number (1 available, 2 reserved, 3
/// ACPI reclaimable, 4 reserved for hibernation, 5 defective), or `None` for another one.
pub fn multiboot_memory_type(ty: u32) -> (r: Option<MemoryType>)
    ensures
        r == if ty == 1 {
            Some(MemoryType::FreeArea)
        } else if ty == 2 {
            Some(MemoryType::ReservedArea)
        } else if ty == 3 {
            Some(MemoryType::ACPIArea)
        } else if ty == 4 {
            Some(MemoryType::ReservedHibernate)
        } else if ty == 5 {
            Some(MemoryType::Defective)
        } else {
            None::<MemoryType>
        },
{
    match ty {
        1 => Some(MemoryType::FreeArea),
        2 => Some(MemoryType::ReservedArea),
        3 => Some(MemoryType::ACPIArea),
        4 => Some(MemoryType::ReservedHibernate),
        5 => Some(MemoryType::Defective),
        _ => None,
    }
}

/// What the kernel knows of the machine at boot: its own extent, its sections and the
/// memory map.
pub struct SystemInformation {
    mem_area: MemorySpace,
    kernel_area: Vec<KernelArea>,
    kernel_start: u64,
    kernel_end: u64,
}

impl SystemInformation {
    /// The first address of the kernel.
    pub closed spec fn spec_kernel_start(&self) -> u64 {
        self.kernel_start
    }

    /// The end address of the kernel.
    pub closed spec fn spec_kernel_end(&self) -> u64 {
        self.kernel_end
    }

    /// The memory map.
    pub closed spec fn memory_areas(&self) -> Seq<MemoryArea> {
        self.mem_area.areas()
    }

    /// The number of kernel sections.
    pub closed spec fn kernel_area_count(&self) -> nat {
        self.kernel_area@.len()
    }

    /// The information of a kernel from `kernel_start` to `kernel_end`, with no section
    /// and an empty memory map yet.
    pub fn new(kernel_start: u64, kernel_end: u64) -> (r: Self)
        ensures
            r.spec_kernel_start() == kernel_start,
            r.spec_kernel_end() == kernel_end,
            r.memory_areas() == Seq::<MemoryArea>::empty(),
            r.kernel_area_count() == 0,
    {
        SystemInformation {
            mem_area: MemorySpace::new(),
            kernel_area: Vec::new(),
            kernel_start,
            kernel_end,
        }
    }

    /// The first address of the kernel.
    pub fn kernel_start(&self) -> (r: u64)
        ensures
            r == self.spec_kernel_start(),
    {
        self.kernel_start
    }

    /// The end address of the kernel.
    pub fn kernel_end(&self) -> (r: u64)
        ensures
            r == self.spec_kernel_end(),
    {
        self.kernel_end
    }

    /// The memory map.
    pub fn mem_area_iter(&self) -> (r: &[MemoryArea])
        ensures
            r@ == self.memory_areas(),
    {
        self.mem_area.iter()
    }

    /// The kernel sections.
    pub fn kernel_area_iter(&self) -> (r: &[KernelArea])
        ensures
            r@.len() == self.kernel_area_count(),
    {
        self.kernel_area.as_slice()
    }

    /// Records a kernel section.
    pub fn add_kernel_area(&mut self, area: KernelArea)
        ensures
            final(self).kernel_area_count() == old(self).kernel_area_count() + 1,
            final(self).memory_areas() == old(self).memory_areas(),
            final(self).spec_kernel_start() == old(self).spec_kernel_start(),
            final(self).spec_kernel_end() == old(self).spec_kernel_end(),
    {
        self.kernel_area.push(area);
    }

    /// Records a UEFI memory map entry of `page_count` pages of 4 KiB from `phys_start`,
    /// of the kind `ty`.
    pub fn add_uefi_memory_area(&mut self, phys_start: u64, page_count: u64, ty: MemoryType)
        requires
            phys_start + page_count * 0x1000 <= u64::MAX,
        ensures
            final(self).memory_areas() == old(self).memory_areas().push(
                MemoryArea {
                    start_addr: phys_start,
                    end_addr: (phys_start + page_count * 0x1000) as u64,
                    length: (page_count * 0x1000) as u64,
                    ty,
                    acpi: 0,
                },
            ),
            final(self).kernel_area_count() == old(self).kernel_area_count(),
            final(self).spec_kernel_start() == old(self).spec_kernel_start(),
            final(self).spec_kernel_end() == old(self).spec_kernel_end(),
    {
        let size = page_count * 0x1000;
        self.mem_area.add_area(phys_start, phys_start + size, ty, size);
    }

    /// Records a multiboot2 memory area from `start` to `end` of `size` bytes, of the
    /// kind `ty`.
    pub fn add_multiboot_memory_area(&mut self, start: u64, end: u64, size: u64, ty: MemoryType)
        ensures
            final(self).memory_areas() == old(self).memory_areas().push(
                MemoryArea { start_addr: start, end_addr: end, length: size, ty, acpi: 0 },
            ),
            final(self).kernel_area_count() == old(self).kernel_area_count(),
            final(self).spec_kernel_start() == old(self).spec_kernel_start(),
            final(self).spec_kernel_end() == old(self).spec_kernel_end(),
    {
        self.mem_area.add_area(start, end, ty, size);
    }
}

/// The lowest and the highest of the section addresses `addrs`; `None` where there is none.
pub fn address_bounds(addrs: &[u64]) -> (r: Option<(u64, u64)>)
    ensures
        r is None <==> addrs@.len() == 0,
        r matches Some(b) ==> {
            &&& addrs@.contains(b.0)
            &&& addrs@.contains(b.1)
            &&& forall|k: int| 0 <= k < addrs@.len() ==> b.0 <= #[trigger] addrs@[k] <= b.1
        },
{
    if addrs.len() == 0 {
        return None;
    }
    let mut lo = addrs[0];
    let mut hi = addrs[0];
    let mut i: usize = 1;
    while i < addrs.len()
        invariant
            1 <= i <= addrs@.len(),
            addrs@.contains(lo),
            addrs@.contains(hi),
            forall|k: int| 0 <= k < i ==> lo <= #[trigger] addrs@[k] <= hi,
        decreases addrs@.len() - i,
    {
        if addrs[i] < lo {
            lo = addrs[i];
        }
        if addrs[i] > hi {
            hi = addrs[i];
        }
        i = i + 1;
    }
    Some((lo, hi))
}

} // verus!
