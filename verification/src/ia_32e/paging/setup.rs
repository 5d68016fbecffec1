//! The identity mapping of the first 4 GiB that the kernel sets up before it turns paging on.
use crate::bits::{CR0Flags, CR4Flags, EferFlags, PageTableFlags};
use crate::ia_32e::cpu::control::{CR0, CR3, CR4};
use crate::ia_32e::cpu::msr::{merged_flags, Efer};
use crate::ia_32e::paging::{Frame, Page4KB};
use crate::ia_32e::PhysAddr;
use vstd::prelude::*;

verus! {

/// Where the kernel's first page tables go.
#[derive(Clone, Copy, Debug, PartialEq, Eq, Structural)]
pub struct PagingArgs {
    /// The level 4 table; the level 3 and 2 tables follow it, six pages in all.
    pub pml4t_base_addr: u64,
    /// The level 3 table the level 4 entries point to.
    pub pdpt_base_addr: u64,
    /// The four level 2 tables, 4 pages from here.
    pub pd_base_addr: u64,
}

/// A 64-bit write to memory.
#[derive(Clone, Copy, Debug, PartialEq, Eq, Structural)]
pub struct MemWrite {
    /// The address.
    pub addr: u64,
    /// The value.
    pub value: u64,
}

/// The table entry that points at the table at `addr`, writable and present.
pub open spec fn table_entry(addr: u64) -> u64 {
    addr | PageTableFlags::WRITABLE | PageTableFlags::PRESENT
}

/// The `i`th 2 MiB entry of the level 2 tables: huge, writable, present, mapping `i * 2 MiB`.
pub open spec fn huge_entry(i: int) -> int {
    0x83 + i * 0x200000
}

impl PagingArgs {
    /// The memory writes that fill the tables, after their six pages were cleared: level 4
    /// entries 0, 510 and 511 point at the level 3 table; level 3 entries 0 to 3 point at the
    /// four level 2 tables; the 2048 level 2 entries map the first 4 GiB in 2 MiB pages.
    pub fn table_writes(&self) -> (r: Vec<MemWrite>)
        requires
            self.pml4t_base_addr + 0x2000 + 2048 * 8 <= u64::MAX,
            self.pd_base_addr + 0x3000 <= u64::MAX,
        ensures
            r@.len() == 2055,
            r@[0] == (MemWrite { addr: self.pml4t_base_addr, value: table_entry(self.pdpt_base_addr) }),
            r@[1] == (MemWrite {
                addr: (self.pml4t_base_addr + 510 * 8) as u64,
                value: table_entry(self.pdpt_base_addr),
            }),
            r@[2] == (MemWrite {
                addr: (self.pml4t_base_addr + 511 * 8) as u64,
                value: table_entry(self.pdpt_base_addr),
            }),
            r@[3] == (MemWrite {
                addr: (self.pml4t_base_addr + 4096) as u64,
                value: table_entry(self.pd_base_addr),
            }),
            r@[4] == (MemWrite {
                addr: (self.pml4t_base_addr + 4096 + 8) as u64,
                value: table_entry((self.pd_base_addr + 0x1000) as u64),
            }),
            r@[5] == (MemWrite {
                addr: (self.pml4t_base_addr + 4096 + 16) as u64,
                value: table_entry((self.pd_base_addr + 0x2000) as u64),
            }),
            r@[6] == (MemWrite {
                addr: (self.pml4t_base_addr + 4096 + 24) as u64,
                value: table_entry((self.pd_base_addr + 0x3000) as u64),
            }),
            forall|i: int|
                0 <= i < 2048 ==> #[trigger] r@[7 + i] == (MemWrite {
                    addr: (self.pml4t_base_addr + 0x2000 + i * 8) as u64,
                    value: huge_entry(i) as u64,
                }),
    {
        let pml4t = self.pml4t_base_addr;
        let mut r: Vec<MemWrite> = Vec::new();
        let mut base = pml4t;
        let pdpt = self.pdpt_base_addr | PageTableFlags::WRITABLE | PageTableFlags::PRESENT;
        r.push(MemWrite { addr: base, value: pdpt });
        r.push(MemWrite { addr: base + 510 * 8, value: pdpt });
        r.push(MemWrite { addr: base + 511 * 8, value: pdpt });
        base = base + 4096;
        let pd = self.pd_base_addr;
        let pd1 = pd | PageTableFlags::WRITABLE | PageTableFlags::PRESENT;
        r.push(MemWrite { addr: base, value: pd1 });
        let pd2 = (pd + 0x1000) | PageTableFlags::WRITABLE | PageTableFlags::PRESENT;
        r.push(MemWrite { addr: base + 8, value: pd2 });
        let pd3 = (pd + 0x1000 * 2) | PageTableFlags::WRITABLE | PageTableFlags::PRESENT;
        r.push(MemWrite { addr: base + 16, value: pd3 });
        let pd4 = (pd + 0x1000 * 3) | PageTableFlags::WRITABLE | PageTableFlags::PRESENT;
        r.push(MemWrite { addr: base + 24, value: pd4 });
        base = base + 4096;
        let ghost prefix = r@;
        let mut entry: u64 = 0x83;
        let mut i: u64 = 0;
        while i < 4 * 512
            invariant
                i <= 2048,
                base == pml4t + 0x2000,
                pml4t == self.pml4t_base_addr,
                pml4t + 0x2000 + 2048 * 8 <= u64::MAX,
                entry == huge_entry(i as int),
                r@.len() == 7 + i,
                forall|j: int|
                    0 <= j < i ==> #[trigger] r@[7 + j] == (MemWrite {
                        addr: (pml4t + 0x2000 + j * 8) as u64,
                        value: huge_entry(j) as u64,
                    }),
                prefix.len() == 7,
                r@.subrange(0, 7) == prefix,
            decreases 2048 - i,
        {
            r.push(MemWrite { addr: base + i * 8, value: entry });
            entry = entry + 0x200000;
            i = i + 1;
        }
        assert(r@[0] == prefix[0] && r@[1] == prefix[1] && r@[2] == prefix[2] && r@[3] == prefix[3]
            && r@[4] == prefix[4] && r@[5] == prefix[5] && r@[6] == prefix[6]);
        r
    }

    /// The CR4 value that turns on OSXSAVE, global pages, physical address extension,
    /// OSFXSR and page size extension over the value `old`.
    pub fn cr4_value(old: u64) -> (r: u64)
        ensures
            r == merged_flags(
                old,
                CR4Flags::ALL,
                (old & CR4Flags::ALL) | CR4Flags::OSXSAVE | CR4Flags::PAGE_GLOBAL
                    | CR4Flags::PHYSICAL_ADDRESS_EXTENSION | CR4Flags::OSFXSR
                    | CR4Flags::PAGE_SIZE_EXTENSION,
            ),
    {
        let flags = CR4::read(old);
        let set = CR4Flags {
            bits: flags.bits | CR4Flags::OSXSAVE | CR4Flags::PAGE_GLOBAL
                | CR4Flags::PHYSICAL_ADDRESS_EXTENSION | CR4Flags::OSFXSR
                | CR4Flags::PAGE_SIZE_EXTENSION,
        };
        CR4::write(old, set)
    }

    /// The EFER value that turns on no-execute pages and long mode over the value `old`.
    pub fn efer_value(old: u64) -> (r: u64)
        ensures
            r == merged_flags(
                old,
                EferFlags::ALL,
                (old & EferFlags::ALL) | EferFlags::NO_EXECUTE_ENABLE | EferFlags::LONG_MODE_ENABLE,
            ),
    {
        let flags = Efer::read(old);
        let set = EferFlags {
            bits: flags.bits | EferFlags::NO_EXECUTE_ENABLE | EferFlags::LONG_MODE_ENABLE,
        };
        Efer::write(old, set)
    }

    /// The CR3 value that points at the level 4 table at `pml4t_base_addr` (4 KiB aligned),
    /// keeping the flags of the value `old`.
    pub fn cr3_value(&self, old: u64) -> (r: u64)
        requires
            self.pml4t_base_addr & 0xfff == 0,
            self.pml4t_base_addr >> 52u64 == 0,
        ensures
            r == self.pml4t_base_addr | (old & crate::bits::CR3Flags::ALL),
    {
        let (_, flags) = CR3::read(old);
        let frame = Frame::<Page4KB>::from_start_addr(PhysAddr::new(self.pml4t_base_addr));
        match frame {
            Ok(f) => CR3::write(f, flags),
            Err(_) => {
                proof {
                    assert(false);
                }
                0
            },
        }
    }

    /// The CR0 value that turns on paging, write protection and protected mode over the
    /// value `old`.
    pub fn cr0_value(old: u64) -> (r: u64)
        ensures
            r == merged_flags(
                old,
                CR0Flags::ALL,
                (old & CR0Flags::ALL) | CR0Flags::PAGING | CR0Flags::WRITE_PROTECT
                    | CR0Flags::PROTECTED_MODE_ENABLE,
            ),
    {
        let flags = CR0::read(old);
        let set = CR0Flags {
            bits: flags.bits | CR0Flags::PAGING | CR0Flags::WRITE_PROTECT
                | CR0Flags::PROTECTED_MODE_ENABLE,
        };
        CR0::write(old, set)
    }
}

} // verus!
