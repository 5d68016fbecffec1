//! Virtual and physical addresses of the IA-32e (x86_64) architecture.
//!
//! A virtual address is canonical when bits 48 to 63 copy bit 47. A physical address has
//! no bit set from bit 52 upward.
use crate::ia_32e::paging::page_ops::{PageIndex, PageOffset};
use vstd::prelude::*;

verus! {

/// Whether `addr` is canonical: bits 47 to 63 are all clear or all set.
pub open spec fn is_canonical(addr: u64) -> bool {
    addr >> 47u64 == 0 || addr >> 47u64 == 0x1ffff
}

/// `addr` with bits 48 to 63 overwritten by copies of bit 47.
pub open spec fn sign_extend(addr: u64) -> u64 {
    if addr & 0x8000_0000_0000u64 != 0 {
        addr | 0xffff_0000_0000_0000u64
    } else {
        addr & 0x0000_ffff_ffff_ffffu64
    }
}

/// Whether `align` is a power of two (a single set bit).
pub open spec fn is_align(align: u64) -> bool {
    align > 0 && align & ((align - 1) as u64) == 0
}

/// Whether `r` is `addr` rounded down to a multiple of `align` (a power of two): the
/// multiple of `align` at most `addr` and less than `align` below it.
pub open spec fn is_align_down(addr: u64, align: u64, r: u64) -> bool {
    &&& r & ((align - 1) as u64) == 0
    &&& r <= addr
    &&& addr - r < align
    &&& (r == addr) == (addr & ((align - 1) as u64) == 0)
}

/// Whether rounding `addr` up to a multiple of `align` stays within `u64`.
pub open spec fn align_up_fits(addr: u64, align: u64) -> bool {
    addr & ((align - 1) as u64) == 0 || (addr | ((align - 1) as u64)) < u64::MAX
}

/// Align `addr` downwards to a multiple of `align`, a power of two.
pub fn align_down(addr: u64, align: u64) -> (r: u64)
    requires
        is_align(align),
    ensures
        is_align_down(addr, align, r),
{
    let m = align - 1;
    proof {
        assert((addr & !m) & m == 0 && (addr & !m) <= addr && addr - (addr & !m) < align && ((
        addr & !m) == addr) == (addr & m == 0)) by (bit_vector)
            requires
                align > 0,
                m == align - 1,
                align & m == 0,
        ;
    }
    addr & !m
}

/// Align `addr` upwards to a multiple of `align`, a power of two.
pub fn align_up(addr: u64, align: u64) -> (r: u64)
    requires
        is_align(align),
        align_up_fits(addr, align),
    ensures
        r & ((align - 1) as u64) == 0,
        addr <= r,
        r - addr < align,
{
    let mask = align - 1;
    if addr & mask == 0 {
        addr
    } else {
        let r = (addr | mask) + 1;
        proof {
            assert(r & mask == 0 && addr <= r && r - addr < align) by (bit_vector)
                requires
                    align > 0,
                    mask == align - 1,
                    align & mask == 0,
                    addr & mask != 0,
                    r == (addr | mask) + 1,
            ;
        }
        r
    }
}

/// The fields that select table entries and the page offset fit their widths.
pub proof fn lemma_index_bounds(a: u64)
    ensures
        a & 0xfff < 4096,
        (a >> 12u64) & 0o777 < 512,
        (a >> 21u64) & 0o777 < 512,
        (a >> 30u64) & 0o777 < 512,
        (a >> 39u64) & 0o777 < 512,
{
    assert(a & 0xfff < 4096 && (a >> 12u64) & 0o777 < 512 && (a >> 21u64) & 0o777 < 512 && (a
        >> 30u64) & 0o777 < 512 && (a >> 39u64) & 0o777 < 512) by (bit_vector);
}

/// Virtual address of the IA-32e linear address space.
#[derive(Clone, Copy, PartialEq, Eq, Structural)]
pub struct VirtAddr(u64);

/// The address was not canonical; holds bits 47 to 63 of it.
#[derive(Clone, Copy, PartialEq, Eq, Structural, Debug)]
pub struct NoCanonicalAddr(pub u64);

impl View for VirtAddr {
    type V = u64;

    closed spec fn view(&self) -> u64 {
        self.0
    }
}

impl VirtAddr {
    /// Create a virtual address, overwriting bits 48 to 63 with copies of bit 47.
    pub fn new_unchecked(addr: u64) -> (r: VirtAddr)
        ensures
            r@ == sign_extend(addr),
            is_canonical(r@),
    {
        proof {
            assert(is_canonical(sign_extend(addr))) by (bit_vector);
        }
        if addr & 0x8000_0000_0000u64 != 0 {
            VirtAddr(addr | 0xffff_0000_0000_0000u64)
        } else {
            VirtAddr(addr & 0x0000_ffff_ffff_ffffu64)
        }
    }

    /// Try to create a canonical address: succeeds where bits 48 to 63 copy bit 47 or are all
    /// clear (the address is then sign-extended); otherwise returns bits 47 to 63.
    pub fn try_new(addr: u64) -> (r: Result<VirtAddr, NoCanonicalAddr>)
        ensures
            r is Ok <==> (addr >> 47u64 == 0 || addr >> 47u64 == 1 || addr >> 47u64 == 0x1ffff),
            r matches Ok(v) ==> v@ == sign_extend(addr) && is_canonical(v@),
            r matches Err(e) ==> e.0 == addr >> 47u64,
    {
        let top = addr >> 47u64;
        proof {
            assert(addr >> 47u64 == 0 ==> sign_extend(addr) == addr) by (bit_vector);
            assert(addr >> 47u64 == 0x1ffff ==> sign_extend(addr) == addr) by (bit_vector);
        }
        if top == 0 || top == 0x1ffff {
            Ok(VirtAddr(addr))
        } else if top == 1 {
            Ok(VirtAddr::new_unchecked(addr))
        } else {
            Err(NoCanonicalAddr(top))
        }
    }

    /// Create a virtual address from a raw address whose bits 48 to 63 are empty or copy
    /// bit 47.
    pub fn new(addr: u64) -> (r: VirtAddr)
        requires
            addr >> 47u64 == 0 || addr >> 47u64 == 1 || addr >> 47u64 == 0x1ffff,
        ensures
            r@ == sign_extend(addr),
            is_canonical(r@),
    {
        match Self::try_new(addr) {
            Ok(v) => v,
            Err(_) => VirtAddr(0),
        }
    }

    /// The address zero.
    pub fn zero() -> (r: VirtAddr)
        ensures
            r@ == 0,
    {
        VirtAddr(0)
    }

    /// The raw address.
    pub fn as_u64(&self) -> (r: u64)
        ensures
            r == self@,
    {
        self.0
    }

    /// Bits 0 to 11: the offset inside a 4 KiB page.
    pub fn page_offset(&self) -> (r: PageOffset)
        ensures
            r@ == self@ & 0xfff,
    {
        proof {
            lemma_index_bounds(self.0);
        }
        PageOffset::new((self.0 & 0xfff) as u16)
    }

    /// Bits 12 to 20: the index into the level 1 table.
    pub fn page1_index(&self) -> (r: PageIndex)
        ensures
            r@ == (self@ >> 12u64) & 0o777,
    {
        proof {
            lemma_index_bounds(self.0);
        }
        PageIndex::new(((self.0 >> 12u64) & 0o777) as u16)
    }

    /// Bits 21 to 29: the index into the level 2 table.
    pub fn page2_index(&self) -> (r: PageIndex)
        ensures
            r@ == (self@ >> 21u64) & 0o777,
    {
        proof {
            lemma_index_bounds(self.0);
        }
        PageIndex::new(((self.0 >> 21u64) & 0o777) as u16)
    }

    /// Bits 30 to 38: the index into the level 3 table.
    pub fn page3_index(&self) -> (r: PageIndex)
        ensures
            r@ == (self@ >> 30u64) & 0o777,
    {
        proof {
            lemma_index_bounds(self.0);
        }
        PageIndex::new(((self.0 >> 30u64) & 0o777) as u16)
    }

    /// Bits 39 to 47: the index into the level 4 table.
    pub fn page4_index(&self) -> (r: PageIndex)
        ensures
            r@ == (self@ >> 39u64) & 0o777,
    {
        proof {
            lemma_index_bounds(self.0);
        }
        PageIndex::new(((self.0 >> 39u64) & 0o777) as u16)
    }

    /// Align the address upwards to a multiple of `align`, a power of two.
    pub fn align_up(self, align: u64) -> (r: Self)
        requires
            is_align(align),
            align_up_fits(self@, align),
        ensures
            r@ & ((align - 1) as u64) == 0,
            self@ <= r@,
            r@ - self@ < align,
    {
        VirtAddr(align_up(self.0, align))
    }

    /// Align the address downwards to a multiple of `align`, a power of two.
    pub fn align_down(self, align: u64) -> (r: Self)
        requires
            is_align(align),
        ensures
            is_align_down(self@, align, r@),
    {
        VirtAddr(align_down(self.0, align))
    }

    /// Whether the address is a multiple of `align`, a power of two.
    pub fn is_aligned(self, align: u64) -> (r: bool)
        requires
            is_align(align),
        ensures
            r == (self@ & ((align - 1) as u64) == 0),
    {
        self.align_down(align).0 == self.0
    }

    /// The address `rhs` bytes further on, which must be canonical.
    pub fn add_offset(self, rhs: u64) -> (r: Self)
        requires
            self@ + rhs <= u64::MAX,
            (self@ + rhs) as u64 >> 47u64 == 0 || (self@ + rhs) as u64 >> 47u64 == 1 || (self@
                + rhs) as u64 >> 47u64 == 0x1ffff,
        ensures
            r@ == sign_extend((self@ + rhs) as u64),
    {
        VirtAddr::new(self.0 + rhs)
    }

    /// The address `rhs` bytes earlier, which must be canonical.
    pub fn sub_offset(self, rhs: u64) -> (r: Self)
        requires
            self@ >= rhs,
            (self@ - rhs) as u64 >> 47u64 == 0 || (self@ - rhs) as u64 >> 47u64 == 1 || (self@
                - rhs) as u64 >> 47u64 == 0x1ffff,
        ensures
            r@ == sign_extend((self@ - rhs) as u64),
    {
        VirtAddr::new(self.0 - rhs)
    }

    /// The number of bytes from `rhs` up to `self`.
    pub fn distance(self, rhs: VirtAddr) -> (r: u64)
        requires
            self@ >= rhs@,
        ensures
            r == self@ - rhs@,
    {
        self.0 - rhs.0
    }
}

/// Physical address of at most 52 bits.
#[derive(Clone, Copy, PartialEq, Eq, Structural)]
pub struct PhysAddr(u64);

/// The address had a bit set from bit 52 upward; holds bits 52 to 63 of it.
#[derive(Clone, Copy, PartialEq, Eq, Structural, Debug)]
pub struct NoInvalidPhysAddr(pub u64);

impl View for PhysAddr {
    type V = u64;

    closed spec fn view(&self) -> u64 {
        self.0
    }
}

/// Whether `addr` is a valid physical address: no bit set from bit 52 upward.
pub open spec fn is_phys(addr: u64) -> bool {
    addr >> 52u64 == 0
}

impl PhysAddr {
    /// Create a physical address from a raw address with no bit set from bit 52 upward.
    pub fn new(addr: u64) -> (r: PhysAddr)
        requires
            is_phys(addr),
        ensures
            r@ == addr,
    {
        PhysAddr(addr)
    }

    /// Create a physical address, or return bits 52 to 63 where one of them is set.
    pub fn try_new(addr: u64) -> (r: Result<PhysAddr, NoInvalidPhysAddr>)
        ensures
            r is Ok <==> is_phys(addr),
            r matches Ok(p) ==> p@ == addr,
            r matches Err(e) ==> e.0 == addr >> 52u64,
    {
        let top = addr >> 52u64;
        if top == 0 {
            Ok(PhysAddr(addr))
        } else {
            Err(NoInvalidPhysAddr(top))
        }
    }

    /// The raw address.
    pub fn as_u64(self) -> (r: u64)
        ensures
            r == self@,
    {
        self.0
    }

    /// Whether this is the zero address.
    pub fn is_null(&self) -> (r: bool)
        ensures
            r == (self@ == 0),
    {
        self.0 == 0
    }

    /// Align the address upwards to a multiple of `align`, a power of two.
    pub fn align_up(self, align: u64) -> (r: Self)
        requires
            is_align(align),
            align_up_fits(self@, align),
        ensures
            r@ & ((align - 1) as u64) == 0,
            self@ <= r@,
            r@ - self@ < align,
    {
        PhysAddr(align_up(self.0, align))
    }

    /// Align the address downwards to a multiple of `align`, a power of two.
    pub fn align_down(self, align: u64) -> (r: Self)
        requires
            is_align(align),
        ensures
            is_align_down(self@, align, r@),
    {
        PhysAddr(align_down(self.0, align))
    }

    /// Whether the address is a multiple of `align`, a power of two.
    pub fn is_aligned(self, align: u64) -> (r: bool)
        requires
            is_align(align),
        ensures
            r == (self@ & ((align - 1) as u64) == 0),
    {
        self.align_down(align).0 == self.0
    }

    /// The address `rhs` bytes further on, which must be a valid physical address.
    pub fn add_offset(self, rhs: u64) -> (r: Self)
        requires
            self@ + rhs <= u64::MAX,
            is_phys((self@ + rhs) as u64),
        ensures
            r@ == self@ + rhs,
    {
        PhysAddr::new(self.0 + rhs)
    }

    /// The address `rhs` bytes earlier.
    pub fn sub_offset(self, rhs: u64) -> (r: Self)
        requires
            self@ >= rhs,
            is_phys((self@ - rhs) as u64),
        ensures
            r@ == self@ - rhs,
    {
        PhysAddr::new(self.0 - rhs)
    }

    /// The number of bytes from `rhs` up to `self`.
    pub fn distance(self, rhs: PhysAddr) -> (r: u64)
        requires
            self@ >= rhs@,
        ensures
            r == self@ - rhs@,
    {
        self.0 - rhs.0
    }
}

} // verus!
