//! The memory map: typed areas of physical memory.
use vstd::prelude::*;

verus! {

/// The kind of a memory area.
#[derive(Clone, Copy, Debug, PartialEq, Eq, Structural)]
pub enum MemoryType {
    EmptyArea,
    FreeArea,
    UsedArea,
    ReservedArea,
    ACPIArea,
    ACPIReservedArea,
    ReservedHibernate,
    Defective,
    UefiRunTimeCode,
    UefiRunTimeData,
    MMIO,
    MMIOPortArea,
    ErrorArea,
}

impl Default for MemoryType {
    fn default() -> (r: Self)
        ensures
            r == MemoryType::EmptyArea,
    {
        MemoryType::EmptyArea
    }
}

/// An area of the memory map.
#[derive(Clone, Copy, Debug, PartialEq, Eq, Structural)]
pub struct MemoryArea {
    /// The first address of the area.
    pub start_addr: u64,
    /// The end address of the area.
    pub end_addr: u64,
    /// The length of the area in bytes.
    pub length: u64,
    /// The kind of the area.
    pub ty: MemoryType,
    /// The ACPI attributes of the area.
    pub acpi: u32,
}

impl Default for MemoryArea {
    fn default() -> (r: Self)
        ensures
            r == (MemoryArea {
                start_addr: 0,
                end_addr: 0,
                length: 0,
                ty: MemoryType::EmptyArea,
                acpi: 0,
            }),
    {
        MemoryArea { start_addr: 0, end_addr: 0, length: 0, ty: MemoryType::EmptyArea, acpi: 0 }
    }
}

impl MemoryArea {
    /// The area from `start_addr` to `end_addr` of kind `ty` and length `len`, with no ACPI
    /// attributes.
    pub fn new(start_addr: u64, end_addr: u64, ty: MemoryType, len: u64) -> (r: Self)
        ensures
            r == (MemoryArea { start_addr, end_addr, length: len, ty, acpi: 0 }),
    {
        Self { start_addr, end_addr, ty, length: len, acpi: 0 }
    }

    /// The length of the area.
    pub fn size(&self) -> (r: u64)
        ensures
            r == self.length,
    {
        self.length
    }

    /// The first address of the area.
    pub fn start_address(&self) -> (r: u64)
        ensures
            r == self.start_addr,
    {
        self.start_addr
    }
}

/// The areas of the memory map, in the order they were added.
pub struct MemorySpace {
    space: Vec<MemoryArea>,
}

impl MemorySpace {
    /// The areas, in the order they were added.
    pub closed spec fn areas(&self) -> Seq<MemoryArea> {
        self.space@
    }

    /// The map with no area.
    pub fn new() -> (r: Self)
        ensures
            r.areas() == Seq::<MemoryArea>::empty(),
    {
        Self { space: Vec::new() }
    }

    /// The areas, in the order they were added.
    pub fn iter(&self) -> (r: &[MemoryArea])
        ensures
            r@ == self.areas(),
    {
        self.space.as_slice()
    }

    /// Adds the area from `start_addr` to `end_addr` of kind `ty` and length `len`.
    pub fn add_area(&mut self, start_addr: u64, end_addr: u64, ty: MemoryType, len: u64)
        ensures
            final(self).areas() == old(self).areas().push(
                MemoryArea { start_addr, end_addr, length: len, ty, acpi: 0 },
            ),
    {
        self.space.push(MemoryArea::new(start_addr, end_addr, ty, len))
    }
}

/// A walk over the areas of one kind of a memory map.
#[derive(Clone, Copy, Debug, PartialEq, Eq, Structural)]
pub struct MemoryAreaIter {
    /// The kind of area the walk gives.
    pub ty: MemoryType,
    /// The position of the next area to look at.
    pub index: usize,
}

impl MemoryAreaIter {
    /// The walk over the areas of kind `ty`, from the first area on.
    pub fn new(ty: MemoryType) -> (r: Self)
        ensures
            r.ty == ty,
            r.index == 0,
    {
        Self { ty, index: 0 }
    }

    /// The next area of `areas` of the walk's kind, from the walk's position on; the walk
    /// moves past it, or to the end where there is none.
    pub fn next(&mut self, areas: &[MemoryArea]) -> (r: Option<MemoryArea>)
        ensures
            final(self).ty == old(self).ty,
            match r {
                Some(area) => {
                    &&& old(self).index < final(self).index <= areas@.len()
                    &&& area == areas@[final(self).index - 1]
                    &&& area.ty == old(self).ty
                    &&& forall|j: int|
                        old(self).index <= j < final(self).index - 1 ==> areas@[j].ty != old(
                            self,
                        ).ty
                },
                None => {
                    &&& final(self).index == if old(self).index <= areas@.len() {
                        areas@.len() as usize
                    } else {
                        old(self).index
                    }
                    &&& forall|j: int|
                        old(self).index <= j < areas@.len() ==> areas@[j].ty != old(self).ty
                },
            },
    {
        let ty = self.ty;
        let mut index = self.index;
        while index < areas.len()
            invariant
                ty == old(self).ty,
                *self == *old(self),
                old(self).index <= index,
                old(self).index <= areas@.len() ==> index <= areas@.len(),
                old(self).index > areas@.len() ==> index == old(self).index,
                forall|j: int| old(self).index <= j < index ==> areas@[j].ty != ty,
            decreases areas@.len() - index,
        {
            let entry = areas[index];
            index = index + 1;
            if ty == entry.ty {
                self.index = index;
                return Some(entry);
            }
        }
        self.index = index;
        None
    }
}

} // verus!
