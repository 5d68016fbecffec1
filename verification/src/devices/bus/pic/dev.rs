//! Addresses of PCI buses, devices and functions in configuration space.
use vstd::prelude::*;

verus! {

/// The address of a configuration space dword: bus, slot, function and register offset.
#[derive(Copy, Clone, Eq, PartialEq, Structural, Debug)]
pub struct DeviceAddress {
    bus: u8,
    slots: u8,
    func: u8,
    offset: u8,
}

impl DeviceAddress {
    /// The bus number.
    pub closed spec fn bus(&self) -> u8 {
        self.bus
    }

    /// The slot number.
    pub closed spec fn slots(&self) -> u8 {
        self.slots
    }

    /// The function number.
    pub closed spec fn func(&self) -> u8 {
        self.func
    }

    /// The register offset.
    pub closed spec fn offset(&self) -> u8 {
        self.offset
    }

    /// The address of register `offset` of function `func` of slot `slots` on bus `bus`.
    pub fn new(bus: u8, slots: u8, func: u8, offset: u8) -> (r: Self)
        ensures
            r.bus() == bus,
            r.slots() == slots,
            r.func() == func,
            r.offset() == offset,
    {
        Self { bus, slots, func, offset }
    }

    /// The value for the CONFIG_ADDRESS port: the enable bit 31, the bus in bits 16 to 23,
    /// the slot from bit 11, the function from bit 8 and the offset in bits 0 to 7.
    pub fn address(&self) -> (r: u32)
        ensures
            r == spec_address(self.bus(), self.slots(), self.func(), self.offset()),
    {
        0x80000000u32 | ((self.bus as u32) << 16u32) | ((self.slots as u32) << 11u32) | ((
        self.func as u32) << 8u32) | (self.offset as u32)
    }
}

/// The CONFIG_ADDRESS value of a configuration space dword.
pub open spec fn spec_address(bus: u8, slots: u8, func: u8, offset: u8) -> u32 {
    0x80000000u32 | ((bus as u32) << 16u32) | ((slots as u32) << 11u32) | ((func as u32)
        << 8u32) | (offset as u32)
}

/// For a slot below 32 and a function below 8, the CONFIG_ADDRESS value holds each field
/// where it can be read back.
pub proof fn law_address_fields(bus: u8, slots: u8, func: u8, offset: u8)
    requires
        slots < 32,
        func < 8,
    ensures
        (spec_address(bus, slots, func, offset) >> 16u32) & 0xff == bus,
        (spec_address(bus, slots, func, offset) >> 11u32) & 0x1f == slots,
        (spec_address(bus, slots, func, offset) >> 8u32) & 0x7 == func,
        spec_address(bus, slots, func, offset) & 0xff == offset,
        spec_address(bus, slots, func, offset) >> 31u32 == 1,
{
    let b = bus as u32;
    let s = slots as u32;
    let f = func as u32;
    let o = offset as u32;
    assert({
        let a = 0x80000000u32 | (b << 16u32) | (s << 11u32) | (f << 8u32) | o;
        &&& (a >> 16u32) & 0xff == b
        &&& (a >> 11u32) & 0x1f == s
        &&& (a >> 8u32) & 0x7 == f
        &&& a & 0xff == o
        &&& a >> 31u32 == 1
    }) by (bit_vector)
        requires
            b < 256,
            s < 32,
            f < 8,
            o < 256,
    ;
}

/// The PCI configuration mechanism.
pub struct Pic;

impl Pic {
    /// The configuration mechanism.
    pub fn new() -> Self {
        Pic
    }

    /// The buses, from 0 to 254.
    pub fn bus_iter(&self) -> (r: PicIter)
        ensures
            r.num == 0,
    {
        PicIter::new()
    }
}

/// The buses of the configuration mechanism, from 0 to 254.
pub struct PicIter {
    pub num: u32,
}

impl PicIter {
    /// The buses from bus 0 on.
    pub fn new() -> (r: Self)
        ensures
            r.num == 0,
    {
        Self { num: 0 }
    }

    /// The next bus, or `None` after bus 254.
    pub fn next(&mut self) -> (r: Option<PicBus>)
        ensures
            old(self).num < 255 ==> (r matches Some(b) && b.num == old(self).num)
                && final(self).num == old(self).num + 1,
            old(self).num >= 255 ==> r is None && final(self).num == old(self).num,
    {
        if self.num < 255 {
            let bus = PicBus { num: self.num as u8 };
            self.num = self.num + 1;
            Some(bus)
        } else {
            None
        }
    }
}

/// A PCI bus.
#[derive(Copy, Clone, Eq, PartialEq, Structural, Debug)]
pub struct PicBus {
    pub num: u8,
}

impl PicBus {
    /// The slots of the bus, from 0 to 31.
    pub fn devices(&self) -> (r: PicBusIter)
        ensures
            r.bus == self.num,
            r.num == 0,
    {
        PicBusIter::new(self)
    }

    /// The address of register `offset` of function `func_no` of slot `slots` on this bus.
    pub fn address(&self, slots: u8, func_no: u8, offset: u8) -> (r: DeviceAddress)
        ensures
            r == DeviceAddress::new_spec(self.num, slots, func_no, offset),
    {
        DeviceAddress::new(self.num, slots, func_no, offset)
    }
}

impl DeviceAddress {
    /// The address of register `offset` of function `func` of slot `slots` on bus `bus`.
    pub closed spec fn new_spec(bus: u8, slots: u8, func: u8, offset: u8) -> Self {
        DeviceAddress { bus, slots, func, offset }
    }
}

/// The slots of a bus, from 0 to 31.
pub struct PicBusIter {
    pub bus: u8,
    pub num: u32,
}

impl PicBusIter {
    /// The slots of `pic` from slot 0 on.
    pub fn new(pic: &PicBus) -> (r: Self)
        ensures
            r.bus == pic.num,
            r.num == 0,
    {
        Self { bus: pic.num, num: 0 }
    }

    /// The next slot, or `None` after slot 31.
    pub fn next(&mut self) -> (r: Option<PicDev>)
        ensures
            old(self).num < 32 ==> (r matches Some(d) && d.bus == old(self).bus && d.num
                == old(self).num) && final(self).num == old(self).num + 1,
            old(self).num >= 32 ==> r is None && final(self).num == old(self).num,
            final(self).bus == old(self).bus,
    {
        if self.num < 32 {
            let dev = PicDev { bus: self.bus, num: self.num as u8 };
            self.num = self.num + 1;
            Some(dev)
        } else {
            None
        }
    }
}

/// A slot of a PCI bus.
#[derive(Copy, Clone, Eq, PartialEq, Structural, Debug)]
pub struct PicDev {
    pub bus: u8,
    pub num: u8,
}

impl PicDev {
    /// The functions of the slot, from 0 to 7.
    pub fn funcs(&self) -> (r: PicDevIter)
        ensures
            r.bus == self.bus,
            r.dev == self.num,
            r.num == 0,
    {
        PicDevIter::new(self)
    }

    /// The address of register `offset` of function `func_no` of this slot.
    pub fn address(&self, func_no: u8, offset: u8) -> (r: DeviceAddress)
        ensures
            r == DeviceAddress::new_spec(self.bus, self.num, func_no, offset),
    {
        (PicBus { num: self.bus }).address(self.num, func_no, offset)
    }
}

/// The functions of a slot, from 0 to 7.
pub struct PicDevIter {
    pub bus: u8,
    pub dev: u8,
    pub num: u32,
}

impl PicDevIter {
    /// The functions of `dev` from function 0 on.
    pub fn new(dev: &PicDev) -> (r: Self)
        ensures
            r.bus == dev.bus,
            r.dev == dev.num,
            r.num == 0,
    {
        Self { bus: dev.bus, dev: dev.num, num: 0 }
    }

    /// The next function, or `None` after function 7.
    pub fn next(&mut self) -> (r: Option<PicFunc>)
        ensures
            old(self).num < 8 ==> (r matches Some(f) && f.bus == old(self).bus && f.dev
                == old(self).dev && f.num == old(self).num) && final(self).num == old(self).num + 1,
            old(self).num >= 8 ==> r is None && final(self).num == old(self).num,
            final(self).bus == old(self).bus,
            final(self).dev == old(self).dev,
    {
        if self.num < 8 {
            let func = PicFunc { bus: self.bus, dev: self.dev, num: self.num as u8 };
            self.num = self.num + 1;
            Some(func)
        } else {
            None
        }
    }
}

/// A function of a slot.
#[derive(Copy, Clone, Eq, PartialEq, Structural, Debug)]
pub struct PicFunc {
    pub bus: u8,
    pub dev: u8,
    pub num: u8,
}

impl PicFunc {
    /// The address of register `offset` of this function.
    pub fn address(&self, offset: u8) -> (r: DeviceAddress)
        ensures
            r == DeviceAddress::new_spec(self.bus, self.dev, self.num, offset),
    {
        (PicDev { bus: self.bus, num: self.dev }).address(self.num, offset)
    }
}

} // verus!
