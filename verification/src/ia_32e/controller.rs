//! The interrupt controller the kernel drives: the 8259A chips, the xAPIC, or the x2APIC
//! with an I/O APIC.
use crate::ia_32e::cpu::ChainedPics;
use crate::ia_32e::x2apic::io_apic::IoApic;
use crate::ia_32e::x2apic::register::LocalApicRegisters;
use crate::ia_32e::xapic::xApic;
use core::marker::PhantomData;
use vstd::prelude::*;
use vstd::string::StringExecFns;

verus! {

/// A kind of interrupt controller.
pub trait ControllerType {
    /// The name of the controller kind.
    spec fn spec_name() -> Seq<char>;

    /// The name of the controller kind.
    fn display_str() -> (r: &'static str)
        ensures
            r@ == Self::spec_name(),
    ;
}

/// The local APIC in xAPIC mode.
pub struct XPAIC(pub xApic);

/// The local x2APIC with an I/O APIC.
pub struct X2APIC(pub LocalApicRegisters, pub IoApic);

/// The two cascaded 8259A chips.
pub struct PIC(pub ChainedPics);

impl ControllerType for XPAIC {
    open spec fn spec_name() -> Seq<char> {
        "xapic"@
    }

    fn display_str() -> (r: &'static str) {
        "xapic"
    }
}

impl ControllerType for X2APIC {
    open spec fn spec_name() -> Seq<char> {
        "x2apic"@
    }

    fn display_str() -> (r: &'static str) {
        "x2apic"
    }
}

impl ControllerType for PIC {
    open spec fn spec_name() -> Seq<char> {
        "8259A"@
    }

    fn display_str() -> (r: &'static str) {
        "8259A"
    }
}

/// The parts of an interrupt controller of kind `T` that are set up.
pub struct ProgrammableController<T: ControllerType> {
    /// The local x2APIC.
    pub local_apic: Option<LocalApicRegisters>,
    /// The I/O APIC.
    pub io_apic: Option<IoApic>,
    /// The local APIC in xAPIC mode.
    pub xapic: Option<xApic>,
    /// The 8259A chips.
    pub pic: Option<ChainedPics>,
    /// The kind of controller.
    pub _mark: PhantomData<T>,
}

impl<T: ControllerType> ProgrammableController<T> {
    /// The name of the controller kind.
    pub fn name() -> (r: &'static str)
        ensures
            r@ == T::spec_name(),
    {
        T::display_str()
    }

    /// The controller with no part set up.
    pub fn empty() -> (r: Self)
        ensures
            r.local_apic is None,
            r.io_apic is None,
            r.xapic is None,
            r.pic is None,
    {
        Self { local_apic: None, io_apic: None, xapic: None, pic: None, _mark: PhantomData }
    }

    /// Sets up the 8259A chips.
    pub fn set_pic(&mut self, args: ChainedPics)
        ensures
            final(self).pic == Some(args),
            final(self).local_apic == old(self).local_apic,
            final(self).io_apic == old(self).io_apic,
            final(self).xapic == old(self).xapic,
    {
        self.pic = Some(args)
    }

    /// Sets up the local APIC in xAPIC mode.
    pub fn set_xapic(&mut self, args: xApic)
        ensures
            final(self).xapic == Some(args),
            final(self).local_apic == old(self).local_apic,
            final(self).io_apic == old(self).io_apic,
            final(self).pic == old(self).pic,
    {
        self.xapic = Some(args)
    }

    /// Sets up the I/O APIC.
    pub fn set_io_apic(&mut self, args: IoApic)
        ensures
            final(self).io_apic == Some(args),
            final(self).local_apic == old(self).local_apic,
            final(self).xapic == old(self).xapic,
            final(self).pic == old(self).pic,
    {
        self.io_apic = Some(args)
    }

    /// Sets up the local x2APIC.
    pub fn set_local_apic(&mut self, args: LocalApicRegisters)
        ensures
            final(self).local_apic == Some(args),
            final(self).io_apic == old(self).io_apic,
            final(self).xapic == old(self).xapic,
            final(self).pic == old(self).pic,
    {
        self.local_apic = Some(args)
    }
}

impl ProgrammableController<X2APIC> {
    /// The controller of the x2APIC and the I/O APIC of `t`.
    pub fn new(t: X2APIC) -> (r: Self)
        ensures
            r.local_apic == Some(t.0),
            r.io_apic == Some(t.1),
            r.xapic is None,
            r.pic is None,
    {
        Self { local_apic: Some(t.0), io_apic: Some(t.1), xapic: None, pic: None, _mark: PhantomData }
    }
}

impl ProgrammableController<PIC> {
    /// The controller of the 8259A chips of `t`.
    pub fn new(t: PIC) -> (r: Self)
        ensures
            r.pic == Some(t.0),
            r.local_apic is None,
            r.io_apic is None,
            r.xapic is None,
    {
        Self { local_apic: None, io_apic: None, xapic: None, pic: Some(t.0), _mark: PhantomData }
    }

    /// The version text of the 8259A chips.
    pub fn version(&self) -> (r: String)
        ensures
            r@ == "8259A"@,
    {
        String::from_str("8259A")
    }
}

impl ProgrammableController<XPAIC> {
    /// The controller of the xAPIC of `t`.
    pub fn new(t: XPAIC) -> (r: Self)
        ensures
            r.xapic == Some(t.0),
            r.local_apic is None,
            r.io_apic is None,
            r.pic is None,
    {
        Self { local_apic: None, io_apic: None, xapic: Some(t.0), pic: None, _mark: PhantomData }
    }
}

} // verus!
