//! The local APIC in xAPIC or x2APIC mode.
pub mod lvt;

use crate::ia_32e::cpu::msr::{IA32_APIC_BASE, IA32_X2APIC_SIVR};
use raw_cpuid::CpuId;
use vstd::prelude::*;

verus! {

/// `raw_cpuid`'s `CpuId::new().get_feature_info()` and `FeatureInfo::has_x2apic`: whether
/// the processor this runs on reports x2APIC support (CPUID leaf 1, ECX bit 21), or `None`
/// where it does not report its features. The answer depends on the machine, so nothing is
/// stated of it.
#[verifier::external_body]
fn cpu_has_x2apic() -> (r: Option<bool>) {
    match CpuId::new().get_feature_info() {
        Some(info) => Some(info.has_x2apic()),
        None => None,
    }
}

/// A write of a 64-bit value to a model specific register.
#[derive(Clone, Copy, Debug, PartialEq, Eq, Structural)]
pub struct MsrValue {
    /// The register.
    pub msr: u32,
    /// The value.
    pub value: u64,
}

/// The local APIC: the address of its registers (the APIC base register's value) and
/// whether it runs in x2APIC mode.
#[derive(Clone, Copy, Debug, PartialEq, Eq, Structural)]
pub struct LocalAPIC {
    /// The value of the APIC base register.
    pub address: usize,
    /// Whether the processor supports the x2APIC mode.
    pub x2apic: bool,
}

impl LocalAPIC {
    /// The local APIC whose base register reads `msr_addr`, in x2APIC mode where the
    /// processor reports x2APIC support; `None` where it does not report its features.
    pub fn init(msr_addr: u64) -> (r: Option<Self>)
        ensures
            r matches Some(apic) ==> apic.address == msr_addr as usize,
    {
        match cpu_has_x2apic() {
            Some(has_x2) => Some(LocalAPIC { address: msr_addr as usize, x2apic: has_x2 }),
            None => None,
        }
    }

    /// The register writes that enable an application processor's local APIC: in x2APIC
    /// mode, the base register (which reads `apic_base`) with bit 10 set and then the
    /// spurious vector register with 0x100; otherwise the register 0xF0 with 0x100.
    pub fn init_ap(&self, apic_base: u64) -> (r: Vec<MsrValue>)
        ensures
            r@ == if self.x2apic {
                seq![
                    MsrValue { msr: IA32_APIC_BASE, value: apic_base | 0x400 },
                    MsrValue { msr: IA32_X2APIC_SIVR, value: 0x100 },
                ]
            } else {
                seq![MsrValue { msr: 0xF0, value: 0x100 }]
            },
    {
        let mut r: Vec<MsrValue> = Vec::new();
        if self.x2apic {
            r.push(MsrValue { msr: IA32_APIC_BASE, value: apic_base | 0x400 });
            r.push(MsrValue { msr: IA32_X2APIC_SIVR, value: 0x100 });
        } else {
            r.push(MsrValue { msr: 0xF0, value: 0x100 });
        }
        r
    }

    /// The interrupt command that sends an inter-processor interrupt (vector 0x40, level
    /// assert) to the APIC `apic_id`: the destination in bits 32 to 63 in x2APIC mode and
    /// in bits 56 to 63 otherwise.
    pub fn ipi(&self, apic_id: usize) -> (r: u64)
        ensures
            r == if self.x2apic {
                0x4040u64 | ((apic_id as u64) << 32u64)
            } else {
                0x4040u64 | ((apic_id as u64) << 56u64)
            },
    {
        let mut icr: u64 = 0x4040;
        if self.x2apic {
            icr = icr | ((apic_id as u64) << 32u64);
        } else {
            icr = icr | ((apic_id as u64) << 56u64);
        }
        icr
    }
}

/// The local APIC version register: the version in bits 0 to 7, the number of local
/// vector table entries less one in bits 16 to 23.
#[derive(Clone, Copy, Debug, PartialEq, Eq, Structural)]
pub struct LocalAPICInfo {
    /// The version: bits 0 to 7.
    pub vendor: u8,
    /// Reserved: bits 8 to 15.
    pub reserved_1: u8,
    /// The number of local vector table entries less one: bits 16 to 23.
    pub lvt_entry: u8,
    /// Bits 24 to 31, bit 24 telling whether EOI broadcasts can be suppressed.
    pub reserved_2: u8,
}

/// The fields of a version register value.
pub open spec fn spec_info_from(data: u32) -> LocalAPICInfo {
    LocalAPICInfo {
        vendor: (data & 0xff) as u8,
        reserved_1: ((data >> 8u32) & 0xff) as u8,
        lvt_entry: ((data >> 16u32) & 0xff) as u8,
        reserved_2: (data >> 24u32) as u8,
    }
}

impl From<u32> for LocalAPICInfo {
    fn from(data: u32) -> (r: Self) {
        let vendor = data as u8;
        let r_1 = (data << 16u32 >> 16u32 >> 8u32) as u8;
        let lvt = (data << 8u32 >> 8u32 >> 16u32) as u8;
        let r_2 = (data >> 24u32) as u8;
        assert(vendor == (data & 0xff) as u8 && r_1 == ((data >> 8u32) & 0xff) as u8 && lvt == ((
        data >> 16u32) & 0xff) as u8) by (bit_vector)
            requires
                vendor == data as u8,
                r_1 == (data << 16u32 >> 16u32 >> 8u32) as u8,
                lvt == (data << 8u32 >> 8u32 >> 16u32) as u8,
        ;
        Self { vendor, reserved_1: r_1, lvt_entry: lvt, reserved_2: r_2 }
    }
}

impl vstd::std_specs::convert::FromSpecImpl<u32> for LocalAPICInfo {
    open spec fn obeys_from_spec() -> bool {
        true
    }

    open spec fn from_spec(data: u32) -> LocalAPICInfo {
        spec_info_from(data)
    }
}

/// The kind of local APIC.
#[derive(Clone, Copy, Debug, PartialEq, Eq, Structural)]
pub enum LocalAPICVendor {
    /// The discrete 82489DX chip.
    _82489DX,
    /// An APIC integrated in the processor.
    IntegratedAPIC,
}

} // verus!
