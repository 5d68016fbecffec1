//! Fields of the PCI configuration space header.
use crate::bits::bit_ops::{bit16, get_bit_u16, set_bit_u16, with_bit16};
use crate::devices::bus::pic::byte_order::{le16, le32, read_u16_le, read_u32_le};
use vstd::prelude::*;

verus! {

/// A one-byte field of the configuration space header.
#[derive(Clone, Copy, PartialEq, Eq, Structural, Debug)]
pub struct Revision {
    pub inner: u8,
}

impl Revision {
    /// The field with the value `inner`.
    pub fn new(inner: u8) -> (r: Self)
        ensures
            r.inner == inner,
    {
        Self { inner }
    }
}

/// A one-byte field of the configuration space header.
#[derive(Clone, Copy, PartialEq, Eq, Structural, Debug)]
pub struct Interface {
    pub inner: u8,
}

impl Interface {
    /// The field with the value `inner`.
    pub fn new(inner: u8) -> (r: Self)
        ensures
            r.inner == inner,
    {
        Self { inner }
    }
}

/// A one-byte field of the configuration space header.
#[derive(Clone, Copy, PartialEq, Eq, Structural, Debug)]
pub struct CacheLineSize {
    pub inner: u8,
}

impl CacheLineSize {
    /// The field with the value `inner`.
    pub fn new(inner: u8) -> (r: Self)
        ensures
            r.inner == inner,
    {
        Self { inner }
    }
}

/// A one-byte field of the configuration space header.
#[derive(Clone, Copy, PartialEq, Eq, Structural, Debug)]
pub struct LatencyTimer {
    pub inner: u8,
}

impl LatencyTimer {
    /// The field with the value `inner`.
    pub fn new(inner: u8) -> (r: Self)
        ensures
            r.inner == inner,
    {
        Self { inner }
    }
}

/// A one-byte field of the configuration space header.
#[derive(Clone, Copy, PartialEq, Eq, Structural, Debug)]
pub struct BIST {
    pub inner: u8,
}

impl BIST {
    /// The field with the value `inner`.
    pub fn new(inner: u8) -> (r: Self)
        ensures
            r.inner == inner,
    {
        Self { inner }
    }
}

/// A one-byte field of the configuration space header.
#[derive(Clone, Copy, PartialEq, Eq, Structural, Debug)]
pub struct CapPointer {
    pub inner: u8,
}

impl CapPointer {
    /// The field with the value `inner`.
    pub fn new(inner: u8) -> (r: Self)
        ensures
            r.inner == inner,
    {
        Self { inner }
    }
}

/// A one-byte field of the configuration space header.
#[derive(Clone, Copy, PartialEq, Eq, Structural, Debug)]
pub struct InterruptLine {
    pub inner: u8,
}

impl InterruptLine {
    /// The field with the value `inner`.
    pub fn new(inner: u8) -> (r: Self)
        ensures
            r.inner == inner,
    {
        Self { inner }
    }
}

/// A one-byte field of the configuration space header.
#[derive(Clone, Copy, PartialEq, Eq, Structural, Debug)]
pub struct InterruptPin {
    pub inner: u8,
}

impl InterruptPin {
    /// The field with the value `inner`.
    pub fn new(inner: u8) -> (r: Self)
        ensures
            r.inner == inner,
    {
        Self { inner }
    }
}

/// A one-byte field of the configuration space header.
#[derive(Clone, Copy, PartialEq, Eq, Structural, Debug)]
pub struct MaxLatency {
    pub inner: u8,
}

impl MaxLatency {
    /// The field with the value `inner`.
    pub fn new(inner: u8) -> (r: Self)
        ensures
            r.inner == inner,
    {
        Self { inner }
    }
}

/// A one-byte field of the configuration space header.
#[derive(Clone, Copy, PartialEq, Eq, Structural, Debug)]
pub struct PrimaryBusNum {
    pub inner: u8,
}

impl PrimaryBusNum {
    /// The field with the value `inner`.
    pub fn new(inner: u8) -> (r: Self)
        ensures
            r.inner == inner,
    {
        Self { inner }
    }
}

/// A one-byte field of the configuration space header.
#[derive(Clone, Copy, PartialEq, Eq, Structural, Debug)]
pub struct SecondaryBusNum {
    pub inner: u8,
}

impl SecondaryBusNum {
    /// The field with the value `inner`.
    pub fn new(inner: u8) -> (r: Self)
        ensures
            r.inner == inner,
    {
        Self { inner }
    }
}

/// A one-byte field of the configuration space header.
#[derive(Clone, Copy, PartialEq, Eq, Structural, Debug)]
pub struct SubordinateBusNum {
    pub inner: u8,
}

impl SubordinateBusNum {
    /// The field with the value `inner`.
    pub fn new(inner: u8) -> (r: Self)
        ensures
            r.inner == inner,
    {
        Self { inner }
    }
}

/// A one-byte field of the configuration space header.
#[derive(Clone, Copy, PartialEq, Eq, Structural, Debug)]
pub struct SecondaryLatencyTimer {
    pub inner: u8,
}

impl SecondaryLatencyTimer {
    /// The field with the value `inner`.
    pub fn new(inner: u8) -> (r: Self)
        ensures
            r.inner == inner,
    {
        Self { inner }
    }
}

/// A one-byte field of the configuration space header.
#[derive(Clone, Copy, PartialEq, Eq, Structural, Debug)]
pub struct IoBase {
    pub inner: u8,
}

impl IoBase {
    /// The field with the value `inner`.
    pub fn new(inner: u8) -> (r: Self)
        ensures
            r.inner == inner,
    {
        Self { inner }
    }
}

/// A one-byte field of the configuration space header.
#[derive(Clone, Copy, PartialEq, Eq, Structural, Debug)]
pub struct IoLimit {
    pub inner: u8,
}

impl IoLimit {
    /// The field with the value `inner`.
    pub fn new(inner: u8) -> (r: Self)
        ensures
            r.inner == inner,
    {
        Self { inner }
    }
}

/// A one-byte field of the configuration space header.
#[derive(Clone, Copy, PartialEq, Eq, Structural, Debug)]
pub struct SubClass {
    pub inner: u8,
}

impl SubClass {
    /// The field with the value `inner`.
    pub fn new(inner: u8) -> (r: Self)
        ensures
            r.inner == inner,
    {
        Self { inner }
    }
}

/// A one-byte field of the configuration space header.
#[derive(Clone, Copy, PartialEq, Eq, Structural, Debug)]
pub struct MinGrant {
    pub inner: u8,
}

impl MinGrant {
    /// The field with the value `inner`.
    pub fn new(inner: u8) -> (r: Self)
        ensures
            r.inner == inner,
    {
        Self { inner }
    }
}

/// A two-byte field of the configuration space header, stored least significant byte first.
#[derive(Clone, Copy, PartialEq, Eq, Structural, Debug)]
pub struct DevicesVendorId {
    pub inner: u16,
}

impl DevicesVendorId {
    /// The field read from the first two bytes of `buf`, least significant first.
    pub fn new(buf: &[u8]) -> (r: Self)
        requires
            buf@.len() >= 2,
        ensures
            r.inner == le16(buf@),
    {
        Self { inner: read_u16_le(buf) }
    }
}

/// A two-byte field of the configuration space header, stored least significant byte first.
#[derive(Clone, Copy, PartialEq, Eq, Structural, Debug)]
pub struct DeviceId {
    pub inner: u16,
}

impl DeviceId {
    /// The field read from the first two bytes of `buf`, least significant first.
    pub fn new(buf: &[u8]) -> (r: Self)
        requires
            buf@.len() >= 2,
        ensures
            r.inner == le16(buf@),
    {
        Self { inner: read_u16_le(buf) }
    }
}

/// A two-byte field of the configuration space header, stored least significant byte first.
#[derive(Clone, Copy, PartialEq, Eq, Structural, Debug)]
pub struct Command {
    pub inner: u16,
}

impl Command {
    /// The field read from the first two bytes of `buf`, least significant first.
    pub fn new(buf: &[u8]) -> (r: Self)
        requires
            buf@.len() >= 2,
        ensures
            r.inner == le16(buf@),
    {
        Self { inner: read_u16_le(buf) }
    }
}

/// A two-byte field of the configuration space header, stored least significant byte first.
#[derive(Clone, Copy, PartialEq, Eq, Structural, Debug)]
pub struct PciEventStatus {
    pub inner: u16,
}

impl PciEventStatus {
    /// The field read from the first two bytes of `buf`, least significant first.
    pub fn new(buf: &[u8]) -> (r: Self)
        requires
            buf@.len() >= 2,
        ensures
            r.inner == le16(buf@),
    {
        Self { inner: read_u16_le(buf) }
    }
}

/// A two-byte field of the configuration space header, stored least significant byte first.
#[derive(Clone, Copy, PartialEq, Eq, Structural, Debug)]
pub struct SubSystemVendorId {
    pub inner: u16,
}

impl SubSystemVendorId {
    /// The field read from the first two bytes of `buf`, least significant first.
    pub fn new(buf: &[u8]) -> (r: Self)
        requires
            buf@.len() >= 2,
        ensures
            r.inner == le16(buf@),
    {
        Self { inner: read_u16_le(buf) }
    }
}

/// A two-byte field of the configuration space header, stored least significant byte first.
#[derive(Clone, Copy, PartialEq, Eq, Structural, Debug)]
pub struct SubSystemId {
    pub inner: u16,
}

impl SubSystemId {
    /// The field read from the first two bytes of `buf`, least significant first.
    pub fn new(buf: &[u8]) -> (r: Self)
        requires
            buf@.len() >= 2,
        ensures
            r.inner == le16(buf@),
    {
        Self { inner: read_u16_le(buf) }
    }
}

/// A two-byte field of the configuration space header, stored least significant byte first.
#[derive(Clone, Copy, PartialEq, Eq, Structural, Debug)]
pub struct SecondaryStatus {
    pub inner: u16,
}

impl SecondaryStatus {
    /// The field read from the first two bytes of `buf`, least significant first.
    pub fn new(buf: &[u8]) -> (r: Self)
        requires
            buf@.len() >= 2,
        ensures
            r.inner == le16(buf@),
    {
        Self { inner: read_u16_le(buf) }
    }
}

/// A two-byte field of the configuration space header, stored least significant byte first.
#[derive(Clone, Copy, PartialEq, Eq, Structural, Debug)]
pub struct MemBase {
    pub inner: u16,
}

impl MemBase {
    /// The field read from the first two bytes of `buf`, least significant first.
    pub fn new(buf: &[u8]) -> (r: Self)
        requires
            buf@.len() >= 2,
        ensures
            r.inner == le16(buf@),
    {
        Self { inner: read_u16_le(buf) }
    }
}

/// A two-byte field of the configuration space header, stored least significant byte first.
#[derive(Clone, Copy, PartialEq, Eq, Structural, Debug)]
pub struct MemLimit {
    pub inner: u16,
}

impl MemLimit {
    /// The field read from the first two bytes of `buf`, least significant first.
    pub fn new(buf: &[u8]) -> (r: Self)
        requires
            buf@.len() >= 2,
        ensures
            r.inner == le16(buf@),
    {
        Self { inner: read_u16_le(buf) }
    }
}

/// A two-byte field of the configuration space header, stored least significant byte first.
#[derive(Clone, Copy, PartialEq, Eq, Structural, Debug)]
pub struct PrefetchBase {
    pub inner: u16,
}

impl PrefetchBase {
    /// The field read from the first two bytes of `buf`, least significant first.
    pub fn new(buf: &[u8]) -> (r: Self)
        requires
            buf@.len() >= 2,
        ensures
            r.inner == le16(buf@),
    {
        Self { inner: read_u16_le(buf) }
    }
}

/// A two-byte field of the configuration space header, stored least significant byte first.
#[derive(Clone, Copy, PartialEq, Eq, Structural, Debug)]
pub struct PrefetchLimit {
    pub inner: u16,
}

impl PrefetchLimit {
    /// The field read from the first two bytes of `buf`, least significant first.
    pub fn new(buf: &[u8]) -> (r: Self)
        requires
            buf@.len() >= 2,
        ensures
            r.inner == le16(buf@),
    {
        Self { inner: read_u16_le(buf) }
    }
}

/// A two-byte field of the configuration space header, stored least significant byte first.
#[derive(Clone, Copy, PartialEq, Eq, Structural, Debug)]
pub struct IoBaseUpper {
    pub inner: u16,
}

impl IoBaseUpper {
    /// The field read from the first two bytes of `buf`, least significant first.
    pub fn new(buf: &[u8]) -> (r: Self)
        requires
            buf@.len() >= 2,
        ensures
            r.inner == le16(buf@),
    {
        Self { inner: read_u16_le(buf) }
    }
}

/// A two-byte field of the configuration space header, stored least significant byte first.
#[derive(Clone, Copy, PartialEq, Eq, Structural, Debug)]
pub struct IoLimitUpper {
    pub inner: u16,
}

impl IoLimitUpper {
    /// The field read from the first two bytes of `buf`, least significant first.
    pub fn new(buf: &[u8]) -> (r: Self)
        requires
            buf@.len() >= 2,
        ensures
            r.inner == le16(buf@),
    {
        Self { inner: read_u16_le(buf) }
    }
}

/// A two-byte field of the configuration space header, stored least significant byte first.
#[derive(Clone, Copy, PartialEq, Eq, Structural, Debug)]
pub struct BridgeControl {
    pub inner: u16,
}

impl BridgeControl {
    /// The field read from the first two bytes of `buf`, least significant first.
    pub fn new(buf: &[u8]) -> (r: Self)
        requires
            buf@.len() >= 2,
        ensures
            r.inner == le16(buf@),
    {
        Self { inner: read_u16_le(buf) }
    }
}

/// A four-byte field of the configuration space header, stored least significant byte first.
#[derive(Clone, Copy, PartialEq, Eq, Structural, Debug)]
pub struct PrefetchBaseUpper {
    pub inner: u32,
}

impl PrefetchBaseUpper {
    /// The field read from the first four bytes of `buf`, least significant first.
    pub fn new(buf: &[u8]) -> (r: Self)
        requires
            buf@.len() >= 4,
        ensures
            r.inner == le32(buf@),
    {
        Self { inner: read_u32_le(buf) }
    }
}

/// A four-byte field of the configuration space header, stored least significant byte first.
#[derive(Clone, Copy, PartialEq, Eq, Structural, Debug)]
pub struct PrefetchLimitUpper {
    pub inner: u32,
}

impl PrefetchLimitUpper {
    /// The field read from the first four bytes of `buf`, least significant first.
    pub fn new(buf: &[u8]) -> (r: Self)
        requires
            buf@.len() >= 4,
        ensures
            r.inner == le32(buf@),
    {
        Self { inner: read_u32_le(buf) }
    }
}

/// A four-byte field of the configuration space header, stored least significant byte first.
#[derive(Clone, Copy, PartialEq, Eq, Structural, Debug)]
pub struct ExpansionRom {
    pub inner: u32,
}

impl ExpansionRom {
    /// The field read from the first four bytes of `buf`, least significant first.
    pub fn new(buf: &[u8]) -> (r: Self)
        requires
            buf@.len() >= 4,
        ensures
            r.inner == le32(buf@),
    {
        Self { inner: read_u32_le(buf) }
    }
}

/// A four-byte field of the configuration space header, stored least significant byte first.
#[derive(Clone, Copy, PartialEq, Eq, Structural, Debug)]
pub struct CardBusCisPtr {
    pub inner: u32,
}

impl CardBusCisPtr {
    /// The field read from the first four bytes of `buf`, least significant first.
    pub fn new(buf: &[u8]) -> (r: Self)
        requires
            buf@.len() >= 4,
        ensures
            r.inner == le32(buf@),
    {
        Self { inner: read_u32_le(buf) }
    }
}

/// A four-byte field of the configuration space header, stored least significant byte first.
#[derive(Clone, Copy, PartialEq, Eq, Structural, Debug)]
pub struct ExpansionRomBar {
    pub inner: u32,
}

impl ExpansionRomBar {
    /// The field read from the first four bytes of `buf`, least significant first.
    pub fn new(buf: &[u8]) -> (r: Self)
        requires
            buf@.len() >= 4,
        ensures
            r.inner == le32(buf@),
    {
        Self { inner: read_u32_le(buf) }
    }
}

impl Command {
    /// If set to 1 the assertion of the devices INTx# signal is disabled; otherwise, assertion of the signal is enabled.
    pub fn set_interrupt(&mut self, enable: bool)
        ensures
            final(self).inner == with_bit16(old(self).inner, 10, enable),
    {
        self.inner = set_bit_u16(self.inner, 10, enable);
    }

    /// If set to 1 the assertion of the devices INTx# signal is disabled; otherwise, assertion of the signal is enabled.
    pub fn interrupt(&self) -> (r: bool)
        ensures
            r == bit16(self.inner, 10),
    {
        get_bit_u16(self.inner, 10)
    }

    /// If set to 1 indicates a device is allowed to generate fast back-to-back transactions.
    pub fn set_fast_back_to_back(&mut self, enable: bool)
        ensures
            final(self).inner == with_bit16(old(self).inner, 9, enable),
    {
        self.inner = set_bit_u16(self.inner, 9, enable);
    }

    /// If set to 1 indicates a device is allowed to generate fast back-to-back transactions.
    pub fn fast_back_to_back(&self) -> (r: bool)
        ensures
            r == bit16(self.inner, 9),
    {
        get_bit_u16(self.inner, 9)
    }

    /// If set to 1 the SERR# driver is enabled; otherwise, the driver is disabled.
    pub fn set_enable_serr(&mut self, enable: bool)
        ensures
            final(self).inner == with_bit16(old(self).inner, 8, enable),
    {
        self.inner = set_bit_u16(self.inner, 8, enable);
    }

    /// If set to 1 the SERR# driver is enabled; otherwise, the driver is disabled.
    pub fn enable_serr(&self) -> (r: bool)
        ensures
            r == bit16(self.inner, 8),
    {
        get_bit_u16(self.inner, 8)
    }

    /// If set to 1 the device will take its normal action when a parity error is detected.
    pub fn set_parity_error_resp(&mut self, enable: bool)
        ensures
            final(self).inner == with_bit16(old(self).inner, 6, enable),
    {
        self.inner = set_bit_u16(self.inner, 6, enable);
    }

    /// If set to 1 the device will take its normal action when a parity error is detected.
    pub fn parity_error_resp(&self) -> (r: bool)
        ensures
            r == bit16(self.inner, 6),
    {
        get_bit_u16(self.inner, 6)
    }

    /// If set to 1 the device does not respond to palette register writes and will snoop the data.
    pub fn set_vga_palette_snoop(&mut self, enable: bool)
        ensures
            final(self).inner == with_bit16(old(self).inner, 5, enable),
    {
        self.inner = set_bit_u16(self.inner, 5, enable);
    }

    /// If set to 1 the device does not respond to palette register writes and will snoop the data.
    pub fn vga_palette_snoopv(&self) -> (r: bool)
        ensures
            r == bit16(self.inner, 5),
    {
        get_bit_u16(self.inner, 5)
    }

    /// If set to 1 the device can generate the Memory Write and Invalidate command.
    pub fn set_memory_write_and_invalidate_enable(&mut self, enable: bool)
        ensures
            final(self).inner == with_bit16(old(self).inner, 4, enable),
    {
        self.inner = set_bit_u16(self.inner, 4, enable);
    }

    /// If set to 1 the device can generate the Memory Write and Invalidate command.
    pub fn memory_write_and_invalidate_enable(&self) -> (r: bool)
        ensures
            r == bit16(self.inner, 4),
    {
        get_bit_u16(self.inner, 4)
    }

    /// If set to 1 the device can monitor Special Cycle operations.
    pub fn set_special_cycles(&mut self, enable: bool)
        ensures
            final(self).inner == with_bit16(old(self).inner, 3, enable),
    {
        self.inner = set_bit_u16(self.inner, 3, enable);
    }

    /// If set to 1 the device can monitor Special Cycle operations.
    pub fn special_cycles(&self) -> (r: bool)
        ensures
            r == bit16(self.inner, 3),
    {
        get_bit_u16(self.inner, 3)
    }

    /// If set to 1 the device can behave as a bus master.
    pub fn set_bus_master(&mut self, enable: bool)
        ensures
            final(self).inner == with_bit16(old(self).inner, 2, enable),
    {
        self.inner = set_bit_u16(self.inner, 2, enable);
    }

    /// If set to 1 the device can behave as a bus master.
    pub fn bus_master(&self) -> (r: bool)
        ensures
            r == bit16(self.inner, 2),
    {
        get_bit_u16(self.inner, 2)
    }

    /// If set to 1 the device can respond to Memory Space accesses.
    pub fn set_memory_space(&mut self, enable: bool)
        ensures
            final(self).inner == with_bit16(old(self).inner, 1, enable),
    {
        self.inner = set_bit_u16(self.inner, 1, enable);
    }

    /// If set to 1 the device can respond to Memory Space accesses.
    pub fn memory_space(&self) -> (r: bool)
        ensures
            r == bit16(self.inner, 1),
    {
        get_bit_u16(self.inner, 1)
    }

    /// The I/O Space bit, kept at bit 1 of the register as the memory space bit is.
    pub fn set_io_space(&mut self, enable: bool)
        ensures
            final(self).inner == with_bit16(old(self).inner, 1, enable),
    {
        self.inner = set_bit_u16(self.inner, 1, enable);
    }

    /// The I/O Space bit, kept at bit 1 of the register as the memory space bit is.
    pub fn io_space(&self) -> (r: bool)
        ensures
            r == bit16(self.inner, 1),
    {
        get_bit_u16(self.inner, 1)
    }

}

impl PciEventStatus {
    /// Set whenever the device detects a parity error.
    pub fn set_detected_parity_error(&mut self, enable: bool)
        ensures
            final(self).inner == with_bit16(old(self).inner, 15, enable),
    {
        self.inner = set_bit_u16(self.inner, 15, enable);
    }

    /// Set whenever the device detects a parity error.
    pub fn detected_parity_error(&self) -> (r: bool)
        ensures
            r == bit16(self.inner, 15),
    {
        get_bit_u16(self.inner, 15)
    }

    /// Set whenever the device asserts SERR#.
    pub fn set_signaled_system_error(&mut self, enable: bool)
        ensures
            final(self).inner == with_bit16(old(self).inner, 14, enable),
    {
        self.inner = set_bit_u16(self.inner, 14, enable);
    }

    /// Set whenever the device asserts SERR#.
    pub fn signaled_system_error(&self) -> (r: bool)
        ensures
            r == bit16(self.inner, 14),
    {
        get_bit_u16(self.inner, 14)
    }

    /// Set by a master whose transaction is terminated with Master-Abort.
    pub fn set_received_master_abort(&mut self, enable: bool)
        ensures
            final(self).inner == with_bit16(old(self).inner, 13, enable),
    {
        self.inner = set_bit_u16(self.inner, 13, enable);
    }

    /// Set by a master whose transaction is terminated with Master-Abort.
    pub fn received_master_abort(&self) -> (r: bool)
        ensures
            r == bit16(self.inner, 13),
    {
        get_bit_u16(self.inner, 13)
    }

    /// Set by a master whose transaction is terminated with Target-Abort.
    pub fn set_received_target_abort(&mut self, enable: bool)
        ensures
            final(self).inner == with_bit16(old(self).inner, 12, enable),
    {
        self.inner = set_bit_u16(self.inner, 12, enable);
    }

    /// Set by a master whose transaction is terminated with Target-Abort.
    pub fn received_target_abort(&self) -> (r: bool)
        ensures
            r == bit16(self.inner, 12),
    {
        get_bit_u16(self.inner, 12)
    }

    /// Set whenever a target terminates a transaction with Target-Abort.
    pub fn set_signaled_target_abort(&mut self, enable: bool)
        ensures
            final(self).inner == with_bit16(old(self).inner, 11, enable),
    {
        self.inner = set_bit_u16(self.inner, 11, enable);
    }

    /// Set whenever a target terminates a transaction with Target-Abort.
    pub fn signaled_target_abort(&self) -> (r: bool)
        ensures
            r == bit16(self.inner, 11),
    {
        get_bit_u16(self.inner, 11)
    }

    /// Set when the bus agent observed PERR# as bus master with parity error response enabled.
    pub fn set_master_data_parity_error(&mut self, enable: bool)
        ensures
            final(self).inner == with_bit16(old(self).inner, 8, enable),
    {
        self.inner = set_bit_u16(self.inner, 8, enable);
    }

    /// Set when the bus agent observed PERR# as bus master with parity error response enabled.
    pub fn master_data_parity_error(&self) -> (r: bool)
        ensures
            r == bit16(self.inner, 8),
    {
        get_bit_u16(self.inner, 8)
    }

    /// If set to 1 the device can accept fast back-to-back transactions from other agents.
    pub fn set_fast_back_to_back_capable(&mut self, enable: bool)
        ensures
            final(self).inner == with_bit16(old(self).inner, 7, enable),
    {
        self.inner = set_bit_u16(self.inner, 7, enable);
    }

    /// If set to 1 the device can accept fast back-to-back transactions from other agents.
    pub fn fast_back_to_back_capable(&self) -> (r: bool)
        ensures
            r == bit16(self.inner, 7),
    {
        get_bit_u16(self.inner, 7)
    }

    /// If set to 1 the device is capable of running at 66 MHz.
    pub fn set_capable66_mhz(&mut self, enable: bool)
        ensures
            final(self).inner == with_bit16(old(self).inner, 5, enable),
    {
        self.inner = set_bit_u16(self.inner, 5, enable);
    }

    /// If set to 1 the device is capable of running at 66 MHz.
    pub fn capable66_mhz(&self) -> (r: bool)
        ensures
            r == bit16(self.inner, 5),
    {
        get_bit_u16(self.inner, 5)
    }

    /// If set to 1 the device implements a capabilities list at offset 0x34.
    pub fn set_capabilities_list(&mut self, enable: bool)
        ensures
            final(self).inner == with_bit16(old(self).inner, 4, enable),
    {
        self.inner = set_bit_u16(self.inner, 4, enable);
    }

    /// If set to 1 the device implements a capabilities list at offset 0x34.
    pub fn capabilities_list(&self) -> (r: bool)
        ensures
            r == bit16(self.inner, 4),
    {
        get_bit_u16(self.inner, 4)
    }

    /// The state of the device's INTx# signal.
    pub fn set_interrupt_status(&mut self, enable: bool)
        ensures
            final(self).inner == with_bit16(old(self).inner, 3, enable),
    {
        self.inner = set_bit_u16(self.inner, 3, enable);
    }

    /// The state of the device's INTx# signal.
    pub fn interrupt_status(&self) -> (r: bool)
        ensures
            r == bit16(self.inner, 3),
    {
        get_bit_u16(self.inner, 3)
    }

    /// The slowest DEVSEL# timing of the device: bits 9 and 10 (0 fast, 1 medium, 2 slow).
    pub fn set_devsel_timing(&mut self, data: u16)
        requires
            data < 4,
        ensures
            final(self).inner == (old(self).inner & !0x0600u16) | ((data << 9u16) as u16),
    {
        self.inner = (self.inner & !0x0600u16) | (data << 9u16);
    }

    /// The slowest DEVSEL# timing of the device: bits 9 and 10 (0 fast, 1 medium, 2 slow).
    pub fn devsel_timing(&self) -> (r: u16)
        ensures
            r == (self.inner >> 9u16) & 3,
    {
        (self.inner >> 9u16) & 3
    }
}

} // verus!
