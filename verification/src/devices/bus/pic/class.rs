//! PCI class codes and the subclasses that each class defines.
use crate::devices::bus::pic::data::SubClass;
use vstd::prelude::*;

verus! {

/// The class of a PCI device: byte 11 of its configuration space.
#[derive(Clone, Copy, Debug, PartialEq, Eq, Structural)]
pub enum PciClass {
    Legacy,
    MassStorageController,
    NetworkController,
    DisplayController,
    MultimediaController,
    MemoryController,
    BridgeDevice,
    SimpleCommunicationController,
    BaseSystemPeripheral,
    InputDeviceController,
    DockingStation,
    Processor,
    SerialBusController,
    WirelessController,
    IntelligentController,
    SatelliteCommunicationController,
    EncryptionController,
    SignalProcessingController,
    Reserved(u8),
    Unknown,
}

/// The subclass of a PCI device within its class: byte 10 of its configuration space.
#[derive(Clone, Copy, Debug, PartialEq, Eq, Structural)]
pub enum PciSubClass {
    // class code 0x00 Unclassified
    NonVGACompatibleDevices,
    VGACompatibleDevices,
    OtherUnclassifiedDevices(u8),
    // class code 0x01 Mass Storage Controller v
    SCSIBusController,
    IDEController,
    FloppyDiskController,
    IPIBusController,
    RAIDController,
    ATAController,
    SerialATA,
    SerialAttachedSCSI,
    NonVolatileMemoryController,
    OtherMassStorageController(u8),
    // class code 0x02  Network Controller
    EthernetController,
    TokenRingController,
    FDDIController,
    ATMController,
    ISDNController,
    WorldFipController,
    PICMG214MultiComputing,
    InfinibandController,
    FabricController,
    OtherNetworkController(u8),
    // class code 0x03 Display Controller
    VGACompatibleController,
    XGAController,
    Controller3D,
    // (Not VGA-Compatible),
    OtherDisplayController(u8),
    // class code 0x04 Multimedia Controller
    MultimediaVideoController,
    MultimediaAudioController,
    ComputerTelephonyDevice,
    AudioDevice,
    OtherMultimediaController(u8),
    // class code 0x05 Memory Controller
    RAMController,
    FlashController,
    OtherMemoryController(u8),
    // class code 0x06 Bridge Device
    HostBridge,
    ISABridge,
    EISABridge,
    MCABridge,
    PCIToPCIBridge,
    PCMCIABridge,
    NuBusBridge,
    CardBusBridge,
    RACEwayBridge,
    InfiniBandToPCIHostBridge,
    OtherBridgeDevice(u8),
    // class code 0x07 Simple Communication Controller
    SerialController,
    ParallelController,
    MultiportSerialController,
    Modem,
    //IEEE 488.1/2
    GPIBController,
    SmartCard,
    OtherSimpleCommunicationController(u8),
    // class code 0x08 Base System Peripheral
    PIC,
    DMAController,
    Timer,
    RTCController,
    PCIHotPlugController,
    SDHostcontroller,
    IOMMU,
    OtherSystemPeripheral(u8),
    // class code 0x09 Input Device Controller
    KeyboardController,
    DigitizerPen,
    MouseController,
    ScannerController,
    GameportController,
    Extended,
    OtherInputDeviceController(u8),
    // class code 0x0a Docking Station
    Generic,
    OtherDockingStation(u8),
    // class code 0x0b Processor
    I386,
    I486,
    Pentium,
    PentiumPro,
    Alpha,
    PowerPC,
    MIPS,
    CoProcessor,
    OtherProcessor(u8),
    // class code 0x0c Serial Bus Controller
    FireWireController,
    ACCESSBus,
    SSA,
    USBController,
    FibreChannel,
    SMBus,
    InfiniBand,
    IPMIInterface,
    SERCOSInterface,
    CANbus,
    OtherSerialBusController(u8),
    // class code 0x0D Wireless Controller
    IRDACompatibleController,
    ConsumerIRController,
    RFController,
    BluetoothController,
    BroadbandController,
    EthernetController8021a,
    EthernetController8021b,
    OtherWirelessController(u8),
    // class code 0x0E  Intelligent Controller
    I20,
    // class code 0x0F  Satellite Communication Controller
    SatelliteTVController,
    SatelliteAudioController,
    SatelliteVoiceController,
    SatelliteDataController,
    UnknownSatelliteCommunicationController(u8),
    // class code 0x10  Encryption Controller
    NetworkandComputingEncrpytionDecryption,
    EntertainmentEncryptionDecryption,
    OtherEncryptionDecryption(u8),
    // class code 0x11  Signal Processing Controller
    DPIOModules,
    PerformanceCounters,
    CommunicationSynchronizer,
    SignalProcessingManagement,
    OtherSignalProcessingController(u8),
    // class code 0x12  Processing Accelerator
    // class code 0x13  Non-Essential Instrumentation
    // class code 0xFF  Unassigned Class (Vendor specific)
    // class code 0x40  Co-Processor
    NoSubClass,
    // class code 0x41  0xFE (Reserved)
    // class code 0x14  0x3F (Reserved)
    Reserved(u8),
}

/// The subclass that the subclass byte `sub` names within `class`.
pub open spec fn spec_subclass(class: PciClass, sub: u8) -> PciSubClass {
        match class {
            PciClass::Legacy => {
                if sub == 0x00 {
                    PciSubClass::NonVGACompatibleDevices
                } else if sub == 0x01 {
                    PciSubClass::VGACompatibleDevices
                } else {
                    PciSubClass::OtherUnclassifiedDevices(sub)
                }
            },
            PciClass::MassStorageController => {
                if sub == 0x00 {
                    PciSubClass::SCSIBusController
                } else if sub == 0x01 {
                    PciSubClass::IDEController
                } else if sub == 0x02 {
                    PciSubClass::FloppyDiskController
                } else if sub == 0x03 {
                    PciSubClass::IPIBusController
                } else if sub == 0x04 {
                    PciSubClass::RAIDController
                } else if sub == 0x05 {
                    PciSubClass::ATAController
                } else if sub == 0x06 {
                    PciSubClass::SerialATA
                } else if sub == 0x07 {
                    PciSubClass::SerialAttachedSCSI
                } else if sub == 0x08 {
                    PciSubClass::NonVolatileMemoryController
                } else {
                    PciSubClass::OtherMassStorageController(sub)
                }
            },
            PciClass::NetworkController => {
                if sub == 0x00 {
                    PciSubClass::EthernetController
                } else if sub == 0x01 {
                    PciSubClass::TokenRingController
                } else if sub == 0x02 {
                    PciSubClass::FDDIController
                } else if sub == 0x03 {
                    PciSubClass::ATMController
                } else if sub == 0x04 {
                    PciSubClass::ISDNController
                } else if sub == 0x05 {
                    PciSubClass::WorldFipController
                } else if sub == 0x06 {
                    PciSubClass::PICMG214MultiComputing
                } else if sub == 0x07 {
                    PciSubClass::InfinibandController
                } else if sub == 0x08 {
                    PciSubClass::FabricController
                } else {
                    PciSubClass::OtherNetworkController(sub)
                }
            },
            PciClass::DisplayController => {
                if sub == 0x00 {
                    PciSubClass::VGACompatibleController
                } else if sub == 0x01 {
                    PciSubClass::XGAController
                } else if sub == 0x02 {
                    PciSubClass::Controller3D
                } else {
                    PciSubClass::OtherDisplayController(sub)
                }
            },
            PciClass::MultimediaController => {
                if sub == 0x00 {
                    PciSubClass::MultimediaVideoController
                } else if sub == 0x01 {
                    PciSubClass::MultimediaAudioController
                } else if sub == 0x02 {
                    PciSubClass::ComputerTelephonyDevice
                } else if sub == 0x03 {
                    PciSubClass::AudioDevice
                } else {
                    PciSubClass::OtherMultimediaController(sub)
                }
            },
            PciClass::MemoryController => {
                if sub == 0x00 {
                    PciSubClass::RAMController
                } else if sub == 0x01 {
                    PciSubClass::FlashController
                } else {
                    PciSubClass::OtherMemoryController(sub)
                }
            },
            PciClass::BridgeDevice => {
                if sub == 0x00 {
                    PciSubClass::HostBridge
                } else if sub == 0x01 {
                    PciSubClass::ISABridge
                } else if sub == 0x02 {
                    PciSubClass::EISABridge
                } else if sub == 0x03 {
                    PciSubClass::MCABridge
                } else if sub == 0x04 {
                    PciSubClass::PCIToPCIBridge
                } else if sub == 0x05 {
                    PciSubClass::PCMCIABridge
                } else if sub == 0x06 {
                    PciSubClass::NuBusBridge
                } else if sub == 0x07 {
                    PciSubClass::CardBusBridge
                } else if sub == 0x08 {
                    PciSubClass::RACEwayBridge
                } else if sub == 0x09 {
                    PciSubClass::PCIToPCIBridge
                } else if sub == 0x0A {
                    PciSubClass::InfiniBandToPCIHostBridge
                } else {
                    PciSubClass::OtherBridgeDevice(sub)
                }
            },
            PciClass::SimpleCommunicationController => {
                if sub == 0x00 {
                    PciSubClass::SerialController
                } else if sub == 0x01 {
                    PciSubClass::ParallelController
                } else if sub == 0x02 {
                    PciSubClass::MultiportSerialController
                } else if sub == 0x03 {
                    PciSubClass::Modem
                } else if sub == 0x04 {
                    PciSubClass::GPIBController
                } else if sub == 0x05 {
                    PciSubClass::SmartCard
                } else {
                    PciSubClass::OtherSimpleCommunicationController(sub)
                }
            },
            PciClass::BaseSystemPeripheral => {
                if sub == 0x00 {
                    PciSubClass::PIC
                } else if sub == 0x01 {
                    PciSubClass::DMAController
                } else if sub == 0x02 {
                    PciSubClass::Timer
                } else if sub == 0x03 {
                    PciSubClass::RTCController
                } else if sub == 0x04 {
                    PciSubClass::PCIHotPlugController
                } else if sub == 0x05 {
                    PciSubClass::SDHostcontroller
                } else if sub == 0x06 {
                    PciSubClass::IOMMU
                } else {
                    PciSubClass::OtherSystemPeripheral(sub)
                }
            },
            PciClass::InputDeviceController => {
                if sub == 0x00 {
                    PciSubClass::KeyboardController
                } else if sub == 0x01 {
                    PciSubClass::DigitizerPen
                } else if sub == 0x02 {
                    PciSubClass::MouseController
                } else if sub == 0x03 {
                    PciSubClass::ScannerController
                } else if sub == 0x04 {
                    PciSubClass::GameportController
                } else {
                    PciSubClass::OtherInputDeviceController(sub)
                }
            },
            PciClass::DockingStation => {
                if sub == 0x00 {
                    PciSubClass::Generic
                } else {
                    PciSubClass::OtherDockingStation(sub)
                }
            },
            PciClass::Processor => {
                if sub == 0x00 {
                    PciSubClass::I386
                } else if sub == 0x01 {
                    PciSubClass::I486
                } else if sub == 0x02 {
                    PciSubClass::Pentium
                } else if sub == 0x03 {
                    PciSubClass::PentiumPro
                } else if sub == 0x10 {
                    PciSubClass::Alpha
                } else if sub == 0x20 {
                    PciSubClass::PowerPC
                } else if sub == 0x30 {
                    PciSubClass::MIPS
                } else if sub == 0x40 {
                    PciSubClass::CoProcessor
                } else {
                    PciSubClass::OtherProcessor(sub)
                }
            },
            PciClass::SerialBusController => {
                if sub == 0x00 {
                    PciSubClass::FireWireController
                } else if sub == 0x01 {
                    PciSubClass::ACCESSBus
                } else if sub == 0x02 {
                    PciSubClass::SSA
                } else if sub == 0x03 {
                    PciSubClass::USBController
                } else if sub == 0x04 {
                    PciSubClass::FibreChannel
                } else if sub == 0x05 {
                    PciSubClass::SMBus
                } else if sub == 0x06 {
                    PciSubClass::InfiniBand
                } else if sub == 0x07 {
                    PciSubClass::IPMIInterface
                } else if sub == 0x08 {
                    PciSubClass::SERCOSInterface
                } else if sub == 0x09 {
                    PciSubClass::CANbus
                } else {
                    PciSubClass::OtherSerialBusController(sub)
                }
            },
            PciClass::WirelessController => {
                if sub == 0x00 {
                    PciSubClass::IRDACompatibleController
                } else if sub == 0x01 {
                    PciSubClass::ConsumerIRController
                } else if sub == 0x10 {
                    PciSubClass::RFController
                } else if sub == 0x11 {
                    PciSubClass::BluetoothController
                } else if sub == 0x12 {
                    PciSubClass::BroadbandController
                } else if sub == 0x20 {
                    PciSubClass::EthernetController8021a
                } else if sub == 0x21 {
                    PciSubClass::EthernetController8021b
                } else {
                    PciSubClass::OtherWirelessController(sub)
                }
            },
            PciClass::IntelligentController => PciSubClass::I20,
            PciClass::SatelliteCommunicationController => {
                if sub == 0x00 {
                    PciSubClass::SatelliteTVController
                } else if sub == 0x01 {
                    PciSubClass::SatelliteAudioController
                } else if sub == 0x02 {
                    PciSubClass::SatelliteVoiceController
                } else if sub == 0x03 {
                    PciSubClass::SatelliteDataController
                } else {
                    PciSubClass::UnknownSatelliteCommunicationController(sub)
                }
            },
            PciClass::EncryptionController => {
                if sub == 0x00 {
                    PciSubClass::NetworkandComputingEncrpytionDecryption
                } else if sub == 0x10 {
                    PciSubClass::EntertainmentEncryptionDecryption
                } else {
                    PciSubClass::OtherEncryptionDecryption(sub)
                }
            },
            PciClass::SignalProcessingController => {
                if sub == 0x00 {
                    PciSubClass::DPIOModules
                } else if sub == 0x01 {
                    PciSubClass::PerformanceCounters
                } else if sub == 0x10 {
                    PciSubClass::CommunicationSynchronizer
                } else if sub == 0x20 {
                    PciSubClass::SignalProcessingManagement
                } else {
                    PciSubClass::OtherSignalProcessingController(sub)
                }
            },
            PciClass::Reserved(res) => PciSubClass::Reserved(res),
            _ => PciSubClass::NoSubClass,
        }
}

/// The class that a class code names.
pub open spec fn spec_class_from(class: u8) -> PciClass {
    match class {
        0x00 => PciClass::Legacy,
        0x01 => PciClass::MassStorageController,
        0x02 => PciClass::NetworkController,
        0x03 => PciClass::DisplayController,
        0x04 => PciClass::MultimediaController,
        0x05 => PciClass::MemoryController,
        0x06 => PciClass::BridgeDevice,
        0x07 => PciClass::SimpleCommunicationController,
        0x08 => PciClass::BaseSystemPeripheral,
        0x09 => PciClass::InputDeviceController,
        0x0A => PciClass::DockingStation,
        0x0B => PciClass::Processor,
        0x0C => PciClass::SerialBusController,
        0x0D => PciClass::WirelessController,
        0x0E => PciClass::IntelligentController,
        0x0F => PciClass::SatelliteCommunicationController,
        0x10 => PciClass::EncryptionController,
        0x11 => PciClass::SignalProcessingController,
        0xFF => PciClass::Unknown,
        reserved => PciClass::Reserved(reserved),
    }
}

/// The class code of a class.
pub open spec fn spec_class_code(class: PciClass) -> u8 {
    match class {
        PciClass::Legacy => 0x00,
        PciClass::MassStorageController => 0x01,
        PciClass::NetworkController => 0x02,
        PciClass::DisplayController => 0x03,
        PciClass::MultimediaController => 0x04,
        PciClass::MemoryController => 0x05,
        PciClass::BridgeDevice => 0x06,
        PciClass::SimpleCommunicationController => 0x07,
        PciClass::BaseSystemPeripheral => 0x08,
        PciClass::InputDeviceController => 0x09,
        PciClass::DockingStation => 0x0A,
        PciClass::Processor => 0x0B,
        PciClass::SerialBusController => 0x0C,
        PciClass::WirelessController => 0x0D,
        PciClass::IntelligentController => 0x0E,
        PciClass::SatelliteCommunicationController => 0x0F,
        PciClass::EncryptionController => 0x10,
        PciClass::SignalProcessingController => 0x11,
        PciClass::Unknown => 0xFF,
        PciClass::Reserved(reserved) => reserved,
    }
}

/// Whether the class is named by its own class code: a `Reserved` class whose code is one
/// of the named classes' codes or `0xFF` is not.
pub open spec fn is_canonical_class(class: PciClass) -> bool {
    match class {
        PciClass::Reserved(code) => code > 0x11 && code != 0xFF,
        _ => true,
    }
}

impl PciClass {
    /// The subclass that the subclass byte `sub` names within this class.
    pub fn subclass(&self, sub: SubClass) -> (r: PciSubClass)
        ensures
            r == spec_subclass(*self, sub.inner),
    {
        match self {
            PciClass::Legacy => {
                match sub.inner {
                    0x00 => PciSubClass::NonVGACompatibleDevices,
                    0x01 => PciSubClass::VGACompatibleDevices,
                    other => PciSubClass::OtherUnclassifiedDevices(other),
                }
            },
            PciClass::MassStorageController => {
                match sub.inner {
                    0x00 => PciSubClass::SCSIBusController,
                    0x01 => PciSubClass::IDEController,
                    0x02 => PciSubClass::FloppyDiskController,
                    0x03 => PciSubClass::IPIBusController,
                    0x04 => PciSubClass::RAIDController,
                    0x05 => PciSubClass::ATAController,
                    0x06 => PciSubClass::SerialATA,
                    0x07 => PciSubClass::SerialAttachedSCSI,
                    0x08 => PciSubClass::NonVolatileMemoryController,
                    other => PciSubClass::OtherMassStorageController(other),
                }
            },
            PciClass::NetworkController => {
                match sub.inner {
                    0x00 => PciSubClass::EthernetController,
                    0x01 => PciSubClass::TokenRingController,
                    0x02 => PciSubClass::FDDIController,
                    0x03 => PciSubClass::ATMController,
                    0x04 => PciSubClass::ISDNController,
                    0x05 => PciSubClass::WorldFipController,
                    0x06 => PciSubClass::PICMG214MultiComputing,
                    0x07 => PciSubClass::InfinibandController,
                    0x08 => PciSubClass::FabricController,
                    other => PciSubClass::OtherNetworkController(other),
                }
            },
            PciClass::DisplayController => {
                match sub.inner {
                    0x00 => PciSubClass::VGACompatibleController,
                    0x01 => PciSubClass::XGAController,
                    0x02 => PciSubClass::Controller3D,
                    other => PciSubClass::OtherDisplayController(other),
                }
            },
            PciClass::MultimediaController => {
                match sub.inner {
                    0x00 => PciSubClass::MultimediaVideoController,
                    0x01 => PciSubClass::MultimediaAudioController,
                    0x02 => PciSubClass::ComputerTelephonyDevice,
                    0x03 => PciSubClass::AudioDevice,
                    other => PciSubClass::OtherMultimediaController(other),
                }
            },
            PciClass::MemoryController => {
                match sub.inner {
                    0x00 => PciSubClass::RAMController,
                    0x01 => PciSubClass::FlashController,
                    other => PciSubClass::OtherMemoryController(other),
                }
            },
            PciClass::BridgeDevice => {
                match sub.inner {
                    0x00 => PciSubClass::HostBridge,
                    0x01 => PciSubClass::ISABridge,
                    0x02 => PciSubClass::EISABridge,
                    0x03 => PciSubClass::MCABridge,
                    0x04 => PciSubClass::PCIToPCIBridge,
                    0x05 => PciSubClass::PCMCIABridge,
                    0x06 => PciSubClass::NuBusBridge,
                    0x07 => PciSubClass::CardBusBridge,
                    0x08 => PciSubClass::RACEwayBridge,
                    0x09 => PciSubClass::PCIToPCIBridge,
                    0x0A => PciSubClass::InfiniBandToPCIHostBridge,
                    other => PciSubClass::OtherBridgeDevice(other),
                }
            },
            PciClass::SimpleCommunicationController => {
                match sub.inner {
                    0x00 => PciSubClass::SerialController,
                    0x01 => PciSubClass::ParallelController,
                    0x02 => PciSubClass::MultiportSerialController,
                    0x03 => PciSubClass::Modem,
                    0x04 => PciSubClass::GPIBController,
                    0x05 => PciSubClass::SmartCard,
                    other => PciSubClass::OtherSimpleCommunicationController(other),
                }
            },
            PciClass::BaseSystemPeripheral => {
                match sub.inner {
                    0x00 => PciSubClass::PIC,
                    0x01 => PciSubClass::DMAController,
                    0x02 => PciSubClass::Timer,
                    0x03 => PciSubClass::RTCController,
                    0x04 => PciSubClass::PCIHotPlugController,
                    0x05 => PciSubClass::SDHostcontroller,
                    0x06 => PciSubClass::IOMMU,
                    other => PciSubClass::OtherSystemPeripheral(other),
                }
            },
            PciClass::InputDeviceController => {
                match sub.inner {
                    0x00 => PciSubClass::KeyboardController,
                    0x01 => PciSubClass::DigitizerPen,
                    0x02 => PciSubClass::MouseController,
                    0x03 => PciSubClass::ScannerController,
                    0x04 => PciSubClass::GameportController,
                    other => PciSubClass::OtherInputDeviceController(other),
                }
            },
            PciClass::DockingStation => {
                match sub.inner {
                    0x00 => PciSubClass::Generic,
                    other => PciSubClass::OtherDockingStation(other),
                }
            },
            PciClass::Processor => {
                match sub.inner {
                    0x00 => PciSubClass::I386,
                    0x01 => PciSubClass::I486,
                    0x02 => PciSubClass::Pentium,
                    0x03 => PciSubClass::PentiumPro,
                    0x10 => PciSubClass::Alpha,
                    0x20 => PciSubClass::PowerPC,
                    0x30 => PciSubClass::MIPS,
                    0x40 => PciSubClass::CoProcessor,
                    other => PciSubClass::OtherProcessor(other),
                }
            },
            PciClass::SerialBusController => {
                match sub.inner {
                    0x00 => PciSubClass::FireWireController,
                    0x01 => PciSubClass::ACCESSBus,
                    0x02 => PciSubClass::SSA,
                    0x03 => PciSubClass::USBController,
                    0x04 => PciSubClass::FibreChannel,
                    0x05 => PciSubClass::SMBus,
                    0x06 => PciSubClass::InfiniBand,
                    0x07 => PciSubClass::IPMIInterface,
                    0x08 => PciSubClass::SERCOSInterface,
                    0x09 => PciSubClass::CANbus,
                    other => PciSubClass::OtherSerialBusController(other),
                }
            },
            PciClass::WirelessController => {
                match sub.inner {
                    0x00 => PciSubClass::IRDACompatibleController,
                    0x01 => PciSubClass::ConsumerIRController,
                    0x10 => PciSubClass::RFController,
                    0x11 => PciSubClass::BluetoothController,
                    0x12 => PciSubClass::BroadbandController,
                    0x20 => PciSubClass::EthernetController8021a,
                    0x21 => PciSubClass::EthernetController8021b,
                    other => PciSubClass::OtherWirelessController(other),
                }
            },
            PciClass::IntelligentController => PciSubClass::I20,
            PciClass::SatelliteCommunicationController => {
                match sub.inner {
                    0x00 => PciSubClass::SatelliteTVController,
                    0x01 => PciSubClass::SatelliteAudioController,
                    0x02 => PciSubClass::SatelliteVoiceController,
                    0x03 => PciSubClass::SatelliteDataController,
                    other => PciSubClass::UnknownSatelliteCommunicationController(other),
                }
            },
            PciClass::EncryptionController => {
                match sub.inner {
                    0x00 => PciSubClass::NetworkandComputingEncrpytionDecryption,
                    0x10 => PciSubClass::EntertainmentEncryptionDecryption,
                    other => PciSubClass::OtherEncryptionDecryption(other),
                }
            },
            PciClass::SignalProcessingController => {
                match sub.inner {
                    0x00 => PciSubClass::DPIOModules,
                    0x01 => PciSubClass::PerformanceCounters,
                    0x10 => PciSubClass::CommunicationSynchronizer,
                    0x20 => PciSubClass::SignalProcessingManagement,
                    other => PciSubClass::OtherSignalProcessingController(other),
                }
            },
            PciClass::Reserved(res) => PciSubClass::Reserved(*res),
            _ => PciSubClass::NoSubClass,
        }
    }
}

impl From<u8> for PciClass {
    fn from(class: u8) -> (r: PciClass) {
        match class {
            0x00 => PciClass::Legacy,
            0x01 => PciClass::MassStorageController,
            0x02 => PciClass::NetworkController,
            0x03 => PciClass::DisplayController,
            0x04 => PciClass::MultimediaController,
            0x05 => PciClass::MemoryController,
            0x06 => PciClass::BridgeDevice,
            0x07 => PciClass::SimpleCommunicationController,
            0x08 => PciClass::BaseSystemPeripheral,
            0x09 => PciClass::InputDeviceController,
            0x0A => PciClass::DockingStation,
            0x0B => PciClass::Processor,
            0x0C => PciClass::SerialBusController,
            0x0D => PciClass::WirelessController,
            0x0E => PciClass::IntelligentController,
            0x0F => PciClass::SatelliteCommunicationController,
            0x10 => PciClass::EncryptionController,
            0x11 => PciClass::SignalProcessingController,
            0xFF => PciClass::Unknown,
            reserved => PciClass::Reserved(reserved),
        }
    }
}

impl vstd::std_specs::convert::FromSpecImpl<u8> for PciClass {
    open spec fn obeys_from_spec() -> bool {
        true
    }

    open spec fn from_spec(class: u8) -> PciClass {
        spec_class_from(class)
    }
}

impl From<PciClass> for u8 {
    fn from(class: PciClass) -> (r: u8) {
        match class {
            PciClass::Legacy => 0x00,
            PciClass::MassStorageController => 0x01,
            PciClass::NetworkController => 0x02,
            PciClass::DisplayController => 0x03,
            PciClass::MultimediaController => 0x04,
            PciClass::MemoryController => 0x05,
            PciClass::BridgeDevice => 0x06,
            PciClass::SimpleCommunicationController => 0x07,
            PciClass::BaseSystemPeripheral => 0x08,
            PciClass::InputDeviceController => 0x09,
            PciClass::DockingStation => 0x0A,
            PciClass::Processor => 0x0B,
            PciClass::SerialBusController => 0x0C,
            PciClass::WirelessController => 0x0D,
            PciClass::IntelligentController => 0x0E,
            PciClass::SatelliteCommunicationController => 0x0F,
            PciClass::EncryptionController => 0x10,
            PciClass::SignalProcessingController => 0x11,
            PciClass::Unknown => 0xFF,
            PciClass::Reserved(reserved) => reserved,
        }
    }
}

impl vstd::std_specs::convert::FromSpecImpl<PciClass> for u8 {
    open spec fn obeys_from_spec() -> bool {
        true
    }

    open spec fn from_spec(class: PciClass) -> u8 {
        spec_class_code(class)
    }
}

/// Reading a class code and writing it back gives the code again.
pub proof fn law_class_code_roundtrip(code: u8)
    ensures
        spec_class_code(spec_class_from(code)) == code,
        is_canonical_class(spec_class_from(code)),
{
}

/// Writing a class as its code and reading it back gives the class again, for every class
/// that its own code names.
pub proof fn law_class_roundtrip(class: PciClass)
    requires
        is_canonical_class(class),
    ensures
        spec_class_from(spec_class_code(class)) == class,
{
}

/// The class that each class code names, as the PCI specification lists them: codes 0x00
/// to 0x11 name the classes from unclassified (legacy) devices to signal processing
/// controllers, 0xFF names devices that fit no class, and every other code is reserved.
pub proof fn law_class_codes_named(code: u8)
    ensures
        code == 0x00 <==> spec_class_from(code) == PciClass::Legacy,
        code == 0x01 <==> spec_class_from(code) == PciClass::MassStorageController,
        code == 0x02 <==> spec_class_from(code) == PciClass::NetworkController,
        code == 0x03 <==> spec_class_from(code) == PciClass::DisplayController,
        code == 0x04 <==> spec_class_from(code) == PciClass::MultimediaController,
        code == 0x05 <==> spec_class_from(code) == PciClass::MemoryController,
        code == 0x06 <==> spec_class_from(code) == PciClass::BridgeDevice,
        code == 0x07 <==> spec_class_from(code) == PciClass::SimpleCommunicationController,
        code == 0x08 <==> spec_class_from(code) == PciClass::BaseSystemPeripheral,
        code == 0x09 <==> spec_class_from(code) == PciClass::InputDeviceController,
        code == 0x0A <==> spec_class_from(code) == PciClass::DockingStation,
        code == 0x0B <==> spec_class_from(code) == PciClass::Processor,
        code == 0x0C <==> spec_class_from(code) == PciClass::SerialBusController,
        code == 0x0D <==> spec_class_from(code) == PciClass::WirelessController,
        code == 0x0E <==> spec_class_from(code) == PciClass::IntelligentController,
        code == 0x0F <==> spec_class_from(code) == PciClass::SatelliteCommunicationController,
        code == 0x10 <==> spec_class_from(code) == PciClass::EncryptionController,
        code == 0x11 <==> spec_class_from(code) == PciClass::SignalProcessingController,
        code == 0xFF <==> spec_class_from(code) == PciClass::Unknown,
        0x11 < code < 0xFF <==> spec_class_from(code) == PciClass::Reserved(code),
{
}

/// The code that each class is written as, as the PCI specification lists them; a reserved
/// class is written as its own code.
pub proof fn law_class_code_values(class: PciClass)
    ensures
        class == PciClass::Legacy ==> spec_class_code(class) == 0x00,
        class == PciClass::MassStorageController ==> spec_class_code(class) == 0x01,
        class == PciClass::NetworkController ==> spec_class_code(class) == 0x02,
        class == PciClass::DisplayController ==> spec_class_code(class) == 0x03,
        class == PciClass::MultimediaController ==> spec_class_code(class) == 0x04,
        class == PciClass::MemoryController ==> spec_class_code(class) == 0x05,
        class == PciClass::BridgeDevice ==> spec_class_code(class) == 0x06,
        class == PciClass::SimpleCommunicationController ==> spec_class_code(class) == 0x07,
        class == PciClass::BaseSystemPeripheral ==> spec_class_code(class) == 0x08,
        class == PciClass::InputDeviceController ==> spec_class_code(class) == 0x09,
        class == PciClass::DockingStation ==> spec_class_code(class) == 0x0A,
        class == PciClass::Processor ==> spec_class_code(class) == 0x0B,
        class == PciClass::SerialBusController ==> spec_class_code(class) == 0x0C,
        class == PciClass::WirelessController ==> spec_class_code(class) == 0x0D,
        class == PciClass::IntelligentController ==> spec_class_code(class) == 0x0E,
        class == PciClass::SatelliteCommunicationController ==> spec_class_code(class) == 0x0F,
        class == PciClass::EncryptionController ==> spec_class_code(class) == 0x10,
        class == PciClass::SignalProcessingController ==> spec_class_code(class) == 0x11,
        class == PciClass::Unknown ==> spec_class_code(class) == 0xFF,
        class matches PciClass::Reserved(c) ==> spec_class_code(class) == c,
{
}

} // verus!
