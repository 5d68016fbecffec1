use system::bits::{CR0Flags, EferFlags, IrqFlags, RFlags};
use system::ia_32e::apic::lvt::LocalVectorTableEntry;
use system::ia_32e::apic::{LocalAPIC, LocalAPICInfo, MsrValue};
use system::ia_32e::cpu::apic::{ESR, IOAPICID, IRR, SVR};
use system::ia_32e::cpu::control::{CR0, CR3, CR4};
use system::ia_32e::cpu::msr::{msr_halves, msr_value, Efer, IA32_APIC_BASE, IA32_X2APIC_SIVR, MSR};
use system::ia_32e::cpu::timer::{timer_count, Chips8253, ContorlWord, IRQ_FREQUENCY};
use system::ia_32e::cpu::{ChainedPics, PicCommand, PortWrite};
use system::ia_32e::instructions::apic::mask_all_lvt;
use system::ia_32e::instructions::interrupt::are_enabled;
use system::ia_32e::instructions::rflags::{read_flags, write_flags};
use system::ia_32e::x2apic::io_apic::{hi, lo, IoApic, IrqMode};
use system::ia_32e::x2apic::register::{IpiAllShorthand, LocalApicRegisters, TimerDivide, TimerMode};
use system::ia_32e::xapic::xpaic::{xApic, RegWrite, StartStep};

#[test]
fn pics_handle_their_vectors() {
    let pics = ChainedPics::new(32, 40);
    assert!(pics.handles_interrupt(32));
    assert!(pics.handles_interrupt(47));
    assert!(!pics.handles_interrupt(48));
    assert!(!pics.handles_interrupt(31));
}

#[test]
fn pics_end_of_interrupt() {
    let pics = ChainedPics::new(32, 40);
    assert_eq!(pics.notify_end_of_interrupt(33), vec![PortWrite { port: 0x20, value: 0x20 }]);
    assert_eq!(
        pics.notify_end_of_interrupt(44),
        vec![PortWrite { port: 0xA0, value: 0x20 }, PortWrite { port: 0x20, value: 0x20 }]
    );
    assert!(pics.notify_end_of_interrupt(100).is_empty());
}

#[test]
fn pics_initialize_sequence() {
    let pics = ChainedPics::new(32, 40);
    let seq = pics.initialize(0xb8, 0x8e);
    assert_eq!(seq.len(), 18);
    assert_eq!(seq[0], PicCommand::Write(PortWrite { port: 0x20, value: 0x11 }));
    assert_eq!(seq[1], PicCommand::Wait);
    assert_eq!(seq[4], PicCommand::Write(PortWrite { port: 0x21, value: 32 }));
    assert_eq!(seq[6], PicCommand::Write(PortWrite { port: 0xA1, value: 40 }));
    assert_eq!(seq[16], PicCommand::Write(PortWrite { port: 0x21, value: 0xb8 }));
    assert_eq!(seq[17], PicCommand::Write(PortWrite { port: 0xA1, value: 0x8e }));
    assert_eq!(pics.disable_8259a(), vec![PortWrite { port: 0x21, value: 0xff }, PortWrite { port: 0xA1, value: 0xff }]);
}

#[test]
fn timer_counts() {
    assert_eq!(timer_count(IRQ_FREQUENCY), 11931);
    assert_eq!(timer_count(1), 1193182);
    let chip = Chips8253::new(0x1234, ContorlWord { bits: ContorlWord::READ_LOW_THEN_HIGH | ContorlWord::METHOD3 });
    assert_eq!(chip.control.bits, 0x36);
    assert_eq!(chip.set_pit_count(0xabcd), vec![PortWrite { port: 0x40, value: 0xcd }, PortWrite { port: 0x40, value: 0xab }]);
    assert_eq!(chip.read_pit_count(0xcd, 0xab), 0xabcd);
    let init = chip.init_time_n(0);
    assert_eq!(init[1], PortWrite { port: 0, value: 0x34 });
    assert_eq!(init[2], PortWrite { port: 0, value: 0x12 });
    let stop = chip.stop_time_n(2);
    assert_eq!(stop[0], PortWrite { port: 0x43, value: 0x36 });
}

#[test]
fn timer_modes_start_their_counters() {
    let chip = Chips8253::new(0x1234, ContorlWord { bits: 0x36 });
    let starts = [
        (chip.interrupt_on_terminal_count(), 0x40),
        (chip.hardware_retriggerable_one_shot(), 0x41),
        (chip.rate_generator(), 0x42),
        (chip.square_wave_generator(), 0x43),
        (chip.software_triggered_strobe(), 0x44),
        (chip.hardware_triggered_strobe(), 0x45),
    ];
    for (writes, port) in starts.iter() {
        assert_eq!(
            writes,
            &vec![
                PortWrite { port: 0x36, value: 0x43 },
                PortWrite { port: *port, value: 0x34 },
                PortWrite { port: *port, value: 0x12 },
            ]
        );
    }
}

#[test]
fn msr_halves_and_values() {
    assert_eq!(MSR::new(0x1b).0, 0x1b);
    assert_eq!(msr_value(0x1234, 0x5678), 0x0000_1234_0000_5678);
    assert_eq!(msr_halves(0x0000_1234_0000_5678), (0x5678, 0x1234));
}

#[test]
fn efer_flags() {
    let raw = 0xffff_0000_0000_0500u64;
    assert!(Efer::enable_long_mode(raw));
    assert_eq!(Efer::read(raw).bits, 0x500);
    let new = Efer::write(raw, EferFlags { bits: EferFlags::SYSTEM_CALL_EXTENSIONS });
    assert_eq!(new, 0xffff_0000_0000_0001);
}

#[test]
fn control_registers() {
    assert_eq!(CR0::read(0x8000_0031).bits, 0x8000_0021);
    assert_eq!(CR0::write(0xffff_0000_0000_0000, CR0Flags { bits: CR0Flags::PAGING }), 0xffff_0000_8000_0000);
    let (frame, flags) = CR3::read(0x0000_0000_0012_3018);
    assert_eq!(frame.start_address().as_u64(), 0x123000);
    assert_eq!(flags.bits, 0x18);
    assert_eq!(CR3::write(frame, flags), 0x0012_3018);
    assert_eq!(CR4::read(0x20).bits, 0x20);
}

#[test]
fn rflags_interrupt_flag() {
    assert!(are_enabled(0x202));
    assert!(!are_enabled(0x2));
    assert_eq!(read_flags(0x202).bits, 0x200);
    assert_eq!(write_flags(0x2, RFlags { bits: RFlags::INTERRUPT_FLAG }), 0x202);
}

#[test]
fn apic_register_stubs() {
    assert_eq!(ESR::read(), 0);
    assert_eq!(ESR::new(0x1ff).flags().bits, 0xff);
    assert_eq!(IRR::read(), 0);
    assert_eq!(SVR::read(), 0);
    assert_eq!(IOAPICID::read(), 0);
    assert_eq!(LocalVectorTableEntry { entry: 0x1_0020 }.flags().bits, 0x1_0000);
}

#[test]
fn local_apic_commands() {
    let x2 = LocalAPIC { address: 0xfee0_0900, x2apic: true };
    assert_eq!(x2.ipi(3), 0x4040 | (3u64 << 32));
    assert_eq!(
        x2.init_ap(0xfee0_0900),
        vec![MsrValue { msr: IA32_APIC_BASE, value: 0xfee0_0d00 }, MsrValue { msr: IA32_X2APIC_SIVR, value: 0x100 }]
    );
    let x1 = LocalAPIC { address: 0xfee0_0900, x2apic: false };
    assert_eq!(x1.ipi(3), 0x4040 | (3u64 << 56));
    assert_eq!(x1.init_ap(0), vec![MsrValue { msr: 0xF0, value: 0x100 }]);
    let probed = LocalAPIC::init(0xfee0_0900);
    if let Some(apic) = probed {
        assert_eq!(apic.address, 0xfee0_0900);
    }
}

#[test]
fn local_apic_version_fields() {
    let info = LocalAPICInfo::from(0x0105_0014u32);
    assert_eq!(info.vendor, 0x14);
    assert_eq!(info.reserved_1, 0x00);
    assert_eq!(info.lvt_entry, 0x05);
    assert_eq!(info.reserved_2, 0x01);
}

#[test]
fn masking_the_lvt() {
    let writes = mask_all_lvt();
    assert_eq!(writes.len(), 7);
    assert!(writes.iter().all(|w| w.low == 0x10000 && w.high == 0));
    assert_eq!(writes[1].msr, 0x832);
}

#[test]
fn io_apic_registers() {
    assert_eq!(lo(0), 0x10);
    assert_eq!(hi(0), 0x11);
    assert_eq!(lo(5), 0x1a);
    assert_eq!(IrqMode::LowestPriority.as_u32(), 0x100);
    assert_eq!(IoApic::id(0x0a00_0000), 0x0a);
    assert_eq!(IoApic::version(0x0017_0011), 0x11);
    assert_eq!(IoApic::max_table_entry(0x0017_0011), 0x17);
    assert_eq!(IoApic::set_id(3), 0x0300_0000);
    assert_eq!(IoApic::entry_destination(1), 0x0100_0000);
    let lo_value = IoApic::enabled_entry(0x0001_0000, IrqMode::Fixed, IrqFlags { bits: IrqFlags::LEVEL_TRIGGERED });
    assert_eq!(lo_value, 0x8000);
    assert_eq!(IoApic::new(0xfec0_0000).base_addr, 0xfec0_0000);
    assert_eq!(IoApic::arbitration_id(0x0f00_0000), 0x0f);
    assert_eq!(IoApic::set_arbitration_id(2), 0x0200_0000);
    assert_eq!(IoApic::disabled_entry(0x0000_0021), 0x0001_0021);
    assert_eq!(IoApic::init_vectors(3, 32), vec![32, 33, 34, 35]);
}

#[test]
fn x2apic_register_values() {
    let regs = LocalApicRegisters::new();
    assert_eq!(regs.icr.0, 0x830);
    assert_eq!(regs.base.0, 0x1b);
    assert_eq!(u64::from(TimerMode::Periodic), 1);
    assert_eq!(u64::from(TimerDivide::Div256), 0b1011);
    assert_eq!(u64::from(IpiAllShorthand::AllExcludingSelf), 0b11);
}

#[test]
fn xapic_setup_writes() {
    let apic = xApic::new(0xfee0_0000);
    assert_eq!(xApic::id(0x0300_0000), 3);
    assert_eq!(xApic::icr(1, 2), (1u64 << 32) | 2);
    let old = apic.cpu_init(0x0003_0014);
    let new = apic.cpu_init(0x0005_0014);
    assert_eq!(old.len(), 12);
    assert_eq!(new.len(), 13);
    assert_eq!(new[6], RegWrite { reg: 0x340, value: 0x10000 });
    assert_eq!(xApic::set_icr(0x0100_0000_0000_4500), vec![RegWrite { reg: 0x310, value: 0x0100_0000 }, RegWrite { reg: 0x300, value: 0x4500 }]);
    assert_eq!(xApic::eoi(), RegWrite { reg: 0xb0, value: 0 });
}

#[test]
fn xapic_start_ap_steps() {
    let apic = xApic::new(0xfee0_0000);
    let steps = apic.start_ap(3, 0x8000);
    assert_eq!(steps.len(), 15);
    assert_eq!(steps[0], StartStep::Port { port: 0x70, value: 0xf });
    assert_eq!(steps[1], StartStep::Port { port: 0x71, value: 0xa });
    assert_eq!(steps[2], StartStep::Memory { addr: 0x467, value: 0 });
    assert_eq!(steps[3], StartStep::Memory { addr: 0x469, value: 0x800 });
    assert_eq!(steps[4], StartStep::Register(RegWrite { reg: 0x310, value: 0x0300_0000 }));
    assert_eq!(steps[5], StartStep::Register(RegWrite { reg: 0x300, value: 0xc500 }));
    assert_eq!(steps[6], StartStep::Delay(200));
    assert_eq!(steps[7], StartStep::Register(RegWrite { reg: 0x300, value: 0x8500 }));
    assert_eq!(steps[8], StartStep::Delay(10000));
    for k in 0..2 {
        assert_eq!(steps[9 + 3 * k], StartStep::Register(RegWrite { reg: 0x310, value: 0x0300_0000 }));
        assert_eq!(steps[10 + 3 * k], StartStep::Register(RegWrite { reg: 0x300, value: 0x608 }));
        assert_eq!(steps[11 + 3 * k], StartStep::Delay(200));
    }
}
