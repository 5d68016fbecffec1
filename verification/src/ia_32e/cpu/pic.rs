//! The two cascaded 8259A programmable interrupt controllers.
use crate::ia_32e::cpu::{write_cmd, PicCommand, PortWrite};
use vstd::prelude::*;

verus! {

/// The end-of-interrupt command.
pub const EOI: u8 = 0x20;
/// Initialization command word 4: 8086 mode.
pub const ICW4: u8 = 0x01;
/// Initialization command word 1: start the initialization, cascade, ICW4 follows.
pub const ICW1: u8 = 0x11;
/// Initialization command word 3 of the main chip: the secondary chip sits on IRQ 2.
pub const ICW3_M: u8 = 0x04;
/// Initialization command word 3 of the secondary chip: its cascade identity 2.
pub const ICW3_S: u8 = 0x02;
/// The mask that masks every line.
pub const MASKED: u8 = 0xff;

/// One 8259A chip: the first interrupt vector of its eight lines and its ports.
#[derive(Clone, Copy, Debug, PartialEq, Eq, Structural)]
struct Pic {
    offset: u8,
    command: u16,
    data: u16,
}

impl Pic {
    /// Whether `interrupt_id` is one of the chip's eight vectors.
    fn handle_interrupt(&self, interrupt_id: u8) -> (r: bool)
        requires
            self.offset <= 247,
        ensures
            r == (self.offset <= interrupt_id && interrupt_id < self.offset + 8),
    {
        self.offset <= interrupt_id && interrupt_id < self.offset + 8
    }
}

/// The main 8259A chip (ports 0x20 and 0x21) and the secondary one (ports 0xA0 and 0xA1)
/// cascaded on its line 2.
#[derive(Clone, Copy, Debug, PartialEq, Eq, Structural)]
pub struct ChainedPics {
    main: Pic,
    slave: Pic,
}

/// Whether `id` is one of the eight vectors from `offset` on.
pub open spec fn in_block(offset: u8, id: u8) -> bool {
    offset <= id < offset + 8
}

impl ChainedPics {
    #[verifier::type_invariant]
    spec fn ports_fixed(self) -> bool {
        &&& self.main.command == 0x20
        &&& self.main.data == 0x21
        &&& self.slave.command == 0xA0
        &&& self.slave.data == 0xA1
    }

    /// The first vector of the main chip.
    pub closed spec fn main_offset(&self) -> u8 {
        self.main.offset
    }

    /// The first vector of the secondary chip.
    pub closed spec fn slave_offset(&self) -> u8 {
        self.slave.offset
    }

    /// The first vectors of the main and of the secondary chip.
    pub fn offsets(&self) -> (r: (u8, u8))
        ensures
            r == (self.main_offset(), self.slave_offset()),
    {
        (self.main.offset, self.slave.offset)
    }

    /// The chips with the main one's vectors from `offset_1` on and the secondary one's
    /// from `offset_2` on.
    pub fn new(offset_1: u8, offset_2: u8) -> (r: ChainedPics)
        ensures
            r.main_offset() == offset_1,
            r.slave_offset() == offset_2,
    {
        ChainedPics {
            main: Pic { offset: offset_1, command: 0x20, data: 0x21 },
            slave: Pic { offset: offset_2, command: 0xA0, data: 0xA1 },
        }
    }

    /// The conversation that initializes both chips: ICW1 to both command ports, then
    /// ICW2 (the vector offset), ICW3 (the cascade wiring) and ICW4 to both data ports, a
    /// wait after each of these writes, and at last the saved interrupt masks
    /// `saved_mask1` and `saved_mask2` written back to the data ports.
    pub fn initialize(&self, saved_mask1: u8, saved_mask2: u8) -> (r: Vec<PicCommand>)
        ensures
            r@ == seq![
                write_cmd(0x20, ICW1),
                PicCommand::Wait,
                write_cmd(0xA0, ICW1),
                PicCommand::Wait,
                write_cmd(0x21, self.main_offset()),
                PicCommand::Wait,
                write_cmd(0xA1, self.slave_offset()),
                PicCommand::Wait,
                write_cmd(0x21, ICW3_M),
                PicCommand::Wait,
                write_cmd(0xA1, ICW3_S),
                PicCommand::Wait,
                write_cmd(0x21, ICW4),
                PicCommand::Wait,
                write_cmd(0xA1, ICW4),
                PicCommand::Wait,
                write_cmd(0x21, saved_mask1),
                write_cmd(0xA1, saved_mask2),
            ],
    {
        proof {
            use_type_invariant(self);
        }
        let mut r: Vec<PicCommand> = Vec::new();
        r.push(PicCommand::Write(PortWrite { port: self.main.command, value: ICW1 }));
        r.push(PicCommand::Wait);
        r.push(PicCommand::Write(PortWrite { port: self.slave.command, value: ICW1 }));
        r.push(PicCommand::Wait);
        r.push(PicCommand::Write(PortWrite { port: self.main.data, value: self.main.offset }));
        r.push(PicCommand::Wait);
        r.push(PicCommand::Write(PortWrite { port: self.slave.data, value: self.slave.offset }));
        r.push(PicCommand::Wait);
        r.push(PicCommand::Write(PortWrite { port: self.main.data, value: ICW3_M }));
        r.push(PicCommand::Wait);
        r.push(PicCommand::Write(PortWrite { port: self.slave.data, value: ICW3_S }));
        r.push(PicCommand::Wait);
        r.push(PicCommand::Write(PortWrite { port: self.main.data, value: ICW4 }));
        r.push(PicCommand::Wait);
        r.push(PicCommand::Write(PortWrite { port: self.slave.data, value: ICW4 }));
        r.push(PicCommand::Wait);
        r.push(PicCommand::Write(PortWrite { port: self.main.data, value: saved_mask1 }));
        r.push(PicCommand::Write(PortWrite { port: self.slave.data, value: saved_mask2 }));
        assert(r@ =~= seq![
            write_cmd(0x20, ICW1),
            PicCommand::Wait,
            write_cmd(0xA0, ICW1),
            PicCommand::Wait,
            write_cmd(0x21, self.main_offset()),
            PicCommand::Wait,
            write_cmd(0xA1, self.slave_offset()),
            PicCommand::Wait,
            write_cmd(0x21, ICW3_M),
            PicCommand::Wait,
            write_cmd(0xA1, ICW3_S),
            PicCommand::Wait,
            write_cmd(0x21, ICW4),
            PicCommand::Wait,
            write_cmd(0xA1, ICW4),
            PicCommand::Wait,
            write_cmd(0x21, saved_mask1),
            write_cmd(0xA1, saved_mask2),
        ]);
        r
    }

    /// The writes that mask every line of both chips.
    pub fn disable_8259a(&self) -> (r: Vec<PortWrite>)
        ensures
            r@ == seq![PortWrite { port: 0x21, value: MASKED }, PortWrite { port: 0xA1, value: MASKED }],
    {
        proof {
            use_type_invariant(self);
        }
        let mut r: Vec<PortWrite> = Vec::new();
        r.push(PortWrite { port: self.main.data, value: MASKED });
        r.push(PortWrite { port: self.slave.data, value: MASKED });
        assert(r@ =~= seq![PortWrite { port: 0x21, value: MASKED }, PortWrite { port: 0xA1, value: MASKED }]);
        r
    }

    /// Whether `interrupt_id` is a vector of the main or of the secondary chip.
    pub fn handles_interrupt(&self, interrupt_id: u8) -> (r: bool)
        requires
            self.main_offset() <= 247,
            self.slave_offset() <= 247,
        ensures
            r == (in_block(self.main_offset(), interrupt_id) || in_block(
                self.slave_offset(),
                interrupt_id,
            )),
    {
        self.main.handle_interrupt(interrupt_id) || self.slave.handle_interrupt(interrupt_id)
    }

    /// The end-of-interrupt writes for `interrupt_id`: none for a vector of neither chip;
    /// for one of the secondary chip, to its command port and then to the main one's; for
    /// one of the main chip, to its command port alone.
    pub fn notify_end_of_interrupt(&self, interrupt_id: u8) -> (r: Vec<PortWrite>)
        requires
            self.main_offset() <= 247,
            self.slave_offset() <= 247,
        ensures
            r@ == if in_block(self.slave_offset(), interrupt_id) {
                seq![PortWrite { port: 0xA0, value: EOI }, PortWrite { port: 0x20, value: EOI }]
            } else if in_block(self.main_offset(), interrupt_id) {
                seq![PortWrite { port: 0x20, value: EOI }]
            } else {
                Seq::<PortWrite>::empty()
            },
    {
        proof {
            use_type_invariant(self);
        }
        let mut r: Vec<PortWrite> = Vec::new();
        if self.handles_interrupt(interrupt_id) {
            if self.slave.handle_interrupt(interrupt_id) {
                r.push(PortWrite { port: self.slave.command, value: EOI });
            }
            r.push(PortWrite { port: self.main.command, value: EOI });
        }
        proof {
            if in_block(self.slave_offset(), interrupt_id) {
                assert(r@ =~= seq![PortWrite { port: 0xA0, value: EOI }, PortWrite { port: 0x20, value: EOI }]);
            } else if in_block(self.main_offset(), interrupt_id) {
                assert(r@ =~= seq![PortWrite { port: 0x20, value: EOI }]);
            } else {
                assert(r@ =~= Seq::<PortWrite>::empty());
            }
        }
        r
    }
}

} // verus!
