//! The 8253 programmable interval timer.
use crate::ia_32e::cpu::PortWrite;
use vstd::prelude::*;

verus! {

/// The input frequency of the timer, in Hz.
pub const TIMER_FREQUENCY: usize = 1193182;
/// The mode (control word) port.
pub const TIMER_MODE: u16 = 0x43;
pub const TIMER0: u16 = 0x40;
pub const TIMER1: u16 = 0x41;
pub const TIMER2: u16 = 0x42;
pub const TIMER3: u16 = 0x43;
pub const TIMER4: u16 = 0x44;
pub const TIMER5: u16 = 0x45;
/// The interrupt frequency the kernel asks for, in Hz.
pub const IRQ_FREQUENCY: usize = 100;

/// The count that makes the timer fire `frequency` times a second.
pub fn timer_count(frequency: usize) -> (r: usize)
    requires
        frequency > 0,
    ensures
        r == TIMER_FREQUENCY / frequency,
{
    TIMER_FREQUENCY / frequency
}

/// The control word of the 8253 timer: BCD counting in bit 0, the mode in bits 1 to 3, the access order in bits 4 and 5 and the counter in bits 6 and 7.
#[derive(Clone, Copy, PartialEq, Eq, Structural, Debug)]
pub struct ContorlWord {
    pub bits: u8,
}

impl ContorlWord {
    /// Counts in binary coded decimal.
    pub const BCD: u8 = 0x1;
    /// Mode 0, interrupt on terminal count.
    pub const METHOD0: u8 = 0x0;
    /// Mode 1, hardware retriggerable one-shot.
    pub const METHOD1: u8 = 0x2;
    /// Mode 2, rate generator.
    pub const METHOD2: u8 = 0x4;
    /// Mode 3, square wave generator.
    pub const METHOD3: u8 = 0x6;
    /// Mode 4, software triggered strobe.
    pub const METHOD4: u8 = 0x8;
    /// Mode 5, hardware triggered strobe.
    pub const METHOD5: u8 = 0xa;
    /// Latches the count for the processor to read.
    pub const LOCK_DATA: u8 = 0x0;
    /// Reads and writes the low byte only.
    pub const LOW_READ_ONLY: u8 = 0x10;
    /// Reads and writes the high byte only.
    pub const HIGH_READ_ONLY: u8 = 0x20;
    /// Reads and writes the low byte, then the high byte.
    pub const READ_LOW_THEN_HIGH: u8 = 0x30;
    /// Selects counter 0.
    pub const COUNTER0: u8 = 0x0;
    /// Selects counter 1.
    pub const COUNTER1: u8 = 0x40;
    /// Selects counter 2.
    pub const COUNTER2: u8 = 0x80;
    /// The union of every defined flag.
    pub const ALL: u8 = 0xff;

    /// The value with no flag set.
    pub fn empty() -> (r: Self)
        ensures
            r.bits == 0,
    {
        ContorlWord { bits: 0 }
    }

    /// The value with every defined flag set.
    pub fn all() -> (r: Self)
        ensures
            r.bits == Self::ALL,
    {
        ContorlWord { bits: Self::ALL }
    }

    /// The raw bits.
    pub fn bits(&self) -> (r: u8)
        ensures
            r == self.bits,
    {
        self.bits
    }

    /// The flags of `bits`, or `None` where `bits` holds a bit that no flag defines.
    pub fn from_bits(bits: u8) -> (r: Option<Self>)
        ensures
            r is Some <==> bits & !Self::ALL == 0,
            r is Some ==> r->0.bits == bits,
    {
        if bits & !Self::ALL == 0 {
            Some(ContorlWord { bits })
        } else {
            None
        }
    }

    /// The flags of `bits`, with every bit that no flag defines dropped.
    pub fn from_bits_truncate(bits: u8) -> (r: Self)
        ensures
            r.bits == bits & Self::ALL,
    {
        ContorlWord { bits: bits & Self::ALL }
    }

    /// Whether every flag of `other` is set in `self`.
    pub fn contains(&self, other: Self) -> (r: bool)
        ensures
            r == (self.bits & other.bits == other.bits),
    {
        self.bits & other.bits == other.bits
    }

    /// Whether no flag is set.
    pub fn is_empty(&self) -> (r: bool)
        ensures
            r == (self.bits == 0),
    {
        self.bits == 0
    }

    /// The flags set in either value.
    pub fn union(self, other: Self) -> (r: Self)
        ensures
            r.bits == self.bits | other.bits,
    {
        ContorlWord { bits: self.bits | other.bits }
    }

    /// The flags set in both values.
    pub fn intersection(self, other: Self) -> (r: Self)
        ensures
            r.bits == self.bits & other.bits,
    {
        ContorlWord { bits: self.bits & other.bits }
    }

    /// Sets the flags of `other`.
    pub fn insert(&mut self, other: Self)
        ensures
            final(self).bits == old(self).bits | other.bits,
    {
        self.bits = self.bits | other.bits;
    }

    /// Clears the flags of `other`.
    pub fn remove(&mut self, other: Self)
        ensures
            final(self).bits == old(self).bits & !other.bits,
    {
        self.bits = self.bits & !other.bits;
    }
}


/// An 8253 timer set up with a count (`frequency`) and a control word.
pub struct Chips8253 {
    /// The count, written low byte first.
    pub frequency: u16,
    /// The control word.
    pub control: ContorlWord,
}

impl Chips8253 {
    /// The timer with the count `frequency` and the control word `control`.
    pub fn new(frequency: u16, control: ContorlWord) -> (r: Self)
        ensures
            r.frequency == frequency,
            r.control == control,
    {
        Self { frequency, control }
    }

    /// The writes that start the counter at port `n`: the byte 0x43 to the port numbered by
    /// the control word, then the low and the high byte of the count to port `n`.
    pub open spec fn start_writes(&self, n: u16) -> Seq<PortWrite> {
        seq![
            PortWrite { port: self.control.bits as u16, value: 0x43 },
            PortWrite { port: n, value: self.frequency as u8 },
            PortWrite { port: n, value: (self.frequency >> 8u16) as u8 },
        ]
    }

    /// The writes that start the counter at port `n` (see `start_writes`).
    pub fn init_time_n(&self, n: u16) -> (r: Vec<PortWrite>)
        ensures
            r@ == self.start_writes(n),
    {
        let mut r: Vec<PortWrite> = Vec::new();
        r.push(PortWrite { port: self.control.bits as u16, value: 0x43 });
        r.push(PortWrite { port: n, value: self.frequency as u8 });
        r.push(PortWrite { port: n, value: (self.frequency >> 8u16) as u8 });
        r
    }

    /// The writes that start counter 0, for an interrupt on terminal count.
    pub fn interrupt_on_terminal_count(&self) -> (r: Vec<PortWrite>)
        ensures
            r@ == self.start_writes(TIMER0),
    {
        self.init_time_n(TIMER0)
    }

    /// The writes that start counter 1, as a hardware retriggerable one-shot.
    pub fn hardware_retriggerable_one_shot(&self) -> (r: Vec<PortWrite>)
        ensures
            r@ == self.start_writes(TIMER1),
    {
        self.init_time_n(TIMER1)
    }

    /// The writes that start counter 2, as a rate generator.
    pub fn rate_generator(&self) -> (r: Vec<PortWrite>)
        ensures
            r@ == self.start_writes(TIMER2),
    {
        self.init_time_n(TIMER2)
    }

    /// The writes that start the counter at port 0x43, as a square wave generator.
    pub fn square_wave_generator(&self) -> (r: Vec<PortWrite>)
        ensures
            r@ == self.start_writes(TIMER3),
    {
        self.init_time_n(TIMER3)
    }

    /// The writes that start the counter at port 0x44, as a software triggered strobe.
    pub fn software_triggered_strobe(&self) -> (r: Vec<PortWrite>)
        ensures
            r@ == self.start_writes(TIMER4),
    {
        self.init_time_n(TIMER4)
    }

    /// The writes that start the counter at port 0x45, as a hardware triggered strobe.
    pub fn hardware_triggered_strobe(&self) -> (r: Vec<PortWrite>)
        ensures
            r@ == self.start_writes(TIMER5),
    {
        self.init_time_n(TIMER5)
    }

    /// The writes that stop the counter at port `n`: the control word to the mode port, then
    /// two zero bytes to port `n`.
    pub fn stop_time_n(&self, n: u16) -> (r: Vec<PortWrite>)
        ensures
            r@ == seq![
                PortWrite { port: TIMER_MODE, value: self.control.bits },
                PortWrite { port: n, value: 0 },
                PortWrite { port: n, value: 0 },
            ],
    {
        let mut r: Vec<PortWrite> = Vec::new();
        r.push(PortWrite { port: TIMER_MODE, value: self.control.bits });
        r.push(PortWrite { port: n, value: 0 });
        r.push(PortWrite { port: n, value: 0 });
        r
    }

    /// The count of a counter from the two bytes read from its port, low byte first.
    pub fn read_pit_count(&self, low: u8, high: u8) -> (r: u16)
        ensures
            r == ((high as u16) << 8u16) | (low as u16),
    {
        ((high as u16) << 8u16) | (low as u16)
    }

    /// The writes that load `count` into counter 0, low byte first.
    pub fn set_pit_count(&self, count: u16) -> (r: Vec<PortWrite>)
        ensures
            r@ == seq![
                PortWrite { port: TIMER0, value: count as u8 },
                PortWrite { port: TIMER0, value: (count >> 8u16) as u8 },
            ],
    {
        let mut r: Vec<PortWrite> = Vec::new();
        r.push(PortWrite { port: TIMER0, value: count as u8 });
        r.push(PortWrite { port: TIMER0, value: (count >> 8u16) as u8 });
        r
    }
}

/// The two bytes a count is written as give the count back.
pub proof fn law_pit_count_roundtrip(count: u16)
    ensures
        (((((count >> 8u16) as u8) as u16) << 8u16) | ((count as u8) as u16)) == count,
{
    assert((((((count >> 8u16) as u8) as u16) << 8u16) | ((count as u8) as u16)) == count)
        by (bit_vector);
}

} // verus!
