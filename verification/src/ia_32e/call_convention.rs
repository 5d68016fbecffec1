//! The registers saved on the stack by an interrupt and by its handler.
use crate::ia_32e::addr::{sign_extend, VirtAddr};
use vstd::prelude::*;
use vstd::string::StringExecFns;

verus! {

/// The decimal digits of `n`, as `{}` formats an unsigned integer.
pub open spec fn decimal_text(n: nat) -> Seq<char>
    decreases n,
{
    if n < 10 {
        seq![digit_char(n)]
    } else {
        decimal_text(n / 10) + seq![digit_char(n % 10)]
    }
}

/// The character of the decimal digit `d`.
pub open spec fn digit_char(d: nat) -> char {
    if d == 0 {
        '0'
    } else if d == 1 {
        '1'
    } else if d == 2 {
        '2'
    } else if d == 3 {
        '3'
    } else if d == 4 {
        '4'
    } else if d == 5 {
        '5'
    } else if d == 6 {
        '6'
    } else if d == 7 {
        '7'
    } else if d == 8 {
        '8'
    } else {
        '9'
    }
}

/// The text of the decimal digit `d`.
pub(crate) fn digit_str(d: u64) -> (r: &'static str)
    requires
        d < 10,
    ensures
        r@ == seq![digit_char(d as nat)],
{
    if d == 0 {
        proof { reveal_strlit("0"); }
        "0"
    } else if d == 1 {
        proof { reveal_strlit("1"); }
        "1"
    } else if d == 2 {
        proof { reveal_strlit("2"); }
        "2"
    } else if d == 3 {
        proof { reveal_strlit("3"); }
        "3"
    } else if d == 4 {
        proof { reveal_strlit("4"); }
        "4"
    } else if d == 5 {
        proof { reveal_strlit("5"); }
        "5"
    } else if d == 6 {
        proof { reveal_strlit("6"); }
        "6"
    } else if d == 7 {
        proof { reveal_strlit("7"); }
        "7"
    } else if d == 8 {
        proof { reveal_strlit("8"); }
        "8"
    } else {
        proof { reveal_strlit("9"); }
        "9"
    }
}

/// The decimal digits of `n`, as `{}` writes an unsigned integer.
pub(crate) fn decimal(n: u64) -> (r: String)
    ensures
        r@ == decimal_text(n as nat),
    decreases n,
{
    if n < 10 {
        String::from_str(digit_str(n))
    } else {
        let mut s = decimal(n / 10);
        s.append(digit_str(n % 10));
        s
    }
}

/// Whether a register value is a canonical address or one `VirtAddr::new` sign-extends.
pub open spec fn as_address_ok(value: usize) -> bool {
    let v = value as u64;
    v >> 47u64 == 0 || v >> 47u64 == 1 || v >> 47u64 == 0x1ffff
}

/// The registers an interrupt handler must save before it calls other code (the scratch registers), in the order they sit on the stack.
#[derive(Clone, Copy, Debug, PartialEq, Eq, Structural)]
pub struct ScratchRegisters {
    pub r11: usize,
    pub r10: usize,
    pub r9: usize,
    pub r8: usize,
    pub rsi: usize,
    pub rdi: usize,
    pub rdx: usize,
    pub rcx: usize,
    pub rax: usize,
}

impl ScratchRegisters {
    /// The text that lists the registers in decimal.
    pub open spec fn dump_text(&self) -> Seq<char> {
        "[ScratchRegisters] "@ + "RAX:"@ + decimal_text(self.rax as nat) + " RCX:"@ + decimal_text(self.rcx as nat) + " RDX:"@ + decimal_text(self.rdx as nat) + " RDI:"@ + decimal_text(self.rdi as nat) + " RSI:"@ + decimal_text(self.rsi as nat) + " R8:"@ + decimal_text(self.r8 as nat) + " R9:"@ + decimal_text(self.r9 as nat) + " R10:"@ + decimal_text(self.r10 as nat) + " R11:"@ + decimal_text(self.r11 as nat) + "\n"@
    }

    /// The registers in decimal, one after the other.
    pub fn dump(&self) -> (r: String)
        ensures
            r@ == self.dump_text(),
    {
        let mut s = String::from_str("[ScratchRegisters] ");
        s.append("RAX:");
        let v = decimal(self.rax as u64);
        s.append(v.as_str());
        s.append(" RCX:");
        let v = decimal(self.rcx as u64);
        s.append(v.as_str());
        s.append(" RDX:");
        let v = decimal(self.rdx as u64);
        s.append(v.as_str());
        s.append(" RDI:");
        let v = decimal(self.rdi as u64);
        s.append(v.as_str());
        s.append(" RSI:");
        let v = decimal(self.rsi as u64);
        s.append(v.as_str());
        s.append(" R8:");
        let v = decimal(self.r8 as u64);
        s.append(v.as_str());
        s.append(" R9:");
        let v = decimal(self.r9 as u64);
        s.append(v.as_str());
        s.append(" R10:");
        let v = decimal(self.r10 as u64);
        s.append(v.as_str());
        s.append(" R11:");
        let v = decimal(self.r11 as u64);
        s.append(v.as_str());
        s.append("\n");
        s
    }

    /// The `r11` register as an address, sign-extended from bit 47.
    pub fn r11(&self) -> (r: VirtAddr)
        requires
            as_address_ok(self.r11),
        ensures
            r@ == sign_extend(self.r11 as u64),
    {
        VirtAddr::new(self.r11 as u64)
    }

    /// The `r10` register as an address, sign-extended from bit 47.
    pub fn r10(&self) -> (r: VirtAddr)
        requires
            as_address_ok(self.r10),
        ensures
            r@ == sign_extend(self.r10 as u64),
    {
        VirtAddr::new(self.r10 as u64)
    }

    /// The `r9` register as an address, sign-extended from bit 47.
    pub fn r9(&self) -> (r: VirtAddr)
        requires
            as_address_ok(self.r9),
        ensures
            r@ == sign_extend(self.r9 as u64),
    {
        VirtAddr::new(self.r9 as u64)
    }

    /// The `r8` register as an address, sign-extended from bit 47.
    pub fn r8(&self) -> (r: VirtAddr)
        requires
            as_address_ok(self.r8),
        ensures
            r@ == sign_extend(self.r8 as u64),
    {
        VirtAddr::new(self.r8 as u64)
    }

    /// The `rsi` register as an address, sign-extended from bit 47.
    pub fn rsi(&self) -> (r: VirtAddr)
        requires
            as_address_ok(self.rsi),
        ensures
            r@ == sign_extend(self.rsi as u64),
    {
        VirtAddr::new(self.rsi as u64)
    }

    /// The `rdi` register as an address, sign-extended from bit 47.
    pub fn rdi(&self) -> (r: VirtAddr)
        requires
            as_address_ok(self.rdi),
        ensures
            r@ == sign_extend(self.rdi as u64),
    {
        VirtAddr::new(self.rdi as u64)
    }

    /// The `rdx` register as an address, sign-extended from bit 47.
    pub fn rdx(&self) -> (r: VirtAddr)
        requires
            as_address_ok(self.rdx),
        ensures
            r@ == sign_extend(self.rdx as u64),
    {
        VirtAddr::new(self.rdx as u64)
    }

    /// The `rcx` register as an address, sign-extended from bit 47.
    pub fn rcx(&self) -> (r: VirtAddr)
        requires
            as_address_ok(self.rcx),
        ensures
            r@ == sign_extend(self.rcx as u64),
    {
        VirtAddr::new(self.rcx as u64)
    }

    /// The `rax` register as an address, sign-extended from bit 47.
    pub fn rax(&self) -> (r: VirtAddr)
        requires
            as_address_ok(self.rax),
        ensures
            r@ == sign_extend(self.rax as u64),
    {
        VirtAddr::new(self.rax as u64)
    }

}

/// The registers a called function preserves, in the order they sit on the stack.
#[derive(Clone, Copy, Debug, PartialEq, Eq, Structural)]
pub struct PreservedRegisters {
    pub r15: usize,
    pub r14: usize,
    pub r13: usize,
    pub r12: usize,
    pub rbp: usize,
    pub rbx: usize,
}

impl PreservedRegisters {
    /// The text that lists the registers in decimal.
    pub open spec fn dump_text(&self) -> Seq<char> {
        "[PreservedRegisters] "@ + "r15:"@ + decimal_text(self.r15 as nat) + ",r14:"@ + decimal_text(self.r14 as nat) + ",r13:"@ + decimal_text(self.r13 as nat) + ",r12:"@ + decimal_text(self.r12 as nat) + ",rbp:"@ + decimal_text(self.rbp as nat) + ",rbx:"@ + decimal_text(self.rbx as nat) + "\n"@
    }

    /// The registers in decimal, one after the other.
    pub fn dump(&self) -> (r: String)
        ensures
            r@ == self.dump_text(),
    {
        let mut s = String::from_str("[PreservedRegisters] ");
        s.append("r15:");
        let v = decimal(self.r15 as u64);
        s.append(v.as_str());
        s.append(",r14:");
        let v = decimal(self.r14 as u64);
        s.append(v.as_str());
        s.append(",r13:");
        let v = decimal(self.r13 as u64);
        s.append(v.as_str());
        s.append(",r12:");
        let v = decimal(self.r12 as u64);
        s.append(v.as_str());
        s.append(",rbp:");
        let v = decimal(self.rbp as u64);
        s.append(v.as_str());
        s.append(",rbx:");
        let v = decimal(self.rbx as u64);
        s.append(v.as_str());
        s.append("\n");
        s
    }

    /// The `r15` register as an address, sign-extended from bit 47.
    pub fn r15(&self) -> (r: VirtAddr)
        requires
            as_address_ok(self.r15),
        ensures
            r@ == sign_extend(self.r15 as u64),
    {
        VirtAddr::new(self.r15 as u64)
    }

    /// The `r14` register as an address, sign-extended from bit 47.
    pub fn r14(&self) -> (r: VirtAddr)
        requires
            as_address_ok(self.r14),
        ensures
            r@ == sign_extend(self.r14 as u64),
    {
        VirtAddr::new(self.r14 as u64)
    }

    /// The `r13` register as an address, sign-extended from bit 47.
    pub fn r13(&self) -> (r: VirtAddr)
        requires
            as_address_ok(self.r13),
        ensures
            r@ == sign_extend(self.r13 as u64),
    {
        VirtAddr::new(self.r13 as u64)
    }

    /// The `r12` register as an address, sign-extended from bit 47.
    pub fn r12(&self) -> (r: VirtAddr)
        requires
            as_address_ok(self.r12),
        ensures
            r@ == sign_extend(self.r12 as u64),
    {
        VirtAddr::new(self.r12 as u64)
    }

    /// The `rbp` register as an address, sign-extended from bit 47.
    pub fn rbp(&self) -> (r: VirtAddr)
        requires
            as_address_ok(self.rbp),
        ensures
            r@ == sign_extend(self.rbp as u64),
    {
        VirtAddr::new(self.rbp as u64)
    }

    /// The `rbx` register as an address, sign-extended from bit 47.
    pub fn rbx(&self) -> (r: VirtAddr)
        requires
            as_address_ok(self.rbx),
        ensures
            r@ == sign_extend(self.rbx as u64),
    {
        VirtAddr::new(self.rbx as u64)
    }

}

/// The registers the processor pushes on an interrupt and `iretq` pops.
#[derive(Clone, Copy, Debug, PartialEq, Eq, Structural)]
pub struct IretRegisters {
    pub rip: usize,
    pub cs: usize,
    pub rflags: usize,
    pub rsp: usize,
    pub ss: usize,
}

impl IretRegisters {
    /// The text that lists the registers in decimal.
    pub open spec fn dump_text(&self) -> Seq<char> {
        "[IretRegister]: "@ + "rip:"@ + decimal_text(self.rip as nat) + ",cs:"@ + decimal_text(self.cs as nat) + ",rflags:"@ + decimal_text(self.rflags as nat) + ",rsp:"@ + decimal_text(self.rsp as nat) + ",ss:"@ + decimal_text(self.ss as nat) + "\n"@
    }

    /// The registers in decimal, one after the other.
    pub fn dump(&self) -> (r: String)
        ensures
            r@ == self.dump_text(),
    {
        let mut s = String::from_str("[IretRegister]: ");
        s.append("rip:");
        let v = decimal(self.rip as u64);
        s.append(v.as_str());
        s.append(",cs:");
        let v = decimal(self.cs as u64);
        s.append(v.as_str());
        s.append(",rflags:");
        let v = decimal(self.rflags as u64);
        s.append(v.as_str());
        s.append(",rsp:");
        let v = decimal(self.rsp as u64);
        s.append(v.as_str());
        s.append(",ss:");
        let v = decimal(self.ss as u64);
        s.append(v.as_str());
        s.append("\n");
        s
    }

    /// The `rip` register as an address, sign-extended from bit 47.
    pub fn rip(&self) -> (r: VirtAddr)
        requires
            as_address_ok(self.rip),
        ensures
            r@ == sign_extend(self.rip as u64),
    {
        VirtAddr::new(self.rip as u64)
    }

    /// The `cs` register as an address, sign-extended from bit 47.
    pub fn cs(&self) -> (r: VirtAddr)
        requires
            as_address_ok(self.cs),
        ensures
            r@ == sign_extend(self.cs as u64),
    {
        VirtAddr::new(self.cs as u64)
    }

    /// The `rflags` register as an address, sign-extended from bit 47.
    pub fn rflags(&self) -> (r: VirtAddr)
        requires
            as_address_ok(self.rflags),
        ensures
            r@ == sign_extend(self.rflags as u64),
    {
        VirtAddr::new(self.rflags as u64)
    }

    /// The `rsp` register as an address, sign-extended from bit 47.
    pub fn rsp(&self) -> (r: VirtAddr)
        requires
            as_address_ok(self.rsp),
        ensures
            r@ == sign_extend(self.rsp as u64),
    {
        VirtAddr::new(self.rsp as u64)
    }

    /// The `ss` register as an address, sign-extended from bit 47.
    pub fn ss(&self) -> (r: VirtAddr)
        requires
            as_address_ok(self.ss),
        ensures
            r@ == sign_extend(self.ss as u64),
    {
        VirtAddr::new(self.ss as u64)
    }

}

/// The stack of an interrupt handler: the FS selector, the preserved and the scratch
/// registers its entry code pushed, and the registers the processor pushed.
#[derive(Clone, Copy, Debug, PartialEq, Eq, Structural)]
pub struct InterruptStack {
    /// The FS selector.
    pub fs: usize,
    /// The preserved registers.
    pub preserved: PreservedRegisters,
    /// The scratch registers.
    pub scratch: ScratchRegisters,
    /// The registers `iretq` pops.
    pub iret: IretRegisters,
}

impl InterruptStack {
    /// The text of the FS selector and then of each register group.
    pub open spec fn dump_text(&self) -> Seq<char> {
        "[FS] "@ + decimal_text(self.fs as nat) + " \n"@ + self.preserved.dump_text() + " "@
            + self.scratch.dump_text() + " "@ + self.iret.dump_text()
    }

    /// The FS selector and then each register group, in decimal.
    pub fn dump(&self) -> (r: String)
        ensures
            r@ == self.dump_text(),
    {
        let mut s = String::from_str("[FS] ");
        let v = decimal(self.fs as u64);
        s.append(v.as_str());
        s.append(" \n");
        let p = self.preserved.dump();
        s.append(p.as_str());
        s.append(" ");
        let sc = self.scratch.dump();
        s.append(sc.as_str());
        s.append(" ");
        let i = self.iret.dump();
        s.append(i.as_str());
        s
    }

    /// The FS selector as an address, sign-extended from bit 47.
    pub fn fs(&self) -> (r: VirtAddr)
        requires
            as_address_ok(self.fs),
        ensures
            r@ == sign_extend(self.fs as u64),
    {
        VirtAddr::new(self.fs as u64)
    }
}

} // verus!
