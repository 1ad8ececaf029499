//! The 6502 register file.

use vstd::prelude::*;
use crate::disasm::{hex2, push_hex2};

verus! {

/// Registers and flags of the CPU, plus the number of cycles the current
/// instruction still occupies (`pause`).
#[derive(Clone, Copy, Debug)]
pub struct CPU {
    pub A: u8,
    pub X: u8,
    pub Y: u8,
    pub PC: u16,
    pub SP: u8,
    pub carry: bool,
    pub zero: bool,
    pub interupt_disable: bool,
    pub decimal: bool,
    pub break_cmd: bool,
    pub overflow: bool,
    pub negative: bool,
    pub pause: u8,
    pub jump: bool,
}

/// The processor status byte `NV-BDIZC`, bit 5 left clear.
pub open spec fn status_byte(c: CPU) -> u8 {
    ((if c.carry { 1int } else { 0 }) + (if c.zero { 2int } else { 0 }) + (if c.interupt_disable {
        4int
    } else {
        0
    }) + (if c.decimal { 8int } else { 0 }) + (if c.break_cmd { 16int } else { 0 }) + (if c.overflow {
        64int
    } else {
        0
    }) + (if c.negative { 128int } else { 0 })) as u8
}

impl CPU {
    /// The power-on state: PC at $FFFF, SP at $FD, interrupts disabled.
    pub open spec fn initial() -> CPU {
        CPU {
            A: 0,
            X: 0,
            Y: 0,
            PC: 0xFFFF,
            SP: 0xFD,
            carry: false,
            zero: false,
            interupt_disable: true,
            decimal: false,
            break_cmd: false,
            overflow: false,
            negative: false,
            pause: 0,
            jump: false,
        }
    }

    pub fn new() -> (r: CPU)
        ensures
            r == CPU::initial(),
    {
        CPU {
            A: 0,
            X: 0,
            Y: 0,
            PC: 0xFFFF,
            SP: 0xFD,
            carry: false,
            zero: false,
            interupt_disable: true,
            decimal: false,
            break_cmd: false,
            overflow: false,
            negative: false,
            pause: 0,
            jump: false,
        }
    }

    /// Packs the flags into the status byte that the CPU pushes.
    pub fn status(&self) -> (p: u8)
        ensures
            p == status_byte(*self),
    {
        let mut p: u8 = 0x00;
        if self.carry {
            p = p + 0x01;
        }
        if self.zero {
            p = p + 0x02;
        }
        if self.interupt_disable {
            p = p + 0x04;
        }
        if self.decimal {
            p = p + 0x08;
        }
        if self.break_cmd {
            p = p + 0x10;
        }
        if self.overflow {
            p = p + 0x40;
        }
        if self.negative {
            p = p + 0x80;
        }
        p
    }
}


/// The letter of flag `which` (0 to 6: N, V, B, D, I, Z, C), upper case when set.
pub open spec fn flag_char(set: bool, which: u8) -> char {
    if which == 0 {
        if set {
            'N'
        } else {
            'n'
        }
    } else     if which == 1 {
        if set {
            'V'
        } else {
            'v'
        }
    } else     if which == 2 {
        if set {
            'B'
        } else {
            'b'
        }
    } else     if which == 3 {
        if set {
            'D'
        } else {
            'd'
        }
    } else     if which == 4 {
        if set {
            'I'
        } else {
            'i'
        }
    } else     if which == 5 {
        if set {
            'Z'
        } else {
            'z'
        }
    } else     if which == 6 {
        if set {
            'C'
        } else {
            'c'
        }
    } else {
        's'
    }
}

/// The flags as the trace prints them: `NV`, `s`, `BDIZC`, upper case when set.
pub open spec fn flags_text(c: CPU) -> Seq<char> {
    seq![
        flag_char(c.negative, 0),
        flag_char(c.overflow, 1),
        's',
        flag_char(c.break_cmd, 2),
        flag_char(c.decimal, 3),
        flag_char(c.interupt_disable, 4),
        flag_char(c.zero, 5),
        flag_char(c.carry, 6),
    ]
}

/// The register line of the trace: `A:`, `X:`, `Y:` and `SP:` in hexadecimal,
/// then `P:` and the flags.
pub open spec fn cpu_text(c: CPU) -> Seq<char> {
    "A:"@ + hex2(c.A as int) + " X:"@ + hex2(c.X as int) + " Y:"@ + hex2(c.Y as int) + " SP:"@
        + hex2(c.SP as int) + " P:"@ + flags_text(c)
}

fn push_flag(s: &mut String, set: bool, which: u8)
    requires
        which < 7,
    ensures
        final(s)@ == old(s)@.push(flag_char(set, which)),
{
    if which == 0 {
        if set {
            proof {
                reveal_strlit("N");
            }
            s.append("N");
        } else {
            proof {
                reveal_strlit("n");
            }
            s.append("n");
        }
    } else if which == 1 {
        if set {
            proof {
                reveal_strlit("V");
            }
            s.append("V");
        } else {
            proof {
                reveal_strlit("v");
            }
            s.append("v");
        }
    } else if which == 2 {
        if set {
            proof {
                reveal_strlit("B");
            }
            s.append("B");
        } else {
            proof {
                reveal_strlit("b");
            }
            s.append("b");
        }
    } else if which == 3 {
        if set {
            proof {
                reveal_strlit("D");
            }
            s.append("D");
        } else {
            proof {
                reveal_strlit("d");
            }
            s.append("d");
        }
    } else if which == 4 {
        if set {
            proof {
                reveal_strlit("I");
            }
            s.append("I");
        } else {
            proof {
                reveal_strlit("i");
            }
            s.append("i");
        }
    } else if which == 5 {
        if set {
            proof {
                reveal_strlit("Z");
            }
            s.append("Z");
        } else {
            proof {
                reveal_strlit("z");
            }
            s.append("z");
        }
    } else if which == 6 {
        if set {
            proof {
                reveal_strlit("C");
            }
            s.append("C");
        } else {
            proof {
                reveal_strlit("c");
            }
            s.append("c");
        }
    }
}

fn push_flags(s: &mut String, c: &CPU)
    ensures
        final(s)@ == old(s)@ + flags_text(*c),
{
    push_flag(s, c.negative, 0);
    push_flag(s, c.overflow, 1);
    proof {
        reveal_strlit("s");
    }
    s.append("s");
    push_flag(s, c.break_cmd, 2);
    push_flag(s, c.decimal, 3);
    push_flag(s, c.interupt_disable, 4);
    push_flag(s, c.zero, 5);
    push_flag(s, c.carry, 6);
    assert(s@ =~= old(s)@ + flags_text(*c));
}

impl CPU {
    /// The register line of the trace (`cpu_text`).
    pub fn to_string(&self) -> (s: String)
        ensures
            s@ == cpu_text(*self),
    {
        let mut s = String::from_str("A:");
        push_hex2(&mut s, self.A);
        s.append(" X:");
        push_hex2(&mut s, self.X);
        s.append(" Y:");
        push_hex2(&mut s, self.Y);
        s.append(" SP:");
        push_hex2(&mut s, self.SP);
        s.append(" P:");
        push_flags(&mut s, self);
        assert(s@ =~= cpu_text(*self));
        s
    }
}

} // verus!
