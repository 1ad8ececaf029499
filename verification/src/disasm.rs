//! The disassembler behind the debugger's trace: the mnemonic of each opcode,
//! the operand address of the instruction at PC, and the listing line.
//!
//! Working out the address reads the operand bytes through the bus, as the
//! interpreter does, and the listing of an address outside the I/O range also
//! shows the byte there; reads of PPU registers have their usual side effects.

use vstd::prelude::*;
use crate::console::{Console, ConsoleState};
use crate::memory::{bus_read, bus_read16, read, read16, read16_defined, read_defined};
use crate::opcodes::{
    fetch_operand_byte, fetch_operand_indirect, fetch_operand_word, fetch_operand_word_plus,
    operand_byte, operand_indirect, operand_word, operand_word_plus, try_operand_byte,
    try_operand_indirect, try_operand_word, try_operand_word_plus, zp_index, zp_indexed,
};

verus! {

/// The mnemonic of each opcode, undocumented ones included.
pub const OPNAMES: [&'static str; 256] = [
    "BRK", "ORA", "STP", "SLO", "NOP", "ORA", "ASL", "SLO", "PHP", "ORA", "ASL", "ANC", "NOP", "ORA", "ASL", "SLO",
    "BPL", "ORA", "STP", "SLO", "NOP", "ORA", "ASL", "SLO", "CLC", "ORA", "NOP", "SLO", "NOP", "ORA", "ASL", "SLO",
    "JSR", "AND", "STP", "RLA", "BIT", "AND", "ROL", "RLA", "PLP", "AND", "ROL", "ANC", "BIT", "AND", "ROL", "RLA",
    "BMI", "AND", "STP", "RLA", "NOP", "AND", "ROL", "RLA", "SEC", "AND", "NOP", "RLA", "NOP", "AND", "ROL", "RLA",
    "RTI", "EOR", "STP", "SRE", "NOP", "EOR", "LSR", "SRE", "PHA", "EOR", "LSR", "ALR", "JMP", "EOR", "LSR", "SRE",
    "BVC", "EOR", "STP", "SRE", "NOP", "EOR", "LSR", "SRE", "CLI", "EOR", "NOP", "SRE", "NOP", "EOR", "LSR", "SRE",
    "RTS", "ADC", "STP", "RRA", "NOP", "ADC", "ROR", "RRA", "PLA", "ADC", "ROR", "ARR", "JMP", "ADC", "ROR", "RRA",
    "BVS", "ADC", "STP", "RRA", "NOP", "ADC", "ROR", "RRA", "SEI", "ADC", "NOP", "RRA", "NOP", "ADC", "ROR", "RRA",
    "NOP", "STA", "NOP", "SAX", "STY", "STA", "STX", "SAX", "DEY", "NOP", "TXA", "XAA", "STY", "STA", "STX", "SAX",
    "BCC", "STA", "STP", "AHX", "STY", "STA", "STX", "SAX", "TYA", "STA", "TXS", "TAS", "SHY", "STA", "SHX", "AHX",
    "LDY", "LDA", "LDX", "LAX", "LDY", "LDA", "LDX", "LAX", "TAY", "LDA", "TAX", "LAX", "LDY", "LDA", "LDX", "LAX",
    "BCS", "LDA", "STP", "LAX", "LDY", "LDA", "LDX", "LAX", "CLV", "LDA", "TSX", "LAS", "LDY", "LDA", "LDX", "LAX",
    "CPY", "CMP", "NOP", "DCP", "CPY", "CMP", "DEC", "DCP", "INY", "CMP", "DEX", "AXS", "CPY", "CMP", "DEC", "DCP",
    "BNE", "CMP", "STP", "DCP", "NOP", "CMP", "DEC", "DCP", "CLD", "CMP", "NOP", "DCP", "NOP", "CMP", "DEC", "DCP",
    "CPX", "SBC", "NOP", "ISC", "CPX", "SBC", "INC", "ISC", "INX", "SBC", "NOP", "SBC", "CPX", "SBC", "INC", "ISC",
    "BEQ", "SBC", "STP", "ISC", "NOP", "SBC", "INC", "ISC", "SED", "SBC", "NOP", "ISC", "NOP", "SBC", "INC", "ISC",
];

/// The mnemonic of `opcode`.
pub fn opcode_name(opcode: u8) -> (r: &'static str)
    ensures
        r@ == OPNAMES@[opcode as int]@,
{
    OPNAMES[opcode as usize]
}

/// The character of a hexadecimal digit, upper case.
pub open spec fn hex_digit(d: int) -> char {
    if d < 10 {
        (48 + d) as char
    } else {
        (55 + d) as char
    }
}

/// `v` as two upper-case hexadecimal digits.
pub open spec fn hex2(v: int) -> Seq<char> {
    seq![hex_digit((v / 16) % 16), hex_digit(v % 16)]
}

/// `v` as four upper-case hexadecimal digits.
pub open spec fn hex4(v: int) -> Seq<char> {
    hex2(v / 256) + hex2(v % 256)
}

/// An address as the listing prints it: two digits below $100, four above.
pub open spec fn address_text(addr: u16) -> Seq<char> {
    if addr < 0x100 {
        hex2(addr as int)
    } else {
        hex4(addr as int)
    }
}

/// The target of a relative branch at `pc` with offset byte `num`, as the
/// listing computes it: `pc + 2` plus the signed offset, the sum before the 2
/// taken modulo 65536.
pub open spec fn branch_target(pc: u16, num: u8) -> Option<u16> {
    let base: int = if num >= 128 {
        (pc as int + num as int - 256) % 65536
    } else {
        pc as int + num as int
    };
    if base + 2 <= u16::MAX {
        Some((base + 2) as u16)
    } else {
        None
    }
}

/// The address that the listing shows for the instruction `opcode` at PC, and
/// the machine after the reads needed to find it; 0 where the mode has no memory operand.
pub open spec fn listing_address(m: ConsoleState, opcode: u8) -> Option<(u16, ConsoleState)> {
    let aaa = opcode >> 5u8;
    let bbb = (opcode >> 2u8) & 7;
    let cc = opcode & 3;
    if cc == 0 {
        listing_address_group0(m, opcode, aaa, bbb)
    } else if cc == 1 {
        listing_address_group1(m, bbb)
    } else if cc == 2 {
        listing_address_group2(m, opcode, aaa, bbb)
    } else {
        None
    }
}

/// The byte after the opcode, as an address.
pub open spec fn operand_zp(m: ConsoleState) -> Option<(u16, ConsoleState)> {
    match operand_byte(m) {
        Some((v, m1)) => Some((v as u16, m1)),
        None => None,
    }
}

/// The address after the opcode.
pub open spec fn operand_immediate(m: ConsoleState) -> Option<(u16, ConsoleState)> {
    if m.cpu.PC == 0xFFFF {
        None
    } else {
        Some(((m.cpu.PC + 1) as u16, m))
    }
}

/// Listing addresses for opcodes with `cc == 00`.
pub open spec fn listing_address_group0(m: ConsoleState, opcode: u8, aaa: u8, bbb: u8) -> Option<(u16, ConsoleState)> {
    if bbb == 0 {
        if aaa > 3 {
            operand_immediate(m)
        } else if opcode == 0x20 {
            operand_word(m)
        } else {
            Some((0u16, m))
        }
    } else if bbb == 1 {
        operand_zp(m)
    } else if bbb == 3 {
        if opcode == 0x6C {
            operand_indirect(m)
        } else {
            operand_word(m)
        }
    } else if bbb == 4 {
        match operand_byte(m) {
            Some((num, m1)) => match branch_target(m1.cpu.PC, num) {
                Some(t) => Some((t, m1)),
                None => None,
            },
            None => None,
        }
    } else if bbb == 5 {
        match operand_byte(m) {
            Some((v, m1)) => if v + m1.cpu.X <= u8::MAX {
                Some((((v + m1.cpu.X) as u16 % 0xFF) as u16, m1))
            } else {
                None
            },
            None => None,
        }
    } else if bbb == 7 {
        operand_word_plus(m, m.cpu.X)
    } else {
        Some((0u16, m))
    }
}

/// Listing addresses for opcodes with `cc == 01`.
pub open spec fn listing_address_group1(m: ConsoleState, bbb: u8) -> Option<(u16, ConsoleState)> {
    if bbb == 0 {
        match operand_byte(m) {
            Some((t, m1)) => bus_read16(m1, zp_indexed(t, m1.cpu.X)),
            None => None,
        }
    } else if bbb == 1 {
        operand_zp(m)
    } else if bbb == 2 {
        operand_immediate(m)
    } else if bbb == 3 {
        operand_word(m)
    } else if bbb == 4 {
        match operand_byte(m) {
            Some((t, m1)) => match bus_read16(m1, t as u16) {
                Some((v, m2)) => if v + m2.cpu.Y <= u16::MAX {
                    Some(((v + m2.cpu.Y) as u16, m2))
                } else {
                    None
                },
                None => None,
            },
            None => None,
        }
    } else if bbb == 5 {
        match operand_byte(m) {
            Some((v, m1)) => Some((zp_indexed(v, m1.cpu.X), m1)),
            None => None,
        }
    } else if bbb == 6 {
        operand_word_plus(m, m.cpu.Y)
    } else {
        operand_word_plus(m, m.cpu.X)
    }
}

/// Listing addresses for opcodes with `cc == 10`.
pub open spec fn listing_address_group2(m: ConsoleState, opcode: u8, aaa: u8, bbb: u8) -> Option<(u16, ConsoleState)> {
    if bbb == 0 {
        if aaa > 3 {
            operand_immediate(m)
        } else {
            Some((0u16, m))
        }
    } else if bbb == 1 {
        operand_zp(m)
    } else if bbb == 3 {
        operand_word(m)
    } else if bbb == 5 {
        let index = if opcode == 0x96 || opcode == 0xB6 {
            m.cpu.Y
        } else {
            m.cpu.X
        };
        match operand_byte(m) {
            Some((v, m1)) => Some((zp_indexed(v, index), m1)),
            None => None,
        }
    } else if bbb == 7 {
        if opcode == 0x9E || opcode == 0xBE {
            operand_word_plus(m, m.cpu.Y)
        } else {
            operand_word_plus(m, m.cpu.X)
        }
    } else {
        Some((0u16, m))
    }
}

/// Whether the listing shows the byte at `addr`: outside the PPU and APU
/// registers and the joypad port.
pub open spec fn shows_value(addr: u16) -> bool {
    addr != 0x4016 && (addr < 0x2000 || addr >= 0x6000)
}

/// A listing line: the mnemonic, ` $` and the address, and, when a byte is
/// given, ` (#`, the byte in two hexadecimal digits and `)`.
pub open spec fn listing_line(name: Seq<char>, addr: u16, value: Option<u8>) -> Seq<char> {
    let head = name + seq![' ', '$'] + address_text(addr);
    match value {
        Some(v) => head + seq![' ', '(', '#'] + hex2(v as int) + seq![')'],
        None => head,
    }
}

/// The listing line of the instruction `opcode` at PC and the machine after the
/// reads it makes: the mnemonic alone for the opcodes `x8`; otherwise the
/// mnemonic, `$` and the address, and, where `shows_value`, ` (#` and the byte
/// there and `)`.
pub open spec fn instruction_text(m: ConsoleState, opcode: u8) -> Option<(Seq<char>, ConsoleState)> {
    let name = OPNAMES@[opcode as int]@;
    match listing_address(m, opcode) {
        Some((addr, m1)) => if opcode & 0x0F == 0x8 {
            Some((name, m1))
        } else if shows_value(addr) {
            match bus_read(m1, addr) {
                Some((v, m2)) => Some((listing_line(name, addr, Some(v)), m2)),
                None => None,
            }
        } else {
            Some((listing_line(name, addr, None), m1))
        },
        None => None,
    }
}

/// The string of one hexadecimal digit.
fn hex_digit_str(d: u8) -> (r: &'static str)
    requires
        d < 16,
    ensures
        r@ == seq![hex_digit(d as int)],
{
    if d == 0 {
        proof {
            reveal_strlit("0");
        }
        "0"
    } else if d == 1 {
        proof {
            reveal_strlit("1");
        }
        "1"
    } else if d == 2 {
        proof {
            reveal_strlit("2");
        }
        "2"
    } else if d == 3 {
        proof {
            reveal_strlit("3");
        }
        "3"
    } else if d == 4 {
        proof {
            reveal_strlit("4");
        }
        "4"
    } else if d == 5 {
        proof {
            reveal_strlit("5");
        }
        "5"
    } else if d == 6 {
        proof {
            reveal_strlit("6");
        }
        "6"
    } else if d == 7 {
        proof {
            reveal_strlit("7");
        }
        "7"
    } else if d == 8 {
        proof {
            reveal_strlit("8");
        }
        "8"
    } else if d == 9 {
        proof {
            reveal_strlit("9");
        }
        "9"
    } else if d == 10 {
        proof {
            reveal_strlit("A");
        }
        "A"
    } else if d == 11 {
        proof {
            reveal_strlit("B");
        }
        "B"
    } else if d == 12 {
        proof {
            reveal_strlit("C");
        }
        "C"
    } else if d == 13 {
        proof {
            reveal_strlit("D");
        }
        "D"
    } else if d == 14 {
        proof {
            reveal_strlit("E");
        }
        "E"
    } else {
        proof {
            reveal_strlit("F");
        }
        "F"
    }
}

/// Appends `v` as two hexadecimal digits.
pub fn push_hex2(s: &mut String, v: u8)
    ensures
        final(s)@ == old(s)@ + hex2(v as int),
{
    s.append(hex_digit_str(v / 16));
    s.append(hex_digit_str(v % 16));
}

/// Appends `v` as four hexadecimal digits.
pub fn push_hex4(s: &mut String, v: u16)
    ensures
        final(s)@ == old(s)@ + hex4(v as int),
{
    push_hex2(s, (v / 256) as u8);
    push_hex2(s, (v % 256) as u8);
}

fn fetch_zp(console: &mut Console) -> (addr: u16)
    requires
        old(console)@.wf(),
        operand_zp(old(console)@) is Some,
    ensures
        operand_zp(old(console)@) == Some((addr, final(console)@)),
        final(console)@.wf(),
{
    fetch_operand_byte(console) as u16
}

fn branch_destination(pc: u16, num: u8) -> (r: u16)
    requires
        branch_target(pc, num) is Some,
    ensures
        branch_target(pc, num) == Some(r),
{
    if (num & 0x80) != 0 {
        assert((num & 0x80) != 0 ==> num >= 128) by (bit_vector);
        let back: i32 = ((!num) as i32 + 1) * -1;
        assert(back == num - 256) by (bit_vector)
            requires
                back == ((!num) as i32 + 1) * -1,
                num >= 128,
        ;
        let sum: i32 = pc as i32 + back;
        let wrapped = sum as u16;
        assert(wrapped == (pc as int + num as int - 256) % 65536) by (bit_vector)
            requires
                sum == pc as i32 + back,
                back == num - 256,
                wrapped == sum as u16,
        ;
        wrapped + 2
    } else {
        assert((num & 0x80) == 0 ==> num < 128) by (bit_vector);
        pc + num as u16 + 2
    }
}

fn listing_group0(console: &mut Console, opcode: u8, aaa: u8, bbb: u8) -> (addr: u16)
    requires
        old(console)@.wf(),
        listing_address_group0(old(console)@, opcode, aaa, bbb) is Some,
    ensures
        listing_address_group0(old(console)@, opcode, aaa, bbb) == Some((addr, final(console)@)),
        final(console)@.wf(),
{
    let pc = console.CPU.PC;
    if bbb == 0b000 {
        // immediate
        if aaa > 0b011 {
            pc + 1
        } else if opcode == 0x20 {
            fetch_operand_word(console)
        } else {
            0
        }
    } else if bbb == 0b001 {
        // zero page
        fetch_zp(console)
    } else if bbb == 0b011 {
        // absolute
        if opcode == 0x6C {
            fetch_operand_indirect(console)
        } else {
            fetch_operand_word(console)
        }
    } else if bbb == 0b100 {
        // relative
        let num = fetch_operand_byte(console);
        branch_destination(console.CPU.PC, num)
    } else if bbb == 0b101 {
        // zero page indexed by X
        let v = fetch_operand_byte(console);
        ((v + console.CPU.X) as u16) % 0xFF
    } else if bbb == 0b111 {
        // absolute indexed by X
        let x = console.CPU.X;
        fetch_operand_word_plus(console, x)
    } else {
        0
    }
}

fn listing_group1(console: &mut Console, bbb: u8) -> (addr: u16)
    requires
        old(console)@.wf(),
        bbb < 8,
        listing_address_group1(old(console)@, bbb) is Some,
    ensures
        listing_address_group1(old(console)@, bbb) == Some((addr, final(console)@)),
        final(console)@.wf(),
{
    if bbb == 0b000 {
        // (zp,X)
        let temp = fetch_operand_byte(console);
        let p = zp_index(temp, console.CPU.X);
        read16(console, p)
    } else if bbb == 0b001 {
        // zp
        fetch_zp(console)
    } else if bbb == 0b010 {
        // immed
        console.CPU.PC + 1
    } else if bbb == 0b011 {
        // abs
        fetch_operand_word(console)
    } else if bbb == 0b100 {
        // (zp), Y
        let temp = fetch_operand_byte(console) as u16;
        read16(console, temp) + console.CPU.Y as u16
    } else if bbb == 0b101 {
        // zp,X
        let v = fetch_operand_byte(console);
        zp_index(v, console.CPU.X)
    } else if bbb == 0b110 {
        // abs, Y
        let y = console.CPU.Y;
        fetch_operand_word_plus(console, y)
    } else {
        // abs, X
        let x = console.CPU.X;
        fetch_operand_word_plus(console, x)
    }
}

fn listing_group2(console: &mut Console, opcode: u8, aaa: u8, bbb: u8) -> (addr: u16)
    requires
        old(console)@.wf(),
        listing_address_group2(old(console)@, opcode, aaa, bbb) is Some,
    ensures
        listing_address_group2(old(console)@, opcode, aaa, bbb) == Some((addr, final(console)@)),
        final(console)@.wf(),
{
    if bbb == 0b000 {
        if aaa > 0b011 {
            console.CPU.PC + 1
        } else {
            0
        }
    } else if bbb == 0b001 {
        // zp
        fetch_zp(console)
    } else if bbb == 0b011 {
        // abs
        fetch_operand_word(console)
    } else if bbb == 0b101 {
        if opcode == 0x96 || opcode == 0xB6 {
            // zp, Y
            let y = console.CPU.Y;
            let v = fetch_operand_byte(console);
            zp_index(v, y)
        } else {
            // zp, X
            let x = console.CPU.X;
            let v = fetch_operand_byte(console);
            zp_index(v, x)
        }
    } else if bbb == 0b111 {
        if opcode == 0x9E || opcode == 0xBE {
            let y = console.CPU.Y;
            fetch_operand_word_plus(console, y)
        } else {
            let x = console.CPU.X;
            fetch_operand_word_plus(console, x)
        }
    } else {
        0
    }
}

/// Builds a listing line (`listing_line`).
pub fn format_line(name: &str, addr: u16, value: Option<u8>) -> (s: String)
    ensures
        s@ == listing_line(name@, addr, value),
{
    proof {
        reveal_strlit(" $");
        reveal_strlit(" (#");
        reveal_strlit(")");
    }
    let mut s = String::from_str(name);
    s.append(" $");
    if addr < 0x100 {
        push_hex2(&mut s, addr as u8);
    } else {
        push_hex4(&mut s, addr);
    }
    match value {
        Some(v) => {
            s.append(" (#");
            push_hex2(&mut s, v);
            s.append(")");
        },
        None => {},
    }
    s
}

/// Works out the address that the listing shows for `opcode` at PC.
pub fn listing_address_of(console: &mut Console, opcode: u8) -> (addr: u16)
    requires
        old(console)@.wf(),
        listing_address(old(console)@, opcode) is Some,
    ensures
        listing_address(old(console)@, opcode) == Some((addr, final(console)@)),
        final(console)@.wf(),
{
    let aaa = (opcode & 0b11100000) >> 5u8;
    let bbb = (opcode & 0b00011100) >> 2u8;
    let cc = opcode & 0b00000011;
    assert(aaa == opcode >> 5u8 && bbb == (opcode >> 2u8) & 7 && cc == opcode & 3 && bbb < 8)
        by (bit_vector)
        requires
            aaa == (opcode & 0b11100000) >> 5u8,
            bbb == (opcode & 0b00011100) >> 2u8,
            cc == opcode & 0b00000011,
    ;
    if cc == 0b00 {
        listing_group0(console, opcode, aaa, bbb)
    } else if cc == 0b01 {
        listing_group1(console, bbb)
    } else {
        listing_group2(console, opcode, aaa, bbb)
    }
}

/// The listing line of the instruction `opcode` at PC, as the trace prints it.
pub fn InstructionToString(console: &mut Console, opcode: u8) -> (text: String)
    requires
        old(console)@.wf(),
        instruction_text(old(console)@, opcode) is Some,
    ensures
        instruction_text(old(console)@, opcode) == Some((text@, final(console)@)),
        final(console)@.wf(),
{
    let addr = listing_address_of(console, opcode);
    let name = opcode_name(opcode);
    if opcode & 0x0F == 0x8 {
        return String::from_str(name);
    }
    if addr != 0x4016 && (addr < 0x2000 || addr >= 0x6000) {
        let v = read(console, addr);
        format_line(name, addr, Some(v))
    } else {
        format_line(name, addr, None)
    }
}

// ---------------------------------------------------------------------------
// The checked listing: the same line, telling where it is not defined
// ---------------------------------------------------------------------------

fn branch_target_defined(pc: u16, num: u8) -> (r: bool)
    ensures
        r == branch_target(pc, num) is Some,
{
    if num >= 128 {
        let sum = pc as u32 + num as u32;
        let base: u32 = if sum >= 256 {
            sum - 256
        } else {
            sum + 65536 - 256
        };
        assert(base == (pc as int + num as int - 256) % 65536);
        base + 2 <= 0xFFFF
    } else {
        pc as u32 + num as u32 + 2 <= 0xFFFF
    }
}

fn try_listing_group0(console: &mut Console, opcode: u8, aaa: u8, bbb: u8) -> (r: Option<u16>)
    requires
        old(console)@.wf(),
    ensures
        r is Some == listing_address_group0(old(console)@, opcode, aaa, bbb) is Some,
        r is Some ==> listing_address_group0(old(console)@, opcode, aaa, bbb) == Some(
            (r->0, final(console)@),
        ),
        final(console)@.wf(),
{
    let pc = console.CPU.PC;
    if bbb == 0b000 {
        if aaa > 0b011 {
            if pc < 0xFFFF {
                Some(pc + 1)
            } else {
                None
            }
        } else if opcode == 0x20 {
            try_operand_word(console)
        } else {
            Some(0)
        }
    } else if bbb == 0b001 {
        match try_operand_byte(console) {
            Some(v) => Some(v as u16),
            None => None,
        }
    } else if bbb == 0b011 {
        if opcode == 0x6C {
            try_operand_indirect(console)
        } else {
            try_operand_word(console)
        }
    } else if bbb == 0b100 {
        match try_operand_byte(console) {
            Some(num) => if branch_target_defined(console.CPU.PC, num) {
                Some(branch_destination(console.CPU.PC, num))
            } else {
                None
            },
            None => None,
        }
    } else if bbb == 0b101 {
        match try_operand_byte(console) {
            Some(v) => if v <= u8::MAX - console.CPU.X {
                Some(((v + console.CPU.X) as u16) % 0xFF)
            } else {
                None
            },
            None => None,
        }
    } else if bbb == 0b111 {
        let x = console.CPU.X;
        try_operand_word_plus(console, x)
    } else {
        Some(0)
    }
}

fn try_listing_group1(console: &mut Console, bbb: u8) -> (r: Option<u16>)
    requires
        old(console)@.wf(),
        bbb < 8,
    ensures
        r is Some == listing_address_group1(old(console)@, bbb) is Some,
        r is Some ==> listing_address_group1(old(console)@, bbb) == Some((r->0, final(console)@)),
        final(console)@.wf(),
{
    if bbb == 0b000 {
        match try_operand_byte(console) {
            Some(t) => {
                let p = zp_index(t, console.CPU.X);
                if read16_defined(console, p) {
                    Some(read16(console, p))
                } else {
                    None
                }
            },
            None => None,
        }
    } else if bbb == 0b001 {
        match try_operand_byte(console) {
            Some(v) => Some(v as u16),
            None => None,
        }
    } else if bbb == 0b010 {
        if console.CPU.PC < 0xFFFF {
            Some(console.CPU.PC + 1)
        } else {
            None
        }
    } else if bbb == 0b011 {
        try_operand_word(console)
    } else if bbb == 0b100 {
        match try_operand_byte(console) {
            Some(t) => {
                if read16_defined(console, t as u16) {
                    let v = read16(console, t as u16);
                    if v <= u16::MAX - console.CPU.Y as u16 {
                        Some(v + console.CPU.Y as u16)
                    } else {
                        None
                    }
                } else {
                    None
                }
            },
            None => None,
        }
    } else if bbb == 0b101 {
        match try_operand_byte(console) {
            Some(v) => Some(zp_index(v, console.CPU.X)),
            None => None,
        }
    } else if bbb == 0b110 {
        let y = console.CPU.Y;
        try_operand_word_plus(console, y)
    } else {
        let x = console.CPU.X;
        try_operand_word_plus(console, x)
    }
}

fn try_listing_group2(console: &mut Console, opcode: u8, aaa: u8, bbb: u8) -> (r: Option<u16>)
    requires
        old(console)@.wf(),
    ensures
        r is Some == listing_address_group2(old(console)@, opcode, aaa, bbb) is Some,
        r is Some ==> listing_address_group2(old(console)@, opcode, aaa, bbb) == Some(
            (r->0, final(console)@),
        ),
        final(console)@.wf(),
{
    if bbb == 0b000 {
        if aaa > 0b011 {
            if console.CPU.PC < 0xFFFF {
                Some(console.CPU.PC + 1)
            } else {
                None
            }
        } else {
            Some(0)
        }
    } else if bbb == 0b001 {
        match try_operand_byte(console) {
            Some(v) => Some(v as u16),
            None => None,
        }
    } else if bbb == 0b011 {
        try_operand_word(console)
    } else if bbb == 0b101 {
        let i = if opcode == 0x96 || opcode == 0xB6 {
            console.CPU.Y
        } else {
            console.CPU.X
        };
        match try_operand_byte(console) {
            Some(v) => Some(zp_index(v, i)),
            None => None,
        }
    } else if bbb == 0b111 {
        let i = if opcode == 0x9E || opcode == 0xBE {
            console.CPU.Y
        } else {
            console.CPU.X
        };
        try_operand_word_plus(console, i)
    } else {
        Some(0)
    }
}

fn try_listing_address(console: &mut Console, opcode: u8) -> (r: Option<u16>)
    requires
        old(console)@.wf(),
    ensures
        r is Some == listing_address(old(console)@, opcode) is Some,
        r is Some ==> listing_address(old(console)@, opcode) == Some((r->0, final(console)@)),
        final(console)@.wf(),
{
    let aaa = (opcode & 0b11100000) >> 5u8;
    let bbb = (opcode & 0b00011100) >> 2u8;
    let cc = opcode & 0b00000011;
    assert(aaa == opcode >> 5u8 && bbb == (opcode >> 2u8) & 7 && cc == opcode & 3 && bbb < 8)
        by (bit_vector)
        requires
            aaa == (opcode & 0b11100000) >> 5u8,
            bbb == (opcode & 0b00011100) >> 2u8,
            cc == opcode & 0b00000011,
    ;
    if cc == 0b00 {
        try_listing_group0(console, opcode, aaa, bbb)
    } else if cc == 0b01 {
        try_listing_group1(console, bbb)
    } else if cc == 0b10 {
        try_listing_group2(console, opcode, aaa, bbb)
    } else {
        None
    }
}

/// The listing line of the instruction `opcode` at PC, as `InstructionToString`
/// builds it, where the listing is defined (`instruction_text` is `Some`); where
/// it is not, `None`, and the machine is left part-way through the reads.
pub fn try_instruction_to_string(console: &mut Console, opcode: u8) -> (r: Option<String>)
    requires
        old(console)@.wf(),
    ensures
        r is Some == instruction_text(old(console)@, opcode) is Some,
        r is Some ==> instruction_text(old(console)@, opcode) == Some((r->0@, final(console)@)),
        final(console)@.wf(),
{
    let addr = match try_listing_address(console, opcode) {
        Some(a) => a,
        None => {
            return None;
        },
    };
    let name = opcode_name(opcode);
    if opcode & 0x0F == 0x8 {
        return Some(String::from_str(name));
    }
    if addr != 0x4016 && (addr < 0x2000 || addr >= 0x6000) {
        if read_defined(console, addr) {
            let v = read(console, addr);
            Some(format_line(name, addr, Some(v)))
        } else {
            None
        }
    } else {
        Some(format_line(name, addr, None))
    }
}

} // verus!
