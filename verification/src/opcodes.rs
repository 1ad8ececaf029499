//! The instruction interpreter: one call runs one CPU step.
//!
//! A step either spends one of the cycles that the previous instruction still
//! occupies, or decodes a new instruction: it sets the cycle count, works out
//! the operand address from the addressing mode, and performs the operation.
//! The operations the interpreter implements are those of `Op` other than
//! `Op::NoEffect`; the other documented opcodes are decoded but leave the
//! machine as it was, apart from the program counter and the cycle count.
//!
//! `opcode_step` describes a step; it is `None` exactly where the step is not
//! defined (an undocumented or STP opcode, a bus access that `bus_read` or
//! `bus_write` does not define, or a register or address computation that would
//! leave its width).

use vstd::prelude::*;
use crate::console::{Console, ConsoleState};
use crate::cpu::{CPU, status_byte};
use crate::memory::{bus_read, bus_read16, bus_write, read, read16, read16_defined, read_defined, write_defined};

verus! {

/// Cycles that each opcode takes.
pub const CYCLE_COUNT: [u8; 256] = [
    7, 6, 2, 8, 3, 3, 5, 5, 3, 2, 2, 2, 4, 4, 6, 6,
    2, 5, 2, 8, 4, 4, 6, 6, 2, 4, 2, 7, 4, 4, 7, 7,
    6, 6, 2, 8, 3, 3, 5, 5, 4, 2, 2, 2, 4, 4, 6, 6,
    2, 5, 2, 8, 4, 4, 6, 6, 2, 4, 2, 7, 4, 4, 7, 7,
    6, 6, 2, 8, 3, 3, 5, 5, 3, 2, 2, 2, 3, 4, 6, 6,
    2, 5, 2, 8, 4, 4, 6, 6, 2, 4, 2, 7, 4, 4, 7, 7,
    6, 6, 2, 8, 3, 3, 5, 5, 4, 2, 2, 2, 5, 4, 6, 6,
    2, 5, 2, 8, 4, 4, 6, 6, 2, 4, 2, 7, 4, 4, 7, 7,
    2, 6, 2, 6, 3, 3, 3, 3, 2, 2, 2, 2, 4, 4, 4, 4,
    2, 6, 2, 6, 4, 4, 4, 4, 2, 5, 2, 5, 5, 5, 5, 5,
    2, 6, 2, 6, 3, 3, 3, 3, 2, 2, 2, 2, 4, 4, 4, 4,
    2, 5, 2, 5, 4, 4, 4, 4, 2, 4, 2, 4, 4, 4, 4, 4,
    2, 6, 2, 8, 3, 3, 5, 5, 2, 2, 2, 2, 4, 4, 6, 6,
    2, 5, 2, 8, 4, 4, 6, 6, 2, 4, 2, 7, 4, 4, 7, 7,
    2, 6, 2, 8, 3, 3, 5, 5, 2, 2, 2, 2, 4, 4, 6, 6,
    2, 5, 2, 8, 4, 4, 6, 6, 2, 4, 2, 7, 4, 4, 7, 7,
];

/// Every opcode takes between 2 and 8 cycles.
pub proof fn lemma_cycle_counts()
    ensures
        forall|i: int| 0 <= i < 256 ==> 2 <= #[trigger] CYCLE_COUNT@[i] <= 8,
{
}

/// The flag a conditional branch tests, and the value it branches on.
#[derive(Clone, Copy, Debug, PartialEq, Eq, Structural)]
pub enum Condition {
    Plus,
    Minus,
    OverflowClear,
    OverflowSet,
    CarryClear,
    CarrySet,
    NotEqual,
    Equal,
}

/// What an opcode does in this interpreter.
#[derive(Clone, Copy, Debug, PartialEq, Eq, Structural)]
pub enum Op {
    Brk,
    Ora,
    And,
    Eor,
    Adc,
    Sbc,
    Lda,
    Cmp,
    Cpx,
    Cpy,
    Bit,
    Asl,
    Dec,
    Dex,
    Php,
    Plp,
    Pha,
    Jmp,
    Clc,
    Cli,
    Clv,
    Cld,
    Branch(Condition),
    /// Halts the processor: the step is not defined.
    Stp,
    /// Decoded, but changes nothing but the program counter and cycle count
    /// (the NOPs, and the instructions not implemented yet).
    NoEffect,
}

/// The operation of each opcode.
pub open spec fn op_of(opcode: u8) -> Op {
    match opcode {
        0x00 => Op::Brk,
        0x01 | 0x05 | 0x09 | 0x0D | 0x11 | 0x15 | 0x19 | 0x1D => Op::Ora,
        0x02 | 0x22 | 0x42 | 0x62 | 0x12 | 0x32 | 0x52 | 0x72 | 0x92 | 0xB2 | 0xD2 | 0xF2 => Op::Stp,
        0x06 | 0x0A | 0x0E | 0x16 | 0x1E => Op::Asl,
        0x08 => Op::Php,
        0x10 => Op::Branch(Condition::Plus),
        0x18 => Op::Clc,
        0x21 | 0x25 | 0x29 | 0x2D | 0x31 | 0x35 | 0x39 | 0x3D => Op::And,
        0x24 | 0x2C => Op::Bit,
        0x28 => Op::Plp,
        0x30 => Op::Branch(Condition::Minus),
        0x41 | 0x45 | 0x49 | 0x4D | 0x51 | 0x55 | 0x59 | 0x5D => Op::Eor,
        0x48 => Op::Pha,
        0x4C | 0x6C => Op::Jmp,
        0x50 => Op::Branch(Condition::OverflowClear),
        0x58 => Op::Cli,
        0x61 | 0x65 | 0x69 | 0x6D | 0x71 | 0x75 | 0x79 | 0x7D => Op::Adc,
        0x70 => Op::Branch(Condition::OverflowSet),
        0x90 => Op::Branch(Condition::CarryClear),
        0xA1 | 0xA5 | 0xA9 | 0xAD | 0xB1 | 0xB5 | 0xB9 | 0xBD => Op::Lda,
        0xB0 => Op::Branch(Condition::CarrySet),
        0xB8 => Op::Clv,
        0xC0 | 0xC4 | 0xCC => Op::Cpy,
        0xC1 | 0xC5 | 0xC9 | 0xCD | 0xD1 | 0xD5 | 0xD9 | 0xDD => Op::Cmp,
        0xC6 | 0xCE | 0xD6 | 0xDE => Op::Dec,
        0xCA => Op::Dex,
        0xD0 => Op::Branch(Condition::NotEqual),
        0xD8 => Op::Cld,
        0xE0 | 0xE4 | 0xEC => Op::Cpx,
        0xE1 | 0xE5 | 0xE9 | 0xED | 0xF1 | 0xF5 | 0xF9 | 0xFD => Op::Sbc,
        0xF0 => Op::Branch(Condition::Equal),
        _ => Op::NoEffect,
    }
}

/// Decodes an opcode.
pub fn decode(opcode: u8) -> (op: Op)
    ensures
        op == op_of(opcode),
{
    match opcode {
        0x00 => Op::Brk,
        0x01 | 0x05 | 0x09 | 0x0D | 0x11 | 0x15 | 0x19 | 0x1D => Op::Ora,
        0x02 | 0x22 | 0x42 | 0x62 | 0x12 | 0x32 | 0x52 | 0x72 | 0x92 | 0xB2 | 0xD2 | 0xF2 => Op::Stp,
        0x06 | 0x0A | 0x0E | 0x16 | 0x1E => Op::Asl,
        0x08 => Op::Php,
        0x10 => Op::Branch(Condition::Plus),
        0x18 => Op::Clc,
        0x21 | 0x25 | 0x29 | 0x2D | 0x31 | 0x35 | 0x39 | 0x3D => Op::And,
        0x24 | 0x2C => Op::Bit,
        0x28 => Op::Plp,
        0x30 => Op::Branch(Condition::Minus),
        0x41 | 0x45 | 0x49 | 0x4D | 0x51 | 0x55 | 0x59 | 0x5D => Op::Eor,
        0x48 => Op::Pha,
        0x4C | 0x6C => Op::Jmp,
        0x50 => Op::Branch(Condition::OverflowClear),
        0x58 => Op::Cli,
        0x61 | 0x65 | 0x69 | 0x6D | 0x71 | 0x75 | 0x79 | 0x7D => Op::Adc,
        0x70 => Op::Branch(Condition::OverflowSet),
        0x90 => Op::Branch(Condition::CarryClear),
        0xA1 | 0xA5 | 0xA9 | 0xAD | 0xB1 | 0xB5 | 0xB9 | 0xBD => Op::Lda,
        0xB0 => Op::Branch(Condition::CarrySet),
        0xB8 => Op::Clv,
        0xC0 | 0xC4 | 0xCC => Op::Cpy,
        0xC1 | 0xC5 | 0xC9 | 0xCD | 0xD1 | 0xD5 | 0xD9 | 0xDD => Op::Cmp,
        0xC6 | 0xCE | 0xD6 | 0xDE => Op::Dec,
        0xCA => Op::Dex,
        0xD0 => Op::Branch(Condition::NotEqual),
        0xD8 => Op::Cld,
        0xE0 | 0xE4 | 0xEC => Op::Cpx,
        0xE1 | 0xE5 | 0xE9 | 0xED | 0xF1 | 0xF5 | 0xF9 | 0xFD => Op::Sbc,
        0xF0 => Op::Branch(Condition::Equal),
        _ => Op::NoEffect,
    }
}

// ---------------------------------------------------------------------------
// Operand addresses
// ---------------------------------------------------------------------------

/// The machine with its CPU replaced by `c`.
pub open spec fn with_cpu(m: ConsoleState, c: CPU) -> ConsoleState {
    ConsoleState { cpu: c, ..m }
}

/// A zero-page index as this interpreter forms it: `(base + index) % 0xFF`.
pub open spec fn zp_indexed(base: u8, index: u8) -> u16 {
    ((base as int + index as int) % 0xFF) as u16
}

/// Whether adding `index` to the low byte of `base` carries into the next page,
/// which costs the instruction one more cycle.
pub open spec fn crosses_page(base: u16, index: u8) -> bool {
    index as int + (base as int) % 256 >= 256
}

/// The machine with one more cycle added to the current instruction.
pub open spec fn add_cycle(m: ConsoleState) -> ConsoleState {
    with_cpu(m, CPU { pause: (m.cpu.pause + 1) as u8, ..m.cpu })
}

/// The byte after the opcode, read through the bus.
pub open spec fn operand_byte(m: ConsoleState) -> Option<(u8, ConsoleState)> {
    if m.cpu.PC == 0xFFFF {
        None
    } else {
        bus_read(m, (m.cpu.PC + 1) as u16)
    }
}

/// The word after the opcode, read through the bus.
pub open spec fn operand_word(m: ConsoleState) -> Option<(u16, ConsoleState)> {
    if m.cpu.PC == 0xFFFF {
        None
    } else {
        bus_read16(m, (m.cpu.PC + 1) as u16)
    }
}

/// The word whose address is the word after the opcode.
pub open spec fn operand_indirect(m: ConsoleState) -> Option<(u16, ConsoleState)> {
    match operand_word(m) {
        Some((t, m1)) => bus_read16(m1, t),
        None => None,
    }
}

/// The word after the opcode plus `index`, where the sum stays within 16 bits.
pub open spec fn operand_word_plus(m: ConsoleState, index: u8) -> Option<(u16, ConsoleState)> {
    match operand_word(m) {
        Some((t, m1)) => if t + index <= u16::MAX {
            Some(((t + index) as u16, m1))
        } else {
            None
        },
        None => None,
    }
}

/// As `operand_word_plus`, with a cycle added when the sum crosses a page.
pub open spec fn operand_word_plus_timed(m: ConsoleState, index: u8) -> Option<(u16, ConsoleState)> {
    match operand_word(m) {
        Some((t, m1)) => if t + index <= u16::MAX {
            Some(
                (
                    (t + index) as u16,
                    if crosses_page(t, index) {
                        add_cycle(m1)
                    } else {
                        m1
                    },
                ),
            )
        } else {
            None
        },
        None => None,
    }
}

/// The address an instruction operates on, and the machine after the reads
/// needed to find it, as this interpreter computes it from the opcode's
/// `aaabbbcc` fields. Where an addressing mode has no memory operand the address is 0.
pub open spec fn operand_address(m: ConsoleState, opcode: u8) -> Option<(u16, ConsoleState)> {
    let bbb = (opcode >> 2u8) & 7;
    let cc = opcode & 3;
    if cc == 0 {
        operand_address_group0(m, opcode, bbb)
    } else if cc == 1 {
        operand_address_group1(m, bbb)
    } else if cc == 2 {
        operand_address_group2(m, opcode, bbb)
    } else {
        None
    }
}

/// Addressing for opcodes with `cc == 00` (control and Y/X register instructions).
pub open spec fn operand_address_group0(m: ConsoleState, opcode: u8, bbb: u8) -> Option<(u16, ConsoleState)> {
    if bbb == 0 {
        if opcode == 0x20 {
            operand_indirect(m)
        } else {
            Some((0u16, m))
        }
    } else if bbb == 1 {
        operand_word(m)
    } else if bbb == 3 {
        if opcode == 0x6C {
            operand_indirect(m)
        } else {
            operand_word(m)
        }
    } else if bbb == 5 {
        match operand_byte(m) {
            Some((v, m1)) => if v + m1.cpu.X <= u8::MAX {
                Some((((v + m1.cpu.X) as u16 % 0xFF) as u16, m1))
            } else {
                None
            },
            None => None,
        }
    } else if bbb == 7 {
        operand_word_plus(m, m.cpu.X)
    } else {
        Some((0u16, m))
    }
}

/// Addressing for opcodes with `cc == 01` (the accumulator ALU instructions).
pub open spec fn operand_address_group1(m: ConsoleState, bbb: u8) -> Option<(u16, ConsoleState)> {
    if bbb == 0 {
        match operand_byte(m) {
            Some((t, m1)) => bus_read16(m1, zp_indexed(t, m1.cpu.X)),
            None => None,
        }
    } else if bbb == 1 {
        match operand_byte(m) {
            Some((v, m1)) => Some((v as u16, m1)),
            None => None,
        }
    } else if bbb == 2 {
        if m.cpu.PC == 0xFFFF {
            None
        } else {
            Some(((m.cpu.PC + 1) as u16, m))
        }
    } else if bbb == 3 {
        operand_word(m)
    } else if bbb == 4 {
        match operand_word(m) {
            Some((t, m1)) => {
                let m2 = if crosses_page(t, m1.cpu.Y) {
                    add_cycle(m1)
                } else {
                    m1
                };
                match bus_read16(m2, t) {
                    Some((v, m3)) => if v + m3.cpu.Y <= u16::MAX {
                        Some(((v + m3.cpu.Y) as u16, m3))
                    } else {
                        None
                    },
                    None => None,
                }
            },
            None => None,
        }
    } else if bbb == 5 {
        match operand_byte(m) {
            Some((v, m1)) => Some((zp_indexed(v, m1.cpu.X), m1)),
            None => None,
        }
    } else if bbb == 6 {
        operand_word_plus_timed(m, m.cpu.Y)
    } else {
        operand_word_plus_timed(m, m.cpu.X)
    }
}

/// Addressing for opcodes with `cc == 10` (shifts, X register and memory
/// increment/decrement instructions).
pub open spec fn operand_address_group2(m: ConsoleState, opcode: u8, bbb: u8) -> Option<(u16, ConsoleState)> {
    if bbb == 1 {
        match operand_byte(m) {
            Some((v, m1)) => Some((v as u16, m1)),
            None => None,
        }
    } else if bbb == 3 {
        operand_word(m)
    } else if bbb == 5 {
        let index = if opcode == 0x96 || opcode == 0xB6 {
            m.cpu.Y
        } else {
            m.cpu.X
        };
        match operand_byte(m) {
            Some((v, m1)) => Some((zp_indexed(v, index), m1)),
            None => None,
        }
    } else if bbb == 7 {
        if opcode == 0x9E || opcode == 0xBE {
            operand_word_plus(m, m.cpu.Y)
        } else {
            operand_word_plus(m, m.cpu.X)
        }
    } else {
        Some((0u16, m))
    }
}

// ---------------------------------------------------------------------------
// Operations
// ---------------------------------------------------------------------------

/// The CPU with N and Z set from `v`.
pub open spec fn with_nz(c: CPU, v: u8) -> CPU {
    CPU { negative: v >= 128, zero: v == 0, ..c }
}

/// The stack pointer is a zero-page address in this interpreter: a push writes
/// at `SP` and then decrements it, failing when `SP` is 0.
pub open spec fn push(m: ConsoleState, data: u8) -> Option<ConsoleState> {
    if m.cpu.SP == 0 {
        None
    } else {
        match bus_write(m, m.cpu.SP as u16, data) {
            Some(m1) => Some(with_cpu(m1, CPU { SP: (m1.cpu.SP - 1) as u8, ..m1.cpu })),
            None => None,
        }
    }
}

/// A pull increments `SP`, failing when it is $FF, and reads at `SP`.
pub open spec fn pull(m: ConsoleState) -> Option<(u8, ConsoleState)> {
    if m.cpu.SP == 0xFF {
        None
    } else {
        let m1 = with_cpu(m, CPU { SP: (m.cpu.SP + 1) as u8, ..m.cpu });
        bus_read(m1, m1.cpu.SP as u16)
    }
}

/// The flags loaded from a pulled status byte (B is left as it was).
pub open spec fn with_status(c: CPU, p: u8) -> CPU {
    CPU {
        carry: (p & 0b00000001) > 0,
        zero: (p & 0b00000010) > 0,
        interupt_disable: (p & 0b00000100) > 0,
        decimal: (p & 0b00001000) > 0,
        overflow: (p & 0b01000000) > 0,
        negative: (p & 0b10000000) > 0,
        ..c
    }
}

/// ADC without carry in: A gets the low byte of A + M, C the carry out, N bit 7
/// of the result and Z whether the whole sum is 0; V is left clear, as the
/// overflow test compares the result with itself.
pub open spec fn adc(c: CPU, v: u8) -> CPU {
    let sum = c.A as int + v as int;
    let a = (sum % 256) as u8;
    CPU { A: a, carry: sum > 255, negative: a >= 128, overflow: false, zero: sum == 0, ..c }
}

/// SBC without borrow in: A gets A - M modulo 256, C whether A >= M, N bit 7 of
/// the result; V and Z are left clear, as the tests compare the nine-bit
/// difference, which is never 0, and the result with itself.
pub open spec fn sbc(c: CPU, v: u8) -> CPU {
    let a = ((c.A as int - v as int) % 256) as u8;
    CPU { A: a, carry: c.A >= v, overflow: false, negative: a >= 128, zero: false, ..c }
}

/// A comparison of `reg` with M: N bit 7 of `reg - M` modulo 256, Z equality, C `reg >= M`.
pub open spec fn compare(c: CPU, reg: u8, v: u8) -> CPU {
    CPU {
        negative: (reg as int - v as int) % 256 >= 128,
        zero: reg == v,
        carry: reg >= v,
        ..c
    }
}

/// BIT: Z from A & M, and N and V from bits 7 and 6 of A & M.
pub open spec fn bit_test(c: CPU, v: u8) -> CPU {
    let t = c.A & v;
    CPU { zero: t == 0, negative: t >= 128, overflow: (t & 0x40) != 0, ..c }
}

/// `v` shifted left by one, with the bit shifted out.
pub open spec fn shift_left(v: u8) -> (u8, bool) {
    (((v as int * 2) % 256) as u8, v >= 128)
}

/// The operations that read their operand and change only the CPU.
pub open spec fn is_load_op(op: Op) -> bool {
    match op {
        Op::Ora | Op::And | Op::Eor | Op::Adc | Op::Sbc | Op::Lda | Op::Cmp | Op::Cpx | Op::Cpy
        | Op::Bit => true,
        _ => false,
    }
}

/// The CPU after a load operation reads `v`.
pub open spec fn load_result(op: Op, c: CPU, v: u8) -> CPU {
    match op {
        Op::Ora => with_nz(CPU { A: c.A | v, ..c }, c.A | v),
        Op::And => with_nz(CPU { A: c.A & v, ..c }, c.A & v),
        Op::Eor => with_nz(CPU { A: c.A ^ v, ..c }, c.A ^ v),
        Op::Adc => adc(c, v),
        Op::Sbc => sbc(c, v),
        Op::Lda => CPU { A: v, ..c },
        Op::Cmp => compare(c, c.A, v),
        Op::Cpx => compare(c, c.X, v),
        Op::Cpy => compare(c, c.Y, v),
        _ => bit_test(c, v),
    }
}

/// Reads the operand at `addr` and applies load operation `op` to the CPU.
pub open spec fn load_with(m: ConsoleState, addr: u16, op: Op) -> Option<ConsoleState> {
    match bus_read(m, addr) {
        Some((v, m1)) => Some(with_cpu(m1, load_result(op, m1.cpu, v))),
        None => None,
    }
}

/// Whether a conditional branch is taken.
pub open spec fn branch_taken(c: CPU, cond: Condition) -> bool {
    match cond {
        Condition::Plus => !c.negative,
        Condition::Minus => c.negative,
        Condition::OverflowClear => !c.overflow,
        Condition::OverflowSet => c.overflow,
        Condition::CarryClear => !c.carry,
        Condition::CarrySet => c.carry,
        Condition::NotEqual => !c.zero,
        Condition::Equal => c.zero,
    }
}

/// BRK: pushes PC (high byte, then low byte) and the status with B set, then
/// clears B, sets I and loads PC from the vector at $FFFE.
pub open spec fn brk(m: ConsoleState) -> Option<ConsoleState> {
    let pc = m.cpu.PC;
    match push(m, (pc / 256) as u8) {
        Some(m1) => match push(m1, (pc % 256) as u8) {
            Some(m2) => match push(
                with_cpu(m2, CPU { break_cmd: true, ..m2.cpu }),
                status_byte(CPU { break_cmd: true, ..m2.cpu }),
            ) {
                Some(m3) => match bus_read16(m3, 0xFFFE) {
                    Some((target, m4)) => Some(
                        with_cpu(
                            m4,
                            CPU { break_cmd: false, interupt_disable: true, PC: target, ..m4.cpu },
                        ),
                    ),
                    None => None,
                },
                None => None,
            },
            None => None,
        },
        None => None,
    }
}

/// The effect of operation `op` on operand address `addr`, before the program
/// counter moves on.
pub open spec fn op_effect(m: ConsoleState, op: Op, addr: u16) -> Option<ConsoleState> {
    if is_load_op(op) {
        load_with(m, addr, op)
    } else {
        other_effect(m, op, addr)
    }
}

/// ASL: the accumulator when the operand address is 0, otherwise the byte at
/// the address, shifted left; C gets the bit shifted out, N and Z the result.
pub open spec fn asl_effect(m: ConsoleState, addr: u16) -> Option<ConsoleState> {
    if addr == 0 {
        let (a, out) = shift_left(m.cpu.A);
        Some(with_cpu(m, with_nz(CPU { A: a, carry: out, ..m.cpu }, a)))
    } else {
        match bus_read(m, addr) {
            Some((v, m1)) => {
                let (t, out) = shift_left(v);
                bus_write(with_cpu(m1, with_nz(CPU { carry: out, ..m1.cpu }, t)), addr, t)
            },
            None => None,
        }
    }
}

/// DEC: the byte at the address less one (not defined on 0), with N and Z.
pub open spec fn dec_effect(m: ConsoleState, addr: u16) -> Option<ConsoleState> {
    match bus_read(m, addr) {
        Some((v, m1)) => if v == 0 {
            None
        } else {
            let t = (v - 1) as u8;
            bus_write(with_cpu(m1, with_nz(m1.cpu, t)), addr, t)
        },
        None => None,
    }
}

/// DEX: X less one (not defined on 0), with N and Z.
pub open spec fn dex_effect(m: ConsoleState) -> Option<ConsoleState> {
    if m.cpu.X == 0 {
        None
    } else {
        let x = (m.cpu.X - 1) as u8;
        Some(with_cpu(m, with_nz(CPU { X: x, ..m.cpu }, x)))
    }
}

/// PLP: the flags from a pulled status byte.
pub open spec fn plp_effect(m: ConsoleState) -> Option<ConsoleState> {
    match pull(m) {
        Some((p, m1)) => Some(with_cpu(m1, with_status(m1.cpu, p))),
        None => None,
    }
}

/// The CPU after the operations that change only registers.
pub open spec fn register_effect(c: CPU, op: Op, addr: u16) -> CPU {
    match op {
        Op::Jmp => CPU { PC: addr, ..c },
        Op::Clc => CPU { carry: false, ..c },
        Op::Cli => CPU { interupt_disable: false, ..c },
        Op::Clv => CPU { overflow: false, ..c },
        Op::Cld => CPU { decimal: false, ..c },
        _ => c,
    }
}

/// The effect of the operations other than loads.
pub open spec fn other_effect(m: ConsoleState, op: Op, addr: u16) -> Option<ConsoleState> {
    match op {
        Op::Brk => brk(m),
        Op::Asl => asl_effect(m, addr),
        Op::Dec => dec_effect(m, addr),
        Op::Dex => dex_effect(m),
        Op::Php => push(m, status_byte(m.cpu)),
        Op::Plp => plp_effect(m),
        Op::Pha => push(m, m.cpu.A),
        _ => Some(with_cpu(m, register_effect(m.cpu, op, addr))),
    }
}

/// The program counter moved past the opcode byte.
pub open spec fn next_pc(m: ConsoleState) -> Option<ConsoleState> {
    if m.cpu.PC == 0xFFFF {
        None
    } else {
        Some(with_cpu(m, CPU { PC: (m.cpu.PC + 1) as u16, ..m.cpu }))
    }
}

/// Performs `opcode` on operand address `addr`. A taken branch adds the byte at
/// `addr` to PC; every other instruction ends by moving PC on by one.
pub open spec fn execute(m: ConsoleState, opcode: u8, addr: u16) -> Option<ConsoleState> {
    match op_of(opcode) {
        Op::Stp => None,
        Op::Branch(cond) => if branch_taken(m.cpu, cond) {
            match bus_read(m, addr) {
                Some((v, m1)) => if m1.cpu.PC + v <= u16::MAX {
                    Some(with_cpu(m1, CPU { PC: (m1.cpu.PC + v) as u16, ..m1.cpu }))
                } else {
                    None
                },
                None => None,
            }
        } else {
            next_pc(m)
        },
        op => match op_effect(m, op, addr) {
            Some(m1) => next_pc(m1),
            None => None,
        },
    }
}

/// One CPU step. While the current instruction still has cycles left, a step
/// spends one and moves PC on by one; otherwise it loads the cycle count of
/// `opcode`, less the one being spent, works out the operand address and
/// executes the instruction.
pub open spec fn opcode_step(m: ConsoleState, opcode: u8) -> Option<ConsoleState> {
    if m.cpu.pause > 0 {
        if m.cpu.PC == 0xFFFF {
            None
        } else {
            Some(
                with_cpu(m, CPU { pause: (m.cpu.pause - 1) as u8, PC: (m.cpu.PC + 1) as u16, ..m.cpu }),
            )
        }
    } else {
        let m1 = with_cpu(m, CPU { pause: (CYCLE_COUNT@[opcode as int] - 1) as u8, ..m.cpu });
        match operand_address(m1, opcode) {
            Some((addr, m2)) => execute(m2, opcode, addr),
            None => None,
        }
    }
}

pub(crate) fn fetch_operand_byte(console: &mut Console) -> (v: u8)
    requires
        old(console)@.wf(),
        operand_byte(old(console)@) is Some,
    ensures
        operand_byte(old(console)@) == Some((v, final(console)@)),
        final(console)@.wf(),
{
    let pc = console.CPU.PC;
    read(console, pc + 1)
}

pub(crate) fn fetch_operand_word(console: &mut Console) -> (v: u16)
    requires
        old(console)@.wf(),
        operand_word(old(console)@) is Some,
    ensures
        operand_word(old(console)@) == Some((v, final(console)@)),
        final(console)@.wf(),
{
    let pc = console.CPU.PC;
    read16(console, pc + 1)
}

pub(crate) fn fetch_operand_indirect(console: &mut Console) -> (v: u16)
    requires
        old(console)@.wf(),
        operand_indirect(old(console)@) is Some,
    ensures
        operand_indirect(old(console)@) == Some((v, final(console)@)),
        final(console)@.wf(),
{
    let temp = fetch_operand_word(console);
    read16(console, temp)
}

pub(crate) fn fetch_operand_word_plus(console: &mut Console, index: u8) -> (v: u16)
    requires
        old(console)@.wf(),
        operand_word_plus(old(console)@, index) is Some,
    ensures
        operand_word_plus(old(console)@, index) == Some((v, final(console)@)),
        final(console)@.wf(),
{
    let temp = fetch_operand_word(console);
    temp + index as u16
}

fn added_cycle(c: CPU) -> (r: CPU)
    requires
        c.pause < u8::MAX,
    ensures
        r == (CPU { pause: (c.pause + 1) as u8, ..c }),
{
    CPU { pause: c.pause + 1, ..c }
}

fn page_crossed(base: u16, index: u8) -> (r: bool)
    ensures
        r == crosses_page(base, index),
{
    let low: u16 = base & 0xFF;
    assert(low < 256) by (bit_vector)
        requires
            low == base & 0xFF,
    ;
    let sum: u16 = index as u16 + low;
    let r = (sum & 0x100) > 0;
    assert(low == base % 256) by (bit_vector)
        requires
            low == base & 0xFF,
    ;
    assert(r == (sum >= 256)) by (bit_vector)
        requires
            r == (sum & 0x100 > 0),
            sum < 512,
    ;
    r
}

fn charge_cycle_if(console: &mut Console, crossed: bool)
    requires
        old(console)@.cpu.pause < u8::MAX,
    ensures
        final(console)@ == (if crossed {
            add_cycle(old(console)@)
        } else {
            old(console)@
        }),
{
    if crossed {
        console.CPU = added_cycle(console.CPU);
    }
}

fn fetch_operand_word_plus_timed(console: &mut Console, index: u8) -> (v: u16)
    requires
        old(console)@.wf(),
        old(console)@.cpu.pause < u8::MAX,
        operand_word_plus_timed(old(console)@, index) is Some,
    ensures
        operand_word_plus_timed(old(console)@, index) == Some((v, final(console)@)),
        final(console)@.wf(),
{
    let temp = fetch_operand_word(console);
    if page_crossed(temp, index) {
        console.CPU = added_cycle(console.CPU);
    }
    temp + (index as u16)
}

pub(crate) fn zp_index(base: u8, index: u8) -> (r: u16)
    ensures
        r == zp_indexed(base, index),
{
    (base as u16 + index as u16) % 0xFF
}

fn address_group0(console: &mut Console, opcode: u8, bbb: u8) -> (addr: u16)
    requires
        old(console)@.wf(),
        operand_address_group0(old(console)@, opcode, bbb) is Some,
    ensures
        operand_address_group0(old(console)@, opcode, bbb) == Some((addr, final(console)@)),
        final(console)@.wf(),
{
    if bbb == 0b000 {
        // immediate
        if opcode == 0x20 {
            fetch_operand_indirect(console)
        } else {
            0
        }
    } else if bbb == 0b001 {
        // zero page
        fetch_operand_word(console)
    } else if bbb == 0b011 {
        // absolute
        if opcode == 0x6C {
            fetch_operand_indirect(console)
        } else {
            fetch_operand_word(console)
        }
    } else if bbb == 0b101 {
        // zero page indexed by X
        let v = fetch_operand_byte(console);
        ((v + console.CPU.X) as u16) % 0xFF
    } else if bbb == 0b111 {
        // absolute indexed by X
        let x = console.CPU.X;
        fetch_operand_word_plus(console, x)
    } else {
        0
    }
}

fn indirect_indexed(console: &mut Console) -> (addr: u16)
    requires
        old(console)@.wf(),
        old(console)@.cpu.pause < u8::MAX,
        operand_address_group1(old(console)@, 4) is Some,
    ensures
        operand_address_group1(old(console)@, 4) == Some((addr, final(console)@)),
        final(console)@.wf(),
{
    let temp = fetch_operand_word(console);
    let crossed = page_crossed(temp, console.CPU.Y);
    charge_cycle_if(console, crossed);
    read16(console, temp) + console.CPU.Y as u16
}

fn address_group1(console: &mut Console, bbb: u8) -> (addr: u16)
    requires
        old(console)@.wf(),
        old(console)@.cpu.pause < u8::MAX,
        bbb < 8,
        operand_address_group1(old(console)@, bbb) is Some,
    ensures
        operand_address_group1(old(console)@, bbb) == Some((addr, final(console)@)),
        final(console)@.wf(),
{
    if bbb == 0b000 {
        // (zero page, X)
        let temp = fetch_operand_byte(console);
        let p = zp_index(temp, console.CPU.X);
        read16(console, p)
    } else if bbb == 0b001 {
        // zero page
        fetch_operand_byte(console) as u16
    } else if bbb == 0b010 {
        // immediate
        console.CPU.PC + 1
    } else if bbb == 0b011 {
        // absolute
        fetch_operand_word(console)
    } else if bbb == 0b100 {
        // (zero page), Y
        indirect_indexed(console)
    } else if bbb == 0b101 {
        // zero page, X
        let v = fetch_operand_byte(console);
        zp_index(v, console.CPU.X)
    } else if bbb == 0b110 {
        // absolute, Y
        let y = console.CPU.Y;
        fetch_operand_word_plus_timed(console, y)
    } else {
        // absolute, X
        let x = console.CPU.X;
        fetch_operand_word_plus_timed(console, x)
    }
}

fn address_group2(console: &mut Console, opcode: u8, bbb: u8) -> (addr: u16)
    requires
        old(console)@.wf(),
        operand_address_group2(old(console)@, opcode, bbb) is Some,
    ensures
        operand_address_group2(old(console)@, opcode, bbb) == Some((addr, final(console)@)),
        final(console)@.wf(),
{
    if bbb == 0b001 {
        // zero page
        fetch_operand_byte(console) as u16
    } else if bbb == 0b011 {
        // absolute
        fetch_operand_word(console)
    } else if bbb == 0b101 {
        if opcode == 0x96 || opcode == 0xB6 {
            // zero page, Y
            let y = console.CPU.Y;
            let v = fetch_operand_byte(console);
            zp_index(v, y)
        } else {
            // zero page, X
            let x = console.CPU.X;
            let v = fetch_operand_byte(console);
            zp_index(v, x)
        }
    } else if bbb == 0b111 {
        if opcode == 0x9E || opcode == 0xBE {
            let y = console.CPU.Y;
            fetch_operand_word_plus(console, y)
        } else {
            let x = console.CPU.X;
            fetch_operand_word_plus(console, x)
        }
    } else {
        0
    }
}

/// Works out the operand address of `opcode`, reading the operand bytes after
/// the opcode (and the pointers they name) through the bus.
pub fn operand_address_of(console: &mut Console, opcode: u8) -> (addr: u16)
    requires
        old(console)@.wf(),
        old(console)@.cpu.pause < u8::MAX,
        operand_address(old(console)@, opcode) is Some,
    ensures
        operand_address(old(console)@, opcode) == Some((addr, final(console)@)),
        final(console)@.wf(),
{
    let bbb = (opcode & 0b00011100) >> 2u8;
    let cc = opcode & 0b00000011;
    assert(bbb == (opcode >> 2u8) & 7 && cc == opcode & 3 && bbb < 8) by (bit_vector)
        requires
            bbb == (opcode & 0b00011100) >> 2u8,
            cc == opcode & 0b00000011,
    ;
    if cc == 0b00 {
        address_group0(console, opcode, bbb)
    } else if cc == 0b01 {
        address_group1(console, bbb)
    } else {
        address_group2(console, opcode, bbb)
    }
}

fn put_cpu(console: &mut Console, c: CPU)
    ensures
        final(console)@ == with_cpu(old(console)@, c),
{
    console.CPU = c;
}

fn nz(c: CPU, v: u8) -> (r: CPU)
    ensures
        r == with_nz(c, v),
{
    assert(((v & 0x80) > 0) == (v >= 128)) by (bit_vector);
    CPU { negative: (v & 0x80) > 0, zero: v == 0, ..c }
}

fn adc_result(c: CPU, value: u8) -> (r: CPU)
    ensures
        r == adc(c, value),
{
    let a0 = c.A;
    let temp: u16 = a0 as u16 + value as u16;
    let a = (temp & 0x00FF) as u8;
    let carry = temp > 0xFF;
    let negative = (temp & 0x80) > 0;
    let overflow = ((!(a ^ value) & (a ^ (temp & 0x00FF) as u8)) & 0x80) > 0;
    let zero = temp == 0;
    assert(a == (temp % 256) as u8 && negative == (a >= 128) && !overflow) by (bit_vector)
        requires
            a == (temp & 0x00FF) as u8,
            negative == ((temp & 0x80) > 0),
            overflow == (((!(a ^ value) & (a ^ (temp & 0x00FF) as u8)) & 0x80) > 0),
    ;
    CPU { A: a, carry, negative, overflow, zero, ..c }
}

fn sbc_result(c: CPU, value: u8) -> (r: CPU)
    ensures
        r == sbc(c, value),
{
    let a0 = c.A;
    assert((0x0100 | a0 as u16) == 0x0100 + a0 as u16) by (bit_vector);
    let temp: u16 = (0x0100 | a0 as u16) - value as u16;
    let a = (temp & 0xFF) as u8;
    let carry = (temp & 0x0100) > 1;
    let overflow = ((a ^ value) & (a ^ (temp & 0xFF) as u8)) > 0;
    let negative = (temp & 0x80) > 0;
    let zero = temp == 0;
    assert(a == ((a0 - value) % 256) as u8 && carry == (a0 >= value) && !overflow && negative == (a
        >= 128) && !zero) by (bit_vector)
        requires
            temp == (0x0100 | a0 as u16) - value as u16,
            a == (temp & 0xFF) as u8,
            carry == ((temp & 0x0100) > 1),
            overflow == (((a ^ value) & (a ^ (temp & 0xFF) as u8)) > 0),
            negative == ((temp & 0x80) > 0),
            zero == (temp == 0),
    ;
    CPU { A: a, carry, overflow, negative, zero, ..c }
}

fn compare_result(c: CPU, reg: u8, value: u8) -> (r: CPU)
    ensures
        r == compare(c, reg, value),
{
    assert((0x0100 | reg as u16) == 0x0100 + reg as u16) by (bit_vector);
    let diff: u16 = (0x0100 | reg as u16) - value as u16;
    let negative = (diff & 0x80) > 0;
    assert(negative == ((reg - value) % 256 >= 128)) by (bit_vector)
        requires
            diff == (0x0100 | reg as u16) - value as u16,
            negative == ((diff & 0x80) > 0),
    ;
    CPU { negative, zero: reg == value, carry: reg >= value, ..c }
}

fn bit_result(c: CPU, value: u8) -> (r: CPU)
    ensures
        r == bit_test(c, value),
{
    let temp = c.A & value;
    assert(((temp & 0x80) != 0) == (temp >= 128)) by (bit_vector);
    CPU { zero: temp == 0, negative: (temp & 0x80) != 0, overflow: (temp & 0x40) != 0, ..c }
}

/// The CPU after load operation `op` reads `v`.
fn apply_load(op: Op, c: CPU, v: u8) -> (r: CPU)
    requires
        is_load_op(op),
    ensures
        r == load_result(op, c, v),
{
    match op {
        Op::Ora => {
            let a = c.A | v;
            nz(CPU { A: a, ..c }, a)
        },
        Op::And => {
            let a = c.A & v;
            nz(CPU { A: a, ..c }, a)
        },
        Op::Eor => {
            let a = c.A ^ v;
            nz(CPU { A: a, ..c }, a)
        },
        Op::Adc => adc_result(c, v),
        Op::Sbc => sbc_result(c, v),
        Op::Lda => CPU { A: v, ..c },
        Op::Cmp => compare_result(c, c.A, v),
        Op::Cpx => compare_result(c, c.X, v),
        Op::Cpy => compare_result(c, c.Y, v),
        _ => bit_result(c, v),
    }
}

fn load(console: &mut Console, op: Op, addr: u16)
    requires
        old(console)@.wf(),
        is_load_op(op),
        load_with(old(console)@, addr, op) is Some,
    ensures
        load_with(old(console)@, addr, op) == Some(final(console)@),
        final(console)@.wf(),
{
    let v = read(console, addr);
    let c = apply_load(op, console.CPU, v);
    put_cpu(console, c);
}

fn push_byte(console: &mut Console, data: u8)
    requires
        old(console)@.wf(),
        push(old(console)@, data) is Some,
    ensures
        push(old(console)@, data) == Some(final(console)@),
        final(console)@.wf(),
{
    let temp = console.CPU.SP;
    crate::memory::write(console, temp as u16, data);
    let c = console.CPU;
    put_cpu(console, CPU { SP: c.SP - 1, ..c });
}

fn pull_byte(console: &mut Console) -> (v: u8)
    requires
        old(console)@.wf(),
        pull(old(console)@) is Some,
    ensures
        pull(old(console)@) == Some((v, final(console)@)),
        final(console)@.wf(),
{
    let c = console.CPU;
    put_cpu(console, CPU { SP: c.SP + 1, ..c });
    let sp = console.CPU.SP;
    read(console, sp as u16)
}

fn status_loaded(c: CPU, p: u8) -> (r: CPU)
    ensures
        r == with_status(c, p),
{
    CPU {
        carry: (p & 0b00000001) > 0,
        zero: (p & 0b00000010) > 0,
        interupt_disable: (p & 0b00000100) > 0,
        decimal: (p & 0b00001000) > 0,
        overflow: (p & 0b01000000) > 0,
        negative: (p & 0b10000000) > 0,
        ..c
    }
}

fn brk_op(console: &mut Console)
    requires
        old(console)@.wf(),
        brk(old(console)@) is Some,
    ensures
        brk(old(console)@) == Some(final(console)@),
        final(console)@.wf(),
{
    let pc = console.CPU.PC;
    assert(((pc & 0xFF00) >> 8u16) == pc / 256 && (pc & 0x00FF) == pc % 256) by (bit_vector);
    push_byte(console, ((pc & 0xFF00) >> 8u16) as u8);
    push_byte(console, (pc & 0x00FF) as u8);
    let c = console.CPU;
    put_cpu(console, CPU { break_cmd: true, ..c });
    let p = console.CPU.status();
    push_byte(console, p);
    let target = read16(console, 0xFFFE);
    let c = console.CPU;
    put_cpu(console, CPU { break_cmd: false, interupt_disable: true, PC: target, ..c });
}

fn shifted_left(v: u8) -> (r: (u8, bool))
    ensures
        r == shift_left(v),
{
    let carry = (v & 0x80) != 0;
    let t = v << 1u8;
    assert(carry == (v >= 128) && t == ((v * 2) % 256) as u8) by (bit_vector)
        requires
            carry == ((v & 0x80) != 0),
            t == v << 1u8,
    ;
    (t, carry)
}

fn asl_op(console: &mut Console, addr: u16)
    requires
        old(console)@.wf(),
        asl_effect(old(console)@, addr) is Some,
    ensures
        asl_effect(old(console)@, addr) == Some(final(console)@),
        final(console)@.wf(),
{
    if addr == 0 {
        let c = console.CPU;
        let (a, out) = shifted_left(c.A);
        put_cpu(console, nz(CPU { A: a, carry: out, ..c }, a));
    } else {
        let v = read(console, addr);
        let (t, out) = shifted_left(v);
        let c = console.CPU;
        put_cpu(console, nz(CPU { carry: out, ..c }, t));
        crate::memory::write(console, addr, t);
    }
}

fn dec_op(console: &mut Console, addr: u16)
    requires
        old(console)@.wf(),
        dec_effect(old(console)@, addr) is Some,
    ensures
        dec_effect(old(console)@, addr) == Some(final(console)@),
        final(console)@.wf(),
{
    let temp = read(console, addr) - 1;
    let c = console.CPU;
    put_cpu(console, nz(c, temp));
    crate::memory::write(console, addr, temp);
}

fn dex_op(console: &mut Console)
    requires
        old(console)@.wf(),
        dex_effect(old(console)@) is Some,
    ensures
        dex_effect(old(console)@) == Some(final(console)@),
        final(console)@.wf(),
{
    let c = console.CPU;
    let x = c.X - 1;
    put_cpu(console, nz(CPU { X: x, ..c }, x));
}

fn php_op(console: &mut Console)
    requires
        old(console)@.wf(),
        push(old(console)@, status_byte(old(console)@.cpu)) is Some,
    ensures
        push(old(console)@, status_byte(old(console)@.cpu)) == Some(final(console)@),
        final(console)@.wf(),
{
    let p = console.CPU.status();
    push_byte(console, p);
}

fn plp_op(console: &mut Console)
    requires
        old(console)@.wf(),
        plp_effect(old(console)@) is Some,
    ensures
        plp_effect(old(console)@) == Some(final(console)@),
        final(console)@.wf(),
{
    let p = pull_byte(console);
    let c = console.CPU;
    put_cpu(console, status_loaded(c, p));
}

fn pha_op(console: &mut Console)
    requires
        old(console)@.wf(),
        push(old(console)@, old(console)@.cpu.A) is Some,
    ensures
        push(old(console)@, old(console)@.cpu.A) == Some(final(console)@),
        final(console)@.wf(),
{
    let a = console.CPU.A;
    push_byte(console, a);
}

fn register_result(c: CPU, op: Op, addr: u16) -> (r: CPU)
    ensures
        r == register_effect(c, op, addr),
{
    match op {
        Op::Jmp => CPU { PC: addr, ..c },
        Op::Clc => CPU { carry: false, ..c },
        Op::Cli => CPU { interupt_disable: false, ..c },
        Op::Clv => CPU { overflow: false, ..c },
        Op::Cld => CPU { decimal: false, ..c },
        _ => c,
    }
}

/// Everything but the loads, branches and STP.
fn other_op(console: &mut Console, op: Op, addr: u16)
    requires
        old(console)@.wf(),
        other_effect(old(console)@, op, addr) is Some,
    ensures
        other_effect(old(console)@, op, addr) == Some(final(console)@),
        final(console)@.wf(),
{
    match op {
        Op::Brk => brk_op(console),
        Op::Asl => asl_op(console, addr),
        Op::Dec => dec_op(console, addr),
        Op::Dex => dex_op(console),
        Op::Php => php_op(console),
        Op::Plp => plp_op(console),
        Op::Pha => pha_op(console),
        _ => {
            let c = console.CPU;
            put_cpu(console, register_result(c, op, addr));
        },
    }
}

fn is_taken(c: &CPU, cond: Condition) -> (r: bool)
    ensures
        r == branch_taken(*c, cond),
{
    match cond {
        Condition::Plus => !c.negative,
        Condition::Minus => c.negative,
        Condition::OverflowClear => !c.overflow,
        Condition::OverflowSet => c.overflow,
        Condition::CarryClear => !c.carry,
        Condition::CarrySet => c.carry,
        Condition::NotEqual => !c.zero,
        Condition::Equal => c.zero,
    }
}

fn advance_pc(console: &mut Console)
    requires
        next_pc(old(console)@) is Some,
    ensures
        next_pc(old(console)@) == Some(final(console)@),
{
    let c = console.CPU;
    put_cpu(console, CPU { PC: c.PC + 1, ..c });
}

/// Performs `opcode` on operand address `addr`.
pub fn execute_opcode(console: &mut Console, opcode: u8, addr: u16)
    requires
        old(console)@.wf(),
        execute(old(console)@, opcode, addr) is Some,
    ensures
        execute(old(console)@, opcode, addr) == Some(final(console)@),
        final(console)@.wf(),
{
    let op = decode(opcode);
    match op {
        Op::Branch(cond) => {
            if is_taken(&console.CPU, cond) {
                let v = read(console, addr);
                let c = console.CPU;
                put_cpu(console, CPU { PC: c.PC + v as u16, ..c });
            } else {
                advance_pc(console);
            }
        },
        _ => {
            if op == Op::Ora || op == Op::And || op == Op::Eor || op == Op::Adc || op == Op::Sbc
                || op == Op::Lda || op == Op::Cmp || op == Op::Cpx || op == Op::Cpy || op == Op::Bit {
                load(console, op, addr);
            } else {
                other_op(console, op, addr);
            }
            advance_pc(console);
        },
    }
}

/// Runs one CPU step for `opcode`, the byte at PC.
pub fn interpret_opcode(console: &mut Console, opcode: u8)
    requires
        old(console)@.wf(),
        opcode_step(old(console)@, opcode) is Some,
    ensures
        opcode_step(old(console)@, opcode) == Some(final(console)@),
        final(console)@.wf(),
{
    if console.CPU.pause > 0 {
        let c = console.CPU;
        put_cpu(console, CPU { pause: c.pause - 1, PC: c.PC + 1, ..c });
        return;
    }
    proof {
        lemma_cycle_counts();
    }
    let c = console.CPU;
    put_cpu(console, CPU { pause: CYCLE_COUNT[opcode as usize] - 1, ..c });
    let addr = operand_address_of(console, opcode);
    execute_opcode(console, opcode, addr);
}

// ---------------------------------------------------------------------------
// The checked step: the same step, telling where it is not defined
// ---------------------------------------------------------------------------

pub(crate) fn try_operand_byte(console: &mut Console) -> (r: Option<u8>)
    requires
        old(console)@.wf(),
    ensures
        r is Some == operand_byte(old(console)@) is Some,
        r is Some ==> operand_byte(old(console)@) == Some((r->0, final(console)@)),
        final(console)@.wf(),
{
    if console.CPU.PC < 0xFFFF && read_defined(console, console.CPU.PC + 1) {
        Some(fetch_operand_byte(console))
    } else {
        None
    }
}

pub(crate) fn try_operand_word(console: &mut Console) -> (r: Option<u16>)
    requires
        old(console)@.wf(),
    ensures
        r is Some == operand_word(old(console)@) is Some,
        r is Some ==> operand_word(old(console)@) == Some((r->0, final(console)@)),
        final(console)@.wf(),
{
    if console.CPU.PC < 0xFFFF && read16_defined(console, console.CPU.PC + 1) {
        Some(fetch_operand_word(console))
    } else {
        None
    }
}

pub(crate) fn try_operand_indirect(console: &mut Console) -> (r: Option<u16>)
    requires
        old(console)@.wf(),
    ensures
        r is Some == operand_indirect(old(console)@) is Some,
        r is Some ==> operand_indirect(old(console)@) == Some((r->0, final(console)@)),
        final(console)@.wf(),
{
    match try_operand_word(console) {
        Some(t) => if read16_defined(console, t) {
            Some(read16(console, t))
        } else {
            None
        },
        None => None,
    }
}

pub(crate) fn try_operand_word_plus(console: &mut Console, index: u8) -> (r: Option<u16>)
    requires
        old(console)@.wf(),
    ensures
        r is Some == operand_word_plus(old(console)@, index) is Some,
        r is Some ==> operand_word_plus(old(console)@, index) == Some((r->0, final(console)@)),
        final(console)@.wf(),
{
    match try_operand_word(console) {
        Some(t) => if t <= u16::MAX - index as u16 {
            Some(t + index as u16)
        } else {
            None
        },
        None => None,
    }
}

fn try_operand_word_plus_timed(console: &mut Console, index: u8) -> (r: Option<u16>)
    requires
        old(console)@.wf(),
        old(console)@.cpu.pause < u8::MAX,
    ensures
        r is Some == operand_word_plus_timed(old(console)@, index) is Some,
        r is Some ==> operand_word_plus_timed(old(console)@, index) == Some((r->0, final(console)@)),
        final(console)@.wf(),
{
    match try_operand_word(console) {
        Some(t) => if t <= u16::MAX - index as u16 {
            let crossed = page_crossed(t, index);
            charge_cycle_if(console, crossed);
            Some(t + index as u16)
        } else {
            None
        },
        None => None,
    }
}

fn try_group0(console: &mut Console, opcode: u8, bbb: u8) -> (r: Option<u16>)
    requires
        old(console)@.wf(),
    ensures
        r is Some == operand_address_group0(old(console)@, opcode, bbb) is Some,
        r is Some ==> operand_address_group0(old(console)@, opcode, bbb) == Some((r->0, final(console)@)),
        final(console)@.wf(),
{
    if bbb == 0b000 {
        if opcode == 0x20 {
            try_operand_indirect(console)
        } else {
            Some(0)
        }
    } else if bbb == 0b001 {
        try_operand_word(console)
    } else if bbb == 0b011 {
        if opcode == 0x6C {
            try_operand_indirect(console)
        } else {
            try_operand_word(console)
        }
    } else if bbb == 0b101 {
        match try_operand_byte(console) {
            Some(v) => if v <= u8::MAX - console.CPU.X {
                Some(((v + console.CPU.X) as u16) % 0xFF)
            } else {
                None
            },
            None => None,
        }
    } else if bbb == 0b111 {
        let x = console.CPU.X;
        try_operand_word_plus(console, x)
    } else {
        Some(0)
    }
}

fn try_indirect_indexed(console: &mut Console) -> (r: Option<u16>)
    requires
        old(console)@.wf(),
        old(console)@.cpu.pause < u8::MAX,
    ensures
        r is Some == operand_address_group1(old(console)@, 4) is Some,
        r is Some ==> operand_address_group1(old(console)@, 4) == Some((r->0, final(console)@)),
        final(console)@.wf(),
{
    match try_operand_word(console) {
        Some(t) => {
            let crossed = page_crossed(t, console.CPU.Y);
            charge_cycle_if(console, crossed);
            if read16_defined(console, t) {
                let v = read16(console, t);
                if v <= u16::MAX - console.CPU.Y as u16 {
                    Some(v + console.CPU.Y as u16)
                } else {
                    None
                }
            } else {
                None
            }
        },
        None => None,
    }
}

fn try_group1(console: &mut Console, bbb: u8) -> (r: Option<u16>)
    requires
        old(console)@.wf(),
        old(console)@.cpu.pause < u8::MAX,
        bbb < 8,
    ensures
        r is Some == operand_address_group1(old(console)@, bbb) is Some,
        r is Some ==> operand_address_group1(old(console)@, bbb) == Some((r->0, final(console)@)),
        final(console)@.wf(),
{
    if bbb == 0b000 {
        match try_operand_byte(console) {
            Some(t) => {
                let p = zp_index(t, console.CPU.X);
                if read16_defined(console, p) {
                    Some(read16(console, p))
                } else {
                    None
                }
            },
            None => None,
        }
    } else if bbb == 0b001 {
        match try_operand_byte(console) {
            Some(v) => Some(v as u16),
            None => None,
        }
    } else if bbb == 0b010 {
        if console.CPU.PC < 0xFFFF {
            Some(console.CPU.PC + 1)
        } else {
            None
        }
    } else if bbb == 0b011 {
        try_operand_word(console)
    } else if bbb == 0b100 {
        try_indirect_indexed(console)
    } else if bbb == 0b101 {
        match try_operand_byte(console) {
            Some(v) => Some(zp_index(v, console.CPU.X)),
            None => None,
        }
    } else if bbb == 0b110 {
        let y = console.CPU.Y;
        try_operand_word_plus_timed(console, y)
    } else {
        let x = console.CPU.X;
        try_operand_word_plus_timed(console, x)
    }
}

fn try_group2(console: &mut Console, opcode: u8, bbb: u8) -> (r: Option<u16>)
    requires
        old(console)@.wf(),
    ensures
        r is Some == operand_address_group2(old(console)@, opcode, bbb) is Some,
        r is Some ==> operand_address_group2(old(console)@, opcode, bbb) == Some((r->0, final(console)@)),
        final(console)@.wf(),
{
    if bbb == 0b001 {
        match try_operand_byte(console) {
            Some(v) => Some(v as u16),
            None => None,
        }
    } else if bbb == 0b011 {
        try_operand_word(console)
    } else if bbb == 0b101 {
        let i = if opcode == 0x96 || opcode == 0xB6 {
            console.CPU.Y
        } else {
            console.CPU.X
        };
        match try_operand_byte(console) {
            Some(v) => Some(zp_index(v, i)),
            None => None,
        }
    } else if bbb == 0b111 {
        let i = if opcode == 0x9E || opcode == 0xBE {
            console.CPU.Y
        } else {
            console.CPU.X
        };
        try_operand_word_plus(console, i)
    } else {
        Some(0)
    }
}

fn try_operand_address(console: &mut Console, opcode: u8) -> (r: Option<u16>)
    requires
        old(console)@.wf(),
        old(console)@.cpu.pause < u8::MAX,
    ensures
        r is Some == operand_address(old(console)@, opcode) is Some,
        r is Some ==> operand_address(old(console)@, opcode) == Some((r->0, final(console)@)),
        final(console)@.wf(),
{
    let bbb = (opcode & 0b00011100) >> 2u8;
    let cc = opcode & 0b00000011;
    assert(bbb == (opcode >> 2u8) & 7 && cc == opcode & 3 && bbb < 8 && cc < 4) by (bit_vector)
        requires
            bbb == (opcode & 0b00011100) >> 2u8,
            cc == opcode & 0b00000011,
    ;
    if cc == 0b00 {
        try_group0(console, opcode, bbb)
    } else if cc == 0b01 {
        try_group1(console, bbb)
    } else if cc == 0b10 {
        try_group2(console, opcode, bbb)
    } else {
        None
    }
}

fn try_push(console: &mut Console, data: u8) -> (ok: bool)
    requires
        old(console)@.wf(),
    ensures
        ok == push(old(console)@, data) is Some,
        ok ==> push(old(console)@, data) == Some(final(console)@),
        final(console)@.wf(),
{
    if console.CPU.SP != 0 {
        push_byte(console, data);
        true
    } else {
        false
    }
}

fn try_brk(console: &mut Console) -> (ok: bool)
    requires
        old(console)@.wf(),
    ensures
        ok == brk(old(console)@) is Some,
        ok ==> brk(old(console)@) == Some(final(console)@),
        final(console)@.wf(),
{
    let pc = console.CPU.PC;
    assert(((pc & 0xFF00) >> 8u16) == pc / 256 && (pc & 0x00FF) == pc % 256) by (bit_vector);
    if !try_push(console, ((pc & 0xFF00) >> 8u16) as u8) {
        return false;
    }
    if !try_push(console, (pc & 0x00FF) as u8) {
        return false;
    }
    let c = console.CPU;
    put_cpu(console, CPU { break_cmd: true, ..c });
    let p = console.CPU.status();
    if !try_push(console, p) {
        return false;
    }
    if !read16_defined(console, 0xFFFE) {
        return false;
    }
    let target = read16(console, 0xFFFE);
    let c = console.CPU;
    put_cpu(console, CPU { break_cmd: false, interupt_disable: true, PC: target, ..c });
    true
}

fn try_asl(console: &mut Console, addr: u16) -> (ok: bool)
    requires
        old(console)@.wf(),
    ensures
        ok == asl_effect(old(console)@, addr) is Some,
        ok ==> asl_effect(old(console)@, addr) == Some(final(console)@),
        final(console)@.wf(),
{
    if addr == 0 {
        asl_op(console, addr);
        true
    } else if read_defined(console, addr) {
        let v = read(console, addr);
        let (t, out) = shifted_left(v);
        let c = console.CPU;
        put_cpu(console, nz(CPU { carry: out, ..c }, t));
        if write_defined(console, addr) {
            crate::memory::write(console, addr, t);
            true
        } else {
            false
        }
    } else {
        false
    }
}

fn try_dec(console: &mut Console, addr: u16) -> (ok: bool)
    requires
        old(console)@.wf(),
    ensures
        ok == dec_effect(old(console)@, addr) is Some,
        ok ==> dec_effect(old(console)@, addr) == Some(final(console)@),
        final(console)@.wf(),
{
    if read_defined(console, addr) {
        let v = read(console, addr);
        if v == 0 {
            return false;
        }
        let temp = v - 1;
        let c = console.CPU;
        put_cpu(console, nz(c, temp));
        if write_defined(console, addr) {
            crate::memory::write(console, addr, temp);
            true
        } else {
            false
        }
    } else {
        false
    }
}

fn try_other(console: &mut Console, op: Op, addr: u16) -> (ok: bool)
    requires
        old(console)@.wf(),
    ensures
        ok == other_effect(old(console)@, op, addr) is Some,
        ok ==> other_effect(old(console)@, op, addr) == Some(final(console)@),
        final(console)@.wf(),
{
    match op {
        Op::Brk => try_brk(console),
        Op::Asl => try_asl(console, addr),
        Op::Dec => try_dec(console, addr),
        Op::Dex => {
            if console.CPU.X != 0 {
                dex_op(console);
                true
            } else {
                false
            }
        },
        Op::Php => {
            let p = console.CPU.status();
            try_push(console, p)
        },
        Op::Plp => {
            if console.CPU.SP != 0xFF {
                plp_op(console);
                true
            } else {
                false
            }
        },
        Op::Pha => {
            let a = console.CPU.A;
            try_push(console, a)
        },
        _ => {
            let c = console.CPU;
            put_cpu(console, register_result(c, op, addr));
            true
        },
    }
}

fn try_effect(console: &mut Console, op: Op, addr: u16) -> (ok: bool)
    requires
        old(console)@.wf(),
    ensures
        ok == op_effect(old(console)@, op, addr) is Some,
        ok ==> op_effect(old(console)@, op, addr) == Some(final(console)@),
        final(console)@.wf(),
{
    if op == Op::Ora || op == Op::And || op == Op::Eor || op == Op::Adc || op == Op::Sbc || op
        == Op::Lda || op == Op::Cmp || op == Op::Cpx || op == Op::Cpy || op == Op::Bit {
        if read_defined(console, addr) {
            load(console, op, addr);
            true
        } else {
            false
        }
    } else {
        try_other(console, op, addr)
    }
}

fn try_branch(console: &mut Console, cond: Condition, addr: u16) -> (ok: bool)
    requires
        old(console)@.wf(),
    ensures
        ({
            let m = old(console)@;
            let spec = if branch_taken(m.cpu, cond) {
                match bus_read(m, addr) {
                    Some((v, m1)) => if m1.cpu.PC + v <= u16::MAX {
                        Some(with_cpu(m1, CPU { PC: (m1.cpu.PC + v) as u16, ..m1.cpu }))
                    } else {
                        None
                    },
                    None => None,
                }
            } else {
                next_pc(m)
            };
            &&& ok == spec is Some
            &&& ok ==> spec == Some(final(console)@)
        }),
        final(console)@.wf(),
{
    if is_taken(&console.CPU, cond) {
        if !read_defined(console, addr) {
            return false;
        }
        let v = read(console, addr);
        let c = console.CPU;
        if c.PC <= u16::MAX - v as u16 {
            put_cpu(console, CPU { PC: c.PC + v as u16, ..c });
            true
        } else {
            false
        }
    } else if console.CPU.PC < 0xFFFF {
        advance_pc(console);
        true
    } else {
        false
    }
}

fn try_execute(console: &mut Console, opcode: u8, addr: u16) -> (ok: bool)
    requires
        old(console)@.wf(),
    ensures
        ok == execute(old(console)@, opcode, addr) is Some,
        ok ==> execute(old(console)@, opcode, addr) == Some(final(console)@),
        final(console)@.wf(),
{
    let op = decode(opcode);
    match op {
        Op::Stp => false,
        Op::Branch(cond) => try_branch(console, cond, addr),
        _ => {
            if try_effect(console, op, addr) && console.CPU.PC < 0xFFFF {
                advance_pc(console);
                true
            } else {
                false
            }
        },
    }
}

/// Runs one CPU step for `opcode`, the byte at PC, as `interpret_opcode` does,
/// and tells whether the step is defined. Where it is not (`opcode_step` gives
/// `None`) the machine is left part-way through the step, still well formed.
pub fn try_interpret_opcode(console: &mut Console, opcode: u8) -> (ok: bool)
    requires
        old(console)@.wf(),
    ensures
        ok == opcode_step(old(console)@, opcode) is Some,
        ok ==> opcode_step(old(console)@, opcode) == Some(final(console)@),
        final(console)@.wf(),
{
    if console.CPU.pause > 0 {
        if console.CPU.PC < 0xFFFF {
            let c = console.CPU;
            put_cpu(console, CPU { pause: c.pause - 1, PC: c.PC + 1, ..c });
            return true;
        } else {
            return false;
        }
    }
    proof {
        lemma_cycle_counts();
    }
    let c = console.CPU;
    put_cpu(console, CPU { pause: CYCLE_COUNT[opcode as usize] - 1, ..c });
    match try_operand_address(console, opcode) {
        Some(addr) => try_execute(console, opcode, addr),
        None => false,
    }
}

} // verus!
