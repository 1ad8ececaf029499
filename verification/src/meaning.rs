//! Laws on what single operations mean, stated field by field from their
//! inputs: which flag a branch tests, how a pixel's colour comes from the
//! pattern bits, which register an indexed listing address uses, which bit of
//! a PPUCTRL write sets which control, and which channel an APU write changes.

use vstd::prelude::*;
use crate::console::ConsoleState;
use crate::cpu::CPU;
use crate::apu::{APU, Pulse};
use crate::memory::{apu_register_write, bus_read, bus_write};
use crate::ppu::PpuRegisters;
use crate::ppu::{PpuState, SYSTEM_PALLETE, dot_renderable, dot_value, ppu_dot, put_pixel};
use crate::disasm::listing_address;
use vstd::arithmetic::power2::pow2;
use crate::opcodes::{
    CYCLE_COUNT, Condition, Op, branch_taken, execute, op_of, opcode_step, operand_address,
    operand_byte, operand_word, with_cpu,
};

verus! {

/// The machine after a two-cycle branch at PC from an idle CPU: when taken, PC
/// moves on by the byte at address 0 (the operand address of the relative
/// mode here); otherwise PC moves past the opcode.
pub open spec fn branch_outcome(m: ConsoleState, taken: bool) -> ConsoleState {
    with_cpu(
        m,
        CPU {
            pause: 1,
            PC: if taken {
                (m.cpu.PC + m.ram[0]) as u16
            } else {
                (m.cpu.PC + 1) as u16
            },
            ..m.cpu
        },
    )
}

proof fn lemma_relative_address(m: ConsoleState, opcode: u8)
    requires
        ((opcode >> 2u8) & 7u8) == 4u8,
        (opcode & 3u8) == 0u8,
    ensures
        operand_address(m, opcode) == Some((0u16, m)),
{
}

proof fn lemma_branch_execute(m: ConsoleState, opcode: u8, cond: Condition)
    requires
        m.wf(),
        m.cpu.PC <= 0xFF00,
        op_of(opcode) == Op::Branch(cond),
    ensures
        execute(m, opcode, 0) == Some(
            with_cpu(
                m,
                CPU {
                    PC: if branch_taken(m.cpu, cond) {
                        (m.cpu.PC + m.ram[0]) as u16
                    } else {
                        (m.cpu.PC + 1) as u16
                    },
                    ..m.cpu
                },
            ),
        ),
{
    assert(bus_read(m, 0) == Some((m.ram[0], m)));
}

proof fn lemma_branch_step(m: ConsoleState, opcode: u8, cond: Condition)
    requires
        m.wf(),
        m.cpu.pause == 0,
        m.cpu.PC <= 0xFF00,
        op_of(opcode) == Op::Branch(cond),
        CYCLE_COUNT@[opcode as int] == 2,
        ((opcode >> 2u8) & 7u8) == 4u8,
        (opcode & 3u8) == 0u8,
    ensures
        opcode_step(m, opcode) == Some(branch_outcome(m, branch_taken(m.cpu, cond))),
{
    let m1 = with_cpu(m, CPU { pause: 1, ..m.cpu });
    lemma_relative_address(m1, opcode);
    lemma_branch_execute(m1, opcode, cond);
}

/// Each conditional branch tests its own flag: BPL when N is clear, BMI when N
/// is set, BVC/BVS on V, BCC/BCS on C, BNE when Z is clear and BEQ when Z is
/// set. A taken branch adds the byte at address 0 to PC; one not taken moves PC
/// past the opcode; either way the branch occupies two cycles.
pub proof fn law_branch_conditions(m: ConsoleState)
    requires
        m.wf(),
        m.cpu.pause == 0,
        m.cpu.PC <= 0xFF00,
    ensures
        opcode_step(m, 0x10) == Some(branch_outcome(m, !m.cpu.negative)),
        opcode_step(m, 0x30) == Some(branch_outcome(m, m.cpu.negative)),
        opcode_step(m, 0x50) == Some(branch_outcome(m, !m.cpu.overflow)),
        opcode_step(m, 0x70) == Some(branch_outcome(m, m.cpu.overflow)),
        opcode_step(m, 0x90) == Some(branch_outcome(m, !m.cpu.carry)),
        opcode_step(m, 0xB0) == Some(branch_outcome(m, m.cpu.carry)),
        opcode_step(m, 0xD0) == Some(branch_outcome(m, !m.cpu.zero)),
        opcode_step(m, 0xF0) == Some(branch_outcome(m, m.cpu.zero)),
{
    assert(((0x10u8 >> 2u8) & 7u8) == 4u8 && ((0x30u8 >> 2u8) & 7u8) == 4u8 && ((0x50u8 >> 2u8)
        & 7u8) == 4u8 && ((0x70u8 >> 2u8) & 7u8) == 4u8 && ((0x90u8 >> 2u8) & 7u8) == 4u8 && ((0xB0u8
        >> 2u8) & 7u8) == 4u8 && ((0xD0u8 >> 2u8) & 7u8) == 4u8 && ((0xF0u8 >> 2u8) & 7u8) == 4u8)
        by (bit_vector);
    assert((0x10u8 & 3u8) == 0u8 && (0x30u8 & 3u8) == 0u8 && (0x50u8 & 3u8) == 0u8 && (0x70u8
        & 3u8) == 0u8 && (0x90u8 & 3u8) == 0u8 && (0xB0u8 & 3u8) == 0u8 && (0xD0u8 & 3u8) == 0u8
        && (0xF0u8 & 3u8) == 0u8) by (bit_vector);
    lemma_branch_step(m, 0x10, Condition::Plus);
    lemma_branch_step(m, 0x30, Condition::Minus);
    lemma_branch_step(m, 0x50, Condition::OverflowClear);
    lemma_branch_step(m, 0x70, Condition::OverflowSet);
    lemma_branch_step(m, 0x90, Condition::CarryClear);
    lemma_branch_step(m, 0xB0, Condition::CarrySet);
    lemma_branch_step(m, 0xD0, Condition::NotEqual);
    lemma_branch_step(m, 0xF0, Condition::Equal);
}

/// Bit `s` of `v`, counted from the right.
pub open spec fn bit(v: u8, s: nat) -> nat {
    (v as nat / pow2(s)) % 2
}

proof fn lemma_shift_bit(v: u8, s: u8)
    requires
        s < 8,
    ensures
        ((v >> s) & 1) as nat == bit(v, s as nat),
        ((v >> s) & 1) < 2,
{
    vstd::bits::lemma_u8_shr_is_div(v, s);
    let t = v >> s;
    assert((t & 1) == t % 2) by (bit_vector);
}

/// A background dot's two-bit value is twice its bit in the high plane plus its
/// bit in the low plane, the two planes taken independently; the dot is drawn
/// at pixel (`cycle - 1`, `line`) in palette colour $01 for 0, $23 for 1, $27
/// for 2 and $30 for 3, and nothing else of the PPU changes.
pub proof fn law_dot_colour(p: PpuState, line: int, cycle: int)
    requires
        p.wf(),
        0 <= line < 240,
        1 <= cycle < 257,
        dot_renderable(p, line, cycle),
    ensures
        ({
            let tile = p.nametable0[cycle / 8 + (line / 8) * 32] as int;
            let low = p.patterntable0[tile * 16 + line % 8];
            let high = p.patterntable0[tile * 16 + line % 8 + 8];
            let s = ((cycle - 1) % 8) as nat;
            let hb = bit(high, s);
            let lb = bit(low, s);
            let index: int = if hb == 0 && lb == 0 {
                0x01
            } else if hb == 0 {
                0x23
            } else if lb == 0 {
                0x27
            } else {
                0x30
            };
            &&& dot_value(p, line, cycle) == 2 * hb + lb
            &&& ppu_dot(p, line, cycle) == Some(
                PpuState { frame: put_pixel(p.frame, cycle - 1, line, SYSTEM_PALLETE@[index]), ..p },
            )
        }),
{
    let tile = p.nametable0[cycle / 8 + (line / 8) * 32] as int;
    let low = p.patterntable0[tile * 16 + line % 8];
    let high = p.patterntable0[tile * 16 + line % 8 + 8];
    let s = ((cycle - 1) % 8) as u8;
    lemma_shift_bit(low, s);
    lemma_shift_bit(high, s);
    let hv = (high >> s) & 1;
    let lv = (low >> s) & 1;
    assert((hv << 1u8) | lv == 2 * hv + lv) by (bit_vector)
        requires
            hv < 2,
            lv < 2,
    ;
    assert(dot_value(p, line, cycle) == (hv << 1u8) | lv);
}

/// The word after the opcode plus `index`, with the machine after reading the
/// word, where the sum fits in 16 bits.
pub open spec fn word_plus(m: ConsoleState, index: u8) -> Option<(u16, ConsoleState)> {
    match operand_word(m) {
        Some((t, m1)) => if t + index <= u16::MAX {
            Some(((t + index) as u16, m1))
        } else {
            None
        },
        None => None,
    }
}

/// In the listing, the ALU instructions' absolute indexed modes add Y (`bbb`
/// 110, as in `LDA $nnnn,Y`) or X (`bbb` 111) to the word after the opcode, and
/// the address each lists does not depend on the other index register.
pub proof fn law_listing_absolute_indexed(m: ConsoleState, opcode: u8, other: u8)
    requires
        (opcode & 3u8) == 1u8,
        ((opcode >> 2u8) & 7u8) == 6u8 || ((opcode >> 2u8) & 7u8) == 7u8,
    ensures
        ((opcode >> 2u8) & 7u8) == 6u8 ==> listing_address(m, opcode) == word_plus(m, m.cpu.Y),
        ((opcode >> 2u8) & 7u8) == 7u8 ==> listing_address(m, opcode) == word_plus(m, m.cpu.X),
        ((opcode >> 2u8) & 7u8) == 6u8 ==> listing_address(with_cpu(m, CPU { X: other, ..m.cpu }), opcode)
            is Some == listing_address(m, opcode) is Some,
        ((opcode >> 2u8) & 7u8) == 6u8 && listing_address(m, opcode) is Some ==> (listing_address(
            with_cpu(m, CPU { X: other, ..m.cpu }),
            opcode,
        )->0).0 == (listing_address(m, opcode)->0).0,
        ((opcode >> 2u8) & 7u8) == 7u8 ==> listing_address(with_cpu(m, CPU { Y: other, ..m.cpu }), opcode)
            is Some == listing_address(m, opcode) is Some,
        ((opcode >> 2u8) & 7u8) == 7u8 && listing_address(m, opcode) is Some ==> (listing_address(
            with_cpu(m, CPU { Y: other, ..m.cpu }),
            opcode,
        )->0).0 == (listing_address(m, opcode)->0).0,
{
    lemma_word_read_ignores_index(m, other);
}

/// Reading the word after the opcode gives the same word whatever X and Y hold,
/// and keeps X and Y.
proof fn lemma_word_read_ignores_index(m: ConsoleState, other: u8)
    ensures
        ({
            let mx = with_cpu(m, CPU { X: other, ..m.cpu });
            let my = with_cpu(m, CPU { Y: other, ..m.cpu });
            &&& operand_word(mx) is Some == operand_word(m) is Some
            &&& operand_word(my) is Some == operand_word(m) is Some
            &&& operand_word(m) is Some ==> {
                &&& (operand_word(mx)->0).0 == (operand_word(m)->0).0
                &&& (operand_word(my)->0).0 == (operand_word(m)->0).0
                &&& (operand_word(m)->0).1.cpu.X == m.cpu.X
                &&& (operand_word(m)->0).1.cpu.Y == m.cpu.Y
                &&& (operand_word(mx)->0).1.cpu.X == other
                &&& (operand_word(my)->0).1.cpu.Y == other
            }
        }),
{
}

proof fn lemma_flag_bit(v: u8, s: u8, mask: u8)
    requires
        s < 8,
        mask as int == pow2(s as nat),
    ensures
        ((v & mask) > 0) == (bit(v, s as nat) == 1),
        ((v & mask) != 0) == (bit(v, s as nat) == 1),
{
    lemma_shift_bit(v, s);
    vstd::bits::lemma_u8_shl_is_mul(1, s);
    vstd::arithmetic::power2::lemma2_to64();
    assert(mask == 1u8 << s);
    assert(((v & mask) > 0) == (((v >> s) & 1) == 1)) by (bit_vector)
        requires
            s < 8,
            mask == 1u8 << s,
    ;
}

/// A CPU write of `data` to PPUCTRL ($2000) sets each control from its bit of
/// `data`: bits 0-1 select the name table (and go to bits 10-11 of `t`), bit 2
/// the address increment, bit 3 the sprite pattern table, bit 4 the background
/// pattern table, bit 5 the sprite height, bit 6 master/slave, bit 7 the NMI;
/// nothing else of the machine changes.
pub proof fn law_ppuctrl_bits(m: ConsoleState, data: u8)
    ensures
        bus_write(m, 0x2000, data) == Some(
            ConsoleState {
                ppu: PpuState {
                    regs: PpuRegisters {
                        nametable_select: data % 4,
                        increment: bit(data, 2) == 1,
                        sprite_tile_select: bit(data, 3) == 1,
                        background_tile_select: bit(data, 4) == 1,
                        sprite_height: bit(data, 5) == 1,
                        master_slave: bit(data, 6) == 1,
                        nmi_enable: bit(data, 7) == 1,
                        t: (m.ppu.regs.t % 1024 + 1024 * (data % 4) + 4096 * (m.ppu.regs.t / 4096)) as u16,
                        ..m.ppu.regs
                    },
                    ..m.ppu
                },
                ..m
            },
        ),
{
    vstd::arithmetic::power2::lemma2_to64();
    lemma_flag_bit(data, 2, 4);
    lemma_flag_bit(data, 3, 8);
    lemma_flag_bit(data, 4, 16);
    lemma_flag_bit(data, 5, 32);
    lemma_flag_bit(data, 6, 64);
    lemma_flag_bit(data, 7, 128);
    let t = m.ppu.regs.t;
    assert((data & 3) == data % 4) by (bit_vector);
    assert((t & 0xF3FF) | (((data & 3) as u16) << 10u16) == t % 1024 + 1024 * (data % 4) + 4096 * (
    t / 4096)) by (bit_vector);
}

/// A pulse channel after a write of `data` to its first register: duty from
/// bits 6-7, the halt flag from bit 5, the volume from bits 0-3.
pub open spec fn pulse_after_control(p: Pulse, data: u8) -> Pulse {
    Pulse { duty: data / 64, halt: bit(data, 5) == 1, volume: data % 16, ..p }
}

/// A write to $4000 sets the control of pulse channel 1 and a write to $4004
/// that of pulse channel 2, each from the bits of `data`; no other part of the
/// APU, and nothing else of the machine, changes.
pub proof fn law_pulse_control(m: ConsoleState, data: u8)
    ensures
        bus_write(m, 0x4000, data) == Some(
            ConsoleState { apu: APU { Pulse1: pulse_after_control(m.apu.Pulse1, data), ..m.apu }, ..m },
        ),
        bus_write(m, 0x4004, data) == Some(
            ConsoleState { apu: APU { Pulse2: pulse_after_control(m.apu.Pulse2, data), ..m.apu }, ..m },
        ),
{
    vstd::arithmetic::power2::lemma2_to64();
    lemma_flag_bit(data, 5, 32);
    assert((data & 0b11000000) >> 6u8 == data / 64 && (data & 0x0F) == data % 16) by (bit_vector);
}

/// The four registers of pulse channel 2 ($4004-$4007) act on it exactly as
/// $4000-$4003 act on pulse channel 1; a write to either group leaves the other
/// channel, and the rest of the APU, as they were.
pub proof fn law_pulse_channels_alike(a: APU, k: u16, data: u8)
    requires
        k < 4,
    ensures
        apu_register_write(a, (0x4004 + k) as u16, data).Pulse2 == apu_register_write(
            APU { Pulse1: a.Pulse2, ..a },
            (0x4000 + k) as u16,
            data,
        ).Pulse1,
        apu_register_write(a, (0x4004 + k) as u16, data) == (APU {
            Pulse2: apu_register_write(a, (0x4004 + k) as u16, data).Pulse2,
            ..a
        }),
        apu_register_write(a, (0x4000 + k) as u16, data) == (APU {
            Pulse1: apu_register_write(a, (0x4000 + k) as u16, data).Pulse1,
            ..a
        }),
{
}

/// A CPU write of `data` to PPUMASK ($2001) sets each rendering control from its
/// bit of `data`: greyscale (0), left-column background (1) and sprites (2),
/// background (3), sprites (4), red (5), green (6) and blue (7) emphasis;
/// nothing else of the machine changes.
pub proof fn law_ppumask_bits(m: ConsoleState, data: u8)
    ensures
        bus_write(m, 0x2001, data) == Some(
            ConsoleState {
                ppu: PpuState {
                    regs: PpuRegisters {
                        grayscale: bit(data, 0) == 1,
                        bg_left_column_enable: bit(data, 1) == 1,
                        sprite_left_column_enable: bit(data, 2) == 1,
                        bg_enable: bit(data, 3) == 1,
                        sprite_enable: bit(data, 4) == 1,
                        red_emphasis: bit(data, 5) == 1,
                        green_emphasis: bit(data, 6) == 1,
                        blue_emphasis: bit(data, 7) == 1,
                        ..m.ppu.regs
                    },
                    ..m.ppu
                },
                ..m
            },
        ),
{
    vstd::arithmetic::power2::lemma2_to64();
    lemma_flag_bit(data, 0, 1);
    lemma_flag_bit(data, 1, 2);
    lemma_flag_bit(data, 2, 4);
    lemma_flag_bit(data, 3, 8);
    lemma_flag_bit(data, 4, 16);
    lemma_flag_bit(data, 5, 32);
    lemma_flag_bit(data, 6, 64);
    lemma_flag_bit(data, 7, 128);
}

/// The other pulse registers of channel 1, from the bits of `data`: $4001 sets
/// the sweep (enable bit 7, period bits 4-6, negate bit 3, shift bits 0-2);
/// $4002 the low eight bits of the timer; $4003 the timer's bits 8-10 from bits
/// 0-2 and the length counter load from bits 3-7. Each keeps the rest of the
/// channel and the rest of the APU.
pub proof fn law_pulse_registers(a: APU, data: u8)
    ensures
        apu_register_write(a, 0x4001, data) == (APU {
            Pulse1: Pulse {
                sweep_en: bit(data, 7) == 1,
                sweep_period: (data / 16) % 8,
                sweep_negate: bit(data, 3) == 1,
                sweep_shift: data % 8,
                ..a.Pulse1
            },
            ..a
        }),
        apu_register_write(a, 0x4002, data) == (APU {
            Pulse1: Pulse { timer: (a.Pulse1.timer / 256 * 256 + data) as u16, ..a.Pulse1 },
            ..a
        }),
        apu_register_write(a, 0x4003, data) == (APU {
            Pulse1: Pulse {
                timer: (a.Pulse1.timer % 256 + 256 * (data % 8)) as u16,
                length_counter_load: data / 8,
                ..a.Pulse1
            },
            ..a
        }),
{
    vstd::arithmetic::power2::lemma2_to64();
    lemma_flag_bit(data, 3, 8);
    lemma_flag_bit(data, 7, 128);
    let t = a.Pulse1.timer;
    assert((data & 0b01110000) >> 4u8 == (data / 16) % 8 && (data & 0b00000111) == data % 8 && (data
        & 0b11111000) >> 3u8 == data / 8) by (bit_vector);
    assert((t & 0xFF00) | (data as u16) == t / 256 * 256 + data && (t & 0x00FF) | (((data
        & 0b00000111) as u16) << 8u16) == t % 256 + 256 * (data % 8)) by (bit_vector);
}

/// $4015 enables each channel from its bit of `data` (pulse 1 bit 0, pulse 2
/// bit 1, triangle bit 2, noise bit 3, DMC bit 4), and keeps the channels'
/// registers.
pub proof fn law_channel_enables(a: APU, data: u8)
    ensures
        apu_register_write(a, 0x4015, data) == (APU {
            pulse1_en: bit(data, 0) == 1,
            pulse2_en: bit(data, 1) == 1,
            triangle_en: bit(data, 2) == 1,
            noise_en: bit(data, 3) == 1,
            dmc_en: bit(data, 4) == 1,
            ..a
        }),
{
    vstd::arithmetic::power2::lemma2_to64();
    lemma_flag_bit(data, 0, 1);
    lemma_flag_bit(data, 1, 2);
    lemma_flag_bit(data, 2, 4);
    lemma_flag_bit(data, 3, 8);
    lemma_flag_bit(data, 4, 16);
}

/// As `word_plus`, with one more cycle charged when adding `index` carries out
/// of the low byte of the word.
pub open spec fn word_plus_charged(m: ConsoleState, index: u8) -> Option<(u16, ConsoleState)> {
    match operand_word(m) {
        Some((t, m1)) => if t + index <= u16::MAX {
            Some(
                (
                    (t + index) as u16,
                    if t % 256 + index >= 256 {
                        with_cpu(m1, CPU { pause: (m1.cpu.pause + 1) as u8, ..m1.cpu })
                    } else {
                        m1
                    },
                ),
            )
        } else {
            None
        },
        None => None,
    }
}

/// The byte after the opcode plus `index`, wrapped as this interpreter wraps
/// zero-page indexing (modulo $FF).
pub open spec fn zero_page_plus(m: ConsoleState, index: u8) -> Option<(u16, ConsoleState)> {
    match operand_byte(m) {
        Some((v, m1)) => Some((((v as int + index as int) % 0xFF) as u16, m1)),
        None => None,
    }
}

/// The interpreter's indexed modes use the index register their opcodes name:
/// for the ALU instructions absolute,Y (`bbb` 110) adds Y and absolute,X
/// (`bbb` 111) adds X, charging a cycle on a page crossing, and zero page,X
/// (`bbb` 101) adds X; for the `cc == 10` group, STX/LDX zero page,Y ($96,
/// $B6) and absolute,Y ($9E, $BE) add Y, and the others of those modes add X.
pub proof fn law_operand_index_registers(m: ConsoleState, opcode: u8)
    ensures
        (opcode & 3u8) == 1u8 && ((opcode >> 2u8) & 7u8) == 6u8 ==> operand_address(m, opcode)
            == word_plus_charged(m, m.cpu.Y),
        (opcode & 3u8) == 1u8 && ((opcode >> 2u8) & 7u8) == 7u8 ==> operand_address(m, opcode)
            == word_plus_charged(m, m.cpu.X),
        (opcode & 3u8) == 1u8 && ((opcode >> 2u8) & 7u8) == 5u8 ==> operand_address(m, opcode)
            == zero_page_plus(m, m.cpu.X),
        (opcode & 3u8) == 2u8 && ((opcode >> 2u8) & 7u8) == 5u8 ==> operand_address(m, opcode)
            == zero_page_plus(
            m,
            if opcode == 0x96 || opcode == 0xB6 {
                m.cpu.Y
            } else {
                m.cpu.X
            },
        ),
        (opcode & 3u8) == 2u8 && ((opcode >> 2u8) & 7u8) == 7u8 ==> operand_address(m, opcode)
            == word_plus(
            m,
            if opcode == 0x9E || opcode == 0xBE {
                m.cpu.Y
            } else {
                m.cpu.X
            },
        ),
{
    lemma_word_read_ignores_index(m, 0);
}

/// A CPU read of PPUSTATUS ($2002) returns vblank in bit 7, sprite-0 hit in
/// bit 6 and sprite overflow in bit 5, with bits 0-4 clear; it clears vblank and
/// the write toggle, and changes nothing else.
pub proof fn law_ppustatus_bits(m: ConsoleState)
    ensures
        bus_read(m, 0x2002) is Some,
        ({
            let (v, after) = bus_read(m, 0x2002)->0;
            &&& (bit(v, 7) == 1) == m.ppu.regs.vblank
            &&& (bit(v, 6) == 1) == m.ppu.regs.s0_hit
            &&& (bit(v, 5) == 1) == m.ppu.regs.sprite_overflow
            &&& v % 32 == 0
            &&& after == (ConsoleState {
                ppu: PpuState { regs: PpuRegisters { vblank: false, w: false, ..m.ppu.regs }, ..m.ppu },
                ..m
            })
        }),
{
    vstd::arithmetic::power2::lemma2_to64();
}

} // verus!
