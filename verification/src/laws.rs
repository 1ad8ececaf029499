//! Properties of the machine model that hold across operations.

use vstd::prelude::*;
use crate::cartridge::{ines_defect, ines_image};
use crate::console::ConsoleState;
use crate::cpu::{CPU, status_byte};
use crate::memory::{
    bus_read, bus_read16, bus_write, bus_write16, ppu_memory_read, ppu_memory_write,
    ppu_register_read, ppu_register_write, ppu_status,
};
use crate::opcodes::{
    CYCLE_COUNT, asl_effect, dec_effect, load_with, operand_byte, plp_effect, zp_indexed, add_cycle, brk, crosses_page, operand_word, Op, is_load_op, lemma_cycle_counts, op_effect, op_of, operand_address_group0,
    operand_address_group1, operand_address_group2, with_cpu, adc, compare, execute, opcode_step, operand_address, pull, push, sbc, with_status,
};
use crate::ppu::{PpuRegisters, PpuState, frame_ready, next_dot, oam_dma, oam_dma_address, ppu_dot, ppu_step, render_dot};

verus! {

/// Work RAM is mirrored: below $2000, an address and the same address modulo
/// $800 read and write the same byte.
pub proof fn law_ram_mirroring(m: ConsoleState, index: u16, data: u8)
    requires
        index < 0x2000,
    ensures
        bus_read(m, index) == bus_read(m, index % 0x800),
        bus_write(m, index, data) == bus_write(m, index % 0x800, data),
{
}

/// Reads outside the PPU registers (work RAM, the joypad ports, the cartridge)
/// leave the machine unchanged.
pub proof fn law_plain_reads_change_nothing(m: ConsoleState, index: u16)
    requires
        index < 0x2000 || index >= 0x4000,
        bus_read(m, index) is Some,
    ensures
        ({
            let (_, after) = bus_read(m, index)->0;
            after == m
        }),
{
}

/// The cartridge is read-only: no read or write through the bus changes it.
pub proof fn law_cartridge_is_read_only(m: ConsoleState, index: u16, data: u8)
    ensures
        bus_read(m, index) is Some ==> ({
            let (_, after) = bus_read(m, index)->0;
            after.game == m.game
        }),
        bus_write(m, index, data) is Some ==> bus_write(m, index, data)->0.game == m.game,
{
}

/// A read of a RAM address gives back what the last write there stored, and
/// leaves the machine as it was.
pub proof fn law_ram_read_after_write(m: ConsoleState, index: u16, data: u8)
    requires
        m.wf(),
        index < 0x2000,
    ensures
        bus_write(m, index, data) is Some,
        bus_read(bus_write(m, index, data)->0, index) == Some((data, bus_write(m, index, data)->0)),
{
}

/// A RAM write changes no other RAM byte: a read of another address (other
/// than its mirrors) gives what it gave before.
pub proof fn law_ram_write_elsewhere(m: ConsoleState, index: u16, other: u16, data: u8)
    requires
        m.wf(),
        index < 0x2000,
        other < 0x2000,
        index % 0x800 != other % 0x800,
    ensures
        ({
            let (after, _) = bus_read(bus_write(m, index, data)->0, other)->0;
            let (before, _) = bus_read(m, other)->0;
            after == before
        }),
{
}

/// A 16-bit RAM write followed by a 16-bit read of the same address gives the
/// word back.
pub proof fn law_ram_word_round_trip(m: ConsoleState, index: u16, data: u16)
    requires
        m.wf(),
        index < 0x1FFF,
    ensures
        bus_write16(m, index, data) is Some,
        ({
            let (word, _) = bus_read16(bus_write16(m, index, data)->0, index)->0;
            word == data
        }),
{
    let hi = (data / 256) as u8;
    let lo = (data % 256) as u8;
    assert(((hi as int) * 256 + (lo as int)) as u16 == data);
}

/// In the PPU address space a read gives back what the last write to the same
/// address stored, and a write keeps every memory at its size.
pub proof fn law_ppu_memory_read_after_write(p: PpuState, index: int, data: u8)
    requires
        p.wf(),
        0 <= index < 0x4000,
    ensures
        ppu_memory_read(ppu_memory_write(p, index, data), index) == data,
        ppu_memory_write(p, index, data).wf(),
{
}

/// The name tables at $2000-$2EFF are mirrored at $3000-$3EFF, and the palette
/// repeats every 32 bytes through $3F00-$3FFF.
pub proof fn law_ppu_mirroring(p: PpuState, index: int)
    requires
        p.wf(),
    ensures
        0x2000 <= index < 0x2F00 ==> ppu_memory_read(p, index) == ppu_memory_read(p, index + 0x1000),
        0x3F00 <= index < 0x4000 ==> ppu_memory_read(p, index) == ppu_memory_read(p, 0x3F00 + index % 0x20),
{
}

/// Two PPUADDR writes, high byte then low byte, set the address to the word they
/// form (modulo $4000) and leave the write latch as it was.
pub proof fn law_ppu_address_pair(p: PpuState, hi: u8, lo: u8)
    requires
        !p.regs.addr_lowwrite,
    ensures
        ({
            let p1 = ppu_register_write(p, 0x2006, hi)->0;
            let p2 = ppu_register_write(p1, 0x2006, lo)->0;
            p2.regs.addr == (hi as int * 256 + lo as int) % 0x4000 && !p2.regs.addr_lowwrite
        }),
{
    let a = p.regs.addr;
    let a1: u16 = ((a & 0x00FF) | ((hi as u16) << 8u16)) % 0x4000;
    let a2: u16 = ((a1 & 0xFF00) | (lo as u16)) % 0x4000;
    let h = hi as u16;
    let l = lo as u16;
    let word: u16 = (h << 8u16) | l;
    assert(a2 == word % 0x4000) by (bit_vector)
        requires
            a1 == ((a & 0x00FF) | (h << 8u16)) % 0x4000,
            a2 == ((a1 & 0xFF00) | l) % 0x4000,
            word == (h << 8u16) | l,
            h < 256,
            l < 256,
    ;
    assert(word == h * 256 + l) by (bit_vector)
        requires
            word == (h << 8u16) | l,
            h < 256,
            l < 256,
    ;

}

/// Two PPUSCROLL writes bring the write toggle back to where it was.
pub proof fn law_ppu_scroll_pair(p: PpuState, x: u8, y: u8)
    ensures
        ppu_register_write(ppu_register_write(p, 0x2005, x)->0, 0x2005, y)->0.regs.w == p.regs.w,
{
}

/// Reading PPUSTATUS clears vblank: the vblank bit reads as set at most once.
pub proof fn law_ppu_status_clears_vblank(p: PpuState)
    ensures
        ({
            let (v1, p1) = ppu_register_read(p, 0x2002)->0;
            let (v2, p2) = ppu_register_read(p1, 0x2002)->0;
            &&& (v1 >= 128) == p.regs.vblank
            &&& v2 < 128
            &&& !p2.regs.w
        }),
{
}

/// The status byte loaded back into the flags gives the flags it was made from.
pub proof fn law_status_round_trip(c: CPU)
    ensures
        with_status(c, status_byte(c)) == c,
{
    let p = status_byte(c);
    let cb: u8 = if c.carry { 1 } else { 0 };
    let zb: u8 = if c.zero { 2 } else { 0 };
    let ib: u8 = if c.interupt_disable { 4 } else { 0 };
    let db: u8 = if c.decimal { 8 } else { 0 };
    let bb: u8 = if c.break_cmd { 16 } else { 0 };
    let vb: u8 = if c.overflow { 64 } else { 0 };
    let nb: u8 = if c.negative { 128 } else { 0 };
    assert(p == cb + zb + ib + db + bb + vb + nb);
    assert(((p & 1) > 0) == (cb == 1) && ((p & 2) > 0) == (zb == 2) && ((p & 4) > 0) == (ib == 4)
        && ((p & 8) > 0) == (db == 8) && ((p & 64) > 0) == (vb == 64) && ((p & 128) > 0) == (nb
        == 128)) by (bit_vector)
        requires
            p == cb + zb + ib + db + bb + vb + nb,
            cb == 0 || cb == 1,
            zb == 0 || zb == 2,
            ib == 0 || ib == 4,
            db == 0 || db == 8,
            bb == 0 || bb == 16,
            vb == 0 || vb == 64,
            nb == 0 || nb == 128,
    ;
}

/// A pull right after a push gives back the pushed byte and the stack pointer
/// the push started from.
pub proof fn law_push_then_pull(m: ConsoleState, data: u8)
    requires
        m.wf(),
        m.cpu.SP != 0,
    ensures
        push(m, data) is Some,
        pull(push(m, data)->0) is Some,
        ({
            let (v, m2) = pull(push(m, data)->0)->0;
            v == data && m2.cpu.SP == m.cpu.SP
        }),
{
}

/// ADC without carry in computes the nine-bit sum: the result plus 256 for the
/// carry is A + M.
pub proof fn law_adc_sum(c: CPU, v: u8)
    ensures
        adc(c, v).A as int + (if adc(c, v).carry { 256int } else { 0 }) == c.A as int + v as int,
{
}

/// SBC without borrow in computes the difference modulo 256, and sets C exactly
/// when CMP with the same operand would.
pub proof fn law_sbc_difference(c: CPU, v: u8)
    ensures
        (sbc(c, v).A as int - (c.A as int - v as int)) % 256 == 0,
        sbc(c, v).carry == compare(c, c.A, v).carry,
{
}

/// The position of the PPU within a frame: dot `cycle` of line `scanline`.
pub open spec fn dot_index(r: PpuRegisters) -> int {
    r.scanline as int * 341 + r.cycle as int
}

/// The dot counters run through the 262 lines of 341 dots in order and wrap
/// around at the end of the frame.
pub proof fn law_dot_counter_wraps(r: PpuRegisters)
    requires
        r.scanline <= 261,
        r.cycle <= 340,
    ensures
        ({
            let n = next_dot(r, r.scanline, r.cycle);
            &&& n.scanline <= 261
            &&& n.cycle <= 340
            &&& dot_index(n) == (dot_index(r) + 1) % (341int * 262)
        }),
{
}

/// A frame is reported once per frame: at dot 1 of line 241, and at no other
/// position of the counters.
pub proof fn law_frame_ready_once(m: ConsoleState)
    ensures
        frame_ready(m) <==> dot_index(m.ppu.regs) == 241 * 341 + 1 && m.ppu.regs.cycle <= 340,
{
}

/// A cartridge read from a well-formed image holds as many 16 KiB program banks
/// and 8 KiB character banks as its header announces.
pub proof fn law_ines_sizes(rom: Seq<u8>)
    requires
        ines_defect(rom) is None,
    ensures
        ines_image(rom).PGR.len() == rom[4] as int * 16384,
        ines_image(rom).CHR.len() == rom[5] as int * 8192,
        ines_image(rom).PGRSIZE == rom[4],
{
}

/// Decoding an instruction charges its cycle count: the steps that follow spend
/// `CYCLE_COUNT - 1` cycles, one more when an indexed address crossed a page.
pub proof fn law_instruction_cycles(m: ConsoleState, opcode: u8)
    requires
        m.cpu.pause == 0,
        opcode_step(m, opcode) is Some,
    ensures
        (opcode_step(m, opcode)->0).cpu.pause == CYCLE_COUNT@[opcode as int] - 1
            || (opcode_step(m, opcode)->0).cpu.pause == CYCLE_COUNT@[opcode as int],
{
    lemma_cycle_counts();
    let m1 = with_cpu(m, CPU { pause: (CYCLE_COUNT@[opcode as int] - 1) as u8, ..m.cpu });
    lemma_address_keeps_cycles(m1, opcode);
    let (addr, m2) = operand_address(m1, opcode)->0;
    lemma_execute_keeps_cycles(m2, opcode, addr);
}

broadcast proof fn lemma_read_keeps_cpu(m: ConsoleState, index: u16)
    requires
        #[trigger] bus_read(m, index) is Some,
    ensures
        (bus_read(m, index)->0).1.cpu == m.cpu,
{
}

broadcast proof fn lemma_read16_keeps_cpu(m: ConsoleState, index: u16)
    requires
        #[trigger] bus_read16(m, index) is Some,
    ensures
        (bus_read16(m, index)->0).1.cpu == m.cpu,
{
    broadcast use lemma_read_keeps_cpu;
}

broadcast proof fn lemma_write_keeps_cpu(m: ConsoleState, index: u16, data: u8)
    requires
        #[trigger] bus_write(m, index, data) is Some,
    ensures
        (bus_write(m, index, data)->0).cpu == m.cpu,
{
}

proof fn lemma_group0_keeps_cpu(m: ConsoleState, opcode: u8, bbb: u8)
    requires
        operand_address_group0(m, opcode, bbb) is Some,
    ensures
        (operand_address_group0(m, opcode, bbb)->0).1.cpu == m.cpu,
{
    broadcast use lemma_read_keeps_cpu, lemma_read16_keeps_cpu;

}

proof fn lemma_group2_keeps_cpu(m: ConsoleState, opcode: u8, bbb: u8)
    requires
        operand_address_group2(m, opcode, bbb) is Some,
    ensures
        (operand_address_group2(m, opcode, bbb)->0).1.cpu == m.cpu,
{
    broadcast use lemma_read_keeps_cpu, lemma_read16_keeps_cpu;

}

proof fn lemma_indirect_indexed_cycles(m: ConsoleState)
    requires
        m.cpu.pause < 255,
        operand_address_group1(m, 4) is Some,
    ensures
        (operand_address_group1(m, 4)->0).1.cpu.pause == m.cpu.pause
            || (operand_address_group1(m, 4)->0).1.cpu.pause == m.cpu.pause + 1,
{
    broadcast use lemma_read16_keeps_cpu;

    let (t, m1) = operand_word(m)->0;
    let m2 = if crosses_page(t, m1.cpu.Y) {
        add_cycle(m1)
    } else {
        m1
    };
    assert(m2.cpu.pause == m.cpu.pause || m2.cpu.pause == m.cpu.pause + 1);
    assert(bus_read16(m2, t) is Some);
}

proof fn lemma_group1_cycles(m: ConsoleState, bbb: u8)
    requires
        m.cpu.pause < 255,
        bbb < 8,
        operand_address_group1(m, bbb) is Some,
    ensures
        (operand_address_group1(m, bbb)->0).1.cpu.pause == m.cpu.pause
            || (operand_address_group1(m, bbb)->0).1.cpu.pause == m.cpu.pause + 1,
{
    broadcast use lemma_read_keeps_cpu, lemma_read16_keeps_cpu;

    if bbb == 4 {
        lemma_indirect_indexed_cycles(m);
    } else if bbb == 6 || bbb == 7 {
        let (t, m1) = operand_word(m)->0;
        assert(m1.cpu == m.cpu);
    } else if bbb == 0 {
        let (t, m1) = operand_byte(m)->0;
        assert(m1.cpu == m.cpu);
        assert(bus_read16(m1, zp_indexed(t, m1.cpu.X)) is Some);
    } else if bbb == 3 {
        assert(operand_word(m) is Some);
    } else if bbb != 2 {
        assert(operand_byte(m) is Some);
    }
}

proof fn lemma_address_keeps_cycles(m: ConsoleState, opcode: u8)
    requires
        m.cpu.pause < 255,
        operand_address(m, opcode) is Some,
    ensures
        (operand_address(m, opcode)->0).1.cpu.pause == m.cpu.pause
            || (operand_address(m, opcode)->0).1.cpu.pause == m.cpu.pause + 1,
{
    let bbb = (opcode >> 2u8) & 7;
    let cc = opcode & 3;
    assert(bbb < 8) by (bit_vector)
        requires
            bbb == (opcode >> 2u8) & 7,
    ;
    if cc == 0 {
        lemma_group0_keeps_cpu(m, opcode, bbb);
    } else if cc == 1 {
        lemma_group1_cycles(m, bbb);
    } else {
        lemma_group2_keeps_cpu(m, opcode, bbb);
    }
}

proof fn lemma_push_keeps_cycles(m: ConsoleState, data: u8)
    requires
        push(m, data) is Some,
    ensures
        (push(m, data)->0).cpu.pause == m.cpu.pause,
{
    broadcast use lemma_write_keeps_cpu;

}

proof fn lemma_brk_keeps_cycles(m: ConsoleState)
    requires
        brk(m) is Some,
    ensures
        (brk(m)->0).cpu.pause == m.cpu.pause,
{
    broadcast use lemma_read16_keeps_cpu;

    let pc = m.cpu.PC;
    lemma_push_keeps_cycles(m, (pc / 256) as u8);
    let a = push(m, (pc / 256) as u8)->0;
    lemma_push_keeps_cycles(a, (pc % 256) as u8);
    let b = push(a, (pc % 256) as u8)->0;
    let b1 = with_cpu(b, CPU { break_cmd: true, ..b.cpu });
    lemma_push_keeps_cycles(b1, status_byte(CPU { break_cmd: true, ..b.cpu }));
}

proof fn lemma_load_keeps_cycles(m: ConsoleState, op: Op, addr: u16)
    requires
        load_with(m, addr, op) is Some,
    ensures
        (load_with(m, addr, op)->0).cpu.pause == m.cpu.pause,
{
    broadcast use lemma_read_keeps_cpu;

    assert(bus_read(m, addr) is Some);
}

proof fn lemma_rmw_keeps_cycles(m: ConsoleState, addr: u16)
    ensures
        asl_effect(m, addr) is Some ==> (asl_effect(m, addr)->0).cpu.pause == m.cpu.pause,
        dec_effect(m, addr) is Some ==> (dec_effect(m, addr)->0).cpu.pause == m.cpu.pause,
{
    broadcast use lemma_read_keeps_cpu, lemma_write_keeps_cpu;

}

proof fn lemma_plp_keeps_cycles(m: ConsoleState)
    requires
        plp_effect(m) is Some,
    ensures
        (plp_effect(m)->0).cpu.pause == m.cpu.pause,
{
    broadcast use lemma_read_keeps_cpu;

    assert(pull(m) is Some);
}

proof fn lemma_effect_keeps_cycles(m: ConsoleState, op: Op, addr: u16)
    requires
        op_effect(m, op, addr) is Some,
    ensures
        (op_effect(m, op, addr)->0).cpu.pause == m.cpu.pause,
{
    if is_load_op(op) {
        lemma_load_keeps_cycles(m, op, addr);
    } else if op == Op::Brk {
        lemma_brk_keeps_cycles(m);
    } else if op == Op::Asl || op == Op::Dec {
        lemma_rmw_keeps_cycles(m, addr);
    } else if op == Op::Php {
        lemma_push_keeps_cycles(m, status_byte(m.cpu));
    } else if op == Op::Pha {
        lemma_push_keeps_cycles(m, m.cpu.A);
    } else if op == Op::Plp {
        lemma_plp_keeps_cycles(m);
    }
}

proof fn lemma_execute_keeps_cycles(m: ConsoleState, opcode: u8, addr: u16)
    requires
        execute(m, opcode, addr) is Some,
    ensures
        (execute(m, opcode, addr)->0).cpu.pause == m.cpu.pause,
{
    broadcast use lemma_read_keeps_cpu;

    match op_of(opcode) {
        Op::Branch(_) => {},
        Op::Stp => {},
        op => lemma_effect_keeps_cycles(m, op, addr),
    }
}

/// A step while the current instruction still has cycles left spends one and
/// moves PC on, whatever the opcode.
proof fn lemma_wait_step(m: ConsoleState, opcode: u8)
    requires
        m.cpu.pause > 0,
        m.cpu.PC < 0xFFFF,
    ensures
        cpu_step(m, opcode) == Some(
            with_cpu(m, CPU { pause: (m.cpu.pause - 1) as u8, PC: (m.cpu.PC + 1) as u16, ..m.cpu }),
        ),
{
    reveal(cpu_step);
}

/// The opcodes of the implied group (`bbb == 2`, `cc == 00`) have no operand:
/// their address is 0 and finding it reads nothing.
proof fn lemma_implied_address(m: ConsoleState, opcode: u8)
    requires
        ((opcode >> 2u8) & 7u8) == 2u8,
        (opcode & 3u8) == 0u8,
    ensures
        operand_address(m, opcode) == Some((0u16, m)),
{
}

/// A push onto the zero-page stack stores the byte at SP and moves SP down.
proof fn lemma_push_stores(m: ConsoleState, data: u8)
    requires
        m.cpu.SP != 0,
    ensures
        push(m, data) == Some(
            ConsoleState {
                ram: m.ram.update(m.cpu.SP as int, data),
                cpu: CPU { SP: (m.cpu.SP - 1) as u8, ..m.cpu },
                ..m
            },
        ),
{
    assert(m.cpu.SP as u16 % 0x800 == m.cpu.SP);
}

/// A pull moves SP up and reads the byte there, changing nothing else.
proof fn lemma_pull_reads(m: ConsoleState)
    requires
        m.cpu.SP != 0xFF,
    ensures
        pull(m) == Some((m.ram[m.cpu.SP + 1], with_cpu(m, CPU { SP: (m.cpu.SP + 1) as u8, ..m.cpu }))),
{
    assert(((m.cpu.SP + 1) as u8) as u16 % 0x800 == m.cpu.SP + 1);
}

/// PHP with its operand address: the status pushed, then PC moved on.
proof fn lemma_execute_php(m: ConsoleState)
    requires
        m.cpu.SP != 0,
        m.cpu.PC < 0xFFFF,
    ensures
        execute(m, 0x08, 0) == Some(
            ConsoleState {
                ram: m.ram.update(m.cpu.SP as int, status_byte(m.cpu)),
                cpu: CPU { SP: (m.cpu.SP - 1) as u8, PC: (m.cpu.PC + 1) as u16, ..m.cpu },
                ..m
            },
        ),
{
    assert(op_of(0x08) == Op::Php);
    lemma_push_stores(m, status_byte(m.cpu));
    assert(op_effect(m, Op::Php, 0) == push(m, status_byte(m.cpu)));
}

/// PLP with its operand address: the flags pulled, then PC moved on.
proof fn lemma_execute_plp(m: ConsoleState)
    requires
        m.cpu.SP != 0xFF,
        m.cpu.PC < 0xFFFF,
    ensures
        execute(m, 0x28, 0) == Some(
            with_cpu(
                m,
                with_status(
                    CPU { SP: (m.cpu.SP + 1) as u8, PC: (m.cpu.PC + 1) as u16, ..m.cpu },
                    m.ram[m.cpu.SP + 1],
                ),
            ),
        ),
{
    assert(op_of(0x28) == Op::Plp);
    lemma_pull_reads(m);
    assert(op_effect(m, Op::Plp, 0) == plp_effect(m));
}

/// PHP from an idle CPU: the status byte is stored at SP, SP moves down, the
/// three cycles are charged and PC moves past the opcode.
proof fn lemma_php_step(m: ConsoleState)
    requires
        m.cpu.pause == 0,
        m.cpu.SP != 0,
        m.cpu.PC < 0xFFFF,
    ensures
        cpu_step(m, 0x08) == Some(
            ConsoleState {
                ram: m.ram.update(m.cpu.SP as int, status_byte(m.cpu)),
                cpu: CPU { pause: 2, SP: (m.cpu.SP - 1) as u8, PC: (m.cpu.PC + 1) as u16, ..m.cpu },
                ..m
            },
        ),
{
    reveal(cpu_step);
    assert(CYCLE_COUNT@[0x08] == 3);
    let ma = with_cpu(m, CPU { pause: 2, ..m.cpu });
    assert(((0x08u8 >> 2u8) & 7u8) == 2u8 && (0x08u8 & 3u8) == 0u8) by (bit_vector);
    lemma_implied_address(ma, 0x08);
    lemma_execute_php(ma);
    assert(status_byte(ma.cpu) == status_byte(m.cpu));
}

/// PLP from an idle CPU: SP moves up, the flags are loaded from the byte at the
/// new SP, the four cycles are charged and PC moves past the opcode.
proof fn lemma_plp_step(m: ConsoleState)
    requires
        m.cpu.pause == 0,
        m.cpu.SP != 0xFF,
        m.cpu.PC < 0xFFFF,
    ensures
        cpu_step(m, 0x28) == Some(
            with_cpu(
                m,
                with_status(
                    CPU { pause: 3, SP: (m.cpu.SP + 1) as u8, PC: (m.cpu.PC + 1) as u16, ..m.cpu },
                    m.ram[m.cpu.SP + 1],
                ),
            ),
        ),
{
    reveal(cpu_step);
    assert(CYCLE_COUNT@[0x28] == 4);
    let mc = with_cpu(m, CPU { pause: 3, ..m.cpu });
    assert(((0x28u8 >> 2u8) & 7u8) == 2u8 && (0x28u8 & 3u8) == 0u8) by (bit_vector);
    lemma_implied_address(mc, 0x28);
    lemma_execute_plp(mc);
}

/// One CPU step, as `opcode_step` describes it. It is kept folded, so that a run
/// of several steps is taken one step at a time.
#[verifier::opaque]
pub open spec fn cpu_step(m: ConsoleState, opcode: u8) -> Option<ConsoleState> {
    opcode_step(m, opcode)
}

/// The machine after one CPU step for each opcode of `ops` in turn, or `None`
/// where one of the steps is not defined.
pub open spec fn run_steps(m: ConsoleState, ops: Seq<u8>) -> Option<ConsoleState>
    decreases ops.len(),
{
    if ops.len() == 0 {
        Some(m)
    } else {
        match cpu_step(m, ops[0]) {
            Some(m1) => run_steps(m1, ops.drop_first()),
            None => None,
        }
    }
}

/// A run whose first step is defined is that step followed by the rest.
proof fn lemma_run_first(m: ConsoleState, ops: Seq<u8>, next: ConsoleState)
    requires
        ops.len() > 0,
        cpu_step(m, ops[0]) == Some(next),
    ensures
        run_steps(m, ops) == run_steps(next, ops.drop_first()),
{
}

/// PHP, the two cycles it still occupies, then PLP: the six flags and the stack
/// pointer come back as they were, PC has moved on by four, PLP's own cycles
/// are pending, and the only memory changed is the stack byte PHP wrote.
pub proof fn law_php_then_plp(m: ConsoleState, wait1: u8, wait2: u8)
    requires
        m.wf(),
        m.cpu.pause == 0,
        m.cpu.SP != 0,
        m.cpu.PC < 0xFFFC,
    ensures
        run_steps(m, seq![0x08u8, wait1, wait2, 0x28u8]) == Some(
            ConsoleState {
                ram: m.ram.update(m.cpu.SP as int, status_byte(m.cpu)),
                cpu: CPU { PC: (m.cpu.PC + 4) as u16, pause: 3, ..m.cpu },
                ..m
            },
        ),
{
    let c = m.cpu;
    let ops = seq![0x08u8, wait1, wait2, 0x28u8];
    let m1 = ConsoleState {
        ram: m.ram.update(c.SP as int, status_byte(c)),
        cpu: CPU { pause: 2, SP: (c.SP - 1) as u8, PC: (c.PC + 1) as u16, ..c },
        ..m
    };
    lemma_php_step(m);
    lemma_run_first(m, ops, m1);
    let m2 = with_cpu(m1, CPU { pause: 1, PC: (c.PC + 2) as u16, ..m1.cpu });
    lemma_wait_step(m1, wait1);
    lemma_run_first(m1, ops.drop_first(), m2);
    let m3 = with_cpu(m2, CPU { pause: 0, PC: (c.PC + 3) as u16, ..m2.cpu });
    lemma_wait_step(m2, wait2);
    lemma_run_first(m2, ops.drop_first().drop_first(), m3);
    let m4 = with_cpu(
        m3,
        with_status(
            CPU { pause: 3, SP: (m3.cpu.SP + 1) as u8, PC: (m3.cpu.PC + 1) as u16, ..m3.cpu },
            m3.ram[m3.cpu.SP + 1],
        ),
    );
    lemma_plp_step(m3);
    lemma_run_first(m3, ops.drop_first().drop_first().drop_first(), m4);
    law_status_round_trip(c);
    assert(m3.ram[m3.cpu.SP + 1] == status_byte(c));
    assert(m4.cpu == CPU { PC: (c.PC + 4) as u16, pause: 3, ..c });
    assert(ops.drop_first().drop_first().drop_first().drop_first() =~= Seq::<u8>::empty());
}

/// The machine after `n` PPU dots, or `None` where one of them is not defined.
pub open spec fn ppu_run(m: ConsoleState, n: nat) -> Option<ConsoleState>
    decreases n,
{
    if n == 0 {
        Some(m)
    } else {
        match ppu_run(m, (n - 1) as nat) {
            Some(m1) => ppu_step(m1),
            None => None,
        }
    }
}

/// The work of a dot touches neither sprite memory nor the DMA registers.
proof fn lemma_dot_keeps_sprites(p: PpuState, line: int, cycle: int)
    requires
        ppu_dot(p, line, cycle) is Some,
    ensures
        ({
            let q = ppu_dot(p, line, cycle)->0;
            &&& q.oam == p.oam
            &&& q.regs.oam_transfer == p.regs.oam_transfer
            &&& q.regs.oamdmaaddr == p.regs.oamdmaaddr
            &&& q.regs.oamdmapage == p.regs.oamdmapage
        }),
{
    if line < 240 && 0 < cycle < 257 {
        assert(ppu_dot(p, line, cycle) == Some(render_dot(p, line, cycle)));
        assert(render_dot(p, line, cycle).oam == p.oam);
        assert(render_dot(p, line, cycle).regs == p.regs);
    }
}

/// One dot during a sprite DMA from a RAM page: the byte at the current offset
/// of the page is copied into sprite memory, the offset moves on, and after the
/// last byte the transfer stops; RAM is left as it was.
proof fn lemma_dma_dot(m: ConsoleState)
    requires
        m.ram.len() == 0x800,
        m.ppu.regs.oam_transfer,
        m.ppu.regs.oamdmaaddr < 256,
        m.ppu.regs.oamdmapage < 0x20,
        ppu_step(m) is Some,
    ensures
        ({
            let k = m.ppu.regs.oamdmaaddr;
            let page = m.ppu.regs.oamdmapage;
            let m1 = ppu_step(m)->0;
            &&& m1.ram == m.ram
            &&& m1.ppu.oam == m.ppu.oam.update(k as int, m.ram[(page as int * 256 + k) % 0x800])
            &&& m1.ppu.regs.oamdmapage == page
            &&& k < 255 ==> m1.ppu.regs.oam_transfer && m1.ppu.regs.oamdmaaddr == k + 1
            &&& k == 255 ==> !m1.ppu.regs.oam_transfer && m1.ppu.regs.oamdmaaddr == 0
        }),
{
    let r = m.ppu.regs;
    let addr = oam_dma_address(r);
    assert(addr == r.oamdmapage as int * 256 + r.oamdmaaddr as int);
    assert(addr < 0x2000);
    assert(bus_read(m, addr) == Some((m.ram[(addr % 0x800) as int], m)));
    let md = oam_dma(m)->0;
    lemma_dot_keeps_sprites(md.ppu, r.scanline as int, r.cycle as int);
}

/// What the first `j` dots of a sprite DMA from a RAM page have done: the first
/// `j` bytes of the page are in sprite memory, RAM is unchanged, and the
/// transfer is still on at offset `j` until all 256 bytes are copied.
proof fn lemma_dma_progress(m: ConsoleState, j: nat)
    requires
        m.wf(),
        m.ppu.regs.oam_transfer,
        m.ppu.regs.oamdmaaddr == 0,
        m.ppu.regs.oamdmapage < 0x20,
        j <= 256,
        ppu_run(m, j) is Some,
    ensures
        ({
            let page = m.ppu.regs.oamdmapage;
            let mj = ppu_run(m, j)->0;
            &&& mj.ram == m.ram
            &&& mj.ppu.oam.len() == 256
            &&& mj.ppu.regs.oamdmapage == page
            &&& j < 256 ==> mj.ppu.regs.oam_transfer && mj.ppu.regs.oamdmaaddr == j
            &&& j == 256 ==> !mj.ppu.regs.oam_transfer && mj.ppu.regs.oamdmaaddr == 0
            &&& forall|i: int| 0 <= i < j ==> #[trigger] mj.ppu.oam[i] == m.ram[(page as int * 256 + i) % 0x800]
        }),
    decreases j,
{
    if j > 0 {
        let jp = (j - 1) as nat;
        assert(ppu_run(m, jp) is Some);
        lemma_dma_progress(m, jp);
        let mp = ppu_run(m, jp)->0;
        lemma_dma_dot(mp);
    }
}

/// A sprite DMA from a RAM page, run for its 256 dots, copies the page into
/// sprite memory byte for byte, ends the transfer and leaves RAM as it was.
pub proof fn law_sprite_dma_copies_page(m: ConsoleState)
    requires
        m.wf(),
        m.ppu.regs.oam_transfer,
        m.ppu.regs.oamdmaaddr == 0,
        m.ppu.regs.oamdmapage < 0x20,
        ppu_run(m, 256) is Some,
    ensures
        ({
            let page = m.ppu.regs.oamdmapage;
            let m2 = ppu_run(m, 256)->0;
            &&& forall|i: int| 0 <= i < 256 ==> #[trigger] m2.ppu.oam[i] == m.ram[(page as int * 256 + i) % 0x800]
            &&& !m2.ppu.regs.oam_transfer
            &&& m2.ppu.regs.oamdmaaddr == 0
            &&& m2.ram == m.ram
        }),
{
    lemma_dma_progress(m, 256);
}

} // verus!
