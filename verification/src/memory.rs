//! The CPU's view of the machine: work RAM, the PPU and APU registers and the
//! cartridge, decoded from a 16-bit address, and the PPU's own 16 KiB address
//! space of pattern tables, name tables and palette.
//!
//! Each access is described by a spec function that returns `None` on exactly
//! the accesses that the machine does not define (an unmapped address, a
//! register that cannot be read or written, an index past a memory's end, an
//! address counter that would leave 16 bits); the executable functions require
//! `Some` and return what the spec function gives.

use vstd::prelude::*;
use crate::apu::{APU, Noise, Pulse, Triangle};
use crate::cartridge::CartState;
use crate::console::{Console, ConsoleState};
use crate::mapper::{cart_read, read as mapper_read, readable as mapper_readable};
use crate::ppu::{PPU, PpuRegisters, PpuState, oam_store, put_registers};

verus! {

/// The 2 KiB of work RAM.
#[derive(Debug)]
pub struct Memory {
    pub ram: Vec<u8>,
}

impl View for Memory {
    type V = Seq<u8>;

    open spec fn view(&self) -> Seq<u8> {
        self.ram@
    }
}

impl Memory {
    /// Cleared work RAM.
    pub fn new() -> (r: Memory)
        ensures
            r@ == Seq::new(0x800, |i: int| 0u8),
    {
        Memory { ram: vec![0; 0x800] }
    }
}

// ---------------------------------------------------------------------------
// PPU address space ($0000-$3FFF)
// ---------------------------------------------------------------------------

/// Which memory of the PPU an address selects (0 and 1: pattern tables, 2 to 5:
/// name tables $2000, $2400, $2800, $2C00, mirrored again from $3000; 6: the
/// 32-byte palette, mirrored through $3F00-$3FFF) and the offset within it.
pub open spec fn ppu_decode(index: int) -> (int, int) {
    if index < 0x1000 {
        (0, index)
    } else if index < 0x2000 {
        (1, index % 0x1000)
    } else if index < 0x3F00 {
        (2 + (index % 0x1000) / 0x400, index % 0x400)
    } else {
        (6, index % 0x20)
    }
}

/// The byte at `offset` of memory `table` (numbered as in `ppu_decode`).
pub open spec fn ppu_table_read(p: PpuState, table: int, offset: int) -> u8 {
    if table == 0 {
        p.patterntable0[offset]
    } else if table == 1 {
        p.patterntable1[offset]
    } else if table == 2 {
        p.nametable0[offset]
    } else if table == 3 {
        p.nametable1[offset]
    } else if table == 4 {
        p.nametable2[offset]
    } else if table == 5 {
        p.nametable3[offset]
    } else {
        p.palette[offset]
    }
}

/// The PPU after `data` is stored at `offset` of memory `table`.
pub open spec fn ppu_table_write(p: PpuState, table: int, offset: int, data: u8) -> PpuState {
    if table == 0 {
        PpuState { patterntable0: p.patterntable0.update(offset, data), ..p }
    } else if table == 1 {
        PpuState { patterntable1: p.patterntable1.update(offset, data), ..p }
    } else if table == 2 {
        PpuState { nametable0: p.nametable0.update(offset, data), ..p }
    } else if table == 3 {
        PpuState { nametable1: p.nametable1.update(offset, data), ..p }
    } else if table == 4 {
        PpuState { nametable2: p.nametable2.update(offset, data), ..p }
    } else if table == 5 {
        PpuState { nametable3: p.nametable3.update(offset, data), ..p }
    } else {
        PpuState { palette: p.palette.update(offset, data), ..p }
    }
}

/// The byte at `index` of the PPU address space.
pub open spec fn ppu_memory_read(p: PpuState, index: int) -> u8
    recommends
        0 <= index < 0x4000,
        p.wf(),
{
    ppu_table_read(p, ppu_decode(index).0, ppu_decode(index).1)
}

/// The PPU after `data` is stored at `index` of its address space.
pub open spec fn ppu_memory_write(p: PpuState, index: int, data: u8) -> PpuState
    recommends
        0 <= index < 0x4000,
        p.wf(),
{
    ppu_table_write(p, ppu_decode(index).0, ppu_decode(index).1, data)
}

/// Reads byte `index` of the PPU address space.
pub fn readPPUADDR(ppu: &mut PPU, index: usize) -> (r: u8)
    requires
        old(ppu)@.wf(),
        index < 0x4000,
    ensures
        r == ppu_memory_read(old(ppu)@, index as int),
        final(ppu)@ == old(ppu)@,
{
    if index < 0x1000 {
        ppu.patterntable0[index]
    } else if index < 0x2000 {
        ppu.patterntable1[(index % 0x1000)]
    } else if index < 0x2400 {
        ppu.nametable0[(index % 0x400)]
    } else if index < 0x2800 {
        ppu.nametable1[(index % 0x400)]
    } else if index < 0x2C00 {
        ppu.nametable2[(index % 0x400)]
    } else if index < 0x3000 {
        ppu.nametable3[(index % 0x400)]
    } else if index < 0x3400 {
        ppu.nametable0[(index % 0x400)]
    } else if index < 0x3800 {
        ppu.nametable1[(index % 0x400)]
    } else if index < 0x3C00 {
        ppu.nametable2[(index % 0x400)]
    } else if index < 0x3F00 {
        ppu.nametable3[(index % 0x400)]
    } else {
        ppu.palette[(index % 0x20)]
    }
}

fn decode_ppu_address(index: usize) -> (r: (u8, usize))
    requires
        index < 0x4000,
    ensures
        ppu_decode(index as int) == (r.0 as int, r.1 as int),
        r.0 <= 6,
        r.0 <= 1 ==> r.1 < 0x1000,
        2 <= r.0 <= 5 ==> r.1 < 0x400,
        r.0 == 6 ==> r.1 < 0x20,
{
    if index < 0x1000 {
        (0, index)
    } else if index < 0x2000 {
        (1, index % 0x1000)
    } else if index < 0x3F00 {
        (2 + ((index % 0x1000) / 0x400) as u8, index % 0x400)
    } else {
        (6, index % 0x20)
    }
}

/// Stores `data` at `offset` of memory `table` (numbered as in `ppu_decode`).
fn store_table(ppu: &mut PPU, table: u8, offset: usize, data: u8)
    requires
        table <= 6,
        table == 0 ==> offset < old(ppu).patterntable0.len(),
        table == 1 ==> offset < old(ppu).patterntable1.len(),
        table == 2 ==> offset < old(ppu).nametable0.len(),
        table == 3 ==> offset < old(ppu).nametable1.len(),
        table == 4 ==> offset < old(ppu).nametable2.len(),
        table == 5 ==> offset < old(ppu).nametable3.len(),
        table == 6 ==> offset < old(ppu).palette.len(),
    ensures
        final(ppu).registers_of() == old(ppu).registers_of(),
        final(ppu).frame == old(ppu).frame,
        final(ppu).oam == old(ppu).oam,
        table == 0 ==> final(ppu).patterntable0@ == old(ppu).patterntable0@.update(offset as int, data),
        table != 0 ==> final(ppu).patterntable0 == old(ppu).patterntable0,
        table == 1 ==> final(ppu).patterntable1@ == old(ppu).patterntable1@.update(offset as int, data),
        table != 1 ==> final(ppu).patterntable1 == old(ppu).patterntable1,
        table == 2 ==> final(ppu).nametable0@ == old(ppu).nametable0@.update(offset as int, data),
        table != 2 ==> final(ppu).nametable0 == old(ppu).nametable0,
        table == 3 ==> final(ppu).nametable1@ == old(ppu).nametable1@.update(offset as int, data),
        table != 3 ==> final(ppu).nametable1 == old(ppu).nametable1,
        table == 4 ==> final(ppu).nametable2@ == old(ppu).nametable2@.update(offset as int, data),
        table != 4 ==> final(ppu).nametable2 == old(ppu).nametable2,
        table == 5 ==> final(ppu).nametable3@ == old(ppu).nametable3@.update(offset as int, data),
        table != 5 ==> final(ppu).nametable3 == old(ppu).nametable3,
        table == 6 ==> final(ppu).palette@ == old(ppu).palette@.update(offset as int, data),
        table != 6 ==> final(ppu).palette == old(ppu).palette,
{
    if table == 0 {
        ppu.patterntable0.set(offset, data);
    } else if table == 1 {
        ppu.patterntable1.set(offset, data);
    } else if table == 2 {
        ppu.nametable0.set(offset, data);
    } else if table == 3 {
        ppu.nametable1.set(offset, data);
    } else if table == 4 {
        ppu.nametable2.set(offset, data);
    } else if table == 5 {
        ppu.nametable3.set(offset, data);
    } else {
        ppu.palette.set(offset, data);
    }
}

/// Stores `data` at byte `index` of the PPU address space.
pub fn writePPUADDR(ppu: &mut PPU, data: u8, index: usize)
    requires
        old(ppu)@.wf(),
        index < 0x4000,
    ensures
        final(ppu)@ == ppu_memory_write(old(ppu)@, index as int, data),
        final(ppu)@.wf(),
{
    let (table, offset) = decode_ppu_address(index);
    store_table(ppu, table, offset, data);
}

// ---------------------------------------------------------------------------
// PPU registers ($2000-$2007 and $4014)
// ---------------------------------------------------------------------------

/// How far a PPUDATA access moves the address: 32 (down a row) or 1 (across).
pub open spec fn ppu_increment(r: PpuRegisters) -> int {
    if r.increment {
        32
    } else {
        1
    }
}

/// PPUSTATUS: vblank in bit 7, sprite-0 hit in bit 6, sprite overflow in bit 5.
pub open spec fn ppu_status(r: PpuRegisters) -> u8 {
    ((if r.vblank { 128int } else { 0 }) + (if r.s0_hit { 64int } else { 0 }) + (if r.sprite_overflow {
        32int
    } else {
        0
    })) as u8
}

/// A read of PPUSTATUS: the status bits, and vblank and the write toggle cleared.
pub open spec fn ppu_status_read(p: PpuState) -> (u8, PpuState) {
    (ppu_status(p.regs), PpuState { regs: PpuRegisters { w: false, vblank: false, ..p.regs }, ..p })
}

/// A PPUDATA access moves the address on by the increment.
pub open spec fn ppu_advance(p: PpuState) -> PpuState {
    PpuState {
        regs: PpuRegisters { addr: (p.regs.addr + ppu_increment(p.regs)) as u16, ..p.regs },
        ..p
    }
}

/// Whether a PPUDATA access leaves the address within 16 bits.
pub open spec fn ppu_can_advance(p: PpuState) -> bool {
    p.regs.addr + ppu_increment(p.regs) <= u16::MAX
}

/// What a CPU read of PPU register `reg` returns and leaves behind, or `None`
/// where it is not defined. PPUSTATUS clears vblank and the write toggle; OAMDATA
/// reads sprite memory at OAMADDR; PPUDATA reads byte $2007 of the PPU address
/// space and advances the address.
pub open spec fn ppu_register_read(p: PpuState, reg: int) -> Option<(u8, PpuState)> {
    if reg == 0x2002 {
        Some(ppu_status_read(p))
    } else if reg == 0x2004 {
        if p.regs.oamaddr < p.oam.len() {
            Some((p.oam[p.regs.oamaddr as int], p))
        } else {
            None
        }
    } else if reg == 0x2007 {
        if ppu_can_advance(p) {
            Some((ppu_memory_read(p, 0x2007), ppu_advance(p)))
        } else {
            None
        }
    } else {
        None
    }
}

/// The registers after a write of `data` to PPUCTRL: name table select, address
/// increment, sprite and background pattern tables, sprite height, master/slave,
/// NMI enable, and the name table bits of `t`.
pub open spec fn ppu_ctrl_write(r: PpuRegisters, data: u8) -> PpuRegisters {
    PpuRegisters {
        nametable_select: data & 0b00000011,
        increment: (data & 0b00000100) > 0,
        sprite_tile_select: (data & 0b00001000) > 0,
        background_tile_select: (data & 0b00010000) > 0,
        sprite_height: (data & 0b00100000) > 0,
        master_slave: (data & 0b01000000) > 0,
        nmi_enable: (data & 0b10000000) > 0,
        t: (r.t & 0xF3FF) | (((data & 0b00000011) as u16) << 10u16),
        ..r
    }
}

/// The registers after a write of `data` to PPUMASK.
pub open spec fn ppu_mask_write(r: PpuRegisters, data: u8) -> PpuRegisters {
    PpuRegisters {
        grayscale: (data & 0b00000001) > 0,
        bg_left_column_enable: (data & 0b00000010) > 0,
        sprite_left_column_enable: (data & 0b00000100) > 0,
        bg_enable: (data & 0b00001000) > 0,
        sprite_enable: (data & 0b00010000) > 0,
        red_emphasis: (data & 0b00100000) > 0,
        green_emphasis: (data & 0b01000000) > 0,
        blue_emphasis: (data & 0b10000000) > 0,
        ..r
    }
}

/// The registers after a write of `data` to PPUSCROLL: the first write of a pair
/// sets coarse X in `t` and fine X, the second sets fine and coarse Y in `t`.
pub open spec fn ppu_scroll_write(r: PpuRegisters, data: u8) -> PpuRegisters {
    if !r.w {
        PpuRegisters { t: (r.t & 0xFFE0) | ((data as u16) >> 3u16), x: data & 0b00000111, w: true, ..r }
    } else {
        let t1 = (r.t & 0xF3E0) | (((data & 0b00000111) as u16) << 13u16);
        PpuRegisters { t: (t1 & 0xFC1F) | (((data & 0b11111000) as u16) << 5u16), w: false, ..r }
    }
}

/// The registers after a write of `data` to PPUADDR: high byte and low byte in
/// turn, the address kept below $4000.
pub open spec fn ppu_addr_write(r: PpuRegisters, data: u8) -> PpuRegisters {
    let a: u16 = if r.addr_lowwrite {
        (r.addr & 0xFF00) | (data as u16)
    } else {
        (r.addr & 0x00FF) | ((data as u16) << 8u16)
    };
    PpuRegisters { addr: a % 0x4000, addr_lowwrite: !r.addr_lowwrite, ..r }
}

/// A PPUDATA write stores through the PPU address while it is below $4000.
pub open spec fn ppu_data_store(p: PpuState, data: u8) -> PpuState {
    if p.regs.addr < 0x4000 {
        ppu_memory_write(p, p.regs.addr as int, data)
    } else {
        p
    }
}

/// The PPU after a CPU write of `data` to register `reg`, or `None` where the
/// write is not defined (PPUSTATUS, unknown registers, OAMDATA past the end of
/// sprite memory, PPUDATA that would carry the address past 16 bits). PPUDATA
/// stores through the address only while it is below $4000; a write to $4014
/// starts a sprite DMA.
pub open spec fn ppu_register_write(p: PpuState, reg: int, data: u8) -> Option<PpuState> {
    if reg == 0x2000 {
        Some(PpuState { regs: ppu_ctrl_write(p.regs, data), ..p })
    } else if reg == 0x2001 {
        Some(PpuState { regs: ppu_mask_write(p.regs, data), ..p })
    } else if reg == 0x2003 {
        Some(PpuState { regs: PpuRegisters { oamaddr: data as usize, ..p.regs }, ..p })
    } else if reg == 0x2004 {
        if p.regs.oamaddr < p.oam.len() {
            Some(
                PpuState {
                    oam: p.oam.update(p.regs.oamaddr as int, data),
                    regs: PpuRegisters { oamaddr: (p.regs.oamaddr + 1) as usize, ..p.regs },
                    ..p
                },
            )
        } else {
            None
        }
    } else if reg == 0x2005 {
        Some(PpuState { regs: ppu_scroll_write(p.regs, data), ..p })
    } else if reg == 0x2006 {
        Some(PpuState { regs: ppu_addr_write(p.regs, data), ..p })
    } else if reg == 0x2007 {
        if ppu_can_advance(p) {
            Some(ppu_advance(ppu_data_store(p, data)))
        } else {
            None
        }
    } else if reg == 0x4014 {
        Some(PpuState { regs: PpuRegisters { oam_transfer: true, ..p.regs }, ..p })
    } else {
        None
    }
}

fn status_of(r: PpuRegisters) -> (v: u8)
    ensures
        v == ppu_status(r),
{
    let mut val: u8 = 0;
    if r.vblank {
        val = val + 0x80;
    }
    if r.s0_hit {
        val = val + 0x40;
    }
    if r.sprite_overflow {
        val = val + 0x20;
    }
    val
}

fn advanced(r: PpuRegisters) -> (nr: PpuRegisters)
    ensures
        r.addr + ppu_increment(r) <= u16::MAX ==> nr == (PpuRegisters {
            addr: (r.addr + ppu_increment(r)) as u16,
            ..r
        }),
{
    let step: u16 = if r.increment { 32 } else { 1 };
    if r.addr <= 0xFFFF - step {
        PpuRegisters { addr: r.addr + step, ..r }
    } else {
        r
    }
}

fn ctrl_written(r: PpuRegisters, data: u8) -> (nr: PpuRegisters)
    ensures
        nr == ppu_ctrl_write(r, data),
{
    PpuRegisters {
        nametable_select: data & 0b00000011,
        increment: (data & 0b00000100) > 0,
        sprite_tile_select: (data & 0b00001000) > 0,
        background_tile_select: (data & 0b00010000) > 0,
        sprite_height: (data & 0b00100000) > 0,
        master_slave: (data & 0b01000000) > 0,
        nmi_enable: (data & 0b10000000) > 0,
        t: (r.t & 0xF3FF) | (((data & 0b00000011) as u16) << 10u16),
        ..r
    }
}

/// The registers after a PPUMASK write, as `ppu_mask_write`.
pub(crate) fn mask_written(r: PpuRegisters, data: u8) -> (nr: PpuRegisters)
    ensures
        nr == ppu_mask_write(r, data),
{
    PpuRegisters {
        grayscale: (data & 0b00000001) > 0,
        bg_left_column_enable: (data & 0b00000010) > 0,
        sprite_left_column_enable: (data & 0b00000100) > 0,
        bg_enable: (data & 0b00001000) > 0,
        sprite_enable: (data & 0b00010000) > 0,
        red_emphasis: (data & 0b00100000) > 0,
        green_emphasis: (data & 0b01000000) > 0,
        blue_emphasis: (data & 0b10000000) > 0,
        ..r
    }
}

fn scroll_written(r: PpuRegisters, data: u8) -> (nr: PpuRegisters)
    ensures
        nr == ppu_scroll_write(r, data),
{
    if !r.w {
        let t = (r.t & 0xFFE0) | ((data as u16) >> 3u16);
        PpuRegisters { t, x: data & 0b00000111, w: true, ..r }
    } else {
        let t = (r.t & 0xF3E0) | (((data & 0b00000111) as u16) << 13u16);
        let t = (t & 0xFC1F) | (((data & 0b11111000) as u16) << 5u16);
        PpuRegisters { t, w: false, ..r }
    }
}

fn addr_written(r: PpuRegisters, data: u8) -> (nr: PpuRegisters)
    ensures
        nr == ppu_addr_write(r, data),
{
    let addr = if r.addr_lowwrite {
        (r.addr & 0xFF00) | data as u16
    } else {
        (r.addr & 0x00FF) | ((data as u16) << 8u16)
    };
    PpuRegisters { addr: addr % 0x4000, addr_lowwrite: !r.addr_lowwrite, ..r }
}

fn read_status(ppu: &mut PPU) -> (v: u8)
    ensures
        (v, final(ppu)@) == ppu_status_read(old(ppu)@),
{
    let regs = ppu.registers();
    let val = status_of(regs);
    put_registers(ppu, PpuRegisters { w: false, vblank: false, ..regs });
    val
}

fn advance(ppu: &mut PPU)
    ensures
        ppu_can_advance(old(ppu)@) ==> final(ppu)@ == ppu_advance(old(ppu)@),
        final(ppu)@.wf() == old(ppu)@.wf(),
{
    let regs = ppu.registers();
    let nr = advanced(regs);
    put_registers(ppu, nr);
}

fn set_oamaddr(ppu: &mut PPU, a: usize)
    ensures
        final(ppu)@ == (PpuState { regs: PpuRegisters { oamaddr: a, ..old(ppu)@.regs }, ..old(ppu)@ }),
{
    let r = ppu.registers();
    put_registers(ppu, PpuRegisters { oamaddr: a, ..r });
}

fn start_oam_transfer(ppu: &mut PPU)
    ensures
        final(ppu)@ == (PpuState {
            regs: PpuRegisters { oam_transfer: true, ..old(ppu)@.regs },
            ..old(ppu)@
        }),
{
    let r = ppu.registers();
    put_registers(ppu, PpuRegisters { oam_transfer: true, ..r });
}

fn writePPUADDRESS(ppu: &mut PPU, data: u8)
    ensures
        final(ppu)@ == (PpuState { regs: ppu_addr_write(old(ppu)@.regs, data), ..old(ppu)@ }),
{
    let r = ppu.registers();
    put_registers(ppu, addr_written(r, data));
}

/// OAMDATA: stores `data` at OAMADDR and moves OAMADDR on.
fn writeOAMDATA(ppu: &mut PPU, data: u8)
    requires
        old(ppu).oamaddr < old(ppu).oam.len(),
    ensures
        final(ppu)@ == (PpuState {
            oam: old(ppu)@.oam.update(old(ppu)@.regs.oamaddr as int, data),
            regs: PpuRegisters { oamaddr: (old(ppu)@.regs.oamaddr + 1) as usize, ..old(ppu)@.regs },
            ..old(ppu)@
        }),
{
    let a = ppu.oamaddr;
    oam_store(ppu, a, data);
    set_oamaddr(ppu, a + 1);
}

/// PPUDATA: stores `data` through the PPU address while it is below $4000, then
/// moves the address on.
fn writePPUDATA(ppu: &mut PPU, data: u8)
    requires
        old(ppu)@.wf(),
    ensures
        ppu_can_advance(old(ppu)@) ==> final(ppu)@ == ppu_advance(ppu_data_store(old(ppu)@, data)),
        final(ppu)@.wf(),
{
    let a = ppu.addr;
    if a < 0x4000 {
        writePPUADDR(ppu, data, a as usize);
    }
    advance(ppu);
}

/// Reads PPU register `index`.
pub fn readPPU(ppu: &mut PPU, index: usize) -> (r: u8)
    requires
        old(ppu)@.wf(),
        ppu_register_read(old(ppu)@, index as int) is Some,
    ensures
        ppu_register_read(old(ppu)@, index as int) == Some((r, final(ppu)@)),
        final(ppu)@.wf(),
{
    if index == 0x2002 {
        read_status(ppu)
    } else if index == 0x2004 {
        ppu.oam[ppu.oamaddr]
    } else {
        let data = readPPUADDR(ppu, index);
        advance(ppu);
        data
    }
}

/// Writes `data` to PPUCTRL.
fn writePPUCTRL(ppu: &mut PPU, data: u8)
    ensures
        final(ppu)@ == (PpuState { regs: ppu_ctrl_write(old(ppu)@.regs, data), ..old(ppu)@ }),
{
    let r = ppu.registers();
    put_registers(ppu, ctrl_written(r, data));
}

/// Writes `data` to PPUMASK.
fn writePPUMASK(ppu: &mut PPU, data: u8)
    ensures
        final(ppu)@ == (PpuState { regs: ppu_mask_write(old(ppu)@.regs, data), ..old(ppu)@ }),
{
    let r = ppu.registers();
    put_registers(ppu, mask_written(r, data));
}

/// Writes `data` to PPUSCROLL.
fn writePPUSCROLL(ppu: &mut PPU, data: u8)
    ensures
        final(ppu)@ == (PpuState { regs: ppu_scroll_write(old(ppu)@.regs, data), ..old(ppu)@ }),
{
    let r = ppu.registers();
    put_registers(ppu, scroll_written(r, data));
}

/// Writes `data` to PPU register `index`.
pub fn writePPU(ppu: &mut PPU, index: usize, data: u8)
    requires
        old(ppu)@.wf(),
        ppu_register_write(old(ppu)@, index as int, data) is Some,
    ensures
        ppu_register_write(old(ppu)@, index as int, data) == Some(final(ppu)@),
        final(ppu)@.wf(),
{
    if index == 0x2000 {
        writePPUCTRL(ppu, data);
    } else if index == 0x2001 {
        writePPUMASK(ppu, data);
    } else if index == 0x2003 {
        set_oamaddr(ppu, data as usize);
    } else if index == 0x2004 {
        writeOAMDATA(ppu, data);
    } else if index == 0x2005 {
        writePPUSCROLL(ppu, data);
    } else if index == 0x2006 {
        writePPUADDRESS(ppu, data);
    } else if index == 0x2007 {
        writePPUDATA(ppu, data);
    } else {
        start_oam_transfer(ppu);
    }
}


// ---------------------------------------------------------------------------
// APU registers ($4000-$4017)
// ---------------------------------------------------------------------------

/// The APU registers that accept writes. The DMC registers $4010-$4013 are not
/// implemented, and $4009 and $400D do not exist.
pub open spec fn apu_register_writable(index: u16) -> bool {
    ||| 0x4000 <= index <= 0x4008
    ||| 0x400A <= index <= 0x400C
    ||| index == 0x400E
    ||| index == 0x400F
    ||| index == 0x4015
    ||| index == 0x4017
}

/// A pulse channel after a write to its first register: duty, halt and volume.
pub open spec fn pulse_ctrl(p: Pulse, data: u8) -> Pulse {
    Pulse {
        duty: (data & 0b11000000) >> 6u8,
        halt: (data & 0b00100000) != 0,
        volume: data & 0x0F,
        ..p
    }
}

/// A pulse channel after a write to its sweep register.
pub open spec fn pulse_sweep(p: Pulse, data: u8) -> Pulse {
    Pulse {
        sweep_en: (data & 0b10000000) != 0,
        sweep_period: (data & 0b01110000) >> 4u8,
        sweep_negate: (data & 0b00001000) != 0,
        sweep_shift: data & 0b00000111,
        ..p
    }
}

/// The low eight bits of an 11-bit timer replaced by `data`.
pub open spec fn timer_low(timer: u16, data: u8) -> u16 {
    (timer & 0xFF00) | (data as u16)
}

/// The high three bits of an 11-bit timer replaced by the low three bits of `data`.
pub open spec fn timer_high(timer: u16, data: u8) -> u16 {
    (timer & 0x00FF) | (((data & 0b00000111) as u16) << 8u16)
}

/// The APU after a write of `data` to register `index`.
pub open spec fn apu_register_write(a: APU, index: u16, data: u8) -> APU
    recommends
        apu_register_writable(index),
{
    if index == 0x4000 {
        APU { Pulse1: pulse_ctrl(a.Pulse1, data), ..a }
    } else if index == 0x4004 {
        APU { Pulse2: pulse_ctrl(a.Pulse2, data), ..a }
    } else if index == 0x4001 {
        APU { Pulse1: pulse_sweep(a.Pulse1, data), ..a }
    } else if index == 0x4005 {
        APU { Pulse2: pulse_sweep(a.Pulse2, data), ..a }
    } else if index == 0x4002 {
        APU { Pulse1: Pulse { timer: timer_low(a.Pulse1.timer, data), ..a.Pulse1 }, ..a }
    } else if index == 0x4006 {
        APU { Pulse2: Pulse { timer: timer_low(a.Pulse2.timer, data), ..a.Pulse2 }, ..a }
    } else if index == 0x4003 {
        APU {
            Pulse1: Pulse {
                timer: timer_high(a.Pulse1.timer, data),
                length_counter_load: (data & 0b11111000) >> 3u8,
                ..a.Pulse1
            },
            ..a
        }
    } else if index == 0x4007 {
        APU {
            Pulse2: Pulse {
                timer: timer_high(a.Pulse2.timer, data),
                length_counter_load: (data & 0b11111000) >> 3u8,
                ..a.Pulse2
            },
            ..a
        }
    } else if index == 0x4008 {
        APU {
            Triangle: Triangle {
                control: (data & 0b10000000) != 0,
                counter_reload: data & 0b01111111,
                ..a.Triangle
            },
            ..a
        }
    } else if index == 0x400A {
        APU { Triangle: Triangle { timer: timer_low(a.Triangle.timer, data), ..a.Triangle }, ..a }
    } else if index == 0x400B {
        APU {
            Triangle: Triangle {
                timer: timer_high(a.Triangle.timer, data),
                length_counter_load: (data & 0b11111000) >> 3u8,
                ..a.Triangle
            },
            ..a
        }
    } else if index == 0x400C {
        APU {
            Noise: Noise {
                halt: (data & 0b00100000) != 0,
                constant_volume: (data & 0b00010000) != 0,
                volume: data & 0x0F,
                ..a.Noise
            },
            ..a
        }
    } else if index == 0x400E {
        APU { Noise: Noise { mode: (data & 0b10000000) != 0, period: data & 0x0F, ..a.Noise }, ..a }
    } else if index == 0x400F {
        APU { Noise: Noise { length_counter_load: (data & 0b11111000) >> 3u8, ..a.Noise }, ..a }
    } else if index == 0x4015 {
        APU {
            dmc_en: (data & 0b00010000) != 0,
            noise_en: (data & 0b00001000) != 0,
            triangle_en: (data & 0b00000100) != 0,
            pulse2_en: (data & 0b00000010) != 0,
            pulse1_en: (data & 0b00000001) != 0,
            ..a
        }
    } else {
        APU { fc_mode: (data & 0b10000000) != 0, irq_inhibit: (data & 0b01000000) != 0, ..a }
    }
}

fn pulse_ctrl_written(p: Pulse, data: u8) -> (r: Pulse)
    ensures
        r == pulse_ctrl(p, data),
{
    Pulse {
        duty: (data & 0b11000000) >> 6u8,
        halt: (data & 0b00100000) != 0,
        volume: data & 0x0F,
        ..p
    }
}

fn pulse_sweep_written(p: Pulse, data: u8) -> (r: Pulse)
    ensures
        r == pulse_sweep(p, data),
{
    Pulse {
        sweep_en: (data & 0b10000000) != 0,
        sweep_period: (data & 0b01110000) >> 4u8,
        sweep_negate: (data & 0b00001000) != 0,
        sweep_shift: data & 0b00000111,
        ..p
    }
}

/// The APU after a write of `data` to register `index`.
fn apu_written(a: APU, index: u16, data: u8) -> (r: APU)
    requires
        apu_register_writable(index),
    ensures
        r == apu_register_write(a, index, data),
{
    if index == 0x4000 {
        APU { Pulse1: pulse_ctrl_written(a.Pulse1, data), ..a }
    } else if index == 0x4004 {
        APU { Pulse2: pulse_ctrl_written(a.Pulse2, data), ..a }
    } else if index == 0x4001 {
        APU { Pulse1: pulse_sweep_written(a.Pulse1, data), ..a }
    } else if index == 0x4005 {
        APU { Pulse2: pulse_sweep_written(a.Pulse2, data), ..a }
    } else if index == 0x4002 {
        APU { Pulse1: Pulse { timer: (a.Pulse1.timer & 0xFF00) | (data as u16), ..a.Pulse1 }, ..a }
    } else if index == 0x4006 {
        APU { Pulse2: Pulse { timer: (a.Pulse2.timer & 0xFF00) | (data as u16), ..a.Pulse2 }, ..a }
    } else if index == 0x4003 {
        APU {
            Pulse1: Pulse {
                timer: (a.Pulse1.timer & 0x00FF) | (((data & 0b00000111) as u16) << 8u16),
                length_counter_load: (data & 0b11111000) >> 3u8,
                ..a.Pulse1
            },
            ..a
        }
    } else if index == 0x4007 {
        APU {
            Pulse2: Pulse {
                timer: (a.Pulse2.timer & 0x00FF) | (((data & 0b00000111) as u16) << 8u16),
                length_counter_load: (data & 0b11111000) >> 3u8,
                ..a.Pulse2
            },
            ..a
        }
    } else if index == 0x4008 {
        APU {
            Triangle: Triangle {
                control: (data & 0b10000000) != 0,
                counter_reload: data & 0b01111111,
                ..a.Triangle
            },
            ..a
        }
    } else if index == 0x400A {
        APU {
            Triangle: Triangle { timer: (a.Triangle.timer & 0xFF00) | (data as u16), ..a.Triangle },
            ..a
        }
    } else if index == 0x400B {
        APU {
            Triangle: Triangle {
                timer: (a.Triangle.timer & 0x00FF) | (((data & 0b00000111) as u16) << 8u16),
                length_counter_load: (data & 0b11111000) >> 3u8,
                ..a.Triangle
            },
            ..a
        }
    } else if index == 0x400C {
        APU {
            Noise: Noise {
                halt: (data & 0b00100000) != 0,
                constant_volume: (data & 0b00010000) != 0,
                volume: data & 0x0F,
                ..a.Noise
            },
            ..a
        }
    } else if index == 0x400E {
        APU { Noise: Noise { mode: (data & 0b10000000) != 0, period: data & 0x0F, ..a.Noise }, ..a }
    } else if index == 0x400F {
        APU { Noise: Noise { length_counter_load: (data & 0b11111000) >> 3u8, ..a.Noise }, ..a }
    } else if index == 0x4015 {
        APU {
            dmc_en: (data & 0b00010000) != 0,
            noise_en: (data & 0b00001000) != 0,
            triangle_en: (data & 0b00000100) != 0,
            pulse2_en: (data & 0b00000010) != 0,
            pulse1_en: (data & 0b00000001) != 0,
            ..a
        }
    } else {
        APU { fc_mode: (data & 0b10000000) != 0, irq_inhibit: (data & 0b01000000) != 0, ..a }
    }
}

/// Writes `data` to APU register `index`.
pub fn writeAPU(apu: &mut APU, index: u16, data: u8)
    requires
        apu_register_writable(index),
    ensures
        *final(apu) == apu_register_write(*old(apu), index, data),
{
    *apu = apu_written(*apu, index, data);
}

// ---------------------------------------------------------------------------
// The CPU bus
// ---------------------------------------------------------------------------

/// What a CPU read of `index` returns and leaves behind, or `None` where the
/// read is not defined: work RAM mirrored every 2 KiB below $2000, the PPU
/// registers mirrored every 8 bytes below $4000, the (unimplemented) joypad
/// ports reading 0, and the cartridge from $6000. The APU registers and the
/// test range $4018-$5FFF cannot be read.
pub open spec fn bus_read(m: ConsoleState, index: u16) -> Option<(u8, ConsoleState)> {
    if index < 0x2000 {
        Some((m.ram[(index % 0x800) as int], m))
    } else if index < 0x4000 {
        match ppu_register_read(m.ppu, (index % 8 + 0x2000) as int) {
            Some((v, p)) => Some((v, ConsoleState { ppu: p, ..m })),
            None => None,
        }
    } else if index == 0x4016 || index == 0x4017 {
        Some((0u8, m))
    } else if index < 0x6000 {
        None
    } else {
        match cart_read(m.game, index) {
            Some(v) => Some((v, m)),
            None => None,
        }
    }
}

/// The machine after a CPU write of `data` to `index`, or `None` where the write
/// is not defined: work RAM and the PPU registers as for reads, $4014 (sprite
/// DMA) to the PPU, the joypad ports ignoring the write, the writable APU
/// registers; nothing from $4018 up accepts a write.
pub open spec fn bus_write(m: ConsoleState, index: u16, data: u8) -> Option<ConsoleState> {
    if index < 0x2000 {
        Some(ConsoleState { ram: m.ram.update((index % 0x800) as int, data), ..m })
    } else if index == 0x4016 || index == 0x4017 {
        Some(m)
    } else if index < 0x4000 || index == 0x4014 {
        let reg: int = if index < 0x4000 { (index % 8 + 0x2000) as int } else { 0x4014 };
        match ppu_register_write(m.ppu, reg, data) {
            Some(p) => Some(ConsoleState { ppu: p, ..m }),
            None => None,
        }
    } else if index < 0x4016 {
        if apu_register_writable(index) {
            Some(ConsoleState { apu: apu_register_write(m.apu, index, data), ..m })
        } else {
            None
        }
    } else {
        None
    }
}

/// A little-endian 16-bit read: the high byte at `index + 1` is read first, then
/// the low byte at `index`.
pub open spec fn bus_read16(m: ConsoleState, index: u16) -> Option<(u16, ConsoleState)> {
    if index == 0xFFFF {
        None
    } else {
        match bus_read(m, (index + 1) as u16) {
            Some((hi, m1)) => match bus_read(m1, index) {
                Some((lo, m2)) => Some((((hi as int) * 256 + (lo as int)) as u16, m2)),
                None => None,
            },
            None => None,
        }
    }
}

/// A little-endian 16-bit write: the high byte to `index + 1` first, then the low
/// byte to `index`.
pub open spec fn bus_write16(m: ConsoleState, index: u16, data: u16) -> Option<ConsoleState> {
    if index == 0xFFFF {
        None
    } else {
        match bus_write(m, (index + 1) as u16, (data / 256) as u8) {
            Some(m1) => bus_write(m1, index, (data % 256) as u8),
            None => None,
        }
    }
}

fn ram_store(mem: &mut Memory, index: usize, data: u8)
    requires
        index < old(mem)@.len(),
    ensures
        final(mem)@ == old(mem)@.update(index as int, data),
{
    mem.ram.set(index, data);
}

/// Reads the byte the CPU sees at `index`.
pub fn read(console: &mut Console, index: u16) -> (r: u8)
    requires
        old(console)@.wf(),
        bus_read(old(console)@, index) is Some,
    ensures
        bus_read(old(console)@, index) == Some((r, final(console)@)),
        final(console)@.wf(),
{
    if index < 0x2000 {
        console.Memory.ram[(index % 0x800) as usize]
    } else if index < 0x4000 {
        readPPU(&mut console.PPU, (index % 0x8 + 0x2000) as usize)
    } else if index == 0x4016 || index == 0x4017 {
        0
    } else {
        mapper_read(&console.Game, index)
    }
}

/// Tells whether a CPU read of `index` is defined, without reading.
pub fn read_defined(console: &Console, index: u16) -> (r: bool)
    requires
        console@.wf(),
    ensures
        r == (bus_read(console@, index) is Some),
{
    if index < 0x2000 {
        true
    } else if index < 0x4000 {
        let reg = index % 8 + 0x2000;
        if reg == 0x2002 {
            true
        } else if reg == 0x2004 {
            console.PPU.oamaddr < console.PPU.oam.len()
        } else if reg == 0x2007 {
            let step: u16 = if console.PPU.increment { 32 } else { 1 };
            console.PPU.addr <= u16::MAX - step
        } else {
            false
        }
    } else if index == 0x4016 || index == 0x4017 {
        true
    } else if index < 0x6000 {
        false
    } else {
        mapper_readable(&console.Game, index)
    }
}

/// A 16-bit read is defined exactly where both byte reads are defined in the
/// machine before it: a defined PPU register read (PPUSTATUS, OAMDATA or
/// PPUDATA) is always preceded, one address down, by a register that cannot be
/// read, and a read elsewhere changes nothing.
proof fn lemma_read16_defined(m: ConsoleState, index: u16)
    requires
        index != 0xFFFF,
    ensures
        (bus_read16(m, index) is Some) == (bus_read(m, (index + 1) as u16) is Some && bus_read(m, index) is Some),
{
    let hi_index = (index + 1) as u16;
    if bus_read(m, hi_index) is Some {
        let (_, m1) = bus_read(m, hi_index)->0;
        if hi_index < 0x2000 || hi_index >= 0x4000 {
            assert(m1 == m);
        } else {
            let reg = hi_index % 8 + 0x2000;
            assert(reg == 0x2002 || reg == 0x2004 || reg == 0x2007);
            assert(m1.ram == m.ram);
            if index >= 0x2000 {
                assert(index % 8 + 0x2000 == 0x2001 || index % 8 + 0x2000 == 0x2003 || index % 8
                    + 0x2000 == 0x2006);
                assert(bus_read(m1, index) is None);
                assert(bus_read(m, index) is None);
            } else {
                assert(index == 0x1FFF);
            }
        }
    }
}

/// Tells whether a 16-bit CPU read at `index` is defined, without reading. Of
/// two consecutive PPU registers at most one can be read, so the read of the
/// high byte never changes whether the low byte can be read.
pub fn read16_defined(console: &Console, index: u16) -> (r: bool)
    requires
        console@.wf(),
    ensures
        r == (bus_read16(console@, index) is Some),
{
    if index == 0xFFFF {
        false
    } else {
        let hi = read_defined(console, index + 1);
        let lo = read_defined(console, index);
        proof {
            lemma_read16_defined(console@, index);
        }
        hi && lo
    }
}

/// Reads the little-endian word at `index` (high byte first).
pub fn read16(console: &mut Console, index: u16) -> (r: u16)
    requires
        old(console)@.wf(),
        bus_read16(old(console)@, index) is Some,
    ensures
        bus_read16(old(console)@, index) == Some((r, final(console)@)),
        final(console)@.wf(),
{
    let hi = read(console, index + 1) as u16;
    let lo = read(console, index) as u16;
    assert((hi << 8u16) | lo == hi * 256 + lo) by (bit_vector)
        requires
            hi < 256,
            lo < 256,
    ;
    (hi << 8u16) | lo
}

/// Stores `data` at `index` of the CPU address space.
pub fn write(console: &mut Console, index: u16, data: u8)
    requires
        old(console)@.wf(),
        bus_write(old(console)@, index, data) is Some,
    ensures
        bus_write(old(console)@, index, data) == Some(final(console)@),
        final(console)@.wf(),
{
    if index < 0x2000 {
        ram_store(&mut console.Memory, (index % 0x800) as usize, data);
    } else if index == 0x4016 || index == 0x4017 {
    } else if index < 0x4000 {
        writePPU(&mut console.PPU, (index % 0x8 + 0x2000) as usize, data);
    } else if index == 0x4014 {
        writePPU(&mut console.PPU, index as usize, data);
    } else {
        writeAPU(&mut console.APU, index, data);
    }
}

/// Tells whether a CPU write to `index` is defined (for any byte), without
/// writing.
pub fn write_defined(console: &Console, index: u16) -> (r: bool)
    requires
        console@.wf(),
    ensures
        forall|data: u8| #[trigger] bus_write(console@, index, data) is Some == r,
{
    if index < 0x2000 {
        true
    } else if index == 0x4016 || index == 0x4017 {
        true
    } else if index < 0x4000 {
        let reg = index % 8 + 0x2000;
        if reg == 0x2004 {
            console.PPU.oamaddr < console.PPU.oam.len()
        } else if reg == 0x2007 {
            let step: u16 = if console.PPU.increment { 32 } else { 1 };
            console.PPU.addr <= u16::MAX - step
        } else {
            reg != 0x2002
        }
    } else if index == 0x4014 {
        true
    } else if index < 0x4016 {
        (index <= 0x4008) || (0x400A <= index && index <= 0x400C) || index == 0x400E || index
            == 0x400F || index == 0x4015
    } else {
        false
    }
}

/// Stores the little-endian word `data` at `index` (high byte first).
pub fn write16(console: &mut Console, index: u16, data: u16)
    requires
        old(console)@.wf(),
        bus_write16(old(console)@, index, data) is Some,
    ensures
        bus_write16(old(console)@, index, data) == Some(final(console)@),
        final(console)@.wf(),
{
    let hi = ((data & 0xFF00) >> 8u16) as u8;
    let lo = (data & 0x00FF) as u8;
    assert(((data & 0xFF00) >> 8u16) == data / 256 && (data & 0x00FF) == data % 256) by (bit_vector);
    write(console, index + 1, hi);
    write(console, index, lo);
}

} // verus!
