//! A first, simpler CPU bus: 2 KiB of RAM and a 32 KiB ROM image of its own,
//! PPUSTATUS reading 0, and everything from $4000 to $7FFF reading 0. Its PPU
//! register writes set the PPUCTRL and PPUMASK bits and the sprite-memory
//! registers, but leave the loopy `t` register alone, and PPUSCROLL only flips
//! the scroll write toggle.

use vstd::prelude::*;
use crate::console::Console;
use crate::memory::{mask_written, ppu_mask_write};
use crate::ppu::{PPU, PpuRegisters, PpuState, oam_store, put_registers};

verus! {

#[derive(Debug)]
pub struct Memory {
    ram: Vec<u8>,
    rom: Vec<u8>,
}

impl Memory {
    /// RAM is 2 KiB and the ROM image 32 KiB.
    #[verifier::type_invariant]
    spec fn sizes(self) -> bool {
        self.ram@.len() == 2048 && self.rom@.len() == 32768
    }

    /// The work RAM.
    pub closed spec fn ram(&self) -> Seq<u8> {
        self.ram@
    }

    /// The ROM image.
    pub closed spec fn rom(&self) -> Seq<u8> {
        self.rom@
    }

    /// Cleared 2 KiB RAM and a cleared 32 KiB ROM image.
    pub fn new() -> (r: Self)
        ensures
            r.ram() == Seq::new(2048, |i: int| 0u8),
            r.rom() == Seq::new(32768, |i: int| 0u8),
    {
        let r = Memory { ram: vec![0_u8; 2048], rom: vec![0_u8; 32768] };
        assert(r.ram() =~= Seq::new(2048, |i: int| 0u8));
        assert(r.rom() =~= Seq::new(32768, |i: int| 0u8));
        r
    }

    /// What a read of `index` gives: RAM mirrored every 2 KiB below $2000, 0 for
    /// the PPU registers (of which only PPUSTATUS can be read) and for $4000-$7FFF.
    pub open spec fn read_spec(&self, index: usize) -> u8 {
        if index < 0x2000 {
            self.ram()[(index % 0x800) as int]
        } else {
            0
        }
    }

    /// The addresses this bus can read: below $8000, and in the PPU range only
    /// the mirrors of PPUSTATUS.
    pub open spec fn readable(index: usize) -> bool {
        index < 0x8000 && (0x2000 <= index < 0x4000 ==> index % 8 == 2)
    }

    /// Reads the byte at `index`.
    pub fn read(self, console: &Console, index: usize) -> (r: u8)
        requires
            Self::readable(index),
        ensures
            r == self.read_spec(index),
    {
        proof {
            use_type_invariant(&self);
        }
        if index < 0x2000 {
            self.ram[index % 0x800]
        } else if index < 0x4000 {
            readPPU(&console.PPU, index % 0x8 + 0x2000)
        } else {
            0
        }
    }

    /// Writes are not connected on this bus: the machine is left as it is.
    pub fn write(self, console: &mut Console)
        ensures
            final(console)@ == old(console)@,
    {
    }
}

/// PPUSTATUS on this bus always reads 0.
pub fn readPPU(ppu: &PPU, index: usize) -> (r: u8)
    requires
        index == 0x2002,
    ensures
        r == 0,
{
    0
}

/// The registers after a PPUCTRL write on this bus (`t` unchanged).
pub open spec fn ctrl_write(r: PpuRegisters, data: u8) -> PpuRegisters {
    PpuRegisters {
        nametable_select: data & 0b00000011,
        increment: (data & 0b00000100) > 0,
        sprite_tile_select: (data & 0b00001000) > 0,
        background_tile_select: (data & 0b00010000) > 0,
        sprite_height: (data & 0b00100000) > 0,
        master_slave: (data & 0b01000000) > 0,
        nmi_enable: (data & 0b10000000) > 0,
        ..r
    }
}

/// The PPU after a write of `data` to register `index` on this bus, or `None`
/// where the write is not defined (registers other than $2000, $2001, $2003,
/// $2004 and $2005, or OAMDATA past the end of sprite memory).
pub open spec fn register_write(p: PpuState, index: usize, data: u8) -> Option<PpuState> {
    if index == 0x2000 {
        Some(PpuState { regs: ctrl_write(p.regs, data), ..p })
    } else if index == 0x2001 {
        Some(PpuState { regs: ppu_mask_write(p.regs, data), ..p })
    } else if index == 0x2003 {
        Some(PpuState { regs: PpuRegisters { oamaddr: data as usize, ..p.regs }, ..p })
    } else if index == 0x2004 {
        if p.regs.oamaddr < p.oam.len() {
            Some(
                PpuState {
                    oam: p.oam.update(p.regs.oamaddr as int, data),
                    regs: PpuRegisters { oamaddr: (p.regs.oamaddr + 1) as usize, ..p.regs },
                    ..p
                },
            )
        } else {
            None
        }
    } else if index == 0x2005 {
        Some(
            PpuState {
                regs: PpuRegisters { scroll_lowwrite: !p.regs.scroll_lowwrite, ..p.regs },
                ..p
            },
        )
    } else {
        None
    }
}

fn ctrl_written(r: PpuRegisters, data: u8) -> (nr: PpuRegisters)
    ensures
        nr == ctrl_write(r, data),
{
    PpuRegisters {
        nametable_select: data & 0b00000011,
        increment: (data & 0b00000100) > 0,
        sprite_tile_select: (data & 0b00001000) > 0,
        background_tile_select: (data & 0b00010000) > 0,
        sprite_height: (data & 0b00100000) > 0,
        master_slave: (data & 0b01000000) > 0,
        nmi_enable: (data & 0b10000000) > 0,
        ..r
    }
}

fn oamdata_written(ppu: &mut PPU, data: u8)
    requires
        old(ppu).oamaddr < old(ppu).oam.len(),
    ensures
        register_write(old(ppu)@, 0x2004, data) == Some(final(ppu)@),
{
    let a = ppu.oamaddr;
    oam_store(ppu, a, data);
    let r = ppu.registers();
    put_registers(ppu, PpuRegisters { oamaddr: a + 1, ..r });
}

/// Writes `data` to PPU register `index`.
pub fn writePPU(ppu: &mut PPU, index: usize, data: u8)
    requires
        register_write(old(ppu)@, index, data) is Some,
    ensures
        register_write(old(ppu)@, index, data) == Some(final(ppu)@),
        final(ppu)@.wf() == old(ppu)@.wf(),
{
    if index == 0x2000 {
        let r = ppu.registers();
        put_registers(ppu, ctrl_written(r, data));
    } else if index == 0x2001 {
        let r = ppu.registers();
        put_registers(ppu, mask_written(r, data));
    } else if index == 0x2003 {
        let r = ppu.registers();
        put_registers(ppu, PpuRegisters { oamaddr: data as usize, ..r });
    } else if index == 0x2004 {
        oamdata_written(ppu, data);
    } else {
        let r = ppu.registers();
        put_registers(ppu, PpuRegisters { scroll_lowwrite: !r.scroll_lowwrite, ..r });
    }
}

} // verus!
