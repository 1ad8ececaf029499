//! The non-maskable interrupt that the PPU raises at the start of vertical
//! blanking, and the CPU's entry into its handler.

use vstd::prelude::*;
use crate::console::{Console, ConsoleState};
use crate::cpu::{CPU, status_byte};
use crate::memory::{bus_read16, bus_write, read16, read16_defined};
use crate::opcodes::with_cpu;

verus! {

/// Whether the CPU takes the NMI after this step: NMIs are enabled, the PPU has
/// flagged one, and the PPU is at dot 2 of line 241.
pub open spec fn nmi_due(m: ConsoleState) -> bool {
    m.ppu.regs.nmi_enable && m.ppu.regs.nmi_occured && m.ppu.regs.scanline == 241 && m.ppu.regs.cycle
        == 2
}

/// Tells whether the NMI is due (`nmi_due`).
pub fn nmi_pending(console: &Console) -> (r: bool)
    ensures
        r == nmi_due(console@),
{
    console.PPU.nmi_enable && console.PPU.nmi_occured && console.PPU.scanline == 241
        && console.PPU.cycle == 2
}

/// Pushes `data` on the page-1 stack as NMI entry does: below `SP`, wrapping
/// within the page, then decrements `SP` modulo 256.
pub open spec fn nmi_push(m: ConsoleState, data: u8) -> Option<ConsoleState> {
    let sp = ((m.cpu.SP as int - 1) % 256) as u8;
    match bus_write(m, (0x100 + sp as int) as u16, data) {
        Some(m1) => Some(with_cpu(m1, CPU { SP: sp, ..m1.cpu })),
        None => None,
    }
}

/// NMI entry: PC high byte and low byte pushed, then the status byte (this last
/// push is not defined when `SP` is 0), I set, and PC loaded from the vector at $FFFA.
pub open spec fn nmi_entry(m: ConsoleState) -> Option<ConsoleState> {
    let pc = m.cpu.PC;
    match nmi_push(m, (pc / 256) as u8) {
        Some(m1) => match nmi_push(m1, (pc % 256) as u8) {
            Some(m2) => if m2.cpu.SP == 0 {
                None
            } else {
                match nmi_push(m2, status_byte(m2.cpu)) {
                    Some(m3) => match bus_read16(
                        with_cpu(m3, CPU { interupt_disable: true, ..m3.cpu }),
                        0xFFFA,
                    ) {
                        Some((target, m4)) => Some(with_cpu(m4, CPU { PC: target, ..m4.cpu })),
                        None => None,
                    },
                    None => None,
                }
            },
            None => None,
        },
        None => None,
    }
}

fn stack_push(console: &mut Console, data: u8)
    requires
        old(console)@.wf(),
        nmi_push(old(console)@, data) is Some,
    ensures
        nmi_push(old(console)@, data) == Some(final(console)@),
        final(console)@.wf(),
{
    let sp = console.CPU.SP.wrapping_sub(1);
    let index = (sp as u16) | 0x100;
    assert((sp as u16) | 0x100 == 0x100 + sp as u16) by (bit_vector);
    crate::memory::write(console, index, data);
    let c = console.CPU;
    console.CPU = CPU { SP: sp, ..c };
}

/// Enters the NMI handler.
pub fn service_nmi(console: &mut Console)
    requires
        old(console)@.wf(),
        nmi_entry(old(console)@) is Some,
    ensures
        nmi_entry(old(console)@) == Some(final(console)@),
        final(console)@.wf(),
{
    let pc = console.CPU.PC;
    assert(((pc & 0xFF00) >> 8u16) == pc / 256 && (pc & 0x00FF) == pc % 256) by (bit_vector);
    stack_push(console, ((pc & 0xFF00) >> 8u16) as u8);
    stack_push(console, (pc & 0x00FF) as u8);
    let p = console.CPU.status();
    stack_push(console, p);
    let c = console.CPU;
    console.CPU = CPU { interupt_disable: true, ..c };
    let target = read16(console, 0xFFFA);
    let c = console.CPU;
    console.CPU = CPU { PC: target, ..c };
}

/// Enters the NMI handler as `service_nmi` does, and tells whether the entry is
/// defined (`nmi_entry` is `Some`); where it is not, the machine is left part-way
/// through the entry, still well formed.
pub fn try_service_nmi(console: &mut Console) -> (ok: bool)
    requires
        old(console)@.wf(),
    ensures
        ok == nmi_entry(old(console)@) is Some,
        ok ==> nmi_entry(old(console)@) == Some(final(console)@),
        final(console)@.wf(),
{
    let pc = console.CPU.PC;
    assert(((pc & 0xFF00) >> 8u16) == pc / 256 && (pc & 0x00FF) == pc % 256) by (bit_vector);
    stack_push(console, ((pc & 0xFF00) >> 8u16) as u8);
    stack_push(console, (pc & 0x00FF) as u8);
    if console.CPU.SP == 0 {
        return false;
    }
    let p = console.CPU.status();
    stack_push(console, p);
    let c = console.CPU;
    console.CPU = CPU { interupt_disable: true, ..c };
    if !read16_defined(console, 0xFFFA) {
        return false;
    }
    let target = read16(console, 0xFFFA);
    let c = console.CPU;
    console.CPU = CPU { PC: target, ..c };
    true
}

} // verus!
