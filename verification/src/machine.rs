//! The master clock: each cycle the CPU fetches the bytes at PC, every third
//! cycle (outside sprite DMA) it runs a step and may take the NMI, and the PPU
//! draws one dot.

use vstd::prelude::*;
use crate::console::{Console, ConsoleState};
use crate::interrupt::{nmi_due, nmi_entry, nmi_pending, service_nmi, try_service_nmi};
use crate::memory::{bus_read, read, read_defined};
use crate::opcodes::{interpret_opcode, opcode_step, try_interpret_opcode};
use crate::ppu::{frame_ready, ppu_step, ppu_step_defined, stepPPU};

verus! {

/// The three bytes at PC, read in order through the bus, and the machine after
/// the reads.
pub open spec fn fetch(m: ConsoleState) -> Option<((u8, u8, u8), ConsoleState)> {
    let pc = m.cpu.PC;
    if pc > 0xFFFD {
        None
    } else {
        match bus_read(m, pc) {
            Some((b0, m1)) => match bus_read(m1, (pc + 1) as u16) {
                Some((b1, m2)) => match bus_read(m2, (pc + 2) as u16) {
                    Some((b2, m3)) => Some(((b0, b1, b2), m3)),
                    None => None,
                },
                None => None,
            },
            None => None,
        }
    }
}

/// Reads the opcode at PC and the two bytes after it.
pub fn fetch_instruction(console: &mut Console) -> (bytes: (u8, u8, u8))
    requires
        old(console)@.wf(),
        fetch(old(console)@) is Some,
    ensures
        fetch(old(console)@) == Some((bytes, final(console)@)),
        final(console)@.wf(),
{
    let pc = console.CPU.PC;
    let opcode = read(console, pc);
    let opcode2 = read(console, pc + 1);
    let opcode3 = read(console, pc + 2);
    (opcode, opcode2, opcode3)
}

/// Reads the opcode at PC and the two bytes after it, as `fetch_instruction`
/// does, where the reads are defined (`fetch` is `Some`); where they are not,
/// `None`, and the machine is left part-way through the reads.
pub fn try_fetch_instruction(console: &mut Console) -> (r: Option<(u8, u8, u8)>)
    requires
        old(console)@.wf(),
    ensures
        r is Some == fetch(old(console)@) is Some,
        r is Some ==> fetch(old(console)@) == Some((r->0, final(console)@)),
        final(console)@.wf(),
{
    let pc = console.CPU.PC;
    if pc > 0xFFFD || !read_defined(console, pc) {
        return None;
    }
    let opcode = read(console, pc);
    if !read_defined(console, pc + 1) {
        return None;
    }
    let opcode2 = read(console, pc + 1);
    if !read_defined(console, pc + 2) {
        return None;
    }
    let opcode3 = read(console, pc + 2);
    Some((opcode, opcode2, opcode3))
}

/// Whether the CPU runs in this cycle: one cycle in three, and not while the
/// PPU's sprite DMA holds the bus.
pub open spec fn cpu_turn(m: ConsoleState) -> bool {
    m.cycles % 3 == 0 && !m.ppu.regs.oam_transfer
}

/// Tells whether the CPU runs in this cycle (`cpu_turn`).
pub fn is_cpu_turn(console: &Console) -> (r: bool)
    ensures
        r == cpu_turn(console@),
{
    console.cycles % 3 == 0 && !console.PPU.oam_transfer
}

/// The CPU's part of a cycle: a step for `opcode` and, when it is due, NMI entry.
pub open spec fn cpu_cycle(m: ConsoleState, opcode: u8) -> Option<ConsoleState> {
    if cpu_turn(m) {
        match opcode_step(m, opcode) {
            Some(m1) => if nmi_due(m1) {
                nmi_entry(m1)
            } else {
                Some(m1)
            },
            None => None,
        }
    } else {
        Some(m)
    }
}

/// One master-clock cycle after the fetch: the CPU's part, one PPU dot, and the
/// cycle counter moved on.
pub open spec fn machine_cycle(m: ConsoleState, opcode: u8) -> Option<ConsoleState> {
    match cpu_cycle(m, opcode) {
        Some(m1) => match ppu_step(m1) {
            Some(m2) => if m2.cycles < usize::MAX {
                Some(ConsoleState { cycles: (m2.cycles + 1) as usize, ..m2 })
            } else {
                None
            },
            None => None,
        },
        None => None,
    }
}

fn cpu_part(console: &mut Console, opcode: u8)
    requires
        old(console)@.wf(),
        cpu_cycle(old(console)@, opcode) is Some,
    ensures
        cpu_cycle(old(console)@, opcode) == Some(final(console)@),
        final(console)@.wf(),
{
    if is_cpu_turn(console) {
        interpret_opcode(console, opcode);
        if nmi_pending(console) {
            service_nmi(console);
        }
    }
}

/// Runs the rest of one master-clock cycle for `opcode` (the byte fetched at PC)
/// and tells whether the PPU completed a frame.
pub fn run_cycle(console: &mut Console, opcode: u8) -> (frame_done: bool)
    requires
        old(console)@.wf(),
        machine_cycle(old(console)@, opcode) is Some,
    ensures
        machine_cycle(old(console)@, opcode) == Some(final(console)@),
        frame_done == frame_ready(cpu_cycle(old(console)@, opcode)->0),
        final(console)@.wf(),
{
    cpu_part(console, opcode);
    let done = stepPPU(console);
    console.cycles = console.cycles + 1;
    done
}

/// What a machine cycle did that its caller may want to know of.
#[derive(Clone, Copy, Debug)]
pub struct CycleReport {
    /// The CPU took the NMI after its step.
    pub nmi_taken: bool,
    /// The PPU completed a frame.
    pub frame_done: bool,
}

fn try_cpu_part(console: &mut Console, opcode: u8) -> (r: Option<bool>)
    requires
        old(console)@.wf(),
    ensures
        r is Some == cpu_cycle(old(console)@, opcode) is Some,
        r is Some ==> cpu_cycle(old(console)@, opcode) == Some(final(console)@),
        r is Some ==> r->0 == (cpu_turn(old(console)@) && nmi_due(opcode_step(old(console)@, opcode)->0)),
        final(console)@.wf(),
{
    if is_cpu_turn(console) {
        if !try_interpret_opcode(console, opcode) {
            return None;
        }
        if nmi_pending(console) {
            if try_service_nmi(console) {
                Some(true)
            } else {
                None
            }
        } else {
            Some(false)
        }
    } else {
        Some(false)
    }
}

/// Runs the rest of one master-clock cycle for `opcode` as `run_cycle` does,
/// where the cycle is defined (`machine_cycle` is `Some`), and reports whether
/// the NMI was taken and whether a frame was completed. Where the cycle is not
/// defined the result is `None` and the machine is left part-way through it.
pub fn try_run_cycle(console: &mut Console, opcode: u8) -> (r: Option<CycleReport>)
    requires
        old(console)@.wf(),
    ensures
        r is Some == machine_cycle(old(console)@, opcode) is Some,
        r is Some ==> machine_cycle(old(console)@, opcode) == Some(final(console)@),
        r is Some ==> r->0.frame_done == frame_ready(cpu_cycle(old(console)@, opcode)->0),
        r is Some ==> r->0.nmi_taken == (cpu_turn(old(console)@) && nmi_due(
            opcode_step(old(console)@, opcode)->0,
        )),
        final(console)@.wf(),
{
    let nmi_taken = match try_cpu_part(console, opcode) {
        Some(n) => n,
        None => {
            return None;
        },
    };
    if !ppu_step_defined(console) {
        return None;
    }
    let frame_done = stepPPU(console);
    if console.cycles == usize::MAX {
        return None;
    }
    console.cycles = console.cycles + 1;
    Some(CycleReport { nmi_taken, frame_done })
}

} // verus!
