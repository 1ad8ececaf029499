//! The whole machine: CPU, PPU, APU, work RAM, the inserted cartridge and the
//! two joypads.

use vstd::prelude::*;
use crate::apu::APU;
use crate::cartridge::{iNES, CartState};
use crate::controller::Controller;
use crate::cpu::CPU;
use crate::memory::Memory;
use crate::ppu::{PPU, PpuState, initial_ppu};

verus! {

/// The machine.
#[derive(Debug)]
pub struct Console {
    pub CPU: CPU,
    pub PPU: PPU,
    pub APU: APU,
    pub Memory: Memory,
    pub Game: iNES,
    pub Controller1: Controller,
    pub Controller2: Controller,
    pub Strobe: bool,
    pub cycles: usize,
}

/// The machine as a mathematical value.
pub ghost struct ConsoleState {
    pub cpu: CPU,
    pub ppu: PpuState,
    pub apu: APU,
    pub ram: Seq<u8>,
    pub game: CartState,
    pub controller1: Controller,
    pub controller2: Controller,
    pub strobe: bool,
    pub cycles: usize,
}

impl View for Console {
    type V = ConsoleState;

    open spec fn view(&self) -> ConsoleState {
        ConsoleState {
            cpu: self.CPU,
            ppu: self.PPU@,
            apu: self.APU,
            ram: self.Memory@,
            game: self.Game@,
            controller1: self.Controller1,
            controller2: self.Controller2,
            strobe: self.Strobe,
            cycles: self.cycles,
        }
    }
}

impl ConsoleState {
    /// The PPU memories have their hardware sizes and work RAM is 2 KiB.
    pub open spec fn wf(self) -> bool {
        &&& self.ppu.wf()
        &&& self.ram.len() == 0x800
    }
}

/// The machine at power-on with `game` inserted.
pub open spec fn initial_console(game: CartState) -> ConsoleState {
    ConsoleState {
        cpu: CPU::initial(),
        ppu: initial_ppu(game.CHR),
        apu: APU::initial(),
        ram: Seq::new(0x800, |i: int| 0u8),
        game,
        controller1: Controller { Buttons: 0, shiftreg: 0 },
        controller2: Controller { Buttons: 0, shiftreg: 0 },
        strobe: false,
        cycles: 0,
    }
}

impl Console {
    /// Powers the machine on with `game` inserted; the PPU takes its pattern
    /// tables from the first 8 KiB of the character ROM.
    pub fn new(game: iNES) -> (r: Console)
        requires
            game.CHR.len() >= 0x2000,
        ensures
            r@ == initial_console(game@),
            r@.wf(),
    {
        let chr = game.CHR.clone();
        assert(chr@ == game.CHR@);
        let c = Console {
            CPU: CPU::new(),
            PPU: PPU::new(chr),
            APU: APU::new(),
            Memory: Memory::new(),
            Game: game,
            Controller1: Controller::new(),
            Controller2: Controller::new(),
            Strobe: false,
            cycles: 0,
        };
        assert(c@.ram =~= initial_console(game@).ram);
        c
    }
}

} // verus!
