use nesemu::cartridge::ines_from_bytes;
use nesemu::console::Console;
use nesemu::disasm::try_instruction_to_string;
use nesemu::interrupt::try_service_nmi;
use nesemu::machine::{try_fetch_instruction, try_run_cycle};
use nesemu::mapper::readable;
use nesemu::memory::{read16_defined, read_defined, write_defined};
use nesemu::opcodes::try_interpret_opcode;
use nesemu::ppu::{ppu_step_defined, stepPPU};

fn console() -> Console {
    let mut rom = vec![0x4E, 0x45, 0x53, 0x1A, 1, 1, 0, 0, 0, 0, 0, 0, 0, 0, 0, 0];
    let mut prg = vec![0u8; 16384];
    prg[0x3FFA] = 0x34;
    prg[0x3FFB] = 0x12;
    rom.extend_from_slice(&prg);
    rom.extend(std::iter::repeat(0u8).take(8192));
    let mut c = Console::new(ines_from_bytes(&rom));
    c.CPU.PC = 0x0300;
    c
}

#[test]
fn read_and_write_deciders() {
    let mut c = console();
    assert!(read_defined(&c, 0x0123));
    assert!(read_defined(&c, 0x2002));
    assert!(!read_defined(&c, 0x2000));
    assert!(read_defined(&c, 0x4016));
    assert!(!read_defined(&c, 0x4000));
    assert!(read_defined(&c, 0x8000));
    assert!(!read_defined(&c, 0xFFFF));
    c.PPU.addr = 0xFFFF;
    assert!(!read_defined(&c, 0x2007));
    assert!(read16_defined(&c, 0xFFFC));
    assert!(!read16_defined(&c, 0xFFFE));
    assert!(!read16_defined(&c, 0x2001));
    assert!(write_defined(&c, 0x2000));
    assert!(!write_defined(&c, 0x2002));
    assert!(write_defined(&c, 0x4014));
    assert!(!write_defined(&c, 0x4009));
    assert!(!write_defined(&c, 0x8000));
    assert!(readable(&c.Game, 0xC000));
    assert!(!readable(&c.Game, 0x5000));
}

#[test]
fn checked_step_runs_defined_steps() {
    let mut c = console();
    c.Memory.ram[0x300] = 0xA9;
    c.Memory.ram[0x301] = 0x42;
    assert!(try_interpret_opcode(&mut c, 0xA9));
    assert_eq!(c.CPU.A, 0x42);
    assert_eq!(c.CPU.PC, 0x0301);
    assert_eq!(c.CPU.pause, 1);
}

#[test]
fn checked_step_refuses_stp_and_dex_on_zero() {
    let mut c = console();
    assert!(!try_interpret_opcode(&mut c, 0x02));
    let mut c = console();
    c.CPU.X = 0;
    assert!(!try_interpret_opcode(&mut c, 0xCA));
    let mut c = console();
    c.CPU.X = 5;
    assert!(try_interpret_opcode(&mut c, 0xCA));
    assert_eq!(c.CPU.X, 4);
}

#[test]
fn checked_nmi_entry() {
    let mut c = console();
    c.CPU.SP = 0xFF;
    assert!(try_service_nmi(&mut c));
    assert_eq!(c.CPU.PC, 0x1234);
    assert_eq!(c.CPU.SP, 0xFC);
    let mut c = console();
    c.CPU.SP = 2;
    assert!(!try_service_nmi(&mut c));
}

#[test]
fn ppu_step_decider() {
    let mut c = console();
    assert!(ppu_step_defined(&c));
    c.PPU.nametable0[0] = 16;
    // Dot 0 draws nothing; dot 1 draws tile 16, which is not defined.
    assert!(ppu_step_defined(&c));
    c.PPU.cycle = 1;
    assert!(!ppu_step_defined(&c));
    c.PPU.cycle = 300;
    assert!(ppu_step_defined(&c));
    c.PPU.cycle = 341;
    assert!(!ppu_step_defined(&c));
    let mut c = console();
    c.PPU.oam_transfer = true;
    c.PPU.oamdmapage = 0x40;
    assert!(!ppu_step_defined(&c));
}

#[test]
fn checked_fetch_and_listing() {
    let mut c = console();
    c.Memory.ram[0x300] = 0xA9;
    c.Memory.ram[0x301] = 0x42;
    assert_eq!(try_fetch_instruction(&mut c), Some((0xA9, 0x42, 0x00)));
    assert_eq!(try_instruction_to_string(&mut c, 0xA9), Some("LDA $0301 (#42)".to_string()));
    c.CPU.PC = 0xFFFE;
    assert_eq!(try_fetch_instruction(&mut c), None);
}

#[test]
fn checked_cycle_reports_nmi_and_frame() {
    let mut c = console();
    c.CPU.SP = 0xFF;
    c.CPU.pause = 1;
    c.PPU.nmi_enable = true;
    c.PPU.nmi_occured = true;
    c.PPU.scanline = 241;
    c.PPU.cycle = 2;
    let r = try_run_cycle(&mut c, 0xEA).unwrap();
    assert!(r.nmi_taken);
    assert!(!r.frame_done);
    assert_eq!(c.CPU.PC, 0x1234);
    assert_eq!(c.cycles, 1);
    let mut c = console();
    c.CPU.pause = 1;
    c.PPU.vblank = false;
    c.PPU.scanline = 241;
    c.PPU.cycle = 1;
    let r = try_run_cycle(&mut c, 0xEA).unwrap();
    assert!(r.frame_done);
    assert!(!r.nmi_taken);
    let mut c = console();
    assert!(try_run_cycle(&mut c, 0x02).is_none());
}

#[test]
fn php_then_plp_restores_flags_and_sp() {
    let mut c = console();
    c.CPU.SP = 0x80;
    c.CPU.carry = true;
    c.CPU.negative = true;
    c.CPU.decimal = true;
    let before = c.CPU;
    assert!(try_interpret_opcode(&mut c, 0x08));
    c.CPU.carry = false;
    c.CPU.negative = false;
    c.CPU.zero = true;
    assert!(try_interpret_opcode(&mut c, 0xEA));
    assert!(try_interpret_opcode(&mut c, 0xEA));
    // The flags changed in between come back from the stack.
    assert!(try_interpret_opcode(&mut c, 0x28));
    assert_eq!(c.CPU.carry, before.carry);
    assert_eq!(c.CPU.negative, before.negative);
    assert_eq!(c.CPU.zero, before.zero);
    assert_eq!(c.CPU.decimal, before.decimal);
    assert_eq!(c.CPU.SP, 0x80);
    assert_eq!(c.CPU.PC, 0x0304);
}

#[test]
fn sprite_dma_copies_a_ram_page() {
    let mut c = console();
    for i in 0..256 {
        c.Memory.ram[0x200 + i] = (i as u8).wrapping_mul(7);
    }
    c.PPU.oam_transfer = true;
    c.PPU.oamdmaaddr = 0;
    c.PPU.oamdmapage = 0x02;
    for _ in 0..256 {
        stepPPU(&mut c);
    }
    for i in 0..256 {
        assert_eq!(c.PPU.oam[i], (i as u8).wrapping_mul(7));
    }
    assert!(!c.PPU.oam_transfer);
    assert_eq!(c.PPU.oamdmaaddr, 0);
}
