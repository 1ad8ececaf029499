use nesemu::cartridge::ines_from_bytes;
use nesemu::console::Console;
use nesemu::machine::{fetch_instruction, is_cpu_turn, run_cycle};

fn console() -> Console {
    let mut rom = vec![0x4E, 0x45, 0x53, 0x1A, 1, 1, 0, 0, 0, 0, 0, 0, 0, 0, 0, 0];
    let mut prg = vec![0u8; 16384];
    prg[0x3FFA] = 0x34;
    prg[0x3FFB] = 0x12;
    rom.extend_from_slice(&prg);
    rom.extend(std::iter::repeat(0u8).take(8192));
    let mut c = Console::new(ines_from_bytes(&rom));
    c.CPU.PC = 0x0300;
    c
}

#[test]
fn fetch_reads_three_bytes_at_pc() {
    let mut c = console();
    c.Memory.ram[0x300] = 0xA9;
    c.Memory.ram[0x301] = 0x42;
    c.Memory.ram[0x302] = 0x07;
    assert_eq!(fetch_instruction(&mut c), (0xA9, 0x42, 0x07));
    assert_eq!(c.CPU.PC, 0x0300);
}

#[test]
fn cpu_runs_every_third_cycle() {
    let mut c = console();
    c.Memory.ram[0x300] = 0xA9;
    c.Memory.ram[0x301] = 0x42;
    assert!(is_cpu_turn(&c));
    let (op, _, _) = fetch_instruction(&mut c);
    assert!(!run_cycle(&mut c, op));
    assert_eq!(c.CPU.A, 0x42);
    assert_eq!(c.cycles, 1);
    assert_eq!((c.PPU.scanline, c.PPU.cycle), (0, 1));
    // Cycles 1 and 2 leave the CPU alone.
    assert!(!is_cpu_turn(&c));
    run_cycle(&mut c, 0xA9);
    run_cycle(&mut c, 0xA9);
    assert_eq!(c.CPU.PC, 0x0301);
    assert_eq!(c.cycles, 3);
    assert_eq!(c.PPU.cycle, 3);
}

#[test]
fn sprite_dma_holds_the_cpu() {
    let mut c = console();
    c.PPU.oam_transfer = true;
    c.PPU.oamdmapage = 0x02;
    assert!(!is_cpu_turn(&c));
    let a = c.CPU.A;
    run_cycle(&mut c, 0xA9);
    assert_eq!(c.CPU.A, a);
    assert_eq!(c.CPU.PC, 0x0300);
    assert_eq!(c.cycles, 1);
}

#[test]
fn nmi_is_taken_after_the_step() {
    let mut c = console();
    c.CPU.SP = 0xFF;
    c.CPU.pause = 1;
    c.PPU.nmi_enable = true;
    c.PPU.nmi_occured = true;
    c.PPU.scanline = 241;
    c.PPU.cycle = 2;
    run_cycle(&mut c, 0xEA);
    assert_eq!(c.CPU.PC, 0x1234);
    assert_eq!(c.CPU.SP, 0xFC);
    assert!(c.CPU.interupt_disable);
    assert_eq!(c.Memory.ram[0x1FE], 0x03);
    assert_eq!(c.Memory.ram[0x1FD], 0x01);
}

#[test]
fn frame_done_at_vblank_start() {
    let mut c = console();
    c.CPU.pause = 1;
    c.PPU.vblank = false;
    c.PPU.scanline = 241;
    c.PPU.cycle = 1;
    assert!(run_cycle(&mut c, 0xEA));
}
