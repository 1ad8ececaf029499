use nesemu::cartridge::ines_from_bytes;
use nesemu::console::Console;
use nesemu::memory::{read, read16, write16};
use nesemu::ppu::PPU;
use nesemu::memory::{readPPUADDR, writePPU, writePPUADDR};
use nesemu::opcodes::interpret_opcode;

fn console() -> Console {
    let mut rom = vec![0x4E, 0x45, 0x53, 0x1A, 1, 1, 0, 0, 0, 0, 0, 0, 0, 0, 0, 0];
    rom.extend(std::iter::repeat(0u8).take(16384 + 8192));
    Console::new(ines_from_bytes(&rom))
}

#[test]
fn ram_read_after_write_and_elsewhere() {
    let mut c = console();
    nesemu::memory::write(&mut c, 0x0123, 0x9A);
    nesemu::memory::write(&mut c, 0x0124, 0x01);
    assert_eq!(read(&mut c, 0x0123), 0x9A);
    assert_eq!(read(&mut c, 0x0923), 0x9A);
    assert_eq!(read(&mut c, 0x0124), 0x01);
}

#[test]
fn ram_word_round_trip() {
    let mut c = console();
    write16(&mut c, 0x07FE, 0x1234);
    assert_eq!(read16(&mut c, 0x07FE), 0x1234);
}

#[test]
fn ppu_memory_round_trip_and_mirrors() {
    let mut p = PPU::new(vec![0; 0x2000]);
    writePPUADDR(&mut p, 0xC3, 0x2ABC);
    assert_eq!(readPPUADDR(&mut p, 0x2ABC), 0xC3);
    assert_eq!(readPPUADDR(&mut p, 0x3ABC), 0xC3);
    writePPUADDR(&mut p, 0x0D, 0x3F10);
    assert_eq!(readPPUADDR(&mut p, 0x3F30), 0x0D);
}

#[test]
fn address_pair_and_scroll_pair() {
    let mut p = PPU::new(vec![0; 0x2000]);
    p.addr = 0x1357;
    writePPU(&mut p, 0x2006, 0x7F);
    writePPU(&mut p, 0x2006, 0x21);
    assert_eq!(p.addr, 0x7F21 % 0x4000);
    assert!(!p.addr_lowwrite);
    let w = p.w;
    writePPU(&mut p, 0x2005, 0x12);
    writePPU(&mut p, 0x2005, 0x34);
    assert_eq!(p.w, w);
}

#[test]
fn status_push_pull_round_trip() {
    let mut c = console();
    c.CPU.PC = 0x0300;
    c.CPU.carry = true;
    c.CPU.zero = true;
    c.CPU.decimal = true;
    c.CPU.overflow = true;
    let before = (c.CPU.carry, c.CPU.zero, c.CPU.interupt_disable, c.CPU.decimal, c.CPU.overflow, c.CPU.negative);
    let sp = c.CPU.SP;
    interpret_opcode(&mut c, 0x08);
    c.CPU.carry = false;
    c.CPU.zero = false;
    c.CPU.decimal = false;
    c.CPU.overflow = false;
    c.CPU.pause = 0;
    interpret_opcode(&mut c, 0x28);
    let after = (c.CPU.carry, c.CPU.zero, c.CPU.interupt_disable, c.CPU.decimal, c.CPU.overflow, c.CPU.negative);
    assert_eq!(before, after);
    assert_eq!(c.CPU.SP, sp);
}

#[test]
fn plain_reads_leave_the_machine_alone() {
    let mut c = console();
    c.Memory.ram[0x42] = 0x24;
    let ppu_addr = c.PPU.addr;
    let vblank = c.PPU.vblank;
    assert_eq!(read(&mut c, 0x0042), 0x24);
    assert_eq!(read(&mut c, 0x8000), read(&mut c, 0x8000));
    assert_eq!(read(&mut c, 0x4016), 0);
    assert_eq!(c.PPU.addr, ppu_addr);
    assert_eq!(c.PPU.vblank, vblank);
    assert_eq!(c.Memory.ram[0x42], 0x24);
}
