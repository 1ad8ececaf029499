use nesemu::cartridge::ines_from_bytes;
use nesemu::console::Console;
use nesemu::ppu::PPU;
use nesemu::simple_memory::{readPPU, writePPU, Memory};

fn console() -> Console {
    let mut rom = vec![0x4E, 0x45, 0x53, 0x1A, 1, 1, 0, 0, 0, 0, 0, 0, 0, 0, 0, 0];
    rom.extend(std::iter::repeat(0u8).take(16384 + 8192));
    Console::new(ines_from_bytes(&rom))
}

#[test]
fn simple_bus_reads() {
    let c = console();
    assert_eq!(Memory::new().read(&c, 0x0005), 0);
    assert_eq!(Memory::new().read(&c, 0x2002), 0);
    assert_eq!(Memory::new().read(&c, 0x3FFA), 0);
    assert_eq!(Memory::new().read(&c, 0x7FFF), 0);
    assert_eq!(readPPU(&c.PPU, 0x2002), 0);
}

#[test]
fn simple_bus_write_changes_nothing() {
    let mut c = console();
    let pc = c.CPU.PC;
    Memory::new().write(&mut c);
    assert_eq!(c.CPU.PC, pc);
}

#[test]
fn simple_bus_ppu_writes() {
    let mut p = PPU::new(vec![0; 0x2000]);
    p.t = 0x1234;
    writePPU(&mut p, 0x2000, 0b1000_0011);
    assert!(p.nmi_enable);
    assert_eq!(p.nametable_select, 3);
    assert_eq!(p.t, 0x1234);
    writePPU(&mut p, 0x2003, 0xFE);
    writePPU(&mut p, 0x2004, 0x01);
    writePPU(&mut p, 0x2004, 0x02);
    assert_eq!(p.oam[0xFE], 0x01);
    assert_eq!(p.oam[0xFF], 0x02);
    assert_eq!(p.oamaddr, 0x100);
    let s = p.scroll_lowwrite;
    writePPU(&mut p, 0x2005, 0);
    assert_eq!(p.scroll_lowwrite, !s);
    writePPU(&mut p, 0x2001, 0b1110_0000);
    assert!(p.red_emphasis && p.green_emphasis && p.blue_emphasis);
}
