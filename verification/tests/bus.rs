use nesemu::cartridge::ines_from_bytes;
use nesemu::console::Console;
use nesemu::memory::{read, read16, readPPU, readPPUADDR, write16, writeAPU, writePPU, writePPUADDR};
use nesemu::ppu::PPU;

fn console() -> Console {
    let mut rom = vec![0x4E, 0x45, 0x53, 0x1A, 1, 1, 0, 0, 0, 0, 0, 0, 0, 0, 0, 0];
    for i in 0..(16384 + 8192) {
        rom.push((i % 7) as u8);
    }
    Console::new(ines_from_bytes(&rom))
}

#[test]
fn ram_is_mirrored_every_2k() {
    let mut c = console();
    nesemu::memory::write(&mut c, 0x0805, 0xAB);
    assert_eq!(c.Memory.ram[5], 0xAB);
    assert_eq!(read(&mut c, 0x0005), 0xAB);
    assert_eq!(read(&mut c, 0x1805), 0xAB);
}

#[test]
fn words_are_little_endian() {
    let mut c = console();
    write16(&mut c, 0x0010, 0xBEEF);
    assert_eq!(c.Memory.ram[0x10], 0xEF);
    assert_eq!(c.Memory.ram[0x11], 0xBE);
    assert_eq!(read16(&mut c, 0x0010), 0xBEEF);
}

#[test]
fn cartridge_appears_from_8000() {
    let mut c = console();
    assert_eq!(read(&mut c, 0x8003), 3);
    assert_eq!(read(&mut c, 0xC003), 3);
    assert_eq!(read16(&mut c, 0xFFFC), (0x3FFC % 7) as u16 | (((0x3FFD % 7) as u16) << 8));
    assert_eq!(read(&mut c, 0x7000), 0);
}

#[test]
fn joypad_ports_read_zero_and_ignore_writes() {
    let mut c = console();
    assert_eq!(read(&mut c, 0x4016), 0);
    nesemu::memory::write(&mut c, 0x4017, 0x55);
    assert_eq!(read(&mut c, 0x4017), 0);
}

#[test]
fn status_read_clears_vblank_and_latch() {
    let mut c = console();
    assert!(c.PPU.vblank);
    c.PPU.w = true;
    assert_eq!(read(&mut c, 0x2002), 0x80);
    assert!(!c.PPU.vblank);
    assert!(!c.PPU.w);
    assert_eq!(read(&mut c, 0x3FFA), 0x00);
}

#[test]
fn ppu_address_and_data_through_the_bus() {
    let mut c = console();
    nesemu::memory::write(&mut c, 0x2006, 0x21);
    nesemu::memory::write(&mut c, 0x2006, 0x08);
    assert_eq!(c.PPU.addr, 0x2108);
    nesemu::memory::write(&mut c, 0x2007, 0x5A);
    assert_eq!(c.PPU.nametable0[0x108], 0x5A);
    assert_eq!(c.PPU.addr, 0x2109);
    nesemu::memory::write(&mut c, 0x2000, 0b0000_0100);
    nesemu::memory::write(&mut c, 0x2007, 0x11);
    assert_eq!(c.PPU.nametable0[0x109], 0x11);
    assert_eq!(c.PPU.addr, 0x2129);
}

#[test]
fn ppu_data_read_uses_register_number() {
    let mut c = console();
    c.PPU.nametable0[7] = 0x99;
    c.PPU.addr = 0x0100;
    assert_eq!(read(&mut c, 0x2007), 0x99);
    assert_eq!(c.PPU.addr, 0x0101);
}

#[test]
fn ppu_address_is_kept_below_4000() {
    let mut c = console();
    nesemu::memory::write(&mut c, 0x2006, 0xFF);
    nesemu::memory::write(&mut c, 0x2006, 0xFF);
    assert_eq!(c.PPU.addr, 0x3FFF);
}

#[test]
fn oam_writes_advance_the_address() {
    let mut c = console();
    nesemu::memory::write(&mut c, 0x2003, 0x10);
    nesemu::memory::write(&mut c, 0x2004, 0xAA);
    nesemu::memory::write(&mut c, 0x2004, 0xBB);
    assert_eq!(c.PPU.oam[0x10], 0xAA);
    assert_eq!(c.PPU.oam[0x11], 0xBB);
    assert_eq!(c.PPU.oamaddr, 0x12);
    nesemu::memory::write(&mut c, 0x2003, 0x10);
    assert_eq!(read(&mut c, 0x2004), 0xAA);
}

#[test]
fn sprite_dma_register_starts_a_transfer() {
    let mut c = console();
    nesemu::memory::write(&mut c, 0x4014, 0x02);
    assert!(c.PPU.oam_transfer);
}

#[test]
fn ctrl_and_mask_bits() {
    let mut ppu = PPU::new(vec![0; 0x2000]);
    ppu.t = 0xFFFF;
    writePPU(&mut ppu, 0x2000, 0b1010_0110);
    assert_eq!(ppu.nametable_select, 2);
    assert!(ppu.increment);
    assert!(!ppu.sprite_tile_select);
    assert!(!ppu.background_tile_select);
    assert!(ppu.sprite_height);
    assert!(!ppu.master_slave);
    assert!(ppu.nmi_enable);
    assert_eq!(ppu.t, 0xFBFF);
    writePPU(&mut ppu, 0x2001, 0b0001_1001);
    assert!(ppu.grayscale);
    assert!(!ppu.bg_left_column_enable);
    assert!(ppu.bg_enable);
    assert!(ppu.sprite_enable);
    assert!(!ppu.blue_emphasis);
}

#[test]
fn scroll_writes_fill_t_and_fine_x() {
    let mut ppu = PPU::new(vec![0; 0x2000]);
    writePPU(&mut ppu, 0x2005, 0b1010_1101);
    assert_eq!(ppu.x, 0b101);
    assert_eq!(ppu.t, 0b10101);
    assert!(ppu.w);
    writePPU(&mut ppu, 0x2005, 0b0110_0011);
    assert!(!ppu.w);
    assert_eq!(ppu.t, 0x6C00);
}

#[test]
fn ppu_memory_map_and_mirrors() {
    let mut ppu = PPU::new((0..0x2000).map(|i| (i % 256) as u8).collect());
    assert_eq!(readPPUADDR(&mut ppu, 0x0123), 0x23);
    assert_eq!(readPPUADDR(&mut ppu, 0x1123), 0x23);
    writePPUADDR(&mut ppu, 0x77, 0x2C05);
    assert_eq!(ppu.nametable3[5], 0x77);
    assert_eq!(readPPUADDR(&mut ppu, 0x3C05), 0x77);
    writePPUADDR(&mut ppu, 0x30, 0x3F01);
    assert_eq!(ppu.palette[1], 0x30);
    assert_eq!(readPPUADDR(&mut ppu, 0x3F21), 0x30);
    writePPUADDR(&mut ppu, 0x44, 0x0010);
    assert_eq!(ppu.patterntable0[0x10], 0x44);
}

#[test]
fn status_register_bits() {
    let mut ppu = PPU::new(vec![0; 0x2000]);
    ppu.s0_hit = true;
    ppu.sprite_overflow = true;
    assert_eq!(readPPU(&mut ppu, 0x2002), 0xE0);
    assert_eq!(readPPU(&mut ppu, 0x2002), 0x60);
}

#[test]
fn apu_pulse_registers() {
    let mut c = console();
    nesemu::memory::write(&mut c, 0x4000, 0b1011_0110);
    assert_eq!(c.APU.Pulse1.duty, 2);
    assert!(c.APU.Pulse1.halt);
    assert_eq!(c.APU.Pulse1.volume, 6);
    nesemu::memory::write(&mut c, 0x4002, 0x34);
    nesemu::memory::write(&mut c, 0x4003, 0b1010_1101);
    assert_eq!(c.APU.Pulse1.timer, 0x534);
    assert_eq!(c.APU.Pulse1.length_counter_load, 0b10101);
    nesemu::memory::write(&mut c, 0x4005, 0b1101_1010);
    assert!(c.APU.Pulse2.sweep_en);
    assert_eq!(c.APU.Pulse2.sweep_period, 0b101);
    assert!(c.APU.Pulse2.sweep_negate);
    assert_eq!(c.APU.Pulse2.sweep_shift, 0b010);
}

#[test]
fn apu_other_channels_and_status() {
    let mut c = console();
    writeAPU(&mut c.APU, 0x4008, 0b1000_0011);
    assert!(c.APU.Triangle.control);
    assert_eq!(c.APU.Triangle.counter_reload, 3);
    writeAPU(&mut c.APU, 0x400A, 0xCD);
    writeAPU(&mut c.APU, 0x400B, 0xFF);
    assert_eq!(c.APU.Triangle.timer, 0x7CD);
    assert_eq!(c.APU.Triangle.length_counter_load, 0x1F);
    writeAPU(&mut c.APU, 0x400C, 0b0011_0101);
    assert!(c.APU.Noise.halt);
    assert!(c.APU.Noise.constant_volume);
    assert_eq!(c.APU.Noise.volume, 5);
    writeAPU(&mut c.APU, 0x400E, 0b1000_0111);
    assert!(c.APU.Noise.mode);
    assert_eq!(c.APU.Noise.period, 7);
    writeAPU(&mut c.APU, 0x400F, 0b1111_1000);
    assert_eq!(c.APU.Noise.length_counter_load, 0x1F);
    nesemu::memory::write(&mut c, 0x4015, 0b0001_0101);
    assert!(c.APU.dmc_en && c.APU.triangle_en && c.APU.pulse1_en);
    assert!(!c.APU.noise_en && !c.APU.pulse2_en);
    writeAPU(&mut c.APU, 0x4017, 0b1100_0000);
    assert!(c.APU.fc_mode && c.APU.irq_inhibit);
}
