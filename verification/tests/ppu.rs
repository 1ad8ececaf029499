use nesemu::cartridge::ines_from_bytes;
use nesemu::console::Console;
use nesemu::ppu::{image, stepPPU, PPU, FRAME_BYTES, SYSTEM_PALLETE};

fn console() -> Console {
    let mut rom = vec![0x4E, 0x45, 0x53, 0x1A, 1, 1, 0, 0, 0, 0, 0, 0, 0, 0, 0, 0];
    rom.extend(std::iter::repeat(0u8).take(16384));
    let mut chr = vec![0u8; 8192];
    // Tile 1: low plane all ones in row 0, high plane all ones in row 0.
    chr[16] = 0xFF;
    chr[24] = 0xFF;
    // Tile 2: only the low plane.
    chr[32] = 0xFF;
    rom.extend_from_slice(&chr);
    Console::new(ines_from_bytes(&rom))
}

#[test]
fn new_ppu_loads_pattern_tables() {
    let chr: Vec<u8> = (0..0x2000).map(|i| (i / 16) as u8).collect();
    let ppu = PPU::new(chr);
    assert_eq!(ppu.patterntable0[0x20], 2);
    assert_eq!(ppu.patterntable1[0x20], ((0x1000 + 0x20) / 16) as u8);
    assert!(ppu.vblank);
    assert_eq!(ppu.frame_data().len(), FRAME_BYTES);
    assert_eq!(ppu.oam.len(), 256);
}

#[test]
fn image_pixels_are_rgb_triples() {
    let mut img = image::new(256, 240);
    img.write(2, 1, (1, 2, 3));
    let d = img.data();
    let i = 256 * 3 + 6;
    assert_eq!((d[i], d[i + 1], d[i + 2]), (1, 2, 3));
    assert_eq!(d.len(), FRAME_BYTES);
}

#[test]
fn dots_and_lines_advance() {
    let mut c = console();
    assert!(!stepPPU(&mut c));
    assert_eq!((c.PPU.scanline, c.PPU.cycle), (0, 1));
    c.PPU.cycle = 340;
    stepPPU(&mut c);
    assert_eq!((c.PPU.scanline, c.PPU.cycle), (1, 0));
    c.PPU.scanline = 261;
    c.PPU.cycle = 340;
    stepPPU(&mut c);
    assert_eq!((c.PPU.scanline, c.PPU.cycle), (0, 0));
}

#[test]
fn vblank_starts_at_line_241_and_ends_at_261() {
    let mut c = console();
    c.PPU.vblank = false;
    c.PPU.scanline = 241;
    c.PPU.cycle = 1;
    assert!(stepPPU(&mut c));
    assert!(c.PPU.vblank);
    assert!(c.PPU.nmi_occured);
    c.PPU.scanline = 261;
    c.PPU.cycle = 0;
    assert!(!stepPPU(&mut c));
    assert!(!c.PPU.vblank);
    assert!(!c.PPU.nmi_occured);
}

#[test]
fn one_frame_is_reported_once() {
    let mut c = console();
    let mut frames = 0;
    for _ in 0..(341 * 262) {
        if stepPPU(&mut c) {
            frames += 1;
        }
    }
    assert_eq!(frames, 1);
    assert_eq!((c.PPU.scanline, c.PPU.cycle), (0, 0));
}

#[test]
fn visible_dots_draw_the_background_tile() {
    let mut c = console();
    c.PPU.nametable0[0] = 1;
    c.PPU.nametable0[1] = 2;
    c.PPU.cycle = 1;
    stepPPU(&mut c);
    let d = c.PPU.frame_data();
    let white = SYSTEM_PALLETE[0x30];
    assert_eq!((d[0], d[1], d[2]), white);
    c.PPU.cycle = 9;
    stepPPU(&mut c);
    let d = c.PPU.frame_data();
    let colour1 = SYSTEM_PALLETE[0x23];
    assert_eq!((d[24], d[25], d[26]), colour1);
    c.PPU.scanline = 1;
    c.PPU.cycle = 1;
    stepPPU(&mut c);
    let d = c.PPU.frame_data();
    let backdrop = SYSTEM_PALLETE[0x01];
    assert_eq!((d[768], d[769], d[770]), backdrop);
}

#[test]
fn sprite_dma_copies_a_page() {
    let mut c = console();
    for i in 0..256 {
        c.Memory.ram[i] = i as u8;
    }
    nesemu::memory::write(&mut c, 0x4014, 0);
    for _ in 0..256 {
        stepPPU(&mut c);
    }
    assert!(!c.PPU.oam_transfer);
    assert_eq!(c.PPU.oamdmaaddr, 0);
    assert_eq!(c.PPU.oam[0x7F], 0x7F);
    assert_eq!(c.PPU.oam[0xFF], 0xFF);
}
