//! Picture processing unit: video memory, the registers the CPU programs, the
//! frame being drawn, and the dot-by-dot renderer.

use vstd::prelude::*;
use crate::console::{Console, ConsoleState};
use crate::memory::{bus_read, read, read_defined};

verus! {

/// Width of the picture in pixels.
pub const FRAME_WIDTH: usize = 256;

/// Height of the picture in pixels.
pub const FRAME_HEIGHT: usize = 240;

/// Bytes of one RGB24 frame.
pub const FRAME_BYTES: usize = 184320;

/// An RGB24 picture, three bytes per pixel, rows of 256 pixels.
#[derive(Debug)]
pub struct image {
    data: Vec<u8>,
}

impl View for image {
    type V = Seq<u8>;

    closed spec fn view(&self) -> Seq<u8> {
        self.data@
    }
}

/// Where pixel (`x`, `y`) starts in a frame.
pub open spec fn pixel_offset(x: int, y: int) -> int {
    y * 3 * 256 + x * 3
}

/// `frame` with pixel (`x`, `y`) set to `rgb`.
pub open spec fn put_pixel(frame: Seq<u8>, x: int, y: int, rgb: (u8, u8, u8)) -> Seq<u8> {
    let i = pixel_offset(x, y);
    frame.update(i, rgb.0).update(i + 1, rgb.1).update(i + 2, rgb.2)
}

impl image {
    /// A black picture of `width` by `height` pixels.
    pub fn new(width: usize, height: usize) -> (r: image)
        requires
            width * height * 3 <= usize::MAX,
        ensures
            r@ == Seq::new((width * height * 3) as nat, |i: int| 0u8),
    {
        image { data: vec![0; width * height * 3] }
    }

    /// Sets pixel (`x`, `y`) in a picture 256 pixels wide.
    pub fn write(&mut self, x: usize, y: usize, rgb: (u8, u8, u8))
        requires
            pixel_offset(x as int, y as int) + 2 < old(self)@.len(),
        ensures
            final(self)@ == put_pixel(old(self)@, x as int, y as int, rgb),
    {
        let len = self.data.len();
        assert(y * 3 * 256 + x * 3 <= usize::MAX && y * 3 <= y * 3 * 256) by (nonlinear_arith)
            requires
                y * 3 * 256 + x * 3 + 2 < len,
                len <= usize::MAX,
        ;
        let index = (y * 3 * 256) + (x * 3);
        self.data.set(index, rgb.0);
        self.data.set(index + 1, rgb.1);
        self.data.set(index + 2, rgb.2);
    }

    /// The bytes of the picture, row after row.
    pub fn data(&self) -> (r: &Vec<u8>)
        ensures
            r@ == self@,
    {
        &self.data
    }
}

/// The PPU: pattern tables (tile graphics), name tables (tile maps), palette,
/// sprite memory, the registers written through $2000-$2007 and the position of
/// the dot being drawn.
#[derive(Debug)]
pub struct PPU {
    pub frame: image,

    pub patterntable0: Vec<u8>,
    pub patterntable1: Vec<u8>,
    pub nametable0: Vec<u8>,
    pub nametable1: Vec<u8>,
    pub nametable2: Vec<u8>,
    pub nametable3: Vec<u8>,
    pub palette: Vec<u8>,
    pub oam: Vec<u8>,

    pub oam_transfer: bool,

    pub nametablebyte: u8,

    // PPUCTRL write 0x2000
    pub nmi_enable: bool,
    pub master_slave: bool,
    pub sprite_height: bool,
    pub background_tile_select: bool,
    pub sprite_tile_select: bool,
    pub increment: bool,
    pub nametable_select: u8,

    // PPUMASK write 0x2001
    pub blue_emphasis: bool,
    pub green_emphasis: bool,
    pub red_emphasis: bool,
    pub sprite_enable: bool,
    pub bg_enable: bool,
    pub sprite_left_column_enable: bool,
    pub bg_left_column_enable: bool,
    pub grayscale: bool,

    // PPUSTATUS read 0x2002
    pub vblank: bool,
    pub s0_hit: bool,
    pub sprite_overflow: bool,

    pub oamaddr: usize,
    pub oamdmaaddr: usize,
    pub oamdmapage: u8,

    pub scroll_lowwrite: bool,
    pub addr_lowwrite: bool,

    // regs
    pub scroll: u16,
    pub addr: u16,

    pub v: u16,
    pub t: u16,
    pub x: u8,
    pub w: bool,

    pub scanline: usize,
    pub cycle: usize,

    pub nmi_occured: bool,
}

/// The PPU's registers and counters: every field of `PPU` but its memories.
#[derive(Clone, Copy, Debug)]
pub struct PpuRegisters {
    pub oam_transfer: bool,
    pub nametablebyte: u8,
    pub nmi_enable: bool,
    pub master_slave: bool,
    pub sprite_height: bool,
    pub background_tile_select: bool,
    pub sprite_tile_select: bool,
    pub increment: bool,
    pub nametable_select: u8,
    pub blue_emphasis: bool,
    pub green_emphasis: bool,
    pub red_emphasis: bool,
    pub sprite_enable: bool,
    pub bg_enable: bool,
    pub sprite_left_column_enable: bool,
    pub bg_left_column_enable: bool,
    pub grayscale: bool,
    pub vblank: bool,
    pub s0_hit: bool,
    pub sprite_overflow: bool,
    pub oamaddr: usize,
    pub oamdmaaddr: usize,
    pub oamdmapage: u8,
    pub scroll_lowwrite: bool,
    pub addr_lowwrite: bool,
    pub scroll: u16,
    pub addr: u16,
    pub v: u16,
    pub t: u16,
    pub x: u8,
    pub w: bool,
    pub scanline: usize,
    pub cycle: usize,
    pub nmi_occured: bool,
}

/// The PPU as a mathematical value: each memory as a sequence of bytes, and the registers.
pub ghost struct PpuState {
    pub frame: Seq<u8>,
    pub patterntable0: Seq<u8>,
    pub patterntable1: Seq<u8>,
    pub nametable0: Seq<u8>,
    pub nametable1: Seq<u8>,
    pub nametable2: Seq<u8>,
    pub nametable3: Seq<u8>,
    pub palette: Seq<u8>,
    pub oam: Seq<u8>,
    pub regs: PpuRegisters,
}

impl View for PPU {
    type V = PpuState;

    open spec fn view(&self) -> PpuState {
        PpuState {
            frame: self.frame@,
            patterntable0: self.patterntable0@,
            patterntable1: self.patterntable1@,
            nametable0: self.nametable0@,
            nametable1: self.nametable1@,
            nametable2: self.nametable2@,
            nametable3: self.nametable3@,
            palette: self.palette@,
            oam: self.oam@,
            regs: self.registers_of(),
        }
    }
}

impl PPU {
    /// The registers of this PPU.
    pub open spec fn registers_of(&self) -> PpuRegisters {
        PpuRegisters {
            oam_transfer: self.oam_transfer,
            nametablebyte: self.nametablebyte,
            nmi_enable: self.nmi_enable,
            master_slave: self.master_slave,
            sprite_height: self.sprite_height,
            background_tile_select: self.background_tile_select,
            sprite_tile_select: self.sprite_tile_select,
            increment: self.increment,
            nametable_select: self.nametable_select,
            blue_emphasis: self.blue_emphasis,
            green_emphasis: self.green_emphasis,
            red_emphasis: self.red_emphasis,
            sprite_enable: self.sprite_enable,
            bg_enable: self.bg_enable,
            sprite_left_column_enable: self.sprite_left_column_enable,
            bg_left_column_enable: self.bg_left_column_enable,
            grayscale: self.grayscale,
            vblank: self.vblank,
            s0_hit: self.s0_hit,
            sprite_overflow: self.sprite_overflow,
            oamaddr: self.oamaddr,
            oamdmaaddr: self.oamdmaaddr,
            oamdmapage: self.oamdmapage,
            scroll_lowwrite: self.scroll_lowwrite,
            addr_lowwrite: self.addr_lowwrite,
            scroll: self.scroll,
            addr: self.addr,
            v: self.v,
            t: self.t,
            x: self.x,
            w: self.w,
            scanline: self.scanline,
            cycle: self.cycle,
            nmi_occured: self.nmi_occured,
        }
    }

    /// A copy of the registers.
    pub fn registers(&self) -> (r: PpuRegisters)
        ensures
            r == self.registers_of(),
    {
        PpuRegisters {
            oam_transfer: self.oam_transfer,
            nametablebyte: self.nametablebyte,
            nmi_enable: self.nmi_enable,
            master_slave: self.master_slave,
            sprite_height: self.sprite_height,
            background_tile_select: self.background_tile_select,
            sprite_tile_select: self.sprite_tile_select,
            increment: self.increment,
            nametable_select: self.nametable_select,
            blue_emphasis: self.blue_emphasis,
            green_emphasis: self.green_emphasis,
            red_emphasis: self.red_emphasis,
            sprite_enable: self.sprite_enable,
            bg_enable: self.bg_enable,
            sprite_left_column_enable: self.sprite_left_column_enable,
            bg_left_column_enable: self.bg_left_column_enable,
            grayscale: self.grayscale,
            vblank: self.vblank,
            s0_hit: self.s0_hit,
            sprite_overflow: self.sprite_overflow,
            oamaddr: self.oamaddr,
            oamdmaaddr: self.oamdmaaddr,
            oamdmapage: self.oamdmapage,
            scroll_lowwrite: self.scroll_lowwrite,
            addr_lowwrite: self.addr_lowwrite,
            scroll: self.scroll,
            addr: self.addr,
            v: self.v,
            t: self.t,
            x: self.x,
            w: self.w,
            scanline: self.scanline,
            cycle: self.cycle,
            nmi_occured: self.nmi_occured,
        }
    }

    /// A PPU whose register fields hold the values in `r` has the registers `r`.
    pub proof fn lemma_registers_of(p: PPU, r: PpuRegisters)
        requires
            p.oam_transfer == r.oam_transfer,
            p.nametablebyte == r.nametablebyte,
            p.nmi_enable == r.nmi_enable,
            p.master_slave == r.master_slave,
            p.sprite_height == r.sprite_height,
            p.background_tile_select == r.background_tile_select,
            p.sprite_tile_select == r.sprite_tile_select,
            p.increment == r.increment,
            p.nametable_select == r.nametable_select,
            p.blue_emphasis == r.blue_emphasis,
            p.green_emphasis == r.green_emphasis,
            p.red_emphasis == r.red_emphasis,
            p.sprite_enable == r.sprite_enable,
            p.bg_enable == r.bg_enable,
            p.sprite_left_column_enable == r.sprite_left_column_enable,
            p.bg_left_column_enable == r.bg_left_column_enable,
            p.grayscale == r.grayscale,
            p.vblank == r.vblank,
            p.s0_hit == r.s0_hit,
            p.sprite_overflow == r.sprite_overflow,
            p.oamaddr == r.oamaddr,
            p.oamdmaaddr == r.oamdmaaddr,
            p.oamdmapage == r.oamdmapage,
            p.scroll_lowwrite == r.scroll_lowwrite,
            p.addr_lowwrite == r.addr_lowwrite,
            p.scroll == r.scroll,
            p.addr == r.addr,
            p.v == r.v,
            p.t == r.t,
            p.x == r.x,
            p.w == r.w,
            p.scanline == r.scanline,
            p.cycle == r.cycle,
            p.nmi_occured == r.nmi_occured,
        ensures
            p.registers_of() == r,
    {
    }

    /// Replaces every register by the value in `r`; the memories stay as they are.
    pub fn set_registers(&mut self, r: PpuRegisters)
        ensures
            final(self).oam_transfer == r.oam_transfer,
            final(self).nametablebyte == r.nametablebyte,
            final(self).nmi_enable == r.nmi_enable,
            final(self).master_slave == r.master_slave,
            final(self).sprite_height == r.sprite_height,
            final(self).background_tile_select == r.background_tile_select,
            final(self).sprite_tile_select == r.sprite_tile_select,
            final(self).increment == r.increment,
            final(self).nametable_select == r.nametable_select,
            final(self).blue_emphasis == r.blue_emphasis,
            final(self).green_emphasis == r.green_emphasis,
            final(self).red_emphasis == r.red_emphasis,
            final(self).sprite_enable == r.sprite_enable,
            final(self).bg_enable == r.bg_enable,
            final(self).sprite_left_column_enable == r.sprite_left_column_enable,
            final(self).bg_left_column_enable == r.bg_left_column_enable,
            final(self).grayscale == r.grayscale,
            final(self).vblank == r.vblank,
            final(self).s0_hit == r.s0_hit,
            final(self).sprite_overflow == r.sprite_overflow,
            final(self).oamaddr == r.oamaddr,
            final(self).oamdmaaddr == r.oamdmaaddr,
            final(self).oamdmapage == r.oamdmapage,
            final(self).scroll_lowwrite == r.scroll_lowwrite,
            final(self).addr_lowwrite == r.addr_lowwrite,
            final(self).scroll == r.scroll,
            final(self).addr == r.addr,
            final(self).v == r.v,
            final(self).t == r.t,
            final(self).x == r.x,
            final(self).w == r.w,
            final(self).scanline == r.scanline,
            final(self).cycle == r.cycle,
            final(self).nmi_occured == r.nmi_occured,
            final(self).frame == old(self).frame,
            final(self).patterntable0 == old(self).patterntable0,
            final(self).patterntable1 == old(self).patterntable1,
            final(self).nametable0 == old(self).nametable0,
            final(self).nametable1 == old(self).nametable1,
            final(self).nametable2 == old(self).nametable2,
            final(self).nametable3 == old(self).nametable3,
            final(self).palette == old(self).palette,
            final(self).oam == old(self).oam,
    {
        self.oam_transfer = r.oam_transfer;
        self.nametablebyte = r.nametablebyte;
        self.nmi_enable = r.nmi_enable;
        self.master_slave = r.master_slave;
        self.sprite_height = r.sprite_height;
        self.background_tile_select = r.background_tile_select;
        self.sprite_tile_select = r.sprite_tile_select;
        self.increment = r.increment;
        self.nametable_select = r.nametable_select;
        self.blue_emphasis = r.blue_emphasis;
        self.green_emphasis = r.green_emphasis;
        self.red_emphasis = r.red_emphasis;
        self.sprite_enable = r.sprite_enable;
        self.bg_enable = r.bg_enable;
        self.sprite_left_column_enable = r.sprite_left_column_enable;
        self.bg_left_column_enable = r.bg_left_column_enable;
        self.grayscale = r.grayscale;
        self.vblank = r.vblank;
        self.s0_hit = r.s0_hit;
        self.sprite_overflow = r.sprite_overflow;
        self.oamaddr = r.oamaddr;
        self.oamdmaaddr = r.oamdmaaddr;
        self.oamdmapage = r.oamdmapage;
        self.scroll_lowwrite = r.scroll_lowwrite;
        self.addr_lowwrite = r.addr_lowwrite;
        self.scroll = r.scroll;
        self.addr = r.addr;
        self.v = r.v;
        self.t = r.t;
        self.x = r.x;
        self.w = r.w;
        self.scanline = r.scanline;
        self.cycle = r.cycle;
        self.nmi_occured = r.nmi_occured;
    }
}

impl PpuState {
    /// Every memory has its hardware size: 4 KiB per pattern table, 1 KiB per
    /// name table, 32 palette entries, 256 bytes of sprite memory and one frame.
    pub open spec fn wf(self) -> bool {
        &&& self.frame.len() == FRAME_BYTES
        &&& self.patterntable0.len() == 0x1000
        &&& self.patterntable1.len() == 0x1000
        &&& self.nametable0.len() == 0x400
        &&& self.nametable1.len() == 0x400
        &&& self.nametable2.len() == 0x400
        &&& self.nametable3.len() == 0x400
        &&& self.palette.len() == 0x20
        &&& self.oam.len() == 256
    }
}

/// The registers of a PPU at power-on: everything clear but the vblank flag.
pub open spec fn initial_ppu_registers() -> PpuRegisters {
    PpuRegisters {
        oam_transfer: false,
        nametablebyte: 0,
        nmi_enable: false,
        master_slave: false,
        sprite_height: false,
        background_tile_select: false,
        sprite_tile_select: false,
        increment: false,
        nametable_select: 0,
        blue_emphasis: false,
        green_emphasis: false,
        red_emphasis: false,
        sprite_enable: false,
        bg_enable: false,
        sprite_left_column_enable: false,
        bg_left_column_enable: false,
        grayscale: false,
        vblank: true,
        s0_hit: false,
        sprite_overflow: false,
        oamaddr: 0,
        oamdmaaddr: 0,
        oamdmapage: 0,
        scroll_lowwrite: false,
        addr_lowwrite: false,
        scroll: 0,
        addr: 0,
        v: 0,
        t: 0,
        x: 0,
        w: false,
        scanline: 0,
        cycle: 0,
        nmi_occured: false,
    }
}

/// The state of a freshly built PPU whose pattern tables hold the first 8 KiB of `chr`.
pub open spec fn initial_ppu(chr: Seq<u8>) -> PpuState {
    PpuState {
        frame: Seq::new(FRAME_BYTES as nat, |i: int| 0u8),
        patterntable0: chr.subrange(0, 0x1000),
        patterntable1: chr.subrange(0x1000, 0x2000),
        nametable0: Seq::new(0x400, |i: int| 0u8),
        nametable1: Seq::new(0x400, |i: int| 0u8),
        nametable2: Seq::new(0x400, |i: int| 0u8),
        nametable3: Seq::new(0x400, |i: int| 0u8),
        palette: Seq::new(0x20, |i: int| 0u8),
        oam: Seq::new(256, |i: int| 0u8),
        regs: initial_ppu_registers(),
    }
}

/// A copy of `chr[start..start + 0x1000]`.
fn pattern_table(chr: &Vec<u8>, start: usize) -> (r: Vec<u8>)
    requires
        start + 0x1000 <= chr.len(),
    ensures
        r@ == chr@.subrange(start as int, start + 0x1000),
{
    let mut table: Vec<u8> = vec![0; 0x1000];
    let mut i: usize = 0;
    while i < 0x1000
        invariant
            start + 0x1000 <= chr.len(),
            i <= 0x1000,
            table@.len() == 0x1000,
            forall|j: int| 0 <= j < i ==> table@[j] == chr@[start + j],
        decreases 0x1000 - i,
    {
        table.set(i, chr[start + i]);
        i = i + 1;
    }
    assert(table@ == chr@.subrange(start as int, start + 0x1000));
    table
}

impl PPU {
    /// A PPU in its power-on state, its two pattern tables loaded from the
    /// first 8 KiB of the cartridge's character ROM.
    pub fn new(chr: Vec<u8>) -> (r: PPU)
        requires
            chr.len() >= 0x2000,
        ensures
            r@ == initial_ppu(chr@),
            r@.wf(),
    {
        let ppu = PPU {
            frame: image::new(FRAME_WIDTH, FRAME_HEIGHT),
            patterntable0: pattern_table(&chr, 0),
            patterntable1: pattern_table(&chr, 0x1000),
            nametable0: vec![0; 0x400],
            nametable1: vec![0; 0x400],
            nametable2: vec![0; 0x400],
            nametable3: vec![0; 0x400],
            palette: vec![0; 0x20],
            oam: vec![0; 256],
            oam_transfer: false,
            nametablebyte: 0,
            nmi_enable: false,
            master_slave: false,
            sprite_height: false,
            background_tile_select: false,
            sprite_tile_select: false,
            increment: false,
            nametable_select: 0,
            blue_emphasis: false,
            green_emphasis: false,
            red_emphasis: false,
            sprite_enable: false,
            bg_enable: false,
            sprite_left_column_enable: false,
            bg_left_column_enable: false,
            grayscale: false,
            vblank: true,
            s0_hit: false,
            sprite_overflow: false,
            oamaddr: 0,
            oamdmaaddr: 0,
            oamdmapage: 0,
            scroll_lowwrite: false,
            addr_lowwrite: false,
            scroll: 0,
            addr: 0,
            v: 0,
            t: 0,
            x: 0,
            w: false,
            scanline: 0,
            cycle: 0,
            nmi_occured: false,
        };
        let ghost init = initial_ppu(chr@);
        assert(ppu@.frame =~= init.frame);
        assert(ppu@.nametable0 =~= init.nametable0);
        assert(ppu@.nametable1 =~= init.nametable1);
        assert(ppu@.nametable2 =~= init.nametable2);
        assert(ppu@.nametable3 =~= init.nametable3);
        assert(ppu@.palette =~= init.palette);
        assert(ppu@.oam =~= init.oam);
        assert(ppu@ == init);
        ppu
    }

    /// The picture drawn so far, as RGB24 rows of 256 pixels.
    pub fn frame_data(&self) -> (r: &Vec<u8>)
        ensures
            r@ == self@.frame,
    {
        self.frame.data()
    }
}

/// Replaces the registers of `ppu` by `r`.
pub fn put_registers(ppu: &mut PPU, r: PpuRegisters)
    ensures
        final(ppu)@ == (PpuState { regs: r, ..old(ppu)@ }),
{
    ppu.set_registers(r);
    proof {
        PPU::lemma_registers_of(*ppu, r);
    }
}

// ---------------------------------------------------------------------------
// The renderer
// ---------------------------------------------------------------------------

/// The 64 colours of the NES palette, as RGB.
pub const SYSTEM_PALLETE: [(u8, u8, u8); 64] = [
    (0x80, 0x80, 0x80), (0x00, 0x3D, 0xA6), (0x00, 0x12, 0xB0), (0x44, 0x00, 0x96),
    (0xA1, 0x00, 0x5E), (0xC7, 0x00, 0x28), (0xBA, 0x06, 0x00), (0x8C, 0x17, 0x00),
    (0x5C, 0x2F, 0x00), (0x10, 0x45, 0x00), (0x05, 0x4A, 0x00), (0x00, 0x47, 0x2E),
    (0x00, 0x41, 0x66), (0x00, 0x00, 0x00), (0x05, 0x05, 0x05), (0x05, 0x05, 0x05),
    (0xC7, 0xC7, 0xC7), (0x00, 0x77, 0xFF), (0x21, 0x55, 0xFF), (0x82, 0x37, 0xFA),
    (0xEB, 0x2F, 0xB5), (0xFF, 0x29, 0x50), (0xFF, 0x22, 0x00), (0xD6, 0x32, 0x00),
    (0xC4, 0x62, 0x00), (0x35, 0x80, 0x00), (0x05, 0x8F, 0x00), (0x00, 0x8A, 0x55),
    (0x00, 0x99, 0xCC), (0x21, 0x21, 0x21), (0x09, 0x09, 0x09), (0x09, 0x09, 0x09),
    (0xFF, 0xFF, 0xFF), (0x0F, 0xD7, 0xFF), (0x69, 0xA2, 0xFF), (0xD4, 0x80, 0xFF),
    (0xFF, 0x45, 0xF3), (0xFF, 0x61, 0x8B), (0xFF, 0x88, 0x33), (0xFF, 0x9C, 0x12),
    (0xFA, 0xBC, 0x20), (0x9F, 0xE3, 0x0E), (0x2B, 0xF0, 0x35), (0x0C, 0xF0, 0xA4),
    (0x05, 0xFB, 0xFF), (0x5E, 0x5E, 0x5E), (0x0D, 0x0D, 0x0D), (0x0D, 0x0D, 0x0D),
    (0xFF, 0xFF, 0xFF), (0xA6, 0xFC, 0xFF), (0xB3, 0xEC, 0xFF), (0xDA, 0xAB, 0xEB),
    (0xFF, 0xA8, 0xF9), (0xFF, 0xAB, 0xB3), (0xFF, 0xD2, 0xB0), (0xFF, 0xEF, 0xA6),
    (0xFF, 0xF7, 0x9C), (0xD7, 0xE8, 0x95), (0xA6, 0xED, 0xAF), (0xA2, 0xF2, 0xDA),
    (0x99, 0xFF, 0xFC), (0xDD, 0xDD, 0xDD), (0x11, 0x11, 0x11), (0x11, 0x11, 0x11),
];

/// The colour of a two-bit pixel value: four fixed entries of the system palette.
pub open spec fn pixel_color(value: u8) -> (u8, u8, u8) {
    if value == 0 {
        SYSTEM_PALLETE@[0x01]
    } else if value == 1 {
        SYSTEM_PALLETE@[0x23]
    } else if value == 2 {
        SYSTEM_PALLETE@[0x27]
    } else {
        SYSTEM_PALLETE@[0x30]
    }
}

/// The tile of name table 0 under dot `cycle` of scanline `line`.
pub open spec fn dot_tile(p: PpuState, line: int, cycle: int) -> u8 {
    p.nametable0[cycle / 8 + (line / 8) * 32]
}

/// The two-bit value of dot `cycle` of scanline `line`: from the low and high
/// planes of the tile's pattern in pattern table 0, bit `(cycle - 1) % 8` counted
/// from the right.
pub open spec fn dot_value(p: PpuState, line: int, cycle: int) -> u8 {
    let base = dot_tile(p, line, cycle) as int * 16 + line % 8;
    let low = p.patterntable0[base];
    let high = p.patterntable0[base + 8];
    let s = ((cycle - 1) % 8) as u8;
    (((high >> s) & 1) << 1u8) | ((low >> s) & 1)
}

/// Whether the dot can be drawn: the tile's pattern address is computed in 8
/// bits, so only tiles 0 to 15 are defined.
pub open spec fn dot_renderable(p: PpuState, line: int, cycle: int) -> bool {
    dot_tile(p, line, cycle) < 16
}

/// The PPU after drawing dot `cycle` of scanline `line` at pixel (`cycle - 1`, `line`).
pub open spec fn render_dot(p: PpuState, line: int, cycle: int) -> PpuState {
    PpuState {
        frame: put_pixel(p.frame, cycle - 1, line, pixel_color(dot_value(p, line, cycle))),
        ..p
    }
}

/// The CPU address the sprite DMA reads next: page `oamdmapage`, offset `oamdmaaddr`.
pub open spec fn oam_dma_address(r: PpuRegisters) -> u16 {
    (r.oamdmapage as int * 256 + r.oamdmaaddr as int) as u16
}

/// One dot of sprite DMA: while a transfer is on, one byte is copied from the
/// CPU bus into sprite memory; after the 256th the transfer stops.
pub open spec fn oam_dma(m: ConsoleState) -> Option<ConsoleState> {
    if !m.ppu.regs.oam_transfer {
        Some(m)
    } else if m.ppu.regs.oamdmaaddr >= 256 {
        None
    } else {
        match bus_read(m, oam_dma_address(m.ppu.regs)) {
            Some((v, m1)) => {
                let p = m1.ppu;
                let next = p.regs.oamdmaaddr + 1;
                let regs = if next > 0xFF {
                    PpuRegisters { oam_transfer: false, oamdmaaddr: 0, ..p.regs }
                } else {
                    PpuRegisters { oamdmaaddr: next as usize, ..p.regs }
                };
                Some(
                    ConsoleState {
                        ppu: PpuState { oam: p.oam.update(p.regs.oamdmaaddr as int, v), regs, ..p },
                        ..m1
                    },
                )
            },
            None => None,
        }
    }
}

/// What the PPU does at dot `cycle` of scanline `line`: the pre-render line 261
/// clears vblank at dot 0; the visible lines 0-239 draw dots 1-256; dot 1 of line
/// 241 sets vblank and the NMI flag. Dots past 340 on the pre-render and visible
/// lines, and lines past 261, are not defined.
pub open spec fn ppu_dot(p: PpuState, line: int, cycle: int) -> Option<PpuState> {
    if line == 261 {
        if cycle == 0 {
            Some(PpuState { regs: PpuRegisters { vblank: false, nmi_occured: false, ..p.regs }, ..p })
        } else if cycle <= 340 {
            Some(p)
        } else {
            None
        }
    } else if line < 240 {
        if cycle == 0 {
            Some(p)
        } else if cycle < 257 {
            if dot_renderable(p, line, cycle) {
                Some(render_dot(p, line, cycle))
            } else {
                None
            }
        } else if cycle <= 340 {
            Some(p)
        } else {
            None
        }
    } else if line == 241 && cycle == 1 {
        Some(PpuState { regs: PpuRegisters { vblank: true, nmi_occured: true, ..p.regs }, ..p })
    } else if line <= 260 {
        Some(p)
    } else {
        None
    }
}

/// The dot counters moved on: 341 dots per line, lines 0 to 261.
pub open spec fn next_dot(r: PpuRegisters, line: usize, cycle: usize) -> PpuRegisters {
    if cycle < 340 {
        PpuRegisters { cycle: (cycle + 1) as usize, ..r }
    } else if line < 261 {
        PpuRegisters { scanline: (line + 1) as usize, cycle: 0, ..r }
    } else {
        PpuRegisters { scanline: 0, cycle: 0, ..r }
    }
}

/// One PPU dot: a step of sprite DMA, the work of the dot, and the counters moved on.
pub open spec fn ppu_step(m: ConsoleState) -> Option<ConsoleState> {
    let line = m.ppu.regs.scanline;
    let cycle = m.ppu.regs.cycle;
    match oam_dma(m) {
        Some(m1) => match ppu_dot(m1.ppu, line as int, cycle as int) {
            Some(p) => Some(
                ConsoleState { ppu: PpuState { regs: next_dot(p.regs, line, cycle), ..p }, ..m1 },
            ),
            None => None,
        },
        None => None,
    }
}

/// Whether the dot just drawn completes a frame (dot 1 of line 241).
pub open spec fn frame_ready(m: ConsoleState) -> bool {
    m.ppu.regs.scanline == 241 && m.ppu.regs.cycle == 1
}

fn frame_write(ppu: &mut PPU, x: usize, y: usize, rgb: (u8, u8, u8))
    requires
        pixel_offset(x as int, y as int) + 2 < old(ppu).frame@.len(),
    ensures
        final(ppu).frame@ == put_pixel(old(ppu).frame@, x as int, y as int, rgb),
        final(ppu).registers_of() == old(ppu).registers_of(),
        final(ppu).oam == old(ppu).oam,
        final(ppu).patterntable0 == old(ppu).patterntable0,
        final(ppu).patterntable1 == old(ppu).patterntable1,
        final(ppu).nametable0 == old(ppu).nametable0,
        final(ppu).nametable1 == old(ppu).nametable1,
        final(ppu).nametable2 == old(ppu).nametable2,
        final(ppu).nametable3 == old(ppu).nametable3,
        final(ppu).palette == old(ppu).palette,
{
    ppu.frame.write(x, y, rgb);
}

/// Stores `data` in sprite memory at `index`.
pub(crate) fn oam_store(ppu: &mut PPU, index: usize, data: u8)
    requires
        index < old(ppu).oam.len(),
    ensures
        final(ppu).oam@ == old(ppu).oam@.update(index as int, data),
        final(ppu).registers_of() == old(ppu).registers_of(),
        final(ppu).frame == old(ppu).frame,
        final(ppu).patterntable0 == old(ppu).patterntable0,
        final(ppu).patterntable1 == old(ppu).patterntable1,
        final(ppu).nametable0 == old(ppu).nametable0,
        final(ppu).nametable1 == old(ppu).nametable1,
        final(ppu).nametable2 == old(ppu).nametable2,
        final(ppu).nametable3 == old(ppu).nametable3,
        final(ppu).palette == old(ppu).palette,
{
    ppu.oam.set(index, data);
}

fn color_of(value: u8) -> (rgb: (u8, u8, u8))
    ensures
        rgb == pixel_color(value),
{
    if value == 0 {
        SYSTEM_PALLETE[0x01]
    } else if value == 1 {
        SYSTEM_PALLETE[0x23]
    } else if value == 2 {
        SYSTEM_PALLETE[0x27]
    } else {
        SYSTEM_PALLETE[0x30]
    }
}

/// Draws dot `cycle` of visible scanline `line`.
fn draw_dot(ppu: &mut PPU, line: usize, cycle: usize)
    requires
        old(ppu)@.wf(),
        line < 240,
        1 <= cycle < 257,
        dot_renderable(old(ppu)@, line as int, cycle as int),
    ensures
        final(ppu)@ == render_dot(old(ppu)@, line as int, cycle as int),
        final(ppu)@.wf(),
{
    assert(cycle / 8 + (line / 8) * 32 < 0x400) by (nonlinear_arith)
        requires
            line < 240,
            cycle < 257,
    ;
    let tile = ppu.nametable0[cycle / 8 + (line / 8) * 32];
    let start = (tile * 16) as usize;
    let low = ppu.patterntable0[start + line % 8];
    let high = ppu.patterntable0[start + line % 8 + 8];
    let shift = ((cycle - 1) % 8) as u8;
    let pixellow = low >> shift;
    let pixelhigh = high >> shift;
    let value = ((pixelhigh & 0b1) << 1u8) | (pixellow & 0b1);
    let rgb = color_of(value);
    assert(pixel_offset((cycle - 1) as int, line as int) + 2 < FRAME_BYTES) by (nonlinear_arith)
        requires
            line < 240,
            1 <= cycle < 257,
    ;
    frame_write(ppu, cycle - 1, line, rgb);
}

fn dma_step(console: &mut Console)
    requires
        old(console)@.wf(),
        oam_dma(old(console)@) is Some,
    ensures
        oam_dma(old(console)@) == Some(final(console)@),
        final(console)@.wf(),
{
    if console.PPU.oam_transfer {
        let page = console.PPU.oamdmapage;
        let offset = console.PPU.oamdmaaddr;
        let address = (((page as u16) & 0x00FF) << 8u16) | offset as u16;
        assert(address == (page as int * 256 + offset as int) as u16) by (bit_vector)
            requires
                offset < 256,
                address == (((page as u16) & 0x00FF) << 8u16) | offset as u16,
        ;
        let newdata = read(console, address);
        oam_store(&mut console.PPU, offset, newdata);
        let r = console.PPU.registers();
        if offset + 1 > 0xFF {
            put_registers(&mut console.PPU, PpuRegisters { oam_transfer: false, oamdmaaddr: 0, ..r });
        } else {
            put_registers(&mut console.PPU, PpuRegisters { oamdmaaddr: offset + 1, ..r });
        }
    }
}

fn dot_work(ppu: &mut PPU, line: usize, cycle: usize)
    requires
        old(ppu)@.wf(),
        ppu_dot(old(ppu)@, line as int, cycle as int) is Some,
    ensures
        ppu_dot(old(ppu)@, line as int, cycle as int) == Some(final(ppu)@),
        final(ppu)@.wf(),
{
    if line == 261 {
        if cycle == 0 {
            let r = ppu.registers();
            put_registers(ppu, PpuRegisters { vblank: false, nmi_occured: false, ..r });
        }
    } else if line < 240 {
        if cycle != 0 && cycle < 257 {
            draw_dot(ppu, line, cycle);
        }
    } else if line == 241 && cycle == 1 {
        let r = ppu.registers();
        put_registers(ppu, PpuRegisters { vblank: true, nmi_occured: true, ..r });
    }
}

fn counters_moved(r: PpuRegisters, line: usize, cycle: usize) -> (nr: PpuRegisters)
    ensures
        nr == next_dot(r, line, cycle),
{
    if cycle < 340 {
        PpuRegisters { cycle: cycle + 1, ..r }
    } else if line < 261 {
        PpuRegisters { scanline: line + 1, cycle: 0, ..r }
    } else {
        PpuRegisters { scanline: 0, cycle: 0, ..r }
    }
}

/// Runs the PPU for one dot and tells whether that dot completed a frame, in
/// which case the frame in `frame_data` is ready to be shown.
pub fn stepPPU(console: &mut Console) -> (frame_done: bool)
    requires
        old(console)@.wf(),
        ppu_step(old(console)@) is Some,
    ensures
        ppu_step(old(console)@) == Some(final(console)@),
        frame_done == frame_ready(old(console)@),
        final(console)@.wf(),
{
    let scanline = console.PPU.scanline;
    let cycle = console.PPU.cycle;
    dma_step(console);
    dot_work(&mut console.PPU, scanline, cycle);
    let r = console.PPU.registers();
    put_registers(&mut console.PPU, counters_moved(r, scanline, cycle));
    scanline == 241 && cycle == 1
}

/// Whether a dot's work is defined depends only on where the dot is and on
/// name table 0.
proof fn lemma_dot_defined(p: PpuState, q: PpuState, line: int, cycle: int)
    requires
        p.nametable0 == q.nametable0,
    ensures
        (ppu_dot(p, line, cycle) is Some) == (ppu_dot(q, line, cycle) is Some),
{
}

/// A step of sprite DMA leaves name table 0 as it was.
proof fn lemma_dma_keeps_nametable(m: ConsoleState)
    requires
        oam_dma(m) is Some,
    ensures
        (oam_dma(m)->0).ppu.nametable0 == m.ppu.nametable0,
{
    if m.ppu.regs.oam_transfer {
        let (_, m1) = bus_read(m, oam_dma_address(m.ppu.regs))->0;
        assert(m1.ppu.nametable0 == m.ppu.nametable0);
    }
}

fn dma_defined(console: &Console) -> (r: bool)
    requires
        console@.wf(),
    ensures
        r == (oam_dma(console@) is Some),
{
    if console.PPU.oam_transfer {
        let page = console.PPU.oamdmapage;
        let offset = console.PPU.oamdmaaddr;
        if offset < 256 {
            let address = (((page as u16) & 0x00FF) << 8u16) | offset as u16;
            assert(address == (page as int * 256 + offset as int) as u16) by (bit_vector)
                requires
                    offset < 256,
                    address == (((page as u16) & 0x00FF) << 8u16) | offset as u16,
            ;
            read_defined(console, address)
        } else {
            false
        }
    } else {
        true
    }
}

fn dot_defined(ppu: &PPU, line: usize, cycle: usize) -> (r: bool)
    requires
        ppu@.wf(),
    ensures
        r == (ppu_dot(ppu@, line as int, cycle as int) is Some),
{
    if line == 261 {
        cycle <= 340
    } else if line < 240 {
        if cycle == 0 {
            true
        } else if cycle < 257 {
            assert(cycle / 8 + (line / 8) * 32 < 0x400) by (nonlinear_arith)
                requires
                    line < 240,
                    cycle < 257,
            ;
            ppu.nametable0[cycle / 8 + (line / 8) * 32] < 16
        } else {
            cycle <= 340
        }
    } else if line == 241 && cycle == 1 {
        true
    } else {
        line <= 260
    }
}

/// Tells whether the PPU's next dot (`ppu_step`) is defined, without running it.
pub fn ppu_step_defined(console: &Console) -> (r: bool)
    requires
        console@.wf(),
    ensures
        r == (ppu_step(console@) is Some),
{
    let dma_ok = dma_defined(console);
    let dot_ok = dot_defined(&console.PPU, console.PPU.scanline, console.PPU.cycle);
    proof {
        let m = console@;
        if oam_dma(m) is Some {
            lemma_dma_keeps_nametable(m);
            lemma_dot_defined(
                (oam_dma(m)->0).ppu,
                m.ppu,
                m.ppu.regs.scanline as int,
                m.ppu.regs.cycle as int,
            );
        }
    }
    dma_ok && dot_ok
}

} // verus!
