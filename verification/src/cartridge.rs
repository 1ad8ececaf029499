//! iNES cartridge images: the header fields and the program and character ROM
//! that a `.nes` file holds, and the parser that reads them out of the file's bytes.

use vstd::prelude::*;
use crate::mapper::{Mapper, mapper_for};

verus! {

/// A cartridge as read from an iNES file.
#[derive(Debug)]
pub struct iNES {
    // header
    pub head: usize,
    pub PGRSIZE: u8,
    pub CHRSIZE: u8,  // 0 = CHR RAM
    // flags 6
    pub mirror: bool,  // false = horizontal, true = vertical
    pub bat_PRGRAM: bool,
    pub has_trainer: bool,
    pub ignore_mirror: bool,
    pub mapper: Mapper,
    // flags 7
    pub unisystem: bool,
    pub playchoice10: bool,
    pub nes2: bool,
    // flags 9
    pub region: bool,  // false: NTSC, true: PAL
    // body
    pub trainer: Vec<u8>,
    pub PGR: Vec<u8>,
    pub CHR: Vec<u8>,
}

/// The cartridge as a mathematical value: the header fields and the ROM contents.
pub ghost struct CartState {
    pub head: usize,
    pub PGRSIZE: u8,
    pub CHRSIZE: u8,
    pub mirror: bool,
    pub bat_PRGRAM: bool,
    pub has_trainer: bool,
    pub ignore_mirror: bool,
    pub mapper: Mapper,
    pub unisystem: bool,
    pub playchoice10: bool,
    pub nes2: bool,
    pub region: bool,
    pub trainer: Seq<u8>,
    pub PGR: Seq<u8>,
    pub CHR: Seq<u8>,
}

impl View for iNES {
    type V = CartState;

    open spec fn view(&self) -> CartState {
        CartState {
            head: self.head,
            PGRSIZE: self.PGRSIZE,
            CHRSIZE: self.CHRSIZE,
            mirror: self.mirror,
            bat_PRGRAM: self.bat_PRGRAM,
            has_trainer: self.has_trainer,
            ignore_mirror: self.ignore_mirror,
            mapper: self.mapper,
            unisystem: self.unisystem,
            playchoice10: self.playchoice10,
            nes2: self.nes2,
            region: self.region,
            trainer: self.trainer@,
            PGR: self.PGR@,
            CHR: self.CHR@,
        }
    }
}

/// The magic number "NES\x1a" that opens every iNES file.
pub const INES_MAGIC: usize = 0x4e45531a;

/// Why a byte string is not a cartridge image that the parser can read.
#[derive(Debug, PartialEq, Eq, Structural)]
pub enum InesDefect {
    /// The file ends before a field or a ROM bank that the header announces.
    Truncated,
    /// The first four bytes are not "NES\x1a".
    BadHeader,
    /// The mapper number is not 0, 1 or 2.
    UnknownMapper,
}

/// Whether the first four bytes are "NES\x1a".
pub open spec fn has_magic(rom: Seq<u8>) -> bool {
    rom[0] == 0x4E && rom[1] == 0x45 && rom[2] == 0x53 && rom[3] == 0x1A
}

/// The mapper number as this parser reads it from flags 6 and 7.
pub open spec fn mapper_number(rom: Seq<u8>) -> u8 {
    (rom[7] & 0xF0) | ((rom[6] & 0xF0) >> 4u8)
}

/// Where the program ROM starts: after the 16-byte header and, when flags 6
/// announces one, a 512-byte trainer.
pub open spec fn prg_start(rom: Seq<u8>) -> int {
    16 + if rom[6] & 0x4 != 0 { 512int } else { 0 }
}

/// Where the program ROM ends: `PGRSIZE` banks of 16 KiB.
pub open spec fn prg_end(rom: Seq<u8>) -> int {
    prg_start(rom) + rom[4] * 16384
}

/// Where the character ROM ends: `CHRSIZE` banks of 8 KiB after the program ROM.
pub open spec fn chr_end(rom: Seq<u8>) -> int {
    prg_end(rom) + rom[5] * 8192
}

/// The first defect of `rom`, in the order the parser meets them, or `None`
/// when `rom` is a cartridge it can read.
pub open spec fn ines_defect(rom: Seq<u8>) -> Option<InesDefect> {
    if rom.len() < 4 {
        Some(InesDefect::Truncated)
    } else if !has_magic(rom) {
        Some(InesDefect::BadHeader)
    } else if rom.len() < 8 {
        Some(InesDefect::Truncated)
    } else if mapper_number(rom) > 2 {
        Some(InesDefect::UnknownMapper)
    } else if rom.len() < 10 || rom.len() < chr_end(rom) {
        Some(InesDefect::Truncated)
    } else {
        None
    }
}

/// The cartridge that a well-formed image describes.
pub open spec fn ines_image(rom: Seq<u8>) -> CartState {
    CartState {
        head: INES_MAGIC,
        PGRSIZE: rom[4],
        CHRSIZE: rom[5],
        mirror: (rom[6] & 0x01) != 0,
        bat_PRGRAM: (rom[6] & 0x02) != 0,
        has_trainer: (rom[6] & 0x04) != 0,
        ignore_mirror: (rom[6] & 0x08) != 0,
        mapper: mapper_for(mapper_number(rom)),
        unisystem: (rom[7] & 0x01) != 0,
        playchoice10: (rom[7] & 0x02) != 0,
        nes2: (rom[7] & 0x04) != 0,
        region: (rom[9] & 0x01) != 0,
        trainer: Seq::new(if rom[6] & 0x4 != 0 { 8192nat } else { 0nat }, |i: int| 0u8),
        PGR: rom.subrange(prg_start(rom), prg_end(rom)),
        CHR: rom.subrange(prg_end(rom), chr_end(rom)),
    }
}

/// Finds the first defect of an image, as `ines_defect` orders them.
pub fn check_ines(rom: &Vec<u8>) -> (r: Option<InesDefect>)
    ensures
        r == ines_defect(rom@),
{
    if rom.len() < 4 {
        return Some(InesDefect::Truncated);
    }
    if !(rom[0] == 0x4E && rom[1] == 0x45 && rom[2] == 0x53 && rom[3] == 0x1A) {
        return Some(InesDefect::BadHeader);
    }
    if rom.len() < 8 {
        return Some(InesDefect::Truncated);
    }
    if (rom[7] & 0xF0) | ((rom[6] & 0xF0) >> 4u8) > 2 {
        return Some(InesDefect::UnknownMapper);
    }
    if rom.len() < 10 {
        return Some(InesDefect::Truncated);
    }
    let start: usize = if rom[6] & 0x4 != 0 { 16 + 512 } else { 16 };
    let prg_len: usize = rom[4] as usize * 16384;
    let chr_len: usize = rom[5] as usize * 8192;
    if rom.len() < start || rom.len() - start < prg_len || rom.len() - start - prg_len < chr_len {
        return Some(InesDefect::Truncated);
    }
    None
}

/// A copy of `rom[start..end]`.
fn copy_range(rom: &Vec<u8>, start: usize, end: usize) -> (r: Vec<u8>)
    requires
        start <= end <= rom.len(),
    ensures
        r@ == rom@.subrange(start as int, end as int),
{
    let mut r: Vec<u8> = Vec::new();
    let mut i: usize = start;
    while i < end
        invariant
            start <= i <= end <= rom.len(),
            r@ == rom@.subrange(start as int, i as int),
        decreases end - i,
    {
        r.push(rom[i]);
        i = i + 1;
    }
    r
}

/// Reads the cartridge out of the bytes of an iNES file.
pub fn ines_from_bytes(rom: &Vec<u8>) -> (cart: iNES)
    requires
        ines_defect(rom@) is None,
    ensures
        cart@ == ines_image(rom@),
{
    let start: usize = if rom[6] & 0x4 != 0 { 16 + 512 } else { 16 };
    let prg_end: usize = start + rom[4] as usize * 16384;
    let chr_end: usize = prg_end + rom[5] as usize * 8192;
    let trainer_len: usize = if rom[6] & 0x4 != 0 { 8192 } else { 0 };
    let trainer: Vec<u8> = vec![0; trainer_len];
    assert(trainer@ == ines_image(rom@).trainer);
    let mapper = Mapper::new((rom[7] & 0xF0) | ((rom[6] & 0xF0) >> 4u8));
    iNES {
        head: INES_MAGIC,
        PGRSIZE: rom[4],
        CHRSIZE: rom[5],
        mirror: (rom[6] & 0x01) != 0,
        bat_PRGRAM: (rom[6] & 0x02) != 0,
        has_trainer: (rom[6] & 0x04) != 0,
        ignore_mirror: (rom[6] & 0x08) != 0,
        mapper,
        unisystem: (rom[7] & 0x01) != 0,
        playchoice10: (rom[7] & 0x02) != 0,
        nes2: (rom[7] & 0x04) != 0,
        region: (rom[9] & 0x01) != 0,
        trainer,
        PGR: copy_range(rom, start, prg_end),
        CHR: copy_range(rom, prg_end, chr_end),
    }
}

} // verus!
