use nesemu::cartridge::{check_ines, ines_from_bytes, InesDefect, INES_MAGIC};
use nesemu::mapper::{read, Mapper};

fn image(prg_banks: u8, chr_banks: u8, flags6: u8, flags7: u8) -> Vec<u8> {
    let mut rom = vec![0x4E, 0x45, 0x53, 0x1A, prg_banks, chr_banks, flags6, flags7, 0, 1, 0, 0, 0, 0, 0, 0];
    let trainer = if flags6 & 0x04 != 0 { 512 } else { 0 };
    for i in 0..(trainer + prg_banks as usize * 16384 + chr_banks as usize * 8192) {
        rom.push((i % 251) as u8);
    }
    rom
}

#[test]
fn parses_an_nrom_image() {
    let rom = image(1, 1, 0x01, 0x00);
    assert_eq!(check_ines(&rom), None);
    let cart = ines_from_bytes(&rom);
    assert_eq!(cart.head, INES_MAGIC);
    assert_eq!(cart.PGRSIZE, 1);
    assert_eq!(cart.CHRSIZE, 1);
    assert!(cart.mirror);
    assert!(!cart.has_trainer);
    assert!(cart.region);
    assert!(matches!(cart.mapper, Mapper::Map1));
    assert_eq!(cart.PGR.len(), 16384);
    assert_eq!(cart.CHR.len(), 8192);
    assert_eq!(cart.PGR[0], 0);
    assert_eq!(cart.PGR[300], (300 % 251) as u8);
    assert_eq!(cart.CHR[0], (16384 % 251) as u8);
    assert_eq!(cart.trainer.len(), 0);
}

#[test]
fn trainer_moves_the_rom_and_is_cleared() {
    let rom = image(1, 1, 0x04, 0x00);
    let cart = ines_from_bytes(&rom);
    assert!(cart.has_trainer);
    assert_eq!(cart.trainer.len(), 8192);
    assert!(cart.trainer.iter().all(|b| *b == 0));
    assert_eq!(cart.PGR[0], (512 % 251) as u8);
}

#[test]
fn mapper_number_combines_both_flag_bytes() {
    let rom = image(1, 1, 0x10, 0x00);
    let cart = ines_from_bytes(&rom);
    assert!(matches!(cart.mapper, Mapper::Map2(_)));
    let rom = image(1, 1, 0x20, 0x00);
    let cart = ines_from_bytes(&rom);
    assert!(matches!(cart.mapper, Mapper::Map3(_)));
}

#[test]
fn defects_are_reported_in_order() {
    assert_eq!(check_ines(&vec![0x4E, 0x45]), Some(InesDefect::Truncated));
    assert_eq!(check_ines(&vec![0, 0, 0, 0, 1, 1, 0, 0, 0, 0]), Some(InesDefect::BadHeader));
    assert_eq!(check_ines(&vec![0x4E, 0x45, 0x53, 0x1A, 1]), Some(InesDefect::Truncated));
    assert_eq!(check_ines(&image(1, 1, 0x30, 0x00)), Some(InesDefect::UnknownMapper));
    assert_eq!(check_ines(&image(1, 1, 0x00, 0x10)), Some(InesDefect::UnknownMapper));
    let mut short = image(1, 1, 0, 0);
    short.pop();
    assert_eq!(check_ines(&short), Some(InesDefect::Truncated));
}

#[test]
fn nrom_reads_mirror_a_single_bank() {
    let rom = image(1, 1, 0, 0);
    let cart = ines_from_bytes(&rom);
    assert_eq!(read(&cart, 0x6000), 0);
    assert_eq!(read(&cart, 0x8005), cart.PGR[5]);
    assert_eq!(read(&cart, 0xC005), cart.PGR[5]);
    assert_eq!(read(&cart, 0xFFFE), cart.PGR[0x3FFE]);
}

#[test]
fn nrom_reads_the_second_bank_above_c000() {
    let rom = image(2, 1, 0, 0);
    let cart = ines_from_bytes(&rom);
    assert_eq!(read(&cart, 0x8005), cart.PGR[5]);
    assert_eq!(read(&cart, 0xC005), cart.PGR[0x4005]);
}

#[test]
fn mapper_one_reads_zero() {
    let rom = image(1, 1, 0x10, 0);
    let cart = ines_from_bytes(&rom);
    assert_eq!(read(&cart, 0x0100), 0);
    assert_eq!(read(&cart, 0x9000), 0);
}

#[test]
fn mapper_constructor() {
    assert!(matches!(Mapper::new(0), Mapper::Map1));
    assert!(matches!(Mapper::new(1), Mapper::Map2(_)));
    assert!(matches!(Mapper::new(2), Mapper::Map3(_)));
}
