//! Cartridge mappers: how the CPU address space from $6000 up reaches the
//! cartridge's program ROM.

use vstd::prelude::*;
use crate::cartridge::{iNES, CartState};

verus! {

/// Mapper 1 state (no registers are modelled yet).
#[derive(Debug)]
pub struct MMC1 {}

/// Mapper 2 state (no registers are modelled yet).
#[derive(Debug)]
pub struct UxROM {}

/// The mapper that an iNES header selects: 0 (NROM), 1 or 2.
#[derive(Debug)]
pub enum Mapper {
    Map1,
    Map2(MMC1),
    Map3(UxROM),
}

/// The mapper for a mapper number, where the number is one of the three known.
pub open spec fn mapper_for(mapper_type: u8) -> Mapper
    recommends
        mapper_type <= 2,
{
    if mapper_type == 0 {
        Mapper::Map1
    } else if mapper_type == 1 {
        Mapper::Map2(MMC1 {  })
    } else {
        Mapper::Map3(UxROM {  })
    }
}

impl Mapper {
    /// Mapper numbers above 2 are unknown; the constructor is not defined on them.
    pub fn new(mapper_type: u8) -> (r: Mapper)
        requires
            mapper_type <= 2,
        ensures
            r == mapper_for(mapper_type),
    {
        if mapper_type == 0 {
            Mapper::Map1
        } else if mapper_type == 1 {
            Mapper::Map2(MMC1 {  })
        } else {
            Mapper::Map3(UxROM {  })
        }
    }
}

/// Index into the program ROM that an NROM read of `index` in $C000..$FFFE uses:
/// the first 16 KiB bank mirrored when the cartridge has one bank, the second bank otherwise.
pub open spec fn nrom_upper_offset(c: CartState, index: u16) -> int {
    if c.PGRSIZE == 1 {
        (index % 0x4000) as int
    } else {
        (index % 0x4000 + 0x4000) as int
    }
}

/// What a CPU read of `index` through the cartridge gives, or `None` where the
/// read is not defined (an address the mapper does not decode, a ROM index past
/// the end of the program data, or an unimplemented mapper).
pub open spec fn cart_read(c: CartState, index: u16) -> Option<u8> {
    match c.mapper {
        Mapper::Map1 => {
            if 0x6000 <= index < 0x8000 {
                Some(0u8)
            } else if 0x8000 <= index < 0xC000 {
                if ((index % 0x4000) as int) < c.PGR.len() {
                    Some(c.PGR[(index % 0x4000) as int])
                } else {
                    None
                }
            } else if 0xC000 <= index < 0xFFFF {
                if nrom_upper_offset(c, index) < c.PGR.len() {
                    Some(c.PGR[nrom_upper_offset(c, index)])
                } else {
                    None
                }
            } else {
                None
            }
        },
        Mapper::Map2(_) => {
            if index < 0x2000 || 0x6000 <= index < 0xFFFF {
                Some(0u8)
            } else {
                None
            }
        },
        Mapper::Map3(_) => None,
    }
}

/// Reads a byte of the cartridge as the CPU sees it at `index`.
pub fn read(cart: &iNES, index: u16) -> (r: u8)
    requires
        cart_read(cart@, index) is Some,
    ensures
        cart_read(cart@, index) == Some(r),
{
    match &cart.mapper {
        Mapper::Map1 => {
            if index >= 0x6000 && index < 0x8000 {
                0
            } else if index >= 0x8000 && index < 0xC000 {
                cart.PGR[(index % 0x4000) as usize]
            } else {
                if cart.PGRSIZE == 1 {
                    cart.PGR[(index % 0x4000) as usize]
                } else {
                    cart.PGR[(index % 0x4000 + 0x4000) as usize]
                }
            }
        },
        Mapper::Map2(_) => 0,
        Mapper::Map3(_) => 0,
    }
}

/// Tells whether a CPU read of `index` through the cartridge is defined.
pub fn readable(cart: &iNES, index: u16) -> (r: bool)
    ensures
        r == (cart_read(cart@, index) is Some),
{
    match &cart.mapper {
        Mapper::Map1 => {
            if index >= 0x6000 && index < 0x8000 {
                true
            } else if index >= 0x8000 && index < 0xC000 {
                ((index % 0x4000) as usize) < cart.PGR.len()
            } else if index >= 0xC000 && index < 0xFFFF {
                if cart.PGRSIZE == 1 {
                    ((index % 0x4000) as usize) < cart.PGR.len()
                } else {
                    ((index % 0x4000 + 0x4000) as usize) < cart.PGR.len()
                }
            } else {
                false
            }
        },
        Mapper::Map2(_) => index < 0x2000 || (index >= 0x6000 && index < 0xFFFF),
        Mapper::Map3(_) => false,
    }
}

} // verus!
