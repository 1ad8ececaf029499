#![allow(non_snake_case, non_camel_case_types)]

pub mod apu;
pub mod controller;
pub mod cpu;
pub mod cartridge;
pub mod mapper;
pub mod ppu;
pub mod console;
pub mod memory;
pub mod opcodes;
pub mod interrupt;
pub mod simple_memory;
pub mod disasm;
pub mod laws;
pub mod machine;
pub mod meaning;
