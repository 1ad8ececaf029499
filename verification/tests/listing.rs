use nesemu::cartridge::ines_from_bytes;
use nesemu::console::Console;
use nesemu::cpu::CPU;
use nesemu::disasm::{format_line, opcode_name, InstructionToString};

fn console() -> Console {
    let mut rom = vec![0x4E, 0x45, 0x53, 0x1A, 1, 1, 0, 0, 0, 0, 0, 0, 0, 0, 0, 0];
    rom.extend(std::iter::repeat(0u8).take(16384 + 8192));
    let mut c = Console::new(ines_from_bytes(&rom));
    c.CPU.PC = 0x0300;
    c
}

#[test]
fn mnemonics() {
    assert_eq!(opcode_name(0x00), "BRK");
    assert_eq!(opcode_name(0xA9), "LDA");
    assert_eq!(opcode_name(0xEA), "NOP");
    assert_eq!(opcode_name(0xFF), "ISC");
}

#[test]
fn immediate_operand_shows_its_value() {
    let mut c = console();
    c.Memory.ram[0x301] = 0x42;
    assert_eq!(InstructionToString(&mut c, 0xA9), "LDA $0301 (#42)");
}

#[test]
fn implied_instructions_show_the_mnemonic_only() {
    let mut c = console();
    assert_eq!(InstructionToString(&mut c, 0x48), "PHA");
    assert_eq!(InstructionToString(&mut c, 0xE8), "INX");
}

#[test]
fn zero_page_and_absolute_operands() {
    let mut c = console();
    c.Memory.ram[0x301] = 0x10;
    c.Memory.ram[0x10] = 0xAB;
    assert_eq!(InstructionToString(&mut c, 0xA5), "LDA $10 (#AB)");
    c.Memory.ram[0x301] = 0x00;
    c.Memory.ram[0x302] = 0x20;
    assert_eq!(InstructionToString(&mut c, 0x8D), "STA $2000");
}

#[test]
fn branch_targets_are_relative() {
    let mut c = console();
    c.Memory.ram[0x301] = 0x05;
    assert_eq!(InstructionToString(&mut c, 0xD0), "BNE $0307 (#00)");
    c.Memory.ram[0x301] = 0xFC;
    assert_eq!(InstructionToString(&mut c, 0xD0), "BNE $02FE (#00)");
}

#[test]
fn listing_line_format() {
    assert_eq!(format_line("JMP", 0xC000, Some(0x4C)), "JMP $C000 (#4C)");
    assert_eq!(format_line("STA", 0x0F, None), "STA $0F");
}

#[test]
fn register_line() {
    let c = CPU::new();
    assert_eq!(c.to_string(), "A:00 X:00 Y:00 SP:FD P:nvsbdIzc");
    let mut c = CPU::new();
    c.A = 0xAB;
    c.negative = true;
    c.carry = true;
    c.interupt_disable = false;
    assert_eq!(c.to_string(), "A:AB X:00 Y:00 SP:FD P:NvsbdizC");
}
