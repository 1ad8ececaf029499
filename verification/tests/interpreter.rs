use nesemu::cartridge::ines_from_bytes;
use nesemu::console::Console;
use nesemu::interrupt::{nmi_pending, service_nmi};
use nesemu::opcodes::{decode, interpret_opcode, Condition, Op, CYCLE_COUNT};

fn console() -> Console {
    let mut rom = vec![0x4E, 0x45, 0x53, 0x1A, 1, 1, 0, 0, 0, 0, 0, 0, 0, 0, 0, 0];
    let mut prg = vec![0u8; 16384];
    prg[0x3FFA] = 0x34;
    prg[0x3FFB] = 0x12;
    rom.extend_from_slice(&prg);
    rom.extend(std::iter::repeat(0u8).take(8192));
    let mut c = Console::new(ines_from_bytes(&rom));
    c.CPU.PC = 0x0300;
    c
}

/// Places `bytes` at $0300 and runs the first byte as an opcode.
fn run(c: &mut Console, bytes: &[u8]) {
    for (i, b) in bytes.iter().enumerate() {
        c.Memory.ram[0x300 + i] = *b;
    }
    interpret_opcode(c, bytes[0]);
}

#[test]
fn lda_immediate_and_cycle_count() {
    let mut c = console();
    run(&mut c, &[0xA9, 0x42]);
    assert_eq!(c.CPU.A, 0x42);
    assert_eq!(c.CPU.PC, 0x0301);
    assert_eq!(c.CPU.pause, CYCLE_COUNT[0xA9] - 1);
    // The remaining cycle only moves PC on.
    interpret_opcode(&mut c, 0x00);
    assert_eq!(c.CPU.pause, 0);
    assert_eq!(c.CPU.PC, 0x0302);
    assert_eq!(c.CPU.A, 0x42);
}

#[test]
fn ora_and_eor_set_n_and_z() {
    let mut c = console();
    c.CPU.A = 0x0F;
    run(&mut c, &[0x09, 0xF0]);
    assert_eq!(c.CPU.A, 0xFF);
    assert!(c.CPU.negative);
    assert!(!c.CPU.zero);
    let mut c = console();
    c.CPU.A = 0x3C;
    run(&mut c, &[0x49, 0x3C]);
    assert_eq!(c.CPU.A, 0);
    assert!(c.CPU.zero);
    let mut c = console();
    c.CPU.A = 0xF0;
    run(&mut c, &[0x29, 0x3C]);
    assert_eq!(c.CPU.A, 0x30);
}

#[test]
fn adc_carries_out_and_ignores_carry_in() {
    let mut c = console();
    c.CPU.A = 0xF0;
    c.CPU.carry = true;
    run(&mut c, &[0x69, 0x20]);
    assert_eq!(c.CPU.A, 0x10);
    assert!(c.CPU.carry);
    assert!(!c.CPU.overflow);
    assert!(!c.CPU.zero);
    let mut c = console();
    c.CPU.A = 0x40;
    run(&mut c, &[0x69, 0x40]);
    assert_eq!(c.CPU.A, 0x80);
    assert!(c.CPU.negative);
    assert!(!c.CPU.carry);
}

#[test]
fn sbc_borrows() {
    let mut c = console();
    c.CPU.A = 0x10;
    run(&mut c, &[0xE9, 0x20]);
    assert_eq!(c.CPU.A, 0xF0);
    assert!(!c.CPU.carry);
    assert!(c.CPU.negative);
    let mut c = console();
    c.CPU.A = 0x20;
    run(&mut c, &[0xE9, 0x20]);
    assert_eq!(c.CPU.A, 0x00);
    assert!(c.CPU.carry);
    assert!(!c.CPU.zero);
}

#[test]
fn compares() {
    let mut c = console();
    c.CPU.A = 0x30;
    run(&mut c, &[0xC9, 0x30]);
    assert!(c.CPU.zero && c.CPU.carry && !c.CPU.negative);
    // CPX and CPY with `bbb == 000` take their operand from address 0.
    let mut c = console();
    c.CPU.X = 0x10;
    c.Memory.ram[0] = 0x20;
    run(&mut c, &[0xE0, 0x20]);
    assert!(!c.CPU.zero && !c.CPU.carry && c.CPU.negative);
    let mut c = console();
    c.CPU.Y = 0x05;
    c.Memory.ram[0] = 0x01;
    run(&mut c, &[0xC0, 0x01]);
    assert!(!c.CPU.zero && c.CPU.carry && !c.CPU.negative);
}

#[test]
fn asl_accumulator() {
    let mut c = console();
    c.CPU.A = 0b1100_0001;
    run(&mut c, &[0x0A]);
    assert_eq!(c.CPU.A, 0b1000_0010);
    assert!(c.CPU.carry);
    assert!(c.CPU.negative);
}

#[test]
fn asl_and_dec_in_memory() {
    let mut c = console();
    c.Memory.ram[0x40] = 0x81;
    // ASL $0040
    run(&mut c, &[0x0E, 0x40, 0x00]);
    assert_eq!(c.Memory.ram[0x40], 0x02);
    assert!(c.CPU.carry);
    let mut c = console();
    c.Memory.ram[0x40] = 0x01;
    run(&mut c, &[0xCE, 0x40, 0x00]);
    assert_eq!(c.Memory.ram[0x40], 0x00);
    assert!(c.CPU.zero);
}

#[test]
fn bit_test_flags() {
    let mut c = console();
    c.CPU.A = 0xFF;
    c.Memory.ram[0x44] = 0xC0;
    run(&mut c, &[0x2C, 0x44, 0x00]);
    assert!(c.CPU.negative && c.CPU.overflow && !c.CPU.zero);
}

#[test]
fn dex_and_flag_instructions() {
    let mut c = console();
    c.CPU.X = 1;
    c.CPU.carry = true;
    c.CPU.overflow = true;
    run(&mut c, &[0xCA]);
    assert_eq!(c.CPU.X, 0);
    assert!(c.CPU.zero);
    c.CPU.pause = 0;
    interpret_opcode(&mut c, 0x18);
    assert!(!c.CPU.carry);
    c.CPU.pause = 0;
    interpret_opcode(&mut c, 0xB8);
    assert!(!c.CPU.overflow);
    c.CPU.pause = 0;
    interpret_opcode(&mut c, 0x58);
    assert!(!c.CPU.interupt_disable);
}

#[test]
fn jmp_absolute_lands_one_past_the_target() {
    let mut c = console();
    run(&mut c, &[0x4C, 0x00, 0x05]);
    assert_eq!(c.CPU.PC, 0x0501);
}

#[test]
fn stack_pushes_at_sp() {
    let mut c = console();
    c.CPU.A = 0x77;
    let sp = c.CPU.SP;
    run(&mut c, &[0x48]);
    assert_eq!(c.Memory.ram[sp as usize], 0x77);
    assert_eq!(c.CPU.SP, sp - 1);
    c.CPU.pause = 0;
    c.CPU.carry = true;
    c.CPU.negative = true;
    interpret_opcode(&mut c, 0x08);
    assert_eq!(c.Memory.ram[(sp - 1) as usize], 0x85);
    c.CPU.carry = false;
    c.CPU.negative = false;
    c.CPU.pause = 0;
    interpret_opcode(&mut c, 0x28);
    assert!(c.CPU.carry && c.CPU.negative && c.CPU.interupt_disable);
    assert_eq!(c.CPU.SP, sp - 1);
}

#[test]
fn taken_branch_adds_the_byte_at_zero() {
    let mut c = console();
    c.Memory.ram[0] = 0x10;
    c.CPU.zero = false;
    run(&mut c, &[0xD0, 0x7F]);
    assert_eq!(c.CPU.PC, 0x0310);
    let mut c = console();
    c.CPU.zero = true;
    run(&mut c, &[0xD0, 0x7F]);
    assert_eq!(c.CPU.PC, 0x0301);
}

#[test]
fn page_crossing_adds_a_cycle() {
    let mut c = console();
    c.CPU.Y = 0x20;
    c.Memory.ram[0x05F0] = 0x66;
    // LDA $05E0,Y
    run(&mut c, &[0xB9, 0xE0, 0x05]);
    assert_eq!(c.CPU.A, 0x00);
    assert_eq!(c.CPU.pause, CYCLE_COUNT[0xB9]);
    let mut c = console();
    c.CPU.Y = 0x10;
    c.Memory.ram[0x05F0] = 0x66;
    run(&mut c, &[0xB9, 0xE0, 0x05]);
    assert_eq!(c.CPU.A, 0x66);
    assert_eq!(c.CPU.pause, CYCLE_COUNT[0xB9] - 1);
}

#[test]
fn unimplemented_opcodes_only_move_pc() {
    let mut c = console();
    c.CPU.A = 0x12;
    run(&mut c, &[0xAA]);
    assert_eq!(c.CPU.X, 0);
    assert_eq!(c.CPU.PC, 0x0301);
}

#[test]
fn decoder_groups() {
    assert_eq!(decode(0x00), Op::Brk);
    assert_eq!(decode(0x6D), Op::Adc);
    assert_eq!(decode(0xF0), Op::Branch(Condition::Equal));
    assert_eq!(decode(0x12), Op::Stp);
    assert_eq!(decode(0xEA), Op::NoEffect);
    assert_eq!(decode(0x8D), Op::NoEffect);
}

#[test]
fn nmi_entry_pushes_and_jumps_to_the_vector() {
    let mut c = console();
    c.CPU.PC = 0x8123;
    c.CPU.SP = 0xFD;
    c.CPU.carry = true;
    c.CPU.interupt_disable = false;
    c.PPU.nmi_enable = true;
    c.PPU.nmi_occured = true;
    c.PPU.scanline = 241;
    c.PPU.cycle = 2;
    assert!(nmi_pending(&c));
    service_nmi(&mut c);
    assert_eq!(c.Memory.ram[0x1FC], 0x81);
    assert_eq!(c.Memory.ram[0x1FB], 0x23);
    assert_eq!(c.Memory.ram[0x1FA], 0x01);
    assert_eq!(c.CPU.SP, 0xFA);
    assert!(c.CPU.interupt_disable);
    assert_eq!(c.CPU.PC, 0x1234);
    c.PPU.cycle = 3;
    assert!(!nmi_pending(&c));
}
