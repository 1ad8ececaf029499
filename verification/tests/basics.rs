use nesemu::apu::APU;
use nesemu::controller::{Controller, BUTTON_DOWN, BUTTON_START};
use nesemu::cpu::CPU;

#[test]
fn cpu_power_on_state() {
    let c = CPU::new();
    assert_eq!(c.PC, 0xFFFF);
    assert_eq!(c.SP, 0xFD);
    assert!(c.interupt_disable);
    assert_eq!(c.status(), 0x04);
}

#[test]
fn controller_press_release_latch() {
    let mut pad = Controller::new();
    pad.press(BUTTON_DOWN);
    pad.press(BUTTON_START);
    assert_eq!(pad.Buttons, 0b00101000);
    pad.latch();
    assert_eq!(pad.shiftreg, 0b00101000);
    pad.release(BUTTON_DOWN);
    assert_eq!(pad.Buttons, 0b00001000);
    assert_eq!(pad.shiftreg, 0b00101000);
}

#[test]
fn apu_power_on_state() {
    let a = APU::new();
    assert!(!a.pulse1_en);
    assert_eq!(a.Pulse1.timer, 0);
}
