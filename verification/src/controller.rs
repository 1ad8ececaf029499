//! A standard joypad: the buttons currently held and the shift register the
//! CPU reads them through.

use vstd::prelude::*;

verus! {

#[derive(Debug)]
pub struct Controller {
    pub Buttons: u8,
    pub shiftreg: u8,
}

impl Controller {
    pub fn new() -> (r: Controller)
        ensures
            r.Buttons == 0,
            r.shiftreg == 0,
    {
        Controller { shiftreg: 0x0, Buttons: 0x0 }
    }

    /// Marks the buttons in `mask` as held.
    pub fn press(&mut self, mask: u8)
        ensures
            final(self).Buttons == old(self).Buttons | mask,
            final(self).shiftreg == old(self).shiftreg,
    {
        self.Buttons = self.Buttons | mask;
    }

    /// Marks the buttons in `mask` as released.
    pub fn release(&mut self, mask: u8)
        ensures
            final(self).Buttons == old(self).Buttons & !mask,
            final(self).shiftreg == old(self).shiftreg,
    {
        self.Buttons = self.Buttons & !mask;
    }

    /// Loads the held buttons into the shift register, as the strobe does.
    pub fn latch(&mut self)
        ensures
            final(self).shiftreg == old(self).Buttons,
            final(self).Buttons == old(self).Buttons,
    {
        self.shiftreg = self.Buttons;
    }
}

/// The bit of the Start button.
pub const BUTTON_START: u8 = 0b00001000;

/// The bit of the Down button.
pub const BUTTON_DOWN: u8 = 0b00100000;

} // verus!
