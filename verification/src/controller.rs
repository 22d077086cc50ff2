//! Shift-register model of a game pad: eight button bits, a read index and a
//! strobe latch. While the strobe is asserted the pad keeps reporting the A
//! button; after the strobe drops, successive reads shift the eight buttons
//! out most-significant bit first, then report 1.

use vstd::prelude::*;

verus! {

pub const BUTTON_A: u8 = 0x80;
pub const BUTTON_B: u8 = 0x40;
pub const BUTTON_SELECT: u8 = 0x20;
pub const BUTTON_START: u8 = 0x10;
pub const BUTTON_UP: u8 = 0x08;
pub const BUTTON_DOWN: u8 = 0x04;
pub const BUTTON_LEFT: u8 = 0x02;
pub const BUTTON_RIGHT: u8 = 0x01;

#[derive(Clone, Copy, PartialEq, Eq, Structural, Debug)]
pub struct Controller {
    /// Bitmask of the buttons currently held, A in bit 7 down to Right in bit 0.
    pub buttons: u8,
    /// Which button the next read reports, 0 (A) through 7 (Right); 8 once the
    /// register has been emptied.
    pub index: u8,
    /// Last strobe byte written; only bit 0 matters.
    pub strobe: u8,
}

/// The byte a read returns: the selected button bit in bit 0, bit 6 forced
/// high as the open bus leaves it.
pub open spec fn read_value_spec(c: Controller) -> u8 {
    if c.strobe & 1 == 1 {
        ((c.buttons >> 7) & 1) | 0x40
    } else if c.index < 8 {
        ((c.buttons >> ((7 - c.index) as u8)) & 1) | 0x40
    } else {
        1u8 | 0x40
    }
}

/// The pad state after a read: the index steps past the reported button
/// unless the strobe holds it at A or the register is already empty.
pub open spec fn read_next_spec(c: Controller) -> Controller {
    if c.strobe & 1 == 1 || c.index >= 8 {
        c
    } else {
        Controller { index: (c.index + 1) as u8, ..c }
    }
}

/// The pad state after a strobe write: bit 0 set latches the index back to A.
pub open spec fn write_spec(c: Controller, data: u8) -> Controller {
    if data & 1 == 1 {
        Controller { strobe: data, index: 0, ..c }
    } else {
        Controller { strobe: data, ..c }
    }
}

/// The button mask after the host presses or releases one button.
pub open spec fn set_button_spec(c: Controller, mask: u8, pressed: bool) -> Controller {
    if pressed {
        Controller { buttons: c.buttons | mask, ..c }
    } else {
        Controller { buttons: c.buttons & !mask, ..c }
    }
}

impl Controller {
    pub fn new() -> (r: Controller)
        ensures
            r == (Controller { buttons: 0, index: 0, strobe: 0 }),
    {
        Controller { buttons: 0, index: 0, strobe: 0 }
    }

    /// Latch a strobe byte; an asserted strobe resets the read index.
    pub fn write(&mut self, data: u8)
        ensures
            *final(self) == write_spec(*old(self), data),
    {
        self.strobe = data;
        if self.strobe & 1 == 1 {
            self.index = 0;
        }
    }

    /// Report the next button bit and advance the index.
    pub fn read(&mut self) -> (r: u8)
        ensures
            r == read_value_spec(*old(self)),
            *final(self) == read_next_spec(*old(self)),
    {
        let value: u8;
        if self.strobe & 1 == 1 {
            value = (self.buttons >> 7) & 1;
        } else if self.index < 8 {
            value = (self.buttons >> (7 - self.index)) & 1;
            self.index = self.index + 1;
        } else {
            value = 1;
        }
        value | 0x40
    }

    /// Host-driven update of one button; idempotent.
    pub fn set_button(&mut self, button_mask: u8, pressed: bool)
        ensures
            *final(self) == set_button_spec(*old(self), button_mask, pressed),
    {
        if pressed {
            self.buttons = self.buttons | button_mask;
        } else {
            self.buttons = self.buttons & !button_mask;
        }
    }
}

} // verus!
