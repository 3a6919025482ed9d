//! HID reports as the keyboard produces them.

use vstd::prelude::*;

verus! {

#[derive(Clone, Copy, Debug, PartialEq, Eq)]
pub struct KeyboardReport {
    pub modifier: u8,
    pub reserved: u8,
    pub leds: u8,
    pub keycodes: [u8; 6],
}

impl KeyboardReport {
    /// No modifier and no key is pressed.
    pub open spec fn all_up(self) -> bool {
        &&& self.modifier == 0
        &&& self.reserved == 0
        &&& self.leds == 0
        &&& self.keycodes@ == seq![0u8, 0u8, 0u8, 0u8, 0u8, 0u8]
    }
}

impl Default for KeyboardReport {
    fn default() -> (report: KeyboardReport)
        ensures
            report.all_up(),
    {
        let keycodes: [u8; 6] = [0, 0, 0, 0, 0, 0];
        assert(keycodes@ =~= seq![0u8, 0u8, 0u8, 0u8, 0u8, 0u8]);
        KeyboardReport { modifier: 0, reserved: 0, leds: 0, keycodes }
    }
}

/// A relative mouse report in the width of the HID descriptor.
#[derive(Clone, Copy, Debug, PartialEq, Eq, Structural)]
pub struct MouseReport {
    pub buttons: u8,
    pub x: i8,
    pub y: i8,
    pub wheel: i8,
    pub pan: i8,
}

#[derive(Clone, Copy, Debug, PartialEq, Eq, Structural)]
pub struct MediaKeyboardReport {
    pub usage_id: u16,
}

#[derive(Clone, Copy, Debug, PartialEq, Eq, Structural)]
pub struct SystemControlReport {
    pub usage_id: u8,
}

#[derive(Clone, Copy, Debug, PartialEq, Eq)]
pub enum Report {
    KeyboardReport(KeyboardReport),
    MouseReport(MouseReport),
    MediaKeyboardReport(MediaKeyboardReport),
    SystemControlReport(SystemControlReport),
}

} // verus!
