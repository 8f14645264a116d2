//! HID usage codes of the keys that the keymaps use, from the keyboard page of the USB HID usage
//! tables.

use vstd::prelude::*;

verus! {

/// No key.
pub const HID_KEY_NONE: u8 = 0x00;

/// The letter A.
pub const HID_KEY_A: u8 = 0x04;

/// The letter B.
pub const HID_KEY_B: u8 = 0x05;

/// The letter C.
pub const HID_KEY_C: u8 = 0x06;

/// The letter D.
pub const HID_KEY_D: u8 = 0x07;

/// The letter E.
pub const HID_KEY_E: u8 = 0x08;

/// The letter F.
pub const HID_KEY_F: u8 = 0x09;

/// The letter G.
pub const HID_KEY_G: u8 = 0x0A;

/// The letter H.
pub const HID_KEY_H: u8 = 0x0B;

/// The letter I.
pub const HID_KEY_I: u8 = 0x0C;

/// The letter J.
pub const HID_KEY_J: u8 = 0x0D;

/// The letter K.
pub const HID_KEY_K: u8 = 0x0E;

/// The letter L.
pub const HID_KEY_L: u8 = 0x0F;

/// The letter M.
pub const HID_KEY_M: u8 = 0x10;

/// The letter N.
pub const HID_KEY_N: u8 = 0x11;

/// The letter O.
pub const HID_KEY_O: u8 = 0x12;

/// The letter P.
pub const HID_KEY_P: u8 = 0x13;

/// The letter Q.
pub const HID_KEY_Q: u8 = 0x14;

/// The letter R.
pub const HID_KEY_R: u8 = 0x15;

/// The letter S.
pub const HID_KEY_S: u8 = 0x16;

/// The letter T.
pub const HID_KEY_T: u8 = 0x17;

/// The letter U.
pub const HID_KEY_U: u8 = 0x18;

/// The letter V.
pub const HID_KEY_V: u8 = 0x19;

/// The letter W.
pub const HID_KEY_W: u8 = 0x1A;

/// The letter X.
pub const HID_KEY_X: u8 = 0x1B;

/// The letter Y.
pub const HID_KEY_Y: u8 = 0x1C;

/// The letter Z.
pub const HID_KEY_Z: u8 = 0x1D;

/// The digit 1.
pub const HID_KEY_1: u8 = 0x1E;

/// The digit 2.
pub const HID_KEY_2: u8 = 0x1F;

/// The digit 3.
pub const HID_KEY_3: u8 = 0x20;

/// The digit 4.
pub const HID_KEY_4: u8 = 0x21;

/// The digit 5.
pub const HID_KEY_5: u8 = 0x22;

/// The digit 6.
pub const HID_KEY_6: u8 = 0x23;

/// The digit 7.
pub const HID_KEY_7: u8 = 0x24;

/// The digit 8.
pub const HID_KEY_8: u8 = 0x25;

/// The digit 9.
pub const HID_KEY_9: u8 = 0x26;

/// The digit 0.
pub const HID_KEY_0: u8 = 0x27;

/// Enter.
pub const HID_KEY_ENTER: u8 = 0x28;

/// Escape.
pub const HID_KEY_ESCAPE: u8 = 0x29;

/// Backspace.
pub const HID_KEY_BACKSPACE: u8 = 0x2A;

/// Tab.
pub const HID_KEY_TAB: u8 = 0x2B;

/// The space bar.
pub const HID_KEY_SPACE: u8 = 0x2C;

/// Minus and underscore.
pub const HID_KEY_MINUS: u8 = 0x2D;

/// Equals and plus.
pub const HID_KEY_EQUAL: u8 = 0x2E;

/// Left bracket and left brace.
pub const HID_KEY_BRACKET_LEFT: u8 = 0x2F;

/// Right bracket and right brace.
pub const HID_KEY_BRACKET_RIGHT: u8 = 0x30;

/// Backslash and vertical bar.
pub const HID_KEY_BACKSLASH: u8 = 0x31;

/// Semicolon and colon.
pub const HID_KEY_SEMICOLON: u8 = 0x33;

/// Apostrophe and quotation mark.
pub const HID_KEY_APOSTROPHE: u8 = 0x34;

/// Grave accent and tilde.
pub const HID_KEY_GRAVE: u8 = 0x35;

/// Comma and less-than.
pub const HID_KEY_COMMA: u8 = 0x36;

/// Period and greater-than.
pub const HID_KEY_PERIOD: u8 = 0x37;

/// Slash and question mark.
pub const HID_KEY_SLASH: u8 = 0x38;

/// Print screen.
pub const HID_KEY_PRINT_SCREEN: u8 = 0x46;

/// Home.
pub const HID_KEY_HOME: u8 = 0x4A;

/// End.
pub const HID_KEY_END: u8 = 0x4D;

/// Right arrow.
pub const HID_KEY_ARROW_RIGHT: u8 = 0x4F;

/// Left arrow.
pub const HID_KEY_ARROW_LEFT: u8 = 0x50;

/// Down arrow.
pub const HID_KEY_ARROW_DOWN: u8 = 0x51;

/// Up arrow.
pub const HID_KEY_ARROW_UP: u8 = 0x52;

/// Left control.
pub const HID_KEY_CONTROL_LEFT: u8 = 0xE0;

/// Left shift.
pub const HID_KEY_SHIFT_LEFT: u8 = 0xE1;

/// Left alt.
pub const HID_KEY_ALT_LEFT: u8 = 0xE2;

/// Left GUI key.
pub const HID_KEY_GUI_LEFT: u8 = 0xE3;

} // verus!
