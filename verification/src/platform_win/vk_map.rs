//! Windows virtual-key codes and their engine key codes; modifier state.

use vstd::prelude::*;
use crate::vietnamese::spec_key_code_to_character;
use crate::keycode::{KEY_0, KEY_1, KEY_2, KEY_3, KEY_4, KEY_5, KEY_6, KEY_7, KEY_8, KEY_9, KEY_A, KEY_B, KEY_BACKQUOTE, KEY_BACK_SLASH, KEY_C, KEY_COMMA, KEY_D, KEY_DELETE, KEY_DOT, KEY_DOWN, KEY_E, KEY_ENTER, KEY_EQUALS, KEY_ESC, KEY_F, KEY_G, KEY_H, KEY_I, KEY_J, KEY_K, KEY_L, KEY_LEFT, KEY_LEFT_BRACKET, KEY_M, KEY_MINUS, KEY_N, KEY_O, KEY_P, KEY_Q, KEY_QUOTE, KEY_R, KEY_RIGHT, KEY_RIGHT_BRACKET, KEY_S, KEY_SEMICOLON, KEY_SLASH, KEY_SPACE, KEY_T, KEY_TAB, KEY_U, KEY_UP, KEY_V, KEY_W, KEY_X, KEY_Y, KEY_Z};

verus! {

// Windows virtual-key codes.
pub const VK_BACK: u32 = 0x08;
pub const VK_TAB: u32 = 0x09;
pub const VK_RETURN: u32 = 0x0D;
pub const VK_SHIFT: u32 = 0x10;
pub const VK_CONTROL: u32 = 0x11;
/// Alt
pub const VK_MENU: u32 = 0x12;
/// Caps Lock
pub const VK_CAPITAL: u32 = 0x14;
pub const VK_ESCAPE: u32 = 0x1B;
pub const VK_SPACE: u32 = 0x20;
/// Page Up
pub const VK_PRIOR: u32 = 0x21;
/// Page Down
pub const VK_NEXT: u32 = 0x22;
pub const VK_END: u32 = 0x23;
pub const VK_HOME: u32 = 0x24;
pub const VK_LEFT: u32 = 0x25;
pub const VK_UP: u32 = 0x26;
pub const VK_RIGHT: u32 = 0x27;
pub const VK_DOWN: u32 = 0x28;
pub const VK_DELETE: u32 = 0x2E;
pub const VK_LSHIFT: u32 = 0xA0;
pub const VK_RSHIFT: u32 = 0xA1;
pub const VK_LCONTROL: u32 = 0xA2;
pub const VK_RCONTROL: u32 = 0xA3;
/// ';:'
pub const VK_OEM_1: u32 = 0xBA;
/// '=+'
pub const VK_OEM_PLUS: u32 = 0xBB;
/// ',<'
pub const VK_OEM_COMMA: u32 = 0xBC;
/// '-_'
pub const VK_OEM_MINUS: u32 = 0xBD;
/// '.>'
pub const VK_OEM_PERIOD: u32 = 0xBE;
/// '/?'
pub const VK_OEM_2: u32 = 0xBF;
/// '`~'
pub const VK_OEM_3: u32 = 0xC0;
/// '[{'
pub const VK_OEM_4: u32 = 0xDB;
/// '\|'
pub const VK_OEM_5: u32 = 0xDC;
/// ']}'
pub const VK_OEM_6: u32 = 0xDD;
/// '\''"
pub const VK_OEM_7: u32 = 0xDE;

/// The engine key of a virtual-key code: letters, digits, the editing and
/// navigation keys and the punctuation (OEM) keys.
pub open spec fn spec_vk_to_logical_key(vk: u32) -> Option<u16> {
    if vk == 0x41 { Some(KEY_A) }
    else if vk == 0x42 { Some(KEY_B) }
    else if vk == 0x43 { Some(KEY_C) }
    else if vk == 0x44 { Some(KEY_D) }
    else if vk == 0x45 { Some(KEY_E) }
    else if vk == 0x46 { Some(KEY_F) }
    else if vk == 0x47 { Some(KEY_G) }
    else if vk == 0x48 { Some(KEY_H) }
    else if vk == 0x49 { Some(KEY_I) }
    else if vk == 0x4A { Some(KEY_J) }
    else if vk == 0x4B { Some(KEY_K) }
    else if vk == 0x4C { Some(KEY_L) }
    else if vk == 0x4D { Some(KEY_M) }
    else if vk == 0x4E { Some(KEY_N) }
    else if vk == 0x4F { Some(KEY_O) }
    else if vk == 0x50 { Some(KEY_P) }
    else if vk == 0x51 { Some(KEY_Q) }
    else if vk == 0x52 { Some(KEY_R) }
    else if vk == 0x53 { Some(KEY_S) }
    else if vk == 0x54 { Some(KEY_T) }
    else if vk == 0x55 { Some(KEY_U) }
    else if vk == 0x56 { Some(KEY_V) }
    else if vk == 0x57 { Some(KEY_W) }
    else if vk == 0x58 { Some(KEY_X) }
    else if vk == 0x59 { Some(KEY_Y) }
    else if vk == 0x5A { Some(KEY_Z) }
    else if vk == 0x30 { Some(KEY_0) }
    else if vk == 0x31 { Some(KEY_1) }
    else if vk == 0x32 { Some(KEY_2) }
    else if vk == 0x33 { Some(KEY_3) }
    else if vk == 0x34 { Some(KEY_4) }
    else if vk == 0x35 { Some(KEY_5) }
    else if vk == 0x36 { Some(KEY_6) }
    else if vk == 0x37 { Some(KEY_7) }
    else if vk == 0x38 { Some(KEY_8) }
    else if vk == 0x39 { Some(KEY_9) }
    else if vk == VK_BACK { Some(KEY_DELETE) }
    else if vk == VK_TAB { Some(KEY_TAB) }
    else if vk == VK_RETURN { Some(KEY_ENTER) }
    else if vk == VK_ESCAPE { Some(KEY_ESC) }
    else if vk == VK_SPACE { Some(KEY_SPACE) }
    else if vk == VK_LEFT { Some(KEY_LEFT) }
    else if vk == VK_UP { Some(KEY_UP) }
    else if vk == VK_RIGHT { Some(KEY_RIGHT) }
    else if vk == VK_DOWN { Some(KEY_DOWN) }
    else if vk == VK_OEM_1 { Some(KEY_SEMICOLON) }
    else if vk == VK_OEM_PLUS { Some(KEY_EQUALS) }
    else if vk == VK_OEM_COMMA { Some(KEY_COMMA) }
    else if vk == VK_OEM_MINUS { Some(KEY_MINUS) }
    else if vk == VK_OEM_PERIOD { Some(KEY_DOT) }
    else if vk == VK_OEM_2 { Some(KEY_SLASH) }
    else if vk == VK_OEM_3 { Some(KEY_BACKQUOTE) }
    else if vk == VK_OEM_4 { Some(KEY_LEFT_BRACKET) }
    else if vk == VK_OEM_5 { Some(KEY_BACK_SLASH) }
    else if vk == VK_OEM_6 { Some(KEY_RIGHT_BRACKET) }
    else if vk == VK_OEM_7 { Some(KEY_QUOTE) }
    else { None }
}

/// Every letter key (virtual keys 0x41..0x5A, named by the upper-case letter)
/// becomes the engine key that types that letter in lower case, and every
/// digit key (0x30..0x39) the engine key of that digit.
pub proof fn lemma_vk_letters_digits(vk: u32)
    requires
        (0x41 <= vk <= 0x5A) || (0x30 <= vk <= 0x39),
    ensures
        spec_vk_to_logical_key(vk) is Some,
        spec_key_code_to_character(spec_vk_to_logical_key(vk)->0 as u32)
            == (if vk >= 0x41 { (vk + 32) as u32 } else { vk }),
{
}

/// Maps a Windows virtual-key code to the engine logical key code.
pub fn vk_to_logical_key(vk: u32) -> (r: Option<u16>)
    ensures r == spec_vk_to_logical_key(vk),
{
    if vk == 0x41 { Some(KEY_A) }
    else if vk == 0x42 { Some(KEY_B) }
    else if vk == 0x43 { Some(KEY_C) }
    else if vk == 0x44 { Some(KEY_D) }
    else if vk == 0x45 { Some(KEY_E) }
    else if vk == 0x46 { Some(KEY_F) }
    else if vk == 0x47 { Some(KEY_G) }
    else if vk == 0x48 { Some(KEY_H) }
    else if vk == 0x49 { Some(KEY_I) }
    else if vk == 0x4A { Some(KEY_J) }
    else if vk == 0x4B { Some(KEY_K) }
    else if vk == 0x4C { Some(KEY_L) }
    else if vk == 0x4D { Some(KEY_M) }
    else if vk == 0x4E { Some(KEY_N) }
    else if vk == 0x4F { Some(KEY_O) }
    else if vk == 0x50 { Some(KEY_P) }
    else if vk == 0x51 { Some(KEY_Q) }
    else if vk == 0x52 { Some(KEY_R) }
    else if vk == 0x53 { Some(KEY_S) }
    else if vk == 0x54 { Some(KEY_T) }
    else if vk == 0x55 { Some(KEY_U) }
    else if vk == 0x56 { Some(KEY_V) }
    else if vk == 0x57 { Some(KEY_W) }
    else if vk == 0x58 { Some(KEY_X) }
    else if vk == 0x59 { Some(KEY_Y) }
    else if vk == 0x5A { Some(KEY_Z) }
    else if vk == 0x30 { Some(KEY_0) }
    else if vk == 0x31 { Some(KEY_1) }
    else if vk == 0x32 { Some(KEY_2) }
    else if vk == 0x33 { Some(KEY_3) }
    else if vk == 0x34 { Some(KEY_4) }
    else if vk == 0x35 { Some(KEY_5) }
    else if vk == 0x36 { Some(KEY_6) }
    else if vk == 0x37 { Some(KEY_7) }
    else if vk == 0x38 { Some(KEY_8) }
    else if vk == 0x39 { Some(KEY_9) }
    else if vk == VK_BACK { Some(KEY_DELETE) }
    else if vk == VK_TAB { Some(KEY_TAB) }
    else if vk == VK_RETURN { Some(KEY_ENTER) }
    else if vk == VK_ESCAPE { Some(KEY_ESC) }
    else if vk == VK_SPACE { Some(KEY_SPACE) }
    else if vk == VK_LEFT { Some(KEY_LEFT) }
    else if vk == VK_UP { Some(KEY_UP) }
    else if vk == VK_RIGHT { Some(KEY_RIGHT) }
    else if vk == VK_DOWN { Some(KEY_DOWN) }
    else if vk == VK_OEM_1 { Some(KEY_SEMICOLON) }
    else if vk == VK_OEM_PLUS { Some(KEY_EQUALS) }
    else if vk == VK_OEM_COMMA { Some(KEY_COMMA) }
    else if vk == VK_OEM_MINUS { Some(KEY_MINUS) }
    else if vk == VK_OEM_PERIOD { Some(KEY_DOT) }
    else if vk == VK_OEM_2 { Some(KEY_SLASH) }
    else if vk == VK_OEM_3 { Some(KEY_BACKQUOTE) }
    else if vk == VK_OEM_4 { Some(KEY_LEFT_BRACKET) }
    else if vk == VK_OEM_5 { Some(KEY_BACK_SLASH) }
    else if vk == VK_OEM_6 { Some(KEY_RIGHT_BRACKET) }
    else if vk == VK_OEM_7 { Some(KEY_QUOTE) }
    else { None }
}

/// Tracks modifier states (Shift, Caps Lock, Ctrl, Alt, Win).
#[derive(Debug, Clone, Copy, PartialEq, Eq, Structural)]
pub struct ModifierState {
    pub shift: bool,
    pub caps_lock: bool,
    pub ctrl: bool,
    pub alt: bool,
    pub win: bool,
}

impl Default for ModifierState {
    fn default() -> (r: Self)
        ensures r == Self::default_state(),
    {
        ModifierState { shift: false, caps_lock: false, ctrl: false, alt: false, win: false }
    }
}

impl ModifierState {
    /// No modifier held, Caps Lock off.
    pub open spec fn default_state() -> ModifierState {
        ModifierState { shift: false, caps_lock: false, ctrl: false, alt: false, win: false }
    }

    /// Ctrl, Alt or Win is held.
    pub open spec fn has_control(&self) -> bool {
        self.ctrl || self.alt || self.win
    }

    /// Returns true if caps mode is active for letters (Shift XOR Caps Lock).
    pub fn is_caps(&self) -> (r: bool)
        ensures r == (self.shift != self.caps_lock),
    {
        self.shift ^ self.caps_lock
    }

    /// Returns true if navigation or shortcut modifier (Ctrl, Alt, Win) is held.
    pub fn has_control_modifier(&self) -> (r: bool)
        ensures r == self.has_control(),
    {
        self.ctrl || self.alt || self.win
    }
}

} // verus!
