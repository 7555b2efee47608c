//! X11 keysyms and their engine key codes; modifier state.

use vstd::prelude::*;
use crate::vietnamese::spec_key_code_to_character;
use crate::keycode::{KEY_0, KEY_1, KEY_2, KEY_3, KEY_4, KEY_5, KEY_6, KEY_7, KEY_8, KEY_9, KEY_A, KEY_B, KEY_BACKQUOTE, KEY_BACK_SLASH, KEY_C, KEY_COMMA, KEY_D, KEY_DELETE, KEY_DOT, KEY_DOWN, KEY_E, KEY_ENTER, KEY_EQUALS, KEY_ESC, KEY_F, KEY_G, KEY_H, KEY_I, KEY_J, KEY_K, KEY_L, KEY_LEFT, KEY_LEFT_BRACKET, KEY_M, KEY_MINUS, KEY_N, KEY_O, KEY_P, KEY_Q, KEY_QUOTE, KEY_R, KEY_RIGHT, KEY_RIGHT_BRACKET, KEY_S, KEY_SEMICOLON, KEY_SLASH, KEY_SPACE, KEY_T, KEY_TAB, KEY_U, KEY_UP, KEY_V, KEY_W, KEY_X, KEY_Y, KEY_Z};

verus! {

/// Linux X11 / XKB keysyms.
pub const XK_BACKSPACE: u32 = 0xFF08;
pub const XK_TAB: u32 = 0xFF09;
pub const XK_RETURN: u32 = 0xFF0D;
pub const XK_ESCAPE: u32 = 0xFF1B;
pub const XK_SPACE: u32 = 0x0020;
pub const XK_LEFT: u32 = 0xFF51;
pub const XK_UP: u32 = 0xFF52;
pub const XK_RIGHT: u32 = 0xFF53;
pub const XK_DOWN: u32 = 0xFF54;

pub const XK_SHIFT_L: u32 = 0xFFE1;
pub const XK_SHIFT_R: u32 = 0xFFE2;
pub const XK_CONTROL_L: u32 = 0xFFE3;
pub const XK_CONTROL_R: u32 = 0xFFE4;
pub const XK_CAPS_LOCK: u32 = 0xFFE5;
pub const XK_ALT_L: u32 = 0xFFE9;
pub const XK_ALT_R: u32 = 0xFFEA;
pub const XK_SUPER_L: u32 = 0xFFEB;
pub const XK_SUPER_R: u32 = 0xFFEC;

pub const XK_SEMICOLON: u32 = 0x003B;
pub const XK_EQUAL: u32 = 0x003D;
pub const XK_COMMA: u32 = 0x002C;
pub const XK_MINUS: u32 = 0x002D;
pub const XK_PERIOD: u32 = 0x002E;
pub const XK_SLASH: u32 = 0x002F;
pub const XK_GRAVE: u32 = 0x0060;
pub const XK_BRACKETLEFT: u32 = 0x005B;
pub const XK_BACKSLASH: u32 = 0x005C;
pub const XK_BRACKETRIGHT: u32 = 0x005D;
pub const XK_APOSTROPHE: u32 = 0x0027;

/// The engine key of an X11 keysym: letters (either case), digits, the editing
/// and navigation keys and the punctuation keys.
pub open spec fn spec_keysym_to_logical_key(keysym: u32) -> Option<u16> {
    if keysym == 0x0061 || keysym == 0x0041 { Some(KEY_A) }
    else if keysym == 0x0062 || keysym == 0x0042 { Some(KEY_B) }
    else if keysym == 0x0063 || keysym == 0x0043 { Some(KEY_C) }
    else if keysym == 0x0064 || keysym == 0x0044 { Some(KEY_D) }
    else if keysym == 0x0065 || keysym == 0x0045 { Some(KEY_E) }
    else if keysym == 0x0066 || keysym == 0x0046 { Some(KEY_F) }
    else if keysym == 0x0067 || keysym == 0x0047 { Some(KEY_G) }
    else if keysym == 0x0068 || keysym == 0x0048 { Some(KEY_H) }
    else if keysym == 0x0069 || keysym == 0x0049 { Some(KEY_I) }
    else if keysym == 0x006A || keysym == 0x004A { Some(KEY_J) }
    else if keysym == 0x006B || keysym == 0x004B { Some(KEY_K) }
    else if keysym == 0x006C || keysym == 0x004C { Some(KEY_L) }
    else if keysym == 0x006D || keysym == 0x004D { Some(KEY_M) }
    else if keysym == 0x006E || keysym == 0x004E { Some(KEY_N) }
    else if keysym == 0x006F || keysym == 0x004F { Some(KEY_O) }
    else if keysym == 0x0070 || keysym == 0x0050 { Some(KEY_P) }
    else if keysym == 0x0071 || keysym == 0x0051 { Some(KEY_Q) }
    else if keysym == 0x0072 || keysym == 0x0052 { Some(KEY_R) }
    else if keysym == 0x0073 || keysym == 0x0053 { Some(KEY_S) }
    else if keysym == 0x0074 || keysym == 0x0054 { Some(KEY_T) }
    else if keysym == 0x0075 || keysym == 0x0055 { Some(KEY_U) }
    else if keysym == 0x0076 || keysym == 0x0056 { Some(KEY_V) }
    else if keysym == 0x0077 || keysym == 0x0057 { Some(KEY_W) }
    else if keysym == 0x0078 || keysym == 0x0058 { Some(KEY_X) }
    else if keysym == 0x0079 || keysym == 0x0059 { Some(KEY_Y) }
    else if keysym == 0x007A || keysym == 0x005A { Some(KEY_Z) }
    else if keysym == 0x0030 { Some(KEY_0) }
    else if keysym == 0x0031 { Some(KEY_1) }
    else if keysym == 0x0032 { Some(KEY_2) }
    else if keysym == 0x0033 { Some(KEY_3) }
    else if keysym == 0x0034 { Some(KEY_4) }
    else if keysym == 0x0035 { Some(KEY_5) }
    else if keysym == 0x0036 { Some(KEY_6) }
    else if keysym == 0x0037 { Some(KEY_7) }
    else if keysym == 0x0038 { Some(KEY_8) }
    else if keysym == 0x0039 { Some(KEY_9) }
    else if keysym == XK_BACKSPACE { Some(KEY_DELETE) }
    else if keysym == XK_TAB { Some(KEY_TAB) }
    else if keysym == XK_RETURN { Some(KEY_ENTER) }
    else if keysym == XK_ESCAPE { Some(KEY_ESC) }
    else if keysym == XK_SPACE { Some(KEY_SPACE) }
    else if keysym == XK_LEFT { Some(KEY_LEFT) }
    else if keysym == XK_UP { Some(KEY_UP) }
    else if keysym == XK_RIGHT { Some(KEY_RIGHT) }
    else if keysym == XK_DOWN { Some(KEY_DOWN) }
    else if keysym == XK_SEMICOLON { Some(KEY_SEMICOLON) }
    else if keysym == XK_EQUAL { Some(KEY_EQUALS) }
    else if keysym == XK_COMMA { Some(KEY_COMMA) }
    else if keysym == XK_MINUS { Some(KEY_MINUS) }
    else if keysym == XK_PERIOD { Some(KEY_DOT) }
    else if keysym == XK_SLASH { Some(KEY_SLASH) }
    else if keysym == XK_GRAVE { Some(KEY_BACKQUOTE) }
    else if keysym == XK_BRACKETLEFT { Some(KEY_LEFT_BRACKET) }
    else if keysym == XK_BACKSLASH { Some(KEY_BACK_SLASH) }
    else if keysym == XK_BRACKETRIGHT { Some(KEY_RIGHT_BRACKET) }
    else if keysym == XK_APOSTROPHE { Some(KEY_QUOTE) }
    else { None }
}

/// Every letter key of the keyboard, lower case (0x61..0x7A) or upper case
/// (0x41..0x5A), becomes the engine key that types that same letter in lower
/// case.
pub proof fn lemma_keysym_letters(keysym: u32)
    requires
        (0x61 <= keysym <= 0x7A) || (0x41 <= keysym <= 0x5A),
    ensures
        spec_keysym_to_logical_key(keysym) is Some,
        spec_key_code_to_character(spec_keysym_to_logical_key(keysym)->0 as u32)
            == (if keysym >= 0x61 { keysym } else { (keysym + 32) as u32 }),
{
}

/// Every digit key, and every printable punctuation key the engine knows,
/// becomes the engine key that types that same character unshifted.
pub proof fn lemma_keysym_digits_punctuation(keysym: u32)
    requires
        0x21 <= keysym <= 0x7E,
        !(0x41 <= keysym <= 0x5A),
        !(0x61 <= keysym <= 0x7A),
        (0x30 <= keysym <= 0x39) || spec_keysym_to_logical_key(keysym) is Some,
    ensures
        spec_keysym_to_logical_key(keysym) is Some,
        spec_key_code_to_character(spec_keysym_to_logical_key(keysym)->0 as u32) == keysym,
{
}

/// Maps a Linux / X11 keysym to the engine logical key code.
pub fn keysym_to_logical_key(keysym: u32) -> (r: Option<u16>)
    ensures r == spec_keysym_to_logical_key(keysym),
{
    if keysym == 0x0061 || keysym == 0x0041 { Some(KEY_A) }
    else if keysym == 0x0062 || keysym == 0x0042 { Some(KEY_B) }
    else if keysym == 0x0063 || keysym == 0x0043 { Some(KEY_C) }
    else if keysym == 0x0064 || keysym == 0x0044 { Some(KEY_D) }
    else if keysym == 0x0065 || keysym == 0x0045 { Some(KEY_E) }
    else if keysym == 0x0066 || keysym == 0x0046 { Some(KEY_F) }
    else if keysym == 0x0067 || keysym == 0x0047 { Some(KEY_G) }
    else if keysym == 0x0068 || keysym == 0x0048 { Some(KEY_H) }
    else if keysym == 0x0069 || keysym == 0x0049 { Some(KEY_I) }
    else if keysym == 0x006A || keysym == 0x004A { Some(KEY_J) }
    else if keysym == 0x006B || keysym == 0x004B { Some(KEY_K) }
    else if keysym == 0x006C || keysym == 0x004C { Some(KEY_L) }
    else if keysym == 0x006D || keysym == 0x004D { Some(KEY_M) }
    else if keysym == 0x006E || keysym == 0x004E { Some(KEY_N) }
    else if keysym == 0x006F || keysym == 0x004F { Some(KEY_O) }
    else if keysym == 0x0070 || keysym == 0x0050 { Some(KEY_P) }
    else if keysym == 0x0071 || keysym == 0x0051 { Some(KEY_Q) }
    else if keysym == 0x0072 || keysym == 0x0052 { Some(KEY_R) }
    else if keysym == 0x0073 || keysym == 0x0053 { Some(KEY_S) }
    else if keysym == 0x0074 || keysym == 0x0054 { Some(KEY_T) }
    else if keysym == 0x0075 || keysym == 0x0055 { Some(KEY_U) }
    else if keysym == 0x0076 || keysym == 0x0056 { Some(KEY_V) }
    else if keysym == 0x0077 || keysym == 0x0057 { Some(KEY_W) }
    else if keysym == 0x0078 || keysym == 0x0058 { Some(KEY_X) }
    else if keysym == 0x0079 || keysym == 0x0059 { Some(KEY_Y) }
    else if keysym == 0x007A || keysym == 0x005A { Some(KEY_Z) }
    else if keysym == 0x0030 { Some(KEY_0) }
    else if keysym == 0x0031 { Some(KEY_1) }
    else if keysym == 0x0032 { Some(KEY_2) }
    else if keysym == 0x0033 { Some(KEY_3) }
    else if keysym == 0x0034 { Some(KEY_4) }
    else if keysym == 0x0035 { Some(KEY_5) }
    else if keysym == 0x0036 { Some(KEY_6) }
    else if keysym == 0x0037 { Some(KEY_7) }
    else if keysym == 0x0038 { Some(KEY_8) }
    else if keysym == 0x0039 { Some(KEY_9) }
    else if keysym == XK_BACKSPACE { Some(KEY_DELETE) }
    else if keysym == XK_TAB { Some(KEY_TAB) }
    else if keysym == XK_RETURN { Some(KEY_ENTER) }
    else if keysym == XK_ESCAPE { Some(KEY_ESC) }
    else if keysym == XK_SPACE { Some(KEY_SPACE) }
    else if keysym == XK_LEFT { Some(KEY_LEFT) }
    else if keysym == XK_UP { Some(KEY_UP) }
    else if keysym == XK_RIGHT { Some(KEY_RIGHT) }
    else if keysym == XK_DOWN { Some(KEY_DOWN) }
    else if keysym == XK_SEMICOLON { Some(KEY_SEMICOLON) }
    else if keysym == XK_EQUAL { Some(KEY_EQUALS) }
    else if keysym == XK_COMMA { Some(KEY_COMMA) }
    else if keysym == XK_MINUS { Some(KEY_MINUS) }
    else if keysym == XK_PERIOD { Some(KEY_DOT) }
    else if keysym == XK_SLASH { Some(KEY_SLASH) }
    else if keysym == XK_GRAVE { Some(KEY_BACKQUOTE) }
    else if keysym == XK_BRACKETLEFT { Some(KEY_LEFT_BRACKET) }
    else if keysym == XK_BACKSLASH { Some(KEY_BACK_SLASH) }
    else if keysym == XK_BRACKETRIGHT { Some(KEY_RIGHT_BRACKET) }
    else if keysym == XK_APOSTROPHE { Some(KEY_QUOTE) }
    else { None }
}

/// Tracks Linux modifier states (Shift, Caps Lock, Ctrl, Alt, Super).
#[derive(Debug, Clone, Copy, PartialEq, Eq, Structural)]
pub struct ModifierState {
    pub shift: bool,
    pub caps_lock: bool,
    pub ctrl: bool,
    pub alt: bool,
    pub super_key: bool,
}

impl Default for ModifierState {
    fn default() -> (r: Self)
        ensures r == Self::default_state(),
    {
        ModifierState { shift: false, caps_lock: false, ctrl: false, alt: false, super_key: false }
    }
}

impl ModifierState {
    /// No modifier held, Caps Lock off.
    pub open spec fn default_state() -> ModifierState {
        ModifierState { shift: false, caps_lock: false, ctrl: false, alt: false, super_key: false }
    }

    /// Ctrl, Alt or Super is held.
    pub open spec fn has_control(&self) -> bool {
        self.ctrl || self.alt || self.super_key
    }

    /// Returns true if caps mode is active for letters (Shift XOR Caps Lock).
    pub fn is_caps(&self) -> (r: bool)
        ensures r == (self.shift != self.caps_lock),
    {
        self.shift ^ self.caps_lock
    }

    /// Returns true if navigation or shortcut modifier (Ctrl, Alt, Super) is held.
    pub fn has_control_modifier(&self) -> (r: bool)
        ensures r == self.has_control(),
    {
        self.ctrl || self.alt || self.super_key
    }
}

} // verus!
