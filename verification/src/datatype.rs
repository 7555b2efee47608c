//! Core data types and bit masks of the engine.
//!
//! The engine stores each character of the word being typed in a `u32`
//! slot. The low 16 bits are the character/key code, the upper bits flags:
//!
//! ```text
//! bit 16       : has caps
//! bit 17       : has tone ^  (circumflex)
//! bit 18       : has tone w  (horn / breve)
//! bit 19 .. 23 : has mark (sắc, huyền, hỏi, ngã, nặng)
//! bit 24       : standalone key (w, [, ])
//! bit 25       : 1 = character code, 0 = keyboard code
//! ```

use vstd::prelude::*;
use crate::keycode::{KEY_0, KEY_1, KEY_2, KEY_3, KEY_4, KEY_5, KEY_6, KEY_7, KEY_8, KEY_9, KEY_A, KEY_E, KEY_F, KEY_I, KEY_J, KEY_O, KEY_R, KEY_S, KEY_U, KEY_X, KEY_Y};

verus! {

/// Max length of the in-progress word buffer.
pub const MAX_BUFF: usize = 32;

/// Source of an input event.
#[derive(Clone, Copy, PartialEq, Eq, Debug, Structural)]
pub enum KeyEvent {
    Keyboard,
    Mouse,
}

/// State of the input event.
#[derive(Clone, Copy, PartialEq, Eq, Debug, Structural)]
pub enum KeyEventState {
    KeyDown,
    KeyUp,
    MouseDown,
    MouseUp,
}

/// Input method ("kiểu gõ").
#[derive(Clone, Copy, PartialEq, Eq, Debug, Structural)]
pub enum InputType {
    Telex,
    Vni,
    SimpleTelex1,
    SimpleTelex2,
}

impl InputType {
    /// Row of the processing-key table used by this input method.
    pub open spec fn spec_row(self) -> int {
        match self {
            InputType::Telex => 0,
            InputType::Vni => 1,
            InputType::SimpleTelex1 => 2,
            InputType::SimpleTelex2 => 3,
        }
    }

    /// Numeric code of the input method (0 = Telex, 1 = VNI, 2, 3 = Simple Telex 1, 2).
    pub fn row(self) -> (r: usize)
        ensures r == self.spec_row(),
    {
        match self {
            InputType::Telex => 0,
            InputType::Vni => 1,
            InputType::SimpleTelex1 => 2,
            InputType::SimpleTelex2 => 3,
        }
    }

    /// Input method of a numeric code; every code other than 1, 2, 3 is Telex.
    pub fn from_code(code: i64) -> (r: InputType)
        ensures
            code == 1 ==> r == InputType::Vni,
            code == 2 ==> r == InputType::SimpleTelex1,
            code == 3 ==> r == InputType::SimpleTelex2,
            code != 1 && code != 2 && code != 3 ==> r == InputType::Telex,
    {
        if code == 1 {
            InputType::Vni
        } else if code == 2 {
            InputType::SimpleTelex1
        } else if code == 3 {
            InputType::SimpleTelex2
        } else {
            InputType::Telex
        }
    }
}

/// Result code the engine produces for each key event.
#[derive(Clone, Copy, PartialEq, Eq, Debug, Structural)]
pub enum HookCode {
    /// Do nothing, pass the key through untouched.
    DoNothing,
    /// Process: rewrite part of the buffer.
    WillProcess,
    /// Word break.
    BreakWord,
    /// Restore characters to their previous form.
    Restore,
    /// Replace by macro.
    ReplaceMacro,
    /// Restore key if invalid word with break character (, . ")
    RestoreAndStartNewSession,
}

impl HookCode {
    /// Numeric value of the code (0 .. 5, in declaration order).
    pub fn number(self) -> (r: u8)
        ensures
            self == HookCode::DoNothing ==> r == 0,
            self == HookCode::WillProcess ==> r == 1,
            self == HookCode::BreakWord ==> r == 2,
            self == HookCode::Restore ==> r == 3,
            self == HookCode::ReplaceMacro ==> r == 4,
            self == HookCode::RestoreAndStartNewSession ==> r == 5,
    {
        match self {
            HookCode::DoNothing => 0,
            HookCode::WillProcess => 1,
            HookCode::BreakWord => 2,
            HookCode::Restore => 3,
            HookCode::ReplaceMacro => 4,
            HookCode::RestoreAndStartNewSession => 5,
        }
    }
}

/// Extra classification of the event used by front-ends.
#[derive(Clone, Copy, PartialEq, Eq, Debug, Structural)]
pub enum ExtCode {
    /// Word break.
    WordBreak,
    /// Delete key.
    Delete,
    /// Normal key.
    NormalKey,
    /// Should not send empty character.
    NoEmptyChar,
}

impl ExtCode {
    /// Numeric value of the code (1 .. 4, in declaration order).
    pub fn number(self) -> (r: u8)
        ensures
            self == ExtCode::WordBreak ==> r == 1,
            self == ExtCode::Delete ==> r == 2,
            self == ExtCode::NormalKey ==> r == 3,
            self == ExtCode::NoEmptyChar ==> r == 4,
    {
        match self {
            ExtCode::WordBreak => 1,
            ExtCode::Delete => 2,
            ExtCode::NormalKey => 3,
            ExtCode::NoEmptyChar => 4,
        }
    }
}

/// The output of `Engine::handle_key`: how the front-end should edit text.
#[derive(Clone, Debug)]
pub struct HookState {
    pub code: HookCode,
    pub backspace_count: u8,
    pub new_char_count: u8,
    pub ext_code: ExtCode,
    /// New characters, filled last-character-first (typing order is reverse).
    pub char_data: [u32; 32],
    /// Key sequence typed since the last macro break (macro feature).
    pub macro_key: Vec<u32>,
    /// Replacement data of a matched macro.
    pub macro_data: Vec<u32>,
}

impl HookState {
    /// The state of an engine that has not handled any key.
    pub open spec fn is_initial(self) -> bool {
        &&& self.code == HookCode::DoNothing
        &&& self.backspace_count == 0
        &&& self.new_char_count == 0
        &&& self.ext_code == ExtCode::NormalKey
        &&& (forall|i: int| 0 <= i < 32 ==> #[trigger] self.char_data@[i] == 0)
        &&& self.macro_key@.len() == 0
        &&& self.macro_data@.len() == 0
    }
}

impl Default for HookState {
    fn default() -> (r: Self)
        ensures r.is_initial(),
    {
        HookState {
            code: HookCode::DoNothing,
            backspace_count: 0,
            new_char_count: 0,
            ext_code: ExtCode::NormalKey,
            char_data: [0u32; 32],
            macro_key: Vec::new(),
            macro_data: Vec::new(),
        }
    }
}

pub const CAPS_MASK: u32 = 0x1_0000;
pub const TONE_MASK: u32 = 0x2_0000;
pub const TONEW_MASK: u32 = 0x4_0000;

/// Dấu sắc (á).
pub const MARK1_MASK: u32 = 0x8_0000;
/// Dấu huyền (à).
pub const MARK2_MASK: u32 = 0x10_0000;
/// Dấu hỏi (ả).
pub const MARK3_MASK: u32 = 0x20_0000;
/// Dấu ngã (ã).
pub const MARK4_MASK: u32 = 0x40_0000;
/// Dấu nặng (ạ).
pub const MARK5_MASK: u32 = 0x80_0000;

/// Any mark set.
pub const MARK_MASK: u32 = 0xF8_0000;

/// Mask to get the first 16 bits (character or key code).
pub const CHAR_MASK: u32 = 0xFFFF;

/// Data was created by a standalone key (W).
pub const STANDALONE_MASK: u32 = 0x100_0000;

/// Data is a character code (not a keyboard code).
pub const CHAR_CODE_MASK: u32 = 0x200_0000;

/// For special features.
pub const PURE_CHARACTER_MASK: u32 = 0x8000_0000;

/// Table flag: the entry may end a word only with the quick end consonant feature.
pub const END_CONSONANT_MASK: u16 = 0x4000;
/// Table flag: the consonant is allowed only with the z/f/w/j consonant feature.
pub const CONSONANT_ALLOW_MASK: u16 = 0x8000;

/// A key code is a vowel key: a, e, u, y, i or o.
pub open spec fn spec_is_vowel(key_code: u16) -> bool {
    key_code == KEY_A || key_code == KEY_E || key_code == KEY_U || key_code == KEY_Y
        || key_code == KEY_I || key_code == KEY_O
}

/// True if `key_code` is not one of the vowels (a, e, u, y, i, o).
pub fn is_consonant(key_code: u16) -> (r: bool)
    ensures r == !spec_is_vowel(key_code),
{
    !(key_code == KEY_A || key_code == KEY_E || key_code == KEY_U || key_code == KEY_Y
        || key_code == KEY_I || key_code == KEY_O)
}

/// The keys that put a mark on a vowel, per input method.
pub open spec fn spec_is_mark_key(input_type: InputType, code: u16) -> bool {
    match input_type {
        InputType::Vni => code == KEY_1 || code == KEY_2 || code == KEY_3 || code == KEY_5
            || code == KEY_4,
        _ => code == KEY_S || code == KEY_F || code == KEY_R || code == KEY_J || code == KEY_X,
    }
}

/// Whether `code` is a mark key (per input type).
pub fn is_mark_key(input_type: InputType, code: u16) -> (r: bool)
    ensures r == spec_is_mark_key(input_type, code),
{
    match input_type {
        InputType::Telex | InputType::SimpleTelex1 | InputType::SimpleTelex2 => {
            code == KEY_S || code == KEY_F || code == KEY_R || code == KEY_J || code == KEY_X
        },
        InputType::Vni => {
            code == KEY_1 || code == KEY_2 || code == KEY_3 || code == KEY_5 || code == KEY_4
        },
    }
}

/// Number key: a code in the range of the top-row digits.
pub open spec fn spec_is_number_key(code: u16) -> bool {
    code == KEY_1 || code == KEY_2 || code == KEY_3 || code == KEY_4 || code == KEY_5
        || code == KEY_6 || code == KEY_7 || code == KEY_8 || code == KEY_9 || code == KEY_0
}

/// Number key (top row digits 0-9).
pub fn is_number_key(code: u16) -> (r: bool)
    ensures r == spec_is_number_key(code),
{
    code == KEY_1 || code == KEY_2 || code == KEY_3 || code == KEY_4 || code == KEY_5
        || code == KEY_6 || code == KEY_7 || code == KEY_8 || code == KEY_9 || code == KEY_0
}

} // verus!
