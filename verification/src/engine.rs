//! The Vietnamese input engine state machine.
//!
//! The engine keeps a buffer of the word being typed and, for each key event,
//! decides whether to rewrite part of it, producing a `HookState` that tells
//! the front-end how many characters to erase and which ones to type.
//!
//! Every read of the word buffer past its end gives 0 and every write past it
//! is dropped, so no key sequence can make the engine index out of bounds.

use vstd::prelude::*;
use crate::datatype::{
    is_consonant, is_mark_key, is_number_key, spec_is_mark_key, spec_is_vowel, spec_is_number_key, ExtCode,
    HookCode, HookState, InputType, KeyEvent, KeyEventState, CAPS_MASK, CHAR_CODE_MASK, CHAR_MASK,
    CONSONANT_ALLOW_MASK, END_CONSONANT_MASK, MARK1_MASK, MARK2_MASK, MARK3_MASK, MARK4_MASK,
    MARK5_MASK, MARK_MASK, MAX_BUFF, STANDALONE_MASK, TONEW_MASK, TONE_MASK,
};
use crate::keycode::{
    KEY_0, KEY_1, KEY_2, KEY_3, KEY_4, KEY_5, KEY_6, KEY_7, KEY_8, KEY_9, KEY_A, KEY_BACKQUOTE,
    KEY_BACK_SLASH, KEY_C, KEY_COMMA, KEY_D, KEY_DELETE, KEY_DOT, KEY_DOWN, KEY_E, KEY_ENTER,
    KEY_EQUALS, KEY_ESC, KEY_F, KEY_G, KEY_H, KEY_I, KEY_J, KEY_LEFT, KEY_LEFT_BRACKET, KEY_M,
    KEY_MINUS, KEY_N, KEY_O, KEY_P, KEY_Q, KEY_QUOTE, KEY_R, KEY_RETURN, KEY_RIGHT,
    KEY_RIGHT_BRACKET, KEY_S, KEY_SEMICOLON, KEY_SLASH, KEY_SPACE, KEY_T, KEY_TAB, KEY_U, KEY_UP,
    KEY_W, KEY_X, KEY_Y, KEY_Z,
};
use crate::vietnamese::{
    code_table, consonant_d, consonant_table, double_w_allowed, end_consonant_table,
    is_quick_telex_key, rows_of, spec_is_quick_telex_key, spec_quick_telex, spec_vowel_combine_table, spec_quick_start_consonant, spec_quick_end_consonant, spec_consonant_table, spec_end_consonant_table, spec_vowel_for_mark_table, spec_vowel_table, spec_consonant_d, opt_seq, quick_end_consonant, quick_start_consonant, quick_telex, rows_match,
    spec_code_table, standalone_w_bad, vowel_combine_table, vowel_for_mark_table, vowel_table,
};

verus! {

// ---------------------------------------------------------------------------
// Key classes
// ---------------------------------------------------------------------------

/// Keys that type a character that may be part of a macro name (digits, punctuation).
pub open spec fn spec_is_char_key_code(code: u16) -> bool {
    code == KEY_BACKQUOTE || code == KEY_1 || code == KEY_2 || code == KEY_3 || code == KEY_4
        || code == KEY_5 || code == KEY_6 || code == KEY_7 || code == KEY_8 || code == KEY_9
        || code == KEY_0 || code == KEY_MINUS || code == KEY_EQUALS || code == KEY_LEFT_BRACKET
        || code == KEY_RIGHT_BRACKET || code == KEY_BACK_SLASH || code == KEY_SEMICOLON
        || code == KEY_QUOTE || code == KEY_COMMA || code == KEY_DOT || code == KEY_SLASH
}

/// Whether `code` is a character key (digits and punctuation).
pub fn is_char_key_code(code: u16) -> (r: bool)
    ensures r == spec_is_char_key_code(code),
{
    code == KEY_BACKQUOTE || code == KEY_1 || code == KEY_2 || code == KEY_3 || code == KEY_4
        || code == KEY_5 || code == KEY_6 || code == KEY_7 || code == KEY_8 || code == KEY_9
        || code == KEY_0 || code == KEY_MINUS || code == KEY_EQUALS || code == KEY_LEFT_BRACKET
        || code == KEY_RIGHT_BRACKET || code == KEY_BACK_SLASH || code == KEY_SEMICOLON
        || code == KEY_QUOTE || code == KEY_COMMA || code == KEY_DOT || code == KEY_SLASH
}

/// Keys that end the word being typed.
pub open spec fn spec_is_break_code(code: u16) -> bool {
    code == KEY_ESC || code == KEY_TAB || code == KEY_ENTER || code == KEY_RETURN
        || code == KEY_LEFT || code == KEY_RIGHT || code == KEY_DOWN || code == KEY_UP
        || code == KEY_COMMA || code == KEY_DOT || code == KEY_SLASH || code == KEY_SEMICOLON
        || code == KEY_QUOTE || code == KEY_BACK_SLASH || code == KEY_MINUS || code == KEY_EQUALS
        || code == KEY_BACKQUOTE
}

/// Whether `code` ends the word being typed.
pub fn is_break_code(code: u16) -> (r: bool)
    ensures r == spec_is_break_code(code),
{
    code == KEY_ESC || code == KEY_TAB || code == KEY_ENTER || code == KEY_RETURN
        || code == KEY_LEFT || code == KEY_RIGHT || code == KEY_DOWN || code == KEY_UP
        || code == KEY_COMMA || code == KEY_DOT || code == KEY_SLASH || code == KEY_SEMICOLON
        || code == KEY_QUOTE || code == KEY_BACK_SLASH || code == KEY_MINUS || code == KEY_EQUALS
        || code == KEY_BACKQUOTE
}

/// Keys after which a typed macro name is expanded.
pub open spec fn spec_is_macro_break_code(code: u16) -> bool {
    code == KEY_RETURN || code == KEY_COMMA || code == KEY_DOT || code == KEY_SLASH
        || code == KEY_SEMICOLON || code == KEY_QUOTE || code == KEY_BACK_SLASH
        || code == KEY_MINUS || code == KEY_EQUALS
}

/// Whether `code` expands a typed macro name.
pub fn is_macro_break_code(code: u16) -> (r: bool)
    ensures r == spec_is_macro_break_code(code),
{
    code == KEY_RETURN || code == KEY_COMMA || code == KEY_DOT || code == KEY_SLASH
        || code == KEY_SEMICOLON || code == KEY_QUOTE || code == KEY_BACK_SLASH
        || code == KEY_MINUS || code == KEY_EQUALS
}

/// The eleven processing keys of an input method, in the order
/// S, F, R, X, J, A, O, E, W, D, Z (for VNI: 1, 2, 3, 4, 5, 6, 6, 7, 8, 9, 0).
pub open spec fn spec_processing_char(input_type: InputType, col: int) -> u16 {
    match input_type {
        InputType::Vni => {
            if col == 0 { KEY_1 } else if col == 1 { KEY_2 } else if col == 2 { KEY_3 }
            else if col == 3 { KEY_4 } else if col == 4 { KEY_5 } else if col == 5 { KEY_6 }
            else if col == 6 { KEY_6 } else if col == 7 { KEY_7 } else if col == 8 { KEY_8 }
            else if col == 9 { KEY_9 } else { KEY_0 }
        },
        _ => {
            if col == 0 { KEY_S } else if col == 1 { KEY_F } else if col == 2 { KEY_R }
            else if col == 3 { KEY_X } else if col == 4 { KEY_J } else if col == 5 { KEY_A }
            else if col == 6 { KEY_O } else if col == 7 { KEY_E } else if col == 8 { KEY_W }
            else if col == 9 { KEY_D } else { KEY_Z }
        },
    }
}

/// The processing key in column `col` (0 .. 10) for an input method.
pub fn processing_char(input_type: InputType, col: usize) -> (r: u16)
    requires col <= 10,
    ensures r == spec_processing_char(input_type, col as int),
{
    match input_type {
        InputType::Vni => {
            if col == 0 { KEY_1 } else if col == 1 { KEY_2 } else if col == 2 { KEY_3 }
            else if col == 3 { KEY_4 } else if col == 4 { KEY_5 } else if col == 5 { KEY_6 }
            else if col == 6 { KEY_6 } else if col == 7 { KEY_7 } else if col == 8 { KEY_8 }
            else if col == 9 { KEY_9 } else { KEY_0 }
        },
        _ => {
            if col == 0 { KEY_S } else if col == 1 { KEY_F } else if col == 2 { KEY_R }
            else if col == 3 { KEY_X } else if col == 4 { KEY_J } else if col == 5 { KEY_A }
            else if col == 6 { KEY_O } else if col == 7 { KEY_E } else if col == 8 { KEY_W }
            else if col == 9 { KEY_D } else { KEY_Z }
        },
    }
}

/// Keys that the engine treats specially for an input method.
pub open spec fn spec_is_special_key(input_type: InputType, code: u16) -> bool {
    match input_type {
        InputType::Telex => code == KEY_W || code == KEY_E || code == KEY_R || code == KEY_O
            || code == KEY_LEFT_BRACKET || code == KEY_RIGHT_BRACKET || code == KEY_A
            || code == KEY_S || code == KEY_D || code == KEY_F || code == KEY_J || code == KEY_Z
            || code == KEY_X,
        InputType::Vni => code == KEY_1 || code == KEY_2 || code == KEY_3 || code == KEY_4
            || code == KEY_5 || code == KEY_6 || code == KEY_7 || code == KEY_8 || code == KEY_9
            || code == KEY_0,
        _ => code == KEY_W || code == KEY_E || code == KEY_R || code == KEY_O || code == KEY_A
            || code == KEY_S || code == KEY_D || code == KEY_F || code == KEY_J || code == KEY_Z
            || code == KEY_X,
    }
}

/// Whether `code` is a special key of the input method.
pub fn is_special_key(input_type: InputType, code: u16) -> (r: bool)
    ensures r == spec_is_special_key(input_type, code),
{
    match input_type {
        InputType::Telex => code == KEY_W || code == KEY_E || code == KEY_R || code == KEY_O
            || code == KEY_LEFT_BRACKET || code == KEY_RIGHT_BRACKET || code == KEY_A
            || code == KEY_S || code == KEY_D || code == KEY_F || code == KEY_J || code == KEY_Z
            || code == KEY_X,
        InputType::Vni => code == KEY_1 || code == KEY_2 || code == KEY_3 || code == KEY_4
            || code == KEY_5 || code == KEY_6 || code == KEY_7 || code == KEY_8 || code == KEY_9
            || code == KEY_0,
        _ => code == KEY_W || code == KEY_E || code == KEY_R || code == KEY_O || code == KEY_A
            || code == KEY_S || code == KEY_D || code == KEY_F || code == KEY_J || code == KEY_Z
            || code == KEY_X,
    }
}

/// A key event breaks the word: any mouse event, or a break key.
pub open spec fn spec_is_word_break(event: KeyEvent, data: u16) -> bool {
    event == KeyEvent::Mouse || spec_is_break_code(data)
}

/// Whether the event breaks the word.
pub fn is_word_break(event: KeyEvent, data: u16) -> (r: bool)
    ensures r == spec_is_word_break(event, data),
{
    if event == KeyEvent::Mouse {
        return true;
    }
    is_break_code(data)
}

/// `data` with the caps flag set when `is_caps`.
pub open spec fn spec_with_caps(data: u16, is_caps: bool) -> u32 {
    if is_caps { (data as u32 | CAPS_MASK) as u32 } else { data as u32 }
}

/// The key code `data` with the caps flag set when `is_caps`.
pub fn with_caps(data: u16, is_caps: bool) -> (r: u32)
    ensures r == spec_with_caps(data, is_caps),
{
    if is_caps { data as u32 | CAPS_MASK } else { data as u32 }
}

// ---------------------------------------------------------------------------
// Character codes
// ---------------------------------------------------------------------------

/// Column of a mark in a code table row, before the caps offset; -2 when the
/// mark bits do not hold exactly one mark.
pub open spec fn spec_mark_column(data: u32) -> int {
    let m = data & MARK_MASK;
    if m == MARK1_MASK { 0 }
    else if m == MARK2_MASK { 2 }
    else if m == MARK3_MASK { 4 }
    else if m == MARK4_MASK { 6 }
    else if m == MARK5_MASK { 8 }
    else { -2 }
}

/// The character that a typing-word entry stands for in code table `table`:
/// its code with `CHAR_CODE_MASK`, or the entry itself when the table has none.
pub open spec fn spec_character_code(table: int, data: u32) -> u32 {
    let caps_elem: int = if data & CAPS_MASK != 0 { 0 } else { 1 };
    let base: u32 = data & CHAR_MASK;
    if data & MARK_MASK != 0 {
        let c = base as u16;
        let bare = data & TONE_MASK == 0 && data & TONEW_MASK == 0;
        let col: int = spec_mark_column(data) + caps_elem + if (c == KEY_A || c == KEY_O
            || c == KEY_U || c == KEY_E) && bare { 4int } else { 0int };
        let key: u32 = if data & TONE_MASK != 0 {
            base | TONE_MASK
        } else if data & TONEW_MASK != 0 {
            base | TONEW_MASK
        } else {
            base
        };
        match spec_code_table(table, key) {
            Some(row) => if 0 <= col < row.len() { (row[col] as u32 | CHAR_CODE_MASK) as u32 } else { data },
            None => data,
        }
    } else {
        match spec_code_table(table, base) {
            Some(row) => {
                if data & TONE_MASK != 0 {
                    if caps_elem < row.len() { (row[caps_elem] as u32 | CHAR_CODE_MASK) as u32 } else { data }
                } else if data & TONEW_MASK != 0 {
                    if caps_elem + 2 < row.len() { (row[caps_elem + 2] as u32 | CHAR_CODE_MASK) as u32 } else { data }
                } else {
                    data
                }
            },
            None => data,
        }
    }
}

/// Converts a typing-word entry into the character it stands for in code table `table`.
pub fn character_code(table: u8, data: u32) -> (r: u32)
    ensures r == spec_character_code(table as int, data),
{
    let caps_elem: usize = if data & CAPS_MASK != 0 { 0 } else { 1 };
    let mut key: u32 = data & CHAR_MASK;
    if data & MARK_MASK != 0 {
        let m = data & MARK_MASK;
        let mut mark_elem: i32 = if m == MARK1_MASK {
            0
        } else if m == MARK2_MASK {
            2
        } else if m == MARK3_MASK {
            4
        } else if m == MARK4_MASK {
            6
        } else if m == MARK5_MASK {
            8
        } else {
            -2
        };
        mark_elem = mark_elem + caps_elem as i32;
        let c = key as u16;
        if c == KEY_A || c == KEY_O || c == KEY_U || c == KEY_E {
            if data & TONE_MASK == 0 && data & TONEW_MASK == 0 {
                mark_elem = mark_elem + 4;
            }
        }
        if data & TONE_MASK != 0 {
            key = key | TONE_MASK;
        } else if data & TONEW_MASK != 0 {
            key = key | TONEW_MASK;
        }
        match code_table(table as usize, key) {
            Some(row) => {
                if mark_elem >= 0 && (mark_elem as usize) < row.len() {
                    row[mark_elem as usize] as u32 | CHAR_CODE_MASK
                } else {
                    data
                }
            },
            None => data,
        }
    } else {
        match code_table(table as usize, key) {
            Some(row) => {
                if data & TONE_MASK != 0 {
                    if caps_elem < row.len() {
                        row[caps_elem] as u32 | CHAR_CODE_MASK
                    } else {
                        data
                    }
                } else if data & TONEW_MASK != 0 {
                    if caps_elem + 2 < row.len() {
                        row[caps_elem + 2] as u32 | CHAR_CODE_MASK
                    } else {
                        data
                    }
                } else {
                    data
                }
            },
            None => data,
        }
    }
}

// ---------------------------------------------------------------------------
// Engine state
// ---------------------------------------------------------------------------

/// Configuration knobs the engine reads.
#[derive(Clone, Copy, Debug)]
pub struct EngineConfig {
    /// `true` = Vietnamese.
    pub language: bool,
    pub input_type: InputType,
    pub free_mark: bool,
    /// Code table, 0 .. 4.
    pub code_table: u8,
    pub check_spelling: bool,
    pub use_modern_orthography: bool,
    pub quick_telex: bool,
    pub restore_if_wrong_spelling: bool,
    pub use_macro: bool,
    pub use_macro_in_english_mode: bool,
    pub auto_caps_macro: bool,
    pub use_smart_switch_key: bool,
    pub upper_case_first_char: bool,
    pub temp_off_spelling: bool,
    pub allow_consonant_zfwj: bool,
    pub quick_start_consonant: bool,
    pub quick_end_consonant: bool,
    pub remember_code: bool,
    pub other_language: bool,
    pub temp_off_open_key: bool,
}

impl EngineConfig {
    /// The configuration an engine starts with.
    pub open spec fn is_default(self) -> bool {
        &&& self.language
        &&& self.input_type == InputType::Telex
        &&& !self.free_mark
        &&& self.code_table == 0
        &&& self.check_spelling
        &&& self.use_modern_orthography
        &&& !self.quick_telex
        &&& !self.restore_if_wrong_spelling
        &&& !self.use_macro
        &&& !self.use_macro_in_english_mode
        &&& !self.auto_caps_macro
        &&& !self.use_smart_switch_key
        &&& !self.upper_case_first_char
        &&& !self.temp_off_spelling
        &&& !self.allow_consonant_zfwj
        &&& !self.quick_start_consonant
        &&& !self.quick_end_consonant
        &&& !self.remember_code
        &&& !self.other_language
        &&& !self.temp_off_open_key
    }
}

impl Default for EngineConfig {
    fn default() -> (r: Self)
        ensures r.is_default(),
    {
        EngineConfig {
            language: true,
            input_type: InputType::Telex,
            free_mark: false,
            code_table: 0,
            check_spelling: true,
            use_modern_orthography: true,
            quick_telex: false,
            restore_if_wrong_spelling: false,
            use_macro: false,
            use_macro_in_english_mode: false,
            auto_caps_macro: false,
            use_smart_switch_key: false,
            upper_case_first_char: false,
            temp_off_spelling: false,
            allow_consonant_zfwj: false,
            quick_start_consonant: false,
            quick_end_consonant: false,
            remember_code: false,
            other_language: false,
            temp_off_open_key: false,
        }
    }
}

/// The engine instance: the word being typed, its history and the last output.
pub struct Engine {
    pub cfg: EngineConfig,
    /// The word being typed, one entry per key.
    typing_word: [u32; 32],
    index: usize,
    /// Entries shifted out of the front of a word longer than the buffer.
    long_word_helper: Vec<u32>,
    /// Keys as typed, for restoring a misspelled word.
    key_states: [u32; 32],
    state_index: usize,
    /// History of the words typed before, for the delete key.
    typing_states: Vec<Vec<u32>>,
    typing_states_data: Vec<u32>,
    special_char: Vec<u32>,
    space_count: usize,
    upper_case_status: u8,
    has_handled_macro: bool,
    has_handle_quick_consonant: bool,
    will_temp_off_engine: bool,
    use_spell_checking_before: bool,
    /// Output of the last key event.
    pub state: HookState,
    vowel_start_index: usize,
    vowel_end_index: usize,
    vowel_will_set_mark: usize,
    vowel_count: usize,
    is_correct: bool,
    is_changed: bool,
    is_restored_w: bool,
    temp_disable_key: bool,
    is_caps: bool,
}

impl Engine {
    /// The engine's invariant: the word and key-state lengths stay within the buffer.
    pub closed spec fn wf(&self) -> bool {
        &&& self.index <= MAX_BUFF
        &&& self.state_index <= MAX_BUFF
    }

    /// Length of the word being typed.
    pub closed spec fn spec_len(&self) -> nat {
        self.index as nat
    }

    /// Entry `i` of the word being typed; 0 past the buffer.
    pub closed spec fn spec_word(&self, i: int) -> u32 {
        if 0 <= i < 32 { self.typing_word[i] } else { 0 }
    }

    /// The configuration the engine reads.
    pub closed spec fn spec_cfg(&self) -> EngineConfig {
        self.cfg
    }

    /// The output of the last key event.
    pub closed spec fn spec_state(&self) -> HookState {
        self.state
    }

    /// Character (low 16 bits) of entry `i`; 0 past the buffer.
    pub closed spec fn spec_chr(&self, i: int) -> u16 {
        if 0 <= i < 32 { (self.typing_word[i] & 0xFFFF) as u16 } else { 0 }
    }

    /// No word is being typed, no spaces or punctuation wait to be recorded, and
    /// the engine is not switched off for the rest of a word.
    pub closed spec fn at_word_start(&self) -> bool {
        &&& self.index == 0
        &&& self.space_count == 0
        &&& self.special_char@.len() == 0
        &&& !self.will_temp_off_engine
    }

    /// Entry `i` of the word being typed; 0 past the buffer.
    pub fn word(&self, index: usize) -> (r: u32)
        ensures r == self.spec_word(index as int),
    {
        if index < 32 { self.typing_word[index] } else { 0 }
    }

    /// Current word length.
    pub fn len(&self) -> (r: usize)
        ensures
            r == self.spec_len(),
            self.wf() ==> r <= MAX_BUFF,
    {
        self.index
    }

    /// Raw character at `index` in the typing word (low 16 bits).
    fn chr(&self, index: usize) -> (r: u16)
        ensures r == self.spec_chr(index as int),
    {
        if index < 32 { #[verifier::truncate] ((self.typing_word[index] & 0xFFFF) as u16) } else { 0 }
    }

    /// Converts a typing-word entry into a real character in the configured code table.
    pub fn get_character_code(&mut self, data: u32) -> (r: u32)
        ensures
            r == spec_character_code(old(self).spec_cfg().code_table as int, data),
            *final(self) == *old(self),
    {
        character_code(self.cfg.code_table, data)
    }

    /// The key adds a horn or a breve ("w"; "7" or "8" in VNI).
    pub closed spec fn spec_is_key_w(&self, key: u16) -> bool {
        if self.cfg.input_type != InputType::Vni {
            spec_processing_char(self.cfg.input_type, 8) == key
        } else {
            spec_processing_char(self.cfg.input_type, 8) == key
                || spec_processing_char(self.cfg.input_type, 7) == key
        }
    }

    /// The mark that a mark key puts on a vowel (sắc, huyền, hỏi, ngã, nặng), 0 for another key.
    pub closed spec fn spec_mark_of_key(&self, data: u16) -> u32 {
        if spec_processing_char(self.cfg.input_type, 0) == data {
            MARK1_MASK
        } else if spec_processing_char(self.cfg.input_type, 1) == data {
            MARK2_MASK
        } else if spec_processing_char(self.cfg.input_type, 2) == data {
            MARK3_MASK
        } else if spec_processing_char(self.cfg.input_type, 3) == data {
            MARK4_MASK
        } else if spec_processing_char(self.cfg.input_type, 4) == data {
            MARK5_MASK
        } else {
            0
        }
    }

    fn is_key_z(&self, key: u16) -> (r: bool)
        ensures r == (spec_processing_char(self.cfg.input_type, 10) == key),
    {
        processing_char(self.cfg.input_type, 10) == key
    }

    fn is_key_d(&self, key: u16) -> (r: bool)
        ensures r == (spec_processing_char(self.cfg.input_type, 9) == key),
    {
        processing_char(self.cfg.input_type, 9) == key
    }

    fn is_key_w(&self, key: u16) -> (r: bool)
        ensures r == self.spec_is_key_w(key),
    {
        if self.cfg.input_type != InputType::Vni {
            processing_char(self.cfg.input_type, 8) == key
        } else {
            processing_char(self.cfg.input_type, 8) == key
                || processing_char(self.cfg.input_type, 7) == key
        }
    }

    fn is_key_double(&self, key: u16) -> (r: bool)
        ensures
            r == (if self.cfg.input_type != InputType::Vni {
                spec_processing_char(self.cfg.input_type, 5) == key
                    || spec_processing_char(self.cfg.input_type, 6) == key
                    || spec_processing_char(self.cfg.input_type, 7) == key
            } else {
                spec_processing_char(self.cfg.input_type, 6) == key
            }),
    {
        if self.cfg.input_type != InputType::Vni {
            processing_char(self.cfg.input_type, 5) == key
                || processing_char(self.cfg.input_type, 6) == key
                || processing_char(self.cfg.input_type, 7) == key
        } else {
            processing_char(self.cfg.input_type, 6) == key
        }
    }

    fn is_key_s(&self, key: u16) -> (r: bool)
        ensures r == (spec_processing_char(self.cfg.input_type, 0) == key),
    {
        processing_char(self.cfg.input_type, 0) == key
    }

    fn is_key_f(&self, key: u16) -> (r: bool)
        ensures r == (spec_processing_char(self.cfg.input_type, 1) == key),
    {
        processing_char(self.cfg.input_type, 1) == key
    }

    fn is_key_r(&self, key: u16) -> (r: bool)
        ensures r == (spec_processing_char(self.cfg.input_type, 2) == key),
    {
        processing_char(self.cfg.input_type, 2) == key
    }

    fn is_key_x(&self, key: u16) -> (r: bool)
        ensures r == (spec_processing_char(self.cfg.input_type, 3) == key),
    {
        processing_char(self.cfg.input_type, 3) == key
    }

    fn is_key_j(&self, key: u16) -> (r: bool)
        ensures r == (spec_processing_char(self.cfg.input_type, 4) == key),
    {
        processing_char(self.cfg.input_type, 4) == key
    }

    /// The key repeats the last typed letter and is a quick-telex key.
    /// The key is a quick telex key typed right after itself.
    pub closed spec fn spec_qt_at(&self, code: u16) -> bool {
        self.index > 0 && spec_is_quick_telex_key(code) && self.spec_chr(self.index - 1) == code
    }

    fn is_quick_telex_key(&self, code: u16) -> (r: bool)
        requires self.wf(),
        ensures
            r == (self.index > 0 && spec_is_quick_telex_key(code)
                && self.spec_chr(self.index - 1) == code),
    {
        self.index > 0 && is_quick_telex_key(code) && self.chr(self.index - 1) == code
    }
}

/// A copy of the entries `v`.
fn copy_entries(v: &Vec<u32>) -> (r: Vec<u32>)
    ensures r@ == v@,
{
    let mut r: Vec<u32> = Vec::new();
    let mut i: usize = 0;
    while i < v.len()
        invariant
            i <= v.len(),
            r@ == v@.subrange(0, i as int),
        decreases v.len() - i,
    {
        r.push(v[i]);
        i = i + 1;
    }
    r
}

impl Default for Engine {
    fn default() -> (r: Self)
        ensures
            r.wf(),
            r.spec_len() == 0,
            r.spec_cfg().is_default(),
            r.spec_state().is_initial(),
            r.at_word_start(),
    {
        Engine {
            cfg: EngineConfig::default(),
            typing_word: [0u32; 32],
            index: 0,
            long_word_helper: Vec::new(),
            key_states: [0u32; 32],
            state_index: 0,
            typing_states: Vec::new(),
            typing_states_data: Vec::new(),
            special_char: Vec::new(),
            space_count: 0,
            upper_case_status: 0,
            has_handled_macro: false,
            has_handle_quick_consonant: false,
            will_temp_off_engine: false,
            use_spell_checking_before: true,
            state: HookState::default(),
            vowel_start_index: 0,
            vowel_end_index: 0,
            vowel_will_set_mark: 0,
            vowel_count: 0,
            is_correct: false,
            is_changed: false,
            is_restored_w: false,
            temp_disable_key: false,
            is_caps: false,
        }
    }
}

/// The vowels whose mark tables a mark key is tried on, in order.
pub open spec fn spec_mark_vowels() -> Seq<u16> {
    seq![KEY_A, KEY_E, KEY_Y, KEY_O, KEY_U, KEY_I]
}

/// A word length after one more letter: the buffer keeps its last place free.
pub open spec fn spec_grown(n: int) -> int {
    if n < MAX_BUFF - 1 { n + 1 } else { n }
}

/// The word `w` of length `n` with its first letter replaced by the two
/// letters `q0`, `q1`: the first with the case of the old first letter, the
/// second capital when the first two letters both were; the rest shifted right
/// by one (in a full buffer the last letter falls off).
pub open spec fn spec_start_word(w: Seq<u32>, n: int, q0: u16, q1: u16) -> Seq<u32> {
    let n1 = spec_grown(n);
    let cap0: u32 = if (w[0] & CAPS_MASK) != 0 { CAPS_MASK } else { 0 };
    let cap1: u32 = if (w[0] & CAPS_MASK) != 0 && (w[1] & CAPS_MASK) != 0 { CAPS_MASK } else { 0 };
    Seq::new(32, |j: int| if j == 0 { q0 as u32 | cap0 } else if j == 1 { q1 as u32 | cap1 }
        else if j < n1 { w[j - 1] } else { w[j] })
}

/// The word `w` of length `n` with its last letter replaced by the two letters
/// `e0`, `e1`, both in the case of the letter before the new last one (in a
/// full buffer they replace the last two letters).
pub open spec fn spec_end_word(w: Seq<u32>, n: int, e0: u16, e1: u16) -> Seq<u32> {
    let m2 = spec_grown(n);
    let cap: u32 = if (w[m2 - 2] & CAPS_MASK) != 0 { CAPS_MASK } else { 0 };
    w.update(m2 - 1, e1 as u32 | cap).update(m2 - 2, e0 as u32 | cap)
}

/// Entry `i` of the word is one of "n", "c", "i", "m", "p", "t" after "uo".
pub open spec fn spec_uo_before(w: Seq<u32>, i: int) -> bool {
    let c = spec_letter(w[i]);
    &&& (c == KEY_N || c == KEY_C || c == KEY_I || c == KEY_M || c == KEY_P || c == KEY_T)
    &&& spec_letter(w[i - 1]) == KEY_O
    &&& spec_letter(w[i - 2]) == KEY_U
}

/// The grammar check leaves the word `w` alone: it has one letter or fills the
/// buffer, or no letter carries a tone mark and every "uo" before "n", "c",
/// "i", "m", "p" or "t" has its horns on both vowels or on neither.
pub open spec fn spec_grammar_quiet(w: Seq<u32>) -> bool {
    ||| w.len() <= 1
    ||| w.len() >= 32
    ||| {
        &&& forall|j: int| 0 <= j < w.len() ==> (#[trigger] w[j] & MARK_MASK) == 0
        &&& forall|i: int| 2 <= i < w.len() && #[trigger] spec_uo_before(w, i)
            ==> (w[i - 1] & TONEW_MASK) == (w[i - 2] & TONEW_MASK)
    }
}

/// Entry `j` of a word, 0 past its end.
pub open spec fn spec_entry(b: Seq<u32>, j: int) -> u32 {
    if 0 <= j < b.len() { b[j] } else { 0 }
}

/// The letter of an entry (its low 16 bits).
pub open spec fn spec_letter(w: u32) -> u16 {
    (w & 0xFFFF) as u16
}

/// The W key on a vowel group at `v` whose first vowel has a horn already,
/// followed by a horned vowel, "i" or "a".
pub open spec fn spec_w_group_restores_at(b: Seq<u32>, v: int) -> bool {
    (spec_entry(b, v) & TONEW_MASK) != 0
        && ((spec_entry(b, v + 1) & TONEW_MASK) != 0 || spec_letter(spec_entry(b, v + 1)) == KEY_I
            || spec_letter(spec_entry(b, v + 1)) == KEY_A)
}

/// An entry whose letter is "a", "o" or "u".
pub open spec fn spec_is_aou(w: u32) -> bool {
    spec_letter(w) == KEY_A || spec_letter(w) == KEY_O || spec_letter(w) == KEY_U
}

/// The W key finds a horn or breve already on this "a", "o" or "u".
pub open spec fn spec_w_toggles(w: u32) -> bool {
    spec_is_aou(w) && (w & TONEW_MASK) != 0
}

/// ... and takes it off, giving the letters back as typed: a horn on an "o",
/// or one that was not typed as a standalone letter.
pub open spec fn spec_w_restores(w: u32) -> bool {
    spec_w_toggles(w) && ((w & STANDALONE_MASK) == 0 || spec_letter(w) == KEY_O)
}

/// An "a", "o" or "u" entry after the W key: it takes a horn or breve (and
/// loses a circumflex); one that had it loses it; a standalone "ư" goes back
/// to the key "w" and a standalone "ơ" to "o".
pub open spec fn spec_w_on_letter(w: u32) -> u32 {
    let caps: u32 = if (w & CAPS_MASK) != 0 { CAPS_MASK } else { 0 };
    if (w & TONEW_MASK) == 0 {
        (w | TONEW_MASK) & !TONE_MASK
    } else if (w & STANDALONE_MASK) != 0 {
        if spec_letter(w) == KEY_U { KEY_W as u32 | caps }
        else if spec_letter(w) == KEY_O { KEY_O as u32 | caps }
        else { w }
    } else {
        w & !TONEW_MASK
    }
}

/// What the W key reports for entries `j..hi`: decided by the first entry that
/// had a horn or breve (a restore, or a standalone "ư" turned back), else an edit.
pub open spec fn spec_w_code(b: Seq<u32>, j: int, hi: int) -> HookCode
    decreases hi - j,
{
    if j >= hi {
        HookCode::WillProcess
    } else if spec_w_toggles(b[j]) {
        if spec_w_restores(b[j]) { HookCode::Restore } else { HookCode::WillProcess }
    } else {
        spec_w_code(b, j + 1, hi)
    }
}

/// Vowel pairs on which the W key puts a horn or a breve: "uo", "ua", "ui",
/// "uu", "oi", "io", "oa".
pub open spec fn spec_w_group_takes_horn(c0: u16, c1: u16) -> bool {
    ||| (c0 == KEY_U && (c1 == KEY_O || c1 == KEY_A || c1 == KEY_I || c1 == KEY_U))
    ||| (c0 == KEY_O && (c1 == KEY_I || c1 == KEY_A))
    ||| (c0 == KEY_I && c1 == KEY_O)
}

impl Engine {
    /// Stores `key_code` in the word, shifting the oldest entry out when the buffer is full.
    #[verifier::spinoff_prover]
    #[verifier::rlimit(100)]
    fn insert_key(&mut self, key_code: u16, is_caps: bool, is_check_spelling: bool)
        requires old(self).wf(),
        ensures
            final(self).wf(),
            final(self).cfg == old(self).cfg,
            final(self).state == old(self).state,
            final(self).index == (if old(self).index < MAX_BUFF { old(self).index + 1 } else { MAX_BUFF as int }),
            final(self).typing_word[final(self).index - 1] == spec_with_caps(key_code, is_caps),
            final(self).is_changed == old(self).is_changed,
            old(self).index < MAX_BUFF ==> final(self).spec_word_seq()
                == old(self).spec_word_seq().push(spec_with_caps(key_code, is_caps)),
    {
        if self.index >= MAX_BUFF {
            self.long_word_helper.push(self.typing_word[0]);
            let mut iii: usize = 0;
            while iii < MAX_BUFF - 1
                invariant
                    self.is_changed == old(self).is_changed,
                    iii <= MAX_BUFF - 1,
                    self.index == old(self).index,
                    self.state_index == old(self).state_index,
                    self.cfg == old(self).cfg,
                    self.state == old(self).state,
                decreases MAX_BUFF - 1 - iii,
            {
                self.typing_word[iii] = self.typing_word[iii + 1];
                iii = iii + 1;
            }
            self.typing_word[self.index - 1] = with_caps(key_code, is_caps);
        } else {
            self.typing_word[self.index] = with_caps(key_code, is_caps);
            self.index = self.index + 1;
            assert(self.spec_word_seq() =~= old(self).spec_word_seq().push(spec_with_caps(key_code, is_caps)));
        }
        let ghost last = self.typing_word[self.index - 1];
        if self.cfg.check_spelling && is_check_spelling {
            self.check_spelling(false);
        }
        // allow d after consonant
        if key_code == KEY_D && self.index >= 2 && is_consonant(self.chr(self.index - 2)) {
            self.temp_disable_key = false;
        }
    }

    /// Records the key as typed, shifting the oldest out when the record is full.
    fn insert_state(&mut self, key_code: u16, is_caps: bool)
        requires old(self).wf(),
        ensures
            final(self).wf(),
            final(self).cfg == old(self).cfg,
            final(self).state == old(self).state,
            final(self).index == old(self).index,
            final(self).typing_word == old(self).typing_word,
            final(self).is_caps == old(self).is_caps,
            final(self).will_temp_off_engine == old(self).will_temp_off_engine,
            final(self).space_count == old(self).space_count,
            final(self).special_char == old(self).special_char,
            final(self).temp_disable_key == old(self).temp_disable_key,
            old(self).state_index < MAX_BUFF ==> {
                &&& final(self).state_index == old(self).state_index + 1
                &&& final(self).key_states@ == old(self).key_states@.update(
                    old(self).state_index as int, spec_with_caps(key_code, is_caps))
            },
            old(self).state_index >= MAX_BUFF ==> {
                &&& final(self).state_index == old(self).state_index
                &&& final(self).key_states@ == old(self).key_states@.subrange(1, 32)
                    .push(spec_with_caps(key_code, is_caps))
            },
    {
        if self.state_index >= MAX_BUFF {
            let mut iii: usize = 0;
            while iii < MAX_BUFF - 1
                invariant
                    iii <= MAX_BUFF - 1,
                    self.index == old(self).index,
                    self.state_index == old(self).state_index,
                    self.cfg == old(self).cfg,
                    self.state == old(self).state,
                    self.typing_word == old(self).typing_word,
                    self.is_caps == old(self).is_caps,
                    self.will_temp_off_engine == old(self).will_temp_off_engine,
                    self.space_count == old(self).space_count,
                    self.temp_disable_key == old(self).temp_disable_key,
                    self.special_char == old(self).special_char,
                    forall|t: int| 0 <= t < iii ==> self.key_states@[t] == old(self).key_states@[t + 1],
                    forall|t: int| iii <= t < 32 ==> self.key_states@[t] == old(self).key_states@[t],
                decreases MAX_BUFF - 1 - iii,
            {
                self.key_states[iii] = self.key_states[iii + 1];
                iii = iii + 1;
            }
            self.key_states[self.state_index - 1] = with_caps(key_code, is_caps);
            assert(self.key_states@ =~= old(self).key_states@.subrange(1, 32)
                .push(spec_with_caps(key_code, is_caps)));
        } else {
            self.key_states[self.state_index] = with_caps(key_code, is_caps);
            self.state_index = self.state_index + 1;
            assert(self.key_states@ =~= old(self).key_states@.update(
                old(self).state_index as int, spec_with_caps(key_code, is_caps)));
        }
    }

    /// Where the spelling check ends: before a last "]", else at the end of the word.
    pub closed spec fn spec_spelling_end(&self) -> int {
        if self.index > 0 && self.spec_chr(self.index - 1) == KEY_RIGHT_BRACKET {
            self.index - 1
        } else {
            self.index as int
        }
    }

    /// Letter `i` of the word is letter `i` of a first-consonant entry (the quick
    /// start and the z/f/w/j marks count when their options are on).
    pub closed spec fn spec_cons_match(&self, e: Seq<u16>, i: int) -> bool {
        let sm: u16 = if self.cfg.quick_start_consonant { END_CONSONANT_MASK } else { 0 };
        let am: u16 = if self.cfg.allow_consonant_zfwj { CONSONANT_ALLOW_MASK } else { 0 };
        (e[i] & !sm) == self.spec_chr(i) || (e[i] & !am) == self.spec_chr(i)
    }

    /// The word (up to `sei`) starts with the first-consonant entry `e`.
    pub closed spec fn spec_cons_entry_ok(&self, e: Seq<u16>, sei: int) -> bool {
        e.len() <= sei && forall|i: int| 0 <= i < e.len() ==> #[trigger] self.spec_cons_match(e, i)
    }

    /// Length of the first entry, from `t` on, of the first-consonant table that
    /// the word starts with; 0 when none does.
    pub closed spec fn spec_first_cons(&self, t: int, sei: int) -> int
        decreases spec_consonant_table().len() - t,
    {
        if t < 0 || t >= spec_consonant_table().len() {
            0
        } else if self.spec_cons_entry_ok(spec_consonant_table()[t], sei) {
            spec_consonant_table()[t].len() as int
        } else {
            self.spec_first_cons(t + 1, sei)
        }
    }

    /// Where the vowels start after a first consonant of length `j`: past the
    /// "u" of "qu", and at the "i" of "gi" before a consonant.
    pub closed spec fn spec_vowel_start(&self, j: int, sei: int) -> int {
        if self.spec_chr(j) == KEY_U && j > 0 && j < sei - 1 && self.spec_chr(j - 1) == KEY_Q {
            j + 1
        } else if self.index >= 2 && self.spec_chr(0) == KEY_G && self.spec_chr(1) == KEY_I
            && !spec_is_vowel(self.spec_chr(2)) {
            1
        } else {
            j
        }
    }

    /// The end of the run of at most `steps` vowels from `k`, before `sei`.
    pub closed spec fn spec_vowel_run(&self, k: int, sei: int, steps: nat) -> int
        decreases steps,
    {
        if steps == 0 || k >= sei || !spec_is_vowel(self.spec_chr(k)) {
            k
        } else {
            self.spec_vowel_run(k + 1, sei, (steps - 1) as nat)
        }
    }

    /// Entry `p` as the vowel tables write it: the letter with its circumflex and horn.
    pub closed spec fn spec_vc_letter(&self, p: int) -> u32 {
        (self.spec_word(p) & TONEW_MASK) | (self.spec_word(p) & TONE_MASK) | (self.spec_chr(p) as u32)
    }

    /// The vowels from `j` (of the run `j..k`) are spelled by the vowel
    /// combination `e`: its letters match, it may stand before what follows
    /// (its first value is 0 when it cannot take an end consonant), and no
    /// further vowel follows it.
    pub closed spec fn spec_vc_entry_ok(&self, e: Seq<u32>, j: int, k: int, sei: int) -> bool {
        let f: int = if e.len() >= 1 { e.len() as int } else { 1 };
        &&& forall|ii: int| 1 <= ii < e.len() && ii <= sei - j ==> #[trigger] e[ii] == self.spec_vc_letter(j + ii - 1)
        &&& !(k < sei && e.len() > 0 && e[0] == 0)
        &&& !(f <= sei - j && spec_is_vowel(self.spec_chr(j + f - 1)))
    }

    /// The vowels of the word are spelled right: a run of two or more, when
    /// checked, is one of the combinations of its first vowel; otherwise the
    /// vowel start is a vowel.
    pub closed spec fn spec_vowels_ok(&self, j: int, k: int, sei: int, force: bool) -> bool {
        if k - j > 1 && force {
            exists|t: int| 0 <= t < spec_vowel_combine_table(self.spec_chr(j)).len()
                && #[trigger] self.spec_vc_entry_ok(spec_vowel_combine_table(self.spec_chr(j))[t], j, k, sei)
        } else {
            spec_is_vowel(self.spec_chr(j))
        }
    }

    /// What follows the vowels (from `k` to `sei`) is the end-consonant entry `e`.
    pub closed spec fn spec_end_entry_ok(&self, e: Seq<u16>, k: int, sei: int) -> bool {
        let em: u16 = if self.cfg.quick_end_consonant { END_CONSONANT_MASK } else { 0 };
        &&& e.len() >= sei - k
        &&& forall|jj: int| 0 <= jj < e.len() && jj < sei - k ==> (#[trigger] e[jj] & !em) == self.spec_chr(k + jj)
    }

    /// What follows the vowels is an end consonant of the table.
    pub closed spec fn spec_end_ok(&self, k: int, sei: int) -> bool {
        exists|t: int| 0 <= t < spec_end_consonant_table().len()
            && #[trigger] self.spec_end_entry_ok(spec_end_consonant_table()[t], k, sei)
    }

    /// The entry carries the acute or the dot below, or no mark at all.
    pub closed spec fn spec_mark_fits_stop(w: u32) -> bool {
        (w & MARK1_MASK) != 0 || (w & MARK5_MASK) != 0 || (w & MARK_MASK) == 0
    }

    /// A word ending in "ch" or "t" whose vowel carries a grave, hook or tilde.
    pub closed spec fn spec_stop_mark_wrong(&self) -> bool {
        let n = self.index as int;
        ||| (n >= 3 && self.spec_chr(n - 1) == KEY_H && self.spec_chr(n - 2) == KEY_C
            && !Self::spec_mark_fits_stop(self.spec_word(n - 3)))
        ||| (n >= 2 && self.spec_chr(n - 1) == KEY_T && !Self::spec_mark_fits_stop(self.spec_word(n - 2)))
    }

    /// The word can still be a Vietnamese word: a first consonant of the table
    /// (or none), then vowels spelled right, then an end consonant of the table
    /// (or none), with no grave, hook or tilde before "ch" or "t". A word of
    /// consonants alone passes only as a whole first consonant.
    pub closed spec fn spec_spelling_ok(&self, force: bool) -> bool {
        let sei = self.spec_spelling_end();
        if sei <= 0 {
            true
        } else {
            let j0 = if spec_is_vowel(self.spec_chr(0)) { 0 } else { self.spec_first_cons(0, sei) };
            let j = self.spec_vowel_start(j0, sei);
            let k = self.spec_vowel_run(j, sei, 3);
            if k > j {
                &&& (j0 == sei || self.spec_end_ok(k, sei))
                &&& !self.spec_stop_mark_wrong()
                &&& self.spec_vowels_ok(j, k, sei, force)
            } else {
                j0 == sei
            }
        }
    }

    /// Length of the first consonant the word starts with (see `spec_first_cons`).
    fn first_consonant_len(&self, sei: usize) -> (j: usize)
        requires
            self.wf(),
            0 < sei <= self.index,
        ensures
            j == self.spec_first_cons(0, sei as int),
    {
        let start_mask: u16 = if self.cfg.quick_start_consonant { END_CONSONANT_MASK } else { 0 };
        let allow_mask: u16 = if self.cfg.allow_consonant_zfwj { CONSONANT_ALLOW_MASK } else { 0 };
        let table = consonant_table();
        let ghost tbl = spec_consonant_table();
        assert(tbl.len() == 33 && tbl[32].len() == 1);
        let mut j: usize = 0;
        let mut t: usize = 0;
        while t < table.len()
            invariant_except_break
                t > 0 ==> tbl[t - 1].len() == 1 ==> j == 0,
            invariant
                t <= table.len(),
                table@.len() == tbl.len(),
                start_mask == (if self.cfg.quick_start_consonant { END_CONSONANT_MASK } else { 0u16 }),
                allow_mask == (if self.cfg.allow_consonant_zfwj { CONSONANT_ALLOW_MASK } else { 0u16 }),
                rows_match(table@, tbl),
                tbl == spec_consonant_table(),
                tbl.len() == 33 && tbl[32].len() == 1,
                0 < sei <= self.index,
                self.wf(),
                self.spec_first_cons(t as int, sei as int) == self.spec_first_cons(0, sei as int),
            ensures
                j == self.spec_first_cons(0, sei as int),
            decreases table.len() - t,
        {
            let entry = &table[t];
            assert(entry@ == tbl[t as int]);
            let mut flag = false;
            if sei < entry.len() {
                flag = true;
            }
            j = 0;
            while j < entry.len()
                invariant_except_break
                    flag == (sei < entry.len()),
                invariant
                    j <= entry.len(),
                    t < tbl.len(),
                    entry@ == tbl[t as int],
                    0 < sei <= self.index,
                    start_mask == (if self.cfg.quick_start_consonant { END_CONSONANT_MASK } else { 0u16 }),
                    allow_mask == (if self.cfg.allow_consonant_zfwj { CONSONANT_ALLOW_MASK } else { 0u16 }),
                    forall|i: int| 0 <= i < j && i < sei ==> #[trigger] self.spec_cons_match(entry@, i),
                ensures
                    !flag ==> j == entry.len() && self.spec_cons_entry_ok(entry@, sei as int),
                    flag ==> !self.spec_cons_entry_ok(entry@, sei as int),
                    flag && sei >= 1 && entry.len() == 1 ==> j == 0,
                decreases entry.len() - j,
            {
                if sei > j && (entry[j] & !start_mask) != self.chr(j)
                    && (entry[j] & !allow_mask) != self.chr(j) {
                    flag = true;
                    assert(!self.spec_cons_match(entry@, j as int));
                    break;
                }
                j = j + 1;
            }
            if flag {
                t = t + 1;
                continue;
            }
            break;
        }
        j
    }

    /// Whether the vowels `j..k` are one of the combinations of their first vowel.
    fn vowel_combination_ok(&self, j: usize, k: usize, sei: usize) -> (r: bool)
        requires
            self.wf(),
            j < k <= sei,
            sei <= self.index,
        ensures
            r == (exists|t: int| 0 <= t < spec_vowel_combine_table(self.spec_chr(j as int)).len()
                && #[trigger] self.spec_vc_entry_ok(spec_vowel_combine_table(self.spec_chr(j as int))[t],
                    j as int, k as int, sei as int)),
    {
        let vowel_set = vowel_combine_table(self.chr(j));
        let ghost tbl = spec_vowel_combine_table(self.spec_chr(j as int));
        let mut t: usize = 0;
        while t < vowel_set.len()
            invariant
                t <= vowel_set.len(),
                rows_match(vowel_set@, tbl),
                tbl == spec_vowel_combine_table(self.spec_chr(j as int)),
                j < k <= sei,
                sei <= self.index,
                self.wf(),
                forall|u: int| 0 <= u < t ==> !#[trigger] self.spec_vc_entry_ok(tbl[u], j as int, k as int, sei as int),
            decreases vowel_set.len() - t,
        {
            let entry = &vowel_set[t];
            assert(entry@ == tbl[t as int]);
            let mut flag = false;
            let mut ii: usize = 1;
            while ii < entry.len()
                invariant_except_break
                    !flag,
                invariant
                    1 <= ii,
                    ii <= entry.len() || entry.len() == 0,
                    entry.len() == 0 ==> ii == 1,
                    j < sei,
                    sei <= self.index,
                    self.wf(),
                    forall|i2: int| 1 <= i2 < ii && i2 <= sei - j ==> #[trigger] entry@[i2] == self.spec_vc_letter(j + i2 - 1),
                ensures
                    !flag ==> ii == (if entry.len() >= 1 { entry.len() } else { 1 }),
                    !flag ==> forall|i2: int| 1 <= i2 < entry.len() && i2 <= sei - j ==> #[trigger] entry@[i2] == self.spec_vc_letter(j + i2 - 1),
                    flag ==> exists|i2: int| 1 <= i2 < entry.len() && i2 <= sei - j && #[trigger] entry@[i2] != self.spec_vc_letter(j + i2 - 1),
                decreases entry.len() - ii,
            {
                if ii <= sei - j {
                    let w = self.word(j + ii - 1);
                    let expected = (w & TONEW_MASK) | (w & TONE_MASK) | (self.chr(j + ii - 1) as u32);
                    if entry[ii] != expected {
                        flag = true;
                        assert(entry@[ii as int] != self.spec_vc_letter(j + ii - 1));
                        break;
                    }
                }
                ii = ii + 1;
            }
            if flag || (k < sei && entry.len() > 0 && entry[0] == 0)
                || (ii <= sei - j && !is_consonant(self.chr(j + ii - 1))) {
                t = t + 1;
                continue;
            }
            assert(self.spec_vc_entry_ok(tbl[t as int], j as int, k as int, sei as int));
            return true;
        }
        false
    }

    /// Whether what follows the vowels (from `k` to `sei`) is an end consonant.
    fn end_consonant_ok(&self, k: usize, sei: usize) -> (r: bool)
        requires
            self.wf(),
            k <= sei,
            sei <= self.index,
        ensures
            r == self.spec_end_ok(k as int, sei as int),
    {
        let end_table = end_consonant_table();
        let ghost tbl = spec_end_consonant_table();
        let mask: u16 = if self.cfg.quick_end_consonant { END_CONSONANT_MASK } else { 0 };
        let mut t: usize = 0;
        while t < end_table.len()
            invariant
                t <= end_table.len(),
                rows_match(end_table@, tbl),
                tbl == spec_end_consonant_table(),
                k <= sei,
                sei <= self.index,
                self.wf(),
                mask == (if self.cfg.quick_end_consonant { END_CONSONANT_MASK } else { 0u16 }),
                forall|u: int| 0 <= u < t ==> !#[trigger] self.spec_end_entry_ok(tbl[u], k as int, sei as int),
            decreases end_table.len() - t,
        {
            let end_entry = &end_table[t];
            assert(end_entry@ == tbl[t as int]);
            let mut flag = false;
            let mut jj: usize = 0;
            while jj < end_entry.len()
                invariant_except_break
                    !flag,
                invariant
                    jj <= end_entry.len(),
                    k <= sei,
                    sei <= self.index,
                    self.wf(),
                    forall|j2: int| 0 <= j2 < jj && j2 < sei - k ==> (#[trigger] end_entry@[j2] & !mask) == self.spec_chr(k + j2),
                ensures
                    !flag ==> jj == end_entry.len(),
                    !flag ==> forall|j2: int| 0 <= j2 < end_entry.len() && j2 < sei - k ==> (#[trigger] end_entry@[j2] & !mask) == self.spec_chr(k + j2),
                    flag ==> exists|j2: int| 0 <= j2 < end_entry.len() && j2 < sei - k && (#[trigger] end_entry@[j2] & !mask) != self.spec_chr(k + j2),
                decreases end_entry.len() - jj,
            {
                if sei - k > jj {
                    if (end_entry[jj] & !mask) != self.chr(k + jj) {
                        flag = true;
                        break;
                    }
                }
                jj = jj + 1;
            }
            if flag {
                t = t + 1;
                continue;
            }
            if jj >= sei - k {
                assert(self.spec_end_entry_ok(tbl[t as int], k as int, sei as int));
                return true;
            }
            t = t + 1;
        }
        false
    }

    /// Checks the spelling of the word typed so far and disables the
    /// processing keys while it cannot be a Vietnamese word.
    #[verifier::spinoff_prover]
    #[verifier::rlimit(100)]
    fn check_spelling(&mut self, force_check_vowel: bool)
        requires old(self).wf(),
        ensures
            final(self).wf(),
            final(self).cfg == old(self).cfg,
            final(self).state == old(self).state,
            final(self).index == old(self).index,
            final(self).typing_word == old(self).typing_word,
            final(self).state_index == old(self).state_index,
            final(self).key_states == old(self).key_states,
            // only the switch of the processing keys changes
            *final(self) == (Engine { temp_disable_key: final(self).temp_disable_key, ..*old(self) }),
            // it is on exactly while the word cannot be spelled
            final(self).temp_disable_key == !old(self).spec_spelling_ok(force_check_vowel),
            // an empty word (or one of only "]") can take any key
            old(self).index == 0 ==> !final(self).temp_disable_key,
            old(self).index == 1 && old(self).spec_chr(0) == KEY_RIGHT_BRACKET ==> !final(self).temp_disable_key,
    {
        let ok = self.spelling_ok(force_check_vowel);
        self.temp_disable_key = !ok;
    }

    /// Whether the word typed so far can still be a Vietnamese word.
    #[verifier::spinoff_prover]
    #[verifier::rlimit(100)]
    fn spelling_ok(&self, force_check_vowel: bool) -> (r: bool)
        requires self.wf(),
        ensures r == self.spec_spelling_ok(force_check_vowel),
    {
        let mut spelling_ok = false;
        let mut spelling_vowel_ok = true;
        let mut sei: usize = self.index;
        if self.index > 0 && self.chr(self.index - 1) == KEY_RIGHT_BRACKET {
            sei = self.index - 1;
        }
        if sei > 0 {
            // first consonant
            let mut j: usize = 0;
            if is_consonant(self.chr(0)) {
                j = self.first_consonant_len(sei);
            }
            let ghost j0 = j as int;
            proof {
                assert(spec_consonant_table().len() == 33);
                self.lemma_first_cons_bounded(0, sei as int);
            }
            if j == sei {
                // for "d" case
                spelling_ok = true;
            }
            // next, the vowel
            let mut k: usize = j;
            let mut vowel_start_index: usize = k;
            if self.chr(vowel_start_index) == KEY_U && k > 0 && k < sei - 1
                && self.chr(vowel_start_index - 1) == KEY_Q {
                // fix "que't"
                k = k + 1;
                j = k;
                vowel_start_index = k;
            } else if self.index >= 2 && self.chr(0) == KEY_G && self.chr(1) == KEY_I
                && is_consonant(self.chr(2)) {
                // fix "gìn"
                vowel_start_index = 1;
                k = 1;
                j = 1;
            }
            assert(j as int == self.spec_vowel_start(j0, sei as int));
            let mut step: usize = 0;
            while step < 3
                invariant
                    step <= 3,
                    j <= sei,
                    j <= k <= sei,
                    sei <= self.index,
                    self.wf(),
                    self.spec_vowel_run(k as int, sei as int, (3 - step) as nat)
                        == self.spec_vowel_run(j as int, sei as int, 3),
                decreases 3 - step,
            {
                if k < sei && !is_consonant(self.chr(k)) {
                    k = k + 1;
                }
                step = step + 1;
            }
            assert(k as int == self.spec_vowel_run(j as int, sei as int, 3));
            if k > j {
                // has vowel
                spelling_vowel_ok = false;
                if k - j > 1 && force_check_vowel {
                    // check correct combined vowel
                    spelling_vowel_ok = self.vowel_combination_ok(j, k, sei);
                } else if !is_consonant(self.chr(j)) {
                    spelling_vowel_ok = true;
                }
                // continue: the last consonant
                if self.end_consonant_ok(k, sei) {
                    spelling_ok = true;
                }
                // limit: end consonant "ch", "t" can not take "~", "`", "?"
                if spelling_ok && self.stop_mark_wrong() {
                    spelling_ok = false;
                }
            }
        } else {
            spelling_ok = true;
        }
        spelling_ok && spelling_vowel_ok
    }

    /// Whether the word ends in "ch" or "t" after a grave, hook or tilde.
    fn stop_mark_wrong(&self) -> (r: bool)
        requires self.wf(),
        ensures r == self.spec_stop_mark_wrong(),
    {
        if self.index >= 3 && self.chr(self.index - 1) == KEY_H && self.chr(self.index - 2) == KEY_C
            && !((self.word(self.index - 3) & MARK1_MASK) != 0
                || (self.word(self.index - 3) & MARK5_MASK) != 0
                || (self.word(self.index - 3) & MARK_MASK) == 0) {
            true
        } else if self.index >= 2 && self.chr(self.index - 1) == KEY_T
            && !((self.word(self.index - 2) & MARK1_MASK) != 0
                || (self.word(self.index - 2) & MARK5_MASK) != 0
                || (self.word(self.index - 2) & MARK_MASK) == 0) {
            true
        } else {
            false
        }
    }

    /// The spelling check reads only the word, its length and the configuration.
    proof fn lemma_spelling_frame(a: Engine, b: Engine, force: bool)
        requires
            a.index == b.index,
            a.typing_word == b.typing_word,
            a.cfg == b.cfg,
        ensures
            a.spec_spelling_ok(force) == b.spec_spelling_ok(force),
    {
        let sei = a.spec_spelling_end();
        assert(sei == b.spec_spelling_end());
        if sei > 0 {
            Self::lemma_first_cons_frame(a, b, 0, sei);
            let j0 = if spec_is_vowel(a.spec_chr(0)) { 0 } else { a.spec_first_cons(0, sei) };
            let j = a.spec_vowel_start(j0, sei);
            assert(j == b.spec_vowel_start(j0, sei));
            Self::lemma_vowel_run_frame(a, b, j, sei, 3);
            let k = a.spec_vowel_run(j, sei, 3);
            let tbl = spec_vowel_combine_table(a.spec_chr(j));
            assert forall|t: int| #![auto] a.spec_vc_entry_ok(tbl[t], j, k, sei) == b.spec_vc_entry_ok(tbl[t], j, k, sei) by {
                let e = tbl[t];
                assert forall|p: int| #[trigger] a.spec_vc_letter(p) == b.spec_vc_letter(p) by {}
            }
            assert(a.spec_vowels_ok(j, k, sei, force) == b.spec_vowels_ok(j, k, sei, force));
            let et = spec_end_consonant_table();
            assert forall|t: int| #![auto] a.spec_end_entry_ok(et[t], k, sei) == b.spec_end_entry_ok(et[t], k, sei) by {}
            assert(a.spec_end_ok(k, sei) == b.spec_end_ok(k, sei));
            assert(a.spec_stop_mark_wrong() == b.spec_stop_mark_wrong());
        }
    }

    proof fn lemma_first_cons_frame(a: Engine, b: Engine, t: int, sei: int)
        requires
            a.index == b.index,
            a.typing_word == b.typing_word,
            a.cfg == b.cfg,
        ensures
            a.spec_first_cons(t, sei) == b.spec_first_cons(t, sei),
        decreases spec_consonant_table().len() - t,
    {
        if 0 <= t < spec_consonant_table().len() {
            let e = spec_consonant_table()[t];
            assert forall|i: int| #![auto] a.spec_cons_match(e, i) == b.spec_cons_match(e, i) by {}
            assert(a.spec_cons_entry_ok(e, sei) == b.spec_cons_entry_ok(e, sei));
            Self::lemma_first_cons_frame(a, b, t + 1, sei);
        }
    }

    proof fn lemma_vowel_run_frame(a: Engine, b: Engine, k: int, sei: int, steps: nat)
        requires
            a.index == b.index,
            a.typing_word == b.typing_word,
            a.cfg == b.cfg,
        ensures
            a.spec_vowel_run(k, sei, steps) == b.spec_vowel_run(k, sei, steps),
        decreases steps,
    {
        if steps > 0 {
            Self::lemma_vowel_run_frame(a, b, k + 1, sei, (steps - 1) as nat);
        }
    }

    /// The first consonant found is no longer than the checked part of the word.
    proof fn lemma_first_cons_bounded(&self, t: int, sei: int)
        requires 0 <= t, 0 < sei,
        ensures 0 <= self.spec_first_cons(t, sei) <= sei,
        decreases spec_consonant_table().len() - t,
    {
        if t < spec_consonant_table().len() && !self.spec_cons_entry_ok(spec_consonant_table()[t], sei) {
            self.lemma_first_cons_bounded(t + 1, sei);
        }
    }

    /// Starts a new word: the buffer, the key record and the per-word flags are cleared.
    pub fn start_new_session(&mut self)
        requires old(self).wf(),
        ensures
            final(self).wf(),
            final(self).spec_len() == 0,
            final(self).spec_cfg() == old(self).spec_cfg(),
            final(self).spec_state().code == old(self).spec_state().code,
            final(self).spec_state().ext_code == old(self).spec_state().ext_code,
            final(self).spec_state().backspace_count == 0,
            final(self).spec_state().new_char_count == 0,
            old(self).spec_new_session(&*final(self)),
            final(self).spec_history_len() == old(self).spec_history_len(),
    {
        self.index = 0;
        self.state.backspace_count = 0;
        self.state.new_char_count = 0;
        self.temp_disable_key = false;
        self.state_index = 0;
        self.has_handled_macro = false;
        self.has_handle_quick_consonant = false;
        self.long_word_helper.clear();
    }

    /// What starting a new word does (`self` before, `after` after): the word is
    /// empty, the configuration stays, and the output keeps its characters and
    /// codes with no backspace and no new character.
    pub open spec fn spec_new_session(&self, after: &Engine) -> bool {
        &&& after.spec_len() == 0
        &&& after.spec_cfg() == self.spec_cfg()
        &&& after.spec_state() == (HookState { backspace_count: 0, new_char_count: 0, ..self.spec_state() })
    }

    /// A Delete typed right after the space that ended a word brings the word
    /// back as it was.
    pub proof fn lemma_space_then_delete(a: Engine, b: Engine, c: Engine, caps1: u8, caps2: u8)
        requires
            a.wf(),
            a.spec_cfg().plain_word_break(),
            a.spec_nothing_pending(),
            a.spec_saves_as_word(),
            !spec_ends_word(a.spec_len(), KeyEvent::Keyboard, KEY_SPACE, caps1, false),
            a.spec_key_handled(&b, KeyEvent::Keyboard, KeyEventState::KeyDown, KEY_SPACE, caps1, false),
            !spec_ends_word(b.spec_len(), KeyEvent::Keyboard, KEY_DELETE, caps2, false),
            b.spec_key_handled(&c, KeyEvent::Keyboard, KeyEventState::KeyDown, KEY_DELETE, caps2, false),
        ensures
            c.spec_word_seq() == a.spec_word_seq(),
    {
        reveal(Engine::spec_key_handled);
    }

    /// Starting a new word a second time changes nothing that the engine shows.
    pub proof fn lemma_new_session_twice(a: Engine, b: Engine, c: Engine)
        requires
            a.spec_new_session(&b),
            b.spec_new_session(&c),
        ensures
            c.spec_len() == b.spec_len(),
            c.spec_cfg() == b.spec_cfg(),
            c.spec_state() == b.spec_state(),
    {
    }

    /// Resets the engine: the word, the key record, the history and the output are cleared.
    pub fn reset(&mut self)
        requires old(self).wf(),
        ensures
            final(self).wf(),
            final(self).spec_len() == 0,
            final(self).spec_cfg() == old(self).spec_cfg(),
            final(self).spec_state().is_initial(),
            // with nothing pending, a Delete after it finds nothing to delete
            old(self).spec_nothing_pending() ==> final(self).spec_nothing_to_delete(),
            // whatever is pending, a Delete after it edits nothing and leaves the word empty
            final(self).spec_fresh(),
    {
        self.index = 0;
        self.state_index = 0;
        self.use_spell_checking_before = self.cfg.check_spelling;
        self.typing_states.clear();
        self.long_word_helper.clear();
        self.state = HookState::default();
    }

    /// The configuration.
    pub fn config(&self) -> (r: EngineConfig)
        ensures r == self.spec_cfg(),
    {
        self.cfg
    }

    /// Replaces the configuration; the word and the last output stay.
    pub fn set_cfg(&mut self, cfg: EngineConfig)
        ensures
            *final(self) == old(self).spec_with_cfg(cfg),
            final(self).wf() == old(self).wf(),
            final(self).spec_cfg() == cfg,
            final(self).spec_len() == old(self).spec_len(),
            final(self).spec_state() == old(self).spec_state(),
    {
        self.cfg = cfg;
    }
}

impl Engine {
    /// This engine with the configuration `cfg`.
    pub closed spec fn spec_with_cfg(&self, cfg: EngineConfig) -> Engine {
        Engine { cfg, ..*self }
    }

    /// The character of entry `data` in the configured code table.
    fn char_code(&self, data: u32) -> (r: u32)
        ensures r == spec_character_code(self.cfg.code_table as int, data),
    {
        character_code(self.cfg.code_table, data)
    }

    /// The vowel bounds found by `find_and_calculate_vowel` are consistent.
    pub closed spec fn vowels_found(&self) -> bool {
        &&& self.vowel_end_index <= self.index
        &&& (self.vowel_end_index < self.index || self.vowel_end_index == 0)
        &&& self.vowel_start_index <= self.vowel_end_index + 1
        &&& self.vowel_count <= self.index
        &&& (self.vowel_count > 0 ==> self.vowel_start_index + self.vowel_count
            == self.vowel_end_index + 1)
    }

    /// The word keeps its length, its configuration and its key record.
    pub closed spec fn same_shape(&self, other: &Engine) -> bool {
        &&& other.wf()
        &&& other.cfg == self.cfg
        &&& other.index == self.index
        &&& other.state_index == self.state_index
    }

    /// Finds the last group of vowels of the word (`u` after `q` is not a vowel;
    /// unless `for_grammar`, `i` after `g` and `u` after `q` end the search).
    #[verifier::spinoff_prover]
    #[verifier::rlimit(100)]
    fn find_and_calculate_vowel(&mut self, for_grammar: bool)
        requires old(self).wf(),
        ensures
            old(self).same_shape(&*final(self)),
            final(self).vowels_found(),
            final(self).typing_word == old(self).typing_word,
            final(self).state == old(self).state,
            !for_grammar && final(self).index > 0 ==> final(self).vowel_start_index < final(self).index,
            !for_grammar ==> final(self).vowel_start_index <= final(self).vowel_end_index,
            // only the vowel group's position changes
            *final(self) == (Engine { vowel_count: final(self).vowel_count,
                vowel_start_index: final(self).vowel_start_index,
                vowel_end_index: final(self).vowel_end_index, ..*old(self) }),
            // a one-letter vowel word is its own vowel group
            old(self).index == 1 && spec_is_vowel(old(self).spec_chr(0)) ==> final(self).vowel_count == 1
                && final(self).vowel_start_index == 0 && final(self).vowel_end_index == 0,
    {
        self.vowel_count = 0;
        self.vowel_start_index = 0;
        self.vowel_end_index = 0;
        let mut iii: usize = self.index;
        while iii > 0
            invariant_except_break
                self.vowel_count > 0 ==> iii == self.vowel_start_index,
            invariant
                iii <= self.index,
                old(self).same_shape(&*self),
                self.typing_word == old(self).typing_word,
                self.state == old(self).state,
                *self == (Engine { vowel_count: self.vowel_count,
                    vowel_start_index: self.vowel_start_index,
                    vowel_end_index: self.vowel_end_index, ..*old(self) }),
                old(self).index == 1 && spec_is_vowel(old(self).spec_chr(0)) ==> (iii == 1 && self.vowel_count == 0
                    && self.vowel_end_index == 0) || (iii == 0 && self.vowel_count == 1 && self.vowel_start_index == 0
                    && self.vowel_end_index == 0),
                self.vowel_count == 0 ==> self.vowel_start_index == 0,
                self.vowel_end_index < self.index || self.vowel_end_index == 0,
                self.vowel_count <= self.index - iii,
                self.vowel_count > 0 ==> iii <= self.vowel_start_index
                    && self.vowel_start_index + self.vowel_count == self.vowel_end_index + 1,
                !for_grammar && self.vowel_count > 0 ==> !(self.vowel_start_index >= 1
                    && self.spec_chr(self.vowel_start_index as int) == KEY_U
                    && self.spec_chr(self.vowel_start_index - 1) == KEY_Q),
            ensures
                old(self).index == 1 && spec_is_vowel(old(self).spec_chr(0)) ==> self.vowel_count == 1
                    && self.vowel_start_index == 0 && self.vowel_end_index == 0,
            decreases iii,
        {
            iii = iii - 1;
            let c = self.chr(iii);
            if is_consonant(c) {
                if self.vowel_count > 0 {
                    break;
                }
            } else {
                // is vowel
                if self.vowel_count == 0 {
                    self.vowel_end_index = iii;
                }
                if !for_grammar {
                    if (iii >= 1 && c == KEY_I && self.chr(iii - 1) == KEY_G)
                        || (iii >= 1 && c == KEY_U && self.chr(iii - 1) == KEY_Q) {
                        break;
                    }
                }
                self.vowel_start_index = iii;
                self.vowel_count = self.vowel_count + 1;
            }
        }
        // don't count "u" at "q u" as a vowel
        if self.vowel_start_index >= 1 && self.chr(self.vowel_start_index) == KEY_U
            && self.chr(self.vowel_start_index - 1) == KEY_Q {
            self.vowel_start_index = self.vowel_start_index + 1;
            self.vowel_count = self.vowel_count - 1;
        }
    }
}

impl Engine {
    /// The vowel group, read from its first vowel on, is a combination that can take an end consonant.
    fn can_has_end_consonant(&self) -> (r: bool)
        requires self.wf(), self.vowels_found(),
        ensures r == self.spec_can_has_end_consonant(),
    {
        let vo = vowel_combine_table(self.chr(self.vowel_start_index));
        let mut t: usize = 0;
        let ghost tbl = spec_vowel_combine_table(self.spec_chr(self.vowel_start_index as int));
        assert(vo@.len() == tbl.len());
        while t < vo.len()
            invariant
                t <= vo.len(),
                self.wf(),
                self.vowels_found(),
                rows_match(vo@, tbl),
                tbl == spec_vowel_combine_table(self.spec_chr(self.vowel_start_index as int)),
                forall|u: int| 0 <= u < t ==> !#[trigger] self.spec_group_matches(tbl[u]),
            decreases vo.len() - t,
        {
            let entry = &vo[t];
            assert(entry@ == tbl[t as int]);
            let mut kk: usize = self.vowel_start_index;
            let mut iii: usize = 1;
            while iii < entry.len()
                invariant
                    1 <= iii,
                    kk == self.vowel_start_index + iii - 1,
                    self.vowel_start_index <= kk <= self.vowel_end_index + 1,
                    self.wf(),
                    self.vowels_found(),
                    forall|i: int| 1 <= i < iii ==> #[trigger] self.spec_group_entry_ok(entry@, i),
                ensures
                    iii >= entry.len() || !self.spec_group_entry_ok(entry@, iii as int),
                    forall|i: int| 1 <= i < iii ==> #[trigger] self.spec_group_entry_ok(entry@, i),
                decreases entry.len() - iii,
            {
                if kk > self.vowel_end_index
                    || ((self.chr(kk) as u32 | (self.word(kk) & TONE_MASK) | (self.word(kk) & TONEW_MASK))
                        != entry[iii]) {
                    break;
                }
                kk = kk + 1;
                iii = iii + 1;
            }
            if iii >= entry.len() {
                proof {
                    assert(self.spec_group_matches(tbl[t as int]));
                }
                return entry.len() > 0 && entry[0] == 1;
            }
            proof {
                assert(!self.spec_group_entry_ok(entry@, iii as int));
            }
            t = t + 1;
        }
        false
    }

    /// Position `i` (from 1) of a vowel-combination entry matches the vowel group.
    pub closed spec fn spec_group_entry_ok(&self, e: Seq<u32>, i: int) -> bool {
        let k = self.vowel_start_index + i - 1;
        k <= self.vowel_end_index
            && (self.spec_chr(k) as u32 | (self.spec_word(k) & TONE_MASK) | (self.spec_word(k) & TONEW_MASK)) == e[i]
    }

    /// A vowel-combination entry matches the vowel group from its first vowel on.
    pub closed spec fn spec_group_matches(&self, e: Seq<u32>) -> bool {
        forall|i: int| 1 <= i < e.len() ==> #[trigger] self.spec_group_entry_ok(e, i)
    }

    /// The first combination of the group's first vowel that matches the group
    /// is marked as one that takes an end consonant.
    pub closed spec fn spec_can_has_end_consonant(&self) -> bool {
        let tbl = spec_vowel_combine_table(self.spec_chr(self.vowel_start_index as int));
        exists|t: int| 0 <= t < tbl.len() && #[trigger] self.spec_group_matches(tbl[t])
            && (forall|u: int| 0 <= u < t ==> !self.spec_group_matches(tbl[u]))
            && tbl[t].len() > 0 && tbl[t][0] == 1
    }

    /// Mark position for the modern orthography ("oà", "uý").
    #[verifier::spinoff_prover]
    #[verifier::rlimit(100)]
    fn handle_modern_mark(&mut self)
        requires
            old(self).wf(),
            old(self).vowels_found(),
            old(self).vowel_start_index < old(self).index,
            old(self).vowel_start_index <= old(self).vowel_end_index,
        ensures
            old(self).same_shape(&*final(self)),
            final(self).typing_word == old(self).typing_word,
            final(self).vowel_start_index == old(self).vowel_start_index,
            final(self).vowel_end_index == old(self).vowel_end_index,
            final(self).vowel_count == old(self).vowel_count,
            final(self).vowel_will_set_mark < final(self).index,
            final(self).state.ext_code == old(self).state.ext_code,
            final(self).state.code == old(self).state.code,
            final(self).vowel_will_set_mark == old(self).spec_modern_mark_pos(),
            final(self).state.backspace_count == (old(self).index - final(self).vowel_will_set_mark) as u8,
    {
        self.modern_mark_base();
        let ghost mid = *self;
        self.modern_mark_rule_3();
        let ghost mid2 = *self;
        proof {
            Self::lemma_mark_rules_frame(&mid, &*old(self), mid.vowel_will_set_mark as int);
            Self::lemma_mark_rules_frame(&mid2, &*old(self), mid2.vowel_will_set_mark as int);
        }
        self.modern_mark_rule_4();
    }

    /// The first rules of the modern orthography: the mark position before rules 3 and 4.
    #[verifier::spinoff_prover]
    #[verifier::rlimit(100)]
    fn modern_mark_base(&mut self)
        requires
            old(self).wf(),
            old(self).vowels_found(),
            old(self).vowel_start_index < old(self).index,
            old(self).vowel_start_index <= old(self).vowel_end_index,
        ensures
            old(self).same_shape(&*final(self)),
            final(self).typing_word == old(self).typing_word,
            final(self).vowel_start_index == old(self).vowel_start_index,
            final(self).vowel_end_index == old(self).vowel_end_index,
            final(self).vowel_count == old(self).vowel_count,
            final(self).vowel_will_set_mark < final(self).index,
            final(self).state.ext_code == old(self).state.ext_code,
            final(self).state.code == old(self).state.code,
            final(self).state.new_char_count == old(self).state.new_char_count,
            final(self).state.char_data == old(self).state.char_data,
            final(self).vowel_will_set_mark == old(self).spec_modern_base_pos(),
            final(self).state.backspace_count == (old(self).index - final(self).vowel_will_set_mark) as u8,
    {
        let vsi = self.vowel_start_index;
        let vei = self.vowel_end_index;
        let count = self.vowel_count;
        let index = self.index;
        let c0 = self.chr(vsi);
        let c1 = self.chr(vsi + 1);
        let c2 = self.chr(vsi + 2);
        let ce = self.chr(vei);
        // default
        self.vowel_will_set_mark = vei;
        self.state.backspace_count = (index - vei) as u8;

        // rule 2
        if count == 3 && ((c0 == KEY_O && c1 == KEY_A && c2 == KEY_I)
            || (c0 == KEY_U && c1 == KEY_Y && c2 == KEY_U)
            || (c0 == KEY_O && c1 == KEY_E && c2 == KEY_O)
            || (c0 == KEY_U && c1 == KEY_Y && c2 == KEY_A)) {
            self.vowel_will_set_mark = vsi + 1;
            self.state.backspace_count = (index - self.vowel_will_set_mark) as u8;
        } else if count >= 2 && ((c0 == KEY_O && c1 == KEY_I)
            || (c0 == KEY_A && c1 == KEY_I)
            || (c0 == KEY_U && c1 == KEY_I)) {
            self.vowel_will_set_mark = vsi;
            self.state.backspace_count = (index - self.vowel_will_set_mark) as u8;
        } else if count >= 2 && vei >= 1 && self.chr(vei - 1) == KEY_A && ce == KEY_Y {
            self.vowel_will_set_mark = vei - 1;
            self.state.backspace_count = (index - vei) as u8 + 1;
        } else if count >= 2 && c0 == KEY_U && c1 == KEY_O {
            self.vowel_will_set_mark = vsi + 1;
            self.state.backspace_count = (index - self.vowel_will_set_mark) as u8;
        } else if count >= 2 && (c1 == KEY_O || c1 == KEY_U) {
            self.vowel_will_set_mark = vei - 1;
            self.state.backspace_count = (index - vei) as u8 + 1;
        } else if count >= 1 && (c0 == KEY_O || c0 == KEY_U) {
            self.vowel_will_set_mark = vei;
            self.state.backspace_count = (index - vei) as u8;
        }
    }

    /// The mark rules read only the word and its vowel group.
    proof fn lemma_mark_rules_frame(a: &Engine, b: &Engine, p: int)
        requires
            a.typing_word == b.typing_word,
            a.index == b.index,
            a.vowel_start_index == b.vowel_start_index,
            a.vowel_end_index == b.vowel_end_index,
            a.vowel_count == b.vowel_count,
        ensures
            a.spec_rule3_pos(p) == b.spec_rule3_pos(p),
            a.spec_rule4_pos(p) == b.spec_rule4_pos(p),
            a.spec_can_has_end_consonant() == b.spec_can_has_end_consonant(),
    {
        assert forall|e: Seq<u32>, i: int| #[trigger] a.spec_group_entry_ok(e, i) == b.spec_group_entry_ok(e, i) by {}
        assert forall|e: Seq<u32>| #[trigger] a.spec_group_matches(e) == b.spec_group_matches(e) by {
            if a.spec_group_matches(e) {
                assert forall|i: int| 1 <= i < e.len() implies #[trigger] b.spec_group_entry_ok(e, i) by {
                    assert(a.spec_group_entry_ok(e, i));
                }
            }
            if b.spec_group_matches(e) {
                assert forall|i: int| 1 <= i < e.len() implies #[trigger] a.spec_group_entry_ok(e, i) by {
                    assert(b.spec_group_entry_ok(e, i));
                }
            }
        }
        let tbl = spec_vowel_combine_table(a.spec_chr(a.vowel_start_index as int));
        assert(tbl == spec_vowel_combine_table(b.spec_chr(b.vowel_start_index as int)));
        if a.spec_can_has_end_consonant() {
            let t = choose|t: int| 0 <= t < tbl.len() && #[trigger] a.spec_group_matches(tbl[t])
                && (forall|u: int| 0 <= u < t ==> !a.spec_group_matches(tbl[u]))
                && tbl[t].len() > 0 && tbl[t][0] == 1;
            assert(b.spec_group_matches(tbl[t]));
            assert forall|u: int| 0 <= u < t implies !b.spec_group_matches(tbl[u]) by {
                assert(!a.spec_group_matches(tbl[u]));
            }
        }
        if b.spec_can_has_end_consonant() {
            let t = choose|t: int| 0 <= t < tbl.len() && #[trigger] b.spec_group_matches(tbl[t])
                && (forall|u: int| 0 <= u < t ==> !b.spec_group_matches(tbl[u]))
                && tbl[t].len() > 0 && tbl[t][0] == 1;
            assert(a.spec_group_matches(tbl[t]));
            assert forall|u: int| 0 <= u < t implies !a.spec_group_matches(tbl[u]) by {
                assert(!b.spec_group_matches(tbl[u]));
            }
        }
        assert(a.spec_can_has_end_consonant() == b.spec_can_has_end_consonant());
    }

    /// Where the modern orthography's first rules put the mark: on the middle
    /// vowel of "oai", "uyu", "oeo", "uya"; on the first of "oi", "ai", "ui"; on
    /// the "a" of "ay"; on the "ô"/"ơ" of "uô"/"ươ"; before a second vowel "o"
    /// or "u"; otherwise on the last vowel.
    pub closed spec fn spec_modern_base_pos(&self) -> int {
        let vsi = self.vowel_start_index as int;
        let vei = self.vowel_end_index as int;
        let count = self.vowel_count;
        let c0 = self.spec_chr(vsi);
        let c1 = self.spec_chr(vsi + 1);
        let c2 = self.spec_chr(vsi + 2);
        if count == 3 && ((c0 == KEY_O && c1 == KEY_A && c2 == KEY_I) || (c0 == KEY_U && c1 == KEY_Y && c2 == KEY_U)
            || (c0 == KEY_O && c1 == KEY_E && c2 == KEY_O) || (c0 == KEY_U && c1 == KEY_Y && c2 == KEY_A)) {
            vsi + 1
        } else if count >= 2 && ((c0 == KEY_O && c1 == KEY_I) || (c0 == KEY_A && c1 == KEY_I) || (c0 == KEY_U && c1 == KEY_I)) {
            vsi
        } else if count >= 2 && vei >= 1 && self.spec_chr(vei - 1) == KEY_A && self.spec_chr(vei) == KEY_Y {
            vei - 1
        } else if count >= 2 && c0 == KEY_U && c1 == KEY_O {
            vsi + 1
        } else if count >= 2 && (c1 == KEY_O || c1 == KEY_U) {
            vei - 1
        } else {
            vei
        }
    }

    /// Rule 3 of the modern orthography applied to mark position `p`: "iê",
    /// "yê", "uô", "ươ" take it on their second vowel before "p", "t", "m", "n",
    /// "o", "u", "i" or "c", else on their first; "ia", "ya", "ua", "uư" on their first.
    pub closed spec fn spec_rule3_pos(&self, p: int) -> int {
        let vsi = self.vowel_start_index as int;
        let c2 = self.spec_chr(vsi + 2);
        if self.vowel_count >= 2 && self.spec_rule_31() {
            if vsi + 2 < self.index && (c2 == KEY_P || c2 == KEY_T || c2 == KEY_M || c2 == KEY_N
                || c2 == KEY_O || c2 == KEY_U || c2 == KEY_I || c2 == KEY_C) {
                vsi + 1
            } else {
                vsi
            }
        } else if self.vowel_count >= 2 && self.spec_rule_32() {
            vsi
        } else {
            p
        }
    }

    /// Rule 4 of the modern orthography applied to mark position `p`, for two
    /// vowels: "ia", "iu", "io" on the "i" (on the next vowel after "g"); "ua" on
    /// the "a" after "q", and on the "u" when nothing can follow it; "oo" on the last "o".
    pub closed spec fn spec_rule4_pos(&self, p: int) -> int {
        let vsi = self.vowel_start_index as int;
        let vei = self.vowel_end_index as int;
        let c0 = self.spec_chr(vsi);
        let c1 = self.spec_chr(vsi + 1);
        if self.vowel_count != 2 {
            p
        } else if c0 == KEY_I && (c1 == KEY_A || c1 == KEY_U || c1 == KEY_O) {
            if vsi == 0 || self.spec_chr(vsi - 1) != KEY_G { vsi } else { vsi + 1 }
        } else if c0 == KEY_U && c1 == KEY_A {
            if vsi == 0 || self.spec_chr(vsi - 1) != KEY_Q {
                if vei + 1 >= self.index || !self.spec_can_has_end_consonant() { vsi } else { p }
            } else {
                vsi + 1
            }
        } else if c0 == KEY_O && c1 == KEY_O {
            vei
        } else {
            p
        }
    }

    /// Where the modern orthography puts the mark on the vowel group.
    pub closed spec fn spec_modern_mark_pos(&self) -> int {
        self.spec_rule4_pos(self.spec_rule3_pos(self.spec_modern_base_pos()))
    }

    /// Where the last vowel group of the word starts.
    pub closed spec fn spec_group_start(&self) -> int {
        self.vowel_start_index as int
    }

    /// Where the last vowel group of the word ends.
    pub closed spec fn spec_group_end(&self) -> int {
        self.vowel_end_index as int
    }

    /// How many vowels the last vowel group has.
    pub closed spec fn spec_group_count(&self) -> nat {
        self.vowel_count as nat
    }

    /// Modern orthography: a single vowel takes the mark itself.
    pub proof fn lemma_modern_mark_single_vowel(&self)
        requires
            self.wf(),
            self.vowels_found(),
            self.spec_group_count() == 1,
        ensures
            self.spec_modern_mark_pos() == self.spec_group_start(),
    {
    }

    /// Modern orthography: in the groups "ai", "oi" and "ui" the mark goes on
    /// the first vowel ("mái", "tói", "túi").
    pub proof fn lemma_modern_mark_ai_oi_ui(&self)
        requires
            self.wf(),
            self.vowels_found(),
            self.spec_group_count() == 2,
            self.spec_chr(self.spec_group_start() + 1) == KEY_I,
            self.spec_chr(self.spec_group_start()) == KEY_A || self.spec_chr(self.spec_group_start()) == KEY_O
                || self.spec_chr(self.spec_group_start()) == KEY_U,
        ensures
            self.spec_modern_mark_pos() == self.spec_group_start(),
    {
        let v = self.vowel_start_index as int;
        let w1 = self.spec_word(v + 1);
        assert(((w1 & 0xFFFF) as u16) == KEY_I ==> w1 != (KEY_O as u32 | TONE_MASK)
            && w1 != (KEY_O as u32 | TONEW_MASK) && w1 != (KEY_U as u32 | TONEW_MASK)) by (bit_vector);
    }

    /// Modern orthography: in the groups "oa", "oe" and "uy" the mark goes on
    /// the second vowel ("hoà", "khoẻ", "thuý").
    pub proof fn lemma_modern_mark_oa_oe_uy(&self)
        requires
            self.wf(),
            self.vowels_found(),
            self.spec_group_count() == 2,
            ({
                let c0 = self.spec_chr(self.spec_group_start());
                let c1 = self.spec_chr(self.spec_group_start() + 1);
                (c0 == KEY_O && c1 == KEY_A) || (c0 == KEY_O && c1 == KEY_E) || (c0 == KEY_U && c1 == KEY_Y)
            }),
        ensures
            self.spec_modern_mark_pos() == self.spec_group_start() + 1,
    {
        let v = self.vowel_start_index as int;
        let w1 = self.spec_word(v + 1);
        assert((((w1 & 0xFFFF) as u16) == KEY_A || ((w1 & 0xFFFF) as u16) == KEY_E || ((w1 & 0xFFFF) as u16) == KEY_Y)
            ==> w1 != (KEY_O as u32 | TONE_MASK) && w1 != (KEY_O as u32 | TONEW_MASK)
            && w1 != (KEY_U as u32 | TONEW_MASK)) by (bit_vector);
        assert(self.vowel_end_index == v + 1);
        assert(self.spec_modern_base_pos() == v + 1);
        assert(!self.spec_rule_31());
        assert(!self.spec_rule_32());
        assert(self.spec_rule3_pos(v + 1) == v + 1);
        assert(self.spec_rule4_pos(v + 1) == v + 1);
    }

    /// Modern orthography: in "ay" the mark goes on the "a" ("máy").
    pub proof fn lemma_modern_mark_ay(&self)
        requires
            self.wf(),
            self.vowels_found(),
            self.spec_group_count() == 2,
            self.spec_chr(self.spec_group_start()) == KEY_A,
            self.spec_chr(self.spec_group_start() + 1) == KEY_Y,
        ensures
            self.spec_modern_mark_pos() == self.spec_group_start(),
    {
        let v = self.vowel_start_index as int;
        let w1 = self.spec_word(v + 1);
        assert(((w1 & 0xFFFF) as u16) == KEY_Y ==> w1 != (KEY_O as u32 | TONE_MASK)
            && w1 != (KEY_O as u32 | TONEW_MASK) && w1 != (KEY_U as u32 | TONEW_MASK)) by (bit_vector);
        assert(self.vowel_end_index == v + 1);
    }

    /// Modern orthography: "ia" and "ua" take the mark on their first vowel
    /// ("mía", "múa"), except after "g" and "q", where the "i" and the "u"
    /// belong to the consonant and the "a" takes it ("giá", "quá").
    pub proof fn lemma_modern_mark_ia_ua(&self)
        requires
            self.wf(),
            self.vowels_found(),
            self.spec_group_count() == 2,
            self.spec_chr(self.spec_group_start()) == KEY_I || self.spec_chr(self.spec_group_start()) == KEY_U,
            self.spec_chr(self.spec_group_start() + 1) == KEY_A,
            self.spec_word(self.spec_group_start() + 1) & TONE_MASK == 0,
        ensures
            ({
                let v = self.spec_group_start();
                let after_gq = v > 0 && ((self.spec_chr(v) == KEY_I && self.spec_chr(v - 1) == KEY_G)
                    || (self.spec_chr(v) == KEY_U && self.spec_chr(v - 1) == KEY_Q));
                self.spec_modern_mark_pos() == (if after_gq { v + 1 } else { v })
            }),
    {
        let v = self.vowel_start_index as int;
        let w1 = self.spec_word(v + 1);
        assert((((w1 & 0xFFFF) as u16) == KEY_A && (w1 & TONE_MASK) == 0) ==> w1 != (KEY_O as u32 | TONE_MASK)
            && w1 != (KEY_O as u32 | TONEW_MASK) && w1 != (KEY_U as u32 | TONEW_MASK)
            && (w1 & (KEY_E as u32 | TONE_MASK)) == 0) by (bit_vector);
        assert(self.vowel_end_index == v + 1);
    }

    /// Modern orthography: "iê" followed by a consonant ("p", "t", "m", "n", "c")
    /// takes the mark on the "ê" ("tiếng", "tiệp").
    pub proof fn lemma_modern_mark_ie_before_consonant(&self)
        requires
            self.wf(),
            self.vowels_found(),
            self.spec_group_count() == 2,
            self.spec_chr(self.spec_group_start()) == KEY_I,
            self.spec_word(self.spec_group_start() + 1) == (KEY_E as u32 | TONE_MASK),
            self.spec_group_start() + 2 < self.spec_len(),
            ({
                let c = self.spec_chr(self.spec_group_start() + 2);
                c == KEY_P || c == KEY_T || c == KEY_M || c == KEY_N || c == KEY_C
            }),
        ensures
            self.spec_modern_mark_pos() == self.spec_group_start() + 1,
    {
        let v = self.vowel_start_index as int;
        assert(((KEY_E as u32 | TONE_MASK) & (KEY_E as u32 | TONE_MASK)) != 0) by (bit_vector);
        assert((((KEY_E as u32 | TONE_MASK) & 0xFFFF) as u16) == KEY_E) by (bit_vector);
        assert(self.vowel_end_index == v + 1);
    }

    /// Modern orthography: in the groups "oai", "oeo", "uyu" and "uya" the mark
    /// goes on the middle vowel ("ngoái", "ngoẹo", "khuỷu", "khuya").
    pub proof fn lemma_modern_mark_middle_of_three(&self)
        requires
            self.wf(),
            self.vowels_found(),
            self.spec_group_count() == 3,
            ({
                let c0 = self.spec_chr(self.spec_group_start());
                let c1 = self.spec_chr(self.spec_group_start() + 1);
                let c2 = self.spec_chr(self.spec_group_start() + 2);
                (c0 == KEY_O && c1 == KEY_A && c2 == KEY_I) || (c0 == KEY_O && c1 == KEY_E && c2 == KEY_O)
                    || (c0 == KEY_U && c1 == KEY_Y && c2 == KEY_U) || (c0 == KEY_U && c1 == KEY_Y && c2 == KEY_A)
            }),
        ensures
            self.spec_modern_mark_pos() == self.spec_group_start() + 1,
    {
        let v = self.vowel_start_index as int;
        let w1 = self.spec_word(v + 1);
        assert((((w1 & 0xFFFF) as u16) == KEY_A || ((w1 & 0xFFFF) as u16) == KEY_E || ((w1 & 0xFFFF) as u16) == KEY_Y)
            ==> w1 != (KEY_O as u32 | TONE_MASK) && w1 != (KEY_O as u32 | TONEW_MASK)
            && w1 != (KEY_U as u32 | TONEW_MASK)) by (bit_vector);
    }

    /// The vowel group starts with "iê", "yê", "uô" or "ươ".
    pub closed spec fn spec_rule_31(&self) -> bool {
        let vsi = self.vowel_start_index as int;
        (self.spec_chr(vsi) == KEY_I && (self.spec_word(vsi + 1) & (KEY_E as u32 | TONE_MASK)) != 0)
            || (self.spec_chr(vsi) == KEY_Y && (self.spec_word(vsi + 1) & (KEY_E as u32 | TONE_MASK)) != 0)
            || (self.spec_chr(vsi) == KEY_U && self.spec_word(vsi + 1) == (KEY_O as u32 | TONE_MASK))
            || (self.spec_word(vsi) == (KEY_U as u32 | TONEW_MASK) && self.spec_word(vsi + 1) == (KEY_O as u32 | TONEW_MASK))
    }

    /// The vowel group starts with "ia", "ya", "ua" or "uư".
    pub closed spec fn spec_rule_32(&self) -> bool {
        let vsi = self.vowel_start_index as int;
        (self.spec_chr(vsi) == KEY_I && self.spec_chr(vsi + 1) == KEY_A)
            || (self.spec_chr(vsi) == KEY_Y && self.spec_chr(vsi + 1) == KEY_A)
            || (self.spec_chr(vsi) == KEY_U && self.spec_chr(vsi + 1) == KEY_A)
            || (self.spec_chr(vsi) == KEY_U && self.spec_word(vsi + 1) == (KEY_U as u32 | TONEW_MASK))
    }

    /// Rules for "iê", "yê", "uô", "ươ", "ia", "ya", "ua", "uư" in the modern orthography.
    fn modern_mark_rule_3(&mut self)
        requires
            old(self).wf(),
            old(self).vowels_found(),
            old(self).vowel_start_index < old(self).index,
            old(self).vowel_start_index <= old(self).vowel_end_index,
            old(self).vowel_will_set_mark < old(self).index,
        ensures
            old(self).same_shape(&*final(self)),
            final(self).typing_word == old(self).typing_word,
            final(self).vowel_start_index == old(self).vowel_start_index,
            final(self).vowel_end_index == old(self).vowel_end_index,
            final(self).vowel_count == old(self).vowel_count,
            final(self).vowel_will_set_mark < final(self).index,
            final(self).state.ext_code == old(self).state.ext_code,
            final(self).state.code == old(self).state.code,
            final(self).state.new_char_count == old(self).state.new_char_count,
            final(self).state.char_data == old(self).state.char_data,
            // the mark goes on the first vowel of "ia", "ya", "ua", "uư"
            old(self).vowel_count >= 2 && !old(self).spec_rule_31() && old(self).spec_rule_32() ==> {
                &&& final(self).vowel_will_set_mark == old(self).vowel_start_index
                &&& final(self).state.backspace_count == (old(self).index - old(self).vowel_start_index) as u8
            },
            // "iê", "yê", "uô", "ươ" at the end of the word take it on their first vowel
            old(self).vowel_count >= 2 && old(self).spec_rule_31()
                && old(self).vowel_start_index + 2 >= old(self).index ==> {
                &&& final(self).vowel_will_set_mark == old(self).vowel_start_index
                &&& final(self).state.backspace_count == (old(self).index - old(self).vowel_start_index) as u8
            },
            // otherwise on their second one, when a consonant or vowel follows
            old(self).vowel_count >= 2 && old(self).spec_rule_31()
                && old(self).vowel_start_index + 2 < old(self).index ==> {
                &&& final(self).vowel_will_set_mark == old(self).vowel_start_index
                    || final(self).vowel_will_set_mark == old(self).vowel_start_index + 1
                &&& final(self).state.backspace_count == (old(self).index - final(self).vowel_will_set_mark) as u8
            },
            !(old(self).vowel_count >= 2 && (old(self).spec_rule_31() || old(self).spec_rule_32())) ==> {
                &&& final(self).vowel_will_set_mark == old(self).vowel_will_set_mark
                &&& final(self).state.backspace_count == old(self).state.backspace_count
            },
            final(self).vowel_will_set_mark == old(self).spec_rule3_pos(old(self).vowel_will_set_mark as int),
            old(self).state.backspace_count == (old(self).index - old(self).vowel_will_set_mark) as u8
                ==> final(self).state.backspace_count == (old(self).index - final(self).vowel_will_set_mark) as u8,
    {
        let vsi = self.vowel_start_index;
        let vei = self.vowel_end_index;
        let count = self.vowel_count;
        let index = self.index;
        // rule 3.1
        if count >= 2 && ((self.chr(vsi) == KEY_I && (self.word(vsi + 1) & (KEY_E as u32 | TONE_MASK)) != 0)
            || (self.chr(vsi) == KEY_Y && (self.word(vsi + 1) & (KEY_E as u32 | TONE_MASK)) != 0)
            || (self.chr(vsi) == KEY_U && self.word(vsi + 1) == (KEY_O as u32 | TONE_MASK))
            || (self.word(vsi) == (KEY_U as u32 | TONEW_MASK) && self.word(vsi + 1) == (KEY_O as u32 | TONEW_MASK))) {
            if vsi + 2 < index {
                let c2 = self.chr(vsi + 2);
                let has_double = (vsi + 3 < index && self.chr(vsi + 2) == KEY_C && self.chr(vsi + 3) == KEY_H)
                    || (vsi + 3 < index && self.chr(vsi + 2) == KEY_N && self.chr(vsi + 3) == KEY_H)
                    || (vsi + 3 < index && self.chr(vsi + 2) == KEY_N && self.chr(vsi + 3) == KEY_G);
                if c2 == KEY_P || c2 == KEY_T || c2 == KEY_M || c2 == KEY_N || c2 == KEY_O
                    || c2 == KEY_U || c2 == KEY_I || c2 == KEY_C || has_double {
                    self.vowel_will_set_mark = vsi + 1;
                } else {
                    self.vowel_will_set_mark = vsi;
                }
            } else {
                self.vowel_will_set_mark = vsi;
            }
            self.state.backspace_count = (index - self.vowel_will_set_mark) as u8;
        }
        // rule 3.2
        else if count >= 2 && ((self.chr(vsi) == KEY_I && self.chr(vsi + 1) == KEY_A)
            || (self.chr(vsi) == KEY_Y && self.chr(vsi + 1) == KEY_A)
            || (self.chr(vsi) == KEY_U && self.chr(vsi + 1) == KEY_A)
            || (self.chr(vsi) == KEY_U && self.word(vsi + 1) == (KEY_U as u32 | TONEW_MASK))) {
            self.vowel_will_set_mark = vsi;
            self.state.backspace_count = (index - self.vowel_will_set_mark) as u8;
        }

    }

    /// Rules for two-vowel groups after "g" and "q", and for "oo", in the modern orthography.
    fn modern_mark_rule_4(&mut self)
        requires
            old(self).wf(),
            old(self).vowels_found(),
            old(self).vowel_start_index < old(self).index,
            old(self).vowel_start_index <= old(self).vowel_end_index,
            old(self).vowel_will_set_mark < old(self).index,
        ensures
            old(self).same_shape(&*final(self)),
            final(self).typing_word == old(self).typing_word,
            final(self).vowel_start_index == old(self).vowel_start_index,
            final(self).vowel_end_index == old(self).vowel_end_index,
            final(self).vowel_count == old(self).vowel_count,
            final(self).vowel_will_set_mark < final(self).index,
            final(self).state.ext_code == old(self).state.ext_code,
            final(self).state.code == old(self).state.code,
            final(self).state.new_char_count == old(self).state.new_char_count,
            final(self).state.char_data == old(self).state.char_data,
            old(self).vowel_count != 2 ==> {
                &&& final(self).vowel_will_set_mark == old(self).vowel_will_set_mark
                &&& final(self).state.backspace_count == old(self).state.backspace_count
            },
            // "ia", "iu", "io": on the "i", or on the vowel after it after "g"
            old(self).vowel_count == 2 && old(self).spec_chr(old(self).vowel_start_index as int) == KEY_I
                && (old(self).spec_chr(old(self).vowel_start_index + 1) == KEY_A
                    || old(self).spec_chr(old(self).vowel_start_index + 1) == KEY_U
                    || old(self).spec_chr(old(self).vowel_start_index + 1) == KEY_O) ==> {
                &&& final(self).vowel_will_set_mark == (if old(self).vowel_start_index == 0
                    || old(self).spec_chr(old(self).vowel_start_index - 1) != KEY_G {
                        old(self).vowel_start_index
                    } else {
                        (old(self).vowel_start_index + 1) as usize
                    })
                &&& final(self).state.backspace_count == (old(self).index - final(self).vowel_will_set_mark) as u8
            },
            // "ua" after "q": on the "a"
            old(self).vowel_count == 2 && old(self).spec_chr(old(self).vowel_start_index as int) == KEY_U
                && old(self).spec_chr(old(self).vowel_start_index + 1) == KEY_A
                && old(self).vowel_start_index > 0 && old(self).spec_chr(old(self).vowel_start_index - 1) == KEY_Q ==> {
                &&& final(self).vowel_will_set_mark == old(self).vowel_start_index + 1
                &&& final(self).state.backspace_count == (old(self).index - old(self).vowel_start_index - 1) as u8
            },
            // "oo": on the last "o"
            old(self).vowel_count == 2 && old(self).spec_chr(old(self).vowel_start_index as int) == KEY_O
                && old(self).spec_chr(old(self).vowel_start_index + 1) == KEY_O ==> {
                &&& final(self).vowel_will_set_mark == old(self).vowel_end_index
                &&& final(self).state.backspace_count == (old(self).index - old(self).vowel_end_index) as u8
            },
            final(self).vowel_will_set_mark == old(self).spec_rule4_pos(old(self).vowel_will_set_mark as int),
            old(self).state.backspace_count == (old(self).index - old(self).vowel_will_set_mark) as u8
                ==> final(self).state.backspace_count == (old(self).index - final(self).vowel_will_set_mark) as u8,
    {
        let vsi = self.vowel_start_index;
        let vei = self.vowel_end_index;
        let count = self.vowel_count;
        let index = self.index;
        // rule 4
        if count == 2 {
            if (self.chr(vsi) == KEY_I && self.chr(vsi + 1) == KEY_A)
                || (self.chr(vsi) == KEY_I && self.chr(vsi + 1) == KEY_U)
                || (self.chr(vsi) == KEY_I && self.chr(vsi + 1) == KEY_O) {
                if vsi == 0 || self.chr(vsi - 1) != KEY_G {
                    // don't have G
                    self.vowel_will_set_mark = vsi;
                } else {
                    self.vowel_will_set_mark = vsi + 1;
                }
                self.state.backspace_count = (index - self.vowel_will_set_mark) as u8;
            } else if self.chr(vsi) == KEY_U && self.chr(vsi + 1) == KEY_A {
                if vsi == 0 || self.chr(vsi - 1) != KEY_Q {
                    // don't have Q
                    if vei + 1 >= index || !self.can_has_end_consonant() {
                        self.vowel_will_set_mark = vsi;
                        self.state.backspace_count = (index - self.vowel_will_set_mark) as u8;
                    }
                } else {
                    self.vowel_will_set_mark = vsi + 1;
                    self.state.backspace_count = (index - self.vowel_will_set_mark) as u8;
                }
            } else if self.chr(vsi) == KEY_O && self.chr(vsi + 1) == KEY_O {
                // thoong
                self.vowel_will_set_mark = vei;
                self.state.backspace_count = (index - self.vowel_will_set_mark) as u8;
            }
        }
    }

    /// Mark position for the old orthography ("òa", "úy").
    fn handle_old_mark(&mut self)
        requires
            old(self).wf(),
            old(self).vowels_found(),
            old(self).vowel_start_index < old(self).index,
            old(self).vowel_start_index <= old(self).vowel_end_index,
        ensures
            old(self).same_shape(&*final(self)),
            final(self).typing_word == old(self).typing_word,
            final(self).vowel_start_index == old(self).vowel_start_index,
            final(self).vowel_end_index == old(self).vowel_end_index,
            final(self).vowel_count == old(self).vowel_count,
            final(self).vowel_will_set_mark < final(self).index,
            final(self).state.ext_code == old(self).state.ext_code,
            final(self).state.code == old(self).state.code,
            final(self).vowel_will_set_mark == old(self).spec_old_mark_pos(),
            final(self).state.backspace_count == (old(self).index - final(self).vowel_will_set_mark) as u8,
    {
        let vsi = self.vowel_start_index;
        let vei = self.vowel_end_index;
        let index = self.index;
        // default
        if self.vowel_count == 0 && self.chr(vei) == KEY_I {
            self.vowel_will_set_mark = vei;
        } else {
            self.vowel_will_set_mark = vsi;
        }
        self.state.backspace_count = (index - self.vowel_will_set_mark) as u8;

        // rule 2
        proof {
            Self::lemma_mark_rules_frame(&*self, &*old(self), 0);
        }
        if self.vowel_count == 3 || (vei + 1 < index && is_consonant(self.chr(vei + 1))
            && self.can_has_end_consonant()) {
            self.vowel_will_set_mark = vsi + 1;
            self.state.backspace_count = (index - self.vowel_will_set_mark) as u8;
        }

        // rule 3
        let ghost p1 = self.vowel_will_set_mark as int;
        assert(p1 == old(self).spec_old_mark_base());
        let mut ii: usize = vsi;
        while ii <= vei
            invariant
                old(self).spec_first_eo(ii as int) == old(self).spec_first_eo(vsi as int),
                old(self).spec_first_eo(vsi as int) < 0 ==> self.vowel_will_set_mark == p1,
                p1 == old(self).spec_old_mark_base(),
                vsi == old(self).vowel_start_index,
                vei == old(self).vowel_end_index,
                self.state.backspace_count == (index - self.vowel_will_set_mark) as u8,
                self.state.ext_code == old(self).state.ext_code,
                self.state.code == old(self).state.code,
                vsi <= ii <= vei + 1,
                vei < index || vei == 0,
                old(self).same_shape(&*self),
                self.typing_word == old(self).typing_word,
                self.vowel_start_index == vsi,
                self.vowel_end_index == vei,
                self.vowel_count == old(self).vowel_count,
                self.vowel_will_set_mark < index,
                index == self.index,
                vsi < index,
            ensures
                self.vowel_will_set_mark == old(self).spec_old_mark_pos(),
                self.state.backspace_count == (index - self.vowel_will_set_mark) as u8,
                self.state.ext_code == old(self).state.ext_code,
                self.state.code == old(self).state.code,
                old(self).same_shape(&*self),
                self.typing_word == old(self).typing_word,
                self.vowel_start_index == vsi,
                self.vowel_end_index == vei,
                self.vowel_count == old(self).vowel_count,
                self.vowel_will_set_mark < index,
            decreases vei + 1 - ii,
        {
            if (self.chr(ii) == KEY_E && (self.word(ii) & TONE_MASK) != 0)
                || (self.chr(ii) == KEY_O && (self.word(ii) & TONEW_MASK) != 0) {
                self.vowel_will_set_mark = ii;
                self.state.backspace_count = (index - self.vowel_will_set_mark) as u8;
                assert(old(self).spec_first_eo(ii as int) == ii);
                break;
            }
            ii = ii + 1;
        }
        self.state.new_char_count = self.state.backspace_count;
    }

    /// The old orthography before its "ê"/"ơ" rule: the first vowel, or the
    /// second one in a group of three or before an end consonant the group can take.
    pub closed spec fn spec_old_mark_base(&self) -> int {
        let vsi = self.vowel_start_index as int;
        let vei = self.vowel_end_index as int;
        if self.vowel_count == 3 || (vei + 1 < self.index && !spec_is_vowel(self.spec_chr(vei + 1))
            && self.spec_can_has_end_consonant()) {
            vsi + 1
        } else if self.vowel_count == 0 && self.spec_chr(vei) == KEY_I {
            vei
        } else {
            vsi
        }
    }

    /// The first "ê" or "ơ" of the vowel group from position `i` on, or -1.
    pub closed spec fn spec_first_eo(&self, i: int) -> int
        decreases self.spec_group_end() + 1 - i,
    {
        if i < 0 || i > self.spec_group_end() {
            -1
        } else if (self.spec_chr(i) == KEY_E && (self.spec_word(i) & TONE_MASK) != 0)
            || (self.spec_chr(i) == KEY_O && (self.spec_word(i) & TONEW_MASK) != 0) {
            i
        } else {
            self.spec_first_eo(i + 1)
        }
    }

    /// Where the old orthography puts the mark: on the first "ê" or "ơ" of the
    /// group, else as `spec_old_mark_base` says.
    pub closed spec fn spec_old_mark_pos(&self) -> int {
        let e = self.spec_first_eo(self.vowel_start_index as int);
        if e >= 0 { e } else { self.spec_old_mark_base() }
    }

    /// Old orthography: a group of two vowels at the end of the word with no
    /// "ê" or "ơ" takes the mark on its first vowel ("hòa", "thúy").
    pub proof fn lemma_old_mark_open_pair(&self)
        requires
            self.wf(),
            self.vowels_found(),
            self.spec_group_count() == 2,
            self.spec_group_start() + 2 == self.spec_len(),
            self.spec_first_eo(self.spec_group_start()) < 0,
        ensures
            self.spec_old_mark_pos() == self.spec_group_start(),
    {
    }

    /// Old orthography: a vowel group holding "ê" or "ơ" takes the mark on the
    /// first of them ("thuở", "khuyến").
    pub proof fn lemma_old_mark_on_e_o(&self, p: int)
        requires
            self.wf(),
            self.vowels_found(),
            self.spec_group_start() <= p <= self.spec_group_start() + self.spec_group_count() - 1,
            (self.spec_chr(p) == KEY_E && (self.spec_word(p) & TONE_MASK) != 0)
                || (self.spec_chr(p) == KEY_O && (self.spec_word(p) & TONEW_MASK) != 0),
            forall|q: int| self.spec_group_start() <= q < p ==> !(#[trigger] self.spec_chr(q) == KEY_E
                && (self.spec_word(q) & TONE_MASK) != 0) && !(self.spec_chr(q) == KEY_O && (self.spec_word(q) & TONEW_MASK) != 0),
        ensures
            self.spec_old_mark_pos() == p,
        decreases p - self.spec_group_start(),
    {
        self.lemma_first_eo_at(self.vowel_start_index as int, p);
    }

    proof fn lemma_first_eo_at(&self, i: int, p: int)
        requires
            0 <= i <= p <= self.vowel_end_index,
            (self.spec_chr(p) == KEY_E && (self.spec_word(p) & TONE_MASK) != 0)
                || (self.spec_chr(p) == KEY_O && (self.spec_word(p) & TONEW_MASK) != 0),
            forall|q: int| i <= q < p ==> !(#[trigger] self.spec_chr(q) == KEY_E
                && (self.spec_word(q) & TONE_MASK) != 0) && !(self.spec_chr(q) == KEY_O && (self.spec_word(q) & TONEW_MASK) != 0),
        ensures
            self.spec_first_eo(i) == p,
        decreases p - i,
    {
        if i < p {
            self.lemma_first_eo_at(i + 1, p);
        }
    }
}

impl Engine {
    /// Places the mark `mark_mask` on the vowel the orthography chooses; the
    /// same mark typed again removes it.
    #[verifier::spinoff_prover]
    #[verifier::rlimit(100)]
    fn insert_mark(&mut self, mark_mask: u32, can_modify_flag: bool)
        requires
            old(self).wf(),
            old(self).index >= 1,
        ensures
            old(self).same_shape(&*final(self)),
            final(self).state.ext_code == old(self).state.ext_code,
            final(self).state.new_char_count == final(self).state.backspace_count,
            can_modify_flag ==> final(self).state.code == HookCode::WillProcess
                || final(self).state.code == HookCode::Restore,
            final(self).vowel_start_index < final(self).index,
            // the characters sent are those of the word from its vowels on, as now marked
            forall|t: int| final(self).vowel_start_index <= t < final(self).index ==>
                #[trigger] final(self).state.char_data@[final(self).index - 1 - t]
                    == spec_character_code(final(self).cfg.code_table as int, final(self).spec_word(t)),
            // a one-letter vowel word
            can_modify_flag && old(self).index == 1 && spec_is_vowel(old(self).spec_chr(0)) ==> {
                &&& old(self).spec_mark_one_letter(&*final(self), mark_mask)
                &&& final(self).is_caps == old(self).is_caps
                &&& final(self).is_changed == old(self).is_changed
            },
    {
        self.vowel_count = 0;
        if can_modify_flag {
            self.state.code = HookCode::WillProcess;
        }
        self.state.backspace_count = 0;
        self.state.new_char_count = 0;

        self.find_and_calculate_vowel(false);
        self.vowel_will_set_mark = 0;

        if self.vowel_count == 1 {
            self.vowel_will_set_mark = self.vowel_end_index;
            self.state.backspace_count = (self.index - self.vowel_end_index) as u8;
        } else {
            // vowel = 2 or 3
            if !self.cfg.use_modern_orthography {
                self.handle_old_mark();
            } else {
                self.handle_modern_mark();
            }
            if (self.word(self.vowel_end_index) & TONE_MASK) != 0
                || (self.word(self.vowel_end_index) & TONEW_MASK) != 0 {
                self.vowel_will_set_mark = self.vowel_end_index;
            }
        }

        let vsi = self.vowel_start_index;
        let vwsm = self.vowel_will_set_mark;
        let index = self.index;
        let ghost one = can_modify_flag && old(self).index == 1 && spec_is_vowel(old(self).spec_chr(0));
        let ghost w = old(self).typing_word@[0];
        proof {
            if one {
                assert(vsi == 0 && vwsm == 0 && index == 1);
                assert(self.state.backspace_count == 1);
                assert(self.typing_word == old(self).typing_word);
            }
        }
        if (self.word(vwsm) & mark_mask) != 0 {
            // same mark again: remove it
            if vwsm < 32 {
                self.typing_word[vwsm] = self.typing_word[vwsm] & !MARK_MASK;
            }
            if can_modify_flag {
                self.state.code = HookCode::Restore;
            }
            let mut ii: usize = vsi;
            proof {
                if one {
                    assert(self.typing_word@ =~= old(self).typing_word@.update(0, w & !MARK_MASK));
                }
            }
            while ii < index
                invariant
                    self.state.ext_code == old(self).state.ext_code,
                    vsi <= ii <= index,
                    vsi < index,
                    index == self.index,
                    old(self).same_shape(&*self),
                    vsi == self.vowel_start_index,
                    can_modify_flag ==> self.state.code == HookCode::Restore,
                    one == (can_modify_flag && old(self).index == 1 && spec_is_vowel(old(self).spec_chr(0))),
                    w == old(self).typing_word@[0],
                    one ==> self.is_caps == old(self).is_caps && self.is_changed == old(self).is_changed,
                    one ==> vsi == 0 && vwsm == 0 && index == 1 && self.state.backspace_count == 1
                        && self.typing_word@ == old(self).typing_word@.update(0, w & !MARK_MASK),
                    forall|t: int| vsi <= t < ii ==>
                        #[trigger] self.state.char_data@[index - 1 - t]
                            == spec_character_code(self.cfg.code_table as int, self.spec_word(t)),
                decreases index - ii,
            {
                if ii < 32 {
                    self.typing_word[ii] = self.typing_word[ii] & !MARK_MASK;
                }
                proof {
                    if one {
                        assert(((w & !MARK_MASK) & !MARK_MASK) == (w & !MARK_MASK)) by (bit_vector);
                        assert(self.typing_word@ =~= old(self).typing_word@.update(0, w & !MARK_MASK));
                    }
                }
                let c = self.char_code(self.word(ii));
                let idx = index - 1 - ii;
                if idx < 32 {
                    self.state.char_data[idx] = c;
                }
                ii = ii + 1;
            }
            self.temp_disable_key = true;
        } else {
            // remove the other mark, add this one
            if vwsm < 32 {
                self.typing_word[vwsm] = self.typing_word[vwsm] & !MARK_MASK;
                self.typing_word[vwsm] = self.typing_word[vwsm] | mark_mask;
            }
            let mut ii: usize = vsi;
            proof {
                if one {
                    assert(self.typing_word@ =~= old(self).typing_word@.update(0, (w & !MARK_MASK) | mark_mask));
                }
            }
            while ii < index
                invariant
                    self.state.ext_code == old(self).state.ext_code,
                    vsi <= ii <= index,
                    vsi < index,
                    index == self.index,
                    old(self).same_shape(&*self),
                    vsi == self.vowel_start_index,
                    can_modify_flag ==> self.state.code == HookCode::WillProcess,
                    one == (can_modify_flag && old(self).index == 1 && spec_is_vowel(old(self).spec_chr(0))),
                    w == old(self).typing_word@[0],
                    one ==> self.is_caps == old(self).is_caps && self.is_changed == old(self).is_changed,
                    one ==> vsi == 0 && vwsm == 0 && index == 1
                        && self.typing_word@ == old(self).typing_word@.update(0, (w & !MARK_MASK) | mark_mask),
                    forall|t: int| vsi <= t < ii ==>
                        #[trigger] self.state.char_data@[index - 1 - t]
                            == spec_character_code(self.cfg.code_table as int, self.spec_word(t)),
                decreases index - ii,
            {
                if ii != vwsm && ii < 32 {
                    self.typing_word[ii] = self.typing_word[ii] & !MARK_MASK;
                }
                let c = self.char_code(self.word(ii));
                let idx = index - 1 - ii;
                if idx < 32 {
                    self.state.char_data[idx] = c;
                }
                ii = ii + 1;
            }
            self.state.backspace_count = (index - vsi) as u8;
        }
        self.state.new_char_count = self.state.backspace_count;
        proof {
            if one {
                assert(self.index == 1);
                assert(self.state.backspace_count == 1);
                assert(self.cfg == old(self).cfg);
                assert(self.is_caps == old(self).is_caps);
                if (w & mark_mask) == 0 {
                    assert(self.state.code == HookCode::WillProcess);
                    assert(self.typing_word@ == old(self).typing_word@.update(0, (w & !MARK_MASK) | mark_mask));
                    assert(self.state.char_data@[index - 1 - 0int] == spec_character_code(self.cfg.code_table as int, self.spec_word(0)));
                    assert(self.state.char_data@[0] == spec_character_code(self.cfg.code_table as int, self.spec_word(0)));
                } else {
                    assert(self.state.char_data@[index - 1 - 0int] == spec_character_code(self.cfg.code_table as int, self.spec_word(0)));
                    assert(self.state.code == HookCode::Restore);
                    assert(self.temp_disable_key);
                    assert(self.typing_word@ == old(self).typing_word@.update(0, w & !MARK_MASK));
                }
            }
        }
    }

    /// Removes every mark of the last vowel group (the Z key).
    fn remove_mark(&mut self)
        requires old(self).wf(),
        ensures
            old(self).same_shape(&*final(self)),
            final(self).state.code == (if final(self).is_changed { HookCode::WillProcess } else { HookCode::DoNothing }),
            final(self).is_changed ==> {
                &&& final(self).state.backspace_count == final(self).index - final(self).vowel_start_index
                &&& final(self).state.new_char_count == final(self).state.backspace_count
                &&& forall|t: int| final(self).vowel_start_index <= t < final(self).index ==>
                    #[trigger] final(self).state.char_data@[final(self).index - 1 - t]
                        == spec_character_code(final(self).cfg.code_table as int, final(self).spec_word(t))
            },
            // no vowel of the group keeps a mark
            old(self).index > 0 ==> forall|t: int| final(self).vowel_start_index <= t <= final(self).vowel_end_index
                ==> #[trigger] final(self).spec_word(t) & MARK_MASK == 0,
    {
        self.find_and_calculate_vowel(true);
        self.is_changed = false;
        let vsi = self.vowel_start_index;
        let vei = self.vowel_end_index;
        let index = self.index;
        if index > 0 {
            let mut i: usize = vsi;
            while i <= vei
                invariant
                    vsi <= i <= vei + 1,
                    vei <= index,
                    index == self.index,
                    old(self).same_shape(&*self),
                    vsi == self.vowel_start_index,
                    vei == self.vowel_end_index,
                    forall|t: int| vsi <= t < i && t < 32 ==> #[trigger] self.typing_word@[t] & MARK_MASK == 0,
                decreases vei + 1 - i,
            {
                let ghost before = self.typing_word;
                if (self.word(i) & MARK_MASK) != 0 {
                    if i < 32 {
                        let w = self.typing_word[i];
                        assert((w & !MARK_MASK) & MARK_MASK == 0) by (bit_vector);
                        self.typing_word[i] = self.typing_word[i] & !MARK_MASK;
                    }
                    self.is_changed = true;
                }
                assert forall|t: int| vsi <= t < i + 1 && t < 32 implies #[trigger] self.typing_word@[t] & MARK_MASK == 0 by {
                    if t < i {
                        assert(self.typing_word@[t] == before@[t]);
                    }
                }
                i = i + 1;
            }
        }
        let ghost typing_word_before = self.typing_word;
        if self.is_changed {
            self.state.code = HookCode::WillProcess;
            let mut bs: usize = 0;
            let mut i: usize = index;
            while i > vsi
                invariant
                    vsi <= i <= index,
                    bs == index - i,
                    index <= 32,
                    index == self.index,
                    old(self).same_shape(&*self),
                    vsi == self.vowel_start_index,
                    vei == self.vowel_end_index,
                    self.is_changed,
                    self.typing_word == typing_word_before,
                    self.state.code == HookCode::WillProcess,
                    forall|t: int| i <= t < index ==>
                        #[trigger] self.state.char_data@[index - 1 - t]
                            == spec_character_code(self.cfg.code_table as int, self.spec_word(t)),
                decreases i,
            {
                i = i - 1;
                bs = bs + 1;
                let c = self.char_code(self.word(i));
                let idx = index - 1 - i;
                if idx < 32 {
                    self.state.char_data[idx] = c;
                }
            }
            self.state.backspace_count = bs as u8;
            self.state.new_char_count = self.state.backspace_count;
        } else {
            self.state.code = HookCode::DoNothing;
        }
    }

    /// Fixes the tones and the mark of the word as typing goes on ("thuơn" becomes "thươn").
    #[verifier::rlimit(100)]
    #[verifier::spinoff_prover]
    fn check_grammar(&mut self, delta_back_space: i32)
        requires
            old(self).wf(),
            -1 <= delta_back_space <= 1,
        ensures
            old(self).same_shape(&*final(self)),
            final(self).state.ext_code == old(self).state.ext_code
                || final(self).state.ext_code == ExtCode::NoEmptyChar,
            // a word of one letter, or one that fills the buffer, is left as it is
            old(self).index <= 1 || old(self).index >= MAX_BUFF ==> final(self).state == old(self).state
                && final(self).typing_word == old(self).typing_word && *final(self) == *old(self),
            // so is a word with no tone mark and no "uo" to fix
            spec_grammar_quiet(old(self).spec_word_seq()) ==> final(self).state == old(self).state
                && final(self).typing_word == old(self).typing_word,
    {
        if self.index <= 1 || self.index >= MAX_BUFF {
            return;
        }
        self.find_and_calculate_vowel(true);
        if self.vowel_count == 0 {
            return;
        }
        let mut is_checked_grammar = false;
        let l = self.vowel_start_index;
        let vei = self.vowel_end_index;
        let index = self.index;

        // if N key for case: "thuơn", "ưoi", "ưom", "ưoc"
        if index >= 3 {
            let mut i: usize = index;
            while i > 0
                invariant
                    self.state.ext_code == old(self).state.ext_code,
                    i <= index,
                    index == self.index,
                    old(self).same_shape(&*self),
                    self.vowel_start_index == l,
                    self.vowel_end_index == vei,
                    self.vowels_found(),
                    2 <= index < MAX_BUFF,
                    index == old(self).index,
                    spec_grammar_quiet(old(self).spec_word_seq()) ==> self.typing_word == old(self).typing_word
                        && self.state == old(self).state && !is_checked_grammar,
                decreases i,
            {
                i = i - 1;
                let c = self.chr(i);
                proof {
                    if spec_grammar_quiet(old(self).spec_word_seq()) && i >= 2 {
                        assert(old(self).spec_word_seq()[i as int] == self.typing_word@[i as int]);
                        assert(old(self).spec_word_seq()[i - 1] == self.typing_word@[i - 1]);
                        assert(old(self).spec_word_seq()[i - 2] == self.typing_word@[i - 2]);
                        if spec_uo_before(old(self).spec_word_seq(), i as int) {
                            assert((old(self).spec_word_seq()[i - 1] & TONEW_MASK)
                                == (old(self).spec_word_seq()[i - 2] & TONEW_MASK));
                        }
                    }
                }
                if c == KEY_N || c == KEY_C || c == KEY_I || c == KEY_M || c == KEY_P || c == KEY_T {
                    if i >= 2 && self.chr(i - 1) == KEY_O && self.chr(i - 2) == KEY_U {
                        if (self.word(i - 1) & TONEW_MASK) != (self.word(i - 2) & TONEW_MASK) {
                            if i - 2 < 32 {
                                self.typing_word[i - 2] = self.typing_word[i - 2] | TONEW_MASK;
                            }
                            if i - 1 < 32 {
                                self.typing_word[i - 1] = self.typing_word[i - 1] | TONEW_MASK;
                            }
                            is_checked_grammar = true;
                            break;
                        }
                    }
                }
            }
        }

        // check mark
        if index >= 2 {
            let mut i: usize = l;
            while i <= vei
                invariant
                    self.state.ext_code == old(self).state.ext_code,
                    l <= i <= vei + 1,
                    vei <= index,
                    vei < index,
                    index == self.index,
                    index >= 2,
                    index < MAX_BUFF,
                    index == old(self).index,
                    old(self).same_shape(&*self),
                    spec_grammar_quiet(old(self).spec_word_seq()) ==> self.typing_word == old(self).typing_word
                        && self.state == old(self).state && !is_checked_grammar,
                decreases vei + 1 - i,
            {
                proof {
                    if spec_grammar_quiet(old(self).spec_word_seq()) {
                        assert(old(self).spec_word_seq()[i as int] == self.typing_word@[i as int]);
                        assert((old(self).spec_word_seq()[i as int] & MARK_MASK) == 0);
                    }
                }
                if (self.word(i) & MARK_MASK) != 0 {
                    let mark = self.word(i) & MARK_MASK;
                    if i < 32 {
                        self.typing_word[i] = self.typing_word[i] & !MARK_MASK;
                    }
                    self.insert_mark(mark, false);
                    if i != self.vowel_will_set_mark {
                        is_checked_grammar = true;
                    }
                    break;
                }
                i = i + 1;
            }
        }

        // re-arrange data to send back
        if is_checked_grammar {
            if self.state.code == HookCode::DoNothing {
                self.state.code = HookCode::WillProcess;
            }
            let mut bs: usize = 0;
            let mut i: usize = index;
            while i > l
                invariant
                    self.state.ext_code == old(self).state.ext_code,
                    l <= i <= index,
                    bs == index - i,
                    index <= 32,
                    index == self.index,
                    old(self).same_shape(&*self),
                decreases i,
            {
                i = i - 1;
                bs = bs + 1;
                let c = self.char_code(self.word(i));
                let idx = index - 1 - i;
                if idx < 32 {
                    self.state.char_data[idx] = c;
                }
            }
            self.state.new_char_count = bs as u8;
            self.state.backspace_count = (bs as i32 + delta_back_space) as u8;
            self.state.ext_code = ExtCode::NoEmptyChar;
        }
    }
}

impl Engine {
    /// The D key: "d" becomes "đ"; typed again, "đ" goes back to "d".
    #[verifier::spinoff_prover]
    #[verifier::rlimit(100)]
    fn insert_d(&mut self, is_caps: bool)
        requires old(self).wf(),
        ensures
            old(self).same_shape(&*final(self)),
            final(self).state.backspace_count <= final(self).index,
            final(self).state.new_char_count == final(self).state.backspace_count,
            final(self).state.code == HookCode::WillProcess || final(self).state.code == HookCode::Restore,
            ({
                // the letters sent back start at the last "d", or at the start of the word
                let n = old(self).index as int;
                let p = n - final(self).state.backspace_count;
                &&& forall|t: int| p < t < n ==> #[trigger] old(self).spec_chr(t) != KEY_D
                &&& forall|t: int| p < t < n ==> #[trigger] final(self).state.char_data@[n - 1 - t]
                    == spec_character_code(old(self).cfg.code_table as int, old(self).spec_word(t))
                &&& n > 0 && old(self).spec_chr(p) != KEY_D ==> p == 0
                    && final(self).typing_word == old(self).typing_word
                    && final(self).state.code == HookCode::WillProcess
                // a "d" becomes "đ"
                &&& n > 0 && old(self).spec_chr(p) == KEY_D && old(self).spec_word(p) & TONE_MASK == 0 ==> {
                    &&& final(self).state.code == HookCode::WillProcess
                    &&& final(self).typing_word@ == old(self).typing_word@.update(p, old(self).spec_word(p) | TONE_MASK)
                    &&& final(self).state.char_data@[n - 1 - p]
                        == spec_character_code(old(self).cfg.code_table as int, old(self).spec_word(p) | TONE_MASK)
                }
                // a "đ" goes back to "d", and the processing keys rest for the word
                &&& n > 0 && old(self).spec_chr(p) == KEY_D && old(self).spec_word(p) & TONE_MASK != 0 ==> {
                    &&& final(self).state.code == HookCode::Restore
                    &&& final(self).temp_disable_key
                    &&& final(self).typing_word@ == old(self).typing_word@.update(p, old(self).spec_word(p) & !TONE_MASK)
                }
            }),
            final(self).index > 0 ==> final(self).state.backspace_count >= 1,
            final(self).state.ext_code == old(self).state.ext_code,
            final(self).is_caps == old(self).is_caps,
            final(self).is_changed == old(self).is_changed,
            old(self).index == 1 && old(self).spec_chr(0) == KEY_D ==> old(self).spec_d_one_letter(&*final(self)),
    {
        self.state.code = HookCode::WillProcess;
        let index = self.index;
        let mut bs: usize = 0;
        let mut ii: usize = index;
        while ii > 0
            invariant_except_break
                bs == index - ii,
                self.typing_word == old(self).typing_word,
                self.state.code == HookCode::WillProcess,
                forall|t: int| ii <= t < index ==> #[trigger] old(self).spec_chr(t) != KEY_D,
            invariant
                self.state.ext_code == old(self).state.ext_code,
                self.is_caps == old(self).is_caps,
                self.is_changed == old(self).is_changed,
                ii <= index,
                index <= 32,
                index == self.index,
                old(self).same_shape(&*self),
                self.cfg == old(self).cfg,
                self.state.code == HookCode::WillProcess || self.state.code == HookCode::Restore,
                forall|t: int| ii < t < index ==> #[trigger] old(self).spec_chr(t) != KEY_D,
                forall|t: int| ii < t < index ==> #[trigger] self.state.char_data@[index - 1 - t]
                    == spec_character_code(old(self).cfg.code_table as int, old(self).spec_word(t)),
                forall|t: int| ii <= t < index ==> #[trigger] self.state.char_data@[index - 1 - t]
                    == spec_character_code(old(self).cfg.code_table as int, old(self).spec_word(t))
                    || (t == ii && old(self).spec_chr(t) == KEY_D),
            ensures
                ii < index || index == 0,
                bs == index - ii,
                old(self).spec_chr(ii as int) == KEY_D || (ii == 0 && self.typing_word == old(self).typing_word
                    && self.state.code == HookCode::WillProcess),
                index > 0 && old(self).spec_chr(ii as int) == KEY_D && old(self).spec_word(ii as int) & TONE_MASK == 0 ==> {
                    &&& self.state.code == HookCode::WillProcess
                    &&& self.typing_word@ == old(self).typing_word@.update(ii as int, old(self).spec_word(ii as int) | TONE_MASK)
                    &&& self.state.char_data@[index - 1 - ii]
                        == spec_character_code(old(self).cfg.code_table as int, old(self).spec_word(ii as int) | TONE_MASK)
                },
                index > 0 && old(self).spec_chr(ii as int) == KEY_D && old(self).spec_word(ii as int) & TONE_MASK != 0 ==> {
                    &&& self.state.code == HookCode::Restore
                    &&& self.temp_disable_key
                    &&& self.typing_word@ == old(self).typing_word@.update(ii as int, old(self).spec_word(ii as int) & !TONE_MASK)
                },
            decreases ii,
        {
            ii = ii - 1;
            bs = bs + 1;
            let idx = index - 1 - ii;
            if self.chr(ii) == KEY_D {
                if (self.word(ii) & TONE_MASK) != 0 {
                    // restore and disable temporarily
                    self.state.code = HookCode::Restore;
                    if ii < 32 {
                        self.typing_word[ii] = self.typing_word[ii] & !TONE_MASK;
                    }
                    if idx < 32 {
                        self.state.char_data[idx] = self.word(ii);
                    }
                    self.temp_disable_key = true;
                    assert(self.typing_word@ =~= old(self).typing_word@.update(ii as int, old(self).spec_word(ii as int) & !TONE_MASK));
                    break;
                } else {
                    if ii < 32 {
                        self.typing_word[ii] = self.typing_word[ii] | TONE_MASK;
                    }
                    let c = self.char_code(self.word(ii));
                    if idx < 32 {
                        self.state.char_data[idx] = c;
                    }
                    assert(self.typing_word@ =~= old(self).typing_word@.update(ii as int, old(self).spec_word(ii as int) | TONE_MASK));
                }
                break;
            } else {
                // represent old char
                let c = self.char_code(self.word(ii));
                if idx < 32 {
                    self.state.char_data[idx] = c;
                }
            }
        }
        self.state.backspace_count = bs as u8;
        self.state.new_char_count = self.state.backspace_count;
    }

    /// The double vowel key `data` on the one-letter word `self` of its letter
    /// (`after` is the engine after it): the horn or breve goes; the letter takes
    /// the circumflex, or loses the one it had and the key is typed back as is.
    pub closed spec fn spec_aoe_one_letter(&self, after: &Engine, data: u16) -> bool {
        let w = self.typing_word@[0] & !TONEW_MASK;
        let v = if spec_processing_char(self.cfg.input_type, 9) == data { w | TONE_MASK }
            else { (w | TONE_MASK) & !TONEW_MASK };
        &&& after.index == self.index
        &&& after.cfg == self.cfg
        &&& after.state.backspace_count == 1
        &&& after.state.new_char_count == 1
        &&& (w & TONE_MASK) == 0 ==> {
            &&& after.state.code == HookCode::WillProcess
            &&& after.typing_word@ == self.typing_word@.update(0, v)
            &&& after.state.char_data@[0] == spec_character_code(self.cfg.code_table as int, v)
        }
        &&& (w & TONE_MASK) != 0 ==> {
            &&& after.state.code == HookCode::Restore
            &&& after.typing_word@ == self.typing_word@.update(0, w & !TONE_MASK)
            &&& after.state.char_data@[0] == w & !TONE_MASK
            &&& (data != KEY_O ==> after.temp_disable_key)
        }
    }

    /// The D key on the one-letter word "d" or "đ" (`self`; `after` is the
    /// engine after it): "d" becomes "đ"; "đ" goes back to "d", the key is typed
    /// back as is and the processing keys rest for the word.
    pub closed spec fn spec_d_one_letter(&self, after: &Engine) -> bool {
        let w = self.typing_word@[0];
        &&& after.index == self.index
        &&& after.cfg == self.cfg
        &&& after.state.backspace_count == 1
        &&& after.state.new_char_count == 1
        &&& (w & TONE_MASK) == 0 ==> {
            &&& after.state.code == HookCode::WillProcess
            &&& after.typing_word@ == self.typing_word@.update(0, w | TONE_MASK)
            &&& after.state.char_data@[0] == spec_character_code(self.cfg.code_table as int, w | TONE_MASK)
        }
        &&& (w & TONE_MASK) != 0 ==> {
            &&& after.state.code == HookCode::Restore
            &&& after.temp_disable_key
            &&& after.typing_word@ == self.typing_word@.update(0, w & !TONE_MASK)
        }
    }

    /// The mark `m` on the one-letter vowel word `self` (`after` is the engine
    /// after it): the letter takes the mark in place of any other, or loses it
    /// when it had that very mark, and the key is then typed back as is.
    pub closed spec fn spec_mark_one_letter(&self, after: &Engine, m: u32) -> bool {
        let w = self.typing_word@[0];
        &&& after.index == self.index
        &&& after.cfg == self.cfg
        &&& after.state.backspace_count == 1
        &&& after.state.new_char_count == 1
        &&& (w & m) == 0 ==> {
            &&& after.state.code == HookCode::WillProcess
            &&& after.typing_word@ == self.typing_word@.update(0, (w & !MARK_MASK) | m)
            &&& after.state.char_data@[0] == spec_character_code(self.cfg.code_table as int, (w & !MARK_MASK) | m)
        }
        &&& (w & m) != 0 ==> {
            &&& after.state.code == HookCode::Restore
            &&& after.temp_disable_key
            &&& after.typing_word@ == self.typing_word@.update(0, w & !MARK_MASK)
            &&& after.state.char_data@[0] == spec_character_code(self.cfg.code_table as int, w & !MARK_MASK)
        }
    }

    /// The W key on the one-letter word "a", "o" or "u" (`self`; `after` is the
    /// engine after it), its circumflex taken off first: see `spec_w_on_letter`.
    pub closed spec fn spec_w_one_letter(&self, after: &Engine) -> bool {
        let b0 = self.typing_word@[0] & !TONE_MASK;
        &&& after.index == self.index
        &&& after.cfg == self.cfg
        &&& after.state.backspace_count == 1
        &&& after.state.new_char_count == 1
        &&& after.state.code == (if spec_w_restores(b0) { HookCode::Restore } else { HookCode::WillProcess })
        &&& after.typing_word@ == self.typing_word@.update(0, spec_w_on_letter(b0))
        &&& after.temp_disable_key == (self.temp_disable_key || spec_w_toggles(b0))
    }

    /// Entry `t` of the table of words with "d" fits the end of the word.
    pub closed spec fn spec_d_fits_at(&self, data: u16, t: int) -> bool {
        let cs = spec_consonant_d()[t];
        &&& self.index >= cs.len()
        &&& (self.spec_correct_vowel(cs, data) || (self.index >= 2 && self.spec_chr(self.index - 1) == KEY_D
            && !spec_is_vowel(self.spec_chr(self.index - 2))))
    }

    /// Entry `t` of the vowel table of `data` fits the end of the word.
    pub closed spec fn spec_vowel_fits_at(&self, data: u16, t: int) -> bool {
        let cs = spec_vowel_table(data)[t];
        self.index >= cs.len() && self.spec_correct_vowel(cs, data)
    }

    /// The double vowel keys: "a", "o", "e" take a circumflex; typed again, it goes away.
    fn insert_aoe(&mut self, data: u16, is_caps: bool)
        requires old(self).wf(),
        ensures
            old(self).same_shape(&*final(self)),
            final(self).state.code == HookCode::WillProcess || final(self).state.code == HookCode::Restore,
            final(self).state.new_char_count == final(self).state.backspace_count,
            final(self).state.backspace_count <= final(self).index,
            ({
                let n = final(self).index as int;
                let p = n - final(self).state.backspace_count;
                // the letters after the last one of the key are sent back as they are
                &&& forall|t: int| p < t < n ==> #[trigger] final(self).state.char_data@[n - 1 - t]
                    == spec_character_code(final(self).cfg.code_table as int, final(self).spec_word(t))
                // that letter takes the circumflex ...
                &&& final(self).state.code == HookCode::WillProcess ==> forall|t: int| p <= t < n ==>
                    #[trigger] final(self).state.char_data@[n - 1 - t]
                        == spec_character_code(final(self).cfg.code_table as int, final(self).spec_word(t))
                &&& final(self).state.code == HookCode::WillProcess && n > 0 && final(self).spec_chr(p) == data
                    ==> final(self).spec_word(p) & TONE_MASK != 0
                // ... or, when it had one, loses it
                &&& final(self).state.code == HookCode::Restore ==> final(self).spec_word(p) & TONE_MASK == 0
                    && (data != KEY_O ==> final(self).temp_disable_key)
            }),
            // a one-letter word of the key's letter: it takes the circumflex, or loses it
            old(self).index == 1 && old(self).spec_chr(0) == data ==> old(self).spec_aoe_one_letter(&*final(self), data),
            final(self).is_changed == old(self).is_changed,
            final(self).is_caps == old(self).is_caps,
            final(self).state.ext_code == old(self).state.ext_code,
    {
        self.find_and_calculate_vowel(false);
        let vsi = self.vowel_start_index;
        let vei = self.vowel_end_index;
        let index = self.index;
        // remove W tone
        let ghost w_old = self.typing_word@;
        let mut ii: usize = vsi;
        while ii <= vei
            invariant
                vsi <= ii <= vei + 1,
                vei <= index,
                index == self.index,
                old(self).same_shape(&*self),
                self.state == old(self).state,
                self.is_changed == old(self).is_changed,
                w_old == old(self).typing_word@,
                self.is_caps == old(self).is_caps,
                self.cfg == old(self).cfg,
                forall|j: int| 0 <= j < 32 ==> #[trigger] self.typing_word@[j]
                    == (if vsi <= j < ii { w_old[j] & !TONEW_MASK } else { w_old[j] }),
            decreases vei + 1 - ii,
        {
            if ii < 32 {
                self.typing_word[ii] = self.typing_word[ii] & !TONEW_MASK;
            }
            ii = ii + 1;
        }
        proof {
            if index == 1 {
                assert(vsi == 0 && vei == 0);
                assert(self.typing_word@ =~= old(self).typing_word@.update(0, old(self).typing_word@[0] & !TONEW_MASK));
                let w0 = old(self).typing_word@[0];
                assert(((w0 & !TONEW_MASK) & 0xFFFF) == (w0 & 0xFFFF)) by (bit_vector);
                assert(((w0 & 0xFFFF) as u16) == data ==> (w0 & 0xFFFF) == data as u32) by (bit_vector);
            }
        }

        self.state.code = HookCode::WillProcess;
        let ghost tw = self.typing_word;
        let mut bs: usize = 0;
        let mut ii: usize = index;
        while ii > 0
            invariant_except_break
                bs == index - ii,
                self.state.code == HookCode::WillProcess,
                forall|t: int| ii <= t < index ==> #[trigger] self.state.char_data@[index - 1 - t]
                    == spec_character_code(self.cfg.code_table as int, self.spec_word(t)),
                self.typing_word == tw,
                forall|t: int| ii <= t < index && t < 32 ==> (#[trigger] tw@[t] & 0xFFFF) != data as u32,
            invariant
                self.is_changed == old(self).is_changed,
                self.is_caps == old(self).is_caps,
                self.state.ext_code == old(self).state.ext_code,
                self.cfg == old(self).cfg,
                tw@.len() == 32,
                index == 1 && ii == 0 && (tw@[0] & 0xFFFF) == data as u32 && (tw@[0] & TONE_MASK) == 0 ==> {
                    let v = if spec_processing_char(old(self).cfg.input_type, 9) == data { tw@[0] | TONE_MASK }
                        else { (tw@[0] | TONE_MASK) & !TONEW_MASK };
                    &&& self.state.code == HookCode::WillProcess
                    &&& self.typing_word@ == tw@.update(0, v)
                    &&& self.state.char_data@[0] == spec_character_code(old(self).cfg.code_table as int, v)
                },
                ii <= index,
                index <= 32,
                index == self.index,
                old(self).same_shape(&*self),
                forall|t: int| ii < t < index ==> #[trigger] self.state.char_data@[index - 1 - t]
                    == spec_character_code(self.cfg.code_table as int, self.spec_word(t)),
            ensures
                bs == index - ii,
                index > 0 ==> ii < index,
                self.state.code == HookCode::WillProcess || self.state.code == HookCode::Restore,
                forall|t: int| ii < t < index ==> #[trigger] self.state.char_data@[index - 1 - t]
                    == spec_character_code(self.cfg.code_table as int, self.spec_word(t)),
                self.state.code == HookCode::WillProcess ==> forall|t: int| ii <= t < index ==>
                    #[trigger] self.state.char_data@[index - 1 - t]
                        == spec_character_code(self.cfg.code_table as int, self.spec_word(t)),
                self.state.code == HookCode::WillProcess && index > 0 && (self.spec_word(ii as int) & 0xFFFF) == data as u32
                    ==> self.spec_word(ii as int) & TONE_MASK != 0,
                self.state.code == HookCode::Restore ==> self.spec_word(ii as int) & TONE_MASK == 0
                    && (data != KEY_O ==> self.temp_disable_key),
                index == 1 ==> ii == 0,
                index == 1 && (tw@[0] & 0xFFFF) == data as u32 && (tw@[0] & TONE_MASK) == 0 ==> {
                    let v = if spec_processing_char(old(self).cfg.input_type, 9) == data { tw@[0] | TONE_MASK }
                        else { (tw@[0] | TONE_MASK) & !TONEW_MASK };
                    &&& self.state.code == HookCode::WillProcess
                    &&& self.typing_word@ == tw@.update(0, v)
                    &&& self.state.char_data@[0] == spec_character_code(old(self).cfg.code_table as int, v)
                },
                index == 1 && (tw@[0] & 0xFFFF) == data as u32 && (tw@[0] & TONE_MASK) != 0 ==> {
                    &&& self.state.code == HookCode::Restore
                    &&& self.typing_word@ == tw@.update(0, tw@[0] & !TONE_MASK)
                    &&& self.state.char_data@[0] == tw@[0] & !TONE_MASK
                    &&& (data != KEY_O ==> self.temp_disable_key)
                },
            decreases ii,
        {
            ii = ii - 1;
            bs = bs + 1;
            let idx = index - 1 - ii;
            if self.chr(ii) == data {
                let w0 = self.word(ii);
                assert((w0 & !TONE_MASK) & TONE_MASK == 0) by (bit_vector);
                assert(((w0 | TONE_MASK) & !TONEW_MASK) & TONE_MASK != 0) by (bit_vector);
                assert((w0 | TONE_MASK) & TONE_MASK != 0) by (bit_vector);
                if (self.word(ii) & TONE_MASK) != 0 {
                    // restore and disable temporarily
                    self.state.code = HookCode::Restore;
                    if ii < 32 {
                        self.typing_word[ii] = self.typing_word[ii] & !TONE_MASK;
                    }
                    if idx < 32 {
                        self.state.char_data[idx] = self.word(ii);
                    }
                    if data != KEY_O {
                        // case "thoòng"
                        self.temp_disable_key = true;
                    }
                    proof {
                        if index == 1 {
                            assert(self.typing_word@ =~= tw@.update(0, tw@[0] & !TONE_MASK));
                        }
                    }
                    break;
                } else {
                    if ii < 32 {
                        self.typing_word[ii] = self.typing_word[ii] | TONE_MASK;
                    }
                    if !self.is_key_d(data) && ii < 32 {
                        self.typing_word[ii] = self.typing_word[ii] & !TONEW_MASK;
                    }
                    let c = self.char_code(self.word(ii));
                    if idx < 32 {
                        self.state.char_data[idx] = c;
                    }
                    proof {
                        if index == 1 {
                            let v = if spec_processing_char(old(self).cfg.input_type, 9) == data { tw@[0] | TONE_MASK }
                                else { (tw@[0] | TONE_MASK) & !TONEW_MASK };
                            assert(self.typing_word@ =~= tw@.update(0, v));
                        }
                    }
                }
                break;
            } else {
                // represent old char
                let w1 = self.typing_word[ii];
                assert(((w1 & 0xFFFF) as u16) != data ==> (w1 & 0xFFFF) != data as u32) by (bit_vector);
                let c = self.char_code(self.word(ii));
                if idx < 32 {
                    self.state.char_data[idx] = c;
                }
            }
        }
        proof {
            let w2 = self.spec_word(ii as int);
            assert(((w2 & 0xFFFF) as u16) == data ==> (w2 & 0xFFFF) == data as u32) by (bit_vector);
            if index > 0 {
                assert(self.spec_chr(ii as int) == ((w2 & 0xFFFF) as u16));
            }
        }
        self.state.backspace_count = bs as u8;
        self.state.new_char_count = self.state.backspace_count;
        proof {
            if old(self).index == 1 && old(self).spec_chr(0) == data {
                assert(self.index == 1);
                assert(self.state.backspace_count == 1);
                assert(self.state.ext_code == old(self).state.ext_code);
                assert(tw@[0] == old(self).typing_word@[0] & !TONEW_MASK);
                assert((tw@[0] & 0xFFFF) == data as u32);
                let w = tw@[0];
                let v = if spec_processing_char(old(self).cfg.input_type, 9) == data { w | TONE_MASK }
                    else { (w | TONE_MASK) & !TONEW_MASK };
                assert(tw@.update(0, v) =~= old(self).typing_word@.update(0, v));
                assert(tw@.update(0, w & !TONE_MASK) =~= old(self).typing_word@.update(0, w & !TONE_MASK));
            }
        }
    }

    /// The W key on a vowel group of two or more vowels.
    #[verifier::spinoff_prover]
    #[verifier::rlimit(60)]
    fn insert_w_group(&mut self)
        requires
            old(self).wf(),
            old(self).vowels_found(),
            old(self).vowel_count > 1,
        ensures
            old(self).same_shape(&*final(self)),
            final(self).vowel_start_index == old(self).vowel_start_index,
            final(self).vowel_end_index == old(self).vowel_end_index,
            final(self).vowel_count == old(self).vowel_count,
            final(self).state.backspace_count == (old(self).index - old(self).vowel_start_index) as u8,
            final(self).state.new_char_count == final(self).state.backspace_count,
            // a horn typed again on the group goes away and the key is typed as is
            old(self).spec_w_group_restores() ==> {
                &&& final(self).state.code == HookCode::Restore
                &&& final(self).is_restored_w
                &&& final(self).temp_disable_key
            },
            !old(self).spec_w_group_restores() ==> {
                let c0 = old(self).spec_chr(old(self).vowel_start_index as int);
                let c1 = old(self).spec_chr(old(self).vowel_start_index + 1);
                let v = old(self).vowel_start_index as int;
                &&& final(self).state.code == (if spec_w_group_takes_horn(c0, c1) {
                        HookCode::WillProcess } else { HookCode::DoNothing })
                &&& !spec_w_group_takes_horn(c0, c1) ==> {
                    &&& final(self).typing_word == old(self).typing_word
                    &&& final(self).temp_disable_key
                    &&& !final(self).is_changed
                }
                // "ua", "ui", "uu", "oi": the horn goes on the first vowel
                &&& ((c0 == KEY_U && (c1 == KEY_A || c1 == KEY_I || c1 == KEY_U)) || (c0 == KEY_O && c1 == KEY_I))
                    ==> final(self).spec_word(v) == old(self).spec_word(v) | TONEW_MASK
                    && final(self).spec_word(v + 1) == old(self).spec_word(v + 1)
                // "io", "oa": on the second
                &&& ((c0 == KEY_I && c1 == KEY_O) || (c0 == KEY_O && c1 == KEY_A))
                    ==> final(self).spec_word(v) == old(self).spec_word(v)
                    && final(self).spec_word(v + 1) == old(self).spec_word(v + 1) | TONEW_MASK
                // "uo" after "q": on the second; with no "q" or "th" before it, on both
                &&& (c0 == KEY_U && c1 == KEY_O) ==> final(self).spec_word(v + 1) == old(self).spec_word(v + 1) | TONEW_MASK
                &&& (c0 == KEY_U && c1 == KEY_O && v >= 1 && old(self).spec_word(v - 1) == KEY_Q as u32
                    && !(v >= 2 && old(self).spec_word(v - 2) == KEY_T as u32 && old(self).spec_word(v - 1) == KEY_H as u32))
                    ==> final(self).spec_word(v) == old(self).spec_word(v)
                &&& (c0 == KEY_U && c1 == KEY_O && !(v >= 1 && old(self).spec_word(v - 1) == KEY_Q as u32)
                    && !(v >= 2 && old(self).spec_word(v - 2) == KEY_T as u32 && old(self).spec_word(v - 1) == KEY_H as u32))
                    ==> final(self).spec_word(v) == old(self).spec_word(v) | TONEW_MASK
            },
    {
        let vsi = self.vowel_start_index;
        let index = self.index;
        self.state.backspace_count = (index - vsi) as u8;
        self.state.new_char_count = self.state.backspace_count;
        let w0 = self.word(vsi);
        let w1 = self.word(vsi + 1);
        let c0 = self.chr(vsi);
        let c1 = self.chr(vsi + 1);
        if ((w0 & TONEW_MASK) != 0 && (w1 & TONEW_MASK) != 0)
            || ((w0 & TONEW_MASK) != 0 && c1 == KEY_I)
            || ((w0 & TONEW_MASK) != 0 && c1 == KEY_A) {
            // restore and disable temporarily
            self.state.code = HookCode::Restore;
            let ghost snap = *self;
            let mut ii: usize = vsi;
            while ii < index
                invariant
                    vsi <= ii <= index,
                    index == self.index,
                    old(self).same_shape(&*self),
                    vsi == self.vowel_start_index,
                    vsi == old(self).vowel_start_index,
                    self.vowel_end_index == old(self).vowel_end_index,
                    self.vowel_count == old(self).vowel_count,
                    index == old(self).index,
                    self.state.code == HookCode::Restore,
                    self.state.backspace_count == snap.state.backspace_count,
                    self.state.new_char_count == snap.state.new_char_count,
                decreases index - ii,
            {
                if ii < 32 {
                    self.typing_word[ii] = self.typing_word[ii] & !TONEW_MASK;
                }
                let c = self.char_code(self.word(ii)) & !STANDALONE_MASK;
                let idx = index - 1 - ii;
                if idx < 32 {
                    self.state.char_data[idx] = c;
                }
                ii = ii + 1;
            }
            self.is_restored_w = true;
            self.temp_disable_key = true;
        } else {
            self.state.code = HookCode::WillProcess;
            if c0 == KEY_U && c1 == KEY_O {
                if vsi >= 2 && self.word(vsi - 2) == KEY_T as u32 && self.word(vsi - 1) == KEY_H as u32 {
                    if vsi + 1 < 32 {
                        self.typing_word[vsi + 1] = self.typing_word[vsi + 1] | TONEW_MASK;
                    }
                    if vsi + 2 < index && self.chr(vsi + 2) == KEY_N && vsi < 32 {
                        self.typing_word[vsi] = self.typing_word[vsi] | TONEW_MASK;
                    }
                } else if vsi >= 1 && self.word(vsi - 1) == KEY_Q as u32 {
                    if vsi + 1 < 32 {
                        self.typing_word[vsi + 1] = self.typing_word[vsi + 1] | TONEW_MASK;
                    }
                } else {
                    if vsi < 32 {
                        self.typing_word[vsi] = self.typing_word[vsi] | TONEW_MASK;
                    }
                    if vsi + 1 < 32 {
                        self.typing_word[vsi + 1] = self.typing_word[vsi + 1] | TONEW_MASK;
                    }
                }
            } else if (c0 == KEY_U && c1 == KEY_A) || (c0 == KEY_U && c1 == KEY_I)
                || (c0 == KEY_U && c1 == KEY_U) || (c0 == KEY_O && c1 == KEY_I) {
                if vsi < 32 {
                    self.typing_word[vsi] = self.typing_word[vsi] | TONEW_MASK;
                }
            } else if (c0 == KEY_I && c1 == KEY_O) || (c0 == KEY_O && c1 == KEY_A) {
                if vsi + 1 < 32 {
                    self.typing_word[vsi + 1] = self.typing_word[vsi + 1] | TONEW_MASK;
                }
            } else {
                // don't do anything
                self.temp_disable_key = true;
                self.is_changed = false;
                self.state.code = HookCode::DoNothing;
            }
            let ghost snap = *self;
            let mut ii: usize = vsi;
            while ii < index
                invariant
                    vsi <= ii <= index,
                    index == self.index,
                    old(self).same_shape(&*self),
                    self.typing_word == snap.typing_word,
                    self.vowel_start_index == snap.vowel_start_index,
                    self.vowel_end_index == old(self).vowel_end_index,
                    self.vowel_count == old(self).vowel_count,
                    self.temp_disable_key == snap.temp_disable_key,
                    self.is_changed == snap.is_changed,
                    self.state.code == snap.state.code,
                    self.state.backspace_count == snap.state.backspace_count,
                    self.state.new_char_count == snap.state.new_char_count,
                decreases index - ii,
            {
                let c = self.char_code(self.word(ii));
                let idx = index - 1 - ii;
                if idx < 32 {
                    self.state.char_data[idx] = c;
                }
                ii = ii + 1;
            }
        }
    }

    /// The W key on a vowel group whose first vowel has a horn already, followed
    /// by a horned vowel, "i" or "a".
    pub closed spec fn spec_w_group_restores(&self) -> bool {
        spec_w_group_restores_at(self.typing_word@, self.vowel_start_index as int)
    }

    /// The word with the circumflexes of the vowel group of `after` taken off:
    /// what the W key works on.
    pub closed spec fn spec_w_base(&self, after: &Engine) -> Seq<u32> {
        Seq::new(32, |j: int| if after.vowel_start_index <= j <= after.vowel_end_index {
            self.typing_word@[j] & !TONE_MASK
        } else {
            self.typing_word@[j]
        })
    }

    /// The W key: "a", "o", "u" take a breve or a horn; typed again, it goes away.
    #[verifier::spinoff_prover]
    #[verifier::rlimit(100)]
    fn insert_w(&mut self, data: u16, is_caps: bool)
        requires old(self).wf(),
        ensures
            old(self).same_shape(&*final(self)),
            // a single vowel: each "a", "o", "u" from the vowel on takes the W key
            final(self).vowel_count <= 1 ==> {
                let v = final(self).vowel_start_index as int;
                let n = old(self).index as int;
                let b = old(self).spec_w_base(&*final(self));
                &&& v <= n
                &&& final(self).state.backspace_count == (n - v) as u8
                &&& final(self).state.new_char_count == final(self).state.backspace_count
                &&& final(self).state.code == spec_w_code(b, v, n)
                &&& forall|j: int| 0 <= j < 32 ==> #[trigger] final(self).typing_word@[j]
                    == (if v <= j < n && spec_is_aou(b[j]) { spec_w_on_letter(b[j]) } else { b[j] })
                &&& final(self).temp_disable_key
                    == (old(self).temp_disable_key || exists|j: int| v <= j < n && #[trigger] spec_w_toggles(b[j]))
                &&& final(self).is_restored_w == exists|j: int| v <= j < n && #[trigger] spec_w_restores(b[j])
            },
            // a vowel group: the horn goes on the pair, or comes off it
            final(self).vowel_count > 1 ==> {
                let v = final(self).vowel_start_index as int;
                let b = old(self).spec_w_base(&*final(self));
                &&& final(self).state.backspace_count == (old(self).index - v) as u8
                &&& final(self).state.new_char_count == final(self).state.backspace_count
                &&& spec_w_group_restores_at(b, v) ==> final(self).state.code == HookCode::Restore
                    && final(self).is_restored_w && final(self).temp_disable_key
                &&& !spec_w_group_restores_at(b, v) ==> final(self).state.code
                    == (if spec_w_group_takes_horn(spec_letter(b[v]), spec_letter(b[v + 1])) {
                        HookCode::WillProcess } else { HookCode::DoNothing })
            },
            // the one-letter word "a", "o" or "u"
            old(self).index == 1 && spec_is_aou(old(self).typing_word@[0]) ==> {
                &&& old(self).spec_w_one_letter(&*final(self))
                &&& final(self).is_caps == old(self).is_caps
                &&& final(self).is_changed == old(self).is_changed
                &&& final(self).state.ext_code == old(self).state.ext_code
            },
    {
        self.is_restored_w = false;
        self.find_and_calculate_vowel(false);
        let vsi = self.vowel_start_index;
        let vei = self.vowel_end_index;
        let index = self.index;
        let ghost b = old(self).spec_w_base(&*self);
        let ghost w0 = self.typing_word@;
        // remove ^ tone
        let mut ii: usize = vsi;
        while ii <= vei
            invariant
                vsi <= ii <= vei + 1,
                vei <= index,
                index == self.index,
                self.vowel_start_index == vsi,
                self.vowel_end_index == vei,
                old(self).same_shape(&*self),
                self.vowels_found(),
                !self.is_restored_w,
                self.temp_disable_key == old(self).temp_disable_key,
                w0 == old(self).typing_word@,
                self.is_caps == old(self).is_caps,
                self.is_changed == old(self).is_changed,
                self.state.ext_code == old(self).state.ext_code,
                b == old(self).spec_w_base(&*self),
                forall|j: int| 0 <= j < 32 ==> #[trigger] self.typing_word@[j]
                    == (if vsi <= j < ii { w0[j] & !TONE_MASK } else { w0[j] }),
            decreases vei + 1 - ii,
        {
            if ii < 32 {
                self.typing_word[ii] = self.typing_word[ii] & !TONE_MASK;
            }
            ii = ii + 1;
        }
        assert(self.typing_word@ =~= b);

        if self.vowel_count > 1 {
            self.insert_w_group();
            return;
        }

        self.state.code = HookCode::WillProcess;
        let mut bs: usize = 0;
        let mut ii: usize = index;
        while ii > 0
            invariant_except_break
                vsi <= ii,
                bs == index - ii,
                self.state.code == spec_w_code(b, ii as int, index as int),
                forall|j: int| 0 <= j < 32 ==> #[trigger] self.typing_word@[j]
                    == (if ii <= j < index && spec_is_aou(b[j]) { spec_w_on_letter(b[j]) } else { b[j] }),
                self.temp_disable_key
                    == (old(self).temp_disable_key || exists|j: int| ii <= j < index && #[trigger] spec_w_toggles(b[j])),
                self.is_restored_w == exists|j: int| ii <= j < index && #[trigger] spec_w_restores(b[j]),
            invariant
                ii <= index,
                index <= 32,
                index == self.index,
                index == old(self).index,
                old(self).same_shape(&*self),
                self.vowel_start_index == vsi,
                self.vowel_end_index == vei,
                self.vowel_count <= 1,
                vsi <= index,
                b == old(self).spec_w_base(&*self),
                self.is_caps == old(self).is_caps,
                self.is_changed == old(self).is_changed,
                self.state.ext_code == old(self).state.ext_code,
            ensures
                bs == index - vsi,
                self.state.code == spec_w_code(b, vsi as int, index as int),
                forall|j: int| 0 <= j < 32 ==> #[trigger] self.typing_word@[j]
                    == (if vsi <= j < index && spec_is_aou(b[j]) { spec_w_on_letter(b[j]) } else { b[j] }),
                self.temp_disable_key
                    == (old(self).temp_disable_key || exists|j: int| vsi <= j < index && #[trigger] spec_w_toggles(b[j])),
                self.is_restored_w == exists|j: int| vsi <= j < index && #[trigger] spec_w_restores(b[j]),
            decreases ii,
        {
            ii = ii - 1;
            if ii < vsi {
                break;
            }
            bs = bs + 1;
            let idx = index - 1 - ii;
            let ghost pre = self.typing_word@;
            let ghost pre_restored = self.is_restored_w;
            let ghost pre_disable = self.temp_disable_key;
            self.apply_w_at(ii, idx);
            proof {
                let wi = b[ii as int];
                assert(pre[ii as int] == wi);
                assert(forall|j: int| 0 <= j < 32 && j != ii ==> self.typing_word@[j] == pre[j]);
                if spec_w_toggles(wi) {
                    assert(spec_w_toggles(b[ii as int]));
                } else {
                    assert(forall|j: int| ii <= j < index && spec_w_toggles(b[j]) ==> j != ii);
                }
                if spec_w_restores(wi) {
                    assert(spec_w_restores(b[ii as int]));
                } else {
                    assert(forall|j: int| ii <= j < index && spec_w_restores(b[j]) ==> j != ii);
                }
            }
        }
        self.state.backspace_count = bs as u8;
        self.state.new_char_count = self.state.backspace_count;
        proof {
            if old(self).index == 1 && spec_is_aou(old(self).typing_word@[0]) {
                let b0 = old(self).typing_word@[0] & !TONE_MASK;
                assert(vsi == 0 && vei == 0);
                assert(b[0] == b0);
                let w0a = old(self).typing_word@[0];
                assert(((w0a & !TONE_MASK) & 0xFFFF) == (w0a & 0xFFFF)) by (bit_vector);
                assert(spec_is_aou(b0));
                assert(self.typing_word@ =~= old(self).typing_word@.update(0, spec_w_on_letter(b0)));
                assert(spec_w_code(b, 0, 1) == (if spec_w_restores(b0) { HookCode::Restore } else { HookCode::WillProcess }));
                assert(spec_w_toggles(b0) == exists|j: int| 0 <= j < 1 && #[trigger] spec_w_toggles(b[j]));
                assert(spec_w_restores(b0) == exists|j: int| 0 <= j < 1 && #[trigger] spec_w_restores(b[j]));
            }
        }
    }

    /// The W key on entry `ii` of the word (written at `idx` of the output).
    #[verifier::spinoff_prover]
    #[verifier::rlimit(100)]
    fn apply_w_at(&mut self, ii: usize, idx: usize)
        requires
            old(self).wf(),
            ii < old(self).index,
        ensures
            old(self).same_shape(&*final(self)),
            final(self).vowel_start_index == old(self).vowel_start_index,
            final(self).vowel_end_index == old(self).vowel_end_index,
            final(self).vowel_count == old(self).vowel_count,
            final(self).state.backspace_count == old(self).state.backspace_count,
            final(self).typing_word@ == old(self).typing_word@.update(ii as int,
                if spec_is_aou(old(self).typing_word@[ii as int]) {
                    spec_w_on_letter(old(self).typing_word@[ii as int])
                } else {
                    old(self).typing_word@[ii as int]
                }),
            final(self).state.code == (if spec_w_toggles(old(self).typing_word@[ii as int]) {
                if spec_w_restores(old(self).typing_word@[ii as int]) { HookCode::Restore } else { HookCode::WillProcess }
            } else {
                old(self).state.code
            }),
            final(self).temp_disable_key == (old(self).temp_disable_key || spec_w_toggles(old(self).typing_word@[ii as int])),
            final(self).is_restored_w == (old(self).is_restored_w || spec_w_restores(old(self).typing_word@[ii as int])),
            final(self).is_caps == old(self).is_caps,
            final(self).is_changed == old(self).is_changed,
            final(self).state.ext_code == old(self).state.ext_code,
    {
        let c = self.chr(ii);
        if c == KEY_A || c == KEY_U || c == KEY_O {
            if (self.word(ii) & TONEW_MASK) != 0 {
                // restore and disable temporarily
                if (self.word(ii) & STANDALONE_MASK) != 0 {
                    self.state.code = HookCode::WillProcess;
                    let caps: u32 = if (self.word(ii) & CAPS_MASK) != 0 { CAPS_MASK } else { 0 };
                    if c == KEY_U {
                        if ii < 32 {
                            self.typing_word[ii] = KEY_W as u32 | caps;
                        }
                    } else if c == KEY_O {
                        self.state.code = HookCode::Restore;
                        if ii < 32 {
                            self.typing_word[ii] = KEY_O as u32 | caps;
                        }
                        self.is_restored_w = true;
                    }
                    if idx < 32 {
                        self.state.char_data[idx] = self.word(ii);
                    }
                } else {
                    self.state.code = HookCode::Restore;
                    if ii < 32 {
                        self.typing_word[ii] = self.typing_word[ii] & !TONEW_MASK;
                    }
                    if idx < 32 {
                        self.state.char_data[idx] = self.word(ii);
                    }
                    self.is_restored_w = true;
                }
                self.temp_disable_key = true;
            } else {
                if ii < 32 {
                    self.typing_word[ii] = self.typing_word[ii] | TONEW_MASK;
                    self.typing_word[ii] = self.typing_word[ii] & !TONE_MASK;
                }
                let cc = self.char_code(self.word(ii));
                if idx < 32 {
                    self.state.char_data[idx] = cc;
                }
            }
        } else {
            let cc = self.char_code(self.word(ii));
            if idx < 32 {
                self.state.char_data[idx] = cc;
            }
        }
        proof {
            assert(self.typing_word@ =~= old(self).typing_word@.update(ii as int,
                if spec_is_aou(old(self).typing_word@[ii as int]) {
                    spec_w_on_letter(old(self).typing_word@[ii as int])
                } else {
                    old(self).typing_word@[ii as int]
                }));
        }
    }

    /// Turns the last entry into the standalone letter of `key_code` ("ư" or "ơ").
    fn reverse_last_standalone_char(&mut self, key_code: u16, is_caps: bool)
        requires
            old(self).wf(),
            old(self).index >= 1,
        ensures
            old(self).same_shape(&*final(self)),
            final(self).state.code == HookCode::WillProcess,
            final(self).state.backspace_count == 0,
            final(self).state.new_char_count == 1,
            final(self).state.ext_code == ExtCode::NoEmptyChar,
            final(self).typing_word@ == old(self).typing_word@.update(old(self).index - 1,
                key_code as u32 | TONEW_MASK | STANDALONE_MASK | (if is_caps { CAPS_MASK } else { 0u32 })),
            final(self).state.char_data@ == old(self).state.char_data@.update(0,
                spec_character_code(old(self).cfg.code_table as int, final(self).typing_word@[old(self).index - 1])),
    {
        self.state.code = HookCode::WillProcess;
        self.state.backspace_count = 0;
        self.state.new_char_count = 1;
        self.state.ext_code = ExtCode::NoEmptyChar;
        let last = self.index - 1;
        self.typing_word[last] = key_code as u32 | TONEW_MASK | STANDALONE_MASK
            | if is_caps { CAPS_MASK } else { 0 };
        self.state.char_data[0] = self.char_code(self.typing_word[last]);
        assert(self.typing_word@ =~= old(self).typing_word@.update(old(self).index - 1,
            key_code as u32 | TONEW_MASK | STANDALONE_MASK | (if is_caps { CAPS_MASK } else { 0u32 })));
    }

    /// The last letter is the standalone letter of `key_will_reverse`.
    pub closed spec fn spec_reverses_last(&self, key_will_reverse: u16) -> bool {
        self.index > 0 && self.spec_chr(self.index - 1) == key_will_reverse
            && (self.spec_word(self.index - 1) & TONEW_MASK) != 0
    }

    /// The standalone keys `w`, `[` and `]`: typed alone they give "ư" or "ơ".
    fn check_for_standalone_char(&mut self, data: u16, is_caps: bool, key_will_reverse: u16)
        requires old(self).wf(),
        ensures
            final(self).wf(),
            final(self).cfg == old(self).cfg,
            // the key typed again after its letter gives the key back
            old(self).spec_reverses_last(key_will_reverse) ==> {
                &&& final(self).state.code == HookCode::WillProcess
                &&& final(self).state.backspace_count == 1
                &&& final(self).state.new_char_count == 1
                &&& final(self).index == old(self).index
                &&& final(self).typing_word@ == old(self).typing_word@.update(old(self).index - 1, spec_with_caps(data, is_caps))
                &&& final(self).state.char_data@[0]
                    == spec_character_code(old(self).cfg.code_table as int, spec_with_caps(data, is_caps))
            },
            // after "u", or alone, the key is the standalone letter
            !old(self).spec_reverses_last(key_will_reverse) && ((old(self).index > 0
                && old(self).spec_chr(old(self).index - 1) == KEY_U && key_will_reverse == KEY_O)
                || old(self).index == 0) ==> {
                &&& final(self).state.code == HookCode::WillProcess
                &&& final(self).state.backspace_count == 0
                &&& final(self).state.new_char_count == 1
                &&& final(self).state.ext_code == ExtCode::NoEmptyChar
                &&& final(self).index == (if old(self).index < MAX_BUFF { old(self).index + 1 } else { MAX_BUFF as int })
                &&& final(self).typing_word[final(self).index - 1] == key_will_reverse as u32 | TONEW_MASK
                    | STANDALONE_MASK | (if is_caps { CAPS_MASK } else { 0u32 })
            },
    {
        if self.index > 0 && self.chr(self.index - 1) == key_will_reverse
            && (self.word(self.index - 1) & TONEW_MASK) != 0 {
            self.state.code = HookCode::WillProcess;
            self.state.backspace_count = 1;
            self.state.new_char_count = 1;
            let last = self.index - 1;
            self.typing_word[last] = with_caps(data, is_caps);
            self.state.char_data[0] = self.char_code(self.typing_word[last]);
            assert(self.typing_word@ =~= old(self).typing_word@.update(old(self).index - 1, spec_with_caps(data, is_caps)));
            return;
        }
        // check standalone w -> ư
        if self.index > 0 && self.chr(self.index - 1) == KEY_U && key_will_reverse == KEY_O {
            self.insert_key(key_will_reverse, is_caps, true);
            self.reverse_last_standalone_char(key_will_reverse, is_caps);
            return;
        }
        if self.index == 0 {
            // zero char
            self.insert_key(data, is_caps, false);
            self.reverse_last_standalone_char(key_will_reverse, is_caps);
            return;
        } else if self.index == 1 {
            // 1 char
            let bad = standalone_w_bad();
            let mut t: usize = 0;
            while t < bad.len()
                invariant
                    t <= bad.len(),
                    self.wf(),
                    self.cfg == old(self).cfg,
                    !old(self).spec_reverses_last(key_will_reverse),
                    !(old(self).index > 0 && old(self).spec_chr(old(self).index - 1) == KEY_U && key_will_reverse == KEY_O),
                    old(self).index > 0,
                    self.index == 1,
                decreases bad.len() - t,
            {
                if self.chr(0) == bad[t] {
                    self.insert_key(data, is_caps, true);
                    return;
                }
                t = t + 1;
            }
            self.insert_key(data, is_caps, false);
            self.reverse_last_standalone_char(key_will_reverse, is_caps);
            return;
        } else if self.index == 2 {
            let allowed = double_w_allowed();
            let mut t: usize = 0;
            while t < allowed.len()
                invariant
                    t <= allowed.len(),
                    self.wf(),
                    self.cfg == old(self).cfg,
                    !old(self).spec_reverses_last(key_will_reverse),
                    !(old(self).index > 0 && old(self).spec_chr(old(self).index - 1) == KEY_U && key_will_reverse == KEY_O),
                    old(self).index > 0,
                    self.index == 2,
                decreases allowed.len() - t,
            {
                let pair = &allowed[t];
                if pair.len() >= 2 && self.chr(0) == pair[0] && self.chr(1) == pair[1] {
                    self.insert_key(data, is_caps, false);
                    self.reverse_last_standalone_char(key_will_reverse, is_caps);
                    return;
                }
                t = t + 1;
            }
            self.insert_key(data, is_caps, true);
            return;
        }
        self.insert_key(data, is_caps, true);
    }
}

impl Engine {
    /// Whether the word ends with `charset` (the processing key `mark_key`
    /// may then apply to it); false after "qu", for "c"/"t" endings with the
    /// f, x, r marks, and when the letter before the tail repeats its first one.
    fn check_correct_vowel(&self, charset: &Vec<u16>, mark_key: u16) -> (r: bool)
        requires self.wf(),
        ensures
            r ==> self.index >= 1,
            r == self.spec_correct_vowel(charset@, mark_key),
    {
        // ignore "qu" case
        if self.index >= 2 && self.chr(self.index - 1) == KEY_U && self.chr(self.index - 2) == KEY_Q {
            return false;
        }
        if self.index == 0 {
            return false;
        }
        let mut k: usize = self.index - 1;
        let mut j: usize = charset.len();
        // whether the match reached the first entry of the word: there is no
        // entry before the vowel to compare then
        let mut reached_start = false;
        let mask: u16 = if self.cfg.quick_end_consonant { END_CONSONANT_MASK } else { 0 };
        let ghost n = self.index as int;
        let ghost len = charset@.len() as int;
        while j > 0
            invariant_except_break
                k as int == n - 1 - (len - j),
                !reached_start,
            invariant
                j <= charset.len(),
                k < self.index,
                self.wf(),
                n == self.index,
                len == charset@.len(),
                mask == (if self.cfg.quick_end_consonant { END_CONSONANT_MASK } else { 0u16 }),
                forall|t: int| 0 <= t < len - j ==> (#[trigger] charset@[len - 1 - t] & !mask) == self.spec_chr(n - 1 - t),
            ensures
                reached_start ==> len >= n && forall|t: int| 0 <= t < n ==> (#[trigger] charset@[len - 1 - t] & !mask) == self.spec_chr(n - 1 - t),
                !reached_start ==> j == 0 && k as int == n - 1 - len
                    && forall|t: int| 0 <= t < len ==> (#[trigger] charset@[len - 1 - t] & !mask) == self.spec_chr(n - 1 - t),
            decreases j,
        {
            j = j - 1;
            if (charset[j] & !mask) != self.chr(k) {
                proof {
                    assert(charset@[len - 1 - (len - 1 - j)] == charset@[j as int]);
                }
                return false;
            }
            if k == 0 {
                reached_start = true;
                break;
            }
            k = k - 1;
        }
        let mut is_correct = true;
        // limit mark for end consonant: "C", "T"
        if charset.len() > 1 && (self.is_key_f(mark_key) || self.is_key_x(mark_key) || self.is_key_r(mark_key)) {
            if charset[1] == KEY_C || charset[1] == KEY_T {
                is_correct = false;
            } else if charset.len() > 2 && charset[2] == KEY_T {
                is_correct = false;
            }
        }
        if is_correct && !reached_start && k < self.index && self.chr(k) == self.chr(k + 1) {
            is_correct = false;
        }
        is_correct
    }

    /// See `check_correct_vowel`. `m` entries of the tail are compared: all of
    /// `charset`, or the whole word when it is shorter.
    pub closed spec fn spec_correct_vowel(&self, charset: Seq<u16>, mark_key: u16) -> bool {
        let n = self.index as int;
        let len = charset.len() as int;
        let m = if len < n { len } else { n };
        let mask: u16 = if self.cfg.quick_end_consonant { END_CONSONANT_MASK } else { 0 };
        &&& !(n >= 2 && self.spec_chr(n - 1) == KEY_U && self.spec_chr(n - 2) == KEY_Q)
        &&& n >= 1
        &&& forall|t: int| 0 <= t < m ==> (#[trigger] charset[len - 1 - t] & !mask) == self.spec_chr(n - 1 - t)
        &&& !(len > 1 && (spec_processing_char(self.cfg.input_type, 1) == mark_key
                || spec_processing_char(self.cfg.input_type, 3) == mark_key
                || spec_processing_char(self.cfg.input_type, 2) == mark_key)
            && (charset[1] == KEY_C || charset[1] == KEY_T || (len > 2 && charset[2] == KEY_T)))
        &&& (len < n ==> self.spec_chr(n - 1 - len) != self.spec_chr(n - len))
    }

    /// Entry `t` of the mark table of vowel `n` (see `spec_mark_vowels`) fits
    /// the end of the word and takes the mark key `data`.
    pub closed spec fn spec_mark_fits_at(&self, data: u16, n: int, t: int) -> bool {
        let cs = spec_vowel_for_mark_table(spec_mark_vowels()[n])[t];
        self.index >= cs.len() && self.spec_correct_vowel(cs, data)
    }

    /// Some entry of the mark tables of the vowels fits the end of the word and
    /// takes the mark key `data`.
    pub closed spec fn spec_mark_fits(&self, data: u16) -> bool {
        exists|n: int, t: int| 0 <= n < 6 && 0 <= t < spec_vowel_for_mark_table(spec_mark_vowels()[n]).len()
            && #[trigger] self.spec_mark_fits_at(data, n, t)
    }

    /// The mark for a mark key of the input method.
    fn mark_of_key(&self, data: u16) -> (r: u32)
        ensures r == self.spec_mark_of_key(data),
    {
        if self.is_key_s(data) {
            MARK1_MASK
        } else if self.is_key_f(data) {
            MARK2_MASK
        } else if self.is_key_r(data) {
            MARK3_MASK
        } else if self.is_key_x(data) {
            MARK4_MASK
        } else if self.is_key_j(data) {
            MARK5_MASK
        } else {
            0
        }
    }

    /// The D key: "đ" when the word allows it.
    #[verifier::spinoff_prover]
    #[verifier::rlimit(100)]
    fn handle_d_key(&mut self, data: u16, is_caps: bool)
        requires old(self).wf(),
        ensures
            final(self).wf(),
            final(self).cfg == old(self).cfg,
            // when the word takes the key, the edit is made
            final(self).is_changed ==> {
                &&& final(self).state.code == HookCode::WillProcess || final(self).state.code == HookCode::Restore
                &&& final(self).state.new_char_count == final(self).state.backspace_count
                &&& final(self).index == old(self).index
            },
            // otherwise the key is added as a letter
            !final(self).is_changed ==> {
                &&& final(self).state == old(self).state
                &&& final(self).index == (if old(self).index < MAX_BUFF { old(self).index + 1 } else { MAX_BUFF as int })
                &&& final(self).typing_word[final(self).index - 1] == spec_with_caps(data, is_caps)
            },
            // the word "d" or "đ" takes the D key
            old(self).index == 1 && old(self).spec_chr(0) == KEY_D && data == KEY_D ==> {
                &&& final(self).is_changed
                &&& old(self).spec_d_one_letter(&*final(self))
                &&& final(self).state.ext_code == old(self).state.ext_code
                &&& final(self).is_caps == old(self).is_caps
            },
    {
        self.is_correct = false;
        self.is_changed = false;
        let table = consonant_d();
        let ghost one = old(self).index == 1 && old(self).spec_chr(0) == KEY_D && data == KEY_D;
        let ghost tbl = spec_consonant_d();
        proof {
            if one {
                assert(tbl.len() == 79 && tbl[78] == seq![KEY_D]);
                let m: u16 = if old(self).cfg.quick_end_consonant { END_CONSONANT_MASK } else { 0 };
                assert((data < 0x4000u16 && (m == 0u16 || m == 0x4000u16)) ==> (data & !m) == data) by (bit_vector);
                assert(old(self).spec_correct_vowel(tbl[78], data));
                assert(old(self).spec_d_fits_at(data, 78));
                assert(rows_of(table@).len() == table@.len());
            }
        }
        let mut t: usize = 0;
        while t < table.len()
            invariant_except_break
                !self.is_changed,
            invariant
                one == (old(self).index == 1 && old(self).spec_chr(0) == KEY_D && data == KEY_D),
                tbl == spec_consonant_d(),
                rows_match(table@, tbl),
                one ==> old(self).spec_d_fits_at(data, 78) && tbl.len() == 79 && table@.len() == 79,
                one && !self.is_changed ==> forall|u: int| 0 <= u < t ==> !#[trigger] old(self).spec_d_fits_at(data, u),
                !self.is_changed ==> self.is_caps == old(self).is_caps && self.state.ext_code == old(self).state.ext_code,
                one && self.is_changed ==> old(self).spec_d_one_letter(&*self)
                    && self.is_caps == old(self).is_caps && self.state.ext_code == old(self).state.ext_code,
                t <= table.len(),
                self.wf(),
                self.cfg == old(self).cfg,
                !self.is_changed ==> self.state == old(self).state && self.index == old(self).index
                    && self.typing_word == old(self).typing_word,
                self.is_changed ==> (self.state.code == HookCode::WillProcess || self.state.code == HookCode::Restore)
                    && self.state.new_char_count == self.state.backspace_count && self.index == old(self).index,
            ensures
                one ==> self.is_changed,
            decreases table.len() - t,
        {
            let entry = &table[t];
            assert(entry@ == tbl[t as int]);
            if self.index < entry.len() {
                t = t + 1;
                continue;
            }
            self.is_correct = self.check_correct_vowel(entry, data);
            // allow d after consonant
            if !self.is_correct && self.index >= 2 && self.chr(self.index - 1) == KEY_D
                && is_consonant(self.chr(self.index - 2)) {
                self.is_correct = true;
            }
            if self.is_correct {
                let ghost pre = *self;
                self.insert_d(is_caps);
                self.is_changed = true;
                proof {
                    if one {
                        assert(pre.typing_word == old(self).typing_word && pre.index == old(self).index
                            && pre.cfg == old(self).cfg);
                        assert(pre.spec_d_one_letter(&*self));
                    }
                }
                break;
            }
            proof {
                if one {
                    assert(!old(self).spec_d_fits_at(data, t as int));
                }
            }
            t = t + 1;
        }
        proof {
            if one {
                assert(self.is_changed);
            }
        }
        if !self.is_changed {
            self.insert_key(data, is_caps, true);
        }
    }

    /// A mark key: the mark goes on the vowel when the word's tail accepts one.
    #[verifier::spinoff_prover]
    #[verifier::rlimit(100)]
    fn handle_mark_key(&mut self, data: u16, is_caps: bool)
        requires old(self).wf(),
        ensures
            final(self).wf(),
            final(self).cfg == old(self).cfg,
            // when the word's tail accepts a mark, the mark of the key goes on it
            final(self).is_changed && old(self).spec_mark_of_key(data) != 0 ==> {
                &&& final(self).state.code == HookCode::WillProcess || final(self).state.code == HookCode::Restore
                &&& final(self).state.new_char_count == final(self).state.backspace_count
                &&& final(self).index == old(self).index
            },
            final(self).is_changed && old(self).spec_mark_of_key(data) == 0 ==> final(self).state == old(self).state,
            // the word takes the key as a mark exactly when its tail is a vowel group that can carry one
            final(self).is_changed == old(self).spec_mark_fits(data),
            // a one-letter vowel word takes the mark
            old(self).index == 1 && spec_is_vowel(old(self).spec_chr(0)) && old(self).spec_mark_of_key(data) != 0 ==> {
                &&& final(self).is_changed
                &&& old(self).spec_mark_one_letter(&*final(self), old(self).spec_mark_of_key(data))
                &&& final(self).is_caps == old(self).is_caps
                &&& final(self).state.ext_code == old(self).state.ext_code
            },
            // otherwise the key is added as a letter
            !final(self).is_changed ==> {
                &&& final(self).state == old(self).state
                &&& final(self).index == (if old(self).index < MAX_BUFF { old(self).index + 1 } else { MAX_BUFF as int })
                &&& final(self).typing_word[final(self).index - 1] == spec_with_caps(data, is_caps)
            },
    {
        self.is_correct = false;
        self.is_changed = false;
        let keys: [u16; 6] = [KEY_A, KEY_E, KEY_Y, KEY_O, KEY_U, KEY_I];
        assert(keys@ == spec_mark_vowels());
        let ghost one = old(self).index == 1 && spec_is_vowel(old(self).spec_chr(0)) && old(self).spec_mark_of_key(data) != 0;
        proof {
            if one {
                let c = old(self).spec_chr(0);
                let n: int = if c == KEY_A { 0 } else if c == KEY_E { 1 } else if c == KEY_Y { 2 }
                    else if c == KEY_O { 3 } else if c == KEY_U { 4 } else { 5 };
                let t: int = if c == KEY_A { 10 } else if c == KEY_E { 14 } else if c == KEY_Y { 0 }
                    else if c == KEY_O { 13 } else if c == KEY_U { 20 } else { 13 };
                assert(spec_mark_vowels()[n] == c);
                assert(spec_vowel_for_mark_table(c)[t] == seq![c]);
                let m: u16 = if old(self).cfg.quick_end_consonant { END_CONSONANT_MASK } else { 0 };
                assert((c < 0x4000u16 && (m == 0u16 || m == 0x4000u16)) ==> (c & !m) == c) by (bit_vector);
                assert(old(self).spec_correct_vowel(seq![c], data));
                assert(old(self).spec_mark_fits_at(data, n, t));
                assert(old(self).spec_mark_fits(data));
            }
        }
        let mut n: usize = 0;
        'outer: while n < 6
            invariant_except_break
                !self.is_changed,
                forall|n2: int, t2: int| 0 <= n2 < n && 0 <= t2 < spec_vowel_for_mark_table(spec_mark_vowels()[n2]).len()
                    ==> !#[trigger] old(self).spec_mark_fits_at(data, n2, t2),
            invariant
                n <= 6,
                self.wf(),
                self.cfg == old(self).cfg,
                !self.is_changed ==> self.state == old(self).state && self.index == old(self).index
                    && self.typing_word == old(self).typing_word,
                self.is_changed && old(self).spec_mark_of_key(data) != 0 ==> (self.state.code == HookCode::WillProcess
                    || self.state.code == HookCode::Restore)
                    && self.state.new_char_count == self.state.backspace_count && self.index == old(self).index,
                self.is_changed && old(self).spec_mark_of_key(data) == 0 ==> self.state == old(self).state,
                keys@ == spec_mark_vowels(),
                self.is_changed ==> old(self).spec_mark_fits(data),
                one == (old(self).index == 1 && spec_is_vowel(old(self).spec_chr(0)) && old(self).spec_mark_of_key(data) != 0),
                !self.is_changed ==> self.is_caps == old(self).is_caps && self.state.ext_code == old(self).state.ext_code,
                one && self.is_changed ==> old(self).spec_mark_one_letter(&*self, old(self).spec_mark_of_key(data))
                    && self.is_caps == old(self).is_caps && self.state.ext_code == old(self).state.ext_code,
            ensures
                self.is_changed == old(self).spec_mark_fits(data),
            decreases 6 - n,
        {
            let entries = vowel_for_mark_table(keys[n]);
            let ghost tbl = spec_vowel_for_mark_table(spec_mark_vowels()[n as int]);
            let mut t: usize = 0;
            while t < entries.len()
                invariant
                    t <= entries.len(),
                    n < 6,
                    self.wf(),
                    self.cfg == old(self).cfg,
                    !self.is_changed,
                    self.state == old(self).state && self.index == old(self).index
                        && self.typing_word == old(self).typing_word,
                    self.is_caps == old(self).is_caps,
                    one == (old(self).index == 1 && spec_is_vowel(old(self).spec_chr(0)) && old(self).spec_mark_of_key(data) != 0),
                    rows_match(entries@, tbl),
                    keys@ == spec_mark_vowels(),
                    tbl == spec_vowel_for_mark_table(spec_mark_vowels()[n as int]),
                    forall|n2: int, t2: int| 0 <= n2 < n && 0 <= t2 < spec_vowel_for_mark_table(spec_mark_vowels()[n2]).len()
                        ==> !#[trigger] old(self).spec_mark_fits_at(data, n2, t2),
                    forall|t2: int| 0 <= t2 < t ==> !#[trigger] old(self).spec_mark_fits_at(data, n as int, t2),
                decreases entries.len() - t,
            {
                let charset = &entries[t];
                assert(charset@ == tbl[t as int]);
                assert(self.spec_correct_vowel(charset@, data) == old(self).spec_correct_vowel(charset@, data));
                if self.index < charset.len() {
                    t = t + 1;
                    continue;
                }
                self.is_correct = self.check_correct_vowel(charset, data);
                if self.is_correct {
                    assert(old(self).spec_mark_fits_at(data, n as int, t as int));
                    let mark = self.mark_of_key(data);
                    let ghost pre = *self;
                    if mark != 0 {
                        self.insert_mark(mark, true);
                    }
                    proof {
                        if one {
                            assert(pre.typing_word == old(self).typing_word && pre.index == old(self).index
                                && pre.cfg == old(self).cfg);
                            assert(pre.spec_mark_one_letter(&*self, mark));
                        }
                    }
                    self.is_changed = true;
                    break 'outer;
                }
                t = t + 1;
            }
            n = n + 1;
        }
        if !self.is_changed {
            self.insert_key(data, is_caps, true);
        }
    }

    /// The processing keys: Z removes the mark, brackets are standalone letters,
    /// D makes "đ", mark keys place marks and the vowel keys add tones.
    #[verifier::spinoff_prover]
    #[verifier::rlimit(100)]
    fn handle_main_key(&mut self, data: u16, is_caps: bool)
        requires old(self).wf(),
        ensures
            final(self).wf(),
            final(self).cfg == old(self).cfg,
            // the D key: the word's "d" is toggled, or the key is added as a letter
            old(self).spec_main_key_is_d(data) ==> {
                &&& final(self).is_changed ==> {
                    &&& final(self).state.code == HookCode::WillProcess || final(self).state.code == HookCode::Restore
                    &&& final(self).state.new_char_count == final(self).state.backspace_count
                    &&& final(self).index == old(self).index
                }
                &&& !final(self).is_changed ==> old(self).spec_key_added(&*final(self), data, is_caps)
            },
            // a mark key: the mark goes on the word, or the key is added as a letter
            old(self).spec_main_key_is_mark(data) ==> {
                &&& final(self).is_changed == old(self).spec_mark_fits(data)
                &&& final(self).is_changed && old(self).spec_mark_of_key(data) != 0 ==> {
                    &&& final(self).state.code == HookCode::WillProcess || final(self).state.code == HookCode::Restore
                    &&& final(self).state.new_char_count == final(self).state.backspace_count
                    &&& final(self).index == old(self).index
                }
                &&& !final(self).is_changed ==> old(self).spec_key_added(&*final(self), data, is_caps)
            },
            // the Z key takes the marks off the vowel group, or is added as a letter
            old(self).cfg.input_type != InputType::Vni && data == KEY_Z ==> {
                &&& final(self).is_changed ==> {
                    &&& final(self).state.code == HookCode::WillProcess
                    &&& final(self).state.new_char_count == final(self).state.backspace_count
                    &&& final(self).state.backspace_count == final(self).index - final(self).vowel_start_index
                    &&& final(self).index == old(self).index
                    &&& forall|t: int| final(self).vowel_start_index <= t < final(self).index ==>
                        #[trigger] final(self).state.char_data@[final(self).index - 1 - t]
                            == spec_character_code(final(self).cfg.code_table as int, final(self).spec_word(t))
                    &&& old(self).index > 0 ==> forall|t: int| final(self).vowel_start_index <= t <= final(self).vowel_end_index
                        ==> #[trigger] final(self).spec_word(t) & MARK_MASK == 0
                }
                &&& !final(self).is_changed ==> {
                    &&& final(self).state.code == HookCode::DoNothing
                    &&& final(self).index == (if old(self).index < MAX_BUFF { old(self).index + 1 } else { MAX_BUFF as int })
                    &&& final(self).typing_word[final(self).index - 1] == spec_with_caps(data, is_caps)
                }
            },
            // a mark key on a one-letter vowel word
            old(self).cfg.input_type != InputType::Vni && (data == KEY_S || data == KEY_F || data == KEY_R || data == KEY_X || data == KEY_J)
                && old(self).index == 1 && spec_is_vowel(old(self).spec_chr(0)) ==> {
                &&& old(self).spec_mark_one_letter(&*final(self), old(self).spec_mark_of_key(data))
                &&& final(self).state.ext_code == old(self).state.ext_code
                &&& final(self).is_caps == old(self).is_caps
            },
            // the D key on the word "d" or "đ"
            old(self).cfg.input_type != InputType::Vni && data == KEY_D
                && old(self).index == 1 && old(self).spec_chr(0) == KEY_D ==> {
                &&& old(self).spec_d_one_letter(&*final(self))
                &&& final(self).state.ext_code == old(self).state.ext_code
                &&& final(self).is_caps == old(self).is_caps
            },
            // a double vowel key on a one-letter word of its letter ("aa", "ee", "oo")
            old(self).cfg.input_type != InputType::Vni && (data == KEY_A || data == KEY_E || data == KEY_O)
                && old(self).index == 1 && old(self).spec_chr(0) == data
                ==> old(self).spec_aoe_one_letter(&*final(self), data)
                    && final(self).state.ext_code == old(self).state.ext_code
                    && final(self).is_caps == old(self).is_caps,
            // the W key on the one-letter word "a", "o" or "u" ("aw" gives "ă")
            old(self).cfg.input_type != InputType::Vni && data == KEY_W
                && old(self).index == 1 && spec_is_aou(old(self).typing_word@[0]) ==> {
                &&& old(self).spec_w_one_letter(&*final(self))
                &&& final(self).state.ext_code == old(self).state.ext_code
                &&& final(self).is_caps == old(self).is_caps
            },
    {
        // if is Z key, remove mark
        if self.is_key_z(data) {
            self.remove_mark();
            if !self.is_changed {
                self.insert_key(data, is_caps, true);
            }
            return;
        }
        if data == KEY_LEFT_BRACKET {
            // standalone key [
            self.check_for_standalone_char(data, is_caps, KEY_O);
            return;
        }
        if data == KEY_RIGHT_BRACKET {
            // standalone key ]
            self.check_for_standalone_char(data, is_caps, KEY_U);
            return;
        }
        if self.is_key_d(data) {
            self.handle_d_key(data, is_caps);
            return;
        }
        if is_mark_key(self.cfg.input_type, data) {
            self.handle_mark_key(data, is_caps);
            return;
        }

        self.handle_vowel_key(data, is_caps);
    }

    /// A vowel key, or W, that no other processing key took: the vowel tables
    /// decide whether it adds a circumflex, a horn or a breve; otherwise it is a letter.
    #[verifier::spinoff_prover]
    #[verifier::rlimit(100)]
    fn handle_vowel_key(&mut self, data: u16, is_caps: bool)
        requires old(self).wf(),
        ensures
            final(self).wf(),
            final(self).cfg == old(self).cfg,
            // a double vowel key on a one-letter word of its letter ("aa", "ee", "oo")
            old(self).cfg.input_type != InputType::Vni && (data == KEY_A || data == KEY_E || data == KEY_O)
                && old(self).index == 1 && old(self).spec_chr(0) == data
                ==> old(self).spec_aoe_one_letter(&*final(self), data)
                    && final(self).state.ext_code == old(self).state.ext_code
                    && final(self).is_caps == old(self).is_caps,
            // the W key on the one-letter word "a", "o" or "u"
            old(self).cfg.input_type != InputType::Vni && data == KEY_W
                && old(self).index == 1 && spec_is_aou(old(self).typing_word@[0]) ==> {
                &&& old(self).spec_w_one_letter(&*final(self))
                &&& final(self).state.ext_code == old(self).state.ext_code
                &&& final(self).is_caps == old(self).is_caps
            },
    {
        // check vowel
        let is_vni = self.cfg.input_type == InputType::Vni;
        if is_vni {
            let mut i: usize = self.index;
            while i > 0
                invariant
                    i <= self.index,
                    self.wf(),
                    self.cfg == old(self).cfg,
                decreases i,
            {
                i = i - 1;
                let c = self.chr(i);
                if c == KEY_O || c == KEY_A || c == KEY_E {
                    self.vowel_end_index = i;
                    break;
                }
            }
        }
        let key_for_aeo: u16 = if !is_vni {
            data
        } else if data == KEY_7 || data == KEY_8 {
            KEY_W
        } else if data == KEY_6 {
            self.chr(self.vowel_end_index)
        } else {
            data
        };

        let table = vowel_table(key_for_aeo);
        let ghost one = old(self).cfg.input_type != InputType::Vni && (data == KEY_A || data == KEY_E || data == KEY_O)
            && old(self).index == 1 && old(self).spec_chr(0) == data;
        let ghost tbl = spec_vowel_table(data);
        let ghost onew = old(self).cfg.input_type != InputType::Vni && data == KEY_W
            && old(self).index == 1 && spec_is_aou(old(self).typing_word@[0]);
        let ghost c0 = old(self).spec_chr(0);
        let ghost k: int = if onew { if c0 == KEY_U { 21 } else if c0 == KEY_A { 26 } else { 30 } }
            else if data == KEY_E { 14 } else { 8 };
        proof {
            if one {
                assert(key_for_aeo == data);
                assert(k < tbl.len());
                assert(tbl[k] == seq![data]);
                let m: u16 = if old(self).cfg.quick_end_consonant { END_CONSONANT_MASK } else { 0 };
                assert((data < 0x4000u16 && (m == 0u16 || m == 0x4000u16)) ==> (data & !m) == data) by (bit_vector);
                assert(old(self).spec_correct_vowel(tbl[k], data));
                assert(old(self).spec_vowel_fits_at(data, k));
            }
            if onew {
                assert(key_for_aeo == data);
                assert(c0 == spec_letter(old(self).typing_word@[0]));
                assert(k < tbl.len());
                assert(tbl[k] == seq![c0]);
                let m: u16 = if old(self).cfg.quick_end_consonant { END_CONSONANT_MASK } else { 0 };
                assert((c0 < 0x4000u16 && (m == 0u16 || m == 0x4000u16)) ==> (c0 & !m) == c0) by (bit_vector);
                assert(old(self).spec_correct_vowel(tbl[k], data));
                assert(old(self).spec_vowel_fits_at(data, k));
            }
        }
        self.is_correct = false;
        self.is_changed = false;
        let mut t: usize = 0;
        while t < table.len()
            invariant_except_break
                !self.is_changed,
            invariant
                (one || onew) && !self.is_changed ==> self.is_caps == old(self).is_caps,
                (one || onew) && !self.is_changed ==> self.typing_word == old(self).typing_word && self.index == old(self).index
                    && self.state == old(self).state && self.temp_disable_key == old(self).temp_disable_key,
                (one || onew) && !self.is_changed ==> forall|u: int| 0 <= u < t ==> !#[trigger] old(self).spec_vowel_fits_at(data, u),
                onew && self.is_changed ==> old(self).spec_w_one_letter(&*self)
                    && self.state.ext_code == old(self).state.ext_code && self.is_caps == old(self).is_caps,
                onew == (old(self).cfg.input_type != InputType::Vni && data == KEY_W
                    && old(self).index == 1 && spec_is_aou(old(self).typing_word@[0])),
                onew ==> rows_match(table@, tbl) && key_for_aeo == data && !is_vni,
                onew ==> old(self).spec_vowel_fits_at(data, k) && 0 <= k < tbl.len(),
                one && self.is_changed ==> old(self).spec_aoe_one_letter(&*self, data)
                    && self.state.ext_code == old(self).state.ext_code && self.is_caps == old(self).is_caps,
                t <= table.len(),
                self.wf(),
                self.cfg == old(self).cfg,
                one ==> rows_match(table@, tbl) && key_for_aeo == data,
                one ==> old(self).spec_vowel_fits_at(data, k) && 0 <= k < tbl.len(),
                tbl == spec_vowel_table(data),
                one == (old(self).cfg.input_type != InputType::Vni && (data == KEY_A || data == KEY_E || data == KEY_O)
                    && old(self).index == 1 && old(self).spec_chr(0) == data),
            ensures
                onew ==> self.is_changed && old(self).spec_w_one_letter(&*self)
                    && self.state.ext_code == old(self).state.ext_code && self.is_caps == old(self).is_caps,
                one ==> self.is_changed && old(self).spec_aoe_one_letter(&*self, data)
                    && self.state.ext_code == old(self).state.ext_code && self.is_caps == old(self).is_caps,
            decreases table.len() - t,
        {
            let entry = &table[t];
            proof {
                if one {
                    assert(entry@ == tbl[t as int]);
                }
            }
            if self.index < entry.len() {
                t = t + 1;
                continue;
            }
            self.is_correct = self.check_correct_vowel(entry, data);
            if self.is_correct {
                let ghost changed_before = self.is_changed;
                self.is_changed = true;
                if self.is_key_double(data) {
                    let ghost pre = *self;
                    self.insert_aoe(key_for_aeo, is_caps);
                    proof {
                        if one {
                            assert(pre.typing_word == old(self).typing_word && pre.index == old(self).index
                                && pre.state == old(self).state && pre.cfg == old(self).cfg);
                            assert(pre.index == 1);
                            assert(pre.spec_chr(0) == data);
                            assert(key_for_aeo == data);
                            assert(pre.spec_aoe_one_letter(&*self, data));
                            assert(old(self).spec_aoe_one_letter(&*self, data));
                        }
                    }
                } else if self.is_key_w(data) {
                    if is_vni {
                        let mut j: usize = self.index;
                        while j > 0
                            invariant
                                j <= self.index,
                                self.wf(),
                                self.cfg == old(self).cfg,
                            decreases j,
                        {
                            j = j - 1;
                            let c = self.chr(j);
                            if c == KEY_O || c == KEY_U || c == KEY_A || c == KEY_E {
                                self.vowel_end_index = j;
                                break;
                            }
                        }
                        let vei = self.vowel_end_index;
                        let cond7 = data == KEY_7 && self.chr(vei) == KEY_A
                            && (if vei >= 1 { self.chr(vei - 1) != KEY_U } else { true });
                        let cond8 = data == KEY_8 && (self.chr(vei) == KEY_O || self.chr(vei) == KEY_U);
                        if cond7 || cond8 {
                            break;
                        }
                    }
                    let ghost pre = *self;
                    self.insert_w(key_for_aeo, is_caps);
                    proof {
                        if onew {
                            assert(pre.typing_word == old(self).typing_word && pre.index == old(self).index
                                && pre.cfg == old(self).cfg && pre.temp_disable_key == old(self).temp_disable_key);
                            assert(pre.spec_w_one_letter(&*self));
                        }
                    }
                }
                break;
            }
            t = t + 1;
        }

        if !self.is_changed {
            if data == KEY_W && self.cfg.input_type != InputType::SimpleTelex1 {
                self.check_for_standalone_char(data, is_caps, KEY_U);
            } else {
                self.insert_key(data, is_caps, true);
            }
        }
    }
}

impl Engine {
    /// Saves the word just typed (or the macro just expanded) in the history.
    fn save_word(&mut self)
        requires old(self).wf(),
        ensures
            final(self).wf(),
            final(self).cfg == old(self).cfg,
            final(self).index == old(self).index,
            final(self).state == old(self).state,
            final(self).typing_word == old(self).typing_word,
            final(self).space_count == old(self).space_count,
            final(self).special_char == old(self).special_char,
            final(self).is_caps == old(self).is_caps,
            old(self).state.code != HookCode::ReplaceMacro && old(self).index == 0
                ==> final(self).typing_states@ == old(self).typing_states@,
            // a word shorter than the buffer is saved as it stands
            old(self).state.code != HookCode::ReplaceMacro && old(self).index > 0
                && old(self).long_word_helper@.len() == 0 ==> {
                &&& final(self).typing_states@.len() == old(self).typing_states@.len() + 1
                &&& final(self).typing_states@.drop_last() == old(self).typing_states@
                &&& final(self).typing_states@.last()@ == old(self).typing_word@.subrange(0, old(self).index as int)
            },
    {
        if self.state.code != HookCode::ReplaceMacro {
            if self.index > 0 {
                if self.long_word_helper.len() > 0 {
                    self.typing_states_data.clear();
                    let mut i: usize = 0;
                    while i < self.long_word_helper.len()
                        invariant
                            i <= self.long_word_helper.len(),
                            self.wf(),
                            self.cfg == old(self).cfg,
                            self.index == old(self).index,
                            self.state == old(self).state,
                            self.space_count == old(self).space_count,
                            self.special_char == old(self).special_char,
                            self.is_caps == old(self).is_caps,
                            self.typing_word == old(self).typing_word,
                        decreases self.long_word_helper.len() - i,
                    {
                        if i != 0 && i % MAX_BUFF == 0 {
                            let data = copy_entries(&self.typing_states_data);
                            self.typing_states.push(data);
                            self.typing_states_data.clear();
                        }
                        let w = self.long_word_helper[i];
                        self.typing_states_data.push(w);
                        i = i + 1;
                    }
                    let data = copy_entries(&self.typing_states_data);
                    self.typing_states.push(data);
                    self.long_word_helper.clear();
                }
                self.typing_states_data.clear();
                let mut i: usize = 0;
                while i < self.index
                    invariant
                        i <= self.index,
                        self.wf(),
                        self.cfg == old(self).cfg,
                        self.index == old(self).index,
                        self.state == old(self).state,
                        self.space_count == old(self).space_count,
                        self.special_char == old(self).special_char,
                        self.is_caps == old(self).is_caps,
                        self.typing_word == old(self).typing_word,
                        old(self).long_word_helper@.len() == 0 ==> self.typing_states@ == old(self).typing_states@,
                        self.typing_states_data@ == self.typing_word@.subrange(0, i as int),
                    decreases self.index - i,
                {
                    let w = self.typing_word[i];
                    self.typing_states_data.push(w);
                    i = i + 1;
                }
                let data = copy_entries(&self.typing_states_data);
                self.typing_states.push(data);
            }
        } else {
            // save macro words
            self.typing_states_data.clear();
            let mut i: usize = 0;
            while i < self.state.macro_data.len()
                invariant
                    i <= self.state.macro_data.len(),
                    self.wf(),
                    self.cfg == old(self).cfg,
                    self.index == old(self).index,
                    self.state == old(self).state,
                    self.space_count == old(self).space_count,
                    self.special_char == old(self).special_char,
                    self.is_caps == old(self).is_caps,
                    self.typing_word == old(self).typing_word,
                decreases self.state.macro_data.len() - i,
            {
                if i != 0 && i % MAX_BUFF == 0 {
                    let data = copy_entries(&self.typing_states_data);
                    self.typing_states.push(data);
                    self.typing_states_data.clear();
                }
                let m = self.state.macro_data[i];
                self.typing_states_data.push(m);
                i = i + 1;
            }
            let data = copy_entries(&self.typing_states_data);
            self.typing_states.push(data);
        }
    }

    /// Saves `count` spaces in the history.
    fn save_word_space(&mut self, count: usize)
        requires old(self).wf(),
        ensures
            final(self).wf(),
            final(self).cfg == old(self).cfg,
            final(self).index == old(self).index,
            final(self).state == old(self).state,
            final(self).space_count == old(self).space_count,
            final(self).special_char == old(self).special_char,
            final(self).typing_states@.drop_last() == old(self).typing_states@,
            final(self).typing_states@.len() == old(self).typing_states@.len() + 1,
            final(self).typing_states@.last()@ == Seq::new(count as nat, |i: int| KEY_SPACE as u32),
    {
        self.typing_states_data.clear();
        let mut i: usize = 0;
        while i < count
            invariant
                i <= count,
                self.wf(),
                self.cfg == old(self).cfg,
                self.index == old(self).index,
                self.state == old(self).state,
                self.space_count == old(self).space_count,
                self.special_char == old(self).special_char,
                self.typing_states == old(self).typing_states,
                self.typing_states_data@ == Seq::new(i as nat, |t: int| KEY_SPACE as u32),
            decreases count - i,
        {
            self.typing_states_data.push(KEY_SPACE as u32);
            assert(self.typing_states_data@ =~= Seq::new((i + 1) as nat, |t: int| KEY_SPACE as u32));
            i = i + 1;
        }
        let data = copy_entries(&self.typing_states_data);
        self.typing_states.push(data);
    }

    /// Saves the punctuation typed since the last word in the history.
    fn save_special_char(&mut self)
        requires old(self).wf(),
        ensures
            final(self).wf(),
            final(self).cfg == old(self).cfg,
            final(self).index == old(self).index,
            final(self).state == old(self).state,
            final(self).space_count == old(self).space_count,
            final(self).special_char@.len() == 0,
    {
        self.typing_states_data.clear();
        let mut i: usize = 0;
        while i < self.special_char.len()
            invariant
                i <= self.special_char.len(),
                self.wf(),
                self.cfg == old(self).cfg,
                self.index == old(self).index,
                self.state == old(self).state,
                self.space_count == old(self).space_count,
            decreases self.special_char.len() - i,
        {
            let c = self.special_char[i];
            self.typing_states_data.push(c);
            i = i + 1;
        }
        let data = copy_entries(&self.typing_states_data);
        self.typing_states.push(data);
        self.special_char.clear();
    }

    /// Brings back the last saved word, spaces or punctuation (after deleting past a word).
    fn restore_last_typing_state(&mut self)
        requires old(self).wf(),
        ensures
            final(self).wf(),
            final(self).cfg == old(self).cfg,
            final(self).state == old(self).state,
            old(self).typing_states@.len() == 0 ==> {
                &&& final(self).index == old(self).index
                &&& final(self).typing_word == old(self).typing_word
                &&& final(self).space_count == old(self).space_count
                &&& final(self).special_char == old(self).special_char
                &&& final(self).typing_states@ == old(self).typing_states@
            },
            old(self).typing_states@.len() > 0 ==> {
                let last = old(self).typing_states@.last()@;
                &&& final(self).typing_states@ == old(self).typing_states@.drop_last()
                // saved spaces come back as spaces
                &&& last.len() > 0 && last[0] == KEY_SPACE as u32 ==> final(self).space_count == last.len()
                    && final(self).index == 0
                // saved punctuation comes back as punctuation
                &&& last.len() > 0 && last[0] != KEY_SPACE as u32 && spec_is_char_key_code(last[0] as u16)
                    ==> final(self).special_char@ == last && final(self).index == 0
                // a saved word comes back as the word
                &&& last.len() > 0 && last[0] != KEY_SPACE as u32 && !spec_is_char_key_code(last[0] as u16)
                    ==> final(self).index == (if last.len() < 32 { last.len() as int } else { 32int })
                    && forall|t: int| 0 <= t < final(self).index ==> #[trigger] final(self).typing_word@[t] == last[t]
            },
    {
        match self.typing_states.pop() {
            Some(last) => {
                if last.len() > 0 {
                    let first = last[0];
                    if first == KEY_SPACE as u32 {
                        self.space_count = last.len();
                        self.index = 0;
                    } else if is_char_key_code(#[verifier::truncate] (first as u16)) {
                        self.index = 0;
                        self.special_char = last;
                        self.check_spelling(false);
                    } else {
                        let mut i: usize = 0;
                        while i < last.len()
                            invariant
                                i <= last.len(),
                                self.wf(),
                                self.cfg == old(self).cfg,
                                self.state == old(self).state,
                                self.typing_states@ == old(self).typing_states@.drop_last(),
                                forall|t: int| 0 <= t < i && t < 32 ==> #[trigger] self.typing_word@[t] == last@[t],
                            decreases last.len() - i,
                        {
                            if i < 32 {
                                self.typing_word[i] = last[i];
                            }
                            i = i + 1;
                        }
                        self.index = if last.len() < MAX_BUFF { last.len() } else { MAX_BUFF };
                    }
                }
            },
            None => {},
        }
    }

    /// The first letter becomes the two letters `q0`, `q1` of its quick start
    /// consonant; the edit retypes the whole word.
    #[verifier::spinoff_prover]
    #[verifier::rlimit(100)]
    fn expand_quick_start(&mut self, q0: u16, q1: u16)
        requires
            old(self).wf(),
            old(self).index >= 2,
        ensures
            final(self).wf(),
            *final(self) == (Engine { typing_word: final(self).typing_word, index: final(self).index,
                state: final(self).state, ..*old(self) }),
            final(self).state == (HookState { code: HookCode::Restore, backspace_count: old(self).index as u8,
                new_char_count: (old(self).index + 1) as u8, ..old(self).state }),
            final(self).index == spec_grown(old(self).index as int),
            final(self).typing_word@ == spec_start_word(old(self).typing_word@, old(self).index as int, q0, q1),
    {
        let ghost w0 = self.typing_word;
        self.state.code = HookCode::Restore;
        self.state.backspace_count = self.index as u8;
        self.state.new_char_count = (self.index + 1) as u8;
        if self.index < MAX_BUFF - 1 {
            self.index = self.index + 1;
        }
        // right shift
        let mut i: usize = self.index;
        let ghost snap = *self;
        assert(self.index >= 3);
        assert(self.index == spec_grown(old(self).index as int));
        while i > 2
            invariant
                2 <= i <= self.index,
                self.state.new_char_count <= 33,
                self.wf(),
                self.cfg == old(self).cfg,
                self.index == snap.index,
                self.state == snap.state,
                self.typing_word[0] == snap.typing_word[0],
                *self == (Engine { typing_word: self.typing_word, index: self.index,
                    state: self.state, ..*old(self) }),
                snap.typing_word == w0,
                forall|j: int| 0 <= j < 32 ==> #[trigger] self.typing_word@[j]
                    == (if i <= j < self.index { w0@[j - 1] } else { w0@[j] }),
            decreases i,
        {
            i = i - 1;
            self.typing_word[i] = self.typing_word[i - 1];
        }
        let caps2 = (self.typing_word[0] & CAPS_MASK) != 0 && (self.typing_word[2] & CAPS_MASK) != 0;
        self.typing_word[1] = q1 as u32 | if caps2 { CAPS_MASK } else { 0 };
        let cap0: u32 = if (self.typing_word[0] & CAPS_MASK) != 0 { CAPS_MASK } else { 0 };
        self.typing_word[0] = q0 as u32 | cap0;
        proof {
            assert(self.typing_word@ =~= spec_start_word(old(self).typing_word@, old(self).index as int, q0, q1));
        }
    }

    /// The last letter becomes the two letters `e0`, `e1` of its quick end
    /// consonant; after a quick start (`l`) the edit takes one more character.
    #[verifier::spinoff_prover]
    #[verifier::rlimit(100)]
    fn expand_quick_end(&mut self, e0: u16, e1: u16, l: bool)
        requires
            old(self).wf(),
            old(self).index >= 2,
            l ==> old(self).state.new_char_count <= 33,
        ensures
            final(self).wf(),
            *final(self) == (Engine { typing_word: final(self).typing_word, index: final(self).index,
                state: final(self).state, ..*old(self) }),
            final(self).state == (HookState { code: HookCode::Restore,
                backspace_count: if l { old(self).state.backspace_count } else { 1u8 },
                new_char_count: if l { (old(self).state.new_char_count + 1) as u8 } else { 2u8 },
                ..old(self).state }),
            final(self).index == spec_grown(old(self).index as int),
            final(self).typing_word@ == spec_end_word(old(self).typing_word@, old(self).index as int, e0, e1),
    {
        self.state.code = HookCode::Restore;
        if l {
            self.state.new_char_count = self.state.new_char_count + 1;
        } else {
            self.state.backspace_count = 1;
            self.state.new_char_count = 2;
        }
        if self.index < MAX_BUFF - 1 {
            self.index = self.index + 1;
        }
        let caps = (self.typing_word[self.index - 2] & CAPS_MASK) != 0;
        let last = self.index - 1;
        let capb: u32 = if caps { CAPS_MASK } else { 0 };
        self.typing_word[last] = e1 as u32 | capb;
        self.typing_word[last - 1] = e0 as u32 | capb;
        proof {
            assert(self.typing_word@ =~= spec_end_word(old(self).typing_word@, old(self).index as int, e0, e1));
        }
    }

    /// The output characters, last letter first, are those of the whole word.
    fn fill_char_data_from_word(&mut self)
        requires old(self).wf(),
        ensures
            final(self).wf(),
            *final(self) == (Engine { state: final(self).state, ..*old(self) }),
            final(self).state == (HookState { char_data: final(self).state.char_data, ..old(self).state }),
            forall|k: int| 0 <= k < old(self).index ==> #[trigger] final(self).state.char_data@[k]
                == spec_character_code(old(self).cfg.code_table as int, old(self).typing_word@[old(self).index - 1 - k]),
    {
        let index = self.index;
        let mut i: usize = index;
        let ghost snap = *self;
        while i > 0
            invariant
                i <= index,
                index == self.index,
                self.wf(),
                self.cfg == old(self).cfg,
                self.typing_word == snap.typing_word,
                *self == (Engine { state: self.state, ..*old(self) }),
                self.state == (HookState { char_data: self.state.char_data, ..old(self).state }),
                self.index == snap.index,
                forall|k: int| 0 <= k < index - i ==> #[trigger] self.state.char_data@[k]
                    == spec_character_code(self.cfg.code_table as int, self.typing_word@[index - 1 - k]),
            decreases i,
        {
            i = i - 1;
            let c = self.char_code(self.typing_word[i]);
            let idx = index - 1 - i;
            if idx < 32 {
                self.state.char_data[idx] = c;
            }
        }
    }

    /// Quick consonants: "f" / "j" / "w" at the start become "ph" / "gi" / "qu",
    /// "g" / "h" / "k" at the end become "ng" / "nh" / "ch".
    #[verifier::spinoff_prover]
    #[verifier::rlimit(100)]
    fn check_quick_consonant(&mut self) -> (r: bool)
        requires old(self).wf(),
        ensures
            final(self).wf(),
            final(self).cfg == old(self).cfg,
            old(self).spec_quick_consonant_step(&*final(self), r),
            final(self).special_char == old(self).special_char,
            final(self).space_count == old(self).space_count,
    {
        proof { reveal(Engine::spec_quick_consonant_step); }
        if self.index <= 1 {
            return false;
        }
        let ghost w0 = self.typing_word;
        let mut l = false;
        if self.cfg.quick_start_consonant {
            match quick_start_consonant(self.chr(0)) {
                Some(qsc) => {
                    assert(qsc@ =~= spec_quick_start_consonant(self.spec_chr(0)).unwrap());
                    if qsc.len() >= 2 {
                        self.expand_quick_start(qsc[0], qsc[1]);
                        proof {
                            assert(self.typing_word@ =~= old(self).spec_start_expanded());
                        }
                        l = true;
                    }
                },
                None => {},
            }
        }
        assert(l ==> self.state.new_char_count <= 33);
        assert(l == old(self).spec_quick_start_fires());
        assert(l ==> self.index >= 3
            && self.state.backspace_count == old(self).index as u8
            && self.state.code == HookCode::Restore);
        assert(!l ==> *self == *old(self));
        let ghost b = self.typing_word@;
        let ghost m = self.index as int;
        assert(b == (if l { old(self).spec_start_expanded() } else { old(self).typing_word@ }));
        assert(m == (if l { spec_grown(old(self).index as int) } else { old(self).index as int }));
        let ghost l0 = l;
        if self.cfg.quick_end_consonant && self.index >= 2 && !is_consonant(self.chr(self.index - 2)) {
            match quick_end_consonant(self.chr(self.index - 1)) {
                Some(qec) => {
                    assert(qec@ =~= spec_quick_end_consonant(self.spec_chr(self.index - 1)).unwrap());
                    if qec.len() >= 2 {
                        self.expand_quick_end(qec[0], qec[1], l);
                        l = true;
                    }
                },
                None => {},
            }
        }
        assert(l == (l0 || Self::spec_end_fires_on(self.cfg.quick_end_consonant, b, m)));
        if l {
            self.has_handle_quick_consonant = true;
            self.fill_char_data_from_word();
            return true;
        }
        false
    }

    /// The word after its first letter is expanded by the quick start consonant:
    /// the two letters of the expansion (the first with the case of the first
    /// letter, the second capital when the first and second letters both were),
    /// then the rest of the word shifted right by one (in a full buffer the last
    /// letter falls off).
    pub closed spec fn spec_start_expanded(&self) -> Seq<u32> {
        let q = spec_quick_start_consonant(self.spec_chr(0))->0;
        spec_start_word(self.typing_word@, self.index as int, q[0], q[1])
    }

    /// What a quick-consonant check does: nothing when it returns false; a word of
    /// two letters or more whose first letter has a quick start consonant gets it
    /// expanded; otherwise a last letter with a quick end consonant after a vowel
    /// gets it expanded at the end.
    #[verifier::opaque]
    pub closed spec fn spec_quick_consonant_step(&self, after: &Engine, r: bool) -> bool {
        let n = self.index as int;
        let start = self.spec_quick_start_fires();
        let b = if start { self.spec_start_expanded() } else { self.typing_word@ };
        let m = if start { spec_grown(n) } else { n };
        let end = Self::spec_end_fires_on(self.cfg.quick_end_consonant, b, m);
        // the whole word, its length and the edit
        &&& r == (start || end)
        &&& (r ==> {
            &&& after.typing_word@ == (if end { Self::spec_end_expanded(b, m) } else { b })
            &&& after.index == (if end { spec_grown(m) } else { m })
            &&& after.state.backspace_count == (if start { n as u8 } else { 1u8 })
            &&& after.state.new_char_count == (if start { (if end { (n + 2) as u8 } else { (n + 1) as u8 }) } else { 2u8 })
            &&& forall|k: int| 0 <= k < after.index ==> #[trigger] after.state.char_data@[k]
                == spec_character_code(self.cfg.code_table as int, after.typing_word@[after.index - 1 - k])
        })
        &&& (self.index <= 1 ==> !r)
        &&& (!r ==> *after == *self)
        &&& (r ==> {
            &&& after.state.code == HookCode::Restore
            &&& after.has_handle_quick_consonant
            &&& self.index <= after.index
        })
        // a quick start consonant goes first; a quick end consonant is tried after it
        &&& (start ==> r)
        &&& (!start && self.index > 1 ==> r == self.spec_quick_end_fires())
    }

    /// A main key that is the D key of the input method (and not its Z key or a bracket).
    pub closed spec fn spec_main_key_is_d(&self, data: u16) -> bool {
        &&& spec_processing_char(self.cfg.input_type, 10) != data
        &&& data != KEY_LEFT_BRACKET
        &&& data != KEY_RIGHT_BRACKET
        &&& spec_processing_char(self.cfg.input_type, 9) == data
    }

    /// A main key that is a mark key of the input method (and not its Z or D key or a bracket).
    pub closed spec fn spec_main_key_is_mark(&self, data: u16) -> bool {
        &&& spec_processing_char(self.cfg.input_type, 10) != data
        &&& data != KEY_LEFT_BRACKET
        &&& data != KEY_RIGHT_BRACKET
        &&& spec_processing_char(self.cfg.input_type, 9) != data
        &&& spec_is_mark_key(self.cfg.input_type, data)
    }

    /// `after` is this engine with `data` added to the word as a letter and the output untouched.
    pub closed spec fn spec_key_added(&self, after: &Engine, data: u16, is_caps: bool) -> bool {
        &&& after.state == self.state
        &&& after.index == (if self.index < MAX_BUFF { self.index + 1 } else { MAX_BUFF as int })
        &&& after.typing_word[after.index - 1] == spec_with_caps(data, is_caps)
    }

    /// The word `b` of length `m` and the quick end consonant option: its last
    /// letter has a quick end consonant and follows a vowel.
    pub open spec fn spec_end_fires_on(quick_end: bool, b: Seq<u32>, m: int) -> bool {
        &&& quick_end
        &&& m >= 2
        &&& spec_is_vowel(spec_letter(b[m - 2]))
        &&& spec_quick_end_consonant(spec_letter(b[m - 1])) is Some
    }

    /// The word `b` of length `m` with its last letter expanded by the quick end
    /// consonant, both letters in the case of the letter before the new last one
    /// (in a full buffer the expansion replaces the last two letters).
    pub open spec fn spec_end_expanded(b: Seq<u32>, m: int) -> Seq<u32> {
        let e = spec_quick_end_consonant(spec_letter(b[m - 1]))->0;
        spec_end_word(b, m, e[0], e[1])
    }

    /// The first letter of a word of two letters or more has a quick start
    /// consonant and the option is on.
    pub closed spec fn spec_quick_start_fires(&self) -> bool {
        &&& self.index > 1
        &&& self.cfg.quick_start_consonant
        &&& spec_quick_start_consonant(self.spec_chr(0)) is Some
    }

    /// The last letter has a quick end consonant, follows a vowel, and the option is on.
    pub closed spec fn spec_quick_end_fires(&self) -> bool {
        &&& self.index >= 2
        &&& self.cfg.quick_end_consonant
        &&& spec_is_vowel(self.spec_chr(self.index - 2))
        &&& spec_quick_end_consonant(self.spec_chr(self.index - 1)) is Some
    }

    /// A word with tones or marks that fails the spelling check goes back to the keys as typed.
    #[verifier::spinoff_prover]
    #[verifier::rlimit(100)]
    fn check_restore_if_wrong_spelling(&mut self) -> (r: bool)
        requires old(self).wf(),
        ensures
            final(self).wf(),
            final(self).cfg == old(self).cfg,
            // the keys are typed back when a vowel of the word carries a mark or a tone
            r == (exists|t: int| 0 <= t < old(self).index && #[trigger] old(self).spec_marked_vowel(t)),
            !r ==> *final(self) == *old(self),
            r ==> {
                &&& final(self).state.code == HookCode::RestoreAndStartNewSession
                &&& final(self).state.backspace_count == old(self).index as u8
                &&& final(self).state.new_char_count == old(self).state_index as u8
                &&& final(self).index == old(self).state_index
                &&& forall|i: int| 0 <= i < old(self).state_index ==> {
                    &&& #[trigger] final(self).typing_word@[i] == old(self).key_states@[i]
                    &&& final(self).state.char_data@[old(self).state_index - 1 - i] == old(self).key_states@[i]
                }
            },
    {
        let mut ii: usize = 0;
        while ii < self.index
            invariant
                ii <= self.index,
                self.wf(),
                self.cfg == old(self).cfg,
                *self == *old(self),
                forall|t: int| 0 <= t < ii ==> !#[trigger] old(self).spec_marked_vowel(t),
            decreases self.index - ii,
        {
            let w = self.typing_word[ii];
            if !is_consonant(self.chr(ii))
                && ((w & MARK_MASK) != 0 || (w & TONE_MASK) != 0 || (w & TONEW_MASK) != 0) {
                self.state.code = HookCode::RestoreAndStartNewSession;
                self.state.backspace_count = self.index as u8;
                self.state.new_char_count = self.state_index as u8;
                let si = self.state_index;
                let mut i: usize = 0;
                proof {
                    assert(old(self).spec_marked_vowel(ii as int));
                }
                while i < si
                    invariant
                        i <= si,
                        si == self.state_index,
                        si == old(self).state_index,
                        self.wf(),
                        self.cfg == old(self).cfg,
                        self.key_states == old(self).key_states,
                        self.state.code == HookCode::RestoreAndStartNewSession,
                        self.state.backspace_count == old(self).index as u8,
                        self.state.new_char_count == old(self).state_index as u8,
                        forall|t: int| 0 <= t < i ==> {
                            &&& #[trigger] self.typing_word@[t] == old(self).key_states@[t]
                            &&& self.state.char_data@[si - 1 - t] == old(self).key_states@[t]
                        },
                    decreases si - i,
                {
                    let ghost cd = self.state.char_data;
                    let ghost tw = self.typing_word;
                    self.typing_word[i] = self.key_states[i];
                    self.state.char_data[si - 1 - i] = self.typing_word[i];
                    assert forall|t: int| 0 <= t < i + 1 implies {
                        &&& #[trigger] self.typing_word@[t] == old(self).key_states@[t]
                        &&& self.state.char_data@[si - 1 - t] == old(self).key_states@[t]
                    } by {
                        if t < i {
                            assert(self.typing_word@[t] == tw@[t]);
                            assert(self.state.char_data@[si - 1 - t] == cd@[si - 1 - t]);
                        }
                    }
                    i = i + 1;
                }
                self.index = self.state_index;
                return true;
            }
            ii = ii + 1;
        }
        false
    }

    /// Entry `t` is a vowel with a mark, a circumflex or a horn.
    pub closed spec fn spec_marked_vowel(&self, t: int) -> bool {
        let w = self.spec_word(t);
        spec_is_vowel(self.spec_chr(t)) && ((w & MARK_MASK) != 0 || (w & TONE_MASK) != 0 || (w & TONEW_MASK) != 0)
    }

    /// Quick telex: a doubled key types its pair ("cc" gives "ch").
    #[verifier::spinoff_prover]
    #[verifier::rlimit(100)]
    fn handle_quick_telex(&mut self, data: u16, is_caps: bool)
        requires old(self).wf(),
        ensures
            final(self).wf(),
            final(self).cfg == old(self).cfg,
            spec_quick_telex(data) is None ==> *final(self) == *old(self),
            spec_quick_telex(data) matches Some(qt) ==> {
                &&& final(self).state.code == HookCode::WillProcess
                &&& final(self).state.backspace_count == 1
                &&& final(self).state.new_char_count == 2
                &&& final(self).state.char_data@[1] == spec_with_caps(qt[0], is_caps)
                &&& final(self).state.char_data@[0] == spec_with_caps(qt[1], is_caps)
                &&& final(self).index == (if old(self).index < MAX_BUFF { old(self).index + 1 } else { MAX_BUFF as int })
                &&& final(self).typing_word[final(self).index - 1] == spec_with_caps(qt[1], is_caps)
                &&& old(self).index < MAX_BUFF ==> final(self).spec_word_seq()
                    == old(self).spec_word_seq().push(spec_with_caps(qt[1], is_caps))
            },
    {
        match quick_telex(data) {
            Some(qt) => {
                if qt.len() >= 2 {
                    self.state.code = HookCode::WillProcess;
                    self.state.backspace_count = 1;
                    self.state.new_char_count = 2;
                    self.state.char_data[1] = with_caps(qt[0], is_caps);
                    self.state.char_data[0] = with_caps(qt[1], is_caps);
                    self.insert_key(qt[1], is_caps, false);
                }
            },
            None => {},
        }
    }

    /// Capitalizes the first letter of a sentence.
    fn upper_case_first_character(&mut self)
        requires old(self).wf(),
        ensures
            final(self).wf(),
            final(self).cfg == old(self).cfg,
            final(self).index == old(self).index,
            old(self).typing_word[0] & CAPS_MASK != 0 ==> *final(self) == *old(self),
            old(self).typing_word[0] & CAPS_MASK == 0 ==> {
                &&& final(self).state.code == HookCode::WillProcess
                &&& final(self).state.backspace_count == 0
                &&& final(self).state.new_char_count == 1
                &&& final(self).typing_word@ == old(self).typing_word@.update(0, old(self).typing_word[0] | CAPS_MASK)
                &&& final(self).state.char_data@[0]
                    == spec_character_code(old(self).cfg.code_table as int, old(self).typing_word[0] | CAPS_MASK)
                &&& final(self).upper_case_status == 0
            },
    {
        if (self.typing_word[0] & CAPS_MASK) == 0 {
            self.state.code = HookCode::WillProcess;
            self.state.backspace_count = 0;
            self.state.new_char_count = 1;
            self.typing_word[0] = self.typing_word[0] | CAPS_MASK;
            self.state.char_data[0] = self.char_code(self.typing_word[0]);
            self.upper_case_status = 0;
            assert(self.typing_word@ =~= old(self).typing_word@.update(0, old(self).typing_word[0] | CAPS_MASK));
        }
    }
}

impl EngineConfig {
    /// The two configurations agree on everything but the spelling check switch,
    /// which the engine turns back to its value from the last reset at each word break.
    pub open spec fn same_except_spelling(self, other: EngineConfig) -> bool {
        &&& other.language == self.language
        &&& other.input_type == self.input_type
        &&& other.free_mark == self.free_mark
        &&& other.code_table == self.code_table
        &&& other.use_modern_orthography == self.use_modern_orthography
        &&& other.quick_telex == self.quick_telex
        &&& other.restore_if_wrong_spelling == self.restore_if_wrong_spelling
        &&& other.use_macro == self.use_macro
        &&& other.use_macro_in_english_mode == self.use_macro_in_english_mode
        &&& other.auto_caps_macro == self.auto_caps_macro
        &&& other.use_smart_switch_key == self.use_smart_switch_key
        &&& other.upper_case_first_char == self.upper_case_first_char
        &&& other.temp_off_spelling == self.temp_off_spelling
        &&& other.allow_consonant_zfwj == self.allow_consonant_zfwj
        &&& other.quick_start_consonant == self.quick_start_consonant
        &&& other.quick_end_consonant == self.quick_end_consonant
        &&& other.remember_code == self.remember_code
        &&& other.other_language == self.other_language
        &&& other.temp_off_open_key == self.temp_off_open_key
    }

    /// None of the features that act on a finished word is on: macros, quick
    /// consonants and restoring misspelled words.
    pub open spec fn plain_word_break(self) -> bool {
        !self.use_macro && !self.quick_start_consonant && !self.quick_end_consonant
            && !self.restore_if_wrong_spelling
    }
}

/// A key that none of the engine's features acts on when it starts a word:
/// no processing key of the input method, no bracket, and quick telex, macros
/// and capitalizing the first letter all off.
pub open spec fn spec_plain_letter(cfg: EngineConfig, data: u16) -> bool {
    &&& !spec_is_special_key(cfg.input_type, data)
    &&& data != KEY_LEFT_BRACKET
    &&& data != KEY_RIGHT_BRACKET
    &&& !cfg.quick_telex
    &&& !cfg.use_macro
    &&& !cfg.upper_case_first_char
}

/// The key event ends the word: a shifted digit, a control combination, a break
/// key or a mouse event, or a digit typed at the start of a word.
pub open spec fn spec_ends_word(word_len: nat, event: KeyEvent, data: u16, caps_status: u8, other_control_key: bool) -> bool {
    (spec_is_number_key(data) && caps_status == 1) || other_control_key
        || spec_is_word_break(event, data) || (word_len == 0 && spec_is_number_key(data))
}

impl Engine {
    /// What handling one key event does to the engine (`self` before, `after`
    /// after): the configuration keeps all but the spelling switch, and:
    #[verifier::opaque]
    pub open spec fn spec_key_handled(&self, after: &Engine, event: KeyEvent, state: KeyEventState, data: u16,
        caps_status: u8, other_control_key: bool) -> bool {
        &&& (self.spec_cfg().same_except_spelling(after.spec_cfg()))
        // a word break starts a new word and passes the key through
        &&& (spec_ends_word(self.spec_len(), event, data, caps_status, other_control_key)
            && self.spec_cfg().plain_word_break() ==> {
            &&& after.spec_state().code == HookCode::DoNothing
            &&& after.spec_len() == 0
            &&& after.spec_state().backspace_count == 0
            &&& after.spec_state().new_char_count == 0
            &&& after.spec_state().ext_code == (if state == KeyEventState::KeyDown
                && spec_is_char_key_code(data) { ExtCode::NormalKey } else { ExtCode::WordBreak })
        })
        // the delete key is reported as such
        &&& (!spec_ends_word(self.spec_len(), event, data, caps_status, other_control_key)
            && data == KEY_DELETE ==> after.spec_state().ext_code == ExtCode::Delete
            || after.spec_state().ext_code == ExtCode::NoEmptyChar)
        // Delete takes the last letter off a word
        &&& (!spec_ends_word(self.spec_len(), event, data, caps_status, other_control_key)
            && data == KEY_DELETE && self.spec_deletes_letter() ==> after.spec_len() == self.spec_len() - 1)
        // Delete right after the space that ended a word brings the word back
        &&& (!spec_ends_word(self.spec_len(), event, data, caps_status, other_control_key)
            && data == KEY_DELETE && self.spec_reopens_word() ==> {
            &&& after.spec_word_seq() == self.spec_reopened_word()
            &&& after.spec_state().code == HookCode::DoNothing
            &&& after.spec_state().ext_code == ExtCode::Delete
        })
        // Delete after a letter takes it off; the front end erases it on screen
        &&& (!spec_ends_word(self.spec_len(), event, data, caps_status, other_control_key)
            && data == KEY_DELETE && self.spec_deletes_letter()
            && spec_grammar_quiet(self.spec_word_seq().drop_last()) ==> {
            &&& after.spec_word_seq() == self.spec_word_seq().drop_last()
            &&& after.spec_state().code == HookCode::DoNothing
            &&& after.spec_state().backspace_count == 0
            &&& after.spec_state().new_char_count == 0
            &&& after.spec_state().ext_code == ExtCode::Delete
        })
        // a letter typed into a word is added to it, as typed
        &&& (!spec_ends_word(self.spec_len(), event, data, caps_status, other_control_key)
            && data != KEY_SPACE && data != KEY_DELETE && data != KEY_LEFT_BRACKET && data != KEY_RIGHT_BRACKET
            && self.spec_types_plainly()
            && (!spec_is_special_key(self.spec_cfg().input_type, data) || self.spec_keys_off())
            && !(self.spec_cfg().quick_telex && self.spec_qt_at(data))
            && self.spec_len() < MAX_BUFF
            && spec_grammar_quiet(self.spec_word_seq().push(spec_with_caps(data, caps_status == 1 || caps_status == 2))) ==> {
            &&& after.spec_state().code == HookCode::DoNothing
            &&& after.spec_state().backspace_count == 0
            &&& after.spec_state().new_char_count == 0
            &&& after.spec_state().ext_code == ExtCode::NormalKey
            &&& after.spec_word_seq() == self.spec_word_seq().push(spec_with_caps(data, caps_status == 1 || caps_status == 2))
        })
        // a mark key on a one-letter vowel word: "as" gives "á", "âs" gives "ấ"; the same mark again comes off
        &&& (!spec_ends_word(self.spec_len(), event, data, caps_status, other_control_key)
            && self.spec_types_plainly() && !self.spec_keys_off()
            && self.spec_cfg().input_type != InputType::Vni && (data == KEY_S || data == KEY_F || data == KEY_R || data == KEY_X || data == KEY_J)
            && self.spec_len() == 1 && spec_is_vowel(spec_letter(self.spec_word_seq()[0])) ==> {
            let w = self.spec_word_seq()[0];
            let m = self.spec_mark_of_key(data);
            &&& after.spec_state().backspace_count == 1
            &&& after.spec_state().new_char_count == 1
            &&& after.spec_state().ext_code == ExtCode::NormalKey
            &&& (w & m) == 0 ==> {
                &&& after.spec_state().code == HookCode::WillProcess
                &&& after.spec_state().char_data@[0] == spec_character_code(self.spec_cfg().code_table as int, (w & !MARK_MASK) | m)
                &&& after.spec_word_seq() == seq![(w & !MARK_MASK) | m]
            }
            &&& (w & m) != 0 ==> {
                &&& after.spec_state().code == HookCode::Restore
                &&& after.spec_word_seq() == seq![w & !MARK_MASK, spec_with_caps(data, caps_status == 1 || caps_status == 2)]
            }
        })
        // the D key on the word "d": "dd" gives "đ"; on "đ" it goes back to "dd"
        &&& (!spec_ends_word(self.spec_len(), event, data, caps_status, other_control_key)
            && self.spec_types_plainly() && !self.spec_keys_off()
            && self.spec_cfg().input_type != InputType::Vni && data == KEY_D
            && self.spec_len() == 1 && spec_letter(self.spec_word_seq()[0]) == KEY_D ==> {
            let w = self.spec_word_seq()[0];
            &&& after.spec_state().backspace_count == 1
            &&& after.spec_state().new_char_count == 1
            &&& after.spec_state().ext_code == ExtCode::NormalKey
            &&& (w & TONE_MASK) == 0 ==> {
                &&& after.spec_state().code == HookCode::WillProcess
                &&& after.spec_state().char_data@[0] == spec_character_code(self.spec_cfg().code_table as int, w | TONE_MASK)
                &&& after.spec_word_seq() == seq![w | TONE_MASK]
            }
            &&& (w & TONE_MASK) != 0 ==> {
                &&& after.spec_state().code == HookCode::Restore
                &&& after.spec_word_seq() == seq![w & !TONE_MASK, spec_with_caps(data, caps_status == 1 || caps_status == 2)]
            }
        })
        // the W key on the one-letter word "a", "o" or "u": "aw" gives "ă", "ow" gives "ơ", "uw" gives "ư"
        &&& (!spec_ends_word(self.spec_len(), event, data, caps_status, other_control_key)
            && self.spec_types_plainly() && !self.spec_keys_off()
            && self.spec_cfg().input_type != InputType::Vni && data == KEY_W
            && self.spec_len() == 1 && spec_is_aou(self.spec_word_seq()[0]) ==> {
            let b0 = self.spec_word_seq()[0] & !TONE_MASK;
            &&& after.spec_state().backspace_count == 1
            &&& after.spec_state().new_char_count == 1
            &&& after.spec_state().ext_code == ExtCode::NormalKey
            &&& !spec_w_restores(b0) ==> {
                &&& after.spec_state().code == HookCode::WillProcess
                &&& after.spec_word_seq() == seq![spec_w_on_letter(b0)]
            }
            &&& spec_w_restores(b0) ==> {
                &&& after.spec_state().code == HookCode::Restore
                &&& after.spec_word_seq() == seq![spec_w_on_letter(b0), spec_with_caps(data, caps_status == 1 || caps_status == 2)]
            }
        })
        // a double vowel key on a one-letter word of its letter: "aa" gives "â", "aâ" gives "aa"
        &&& (!spec_ends_word(self.spec_len(), event, data, caps_status, other_control_key)
            && self.spec_types_plainly() && !self.spec_keys_off()
            && self.spec_cfg().input_type != InputType::Vni && (data == KEY_A || data == KEY_E || data == KEY_O)
            && self.spec_len() == 1 && spec_letter(self.spec_word_seq()[0]) == data ==> {
            let w = self.spec_word_seq()[0] & !TONEW_MASK;
            let v = (w | TONE_MASK) & !TONEW_MASK;
            &&& after.spec_state().backspace_count == 1
            &&& after.spec_state().new_char_count == 1
            &&& after.spec_state().ext_code == ExtCode::NormalKey
            &&& (w & TONE_MASK) == 0 ==> {
                &&& after.spec_state().code == HookCode::WillProcess
                &&& after.spec_state().char_data@[0] == spec_character_code(self.spec_cfg().code_table as int, v)
                &&& after.spec_word_seq() == seq![v]
            }
            &&& (w & TONE_MASK) != 0 ==> {
                &&& after.spec_state().code == HookCode::Restore
                &&& after.spec_state().char_data@[0] == w & !TONE_MASK
                &&& after.spec_word_seq() == seq![w & !TONE_MASK, spec_with_caps(data, caps_status == 1 || caps_status == 2)]
            }
        })
        // quick telex: a key typed twice gives its pair ("cc" gives "ch")
        &&& (!spec_ends_word(self.spec_len(), event, data, caps_status, other_control_key)
            && data != KEY_SPACE && data != KEY_DELETE
            && !self.spec_will_pass_word() && self.spec_nothing_pending()
            && (!spec_is_special_key(self.spec_cfg().input_type, data) || self.spec_keys_off())
            && self.spec_cfg().quick_telex && self.spec_qt_at(data) && self.spec_len() < MAX_BUFF ==> {
            let qt = spec_quick_telex(data)->0;
            &&& after.spec_state().code == HookCode::WillProcess
            &&& after.spec_state().backspace_count == 1
            &&& after.spec_state().new_char_count == 2
            &&& after.spec_state().char_data@[1] == spec_with_caps(qt[0], caps_status == 1 || caps_status == 2)
            &&& after.spec_state().char_data@[0] == spec_with_caps(qt[1], caps_status == 1 || caps_status == 2)
            &&& after.spec_word_seq() == self.spec_word_seq().push(spec_with_caps(qt[1], caps_status == 1 || caps_status == 2))
        })
        // Delete with no word and no history (as after a reset) edits nothing
        &&& (!spec_ends_word(self.spec_len(), event, data, caps_status, other_control_key)
            && data == KEY_DELETE && self.spec_fresh() ==> {
            &&& after.spec_len() == 0
            &&& after.spec_state().code == HookCode::DoNothing
            &&& after.spec_state().backspace_count == 0
            &&& after.spec_state().new_char_count == 0
            &&& after.spec_state().ext_code == ExtCode::Delete
        })
        // Delete with nothing to delete leaves the word empty and edits nothing
        &&& (!spec_ends_word(self.spec_len(), event, data, caps_status, other_control_key)
            && data == KEY_DELETE && self.spec_nothing_to_delete() ==> {
            &&& after.spec_len() == 0
            &&& after.spec_state().code == HookCode::DoNothing
            &&& after.spec_state().backspace_count == 0
            &&& after.spec_state().new_char_count == 0
            &&& after.spec_state().ext_code == ExtCode::Delete
        })
        // Space with the quick start consonant option: "fa" becomes "pha"
        &&& (!spec_ends_word(self.spec_len(), event, data, caps_status, other_control_key)
            && data == KEY_SPACE && self.spec_space_quick_ready() && self.spec_nothing_pending()
            && self.spec_quick_start_fires() && !self.spec_cfg().quick_end_consonant ==> {
            &&& after.spec_state().code == HookCode::Restore
            &&& after.spec_state().backspace_count == self.spec_len() as u8
            &&& after.spec_state().new_char_count == (self.spec_len() + 1) as u8
            &&& after.spec_len() == spec_grown(self.spec_len() as int)
            &&& after.spec_word_seq() == self.spec_start_expanded().subrange(0, spec_grown(self.spec_len() as int))
        })
        // Space with the quick end consonant option: "tag" becomes "tang"
        &&& (!spec_ends_word(self.spec_len(), event, data, caps_status, other_control_key)
            && data == KEY_SPACE && self.spec_space_quick_ready() && self.spec_nothing_pending()
            && !self.spec_quick_start_fires() && self.spec_quick_end_fires() ==> {
            &&& after.spec_state().code == HookCode::Restore
            &&& after.spec_state().backspace_count == 1
            &&& after.spec_state().new_char_count == 2
            &&& after.spec_len() == spec_grown(self.spec_len() as int)
            &&& after.spec_word_seq() == self.spec_end_expanded_word().subrange(0, spec_grown(self.spec_len() as int))
        })
        // a space after a word saves it, so that a Delete next brings it back
        &&& (!spec_ends_word(self.spec_len(), event, data, caps_status, other_control_key)
            && data == KEY_SPACE && self.spec_cfg().plain_word_break() && self.spec_nothing_pending()
            && self.spec_saves_as_word() ==> {
            &&& after.spec_reopens_word()
            &&& after.spec_reopened_word() == self.spec_word_seq()
        })
        // a space ends the word without editing it
        &&& (!spec_ends_word(self.spec_len(), event, data, caps_status, other_control_key)
            && data == KEY_SPACE && self.spec_cfg().plain_word_break() ==> {
            &&& after.spec_state().code == HookCode::DoNothing
            &&& after.spec_len() == self.spec_len()
        })
        // a letter that no feature acts on starts a word as it is typed
        &&& (self.at_word_start()
            && !spec_ends_word(self.spec_len(), event, data, caps_status, other_control_key)
            && data != KEY_SPACE && data != KEY_DELETE
            && spec_plain_letter(self.spec_cfg(), data) ==> {
            &&& after.spec_state().code == HookCode::DoNothing
            &&& after.spec_state().backspace_count == 0
            &&& after.spec_state().new_char_count == 0
            &&& after.spec_state().ext_code == ExtCode::NormalKey
            &&& after.spec_len() == 1
            &&& after.spec_word(0) == spec_with_caps(data, caps_status == 1 || caps_status == 2)
        })
    }

    /// Handles one key event and returns how the front-end should edit the text.
    ///
    /// `caps_status`: 0 = none, 1 = shift, 2 = caps lock.
    #[verifier::spinoff_prover]
    #[verifier::rlimit(100)]
    pub fn handle_key(
        &mut self,
        event: KeyEvent,
        state: KeyEventState,
        data: u16,
        caps_status: u8,
        other_control_key: bool,
    ) -> (r: &HookState)
        requires old(self).wf(),
        ensures
            final(self).wf(),
            *r == final(self).spec_state(),
            old(self).spec_cfg().same_except_spelling(final(self).spec_cfg()),
            old(self).spec_key_handled(&*final(self), event, state, data, caps_status, other_control_key),
    {
        proof { reveal(Engine::spec_key_handled); }
        self.is_caps = caps_status == 1 || caps_status == 2;
        let is_number_with_shift = is_number_key(data) && caps_status == 1;
        if is_number_with_shift || other_control_key || is_word_break(event, data)
            || (self.index == 0 && is_number_key(data)) {
            self.handle_word_break(event, state, data);
        } else if data == KEY_SPACE {
            proof {
                Self::lemma_spelling_frame(*old(self), *self, true);
                Self::lemma_quick_facts_frame2(*old(self), *self);
            }
            self.handle_space();
        } else if data == KEY_DELETE {
            self.handle_delete();
        } else {
            self.handle_typing_key(data);
        }
        &self.state
    }

    /// A key that ends the word: macros, quick consonants and misspelled-word
    /// restoring act on the word, then a new word starts.
    #[verifier::spinoff_prover]
    #[verifier::rlimit(60)]
    fn handle_word_break(&mut self, event: KeyEvent, state: KeyEventState, data: u16)
        requires old(self).wf(),
        ensures
            final(self).wf(),
            old(self).cfg.same_except_spelling(final(self).cfg),
            old(self).cfg.plain_word_break() ==> {
                &&& final(self).state.code == HookCode::DoNothing
                &&& final(self).index == 0
                &&& final(self).state.backspace_count == 0
                &&& final(self).state.new_char_count == 0
                &&& final(self).state.ext_code == (if state == KeyEventState::KeyDown
                    && spec_is_char_key_code(data) { ExtCode::NormalKey } else { ExtCode::WordBreak })
            },
    {
        self.state.code = HookCode::DoNothing;
        self.state.backspace_count = 0;
        self.state.new_char_count = 0;
        self.state.ext_code = ExtCode::WordBreak;
        self.word_break_action(event, data);
        let is_char_key = self.word_break_history(state, data);
        let restarted = self.word_break_finish(data, is_char_key);
        if restarted {
            self.restore_spelling_check();
        }
    }

    /// Macros, quick consonants and misspelled-word restoring on a word break.
    fn word_break_action(&mut self, event: KeyEvent, data: u16)
        requires old(self).wf(),
        ensures
            final(self).wf(),
            final(self).cfg == old(self).cfg,
            old(self).cfg.plain_word_break() ==> *final(self) == *old(self),
            // a macro break with a typed macro asks to replace it
            old(self).cfg.use_macro && spec_is_macro_break_code(data) && !old(self).has_handled_macro
                && old(self).state.macro_key@.len() > 0 ==> {
                &&& final(self).state.code == HookCode::ReplaceMacro
                &&& final(self).state.backspace_count == old(self).state.macro_key@.len() as u8
                &&& final(self).has_handled_macro
            },
    {
        if self.cfg.use_macro && is_macro_break_code(data) && !self.has_handled_macro {
            if self.state.macro_key.len() > 0 {
                self.state.code = HookCode::ReplaceMacro;
                self.state.backspace_count = self.state.macro_key.len() as u8;
                self.has_handled_macro = true;
            }
        } else if (self.cfg.quick_start_consonant || self.cfg.quick_end_consonant)
            && !self.temp_disable_key && is_macro_break_code(data) {
            self.check_quick_consonant();
        } else if self.cfg.restore_if_wrong_spelling && is_word_break(event, data) {
            // restore key if wrong spelling with break-key
            if !self.temp_disable_key && self.cfg.check_spelling {
                self.check_spelling(true);
            }
            if self.temp_disable_key && !self.check_restore_if_wrong_spelling() {
                self.state.code = HookCode::DoNothing;
            }
        }
    }

    /// On a word break, a digit or punctuation key keeps the line history (the
    /// word is saved), any other key clears it; returns whether it was such a key.
    fn word_break_history(&mut self, state: KeyEventState, data: u16) -> (is_char_key: bool)
        requires old(self).wf(),
        ensures
            final(self).wf(),
            final(self).cfg == old(self).cfg,
            final(self).index == old(self).index,
            final(self).state.code == old(self).state.code,
            final(self).state.backspace_count == old(self).state.backspace_count,
            final(self).state.new_char_count == old(self).state.new_char_count,
            is_char_key == (state == KeyEventState::KeyDown && spec_is_char_key_code(data)),
            final(self).state.ext_code == (if is_char_key { ExtCode::NormalKey } else { old(self).state.ext_code }),
    {
        let is_char_key = state == KeyEventState::KeyDown && is_char_key_code(data);
        if !is_char_key {
            // clear all line cache
            self.special_char.clear();
            self.typing_states.clear();
        } else {
            // check and save current word
            if self.space_count > 0 {
                self.save_word_space(self.space_count);
                self.space_count = 0;
            } else {
                self.save_word();
            }
            self.special_char.push(with_caps(data, self.is_caps));
            self.state.ext_code = ExtCode::NormalKey;
        }
        is_char_key
    }

    /// Ends a word break: a new word starts unless a macro or quick consonant
    /// edit is pending (returns whether it did); the macro key record and the
    /// capitalization state follow the key.
    #[verifier::spinoff_prover]
    fn word_break_finish(&mut self, data: u16, is_char_key: bool) -> (restarted: bool)
        requires old(self).wf(),
        ensures
            final(self).wf(),
            final(self).cfg == old(self).cfg,
            restarted == (old(self).state.code == HookCode::DoNothing),
            old(self).state.code == HookCode::DoNothing ==> {
                &&& final(self).state.code == HookCode::DoNothing
                &&& final(self).index == 0
                &&& final(self).state.backspace_count == 0
                &&& final(self).state.new_char_count == 0
                &&& final(self).state.ext_code == old(self).state.ext_code
            },
    {
        let restarted = self.state.code == HookCode::DoNothing;
        if restarted {
            self.start_new_session();
            self.will_temp_off_engine = false;
        } else if self.state.code == HookCode::ReplaceMacro || self.has_handle_quick_consonant {
            self.index = 0;
        }
        // insert key for macro function
        if self.cfg.use_macro {
            if is_char_key {
                self.state.macro_key.push(with_caps(data, self.is_caps));
            } else {
                self.state.macro_key.clear();
            }
        }
        if self.cfg.upper_case_first_char {
            if data == KEY_DOT {
                self.upper_case_status = 1;
            } else if data == KEY_ENTER || data == KEY_RETURN {
                self.upper_case_status = 2;
            } else {
                self.upper_case_status = 0;
            }
        }
        restarted
    }

    /// The spelling check switch goes back to its value from the last reset.
    fn restore_spelling_check(&mut self)
        requires old(self).wf(),
        ensures
            final(self).wf(),
            old(self).cfg.same_except_spelling(final(self).cfg),
            final(self).state == old(self).state,
            final(self).index == old(self).index,
            final(self).cfg.check_spelling == old(self).use_spell_checking_before,
            *final(self) == (Engine { cfg: final(self).cfg, ..*old(self) }),
    {
        self.cfg.check_spelling = self.use_spell_checking_before;
    }

    /// The space key: the word ends (macros, quick consonants and
    /// misspelled-word restoring may act on it) and is saved in the history.
    #[verifier::spinoff_prover]
    #[verifier::rlimit(100)]
    fn handle_space(&mut self)
        requires old(self).wf(),
        ensures
            final(self).wf(),
            old(self).cfg.same_except_spelling(final(self).cfg),
            old(self).cfg.plain_word_break() ==> {
                &&& final(self).state.code == HookCode::DoNothing
                &&& final(self).index == old(self).index
            },
            // quick consonants on the word
            old(self).spec_space_quick_ready() && old(self).spec_nothing_pending() && old(self).spec_quick_start_fires()
                && !old(self).cfg.quick_end_consonant ==> {
                &&& final(self).state.code == HookCode::Restore
                &&& final(self).state.backspace_count == old(self).index as u8
                &&& final(self).state.new_char_count == (old(self).index + 1) as u8
                &&& final(self).index == spec_grown(old(self).index as int)
                &&& final(self).typing_word@ == old(self).spec_start_expanded()
            },
            old(self).spec_space_quick_ready() && old(self).spec_nothing_pending() && !old(self).spec_quick_start_fires()
                && old(self).spec_quick_end_fires() ==> {
                &&& final(self).state.code == HookCode::Restore
                &&& final(self).state.backspace_count == 1
                &&& final(self).state.new_char_count == 2
                &&& final(self).index == spec_grown(old(self).index as int)
                &&& final(self).typing_word@ == old(self).spec_end_expanded_word()
            },
            // the word is saved, and a Delete next brings it back
            old(self).cfg.plain_word_break() && old(self).spec_nothing_pending() && old(self).spec_saves_as_word() ==> {
                &&& final(self).spec_reopens_word()
                &&& final(self).spec_reopened_word() == old(self).spec_word_seq()
            },
    {
        self.space_action();
        self.space_finish();
        self.restore_spelling_check();
    }

    /// What a space does to the word: expand a macro, apply quick consonants,
    /// restore a misspelled word, or nothing.
    #[verifier::spinoff_prover]
    #[verifier::rlimit(100)]
    fn space_action(&mut self)
        requires old(self).wf(),
        ensures
            final(self).wf(),
            final(self).cfg == old(self).cfg,
            old(self).cfg.plain_word_break() ==> {
                &&& final(self).state.code == HookCode::DoNothing
                &&& final(self).index == old(self).index
            },
            // a quick start consonant is expanded (with the quick end consonant option off)
            old(self).spec_space_quick_ready() && old(self).spec_quick_start_fires()
                && !old(self).cfg.quick_end_consonant ==> {
                &&& final(self).state.code == HookCode::Restore
                &&& final(self).state.backspace_count == old(self).index as u8
                &&& final(self).state.new_char_count == (old(self).index + 1) as u8
                &&& final(self).index == spec_grown(old(self).index as int)
                &&& final(self).typing_word@ == old(self).spec_start_expanded()
                &&& final(self).special_char == old(self).special_char
                &&& old(self).space_count == 0 ==> final(self).space_count == 1
            },
            // otherwise a quick end consonant is expanded
            old(self).spec_space_quick_ready() && !old(self).spec_quick_start_fires()
                && old(self).spec_quick_end_fires() ==> {
                &&& final(self).state.code == HookCode::Restore
                &&& final(self).state.backspace_count == 1
                &&& final(self).state.new_char_count == 2
                &&& final(self).index == spec_grown(old(self).index as int)
                &&& final(self).typing_word@ == old(self).spec_end_expanded_word()
                &&& final(self).special_char == old(self).special_char
                &&& old(self).space_count == 0 ==> final(self).space_count == 1
            },
            // with no feature acting on it, the space is counted and the word stays
            old(self).cfg.plain_word_break() && old(self).space_count == 0 ==> {
                &&& final(self).space_count == 1
                &&& *final(self) == (Engine { temp_disable_key: final(self).temp_disable_key,
                    space_count: final(self).space_count, state: final(self).state, ..*old(self) })
            },
    {
        if !self.temp_disable_key && self.cfg.check_spelling {
            self.check_spelling(true);
        }
        let ghost mid = *self;
        proof {
            Self::lemma_quick_facts_frame(*old(self), mid);
        }
        if self.cfg.use_macro && !self.has_handled_macro && self.state.macro_key.len() > 0 {
            self.state.code = HookCode::ReplaceMacro;
            self.state.backspace_count = self.state.macro_key.len() as u8;
            self.space_count = self.space_count.saturating_add(1);
            self.has_handled_macro = true;
        } else if (self.cfg.quick_start_consonant || self.cfg.quick_end_consonant)
            && !self.temp_disable_key && self.check_quick_consonant() {
            proof {
                Self::lemma_quick_step_facts(mid, *self, true);
            }
            self.space_count = self.space_count.saturating_add(1);
        } else if self.cfg.restore_if_wrong_spelling && self.temp_disable_key && !self.has_handled_macro {
            proof {
                if (mid.cfg.quick_start_consonant || mid.cfg.quick_end_consonant) && !mid.temp_disable_key
                    && !(mid.cfg.use_macro && !mid.has_handled_macro && mid.state.macro_key@.len() > 0) {
                    Self::lemma_quick_step_facts(mid, *self, false);
                }
            }
            // restore key if wrong spelling
            if !self.check_restore_if_wrong_spelling() {
                self.state.code = HookCode::DoNothing;
            }
            self.space_count = self.space_count.saturating_add(1);
        } else {
            proof {
                if (mid.cfg.quick_start_consonant || mid.cfg.quick_end_consonant) && !mid.temp_disable_key
                    && !(mid.cfg.use_macro && !mid.has_handled_macro && mid.state.macro_key@.len() > 0) {
                    Self::lemma_quick_step_facts(mid, *self, false);
                }
            }
            // do nothing with the space key
            self.state.code = HookCode::DoNothing;
            self.space_count = self.space_count.saturating_add(1);
        }
    }

    /// After a space: the macro record is cleared, the capitalization state
    /// advances and the first space saves the word in the history.
    #[verifier::spinoff_prover]
    #[verifier::rlimit(100)]
    fn space_finish(&mut self)
        requires old(self).wf(),
        ensures
            final(self).wf(),
            final(self).cfg == old(self).cfg,
            final(self).state.code == old(self).state.code,
            final(self).index == old(self).index,
            !final(self).will_temp_off_engine,
            old(self).cfg.use_macro ==> final(self).state.macro_key@.len() == 0,
            !old(self).cfg.use_macro ==> final(self).state.macro_key@ == old(self).state.macro_key@,
            final(self).space_count == old(self).space_count,
            old(self).special_char@.len() == 0 ==> final(self).special_char == old(self).special_char,
            // the first space after a word saves the word in the history
            old(self).space_count == 1 && old(self).special_char@.len() == 0 && old(self).spec_saves_as_word()
                && old(self).state.code != HookCode::ReplaceMacro ==> {
                &&& final(self).typing_states@.drop_last() == old(self).typing_states@
                &&& final(self).typing_states@.len() == old(self).typing_states@.len() + 1
                &&& final(self).typing_states@.last()@ == old(self).spec_word_seq()
            },
            !old(self).cfg.use_macro && old(self).special_char@.len() == 0 ==> final(self).state == old(self).state
                && final(self).typing_word == old(self).typing_word,
    {
        if self.cfg.use_macro {
            self.state.macro_key.clear();
        }
        if self.cfg.upper_case_first_char && self.upper_case_status == 1 {
            self.upper_case_status = 2;
        }
        // save word
        if self.space_count == 1 {
            if self.special_char.len() > 0 {
                self.save_special_char();
            } else {
                self.save_word();
            }
        }
        self.will_temp_off_engine = false;
    }

    /// The delete key: punctuation, spaces or the last letter go, the previous
    /// word comes back when the current one is emptied.
    #[verifier::spinoff_prover]
    #[verifier::rlimit(100)]
    fn handle_delete(&mut self)
        requires old(self).wf(),
        ensures
            final(self).wf(),
            final(self).cfg == old(self).cfg,
            final(self).state.ext_code == ExtCode::Delete || final(self).state.ext_code == ExtCode::NoEmptyChar,
            old(self).spec_deletes_letter() ==> final(self).index == old(self).index - 1,
            old(self).spec_reopens_word() ==> final(self).spec_word_seq() == old(self).spec_reopened_word()
                && final(self).state.code == HookCode::DoNothing && final(self).state.ext_code == ExtCode::Delete,
            old(self).spec_deletes_letter() && spec_grammar_quiet(old(self).spec_word_seq().drop_last()) ==> {
                &&& final(self).spec_word_seq() == old(self).spec_word_seq().drop_last()
                &&& final(self).state.code == HookCode::DoNothing
                &&& final(self).state.backspace_count == 0
                &&& final(self).state.new_char_count == 0
                &&& final(self).state.ext_code == ExtCode::Delete
            },
            old(self).spec_nothing_to_delete() ==> {
                &&& final(self).index == 0
                &&& final(self).state.code == HookCode::DoNothing
                &&& final(self).state.backspace_count == 0
                &&& final(self).state.new_char_count == 0
                &&& final(self).state.ext_code == ExtCode::Delete
            },
            old(self).spec_fresh() ==> {
                &&& final(self).index == 0
                &&& final(self).state.code == HookCode::DoNothing
                &&& final(self).state.backspace_count == 0
                &&& final(self).state.new_char_count == 0
                &&& final(self).state.ext_code == ExtCode::Delete
            },
    {
        self.state.code = HookCode::DoNothing;
        self.state.ext_code = ExtCode::Delete;
        if self.special_char.len() > 0 {
            self.special_char.pop();
            if self.special_char.len() == 0 {
                self.restore_last_typing_state();
            }
        } else if self.space_count > 0 {
            // previous char is space
            self.space_count = self.space_count - 1;
            if self.space_count == 0 {
                self.restore_last_typing_state();
                proof {
                    if old(self).spec_reopens_word() {
                        assert(self.spec_word_seq() =~= old(self).spec_reopened_word());
                    }
                }
            }
        } else {
            self.delete_letter();
        }
    }

    /// Number of saved earlier words, spaces and punctuation.
    pub closed spec fn spec_history_len(&self) -> nat {
        self.typing_states@.len()
    }

    /// Keys go straight into the word: nothing is pending, the engine is not off
    /// for the word, and macros and first-letter capitals are off.
    pub closed spec fn spec_types_plainly(&self) -> bool {
        &&& !self.will_temp_off_engine
        &&& self.space_count == 0
        &&& self.special_char@.len() == 0
        &&& !self.cfg.use_macro
        &&& !self.cfg.upper_case_first_char
    }

    /// The engine lets the rest of the word pass untouched.
    pub closed spec fn spec_will_pass_word(&self) -> bool {
        self.will_temp_off_engine
    }

    /// The processing keys rest for this word (it cannot be Vietnamese).
    pub closed spec fn spec_keys_off(&self) -> bool {
        self.temp_disable_key
    }

    /// Nothing waits to be recorded (no spaces or punctuation typed after the word).
    pub closed spec fn spec_nothing_pending(&self) -> bool {
        self.space_count == 0 && self.special_char@.len() == 0
    }

    /// Delete takes a letter off a word of two letters or more: nothing is
    /// pending and no letter of a long word waits to come back.
    pub closed spec fn spec_deletes_letter(&self) -> bool {
        self.spec_nothing_pending() && self.index >= 2 && self.long_word_helper@.len() == 0
    }

    /// One space follows a saved word, and no punctuation: Delete takes the
    /// space off and brings the word back.
    pub closed spec fn spec_reopens_word(&self) -> bool {
        let h = self.typing_states@;
        &&& self.space_count == 1
        &&& self.special_char@.len() == 0
        &&& h.len() > 0
        &&& h.last()@.len() > 0
        &&& h.last()@[0] != KEY_SPACE as u32
        &&& !spec_is_char_key_code(h.last()@[0] as u16)
    }

    /// A space can apply the quick consonants: macros are off, and the processing
    /// keys are on and stay on after the spelling check of the whole word.
    pub closed spec fn spec_space_quick_ready(&self) -> bool {
        &&& !self.cfg.use_macro
        &&& !self.temp_disable_key
        &&& (!self.cfg.check_spelling || self.spec_spelling_ok(true))
    }

    /// What a quick-consonant check that returned `r` did, as the Space key needs it.
    proof fn lemma_quick_step_facts(a: Engine, b: Engine, r: bool)
        requires
            a.wf(),
            a.spec_quick_consonant_step(&b, r),
        ensures
            a.spec_quick_start_fires() ==> r,
            a.spec_quick_start_fires() && !a.cfg.quick_end_consonant ==> {
                &&& b.state.code == HookCode::Restore
                &&& b.state.backspace_count == a.index as u8
                &&& b.state.new_char_count == (a.index + 1) as u8
                &&& b.index == spec_grown(a.index as int)
                &&& b.typing_word@ == a.spec_start_expanded()
            },
            !a.spec_quick_start_fires() && a.spec_quick_end_fires() ==> {
                &&& r
                &&& b.state.code == HookCode::Restore
                &&& b.state.backspace_count == 1
                &&& b.state.new_char_count == 2
                &&& b.index == spec_grown(a.index as int)
                &&& b.typing_word@ == a.spec_end_expanded_word()
            },
    {
        reveal(Engine::spec_quick_consonant_step);
        let n = a.index as int;
        if !a.spec_quick_start_fires() && a.spec_quick_end_fires() {
            assert(spec_letter(a.typing_word@[n - 2]) == a.spec_chr(n - 2));
            assert(spec_letter(a.typing_word@[n - 1]) == a.spec_chr(n - 1));
            assert(Self::spec_end_fires_on(a.cfg.quick_end_consonant, a.typing_word@, n));
        }
    }

    /// The spelling check changes nothing the quick consonants read.
    proof fn lemma_quick_facts_frame(a: Engine, b: Engine)
        requires
            b == (Engine { temp_disable_key: b.temp_disable_key, ..a }),
        ensures
            a.spec_quick_start_fires() == b.spec_quick_start_fires(),
            a.spec_quick_end_fires() == b.spec_quick_end_fires(),
            a.spec_start_expanded() == b.spec_start_expanded(),
            a.spec_end_expanded_word() == b.spec_end_expanded_word(),
    {
    }

    /// The caps switch changes nothing the quick consonants read.
    proof fn lemma_quick_facts_frame2(a: Engine, b: Engine)
        requires
            b == (Engine { is_caps: b.is_caps, ..a }),
        ensures
            a.spec_quick_start_fires() == b.spec_quick_start_fires(),
            a.spec_quick_end_fires() == b.spec_quick_end_fires(),
            a.spec_start_expanded() == b.spec_start_expanded(),
            a.spec_end_expanded_word() == b.spec_end_expanded_word(),
    {
    }

    /// The word with its last letter expanded by the quick end consonant.
    pub closed spec fn spec_end_expanded_word(&self) -> Seq<u32> {
        Self::spec_end_expanded(self.typing_word@, self.index as int)
    }

    /// The word is not empty, has no letter shifted out, and starts with a letter.
    pub closed spec fn spec_saves_as_word(&self) -> bool {
        &&& self.index > 0
        &&& self.long_word_helper@.len() == 0
        &&& self.typing_word@[0] != KEY_SPACE as u32
        &&& !spec_is_char_key_code(self.typing_word@[0] as u16)
    }

    /// The word that Delete brings back (see `spec_reopens_word`), cut to the buffer.
    pub closed spec fn spec_reopened_word(&self) -> Seq<u32> {
        let w = self.typing_states@.last()@;
        if w.len() < 32 { w } else { w.subrange(0, 32) }
    }

    /// The word being typed, as its entries.
    pub closed spec fn spec_word_seq(&self) -> Seq<u32> {
        self.typing_word@.subrange(0, self.index as int)
    }

    /// No word, no earlier word to bring back, and no pending edit.
    pub closed spec fn spec_fresh(&self) -> bool {
        &&& self.index == 0
        &&& self.typing_states@.len() == 0
        &&& self.state.backspace_count == 0
        &&& self.state.new_char_count == 0
    }

    /// No word, nothing pending and no earlier word to bring back.
    pub closed spec fn spec_nothing_to_delete(&self) -> bool {
        self.spec_nothing_pending() && self.index == 0 && self.typing_states@.len() == 0
    }

    /// Deletes the last letter of the word; the letter shifted out of a long
    /// word comes back, and the grammar of what remains is checked again.
    #[verifier::spinoff_prover]
    #[verifier::rlimit(100)]
    fn delete_letter(&mut self)
        requires old(self).wf(),
        ensures
            final(self).wf(),
            final(self).cfg == old(self).cfg,
            final(self).state.ext_code == ExtCode::Delete || final(self).state.ext_code == ExtCode::NoEmptyChar,
            // a word of two letters or more loses its last one
            old(self).index >= 2 && old(self).long_word_helper@.len() == 0 ==> final(self).index == old(self).index - 1,
            // ... and when what is left needs no grammar fix, nothing else changes
            old(self).index >= 2 && old(self).long_word_helper@.len() == 0
                && spec_grammar_quiet(old(self).spec_word_seq().drop_last()) ==> {
                &&& final(self).spec_word_seq() == old(self).spec_word_seq().drop_last()
                &&& final(self).state.code == old(self).state.code
                &&& final(self).state.backspace_count == 0
                &&& final(self).state.new_char_count == 0
                &&& final(self).state.ext_code == ExtCode::Delete
            },
            // with no word and no history, nothing changes but the report
            old(self).index == 0 && old(self).typing_states@.len() == 0 ==> {
                &&& final(self).index == 0
                &&& final(self).state.code == old(self).state.code
                &&& final(self).state.backspace_count == 0
                &&& final(self).state.new_char_count == 0
                &&& final(self).state.ext_code == ExtCode::Delete
            },
    {
        if self.state_index > 0 {
            self.state_index = self.state_index - 1;
        }
        if self.index > 0 {
            self.index = self.index - 1;
            self.unshift_long_word();
            if self.cfg.check_spelling {
                self.check_spelling(false);
            }
        }
        proof {
            if old(self).index >= 2 && old(self).long_word_helper@.len() == 0 {
                assert(self.spec_word_seq() =~= old(self).spec_word_seq().drop_last());
            }
        }
        if self.cfg.use_macro && self.state.macro_key.len() > 0 {
            self.state.macro_key.pop();
        }
        self.state.backspace_count = 0;
        self.state.new_char_count = 0;
        self.state.ext_code = ExtCode::Delete;
        let ghost before_grammar = *self;
        if self.index == 0 {
            self.start_new_session();
            self.special_char.clear();
            self.restore_last_typing_state();
        } else {
            // continue check grammar
            self.check_grammar(1);
            proof {
                if old(self).index >= 2 && old(self).long_word_helper@.len() == 0
                    && spec_grammar_quiet(old(self).spec_word_seq().drop_last()) {
                    assert(self.spec_word_seq() =~= before_grammar.spec_word_seq());
                }
            }
        }
    }

    /// After a deletion in a word longer than the buffer, the last entry
    /// shifted out comes back at the front.
    fn unshift_long_word(&mut self)
        requires
            old(self).wf(),
            old(self).index < MAX_BUFF,
        ensures
            final(self).wf(),
            final(self).cfg == old(self).cfg,
            final(self).state == old(self).state,
            old(self).long_word_helper@.len() == 0 ==> *final(self) == *old(self),
            old(self).long_word_helper@.len() > 0 ==> {
                &&& final(self).index == old(self).index + 1
                &&& final(self).long_word_helper@ == old(self).long_word_helper@.drop_last()
                &&& final(self).typing_word@ == seq![old(self).long_word_helper@.last()]
                    + old(self).typing_word@.subrange(0, 31)
            },
    {
        let n = self.long_word_helper.len();
        if n > 0 {
            // right shift
            let mut i: usize = MAX_BUFF - 1;
            while i > 0
                invariant
                    i < MAX_BUFF,
                    self.wf(),
                    self.index < MAX_BUFF,
                    self.cfg == old(self).cfg,
                    self.state == old(self).state,
                    self.long_word_helper@ == old(self).long_word_helper@,
                    self.index == old(self).index,
                    forall|t: int| i < t < 32 ==> self.typing_word@[t] == old(self).typing_word@[t - 1],
                    forall|t: int| 0 <= t <= i ==> self.typing_word@[t] == old(self).typing_word@[t],
                decreases i,
            {
                self.typing_word[i] = self.typing_word[i - 1];
                i = i - 1;
            }
            self.typing_word[0] = self.long_word_helper[n - 1];
            self.long_word_helper.pop();
            self.index = self.index + 1;
            assert(self.typing_word@ =~= seq![old(self).long_word_helper@.last()]
                + old(self).typing_word@.subrange(0, 31));
        }
    }

    /// Any other key: it is added to the word, the processing keys edit the word.
    #[verifier::spinoff_prover]
    #[verifier::rlimit(100)]
    fn handle_typing_key(&mut self, data: u16)
        requires old(self).wf(),
        ensures
            final(self).wf(),
            final(self).cfg == old(self).cfg,
            old(self).at_word_start() && spec_plain_letter(old(self).cfg, data) ==> {
                &&& final(self).state.code == HookCode::DoNothing
                &&& final(self).state.backspace_count == 0
                &&& final(self).state.new_char_count == 0
                &&& final(self).state.ext_code == ExtCode::NormalKey
                &&& final(self).index == 1
                &&& final(self).typing_word[0] == spec_with_caps(data, old(self).is_caps)
            },
            // a letter typed into a word is added to it
            old(self).spec_types_plainly() && data != KEY_LEFT_BRACKET && data != KEY_RIGHT_BRACKET
                && (!spec_is_special_key(old(self).cfg.input_type, data) || old(self).temp_disable_key)
                && !(old(self).cfg.quick_telex && old(self).spec_qt_at(data))
                && old(self).index < MAX_BUFF
                && spec_grammar_quiet(old(self).spec_word_seq().push(spec_with_caps(data, old(self).is_caps))) ==> {
                &&& final(self).state == (HookState { code: HookCode::DoNothing, backspace_count: 0,
                    new_char_count: 0, ext_code: ExtCode::NormalKey, ..old(self).state })
                &&& final(self).spec_word_seq() == old(self).spec_word_seq().push(spec_with_caps(data, old(self).is_caps))
            },
            // a mark key on a one-letter vowel word ("as" gives "á"), or again (back to "as")
            old(self).spec_types_plainly() && !old(self).temp_disable_key
                && old(self).cfg.input_type != InputType::Vni && (data == KEY_S || data == KEY_F || data == KEY_R || data == KEY_X || data == KEY_J)
                && old(self).index == 1 && spec_is_vowel(old(self).spec_chr(0)) ==> {
                let w = old(self).typing_word@[0];
                let m = old(self).spec_mark_of_key(data);
                &&& final(self).state.backspace_count == 1
                &&& final(self).state.new_char_count == 1
                &&& final(self).state.ext_code == ExtCode::NormalKey
                &&& (w & m) == 0 ==> {
                    &&& final(self).state.code == HookCode::WillProcess
                    &&& final(self).state.char_data@[0] == spec_character_code(old(self).cfg.code_table as int, (w & !MARK_MASK) | m)
                    &&& final(self).spec_word_seq() == seq![(w & !MARK_MASK) | m]
                }
                &&& (w & m) != 0 ==> {
                    &&& final(self).state.code == HookCode::Restore
                    &&& final(self).spec_word_seq() == seq![w & !MARK_MASK, spec_with_caps(data, old(self).is_caps)]
                }
            },
            // the D key on the word "d" ("dd" gives "đ"), or on "đ" (back to "dd")
            old(self).spec_types_plainly() && !old(self).temp_disable_key
                && old(self).cfg.input_type != InputType::Vni && data == KEY_D
                && old(self).index == 1 && old(self).spec_chr(0) == KEY_D ==> {
                let w = old(self).typing_word@[0];
                &&& final(self).state.backspace_count == 1
                &&& final(self).state.new_char_count == 1
                &&& final(self).state.ext_code == ExtCode::NormalKey
                &&& (w & TONE_MASK) == 0 ==> {
                    &&& final(self).state.code == HookCode::WillProcess
                    &&& final(self).state.char_data@[0] == spec_character_code(old(self).cfg.code_table as int, w | TONE_MASK)
                    &&& final(self).spec_word_seq() == seq![w | TONE_MASK]
                }
                &&& (w & TONE_MASK) != 0 ==> {
                    &&& final(self).state.code == HookCode::Restore
                    &&& final(self).spec_word_seq() == seq![w & !TONE_MASK, spec_with_caps(data, old(self).is_caps)]
                }
            },
            // the W key on the one-letter word "a", "o" or "u" ("aw" gives "ă")
            old(self).spec_types_plainly() && !old(self).temp_disable_key
                && old(self).cfg.input_type != InputType::Vni && data == KEY_W
                && old(self).index == 1 && spec_is_aou(old(self).typing_word@[0]) ==> {
                let b0 = old(self).typing_word@[0] & !TONE_MASK;
                &&& final(self).state.backspace_count == 1
                &&& final(self).state.new_char_count == 1
                &&& final(self).state.ext_code == ExtCode::NormalKey
                &&& !spec_w_restores(b0) ==> {
                    &&& final(self).state.code == HookCode::WillProcess
                    &&& final(self).spec_word_seq() == seq![spec_w_on_letter(b0)]
                }
                &&& spec_w_restores(b0) ==> {
                    &&& final(self).state.code == HookCode::Restore
                    &&& final(self).spec_word_seq() == seq![spec_w_on_letter(b0), spec_with_caps(data, old(self).is_caps)]
                }
            },
            // a double vowel key on a one-letter word of its letter ("aa" gives "â")
            old(self).spec_types_plainly() && !old(self).temp_disable_key
                && old(self).cfg.input_type != InputType::Vni && (data == KEY_A || data == KEY_E || data == KEY_O)
                && old(self).index == 1 && old(self).spec_chr(0) == data ==> {
                let w = old(self).typing_word@[0] & !TONEW_MASK;
                let v = (w | TONE_MASK) & !TONEW_MASK;
                &&& final(self).state.backspace_count == 1
                &&& final(self).state.new_char_count == 1
                &&& final(self).state.ext_code == ExtCode::NormalKey
                &&& (w & TONE_MASK) == 0 ==> {
                    &&& final(self).state.code == HookCode::WillProcess
                    &&& final(self).state.char_data@[0] == spec_character_code(old(self).cfg.code_table as int, v)
                    &&& final(self).spec_word_seq() == seq![v]
                }
                &&& (w & TONE_MASK) != 0 ==> {
                    &&& final(self).state.code == HookCode::Restore
                    &&& final(self).state.char_data@[0] == w & !TONE_MASK
                    &&& final(self).spec_word_seq() == seq![w & !TONE_MASK, spec_with_caps(data, old(self).is_caps)]
                }
            },
            // quick telex: a doubled key types its pair
            !old(self).will_temp_off_engine && old(self).spec_nothing_pending()
                && (!spec_is_special_key(old(self).cfg.input_type, data) || old(self).temp_disable_key)
                && old(self).cfg.quick_telex && old(self).spec_qt_at(data) && old(self).index < MAX_BUFF ==> {
                let qt = spec_quick_telex(data)->0;
                &&& final(self).state.code == HookCode::WillProcess
                &&& final(self).state.backspace_count == 1
                &&& final(self).state.new_char_count == 2
                &&& final(self).state.char_data@[1] == spec_with_caps(qt[0], old(self).is_caps)
                &&& final(self).state.char_data@[0] == spec_with_caps(qt[1], old(self).is_caps)
                &&& final(self).spec_word_seq() == old(self).spec_word_seq().push(spec_with_caps(qt[1], old(self).is_caps))
            },
    {
        // START AND CHECK KEY
        if self.will_temp_off_engine {
            self.state.code = HookCode::DoNothing;
            self.state.ext_code = ExtCode::NormalKey;
            return;
        }
        self.typing_prelude(data);
        let done = self.typing_process(data);
        if done {
            return;
        }
        proof {
            if old(self).spec_types_plainly() && !old(self).temp_disable_key
                && old(self).cfg.input_type != InputType::Vni && data == KEY_W
                && old(self).index == 1 && spec_is_aou(old(self).typing_word@[0]) {
                let b0 = old(self).typing_word@[0] & !TONE_MASK;
                assert(self.index == 1);
                assert(self.spec_word_seq() =~= seq![spec_w_on_letter(b0)]);
                assert(seq![spec_w_on_letter(b0)].push(spec_with_caps(data, old(self).is_caps))
                    =~= seq![spec_w_on_letter(b0), spec_with_caps(data, old(self).is_caps)]);
            }
            if old(self).spec_types_plainly() && !old(self).temp_disable_key
                && old(self).cfg.input_type != InputType::Vni && (data == KEY_S || data == KEY_F || data == KEY_R || data == KEY_X || data == KEY_J)
                && old(self).index == 1 && spec_is_vowel(old(self).spec_chr(0)) {
                let w = old(self).typing_word@[0];
                let m = old(self).spec_mark_of_key(data);
                assert(self.index == 1);
                if (w & m) == 0 {
                    assert(self.spec_word_seq() =~= seq![(w & !MARK_MASK) | m]);
                } else {
                    assert(self.spec_word_seq() =~= seq![w & !MARK_MASK]);
                    assert(seq![w & !MARK_MASK].push(spec_with_caps(data, old(self).is_caps))
                        =~= seq![w & !MARK_MASK, spec_with_caps(data, old(self).is_caps)]);
                }
            }
            if old(self).spec_types_plainly() && !old(self).temp_disable_key
                && old(self).cfg.input_type != InputType::Vni && data == KEY_D
                && old(self).index == 1 && old(self).spec_chr(0) == KEY_D {
                let w = old(self).typing_word@[0];
                assert(self.index == 1);
                if (w & TONE_MASK) == 0 {
                    assert(self.spec_word_seq() =~= seq![w | TONE_MASK]);
                } else {
                    assert(self.spec_word_seq() =~= seq![w & !TONE_MASK]);
                    assert(seq![w & !TONE_MASK].push(spec_with_caps(data, old(self).is_caps))
                        =~= seq![w & !TONE_MASK, spec_with_caps(data, old(self).is_caps)]);
                }
            }
            if old(self).spec_types_plainly() && !old(self).temp_disable_key
                && old(self).cfg.input_type != InputType::Vni && (data == KEY_A || data == KEY_E || data == KEY_O)
                && old(self).index == 1 && old(self).spec_chr(0) == data {
                let w = old(self).typing_word@[0] & !TONEW_MASK;
                let v = (w | TONE_MASK) & !TONEW_MASK;
                assert(self.index == 1);
                if (w & TONE_MASK) == 0 {
                    assert(self.spec_word_seq() =~= seq![v]);
                } else {
                    assert(self.spec_word_seq() =~= seq![w & !TONE_MASK]);
                    assert(seq![w & !TONE_MASK].push(spec_with_caps(data, old(self).is_caps))
                        =~= seq![w & !TONE_MASK, spec_with_caps(data, old(self).is_caps)]);
                }
            }
        }
        self.typing_grammar(data);
        self.typing_macro(data);
        if self.cfg.upper_case_first_char {
            if self.index == 1 && self.upper_case_status == 2 {
                self.upper_case_first_character();
            }
            self.upper_case_status = 0;
        }
        self.typing_brackets(data);
    }

    /// Before a key joins the word: spaces or punctuation typed before it are saved,
    /// and the key is recorded as typed.
    #[verifier::spinoff_prover]
    #[verifier::rlimit(100)]
    fn typing_prelude(&mut self, data: u16)
        requires old(self).wf(),
        ensures
            final(self).wf(),
            final(self).cfg == old(self).cfg,
            old(self).space_count == 0 && old(self).special_char@.len() == 0 ==> {
                &&& final(self).index == old(self).index
                &&& final(self).state == old(self).state
                &&& final(self).typing_word == old(self).typing_word
                &&& final(self).is_caps == old(self).is_caps
                &&& final(self).temp_disable_key == old(self).temp_disable_key
                &&& final(self).will_temp_off_engine == old(self).will_temp_off_engine
                &&& final(self).special_char == old(self).special_char
            },
            final(self).space_count == 0,
            // spaces typed before the key are saved and a new word starts
            old(self).space_count > 0 ==> {
                &&& final(self).index == 0
                &&& final(self).state.ext_code == ExtCode::WordBreak
                &&& final(self).state.backspace_count == 0
                &&& final(self).state.new_char_count == 0
            },
            // punctuation typed before the key is saved
            old(self).space_count == 0 ==> final(self).special_char@.len() == 0,
    {
        if self.space_count > 0 {
            self.state.backspace_count = 0;
            self.state.new_char_count = 0;
            self.state.ext_code = ExtCode::WordBreak;
            self.start_new_session();
            // continue save space
            self.save_word_space(self.space_count);
            self.space_count = 0;
        } else if self.special_char.len() > 0 {
            self.save_special_char();
        }
        self.insert_state(data, self.is_caps);
    }

    /// Adds the key to the word, or lets a processing key edit it; returns
    /// true when a quick-telex pair ends the handling of the key.
    #[verifier::spinoff_prover]
    #[verifier::rlimit(100)]
    fn typing_process(&mut self, data: u16) -> (done: bool)
        requires old(self).wf(),
        ensures
            final(self).wf(),
            final(self).cfg == old(self).cfg,
            !spec_is_special_key(old(self).cfg.input_type, data) && !old(self).cfg.quick_telex ==> {
                &&& !done
                &&& final(self).state.code == HookCode::DoNothing
                &&& final(self).state.backspace_count == 0
                &&& final(self).state.new_char_count == 0
                &&& final(self).state.ext_code == ExtCode::NormalKey
                &&& final(self).index == (if old(self).index < MAX_BUFF { old(self).index + 1 } else { MAX_BUFF as int })
                &&& final(self).typing_word[final(self).index - 1] == spec_with_caps(data, old(self).is_caps)
            },
            // a key the input method does not process here (or while the word
            // is not Vietnamese) is added as a letter
            (!spec_is_special_key(old(self).cfg.input_type, data) || old(self).temp_disable_key)
                && !(old(self).cfg.quick_telex && old(self).spec_qt_at(data)) ==> {
                &&& !done
                &&& final(self).state == (HookState { code: HookCode::DoNothing, backspace_count: 0,
                    new_char_count: 0, ext_code: ExtCode::NormalKey, ..old(self).state })
                &&& old(self).index < MAX_BUFF ==> final(self).spec_word_seq()
                    == old(self).spec_word_seq().push(spec_with_caps(data, old(self).is_caps))
                &&& final(self).index == (if old(self).index < MAX_BUFF { old(self).index + 1 } else { MAX_BUFF as int })
            },
            // a mark key on a one-letter vowel word
            !old(self).temp_disable_key && old(self).cfg.input_type != InputType::Vni && (data == KEY_S || data == KEY_F || data == KEY_R || data == KEY_X || data == KEY_J)
                && old(self).index == 1 && spec_is_vowel(old(self).spec_chr(0)) ==> {
                &&& !done
                &&& final(self).state.ext_code == ExtCode::NormalKey
                &&& final(self).is_caps == old(self).is_caps
                &&& old(self).spec_mark_one_letter(&*final(self), old(self).spec_mark_of_key(data))
            },
            // the D key on the word "d" or "đ"
            !old(self).temp_disable_key && old(self).cfg.input_type != InputType::Vni && data == KEY_D
                && old(self).index == 1 && old(self).spec_chr(0) == KEY_D ==> {
                &&& !done
                &&& final(self).state.ext_code == ExtCode::NormalKey
                &&& final(self).is_caps == old(self).is_caps
                &&& old(self).spec_d_one_letter(&*final(self))
            },
            // the W key on the one-letter word "a", "o" or "u"
            !old(self).temp_disable_key && old(self).cfg.input_type != InputType::Vni && data == KEY_W
                && old(self).index == 1 && spec_is_aou(old(self).typing_word@[0]) ==> {
                &&& !done
                &&& final(self).state.ext_code == ExtCode::NormalKey
                &&& final(self).is_caps == old(self).is_caps
                &&& old(self).spec_w_one_letter(&*final(self))
            },
            // a double vowel key on a one-letter word of its letter
            !old(self).temp_disable_key && old(self).cfg.input_type != InputType::Vni
                && (data == KEY_A || data == KEY_E || data == KEY_O)
                && old(self).index == 1 && old(self).spec_chr(0) == data ==> {
                &&& !done
                &&& final(self).state.ext_code == ExtCode::NormalKey
                &&& final(self).is_caps == old(self).is_caps
                &&& old(self).spec_aoe_one_letter(&*final(self), data)
            },
            // quick telex: a doubled key types its pair
            (!spec_is_special_key(old(self).cfg.input_type, data) || old(self).temp_disable_key)
                && old(self).cfg.quick_telex && old(self).spec_qt_at(data) ==> {
                let qt = spec_quick_telex(data)->0;
                &&& done
                &&& final(self).state.code == HookCode::WillProcess
                &&& final(self).state.backspace_count == 1
                &&& final(self).state.new_char_count == 2
                &&& final(self).state.char_data@[1] == spec_with_caps(qt[0], old(self).is_caps)
                &&& final(self).state.char_data@[0] == spec_with_caps(qt[1], old(self).is_caps)
                &&& final(self).index == (if old(self).index < MAX_BUFF { old(self).index + 1 } else { MAX_BUFF as int })
                &&& old(self).index < MAX_BUFF ==> final(self).spec_word_seq()
                    == old(self).spec_word_seq().push(spec_with_caps(qt[1], old(self).is_caps))
            },
    {
        if !is_special_key(self.cfg.input_type, data) || self.temp_disable_key {
            // do nothing
            if self.cfg.quick_telex && self.is_quick_telex_key(data) {
                self.handle_quick_telex(data, self.is_caps);
                return true;
            } else {
                self.state.code = HookCode::DoNothing;
                self.state.backspace_count = 0;
                self.state.new_char_count = 0;
                self.state.ext_code = ExtCode::NormalKey;
                self.insert_key(data, self.is_caps, true);
            }
        } else {
            // check and update key
            self.state.code = HookCode::DoNothing;
            self.state.ext_code = ExtCode::NormalKey;
            self.handle_main_key(data, self.is_caps);
        }
        false
    }

    /// The grammar of the word is checked again; a restored word takes the key as a letter.
    #[verifier::spinoff_prover]
    #[verifier::rlimit(100)]
    fn typing_grammar(&mut self, data: u16)
        requires old(self).wf(),
        ensures
            final(self).wf(),
            final(self).cfg == old(self).cfg,
            old(self).index <= 1 && old(self).state.code == HookCode::DoNothing ==> {
                &&& final(self).state == old(self).state
                &&& final(self).typing_word == old(self).typing_word
                &&& final(self).index == old(self).index
            },
            // a restored word takes the key as a letter
            (old(self).cfg.free_mark || spec_processing_char(old(self).cfg.input_type, 9) == data)
                && old(self).state.code == HookCode::Restore ==> {
                &&& final(self).index == (if old(self).index < MAX_BUFF { old(self).index + 1 } else { MAX_BUFF as int })
                &&& final(self).typing_word[final(self).index - 1] == spec_with_caps(data, old(self).is_caps)
            },
            // a one-letter word is left alone; restored, it takes the key as a letter
            old(self).index <= 1 ==> {
                &&& final(self).state == old(self).state
                &&& old(self).state.code != HookCode::Restore ==> final(self).typing_word == old(self).typing_word
                    && final(self).index == old(self).index
                &&& old(self).state.code == HookCode::Restore ==> final(self).spec_word_seq()
                    == old(self).spec_word_seq().push(spec_with_caps(data, old(self).is_caps))
            },
            // a word the grammar check leaves alone stays as it is, unless it was restored
            spec_grammar_quiet(old(self).spec_word_seq()) && old(self).state.code != HookCode::Restore ==> {
                &&& final(self).state == old(self).state
                &&& final(self).typing_word == old(self).typing_word
                &&& final(self).index == old(self).index
            },
    {
        if !self.cfg.free_mark && !self.is_key_d(data) {
            if self.state.code == HookCode::DoNothing {
                self.check_grammar(-1);
            } else {
                self.check_grammar(0);
            }
        }
        if self.state.code == HookCode::Restore {
            self.insert_key(data, self.is_caps, true);
            if self.state_index > 0 {
                self.state_index = self.state_index - 1;
            }
        }
    }

    /// The macro key record follows the edit just made to the word.
    #[verifier::spinoff_prover]
    #[verifier::rlimit(100)]
    fn typing_macro(&mut self, data: u16)
        requires old(self).wf(),
        ensures
            final(self).wf(),
            final(self).cfg == old(self).cfg,
            final(self).index == old(self).index,
            !old(self).cfg.use_macro ==> final(self).state == old(self).state
                && final(self).typing_word == old(self).typing_word,
            // a key that passed through is recorded for the macros
            old(self).cfg.use_macro && old(self).state.code == HookCode::DoNothing ==>
                final(self).state.macro_key@ == old(self).state.macro_key@.push(spec_with_caps(data, old(self).is_caps)),
    {
        if self.cfg.use_macro {
            if self.state.code == HookCode::DoNothing {
                self.state.macro_key.push(with_caps(data, self.is_caps));
            } else if self.state.code == HookCode::WillProcess || self.state.code == HookCode::Restore {
                let bpc = self.state.backspace_count as usize;
                let mut n: usize = 0;
                while n < bpc
                    invariant
                        n <= bpc,
                        self.wf(),
                        self.cfg == old(self).cfg,
                        self.index == old(self).index,
                    decreases bpc - n,
                {
                    if self.state.macro_key.len() > 0 {
                        self.state.macro_key.pop();
                    }
                    n = n + 1;
                }
                let start = if self.index >= bpc { self.index - bpc } else { 0 };
                let end_raw = start + self.state.new_char_count as usize;
                let end = if end_raw < MAX_BUFF { end_raw } else { MAX_BUFF };
                let mut i: usize = start;
                while i < end
                    invariant
                        start <= i,
                        end <= MAX_BUFF,
                        self.wf(),
                        self.cfg == old(self).cfg,
                        self.index == old(self).index,
                    decreases end - i,
                {
                    let w = self.typing_word[i];
                    self.state.macro_key.push(w);
                    i = i + 1;
                }
            }
        }
    }

    /// The bracket keys, when they stay brackets, end the word like punctuation.
    #[verifier::spinoff_prover]
    #[verifier::rlimit(100)]
    fn typing_brackets(&mut self, data: u16)
        requires old(self).wf(),
        ensures
            final(self).wf(),
            final(self).cfg == old(self).cfg,
            data != KEY_LEFT_BRACKET && data != KEY_RIGHT_BRACKET ==> {
                &&& final(self).state == old(self).state
                &&& final(self).typing_word == old(self).typing_word
                &&& final(self).index == old(self).index
            },
            // in Simple Telex a bracket stays a bracket and ends the word like punctuation
            (data == KEY_LEFT_BRACKET || data == KEY_RIGHT_BRACKET)
                && (old(self).cfg.input_type == InputType::SimpleTelex1
                    || old(self).cfg.input_type == InputType::SimpleTelex2) ==> {
                &&& final(self).index == 0
                &&& final(self).state_index == 0
                &&& !final(self).temp_disable_key
                &&& final(self).state.ext_code == ExtCode::NormalKey
                &&& final(self).special_char@ == old(self).special_char@.push(spec_with_caps(data, old(self).is_caps))
            },
    {
        if (data == KEY_LEFT_BRACKET || data == KEY_RIGHT_BRACKET)
            && (((#[verifier::truncate] (self.state.char_data[0] as u16)) == KEY_LEFT_BRACKET
                || (#[verifier::truncate] (self.state.char_data[0] as u16)) == KEY_RIGHT_BRACKET)
                || self.cfg.input_type == InputType::SimpleTelex1
                || self.cfg.input_type == InputType::SimpleTelex2) {
            let subtract: usize = if self.state.code == HookCode::WillProcess {
                self.state.backspace_count as usize
            } else {
                0
            };
            if self.index > subtract {
                self.index = self.index - 1;
                self.save_word();
            }
            self.index = 0;
            self.temp_disable_key = false;
            self.state_index = 0;
            self.state.ext_code = ExtCode::NormalKey;
            self.special_char.push(with_caps(data, self.is_caps));
        }
    }
}

} // verus!
