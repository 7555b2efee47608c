//! Macros: typed abbreviations that expand to a replacement text.

use vstd::prelude::*;
use crate::datatype::{CAPS_MASK, CHAR_CODE_MASK, PURE_CHARACTER_MASK};
use crate::engine::{spec_character_code, Engine};
use crate::sorted_map::{seq_lt, SortedMap};
use crate::text::{
    chars_to_string, find_char, lemma_find_char_first, lemma_join_lines_push, lemma_lines_of_join,
    lemma_trim_end_bounds, lemma_trim_start_bounds, lines, spec_find_char, spec_is_white_space,
    spec_join_lines, spec_lines, spec_plain_line, spec_trim, spec_trim_end_index,
    spec_trim_start_index, str_bytes, str_from_utf8, str_to_chars, sub_chars, trim,
};
use vstd::slice::slice_subrange;
use vstd::string::StringExecFns;
use vstd::utf8::{decode_utf8, encode_utf8, encode_utf8_decode_utf8, encode_utf8_valid_utf8, valid_utf8};
use crate::vietnamese::{
    character_to_key_code, code_table, code_table_keys, key_code_to_character, opt_seq,
    spec_character_to_key_code, spec_code_table, spec_code_table_keys, spec_key_code_to_character,
};

verus! {

/// Length of the row of code table `table` for the key at position `ki` of the key list (0 when none).
pub open spec fn spec_row_len(table: int, ki: int) -> int {
    match spec_code_table(table, spec_code_table_keys()[ki]) {
        Some(r) => r.len() as int,
        None => 0,
    }
}

/// The first entry, scanning the keys in order and each row of code table 0 from
/// column `col` on, whose character is `c` and whose column exists in code table
/// `table`: that column's character of `table`, with `CHAR_CODE_MASK`.
pub open spec fn spec_lookup_char(c: u16, table: int, ki: int, col: int) -> Option<u32>
    decreases 13 - ki, spec_row_len(0, ki) - col,
{
    if ki < 0 || ki >= 13 || col < 0 {
        None
    } else if col >= spec_row_len(0, ki) {
        spec_lookup_char(c, table, ki + 1, 0)
    } else {
        let key = spec_code_table_keys()[ki];
        let row0 = spec_code_table(0, key)->0;
        if row0[col] == c && spec_code_table(table, key) is Some && col < spec_code_table(table, key)->0.len() {
            Some((spec_code_table(table, key)->0[col] as u32 | CHAR_CODE_MASK) as u32)
        } else {
            spec_lookup_char(c, table, ki, col + 1)
        }
    }
}

/// The engine code of a character: its key code when it has a key, else its
/// character code in code table `table` when code table 0 holds it, else the
/// character itself with `PURE_CHARACTER_MASK`.
pub open spec fn spec_char_key_code(c: char, table: int) -> u32 {
    let u = c as u32;
    match spec_character_to_key_code(u) {
        Some(code) => code,
        None => match spec_lookup_char(u as u16, table, 0, 0) {
            Some(v) => v,
            None => (u | PURE_CHARACTER_MASK) as u32,
        },
    }
}

/// The engine codes of a character sequence.
pub open spec fn spec_key_codes(s: Seq<char>, table: int) -> Seq<u32> {
    s.map_values(|c: char| spec_char_key_code(c, table))
}

/// The engine code of one character.
fn char_key_code(c: char, code_table_idx: usize) -> (r: u32)
    ensures r == spec_char_key_code(c, code_table_idx as int),
{
    let u = c as u32;
    match character_to_key_code(u) {
        Some(code) => code,
        None => {
            let keys = code_table_keys();
            let target = #[verifier::truncate] (u as u16);
            let mut ki: usize = 0;
            while ki < keys.len()
                invariant
                    ki <= keys@.len(),
                    keys@ == spec_code_table_keys(),
                    keys@.len() == 13,
                    target == #[verifier::truncate] ((c as u32) as u16),
                    spec_character_to_key_code(c as u32) is None,
                    spec_lookup_char(target, code_table_idx as int, ki as int, 0)
                        == spec_lookup_char(target, code_table_idx as int, 0, 0),
                decreases keys.len() - ki,
            {
                match code_table(0, keys[ki]) {
                    Some(row0) => {
                        let mut col: usize = 0;
                        while col < row0.len()
                            invariant
                                col <= row0@.len(),
                                ki < 13,
                                keys@ == spec_code_table_keys(),
                                target == #[verifier::truncate] ((c as u32) as u16),
                                spec_character_to_key_code(c as u32) is None,
                                opt_seq(Some(row0)) == spec_code_table(0, keys@[ki as int]),
                                spec_lookup_char(target, code_table_idx as int, ki as int, col as int)
                                    == spec_lookup_char(target, code_table_idx as int, 0, 0),
                            decreases row0.len() - col,
                        {
                            if row0[col] == target {
                                match code_table(code_table_idx, keys[ki]) {
                                    Some(t) => {
                                        if col < t.len() {
                                            proof {
                                                assert(spec_row_len(0, ki as int) == row0@.len());
                                                assert(spec_code_table(code_table_idx as int, keys@[ki as int]) == Some(t@));
                                                assert(spec_lookup_char(target, code_table_idx as int, ki as int, col as int)
                                                    == Some((t@[col as int] as u32 | CHAR_CODE_MASK) as u32));
                                                assert(spec_lookup_char(target, code_table_idx as int, 0, 0)
                                                    == Some((t@[col as int] as u32 | CHAR_CODE_MASK) as u32));
                                            }
                                            return t[col] as u32 | CHAR_CODE_MASK;
                                        }
                                    },
                                    None => {},
                                }
                            }
                            col = col + 1;
                        }
                    },
                    None => {},
                }
                ki = ki + 1;
            }
            u | PURE_CHARACTER_MASK
        },
    }
}

/// Converts a string into the engine's codes (see `spec_key_codes`).
pub fn convert_str_to_key_codes(s: &str, code_table_idx: usize) -> (r: Vec<u32>)
    ensures r@ == spec_key_codes(s@, code_table_idx as int),
{
    let chars = str_to_chars(s);
    let mut out: Vec<u32> = Vec::new();
    let mut i: usize = 0;
    while i < chars.len()
        invariant
            i <= chars.len(),
            chars@ == s@,
            out@ == spec_key_codes(s@.subrange(0, i as int), code_table_idx as int),
        decreases chars.len() - i,
    {
        let code = char_key_code(chars[i], code_table_idx);
        proof {
            assert(spec_key_codes(s@.subrange(0, i + 1), code_table_idx as int)
                =~= spec_key_codes(s@.subrange(0, i as int), code_table_idx as int).push(code));
        }
        out.push(code);
        i = i + 1;
    }
    proof {
        assert(s@.subrange(0, s@.len() as int) =~= s@);
    }
    out
}

/// Data associated with a macro definition.
#[derive(Clone, Debug)]
pub struct MacroData {
    /// Macro trigger text (key).
    pub macro_text: String,
    /// Expanded replacement text.
    pub macro_content: String,
    /// Code sequence of the replacement.
    pub macro_content_code: Vec<u32>,
}

impl MacroData {
    /// The trigger text, the replacement text and the replacement's codes.
    pub open spec fn view(&self) -> (Seq<char>, Seq<char>, Seq<u32>) {
        (self.macro_text@, self.macro_content@, self.macro_content_code@)
    }
}

impl Default for MacroData {
    fn default() -> (r: Self)
        ensures r@ == (Seq::<char>::empty(), Seq::<char>::empty(), Seq::<u32>::empty()),
    {
        MacroData { macro_text: String::new(), macro_content: String::new(), macro_content_code: Vec::new() }
    }
}

/// What adding a macro stores: under the codes of its name, its name, its
/// replacement and the codes of its replacement.
pub open spec fn spec_added(m: Map<Seq<u32>, (Seq<char>, Seq<char>, Seq<u32>)>, text: Seq<char>,
    content: Seq<char>, table: int) -> Map<Seq<u32>, (Seq<char>, Seq<char>, Seq<u32>)> {
    m.insert(spec_key_codes(text, table), (text, content, spec_key_codes(content, table)))
}

/// The macro table.
pub struct MacroManager {
    map: SortedMap<MacroData>,
}

impl MacroManager {
    /// The table is well formed.
    pub closed spec fn wf(&self) -> bool {
        self.map.wf()
    }

    /// Each macro's codes, with its name, replacement and replacement codes.
    pub closed spec fn view(&self) -> Map<Seq<u32>, (Seq<char>, Seq<char>, Seq<u32>)> {
        Map::new(|k: Seq<u32>| self.map@.contains_key(k), |k: Seq<u32>| self.map@[k]@)
    }

    /// The macros in increasing order of their codes: codes, name, replacement, replacement codes.
    pub closed spec fn spec_entries(&self) -> Seq<(Seq<u32>, Seq<char>, Seq<char>, Seq<u32>)> {
        Seq::new(self.map.spec_len(), |i: int| (self.map.spec_keys()[i], self.map.spec_vals()[i]@.0,
            self.map.spec_vals()[i]@.1, self.map.spec_vals()[i]@.2))
    }

    /// Number of stored macros.
    pub closed spec fn spec_len(&self) -> nat {
        self.map.spec_len()
    }

    /// An empty macro table.
    pub fn new() -> (r: Self)
        ensures
            r.wf(),
            r@ == Map::<Seq<u32>, (Seq<char>, Seq<char>, Seq<u32>)>::empty(),
            r.spec_len() == 0,
    {
        let r = MacroManager { map: SortedMap::new() };
        proof {
            assert(r@ =~= Map::<Seq<u32>, (Seq<char>, Seq<char>, Seq<u32>)>::empty());
        }
        r
    }

    /// Number of stored macros.
    pub fn len(&self) -> (r: usize)
        requires self.wf(),
        ensures
            r == self.spec_len(),
            r == self@.dom().len(),
    {
        proof {
            self.lemma_entries_view();
        }
        self.map.len()
    }

    /// Whether no macro is stored.
    pub fn is_empty(&self) -> (r: bool)
        requires self.wf(),
        ensures r == (self.spec_len() == 0),
    {
        self.map.len() == 0
    }

    /// Removes every macro.
    pub fn clear(&mut self)
        ensures
            final(self).wf(),
            final(self)@ == Map::<Seq<u32>, (Seq<char>, Seq<char>, Seq<u32>)>::empty(),
            final(self).spec_len() == 0,
    {
        self.map.clear();
        proof {
            assert(self@ =~= Map::<Seq<u32>, (Seq<char>, Seq<char>, Seq<u32>)>::empty());
        }
    }

    /// Adds a macro, or replaces the one with the same codes.
    pub fn add_macro(&mut self, text: &str, content: &str, code_table_idx: usize)
        requires old(self).wf(),
        ensures
            final(self).wf(),
            final(self)@ == spec_added(old(self)@, text@, content@, code_table_idx as int),
    {
        let key = convert_str_to_key_codes(text, code_table_idx);
        let content_code = convert_str_to_key_codes(content, code_table_idx);
        let data = MacroData {
            macro_text: text.to_owned(),
            macro_content: content.to_owned(),
            macro_content_code: content_code,
        };
        let ghost kv = key@;
        let ghost dv = data@;
        self.map.insert(key, data);
        proof {
            assert(self@ =~= spec_added(old(self)@, text@, content@, code_table_idx as int));
        }
    }

    /// Deletes the macro named `text`; returns whether there was one.
    pub fn delete_macro(&mut self, text: &str, code_table_idx: usize) -> (r: bool)
        requires old(self).wf(),
        ensures
            final(self).wf(),
            r == old(self)@.contains_key(spec_key_codes(text@, code_table_idx as int)),
            final(self)@ == old(self)@.remove(spec_key_codes(text@, code_table_idx as int)),
    {
        let key = convert_str_to_key_codes(text, code_table_idx);
        let r = self.map.remove(&key);
        proof {
            assert(self@ =~= old(self)@.remove(key@));
        }
        r
    }

    /// Whether a macro named `text` exists.
    pub fn has_macro(&self, text: &str, code_table_idx: usize) -> (r: bool)
        requires self.wf(),
        ensures r == self@.contains_key(spec_key_codes(text@, code_table_idx as int)),
    {
        let key = convert_str_to_key_codes(text, code_table_idx);
        self.map.contains_key(&key)
    }
}

/// The other-case column of the first (key, column) of code table `table`,
/// scanning the keys in order from `ki` and the row from `col`, whose character is `c`.
pub open spec fn spec_case_lookup(c: u16, is_upper: bool, table: int, ki: int, col: int) -> Option<u32>
    decreases 13 - ki, spec_row_len(table, ki) - col,
{
    if ki < 0 || ki >= 13 || col < 0 {
        None
    } else if col >= spec_row_len(table, ki) {
        spec_case_lookup(c, is_upper, table, ki + 1, 0)
    } else {
        let row = spec_code_table(table, spec_code_table_keys()[ki])->0;
        let new_idx = if col % 2 == 0 && !is_upper { col + 1 } else if col % 2 != 0 && is_upper { col - 1 } else { col };
        if row[col] == c && new_idx < row.len() {
            Some((row[new_idx] as u32 | CHAR_CODE_MASK) as u32)
        } else {
            spec_case_lookup(c, is_upper, table, ki, col + 1)
        }
    }
}

/// A code in the other case, and whether it changed: a key code changes its
/// caps flag, a character code its column in code table `table`.
pub open spec fn spec_modify_case(code: u32, is_upper: bool, table: int) -> (u32, bool) {
    if code & CHAR_CODE_MASK == 0 {
        let n: u32 = if is_upper { code | CAPS_MASK } else { code & !CAPS_MASK };
        (n, n != code)
    } else {
        match spec_case_lookup(code as u16, is_upper, table, 0, 0) {
            Some(n) => (n, n != code),
            None => (code, false),
        }
    }
}

/// Changes the case of `code`; returns whether it changed (see `spec_modify_case`).
fn modify_case_unicode(code: &mut u32, is_upper: bool, code_table_idx: usize) -> (r: bool)
    ensures
        (*final(code), r) == spec_modify_case(*old(code), is_upper, code_table_idx as int),
{
    let char_buff = *code;
    if *code & CHAR_CODE_MASK == 0 {
        if is_upper {
            *code = *code | CAPS_MASK;
        } else {
            *code = *code & !CAPS_MASK;
        }
        return *code != char_buff;
    }
    let target = #[verifier::truncate] (char_buff as u16);
    let keys = code_table_keys();
    let mut ki: usize = 0;
    while ki < keys.len()
        invariant
            ki <= keys@.len(),
            keys@ == spec_code_table_keys(),
            keys@.len() == 13,
            *code == char_buff,
            char_buff == *old(code),
            char_buff & CHAR_CODE_MASK != 0,
            target == #[verifier::truncate] (char_buff as u16),
            spec_case_lookup(target, is_upper, code_table_idx as int, ki as int, 0)
                == spec_case_lookup(target, is_upper, code_table_idx as int, 0, 0),
        decreases keys.len() - ki,
    {
        match code_table(code_table_idx, keys[ki]) {
            Some(entries) => {
                let mut idx: usize = 0;
                while idx < entries.len()
                    invariant
                        idx <= entries@.len(),
                        ki < 13,
                        keys@ == spec_code_table_keys(),
                        opt_seq(Some(entries)) == spec_code_table(code_table_idx as int, keys@[ki as int]),
                        *code == char_buff,
                        char_buff == *old(code),
                        char_buff & CHAR_CODE_MASK != 0,
                        target == #[verifier::truncate] (char_buff as u16),
                        spec_case_lookup(target, is_upper, code_table_idx as int, ki as int, idx as int)
                            == spec_case_lookup(target, is_upper, code_table_idx as int, 0, 0),
                    decreases entries.len() - idx,
                {
                    if entries[idx] == target {
                        let new_idx = if idx % 2 == 0 && !is_upper {
                            idx + 1
                        } else if idx % 2 != 0 && is_upper {
                            idx - 1
                        } else {
                            idx
                        };
                        if new_idx < entries.len() {
                            proof {
                                assert(spec_row_len(code_table_idx as int, ki as int) == entries@.len());
                            }
                            *code = entries[new_idx] as u32 | CHAR_CODE_MASK;
                            return *code != char_buff;
                        }
                    }
                    proof {
                        assert(spec_row_len(code_table_idx as int, ki as int) == entries@.len());
                    }
                    idx = idx + 1;
                }
            },
            None => {},
        }
        ki = ki + 1;
    }
    false
}

/// The code of the upper case of an ASCII letter; other bytes stay.
pub open spec fn spec_ascii_upper(b: u8) -> u32 {
    if 97 <= b <= 122 { (b - 32) as u32 } else { b as u32 }
}

/// A replacement code made upper case: a key code through its character,
/// else a character code through its column.
pub open spec fn spec_upper_code(item: u32, table: int) -> u32 {
    let k = spec_key_code_to_character(item);
    if k != 0 && spec_character_to_key_code(spec_ascii_upper(k as u8)) is Some {
        spec_character_to_key_code(spec_ascii_upper(k as u8))->0
    } else if item & CHAR_CODE_MASK != 0 {
        spec_modify_case(item, true, table).0
    } else {
        item
    }
}

/// A typed macro name in lower case, as the automatic capitalization looks it
/// up: the first code lowered, and the rest too when the second one was a capital.
pub open spec fn spec_lowered_key(k: Seq<u32>, table: int) -> Seq<u32> {
    let flag = k.len() > 1 && spec_modify_case(k[1], false, table).1;
    Seq::new(k.len(), |c: int| if c == 0 || c == 1 || flag { spec_modify_case(k[c], false, table).0 } else { k[c] })
}

/// The second code of the typed name was a capital (the whole replacement is then capitalized).
pub open spec fn spec_all_caps_key(k: Seq<u32>, table: int) -> bool {
    k.len() > 1 && spec_modify_case(k[1], false, table).1
}

/// A replacement capitalized: its first code, or all of them when `all`.
pub open spec fn spec_capitalized(codes: Seq<u32>, all: bool, table: int) -> Seq<u32> {
    Seq::new(codes.len(), |c: int| if c == 0 || all { spec_upper_code(codes[c], table) } else { codes[c] })
}

/// Capitalizing a replacement gives, for a letter key typed in lower case, the
/// same key with Shift: the character it types is the upper-case letter
/// (32 below the lower-case one in ASCII).
pub proof fn lemma_capitalized_letter(codes: Seq<u32>, all: bool, table: int, c: int)
    requires
        0 <= c < codes.len(),
        c == 0 || all,
        97 <= spec_key_code_to_character(codes[c]) <= 122,
    ensures
        spec_capitalized(codes, all, table)[c] == codes[c] + CAPS_MASK,
        65 <= spec_key_code_to_character(spec_capitalized(codes, all, table)[c]) <= 90,
        spec_key_code_to_character(spec_capitalized(codes, all, table)[c]) + 32
            == spec_key_code_to_character(codes[c]),
{
    let item = codes[c];
    let l = spec_key_code_to_character(item);
    assert(spec_capitalized(codes, all, table)[c] == spec_upper_code(item, table));
}

/// Capitalizing only the first letter leaves the rest of the replacement as it
/// is, and keeps its length.
pub proof fn lemma_capitalized_first_only(codes: Seq<u32>, table: int)
    ensures
        spec_capitalized(codes, false, table).len() == codes.len(),
        forall|c: int| 0 < c < codes.len() ==> #[trigger] spec_capitalized(codes, false, table)[c] == codes[c],
{
}

/// A key that types a capital letter (or no letter) is left as it is when
/// the replacement is capitalized.
pub proof fn lemma_capitalized_keeps_capitals(codes: Seq<u32>, all: bool, table: int, c: int)
    requires
        0 <= c < codes.len(),
        65 <= spec_key_code_to_character(codes[c]) <= 90,
    ensures
        spec_capitalized(codes, all, table)[c] == codes[c],
{
}

fn ascii_upper(b: u8) -> (r: u32)
    ensures r == spec_ascii_upper(b),
{
    if 97 <= b && b <= 122 { (b - 32) as u32 } else { b as u32 }
}

fn upper_code(item: u32, code_table_idx: usize) -> (r: u32)
    ensures r == spec_upper_code(item, code_table_idx as int),
{
    let k = key_code_to_character(item);
    if k != 0 {
        let up = ascii_upper(#[verifier::truncate] (k as u8));
        match character_to_key_code(up) {
            Some(code) => {
                return code;
            },
            None => {},
        }
    }
    let mut it = item;
    if it & CHAR_CODE_MASK != 0 {
        modify_case_unicode(&mut it, true, code_table_idx);
    }
    it
}

/// The codes of a slice, as a vector.
fn slice_to_vec_u32(s: &[u32]) -> (r: Vec<u32>)
    ensures r@ == s@,
{
    let mut r: Vec<u32> = Vec::new();
    let mut i: usize = 0;
    while i < s.len()
        invariant
            i <= s@.len(),
            r@ == s@.subrange(0, i as int),
        decreases s.len() - i,
    {
        r.push(s[i]);
        i = i + 1;
    }
    assert(s@.subrange(0, s@.len() as int) =~= s@);
    r
}

impl MacroManager {
    /// Looks up a typed macro name. The codes in `key` are first turned into the
    /// characters they stand for in the engine's code table. A name found as
    /// it is gives its replacement codes; with `auto_caps`, a capitalized name
    /// found in lower case gives its replacement capitalized the same way.
    pub fn find_macro(
        &self,
        engine: &mut Engine,
        key: &mut [u32],
        macro_content_code: &mut Vec<u32>,
        auto_caps: bool,
        code_table_idx: usize,
    ) -> (r: bool)
        requires self.wf(),
        ensures
            *final(engine) == *old(engine),
            final(key)@ == old(key)@.map_values(|x: u32| spec_character_code(old(engine).spec_cfg().code_table as int, x)),
            self@.contains_key(final(key)@) ==> r && final(macro_content_code)@ == self@[final(key)@].2,
            !self@.contains_key(final(key)@) ==> {
                let low = spec_lowered_key(final(key)@, code_table_idx as int);
                let found = auto_caps && final(key)@.len() > 0
                    && spec_modify_case(final(key)@[0], false, code_table_idx as int).1
                    && self@.contains_key(low);
                &&& r == found
                &&& found ==> final(macro_content_code)@ == spec_capitalized(self@[low].2,
                    spec_all_caps_key(final(key)@, code_table_idx as int), code_table_idx as int)
                &&& !found ==> final(macro_content_code)@ == old(macro_content_code)@
            },
    {
        let ghost table = engine.spec_cfg().code_table as int;
        let mut i: usize = 0;
        while i < key.len()
            invariant
                i <= key@.len(),
                key@.len() == old(key)@.len(),
                *engine == *old(engine),
                table == old(engine).spec_cfg().code_table as int,
                forall|j: int| 0 <= j < i ==> #[trigger] key@[j] == spec_character_code(table, old(key)@[j]),
                forall|j: int| i <= j < key@.len() ==> #[trigger] key@[j] == old(key)@[j],
            decreases key@.len() - i,
        {
            let c = engine.get_character_code(key[i]);
            key[i] = c;
            i = i + 1;
        }
        proof {
            assert(key@ =~= old(key)@.map_values(|x: u32| spec_character_code(table, x)));
        }
        let kv = slice_to_vec_u32(key);
        match self.map.get(&kv) {
            Some(data) => {
                macro_content_code.clear();
                let mut j: usize = 0;
                while j < data.macro_content_code.len()
                    invariant
                        j <= data.macro_content_code@.len(),
                        macro_content_code@ == data.macro_content_code@.subrange(0, j as int),
                    decreases data.macro_content_code@.len() - j,
                {
                    macro_content_code.push(data.macro_content_code[j]);
                    j = j + 1;
                }
                proof {
                    assert(data.macro_content_code@.subrange(0, data.macro_content_code@.len() as int) =~= data.macro_content_code@);
                }
                return true;
            },
            None => {},
        }
        if auto_caps {
            let ghost k0 = kv@;
            let mut key_vec = kv;
            let mut macro_flag = false;
            let n = key_vec.len();
            if n > 1 {
                let mut c1 = key_vec[1];
                let changed = modify_case_unicode(&mut c1, false, code_table_idx);
                key_vec.set(1, c1);
                if changed {
                    macro_flag = true;
                    let mut c: usize = 2;
                    while c < n
                        invariant
                            2 <= c <= n,
                            n == k0.len(),
                            key_vec@.len() == n,
                            key_vec@[1] == spec_modify_case(k0[1], false, code_table_idx as int).0,
                            key_vec@[0] == k0[0],
                            forall|j: int| 2 <= j < c ==> #[trigger] key_vec@[j] == spec_modify_case(k0[j], false, code_table_idx as int).0,
                            forall|j: int| c <= j < n ==> #[trigger] key_vec@[j] == k0[j],
                        decreases n - c,
                    {
                        let mut x = key_vec[c];
                        modify_case_unicode(&mut x, false, code_table_idx);
                        key_vec.set(c, x);
                        c = c + 1;
                    }
                }
            }
            if n > 0 {
                let mut c0 = key_vec[0];
                let changed0 = modify_case_unicode(&mut c0, false, code_table_idx);
                key_vec.set(0, c0);
                proof {
                    assert(key_vec@ =~= spec_lowered_key(k0, code_table_idx as int));
                    assert(macro_flag == spec_all_caps_key(k0, code_table_idx as int));
                }
                if changed0 {
                    match self.map.get(&key_vec) {
                        Some(data) => {
                            let codes = &data.macro_content_code;
                            macro_content_code.clear();
                            let mut c: usize = 0;
                            while c < codes.len()
                                invariant
                                    c <= codes@.len(),
                                    macro_content_code@ == spec_capitalized(codes@, macro_flag, code_table_idx as int).subrange(0, c as int),
                                decreases codes@.len() - c,
                            {
                                let item = codes[c];
                                let v = if c == 0 || macro_flag { upper_code(item, code_table_idx) } else { item };
                                macro_content_code.push(v);
                                proof {
                                    assert(spec_capitalized(codes@, macro_flag, code_table_idx as int).subrange(0, c + 1)
                                        =~= spec_capitalized(codes@, macro_flag, code_table_idx as int).subrange(0, c as int).push(v));
                                }
                                c = c + 1;
                            }
                            proof {
                                assert(spec_capitalized(codes@, macro_flag, code_table_idx as int).subrange(0, codes@.len() as int)
                                    =~= spec_capitalized(codes@, macro_flag, code_table_idx as int));
                            }
                            return true;
                        },
                        None => {},
                    }
                }
            }
        }
        false
    }
}

/// The first line of a macro file in UniKey's text format.
pub open spec fn spec_unikey_header() -> Seq<char> {
    ";Compatible OpenKey Macro Data file for UniKey*** version=1 ***\n"@
}

/// The lines of the text format for macros: `name:replacement`, one per line.
pub open spec fn spec_unikey_lines(es: Seq<(Seq<u32>, Seq<char>, Seq<char>, Seq<u32>)>) -> Seq<char>
    decreases es.len(),
{
    if es.len() == 0 {
        Seq::empty()
    } else {
        spec_unikey_lines(es.drop_last()) + es.last().1 + seq![':'] + es.last().2 + seq!['\n']
    }
}

/// The (name, replacement) pairs read from the lines of a UniKey macro file,
/// from line `i` on: a first line starting with ';' is skipped, lines are
/// trimmed, empty ones and comments (';') skipped, and a line holds a pair
/// when it has a ':' with a nonempty trimmed name before it.
pub open spec fn spec_unikey_pairs_from(ls: Seq<Seq<char>>, i: int) -> Seq<(Seq<char>, Seq<char>)>
    decreases ls.len() - i,
{
    if i < 0 || i >= ls.len() {
        Seq::empty()
    } else {
        let rest = spec_unikey_pairs_from(ls, i + 1);
        let line = ls[i];
        if i == 0 && line.len() > 0 && line[0] == ';' {
            rest
        } else {
            let t = spec_trim(line);
            if t.len() == 0 || t[0] == ';' {
                rest
            } else {
                match spec_find_char(t, ':', 0) {
                    Some(p) => {
                        let name = spec_trim(t.subrange(0, p));
                        if name.len() > 0 {
                            seq![(name, spec_trim(t.subrange(p + 1, t.len() as int)))] + rest
                        } else {
                            rest
                        }
                    },
                    None => rest,
                }
            }
        }
    }
}

/// The (name, replacement) pairs of a macro file in UniKey's text format.
pub open spec fn spec_unikey_pairs(text: Seq<char>) -> Seq<(Seq<char>, Seq<char>)> {
    spec_unikey_pairs_from(spec_lines(text), 0)
}

/// `m` with the macros `ps` added one after the other.
pub open spec fn spec_add_all(m: Map<Seq<u32>, (Seq<char>, Seq<char>, Seq<u32>)>,
    ps: Seq<(Seq<char>, Seq<char>)>, table: int) -> Map<Seq<u32>, (Seq<char>, Seq<char>, Seq<u32>)>
    decreases ps.len(),
{
    if ps.len() == 0 {
        m
    } else {
        spec_add_all(spec_added(m, ps[0].0, ps[0].1, table), ps.drop_first(), table)
    }
}

/// Appends the characters of `s` to `out`.
fn push_str_chars(out: &mut Vec<char>, s: &str)
    ensures final(out)@ == old(out)@ + s@,
{
    let cs = str_to_chars(s);
    let mut i: usize = 0;
    while i < cs.len()
        invariant
            i <= cs@.len(),
            cs@ == s@,
            out@ == old(out)@ + s@.subrange(0, i as int),
        decreases cs@.len() - i,
    {
        out.push(cs[i]);
        proof {
            assert(s@.subrange(0, i + 1) =~= s@.subrange(0, i as int).push(s@[i as int]));
        }
        i = i + 1;
    }
    assert(s@.subrange(0, s@.len() as int) =~= s@);
}

impl MacroManager {
    /// There are as many listed entries as stored macros.
    pub proof fn lemma_entries_len(&self)
        requires self.wf(),
        ensures self.spec_entries().len() == self.spec_len(),
    {
        self.map.lemma_lens();
    }

    /// When every macro of the table is stored under the codes of its name in
    /// code table `table`, with the codes of its replacement, the listed entries
    /// are made for that code table.
    pub proof fn lemma_consistent_from_view(&self, table: int)
        requires
            self.wf(),
            forall|k: Seq<u32>| #[trigger] self@.contains_key(k) ==>
                k == spec_key_codes(self@[k].0, table) && self@[k].2 == spec_key_codes(self@[k].1, table),
        ensures
            consistent_macros(self.spec_entries(), table),
    {
        self.lemma_entries_view();
        let es = self.spec_entries();
        assert forall|i: int| 0 <= i < es.len() implies (#[trigger] es[i]).0 == spec_key_codes(es[i].1, table)
            && es[i].3 == spec_key_codes(es[i].2, table) by {
            assert(self@.contains_key(es[i].0));
        }
    }

    /// The listed entries are the table itself: the codes of each entry map to
    /// its name, replacement and replacement codes, every macro of the table is
    /// listed, and no codes are listed twice.
    pub proof fn lemma_entries_view(&self)
        requires self.wf(),
        ensures
            self.spec_entries().len() == self.spec_len(),
            forall|i: int| 0 <= i < self.spec_len() ==> {
                let e = #[trigger] self.spec_entries()[i];
                self@.contains_key(e.0) && self@[e.0] == (e.1, e.2, e.3)
            },
            forall|q: Seq<u32>| #[trigger] self@.contains_key(q) ==>
                exists|i: int| 0 <= i < self.spec_len() && #[trigger] self.spec_entries()[i].0 == q,
            forall|i: int, j: int| 0 <= i < self.spec_len() && 0 <= j < self.spec_len()
                && #[trigger] self.spec_entries()[i].0 == #[trigger] self.spec_entries()[j].0 ==> i == j,
            // the entries come in increasing order of their codes, one per macro
            forall|i: int, j: int| 0 <= i < j < self.spec_len()
                ==> seq_lt(#[trigger] self.spec_entries()[i].0, #[trigger] self.spec_entries()[j].0),
            self@.dom().len() == self.spec_len(),
    {
        let es = self.spec_entries();
        self.map.lemma_lens();
        self.map.lemma_sorted_len();
        assert(self@.dom() =~= self.map@.dom());
        assert forall|i: int| 0 <= i < self.spec_len() implies {
            let e = #[trigger] self.spec_entries()[i];
            self@.contains_key(e.0) && self@[e.0] == (e.1, e.2, e.3)
        } by {
            self.map.lemma_view_at(i);
        }
        assert forall|q: Seq<u32>| #[trigger] self@.contains_key(q) implies
            exists|i: int| 0 <= i < self.spec_len() && #[trigger] self.spec_entries()[i].0 == q by {
            let i = self.map.spec_keys().index_of(q);
            assert(es[i].0 == q);
        }
        assert forall|i: int, j: int| 0 <= i < self.spec_len() && 0 <= j < self.spec_len()
            && #[trigger] self.spec_entries()[i].0 == #[trigger] self.spec_entries()[j].0 implies i == j by {
            self.map.lemma_keys_distinct(i, j);
        }
    }

    /// Every macro: its codes, name and replacement, in increasing order of the codes.
    pub fn get_all_macros(&self) -> (r: Vec<(Vec<u32>, String, String)>)
        requires self.wf(),
        ensures
            r@.len() == self.spec_entries().len(),
            forall|i: int| 0 <= i < r@.len() ==> {
                &&& (#[trigger] r@[i]).0@ == self.spec_entries()[i].0
                &&& r@[i].1@ == self.spec_entries()[i].1
                &&& r@[i].2@ == self.spec_entries()[i].2
            },
    {
        proof {
            self.lemma_entries_len();
            self.map.lemma_lens();
        }
        let n = self.map.len();
        let mut r: Vec<(Vec<u32>, String, String)> = Vec::new();
        let mut i: usize = 0;
        while i < n
            invariant
                i <= n,
                n == self.spec_len(),
                self.wf(),
                self.spec_entries().len() == n,
                self.map.spec_vals().len() == n,
                r@.len() == i,
                forall|j: int| 0 <= j < i ==> {
                    &&& (#[trigger] r@[j]).0@ == self.spec_entries()[j].0
                    &&& r@[j].1@ == self.spec_entries()[j].1
                    &&& r@[j].2@ == self.spec_entries()[j].2
                },
            decreases n - i,
        {
            let k = self.map.key_at(i);
            let v = self.map.val_at(i);
            r.push((k.clone(), v.macro_text.clone(), v.macro_content.clone()));
            i = i + 1;
        }
        r
    }

    /// Recomputes the replacement codes of every macro for code table `code_table_idx`.
    pub fn on_table_code_change(&mut self, code_table_idx: usize)
        requires old(self).wf(),
        ensures
            final(self).wf(),
            final(self).spec_entries().len() == old(self).spec_entries().len(),
            forall|i: int| 0 <= i < final(self).spec_entries().len() ==> {
                &&& (#[trigger] final(self).spec_entries()[i]).0 == old(self).spec_entries()[i].0
                &&& final(self).spec_entries()[i].1 == old(self).spec_entries()[i].1
                &&& final(self).spec_entries()[i].2 == old(self).spec_entries()[i].2
                &&& final(self).spec_entries()[i].3 == spec_key_codes(old(self).spec_entries()[i].2, code_table_idx as int)
            },
    {
        proof {
            self.map.lemma_lens();
        }
        let n = self.map.len();
        let mut i: usize = 0;
        while i < n
            invariant
                i <= n,
                n == self.spec_len(),
                n == old(self).spec_len(),
                self.wf(),
                self.map.spec_vals().len() == n,
                old(self).map.spec_vals().len() == n,
                self.map.spec_keys() == old(self).map.spec_keys(),
                forall|j: int| 0 <= j < n ==> {
                    &&& (#[trigger] self.map.spec_vals()[j]).macro_text@ == old(self).map.spec_vals()[j].macro_text@
                    &&& self.map.spec_vals()[j].macro_content@ == old(self).map.spec_vals()[j].macro_content@
                },
                forall|j: int| 0 <= j < i ==> (#[trigger] self.map.spec_vals()[j]).macro_content_code@
                    == spec_key_codes(old(self).map.spec_vals()[j].macro_content@, code_table_idx as int),
                forall|j: int| i <= j < n ==> (#[trigger] self.map.spec_vals()[j]).macro_content_code@
                    == old(self).map.spec_vals()[j].macro_content_code@,
            decreases n - i,
        {
            let v = self.map.val_at(i);
            let codes = convert_str_to_key_codes(v.macro_content.as_str(), code_table_idx);
            let nv = MacroData {
                macro_text: v.macro_text.clone(),
                macro_content: v.macro_content.clone(),
                macro_content_code: codes,
            };
            self.map.set_val_at(i, nv);
            i = i + 1;
        }
    }

    /// The macros in UniKey's text format: a header line, then `name:replacement`
    /// lines in increasing order of the macros' codes.
    pub fn save_to_unikey_text(&self) -> (r: String)
        requires self.wf(),
        ensures r@ == spec_unikey_header() + spec_unikey_lines(self.spec_entries()),
    {
        proof {
            self.lemma_entries_len();
            self.map.lemma_lens();
        }
        let mut out: Vec<char> = Vec::new();
        push_str_chars(&mut out, ";Compatible OpenKey Macro Data file for UniKey*** version=1 ***\n");
        let ghost es = self.spec_entries();
        let n = self.map.len();
        let mut i: usize = 0;
        while i < n
            invariant
                i <= n,
                n == self.spec_len(),
                self.wf(),
                es == self.spec_entries(),
                es.len() == n,
                self.map.spec_vals().len() == n,
                out@ == spec_unikey_header() + spec_unikey_lines(es.take(i as int)),
            decreases n - i,
        {
            let v = self.map.val_at(i);
            push_str_chars(&mut out, v.macro_text.as_str());
            out.push(':');
            push_str_chars(&mut out, v.macro_content.as_str());
            out.push('\n');
            proof {
                let t = es.take(i + 1);
                assert(t.drop_last() =~= es.take(i as int));
                assert(out@ =~= spec_unikey_header() + spec_unikey_lines(t));
            }
            i = i + 1;
        }
        proof {
            assert(es.take(n as int) =~= es);
        }
        chars_to_string(&out)
    }

    /// Adds the macros of a file in UniKey's text format (see
    /// `spec_unikey_pairs`); without `append` the table is emptied first.
    pub fn read_from_unikey_text(&mut self, text: &str, append: bool, code_table_idx: usize)
        requires old(self).wf(),
        ensures
            final(self).wf(),
            final(self)@ == spec_add_all(
                if append { old(self)@ } else { Map::empty() },
                spec_unikey_pairs(text@),
                code_table_idx as int,
            ),
    {
        if !append {
            self.clear();
        }
        let ghost start = self@;
        let chars = str_to_chars(text);
        let ls = lines(&chars);
        let ghost sl = spec_lines(text@);
        let mut i: usize = 0;
        while i < ls.len()
            invariant
                i <= ls@.len(),
                ls@.len() == sl.len(),
                sl == spec_lines(text@),
                forall|k: int| 0 <= k < ls@.len() ==> #[trigger] ls@[k]@ == sl[k],
                self.wf(),
                spec_add_all(self@, spec_unikey_pairs_from(sl, i as int), code_table_idx as int)
                    == spec_add_all(start, spec_unikey_pairs_from(sl, 0), code_table_idx as int),
            decreases ls@.len() - i,
        {
            let line = &ls[i];
            let ghost rest = spec_unikey_pairs_from(sl, i + 1);
            if i == 0 && line.len() > 0 && line[0] == ';' {
                i = i + 1;
                continue;
            }
            let t = trim(line);
            if t.len() == 0 || t[0] == ';' {
                i = i + 1;
                continue;
            }
            match find_char(&t, ':') {
                Some(p) => {
                    let name_raw = sub_chars(&t, 0, p);
                    let name = trim(&name_raw);
                    if name.len() > 0 {
                        let content_raw = sub_chars(&t, p + 1, t.len());
                        let content = trim(&content_raw);
                        let name_s = chars_to_string(&name);
                        let content_s = chars_to_string(&content);
                        proof {
                            assert(spec_unikey_pairs_from(sl, i as int) == seq![(name@, content@)] + rest);
                            assert((seq![(name@, content@)] + rest).drop_first() =~= rest);
                        }
                        self.add_macro(name_s.as_str(), content_s.as_str(), code_table_idx);
                    }
                },
                None => {},
            }
            i = i + 1;
        }
        proof {
            if !append {
                assert(start == Map::<Seq<u32>, (Seq<char>, Seq<char>, Seq<u32>)>::empty());
            }
        }
    }
}

/// The saved bytes of one macro: the length of its name's UTF-8 bytes (one
/// byte), those bytes, the length of its replacement's UTF-8 bytes (two bytes,
/// least significant first), those bytes.
pub open spec fn spec_macro_entry_bytes(text: Seq<char>, content: Seq<char>) -> Seq<u8> {
    let t = encode_utf8(text);
    let c = encode_utf8(content);
    seq![t.len() as u8] + t + seq![(c.len() % 256) as u8, ((c.len() / 256) % 256) as u8] + c
}

/// The saved bytes of a list of macros, one after the other.
pub open spec fn spec_macro_entries_bytes(es: Seq<(Seq<u32>, Seq<char>, Seq<char>, Seq<u32>)>) -> Seq<u8>
    decreases es.len(),
{
    if es.len() == 0 {
        Seq::empty()
    } else {
        spec_macro_entries_bytes(es.drop_last()) + spec_macro_entry_bytes(es.last().1, es.last().2)
    }
}

/// The saved bytes: the number of macros (two bytes, least significant first), then the macros.
pub open spec fn spec_macro_bytes(es: Seq<(Seq<u32>, Seq<char>, Seq<char>, Seq<u32>)>) -> Seq<u8> {
    seq![(es.len() % 256) as u8, ((es.len() / 256) % 256) as u8] + spec_macro_entries_bytes(es)
}

/// The (name, replacement) pairs read from `bytes` at `cursor`, at most
/// `count` of them; reading stops at the first entry cut short or not UTF-8.
pub open spec fn spec_parse_macro_entries(bytes: Seq<u8>, cursor: int, count: nat) -> Seq<(Seq<char>, Seq<char>)>
    decreases count,
{
    if count == 0 || cursor < 0 || cursor >= bytes.len() {
        Seq::empty()
    } else {
        let ts = cursor + 1;
        let te = ts + bytes[cursor] as int;
        if te > bytes.len() || !valid_utf8(bytes.subrange(ts, te)) || te + 2 > bytes.len() {
            Seq::empty()
        } else {
            let cs = te + 2;
            let ce = cs + bytes[te] as int + bytes[te + 1] as int * 256;
            if ce > bytes.len() || !valid_utf8(bytes.subrange(cs, ce)) {
                Seq::empty()
            } else {
                seq![(decode_utf8(bytes.subrange(ts, te)), decode_utf8(bytes.subrange(cs, ce)))]
                    + spec_parse_macro_entries(bytes, ce, (count - 1) as nat)
            }
        }
    }
}

/// The (name, replacement) pairs read from saved bytes.
pub open spec fn spec_parse_macros(bytes: Seq<u8>) -> Seq<(Seq<char>, Seq<char>)> {
    if bytes.len() < 2 {
        Seq::empty()
    } else {
        spec_parse_macro_entries(bytes, 2, (bytes[0] + bytes[1] * 256) as nat)
    }
}

/// Appends `b` to `out`.
fn push_bytes(out: &mut Vec<u8>, b: &Vec<u8>)
    ensures final(out)@ == old(out)@ + b@,
{
    let mut j: usize = 0;
    while j < b.len()
        invariant
            j <= b@.len(),
            out@ == old(out)@ + b@.take(j as int),
        decreases b@.len() - j,
    {
        out.push(b[j]);
        proof {
            assert(b@.take(j + 1) =~= b@.take(j as int).push(b@[j as int]));
        }
        j = j + 1;
    }
    assert(b@.take(b@.len() as int) =~= b@);
}

impl MacroManager {
    /// The bytes that save the macros (names and replacements), in increasing order of their codes.
    pub fn get_binary_save_data(&self) -> (r: Vec<u8>)
        requires self.wf(),
        ensures r@ == spec_macro_bytes(self.spec_entries()),
    {
        proof {
            self.lemma_entries_len();
            self.map.lemma_lens();
        }
        let n = self.map.len();
        let mut out: Vec<u8> = Vec::new();
        out.push((n % 256) as u8);
        out.push(((n / 256) % 256) as u8);
        let ghost es = self.spec_entries();
        let mut i: usize = 0;
        while i < n
            invariant
                i <= n,
                n == self.spec_len(),
                self.wf(),
                es == self.spec_entries(),
                es.len() == n,
                self.map.spec_vals().len() == n,
                out@ == seq![(n % 256) as u8, ((n / 256) % 256) as u8] + spec_macro_entries_bytes(es.take(i as int)),
            decreases n - i,
        {
            let v = self.map.val_at(i);
            let tb = str_bytes(v.macro_text.as_str());
            let cb = str_bytes(v.macro_content.as_str());
            let ghost before = out@;
            out.push(#[verifier::truncate] (tb.len() as u8));
            push_bytes(&mut out, &tb);
            out.push((cb.len() % 256) as u8);
            out.push(((cb.len() / 256) % 256) as u8);
            push_bytes(&mut out, &cb);
            proof {
                let t = es.take(i + 1);
                assert(t.drop_last() =~= es.take(i as int));
                assert(out@ =~= before + spec_macro_entry_bytes(es[i as int].1, es[i as int].2));
                assert(out@ =~= seq![(n % 256) as u8, ((n / 256) % 256) as u8] + spec_macro_entries_bytes(t));
            }
            i = i + 1;
        }
        proof {
            assert(es.take(n as int) =~= es);
        }
        out
    }

    /// Replaces the macros by those read from `p_data` (see `spec_parse_macros`),
    /// with their codes for code table `code_table_idx`.
    pub fn init_from_binary(&mut self, p_data: &[u8], code_table_idx: usize)
        ensures
            final(self).wf(),
            final(self)@ == spec_add_all(Map::empty(), spec_parse_macros(p_data@), code_table_idx as int),
    {
        self.clear();
        if p_data.len() < 2 {
            return;
        }
        let count: usize = p_data[0] as usize + p_data[1] as usize * 256;
        let ghost all = spec_parse_macros(p_data@);
        let mut cursor: usize = 2;
        let mut k: usize = 0;
        while k < count
            invariant
                k <= count,
                2 <= cursor <= p_data@.len(),
                count == p_data@[0] + p_data@[1] * 256,
                self.wf(),
                spec_add_all(self@, spec_parse_macro_entries(p_data@, cursor as int, (count - k) as nat), code_table_idx as int)
                    == spec_add_all(Map::empty(), all, code_table_idx as int),
            ensures
                spec_parse_macro_entries(p_data@, cursor as int, (count - k) as nat).len() == 0,
            decreases count - k,
        {
            if cursor >= p_data.len() {
                break;
            }
            let text_len = p_data[cursor] as usize;
            let ts = cursor + 1;
            if text_len > p_data.len() - ts {
                break;
            }
            let te = ts + text_len;
            let tsub = slice_subrange(p_data, ts, te);
            assert(tsub@ == p_data@.subrange(ts as int, te as int));
            let text = match str_from_utf8(tsub) {
                Some(s) => s,
                None => {
                    break;
                },
            };
            if 2 > p_data.len() - te {
                break;
            }
            let content_len = p_data[te] as usize + p_data[te + 1] as usize * 256;
            let cs = te + 2;
            if content_len > p_data.len() - cs {
                break;
            }
            let ce = cs + content_len;
            let csub = slice_subrange(p_data, cs, ce);
            assert(csub@ == p_data@.subrange(cs as int, ce as int));
            let content = match str_from_utf8(csub) {
                Some(s) => s,
                None => {
                    break;
                },
            };
            proof {
                let rest = spec_parse_macro_entries(p_data@, ce as int, (count - k - 1) as nat);
                assert(spec_parse_macro_entries(p_data@, cursor as int, (count - k) as nat)
                    == seq![(text@, content@)] + rest);
                assert((seq![(text@, content@)] + rest).drop_first() =~= rest);
            }
            self.add_macro(text, content, code_table_idx);
            cursor = ce;
            k = k + 1;
        }
    }
}

/// Adding a macro makes its name known.
pub proof fn lemma_add_then_has(m: Map<Seq<u32>, (Seq<char>, Seq<char>, Seq<u32>)>, text: Seq<char>,
    content: Seq<char>, table: int)
    ensures
        spec_added(m, text, content, table).contains_key(spec_key_codes(text, table)),
        spec_added(m, text, content, table)[spec_key_codes(text, table)]
            == (text, content, spec_key_codes(content, table)),
{
}

/// Deleting a macro makes its name unknown.
pub proof fn lemma_delete_then_not_has(m: Map<Seq<u32>, (Seq<char>, Seq<char>, Seq<u32>)>, text: Seq<char>, table: int)
    ensures !m.remove(spec_key_codes(text, table)).contains_key(spec_key_codes(text, table)),
{
}

proof fn lemma_macro_entries_bytes_front(es: Seq<(Seq<u32>, Seq<char>, Seq<char>, Seq<u32>)>)
    requires es.len() > 0,
    ensures
        spec_macro_entries_bytes(es)
            == spec_macro_entry_bytes(es[0].1, es[0].2) + spec_macro_entries_bytes(es.drop_first()),
    decreases es.len(),
{
    if es.len() == 1 {
        assert(es.drop_last() =~= Seq::<(Seq<u32>, Seq<char>, Seq<char>, Seq<u32>)>::empty());
        assert(es.drop_first() =~= Seq::<(Seq<u32>, Seq<char>, Seq<char>, Seq<u32>)>::empty());
        assert(es.last() == es[0]);
        assert(spec_macro_entries_bytes(es.drop_last()) =~= Seq::<u8>::empty());
        assert(spec_macro_entries_bytes(es.drop_first()) =~= Seq::<u8>::empty());
        assert(spec_macro_entries_bytes(es) =~= spec_macro_entry_bytes(es[0].1, es[0].2));
    } else {
        let d = es.drop_last();
        lemma_macro_entries_bytes_front(d);
        assert(d.drop_first() =~= es.drop_first().drop_last());
        assert(es.drop_first().last() == es.last());
        assert(d[0] == es[0]);
        assert(spec_macro_entries_bytes(es) =~= spec_macro_entry_bytes(es[0].1, es[0].2)
            + spec_macro_entries_bytes(es.drop_first()));
    }
}

/// Every name has fewer than 256 UTF-8 bytes and every replacement fewer than 65536.
pub open spec fn short_macros(es: Seq<(Seq<u32>, Seq<char>, Seq<char>, Seq<u32>)>) -> bool {
    forall|i: int| 0 <= i < es.len() ==> encode_utf8(#[trigger] es[i].1).len() < 256
        && encode_utf8(es[i].2).len() < 65536
}

/// The names and replacements of a list of macros.
pub open spec fn spec_pairs_of(es: Seq<(Seq<u32>, Seq<char>, Seq<char>, Seq<u32>)>) -> Seq<(Seq<char>, Seq<char>)> {
    es.map_values(|e: (Seq<u32>, Seq<char>, Seq<char>, Seq<u32>)| (e.1, e.2))
}

#[verifier::spinoff_prover]
#[verifier::rlimit(80)]
proof fn lemma_parse_macro_entries(p: Seq<u8>, es: Seq<(Seq<u32>, Seq<char>, Seq<char>, Seq<u32>)>)
    requires short_macros(es),
    ensures
        spec_parse_macro_entries(p + spec_macro_entries_bytes(es), p.len() as int, es.len())
            == spec_pairs_of(es),
    decreases es.len(),
{
    broadcast use {encode_utf8_decode_utf8, encode_utf8_valid_utf8};
    if es.len() == 0 {
        assert(spec_parse_macro_entries(p + spec_macro_entries_bytes(es), p.len() as int, 0) =~= spec_pairs_of(es));
    } else {
        let e = es[0];
        let rest = es.drop_first();
        lemma_macro_entries_bytes_front(es);
        let eb = spec_macro_entry_bytes(e.1, e.2);
        let t = encode_utf8(e.1);
        let c = encode_utf8(e.2);
        let bytes = p + spec_macro_entries_bytes(es);
        let p2 = p + eb;
        assert(bytes =~= p2 + spec_macro_entries_bytes(rest));
        let cursor = p.len() as int;
        assert(t.len() < 256 && c.len() < 65536);
        assert(bytes[cursor] == t.len() as u8);
        let ts = cursor + 1;
        let te = ts + t.len();
        assert(bytes.subrange(ts, te) =~= t);
        assert(bytes[te] == (c.len() % 256) as u8);
        assert(bytes[te + 1] == ((c.len() / 256) % 256) as u8);
        assert(bytes[te] as int + bytes[te + 1] as int * 256 == c.len());
        let cs = te + 2;
        let ce = cs + c.len();
        assert(bytes.subrange(cs, ce) =~= c);
        assert forall|i: int| 0 <= i < rest.len() implies encode_utf8(#[trigger] rest[i].1).len() < 256
            && encode_utf8(rest[i].2).len() < 65536 by {
            assert(rest[i] == es[i + 1]);
        }
        lemma_parse_macro_entries(p2, rest);
        assert(p2.len() == ce);
        assert(spec_pairs_of(es) =~= seq![(e.1, e.2)] + spec_pairs_of(rest));
        assert(spec_parse_macro_entries(bytes, cursor, es.len()) =~= seq![(e.1, e.2)] + spec_pairs_of(rest));
    }
}

/// Each macro is stored under the codes of its name and keeps the codes of its
/// replacement, both for code table `table`.
pub open spec fn consistent_macros(es: Seq<(Seq<u32>, Seq<char>, Seq<char>, Seq<u32>)>, table: int) -> bool {
    forall|i: int| 0 <= i < es.len() ==> (#[trigger] es[i]).0 == spec_key_codes(es[i].1, table)
        && es[i].3 == spec_key_codes(es[i].2, table)
}

proof fn lemma_add_all(m: Map<Seq<u32>, (Seq<char>, Seq<char>, Seq<u32>)>,
    es: Seq<(Seq<u32>, Seq<char>, Seq<char>, Seq<u32>)>, table: int, q: Seq<u32>)
    requires
        consistent_macros(es, table),
        forall|i: int, j: int| 0 <= i < es.len() && 0 <= j < es.len() && #[trigger] es[i].0 == #[trigger] es[j].0 ==> i == j,
    ensures
        spec_add_all(m, spec_pairs_of(es), table).contains_key(q)
            <==> (m.contains_key(q) || exists|i: int| 0 <= i < es.len() && #[trigger] es[i].0 == q),
        forall|i: int| 0 <= i < es.len() && #[trigger] es[i].0 == q ==>
            spec_add_all(m, spec_pairs_of(es), table)[q] == (es[i].1, es[i].2, es[i].3),
        !(exists|i: int| 0 <= i < es.len() && #[trigger] es[i].0 == q) ==>
            spec_add_all(m, spec_pairs_of(es), table)[q] == m[q],
    decreases es.len(),
{
    if es.len() > 0 {
        let rest = es.drop_first();
        let m2 = spec_added(m, es[0].1, es[0].2, table);
        assert(spec_pairs_of(es).drop_first() =~= spec_pairs_of(rest));
        assert(spec_pairs_of(es)[0] == (es[0].1, es[0].2));
        assert(es[0].0 == spec_key_codes(es[0].1, table));
        assert forall|i: int| 0 <= i < rest.len() implies (#[trigger] rest[i]).0 == spec_key_codes(rest[i].1, table)
            && rest[i].3 == spec_key_codes(rest[i].2, table) by {
            assert(rest[i] == es[i + 1]);
        }
        assert forall|i: int, j: int| 0 <= i < rest.len() && 0 <= j < rest.len() && #[trigger] rest[i].0 == #[trigger] rest[j].0 implies i == j by {
            assert(es[i + 1].0 == es[j + 1].0);
        }
        lemma_add_all(m2, rest, table, q);
        if exists|i: int| 0 <= i < rest.len() && #[trigger] rest[i].0 == q {
            let i = choose|i: int| 0 <= i < rest.len() && #[trigger] rest[i].0 == q;
            assert(es[i + 1].0 == q);
        }
        if exists|i: int| 0 <= i < es.len() && #[trigger] es[i].0 == q {
            let i = choose|i: int| 0 <= i < es.len() && #[trigger] es[i].0 == q;
            if i > 0 {
                assert(rest[i - 1].0 == q);
            }
        }
        assert forall|i: int| 0 <= i < es.len() && #[trigger] es[i].0 == q implies
            spec_add_all(m, spec_pairs_of(es), table)[q] == (es[i].1, es[i].2, es[i].3) by {
            if i > 0 {
                assert(rest[i - 1].0 == q);
            } else {
                if exists|j: int| 0 <= j < rest.len() && #[trigger] rest[j].0 == q {
                    let j = choose|j: int| 0 <= j < rest.len() && #[trigger] rest[j].0 == q;
                    assert(es[j + 1].0 == q);
                }
            }
        }
    }
}

impl MacroManager {
    /// Adding the names and replacements of the table's macros, in order, to an
    /// empty table gives back the table, when every macro was made for code table `table`.
    proof fn lemma_add_all_entries(&self, table: int)
        requires
            self.wf(),
            consistent_macros(self.spec_entries(), table),
        ensures
            spec_add_all(Map::empty(), spec_pairs_of(self.spec_entries()), table) == self@,
    {
        let es = self.spec_entries();
        self.lemma_entries_len();
        self.map.lemma_lens();
        assert forall|i: int, j: int| 0 <= i < es.len() && 0 <= j < es.len() && #[trigger] es[i].0 == #[trigger] es[j].0 implies i == j by {
            self.map.lemma_keys_distinct(i, j);
        }
        let m = spec_add_all(Map::empty(), spec_pairs_of(es), table);
        assert forall|q: Seq<u32>| #[trigger] m.contains_key(q) == self@.contains_key(q) by {
            lemma_add_all(Map::empty(), es, table, q);
            if exists|i: int| 0 <= i < es.len() && #[trigger] es[i].0 == q {
                let i = choose|i: int| 0 <= i < es.len() && #[trigger] es[i].0 == q;
                self.map.lemma_view_at(i);
            }
            if self@.contains_key(q) {
                let i = self.map.spec_keys().index_of(q);
                assert(es[i].0 == q);
            }
        }
        assert forall|q: Seq<u32>| m.contains_key(q) implies #[trigger] m[q] == self@[q] by {
            lemma_add_all(Map::empty(), es, table, q);
            let i = choose|i: int| 0 <= i < es.len() && #[trigger] es[i].0 == q;
            self.map.lemma_view_at(i);
        }
        assert(m =~= self@);
    }

    /// Reading back the saved bytes of the macros gives back the same table, when
    /// every macro was made for code table `table`, there are fewer than 65536
    /// macros, every name has fewer than 256 UTF-8 bytes and every replacement
    /// fewer than 65536.
    pub proof fn lemma_save_load(&self, table: int)
        requires
            self.wf(),
            self.spec_entries().len() < 65536,
            short_macros(self.spec_entries()),
            consistent_macros(self.spec_entries(), table),
        ensures
            spec_add_all(Map::empty(), spec_parse_macros(spec_macro_bytes(self.spec_entries())), table) == self@,
    {
        let es = self.spec_entries();
        self.lemma_entries_len();
        self.map.lemma_lens();
        let h = seq![(es.len() % 256) as u8, ((es.len() / 256) % 256) as u8];
        lemma_parse_macro_entries(h, es);
        let bytes = spec_macro_bytes(es);
        assert(bytes[0] + bytes[1] * 256 == es.len());
        assert(spec_parse_macros(bytes) == spec_pairs_of(es));
        self.lemma_add_all_entries(table);
    }

    /// Reading back the text that `save_to_unikey_text` writes gives back the
    /// same table, when every macro was made for code table `table` and each
    /// name and replacement reads back from its line as it is (see `unikey_safe`).
    pub proof fn lemma_unikey_text_roundtrip(&self, table: int)
        requires
            self.wf(),
            consistent_macros(self.spec_entries(), table),
            unikey_safe(self.spec_entries()),
        ensures
            spec_add_all(Map::empty(),
                spec_unikey_pairs(spec_unikey_header() + spec_unikey_lines(self.spec_entries())), table)
                == self@,
    {
        let es = self.spec_entries();
        lemma_unikey_pairs_of_text(es);
        self.lemma_add_all_entries(table);
    }
}

/// The name of each macro is not empty, does not start with `;`, and holds
/// no `:`; neither the name nor the replacement holds a line break, and both
/// are free of white space at their ends.
pub open spec fn unikey_safe(es: Seq<(Seq<u32>, Seq<char>, Seq<char>, Seq<u32>)>) -> bool {
    forall|i: int| 0 <= i < es.len() ==> {
        let name = (#[trigger] es[i]).1;
        let content = es[i].2;
        &&& name.len() > 0
        &&& name[0] != ';'
        &&& spec_trim(name) == name
        &&& spec_trim(content) == content
        &&& (forall|k: int| 0 <= k < name.len() ==> name[k] != ':' && name[k] != '\n')
        &&& (forall|k: int| 0 <= k < content.len() ==> content[k] != '\n')
    }
}

/// The line of a macro in the text format.
pub open spec fn spec_unikey_line(e: (Seq<u32>, Seq<char>, Seq<char>, Seq<u32>)) -> Seq<char> {
    e.1 + seq![':'] + e.2
}

proof fn lemma_unikey_lines_join(es: Seq<(Seq<u32>, Seq<char>, Seq<char>, Seq<u32>)>)
    ensures spec_unikey_lines(es) == spec_join_lines(es.map_values(|e: (Seq<u32>, Seq<char>, Seq<char>, Seq<u32>)| spec_unikey_line(e))),
    decreases es.len(),
{
    let f = |e: (Seq<u32>, Seq<char>, Seq<char>, Seq<u32>)| spec_unikey_line(e);
    if es.len() == 0 {
        assert(es.map_values(f) =~= Seq::<Seq<char>>::empty());
    } else {
        lemma_unikey_lines_join(es.drop_last());
        assert(es.map_values(f) =~= es.drop_last().map_values(f).push(spec_unikey_line(es.last())));
        lemma_join_lines_push(es.drop_last().map_values(f), spec_unikey_line(es.last()));
        assert(spec_unikey_lines(es) =~= spec_join_lines(es.drop_last().map_values(f))
            + spec_unikey_line(es.last()) + seq!['\n']);
    }
}

/// Text whose first and last characters are no white space is its own trim.
proof fn lemma_trim_ends(s: Seq<char>)
    requires
        s.len() > 0,
        !spec_is_white_space(s[0]),
        !spec_is_white_space(s.last()),
    ensures spec_trim(s) == s,
{
    assert(spec_trim_start_index(s, 0) == 0);
    assert(spec_trim_end_index(s, 0, s.len() as int) == s.len());
    assert(spec_trim(s) =~= s);
}

/// The first character of nonempty trimmed text is no white space, nor its last.
proof fn lemma_trimmed_ends(s: Seq<char>)
    requires
        s.len() > 0,
        spec_trim(s) == s,
    ensures
        !spec_is_white_space(s[0]),
        !spec_is_white_space(s.last()),
{
    lemma_trim_start_bounds(s, 0);
    let lo = spec_trim_start_index(s, 0);
    lemma_trim_end_bounds(s, lo, s.len() as int);
    let hi = spec_trim_end_index(s, lo, s.len() as int);
    assert(spec_trim(s).len() == hi - lo);
    assert(lo == 0 && hi == s.len());
    if spec_is_white_space(s[0]) {
        assert(spec_trim_start_index(s, 0) == spec_trim_start_index(s, 1));
        lemma_trim_start_bounds(s, 1);
    }
    if spec_is_white_space(s.last()) {
        assert(spec_trim_end_index(s, 0, s.len() as int) == spec_trim_end_index(s, 0, s.len() - 1));
        lemma_trim_end_bounds(s, 0, s.len() - 1);
    }
}

proof fn lemma_unikey_line_pair(e: (Seq<u32>, Seq<char>, Seq<char>, Seq<u32>))
    requires
        e.1.len() > 0,
        e.1[0] != ';',
        spec_trim(e.1) == e.1,
        spec_trim(e.2) == e.2,
        forall|k: int| 0 <= k < e.1.len() ==> e.1[k] != ':' && e.1[k] != '\n',
        forall|k: int| 0 <= k < e.2.len() ==> e.2[k] != '\n',
    ensures
        spec_plain_line(spec_unikey_line(e)),
        spec_trim(spec_unikey_line(e)) == spec_unikey_line(e),
        spec_unikey_line(e)[0] != ';',
        spec_find_char(spec_unikey_line(e), ':', 0) == Some(e.1.len() as int),
        spec_unikey_line(e).subrange(0, e.1.len() as int) == e.1,
        spec_unikey_line(e).subrange((e.1.len() + 1) as int, spec_unikey_line(e).len() as int) == e.2,
{
    let l = spec_unikey_line(e);
    let name = e.1;
    let content = e.2;
    lemma_trimmed_ends(name);
    assert(l[0] == name[0]);
    if content.len() > 0 {
        lemma_trimmed_ends(content);
        assert(l.last() == content.last());
    } else {
        assert(l.last() == ':');
    }
    lemma_trim_ends(l);
    assert forall|k: int| 0 <= k < name.len() implies l[k] != ':' by {
        assert(l[k] == name[k]);
    }
    lemma_find_char_first(l, ':', 0, name.len() as int);
    assert forall|k: int| 0 <= k < l.len() implies l[k] != '\n' by {
        if k < name.len() {
            assert(l[k] == name[k]);
        } else if k > name.len() {
            assert(l[k] == content[k - name.len() - 1]);
        }
    }
    assert(l.subrange(0, name.len() as int) =~= name);
    assert(l.subrange((name.len() + 1) as int, l.len() as int) =~= content);
}

proof fn lemma_unikey_pairs_tail(ls: Seq<Seq<char>>, es: Seq<(Seq<u32>, Seq<char>, Seq<char>, Seq<u32>)>, i: int)
    requires
        unikey_safe(es),
        ls.len() == es.len() + 1,
        1 <= i <= ls.len(),
        forall|k: int| 0 <= k < es.len() ==> ls[k + 1] == #[trigger] spec_unikey_line(es[k]),
    ensures
        spec_unikey_pairs_from(ls, i) == spec_pairs_of(es.subrange(i - 1, es.len() as int)),
    decreases ls.len() - i,
{
    if i == ls.len() {
        assert(spec_pairs_of(es.subrange(i - 1, es.len() as int)) =~= Seq::<(Seq<char>, Seq<char>)>::empty());
    } else {
        lemma_unikey_pairs_tail(ls, es, i + 1);
        let e = es[i - 1];
        assert(ls[i] == spec_unikey_line(es[i - 1]));
        lemma_unikey_line_pair(e);
        let t = spec_trim(ls[i]);
        assert(t == ls[i]);
        assert(spec_pairs_of(es.subrange(i - 1, es.len() as int))
            =~= seq![(e.1, e.2)] + spec_pairs_of(es.subrange(i, es.len() as int)));
    }
}

/// The pairs that the text of the macros `es` gives back are their names and replacements.
proof fn lemma_unikey_pairs_of_text(es: Seq<(Seq<u32>, Seq<char>, Seq<char>, Seq<u32>)>)
    requires unikey_safe(es),
    ensures spec_unikey_pairs(spec_unikey_header() + spec_unikey_lines(es)) == spec_pairs_of(es),
{
    reveal_strlit(";Compatible OpenKey Macro Data file for UniKey*** version=1 ***\n");
    let f = |e: (Seq<u32>, Seq<char>, Seq<char>, Seq<u32>)| spec_unikey_line(e);
    let body = es.map_values(f);
    let header = spec_unikey_header();
    let hl = header.drop_last();
    let ls = seq![hl] + body;
    lemma_unikey_lines_join(es);
    assert(header =~= hl + seq!['\n']);
    assert(ls.drop_first() =~= body);
    assert(spec_join_lines(ls) =~= header + spec_join_lines(body));
    assert forall|k: int| 0 <= k < ls.len() implies spec_plain_line(#[trigger] ls[k]) by {
        if k > 0 {
            assert(ls[k] == spec_unikey_line(es[k - 1]));
            lemma_unikey_line_pair(es[k - 1]);
        }
    }
    lemma_lines_of_join(ls);
    assert forall|k: int| 0 <= k < es.len() implies ls[k + 1] == #[trigger] spec_unikey_line(es[k]) by {}
    lemma_unikey_pairs_tail(ls, es, 1);
    assert(es.subrange(0, es.len() as int) =~= es);
    assert(hl[0] == ';');
}

} // verus!
