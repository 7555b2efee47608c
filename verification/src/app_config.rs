//! The user settings that the front-ends share and the `key=value` text of
//! the settings file: parsing it line by line and writing it back.

use vstd::prelude::*;
use crate::datatype::InputType;
use crate::engine::EngineConfig;
use crate::text::{
    chars_to_string, find_char, lemma_find_char_first, lemma_find_char_none, lemma_lines_of_join,
    lemma_join_lines_push, lemma_trim_plain, lines, spec_find_char, spec_is_white_space, spec_join_lines, spec_lines,
    spec_plain_line, spec_trim, str_to_chars, sub_chars, trim,
};

verus! {

/// The engine configuration `cfg` with the settings' input method,
/// orthography, spelling check and macro switch.
pub open spec fn spec_engine_cfg(c: AppConfig, cfg: EngineConfig) -> EngineConfig {
    EngineConfig {
        input_type: c.input_type,
        use_modern_orthography: c.modern,
        check_spelling: c.spelling,
        use_macro: c.use_macro,
        ..cfg
    }
}

/// The front-end settings.
#[derive(Debug, Clone, Copy, PartialEq, Eq, Structural)]
pub struct AppConfig {
    pub enabled: bool,
    pub input_type: InputType,
    pub modern: bool,
    pub spelling: bool,
    pub use_macro: bool,
    pub autostart: bool,
}

impl Default for AppConfig {
    fn default() -> (r: Self)
        ensures r == spec_default_config(),
    {
        AppConfig {
            enabled: true,
            input_type: InputType::Telex,
            modern: true,
            spelling: true,
            use_macro: false,
            autostart: true,
        }
    }
}

/// The settings before any file is read: everything on but macros, Telex input.
pub open spec fn spec_default_config() -> AppConfig {
    AppConfig {
        enabled: true,
        input_type: InputType::Telex,
        modern: true,
        spelling: true,
        use_macro: false,
        autostart: true,
    }
}

// ---------------------------------------------------------------------------
// Decimal integers as `str::parse::<i32>` reads them
// ---------------------------------------------------------------------------

/// Every character of `s` is an ASCII digit.
pub open spec fn spec_all_digits(s: Seq<char>) -> bool {
    forall|i: int| 0 <= i < s.len() ==> '0' <= #[trigger] s[i] <= '9'
}

/// The value of a string of decimal digits.
pub open spec fn spec_digits_value(s: Seq<char>) -> int
    decreases s.len(),
{
    if s.len() == 0 {
        0
    } else {
        spec_digits_value(s.drop_last()) * 10 + (s.last() as int - '0' as int)
    }
}

/// The `i32` that `s` writes: an optional `+` or `-`, then at least one digit,
/// with a value in the range of `i32`; `None` for anything else.
pub open spec fn spec_parse_i32(s: Seq<char>) -> Option<int> {
    let neg = s.len() > 0 && s[0] == '-';
    let body = if s.len() > 0 && (s[0] == '-' || s[0] == '+') { s.drop_first() } else { s };
    if body.len() == 0 || !spec_all_digits(body) {
        None
    } else {
        let v = if neg { -spec_digits_value(body) } else { spec_digits_value(body) };
        if i32::MIN <= v <= i32::MAX { Some(v) } else { None }
    }
}

proof fn lemma_digits_value_grows(s: Seq<char>, k: int)
    requires
        spec_all_digits(s),
        0 <= k <= s.len(),
    ensures
        0 <= spec_digits_value(s.subrange(0, k)) <= spec_digits_value(s),
    decreases s.len() - k,
{
    if k < s.len() {
        lemma_digits_value_grows(s, k + 1);
        let t = s.subrange(0, k + 1);
        assert(t.drop_last() =~= s.subrange(0, k));
        assert('0' <= t.last() <= '9');
    } else {
        assert(s.subrange(0, k) =~= s);
        lemma_digits_value_nonneg(s);
    }
}

proof fn lemma_digits_value_nonneg(s: Seq<char>)
    requires spec_all_digits(s),
    ensures spec_digits_value(s) >= 0,
    decreases s.len(),
{
    if s.len() > 0 {
        assert(spec_all_digits(s.drop_last()));
        lemma_digits_value_nonneg(s.drop_last());
        assert('0' <= s.last() <= '9');
    }
}

/// Reads a decimal `i32` (see `spec_parse_i32`).
pub fn parse_i32(s: &Vec<char>) -> (r: Option<i32>)
    ensures
        r matches Some(v) ==> spec_parse_i32(s@) == Some(v as int),
        r is None ==> spec_parse_i32(s@) is None,
{
    let n = s.len();
    let neg = n > 0 && s[0] == '-';
    let start: usize = if n > 0 && (s[0] == '-' || s[0] == '+') { 1 } else { 0 };
    let ghost body = if s@.len() > 0 && (s@[0] == '-' || s@[0] == '+') { s@.drop_first() } else { s@ };
    proof {
        assert(body =~= s@.subrange(start as int, n as int));
    }
    if start >= n {
        return None;
    }
    // the magnitude, while it stays at most 2^31
    let mut v: i64 = 0;
    let mut i: usize = start;
    while i < n
        invariant
            start <= i <= n,
            n == s@.len(),
            body =~= s@.subrange(start as int, n as int),
            body == (if s@.len() > 0 && (s@[0] == '-' || s@[0] == '+') { s@.drop_first() } else { s@ }),
            neg == (s@.len() > 0 && s@[0] == '-'),
            spec_all_digits(s@.subrange(start as int, i as int)),
            v == spec_digits_value(s@.subrange(start as int, i as int)),
            0 <= v <= 0x8000_0000,
        decreases n - i,
    {
        let c = s[i];
        if c < '0' || c > '9' {
            proof {
                assert(body[i - start] == c);
                assert(!spec_all_digits(body));
            }
            return None;
        }
        let d: i64 = (c as u32 - '0' as u32) as i64;
        let ghost pre = s@.subrange(start as int, i as int);
        let ghost next = s@.subrange(start as int, i + 1);
        proof {
            assert(next.drop_last() =~= pre);
            assert(next.last() == c);
            assert(spec_all_digits(next));
        }
        if v > 0x0CCC_CCCC {
            // v * 10 > 2^31: the magnitude only grows from here
            proof {
                assert(spec_digits_value(next) == v * 10 + d);
                assert(spec_digits_value(next) > 0x8000_0000);
                if spec_all_digits(body) {
                    assert(next =~= body.subrange(0, i + 1 - start));
                    lemma_digits_value_grows(body, i + 1 - start);
                    assert(spec_digits_value(body) > 0x8000_0000);
                }
            }
            return None;
        }
        v = v * 10 + d;
        if v > 0x8000_0000 {
            proof {
                assert(spec_digits_value(next) == v);
                if spec_all_digits(body) {
                    assert(next =~= body.subrange(0, i + 1 - start));
                    lemma_digits_value_grows(body, i + 1 - start);
                }
            }
            return None;
        }
        i = i + 1;
    }
    proof {
        assert(s@.subrange(start as int, n as int) =~= body);
    }
    if neg {
        Some((0 - v) as i32)
    } else if v <= 0x7FFF_FFFF {
        Some(v as i32)
    } else {
        None
    }
}

// ---------------------------------------------------------------------------
// The settings file
// ---------------------------------------------------------------------------

/// A value that switches a setting on: `true` or `1`.
pub open spec fn spec_is_on(v: Seq<char>) -> bool {
    v == "true"@ || v == "1"@
}

/// The key and the value of a line with exactly one `=`, each trimmed of white space.
pub open spec fn spec_split_setting(line: Seq<char>) -> Option<(Seq<char>, Seq<char>)> {
    match spec_find_char(line, '=', 0) {
        Some(p) => if spec_find_char(line, '=', p + 1) is None {
            Some((spec_trim(line.subrange(0, p)), spec_trim(line.subrange(p + 1, line.len() as int))))
        } else {
            None
        },
        None => None,
    }
}

/// The input method that a number in the settings file stands for.
pub open spec fn spec_input_type_of(v: int) -> InputType {
    if v == 1 {
        InputType::Vni
    } else if v == 2 {
        InputType::SimpleTelex1
    } else if v == 3 {
        InputType::SimpleTelex2
    } else {
        InputType::Telex
    }
}

/// The settings after one line of the file: a known key sets its setting,
/// anything else (an unknown key, a line without exactly one `=`, an input
/// method that is no number) leaves the settings as they were.
pub open spec fn spec_apply_setting(cfg: AppConfig, line: Seq<char>) -> AppConfig {
    match spec_split_setting(line) {
        Some((key, val)) => {
            if key == "enabled"@ {
                AppConfig { enabled: spec_is_on(val), ..cfg }
            } else if key == "input_type"@ {
                match spec_parse_i32(val) {
                    Some(n) => AppConfig { input_type: spec_input_type_of(n), ..cfg },
                    None => cfg,
                }
            } else if key == "modern"@ {
                AppConfig { modern: spec_is_on(val), ..cfg }
            } else if key == "spelling"@ {
                AppConfig { spelling: spec_is_on(val), ..cfg }
            } else if key == "use_macro"@ {
                AppConfig { use_macro: spec_is_on(val), ..cfg }
            } else if key == "autostart"@ {
                AppConfig { autostart: spec_is_on(val), ..cfg }
            } else {
                cfg
            }
        },
        None => cfg,
    }
}

/// The settings after the lines `ls`, first to last.
pub open spec fn spec_apply_settings(cfg: AppConfig, ls: Seq<Seq<char>>) -> AppConfig
    decreases ls.len(),
{
    if ls.len() == 0 {
        cfg
    } else {
        spec_apply_setting(spec_apply_settings(cfg, ls.drop_last()), ls.last())
    }
}

/// The settings that the file text `content` gives, starting from `base`.
pub open spec fn spec_read_config(base: AppConfig, content: Seq<char>) -> AppConfig {
    spec_apply_settings(base, spec_lines(content))
}

/// Whether the characters `v` are the string `s`.
fn chars_are(v: &Vec<char>, s: &str) -> (r: bool)
    ensures r == (v@ == s@),
{
    let w = str_to_chars(s);
    if v.len() != w.len() {
        return false;
    }
    let mut i: usize = 0;
    while i < v.len()
        invariant
            i <= v.len(),
            v.len() == w.len(),
            w@ == s@,
            v@.subrange(0, i as int) == w@.subrange(0, i as int),
        decreases v.len() - i,
    {
        if v[i] != w[i] {
            return false;
        }
        assert(v@.subrange(0, i + 1) =~= v@.subrange(0, i as int).push(v@[i as int]));
        assert(w@.subrange(0, i + 1) =~= w@.subrange(0, i as int).push(w@[i as int]));
        i = i + 1;
    }
    assert(v@ =~= v@.subrange(0, v.len() as int));
    assert(w@ =~= w@.subrange(0, w.len() as int));
    true
}

/// Index of the first `c` in `s` at or after `from`, if any.
fn find_char_from(s: &Vec<char>, c: char, from: usize) -> (r: Option<usize>)
    ensures
        r matches Some(i) ==> spec_find_char(s@, c, from as int) == Some(i as int),
        r is None ==> spec_find_char(s@, c, from as int) is None,
{
    let mut i: usize = from;
    while i < s.len()
        invariant
            from <= i,
            spec_find_char(s@, c, i as int) == spec_find_char(s@, c, from as int),
        decreases s.len() - i,
    {
        if s[i] == c {
            return Some(i);
        }
        i = i + 1;
    }
    None
}

/// The key and the value of a settings line (see `spec_split_setting`).
pub(crate) fn split_setting(line: &Vec<char>) -> (r: Option<(Vec<char>, Vec<char>)>)
    ensures
        r matches Some((k, v)) ==> spec_split_setting(line@) == Some((k@, v@)),
        r is None ==> spec_split_setting(line@) is None,
{
    match find_char(line, '=') {
        Some(p) => {
            let n = line.len();
            assert(p < n);
            match find_char_from(line, '=', p + 1) {
                Some(_) => None,
                None => {
                    let key = trim(&sub_chars(line, 0, p));
                    let val = trim(&sub_chars(line, p + 1, n));
                    Some((key, val))
                },
            }
        },
        None => None,
    }
}

/// Applies one line of the settings file (see `spec_apply_setting`).
pub fn apply_setting(cfg: &mut AppConfig, line: &Vec<char>)
    ensures *final(cfg) == spec_apply_setting(*old(cfg), line@),
{
    match split_setting(line) {
        Some((key, val)) => {
            let on = chars_are(&val, "true") || chars_are(&val, "1");
            if chars_are(&key, "enabled") {
                cfg.enabled = on;
            } else if chars_are(&key, "input_type") {
                match parse_i32(&val) {
                    Some(n) => {
                        cfg.input_type = if n == 1 {
                            InputType::Vni
                        } else if n == 2 {
                            InputType::SimpleTelex1
                        } else if n == 3 {
                            InputType::SimpleTelex2
                        } else {
                            InputType::Telex
                        };
                    },
                    None => {},
                }
            } else if chars_are(&key, "modern") {
                cfg.modern = on;
            } else if chars_are(&key, "spelling") {
                cfg.spelling = on;
            } else if chars_are(&key, "use_macro") {
                cfg.use_macro = on;
            } else if chars_are(&key, "autostart") {
                cfg.autostart = on;
            }
        },
        None => {},
    }
}

/// Reads the settings file text `content` over `base`: each line with a known
/// key sets that setting, later lines over earlier ones.
pub fn read_config(base: &AppConfig, content: &str) -> (r: AppConfig)
    ensures r == spec_read_config(*base, content@),
{
    let chars = str_to_chars(content);
    let ls = lines(&chars);
    let mut cfg = *base;
    let mut k: usize = 0;
    while k < ls.len()
        invariant
            k <= ls@.len(),
            ls@.len() == spec_lines(content@).len(),
            forall|j: int| 0 <= j < ls@.len() ==> #[trigger] ls@[j]@ == spec_lines(content@)[j],
            cfg == spec_apply_settings(*base, spec_lines(content@).subrange(0, k as int)),
        decreases ls.len() - k,
    {
        proof {
            let pre = spec_lines(content@).subrange(0, k as int);
            let next = spec_lines(content@).subrange(0, k + 1);
            assert(next.drop_last() =~= pre);
            assert(next.last() == ls@[k as int]@);
        }
        apply_setting(&mut cfg, &ls[k]);
        k = k + 1;
    }
    proof {
        assert(spec_lines(content@).subrange(0, ls@.len() as int) =~= spec_lines(content@));
    }
    cfg
}

/// The digit that stands for an input method in the settings file.
pub open spec fn spec_input_type_digit(it: InputType) -> char {
    match it {
        InputType::Telex => '0',
        InputType::Vni => '1',
        InputType::SimpleTelex1 => '2',
        InputType::SimpleTelex2 => '3',
    }
}

/// `true` or `false`.
pub open spec fn spec_bool_text(b: bool) -> Seq<char> {
    if b { "true"@ } else { "false"@ }
}

/// The lines of the settings file text: one `key=value` line per setting,
/// the input method by its number.
pub open spec fn spec_config_lines(cfg: AppConfig) -> Seq<Seq<char>> {
    seq![
        "enabled"@ + "="@ + spec_bool_text(cfg.enabled),
        "input_type"@ + "="@ + seq![spec_input_type_digit(cfg.input_type)],
        "modern"@ + "="@ + spec_bool_text(cfg.modern),
        "spelling"@ + "="@ + spec_bool_text(cfg.spelling),
        "use_macro"@ + "="@ + spec_bool_text(cfg.use_macro),
        "autostart"@ + "="@ + spec_bool_text(cfg.autostart),
    ]
}

/// The settings file text: its lines, each ended by a line break.
pub open spec fn spec_config_text(cfg: AppConfig) -> Seq<char> {
    spec_join_lines(spec_config_lines(cfg))
}

/// Appends the characters of `s` to `v`.
fn push_text(v: &mut Vec<char>, s: &str)
    ensures final(v)@ == old(v)@ + s@,
{
    let w = str_to_chars(s);
    let mut i: usize = 0;
    while i < w.len()
        invariant
            i <= w.len(),
            w@ == s@,
            v@ == old(v)@ + w@.subrange(0, i as int),
        decreases w.len() - i,
    {
        v.push(w[i]);
        assert(w@.subrange(0, i + 1) =~= w@.subrange(0, i as int).push(w@[i as int]));
        i = i + 1;
    }
    assert(w@.subrange(0, w.len() as int) =~= w@);
}


/// Appends the line `key=val` and its line break.
pub(crate) fn push_line(v: &mut Vec<char>, key: &str, val: &Vec<char>)
    ensures final(v)@ == old(v)@ + (key@ + "="@ + val@) + seq!['\n'],
{
    let ghost start = v@;
    push_text(v, key);
    push_text(v, "=");
    let mut i: usize = 0;
    while i < val.len()
        invariant
            i <= val.len(),
            v@ == start + key@ + "="@ + val@.subrange(0, i as int),
        decreases val.len() - i,
    {
        v.push(val[i]);
        assert(val@.subrange(0, i + 1) =~= val@.subrange(0, i as int).push(val@[i as int]));
        i = i + 1;
    }
    assert(val@.subrange(0, val.len() as int) =~= val@);
    v.push('\n');
    assert(v@ =~= start + (key@ + "="@ + val@) + seq!['\n']);
}

pub(crate) fn bool_chars(b: bool) -> (r: Vec<char>)
    ensures r@ == spec_bool_text(b),
{
    if b { str_to_chars("true") } else { str_to_chars("false") }
}

/// The settings file text of `cfg` (see `spec_config_text`).
pub fn config_text(cfg: &AppConfig) -> (r: String)
    ensures r@ == spec_config_text(*cfg),
{
    let ghost ls = spec_config_lines(*cfg);
    let mut v: Vec<char> = Vec::new();
    assert(v@ =~= spec_join_lines(ls.subrange(0, 0)));
    push_line(&mut v, "enabled", &bool_chars(cfg.enabled));
    proof { lemma_line_pushed(ls, 0); }
    let digit: char = match cfg.input_type {
        InputType::Telex => '0',
        InputType::Vni => '1',
        InputType::SimpleTelex1 => '2',
        InputType::SimpleTelex2 => '3',
    };
    let mut dv: Vec<char> = Vec::new();
    dv.push(digit);
    assert(dv@ =~= seq![spec_input_type_digit(cfg.input_type)]);
    push_line(&mut v, "input_type", &dv);
    proof { lemma_line_pushed(ls, 1); }
    push_line(&mut v, "modern", &bool_chars(cfg.modern));
    proof { lemma_line_pushed(ls, 2); }
    push_line(&mut v, "spelling", &bool_chars(cfg.spelling));
    proof { lemma_line_pushed(ls, 3); }
    push_line(&mut v, "use_macro", &bool_chars(cfg.use_macro));
    proof { lemma_line_pushed(ls, 4); }
    push_line(&mut v, "autostart", &bool_chars(cfg.autostart));
    proof { lemma_line_pushed(ls, 5); }
    assert(ls.subrange(0, 6) =~= ls);
    chars_to_string(&v)
}

/// The text of the first `k + 1` lines is that of the first `k`, then line `k`
/// and its line break.
pub proof fn lemma_line_pushed(ls: Seq<Seq<char>>, k: int)
    requires 0 <= k < ls.len(),
    ensures
        spec_join_lines(ls.subrange(0, k + 1)) == spec_join_lines(ls.subrange(0, k)) + ls[k] + seq!['\n'],
{
    assert(ls.subrange(0, k + 1) =~= ls.subrange(0, k).push(ls[k]));
    lemma_join_lines_push(ls.subrange(0, k), ls[k]);
}


/// Text that can stand on either side of `=` in a settings line and come back
/// as it was: no `=`, no line break, no white space.
pub open spec fn spec_plain_word(w: Seq<char>) -> bool {
    forall|k: int| 0 <= k < w.len() ==> {
        &&& #[trigger] w[k] != '='
        &&& w[k] != '\n'
        &&& w[k] != '\r'
        &&& !spec_is_white_space(w[k])
    }
}

/// A settings line made of a key and a value gives them back.
pub proof fn lemma_split_setting(key: Seq<char>, val: Seq<char>)
    requires
        spec_plain_word(key),
        spec_plain_word(val),
    ensures
        spec_split_setting(key + "="@ + val) == Some((key, val)),
        spec_plain_line(key + "="@ + val),
{
    reveal_strlit("=");
    let line = key + "="@ + val;
    assert forall|k: int| 0 <= k < key.len() implies line[k] != '=' by {
        assert(line[k] == key[k]);
    }
    lemma_find_char_first(line, '=', 0, key.len() as int);
    assert forall|k: int| key.len() + 1 <= k < line.len() implies line[k] != '=' by {
        assert(line[k] == val[k - key.len() - 1]);
    }
    lemma_find_char_none(line, '=', (key.len() + 1) as int);
    assert(line.subrange(0, key.len() as int) =~= key);
    assert(line.subrange((key.len() + 1) as int, line.len() as int) =~= val);
    lemma_trim_plain(key);
    lemma_trim_plain(val);
    assert forall|k: int| 0 <= k < line.len() implies line[k] != '\n' by {
        if k < key.len() {
            assert(line[k] == key[k]);
        } else if k > key.len() {
            assert(line[k] == val[k - key.len() - 1]);
        }
    }
    if line.len() > 0 {
        if val.len() > 0 {
            assert(line.last() == val.last());
        }
    }
}

/// The word of a switch is a plain word.
pub proof fn lemma_bool_text_plain(b: bool)
    ensures
        spec_plain_word(spec_bool_text(b)),
        spec_is_on(spec_bool_text(b)) == b,
{
    reveal_strlit("true");
    reveal_strlit("false");
    reveal_strlit("1");
    assert("false"@.len() == 5);
    assert("false"@ != "true"@);
    assert("false"@ != "1"@);
}

pub proof fn lemma_key_words()
    ensures
        spec_plain_word("enabled"@),
        spec_plain_word("input_type"@),
        spec_plain_word("modern"@),
        spec_plain_word("spelling"@),
        spec_plain_word("use_macro"@),
        spec_plain_word("autostart"@),
        "input_type"@ != "enabled"@,
        "modern"@ != "enabled"@,
        "modern"@ != "input_type"@,
        "spelling"@ != "enabled"@,
        "spelling"@ != "input_type"@,
        "spelling"@ != "modern"@,
        "use_macro"@ != "enabled"@,
        "use_macro"@ != "input_type"@,
        "use_macro"@ != "modern"@,
        "use_macro"@ != "spelling"@,
        "autostart"@ != "enabled"@,
        "autostart"@ != "input_type"@,
        "autostart"@ != "modern"@,
        "autostart"@ != "spelling"@,
        "autostart"@ != "use_macro"@,
{
    reveal_strlit("enabled");
    reveal_strlit("input_type");
    reveal_strlit("modern");
    reveal_strlit("spelling");
    reveal_strlit("use_macro");
    reveal_strlit("autostart");
    assert("enabled"@.len() == 7);
    assert("input_type"@.len() == 10);
    assert("modern"@.len() == 6);
    assert("spelling"@.len() == 8);
    assert("use_macro"@.len() == 9);
    assert("autostart"@.len() == 9);
    assert("use_macro"@[0] != "autostart"@[0]);
}

/// The settings file text splits into its lines.
proof fn lemma_config_text_lines(cfg: AppConfig)
    ensures spec_lines(spec_config_text(cfg)) == spec_config_lines(cfg),
{
    let ls = spec_config_lines(cfg);
    let digit = seq![spec_input_type_digit(cfg.input_type)];
    lemma_key_words();
    lemma_bool_text_plain(cfg.enabled);
    lemma_bool_text_plain(cfg.modern);
    lemma_bool_text_plain(cfg.spelling);
    lemma_bool_text_plain(cfg.use_macro);
    lemma_bool_text_plain(cfg.autostart);
    assert(spec_plain_word(digit));
    lemma_split_setting("enabled"@, spec_bool_text(cfg.enabled));
    lemma_split_setting("input_type"@, digit);
    lemma_split_setting("modern"@, spec_bool_text(cfg.modern));
    lemma_split_setting("spelling"@, spec_bool_text(cfg.spelling));
    lemma_split_setting("use_macro"@, spec_bool_text(cfg.use_macro));
    lemma_split_setting("autostart"@, spec_bool_text(cfg.autostart));
    assert forall|k: int| 0 <= k < ls.len() implies spec_plain_line(#[trigger] ls[k]) by {}
    lemma_lines_of_join(ls);
}

/// Writing the settings and reading the text back gives the same settings,
/// whatever settings the text is read over.
pub proof fn lemma_config_text_roundtrip(base: AppConfig, cfg: AppConfig)
    ensures spec_read_config(base, spec_config_text(cfg)) == cfg,
{
    reveal_strlit("=");
    let ls = spec_config_lines(cfg);
    let digit = seq![spec_input_type_digit(cfg.input_type)];
    lemma_config_text_lines(cfg);
    lemma_key_words();
    lemma_bool_text_plain(cfg.enabled);
    lemma_bool_text_plain(cfg.modern);
    lemma_bool_text_plain(cfg.spelling);
    lemma_bool_text_plain(cfg.use_macro);
    lemma_bool_text_plain(cfg.autostart);
    assert(spec_plain_word(digit));
    lemma_split_setting("enabled"@, spec_bool_text(cfg.enabled));
    lemma_split_setting("input_type"@, digit);
    lemma_split_setting("modern"@, spec_bool_text(cfg.modern));
    lemma_split_setting("spelling"@, spec_bool_text(cfg.spelling));
    lemma_split_setting("use_macro"@, spec_bool_text(cfg.use_macro));
    lemma_split_setting("autostart"@, spec_bool_text(cfg.autostart));
    // the digit line reads back as the input method
    assert(digit.drop_last() =~= Seq::<char>::empty());
    assert(spec_all_digits(digit));
    assert(spec_digits_value(Seq::<char>::empty()) == 0);
    assert(spec_digits_value(digit) == cfg.input_type.spec_row());
    assert(spec_parse_i32(digit) == Some(cfg.input_type.spec_row()));
    assert(spec_input_type_of(cfg.input_type.spec_row()) == cfg.input_type);
    // line by line
    let c0 = base;
    let c1 = spec_apply_setting(c0, ls[0]);
    let c2 = spec_apply_setting(c1, ls[1]);
    let c3 = spec_apply_setting(c2, ls[2]);
    let c4 = spec_apply_setting(c3, ls[3]);
    let c5 = spec_apply_setting(c4, ls[4]);
    let c6 = spec_apply_setting(c5, ls[5]);
    assert(c1.enabled == cfg.enabled);
    assert(c2.input_type == cfg.input_type && c2.enabled == cfg.enabled);
    assert(c6 == cfg);
    assert(spec_apply_settings(base, ls.subrange(0, 0)) == c0);
    assert(ls.subrange(0, 1).drop_last() =~= ls.subrange(0, 0));
    assert(ls.subrange(0, 2).drop_last() =~= ls.subrange(0, 1));
    assert(ls.subrange(0, 3).drop_last() =~= ls.subrange(0, 2));
    assert(ls.subrange(0, 4).drop_last() =~= ls.subrange(0, 3));
    assert(ls.subrange(0, 5).drop_last() =~= ls.subrange(0, 4));
    assert(ls.subrange(0, 6).drop_last() =~= ls.subrange(0, 5));
    assert(spec_apply_settings(base, ls.subrange(0, 1)) == c1);
    assert(spec_apply_settings(base, ls.subrange(0, 2)) == c2);
    assert(spec_apply_settings(base, ls.subrange(0, 3)) == c3);
    assert(spec_apply_settings(base, ls.subrange(0, 4)) == c4);
    assert(spec_apply_settings(base, ls.subrange(0, 5)) == c5);
    assert(spec_apply_settings(base, ls.subrange(0, 6)) == c6);
    assert(ls.subrange(0, 6) =~= ls);
}

} // verus!
