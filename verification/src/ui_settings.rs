//! The settings window's side of the settings file: it reads and writes the
//! input method as a raw number and leaves the on/off switch alone; and the
//! desktop entry that starts the daemon at login on Linux.

use vstd::prelude::*;
use crate::app_config::{
    bool_chars, lemma_bool_text_plain, lemma_key_words, lemma_line_pushed, lemma_split_setting, parse_i32, push_line,
    spec_all_digits, spec_bool_text, spec_digits_value, spec_is_on, spec_parse_i32, spec_plain_word,
    spec_split_setting,
};
use crate::text::{chars_to_string, lemma_lines_of_join, lines, spec_join_lines, spec_lines, spec_plain_line, str_to_chars};

verus! {

/// The settings the window edits.
#[derive(Debug, Clone, Copy, PartialEq, Eq, Structural)]
pub struct AppConfig {
    pub input_type: i32,
    pub modern: bool,
    pub spelling: bool,
    pub use_macro: bool,
    pub autostart: bool,
}

/// The settings after one line of the file: a known key sets its setting,
/// anything else leaves the settings as they were.
pub open spec fn spec_apply_setting(cfg: AppConfig, line: Seq<char>) -> AppConfig {
    match spec_split_setting(line) {
        Some((key, val)) => {
            if key == "input_type"@ {
                match spec_parse_i32(val) {
                    Some(n) => AppConfig { input_type: n as i32, ..cfg },
                    None => cfg,
                }
            } else if key == "modern"@ {
                AppConfig { modern: spec_is_on(val), ..cfg }
            } else if key == "spelling"@ {
                AppConfig { spelling: spec_is_on(val), ..cfg }
            } else if key == "use_macro"@ {
                AppConfig { use_macro: spec_is_on(val), ..cfg }
            } else if key == "autostart"@ {
                AppConfig { autostart: spec_is_on(val), ..cfg }
            } else {
                cfg
            }
        },
        None => cfg,
    }
}

/// The settings after the lines `ls`, first to last.
pub open spec fn spec_apply_settings(cfg: AppConfig, ls: Seq<Seq<char>>) -> AppConfig
    decreases ls.len(),
{
    if ls.len() == 0 {
        cfg
    } else {
        spec_apply_setting(spec_apply_settings(cfg, ls.drop_last()), ls.last())
    }
}

/// The settings the window starts with: Telex (0), modern orthography and
/// spelling on, macros off, the file's lines (when there is a file) over
/// these, and whether the daemon starts at login as the system says.
pub open spec fn spec_load_settings(content: Option<Seq<char>>, autostart_enabled: bool) -> AppConfig {
    let base = AppConfig { input_type: 0, modern: true, spelling: true, use_macro: false, autostart: autostart_enabled };
    let read = match content {
        Some(c) => spec_apply_settings(base, spec_lines(c)),
        None => base,
    };
    AppConfig { autostart: autostart_enabled, ..read }
}

/// Whether the characters `v` are the string `s`.
fn chars_are(v: &Vec<char>, s: &str) -> (r: bool)
    ensures r == (v@ == s@),
{
    let w = str_to_chars(s);
    if v.len() != w.len() {
        return false;
    }
    let mut i: usize = 0;
    while i < v.len()
        invariant
            i <= v.len(),
            v.len() == w.len(),
            w@ == s@,
            v@.subrange(0, i as int) == w@.subrange(0, i as int),
        decreases v.len() - i,
    {
        if v[i] != w[i] {
            return false;
        }
        assert(v@.subrange(0, i + 1) =~= v@.subrange(0, i as int).push(v@[i as int]));
        assert(w@.subrange(0, i + 1) =~= w@.subrange(0, i as int).push(w@[i as int]));
        i = i + 1;
    }
    assert(v@ =~= v@.subrange(0, v.len() as int));
    assert(w@ =~= w@.subrange(0, w.len() as int));
    true
}

/// Applies one line of the settings file (see `spec_apply_setting`).
fn apply_setting(cfg: &mut AppConfig, line: &Vec<char>)
    ensures *final(cfg) == spec_apply_setting(*old(cfg), line@),
{
    match crate::app_config::split_setting(line) {
        Some((key, val)) => {
            let on = chars_are(&val, "true") || chars_are(&val, "1");
            if chars_are(&key, "input_type") {
                match parse_i32(&val) {
                    Some(n) => {
                        cfg.input_type = n;
                    },
                    None => {},
                }
            } else if chars_are(&key, "modern") {
                cfg.modern = on;
            } else if chars_are(&key, "spelling") {
                cfg.spelling = on;
            } else if chars_are(&key, "use_macro") {
                cfg.use_macro = on;
            } else if chars_are(&key, "autostart") {
                cfg.autostart = on;
            }
        },
        None => {},
    }
}

/// The settings the window starts with, from the text of the settings file
/// (`None` when it cannot be read) and whether the daemon starts at login.
pub fn load_settings(content: Option<&str>, autostart_enabled: bool) -> (r: AppConfig)
    ensures
        r == spec_load_settings(
            match content { Some(c) => Some(c@), None => None },
            autostart_enabled,
        ),
{
    let mut cfg = AppConfig { input_type: 0, modern: true, spelling: true, use_macro: false, autostart: autostart_enabled };
    let ghost base = cfg;
    match content {
        Some(c) => {
            let ls = lines(&str_to_chars(c));
            let mut k: usize = 0;
            while k < ls.len()
                invariant
                    k <= ls@.len(),
                    ls@.len() == spec_lines(c@).len(),
                    forall|j: int| 0 <= j < ls@.len() ==> #[trigger] ls@[j]@ == spec_lines(c@)[j],
                    cfg == spec_apply_settings(base, spec_lines(c@).subrange(0, k as int)),
                decreases ls.len() - k,
            {
                proof {
                    let pre = spec_lines(c@).subrange(0, k as int);
                    let next = spec_lines(c@).subrange(0, k + 1);
                    assert(next.drop_last() =~= pre);
                    assert(next.last() == ls@[k as int]@);
                }
                apply_setting(&mut cfg, &ls[k]);
                k = k + 1;
            }
            proof {
                assert(spec_lines(c@).subrange(0, ls@.len() as int) =~= spec_lines(c@));
            }
        },
        None => {},
    }
    cfg.autostart = autostart_enabled;
    cfg
}

/// The character of the decimal digit `d`.
pub open spec fn spec_digit_char(d: int) -> char {
    if d == 0 { '0' } else if d == 1 { '1' } else if d == 2 { '2' } else if d == 3 { '3' }
    else if d == 4 { '4' } else if d == 5 { '5' } else if d == 6 { '6' } else if d == 7 { '7' }
    else if d == 8 { '8' } else { '9' }
}

/// The decimal digits of `n`.
pub open spec fn spec_nat_text(n: nat) -> Seq<char>
    decreases n,
{
    if n < 10 {
        seq![spec_digit_char(n as int)]
    } else {
        spec_nat_text(n / 10).push(spec_digit_char((n % 10) as int))
    }
}

/// `n` in decimal, with a `-` before a negative number.
pub open spec fn spec_int_text(n: int) -> Seq<char> {
    if n < 0 { seq!['-'] + spec_nat_text((-n) as nat) } else { spec_nat_text(n as nat) }
}

fn digit_char(d: u64) -> (r: char)
    requires d < 10,
    ensures r == spec_digit_char(d as int),
{
    if d == 0 { '0' } else if d == 1 { '1' } else if d == 2 { '2' } else if d == 3 { '3' }
    else if d == 4 { '4' } else if d == 5 { '5' } else if d == 6 { '6' } else if d == 7 { '7' }
    else if d == 8 { '8' } else { '9' }
}

fn push_nat_text(v: &mut Vec<char>, n: u64)
    ensures final(v)@ == old(v)@ + spec_nat_text(n as nat),
    decreases n,
{
    if n >= 10 {
        push_nat_text(v, n / 10);
    }
    v.push(digit_char(n % 10));
    proof {
        if n >= 10 {
            assert(spec_nat_text(n as nat) == spec_nat_text((n / 10) as nat).push(spec_digit_char((n % 10) as int)));
        }
    }
}

/// The lines of the settings file text that the window writes: no line for
/// the on/off switch.
pub open spec fn spec_settings_lines(cfg: AppConfig) -> Seq<Seq<char>> {
    seq![
        "input_type"@ + "="@ + spec_int_text(cfg.input_type as int),
        "modern"@ + "="@ + spec_bool_text(cfg.modern),
        "spelling"@ + "="@ + spec_bool_text(cfg.spelling),
        "use_macro"@ + "="@ + spec_bool_text(cfg.use_macro),
        "autostart"@ + "="@ + spec_bool_text(cfg.autostart),
    ]
}

/// The settings file text that the window writes: its lines, each ended by a line break.
pub open spec fn spec_settings_text(cfg: AppConfig) -> Seq<char> {
    spec_join_lines(spec_settings_lines(cfg))
}

/// The decimal text of `n`.
fn int_chars(n: i32) -> (r: Vec<char>)
    ensures r@ == spec_int_text(n as int),
{
    let mut v: Vec<char> = Vec::new();
    if n < 0 {
        v.push('-');
        let mag: u64 = (0i64 - n as i64) as u64;
        push_nat_text(&mut v, mag);
        assert(v@ =~= spec_int_text(n as int));
    } else {
        push_nat_text(&mut v, n as u64);
        assert(v@ =~= spec_int_text(n as int));
    }
    v
}

/// The settings file text for `cfg` (see `spec_settings_text`).
pub fn settings_text(cfg: &AppConfig) -> (r: String)
    ensures r@ == spec_settings_text(*cfg),
{
    let ghost ls = spec_settings_lines(*cfg);
    let mut v: Vec<char> = Vec::new();
    assert(v@ =~= spec_join_lines(ls.subrange(0, 0)));
    push_line(&mut v, "input_type", &int_chars(cfg.input_type));
    proof { lemma_line_pushed(ls, 0); }
    push_line(&mut v, "modern", &bool_chars(cfg.modern));
    proof { lemma_line_pushed(ls, 1); }
    push_line(&mut v, "spelling", &bool_chars(cfg.spelling));
    proof { lemma_line_pushed(ls, 2); }
    push_line(&mut v, "use_macro", &bool_chars(cfg.use_macro));
    proof { lemma_line_pushed(ls, 3); }
    push_line(&mut v, "autostart", &bool_chars(cfg.autostart));
    proof { lemma_line_pushed(ls, 4); }
    assert(ls.subrange(0, 5) =~= ls);
    chars_to_string(&v)
}

/// Appends the characters of `s` to `v`.
fn push_text(v: &mut Vec<char>, s: &str)
    ensures final(v)@ == old(v)@ + s@,
{
    let w = str_to_chars(s);
    let mut i: usize = 0;
    while i < w.len()
        invariant
            i <= w.len(),
            w@ == s@,
            v@ == old(v)@ + w@.subrange(0, i as int),
        decreases w.len() - i,
    {
        v.push(w[i]);
        assert(w@.subrange(0, i + 1) =~= w@.subrange(0, i as int).push(w@[i as int]));
        i = i + 1;
    }
    assert(w@.subrange(0, w.len() as int) =~= w@);
}

/// The desktop entry that starts the daemon at `exec_path` at login.
pub open spec fn spec_desktop_entry(exec_path: Seq<char>) -> Seq<char> {
    "[Desktop Entry]\nType=Application\nExec="@ + exec_path
        + "\nHidden=false\nNoDisplay=false\nX-GNOME-Autostart-enabled=true\nName=XXKey\nComment=Vietnamese Input Method\n"@
}

/// The desktop entry text for the daemon at `exec_path` (see `spec_desktop_entry`).
pub fn desktop_entry(exec_path: &str) -> (r: String)
    ensures r@ == spec_desktop_entry(exec_path@),
{
    let mut v: Vec<char> = Vec::new();
    push_text(&mut v, "[Desktop Entry]\nType=Application\nExec=");
    assert(v@ =~= "[Desktop Entry]\nType=Application\nExec="@);
    push_text(&mut v, exec_path);
    push_text(&mut v, "\nHidden=false\nNoDisplay=false\nX-GNOME-Autostart-enabled=true\nName=XXKey\nComment=Vietnamese Input Method\n");
    chars_to_string(&v)
}


proof fn lemma_digit_char(d: int)
    requires 0 <= d < 10,
    ensures
        '0' <= spec_digit_char(d) <= '9',
        spec_digit_char(d) as int - '0' as int == d,
{
}

proof fn lemma_nat_text(n: nat)
    ensures
        spec_nat_text(n).len() >= 1,
        spec_all_digits(spec_nat_text(n)),
        spec_digits_value(spec_nat_text(n)) == n,
    decreases n,
{
    lemma_digit_char((n % 10) as int);
    if n < 10 {
        assert(spec_nat_text(n).drop_last() =~= Seq::<char>::empty());
        assert(spec_digits_value(Seq::<char>::empty()) == 0);
    } else {
        lemma_nat_text(n / 10);
        let t = spec_nat_text(n);
        assert(t.drop_last() =~= spec_nat_text(n / 10));
        assert(spec_all_digits(t)) by {
            assert forall|k: int| 0 <= k < t.len() implies '0' <= #[trigger] t[k] <= '9' by {
                if k < t.len() - 1 {
                    assert(t[k] == spec_nat_text(n / 10)[k]);
                }
            }
        }
    }
}

/// The decimal text of an `i32` reads back as that number, and can stand as
/// the value of a settings line.
pub proof fn lemma_int_text_parse(n: i32)
    ensures
        spec_parse_i32(spec_int_text(n as int)) == Some(n as int),
        spec_plain_word(spec_int_text(n as int)),
{
    let t = spec_int_text(n as int);
    if n < 0 {
        let m = (-(n as int)) as nat;
        lemma_nat_text(m);
        assert(t.drop_first() =~= spec_nat_text(m));
        assert(t[0] == '-');
        assert forall|k: int| 0 <= k < t.len() implies {
            &&& #[trigger] t[k] != '='
            &&& t[k] != '\n'
            &&& t[k] != '\r'
            &&& !crate::text::spec_is_white_space(t[k])
        } by {
            if k > 0 {
                assert(t[k] == spec_nat_text(m)[k - 1]);
            }
        }
    } else {
        lemma_nat_text(n as nat);
        assert('0' <= t[0] <= '9');
    }
}

/// What the window writes, it reads back; only whether the daemon starts at
/// login comes from the system.
pub proof fn lemma_settings_text_roundtrip(cfg: AppConfig, autostart_enabled: bool)
    ensures
        spec_load_settings(Some(spec_settings_text(cfg)), autostart_enabled)
            == (AppConfig { autostart: autostart_enabled, ..cfg }),
{
    let ls = spec_settings_lines(cfg);
    let num = spec_int_text(cfg.input_type as int);
    lemma_key_words();
    lemma_int_text_parse(cfg.input_type);
    lemma_bool_text_plain(cfg.modern);
    lemma_bool_text_plain(cfg.spelling);
    lemma_bool_text_plain(cfg.use_macro);
    lemma_bool_text_plain(cfg.autostart);
    lemma_split_setting("input_type"@, num);
    lemma_split_setting("modern"@, spec_bool_text(cfg.modern));
    lemma_split_setting("spelling"@, spec_bool_text(cfg.spelling));
    lemma_split_setting("use_macro"@, spec_bool_text(cfg.use_macro));
    lemma_split_setting("autostart"@, spec_bool_text(cfg.autostart));
    assert forall|k: int| 0 <= k < ls.len() implies spec_plain_line(#[trigger] ls[k]) by {}
    lemma_lines_of_join(ls);
    let c0 = AppConfig { input_type: 0, modern: true, spelling: true, use_macro: false, autostart: autostart_enabled };
    let c1 = spec_apply_setting(c0, ls[0]);
    let c2 = spec_apply_setting(c1, ls[1]);
    let c3 = spec_apply_setting(c2, ls[2]);
    let c4 = spec_apply_setting(c3, ls[3]);
    let c5 = spec_apply_setting(c4, ls[4]);
    assert(c1.input_type == cfg.input_type);
    assert(c5 == AppConfig { autostart: cfg.autostart, ..cfg });
    assert(ls.subrange(0, 1).drop_last() =~= ls.subrange(0, 0));
    assert(ls.subrange(0, 2).drop_last() =~= ls.subrange(0, 1));
    assert(ls.subrange(0, 3).drop_last() =~= ls.subrange(0, 2));
    assert(ls.subrange(0, 4).drop_last() =~= ls.subrange(0, 3));
    assert(ls.subrange(0, 5).drop_last() =~= ls.subrange(0, 4));
    assert(spec_apply_settings(c0, ls.subrange(0, 0)) == c0);
    assert(spec_apply_settings(c0, ls.subrange(0, 1)) == c1);
    assert(spec_apply_settings(c0, ls.subrange(0, 2)) == c2);
    assert(spec_apply_settings(c0, ls.subrange(0, 3)) == c3);
    assert(spec_apply_settings(c0, ls.subrange(0, 4)) == c4);
    assert(spec_apply_settings(c0, ls.subrange(0, 5)) == c5);
    assert(ls.subrange(0, 5) =~= ls);
}

} // verus!
