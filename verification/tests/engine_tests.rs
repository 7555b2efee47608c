use xxkey::convert::{convert_util, ConvertOptions};
use xxkey::datatype::{
    is_mark_key, ExtCode, HookCode, InputType, KeyEvent, KeyEventState, CAPS_MASK, CHAR_CODE_MASK,
};
use xxkey::engine::Engine;
use xxkey::keycode::{
    KEY_0, KEY_1, KEY_2, KEY_3, KEY_4, KEY_5, KEY_6, KEY_7, KEY_8, KEY_9, KEY_A, KEY_B,
    KEY_BACKQUOTE, KEY_BACK_SLASH, KEY_C, KEY_COMMA, KEY_D, KEY_DELETE, KEY_DOT, KEY_E, KEY_EMPTY,
    KEY_EQUALS, KEY_F, KEY_G, KEY_H, KEY_I, KEY_J, KEY_K, KEY_L, KEY_LEFT_BRACKET, KEY_M,
    KEY_MINUS, KEY_N, KEY_O, KEY_P, KEY_Q, KEY_QUOTE, KEY_R, KEY_RIGHT_BRACKET, KEY_S,
    KEY_SEMICOLON, KEY_SLASH, KEY_SPACE, KEY_T, KEY_TAB, KEY_U, KEY_V, KEY_W, KEY_X, KEY_Y, KEY_Z,
};
use xxkey::macro_feature::MacroManager;
use xxkey::smart_switch::SmartSwitchKey;
use xxkey::vietnamese::{
    character_to_key_code, code_table, consonant_d, key_code_to_character, quick_telex, vowel_a,
    vowel_w, CODE_TABLE_COUNT,
};

// ---------------------------------------------------------------------------
// Spelling tables
// ---------------------------------------------------------------------------

#[test]
fn code_tables_all_five_present() {
    assert_eq!(CODE_TABLE_COUNT, 5);
    for t in 0..5 {
        assert!(!code_table(t, KEY_A as u32).unwrap().is_empty());
    }
}

#[test]
fn unicode_precomposed_a() {
    // Unicode table: KEY_A -> {Â,â,Ă,ă,Á,á,À,à,Ả,ả,Ã,ã,Ạ,ạ}
    let v = code_table(0, KEY_A as u32).unwrap();
    assert_eq!(v[0], 0x00C2);
    assert_eq!(v[1], 0x00E2);
    assert_eq!(v[4], 0x00C1);
    assert_eq!(v[7], 0x00E0);
    assert_eq!(v[13], 0x1EA1);
}

#[test]
fn key_code_roundtrip() {
    assert_eq!(key_code_to_character(KEY_A as u32), 'a' as u16);
    assert_eq!(key_code_to_character(KEY_A as u32 | CAPS_MASK), 'A' as u16);
    assert_eq!(key_code_to_character(KEY_SPACE as u32), ' ' as u16);
    assert_eq!(key_code_to_character(0xFFFF), 0);
}

#[test]
fn quick_telex_lookup() {
    assert_eq!(quick_telex(KEY_C), Some(vec![KEY_C, KEY_H]));
    assert_eq!(quick_telex(KEY_U), Some(vec![KEY_U, KEY_U]));
    assert_eq!(quick_telex(KEY_A), None);
}

#[test]
fn vowel_tables_consistent_lengths() {
    assert!(vowel_w().len() >= vowel_a().len());
}

#[test]
fn consonant_d_contains_plain_d() {
    assert_eq!(consonant_d().last(), Some(&vec![KEY_D]));
}

#[test]
fn character_and_key_code_invert_each_other() {
    for ch in ['a', 'z', 'A', 'Z', '0', '9', ' ', ',', '.', '[', ']'] {
        let k = character_to_key_code(ch as u32).expect("mapped character");
        assert_eq!(key_code_to_character(k), ch as u16);
    }
    assert_eq!(character_to_key_code(0x1EA1), None);
}

#[test]
fn code_table_out_of_range_is_none() {
    assert_eq!(code_table(5, KEY_A as u32), None);
    assert_eq!(code_table(0, 0xFFFF), None);
}

// ---------------------------------------------------------------------------
// Engine, driven through a simulated screen
// ---------------------------------------------------------------------------

/// ASCII character to key code, as the test harness of the engine types them.
fn char_to_key(ch: char) -> u16 {
    match ch {
        'a' => KEY_A, 'b' => KEY_B, 'c' => KEY_C, 'd' => KEY_D,
        'e' => KEY_E, 'f' => KEY_F, 'g' => KEY_G, 'h' => KEY_H,
        'i' => KEY_I, 'j' => KEY_J, 'k' => KEY_K, 'l' => KEY_L,
        'm' => KEY_M, 'n' => KEY_N, 'o' => KEY_O, 'p' => KEY_P,
        'q' => KEY_Q, 'r' => KEY_R, 's' => KEY_S, 't' => KEY_T,
        'u' => KEY_U, 'v' => KEY_V, 'w' => KEY_W, 'x' => KEY_X,
        'y' => KEY_Y, 'z' => KEY_Z,
        '1' => KEY_1, '2' => KEY_2, '3' => KEY_3, '4' => KEY_4,
        '5' => KEY_5, '6' => KEY_6, '7' => KEY_7, '8' => KEY_8,
        '9' => KEY_9, '0' => KEY_0,
        ' ' => KEY_SPACE,
        ',' => KEY_COMMA, '.' => KEY_DOT, ';' => KEY_SEMICOLON,
        ':' => KEY_SEMICOLON, '/' => KEY_SLASH, '?' => KEY_SLASH,
        '-' => KEY_MINUS, '=' => KEY_EQUALS, '`' => KEY_BACKQUOTE,
        '~' => KEY_BACKQUOTE, '[' => KEY_LEFT_BRACKET,
        '{' => KEY_LEFT_BRACKET, ']' => KEY_RIGHT_BRACKET,
        '}' => KEY_RIGHT_BRACKET, '\'' => KEY_QUOTE, '"' => KEY_QUOTE,
        '\\' => KEY_BACK_SLASH, '|' => KEY_BACK_SLASH,
        '_' => KEY_DELETE, '\t' => KEY_TAB,
        _ => KEY_EMPTY,
    }
}

/// Types `text` and returns the screen, in typing order.
fn type_text(eng: &mut Engine, text: &str) -> Vec<u16> {
    let mut screen: Vec<u16> = Vec::new();
    for c in text.chars() {
        let key = char_to_key(c);
        if key == KEY_EMPTY {
            continue;
        }
        let state = eng
            .handle_key(KeyEvent::Keyboard, KeyEventState::KeyDown, key, 0, false)
            .clone();
        if state.code == HookCode::DoNothing {
            if state.ext_code == ExtCode::Delete {
                screen.pop();
                continue;
            }
            let ch = key_code_to_character(key as u32);
            if ch != 0 {
                screen.push(ch);
            }
            if state.ext_code == ExtCode::WordBreak {
                eng.start_new_session();
            }
            continue;
        }
        let n = (state.backspace_count as usize).min(screen.len());
        screen.truncate(screen.len() - n);
        for i in (0..state.new_char_count as usize).rev() {
            let c = state.char_data[i];
            let ch = if c & CHAR_CODE_MASK != 0 {
                (c & 0xFFFF) as u16
            } else {
                let k = key_code_to_character(c);
                if k == 0 { c as u16 } else { k }
            };
            if ch != 0 {
                screen.push(ch);
            }
        }
        if state.code == HookCode::Restore && is_mark_key(eng.cfg.input_type, key) {
            let ch = key_code_to_character(key as u32);
            if ch != 0 {
                screen.push(ch);
            }
        }
        if state.code == HookCode::RestoreAndStartNewSession {
            eng.start_new_session();
        }
    }
    screen
}

fn make_engine(input_type: InputType, modern: bool) -> Engine {
    let mut eng = Engine::default();
    eng.cfg.input_type = input_type;
    eng.cfg.use_modern_orthography = modern;
    eng
}

fn screen_text(screen: &[u16]) -> String {
    screen.iter().map(|&c| char::from_u32(c as u32).unwrap()).collect()
}

fn typed(input_type: InputType, modern: bool, keys: &str) -> String {
    let mut eng = make_engine(input_type, modern);
    screen_text(&type_text(&mut eng, keys))
}

#[test]
fn test_texx() {
    let mut eng = make_engine(InputType::Telex, true);
    let screen = type_text(&mut eng, "texx");
    let got = screen.iter().map(|&c| char::from_u32(c as u32).unwrap()).collect::<String>();
    assert_eq!(got, "tex");
}

#[test]
fn telex_circumflex_and_marks() {
    assert_eq!(typed(InputType::Telex, true, "aa"), "â");
    assert_eq!(typed(InputType::Telex, true, "aas"), "ấ");
    assert_eq!(typed(InputType::Telex, true, "dd"), "đ");
    assert_eq!(typed(InputType::Telex, true, "vieetj"), "việt");
    assert_eq!(typed(InputType::Telex, true, "nam"), "nam");
}

#[test]
fn telex_words_with_break() {
    assert_eq!(typed(InputType::Telex, true, "xin chaof"), "xin chào");
    assert_eq!(typed(InputType::Telex, true, "tieengs vieetj"), "tiếng việt");
}

#[test]
fn telex_horn_and_breve() {
    assert_eq!(typed(InputType::Telex, true, "uw"), "ư");
    assert_eq!(typed(InputType::Telex, true, "aw"), "ă");
    assert_eq!(typed(InputType::Telex, true, "ow"), "ơ");
}

#[test]
fn telex_modern_and_old_orthography() {
    assert_eq!(typed(InputType::Telex, true, "hoaf"), "hoà");
    assert_eq!(typed(InputType::Telex, false, "hoaf"), "hòa");
}

#[test]
fn vni_numbers_place_marks() {
    assert_eq!(typed(InputType::Vni, true, "a6"), "â");
    assert_eq!(typed(InputType::Vni, true, "d9"), "đ");
    assert_eq!(typed(InputType::Vni, true, "a1"), "á");
}

#[test]
fn delete_key_removes_last_character() {
    assert_eq!(typed(InputType::Telex, true, "ab_"), "a");
    assert_eq!(typed(InputType::Telex, true, "aa_"), "");
}

#[test]
fn z_removes_the_mark() {
    assert_eq!(typed(InputType::Telex, true, "asz"), "a");
}

#[test]
fn plain_letter_starts_a_word_as_typed() {
    let mut eng = Engine::default();
    let st = eng.handle_key(KeyEvent::Keyboard, KeyEventState::KeyDown, KEY_B, 1, false).clone();
    assert_eq!(st.code, HookCode::DoNothing);
    assert_eq!(st.backspace_count, 0);
    assert_eq!(st.new_char_count, 0);
    assert_eq!(st.ext_code, ExtCode::NormalKey);
    assert_eq!(eng.len(), 1);
    assert_eq!(eng.word(0), KEY_B as u32 | CAPS_MASK);
}

#[test]
fn engine_reset_clears_the_word() {
    let mut eng = make_engine(InputType::Telex, true);
    type_text(&mut eng, "vie");
    assert_eq!(eng.len(), 3);
    eng.reset();
    assert_eq!(eng.len(), 0);
    let st = eng.handle_key(KeyEvent::Keyboard, KeyEventState::KeyDown, KEY_A, 0, false).clone();
    assert_eq!(st.code, HookCode::DoNothing);
}

#[test]
fn engine_start_new_session_keeps_config() {
    let mut eng = make_engine(InputType::Vni, false);
    type_text(&mut eng, "a");
    eng.start_new_session();
    assert_eq!(eng.len(), 0);
    assert_eq!(eng.cfg.input_type, InputType::Vni);
}

#[test]
fn word_break_key_passes_through() {
    let mut eng = make_engine(InputType::Telex, true);
    type_text(&mut eng, "ab");
    let st = eng.handle_key(KeyEvent::Keyboard, KeyEventState::KeyDown, KEY_COMMA, 0, false).clone();
    assert_eq!(st.code, HookCode::DoNothing);
    assert_eq!(st.backspace_count, 0);
    assert_eq!(st.new_char_count, 0);
    assert_eq!(eng.len(), 0);
}

#[test]
fn delete_key_reports_delete() {
    let mut eng = make_engine(InputType::Telex, true);
    type_text(&mut eng, "ab");
    let st = eng.handle_key(KeyEvent::Keyboard, KeyEventState::KeyDown, KEY_DELETE, 0, false).clone();
    assert!(st.ext_code == ExtCode::Delete || st.ext_code == ExtCode::NoEmptyChar);
}

#[test]
fn space_leaves_the_word_on_screen() {
    let mut eng = make_engine(InputType::Telex, true);
    type_text(&mut eng, "ab");
    let before = eng.len();
    let st = eng.handle_key(KeyEvent::Keyboard, KeyEventState::KeyDown, KEY_SPACE, 0, false).clone();
    assert_eq!(st.code, HookCode::DoNothing);
    assert_eq!(eng.len(), before);
}

#[test]
fn get_character_code_in_unicode() {
    let mut eng = Engine::default();
    // a with circumflex, as the engine marks it
    let code = eng.get_character_code(KEY_A as u32 | 0x2_0000);
    assert_eq!(code & 0xFFFF, 0x00E2);
}

#[test]
fn word_reads_back_typed_keys() {
    let mut eng = make_engine(InputType::Telex, true);
    type_text(&mut eng, "b");
    assert_eq!(eng.word(0) & 0xFFFF, KEY_B as u32);
    assert_eq!(eng.word(40), 0);
}

// ---------------------------------------------------------------------------
// Text conversion
// ---------------------------------------------------------------------------

#[test]
fn test_remove_mark() {
    let opts = ConvertOptions { from_code: 0, to_code: 0, remove_mark: true, ..Default::default() };
    let out = convert_util("Việt Nam", &opts);
    assert_eq!(out, "Viet Nam");
}

#[test]
fn test_casing_options() {
    let opts = ConvertOptions { from_code: 0, to_code: 0, to_all_caps: true, ..Default::default() };
    let out = convert_util("xin chào", &opts);
    assert_eq!(out, "XIN CHÀO");

    let opts_lower = ConvertOptions { from_code: 0, to_code: 0, to_all_non_caps: true, ..Default::default() };
    let out_lower = convert_util("VIỆT NAM", &opts_lower);
    assert_eq!(out_lower, "việt nam");
}

#[test]
fn convert_plain_ascii_unchanged() {
    let opts = ConvertOptions::default();
    assert_eq!(convert_util("hello, world", &opts), "hello, world");
    assert_eq!(convert_util("", &opts), "");
}

#[test]
fn convert_caps_each_word() {
    let opts = ConvertOptions { to_caps_each_word: true, ..Default::default() };
    assert_eq!(convert_util("xin chào bạn", &opts), "Xin Chào Bạn");
}

#[test]
fn convert_caps_first_letter() {
    let opts = ConvertOptions { to_caps_first_letter: true, ..Default::default() };
    assert_eq!(convert_util("xin chào. bạn", &opts), "Xin chào. Bạn");
}

// ---------------------------------------------------------------------------
// Macros
// ---------------------------------------------------------------------------

#[test]
fn test_add_and_query_macro() {
    let mut mgr = MacroManager::new();
    mgr.add_macro("btw", "by the way", 0);
    assert_eq!(mgr.len(), 1);
    assert!(mgr.has_macro("btw", 0));
    assert!(!mgr.has_macro("omg", 0));

    assert!(mgr.delete_macro("btw", 0));
    assert_eq!(mgr.len(), 0);
}

#[test]
fn test_unikey_text_roundtrip() {
    let mut mgr = MacroManager::new();
    mgr.add_macro("btw", "by the way", 0);
    mgr.add_macro("omg", "oh my god", 0);

    let exported = mgr.save_to_unikey_text();
    assert!(exported.contains("btw:by the way"));
    assert!(exported.contains("omg:oh my god"));

    let mut mgr2 = MacroManager::new();
    mgr2.read_from_unikey_text(&exported, false, 0);
    assert_eq!(mgr2.len(), 2);
    assert!(mgr2.has_macro("btw", 0));
    assert!(mgr2.has_macro("omg", 0));
}

#[test]
fn test_binary_roundtrip() {
    let mut mgr = MacroManager::new();
    mgr.add_macro("vn", "Việt Nam", 0);
    let bytes = mgr.get_binary_save_data();

    let mut mgr2 = MacroManager::new();
    mgr2.init_from_binary(&bytes, 0);
    assert_eq!(mgr2.len(), 1);
    assert!(mgr2.has_macro("vn", 0));
}

#[test]
fn macro_text_skips_header_comments_and_nameless_lines() {
    let text = ";header line\n  ;comment\n\n:no name\nnocolon\n  hi : hello there  \r\nk:a:b\n";
    let mut mgr = MacroManager::new();
    mgr.read_from_unikey_text(text, false, 0);
    assert_eq!(mgr.len(), 2);
    assert!(mgr.has_macro("hi", 0));
    assert!(mgr.has_macro("k", 0));
    let all = mgr.get_all_macros();
    let hi = all.iter().find(|m| m.1 == "hi").unwrap();
    assert_eq!(hi.2, "hello there");
    let k = all.iter().find(|m| m.1 == "k").unwrap();
    assert_eq!(k.2, "a:b");
}

#[test]
fn macro_text_append_keeps_existing() {
    let mut mgr = MacroManager::new();
    mgr.add_macro("a1", "one", 0);
    mgr.read_from_unikey_text("x:y\n", true, 0);
    assert_eq!(mgr.len(), 2);
    mgr.read_from_unikey_text("x:y\n", false, 0);
    assert_eq!(mgr.len(), 1);
    assert!(!mgr.has_macro("a1", 0));
}

#[test]
fn macro_binary_invalid_utf8_stops_reading() {
    // one macro whose name bytes are not UTF-8
    let bytes = vec![1u8, 0, 1, 0xFF, 1, 0, b'x'];
    let mut mgr = MacroManager::new();
    mgr.init_from_binary(&bytes, 0);
    assert_eq!(mgr.len(), 0);
}

#[test]
fn macro_binary_too_short_is_empty() {
    let mut mgr = MacroManager::new();
    mgr.add_macro("a", "b", 0);
    mgr.init_from_binary(&[1u8], 0);
    assert!(mgr.is_empty());
}

#[test]
fn macro_delete_missing_is_false() {
    let mut mgr = MacroManager::new();
    assert!(!mgr.delete_macro("nothing", 0));
    mgr.add_macro("a", "b", 0);
    mgr.clear();
    assert!(mgr.is_empty());
}

#[test]
fn macro_replacement_overwrites() {
    let mut mgr = MacroManager::new();
    mgr.add_macro("vn", "Viet Nam", 0);
    mgr.add_macro("vn", "Việt Nam", 0);
    assert_eq!(mgr.len(), 1);
    let all = mgr.get_all_macros();
    assert_eq!(all[0].2, "Việt Nam");
}

// ---------------------------------------------------------------------------
// Per-application input method
// ---------------------------------------------------------------------------

#[test]
fn test_smart_switch_workflow() {
    let mut sw = SmartSwitchKey::new();
    let status = sw.get_app_input_method_status("com.apple.Terminal", 1);
    assert_eq!(status, -1);
    let status2 = sw.get_app_input_method_status("com.apple.Terminal", 0);
    assert_eq!(status2, 1);
    sw.set_app_input_method_status("com.apple.Terminal", 0);
    let status3 = sw.get_app_input_method_status("com.apple.Terminal", 1);
    assert_eq!(status3, 0);
}

#[test]
fn test_smart_switch_binary_roundtrip() {
    let mut sw = SmartSwitchKey::new();
    sw.set_app_input_method_status("com.sublimetext.4", 1);
    sw.set_app_input_method_status("com.microsoft.VSCode", 0);
    let bytes = sw.get_binary_save_data();
    let mut sw2 = SmartSwitchKey::new();
    sw2.init_from_binary(&bytes);
    assert_eq!(sw2.get_app_input_method_status("com.sublimetext.4", 0), 1);
    assert_eq!(sw2.get_app_input_method_status("com.microsoft.VSCode", 1), 0);
}

#[test]
fn smart_switch_clear_forgets() {
    let mut sw = SmartSwitchKey::new();
    sw.set_app_input_method_status("app", 1);
    sw.clear();
    assert_eq!(sw.get_app_input_method_status("app", 0), -1);
}

#[test]
fn smart_switch_empty_data_is_two_zero_bytes() {
    let sw = SmartSwitchKey::new();
    let bytes = sw.get_binary_save_data();
    assert_eq!(bytes, vec![0u8, 0u8]);
}

#[test]
fn test_trace_words() {
    let words: &[(&str, &[char])] = &[
        ("saf", &['s', 'a', 'f']),
        ("hoc", &['h', 'o', 'c']),
        ("ddieesm", &['d', 'd', 'i', 'e', 'e', 's', 'm']),
        ("chuaas", &['c', 'h', 'u', 'a', 'a', 's']),
        ("hoas", &['h', 'o', 'a', 's']),
        ("tuwongf", &['t', 'u', 'w', 'o', 'n', 'g', 'f']),
        ("dieemj", &['d', 'i', 'e', 'e', 'm', 'j']),
        ("hocj", &['h', 'o', 'c', 'j']),
    ];
    let mut eng = make_engine(InputType::Telex, true);
    for (label, chars) in words {
        eng.reset();
        println!("--- {} ---", label);
        for &c in *chars {
            let key = char_to_key(c);
            let state = eng.handle_key(KeyEvent::Keyboard, KeyEventState::KeyDown, key, 0, false);
            let mut char_strs = Vec::new();
            for i in (0..state.new_char_count as usize).rev() {
                let val = state.char_data[i];
                let ch = if val & CHAR_CODE_MASK != 0 {
                    (val & 0xFFFF) as u16
                } else {
                    key_code_to_character(val)
                };
                char_strs.push(char::from_u32(ch as u32).unwrap_or('?'));
            }
            let chars_out: String = char_strs.iter().collect();
            println!("  '{}' -> code={:?} bpc={} chars=\"{}\" ext={:?}",
                     c, state.code, state.backspace_count, chars_out, state.ext_code);
        }
    }
}

#[test]
fn convert_all_caps_keeps_capitals() {
    let opts = ConvertOptions { from_code: 0, to_code: 0, to_all_caps: true, ..Default::default() };
    assert_eq!(convert_util("VIỆT NAM", &opts), "VIỆT NAM");
    assert_eq!(convert_util("Việt Nam", &opts), "VIỆT NAM");
}

#[test]
fn convert_without_options_keeps_case() {
    let opts = ConvertOptions::default();
    assert_eq!(convert_util("Việt Nam", &opts), "Việt Nam");
    assert_eq!(convert_util("VIỆT", &opts), "VIỆT");
    assert_eq!(convert_util("Đà", &opts), "Đà");
}

#[test]
fn smart_switch_empty_bundle_id_is_registered() {
    let mut sw = SmartSwitchKey::new();
    assert_eq!(sw.get_app_input_method_status("", 1), -1);
    assert_eq!(sw.get_app_input_method_status("", 0), 1);
}

#[test]
fn delete_after_reset_edits_nothing() {
    let mut eng = make_engine(InputType::Telex, true);
    eng.reset();
    let st = eng.handle_key(KeyEvent::Keyboard, KeyEventState::KeyDown, KEY_DELETE, 0, false).clone();
    assert_eq!(st.code, HookCode::DoNothing);
    assert_eq!(st.backspace_count, 0);
    assert_eq!(st.new_char_count, 0);
    assert_eq!(st.ext_code, ExtCode::Delete);
    assert_eq!(eng.len(), 0);
}

#[test]
fn delete_shortens_the_word_by_one() {
    let mut eng = make_engine(InputType::Telex, true);
    type_text(&mut eng, "tho");
    assert_eq!(eng.len(), 3);
    eng.handle_key(KeyEvent::Keyboard, KeyEventState::KeyDown, KEY_DELETE, 0, false);
    assert_eq!(eng.len(), 2);
}

#[test]
fn w_puts_a_horn_and_a_second_w_takes_it_off() {
    assert_eq!(typed(InputType::Telex, true, "tuw"), "tư");
    let mut eng = make_engine(InputType::Telex, true);
    type_text(&mut eng, "tuw");
    let st = eng.handle_key(KeyEvent::Keyboard, KeyEventState::KeyDown, KEY_W, 0, false).clone();
    assert_eq!(st.code, HookCode::Restore);
    assert_eq!(st.backspace_count, 1);
    assert_eq!(st.new_char_count, 1);
    assert_eq!(eng.word(1), KEY_U as u32);
}

#[test]
fn misspelled_word_takes_keys_as_typed() {
    assert_eq!(typed(InputType::Telex, true, "kts"), "kts");
}

#[test]
fn quick_start_consonant_on_space() {
    let mut eng = make_engine(InputType::Telex, true);
    eng.cfg.quick_start_consonant = true;
    type_text(&mut eng, "fa");
    let st = eng.handle_key(KeyEvent::Keyboard, KeyEventState::KeyDown, KEY_SPACE, 0, false).clone();
    assert_eq!(st.code, HookCode::Restore);
    assert_eq!(st.backspace_count, 2);
    assert_eq!(st.new_char_count, 3);
    assert_eq!(eng.len(), 3);
    let mut eng2 = make_engine(InputType::Telex, true);
    eng2.cfg.quick_start_consonant = true;
    assert_eq!(screen_text(&type_text(&mut eng2, "fa ")), "pha");
}

#[test]
fn quick_end_consonant_on_space() {
    let mut eng = make_engine(InputType::Telex, true);
    eng.cfg.quick_end_consonant = true;
    type_text(&mut eng, "tag");
    let st = eng.handle_key(KeyEvent::Keyboard, KeyEventState::KeyDown, KEY_SPACE, 0, false).clone();
    assert_eq!(st.code, HookCode::Restore);
    assert_eq!(st.backspace_count, 1);
    assert_eq!(st.new_char_count, 2);
    assert_eq!(eng.len(), 4);
    let mut eng2 = make_engine(InputType::Telex, true);
    eng2.cfg.quick_end_consonant = true;
    assert_eq!(screen_text(&type_text(&mut eng2, "tag ")), "tang");
}

#[test]
fn modern_and_old_orthography_place_the_mark() {
    assert_eq!(typed(InputType::Telex, true, "toaf"), "toà");
    assert_eq!(typed(InputType::Telex, false, "toaf"), "tòa");
}

#[test]
fn delete_after_space_brings_the_word_back() {
    let mut eng = make_engine(InputType::Telex, true);
    type_text(&mut eng, "tho");
    eng.handle_key(KeyEvent::Keyboard, KeyEventState::KeyDown, KEY_SPACE, 0, false);
    eng.handle_key(KeyEvent::Keyboard, KeyEventState::KeyDown, KEY_DELETE, 0, false);
    assert_eq!(eng.len(), 3);
    assert_eq!(eng.word(0), KEY_T as u32);
    assert_eq!(eng.word(1), KEY_H as u32);
    assert_eq!(eng.word(2), KEY_O as u32);
}

fn key_down(e: &mut Engine, key: u16) -> xxkey::datatype::HookState {
    e.handle_key(KeyEvent::Keyboard, KeyEventState::KeyDown, key, 0, false).clone()
}

#[test]
fn aa_gives_a_circumflex() {
    let mut e = Engine::default();
    assert_eq!(key_down(&mut e, KEY_A).code, HookCode::DoNothing);
    let r = key_down(&mut e, KEY_A);
    assert_eq!(r.code, HookCode::WillProcess);
    assert_eq!(r.backspace_count, 1);
    assert_eq!(r.new_char_count, 1);
    assert_eq!(r.char_data[0], 0x00E2 | CHAR_CODE_MASK);
    assert_eq!(e.len(), 1);
}

#[test]
fn dd_gives_d_stroke() {
    let mut e = Engine::default();
    key_down(&mut e, KEY_D);
    let r = key_down(&mut e, KEY_D);
    assert_eq!(r.code, HookCode::WillProcess);
    assert_eq!(r.backspace_count, 1);
    assert_eq!(r.new_char_count, 1);
    assert_eq!(r.char_data[0], 0x0111 | CHAR_CODE_MASK);
    assert_eq!(e.len(), 1);
}

#[test]
fn mark_on_a_circumflex() {
    let mut e = Engine::default();
    key_down(&mut e, KEY_A);
    key_down(&mut e, KEY_A);
    let r = key_down(&mut e, KEY_S);
    assert_eq!(r.code, HookCode::WillProcess);
    assert_eq!(r.backspace_count, 1);
    assert_eq!(r.new_char_count, 1);
    assert_eq!(r.char_data[0], 0x1EA5 | CHAR_CODE_MASK);
    assert_eq!(e.len(), 1);
}

#[test]
fn quick_telex_cc_gives_ch() {
    let mut e = Engine::default();
    e.cfg.quick_telex = true;
    assert_eq!(key_down(&mut e, KEY_C).code, HookCode::DoNothing);
    let r = key_down(&mut e, KEY_C);
    assert_eq!(r.code, HookCode::WillProcess);
    assert_eq!(r.backspace_count, 1);
    assert_eq!(r.new_char_count, 2);
    assert_eq!(r.char_data[1], KEY_C as u32);
    assert_eq!(r.char_data[0], KEY_H as u32);
    assert_eq!(e.len(), 2);
    assert_eq!(e.word(1), KEY_H as u32);
}

#[test]
fn quick_start_fa_space_gives_pha() {
    let mut e = Engine::default();
    e.cfg.quick_start_consonant = true;
    assert_eq!(key_down(&mut e, KEY_F).code, HookCode::DoNothing);
    assert_eq!(key_down(&mut e, KEY_A).code, HookCode::DoNothing);
    let r = key_down(&mut e, KEY_SPACE);
    assert_eq!(r.code, HookCode::Restore);
    assert_eq!(r.backspace_count, 2);
    assert_eq!(r.new_char_count, 3);
    assert_eq!(r.char_data[2], KEY_P as u32);
    assert_eq!(r.char_data[1], KEY_H as u32);
    assert_eq!(r.char_data[0], KEY_A as u32);
    assert_eq!(e.len(), 3);
}

#[test]
fn delete_after_te_leaves_t() {
    let mut e = Engine::default();
    key_down(&mut e, KEY_T);
    key_down(&mut e, KEY_E);
    let r = key_down(&mut e, KEY_DELETE);
    assert_eq!(r.code, HookCode::DoNothing);
    assert_eq!(r.ext_code, ExtCode::Delete);
    assert_eq!(r.backspace_count, 0);
    assert_eq!(r.new_char_count, 0);
    assert_eq!(e.len(), 1);
    assert_eq!(e.word(0), KEY_T as u32);
}

#[test]
fn delete_after_space_reopens_ta() {
    let mut e = Engine::default();
    e.cfg.restore_if_wrong_spelling = false;
    key_down(&mut e, KEY_T);
    key_down(&mut e, KEY_A);
    key_down(&mut e, KEY_SPACE);
    let r = key_down(&mut e, KEY_DELETE);
    assert_eq!(r.code, HookCode::DoNothing);
    assert_eq!(r.ext_code, ExtCode::Delete);
    assert_eq!(e.len(), 2);
    assert_eq!(e.word(0), KEY_T as u32);
    assert_eq!(e.word(1), KEY_A as u32);
}

#[test]
fn texx_restores_the_e() {
    let mut e = Engine::default();
    key_down(&mut e, KEY_T);
    key_down(&mut e, KEY_E);
    key_down(&mut e, KEY_X);
    let r = key_down(&mut e, KEY_X);
    assert_eq!(r.code, HookCode::Restore);
    assert_eq!(r.backspace_count, 1);
    assert_eq!(r.new_char_count, 1);
    assert_eq!(e.len(), 3);
    assert_eq!(e.word(1), KEY_E as u32);
    assert_eq!(e.word(2), KEY_X as u32);
}

#[test]
fn toaf_modern_and_old_state() {
    let mut e1 = Engine::default();
    let mut e2 = Engine::default();
    e2.cfg.use_modern_orthography = false;
    for k in [KEY_T, KEY_O, KEY_A] {
        key_down(&mut e1, k);
        key_down(&mut e2, k);
    }
    let r1 = key_down(&mut e1, KEY_F);
    let r2 = key_down(&mut e2, KEY_F);
    assert_eq!(r1.code, HookCode::WillProcess);
    assert_eq!(r1.backspace_count, 2);
    assert_eq!(r1.new_char_count, 2);
    assert_eq!(r1.char_data[0], 0x00E0 | CHAR_CODE_MASK);
    assert_eq!(r2.code, HookCode::WillProcess);
    assert_eq!(r2.backspace_count, 2);
    assert_eq!(r2.new_char_count, 2);
    assert_eq!(r2.char_data[1], 0x00F2 | CHAR_CODE_MASK);
}

#[test]
fn aw_gives_a_breve() {
    let mut e = Engine::default();
    key_down(&mut e, KEY_A);
    let r = key_down(&mut e, KEY_W);
    assert_eq!(r.code, HookCode::WillProcess);
    assert_eq!(r.backspace_count, 1);
    assert_eq!(r.new_char_count, 1);
    assert_eq!(e.len(), 1);
    assert_eq!(screen_text(&type_text(&mut Engine::default(), "aw")), "ă");
}

#[test]
fn plain_letter_into_a_word_is_added() {
    let mut e = Engine::default();
    key_down(&mut e, KEY_T);
    let r = key_down(&mut e, KEY_H);
    assert_eq!(r.code, HookCode::DoNothing);
    assert_eq!(r.backspace_count, 0);
    assert_eq!(r.new_char_count, 0);
    assert_eq!(r.ext_code, ExtCode::NormalKey);
    assert_eq!(e.len(), 2);
    assert_eq!(e.word(1), KEY_H as u32);
}

#[test]
fn delete_after_reset_with_pending_space() {
    let mut e = Engine::default();
    key_down(&mut e, KEY_T);
    key_down(&mut e, KEY_SPACE);
    e.reset();
    let r = key_down(&mut e, KEY_DELETE);
    assert_eq!(r.code, HookCode::DoNothing);
    assert_eq!(r.ext_code, ExtCode::Delete);
    assert_eq!(r.backspace_count, 0);
    assert_eq!(r.new_char_count, 0);
    assert_eq!(e.len(), 0);
}
