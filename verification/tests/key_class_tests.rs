use xxkey::datatype::is_number_key;
use xxkey::keycode::{
    KEY_0, KEY_1, KEY_2, KEY_3, KEY_4, KEY_5, KEY_6, KEY_7, KEY_8, KEY_9, KEY_A, KEY_C, KEY_EQUALS,
    KEY_G, KEY_K, KEY_MINUS, KEY_N, KEY_P, KEY_Q, KEY_T, KEY_U,
};
use xxkey::vietnamese::is_quick_telex_key;

#[test]
fn number_keys_are_the_ten_digits() {
    for k in [KEY_0, KEY_1, KEY_2, KEY_3, KEY_4, KEY_5, KEY_6, KEY_7, KEY_8, KEY_9] {
        assert!(is_number_key(k));
    }
    assert!(!is_number_key(KEY_EQUALS));
    assert!(!is_number_key(KEY_MINUS));
    assert!(!is_number_key(KEY_A));
}

#[test]
fn quick_telex_keys_include_u() {
    for k in [KEY_C, KEY_G, KEY_K, KEY_N, KEY_Q, KEY_P, KEY_T, KEY_U] {
        assert!(is_quick_telex_key(k));
    }
    assert!(!is_quick_telex_key(KEY_A));
}
