use lib::combo::{combo_to_string, parse_combo, KeyCombo};
use lib::daemon::combo_display;
use lib::keys::{
    code_to_label, key_code_matches, key_code_to_name, key_name_to_code, KEY_8, KEY_A,
    KEY_EQUAL, KEY_K, KEY_KPASTERISK, KEY_KPMINUS, KEY_KPPLUS, KEY_KPSLASH, KEY_MINUS, KEY_SLASH,
    KEY_SPACE,
};

fn combo(ctrl: bool, alt: bool, shift: bool, meta: bool, key_code: u16) -> KeyCombo {
    KeyCombo { ctrl, alt, shift, meta, key_code }
}

#[test]
fn key_names_and_aliases() {
    assert_eq!(key_name_to_code("1"), Some(2));
    assert_eq!(key_name_to_code("0"), Some(11));
    assert_eq!(key_name_to_code("q"), Some(16));
    assert_eq!(key_name_to_code("m"), Some(50));
    assert_eq!(key_name_to_code("slash"), Some(KEY_SLASH));
    assert_eq!(key_name_to_code("/"), Some(KEY_SLASH));
    assert_eq!(key_name_to_code("plus"), Some(KEY_EQUAL));
    assert_eq!(key_name_to_code("star"), Some(KEY_KPASTERISK));
    assert_eq!(key_name_to_code("*"), Some(KEY_KPASTERISK));
    assert_eq!(key_name_to_code("kpminus"), Some(KEY_KPMINUS));
    assert_eq!(key_name_to_code("space"), Some(KEY_SPACE));
    assert_eq!(key_name_to_code("code:53"), Some(53));
    assert_eq!(key_name_to_code("code:+7"), Some(7));
    assert_eq!(key_name_to_code("code:65535"), Some(65535));
    assert_eq!(key_name_to_code("code:65536"), None);
    assert_eq!(key_name_to_code("code:"), None);
    assert_eq!(key_name_to_code("code:-1"), None);
    assert_eq!(key_name_to_code("Slash"), None);
    assert_eq!(key_name_to_code(""), None);
    assert_eq!(key_name_to_code("f1"), None);
}

#[test]
fn labels_of_codes() {
    assert_eq!(code_to_label(KEY_A), "a");
    assert_eq!(code_to_label(KEY_SLASH), "slash");
    assert_eq!(code_to_label(KEY_KPASTERISK), "kpasterisk");
    assert_eq!(code_to_label(KEY_KPPLUS), "kpplus");
    assert_eq!(code_to_label(0), "code:0");
    assert_eq!(code_to_label(59), "code:59");
    assert_eq!(code_to_label(65535), "code:65535");
    assert_eq!(key_code_to_name(KEY_8), "8");
    assert_eq!(key_code_to_name(1234), "code:1234");
}

#[test]
fn every_label_names_its_code() {
    for code in 0..=u16::MAX {
        assert_eq!(key_name_to_code(&code_to_label(code)), Some(code));
    }
}

#[test]
fn alias_matching_both_ways() {
    assert!(key_code_matches(KEY_KPSLASH, KEY_SLASH));
    assert!(key_code_matches(KEY_SLASH, KEY_KPSLASH));
    assert!(key_code_matches(KEY_KPMINUS, KEY_MINUS));
    assert!(key_code_matches(KEY_KPPLUS, KEY_EQUAL));
    assert!(key_code_matches(KEY_KPASTERISK, KEY_8));
    assert!(key_code_matches(KEY_8, KEY_KPASTERISK));
    assert!(key_code_matches(KEY_K, KEY_K));
    assert!(!key_code_matches(KEY_K, KEY_SLASH));
    assert!(!key_code_matches(KEY_MINUS, KEY_EQUAL));
    for a in 0..200u16 {
        for b in 0..200u16 {
            assert_eq!(key_code_matches(a, b), key_code_matches(b, a));
        }
    }
}

#[test]
fn parse_default_combos() {
    assert_eq!(parse_combo("ctrl+alt+slash"), Some(combo(true, true, false, false, KEY_SLASH)));
    assert_eq!(parse_combo("ctrl+alt+8"), Some(combo(true, true, false, false, KEY_8)));
    assert_eq!(parse_combo("ctrl+alt+minus"), Some(combo(true, true, false, false, KEY_MINUS)));
    assert_eq!(parse_combo("ctrl+alt+equal"), Some(combo(true, true, false, false, KEY_EQUAL)));
}

#[test]
fn parse_combo_forms() {
    assert_eq!(parse_combo("  CTRL + Shift + M  "), Some(combo(true, false, true, false, 50)));
    assert_eq!(parse_combo("control+k"), Some(combo(true, false, false, false, KEY_K)));
    assert_eq!(parse_combo("super+f"), Some(combo(false, false, false, true, 33)));
    assert_eq!(parse_combo("win+f"), Some(combo(false, false, false, true, 33)));
    assert_eq!(parse_combo("alt+space"), Some(combo(false, true, false, false, KEY_SPACE)));
    assert_eq!(parse_combo("ctrl+alt+code:53"), Some(combo(true, true, false, false, 53)));
    assert_eq!(parse_combo("ctrl++k"), Some(combo(true, false, false, false, KEY_K)));
    assert_eq!(parse_combo("k+j"), Some(combo(false, false, false, false, 36)));
    assert_eq!(parse_combo("ctrl+\u{212A}"), Some(combo(true, false, false, false, KEY_K)));
    assert_eq!(parse_combo("ctrl+alt"), None);
    assert_eq!(parse_combo(""), None);
    assert_eq!(parse_combo("ctrl+bogus+k"), None);
    assert_eq!(parse_combo("ctrl+code:0"), None);
}

#[test]
fn combo_text_forms() {
    assert_eq!(combo_to_string(&combo(true, true, false, false, KEY_SLASH)), "ctrl+alt+slash");
    assert_eq!(combo_to_string(&combo(true, true, true, true, KEY_A)), "ctrl+alt+shift+meta+a");
    assert_eq!(combo_to_string(&combo(false, false, false, false, 99)), "code:99");
    assert_eq!(combo_to_string(&combo(false, false, false, true, KEY_KPMINUS)), "meta+kpminus");
}

#[test]
fn combo_text_reads_back() {
    for bits in 0..16u8 {
        for code in [1u16, 2, 13, 30, 53, 55, 57, 78, 98, 200, 4000, 65535] {
            let c = combo(bits & 1 != 0, bits & 2 != 0, bits & 4 != 0, bits & 8 != 0, code);
            assert_eq!(parse_combo(&combo_to_string(&c)), Some(c));
        }
        let c0 = combo(bits & 1 != 0, bits & 2 != 0, bits & 4 != 0, bits & 8 != 0, 0);
        assert_eq!(parse_combo(&combo_to_string(&c0)), None);
    }
}

#[test]
fn combos_shown_to_people() {
    assert_eq!(combo_display(&combo(true, true, false, false, KEY_SLASH)), "Ctrl+Alt+/");
    assert_eq!(combo_display(&combo(true, true, false, false, KEY_8)), "Ctrl+Alt+*");
    assert_eq!(combo_display(&combo(true, true, false, false, KEY_MINUS)), "Ctrl+Alt+-");
    assert_eq!(combo_display(&combo(true, true, false, false, KEY_EQUAL)), "Ctrl+Alt++");
    assert_eq!(combo_display(&combo(false, true, false, false, KEY_SPACE)), "Alt+Space");
    assert_eq!(combo_display(&combo(false, false, true, true, KEY_KPASTERISK)), "Shift+Meta+KP*");
    assert_eq!(combo_display(&combo(false, false, false, false, KEY_KPSLASH)), "kp/");
    assert_eq!(combo_display(&combo(false, false, false, false, KEY_KPPLUS)), "KP+");
    assert_eq!(combo_display(&combo(false, false, false, false, KEY_KPMINUS)), "kp-");
}
