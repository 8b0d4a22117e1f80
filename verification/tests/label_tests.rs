use ime_cursor_indicator::label::{
    is_japanese_label, key_names_input_mode, label_from_lowercase_engine,
    label_from_lowercase_symbol_text, label_for_property_update, label_from_engine, label_from_symbol,
    tray_icon_name,
};

#[test]
fn japanese_engines_show_hiragana() {
    assert_eq!(label_from_engine("mozc-jp"), "\u{3042}");
    assert_eq!(label_from_engine("anthy"), "\u{3042}");
    assert_eq!(label_from_engine("kkc"), "\u{3042}");
    assert_eq!(label_from_engine("m17n:ja:kana"), "\u{3042}");
    assert_eq!(label_from_engine("some-japanese-engine"), "\u{3042}");
}

#[test]
fn engine_names_are_matched_case_insensitively() {
    assert_eq!(label_from_engine("Mozc-JP"), "\u{3042}");
    assert_eq!(label_from_engine("ANTHY"), "\u{3042}");
    assert_eq!(label_from_engine("Japanese"), "\u{3042}");
}

#[test]
fn other_engines_show_latin() {
    assert_eq!(label_from_engine("xkb:us::eng"), "A");
    assert_eq!(label_from_engine(""), "A");
    assert_eq!(label_from_engine("pinyin"), "A");
}

#[test]
fn kana_symbols_show_hiragana() {
    assert_eq!(label_from_symbol("\u{3042}"), "\u{3042}");
    assert_eq!(label_from_symbol("\u{30A2}"), "\u{3042}");
    assert_eq!(label_from_symbol("\u{FF71}"), "\u{3042}");
}

#[test]
fn latin_symbols_show_latin() {
    assert_eq!(label_from_symbol("A"), "A");
    assert_eq!(label_from_symbol("_"), "A");
}

#[test]
fn symbol_text_heuristics() {
    assert_eq!(label_from_symbol("Hiragana"), "\u{3042}");
    assert_eq!(label_from_symbol("FULL KATAKANA"), "\u{3042}");
    assert_eq!(label_from_symbol("Latin"), "A");
    assert_eq!(label_from_symbol("Direct input"), "A");
    assert_eq!(label_from_symbol("Alphanumeric"), "A");
    assert_eq!(label_from_symbol("something else"), "A");
    assert_eq!(label_from_symbol(""), "A");
}

#[test]
fn input_mode_properties_only() {
    assert_eq!(label_for_property_update("InputMode", "\u{3042}"), Some("\u{3042}"));
    assert_eq!(label_for_property_update("mozc.inputmode", "A"), Some("A"));
    assert_eq!(label_for_property_update("Tool", "\u{3042}"), None);
}

#[test]
fn japanese_label_and_tray_icons() {
    assert!(is_japanese_label("\u{3042}"));
    assert!(!is_japanese_label("A"));
    assert!(!is_japanese_label("\u{3042}\u{3042}"));
    assert_eq!(tray_icon_name("\u{3042}"), "icon_ja");
    assert_eq!(tray_icon_name("A"), "icon_a");
}

#[test]
fn decisions_on_lowercase_text() {
    assert_eq!(label_from_lowercase_engine("mozc-jp"), "\u{3042}");
    assert_eq!(label_from_lowercase_engine("xx-kana-yy"), "\u{3042}");
    assert_eq!(label_from_lowercase_engine("MOZC"), "A");
    assert_eq!(label_from_lowercase_engine("xkb:us::eng"), "A");
    assert_eq!(label_from_lowercase_symbol_text("hiragana"), "\u{3042}");
    assert_eq!(label_from_lowercase_symbol_text("full katakana"), "\u{3042}");
    assert_eq!(label_from_lowercase_symbol_text("Hiragana"), "A");
    assert_eq!(label_from_lowercase_symbol_text("latin"), "A");
    assert!(key_names_input_mode("mozc.inputmode"));
    assert!(!key_names_input_mode("InputMode"));
}

#[test]
fn keywords_found_in_longer_and_uppercase_names() {
    for name in ["mozc", "anthy", "kkc", "japanese", "kana"] {
        assert_eq!(label_from_engine(&name.to_ascii_uppercase()), "\u{3042}");
        assert_eq!(label_from_engine(&format!("xx:{}:yy", name)), "\u{3042}");
    }
}
