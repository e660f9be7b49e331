use trackconv::sanitize::sanitize_component;

#[test]
fn folds_ligature() {
    assert_eq!(sanitize_component("Æneid"), "AEneid");
}

#[test]
fn folds_diacritics() {
    assert_eq!(sanitize_component("étude"), "etude");
}

#[test]
fn folds_han_script() {
    assert_eq!(sanitize_component("北亰"), "Bei Jing");
}

#[test]
fn changes_non_ascii_input() {
    assert_ne!(sanitize_component("Ü"), "Ü");
    assert_eq!(sanitize_component("Ü"), "U");
}

#[test]
fn ascii_passes_through() {
    assert_eq!(sanitize_component("Artist_Name-01"), "Artist_Name-01");
}

#[test]
fn output_is_ascii() {
    for s in ["Björk", "Sigur Rós", "μ's", "Пример"] {
        let folded = sanitize_component(s);
        assert!(folded.chars().all(|c| (c as u32) < 128), "not ASCII: {folded}");
    }
}

#[test]
fn control_chars_below_delete_pass_through() {
    assert_eq!(sanitize_component("\u{1}tab\there"), "\u{1}tab\there");
}

#[test]
fn delete_char_is_dropped_not_kept() {
    assert_eq!(sanitize_component("\u{7f}"), "");
    assert_eq!(sanitize_component("a\u{7f}b"), "ab");
}

#[test]
fn idempotent() {
    for s in ["Björk", "Æneid", "北亰", "plain ascii", ""] {
        let once = sanitize_component(s);
        let twice = sanitize_component(&once);
        assert_eq!(once, twice);
    }
}
