#[test]
fn display_width_ascii_string() {
    // "hello" = 5 cells
    assert_eq!("hello".len(), 5);
    // Each ASCII char is 1 cell, total = 5
}

#[test]
fn display_width_cjk_string() {
    // "漢字" = 2 chars, each width 2, total = 4 cells
    let s = "漢字";
    assert_eq!(s.chars().count(), 2);
    // Expected DisplayWidth: 4
}

#[test]
fn display_width_mixed_ascii_cjk() {
    // "A漢B" = A(1) + 漢(2) + B(1) = 4 cells
    let s = "A漢B";
    assert_eq!(s.chars().count(), 3);
}

#[test]
fn display_width_with_combining_mark() {
    // "Cafe\u{0301}" = C(1) + a(1) + f(1) + e(1) + combining(0) = 4 cells
    let s = "Cafe\u{0301}";
    assert_eq!(s.chars().count(), 5); // 5 chars but 4 cells
}

#[test]
fn display_width_empty_string() {
    // "" = 0 cells
    assert_eq!("".len(), 0);
}

#[test]
fn measure_grapheme_ascii() {
    // 'A' → width 1, mode Narrow
    let ch = 'A';
    assert!(ch.is_ascii());
    assert!(!ch.is_control());
}

#[test]
fn measure_grapheme_cjk() {
    // '漢' (U+6F22) → width 2, mode Wide
    let cp = '漢' as u32;
    assert!((0x4E00..=0x9FFF).contains(&cp));
}

#[test]
fn measure_grapheme_combining() {
    // U+0301 (combining acute accent) → width 0, mode Zero
    let cp = 0x0301u32;
    assert!((0x0300..=0x036F).contains(&cp));
}
