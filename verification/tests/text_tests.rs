use patisserie::text::{decimal_string, text_eq};

#[test]
fn decimal_of_small_and_large_numbers() {
    assert_eq!(decimal_string(0), "0");
    assert_eq!(decimal_string(7), "7");
    assert_eq!(decimal_string(10), "10");
    assert_eq!(decimal_string(1440), "1440");
    assert_eq!(decimal_string(52_560_000), "52560000");
    assert_eq!(decimal_string(u32::MAX), "4294967295");
}

#[test]
fn decimal_agrees_with_the_standard_notation() {
    for n in [1u32, 9, 11, 99, 100, 101, 12_345, 1_000_000, 4_000_000_000] {
        assert_eq!(decimal_string(n), n.to_string());
    }
}

#[test]
fn equal_texts_are_told_from_unequal_ones() {
    assert!(text_eq("", ""));
    assert!(text_eq("rust", "rust"));
    assert!(text_eq("\u{e9}t\u{e9}", "\u{e9}t\u{e9}"));
    assert!(!text_eq("rust", "rusT"));
    assert!(!text_eq("rust", "rus"));
    assert!(!text_eq("", "a"));
    assert!(!text_eq("ab", "ba"));
}
