use coconut_bot::text::str_contains;

#[test]
fn finds_substring_anywhere() {
    assert!(str_contains("Program log: Instruction: MintTo", "MintTo"));
    assert!(str_contains("MintTo at the start", "MintTo"));
    assert!(str_contains("ends with MintTo", "MintTo"));
    assert!(!str_contains("Mint To", "MintTo"));
    assert!(!str_contains("", "MintTo"));
}

#[test]
fn empty_needle_always_matches() {
    assert!(str_contains("anything", ""));
    assert!(str_contains("", ""));
}

#[test]
fn needle_longer_than_hay_never_matches() {
    assert!(!str_contains("Mint", "MintTo"));
}

#[test]
fn non_ascii_text_is_searched_by_character() {
    assert!(str_contains("🥥 coconut MintTo 🥥", "MintTo"));
    assert!(str_contains("🥥🥥🥥", "🥥"));
    assert!(!str_contains("🥥", "🥥🥥"));
}
