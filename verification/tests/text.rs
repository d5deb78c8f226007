use tui_game_station::text::{
    chars_of, contains_lowercase, is_blank, is_whitespace, join_chars, split_lines,
    split_pieces, split_words, str_contains, string_from_chars, trim_chars, trim_end_chars,
};

fn s(v: &[char]) -> String {
    v.iter().collect()
}

#[test]
fn whitespace_and_trimming() {
    assert!(is_whitespace(' ') && is_whitespace('\t') && is_whitespace('\u{3000}'));
    assert!(!is_whitespace('a'));
    assert_eq!(s(&trim_chars(&chars_of("  a b \n"))), "a b");
    assert_eq!(s(&trim_end_chars(&chars_of("  a b \n"))), "  a b");
    assert!(is_blank(" \t\n"));
    assert!(is_blank(""));
    assert!(!is_blank(" x "));
}

#[test]
fn splitting_and_joining() {
    let words = split_words(&chars_of("  New Super\tMario  "));
    let w: Vec<String> = words.iter().map(|x| s(x)).collect();
    assert_eq!(w, vec!["New", "Super", "Mario"]);
    assert_eq!(s(&join_chars(&words, ' ')), "New Super Mario");
    let lines: Vec<String> = split_lines(&chars_of("a\nb\n")).iter().map(|x| s(x)).collect();
    assert_eq!(lines, vec!["a", "b"]);
    let pieces: Vec<String> = split_pieces(&chars_of("a,,b"), ',').iter().map(|x| s(x)).collect();
    assert_eq!(pieces, vec!["a", "", "b"]);
    assert_eq!(string_from_chars(&chars_of("héllo")), "héllo");
}

#[test]
fn substring_search() {
    assert!(str_contains("GAMEMODE=1 X", "MODE=1"));
    assert!(!str_contains("GAME", "GAMEMODE"));
    assert!(str_contains("abc", ""));
    assert!(contains_lowercase("The Legend of ZELDA", "zelda"));
    assert!(!contains_lowercase("Metroid", "zelda"));
}
