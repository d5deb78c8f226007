use tui_game_station::figlet_title::{
    line_height, render_title, rendered_width, truncate_word_to_fit, wrap_words, MAX_LINES,
};

#[test]
fn short_title_stays_on_one_line() {
    let art = render_title("Tetris", 200);
    assert!(!art.is_plain);
    assert_eq!(art.rows.len(), line_height() as usize);
    assert!(art.rows.iter().all(|r| r.chars().count() <= 200));
}

#[test]
fn medium_title_wraps_by_words_into_two_lines() {
    // Half the full width forces at least two lines.
    let full = rendered_width("New Super Mario Bros. 2");
    let lines = wrap_words("New Super Mario Bros. 2", full / 2 + 2);
    assert_eq!(lines.len(), 2, "expected 2 wrapped lines, got {lines:?}");
    // Every line is a run of the title's whole words.
    let words: Vec<&str> = "New Super Mario Bros. 2".split_whitespace().collect();
    for line in &lines {
        let line_words: Vec<&str> = line.split_whitespace().collect();
        let mut it = words.iter();
        for w in &line_words {
            assert!(it.any(|c| c == w), "word '{w}' not a whole word of the title");
        }
    }
    // And each line really fits when rendered.
    for line in &lines {
        assert!(rendered_width(line) <= full / 2 + 2);
    }
}

#[test]
fn long_title_is_capped_at_two_lines() {
    let title = "Legend of Zelda, The - Majora's Mask 3D";
    let full = rendered_width(title);
    let lines = wrap_words(title, full / 2);
    assert!(lines.len() <= MAX_LINES, "hard cap of {MAX_LINES} lines");
    assert!(lines.iter().all(|l| rendered_width(l) <= full / 2));
    // Words are whole and in the title's order (never split mid-word); the cap
    // may only drop trailing words when the title is extremely long.
    let all: Vec<&str> = lines.iter().flat_map(|l| l.split_whitespace()).collect();
    let orig: Vec<&str> = title.split_whitespace().collect();
    assert!(
        all.iter().zip(orig.iter()).all(|(a, b)| a == b),
        "words reordered or split: {all:?}"
    );
}

#[test]
fn huge_single_word_is_truncated_with_ellipsis() {
    let word = "Supercalifragilisticexpialidocious";
    let narrow = 30u16;
    let lines = wrap_words(word, narrow);
    assert_eq!(lines.len(), 1);
    assert!(lines[0].starts_with("Super"), "keep the word's beginning");
    assert!(rendered_width(&lines[0]) <= narrow, "truncated word must fit");
}

#[test]
fn title_with_missing_glyph_falls_back_to_plain() {
    let art = render_title("Pokémon", 200);
    assert!(art.is_plain);
    assert_eq!(art.rows, vec!["Pokémon".to_string()]);
}

#[test]
fn one_word_per_line_when_width_is_tiny() {
    let lines = wrap_words("Very Long Game Title", 10);
    assert!(lines.len() <= MAX_LINES);
}

#[test]
fn empty_title_is_plain() {
    let art = render_title("", 200);
    assert!(art.is_plain);
    assert_eq!(art.rows, vec![String::new()]);
}

#[test]
fn line_height_matches_rendered_rows_of_a_letter() {
    let art = render_title("A", 500);
    assert!(!art.is_plain);
    assert_eq!(art.rows.len(), line_height() as usize);
    assert!(line_height() > 0);
}

#[test]
fn rendered_width_of_unrenderable_text_is_max() {
    assert_eq!(rendered_width(""), u16::MAX);
    assert!(rendered_width("Mario") < u16::MAX);
}

#[test]
fn truncation_keeps_prefix_and_fits() {
    let t = truncate_word_to_fit("  Supercalifragilisticexpialidocious ", 30);
    assert!(t.starts_with("Super"));
    assert!(rendered_width(&t) <= 30);
    assert!(t.ends_with('…') || t.ends_with("..."));
}

#[test]
fn wide_title_renders_two_big_lines() {
    let title = "New Super Mario Bros. 2";
    let full = rendered_width(title);
    let art = render_title(title, full / 2 + 2);
    assert!(!art.is_plain);
    assert_eq!(art.rows.len(), 2 * line_height() as usize);
}

#[test]
fn line_height_is_positive() {
    assert!(line_height() >= 1);
    assert_eq!(line_height(), 3);
}
