use tui_game_station::text_edit::{
    backspace_at_cursor, cursor_left, cursor_right, field_byte_len, insert_char_at_cursor,
    paste_at_cursor,
};

#[test]
fn typing_inserts_at_the_cursor_and_moves_it() {
    let mut s = "Zeda".to_string();
    let mut c = 2;
    insert_char_at_cursor(&mut s, &mut c, 'l');
    assert_eq!(s, "Zelda");
    assert_eq!(c, 3);
    // A cursor past the end is clamped to the end.
    let mut c = 99;
    insert_char_at_cursor(&mut s, &mut c, '!');
    assert_eq!(s, "Zelda!");
    assert_eq!(c, 6);
    // Multi-byte characters are inserted at byte offsets.
    let mut t = "Pokmon".to_string();
    let mut c = 3;
    insert_char_at_cursor(&mut t, &mut c, 'é');
    assert_eq!(t, "Pokémon");
    assert_eq!(c, 4);
}

#[test]
fn backspace_removes_the_character_before_the_cursor() {
    let mut s = "Zelda".to_string();
    let mut c = 3;
    backspace_at_cursor(&mut s, &mut c);
    assert_eq!(s, "Zeda");
    assert_eq!(c, 2);
    let mut c = 0;
    backspace_at_cursor(&mut s, &mut c);
    assert_eq!(s, "Zeda");
    assert_eq!(c, 0);
    let mut c = 50;
    backspace_at_cursor(&mut s, &mut c);
    assert_eq!(s, "Zed");
    assert_eq!(c, 3);
    let mut e = String::new();
    let mut c = 4;
    backspace_at_cursor(&mut e, &mut c);
    assert_eq!(e, "");
    assert_eq!(c, 4);
}

#[test]
fn backspace_undoes_typing_even_for_wide_characters() {
    for ch in ['a', 'é', '€', '😀'] {
        let mut s = "Mario Kart".to_string();
        let mut c = 5;
        insert_char_at_cursor(&mut s, &mut c, ch);
        backspace_at_cursor(&mut s, &mut c);
        assert_eq!(s, "Mario Kart");
        assert_eq!(c, 5);
    }
}

#[test]
fn cursor_moves_stop_at_the_ends() {
    assert_eq!(cursor_left(0), 0);
    assert_eq!(cursor_left(3), 2);
    assert_eq!(cursor_right(2, 5), 3);
    assert_eq!(cursor_right(5, 5), 5);
    assert_eq!(cursor_right(9, 5), 5);
    assert_eq!(field_byte_len(&"Pokémon".to_string()), 8);
}

#[test]
fn paste_inserts_at_the_cursor_and_moves_past_it() {
    let mut t = "abcd".to_string();
    let mut c = 2;
    paste_at_cursor(&mut t, &mut c, "XYZ");
    assert_eq!(t, "abXYZcd");
    assert_eq!(c, 5);
    // A cursor past the end pastes at the end.
    let mut t = "key".to_string();
    let mut c = 99;
    paste_at_cursor(&mut t, &mut c, "-123");
    assert_eq!(t, "key-123");
    assert_eq!(c, 7);
    // Multi-byte text: the cursor moves by the pasted bytes.
    let mut t = "é".to_string();
    let mut c = 2;
    paste_at_cursor(&mut t, &mut c, "ñ!");
    assert_eq!(t, "éñ!");
    assert_eq!(c, 5);
    assert!(t.is_char_boundary(c));
}
