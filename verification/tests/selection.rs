use tui_game_station::selection::{
    api_key_missing, delete_targets, games_removed_status, media_fetch_status, media_targets,
    next_after_mark, GameSelection,
};

#[test]
fn marking_toggles_and_twice_restores() {
    let mut s = GameSelection::new();
    s.toggle(7);
    s.toggle(3);
    assert!(s.contains(7) && s.contains(3));
    s.toggle(7);
    assert!(!s.contains(7));
    assert_eq!(s.to_vec(), vec![3]);
    s.toggle(7);
    s.toggle(7);
    assert_eq!(s.to_vec(), vec![3]);
    assert_eq!(s.len(), 1);
    assert_eq!(next_after_mark(0, 3), 1);
    assert_eq!(next_after_mark(2, 3), 2);
}

#[test]
fn delete_names_the_marked_games_or_the_highlighted_one() {
    let ids = vec![10, 20, 30];
    let titles = vec!["A".to_string(), "B".to_string(), "C".to_string()];
    let mut s = GameSelection::new();
    assert_eq!(delete_targets(&s, &ids, &titles, 1), Some((vec![20], "B".to_string())));
    assert_eq!(delete_targets(&s, &ids, &titles, 3), None);
    s.toggle(30);
    s.toggle(10);
    let (mut marked, title) = delete_targets(&s, &ids, &titles, 1).expect("two games are marked");
    marked.sort();
    assert_eq!(marked, vec![10, 30]);
    assert_eq!(title, "2 selected games");
    assert_eq!(games_removed_status(2, 2, "2 selected games"), "[OK] Removed 2 games ('2 selected games') from library.");
    assert_eq!(games_removed_status(1, 1, "Tetris"), "[OK] Removed game ('Tetris') from library.");
}

#[test]
fn media_fetch_targets_follow_the_list_order() {
    let ids = vec![10, 20, 30, 40];
    let mut s = GameSelection::new();
    assert_eq!(media_targets(&s, &ids, 2), vec![2]);
    assert_eq!(media_targets(&s, &ids, 4), Vec::<usize>::new());
    s.toggle(40);
    s.toggle(20);
    s.toggle(99);
    assert_eq!(media_targets(&s, &ids, 0), vec![1, 3]);
    assert!(api_key_missing(&None));
    assert!(api_key_missing(&Some("  ".to_string())));
    assert!(!api_key_missing(&Some("abc".to_string())));
    assert_eq!(media_fetch_status(2), "Fetching SteamGridDB media (Cover, Banner, Icon) for 2 game(s)...");
}
