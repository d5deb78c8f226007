use tui_game_station::cover_requests::{
    auto_bulk_fetch, bulk_fetch_ticks, bulk_final_tick, bulk_item_tick, preload_neighbours,
    request_selected_cover, start_bulk_fetch, PendingRequests,
};
use tui_game_station::media_fetch::MediaCandidate;

fn cand(id: i64, pending: bool, local: bool) -> MediaCandidate {
    MediaCandidate { id, title: format!("Game {id}"), pending, has_local_cover: local }
}

#[test]
fn pending_requests_insert_contains_remove() {
    let mut p = PendingRequests::new();
    assert!(!p.contains(4));
    assert!(p.insert(4));
    assert!(!p.insert(4));
    assert!(p.insert(9));
    assert!(p.contains(4) && p.contains(9));
    p.remove(4);
    assert!(!p.contains(4));
    assert!(p.contains(9));
    p.remove(4);
    assert!(p.contains(9));
}

#[test]
fn bulk_fetch_records_targets_and_sets_up_progress() {
    let mut pending = PendingRequests::new();
    pending.insert(3);
    let games = vec![cand(1, false, true), cand(2, false, false), cand(3, true, false), cand(4, false, false)];
    let key = Some("abc".to_string());
    let start = auto_bulk_fetch(&mut pending, &games, false, &key).expect("two games need media");
    assert_eq!(start.targets, vec![1, 3]);
    assert!(pending.contains(2) && pending.contains(4) && pending.contains(3));
    assert!(!pending.contains(1));
    assert_eq!(start.progress.runner_name, "SteamGridDB Media (0/2) - Game 2");
    assert_eq!(start.progress.downloaded_bytes, 0);
    assert_eq!(start.progress.total_bytes, 2);
    assert!(!start.progress.is_finished);
    assert_eq!(start.progress.error_msg, None);
    assert_eq!(start.status, "Auto-fetching SteamGridDB media for 2 missing game(s)...");
}

#[test]
fn bulk_fetch_skipped_changes_nothing() {
    let key = Some("abc".to_string());
    let games = vec![cand(1, false, false)];
    let mut pending = PendingRequests::new();
    assert!(auto_bulk_fetch(&mut pending, &games, true, &key).is_none());
    assert!(auto_bulk_fetch(&mut pending, &games, false, &None).is_none());
    assert!(auto_bulk_fetch(&mut pending, &games, false, &Some(" \t".to_string())).is_none());
    assert!(auto_bulk_fetch(&mut pending, &[], false, &key).is_none());
    assert!(!pending.contains(1));
    let all_done = vec![cand(5, false, true)];
    assert!(auto_bulk_fetch(&mut pending, &all_done, false, &key).is_none());
    assert!(!pending.contains(5));
}

#[test]
fn start_bulk_fetch_from_a_plan() {
    let games = vec![cand(10, false, false), cand(11, false, false)];
    let mut pending = PendingRequests::new();
    let start = start_bulk_fetch(&mut pending, &games, vec![1]);
    assert!(pending.contains(11));
    assert!(!pending.contains(10));
    assert_eq!(start.progress.runner_name, "SteamGridDB Media (0/1) - Game 11");
    assert_eq!(start.progress.total_bytes, 1);
}

#[test]
fn bulk_progress_stream_ends_with_one_finished_report() {
    let t = bulk_item_tick(1, 3, "Doom");
    assert_eq!((t.downloaded, t.total, t.finished), (1, 3, false));
    assert_eq!(t.task_name.as_deref(), Some("SteamGridDB Media (1/3) - Doom"));
    let f = bulk_final_tick(3);
    assert_eq!((f.downloaded, f.total, f.finished), (3, 3, true));
    assert_eq!(f.error, None);
    assert_eq!(f.task_name.as_deref(), Some("SteamGridDB Media (3/3 Completed)"));

    let titles = vec!["B".to_string(), "A".to_string()];
    let ticks = bulk_fetch_ticks(&titles);
    assert_eq!(ticks.len(), 3);
    assert_eq!(ticks.iter().filter(|t| t.finished).count(), 1);
    assert!(ticks[2].finished);
    assert_eq!(ticks[0].task_name.as_deref(), Some("SteamGridDB Media (1/2) - B"));
    assert_eq!(ticks[1].task_name.as_deref(), Some("SteamGridDB Media (2/2) - A"));
    assert_eq!((ticks[2].downloaded, ticks[2].total), (2, 2));
    let none = bulk_fetch_ticks(&[]);
    assert_eq!(none.len(), 1);
    assert_eq!(none[0].task_name.as_deref(), Some("SteamGridDB Media (0/0 Completed)"));
}

#[test]
fn single_cover_fetch_marks_the_game_pending() {
    let ids = vec![7, 8, 9];
    let mut pending = PendingRequests::new();
    assert_eq!(request_selected_cover(&mut pending, &ids, 1, &None), Some(8));
    assert!(pending.contains(8));
    assert_eq!(request_selected_cover(&mut pending, &ids, 1, &None), None);
    assert_eq!(request_selected_cover(&mut pending, &ids, 2, &Some("not_found".to_string())), None);
    assert!(!pending.contains(9));
    assert_eq!(request_selected_cover(&mut pending, &ids, 2, &Some("found".to_string())), Some(9));
    assert_eq!(request_selected_cover(&mut pending, &ids, 3, &None), None);
}

#[test]
fn neighbour_preload_skips_loaded_and_pending_covers() {
    let ids = vec![1, 2, 3, 4];
    let mut pending = PendingRequests::new();
    assert_eq!(preload_neighbours(&mut pending, &ids, &[false, false, false, false], 1), vec![1, 3]);
    assert!(pending.contains(1) && pending.contains(3));
    // Already requested: nothing new.
    assert_eq!(preload_neighbours(&mut pending, &ids, &[false, false, false, false], 1), Vec::<i64>::new());
    let mut fresh = PendingRequests::new();
    assert_eq!(preload_neighbours(&mut fresh, &ids, &[false, false, true, false], 1), vec![1]);
    assert!(!fresh.contains(3));
    assert_eq!(preload_neighbours(&mut fresh, &ids, &[false, false, false, false], 0), vec![2]);
    assert_eq!(preload_neighbours(&mut fresh, &ids, &[false, false, false, false], 3), vec![3]);
    assert_eq!(preload_neighbours(&mut fresh, &[], &[], 0), Vec::<i64>::new());
    // The same game on both sides is requested once.
    let mut twice = PendingRequests::new();
    assert_eq!(preload_neighbours(&mut twice, &[5, 6, 5], &[false, false, false], 1), vec![5]);
}
