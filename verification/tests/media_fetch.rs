use tui_game_station::media_fetch::{detail_media_plan, DetailMedia};
use tui_game_station::launcher::ViewMode;
use tui_game_station::media_fetch::{
    bulk_fetch_label, bulk_fetch_status, media_dir_name, media_file_names, media_kind_for_view,
    media_source, media_type_name, neighbour_indices, plan_bulk_fetch, should_fetch_selected,
    MediaCandidate, MediaKind, MediaSource,
};

fn cand(id: i64, pending: bool, local: bool) -> MediaCandidate {
    MediaCandidate { id, title: format!("Game {id}"), pending, has_local_cover: local }
}

#[test]
fn media_kind_and_files() {
    assert_eq!(media_kind_for_view(ViewMode::BannerCard), MediaKind::Banner);
    assert_eq!(media_kind_for_view(ViewMode::IconCard), MediaKind::Icon);
    assert_eq!(media_kind_for_view(ViewMode::Table), MediaKind::Cover);
    assert_eq!(media_type_name(MediaKind::Banner), "banner");
    assert_eq!(media_dir_name(MediaKind::Icon), "icons");
    assert_eq!(media_file_names(42), vec!["42.jpg", "42.png", "42.webp"]);
    assert_eq!(media_file_names(-7)[2], "-7.webp");
    assert_eq!(media_file_names(i64::MIN)[0], format!("{}.jpg", i64::MIN));
}

#[test]
fn where_artwork_comes_from() {
    assert_eq!(media_source(true, Some(570), MediaKind::Cover), MediaSource::LocalFile);
    assert_eq!(media_source(false, Some(570), MediaKind::Cover), MediaSource::SteamStore(570));
    assert_eq!(media_source(false, Some(570), MediaKind::Banner), MediaSource::SteamGridDb);
    assert_eq!(media_source(false, None, MediaKind::Cover), MediaSource::SteamGridDb);
    assert!(should_fetch_selected(3, 1, false, &None));
    assert!(!should_fetch_selected(3, 3, false, &None));
    assert!(!should_fetch_selected(3, 1, true, &None));
    assert!(!should_fetch_selected(3, 1, false, &Some("not_found".to_string())));
    assert!(should_fetch_selected(3, 1, false, &Some("found".to_string())));
}

#[test]
fn big_picture_preloads_the_neighbours() {
    assert_eq!(neighbour_indices(0, 3), vec![1]);
    assert_eq!(neighbour_indices(1, 3), vec![0, 2]);
    assert_eq!(neighbour_indices(2, 3), vec![1]);
    assert_eq!(neighbour_indices(0, 1), Vec::<usize>::new());
}

#[test]
fn bulk_fetch_targets_games_without_media() {
    let key = Some("abc".to_string());
    let games = vec![cand(1, false, true), cand(2, false, false), cand(3, true, false), cand(4, false, false)];
    assert_eq!(plan_bulk_fetch(&games, false, &key), Some(vec![1, 3]));
    assert_eq!(plan_bulk_fetch(&games, true, &key), None);
    assert_eq!(plan_bulk_fetch(&games, false, &None), None);
    assert_eq!(plan_bulk_fetch(&games, false, &Some("  ".to_string())), None);
    assert_eq!(plan_bulk_fetch(&[], false, &key), None);
    assert_eq!(plan_bulk_fetch(&[cand(1, false, true)], false, &key), None);
    assert_eq!(bulk_fetch_label(0, 2, "Game 2"), "SteamGridDB Media (0/2) - Game 2");
    assert_eq!(bulk_fetch_status(2), "Auto-fetching SteamGridDB media for 2 missing game(s)...");
}

#[test]
fn detail_view_media_plan() {
    let nf = Some("not_found".to_string());
    assert_eq!(
        detail_media_plan(3, 1, false, false, &None, false, &None),
        vec![DetailMedia::Cover, DetailMedia::Banner, DetailMedia::Icon]
    );
    assert_eq!(detail_media_plan(3, 1, true, false, &nf, false, &Some("found".to_string())), vec![DetailMedia::Icon]);
    assert_eq!(detail_media_plan(3, 1, false, true, &None, false, &nf), vec![DetailMedia::Cover]);
    assert_eq!(detail_media_plan(3, 3, false, false, &None, false, &None), Vec::<DetailMedia>::new());
    assert_eq!(detail_media_plan(0, 0, false, false, &None, false, &None), Vec::<DetailMedia>::new());
}
