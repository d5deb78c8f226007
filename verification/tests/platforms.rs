use tui_game_station::platforms::{
    clamp_platform_selection, filter_games_by_search, find_platform_by_name,
    get_configured_emulator_platforms, get_runner_platforms, sync_platform_selection_with_game,
    GameEntry, Platform, SearchOutcome,
};
use tui_game_station::runners::Runner;
use tui_game_station::scan_form::PlatformType;

fn platform(id: i64, name: &str, slug: &str, t: PlatformType) -> Platform {
    Platform { id, name: name.to_string(), slug: slug.to_string(), platform_type: t }
}

fn game(id: i64, platform_id: i64, title: &str) -> GameEntry {
    GameEntry { id, platform_id, title: title.to_string() }
}

fn platforms() -> Vec<Platform> {
    vec![
        platform(1, "Linux Native", "linux", PlatformType::Native),
        platform(2, "Nintendo DS", "nds", PlatformType::Emulator),
        platform(3, "Steam", "steam", PlatformType::Steam),
        platform(4, "Nintendo Switch", "switch", PlatformType::Emulator),
        platform(5, "Windows", "windows", PlatformType::Wine),
    ]
}

fn runner(exe: Option<&str>) -> Runner {
    Runner {
        id: 1,
        name: "R".to_string(),
        runner_type: "appimage".to_string(),
        is_active: true,
        executable_path: exe.map(|s| s.to_string()),
        has_default_core: false,
    }
}

#[test]
fn runner_manager_lists_all_but_linux_and_steam() {
    assert_eq!(get_runner_platforms(&platforms()), vec![1, 3, 4]);
}

#[test]
fn scan_flow_lists_emulator_platforms_with_a_configured_runner() {
    let rs = vec![
        vec![runner(Some("/x"))],
        vec![runner(None), runner(Some("/melonds"))],
        vec![runner(Some("/steam"))],
        vec![runner(None)],
        vec![runner(Some("/wine"))],
    ];
    assert_eq!(get_configured_emulator_platforms(&platforms(), &rs), vec![1]);
}

#[test]
fn platform_argument_matches_ignoring_case() {
    let ps = platforms();
    assert_eq!(find_platform_by_name(&ps, "NINTENDO"), Some(1));
    assert_eq!(find_platform_by_name(&ps, "switch"), Some(3));
    assert_eq!(find_platform_by_name(&ps, "xbox"), None);
}

#[test]
fn search_filters_titles_ignoring_case() {
    let games = vec![game(1, 2, "New Super Mario Bros."), game(2, 4, "Zelda"), game(3, 4, "Super MARIO Odyssey")];
    match filter_games_by_search(&games, "mario") {
        SearchOutcome::Matches(m) => assert_eq!(m, vec![0, 2]),
        other => panic!("unexpected {other:?}"),
    }
    match filter_games_by_search(&games, "ZEL") {
        SearchOutcome::Matches(m) => assert_eq!(m, vec![1]),
        other => panic!("unexpected {other:?}"),
    }
    assert!(matches!(filter_games_by_search(&games, "   "), SearchOutcome::Inactive));
    assert!(matches!(filter_games_by_search(&games, ""), SearchOutcome::Inactive));
}

#[test]
fn platform_selection_follows_the_searched_game() {
    let ps = platforms();
    let games = vec![game(1, 2, "Mario"), game(2, 4, "Zelda")];
    assert_eq!(sync_platform_selection_with_game(true, &games, 1, &ps, 0), 3);
    assert_eq!(sync_platform_selection_with_game(false, &games, 1, &ps, 0), 0);
    assert_eq!(sync_platform_selection_with_game(true, &games, 5, &ps, 2), 2);
    let orphan = vec![game(9, 99, "Lost")];
    assert_eq!(sync_platform_selection_with_game(true, &orphan, 0, &ps, 4), 4);
    assert_eq!(clamp_platform_selection(7, 5), 0);
    assert_eq!(clamp_platform_selection(4, 5), 4);
}
