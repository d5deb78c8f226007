use tui_game_station::launcher::force_close_report;
use tui_game_station::actions::{Action, GateDecision, InputSafeMode};
use tui_game_station::cycle::{cycle_index, step_index};
use tui_game_station::launcher::{
    nav_effect_status, show_all_platforms_status,
    navigate, view_mode_status, BigPictureFocus, FocusedPane, NavEffect, Navigator, ViewMode,
};

fn nav_with_games(platforms: usize, games: usize) -> Navigator {
    let mut n = Navigator::new(platforms, 4);
    n.set_games_loaded(games);
    n
}

#[test]
fn cycle_index_wraps_both_ways() {
    assert_eq!(cycle_index(Some(2), 3, false), 0);
    assert_eq!(cycle_index(Some(0), 3, true), 2);
    assert_eq!(cycle_index(Some(1), 3, false), 2);
    assert_eq!(cycle_index(None, 3, true), 0);
    assert_eq!(cycle_index(Some(0), 1, false), 0);
    assert_eq!(cycle_index(Some(5), 0, false), 0);
    assert_eq!(step_index(0, 4, true), 3);
    assert_eq!(step_index(3, 4, false), 0);
    assert_eq!(step_index(1, 4, false), 2);
}

#[test]
fn cycle_round_trip_returns_to_start() {
    for len in 2..6usize {
        for i in 0..len {
            assert_eq!(cycle_index(Some(cycle_index(Some(i), len, false)), len, true), i);
            assert_eq!(step_index(step_index(i, len, true), len, false), i);
        }
    }
}

#[test]
fn new_navigator_starts_on_first_platform() {
    let n = Navigator::new(5, 3);
    assert_eq!(n.selected_platform_idx, 0);
    assert_eq!(n.game_count, 0);
    assert_eq!(n.focused_pane, FocusedPane::Platforms);
    assert_eq!(n.view_mode, ViewMode::CoverCard);
    assert!(!n.is_big_picture && !n.game_running && !n.should_quit);
}

#[test]
fn next_then_prev_game_returns_to_the_same_game() {
    let mut n = nav_with_games(3, 4);
    let start = n;
    assert_eq!(navigate(&mut n, &Action::NextGame), NavEffect::GameChanged);
    assert_eq!(n.selected_game_idx, 1);
    assert_eq!(navigate(&mut n, &Action::PrevGame), NavEffect::GameChanged);
    assert_eq!(n, start);
    assert_eq!(navigate(&mut n, &Action::PrevGame), NavEffect::GameChanged);
    assert_eq!(n.selected_game_idx, 3);
    assert_eq!(navigate(&mut n, &Action::NextPlatform), NavEffect::LoadGames);
    assert_eq!(navigate(&mut n, &Action::PrevPlatform), NavEffect::LoadGames);
    assert_eq!(n.selected_platform_idx, 0);
}

#[test]
fn toggles_come_back_around() {
    let mut n = nav_with_games(2, 2);
    let start = n;
    for _ in 0..3 {
        navigate(&mut n, &Action::TogglePane);
    }
    assert_eq!(n, start);
    assert_eq!(navigate(&mut n, &Action::ToggleViewMode), NavEffect::ViewModeChanged);
    assert_eq!(n.view_mode, ViewMode::BannerCard);
    for _ in 0..3 {
        navigate(&mut n, &Action::ToggleViewMode);
    }
    assert_eq!(n.view_mode, ViewMode::CoverCard);
    navigate(&mut n, &Action::ToggleBigPictureFocus);
    assert_eq!(n.big_picture_focus, BigPictureFocus::PlatformBar);
    navigate(&mut n, &Action::ToggleBigPictureFocus);
    navigate(&mut n, &Action::ToggleBigPictureFocus);
    assert_eq!(n.big_picture_focus, BigPictureFocus::Carousel);
}

#[test]
fn running_game_freezes_navigation_but_not_force_close() {
    let mut n = nav_with_games(3, 3);
    n.game_running = true;
    let start = n;
    assert_eq!(
        navigate(&mut n, &Action::NextGame),
        NavEffect::Ignored(GateDecision::BlockedGameRunning)
    );
    assert_eq!(navigate(&mut n, &Action::Quit), NavEffect::Ignored(GateDecision::BlockedGameRunning));
    assert_eq!(n, start);
    assert_eq!(navigate(&mut n, &Action::ForceCloseGame), NavEffect::ForceCloseGame);
    assert!(n.needs_terminal_clear);
}

#[test]
fn quit_closes_a_modal_first_and_is_blocked_in_safe_mode() {
    let mut n = nav_with_games(1, 1);
    n.modal_open = true;
    assert_eq!(navigate(&mut n, &Action::Quit), NavEffect::CloseModal);
    assert!(!n.modal_open && !n.should_quit);
    n.input_safe_mode = InputSafeMode::Locked;
    assert_eq!(navigate(&mut n, &Action::Quit), NavEffect::Ignored(GateDecision::BlockedSafeMode));
    n.input_safe_mode = InputSafeMode::Active;
    assert_eq!(navigate(&mut n, &Action::Quit), NavEffect::Quit);
    assert!(n.should_quit);
    assert_eq!(navigate(&mut n, &Action::ForceCloseGame), NavEffect::NoGameToClose);
}

#[test]
fn big_picture_detail_view_cycles_actions() {
    let mut n = nav_with_games(1, 2);
    assert_eq!(navigate(&mut n, &Action::ToggleBigPictureMode), NavEffect::EnterBigPicture);
    assert!(n.is_big_picture);
    assert_eq!(navigate(&mut n, &Action::OpenGameDetail), NavEffect::PreloadDetailMedia);
    assert!(n.big_picture_in_detail);
    navigate(&mut n, &Action::DetailPrevAction);
    assert_eq!(n.detail_action_idx, 3);
    navigate(&mut n, &Action::DetailNextAction);
    assert_eq!(n.detail_action_idx, 0);
    navigate(&mut n, &Action::CloseGameDetail);
    assert!(!n.big_picture_in_detail);
    assert_eq!(navigate(&mut n, &Action::ToggleBigPictureMode), NavEffect::LeaveBigPicture);
    assert_eq!(navigate(&mut n, &Action::OpenSettingsModal), NavEffect::Delegate);
}

#[test]
fn empty_lists_do_not_move() {
    let mut n = Navigator::new(0, 1);
    assert_eq!(navigate(&mut n, &Action::NextPlatform), NavEffect::Nothing);
    assert_eq!(navigate(&mut n, &Action::NextGame), NavEffect::Nothing);
    assert_eq!(navigate(&mut n, &Action::OpenGameDetail), NavEffect::Nothing);
}

#[test]
fn view_mode_status_lines() {
    assert_eq!(view_mode_status(ViewMode::Table), "[View Mode] Detailed Table List");
    assert_eq!(view_mode_status(ViewMode::IconCard), "[View Mode] Square Icons");
}

#[test]
fn dispatcher_blocks_all_input_while_a_game_runs_except_force_close() {
    let mut n = nav_with_games(3, 3);
    let view_before = n.view_mode;
    n.game_running = true;
    navigate(&mut n, &Action::ToggleViewMode);
    assert_eq!(n.view_mode, view_before, "navigation must not run while a game runs");
    // ForceCloseGame passes the guard.
    assert_eq!(navigate(&mut n, &Action::ForceCloseGame), NavEffect::ForceCloseGame);
    // With no game running, navigation runs again.
    n.game_running = false;
    navigate(&mut n, &Action::ToggleViewMode);
    assert_ne!(n.view_mode, view_before, "with no game running navigation must run");
}

#[test]
fn navigation_status_lines() {
    assert_eq!(
        nav_effect_status(NavEffect::ViewModeChanged, ViewMode::Table).as_deref(),
        Some("[View Mode] Detailed Table List")
    );
    assert_eq!(
        nav_effect_status(NavEffect::EnterBigPicture, ViewMode::Table).as_deref(),
        Some("[MODE] Switched to Big Picture Mode")
    );
    assert_eq!(
        nav_effect_status(NavEffect::NoGameToClose, ViewMode::Table).as_deref(),
        Some("No game is currently running to close.")
    );
    assert_eq!(nav_effect_status(NavEffect::LoadGames, ViewMode::Table), None);
    assert_eq!(show_all_platforms_status(true), "Mostrando TODAS las plataformas preseteadas.");
    assert_eq!(
        show_all_platforms_status(false),
        "Filtro activo: Mostrando solo plataformas instaladas/con juegos."
    );
}

#[test]
fn force_close_reports_the_kill_result() {
    let (status, toast) = force_close_report(&Ok("Closed Celeste".to_string()));
    assert_eq!(status, "[OK] Closed Celeste");
    assert_eq!(toast.as_deref(), Some("Closed Celeste"));
    let (status, toast) = force_close_report(&Err("no such process".to_string()));
    assert_eq!(status, "[Error] no such process");
    assert_eq!(toast, None);
}

#[test]
fn cycle_index_near_the_top_of_usize() {
    assert_eq!(cycle_index(Some(usize::MAX - 2), usize::MAX - 1, false), 0);
    assert_eq!(cycle_index(Some(0), 3, true), 2);
    for len in 2..6usize {
        for i in 0..len {
            let f = cycle_index(Some(i), len, false);
            assert_eq!(cycle_index(Some(f), len, true), i);
            let b = cycle_index(Some(i), len, true);
            assert_eq!(cycle_index(Some(b), len, false), i);
        }
    }
}
