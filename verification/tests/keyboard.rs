use tui_game_station::actions::Action;
use tui_game_station::keyboard::{library_key, Key, LibraryKeyContext, LibraryKeyOutcome};
use tui_game_station::launcher::{BigPictureFocus, FocusedPane};

fn library() -> LibraryKeyContext {
    LibraryKeyContext {
        is_big_picture: false,
        in_detail: false,
        detail_action_idx: 0,
        big_picture_focus: BigPictureFocus::Carousel,
        focused_pane: FocusedPane::Games,
        search_empty: true,
        selected_game_idx: 2,
        game_count: 5,
        selected_platform_idx: 0,
    }
}

fn big_picture() -> LibraryKeyContext {
    LibraryKeyContext { is_big_picture: true, ..library() }
}

#[test]
fn q_quits_and_enter_launches_in_the_library() {
    let c = library();
    assert!(matches!(library_key(c, Key::Char('q'), false), LibraryKeyOutcome::Dispatch(Action::Quit)));
    assert!(matches!(
        library_key(c, Key::Enter, false),
        LibraryKeyOutcome::DispatchAndRedraw(Action::LaunchGame)
    ));
    assert!(matches!(
        library_key(c, Key::Delete, false),
        LibraryKeyOutcome::Dispatch(Action::OpenConfirmDeleteModal)
    ));
}

#[test]
fn enter_opens_the_detail_view_in_big_picture() {
    assert!(matches!(
        library_key(big_picture(), Key::Enter, false),
        LibraryKeyOutcome::DispatchAndRedraw(Action::OpenGameDetail)
    ));
}

#[test]
fn detail_view_keys() {
    let c = LibraryKeyContext { in_detail: true, ..big_picture() };
    assert!(matches!(
        library_key(c, Key::Enter, false),
        LibraryKeyOutcome::DispatchAndRedraw(Action::LaunchGame)
    ));
    let other = LibraryKeyContext { detail_action_idx: 2, ..c };
    assert!(matches!(library_key(other, Key::Enter, false), LibraryKeyOutcome::ComingSoonAndRedraw));
    assert!(matches!(
        library_key(c, Key::Esc, false),
        LibraryKeyOutcome::Dispatch(Action::CloseGameDetail)
    ));
    assert!(matches!(library_key(c, Key::Char('q'), false), LibraryKeyOutcome::Nothing));
}

#[test]
fn slash_focuses_search_and_typing_goes_to_the_search() {
    let c = library();
    assert!(matches!(library_key(c, Key::Char('/'), false), LibraryKeyOutcome::FocusSearch));
    let s = LibraryKeyContext { focused_pane: FocusedPane::Search, ..c };
    assert!(matches!(library_key(s, Key::Char('q'), false), LibraryKeyOutcome::SearchChar('q')));
    assert!(matches!(library_key(s, Key::Backspace, false), LibraryKeyOutcome::Nothing));
    let typed = LibraryKeyContext { search_empty: false, ..s };
    assert!(matches!(library_key(typed, Key::Backspace, false), LibraryKeyOutcome::SearchBackspace));
    assert!(matches!(library_key(s, Key::Esc, false), LibraryKeyOutcome::ClearSearchAndLeave));
    assert!(matches!(library_key(s, Key::Down, false), LibraryKeyOutcome::LeaveSearch));
    assert!(matches!(
        library_key(s, Key::Char('o'), true),
        LibraryKeyOutcome::Dispatch(Action::ToggleBigPictureMode)
    ));
}

#[test]
fn arrows_move_between_panes_and_games() {
    let c = library();
    assert!(matches!(
        library_key(c, Key::Left, false),
        LibraryKeyOutcome::FocusPane(FocusedPane::Platforms)
    ));
    assert!(matches!(library_key(c, Key::Up, false), LibraryKeyOutcome::Dispatch(Action::PrevGame)));
    let top = LibraryKeyContext { selected_game_idx: 0, ..c };
    assert!(matches!(library_key(top, Key::Up, false), LibraryKeyOutcome::FocusPane(FocusedPane::Search)));
    let plat = LibraryKeyContext { focused_pane: FocusedPane::Platforms, ..c };
    assert!(matches!(library_key(plat, Key::Right, false), LibraryKeyOutcome::FocusPane(FocusedPane::Games)));
    assert!(matches!(
        library_key(plat, Key::Char('e'), false),
        LibraryKeyOutcome::Dispatch(Action::OpenFolderManagerForPlatform)
    ));
    assert!(matches!(
        library_key(c, Key::Char('e'), false),
        LibraryKeyOutcome::Dispatch(Action::OpenEditGameModal)
    ));
}

#[test]
fn carousel_selection_stays_in_the_list() {
    let c = big_picture();
    assert!(matches!(library_key(c, Key::Right, false), LibraryKeyOutcome::SelectGame(3)));
    assert!(matches!(library_key(c, Key::Left, false), LibraryKeyOutcome::SelectGame(1)));
    let last = LibraryKeyContext { selected_game_idx: 4, ..c };
    assert!(matches!(library_key(last, Key::Right, false), LibraryKeyOutcome::Nothing));
    let first = LibraryKeyContext { selected_game_idx: 0, ..c };
    assert!(matches!(library_key(first, Key::Left, false), LibraryKeyOutcome::Nothing));
    let bar = LibraryKeyContext { big_picture_focus: BigPictureFocus::PlatformBar, ..c };
    assert!(matches!(library_key(bar, Key::Right, false), LibraryKeyOutcome::Dispatch(Action::NextPlatform)));
    assert!(matches!(
        library_key(c, Key::Char('p'), false),
        LibraryKeyOutcome::Dispatch(Action::OpenPlatformSelectorModal)
    ));
    assert!(matches!(
        library_key(library(), Key::Char('p'), false),
        LibraryKeyOutcome::Dispatch(Action::ToggleShowAllPlatforms)
    ));
}
