use tui_game_station::actions::Action;
use tui_game_station::launcher::{BigPictureFocus, FocusedPane};
use tui_game_station::mouse_handler::{
    big_picture_click, library_click, platform_selector_click, platform_selector_size,
    runner_popup_click, scroll_action, settings_click, wizard_click, BigPictureClick,
    LibraryClick, PlatformSelectorClick, Rect, RunnerPopupClick, SettingsClick, WizardClick,
};

#[test]
fn rect_contains_its_cells_only() {
    let r = Rect { x: 2, y: 3, width: 4, height: 2 };
    assert!(r.contains(2, 3));
    assert!(r.contains(5, 4));
    assert!(!r.contains(6, 4));
    assert!(!r.contains(2, 5));
    assert!(!r.contains(1, 3));
}

#[test]
fn scroll_moves_through_the_focused_list() {
    assert!(matches!(
        scroll_action(true, true, false, BigPictureFocus::Carousel, FocusedPane::Games),
        Some(Action::ModalSelectPrev)
    ));
    assert!(matches!(
        scroll_action(false, false, true, BigPictureFocus::PlatformBar, FocusedPane::Games),
        Some(Action::NextPlatform)
    ));
    assert!(matches!(
        scroll_action(false, false, true, BigPictureFocus::Search, FocusedPane::Games),
        Some(Action::NextGame)
    ));
    assert!(matches!(
        scroll_action(true, false, false, BigPictureFocus::Carousel, FocusedPane::Platforms),
        Some(Action::PrevPlatform)
    ));
    assert!(scroll_action(true, false, false, BigPictureFocus::Carousel, FocusedPane::Search).is_none());
}

#[test]
fn big_picture_clicks() {
    // 100 x 40: search box is the first 30 columns of the top banner.
    assert_eq!(big_picture_click(10, 1, 100, 40), BigPictureClick::FocusSearch);
    assert_eq!(big_picture_click(40, 1, 100, 40), BigPictureClick::PlatformBarPrev);
    assert_eq!(big_picture_click(60, 1, 100, 40), BigPictureClick::FocusPlatformBar);
    assert_eq!(big_picture_click(90, 1, 100, 40), BigPictureClick::PlatformBarNext);
    assert_eq!(big_picture_click(50, 38, 100, 40), BigPictureClick::Ignore);
    assert_eq!(big_picture_click(10, 20, 100, 40), BigPictureClick::CarouselPrev);
    assert_eq!(big_picture_click(50, 20, 100, 40), BigPictureClick::CarouselCentre);
    assert_eq!(big_picture_click(90, 20, 100, 40), BigPictureClick::CarouselNext);
}

#[test]
fn library_clicks() {
    assert_eq!(library_click(50, 1, 100, 40, 5, 5), LibraryClick::FocusSearch);
    assert_eq!(library_click(50, 35, 100, 40, 5, 5), LibraryClick::Ignore);
    assert_eq!(library_click(10, 6, 100, 40, 5, 5), LibraryClick::SelectPlatform(2));
    assert_eq!(library_click(10, 20, 100, 40, 5, 5), LibraryClick::FocusPlatforms);
    assert_eq!(library_click(10, 3, 100, 40, 5, 5), LibraryClick::FocusPlatforms);
    assert_eq!(library_click(60, 4, 100, 40, 5, 5), LibraryClick::SelectGame(0));
    assert_eq!(library_click(60, 12, 100, 40, 5, 5), LibraryClick::FocusGames);
}

#[test]
fn wizard_and_settings_clicks() {
    let area = Rect { x: 10, y: 5, width: 60, height: 20 };
    assert_eq!(wizard_click(2, 12, 22, area), WizardClick::GoTo(1));
    assert_eq!(wizard_click(0, 12, 22, area), WizardClick::Nothing);
    assert_eq!(wizard_click(1, 60, 22, area), WizardClick::GoTo(2));
    assert_eq!(wizard_click(3, 60, 22, area), WizardClick::Finish);
    assert_eq!(wizard_click(3, 40, 10, area), WizardClick::Finish);
    assert_eq!(wizard_click(1, 40, 10, area), WizardClick::Nothing);
    assert_eq!(wizard_click(1, 40, 22, area), WizardClick::Nothing);
    assert_eq!(settings_click(0), SettingsClick::ToggleApiKeyEdit);
    assert_eq!(settings_click(4), SettingsClick::OpenWizard);
    assert_eq!(settings_click(9), SettingsClick::Save);
}

#[test]
fn runner_popup_clicks() {
    assert!(matches!(runner_popup_click(2, 1, 0, 50, false, false), RunnerPopupClick::SelectPathRow));
    assert!(matches!(
        runner_popup_click(2, 7, 0, 50, false, false),
        RunnerPopupClick::CycleOption { row: 3, option: 2 }
    ));
    assert!(matches!(
        runner_popup_click(2, 8, 0, 50, false, false),
        RunnerPopupClick::EditCustomArgs { row: 3 }
    ));
    assert!(matches!(
        runner_popup_click(0, 5, 0, 50, false, false),
        RunnerPopupClick::EditCustomArgs { row: 1 }
    ));
    assert!(matches!(runner_popup_click(2, 9, 0, 50, false, false), RunnerPopupClick::Nothing));
    // Buttons Browse | Save over 50 columns: 25 each.
    assert!(matches!(
        runner_popup_click(2, 10, 30, 50, false, false),
        RunnerPopupClick::Press { row: 4, button: 1, action: Action::SaveRunnerConfig }
    ));
    assert!(matches!(
        runner_popup_click(2, 10, 49, 50, true, true),
        RunnerPopupClick::Press { row: 4, button: 4, action: Action::OpenConfirmDeleteRunnerModal }
    ));
    assert!(matches!(
        runner_popup_click(0, 7, 10, 50, false, false),
        RunnerPopupClick::Press { row: 2, button: 0, action: Action::OpenFilePicker }
    ));
}

#[test]
fn platform_selector_popup() {
    assert_eq!(platform_selector_size(10, 5, 200, 50), (42, 7));
    assert_eq!(platform_selector_size(50, 40, 200, 50), (60, 16));
    assert_eq!(platform_selector_size(20, 1, 30, 3), (26, 1));
    let popup = Rect { x: 10, y: 5, width: 42, height: 10 };
    assert_eq!(platform_selector_click(0, 0, popup, 5, 0), PlatformSelectorClick::Close);
    assert_eq!(platform_selector_click(20, 6, popup, 5, 0), PlatformSelectorClick::Confirm);
    assert_eq!(platform_selector_click(20, 8, popup, 5, 0), PlatformSelectorClick::Select(2));
    assert_eq!(platform_selector_click(20, 5, popup, 5, 0), PlatformSelectorClick::Nothing);
    assert_eq!(platform_selector_click(20, 13, popup, 5, 0), PlatformSelectorClick::Nothing);
}
