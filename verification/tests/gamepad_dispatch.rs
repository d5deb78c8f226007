use tui_game_station::actions::Action;
use tui_game_station::gamepad::GamepadAction;
use tui_game_station::gamepad_dispatch::{
    button_action, handle_gamepad_action, handle_runner_popup_gamepad, runner_buttons,
    GamepadContext, GamepadOutcome, ModalKind, RunnerButton, RunnerPopupCommand,
    RunnerPopupInfo, RunnerPopupState,
};
use tui_game_station::launcher::{FocusedPane, ViewMode};
use tui_game_station::scan_form::ScanFolderItem;

fn ctx() -> GamepadContext {
    GamepadContext {
        big_picture_in_detail: false,
        detail_action_idx: 0,
        modal: ModalKind::Closed,
        is_big_picture: false,
        focused_pane: FocusedPane::Games,
        view_mode: ViewMode::Table,
        games_empty: false,
        form_field: 0,
        form_supports_dat: false,
        form_has_core: false,
        edit_is_emulator: false,
        scan_item: None,
        editing_api_key: false,
    }
}

#[test]
fn detail_view_only_launches_moves_or_closes() {
    let mut c = ctx();
    c.big_picture_in_detail = true;
    assert!(matches!(
        handle_gamepad_action(c, GamepadAction::Confirm),
        GamepadOutcome::Dispatch(Action::LaunchGame)
    ));
    c.detail_action_idx = 2;
    assert!(matches!(handle_gamepad_action(c, GamepadAction::Confirm), GamepadOutcome::ComingSoon));
    assert!(matches!(
        handle_gamepad_action(c, GamepadAction::Back),
        GamepadOutcome::Dispatch(Action::CloseGameDetail)
    ));
    assert!(matches!(
        handle_gamepad_action(c, GamepadAction::Left),
        GamepadOutcome::Dispatch(Action::DetailPrevAction)
    ));
    assert!(matches!(handle_gamepad_action(c, GamepadAction::OpenMenu), GamepadOutcome::Nothing));
}

#[test]
fn library_panes_follow_the_pad() {
    let c = ctx();
    assert!(matches!(
        handle_gamepad_action(c, GamepadAction::Confirm),
        GamepadOutcome::Dispatch(Action::LaunchGame)
    ));
    assert!(matches!(handle_gamepad_action(c, GamepadAction::Back), GamepadOutcome::FocusPlatforms));
    assert!(matches!(
        handle_gamepad_action(c, GamepadAction::DeleteSelected),
        GamepadOutcome::Dispatch(Action::OpenConfirmDeleteModal)
    ));
    let mut p = ctx();
    p.focused_pane = FocusedPane::Platforms;
    assert!(matches!(handle_gamepad_action(p, GamepadAction::Confirm), GamepadOutcome::FocusGames));
    assert!(matches!(
        handle_gamepad_action(p, GamepadAction::Right),
        GamepadOutcome::Dispatch(Action::CycleActiveEmulatorNext)
    ));
    let mut cover = ctx();
    cover.view_mode = ViewMode::CoverCard;
    assert!(matches!(
        handle_gamepad_action(cover, GamepadAction::Left),
        GamepadOutcome::Dispatch(Action::PrevGame)
    ));
    assert!(matches!(
        handle_gamepad_action(ctx(), GamepadAction::OpenMenu),
        GamepadOutcome::Dispatch(Action::OpenSettingsModal)
    ));
    let mut bp = ctx();
    bp.is_big_picture = true;
    assert!(matches!(
        handle_gamepad_action(bp, GamepadAction::ToggleViewMode),
        GamepadOutcome::Dispatch(Action::OpenPlatformSelectorModal)
    ));
}

#[test]
fn modals_take_the_pad_without_launching_or_deleting() {
    let mut c = ctx();
    c.modal = ModalKind::ConfirmDeleteGame;
    assert!(matches!(
        handle_gamepad_action(c, GamepadAction::Confirm),
        GamepadOutcome::Dispatch(Action::ConfirmDeleteGameExecution)
    ));
    assert!(matches!(
        handle_gamepad_action(c, GamepadAction::Back),
        GamepadOutcome::Dispatch(Action::CloseModal)
    ));
    assert!(matches!(handle_gamepad_action(c, GamepadAction::DeleteSelected), GamepadOutcome::Nothing));

    let mut f = ctx();
    f.modal = ModalKind::AddFolderScanForm;
    f.form_field = 3;
    assert!(matches!(
        handle_gamepad_action(f, GamepadAction::Left),
        GamepadOutcome::CycleAddFolderEmulator(true)
    ));
    f.form_field = 4;
    f.form_has_core = true;
    assert!(matches!(
        handle_gamepad_action(f, GamepadAction::Right),
        GamepadOutcome::CycleAddFolderCore(false)
    ));
    assert!(matches!(
        handle_gamepad_action(f, GamepadAction::Down),
        GamepadOutcome::Dispatch(Action::ModalNextField)
    ));

    let mut s = ctx();
    s.modal = ModalKind::ScanFolderForm;
    s.scan_item = Some(ScanFolderItem::FolderCore(0));
    assert!(matches!(
        handle_gamepad_action(s, GamepadAction::Left),
        GamepadOutcome::Dispatch(Action::CycleFolderCore(true))
    ));
    assert!(matches!(handle_gamepad_action(s, GamepadAction::Confirm), GamepadOutcome::ScanFormEnter));

    let mut r = ctx();
    r.modal = ModalKind::ManageRunnersStep2Config;
    assert!(matches!(handle_gamepad_action(r, GamepadAction::Up), GamepadOutcome::RunnerOptionsPopup));
}

#[test]
fn runner_popup_buttons_and_navigation() {
    assert_eq!(runner_buttons(false, false), vec![RunnerButton::Browse, RunnerButton::Save]);
    assert_eq!(
        runner_buttons(true, true),
        vec![
            RunnerButton::Browse,
            RunnerButton::Download,
            RunnerButton::Save,
            RunnerButton::Open,
            RunnerButton::Delete
        ]
    );
    assert!(matches!(button_action(RunnerButton::Download), Action::StartRunnerDownload));

    let info = RunnerPopupInfo {
        exe_path_len: 3,
        exe_path_blank: false,
        custom_args_len: 0,
        has_download_url: false,
        has_executable: true,
    };
    let mut s = RunnerPopupState { option_count: 2, selected_row: 0, selected_action_idx: 0, cursor_pos: 3 };
    assert!(matches!(handle_runner_popup_gamepad(&mut s, info, GamepadAction::Up), RunnerPopupCommand::Idle));
    assert_eq!(s.selected_row, 4);
    assert!(matches!(handle_runner_popup_gamepad(&mut s, info, GamepadAction::Down), RunnerPopupCommand::Idle));
    assert_eq!(s.selected_row, 0);
    handle_runner_popup_gamepad(&mut s, info, GamepadAction::Right);
    assert_eq!(s.cursor_pos, 3);
    handle_runner_popup_gamepad(&mut s, info, GamepadAction::Left);
    assert_eq!(s.cursor_pos, 2);
    s.selected_row = 2;
    assert!(matches!(
        handle_runner_popup_gamepad(&mut s, info, GamepadAction::Left),
        RunnerPopupCommand::CycleOption { idx: 1, backward: true }
    ));
    s.selected_row = 3;
    assert!(matches!(
        handle_runner_popup_gamepad(&mut s, info, GamepadAction::Confirm),
        RunnerPopupCommand::Dispatch(Action::OpenCustomArgsEditor)
    ));
    s.selected_row = 4;
    for _ in 0..10 {
        handle_runner_popup_gamepad(&mut s, info, GamepadAction::Right);
    }
    assert_eq!(s.selected_action_idx, 3);
    assert!(matches!(
        handle_runner_popup_gamepad(&mut s, info, GamepadAction::Confirm),
        RunnerPopupCommand::Dispatch(Action::OpenConfirmDeleteRunnerModal)
    ));
    s.selected_row = 0;
    assert!(matches!(handle_runner_popup_gamepad(&mut s, info, GamepadAction::Confirm), RunnerPopupCommand::Idle));
    assert_eq!(s.selected_row, 4);
    assert!(matches!(
        handle_runner_popup_gamepad(&mut s, info, GamepadAction::Back),
        RunnerPopupCommand::Dispatch(Action::CloseModal)
    ));
}
