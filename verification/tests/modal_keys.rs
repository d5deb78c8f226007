use tui_game_station::actions::Action;
use tui_game_station::gamepad_dispatch::ModalKind;
use tui_game_station::keyboard::Key;
use tui_game_station::modal_keys::{modal_key, ModalKeyContext, ModalKeyOutcome, Modifiers};
use tui_game_station::scan_form::PlatformType;

const NONE: Modifiers = Modifiers { shift: false, ctrl: false, alt: false };

fn ctx(modal: ModalKind) -> ModalKeyContext {
    ModalKeyContext {
        modal,
        settings_field: 0,
        editing_api_key: false,
        api_key_cursor: 0,
        api_key_len: 0,
        wizard_step: 0,
        wizard_active_field: 0,
        wizard_cursor: 0,
        wizard_key_len: 0,
        media_section: 0,
        media_tab: 0,
        media_no_candidates: true,
        runner_row: 0,
        runner_option_count: 2,
        runner_cursor: 0,
        runner_exe_len: 0,
        runner_args_len: 0,
        runner_action_idx: 0,
        runner_nav_buttons: 3,
        runner_has_download_url: false,
        runner_has_executable: false,
        runner_exe_blank: true,
        form_type: PlatformType::Emulator,
        form_field: 0,
        scan_pane: 0,
        scan_field: 0,
        scan_rows: 0,
        scan_supports_dat: false,
        scan_has_core: false,
    }
}

#[test]
fn esc_closes_steps_back_or_stops_editing() {
    assert!(matches!(
        modal_key(ctx(ModalKind::AddGameForm), Key::Esc, NONE),
        ModalKeyOutcome::Dispatch(Action::CloseModal)
    ));
    assert!(matches!(
        modal_key(ctx(ModalKind::ProtonDownloader), Key::Esc, NONE),
        ModalKeyOutcome::Dispatch(Action::ProtonDownloaderBack)
    ));
    assert!(matches!(
        modal_key(ctx(ModalKind::WelcomeWizard), Key::Esc, NONE),
        ModalKeyOutcome::FinishWelcomeWizard
    ));
    let editing = ModalKeyContext { editing_api_key: true, ..ctx(ModalKind::AppSettings) };
    assert!(matches!(modal_key(editing, Key::Esc, NONE), ModalKeyOutcome::StopEditingApiKey));
}

#[test]
fn tab_cycles_settings_rows_and_wizard_steps() {
    let s = ModalKeyContext { settings_field: 4, ..ctx(ModalKind::AppSettings) };
    assert!(matches!(
        modal_key(s, Key::Tab, NONE),
        ModalKeyOutcome::SetSettingsField { field: 0, stop_editing: false }
    ));
    let w = ModalKeyContext { wizard_step: 3, ..ctx(ModalKind::WelcomeWizard) };
    assert!(matches!(modal_key(w, Key::Tab, NONE), ModalKeyOutcome::SetWizardStep(0)));
    let shift = Modifiers { shift: true, ..NONE };
    assert!(matches!(
        modal_key(ctx(ModalKind::AddGameForm), Key::Tab, shift),
        ModalKeyOutcome::Dispatch(Action::ModalPrevField)
    ));
    assert!(matches!(
        modal_key(ctx(ModalKind::ScanFolderForm), Key::Tab, NONE),
        ModalKeyOutcome::Dispatch(Action::SwitchScanFolderPane)
    ));
}

#[test]
fn runner_popup_rows_wrap() {
    let c = ctx(ModalKind::ManageRunnersStep2Config);
    assert!(matches!(modal_key(c, Key::Up, NONE), ModalKeyOutcome::SetRunnerRow(4)));
    let last = ModalKeyContext { runner_row: 4, ..c };
    assert!(matches!(modal_key(last, Key::Down, NONE), ModalKeyOutcome::SetRunnerRow(0)));
    let opt = ModalKeyContext { runner_row: 2, ..c };
    assert!(matches!(
        modal_key(opt, Key::Left, NONE),
        ModalKeyOutcome::CycleRunnerOption { idx: 1, backward: true }
    ));
    assert!(matches!(
        modal_key(opt, Key::Char(' '), NONE),
        ModalKeyOutcome::CycleRunnerOption { idx: 1, backward: false }
    ));
}

#[test]
fn runner_popup_enter() {
    let c = ctx(ModalKind::ManageRunnersStep2Config);
    assert!(matches!(modal_key(c, Key::Enter, NONE), ModalKeyOutcome::Dispatch(Action::OpenFilePicker)));
    let typed = ModalKeyContext { runner_exe_blank: false, ..c };
    assert!(matches!(modal_key(typed, Key::Enter, NONE), ModalKeyOutcome::SetRunnerRow(4)));
    let args = ModalKeyContext { runner_row: 3, ..c };
    assert!(matches!(
        modal_key(args, Key::Enter, NONE),
        ModalKeyOutcome::Dispatch(Action::OpenCustomArgsEditor)
    ));
    // Buttons without a download URL or executable: Browse, Save.
    let buttons = ModalKeyContext { runner_row: 4, runner_action_idx: 1, ..c };
    assert!(matches!(
        modal_key(buttons, Key::Enter, NONE),
        ModalKeyOutcome::Dispatch(Action::SaveRunnerConfig)
    ));
    let browse = ModalKeyContext { runner_action_idx: 0, ..buttons };
    assert!(matches!(
        modal_key(browse, Key::Enter, NONE),
        ModalKeyOutcome::Dispatch(Action::OpenFilePicker)
    ));
}

#[test]
fn game_form_enter_and_space() {
    let wine = ModalKeyContext { form_type: PlatformType::Wine, form_field: 7, ..ctx(ModalKind::AddGameForm) };
    assert!(matches!(
        modal_key(wine, Key::Enter, NONE),
        ModalKeyOutcome::Dispatch(Action::ModalToggleCheckbox)
    ));
    assert!(matches!(
        modal_key(wine, Key::Char(' '), NONE),
        ModalKeyOutcome::Dispatch(Action::ModalToggleCheckbox)
    ));
    let save = ModalKeyContext { form_field: 13, ..wine };
    assert!(matches!(modal_key(save, Key::Enter, NONE), ModalKeyOutcome::Dispatch(Action::SaveModalGame)));
    let edit = ModalKeyContext { modal: ModalKind::EditGameForm, ..save };
    assert!(matches!(
        modal_key(edit, Key::Enter, NONE),
        ModalKeyOutcome::Dispatch(Action::SaveEditGameModal)
    ));
    let runner = ModalKeyContext { form_field: 4, ..wine };
    assert!(matches!(
        modal_key(runner, Key::Char('p'), NONE),
        ModalKeyOutcome::Dispatch(Action::OpenWineRunnerPicker)
    ));
    let name = ModalKeyContext { form_field: 0, ..wine };
    assert!(matches!(
        modal_key(name, Key::Char(' '), NONE),
        ModalKeyOutcome::Dispatch(Action::ModalInputChar(' '))
    ));
}

#[test]
fn digits_pick_media_tabs() {
    let c = ctx(ModalKind::VisualMediaSelector);
    assert!(matches!(
        modal_key(c, Key::Char('3'), NONE),
        ModalKeyOutcome::Dispatch(Action::SetVisualMediaTab(2))
    ));
    assert!(matches!(
        modal_key(ctx(ModalKind::AddGameForm), Key::Char('3'), NONE),
        ModalKeyOutcome::Dispatch(Action::ModalInputChar('3'))
    ));
}

#[test]
fn wizard_key_editing_and_paste() {
    let w = ModalKeyContext { wizard_step: 2, wizard_cursor: 1, wizard_key_len: 3, ..ctx(ModalKind::WelcomeWizard) };
    assert!(matches!(modal_key(w, Key::Char('k'), NONE), ModalKeyOutcome::WizardInsert('k')));
    assert!(matches!(modal_key(w, Key::Left, NONE), ModalKeyOutcome::SetWizardCursor(0)));
    assert!(matches!(modal_key(w, Key::End, NONE), ModalKeyOutcome::SetWizardCursor(3)));
    assert!(matches!(modal_key(w, Key::Backspace, NONE), ModalKeyOutcome::WizardBackspace));
    let ctrl = Modifiers { ctrl: true, ..NONE };
    assert!(matches!(modal_key(w, Key::Char('v'), ctrl), ModalKeyOutcome::PasteWizard));
    let end = ModalKeyContext { wizard_cursor: 3, ..w };
    assert!(matches!(modal_key(end, Key::Right, NONE), ModalKeyOutcome::SetWizardStep(3)));
}

#[test]
fn delete_and_folder_keys() {
    assert!(matches!(
        modal_key(ctx(ModalKind::ManageWineRunners), Key::Delete, NONE),
        ModalKeyOutcome::Dispatch(Action::DeleteInstalledWineRunner)
    ));
    assert!(matches!(
        modal_key(ctx(ModalKind::ScanFolderForm), Key::Delete, NONE),
        ModalKeyOutcome::Dispatch(Action::OpenConfirmDeleteFolder)
    ));
    let rows = ModalKeyContext { scan_rows: 2, ..ctx(ModalKind::ScanFolderForm) };
    assert!(matches!(
        modal_key(rows, Key::Right, NONE),
        ModalKeyOutcome::Dispatch(Action::CycleFolderEmulator(false))
    ));
    assert!(matches!(
        modal_key(rows, Key::Char(' '), NONE),
        ModalKeyOutcome::Dispatch(Action::ToggleSelectFolder)
    ));
    assert!(matches!(modal_key(rows, Key::Enter, NONE), ModalKeyOutcome::ScanFormEnter));
}

#[test]
fn about_u_checks_for_updates() {
    assert!(matches!(
        modal_key(ctx(ModalKind::About), Key::Char('u'), NONE),
        ModalKeyOutcome::Dispatch(Action::CheckForUpdates { silent: false })
    ));
    assert!(matches!(
        modal_key(ctx(ModalKind::FuzzySearchModal), Key::Char('u'), NONE),
        ModalKeyOutcome::Dispatch(Action::ModalInputChar('u'))
    ));
    assert!(matches!(
        modal_key(ctx(ModalKind::FuzzySearchModal), Key::Char('z'), NONE),
        ModalKeyOutcome::FuzzyInsert('z')
    ));
}
