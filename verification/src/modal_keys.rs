//! What a key press does while a modal is open: closing or stepping back,
//! moving between fields and list items, moving cursors, toggling
//! checkboxes, typing, and [Enter] on each kind of modal.
use vstd::prelude::*;
use crate::actions::{Action, forward_back_pair};
use crate::gamepad_dispatch::{ModalKind, RunnerButton, button_action, button_action_spec, runner_buttons, runner_buttons_spec};
use crate::keyboard::Key;
use crate::scan_form::{PlatformType, scan_folder_add_emu_idx, scan_folder_add_emu_idx_spec};

verus! {

/// The modifier keys held with a key press.
#[derive(Debug, Clone, Copy, PartialEq, Eq, Structural)]
pub struct Modifiers {
    pub shift: bool,
    pub ctrl: bool,
    pub alt: bool,
}

/// What the key handler reads of the open modal.
#[derive(Debug, Clone, Copy, PartialEq, Eq, Structural)]
pub struct ModalKeyContext {
    pub modal: ModalKind,
    /// Settings modal: the focused row, whether the API key is being edited,
    /// the API key's cursor and byte length.
    pub settings_field: usize,
    pub editing_api_key: bool,
    pub api_key_cursor: usize,
    pub api_key_len: usize,
    /// Welcome wizard: its step, the focused field of its last step, and the
    /// cursor and byte length of the SteamGridDB key typed at step 2.
    pub wizard_step: usize,
    pub wizard_active_field: usize,
    pub wizard_cursor: usize,
    pub wizard_key_len: usize,
    /// Media picker: focused section, active tab, and whether it has search
    /// results.
    pub media_section: usize,
    pub media_tab: usize,
    pub media_no_candidates: bool,
    /// Emulator options popup: focused row, number of options, cursor,
    /// byte lengths of the executable path and the custom arguments, the
    /// selected button, the number of buttons ◀ ▶ move through, and what
    /// [Enter] sees of the runner (download URL, usable executable, blank
    /// path).
    pub runner_row: usize,
    pub runner_option_count: usize,
    pub runner_cursor: usize,
    pub runner_exe_len: usize,
    pub runner_args_len: usize,
    pub runner_action_idx: usize,
    pub runner_nav_buttons: usize,
    pub runner_has_download_url: bool,
    pub runner_has_executable: bool,
    pub runner_exe_blank: bool,
    /// Add/edit game forms: platform type and focused field.
    pub form_type: PlatformType,
    pub form_field: usize,
    /// Folder manager / add-folder form: focused pane (0 folders, 1 new
    /// folder), focused field, number of folder rows, DAT support, and
    /// whether the chosen emulator runs cores.
    pub scan_pane: usize,
    pub scan_field: usize,
    pub scan_rows: usize,
    pub scan_supports_dat: bool,
    pub scan_has_core: bool,
}

/// What the launcher does with a key while a modal is open.
#[derive(Debug)]
pub enum ModalKeyOutcome {
    Nothing,
    Dispatch(Action),
    /// Stop editing the API key in the settings modal.
    StopEditingApiKey,
    /// Finish the welcome wizard with the key it holds.
    FinishWelcomeWizard,
    SetWizardStep(usize),
    SetWizardActiveField(usize),
    SetWizardCursor(usize),
    /// Focus a settings row (and stop editing the API key when asked).
    SetSettingsField { field: usize, stop_editing: bool },
    SetApiKeyCursor(usize),
    /// Toggle editing the API key (the cursor goes to the end when editing starts).
    ToggleApiKeyEdit,
    SetRunnerRow(usize),
    SetRunnerCursor(usize),
    SetRunnerActionIdx(usize),
    CycleRunnerOption { idx: usize, backward: bool },
    CycleAddFolderEmulator(bool),
    CycleAddFolderCore(bool),
    /// Install the update the modal offers.
    StartOfferedUpdate,
    /// [Enter] on the folder manager.
    ScanFormEnter,
    /// [Enter] on the add-folder form.
    AddScanFormEnter,
    /// Pick the highlighted Wine tool and run it.
    RunWineTool,
    /// Type into, erase from, or delete in the wizard's key.
    WizardInsert(char),
    WizardBackspace,
    WizardDelete,
    /// Delete the character at the settings API key's cursor.
    ApiKeyDelete,
    /// Type into or erase from the fuzzy search query.
    FuzzyInsert(char),
    FuzzyBackspace,
    /// Paste the clipboard into the wizard key, the settings key, or the API
    /// key input.
    PasteWizard,
    PasteSettings,
    PasteApiKeyInput,
}

/// The field index is one of the launch-option checkboxes of a game form.
pub open spec fn on_checkbox(t: PlatformType, field: usize) -> bool {
    match t {
        PlatformType::Wine => 6 <= field <= 12,
        PlatformType::Native => 4 <= field <= 6,
        _ => 3 <= field <= 5,
    }
}

fn is_on_checkbox(t: PlatformType, field: usize) -> (b: bool)
    ensures
        b == on_checkbox(t, field),
{
    match t {
        PlatformType::Wine => 6 <= field && field <= 12,
        PlatformType::Native => 4 <= field && field <= 6,
        _ => 3 <= field && field <= 5,
    }
}

/// Lists whose ▲ ▼ select the previous / next item.
pub open spec fn is_plain_list(m: ModalKind) -> bool {
    m == ModalKind::AddGameStep1Type || m == ModalKind::ScanFolderStep1Platform || m
        == ModalKind::ManageRunnersStep1Platform || m == ModalKind::ManageWineRunners || m
        == ModalKind::SelectWineRunnerPicker || m == ModalKind::PlatformSelector || m
        == ModalKind::WineToolsMenu
}

pub open spec fn esc_spec(c: ModalKeyContext) -> ModalKeyOutcome {
    if c.modal == ModalKind::AppSettings && c.editing_api_key {
        ModalKeyOutcome::StopEditingApiKey
    } else if c.modal == ModalKind::ProtonDownloader {
        ModalKeyOutcome::Dispatch(Action::ProtonDownloaderBack)
    } else if c.modal == ModalKind::WelcomeWizard {
        ModalKeyOutcome::FinishWelcomeWizard
    } else {
        ModalKeyOutcome::Dispatch(Action::CloseModal)
    }
}

fn esc_key(c: ModalKeyContext) -> (r: ModalKeyOutcome)
    ensures
        r == esc_spec(c),
{
    if c.modal == ModalKind::AppSettings && c.editing_api_key {
        ModalKeyOutcome::StopEditingApiKey
    } else if c.modal == ModalKind::ProtonDownloader {
        ModalKeyOutcome::Dispatch(Action::ProtonDownloaderBack)
    } else if c.modal == ModalKind::WelcomeWizard {
        ModalKeyOutcome::FinishWelcomeWizard
    } else {
        ModalKeyOutcome::Dispatch(Action::CloseModal)
    }
}

pub open spec fn tab_spec(c: ModalKeyContext, m: Modifiers) -> ModalKeyOutcome {
    if c.modal == ModalKind::VisualMediaSelector {
        ModalKeyOutcome::Dispatch(Action::SwitchVisualMediaTab)
    } else if c.modal == ModalKind::WelcomeWizard {
        ModalKeyOutcome::SetWizardStep(((c.wizard_step + 1) % 4) as usize)
    } else if c.modal == ModalKind::AppSettings {
        ModalKeyOutcome::SetSettingsField {
            field: ((c.settings_field + 1) % 5) as usize,
            stop_editing: false,
        }
    } else if c.modal == ModalKind::ScanFolderForm {
        ModalKeyOutcome::Dispatch(Action::SwitchScanFolderPane)
    } else if m.shift {
        ModalKeyOutcome::Dispatch(Action::ModalPrevField)
    } else {
        ModalKeyOutcome::Dispatch(Action::ModalNextField)
    }
}

fn tab_key(c: ModalKeyContext, m: Modifiers) -> (r: ModalKeyOutcome)
    requires
        c.wizard_step < usize::MAX,
        c.settings_field < usize::MAX,
    ensures
        r == tab_spec(c, m),
{
    if c.modal == ModalKind::VisualMediaSelector {
        ModalKeyOutcome::Dispatch(Action::SwitchVisualMediaTab)
    } else if c.modal == ModalKind::WelcomeWizard {
        ModalKeyOutcome::SetWizardStep((c.wizard_step + 1) % 4)
    } else if c.modal == ModalKind::AppSettings {
        ModalKeyOutcome::SetSettingsField { field: (c.settings_field + 1) % 5, stop_editing: false }
    } else if c.modal == ModalKind::ScanFolderForm {
        ModalKeyOutcome::Dispatch(Action::SwitchScanFolderPane)
    } else if m.shift {
        ModalKeyOutcome::Dispatch(Action::ModalPrevField)
    } else {
        ModalKeyOutcome::Dispatch(Action::ModalNextField)
    }
}

pub open spec fn up_spec(c: ModalKeyContext) -> ModalKeyOutcome {
    let m = c.modal;
    if m == ModalKind::AppSettings {
        ModalKeyOutcome::SetSettingsField {
            field: if c.settings_field > 0 {
                (c.settings_field - 1) as usize
            } else {
                c.settings_field
            },
            stop_editing: true,
        }
    } else if m == ModalKind::WelcomeWizard && c.wizard_step == 3 {
        ModalKeyOutcome::SetWizardActiveField(
            if c.wizard_active_field > 0 {
                (c.wizard_active_field - 1) as usize
            } else {
                c.wizard_active_field
            },
        )
    } else if m == ModalKind::VisualMediaSelector {
        ModalKeyOutcome::Dispatch(Action::VisualMediaNavUp)
    } else if m == ModalKind::ProtonDownloader {
        ModalKeyOutcome::Dispatch(Action::ProtonDownloaderSelectPrev)
    } else if m == ModalKind::ConfirmDeleteGame {
        ModalKeyOutcome::Dispatch(Action::ToggleConfirmDeleteOption)
    } else if m == ModalKind::ConfirmDeleteRunner {
        ModalKeyOutcome::Dispatch(Action::ToggleConfirmDeleteRunnerOption)
    } else if is_plain_list(m) {
        ModalKeyOutcome::Dispatch(Action::ModalSelectPrev)
    } else if m == ModalKind::ManageRunnersStep2Config {
        ModalKeyOutcome::SetRunnerRow(
            if c.runner_row == 0 {
                (c.runner_option_count + 2) as usize
            } else {
                (c.runner_row - 1) as usize
            },
        )
    } else if m == ModalKind::ScanFolderForm || m == ModalKind::AddFolderScanForm {
        ModalKeyOutcome::Dispatch(Action::ModalPrevField)
    } else {
        ModalKeyOutcome::Dispatch(Action::ModalSelectPrev)
    }
}

fn up_key(c: ModalKeyContext) -> (r: ModalKeyOutcome)
    requires
        c.runner_option_count + 3 <= usize::MAX,
    ensures
        r == up_spec(c),
{
    let m = c.modal;
    if m == ModalKind::AppSettings {
        ModalKeyOutcome::SetSettingsField {
            field: if c.settings_field > 0 {
                c.settings_field - 1
            } else {
                c.settings_field
            },
            stop_editing: true,
        }
    } else if m == ModalKind::WelcomeWizard && c.wizard_step == 3 {
        ModalKeyOutcome::SetWizardActiveField(
            if c.wizard_active_field > 0 {
                c.wizard_active_field - 1
            } else {
                c.wizard_active_field
            },
        )
    } else if m == ModalKind::VisualMediaSelector {
        ModalKeyOutcome::Dispatch(Action::VisualMediaNavUp)
    } else if m == ModalKind::ProtonDownloader {
        ModalKeyOutcome::Dispatch(Action::ProtonDownloaderSelectPrev)
    } else if m == ModalKind::ConfirmDeleteGame {
        ModalKeyOutcome::Dispatch(Action::ToggleConfirmDeleteOption)
    } else if m == ModalKind::ConfirmDeleteRunner {
        ModalKeyOutcome::Dispatch(Action::ToggleConfirmDeleteRunnerOption)
    } else if m == ModalKind::AddGameStep1Type || m == ModalKind::ScanFolderStep1Platform || m
        == ModalKind::ManageRunnersStep1Platform || m == ModalKind::ManageWineRunners || m
        == ModalKind::SelectWineRunnerPicker || m == ModalKind::PlatformSelector || m
        == ModalKind::WineToolsMenu {
        ModalKeyOutcome::Dispatch(Action::ModalSelectPrev)
    } else if m == ModalKind::ManageRunnersStep2Config {
        ModalKeyOutcome::SetRunnerRow(
            if c.runner_row == 0 {
                c.runner_option_count + 2
            } else {
                c.runner_row - 1
            },
        )
    } else if m == ModalKind::ScanFolderForm || m == ModalKind::AddFolderScanForm {
        ModalKeyOutcome::Dispatch(Action::ModalPrevField)
    } else {
        ModalKeyOutcome::Dispatch(Action::ModalSelectPrev)
    }
}

pub open spec fn down_spec(c: ModalKeyContext) -> ModalKeyOutcome {
    let m = c.modal;
    if m == ModalKind::AppSettings {
        ModalKeyOutcome::SetSettingsField {
            field: if c.settings_field < 4 {
                (c.settings_field + 1) as usize
            } else {
                c.settings_field
            },
            stop_editing: true,
        }
    } else if m == ModalKind::WelcomeWizard && c.wizard_step == 3 {
        ModalKeyOutcome::SetWizardActiveField(
            if c.wizard_active_field < 1 {
                (c.wizard_active_field + 1) as usize
            } else {
                c.wizard_active_field
            },
        )
    } else if m == ModalKind::VisualMediaSelector {
        ModalKeyOutcome::Dispatch(Action::VisualMediaNavDown)
    } else if m == ModalKind::ProtonDownloader {
        ModalKeyOutcome::Dispatch(Action::ProtonDownloaderSelectNext)
    } else if m == ModalKind::ConfirmDeleteGame {
        ModalKeyOutcome::Dispatch(Action::ToggleConfirmDeleteOption)
    } else if m == ModalKind::ConfirmDeleteRunner {
        ModalKeyOutcome::Dispatch(Action::ToggleConfirmDeleteRunnerOption)
    } else if m == ModalKind::ManageRunnersStep2Config {
        ModalKeyOutcome::SetRunnerRow(((c.runner_row + 1) % (c.runner_option_count + 3)) as usize)
    } else if is_plain_list(m) || m == ModalKind::DownloadCoreModal {
        ModalKeyOutcome::Dispatch(Action::ModalSelectNext)
    } else {
        ModalKeyOutcome::Dispatch(Action::ModalNextField)
    }
}

fn down_key(c: ModalKeyContext) -> (r: ModalKeyOutcome)
    requires
        c.runner_option_count + 3 <= usize::MAX,
        c.runner_row < usize::MAX,
    ensures
        r == down_spec(c),
{
    let m = c.modal;
    if m == ModalKind::AppSettings {
        ModalKeyOutcome::SetSettingsField {
            field: if c.settings_field < 4 {
                c.settings_field + 1
            } else {
                c.settings_field
            },
            stop_editing: true,
        }
    } else if m == ModalKind::WelcomeWizard && c.wizard_step == 3 {
        ModalKeyOutcome::SetWizardActiveField(
            if c.wizard_active_field < 1 {
                c.wizard_active_field + 1
            } else {
                c.wizard_active_field
            },
        )
    } else if m == ModalKind::VisualMediaSelector {
        ModalKeyOutcome::Dispatch(Action::VisualMediaNavDown)
    } else if m == ModalKind::ProtonDownloader {
        ModalKeyOutcome::Dispatch(Action::ProtonDownloaderSelectNext)
    } else if m == ModalKind::ConfirmDeleteGame {
        ModalKeyOutcome::Dispatch(Action::ToggleConfirmDeleteOption)
    } else if m == ModalKind::ConfirmDeleteRunner {
        ModalKeyOutcome::Dispatch(Action::ToggleConfirmDeleteRunnerOption)
    } else if m == ModalKind::ManageRunnersStep2Config {
        ModalKeyOutcome::SetRunnerRow((c.runner_row + 1) % (c.runner_option_count + 3))
    } else if m == ModalKind::AddGameStep1Type || m == ModalKind::ScanFolderStep1Platform || m
        == ModalKind::ManageRunnersStep1Platform || m == ModalKind::ManageWineRunners || m
        == ModalKind::SelectWineRunnerPicker || m == ModalKind::PlatformSelector || m
        == ModalKind::WineToolsMenu || m == ModalKind::DownloadCoreModal {
        ModalKeyOutcome::Dispatch(Action::ModalSelectNext)
    } else {
        ModalKeyOutcome::Dispatch(Action::ModalNextField)
    }
}

/// ◀ / ▶ on the new-folder selectors: the emulator field cycles the
/// emulator, the core field (when shown) the core.
pub open spec fn folder_selector_spec(c: ModalKeyContext, backward: bool) -> ModalKeyOutcome {
    let emu = scan_folder_add_emu_idx_spec(c.scan_supports_dat);
    if c.scan_field == emu {
        ModalKeyOutcome::CycleAddFolderEmulator(backward)
    } else if c.scan_has_core && c.scan_field == emu + 1 {
        ModalKeyOutcome::CycleAddFolderCore(backward)
    } else {
        ModalKeyOutcome::Nothing
    }
}

fn folder_selector(c: ModalKeyContext, backward: bool) -> (r: ModalKeyOutcome)
    ensures
        r == folder_selector_spec(c, backward),
{
    let emu = scan_folder_add_emu_idx(c.scan_supports_dat);
    if c.scan_field == emu {
        ModalKeyOutcome::CycleAddFolderEmulator(backward)
    } else if c.scan_has_core && c.scan_field == emu + 1 {
        ModalKeyOutcome::CycleAddFolderCore(backward)
    } else {
        ModalKeyOutcome::Nothing
    }
}

/// ◀ (`backward`) or ▶ on the folder manager: the new-folder pane cycles its
/// selectors; on the folders pane a folder row re-assigns its emulator.
pub open spec fn scan_form_side_spec(c: ModalKeyContext, backward: bool) -> ModalKeyOutcome {
    if c.scan_pane == 1 {
        folder_selector_spec(c, backward)
    } else if c.scan_field < c.scan_rows {
        ModalKeyOutcome::Dispatch(Action::CycleFolderEmulator(backward))
    } else {
        ModalKeyOutcome::Nothing
    }
}

pub open spec fn left_spec(c: ModalKeyContext) -> ModalKeyOutcome {
    let m = c.modal;
    let n = c.runner_option_count;
    if m == ModalKind::WelcomeWizard {
        if c.wizard_step == 2 && c.wizard_cursor > 0 {
            ModalKeyOutcome::SetWizardCursor((c.wizard_cursor - 1) as usize)
        } else if c.wizard_step > 0 {
            ModalKeyOutcome::SetWizardStep((c.wizard_step - 1) as usize)
        } else {
            ModalKeyOutcome::Nothing
        }
    } else if m == ModalKind::AppSettings && c.settings_field == 0 && c.editing_api_key {
        if c.api_key_cursor > 0 {
            ModalKeyOutcome::SetApiKeyCursor((c.api_key_cursor - 1) as usize)
        } else {
            ModalKeyOutcome::Nothing
        }
    } else if m == ModalKind::VisualMediaSelector {
        ModalKeyOutcome::Dispatch(Action::VisualMediaNavLeft)
    } else if m == ModalKind::ManageRunnersStep2Config {
        if c.runner_row == 0 || c.runner_row == n + 1 {
            if c.runner_cursor > 0 {
                ModalKeyOutcome::SetRunnerCursor((c.runner_cursor - 1) as usize)
            } else {
                ModalKeyOutcome::Nothing
            }
        } else if c.runner_row <= n {
            ModalKeyOutcome::CycleRunnerOption { idx: (c.runner_row - 1) as usize, backward: true }
        } else if c.runner_action_idx > 0 {
            ModalKeyOutcome::SetRunnerActionIdx((c.runner_action_idx - 1) as usize)
        } else {
            ModalKeyOutcome::Nothing
        }
    } else if m == ModalKind::EditCustomArgsInput || m == ModalKind::AddGameForm || m
        == ModalKind::EditGameForm {
        ModalKeyOutcome::Dispatch(Action::FormNavLeft)
    } else if m == ModalKind::ProtonDownloader {
        ModalKeyOutcome::Dispatch(Action::ProtonDownloaderBack)
    } else if m == ModalKind::ConfirmDeleteGame {
        ModalKeyOutcome::Dispatch(Action::ToggleConfirmDeleteOption)
    } else if m == ModalKind::ConfirmDeleteRunner {
        ModalKeyOutcome::Dispatch(Action::ToggleConfirmDeleteRunnerOption)
    } else if m == ModalKind::ConfirmDeleteFolder {
        ModalKeyOutcome::Dispatch(Action::ToggleConfirmDeleteFolderOption)
    } else if m == ModalKind::ScanFolderForm {
        scan_form_side_spec(c, true)
    } else if m == ModalKind::AddFolderScanForm {
        folder_selector_spec(c, true)
    } else {
        ModalKeyOutcome::Dispatch(Action::ModalSelectPrev)
    }
}

fn scan_form_side(c: ModalKeyContext, backward: bool) -> (r: ModalKeyOutcome)
    ensures
        r == scan_form_side_spec(c, backward),
{
    if c.scan_pane == 1 {
        folder_selector(c, backward)
    } else if c.scan_field < c.scan_rows {
        ModalKeyOutcome::Dispatch(Action::CycleFolderEmulator(backward))
    } else {
        ModalKeyOutcome::Nothing
    }
}

fn left_key(c: ModalKeyContext) -> (r: ModalKeyOutcome)
    requires
        c.runner_option_count + 3 <= usize::MAX,
    ensures
        r == left_spec(c),
{
    let m = c.modal;
    let n = c.runner_option_count;
    if m == ModalKind::WelcomeWizard {
        if c.wizard_step == 2 && c.wizard_cursor > 0 {
            ModalKeyOutcome::SetWizardCursor(c.wizard_cursor - 1)
        } else if c.wizard_step > 0 {
            ModalKeyOutcome::SetWizardStep(c.wizard_step - 1)
        } else {
            ModalKeyOutcome::Nothing
        }
    } else if m == ModalKind::AppSettings && c.settings_field == 0 && c.editing_api_key {
        if c.api_key_cursor > 0 {
            ModalKeyOutcome::SetApiKeyCursor(c.api_key_cursor - 1)
        } else {
            ModalKeyOutcome::Nothing
        }
    } else if m == ModalKind::VisualMediaSelector {
        ModalKeyOutcome::Dispatch(Action::VisualMediaNavLeft)
    } else if m == ModalKind::ManageRunnersStep2Config {
        if c.runner_row == 0 || c.runner_row == n + 1 {
            if c.runner_cursor > 0 {
                ModalKeyOutcome::SetRunnerCursor(c.runner_cursor - 1)
            } else {
                ModalKeyOutcome::Nothing
            }
        } else if c.runner_row <= n {
            ModalKeyOutcome::CycleRunnerOption { idx: c.runner_row - 1, backward: true }
        } else if c.runner_action_idx > 0 {
            ModalKeyOutcome::SetRunnerActionIdx(c.runner_action_idx - 1)
        } else {
            ModalKeyOutcome::Nothing
        }
    } else if m == ModalKind::EditCustomArgsInput || m == ModalKind::AddGameForm || m
        == ModalKind::EditGameForm {
        ModalKeyOutcome::Dispatch(Action::FormNavLeft)
    } else if m == ModalKind::ProtonDownloader {
        ModalKeyOutcome::Dispatch(Action::ProtonDownloaderBack)
    } else if m == ModalKind::ConfirmDeleteGame {
        ModalKeyOutcome::Dispatch(Action::ToggleConfirmDeleteOption)
    } else if m == ModalKind::ConfirmDeleteRunner {
        ModalKeyOutcome::Dispatch(Action::ToggleConfirmDeleteRunnerOption)
    } else if m == ModalKind::ConfirmDeleteFolder {
        ModalKeyOutcome::Dispatch(Action::ToggleConfirmDeleteFolderOption)
    } else if m == ModalKind::ScanFolderForm {
        scan_form_side(c, true)
    } else if m == ModalKind::AddFolderScanForm {
        folder_selector(c, true)
    } else {
        ModalKeyOutcome::Dispatch(Action::ModalSelectPrev)
    }
}

pub open spec fn right_spec(c: ModalKeyContext) -> ModalKeyOutcome {
    let m = c.modal;
    let n = c.runner_option_count;
    if m == ModalKind::WelcomeWizard {
        if c.wizard_step == 2 && c.wizard_cursor < c.wizard_key_len {
            ModalKeyOutcome::SetWizardCursor((c.wizard_cursor + 1) as usize)
        } else if c.wizard_step < 3 {
            ModalKeyOutcome::SetWizardStep((c.wizard_step + 1) as usize)
        } else {
            ModalKeyOutcome::Nothing
        }
    } else if m == ModalKind::AppSettings && c.settings_field == 0 && c.editing_api_key {
        if c.api_key_cursor < c.api_key_len {
            ModalKeyOutcome::SetApiKeyCursor((c.api_key_cursor + 1) as usize)
        } else {
            ModalKeyOutcome::Nothing
        }
    } else if m == ModalKind::VisualMediaSelector {
        ModalKeyOutcome::Dispatch(Action::VisualMediaNavRight)
    } else if m == ModalKind::ManageRunnersStep2Config {
        if c.runner_row == 0 {
            if c.runner_cursor < c.runner_exe_len {
                ModalKeyOutcome::SetRunnerCursor((c.runner_cursor + 1) as usize)
            } else {
                ModalKeyOutcome::Nothing
            }
        } else if c.runner_row <= n {
            ModalKeyOutcome::CycleRunnerOption { idx: (c.runner_row - 1) as usize, backward: false }
        } else if c.runner_row == n + 1 {
            if c.runner_cursor < c.runner_args_len {
                ModalKeyOutcome::SetRunnerCursor((c.runner_cursor + 1) as usize)
            } else {
                ModalKeyOutcome::Nothing
            }
        } else if c.runner_action_idx + 1 < c.runner_nav_buttons {
            ModalKeyOutcome::SetRunnerActionIdx((c.runner_action_idx + 1) as usize)
        } else {
            ModalKeyOutcome::Nothing
        }
    } else if m == ModalKind::EditCustomArgsInput || m == ModalKind::AddGameForm || m
        == ModalKind::EditGameForm {
        ModalKeyOutcome::Dispatch(Action::FormNavRight)
    } else if m == ModalKind::ProtonDownloader {
        ModalKeyOutcome::Dispatch(Action::ProtonDownloaderConfirm)
    } else if m == ModalKind::ConfirmDeleteGame {
        ModalKeyOutcome::Dispatch(Action::ToggleConfirmDeleteOption)
    } else if m == ModalKind::ConfirmDeleteRunner {
        ModalKeyOutcome::Dispatch(Action::ToggleConfirmDeleteRunnerOption)
    } else if m == ModalKind::ConfirmDeleteFolder {
        ModalKeyOutcome::Dispatch(Action::ToggleConfirmDeleteFolderOption)
    } else if m == ModalKind::ScanFolderForm {
        scan_form_side_spec(c, false)
    } else if m == ModalKind::AddFolderScanForm {
        folder_selector_spec(c, false)
    } else {
        ModalKeyOutcome::Dispatch(Action::ModalSelectNext)
    }
}

fn right_key(c: ModalKeyContext) -> (r: ModalKeyOutcome)
    requires
        c.runner_option_count + 3 <= usize::MAX,
    ensures
        r == right_spec(c),
{
    let m = c.modal;
    let n = c.runner_option_count;
    if m == ModalKind::WelcomeWizard {
        if c.wizard_step == 2 && c.wizard_cursor < c.wizard_key_len {
            ModalKeyOutcome::SetWizardCursor(c.wizard_cursor + 1)
        } else if c.wizard_step < 3 {
            ModalKeyOutcome::SetWizardStep(c.wizard_step + 1)
        } else {
            ModalKeyOutcome::Nothing
        }
    } else if m == ModalKind::AppSettings && c.settings_field == 0 && c.editing_api_key {
        if c.api_key_cursor < c.api_key_len {
            ModalKeyOutcome::SetApiKeyCursor(c.api_key_cursor + 1)
        } else {
            ModalKeyOutcome::Nothing
        }
    } else if m == ModalKind::VisualMediaSelector {
        ModalKeyOutcome::Dispatch(Action::VisualMediaNavRight)
    } else if m == ModalKind::ManageRunnersStep2Config {
        if c.runner_row == 0 {
            if c.runner_cursor < c.runner_exe_len {
                ModalKeyOutcome::SetRunnerCursor(c.runner_cursor + 1)
            } else {
                ModalKeyOutcome::Nothing
            }
        } else if c.runner_row <= n {
            ModalKeyOutcome::CycleRunnerOption { idx: c.runner_row - 1, backward: false }
        } else if c.runner_row == n + 1 {
            if c.runner_cursor < c.runner_args_len {
                ModalKeyOutcome::SetRunnerCursor(c.runner_cursor + 1)
            } else {
                ModalKeyOutcome::Nothing
            }
        } else if c.runner_action_idx < c.runner_nav_buttons && c.runner_nav_buttons
            - c.runner_action_idx > 1 {
            ModalKeyOutcome::SetRunnerActionIdx(c.runner_action_idx + 1)
        } else {
            ModalKeyOutcome::Nothing
        }
    } else if m == ModalKind::EditCustomArgsInput || m == ModalKind::AddGameForm || m
        == ModalKind::EditGameForm {
        ModalKeyOutcome::Dispatch(Action::FormNavRight)
    } else if m == ModalKind::ProtonDownloader {
        ModalKeyOutcome::Dispatch(Action::ProtonDownloaderConfirm)
    } else if m == ModalKind::ConfirmDeleteGame {
        ModalKeyOutcome::Dispatch(Action::ToggleConfirmDeleteOption)
    } else if m == ModalKind::ConfirmDeleteRunner {
        ModalKeyOutcome::Dispatch(Action::ToggleConfirmDeleteRunnerOption)
    } else if m == ModalKind::ConfirmDeleteFolder {
        ModalKeyOutcome::Dispatch(Action::ToggleConfirmDeleteFolderOption)
    } else if m == ModalKind::ScanFolderForm {
        scan_form_side(c, false)
    } else if m == ModalKind::AddFolderScanForm {
        folder_selector(c, false)
    } else {
        ModalKeyOutcome::Dispatch(Action::ModalSelectNext)
    }
}

/// The save action of a game form.
pub open spec fn form_save(m: ModalKind) -> Action {
    if m == ModalKind::EditGameForm {
        Action::SaveEditGameModal
    } else {
        Action::SaveModalGame
    }
}

/// [Enter] on a field of a game form that is not a checkbox.
pub open spec fn form_enter_spec(m: ModalKind, t: PlatformType, field: usize) -> Action {
    match t {
        PlatformType::Wine => if 1 <= field <= 3 {
            Action::OpenFilePicker
        } else if field == 4 {
            Action::OpenWineRunnerPicker
        } else if field == 5 {
            Action::OpenCustomArgsEditor
        } else if field == 13 {
            form_save(m)
        } else {
            Action::ModalNextField
        },
        PlatformType::Native => if field == 1 || field == 2 {
            Action::OpenFilePicker
        } else if field == 3 {
            Action::OpenCustomArgsEditor
        } else if field == 7 {
            form_save(m)
        } else {
            Action::ModalNextField
        },
        PlatformType::Emulator => if field == 1 {
            Action::OpenFilePicker
        } else if field == 2 {
            Action::OpenCustomArgsEditor
        } else if field == 6 {
            form_save(m)
        } else {
            Action::ModalNextField
        },
        PlatformType::Steam => if field == 2 {
            Action::OpenCustomArgsEditor
        } else if field == 6 {
            form_save(m)
        } else {
            Action::ModalNextField
        },
    }
}

fn form_enter(m: ModalKind, t: PlatformType, field: usize) -> (a: Action)
    ensures
        a == form_enter_spec(m, t, field),
{
    let save = if m == ModalKind::EditGameForm {
        Action::SaveEditGameModal
    } else {
        Action::SaveModalGame
    };
    match t {
        PlatformType::Wine => if 1 <= field && field <= 3 {
            Action::OpenFilePicker
        } else if field == 4 {
            Action::OpenWineRunnerPicker
        } else if field == 5 {
            Action::OpenCustomArgsEditor
        } else if field == 13 {
            save
        } else {
            Action::ModalNextField
        },
        PlatformType::Native => if field == 1 || field == 2 {
            Action::OpenFilePicker
        } else if field == 3 {
            Action::OpenCustomArgsEditor
        } else if field == 7 {
            save
        } else {
            Action::ModalNextField
        },
        PlatformType::Emulator => if field == 1 {
            Action::OpenFilePicker
        } else if field == 2 {
            Action::OpenCustomArgsEditor
        } else if field == 6 {
            save
        } else {
            Action::ModalNextField
        },
        PlatformType::Steam => if field == 2 {
            Action::OpenCustomArgsEditor
        } else if field == 6 {
            save
        } else {
            Action::ModalNextField
        },
    }
}

/// [Enter] on the buttons row of the emulator options popup.
pub open spec fn runner_enter_button(c: ModalKeyContext) -> Action {
    let buttons = runner_buttons_spec(c.runner_has_download_url, c.runner_has_executable);
    if c.runner_action_idx < buttons.len() {
        button_action_spec(buttons[c.runner_action_idx as int])
    } else {
        Action::SaveRunnerConfig
    }
}

pub open spec fn enter_spec(c: ModalKeyContext) -> ModalKeyOutcome {
    let m = c.modal;
    let n = c.runner_option_count;
    if m == ModalKind::AddGameStep1Type {
        ModalKeyOutcome::Dispatch(Action::ModalConfirmStep1)
    } else if m == ModalKind::ScanFolderStep1Platform {
        ModalKeyOutcome::Dispatch(Action::ScanModalConfirmPlatform)
    } else if m == ModalKind::ConfigureApiKeyInput {
        ModalKeyOutcome::Dispatch(Action::SaveApiKey)
    } else if m == ModalKind::AppSettings {
        if c.settings_field == 0 {
            ModalKeyOutcome::ToggleApiKeyEdit
        } else if c.settings_field == 1 {
            ModalKeyOutcome::Dispatch(Action::OpenWelcomeWizardModal)
        } else if c.settings_field == 2 {
            ModalKeyOutcome::Dispatch(Action::OpenAboutModal)
        } else if c.settings_field == 3 {
            ModalKeyOutcome::Dispatch(Action::CheckForUpdates { silent: false })
        } else if c.settings_field == 4 {
            ModalKeyOutcome::Dispatch(Action::SaveAppSettings)
        } else {
            ModalKeyOutcome::Nothing
        }
    } else if m == ModalKind::UpdateAvailable {
        ModalKeyOutcome::StartOfferedUpdate
    } else if m == ModalKind::WelcomeWizard {
        if c.wizard_step < 3 {
            ModalKeyOutcome::SetWizardStep((c.wizard_step + 1) as usize)
        } else {
            ModalKeyOutcome::FinishWelcomeWizard
        }
    } else if m == ModalKind::VisualMediaSelector {
        if c.media_section == 1 || (c.media_section == 0 && c.media_tab == 0) {
            ModalKeyOutcome::Dispatch(Action::SearchVisualMedia)
        } else if c.media_tab == 0 {
            if c.media_no_candidates {
                ModalKeyOutcome::Dispatch(Action::SearchVisualMedia)
            } else {
                ModalKeyOutcome::Dispatch(Action::SelectVisualMediaCandidate)
            }
        } else {
            ModalKeyOutcome::Dispatch(Action::ApplyVisualMediaSelection)
        }
    } else if m == ModalKind::ManageRunnersStep1Platform {
        ModalKeyOutcome::Dispatch(Action::RunnerModalConfirmPlatform)
    } else if m == ModalKind::ManageWineRunners {
        ModalKeyOutcome::Dispatch(Action::OpenProtonDownloader)
    } else if m == ModalKind::ProtonDownloader {
        ModalKeyOutcome::Dispatch(Action::ProtonDownloaderConfirm)
    } else if m == ModalKind::SelectWineRunnerPicker {
        ModalKeyOutcome::Dispatch(Action::SelectWineRunnerFromPicker)
    } else if m == ModalKind::WineToolsMenu {
        ModalKeyOutcome::RunWineTool
    } else if m == ModalKind::EditCustomArgsInput {
        ModalKeyOutcome::Dispatch(Action::SaveCustomArgsInput)
    } else if m == ModalKind::ConfirmDeleteGame {
        ModalKeyOutcome::Dispatch(Action::ConfirmDeleteGameExecution)
    } else if m == ModalKind::ConfirmDeleteRunner {
        ModalKeyOutcome::Dispatch(Action::ConfirmDeleteRunnerExecution)
    } else if m == ModalKind::ConfirmDeleteFolder {
        ModalKeyOutcome::Dispatch(Action::ConfirmDeleteFolderExecution)
    } else if m == ModalKind::PlatformSelector {
        ModalKeyOutcome::Dispatch(Action::ConfirmPlatformSelectorModal)
    } else if m == ModalKind::AddGameForm || m == ModalKind::EditGameForm {
        if on_checkbox(c.form_type, c.form_field) {
            ModalKeyOutcome::Dispatch(Action::ModalToggleCheckbox)
        } else {
            ModalKeyOutcome::Dispatch(form_enter_spec(m, c.form_type, c.form_field))
        }
    } else if m == ModalKind::ScanFolderForm {
        ModalKeyOutcome::ScanFormEnter
    } else if m == ModalKind::AddFolderScanForm {
        ModalKeyOutcome::AddScanFormEnter
    } else if m == ModalKind::DownloadCoreModal {
        ModalKeyOutcome::Dispatch(Action::TriggerDownloadCore)
    } else if m == ModalKind::ManageRunnersStep2Config {
        if c.runner_row == 0 {
            if c.runner_exe_blank {
                ModalKeyOutcome::Dispatch(Action::OpenFilePicker)
            } else {
                ModalKeyOutcome::SetRunnerRow((n + 2) as usize)
            }
        } else if c.runner_row <= n {
            ModalKeyOutcome::CycleRunnerOption { idx: (c.runner_row - 1) as usize, backward: false }
        } else if c.runner_row == n + 1 {
            ModalKeyOutcome::Dispatch(Action::OpenCustomArgsEditor)
        } else {
            ModalKeyOutcome::Dispatch(runner_enter_button(c))
        }
    } else {
        ModalKeyOutcome::Dispatch(Action::SaveModalGame)
    }
}

fn enter_key(c: ModalKeyContext) -> (r: ModalKeyOutcome)
    requires
        c.runner_option_count + 3 <= usize::MAX,
        c.wizard_step < usize::MAX,
    ensures
        r == enter_spec(c),
{
    let m = c.modal;
    let n = c.runner_option_count;
    if m == ModalKind::AddGameStep1Type {
        ModalKeyOutcome::Dispatch(Action::ModalConfirmStep1)
    } else if m == ModalKind::ScanFolderStep1Platform {
        ModalKeyOutcome::Dispatch(Action::ScanModalConfirmPlatform)
    } else if m == ModalKind::ConfigureApiKeyInput {
        ModalKeyOutcome::Dispatch(Action::SaveApiKey)
    } else if m == ModalKind::AppSettings {
        if c.settings_field == 0 {
            ModalKeyOutcome::ToggleApiKeyEdit
        } else if c.settings_field == 1 {
            ModalKeyOutcome::Dispatch(Action::OpenWelcomeWizardModal)
        } else if c.settings_field == 2 {
            ModalKeyOutcome::Dispatch(Action::OpenAboutModal)
        } else if c.settings_field == 3 {
            ModalKeyOutcome::Dispatch(Action::CheckForUpdates { silent: false })
        } else if c.settings_field == 4 {
            ModalKeyOutcome::Dispatch(Action::SaveAppSettings)
        } else {
            ModalKeyOutcome::Nothing
        }
    } else if m == ModalKind::UpdateAvailable {
        ModalKeyOutcome::StartOfferedUpdate
    } else if m == ModalKind::WelcomeWizard {
        if c.wizard_step < 3 {
            ModalKeyOutcome::SetWizardStep(c.wizard_step + 1)
        } else {
            ModalKeyOutcome::FinishWelcomeWizard
        }
    } else if m == ModalKind::VisualMediaSelector {
        if c.media_section == 1 || (c.media_section == 0 && c.media_tab == 0) {
            ModalKeyOutcome::Dispatch(Action::SearchVisualMedia)
        } else if c.media_tab == 0 {
            if c.media_no_candidates {
                ModalKeyOutcome::Dispatch(Action::SearchVisualMedia)
            } else {
                ModalKeyOutcome::Dispatch(Action::SelectVisualMediaCandidate)
            }
        } else {
            ModalKeyOutcome::Dispatch(Action::ApplyVisualMediaSelection)
        }
    } else if m == ModalKind::ManageRunnersStep1Platform {
        ModalKeyOutcome::Dispatch(Action::RunnerModalConfirmPlatform)
    } else if m == ModalKind::ManageWineRunners {
        ModalKeyOutcome::Dispatch(Action::OpenProtonDownloader)
    } else if m == ModalKind::ProtonDownloader {
        ModalKeyOutcome::Dispatch(Action::ProtonDownloaderConfirm)
    } else if m == ModalKind::SelectWineRunnerPicker {
        ModalKeyOutcome::Dispatch(Action::SelectWineRunnerFromPicker)
    } else if m == ModalKind::WineToolsMenu {
        ModalKeyOutcome::RunWineTool
    } else if m == ModalKind::EditCustomArgsInput {
        ModalKeyOutcome::Dispatch(Action::SaveCustomArgsInput)
    } else if m == ModalKind::ConfirmDeleteGame {
        ModalKeyOutcome::Dispatch(Action::ConfirmDeleteGameExecution)
    } else if m == ModalKind::ConfirmDeleteRunner {
        ModalKeyOutcome::Dispatch(Action::ConfirmDeleteRunnerExecution)
    } else if m == ModalKind::ConfirmDeleteFolder {
        ModalKeyOutcome::Dispatch(Action::ConfirmDeleteFolderExecution)
    } else if m == ModalKind::PlatformSelector {
        ModalKeyOutcome::Dispatch(Action::ConfirmPlatformSelectorModal)
    } else if m == ModalKind::AddGameForm || m == ModalKind::EditGameForm {
        if is_on_checkbox(c.form_type, c.form_field) {
            ModalKeyOutcome::Dispatch(Action::ModalToggleCheckbox)
        } else {
            ModalKeyOutcome::Dispatch(form_enter(m, c.form_type, c.form_field))
        }
    } else if m == ModalKind::ScanFolderForm {
        ModalKeyOutcome::ScanFormEnter
    } else if m == ModalKind::AddFolderScanForm {
        ModalKeyOutcome::AddScanFormEnter
    } else if m == ModalKind::DownloadCoreModal {
        ModalKeyOutcome::Dispatch(Action::TriggerDownloadCore)
    } else if m == ModalKind::ManageRunnersStep2Config {
        if c.runner_row == 0 {
            if c.runner_exe_blank {
                ModalKeyOutcome::Dispatch(Action::OpenFilePicker)
            } else {
                ModalKeyOutcome::SetRunnerRow(n + 2)
            }
        } else if c.runner_row <= n {
            ModalKeyOutcome::CycleRunnerOption { idx: c.runner_row - 1, backward: false }
        } else if c.runner_row == n + 1 {
            ModalKeyOutcome::Dispatch(Action::OpenCustomArgsEditor)
        } else {
            let buttons = runner_buttons(c.runner_has_download_url, c.runner_has_executable);
            let b = if c.runner_action_idx < buttons.len() {
                buttons[c.runner_action_idx]
            } else {
                RunnerButton::Save
            };
            ModalKeyOutcome::Dispatch(button_action(b))
        }
    } else {
        ModalKeyOutcome::Dispatch(Action::SaveModalGame)
    }
}

/// The space bar: a checkbox toggles, a folder row joins or leaves the
/// selection, an option cycles, a chosen image toggles; elsewhere a space is
/// typed.
pub open spec fn space_spec(c: ModalKeyContext) -> ModalKeyOutcome {
    let m = c.modal;
    let n = c.runner_option_count;
    if m == ModalKind::AddGameForm || m == ModalKind::EditGameForm {
        if on_checkbox(c.form_type, c.form_field) {
            ModalKeyOutcome::Dispatch(Action::ModalToggleCheckbox)
        } else {
            ModalKeyOutcome::Dispatch(Action::ModalInputChar(' '))
        }
    } else if m == ModalKind::ScanFolderForm {
        if c.scan_pane == 0 {
            ModalKeyOutcome::Dispatch(Action::ToggleSelectFolder)
        } else if c.scan_field == 2 || c.scan_field == 3 {
            ModalKeyOutcome::Dispatch(Action::ModalToggleCheckbox)
        } else {
            ModalKeyOutcome::Dispatch(Action::ModalInputChar(' '))
        }
    } else if m == ModalKind::AddFolderScanForm {
        if c.scan_field == 2 || c.scan_field == 3 {
            ModalKeyOutcome::Dispatch(Action::ModalToggleCheckbox)
        } else {
            ModalKeyOutcome::Dispatch(Action::ModalInputChar(' '))
        }
    } else if m == ModalKind::ManageRunnersStep2Config {
        if 1 <= c.runner_row <= n {
            ModalKeyOutcome::CycleRunnerOption { idx: (c.runner_row - 1) as usize, backward: false }
        } else {
            ModalKeyOutcome::Dispatch(Action::ModalInputChar(' '))
        }
    } else if m == ModalKind::VisualMediaSelector {
        if c.media_tab > 0 {
            ModalKeyOutcome::Dispatch(Action::ModalToggleCheckbox)
        } else {
            ModalKeyOutcome::Dispatch(Action::ModalInputChar(' '))
        }
    } else {
        ModalKeyOutcome::Dispatch(Action::ModalInputChar(' '))
    }
}

fn space_key(c: ModalKeyContext) -> (r: ModalKeyOutcome)
    ensures
        r == space_spec(c),
{
    let m = c.modal;
    let n = c.runner_option_count;
    if m == ModalKind::AddGameForm || m == ModalKind::EditGameForm {
        if is_on_checkbox(c.form_type, c.form_field) {
            ModalKeyOutcome::Dispatch(Action::ModalToggleCheckbox)
        } else {
            ModalKeyOutcome::Dispatch(Action::ModalInputChar(' '))
        }
    } else if m == ModalKind::ScanFolderForm {
        if c.scan_pane == 0 {
            ModalKeyOutcome::Dispatch(Action::ToggleSelectFolder)
        } else if c.scan_field == 2 || c.scan_field == 3 {
            ModalKeyOutcome::Dispatch(Action::ModalToggleCheckbox)
        } else {
            ModalKeyOutcome::Dispatch(Action::ModalInputChar(' '))
        }
    } else if m == ModalKind::AddFolderScanForm {
        if c.scan_field == 2 || c.scan_field == 3 {
            ModalKeyOutcome::Dispatch(Action::ModalToggleCheckbox)
        } else {
            ModalKeyOutcome::Dispatch(Action::ModalInputChar(' '))
        }
    } else if m == ModalKind::ManageRunnersStep2Config {
        if 1 <= c.runner_row && c.runner_row <= n {
            ModalKeyOutcome::CycleRunnerOption { idx: c.runner_row - 1, backward: false }
        } else {
            ModalKeyOutcome::Dispatch(Action::ModalInputChar(' '))
        }
    } else if m == ModalKind::VisualMediaSelector {
        if c.media_tab > 0 {
            ModalKeyOutcome::Dispatch(Action::ModalToggleCheckbox)
        } else {
            ModalKeyOutcome::Dispatch(Action::ModalInputChar(' '))
        }
    } else {
        ModalKeyOutcome::Dispatch(Action::ModalInputChar(' '))
    }
}

/// A character key (other than the space bar).
pub open spec fn char_spec(c: ModalKeyContext, ch: char, m: Modifiers) -> ModalKeyOutcome {
    let k = c.modal;
    if ch == '1' || ch == '2' || ch == '3' || ch == '4' {
        if k == ModalKind::VisualMediaSelector {
            ModalKeyOutcome::Dispatch(Action::SetVisualMediaTab(((ch as int) - 49) as usize))
        } else {
            ModalKeyOutcome::Dispatch(Action::ModalInputChar(ch))
        }
    } else if ch == 'r' {
        if k == ModalKind::ProtonDownloader {
            ModalKeyOutcome::Dispatch(Action::ProtonDownloaderSelectNext)
        } else {
            ModalKeyOutcome::Dispatch(Action::ModalInputChar('r'))
        }
    } else if (ch == 'v' || ch == 'V') && m.ctrl {
        if k == ModalKind::WelcomeWizard && c.wizard_step == 2 {
            ModalKeyOutcome::PasteWizard
        } else if k == ModalKind::AppSettings && c.settings_field == 0 {
            ModalKeyOutcome::PasteSettings
        } else if k == ModalKind::ConfigureApiKeyInput {
            ModalKeyOutcome::PasteApiKeyInput
        } else {
            ModalKeyOutcome::Nothing
        }
    } else if ch == 'd' {
        if k == ModalKind::ManageWineRunners {
            ModalKeyOutcome::Dispatch(Action::OpenProtonDownloader)
        } else {
            ModalKeyOutcome::Dispatch(Action::ModalInputChar('d'))
        }
    } else if ch == 'p' {
        if (k == ModalKind::AddGameForm || k == ModalKind::EditGameForm) && c.form_type
            == PlatformType::Wine && c.form_field == 4 {
            ModalKeyOutcome::Dispatch(Action::OpenWineRunnerPicker)
        } else if (k == ModalKind::AddGameForm || k == ModalKind::EditGameForm) && c.form_type
            == PlatformType::Wine && c.form_field == 5 {
            ModalKeyOutcome::Dispatch(Action::OpenCustomArgsEditor)
        } else if k == ModalKind::ManageRunnersStep1Platform {
            ModalKeyOutcome::Dispatch(Action::OpenWineRunnerManager)
        } else {
            ModalKeyOutcome::Dispatch(Action::ModalInputChar('p'))
        }
    } else if ch == 't' {
        if k == ModalKind::ProtonDownloader {
            ModalKeyOutcome::Dispatch(Action::ProtonDownloaderSelectNext)
        } else {
            ModalKeyOutcome::Dispatch(Action::ModalInputChar('t'))
        }
    } else if ch == 'w' {
        if k == ModalKind::ManageRunnersStep1Platform {
            ModalKeyOutcome::Dispatch(Action::OpenWineRunnerManager)
        } else {
            ModalKeyOutcome::Dispatch(Action::ModalInputChar('w'))
        }
    } else if ch == 'x' || ch == 'f' {
        ModalKeyOutcome::Dispatch(Action::ModalInputChar(ch))
    } else if ch == 'u' || ch == 'U' {
        if k == ModalKind::About {
            ModalKeyOutcome::Dispatch(Action::CheckForUpdates { silent: false })
        } else {
            ModalKeyOutcome::Dispatch(Action::ModalInputChar('u'))
        }
    } else if k == ModalKind::WelcomeWizard && c.wizard_step == 2 {
        ModalKeyOutcome::WizardInsert(ch)
    } else if k == ModalKind::FuzzySearchModal {
        ModalKeyOutcome::FuzzyInsert(ch)
    } else {
        ModalKeyOutcome::Dispatch(Action::ModalInputChar(ch))
    }
}

fn char_key(c: ModalKeyContext, ch: char, m: Modifiers) -> (r: ModalKeyOutcome)
    ensures
        r == char_spec(c, ch, m),
{
    let k = c.modal;
    if ch == '1' || ch == '2' || ch == '3' || ch == '4' {
        if k == ModalKind::VisualMediaSelector {
            let tab: usize = if ch == '1' {
                0
            } else if ch == '2' {
                1
            } else if ch == '3' {
                2
            } else {
                3
            };
            ModalKeyOutcome::Dispatch(Action::SetVisualMediaTab(tab))
        } else {
            ModalKeyOutcome::Dispatch(Action::ModalInputChar(ch))
        }
    } else if ch == 'r' {
        if k == ModalKind::ProtonDownloader {
            ModalKeyOutcome::Dispatch(Action::ProtonDownloaderSelectNext)
        } else {
            ModalKeyOutcome::Dispatch(Action::ModalInputChar('r'))
        }
    } else if (ch == 'v' || ch == 'V') && m.ctrl {
        if k == ModalKind::WelcomeWizard && c.wizard_step == 2 {
            ModalKeyOutcome::PasteWizard
        } else if k == ModalKind::AppSettings && c.settings_field == 0 {
            ModalKeyOutcome::PasteSettings
        } else if k == ModalKind::ConfigureApiKeyInput {
            ModalKeyOutcome::PasteApiKeyInput
        } else {
            ModalKeyOutcome::Nothing
        }
    } else if ch == 'd' {
        if k == ModalKind::ManageWineRunners {
            ModalKeyOutcome::Dispatch(Action::OpenProtonDownloader)
        } else {
            ModalKeyOutcome::Dispatch(Action::ModalInputChar('d'))
        }
    } else if ch == 'p' {
        let wine_form = (k == ModalKind::AddGameForm || k == ModalKind::EditGameForm) && c.form_type
            == PlatformType::Wine;
        if wine_form && c.form_field == 4 {
            ModalKeyOutcome::Dispatch(Action::OpenWineRunnerPicker)
        } else if wine_form && c.form_field == 5 {
            ModalKeyOutcome::Dispatch(Action::OpenCustomArgsEditor)
        } else if k == ModalKind::ManageRunnersStep1Platform {
            ModalKeyOutcome::Dispatch(Action::OpenWineRunnerManager)
        } else {
            ModalKeyOutcome::Dispatch(Action::ModalInputChar('p'))
        }
    } else if ch == 't' {
        if k == ModalKind::ProtonDownloader {
            ModalKeyOutcome::Dispatch(Action::ProtonDownloaderSelectNext)
        } else {
            ModalKeyOutcome::Dispatch(Action::ModalInputChar('t'))
        }
    } else if ch == 'w' {
        if k == ModalKind::ManageRunnersStep1Platform {
            ModalKeyOutcome::Dispatch(Action::OpenWineRunnerManager)
        } else {
            ModalKeyOutcome::Dispatch(Action::ModalInputChar('w'))
        }
    } else if ch == 'x' || ch == 'f' {
        ModalKeyOutcome::Dispatch(Action::ModalInputChar(ch))
    } else if ch == 'u' || ch == 'U' {
        if k == ModalKind::About {
            ModalKeyOutcome::Dispatch(Action::CheckForUpdates { silent: false })
        } else {
            ModalKeyOutcome::Dispatch(Action::ModalInputChar('u'))
        }
    } else if k == ModalKind::WelcomeWizard && c.wizard_step == 2 {
        ModalKeyOutcome::WizardInsert(ch)
    } else if k == ModalKind::FuzzySearchModal {
        ModalKeyOutcome::FuzzyInsert(ch)
    } else {
        ModalKeyOutcome::Dispatch(Action::ModalInputChar(ch))
    }
}

/// The outcome of a key press while a modal is open.
pub open spec fn modal_key_spec(c: ModalKeyContext, key: Key, m: Modifiers) -> ModalKeyOutcome {
    match key {
        Key::Esc => esc_spec(c),
        Key::BackTab => if m.shift || m.ctrl {
            ModalKeyOutcome::Dispatch(Action::ModalPrevField)
        } else {
            ModalKeyOutcome::Dispatch(Action::ModalNextField)
        },
        Key::Tab => tab_spec(c, m),
        Key::Up => up_spec(c),
        Key::Down => down_spec(c),
        Key::Left => left_spec(c),
        Key::Right => right_spec(c),
        Key::Home => if c.modal == ModalKind::WelcomeWizard && c.wizard_step == 2 {
            ModalKeyOutcome::SetWizardCursor(0)
        } else if c.modal == ModalKind::AppSettings && c.settings_field == 0 && c.editing_api_key {
            ModalKeyOutcome::SetApiKeyCursor(0)
        } else {
            ModalKeyOutcome::Nothing
        },
        Key::End => if c.modal == ModalKind::WelcomeWizard && c.wizard_step == 2 {
            ModalKeyOutcome::SetWizardCursor(c.wizard_key_len)
        } else if c.modal == ModalKind::AppSettings && c.settings_field == 0 && c.editing_api_key {
            ModalKeyOutcome::SetApiKeyCursor(c.api_key_len)
        } else {
            ModalKeyOutcome::Nothing
        },
        Key::Enter => enter_spec(c),
        Key::Backspace => if c.modal == ModalKind::WelcomeWizard && c.wizard_step == 2 {
            ModalKeyOutcome::WizardBackspace
        } else if c.modal == ModalKind::FuzzySearchModal {
            ModalKeyOutcome::FuzzyBackspace
        } else {
            ModalKeyOutcome::Dispatch(Action::ModalBackspace)
        },
        Key::Delete => if c.modal == ModalKind::WelcomeWizard && c.wizard_step == 2 {
            ModalKeyOutcome::WizardDelete
        } else if c.modal == ModalKind::AppSettings && c.settings_field == 0 && c.editing_api_key {
            ModalKeyOutcome::ApiKeyDelete
        } else if c.modal == ModalKind::ManageWineRunners {
            ModalKeyOutcome::Dispatch(Action::DeleteInstalledWineRunner)
        } else if c.modal == ModalKind::ScanFolderForm && c.scan_pane == 0 {
            ModalKeyOutcome::Dispatch(Action::OpenConfirmDeleteFolder)
        } else {
            ModalKeyOutcome::Nothing
        },
        Key::Char(ch) => if ch == ' ' {
            space_spec(c)
        } else {
            char_spec(c, ch, m)
        },
    }
}

/// The actions ▼ and ▲ dispatch in a modal move opposite ways through the
/// same thing (or both toggle the same two-way choice).
pub open spec fn opposite_moves(down: Action, up: Action) -> bool {
    ||| forward_back_pair(down, up)
    ||| down is ModalNextField && up is ModalPrevField
    ||| down is VisualMediaNavDown && up is VisualMediaNavUp
    ||| down is ProtonDownloaderSelectNext && up is ProtonDownloaderSelectPrev
    ||| down is ToggleConfirmDeleteOption && up is ToggleConfirmDeleteOption
    ||| down is ToggleConfirmDeleteRunnerOption && up is ToggleConfirmDeleteRunnerOption
}

/// The modals whose ▲ ▼ dispatch a move through a list (or through the
/// fields of the folder forms) or the toggle of a two-way choice.
pub open spec fn moves_through_list(m: ModalKind) -> bool {
    is_plain_list(m) || m == ModalKind::DownloadCoreModal || m == ModalKind::ScanFolderForm || m
        == ModalKind::AddFolderScanForm || m == ModalKind::VisualMediaSelector || m
        == ModalKind::ProtonDownloader || m == ModalKind::ConfirmDeleteGame || m
        == ModalKind::ConfirmDeleteRunner
}

/// In a modal, ▼ and ▲ go opposite ways: on the lists, the folder forms,
/// the media picker, the Proton downloader and the delete confirmations,
/// the actions they dispatch move forward and backward through the same
/// thing (or toggle the same choice); on the emulator
/// options popup, the settings rows and the last wizard step, ▲ undoes ▼
/// (▼ moving down when it can) and ▼ undoes ▲.
pub proof fn lemma_modal_arrows_opposite(c: ModalKeyContext, m: Modifiers)
    requires
        context_fits(c),
        c.runner_row < c.runner_option_count + 3,
    ensures
        ({
            let down = modal_key_spec(c, Key::Down, m);
            let up = modal_key_spec(c, Key::Up, m);
            &&& moves_through_list(c.modal) ==> (down is Dispatch && up is Dispatch && opposite_moves(
                down->Dispatch_0,
                up->Dispatch_0,
            ))
            &&& c.modal == ModalKind::ManageRunnersStep2Config ==> (down is SetRunnerRow
                && up is SetRunnerRow && modal_key_spec(
                ModalKeyContext { runner_row: down->SetRunnerRow_0, ..c },
                Key::Up,
                m,
            ) == ModalKeyOutcome::SetRunnerRow(c.runner_row) && modal_key_spec(
                ModalKeyContext { runner_row: up->SetRunnerRow_0, ..c },
                Key::Down,
                m,
            ) == ModalKeyOutcome::SetRunnerRow(c.runner_row))
            &&& c.modal == ModalKind::AppSettings && c.settings_field < 4 ==> (down
                == ModalKeyOutcome::SetSettingsField { field: (c.settings_field + 1) as usize, stop_editing: true }
                && modal_key_spec(
                ModalKeyContext { settings_field: (c.settings_field + 1) as usize, ..c },
                Key::Up,
                m,
            ) == ModalKeyOutcome::SetSettingsField { field: c.settings_field, stop_editing: true })
            &&& c.modal == ModalKind::WelcomeWizard && c.wizard_step == 3 && c.wizard_active_field < 1 ==> (
            down == ModalKeyOutcome::SetWizardActiveField((c.wizard_active_field + 1) as usize)
                && modal_key_spec(
                ModalKeyContext { wizard_active_field: (c.wizard_active_field + 1) as usize, ..c },
                Key::Up,
                m,
            ) == ModalKeyOutcome::SetWizardActiveField(c.wizard_active_field))
        }),
{
    if c.modal == ModalKind::ManageRunnersStep2Config {
        crate::cycle::lemma_wrapping_round_trip(c.runner_row as int, c.runner_option_count + 3);
    }
}

/// The counters of the context leave room for one more step (a machine limit).
pub open spec fn context_fits(c: ModalKeyContext) -> bool {
    &&& c.runner_option_count + 3 <= usize::MAX
    &&& c.runner_row < usize::MAX
    &&& c.wizard_step < usize::MAX
    &&& c.settings_field < usize::MAX
}

/// Decide what a key press does while a modal is open.
pub fn modal_key(c: ModalKeyContext, key: Key, m: Modifiers) -> (r: ModalKeyOutcome)
    requires
        context_fits(c),
    ensures
        r == modal_key_spec(c, key, m),
{
    match key {
        Key::Esc => esc_key(c),
        Key::BackTab => if m.shift || m.ctrl {
            ModalKeyOutcome::Dispatch(Action::ModalPrevField)
        } else {
            ModalKeyOutcome::Dispatch(Action::ModalNextField)
        },
        Key::Tab => tab_key(c, m),
        Key::Up => up_key(c),
        Key::Down => down_key(c),
        Key::Left => left_key(c),
        Key::Right => right_key(c),
        Key::Home => if c.modal == ModalKind::WelcomeWizard && c.wizard_step == 2 {
            ModalKeyOutcome::SetWizardCursor(0)
        } else if c.modal == ModalKind::AppSettings && c.settings_field == 0 && c.editing_api_key {
            ModalKeyOutcome::SetApiKeyCursor(0)
        } else {
            ModalKeyOutcome::Nothing
        },
        Key::End => if c.modal == ModalKind::WelcomeWizard && c.wizard_step == 2 {
            ModalKeyOutcome::SetWizardCursor(c.wizard_key_len)
        } else if c.modal == ModalKind::AppSettings && c.settings_field == 0 && c.editing_api_key {
            ModalKeyOutcome::SetApiKeyCursor(c.api_key_len)
        } else {
            ModalKeyOutcome::Nothing
        },
        Key::Enter => enter_key(c),
        Key::Backspace => if c.modal == ModalKind::WelcomeWizard && c.wizard_step == 2 {
            ModalKeyOutcome::WizardBackspace
        } else if c.modal == ModalKind::FuzzySearchModal {
            ModalKeyOutcome::FuzzyBackspace
        } else {
            ModalKeyOutcome::Dispatch(Action::ModalBackspace)
        },
        Key::Delete => if c.modal == ModalKind::WelcomeWizard && c.wizard_step == 2 {
            ModalKeyOutcome::WizardDelete
        } else if c.modal == ModalKind::AppSettings && c.settings_field == 0 && c.editing_api_key {
            ModalKeyOutcome::ApiKeyDelete
        } else if c.modal == ModalKind::ManageWineRunners {
            ModalKeyOutcome::Dispatch(Action::DeleteInstalledWineRunner)
        } else if c.modal == ModalKind::ScanFolderForm && c.scan_pane == 0 {
            ModalKeyOutcome::Dispatch(Action::OpenConfirmDeleteFolder)
        } else {
            ModalKeyOutcome::Nothing
        },
        Key::Char(ch) => if ch == ' ' {
            space_key(c)
        } else {
            char_key(c, ch, m)
        },
    }
}

/// An outcome that neither quits, launches a game nor opens the deletion of
/// games, and that keeps the emulator options popup's row inside the popup.
pub open spec fn outcome_contained(c: ModalKeyContext, o: ModalKeyOutcome) -> bool {
    match o {
        ModalKeyOutcome::Dispatch(a) => !(a is Quit) && !(a is LaunchGame) && !(
        a is OpenConfirmDeleteModal),
        ModalKeyOutcome::SetRunnerRow(r) => r < c.runner_option_count + 3,
        _ => true,
    }
}

proof fn lemma_enter_contained(c: ModalKeyContext)
    requires
        context_fits(c),
        c.runner_row < c.runner_option_count + 3,
    ensures
        outcome_contained(c, enter_spec(c)),
{
    let bs = runner_buttons_spec(c.runner_has_download_url, c.runner_has_executable);
    if c.runner_action_idx < bs.len() {
        let b = bs[c.runner_action_idx as int];
        assert(b == RunnerButton::Browse || b == RunnerButton::Download || b == RunnerButton::Save
            || b == RunnerButton::Open || b == RunnerButton::Delete);
    }
}

proof fn lemma_arrows_contained(c: ModalKeyContext)
    requires
        context_fits(c),
        c.runner_row < c.runner_option_count + 3,
    ensures
        outcome_contained(c, up_spec(c)),
        outcome_contained(c, down_spec(c)),
        outcome_contained(c, left_spec(c)),
        outcome_contained(c, right_spec(c)),
{
}

proof fn lemma_typing_contained(c: ModalKeyContext, ch: char, m: Modifiers)
    ensures
        outcome_contained(c, space_spec(c)),
        outcome_contained(c, char_spec(c, ch, m)),
        outcome_contained(c, esc_spec(c)),
        outcome_contained(c, tab_spec(c, m)),
{
}

/// With a modal open, no key quits the launcher, launches a game or opens
/// the deletion of games; and the emulator options popup's rows stay inside
/// the popup.
pub proof fn lemma_modal_keys_are_contained(c: ModalKeyContext, key: Key, m: Modifiers)
    requires
        context_fits(c),
        c.runner_row < c.runner_option_count + 3,
    ensures
        outcome_contained(c, modal_key_spec(c, key, m)),
{
    lemma_arrows_contained(c);
    lemma_enter_contained(c);
    match key {
        Key::Char(ch) => lemma_typing_contained(c, ch, m),
        _ => lemma_typing_contained(c, ' ', m),
    }
}

} // verus!
