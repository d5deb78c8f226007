//! What a gamepad action does in each situation of the launcher: the game
//! detail view, each modal, Big Picture mode and the library panes; and the
//! dedicated controller navigation of the emulator options popup.
use vstd::prelude::*;
use crate::actions::Action;
use crate::gamepad::GamepadAction;
use crate::launcher::{
    FocusedPane, Navigator, ViewMode, moves_game_down, moves_game_up, moves_platform_down,
    moves_platform_up,
};
use crate::actions::forward_back_pair;
use crate::scan_form::{ScanFolderItem, scan_folder_add_emu_idx, scan_folder_add_core_idx, scan_folder_add_emu_idx_spec};

verus! {

/// Which modal (if any) is open.
#[derive(Debug, Clone, Copy, PartialEq, Eq, Structural)]
pub enum ModalKind {
    /// No modal is open.
    Closed,
    AddGameStep1Type,
    ScanFolderStep1Platform,
    ScanFolderForm,
    WindowsGamesManager,
    AddFolderScanForm,
    DownloadCoreModal,
    AddGameForm,
    EditGameForm,
    ConfigureApiKeyInput,
    AppSettings,
    WelcomeWizard,
    VisualMediaSelector,
    ManageRunnersStep1Platform,
    ManageRunnersStep2Config,
    SelectDetectedEmulatorModal,
    ManageWineRunners,
    ProtonDownloader,
    SelectWineRunnerPicker,
    WineToolsMenu,
    EditCustomArgsInput,
    ConfirmDeleteGame,
    ConfirmDeleteRunner,
    ConfirmDeleteFolder,
    PlatformSelector,
    CheatsheetModal,
    FuzzySearchModal,
    About,
    UpdateAvailable,
}

/// What the gamepad handler reads of the launcher.
#[derive(Debug, Clone, Copy, PartialEq, Eq, Structural)]
pub struct GamepadContext {
    pub big_picture_in_detail: bool,
    pub detail_action_idx: usize,
    pub modal: ModalKind,
    pub is_big_picture: bool,
    pub focused_pane: FocusedPane,
    pub view_mode: ViewMode,
    pub games_empty: bool,
    /// `selected_field` of the add-folder form, the edit-game form or the
    /// settings modal, whichever is open.
    pub form_field: usize,
    /// The add-folder form's platform supports DAT identification.
    pub form_supports_dat: bool,
    /// The emulator of the add-folder or edit-game form runs cores.
    pub form_has_core: bool,
    /// The edit-game form edits an emulator game.
    pub edit_is_emulator: bool,
    /// The folder-manager item under the selection, if any.
    pub scan_item: Option<ScanFolderItem>,
    /// The settings modal is editing the API key.
    pub editing_api_key: bool,
}

/// What the launcher does with a gamepad action.
#[derive(Debug)]
pub enum GamepadOutcome {
    Nothing,
    /// Dispatch this action.
    Dispatch(Action),
    /// Tell the user the detail action is not available yet.
    ComingSoon,
    /// The emulator options popup handles the action itself.
    RunnerOptionsPopup,
    CycleAddFolderEmulator(bool),
    CycleAddFolderCore(bool),
    CycleEditGameEmulator(bool),
    CycleEditGameCore(bool),
    /// Start editing the API key in the settings modal.
    StartEditingApiKey,
    /// Replace the settings modal by the About modal.
    ShowAbout,
    /// Close the settings modal.
    CloseSettings,
    /// [Enter] on the folder manager.
    ScanFormEnter,
    /// [Enter] on the add-folder form.
    AddScanFormEnter,
    /// Start installing the update the modal offers.
    StartOfferedUpdate,
    /// Finish the welcome wizard with the key it holds.
    FinishWelcomeWizard,
    FocusGames,
    FocusPlatforms,
}

/// Left (`backward`) or right on the current modal.
pub open spec fn modal_side_spec(ctx: GamepadContext, backward: bool) -> GamepadOutcome {
    match ctx.modal {
        ModalKind::VisualMediaSelector => GamepadOutcome::Dispatch(
            if backward {
                Action::VisualMediaNavLeft
            } else {
                Action::VisualMediaNavRight
            },
        ),
        ModalKind::EditCustomArgsInput => GamepadOutcome::Dispatch(
            if backward {
                Action::FormNavLeft
            } else {
                Action::FormNavRight
            },
        ),
        ModalKind::ConfirmDeleteGame => GamepadOutcome::Dispatch(Action::ToggleConfirmDeleteOption),
        ModalKind::ConfirmDeleteRunner => GamepadOutcome::Dispatch(
            Action::ToggleConfirmDeleteRunnerOption,
        ),
        ModalKind::AddFolderScanForm => if ctx.form_field == scan_folder_add_emu_idx_spec(
            ctx.form_supports_dat,
        ) {
            GamepadOutcome::CycleAddFolderEmulator(backward)
        } else if ctx.form_has_core && ctx.form_field == scan_folder_add_emu_idx_spec(
            ctx.form_supports_dat,
        ) + 1 {
            GamepadOutcome::CycleAddFolderCore(backward)
        } else {
            GamepadOutcome::Nothing
        },
        ModalKind::ScanFolderForm => match ctx.scan_item {
            Some(ScanFolderItem::FolderEmulator(_)) => GamepadOutcome::Dispatch(
                Action::CycleFolderEmulator(backward),
            ),
            Some(ScanFolderItem::FolderCore(_)) => GamepadOutcome::Dispatch(
                Action::CycleFolderCore(backward),
            ),
            _ => GamepadOutcome::Nothing,
        },
        ModalKind::EditGameForm => if !ctx.edit_is_emulator {
            GamepadOutcome::Nothing
        } else if ctx.form_field == 2 {
            GamepadOutcome::CycleEditGameEmulator(backward)
        } else if ctx.form_has_core && ctx.form_field == 3 {
            GamepadOutcome::CycleEditGameCore(backward)
        } else {
            GamepadOutcome::Nothing
        },
        ModalKind::ConfirmDeleteFolder => GamepadOutcome::Dispatch(
            Action::ToggleConfirmDeleteFolderOption,
        ),
        _ => GamepadOutcome::Nothing,
    }
}

/// Confirm on the current modal.
pub open spec fn modal_confirm_spec(ctx: GamepadContext) -> GamepadOutcome {
    match ctx.modal {
        ModalKind::About => GamepadOutcome::Dispatch(Action::CheckForUpdates { silent: false }),
        ModalKind::UpdateAvailable => GamepadOutcome::StartOfferedUpdate,
        ModalKind::AppSettings => if ctx.form_field == 0 {
            if !ctx.editing_api_key {
                GamepadOutcome::StartEditingApiKey
            } else {
                GamepadOutcome::Nothing
            }
        } else if ctx.form_field == 1 {
            GamepadOutcome::Dispatch(Action::ResetRunnerConfig)
        } else if ctx.form_field == 2 {
            GamepadOutcome::ShowAbout
        } else if ctx.form_field == 3 {
            GamepadOutcome::Dispatch(Action::CheckForUpdates { silent: false })
        } else if ctx.form_field == 4 {
            GamepadOutcome::CloseSettings
        } else {
            GamepadOutcome::Nothing
        },
        ModalKind::ConfirmDeleteGame => GamepadOutcome::Dispatch(Action::ConfirmDeleteGameExecution),
        ModalKind::ConfirmDeleteFolder => GamepadOutcome::Dispatch(
            Action::ConfirmDeleteFolderExecution,
        ),
        ModalKind::ScanFolderForm => GamepadOutcome::ScanFormEnter,
        ModalKind::AddFolderScanForm => GamepadOutcome::AddScanFormEnter,
        ModalKind::EditCustomArgsInput => GamepadOutcome::Dispatch(Action::SaveCustomArgsInput),
        ModalKind::VisualMediaSelector => GamepadOutcome::Dispatch(
            Action::ApplyVisualMediaSelection,
        ),
        ModalKind::ProtonDownloader => GamepadOutcome::Dispatch(Action::StartProtonDownload),
        ModalKind::PlatformSelector => GamepadOutcome::Dispatch(Action::ConfirmPlatformSelectorModal),
        ModalKind::WelcomeWizard => GamepadOutcome::FinishWelcomeWizard,
        _ => GamepadOutcome::Nothing,
    }
}

/// What a gamepad action does in context `ctx`.
pub open spec fn gamepad_outcome_spec(ctx: GamepadContext, action: GamepadAction) -> GamepadOutcome {
    if ctx.big_picture_in_detail {
        match action {
            GamepadAction::Confirm => if ctx.detail_action_idx == 0 {
                GamepadOutcome::Dispatch(Action::LaunchGame)
            } else {
                GamepadOutcome::ComingSoon
            },
            GamepadAction::Back => GamepadOutcome::Dispatch(Action::CloseGameDetail),
            GamepadAction::Left => GamepadOutcome::Dispatch(Action::DetailPrevAction),
            GamepadAction::Right => GamepadOutcome::Dispatch(Action::DetailNextAction),
            _ => GamepadOutcome::Nothing,
        }
    } else if ctx.modal == ModalKind::ManageRunnersStep2Config {
        GamepadOutcome::RunnerOptionsPopup
    } else {
        let modal_open = ctx.modal != ModalKind::Closed;
        match action {
            GamepadAction::Up => if modal_open {
                if ctx.modal == ModalKind::ScanFolderForm || ctx.modal
                    == ModalKind::AddFolderScanForm {
                    GamepadOutcome::Dispatch(Action::ModalPrevField)
                } else {
                    GamepadOutcome::Dispatch(Action::ModalSelectPrev)
                }
            } else if ctx.is_big_picture {
                GamepadOutcome::Dispatch(Action::PrevGame)
            } else {
                match ctx.focused_pane {
                    FocusedPane::Platforms => GamepadOutcome::Dispatch(Action::PrevPlatform),
                    FocusedPane::Games => GamepadOutcome::Dispatch(Action::PrevGame),
                    FocusedPane::Search => GamepadOutcome::Nothing,
                }
            },
            GamepadAction::Down => if modal_open {
                if ctx.modal == ModalKind::ScanFolderForm || ctx.modal
                    == ModalKind::AddFolderScanForm {
                    GamepadOutcome::Dispatch(Action::ModalNextField)
                } else {
                    GamepadOutcome::Dispatch(Action::ModalSelectNext)
                }
            } else if ctx.is_big_picture {
                GamepadOutcome::Dispatch(Action::NextGame)
            } else {
                match ctx.focused_pane {
                    FocusedPane::Platforms => GamepadOutcome::Dispatch(Action::NextPlatform),
                    FocusedPane::Games => GamepadOutcome::Dispatch(Action::NextGame),
                    FocusedPane::Search => GamepadOutcome::Nothing,
                }
            },
            GamepadAction::Left => if modal_open {
                modal_side_spec(ctx, true)
            } else if ctx.is_big_picture || (ctx.focused_pane == FocusedPane::Games
                && ctx.view_mode == ViewMode::CoverCard) {
                GamepadOutcome::Dispatch(Action::PrevGame)
            } else if ctx.focused_pane == FocusedPane::Platforms {
                GamepadOutcome::Dispatch(Action::CycleActiveEmulatorPrev)
            } else {
                GamepadOutcome::Nothing
            },
            GamepadAction::Right => if modal_open {
                modal_side_spec(ctx, false)
            } else if ctx.is_big_picture || (ctx.focused_pane == FocusedPane::Games
                && ctx.view_mode == ViewMode::CoverCard) {
                GamepadOutcome::Dispatch(Action::NextGame)
            } else if ctx.focused_pane == FocusedPane::Platforms {
                GamepadOutcome::Dispatch(Action::CycleActiveEmulatorNext)
            } else {
                GamepadOutcome::Nothing
            },
            GamepadAction::Confirm => if modal_open {
                modal_confirm_spec(ctx)
            } else if ctx.is_big_picture {
                GamepadOutcome::Dispatch(Action::OpenGameDetail)
            } else {
                match ctx.focused_pane {
                    FocusedPane::Platforms => GamepadOutcome::FocusGames,
                    FocusedPane::Games => GamepadOutcome::Dispatch(Action::LaunchGame),
                    FocusedPane::Search => GamepadOutcome::Nothing,
                }
            },
            GamepadAction::Back => if modal_open {
                GamepadOutcome::Dispatch(Action::CloseModal)
            } else if ctx.is_big_picture {
                GamepadOutcome::Dispatch(Action::ToggleBigPictureMode)
            } else if ctx.focused_pane == FocusedPane::Games {
                GamepadOutcome::FocusPlatforms
            } else {
                GamepadOutcome::Nothing
            },
            GamepadAction::ToggleViewMode => if !modal_open {
                if ctx.is_big_picture {
                    GamepadOutcome::Dispatch(Action::OpenPlatformSelectorModal)
                } else {
                    GamepadOutcome::Dispatch(Action::ToggleViewMode)
                }
            } else {
                GamepadOutcome::Nothing
            },
            GamepadAction::ToggleSelectGame => if !modal_open && !ctx.is_big_picture {
                GamepadOutcome::Dispatch(Action::ToggleSelectGame)
            } else if ctx.modal == ModalKind::ScanFolderForm {
                GamepadOutcome::Dispatch(Action::ToggleSelectFolder)
            } else {
                GamepadOutcome::Nothing
            },
            GamepadAction::DeleteSelected => if !modal_open && !ctx.is_big_picture
                && !ctx.games_empty {
                GamepadOutcome::Dispatch(Action::OpenConfirmDeleteModal)
            } else if ctx.modal == ModalKind::ScanFolderForm {
                GamepadOutcome::Dispatch(Action::OpenConfirmDeleteFolder)
            } else {
                GamepadOutcome::Nothing
            },
            GamepadAction::NextTab => if modal_open {
                if ctx.modal == ModalKind::VisualMediaSelector {
                    GamepadOutcome::Dispatch(Action::SwitchVisualMediaTab)
                } else if ctx.modal == ModalKind::ScanFolderForm {
                    GamepadOutcome::Dispatch(Action::SwitchScanFolderPane)
                } else {
                    GamepadOutcome::Nothing
                }
            } else {
                GamepadOutcome::Dispatch(Action::NextPlatform)
            },
            GamepadAction::PrevTab => if modal_open {
                if ctx.modal == ModalKind::VisualMediaSelector {
                    GamepadOutcome::Dispatch(Action::SwitchVisualMediaTabPrev)
                } else if ctx.modal == ModalKind::ScanFolderForm {
                    GamepadOutcome::Dispatch(Action::SwitchScanFolderPane)
                } else {
                    GamepadOutcome::Nothing
                }
            } else {
                GamepadOutcome::Dispatch(Action::PrevPlatform)
            },
            GamepadAction::ToggleBigPicture => if !modal_open {
                GamepadOutcome::Dispatch(Action::ToggleBigPictureMode)
            } else {
                GamepadOutcome::Nothing
            },
            GamepadAction::OpenMenu => if !modal_open {
                GamepadOutcome::Dispatch(Action::OpenSettingsModal)
            } else {
                GamepadOutcome::Nothing
            },
        }
    }
}

fn modal_side(ctx: GamepadContext, backward: bool) -> (r: GamepadOutcome)
    ensures
        r == modal_side_spec(ctx, backward),
{
    match ctx.modal {
        ModalKind::VisualMediaSelector => GamepadOutcome::Dispatch(
            if backward {
                Action::VisualMediaNavLeft
            } else {
                Action::VisualMediaNavRight
            },
        ),
        ModalKind::EditCustomArgsInput => GamepadOutcome::Dispatch(
            if backward {
                Action::FormNavLeft
            } else {
                Action::FormNavRight
            },
        ),
        ModalKind::ConfirmDeleteGame => GamepadOutcome::Dispatch(Action::ToggleConfirmDeleteOption),
        ModalKind::ConfirmDeleteRunner => GamepadOutcome::Dispatch(
            Action::ToggleConfirmDeleteRunnerOption,
        ),
        ModalKind::AddFolderScanForm => {
            let emu_idx = scan_folder_add_emu_idx(ctx.form_supports_dat);
            let core_idx = scan_folder_add_core_idx(ctx.form_supports_dat);
            if ctx.form_field == emu_idx {
                GamepadOutcome::CycleAddFolderEmulator(backward)
            } else if ctx.form_has_core && ctx.form_field == core_idx {
                GamepadOutcome::CycleAddFolderCore(backward)
            } else {
                GamepadOutcome::Nothing
            }
        },
        ModalKind::ScanFolderForm => match ctx.scan_item {
            Some(ScanFolderItem::FolderEmulator(_)) => GamepadOutcome::Dispatch(
                Action::CycleFolderEmulator(backward),
            ),
            Some(ScanFolderItem::FolderCore(_)) => GamepadOutcome::Dispatch(
                Action::CycleFolderCore(backward),
            ),
            _ => GamepadOutcome::Nothing,
        },
        ModalKind::EditGameForm => if !ctx.edit_is_emulator {
            GamepadOutcome::Nothing
        } else if ctx.form_field == 2 {
            GamepadOutcome::CycleEditGameEmulator(backward)
        } else if ctx.form_has_core && ctx.form_field == 3 {
            GamepadOutcome::CycleEditGameCore(backward)
        } else {
            GamepadOutcome::Nothing
        },
        ModalKind::ConfirmDeleteFolder => GamepadOutcome::Dispatch(
            Action::ToggleConfirmDeleteFolderOption,
        ),
        _ => GamepadOutcome::Nothing,
    }
}

fn modal_confirm(ctx: GamepadContext) -> (r: GamepadOutcome)
    ensures
        r == modal_confirm_spec(ctx),
{
    match ctx.modal {
        ModalKind::About => GamepadOutcome::Dispatch(Action::CheckForUpdates { silent: false }),
        ModalKind::UpdateAvailable => GamepadOutcome::StartOfferedUpdate,
        ModalKind::AppSettings => if ctx.form_field == 0 {
            if !ctx.editing_api_key {
                GamepadOutcome::StartEditingApiKey
            } else {
                GamepadOutcome::Nothing
            }
        } else if ctx.form_field == 1 {
            GamepadOutcome::Dispatch(Action::ResetRunnerConfig)
        } else if ctx.form_field == 2 {
            GamepadOutcome::ShowAbout
        } else if ctx.form_field == 3 {
            GamepadOutcome::Dispatch(Action::CheckForUpdates { silent: false })
        } else if ctx.form_field == 4 {
            GamepadOutcome::CloseSettings
        } else {
            GamepadOutcome::Nothing
        },
        ModalKind::ConfirmDeleteGame => GamepadOutcome::Dispatch(Action::ConfirmDeleteGameExecution),
        ModalKind::ConfirmDeleteFolder => GamepadOutcome::Dispatch(
            Action::ConfirmDeleteFolderExecution,
        ),
        ModalKind::ScanFolderForm => GamepadOutcome::ScanFormEnter,
        ModalKind::AddFolderScanForm => GamepadOutcome::AddScanFormEnter,
        ModalKind::EditCustomArgsInput => GamepadOutcome::Dispatch(Action::SaveCustomArgsInput),
        ModalKind::VisualMediaSelector => GamepadOutcome::Dispatch(
            Action::ApplyVisualMediaSelection,
        ),
        ModalKind::ProtonDownloader => GamepadOutcome::Dispatch(Action::StartProtonDownload),
        ModalKind::PlatformSelector => GamepadOutcome::Dispatch(Action::ConfirmPlatformSelectorModal),
        ModalKind::WelcomeWizard => GamepadOutcome::FinishWelcomeWizard,
        _ => GamepadOutcome::Nothing,
    }
}

/// Decide what a gamepad action does in context `ctx`.
pub fn handle_gamepad_action(ctx: GamepadContext, action: GamepadAction) -> (r: GamepadOutcome)
    ensures
        r == gamepad_outcome_spec(ctx, action),
{
    if ctx.big_picture_in_detail {
        return match action {
            GamepadAction::Confirm => if ctx.detail_action_idx == 0 {
                GamepadOutcome::Dispatch(Action::LaunchGame)
            } else {
                GamepadOutcome::ComingSoon
            },
            GamepadAction::Back => GamepadOutcome::Dispatch(Action::CloseGameDetail),
            GamepadAction::Left => GamepadOutcome::Dispatch(Action::DetailPrevAction),
            GamepadAction::Right => GamepadOutcome::Dispatch(Action::DetailNextAction),
            _ => GamepadOutcome::Nothing,
        };
    }
    if ctx.modal == ModalKind::ManageRunnersStep2Config {
        return GamepadOutcome::RunnerOptionsPopup;
    }
    let modal_open = ctx.modal != ModalKind::Closed;
    match action {
        GamepadAction::Up => if modal_open {
            if ctx.modal == ModalKind::ScanFolderForm || ctx.modal == ModalKind::AddFolderScanForm {
                GamepadOutcome::Dispatch(Action::ModalPrevField)
            } else {
                GamepadOutcome::Dispatch(Action::ModalSelectPrev)
            }
        } else if ctx.is_big_picture {
            GamepadOutcome::Dispatch(Action::PrevGame)
        } else {
            match ctx.focused_pane {
                FocusedPane::Platforms => GamepadOutcome::Dispatch(Action::PrevPlatform),
                FocusedPane::Games => GamepadOutcome::Dispatch(Action::PrevGame),
                FocusedPane::Search => GamepadOutcome::Nothing,
            }
        },
        GamepadAction::Down => if modal_open {
            if ctx.modal == ModalKind::ScanFolderForm || ctx.modal == ModalKind::AddFolderScanForm {
                GamepadOutcome::Dispatch(Action::ModalNextField)
            } else {
                GamepadOutcome::Dispatch(Action::ModalSelectNext)
            }
        } else if ctx.is_big_picture {
            GamepadOutcome::Dispatch(Action::NextGame)
        } else {
            match ctx.focused_pane {
                FocusedPane::Platforms => GamepadOutcome::Dispatch(Action::NextPlatform),
                FocusedPane::Games => GamepadOutcome::Dispatch(Action::NextGame),
                FocusedPane::Search => GamepadOutcome::Nothing,
            }
        },
        GamepadAction::Left => if modal_open {
            modal_side(ctx, true)
        } else if ctx.is_big_picture || (ctx.focused_pane == FocusedPane::Games && ctx.view_mode
            == ViewMode::CoverCard) {
            GamepadOutcome::Dispatch(Action::PrevGame)
        } else if ctx.focused_pane == FocusedPane::Platforms {
            GamepadOutcome::Dispatch(Action::CycleActiveEmulatorPrev)
        } else {
            GamepadOutcome::Nothing
        },
        GamepadAction::Right => if modal_open {
            modal_side(ctx, false)
        } else if ctx.is_big_picture || (ctx.focused_pane == FocusedPane::Games && ctx.view_mode
            == ViewMode::CoverCard) {
            GamepadOutcome::Dispatch(Action::NextGame)
        } else if ctx.focused_pane == FocusedPane::Platforms {
            GamepadOutcome::Dispatch(Action::CycleActiveEmulatorNext)
        } else {
            GamepadOutcome::Nothing
        },
        GamepadAction::Confirm => if modal_open {
            modal_confirm(ctx)
        } else if ctx.is_big_picture {
            GamepadOutcome::Dispatch(Action::OpenGameDetail)
        } else {
            match ctx.focused_pane {
                FocusedPane::Platforms => GamepadOutcome::FocusGames,
                FocusedPane::Games => GamepadOutcome::Dispatch(Action::LaunchGame),
                FocusedPane::Search => GamepadOutcome::Nothing,
            }
        },
        GamepadAction::Back => if modal_open {
            GamepadOutcome::Dispatch(Action::CloseModal)
        } else if ctx.is_big_picture {
            GamepadOutcome::Dispatch(Action::ToggleBigPictureMode)
        } else if ctx.focused_pane == FocusedPane::Games {
            GamepadOutcome::FocusPlatforms
        } else {
            GamepadOutcome::Nothing
        },
        GamepadAction::ToggleViewMode => if !modal_open {
            if ctx.is_big_picture {
                GamepadOutcome::Dispatch(Action::OpenPlatformSelectorModal)
            } else {
                GamepadOutcome::Dispatch(Action::ToggleViewMode)
            }
        } else {
            GamepadOutcome::Nothing
        },
        GamepadAction::ToggleSelectGame => if !modal_open && !ctx.is_big_picture {
            GamepadOutcome::Dispatch(Action::ToggleSelectGame)
        } else if ctx.modal == ModalKind::ScanFolderForm {
            GamepadOutcome::Dispatch(Action::ToggleSelectFolder)
        } else {
            GamepadOutcome::Nothing
        },
        GamepadAction::DeleteSelected => if !modal_open && !ctx.is_big_picture && !ctx.games_empty {
            GamepadOutcome::Dispatch(Action::OpenConfirmDeleteModal)
        } else if ctx.modal == ModalKind::ScanFolderForm {
            GamepadOutcome::Dispatch(Action::OpenConfirmDeleteFolder)
        } else {
            GamepadOutcome::Nothing
        },
        GamepadAction::NextTab => if modal_open {
            if ctx.modal == ModalKind::VisualMediaSelector {
                GamepadOutcome::Dispatch(Action::SwitchVisualMediaTab)
            } else if ctx.modal == ModalKind::ScanFolderForm {
                GamepadOutcome::Dispatch(Action::SwitchScanFolderPane)
            } else {
                GamepadOutcome::Nothing
            }
        } else {
            GamepadOutcome::Dispatch(Action::NextPlatform)
        },
        GamepadAction::PrevTab => if modal_open {
            if ctx.modal == ModalKind::VisualMediaSelector {
                GamepadOutcome::Dispatch(Action::SwitchVisualMediaTabPrev)
            } else if ctx.modal == ModalKind::ScanFolderForm {
                GamepadOutcome::Dispatch(Action::SwitchScanFolderPane)
            } else {
                GamepadOutcome::Nothing
            }
        } else {
            GamepadOutcome::Dispatch(Action::PrevPlatform)
        },
        GamepadAction::ToggleBigPicture => if !modal_open {
            GamepadOutcome::Dispatch(Action::ToggleBigPictureMode)
        } else {
            GamepadOutcome::Nothing
        },
        GamepadAction::OpenMenu => if !modal_open {
            GamepadOutcome::Dispatch(Action::OpenSettingsModal)
        } else {
            GamepadOutcome::Nothing
        },
    }
}

/// Inside the game detail view the controller only launches, moves between
/// the detail actions or closes the view; with a modal open it never quits,
/// launches or deletes a game directly.
pub proof fn lemma_gamepad_respects_context(ctx: GamepadContext, action: GamepadAction)
    ensures
        ctx.big_picture_in_detail ==> match gamepad_outcome_spec(ctx, action) {
            GamepadOutcome::Dispatch(a) => a is LaunchGame || a is CloseGameDetail
                || a is DetailPrevAction || a is DetailNextAction,
            GamepadOutcome::ComingSoon => true,
            GamepadOutcome::Nothing => true,
            _ => false,
        },
        !ctx.big_picture_in_detail && ctx.modal != ModalKind::Closed ==> match gamepad_outcome_spec(
            ctx,
            action,
        ) {
            GamepadOutcome::Dispatch(a) => !(a is LaunchGame) && !(a is Quit)
                && !(a is OpenConfirmDeleteModal),
            _ => true,
        },
{
}

/// A button of the emulator options popup.
#[derive(Debug, Clone, Copy, PartialEq, Eq, Structural)]
pub enum RunnerButton {
    Browse,
    Download,
    Save,
    Open,
    Delete,
}

/// The buttons of the emulator options popup: [Browse], [Download] when the
/// runner can be downloaded, [Save], then [Open] and [Delete] when an
/// executable is set.
pub open spec fn runner_buttons_spec(has_download_url: bool, has_executable: bool) -> Seq<RunnerButton> {
    let a = seq![RunnerButton::Browse];
    let b = if has_download_url {
        a.push(RunnerButton::Download)
    } else {
        a
    };
    let c = b.push(RunnerButton::Save);
    if has_executable {
        c.push(RunnerButton::Open).push(RunnerButton::Delete)
    } else {
        c
    }
}

pub fn runner_buttons(has_download_url: bool, has_executable: bool) -> (r: Vec<RunnerButton>)
    ensures
        r@ == runner_buttons_spec(has_download_url, has_executable),
{
    let mut v: Vec<RunnerButton> = Vec::new();
    v.push(RunnerButton::Browse);
    if has_download_url {
        v.push(RunnerButton::Download);
    }
    v.push(RunnerButton::Save);
    if has_executable {
        v.push(RunnerButton::Open);
        v.push(RunnerButton::Delete);
    }
    assert(v@ =~= runner_buttons_spec(has_download_url, has_executable));
    v
}

/// The action a button triggers.
pub open spec fn button_action_spec(b: RunnerButton) -> Action {
    match b {
        RunnerButton::Browse => Action::OpenFilePicker,
        RunnerButton::Download => Action::StartRunnerDownload,
        RunnerButton::Save => Action::SaveRunnerConfig,
        RunnerButton::Open => Action::OpenRunnerStandalone,
        RunnerButton::Delete => Action::OpenConfirmDeleteRunnerModal,
    }
}

pub fn button_action(b: RunnerButton) -> (a: Action)
    ensures
        a == button_action_spec(b),
{
    match b {
        RunnerButton::Browse => Action::OpenFilePicker,
        RunnerButton::Download => Action::StartRunnerDownload,
        RunnerButton::Save => Action::SaveRunnerConfig,
        RunnerButton::Open => Action::OpenRunnerStandalone,
        RunnerButton::Delete => Action::OpenConfirmDeleteRunnerModal,
    }
}

/// Cursor state of the emulator options popup: rows are the executable
/// path (0), one per option (1..=n), the custom arguments (n + 1) and the
/// buttons (n + 2).
#[derive(Debug, Clone, Copy, PartialEq, Eq, Structural)]
pub struct RunnerPopupState {
    pub option_count: usize,
    pub selected_row: usize,
    pub selected_action_idx: usize,
    pub cursor_pos: usize,
}

/// What the popup reads of the runner being configured.
#[derive(Debug, Clone, Copy, PartialEq, Eq, Structural)]
pub struct RunnerPopupInfo {
    pub exe_path_len: usize,
    pub exe_path_blank: bool,
    pub custom_args_len: usize,
    pub has_download_url: bool,
    /// The trimmed executable path names an executable command or an
    /// existing file.
    pub has_executable: bool,
}

/// A command the popup hands back to the launcher.
#[derive(Debug)]
pub enum RunnerPopupCommand {
    /// Nothing to do beyond the state change.
    Idle,
    Dispatch(Action),
    /// Cycle the value of option `idx` (backward or forward).
    CycleOption { idx: usize, backward: bool },
}

/// Number of buttons the popup shows.
pub open spec fn button_count_spec(info: RunnerPopupInfo) -> nat {
    2 + (if info.has_download_url {
        1nat
    } else {
        0nat
    }) + (if info.has_executable {
        2nat
    } else {
        0nat
    })
}

/// A cursor moved left (down to 0) or right (up to `len`).
pub open spec fn move_cursor(pos: usize, len: usize, backward: bool) -> usize {
    if backward {
        if pos > 0 {
            (pos - 1) as usize
        } else {
            pos
        }
    } else if pos < len {
        (pos + 1) as usize
    } else {
        pos
    }
}

/// Controller navigation of the emulator options popup.
pub open spec fn runner_popup_spec(s: RunnerPopupState, info: RunnerPopupInfo, action: GamepadAction) -> (
    RunnerPopupState,
    RunnerPopupCommand,
) {
    let n = s.option_count;
    let total = n + 3;
    match action {
        GamepadAction::Up => (
            RunnerPopupState {
                selected_row: if s.selected_row == 0 {
                    (total - 1) as usize
                } else {
                    (s.selected_row - 1) as usize
                },
                ..s
            },
            RunnerPopupCommand::Idle,
        ),
        GamepadAction::Down => (
            RunnerPopupState { selected_row: ((s.selected_row + 1) % (total as int)) as usize, ..s },
            RunnerPopupCommand::Idle,
        ),
        GamepadAction::Left | GamepadAction::Right => {
            let backward = action == GamepadAction::Left;
            if s.selected_row == 0 {
                (
                    RunnerPopupState {
                        cursor_pos: move_cursor(s.cursor_pos, info.exe_path_len, backward),
                        ..s
                    },
                    RunnerPopupCommand::Idle,
                )
            } else if s.selected_row <= n {
                (s, RunnerPopupCommand::CycleOption { idx: (s.selected_row - 1) as usize, backward })
            } else if s.selected_row == n + 1 {
                (
                    RunnerPopupState {
                        cursor_pos: move_cursor(s.cursor_pos, info.custom_args_len, backward),
                        ..s
                    },
                    RunnerPopupCommand::Idle,
                )
            } else {
                let idx = s.selected_action_idx;
                let new_idx = if backward {
                    if idx > 0 {
                        (idx - 1) as usize
                    } else {
                        idx
                    }
                } else if idx + 1 < button_count_spec(info) {
                    (idx + 1) as usize
                } else {
                    idx
                };
                (RunnerPopupState { selected_action_idx: new_idx, ..s }, RunnerPopupCommand::Idle)
            }
        },
        GamepadAction::Confirm => if s.selected_row == 0 {
            if info.exe_path_blank {
                (s, RunnerPopupCommand::Dispatch(Action::OpenFilePicker))
            } else {
                (RunnerPopupState { selected_row: (n + 2) as usize, ..s }, RunnerPopupCommand::Idle)
            }
        } else if s.selected_row <= n {
            (
                s,
                RunnerPopupCommand::CycleOption {
                    idx: (s.selected_row - 1) as usize,
                    backward: false,
                },
            )
        } else if s.selected_row == n + 1 {
            (s, RunnerPopupCommand::Dispatch(Action::OpenCustomArgsEditor))
        } else {
            let buttons = runner_buttons_spec(info.has_download_url, info.has_executable);
            let b = if s.selected_action_idx < buttons.len() {
                buttons[s.selected_action_idx as int]
            } else {
                RunnerButton::Save
            };
            (s, RunnerPopupCommand::Dispatch(button_action_spec(b)))
        },
        GamepadAction::Back => (s, RunnerPopupCommand::Dispatch(Action::CloseModal)),
        _ => (s, RunnerPopupCommand::Idle),
    }
}

/// The controller's ▲ and ▼ go up and down the same list: in a modal, its
/// list (or the fields of the folder forms); otherwise the games (Big
/// Picture or the Games pane), ▼ highlighting the next game and ▲ the
/// previous one, or the platforms on the Platforms pane. In Big Picture and
/// on the cover cards, ▶ and ◀ likewise highlight the next and the previous
/// game.
pub proof fn lemma_gamepad_directions(ctx: GamepadContext, n: Navigator)
    requires
        !ctx.big_picture_in_detail,
        ctx.modal != ModalKind::ManageRunnersStep2Config,
        !n.game_running,
        !n.modal_open,
    ensures
        ({
            let down = gamepad_outcome_spec(ctx, GamepadAction::Down);
            let up = gamepad_outcome_spec(ctx, GamepadAction::Up);
            let right = gamepad_outcome_spec(ctx, GamepadAction::Right);
            let left = gamepad_outcome_spec(ctx, GamepadAction::Left);
            let library = ctx.modal == ModalKind::Closed;
            &&& down is Dispatch <==> up is Dispatch
            &&& down is Dispatch ==> (forward_back_pair(down->Dispatch_0, up->Dispatch_0) || (down->Dispatch_0
                is ModalNextField && up->Dispatch_0 is ModalPrevField))
            &&& library && (ctx.is_big_picture || ctx.focused_pane == FocusedPane::Games) && n.game_count > 0
                ==> (down is Dispatch && moves_game_down(n, down->Dispatch_0) && up is Dispatch
                && moves_game_up(n, up->Dispatch_0))
            &&& library && !ctx.is_big_picture && ctx.focused_pane == FocusedPane::Platforms
                && n.platform_count > 0 ==> (down is Dispatch && moves_platform_down(n, down->Dispatch_0)
                && up is Dispatch && moves_platform_up(n, up->Dispatch_0))
            &&& library && (ctx.is_big_picture || (ctx.focused_pane == FocusedPane::Games && ctx.view_mode
                == ViewMode::CoverCard)) && n.game_count > 0 ==> (right is Dispatch && moves_game_down(
                n,
                right->Dispatch_0,
            ) && left is Dispatch && moves_game_up(n, left->Dispatch_0))
        }),
{
}

/// In the emulator options popup, Down then Up (or Up then Down) returns to
/// the row it started on and changes nothing else; both only move the row.
pub proof fn lemma_runner_popup_rows_round_trip(s: RunnerPopupState, info: RunnerPopupInfo)
    requires
        s.option_count + 3 <= usize::MAX,
        s.selected_row < s.option_count + 3,
    ensures
        runner_popup_spec(s, info, GamepadAction::Down).1 == RunnerPopupCommand::Idle,
        runner_popup_spec(s, info, GamepadAction::Up).1 == RunnerPopupCommand::Idle,
        runner_popup_spec(runner_popup_spec(s, info, GamepadAction::Down).0, info, GamepadAction::Up).0 == s,
        runner_popup_spec(runner_popup_spec(s, info, GamepadAction::Up).0, info, GamepadAction::Down).0 == s,
{
    let total = s.option_count + 3;
    crate::cycle::lemma_wrapping_round_trip(s.selected_row as int, total);
    assert(crate::cycle::next_wrapping(s.selected_row as int, total) == (s.selected_row + 1) % total);
}

/// Controller navigation for the emulator options popup.
pub fn handle_runner_popup_gamepad(
    s: &mut RunnerPopupState,
    info: RunnerPopupInfo,
    action: GamepadAction,
) -> (c: RunnerPopupCommand)
    requires
        old(s).option_count + 3 <= usize::MAX,
        old(s).selected_row < old(s).option_count + 3,
    ensures
        (*final(s), c) == runner_popup_spec(*old(s), info, action),
        final(s).selected_row < final(s).option_count + 3,
{
    let n = s.option_count;
    let total = n + 3;
    match action {
        GamepadAction::Up => {
            s.selected_row = if s.selected_row == 0 {
                total - 1
            } else {
                s.selected_row - 1
            };
            RunnerPopupCommand::Idle
        },
        GamepadAction::Down => {
            s.selected_row = (s.selected_row + 1) % total;
            RunnerPopupCommand::Idle
        },
        GamepadAction::Left | GamepadAction::Right => {
            let backward = action == GamepadAction::Left;
            if s.selected_row == 0 {
                if backward {
                    if s.cursor_pos > 0 {
                        s.cursor_pos = s.cursor_pos - 1;
                    }
                } else if s.cursor_pos < info.exe_path_len {
                    s.cursor_pos = s.cursor_pos + 1;
                }
                RunnerPopupCommand::Idle
            } else if s.selected_row <= n {
                RunnerPopupCommand::CycleOption { idx: s.selected_row - 1, backward }
            } else if s.selected_row == n + 1 {
                if backward {
                    if s.cursor_pos > 0 {
                        s.cursor_pos = s.cursor_pos - 1;
                    }
                } else if s.cursor_pos < info.custom_args_len {
                    s.cursor_pos = s.cursor_pos + 1;
                }
                RunnerPopupCommand::Idle
            } else {
                let mut total_btns: usize = 2;
                if info.has_download_url {
                    total_btns = total_btns + 1;
                }
                if info.has_executable {
                    total_btns = total_btns + 2;
                }
                if backward {
                    if s.selected_action_idx > 0 {
                        s.selected_action_idx = s.selected_action_idx - 1;
                    }
                } else if s.selected_action_idx < total_btns - 1 {
                    s.selected_action_idx = s.selected_action_idx + 1;
                }
                RunnerPopupCommand::Idle
            }
        },
        GamepadAction::Confirm => {
            if s.selected_row == 0 {
                if info.exe_path_blank {
                    RunnerPopupCommand::Dispatch(Action::OpenFilePicker)
                } else {
                    s.selected_row = n + 2;
                    RunnerPopupCommand::Idle
                }
            } else if s.selected_row <= n {
                RunnerPopupCommand::CycleOption { idx: s.selected_row - 1, backward: false }
            } else if s.selected_row == n + 1 {
                RunnerPopupCommand::Dispatch(Action::OpenCustomArgsEditor)
            } else {
                let buttons = runner_buttons(info.has_download_url, info.has_executable);
                let b = if s.selected_action_idx < buttons.len() {
                    buttons[s.selected_action_idx]
                } else {
                    RunnerButton::Save
                };
                RunnerPopupCommand::Dispatch(button_action(b))
            }
        },
        GamepadAction::Back => RunnerPopupCommand::Dispatch(Action::CloseModal),
        _ => RunnerPopupCommand::Idle,
    }
}

} // verus!
