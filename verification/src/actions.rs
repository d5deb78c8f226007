//! The launcher's action bus and the central guard every action passes
//! before it is dispatched: while a game runs only force-closing it is
//! accepted, and while stale post-game input is being drained nothing
//! destructive (quit, launch, delete, install, scan) may fire.
use vstd::prelude::*;
use crate::toast::ToastKind;

verus! {

/// Whether the TUI is (temporarily) discarding stale input after a game exit.
#[derive(Debug, Clone, Copy, PartialEq, Eq, Structural)]
pub enum InputSafeMode {
    /// Normal operation: input is forwarded to the UI.
    Active,
    /// Post-game drain active: stale input is discarded and destructive
    /// actions (quit, launch, delete...) are rejected until the drain ends.
    Locked,
}

/// One progress report of a background download, as the action bus carries
/// it (the percentage is derived from the byte counts by the UI).
#[derive(Debug, Clone, PartialEq, Eq)]
pub struct DownloadTick {
    pub downloaded: u64,
    pub total: u64,
    pub finished: bool,
    pub error: Option<String>,
    pub task_name: Option<String>,
}

/// Action bus for the TUI. Some variants are reserved for upcoming features
/// (fuzzy search, wine tooling, batch scanning) and are not yet dispatched.
#[derive(Debug)]
pub enum Action {
    OpenAboutModal,
    CheckForUpdates { silent: bool },
    StartAppUpdate { download_url: String, new_version: String },
    NextPlatform,
    PrevPlatform,
    /// Cycle the active emulator (or core, when the active emulator is
    /// core-based) with the ◀ ▶ selector in the platforms pane.
    CycleActiveEmulatorNext,
    CycleActiveEmulatorPrev,
    NextGame,
    PrevGame,
    OpenPlatformSelectorModal,
    ConfirmPlatformSelectorModal,
    OpenCheatsheetModal,
    OpenWelcomeWizardModal,
    OpenFuzzySearchModal,
    UpdateFuzzySearchQuery(String),
    ClearFuzzySearch,
    AddToast(String, ToastKind),
    ToggleBigPictureFocus,
    OpenWineRunnerManager,
    OpenProtonDownloader,
    ProtonDownloaderSelectNext,
    ProtonDownloaderSelectPrev,
    ProtonDownloaderConfirm,
    ProtonDownloaderBack,
    FetchProtonReleases,
    StartProtonDownload,
    OpenWineRunnerPicker,
    SelectWineRunnerFromPicker,
    CycleWineRunner(i32),
    DeleteInstalledWineRunner,
    OpenCustomArgsEditor,
    SaveCustomArgsInput,
    OpenWinecfg,
    OpenWinetricks,
    KillWineProcesses,
    OpenWineToolsMenu,
    SelectWineTool,
    FormNavLeft,
    FormNavRight,
    TogglePane,
    ToggleViewMode,
    ToggleShowAllPlatforms,
    LaunchGame,
    OpenGameDetail,
    CloseGameDetail,
    DetailNextAction,
    DetailPrevAction,
    ScanCurrentFolder,
    ScanSteamGames,
    OpenFilePicker,
    OpenFolderPicker,
    OpenAddGameModal,
    /// Open the Wine "Add Game Details" form directly (Windows Games manager).
    OpenAddGameWineForm,
    OpenEditGameModal,
    SaveEditGameModal,
    CloseModal,
    ModalSelectNext,
    ModalSelectPrev,
    ModalConfirmStep1,
    ScanModalConfirmPlatform,
    ModalNextField,
    ModalPrevField,
    ModalInputChar(char),
    ModalBackspace,
    ModalToggleCheckbox,
    SaveModalGame,
    StartFolderScan,
    /// Re-scan a specific existing scan folder from the folder manager.
    RescanFolder,
    /// Re-assign the emulator pinned to a scan folder (◀ ▶ on its row).
    CycleFolderEmulator(bool),
    /// Re-assign the core pinned to a scan folder (◀ ▶ on its core row).
    CycleFolderCore(bool),
    CycleEditGameEmulator(bool),
    OpenConfirmDeleteFolder,
    /// Open delete confirmation dialog for a specific folder index.
    OpenConfirmDeleteFolderForIndex(usize),
    ConfirmDeleteFolderExecution,
    ToggleConfirmDeleteFolderOption,
    /// Open the add-folder form from the folder manager.
    OpenAddFolderModal,
    /// Register the folder filled in the "Add New Folder" pane and keep the
    /// manager open so more folders can be queued before scanning.
    AddFolder,
    /// Register the folder filled in the simplified Add-Game scan form and
    /// scan it immediately with the chosen emulator/core.
    StartAddAndScan,
    /// Open the core download picker modal from scan folder or edit game forms.
    OpenDownloadCoreModal,
    /// Download the currently selected core in the core download modal.
    TriggerDownloadCore,
    /// Open the full folder manager for the selected platform.
    OpenFolderManagerForPlatform,
    /// Toggle a scan folder row in/out of the multi-selection.
    ToggleSelectFolder,
    /// Switch the folder-manager focus between the "Registered Folders" pane
    /// and the "Add New Folder" form.
    SwitchScanFolderPane,
    QuickRescanPlatform,
    ToggleSelectGame,
    ToggleBigPictureMode,
    DeleteSelectedGames,
    OpenConfirmDeleteModal,
    ConfirmDeleteGameExecution,
    ToggleConfirmDeleteOption,
    FetchGameMedia,
    SaveApiKey,
    OpenSettingsModal,
    SaveAppSettings,
    OpenVisualMediaModal,
    SearchVisualMedia,
    SelectVisualMediaCandidate,
    SwitchVisualMediaTab,
    SwitchVisualMediaTabPrev,
    VisualMediaNavUp,
    VisualMediaNavDown,
    VisualMediaNavLeft,
    VisualMediaNavRight,
    SetVisualMediaTab(usize),
    ApplyVisualMediaSelection,
    OpenManageRunnersModal,
    RunnerModalConfirmPlatform,
    OpenDetectEmulatorModal,
    SelectDetectedEmulatorCandidate,
    SaveRunnerConfig,
    ResetRunnerConfig,
    ToggleRunnerActiveState,
    StartRunnerDownload,
    UpdateDownloadProgress(DownloadTick),
    DeleteRunnerDownload,
    OpenConfirmDeleteRunnerModal,
    ToggleConfirmDeleteRunnerOption,
    ConfirmDeleteRunnerExecution,
    OpenRunnerStandalone,
    /// Kill the currently running game (real process + tree + FUSE mount)
    /// from the "game running" indicator. Available whenever a game runs.
    ForceCloseGame,
    Quit,
    SetStatus(String),
}

/// Actions that must never fire while post-game input draining is active:
/// quitting, launching games/emulators, destructive deletes/installs/scans.
pub open spec fn is_destructive(action: Action) -> bool {
    ||| action is Quit
    ||| action is LaunchGame
    ||| action is OpenRunnerStandalone
    ||| action is StartRunnerDownload
    ||| action is StartAppUpdate
    ||| action is DeleteSelectedGames
    ||| action is ConfirmDeleteGameExecution
    ||| action is ConfirmDeleteRunnerExecution
    ||| action is ScanCurrentFolder
    ||| action is StartFolderScan
    ||| action is RescanFolder
    ||| action is StartAddAndScan
    ||| action is ConfirmDeleteFolderExecution
    ||| action is KillWineProcesses
    ||| action is DeleteInstalledWineRunner
    ||| action is DeleteRunnerDownload
    ||| action is StartProtonDownload
    ||| action is QuickRescanPlatform
}

/// Whether `action` is destructive (see [`is_destructive`]). Navigation and
/// rendering actions are harmless and may proceed.
pub fn is_destructive_action(action: &Action) -> (b: bool)
    ensures
        b == is_destructive(*action),
{
    match action {
        Action::Quit | Action::LaunchGame | Action::OpenRunnerStandalone
        | Action::StartRunnerDownload | Action::StartAppUpdate { .. }
        | Action::DeleteSelectedGames | Action::ConfirmDeleteGameExecution
        | Action::ConfirmDeleteRunnerExecution | Action::ScanCurrentFolder
        | Action::StartFolderScan | Action::RescanFolder | Action::StartAddAndScan
        | Action::ConfirmDeleteFolderExecution | Action::KillWineProcesses
        | Action::DeleteInstalledWineRunner | Action::DeleteRunnerDownload
        | Action::StartProtonDownload | Action::QuickRescanPlatform => true,
        _ => false,
    }
}

/// While a game is running, the ONLY valid interaction with the launcher is
/// force-closing it. Everything else (navigation, launching, quitting,
/// deletes) is ignored regardless of which input source produced it.
pub fn is_action_allowed_while_game_running(action: &Action) -> (b: bool)
    ensures
        b == (*action is ForceCloseGame),
{
    match action {
        Action::ForceCloseGame => true,
        _ => false,
    }
}

/// The guard's verdict on an incoming action.
#[derive(Debug, Clone, Copy, PartialEq, Eq, Structural)]
pub enum GateDecision {
    /// The action may be dispatched.
    Dispatch,
    /// Ignored: a game is running and the action is not a force-close.
    BlockedGameRunning,
    /// Ignored: a destructive action arrived while stale input is drained.
    BlockedSafeMode,
}

/// `next` and `prev` are the forward and the backward move through the same
/// list: the open modal's list, the platforms, or the games.
pub open spec fn forward_back_pair(next: Action, prev: Action) -> bool {
    ||| next is ModalSelectNext && prev is ModalSelectPrev
    ||| next is NextPlatform && prev is PrevPlatform
    ||| next is NextGame && prev is PrevGame
}

pub open spec fn gate_spec(game_running: bool, safe_mode: InputSafeMode, action: Action) -> GateDecision {
    if game_running && !(action is ForceCloseGame) {
        GateDecision::BlockedGameRunning
    } else if safe_mode == InputSafeMode::Locked && is_destructive(action) {
        GateDecision::BlockedSafeMode
    } else {
        GateDecision::Dispatch
    }
}

/// The central guard every action passes before it is dispatched: keyboard,
/// mouse and (hot-plugged) gamepad input all funnel through it.
pub fn gate_action(game_running: bool, safe_mode: InputSafeMode, action: &Action) -> (r: GateDecision)
    ensures
        r == gate_spec(game_running, safe_mode, *action),
{
    if game_running && !is_action_allowed_while_game_running(action) {
        GateDecision::BlockedGameRunning
    } else if safe_mode == InputSafeMode::Locked && is_destructive_action(action) {
        GateDecision::BlockedSafeMode
    } else {
        GateDecision::Dispatch
    }
}

/// While a game runs, every action but a force-close is refused, whatever
/// input produced it; a force-close is never refused, not even while input
/// is being drained.
pub proof fn lemma_game_running_admits_only_force_close(safe_mode: InputSafeMode, action: Action)
    ensures
        (gate_spec(true, safe_mode, action) == GateDecision::Dispatch) <==> (action is ForceCloseGame),
        action is ForceCloseGame ==> gate_spec(true, safe_mode, action) == GateDecision::Dispatch,
        action is ForceCloseGame ==> gate_spec(false, safe_mode, action) == GateDecision::Dispatch,
{
}

/// While input is drained, nothing destructive is dispatched; with no game
/// running and input active, every action is dispatched.
pub proof fn lemma_safe_mode_blocks_destructive(game_running: bool, action: Action)
    ensures
        is_destructive(action) ==> gate_spec(game_running, InputSafeMode::Locked, action)
            != GateDecision::Dispatch,
        !is_destructive(action) && !game_running ==> gate_spec(
            false,
            InputSafeMode::Locked,
            action,
        ) == GateDecision::Dispatch,
        gate_spec(false, InputSafeMode::Active, action) == GateDecision::Dispatch,
{
}

} // verus!
