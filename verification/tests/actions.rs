use tui_game_station::actions::{
    gate_action, is_action_allowed_while_game_running, is_destructive_action, Action,
    GateDecision, InputSafeMode,
};

#[test]
fn destructive_actions_are_rejected_during_input_safe_mode() {
    assert!(is_destructive_action(&Action::Quit));
    assert!(is_destructive_action(&Action::LaunchGame));
    assert!(is_destructive_action(&Action::OpenRunnerStandalone));
    assert!(is_destructive_action(&Action::DeleteSelectedGames));
    assert!(is_destructive_action(&Action::ConfirmDeleteFolderExecution));
    assert!(is_destructive_action(&Action::RescanFolder));
    assert!(is_destructive_action(&Action::StartRunnerDownload));
    assert!(is_destructive_action(&Action::StartAppUpdate {
        download_url: String::new(),
        new_version: String::new(),
    }));
    assert!(!is_destructive_action(&Action::NextGame));
    assert!(!is_destructive_action(&Action::PrevPlatform));
    assert!(!is_destructive_action(&Action::ToggleViewMode));
    assert!(!is_destructive_action(&Action::CloseModal));
}

#[test]
fn game_running_rejects_all_actions_except_force_close() {
    assert!(is_action_allowed_while_game_running(&Action::ForceCloseGame));

    let rejected = [
        Action::Quit,
        Action::LaunchGame,
        Action::OpenRunnerStandalone,
        Action::StartRunnerDownload,
        Action::StartAppUpdate {
            download_url: String::new(),
            new_version: String::new(),
        },
        Action::DeleteSelectedGames,
        Action::OpenConfirmDeleteModal,
        Action::ConfirmDeleteGameExecution,
        Action::ConfirmDeleteRunnerExecution,
        Action::ScanCurrentFolder,
        Action::StartFolderScan,
        Action::KillWineProcesses,
        Action::NextGame,
        Action::PrevGame,
        Action::NextPlatform,
        Action::PrevPlatform,
        Action::TogglePane,
        Action::ToggleViewMode,
        Action::ToggleSelectGame,
        Action::ToggleBigPictureMode,
        Action::CloseGameDetail,
        Action::DetailNextAction,
        Action::DetailPrevAction,
        Action::OpenSettingsModal,
        Action::OpenCheatsheetModal,
        Action::OpenManageRunnersModal,
        Action::OpenWineToolsMenu,
        Action::FetchGameMedia,
        Action::QuickRescanPlatform,
        Action::ScanSteamGames,
        Action::ToggleShowAllPlatforms,
        Action::ModalSelectNext,
        Action::ModalSelectPrev,
        Action::SwitchVisualMediaTab,
        Action::SwitchVisualMediaTabPrev,
        Action::ToggleConfirmDeleteRunnerOption,
        Action::ToggleConfirmDeleteOption,
    ];
    for action in &rejected {
        assert!(
            !is_action_allowed_while_game_running(action),
            "la acción {action:?} debería estar bloqueada mientras un juego corre"
        );
    }
}

#[test]
fn remaining_destructive_actions_are_recognised() {
    assert!(is_destructive_action(&Action::ConfirmDeleteGameExecution));
    assert!(is_destructive_action(&Action::ConfirmDeleteRunnerExecution));
    assert!(is_destructive_action(&Action::ScanCurrentFolder));
    assert!(is_destructive_action(&Action::StartFolderScan));
    assert!(is_destructive_action(&Action::StartAddAndScan));
    assert!(is_destructive_action(&Action::KillWineProcesses));
    assert!(is_destructive_action(&Action::DeleteInstalledWineRunner));
    assert!(is_destructive_action(&Action::DeleteRunnerDownload));
    assert!(is_destructive_action(&Action::StartProtonDownload));
    assert!(is_destructive_action(&Action::QuickRescanPlatform));
    assert_eq!(
        gate_action(false, InputSafeMode::Locked, &Action::QuickRescanPlatform),
        GateDecision::BlockedSafeMode
    );
    assert!(!is_destructive_action(&Action::ForceCloseGame));
    assert!(!is_destructive_action(&Action::OpenConfirmDeleteModal));
    assert!(!is_destructive_action(&Action::SetStatus("x".to_string())));
}

#[test]
fn gate_blocks_everything_but_force_close_while_a_game_runs() {
    assert_eq!(
        gate_action(true, InputSafeMode::Active, &Action::ToggleViewMode),
        GateDecision::BlockedGameRunning
    );
    assert_eq!(
        gate_action(true, InputSafeMode::Locked, &Action::Quit),
        GateDecision::BlockedGameRunning
    );
    assert_eq!(
        gate_action(true, InputSafeMode::Locked, &Action::ForceCloseGame),
        GateDecision::Dispatch
    );
}

#[test]
fn gate_blocks_destructive_actions_during_the_drain_only() {
    assert_eq!(
        gate_action(false, InputSafeMode::Locked, &Action::LaunchGame),
        GateDecision::BlockedSafeMode
    );
    assert_eq!(
        gate_action(false, InputSafeMode::Locked, &Action::NextGame),
        GateDecision::Dispatch
    );
    assert_eq!(
        gate_action(false, InputSafeMode::Active, &Action::LaunchGame),
        GateDecision::Dispatch
    );
}
