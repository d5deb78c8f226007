use tui_game_station::runner_config::{
    check_runner_path, delete_confirm_path, opening_status, plan_runner_download,
    runner_deleted_status, runner_save_error_status, runner_saved_status, runner_source_name,
    runner_state_error_status, runner_toggle_status, standalone_check, ArchiveKind,
    RunnerDownloadPlan, RunnerDownloadStart, RunnerSaveCheck, RunnerSource,
};

fn accepted(input: &str, exists: bool) -> (String, RunnerSource) {
    match check_runner_path(input, exists) {
        RunnerSaveCheck::Accepted { path, source } => (path, source),
        RunnerSaveCheck::Rejected(m) => panic!("rejected: {m}"),
    }
}

fn rejected(input: &str, exists: bool) -> String {
    match check_runner_path(input, exists) {
        RunnerSaveCheck::Rejected(m) => m,
        RunnerSaveCheck::Accepted { path, .. } => panic!("accepted: {path}"),
    }
}

#[test]
fn blank_path_is_refused() {
    assert_eq!(rejected("   ", true), "Error: Executable / .AppImage path cannot be empty.");
    assert_eq!(rejected("", false), "Error: Executable / .AppImage path cannot be empty.");
}

#[test]
fn missing_file_is_refused_unless_it_is_a_command() {
    assert_eq!(
        rejected("  /opt/emu/ryujinx ", false),
        "Error: File does not exist on system: '/opt/emu/ryujinx'. Select a valid executable."
    );
    let (path, source) = accepted(" flatpak run org.ryujinx.Ryujinx ", false);
    assert_eq!(path, "flatpak run org.ryujinx.Ryujinx");
    assert_eq!(source, RunnerSource::Flatpak);
    let (path, source) = accepted("retroarch -v", false);
    assert_eq!(path, "retroarch -v");
    assert_eq!(source, RunnerSource::System);
}

#[test]
fn source_follows_the_path() {
    let (path, source) = accepted("/home/u/Apps/Ryujinx.AppImage", true);
    assert_eq!(path, "/home/u/Apps/Ryujinx.AppImage");
    assert_eq!(source, RunnerSource::AppImage);
    assert_eq!(accepted("/usr/bin/mgba", true).1, RunnerSource::System);
    assert_eq!(runner_source_name(RunnerSource::Flatpak), "flatpak");
    assert_eq!(runner_source_name(RunnerSource::AppImage), "appimage");
    assert_eq!(runner_source_name(RunnerSource::System), "system");
}

#[test]
fn saved_status_lists_the_options_that_failed() {
    assert_eq!(
        runner_saved_status("Ryujinx", "NSW", &[]),
        "[OK] Emulator 'Ryujinx' (NSW) configured successfully!"
    );
    let keys = vec!["resolution".to_string(), "vsync".to_string()];
    assert_eq!(
        runner_saved_status("PCSX2", "PS2", &keys),
        "[OK] Emulator 'PCSX2' (PS2) configured successfully! - Warning: no se pudo aplicar la opcion(es) [resolution, vsync] al archivo de config del emulador."
    );
    assert_eq!(runner_save_error_status("locked"), "Error saving runner: locked");
}

fn started(name: &str, url: Option<&str>, file: Option<&str>) -> (RunnerDownloadPlan, String) {
    match plan_runner_download(false, name, &url.map(String::from), &file.map(String::from)) {
        RunnerDownloadStart::Start(plan, status) => (plan, status),
        other => panic!("not started: {other:?}"),
    }
}

#[test]
fn runner_download_is_refused_while_busy_or_without_url() {
    match plan_runner_download(true, "Ryujinx", &Some("https://x/r.AppImage".to_string()), &None) {
        RunnerDownloadStart::Busy(m) => assert_eq!(
            m,
            "[Warning] A download task is already in progress. Please wait for it to complete."
        ),
        other => panic!("{other:?}"),
    }
    for url in [None, Some(String::new())] {
        match plan_runner_download(false, "Citron", &url, &None) {
            RunnerDownloadStart::NoUrl(m) => {
                assert_eq!(m, "[Error] No official download URL configured for 'Citron'.")
            }
            other => panic!("{other:?}"),
        }
    }
}

#[test]
fn runner_download_plans_follow_the_file() {
    let (plan, status) = started("Ryujinx", Some("https://x/dl"), None);
    assert_eq!(plan.url, "https://x/dl");
    assert_eq!(plan.filename, "ryujinx.AppImage");
    assert_eq!(plan.archive, ArchiveKind::Plain);
    assert_eq!(plan.executable_name, "ryujinx.AppImage");
    assert_eq!(status, "Downloading Ryujinx...");

    let (plan, _) = started("RetroArch", Some("https://x/ra"), Some("RetroArch.7z"));
    assert_eq!(plan.archive, ArchiveKind::RetroArch7z);
    let (plan, _) = started("Dolphin", Some("https://x/d"), Some("dolphin.7Z"));
    assert_eq!(plan.archive, ArchiveKind::RetroArch7z);

    let (plan, _) = started("melonDS", Some("https://x/m"), Some("MELONDS-1.1-APPIMAGE-X86_64.ZIP"));
    assert_eq!(plan.archive, ArchiveKind::MelonDsZip);
    assert_eq!(plan.filename, "MELONDS-1.1-APPIMAGE-X86_64.ZIP");
    assert_eq!(plan.executable_name, "melonDS-x86_64.AppImage");
    let (plan, _) = started("melonDS", Some("https://x/m"), Some("melonDS.AppImage"));
    assert_eq!(plan.archive, ArchiveKind::Plain);
    assert_eq!(plan.executable_name, "melonDS.AppImage");
}

#[test]
fn runner_popup_checks_and_status_lines() {
    assert_eq!(delete_confirm_path(&Some("/old".to_string()), "  /new/exe "), Some("/new/exe".to_string()));
    assert_eq!(delete_confirm_path(&Some("/old".to_string()), "   "), Some("/old".to_string()));
    assert_eq!(delete_confirm_path(&None, ""), None);

    assert_eq!(
        standalone_check("PCSX2", "  ", true),
        Err("Configure the executable for 'PCSX2' before opening it.".to_string())
    );
    assert_eq!(
        standalone_check("PCSX2", " /opt/pcsx2 ", false),
        Err("Executable/AppImage for 'PCSX2' does not exist on disk (/opt/pcsx2).".to_string())
    );
    assert_eq!(standalone_check("PCSX2", " /opt/pcsx2 ", true), Ok("/opt/pcsx2".to_string()));

    assert_eq!(runner_toggle_status("mGBA", "GBA", true), "Emulator 'mGBA' (GBA) activated successfully.");
    assert_eq!(runner_toggle_status("mGBA", "GBA", false), "Emulator 'mGBA' (GBA) deactivated successfully.");
    assert_eq!(runner_state_error_status("busy"), "Error updating runner state: busy");
    assert_eq!(runner_deleted_status("mGBA"), "[Deleted] Emulator 'mGBA' executable deleted from disk.");
    assert_eq!(opening_status("mGBA"), "Opening mGBA...");
}
