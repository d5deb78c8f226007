use tui_game_station::actions::DownloadTick;
use tui_game_station::download_events::{
    appimage_name, apply_download_tick, new_version_status, up_to_date_messages,
    update_check_failed_status, DownloadOutcome, DownloadProgress,
};

fn progress(name: &str) -> DownloadProgress {
    DownloadProgress {
        runner_name: name.to_string(),
        downloaded_bytes: 0,
        total_bytes: 0,
        is_finished: false,
        error_msg: None,
    }
}

fn tick(finished: bool, error: Option<&str>, task: Option<&str>) -> DownloadTick {
    DownloadTick {
        downloaded: 50,
        total: 100,
        finished,
        error: error.map(|s| s.to_string()),
        task_name: task.map(|s| s.to_string()),
    }
}

#[test]
fn progress_reports_update_the_bar() {
    let mut p = progress("PPSSPP");
    let u = apply_download_tick(&mut p, &tick(false, None, None));
    assert!(matches!(u.outcome, DownloadOutcome::InProgress));
    assert_eq!(u.status, None);
    assert_eq!((p.downloaded_bytes, p.total_bytes), (50, 100));
    let u = apply_download_tick(&mut p, &tick(false, None, Some("Covers 3/9")));
    assert_eq!(u.status.as_deref(), Some("[Media Fetch] Covers 3/9"));
    assert_eq!(p.runner_name, "Covers 3/9");
}

#[test]
fn finished_downloads() {
    let mut p = progress("PPSSPP");
    let u = apply_download_tick(&mut p, &tick(true, None, None));
    match u.outcome {
        DownloadOutcome::DownloadCompleted { appimage } => assert_eq!(appimage, "ppsspp.AppImage"),
        other => panic!("unexpected {other:?}"),
    }
    assert_eq!(u.status.as_deref(), Some("[OK] Download of 'PPSSPP' completed successfully!"));

    let mut p = progress("melonDS");
    let u = apply_download_tick(&mut p, &tick(true, Some("404"), None));
    assert!(matches!(u.outcome, DownloadOutcome::DownloadFailed));
    assert_eq!(u.status.as_deref(), Some("[Error] Download failed: 404"));
    assert_eq!(appimage_name("melonDS"), "melonDS-x86_64.AppImage");

    let mut p = progress("Updating to v1.2.0");
    let u = apply_download_tick(&mut p, &tick(true, None, None));
    assert!(matches!(u.outcome, DownloadOutcome::UpdateInstalled));
    assert_eq!(u.status.as_deref(), Some("[OK] Update installed! Please restart app."));
    let mut p = progress("Updating to v1.2.0");
    let u = apply_download_tick(&mut p, &tick(true, Some("checksum"), None));
    assert!(matches!(u.outcome, DownloadOutcome::UpdateFailed));
    assert_eq!(u.status.as_deref(), Some("[Updater Error] Update failed: checksum"));
}

#[test]
fn updater_messages() {
    assert_eq!(new_version_status("1.3.0"), "[Updater] New version: v1.3.0");
    let (s, t) = up_to_date_messages("1.2.0");
    assert_eq!(s, "[OK] App is up to date (v1.2.0).");
    assert_eq!(t, "[OK] Up to date (v1.2.0).");
    assert_eq!(update_check_failed_status("offline"), "[Updater Error] Failed to check for updates: offline");
}
