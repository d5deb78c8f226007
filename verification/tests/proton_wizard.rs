use tui_game_station::proton_wizard::{
    download_busy_status, proton_downloading_status, proton_fetching_status,
    proton_loaded_status, proton_releases_loaded, proton_step1_status, proton_step2_status,
    proton_wizard_key, proton_wizard_new, ProtonCommand, ProtonKey,
};

#[test]
fn three_steps_to_a_download() {
    let mut w = proton_wizard_new();
    assert_eq!(proton_wizard_key(&mut w, ProtonKey::Prev, 3, 0, false), ProtonCommand::Idle);
    assert_eq!(w.launcher_idx, 2);
    assert_eq!(proton_wizard_key(&mut w, ProtonKey::Confirm, 3, 2, false), ProtonCommand::ShowToolStep);
    assert_eq!((w.step, w.tool_idx), (1, 0));
    proton_wizard_key(&mut w, ProtonKey::Next, 3, 2, false);
    assert_eq!(w.tool_idx, 1);
    assert_eq!(
        proton_wizard_key(&mut w, ProtonKey::Confirm, 3, 2, false),
        ProtonCommand::FetchReleases { tool_idx: 1 }
    );
    assert!(w.is_loading);
    // Nothing to confirm while no release arrived.
    assert_eq!(proton_wizard_key(&mut w, ProtonKey::Confirm, 3, 2, false), ProtonCommand::Idle);
    proton_releases_loaded(&mut w, 12);
    assert!(!w.is_loading);
    proton_wizard_key(&mut w, ProtonKey::Prev, 3, 2, false);
    assert_eq!(w.release_idx, 11);
    assert_eq!(proton_wizard_key(&mut w, ProtonKey::Confirm, 3, 2, true), ProtonCommand::DownloadBusy);
    assert_eq!(
        proton_wizard_key(&mut w, ProtonKey::Confirm, 3, 2, false),
        ProtonCommand::StartDownload { tool_idx: 1, release_idx: 11 }
    );
    assert_eq!(proton_wizard_key(&mut w, ProtonKey::Back, 3, 2, false), ProtonCommand::Idle);
    assert_eq!(w.step, 1);
    proton_wizard_key(&mut w, ProtonKey::Back, 3, 2, false);
    assert_eq!(proton_wizard_key(&mut w, ProtonKey::Back, 3, 2, false), ProtonCommand::Close);
}

#[test]
fn downloader_status_lines() {
    assert_eq!(proton_step1_status(), "[ Step 1/3 ] Select Target Launcher with [Up/Down] and press [Enter].");
    assert_eq!(
        proton_step2_status("Steam"),
        "[ Step 2/3 ] Steam -> Select Tool/Runner with [Up/Down] and press [Enter]."
    );
    assert_eq!(proton_fetching_status("GE-Proton"), "Fetching releases for GE-Proton...");
    assert_eq!(proton_loaded_status(12, "GE-Proton"), "[OK] Loaded 12 release(s) for GE-Proton.");
    assert_eq!(proton_downloading_status("GE-Proton9-1"), "Downloading & extracting GE-Proton9-1...");
    assert!(download_busy_status().starts_with("[Warning] A download/extraction task"));
}
