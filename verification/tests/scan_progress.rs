use tui_game_station::scan_progress::{apply_scan_tick, begin_scan_many, ScanTick, ScanUi};
use tui_game_station::scan_form::{build_scan_folder_items, scan_form_enter, ScanFolderItem, ScanFormEnter};
use tui_game_station::scan_progress::{
    fold_scan_events, folder_enter_decision, folder_header_event, identifying_status,
    missing_folder_status, relay_scan_event, scan_completed_status, scan_many_start_status,
    scan_start_status, scanning_label, steam_scan_error_status, steam_scan_status, ScanProgress,
};

fn finished(added: usize) -> ScanProgress {
    ScanProgress {
        current: 0,
        total: 0,
        current_title: String::new(),
        finished: true,
        added_count: added,
        error_msg: None,
    }
}

fn progress(current: usize, total: usize, title: &str) -> ScanProgress {
    ScanProgress {
        current,
        total,
        current_title: title.to_string(),
        finished: false,
        added_count: 0,
        error_msg: None,
    }
}

#[test]
fn multi_folder_scan_reports_the_total_once() {
    let mut total = 0usize;
    let e1 = relay_scan_event(1, 3, &mut total, finished(2));
    assert!(!e1.finished);
    assert_eq!(e1.current_title, "Folder 1/3 scanned.");
    let e2 = relay_scan_event(2, 3, &mut total, finished(5));
    assert!(!e2.finished);
    assert_eq!(e2.current_title, "Folder 2/3 scanned.");
    let p = relay_scan_event(3, 3, &mut total, progress(4, 10, "Zelda"));
    assert!(!p.finished);
    assert_eq!(p.current_title, "Zelda");
    let e3 = relay_scan_event(3, 3, &mut total, finished(1));
    assert!(e3.finished);
    assert_eq!(e3.added_count, 8);
    assert_eq!(total, 8);
}

#[test]
fn folder_header_and_status_lines() {
    let h = folder_header_event(2, 4, "/roms/nds");
    assert_eq!(h.current_title, "Folder 2/4: /roms/nds");
    assert_eq!((h.current, h.total, h.finished, h.added_count), (2, 4, false, 0));
    assert_eq!(identifying_status(3, 120, "Mario"), "[Identifying 3/120] Mario");
    assert_eq!(scan_completed_status(0), "[OK] Scan completed: 0 ROMs imported/updated.");
    assert_eq!(scan_completed_status(1024), "[OK] Scan completed: 1024 ROMs imported/updated.");
}

#[test]
fn folding_events_keeps_the_last_of_each_kind() {
    let t = fold_scan_events(&[progress(1, 9, "A"), progress(2, 9, "B"), finished(7), progress(3, 9, "C")]);
    assert!(t.done);
    assert_eq!(t.added, 7);
    assert_eq!(t.progress, Some((3, 9, "C".to_string())));
    let t = fold_scan_events(&[]);
    assert!(!t.done);
    assert_eq!(t.progress, None);
}

#[test]
fn scan_start_lines() {
    assert_eq!(scanning_label("Nintendo DS"), "Scanning ROMs: Nintendo DS");
    assert_eq!(scan_start_status("NES"), "Scanning & Identifying ROMs for NES...");
    assert_eq!(scan_many_start_status("NES", 1), "Scanning & Identifying ROMs for NES (1 folder)...");
    assert_eq!(scan_many_start_status("NES", 3), "Scanning & Identifying ROMs for NES (3 folders)...");
    assert_eq!(missing_folder_status("/nope"), "[Error] Folder path does not exist: '/nope'");
}

#[test]
fn enter_on_an_up_to_date_folder_does_not_rescan() {
    let (rescan, status) = folder_enter_decision(false, 1, "/roms/nds");
    assert!(!rescan);
    assert_eq!(status, "Folder up to date (1 game). Press [R] to force a full rescan.");
    assert!(status.contains("up to date"));
    let (_, status) = folder_enter_decision(false, 4, "/roms/nds");
    assert_eq!(status, "Folder up to date (4 games). Press [R] to force a full rescan.");
    let (rescan, status) = folder_enter_decision(true, 4, "/roms/nds");
    assert!(rescan);
    assert_eq!(status, "Scanning '/roms/nds' for new games...");
}

#[test]
fn folder_manager_enter_skips_already_scanned_folders_but_r_forces_rescan() {
    // Two NDS folders: the first already holds its one game, the second has a new file.
    let items = build_scan_folder_items(&[false, false], false);
    assert_eq!(items[0], ScanFolderItem::FolderEmulator(0));
    let folder_b_row = items
        .iter()
        .position(|i| matches!(i, ScanFolderItem::FolderEmulator(1)))
        .expect("second folder row");

    // Enter on the populated folder: no rescan, an informational message.
    assert_eq!(scan_form_enter(&items, 0), ScanFormEnter::CheckFolder(0));
    let (rescan, msg) = folder_enter_decision(false, 1, "/roms/populated");
    assert!(!rescan, "Enter must not start a scan when all folder games are already imported");
    assert!(msg.contains("up to date"), "expected an informational message, got: {}", msg);
    assert_eq!(msg, "Folder up to date (1 game). Press [R] to force a full rescan.");

    // Enter on a folder with new game files: the scan runs.
    assert_eq!(scan_form_enter(&items, folder_b_row), ScanFormEnter::CheckFolder(1));
    let (rescan, msg) = folder_enter_decision(true, 0, "/roms/new_games");
    assert!(rescan, "Enter must scan when the folder has new game files: {}", msg);
    assert_eq!(msg, "Scanning '/roms/new_games' for new games...");
}

#[test]
fn steam_scan_status_lines() {
    assert_eq!(steam_scan_status(12), "Steam scan completed: 12 game(s) in library.");
    assert_eq!(steam_scan_status(0), "Steam scan completed: 0 game(s) in library.");
    assert_eq!(steam_scan_error_status("no steamapps"), "Error detecting Steam: no steamapps");
}

fn idle_ui() -> ScanUi {
    ScanUi { scanning: false, progress: None, modal_open: true, status: "ready".to_string() }
}

#[test]
fn scan_of_no_folder_changes_nothing() {
    let mut ui = idle_ui();
    assert!(!begin_scan_many(&mut ui, 0, "NDS"));
    assert!(!ui.scanning && ui.progress.is_none() && ui.modal_open);
    assert_eq!(ui.status, "ready");
}

#[test]
fn scan_start_and_completion() {
    let mut ui = idle_ui();
    assert!(begin_scan_many(&mut ui, 2, "NDS"));
    assert!(ui.scanning);
    assert!(!ui.modal_open);
    let p = ui.progress.as_ref().expect("progress bar");
    assert_eq!(p.runner_name, "Scanning ROMs: NDS");
    assert_eq!((p.downloaded_bytes, p.total_bytes, p.is_finished), (0, 1, false));
    assert_eq!(ui.status, "Scanning & Identifying ROMs for NDS (2 folders)...");

    let progress = ScanTick { done: false, added: 0, progress: Some((1, 2, "Folder 1/2: /roms".to_string())) };
    assert!(!apply_scan_tick(&mut ui, &progress));
    assert!(ui.scanning);
    let p = ui.progress.as_ref().expect("progress bar");
    assert_eq!(p.runner_name, "Scanning: Folder 1/2: /roms");
    assert_eq!((p.downloaded_bytes, p.total_bytes), (1, 2));
    assert_eq!(ui.status, "[Identifying 1/2] Folder 1/2: /roms");

    let quiet = ScanTick { done: false, added: 0, progress: None };
    assert!(!apply_scan_tick(&mut ui, &quiet));
    assert_eq!(ui.status, "[Identifying 1/2] Folder 1/2: /roms");

    let done = ScanTick { done: true, added: 7, progress: None };
    assert!(apply_scan_tick(&mut ui, &done));
    assert!(!ui.scanning);
    assert!(ui.progress.is_none());
    assert_eq!(ui.status, "[OK] Scan completed: 7 ROMs imported/updated.");

    let mut one = idle_ui();
    begin_scan_many(&mut one, 1, "GBA");
    assert_eq!(one.status, "Scanning & Identifying ROMs for GBA (1 folder)...");
}
