use tui_game_station::add_folder::{
    check_new_folder, folder_delete_status, folder_register_error_status, folder_registered_status,
    new_folder_row, parse_extensions, quick_rescan_decision, FolderCheck, QuickRescan,
    detect_outcome, detected_choice_status, plan_folder_scan, saved_folder_missing_status,
    DetectOutcome, FolderScanPlan,
};
use tui_game_station::scan_form::ScanFolderItem;

#[test]
fn extension_list_is_trimmed_lowercased_and_dotted() {
    assert_eq!(parse_extensions(".nes, SFC,,smc "), vec![".nes", ".sfc", ".smc"]);
    assert_eq!(parse_extensions(".NSP,.XCI"), vec![".nsp", ".xci"]);
    assert_eq!(parse_extensions(" , ,"), Vec::<String>::new());
    assert_eq!(parse_extensions(""), Vec::<String>::new());
    assert_eq!(parse_extensions("iso"), vec![".iso"]);
}

#[test]
fn new_folder_checks() {
    match check_new_folder("  ", true, ".nes") {
        FolderCheck::Rejected(m) => assert_eq!(m, "Error: enter a folder path or press [Enter] on Path to browse."),
        other => panic!("{other:?}"),
    }
    match check_new_folder(" /roms/nes ", false, ".nes") {
        FolderCheck::Rejected(m) => {
            assert_eq!(m, "Error: folder does not exist or is not a directory: '/roms/nes'")
        }
        other => panic!("{other:?}"),
    }
    match check_new_folder("/roms/nes", true, " , ") {
        FolderCheck::Rejected(m) => assert_eq!(m, "Error: enter at least one ROM extension to scan."),
        other => panic!("{other:?}"),
    }
    match check_new_folder(" /roms/nes ", true, "nes, .NES ") {
        FolderCheck::Accepted { path, extensions } => {
            assert_eq!(path, "/roms/nes");
            assert_eq!(extensions, vec![".nes", ".nes"]);
        }
        other => panic!("{other:?}"),
    }
    assert_eq!(folder_registered_status("/roms/nes"), "[OK] Folder registered: '/roms/nes'.");
    assert_eq!(folder_register_error_status("exists"), "Error registering folder: exists");
}

#[test]
fn the_registered_folder_row_is_selected() {
    let items = vec![
        ScanFolderItem::FolderEmulator(0),
        ScanFolderItem::FolderEmulator(1),
        ScanFolderItem::FolderCore(1),
        ScanFolderItem::AddNewFolder,
    ];
    let paths = vec!["/roms/a".to_string(), "/roms/b".to_string()];
    assert_eq!(new_folder_row(&items, &paths, "/roms/b"), 1);
    assert_eq!(new_folder_row(&items, &paths, "/roms/a"), 0);
    assert_eq!(new_folder_row(&items, &paths, "/roms/zzz"), 0);
}

#[test]
fn folder_delete_and_quick_rescan_lines() {
    assert_eq!(folder_delete_status(&None, "/roms/a"), "[OK] Removed folder '/roms/a'.");
    assert_eq!(folder_delete_status(&Some("locked".to_string()), "/roms/a"), "Error deleting folder: locked");
    match quick_rescan_decision("SNES", &None, false) {
        QuickRescan::NoFolder(m) => assert_eq!(m, "No saved ROM folder for 'SNES'. Press [a] to scan a folder."),
        other => panic!("{other:?}"),
    }
    match quick_rescan_decision("SNES", &Some("/roms/snes".to_string()), false) {
        QuickRescan::Missing(m) => assert_eq!(m, "[Error] Saved folder not found: '/roms/snes'"),
        other => panic!("{other:?}"),
    }
    match quick_rescan_decision("SNES", &Some("/roms/snes".to_string()), true) {
        QuickRescan::Scan { label, status } => {
            assert_eq!(label, "Quick Re-scanning: SNES");
            assert_eq!(status, "Re-scanning & Identifying ROMs for SNES...");
        }
        other => panic!("{other:?}"),
    }
}

#[test]
fn folder_scan_skips_missing_folders() {
    let paths = vec!["/roms/a".to_string(), "/roms/gone".to_string(), "/roms/c".to_string()];
    match plan_folder_scan(&paths, &[true, false, true]) {
        FolderScanPlan::Scan { jobs, skipped } => {
            assert_eq!(jobs, vec![0, 2]);
            assert_eq!(skipped.as_deref(), Some("[Error] Folder not found, skipping: '/roms/gone'"));
        }
        other => panic!("{other:?}"),
    }
    match plan_folder_scan(&paths, &[true, true, true]) {
        FolderScanPlan::Scan { jobs, skipped } => {
            assert_eq!(jobs, vec![0, 1, 2]);
            assert_eq!(skipped, None);
        }
        other => panic!("{other:?}"),
    }
    match plan_folder_scan(&paths, &[false, false, false]) {
        FolderScanPlan::Refused(m) => assert_eq!(m, "[Error] No valid folders to scan."),
        other => panic!("{other:?}"),
    }
    match plan_folder_scan(&[], &[]) {
        FolderScanPlan::Refused(m) => assert_eq!(m, "Error: no folders registered. Use [ + Add New Folder ] first."),
        other => panic!("{other:?}"),
    }
    assert_eq!(saved_folder_missing_status("/roms/a"), "[Error] Saved folder not found: '/roms/a'");
}

#[test]
fn emulator_detection_outcomes() {
    match detect_outcome("PCSX2", &[]) {
        DetectOutcome::NoneFound(m) => assert_eq!(m, "No installed versions detected for 'PCSX2'."),
        other => panic!("{other:?}"),
    }
    match detect_outcome("PCSX2", &["flatpak run net.pcsx2.PCSX2".to_string()]) {
        DetectOutcome::SetExecutable { command, status } => {
            assert_eq!(command, "flatpak run net.pcsx2.PCSX2");
            assert_eq!(status, "[OK] Detected and set executable for 'PCSX2': flatpak run net.pcsx2.PCSX2");
        }
        other => panic!("{other:?}"),
    }
    assert!(matches!(detect_outcome("PCSX2", &["a".to_string(), "b".to_string()]), DetectOutcome::Choose));
    assert_eq!(detected_choice_status("/usr/bin/pcsx2"), "[OK] Selected detected executable: /usr/bin/pcsx2");
}
