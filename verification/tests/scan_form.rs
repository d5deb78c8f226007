use tui_game_station::scan_form::{
    add_scan_form_enter, build_scan_folder_items, clamp_selection, form_text_field,
    game_form_total_fields, scan_folder_add_action_index, scan_folder_add_core_idx,
    scan_folder_add_dl_core_idx, scan_folder_add_emu_idx, scan_folder_add_form_total,
    scan_folder_add_scan_index, scan_folder_section0_total, scan_form_enter,
    simple_scan_form_total, step_game_form_field, sync_form_field_cursor, track_scan_folder_row,
    AddScanEnter, FormCursors, FormLengths, FormTextField, GameFormFocus, PlatformType,
    ScanFolderItem, ScanFormEnter, folder_manager_target, windows_games_enter,
    FolderManagerTarget, WindowsGamesEnter,
};
use tui_game_station::gamepad_dispatch::ModalKind;
use tui_game_station::modal_nav::{close_modal_target, CloseTarget};
use tui_game_station::platforms::Platform;
use tui_game_station::runners::{scan_folder_platform_has_retroarch, Runner};

#[test]
fn folder_manager_items_follow_folders_then_buttons() {
    let items = build_scan_folder_items(&[false, true], true);
    assert_eq!(
        items,
        vec![
            ScanFolderItem::FolderEmulator(0),
            ScanFolderItem::FolderEmulator(1),
            ScanFolderItem::FolderCore(1),
            ScanFolderItem::AddNewFolder,
            ScanFolderItem::DownloadCores,
        ]
    );
    assert_eq!(build_scan_folder_items(&[], false), vec![ScanFolderItem::AddNewFolder]);

    assert_eq!(scan_form_enter(&items, 2), ScanFormEnter::CheckFolder(1));
    assert_eq!(scan_form_enter(&items, 0), ScanFormEnter::CheckFolder(0));
    assert_eq!(scan_form_enter(&items, 3), ScanFormEnter::OpenAddFolder);
    assert_eq!(scan_form_enter(&items, 4), ScanFormEnter::OpenDownloadCores);
    assert_eq!(scan_form_enter(&items, 9), ScanFormEnter::OpenAddFolder);
}

#[test]
fn add_folder_form_field_indices() {
    assert_eq!(scan_folder_add_emu_idx(false), 3);
    assert_eq!(scan_folder_add_emu_idx(true), 4);
    assert_eq!(scan_folder_add_core_idx(true), 5);
    assert_eq!(scan_folder_add_dl_core_idx(true), 6);
    assert_eq!(scan_folder_add_action_index(true, true), 7);
    assert_eq!(scan_folder_add_action_index(false, false), 4);
    assert_eq!(scan_folder_add_scan_index(false, true), 7);
    assert_eq!(scan_folder_add_form_total(false, true), 8);
    assert_eq!(simple_scan_form_total(false, false), 5);
    assert_eq!(simple_scan_form_total(true, true), 8);
}

#[test]
fn enter_on_the_simplified_scan_form() {
    assert_eq!(add_scan_form_enter(0, false, true), AddScanEnter::OpenFolderPicker);
    assert_eq!(add_scan_form_enter(1, false, true), AddScanEnter::NextField);
    assert_eq!(add_scan_form_enter(5, false, true), AddScanEnter::OpenDownloadCores);
    assert_eq!(add_scan_form_enter(6, false, true), AddScanEnter::StartAddAndScan);
    assert_eq!(add_scan_form_enter(4, false, false), AddScanEnter::StartAddAndScan);
    assert_eq!(add_scan_form_enter(2, false, false), AddScanEnter::ToggleCheckbox);
    assert_eq!(add_scan_form_enter(5, false, false), AddScanEnter::ToggleCheckbox);
}

#[test]
fn folder_row_tracking_and_clamping() {
    let mut row = 7;
    track_scan_folder_row(1, 3, &mut row);
    assert_eq!(row, 1);
    track_scan_folder_row(3, 3, &mut row);
    assert_eq!(row, 1);
    track_scan_folder_row(0, 0, &mut row);
    assert_eq!(row, 0);
    assert_eq!(scan_folder_section0_total(2), 3);
    assert_eq!(clamp_selection(5, 3), 2);
    assert_eq!(clamp_selection(1, 3), 1);
    assert_eq!(clamp_selection(4, 0), 0);
}

#[test]
fn text_fields_of_game_forms() {
    assert_eq!(form_text_field(PlatformType::Emulator, true, 1), Some(FormTextField::Path));
    assert_eq!(form_text_field(PlatformType::Emulator, false, 1), None);
    assert_eq!(form_text_field(PlatformType::Emulator, false, 2), Some(FormTextField::Path));
    assert_eq!(form_text_field(PlatformType::Wine, false, 2), Some(FormTextField::Prefix));
    assert_eq!(form_text_field(PlatformType::Wine, true, 5), Some(FormTextField::Cmd));
    assert_eq!(form_text_field(PlatformType::Native, true, 3), Some(FormTextField::Cmd));
    assert_eq!(form_text_field(PlatformType::Steam, true, 2), Some(FormTextField::Cmd));
    assert_eq!(form_text_field(PlatformType::Steam, true, 1), None);
    assert_eq!(game_form_total_fields(PlatformType::Emulator, true, true), 9);
    assert_eq!(game_form_total_fields(PlatformType::Emulator, true, false), 8);
    assert_eq!(game_form_total_fields(PlatformType::Emulator, false, true), 7);
    assert_eq!(game_form_total_fields(PlatformType::Wine, false, false), 14);
}

#[test]
fn focus_moves_and_cursor_jumps_to_end() {
    let lens = FormLengths { path: 11, workdir: 4, prefix: 9, cmd: 3 };
    let zero = FormCursors { path: 0, workdir: 0, prefix: 0, cmd: 0 };
    let mut c = zero;
    sync_form_field_cursor(PlatformType::Wine, false, 2, &mut c, lens);
    assert_eq!(c, FormCursors { prefix: 9, ..zero });

    let mut f = GameFormFocus { selected_field: 0, cursor_pos: 2, cursors: zero };
    step_game_form_field(&mut f, PlatformType::Native, false, false, 5, lens, true);
    assert_eq!(f.selected_field, 1);
    assert_eq!(f.cursors.path, 11);
    step_game_form_field(&mut f, PlatformType::Native, false, false, 5, lens, false);
    assert_eq!(f.selected_field, 0);
    assert_eq!(f.cursor_pos, 5);
    step_game_form_field(&mut f, PlatformType::Native, false, false, 5, lens, false);
    assert_eq!(f.selected_field, 7);
    step_game_form_field(&mut f, PlatformType::Native, false, false, 5, lens, true);
    assert_eq!(f.selected_field, 0);
}

fn platform(id: i64, name: &str, slug: &str, t: PlatformType) -> Platform {
    Platform { id, name: name.to_string(), slug: slug.to_string(), platform_type: t }
}

#[test]
fn folder_manager_bypasses_steam_and_lists_windows_games_with_wine_form() {
    let platforms = vec![
        platform(1, "Steam", "steam", PlatformType::Steam),
        platform(2, "Windows", "windows", PlatformType::Wine),
        platform(3, "Nintendo DS", "nds", PlatformType::Emulator),
    ];
    // Steam: [E] must not open the folder manager.
    assert_eq!(folder_manager_target(false, &platforms, 0), FolderManagerTarget::Nothing);
    // Windows: [E] opens the Windows games list.
    assert_eq!(folder_manager_target(false, &platforms, 1), FolderManagerTarget::WindowsGames);
    // Any other platform: its scan folders; and nothing while a modal is open.
    assert_eq!(folder_manager_target(false, &platforms, 2), FolderManagerTarget::ScanFolders);
    assert_eq!(folder_manager_target(true, &platforms, 2), FolderManagerTarget::Nothing);
    assert_eq!(folder_manager_target(false, &platforms, 3), FolderManagerTarget::Nothing);

    // One game ("Fallout 3"): Enter on its row opens its edit form ...
    assert_eq!(windows_games_enter(0, 1), WindowsGamesEnter::EditGame(0));
    // ... whose [Esc] returns to the list it was opened from.
    assert_eq!(close_modal_target(ModalKind::EditGameForm, true), CloseTarget::Parent);
    // Enter on [+ Add New Game] opens the Wine details form.
    assert_eq!(windows_games_enter(1, 1), WindowsGamesEnter::AddNewGame);
    assert_eq!(windows_games_enter(2, 1), WindowsGamesEnter::Nothing);
}

fn seeded_runner(id: i64, name: &str, active: bool) -> Runner {
    Runner {
        id,
        name: name.to_string(),
        runner_type: "appimage".to_string(),
        is_active: active,
        executable_path: None,
        has_default_core: false,
    }
}

#[test]
fn folder_manager_download_cores_visible_for_any_configured_retroarch() {
    // NDS: melonDS is the active runner, RetroArch is configured beside it.
    let nds_runners = vec![seeded_runner(1, "melonDS", true), seeded_runner(2, "RetroArch", false)];
    assert!(nds_runners[0].is_active, "melonDS must be the active NDS runner");
    assert!(!nds_runners[1].is_active);
    let has_retroarch = scan_folder_platform_has_retroarch(&nds_runners);
    assert!(has_retroarch);
    let items = build_scan_folder_items(&[], has_retroarch);
    assert!(
        items.contains(&ScanFolderItem::DownloadCores),
        "NDS with RetroArch configured must show DownloadCores, got {items:?}"
    );
    // Switch: no RetroArch seeded -> no Download Cores anywhere.
    let switch_runners = vec![seeded_runner(3, "Ryujinx", true), seeded_runner(4, "Citron", false)];
    let has_retroarch = scan_folder_platform_has_retroarch(&switch_runners);
    assert!(!has_retroarch);
    let switch_items = build_scan_folder_items(&[], has_retroarch);
    assert!(
        !switch_items.contains(&ScanFolderItem::DownloadCores),
        "Switch has no RetroArch runner, got {switch_items:?}"
    );
}
