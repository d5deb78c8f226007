use tui_game_station::folder_manager::{
    answer_folder_delete, cycle_folder_emulator, finish_folder_delete, folder_row,
    open_folder_delete, toggle_folder_delete_option, FolderDeleteAnswer, FolderEmulatorStep,
};
use tui_game_station::runners::Runner;
use tui_game_station::scan_form::ScanFolderItem;

fn emu(id: i64, name: &str) -> Runner {
    Runner {
        id,
        name: name.to_string(),
        runner_type: "appimage".to_string(),
        is_active: false,
        executable_path: Some(format!("/usr/bin/{name}")),
        has_default_core: false,
    }
}

fn items() -> Vec<ScanFolderItem> {
    vec![
        ScanFolderItem::FolderEmulator(0),
        ScanFolderItem::FolderCore(0),
        ScanFolderItem::FolderEmulator(1),
        ScanFolderItem::AddNewFolder,
    ]
}

#[test]
fn rows_stand_for_their_folders() {
    assert_eq!(folder_row(&items(), 1, 2), Some(0));
    assert_eq!(folder_row(&items(), 2, 2), Some(1));
    assert_eq!(folder_row(&items(), 3, 2), None);
    assert_eq!(folder_row(&items(), 2, 1), None);
    assert_eq!(folder_row(&items(), 9, 2), None);
}

#[test]
fn folder_delete_confirmation_flow() {
    let ids = vec![11, 12];
    let paths = vec!["/roms/a".to_string(), "/roms/b".to_string()];
    assert!(open_folder_delete(3, &ids, &paths, 2, 0).is_none());
    let mut c = open_folder_delete(3, &ids, &paths, 1, 5).expect("folder 1 exists");
    assert_eq!(c.folder_ids, vec![12]);
    assert_eq!(c.display, "/roms/b");
    assert_eq!((c.platform_id, c.game_count, c.selected_option, c.has_parent), (3, 5, 0, true));
    assert!(matches!(answer_folder_delete(&c), FolderDeleteAnswer::Keep));
    assert_eq!(finish_folder_delete(&c, false, &None), (None, 3));
    toggle_folder_delete_option(&mut c);
    assert_eq!(c.selected_option, 1);
    match answer_folder_delete(&c) {
        FolderDeleteAnswer::Delete(ids) => assert_eq!(ids, vec![12]),
        FolderDeleteAnswer::Keep => panic!("delete expected"),
    }
    assert_eq!(finish_folder_delete(&c, true, &None), (Some("[OK] Removed folder '/roms/b'.".to_string()), 3));
    assert_eq!(
        finish_folder_delete(&c, true, &Some("locked".to_string())),
        (Some("Error deleting folder: locked".to_string()), 3)
    );
    toggle_folder_delete_option(&mut c);
    assert_eq!(c.selected_option, 0);
}

#[test]
fn folder_emulator_cycles_through_default_and_configured() {
    let paths = vec!["/roms/a".to_string(), "/roms/b".to_string()];
    let emus = vec![None, Some(8)];
    let configured = vec![emu(7, "mGBA"), emu(8, "VBA-M")];
    match cycle_folder_emulator(&items(), 0, &paths, &emus, &configured, "GBA", false) {
        FolderEmulatorStep::Assign { folder, emulator, status } => {
            assert_eq!((folder, emulator), (0, Some(7)));
            assert_eq!(status, "Carpeta /roms/a \u{2192} mGBA");
        }
        _ => panic!("assignment expected"),
    }
    match cycle_folder_emulator(&items(), 2, &paths, &emus, &configured, "GBA", false) {
        FolderEmulatorStep::Assign { folder, emulator, status } => {
            assert_eq!((folder, emulator), (1, None));
            assert_eq!(status, "Carpeta /roms/b \u{2192} Default");
        }
        _ => panic!("assignment expected"),
    }
    assert!(matches!(cycle_folder_emulator(&items(), 3, &paths, &emus, &configured, "GBA", false), FolderEmulatorStep::Nothing));
    match cycle_folder_emulator(&items(), 0, &paths, &emus, &[], "GBA", true) {
        FolderEmulatorStep::NoEmulator(m) => {
            assert_eq!(m, "No hay emulador configurado para GBA. Presiona [m] para configurar uno.")
        }
        _ => panic!("no emulator expected"),
    }
}
