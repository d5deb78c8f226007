use tui_game_station::game_form::GameFormText;
use tui_game_station::gamepad_dispatch::ModalKind;
use tui_game_station::pickers::{
    apply_file_pick, apply_folder_pick, file_pick_status, file_pick_target, folder_pick_status,
    folder_pick_target, FilePickTarget, FolderPickTarget,
};
use tui_game_station::scan_form::PlatformType;

fn form() -> GameFormText {
    GameFormText {
        title: String::new(),
        file_path: String::new(),
        working_dir: String::new(),
        wine_prefix: String::new(),
        steam_appid: String::new(),
        custom_command: String::new(),
        cursor_pos: 0,
        path_cursor: 0,
        workdir_cursor: 0,
        prefix_cursor: 0,
        cmd_cursor: 0,
    }
}

#[test]
fn picked_folders_fill_the_focused_field() {
    assert_eq!(folder_pick_target(ModalKind::AddFolderScanForm, PlatformType::Emulator, 0), FolderPickTarget::ScanFolder);
    assert_eq!(folder_pick_target(ModalKind::AddGameForm, PlatformType::Native, 2), FolderPickTarget::WorkingDir);
    assert_eq!(folder_pick_target(ModalKind::EditGameForm, PlatformType::Wine, 2), FolderPickTarget::WinePrefix);
    assert_eq!(folder_pick_target(ModalKind::EditGameForm, PlatformType::Wine, 3), FolderPickTarget::WorkingDir);
    assert_eq!(folder_pick_target(ModalKind::AddGameForm, PlatformType::Emulator, 2), FolderPickTarget::Ignore);
    assert_eq!(folder_pick_target(ModalKind::AppSettings, PlatformType::Wine, 2), FolderPickTarget::Ignore);

    assert_eq!(folder_pick_status(FolderPickTarget::ScanFolder, "/roms").as_deref(), Some("Folder selected: /roms"));
    assert_eq!(folder_pick_status(FolderPickTarget::WinePrefix, "/pfx").as_deref(), Some("WINEPREFIX set: /pfx"));
    assert_eq!(folder_pick_status(FolderPickTarget::WorkingDir, "/g").as_deref(), Some("Working directory set: /g"));
    assert_eq!(folder_pick_status(FolderPickTarget::Ignore, "/g"), None);

    let mut f = form();
    apply_folder_pick(&mut f, FolderPickTarget::WinePrefix, "/pfx");
    apply_folder_pick(&mut f, FolderPickTarget::WorkingDir, "/g");
    apply_folder_pick(&mut f, FolderPickTarget::Ignore, "/x");
    assert_eq!(f.wine_prefix, "/pfx");
    assert_eq!(f.working_dir, "/g");
}

#[test]
fn picked_files_fill_the_path_and_the_title() {
    assert_eq!(file_pick_target(ModalKind::ManageRunnersStep2Config, PlatformType::Emulator, 3), FilePickTarget::RunnerExecutable);
    assert_eq!(file_pick_target(ModalKind::AddGameForm, PlatformType::Emulator, 2), FilePickTarget::RomFile);
    assert_eq!(file_pick_target(ModalKind::EditGameForm, PlatformType::Emulator, 1), FilePickTarget::RomFile);
    assert_eq!(file_pick_target(ModalKind::AddGameForm, PlatformType::Emulator, 1), FilePickTarget::Ignore);
    assert_eq!(file_pick_target(ModalKind::AddGameForm, PlatformType::Wine, 1), FilePickTarget::GameExecutable);
    assert_eq!(file_pick_target(ModalKind::EditGameForm, PlatformType::Steam, 1), FilePickTarget::Ignore);

    assert_eq!(file_pick_status(FilePickTarget::RomFile, "/r.nes").as_deref(), Some("ROM file selected: /r.nes"));
    assert_eq!(file_pick_status(FilePickTarget::GameExecutable, "/g/a.exe").as_deref(), Some("Executable file selected: /g/a.exe"));
    assert_eq!(file_pick_status(FilePickTarget::RunnerExecutable, "/e").as_deref(), Some("File selected: /e"));

    // Add form: a blank title takes the file's stem; the folder becomes the working dir.
    let mut f = form();
    apply_file_pick(&mut f, true, FilePickTarget::GameExecutable, "/games/fallout3/Fallout3.exe",
        &Some("Fallout3".to_string()), &Some("/games/fallout3".to_string()));
    assert_eq!(f.title, "Fallout3");
    assert_eq!(f.file_path, "/games/fallout3/Fallout3.exe");
    assert_eq!(f.working_dir, "/games/fallout3");

    // A title already typed is kept; the edit form never takes the stem.
    let mut f = form();
    f.title = "Mario".to_string();
    apply_file_pick(&mut f, true, FilePickTarget::RomFile, "/roms/smb.nes", &Some("smb".to_string()), &Some("/roms".to_string()));
    assert_eq!(f.title, "Mario");
    assert_eq!(f.file_path, "/roms/smb.nes");
    assert_eq!(f.working_dir, "");
    let mut f = form();
    apply_file_pick(&mut f, false, FilePickTarget::RomFile, "/roms/smb.nes", &Some("smb".to_string()), &None);
    assert_eq!(f.title, "");

    // Nothing targeted: only the add form's title changes.
    let mut f = form();
    apply_file_pick(&mut f, true, FilePickTarget::Ignore, "/x/y.bin", &Some("y".to_string()), &Some("/x".to_string()));
    assert_eq!(f.title, "y");
    assert_eq!(f.file_path, "");
}
