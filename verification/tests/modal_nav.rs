use tui_game_station::gamepad_dispatch::ModalKind;
use tui_game_station::modal_nav::{
    close_modal_target, select_in_list, toggle_chosen, toggle_launch_option, toggle_scan_option,
    CloseTarget, ScanFormOptions,
};
use tui_game_station::scan_form::PlatformType;
use tui_game_station::session::LaunchFlags;

fn no_flags() -> LaunchFlags {
    LaunchFlags {
        gamemode: false,
        mangohud: false,
        gamescope: false,
        esync: false,
        fsync: false,
        dxvk: false,
        vkd3d: false,
    }
}

#[test]
fn list_selection_wraps() {
    assert_eq!(select_in_list(3, 4, false), 0);
    assert_eq!(select_in_list(0, 4, true), 3);
    assert_eq!(select_in_list(2, 4, true), 1);
    assert_eq!(select_in_list(5, 0, false), 5);
    for len in 1..5 {
        for i in 0..len {
            assert_eq!(select_in_list(select_in_list(i, len, false), len, true), i);
        }
    }
}

#[test]
fn escape_returns_to_the_parent_modal() {
    assert_eq!(close_modal_target(ModalKind::EditCustomArgsInput, false), CloseTarget::Parent);
    assert_eq!(close_modal_target(ModalKind::AddGameForm, true), CloseTarget::Parent);
    assert_eq!(close_modal_target(ModalKind::AddGameForm, false), CloseTarget::Closed);
    assert_eq!(close_modal_target(ModalKind::ScanFolderStep1Platform, false), CloseTarget::AddGameStep1Type);
    assert_eq!(close_modal_target(ModalKind::WineToolsMenu, true), CloseTarget::Closed);
    assert_eq!(close_modal_target(ModalKind::DownloadCoreModal, false), CloseTarget::Parent);
}

#[test]
fn checkbox_toggles() {
    let mut f = no_flags();
    toggle_launch_option(&mut f, PlatformType::Wine, 9);
    assert!(f.esync);
    toggle_launch_option(&mut f, PlatformType::Wine, 9);
    assert_eq!(f, no_flags());
    toggle_launch_option(&mut f, PlatformType::Native, 4);
    assert!(f.gamemode);
    toggle_launch_option(&mut f, PlatformType::Emulator, 5);
    assert!(f.gamescope);
    toggle_launch_option(&mut f, PlatformType::Steam, 9);
    assert_eq!(f, LaunchFlags { gamemode: true, gamescope: true, ..no_flags() });

    let mut o = ScanFormOptions { recursive: true, use_dat_auto_id: false };
    toggle_scan_option(&mut o, false, 3);
    assert!(!o.use_dat_auto_id);
    toggle_scan_option(&mut o, true, 3);
    assert!(o.use_dat_auto_id);
    toggle_scan_option(&mut o, true, 2);
    assert!(!o.recursive);

    assert_eq!(toggle_chosen(None, 2), Some(2));
    assert_eq!(toggle_chosen(Some(2), 2), None);
    assert_eq!(toggle_chosen(Some(1), 2), Some(2));
}
