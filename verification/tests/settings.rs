use tui_game_station::settings::{open_welcome_wizard, start_screen, StartScreen};
use tui_game_station::settings::{about_status, api_key_to_save, settings_api_key, update_download_labels};

#[test]
fn api_key_is_trimmed_and_must_not_be_blank() {
    assert_eq!(api_key_to_save("  abc123 "), Ok("abc123".to_string()));
    assert_eq!(api_key_to_save("   "), Err("Error: API Key cannot be empty.".to_string()));
    assert_eq!(settings_api_key("  k  "), "k");
    assert_eq!(settings_api_key("   "), "");
}

#[test]
fn about_and_updater_lines() {
    assert_eq!(about_status("0.3.1"), "[About] TUI Game Station v0.3.1");
    let (label, status) = update_download_labels("0.4.0");
    assert_eq!(label, "Updating to v0.4.0");
    assert_eq!(status, "[Updater] Downloading v0.4.0...");
}

#[test]
fn first_run_opens_the_welcome_wizard_with_the_saved_key() {
    match start_screen(&None, &Some("kéy".to_string())) {
        StartScreen::Welcome(w) => {
            assert_eq!(w.step, 0);
            assert_eq!(w.active_field, 0);
            assert_eq!(w.sgdb_api_key, "kéy");
            assert_eq!(w.cursor_pos, 4);
        }
        StartScreen::CheckForUpdates => panic!("first run expected"),
    }
    match start_screen(&Some("false".to_string()), &None) {
        StartScreen::Welcome(w) => {
            assert_eq!(w.sgdb_api_key, "");
            assert_eq!(w.cursor_pos, 0);
        }
        StartScreen::CheckForUpdates => panic!("first run expected"),
    }
    assert!(matches!(start_screen(&Some("true".to_string()), &Some("k".to_string())), StartScreen::CheckForUpdates));
    let w = open_welcome_wizard(&Some("abc".to_string()));
    assert_eq!((w.step, w.active_field, w.cursor_pos), (0, 0, 3));
}
